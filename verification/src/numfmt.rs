//! Verified decimal formatting of the integers that appear in calendar text:
//! plain decimal, zero-padded fields, and the four-digit year form.

use vstd::prelude::*;

verus! {

/// The decimal digit character for `d` (0 through 9).
pub open spec fn digit_char(d: int) -> char {
    if d == 0 {
        '0'
    } else if d == 1 {
        '1'
    } else if d == 2 {
        '2'
    } else if d == 3 {
        '3'
    } else if d == 4 {
        '4'
    } else if d == 5 {
        '5'
    } else if d == 6 {
        '6'
    } else if d == 7 {
        '7'
    } else if d == 8 {
        '8'
    } else {
        '9'
    }
}

/// The decimal digits of a non-negative integer, most significant first,
/// without leading zeros (a single `'0'` for zero).
pub open spec fn dec_digits(n: int) -> Seq<char>
    recommends
        n >= 0,
    decreases n,
{
    if n < 10 {
        seq![digit_char(n)]
    } else {
        dec_digits(n / 10).push(digit_char(n % 10))
    }
}

/// A run of `k` zero characters (empty for `k <= 0`).
pub open spec fn zeros(k: int) -> Seq<char>
    decreases k,
{
    if k <= 0 {
        Seq::empty()
    } else {
        seq!['0'] + zeros(k - 1)
    }
}

/// `s` left-padded with zeros to width `w` (unchanged if already that wide).
pub open spec fn zero_pad(s: Seq<char>, w: int) -> Seq<char> {
    zeros(w - s.len()) + s
}

/// The decimal form of a signed integer: a leading `'-'` for negatives.
pub open spec fn int_digits(v: int) -> Seq<char> {
    if v >= 0 {
        dec_digits(v)
    } else {
        seq!['-'] + dec_digits(-v)
    }
}

/// A year rendered as calendar text: zero-padded to four digits, with an
/// explicit sign for years outside 0 through 9999.
pub open spec fn year_digits(y: int) -> Seq<char> {
    if 0 <= y && y <= 9999 {
        zero_pad(dec_digits(y), 4)
    } else if y > 9999 {
        seq!['+'] + dec_digits(y)
    } else {
        seq!['-'] + zero_pad(dec_digits(-y), 4)
    }
}

/// How many digits `dec_digits` yields at each power-of-ten threshold.
pub proof fn lemma_dec_digits_len(n: int)
    requires
        n >= 0,
    ensures
        dec_digits(n).len() >= 1,
        n < 10 ==> dec_digits(n).len() == 1,
        10 <= n < 100 ==> dec_digits(n).len() == 2,
        100 <= n < 1000 ==> dec_digits(n).len() == 3,
        1000 <= n < 10000 ==> dec_digits(n).len() == 4,
        n >= 10000 ==> dec_digits(n).len() >= 5,
    decreases n,
{
    if n >= 10 {
        lemma_dec_digits_len(n / 10);
    }
}

/// The digit character for `d`, as a one-character string slice.
fn digit_str(d: u64) -> (r: &'static str)
    requires
        d < 10,
    ensures
        r@ == seq![digit_char(d as int)],
{
    proof {
        reveal_strlit("0");
        reveal_strlit("1");
        reveal_strlit("2");
        reveal_strlit("3");
        reveal_strlit("4");
        reveal_strlit("5");
        reveal_strlit("6");
        reveal_strlit("7");
        reveal_strlit("8");
        reveal_strlit("9");
    }
    let r = match d {
        0 => "0",
        1 => "1",
        2 => "2",
        3 => "3",
        4 => "4",
        5 => "5",
        6 => "6",
        7 => "7",
        8 => "8",
        _ => "9",
    };
    proof {
        assert(r@ =~= seq![digit_char(d as int)]);
    }
    r
}

/// Formats `n` in plain decimal.
pub fn fmt_u64(n: u64) -> (r: String)
    ensures
        r@ == dec_digits(n as int),
    decreases n,
{
    if n < 10 {
        String::from_str(digit_str(n))
    } else {
        let mut s = fmt_u64(n / 10);
        s.append(digit_str(n % 10));
        proof {
            assert(s@ =~= dec_digits(n as int));
        }
        s
    }
}

/// Formats `n` in decimal, zero-padded to at least two digits.
pub fn fmt_pad2(n: u64) -> (r: String)
    ensures
        r@ == zero_pad(dec_digits(n as int), 2),
{
    proof {
        lemma_dec_digits_len(n as int);
    }
    if n < 10 {
        let mut s = String::from_str("0");
        s.append(digit_str(n));
        proof {
            reveal_strlit("0");
            assert(zeros(0) =~= Seq::<char>::empty());
            assert(zeros(1) =~= seq!['0']);
            assert(s@ =~= zero_pad(dec_digits(n as int), 2));
        }
        s
    } else {
        let s = fmt_u64(n);
        proof {
            assert(zeros(2 - s@.len()) =~= Seq::<char>::empty());
            assert(s@ =~= zero_pad(dec_digits(n as int), 2));
        }
        s
    }
}

/// Formats `n` in decimal, zero-padded to at least four digits.
pub fn fmt_pad4(n: u64) -> (r: String)
    ensures
        r@ == zero_pad(dec_digits(n as int), 4),
{
    proof {
        lemma_dec_digits_len(n as int);
        reveal_strlit("000");
        reveal_strlit("00");
        reveal_strlit("0");
    }
    let mut s = if n < 10 {
        String::from_str("000")
    } else if n < 100 {
        String::from_str("00")
    } else if n < 1000 {
        String::from_str("0")
    } else {
        String::new()
    };
    let digits = fmt_u64(n);
    s.append(digits.as_str());
    proof {
        assert(zeros(0) =~= Seq::<char>::empty());
        assert(zeros(1) =~= seq!['0']);
        assert(zeros(2) =~= seq!['0', '0']);
        assert(zeros(3) =~= seq!['0', '0', '0']);
        assert("0"@ =~= zeros(1));
        assert("00"@ =~= zeros(2));
        assert("000"@ =~= zeros(3));
        assert(s@ =~= zero_pad(dec_digits(n as int), 4));
    }
    s
}

/// Formats a signed value in plain decimal, with a `'-'` for negatives.
pub fn fmt_i64(v: i64) -> (r: String)
    requires
        v > i64::MIN,
    ensures
        r@ == int_digits(v as int),
{
    if v >= 0 {
        fmt_u64(v as u64)
    } else {
        let mut s = String::from_str("-");
        let digits = fmt_u64((-v) as u64);
        s.append(digits.as_str());
        proof {
            reveal_strlit("-");
            assert(s@ =~= int_digits(v as int));
        }
        s
    }
}

/// Formats a year: zero-padded to four digits, an explicit sign outside
/// 0 through 9999.
pub fn fmt_year(y: i32) -> (r: String)
    ensures
        r@ == year_digits(y as int),
{
    if 0 <= y && y <= 9999 {
        fmt_pad4(y as u64)
    } else if y > 9999 {
        let mut s = String::from_str("+");
        let digits = fmt_u64(y as u64);
        s.append(digits.as_str());
        proof {
            reveal_strlit("+");
            assert(s@ =~= year_digits(y as int));
        }
        s
    } else {
        let mut s = String::from_str("-");
        let digits = fmt_pad4((-(y as i64)) as u64);
        s.append(digits.as_str());
        proof {
            reveal_strlit("-");
            assert(s@ =~= year_digits(y as int));
        }
        s
    }
}

} // verus!
