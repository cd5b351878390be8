//! Extraction of a normalized, possibly year-less date from a loosely-typed
//! property value.

use vstd::prelude::*;

use crate::errors::EventExtractorError;
use crate::props::{Property, PropertyModel};
use crate::strutil::str_eq;

verus! {

/// A normalized calendar date taken from a property.  An absent year means
/// "recurring, year-independent".
#[derive(Debug, Clone, Copy, PartialEq, Eq)]
pub struct ExtractedDate {
    pub year: Option<i32>,
    pub month: u32,
    pub day: u32,
}

/// A decimal digit character.
pub open spec fn is_digit(c: char) -> bool {
    '0' <= c && c <= '9'
}

/// The numeric value of a digit character.
pub open spec fn digit_val(c: char) -> int {
    c as int - '0' as int
}

/// Every character of `s` is a decimal digit.
pub open spec fn all_digits(s: Seq<char>) -> bool {
    forall|i: int| 0 <= i < s.len() ==> is_digit(#[trigger] s[i])
}

/// The value of a digit string, most significant digit first.
pub open spec fn digits_val(s: Seq<char>) -> int
    decreases s.len(),
{
    if s.len() == 0 {
        0
    } else {
        digits_val(s.drop_last()) * 10 + digit_val(s.last())
    }
}

/// The strings accepted as unsigned integers: at least one digit, after an
/// optional leading `'+'`.
pub open spec fn valid_uint_str(s: Seq<char>) -> bool {
    if s.len() >= 1 && s[0] == '+' {
        s.len() >= 2 && all_digits(s.skip(1))
    } else {
        s.len() >= 1 && all_digits(s)
    }
}

/// The value of a string accepted by `valid_uint_str`.
pub open spec fn uint_str_val(s: Seq<char>) -> int {
    if s.len() >= 1 && s[0] == '+' {
        digits_val(s.skip(1))
    } else {
        digits_val(s)
    }
}

/// The strings accepted as signed integers: an unsigned integer, or digits
/// after a leading `'-'`.
pub open spec fn valid_int_str(s: Seq<char>) -> bool {
    if s.len() >= 1 && s[0] == '-' {
        s.len() >= 2 && all_digits(s.skip(1))
    } else {
        valid_uint_str(s)
    }
}

/// The value of a string accepted by `valid_int_str`.
pub open spec fn int_str_val(s: Seq<char>) -> int {
    if s.len() >= 1 && s[0] == '-' {
        -digits_val(s.skip(1))
    } else {
        uint_str_val(s)
    }
}

/// Ten to the power `n` (one for `n <= 0`).
pub open spec fn pow10(n: int) -> int
    decreases n,
{
    if n <= 0 {
        1
    } else {
        10 * pow10(n - 1)
    }
}

/// The first parameter carrying the given key, if any.
pub open spec fn first_with_key(
    ps: Seq<(Seq<char>, Seq<Seq<char>>)>,
    key: Seq<char>,
) -> Option<(Seq<char>, Seq<Seq<char>>)>
    decreases ps.len(),
{
    if ps.len() == 0 {
        None
    } else if ps[0].0 == key {
        Some(ps[0])
    } else {
        first_with_key(ps.drop_first(), key)
    }
}

/// `v` starts with the two characters `--` marking a year-less date.
pub open spec fn starts_dashdash(v: Seq<char>) -> bool {
    v.len() >= 2 && v[0] == '-' && v[1] == '-'
}

/// What extraction returns for a date value string `v` that has already
/// passed the `VALUE=DATE` parameter checks.
pub open spec fn date_value_result(
    v: Seq<char>,
    r: Result<ExtractedDate, EventExtractorError>,
) -> bool {
    if v.len() == 8 && !starts_dashdash(v) {
        if !valid_int_str(v.subrange(0, 4)) {
            r matches Err(EventExtractorError::ParseDateFailed(f, raw)) && f@ == "year"@ && raw@
                == v.subrange(0, 4)
        } else if !valid_uint_str(v.subrange(4, 6)) {
            r matches Err(EventExtractorError::ParseDateFailed(f, raw)) && f@ == "month"@ && raw@
                == v.subrange(4, 6)
        } else if !valid_uint_str(v.subrange(6, 8)) {
            r matches Err(EventExtractorError::ParseDateFailed(f, raw)) && f@ == "day"@ && raw@
                == v.subrange(6, 8)
        } else {
            r matches Ok(d) && d == (ExtractedDate {
                year: Some(int_str_val(v.subrange(0, 4)) as i32),
                month: uint_str_val(v.subrange(4, 6)) as u32,
                day: uint_str_val(v.subrange(6, 8)) as u32,
            })
        }
    } else if v.len() == 6 && starts_dashdash(v) {
        if !valid_uint_str(v.subrange(2, 4)) {
            r matches Err(EventExtractorError::ParseDateFailed(f, raw)) && f@ == "month"@ && raw@
                == v.subrange(2, 4)
        } else if !valid_uint_str(v.subrange(4, 6)) {
            r matches Err(EventExtractorError::ParseDateFailed(f, raw)) && f@ == "day"@ && raw@
                == v.subrange(4, 6)
        } else {
            r matches Ok(d) && d == (ExtractedDate {
                year: None,
                month: uint_str_val(v.subrange(2, 4)) as u32,
                day: uint_str_val(v.subrange(4, 6)) as u32,
            })
        }
    } else {
        r == Result::<ExtractedDate, EventExtractorError>::Err(
            EventExtractorError::UnexpectedDateFormat,
        )
    }
}

/// The full contract of date extraction from a property: which date comes
/// out, and which error on exactly which inputs.
pub open spec fn extraction_result_matches(
    p: PropertyModel,
    r: Result<ExtractedDate, EventExtractorError>,
) -> bool {
    match p.params {
        None => r matches Err(EventExtractorError::DateExtractionFailed(m)) && m@
            == "no parameters found"@,
        Some(ps) => match first_with_key(ps, "VALUE"@) {
            None => r matches Err(EventExtractorError::DateExtractionFailed(m)) && m@
                == "could not determine value type"@,
            Some(vp) => if vp.1.len() != 1 {
                r matches Err(EventExtractorError::DateExtractionFailed(m)) && m@
                    == "value type not unique"@
            } else if vp.1[0] != "DATE"@ {
                r matches Err(EventExtractorError::DateExtractionFailed(m)) && m@
                    == "expected value type \"DATE\" found \""@ + vp.1[0] + "\""@
            } else {
                match p.value {
                    None => r matches Err(EventExtractorError::DateExtractionFailed(m)) && m@
                        == "no date value found"@,
                    Some(v) => date_value_result(v, r),
                }
            },
        },
    }
}

/// Parses the digit run `s[from..to]`; fails on an empty range or on any
/// non-digit character.
fn parse_digits(s: &str, from: usize, to: usize) -> (r: Option<u32>)
    requires
        from <= to <= s@.len(),
        to - from <= 4,
    ensures
        match r {
            Some(v) => from < to && all_digits(s@.subrange(from as int, to as int)) && v
                == digits_val(s@.subrange(from as int, to as int)) && v <= 9999,
            None => !(from < to && all_digits(s@.subrange(from as int, to as int))),
        },
{
    proof {
        assert(pow10(0) == 1);
        assert(pow10(1) == 10);
        assert(pow10(2) == 100);
        assert(pow10(3) == 1000);
        assert(pow10(4) == 10000);
    }
    if from == to {
        return None;
    }
    let mut acc: u32 = 0;
    let mut i: usize = from;
    while i < to
        invariant
            from <= i <= to <= s@.len(),
            to - from <= 4,
            all_digits(s@.subrange(from as int, i as int)),
            acc == digits_val(s@.subrange(from as int, i as int)),
            acc < pow10(i - from),
            pow10(0) == 1 && pow10(1) == 10 && pow10(2) == 100 && pow10(3) == 1000 && pow10(4)
                == 10000,
        decreases to - i,
    {
        let c = s.get_char(i);
        if c < '0' || c > '9' {
            proof {
                assert(!is_digit(s@[i as int]));
                assert(s@.subrange(from as int, to as int)[i - from] == s@[i as int]);
            }
            return None;
        }
        let d: u32 = (c as u32) - 48;
        proof {
            let pre = s@.subrange(from as int, i as int);
            let cur = s@.subrange(from as int, i + 1);
            assert(cur.drop_last() =~= pre);
            assert(cur.last() == s@[i as int]);
            assert(d == digit_val(s@[i as int]));
            assert(acc * 10 + d < pow10(i + 1 - from));
        }
        acc = acc * 10 + d;
        i += 1;
    }
    proof {
        assert(s@.subrange(from as int, to as int) =~= s@.subrange(from as int, i as int));
    }
    Some(acc)
}

/// Parses an unsigned integer as Rust does: optional `'+'`, then digits.
fn parse_uint(s: &str) -> (r: Option<u32>)
    requires
        s@.len() <= 4,
    ensures
        match r {
            Some(v) => valid_uint_str(s@) && v == uint_str_val(s@) && v <= 9999,
            None => !valid_uint_str(s@),
        },
{
    let n = s.unicode_len();
    if n == 0 {
        return None;
    }
    if s.get_char(0) == '+' {
        let r = parse_digits(s, 1, n);
        proof {
            assert(s@.subrange(1, n as int) =~= s@.skip(1));
        }
        r
    } else {
        let r = parse_digits(s, 0, n);
        proof {
            assert(s@.subrange(0, n as int) =~= s@);
        }
        r
    }
}

/// Parses a signed integer as Rust does: optional `'+'` or `'-'`, then
/// digits.
fn parse_int(s: &str) -> (r: Option<i32>)
    requires
        s@.len() <= 4,
    ensures
        match r {
            Some(v) => valid_int_str(s@) && v == int_str_val(s@),
            None => !valid_int_str(s@),
        },
{
    let n = s.unicode_len();
    if n == 0 {
        return None;
    }
    if s.get_char(0) == '-' {
        match parse_digits(s, 1, n) {
            Some(v) => {
                proof {
                    assert(s@.subrange(1, n as int) =~= s@.skip(1));
                }
                Some(-(v as i32))
            },
            None => {
                proof {
                    assert(s@.subrange(1, n as int) =~= s@.skip(1));
                }
                None
            },
        }
    } else {
        match parse_uint(s) {
            Some(v) => Some(v as i32),
            None => None,
        }
    }
}

impl ExtractedDate {
    /// Extracts a date from a property: the property must carry a `VALUE`
    /// parameter with the single value `DATE`, and its value string must be
    /// either an eight-character full date or a six-character `--MMDD`
    /// year-less date.
    pub fn try_from(property: &Property) -> (r: Result<ExtractedDate, EventExtractorError>)
        ensures
            extraction_result_matches(property@, r),
    {
        let params = match &property.params {
            Some(ps) => ps,
            None => {
                return Err(
                    EventExtractorError::DateExtractionFailed(
                        String::from_str("no parameters found"),
                    ),
                );
            },
        };
        let ghost psv = params.deep_view();
        proof {
            assert(psv.skip(0) =~= psv);
        }
        let n = params.len();
        let mut i: usize = 0;
        let mut found: Option<usize> = None;
        while i < n
            invariant
                0 <= i <= n,
                n == params@.len(),
                psv == params.deep_view(),
                psv.len() == n,
                match found {
                    Some(j) => j < i && first_with_key(psv, "VALUE"@) == Some(psv[j as int]),
                    None => first_with_key(psv, "VALUE"@) == first_with_key(
                        psv.skip(i as int),
                        "VALUE"@,
                    ),
                },
            decreases n - i,
        {
            if found.is_none() && str_eq(params[i].0.as_str(), "VALUE") {
                proof {
                    assert(psv.skip(i as int)[0] == psv[i as int]);
                    assert(psv[i as int].0 == "VALUE"@);
                }
                found = Some(i);
            } else {
                proof {
                    if found is None {
                        assert(psv.skip(i as int).drop_first() =~= psv.skip(i + 1));
                        assert(psv.skip(i as int)[0] == psv[i as int]);
                    }
                }
            }
            i += 1;
        }
        let idx = match found {
            Some(j) => j,
            None => {
                proof {
                    assert(psv.skip(n as int) =~= Seq::empty());
                }
                return Err(
                    EventExtractorError::DateExtractionFailed(
                        String::from_str("could not determine value type"),
                    ),
                );
            },
        };
        let vals = &params[idx].1;
        proof {
            assert(psv[idx as int] == (params@[idx as int].0@, params@[idx as int].1.deep_view()));
        }
        if vals.len() != 1 {
            return Err(
                EventExtractorError::DateExtractionFailed(String::from_str("value type not unique")),
            );
        }
        let param_value = &vals[0];
        if !str_eq(param_value.as_str(), "DATE") {
            let mut m = String::from_str("expected value type \"DATE\" found \"");
            m.append(param_value.as_str());
            m.append("\"");
            return Err(EventExtractorError::DateExtractionFailed(m));
        }
        let value = match &property.value {
            Some(v) => v,
            None => {
                return Err(
                    EventExtractorError::DateExtractionFailed(
                        String::from_str("no date value found"),
                    ),
                );
            },
        };
        let vlen = value.as_str().unicode_len();
        let dashdash = vlen >= 2 && value.as_str().get_char(0) == '-' && value.as_str().get_char(1)
            == '-';
        if vlen == 8 && !dashdash {
            let year_str = value.as_str().substring_char(0, 4);
            let year = match parse_int(year_str) {
                Some(y) => y,
                None => {
                    return Err(
                        EventExtractorError::ParseDateFailed(
                            String::from_str("year"),
                            year_str.to_owned(),
                        ),
                    );
                },
            };
            let month_str = value.as_str().substring_char(4, 6);
            let month = match parse_uint(month_str) {
                Some(m) => m,
                None => {
                    return Err(
                        EventExtractorError::ParseDateFailed(
                            String::from_str("month"),
                            month_str.to_owned(),
                        ),
                    );
                },
            };
            let day_str = value.as_str().substring_char(6, 8);
            let day = match parse_uint(day_str) {
                Some(d) => d,
                None => {
                    return Err(
                        EventExtractorError::ParseDateFailed(
                            String::from_str("day"),
                            day_str.to_owned(),
                        ),
                    );
                },
            };
            Ok(ExtractedDate { year: Some(year), month, day })
        } else if vlen == 6 && dashdash {
            let month_str = value.as_str().substring_char(2, 4);
            let month = match parse_uint(month_str) {
                Some(m) => m,
                None => {
                    return Err(
                        EventExtractorError::ParseDateFailed(
                            String::from_str("month"),
                            month_str.to_owned(),
                        ),
                    );
                },
            };
            let day_str = value.as_str().substring_char(4, 6);
            let day = match parse_uint(day_str) {
                Some(d) => d,
                None => {
                    return Err(
                        EventExtractorError::ParseDateFailed(
                            String::from_str("day"),
                            day_str.to_owned(),
                        ),
                    );
                },
            };
            Ok(ExtractedDate { year: None, month, day })
        } else {
            Err(EventExtractorError::UnexpectedDateFormat)
        }
    }
}

} // verus!
