//! Deterministic generation of one all-day reminder event per target year
//! from a contact's identity properties and an extracted date.

use vstd::prelude::*;

use crate::dates::{
    chrono_date_valid, chrono_next_day, date_digits, fmt_date, next_civil_day, MAX_SUPPORTED_YEAR,
};
use crate::errors::EventExtractorError;
use crate::extract::{
    extraction_result_matches, first_with_key, starts_dashdash, valid_int_str, valid_uint_str,
    int_str_val, uint_str_val, ExtractedDate,
};
use crate::numfmt::{dec_digits, fmt_i64, fmt_pad2, fmt_year, int_digits, year_digits, zero_pad};
use crate::props::{params_model, prop_is, Calendar, Event, EventModel, Property, PropertyModel};
use crate::strutil::str_eq;

verus! {

/// A UTC timestamp, broken into plain fields.  The generation timestamp is
/// captured once per contact-processing call by the caller and threaded
/// through explicitly, so all events of one batch share one stamp.
#[derive(Debug, Clone, Copy, PartialEq, Eq)]
pub struct Timestamp {
    pub year: i32,
    pub month: u32,
    pub day: u32,
    pub hour: u32,
    pub minute: u32,
    pub second: u32,
}

/// A timestamp rendered as calendar text: date, `T`, two-digit hour, minute
/// and second, `Z`.
pub open spec fn timestamp_digits(ts: Timestamp) -> Seq<char> {
    year_digits(ts.year as int) + zero_pad(dec_digits(ts.month as int), 2) + zero_pad(
        dec_digits(ts.day as int),
        2,
    ) + "T"@ + zero_pad(dec_digits(ts.hour as int), 2) + zero_pad(dec_digits(ts.minute as int), 2)
        + zero_pad(dec_digits(ts.second as int), 2) + "Z"@
}

/// Formats a timestamp as calendar text.
pub fn fmt_timestamp(ts: &Timestamp) -> (r: String)
    ensures
        r@ == timestamp_digits(*ts),
{
    let mut out = fmt_year(ts.year);
    let month = fmt_pad2(ts.month as u64);
    out.append(month.as_str());
    let day = fmt_pad2(ts.day as u64);
    out.append(day.as_str());
    out.append("T");
    let hour = fmt_pad2(ts.hour as u64);
    out.append(hour.as_str());
    let minute = fmt_pad2(ts.minute as u64);
    out.append(minute.as_str());
    let second = fmt_pad2(ts.second as u64);
    out.append(second.as_str());
    out.append("Z");
    out
}

/// The summary line of a reminder: the display name, with the age in
/// parentheses when the birth year is known.
pub open spec fn summary_digits(fn_value: Seq<char>, birth_year: Option<i32>, year: i32) -> Seq<
    char,
> {
    match birth_year {
        Some(by) => "Birthday: "@ + fn_value + " ("@ + int_digits(year - by) + ")"@,
        None => "Birthday: "@ + fn_value,
    }
}

/// An event can be generated for this year exactly when the civil date
/// exists, chrono can represent it, and it is not chrono's maximum date.
pub open spec fn year_generable(year: i32, date: ExtractedDate) -> bool {
    chrono_date_valid(year as int, date.month as int, date.day as int) && !(year
        == MAX_SUPPORTED_YEAR && date.month == 12 && date.day == 31)
}

/// The seven properties of one generated reminder event, in their exact
/// order, as functions of the generation inputs.
pub open spec fn event_matches(
    ev: EventModel,
    fn_params: Option<Seq<(Seq<char>, Seq<Seq<char>>)>>,
    fn_value: Seq<char>,
    uid: Seq<char>,
    date: ExtractedDate,
    year: i32,
    ts: Timestamp,
) -> bool {
    &&& ev.alarms.len() == 0
    &&& ev.properties.len() == 7
    &&& prop_is(ev.properties[0], "UID"@, None, Some(uid + "_bday_"@ + int_digits(year as int)))
    &&& prop_is(ev.properties[1], "DTSTAMP"@, None, Some(timestamp_digits(ts)))
    &&& prop_is(ev.properties[2], "STATUS"@, None, Some("CONFIRMED"@))
    &&& prop_is(ev.properties[3], "TRANSP"@, None, Some("TRANSPARENT"@))
    &&& prop_is(
        ev.properties[4],
        "DTSTART"@,
        Some(seq![("VALUE"@, seq!["DATE"@])]),
        Some(date_digits(year as int, date.month as int, date.day as int)),
    )
    &&& prop_is(
        ev.properties[5],
        "DTEND"@,
        Some(seq![("VALUE"@, seq!["DATE"@])]),
        Some(
            {
                let n = next_civil_day(year as int, date.month as int, date.day as int);
                date_digits(n.0, n.1, n.2)
            },
        ),
    )
    &&& prop_is(
        ev.properties[6],
        "SUMMARY"@,
        fn_params,
        Some(summary_digits(fn_value, date.year, year)),
    )
}

/// The full contract of event generation: one event per target year in input
/// order, or the exact error.
pub open spec fn generate_result_matches(
    fnp: PropertyModel,
    uidp: PropertyModel,
    date: ExtractedDate,
    years: Seq<i32>,
    ts: Timestamp,
    r: Result<Vec<Event>, EventExtractorError>,
) -> bool {
    match uidp.value {
        None => r matches Err(EventExtractorError::PropertyValueNotFound(m)) && m@ == "UID"@,
        Some(uid) => match fnp.value {
            None => r matches Err(EventExtractorError::PropertyValueNotFound(m)) && m@ == "FN"@,
            Some(fn_value) => if forall|i: int|
                0 <= i < years.len() ==> year_generable(#[trigger] years[i], date) {
                r matches Ok(evs) && evs.deep_view().len() == years.len() && forall|i: int|
                    0 <= i < years.len() ==> event_matches(
                        #[trigger] evs.deep_view()[i],
                        fnp.params,
                        fn_value,
                        uid,
                        date,
                        years[i],
                        ts,
                    )
            } else {
                r matches Err(e) && e == EventExtractorError::UnexpectedDateFormat
            },
        },
    }
}

/// Clones an optional parameter list, preserving its model.
fn clone_params(params: &Option<Vec<(String, Vec<String>)>>) -> (r: Option<
    Vec<(String, Vec<String>)>,
>)
    ensures
        params_model(r) == params_model(*params),
{
    match params {
        None => None,
        Some(ps) => {
            let ghost psv = ps.deep_view();
            let mut out: Vec<(String, Vec<String>)> = Vec::new();
            let mut i: usize = 0;
            while i < ps.len()
                invariant
                    i <= ps.len(),
                    psv == ps.deep_view(),
                    psv.len() == ps@.len(),
                    out.deep_view() == psv.subrange(0, i as int),
                decreases ps.len() - i,
            {
                let key = ps[i].0.clone();
                let src = &ps[i].1;
                let mut vals: Vec<String> = Vec::new();
                let mut k: usize = 0;
                while k < src.len()
                    invariant
                        k <= src.len(),
                        vals@.len() == k,
                        forall|j: int| 0 <= j < k ==> vals@[j]@ == src@[j]@,
                    decreases src.len() - k,
                {
                    vals.push(src[k].clone());
                    k += 1;
                }
                proof {
                    assert(psv[i as int] == ps@[i as int].deep_view());
                    assert(vals.deep_view() =~~= psv[i as int].1);
                }
                let entry = (key, vals);
                let ghost entry_dv = entry.deep_view();
                let ghost pre = out.deep_view();
                proof {
                    assert(entry_dv == psv[i as int]);
                    assert(pre.len() == i);
                }
                out.push(entry);
                proof {
                    assert(out@.len() == i + 1);
                    assert forall|j: int| 0 <= j < i + 1 implies out.deep_view()[j] == psv.subrange(
                        0,
                        i + 1,
                    )[j] by {
                        if j < i {
                            assert(out.deep_view()[j] == pre[j]);
                        } else {
                            assert(out@[j].deep_view() == entry_dv);
                        }
                    }
                    assert(out.deep_view() =~= psv.subrange(0, i + 1));
                }
                i += 1;
            }
            proof {
                assert(psv.subrange(0, psv.len() as int) =~= psv);
            }
            Some(out)
        },
    }
}

/// The fixed `VALUE=DATE` parameter list carried by date-valued properties.
fn date_params() -> (r: Vec<(String, Vec<String>)>)
    ensures
        r.deep_view() == seq![("VALUE"@, seq!["DATE"@])],
{
    let mut vals: Vec<String> = Vec::new();
    vals.push(String::from_str("DATE"));
    let mut ps: Vec<(String, Vec<String>)> = Vec::new();
    ps.push((String::from_str("VALUE"), vals));
    proof {
        assert(vals.deep_view() =~= seq!["DATE"@]);
        assert(ps.deep_view() =~~= seq![("VALUE"@, seq!["DATE"@])]);
    }
    ps
}

/// Generates one reminder event per target year, in input order.  Every
/// event of one call carries the same timestamp; the output is a pure
/// function of the five inputs.
pub fn generate_events_for_years(
    fn_prop: &Property,
    uid_prop: &Property,
    date: &ExtractedDate,
    years: &Vec<i32>,
    timestamp: &Timestamp,
) -> (r: Result<Vec<Event>, EventExtractorError>)
    ensures
        generate_result_matches(fn_prop@, uid_prop@, *date, years@, *timestamp, r),
{
    let uid = match &uid_prop.value {
        Some(u) => u,
        None => {
            return Err(EventExtractorError::PropertyValueNotFound(String::from_str("UID")));
        },
    };
    let fn_value = match &fn_prop.value {
        Some(v) => v,
        None => {
            return Err(EventExtractorError::PropertyValueNotFound(String::from_str("FN")));
        },
    };
    let dtstamp = fmt_timestamp(timestamp);
    let mut events: Vec<Event> = Vec::new();
    let mut i: usize = 0;
    while i < years.len()
        invariant
            i <= years@.len(),
            uid_prop@.value == Some(uid@),
            fn_prop@.value == Some(fn_value@),
            dtstamp@ == timestamp_digits(*timestamp),
            events.deep_view().len() == i,
            forall|j: int| 0 <= j < i ==> year_generable(#[trigger] years@[j], *date),
            forall|j: int|
                0 <= j < i ==> event_matches(
                    #[trigger] events.deep_view()[j],
                    fn_prop@.params,
                    fn_value@,
                    uid@,
                    *date,
                    years@[j],
                    *timestamp,
                ),
        decreases years@.len() - i,
    {
        let year = years[i];
        let nd = match chrono_next_day(year, date.month, date.day) {
            Some(t) => t,
            None => {
                return Err(EventExtractorError::UnexpectedDateFormat);
            },
        };
        let mut props: Vec<Property> = Vec::new();
        let mut uid_val = uid.clone();
        uid_val.append("_bday_");
        let year_dec = fmt_i64(year as i64);
        uid_val.append(year_dec.as_str());
        props.push(Property { name: String::from_str("UID"), params: None, value: Some(uid_val) });
        props.push(
            Property {
                name: String::from_str("DTSTAMP"),
                params: None,
                value: Some(dtstamp.clone()),
            },
        );
        props.push(
            Property {
                name: String::from_str("STATUS"),
                params: None,
                value: Some(String::from_str("CONFIRMED")),
            },
        );
        props.push(
            Property {
                name: String::from_str("TRANSP"),
                params: None,
                value: Some(String::from_str("TRANSPARENT")),
            },
        );
        props.push(
            Property {
                name: String::from_str("DTSTART"),
                params: Some(date_params()),
                value: Some(fmt_date(year, date.month, date.day)),
            },
        );
        props.push(
            Property {
                name: String::from_str("DTEND"),
                params: Some(date_params()),
                value: Some(fmt_date(nd.0, nd.1, nd.2)),
            },
        );
        let mut summary = String::from_str("Birthday: ");
        summary.append(fn_value.as_str());
        if let Some(by) = date.year {
            summary.append(" (");
            let age = fmt_i64(year as i64 - by as i64);
            summary.append(age.as_str());
            summary.append(")");
        }
        props.push(
            Property {
                name: String::from_str("SUMMARY"),
                params: clone_params(&fn_prop.params),
                value: Some(summary),
            },
        );
        let ev = Event { properties: props, alarms: Vec::new() };
        proof {
            assert(ev@.properties.len() == 7);
            assert(ev@.alarms =~= Seq::<Seq<PropertyModel>>::empty());
            assert(event_matches(
                ev@,
                fn_prop@.params,
                fn_value@,
                uid@,
                *date,
                years@[i as int],
                *timestamp,
            ));
        }
        let ghost pre = events.deep_view();
        events.push(ev);
        proof {
            assert(events.deep_view() =~= pre.push(ev@));
        }
        i += 1;
    }
    Ok(events)
}

/// The first property carrying the given name, if any.
pub open spec fn first_named(props: Seq<PropertyModel>, name: Seq<char>) -> Option<PropertyModel>
    decreases props.len(),
{
    if props.len() == 0 {
        None
    } else if props[0].name == name {
        Some(props[0])
    } else {
        first_named(props.drop_first(), name)
    }
}

/// Finds the index of the first property carrying the given name.
fn find_first_named(properties: &Vec<Property>, name: &str) -> (r: Option<usize>)
    ensures
        match r {
            Some(j) => j < properties@.len() && first_named(properties.deep_view(), name@) == Some(
                properties.deep_view()[j as int],
            ),
            None => first_named(properties.deep_view(), name@) is None,
        },
{
    let ghost psv = properties.deep_view();
    proof {
        assert(psv.skip(0) =~= psv);
    }
    let n = properties.len();
    let mut i: usize = 0;
    while i < n
        invariant
            i <= n,
            n == properties@.len(),
            psv == properties.deep_view(),
            psv.len() == n,
            first_named(psv, name@) == first_named(psv.skip(i as int), name@),
        decreases n - i,
    {
        if str_eq(properties[i].name.as_str(), name) {
            proof {
                assert(psv.skip(i as int)[0] == psv[i as int]);
            }
            return Some(i);
        }
        proof {
            assert(psv.skip(i as int)[0] == psv[i as int]);
            assert(psv.skip(i as int).drop_first() =~= psv.skip(i + 1));
        }
        i += 1;
    }
    proof {
        assert(psv.skip(n as int) =~= Seq::empty());
    }
    None
}

/// Extraction succeeds on this property.
pub open spec fn extract_ok(p: PropertyModel) -> bool {
    match p.params {
        None => false,
        Some(ps) => match first_with_key(ps, "VALUE"@) {
            None => false,
            Some(vp) => vp.1.len() == 1 && vp.1[0] == "DATE"@ && match p.value {
                None => false,
                Some(v) => date_value_ok(v),
            },
        },
    }
}

/// The date value string parses as a full or year-less date.
pub open spec fn date_value_ok(v: Seq<char>) -> bool {
    ||| (v.len() == 8 && !starts_dashdash(v) && valid_int_str(v.subrange(0, 4)) && valid_uint_str(
        v.subrange(4, 6),
    ) && valid_uint_str(v.subrange(6, 8)))
    ||| (v.len() == 6 && starts_dashdash(v) && valid_uint_str(v.subrange(2, 4)) && valid_uint_str(
        v.subrange(4, 6),
    ))
}

/// The date a valid date value string denotes.
pub open spec fn date_value_date(v: Seq<char>) -> ExtractedDate {
    if v.len() == 8 {
        ExtractedDate {
            year: Some(int_str_val(v.subrange(0, 4)) as i32),
            month: uint_str_val(v.subrange(4, 6)) as u32,
            day: uint_str_val(v.subrange(6, 8)) as u32,
        }
    } else {
        ExtractedDate {
            year: None,
            month: uint_str_val(v.subrange(2, 4)) as u32,
            day: uint_str_val(v.subrange(4, 6)) as u32,
        }
    }
}

/// The date extracted from a property on which `extract_ok` holds.
pub open spec fn extract_date(p: PropertyModel) -> ExtractedDate
    recommends
        extract_ok(p),
{
    date_value_date(p.value.unwrap())
}

/// The full contract of contact conversion: the first `FN`, `UID` and `BDAY`
/// properties decide, a missing `BDAY` yields zero events, and extraction
/// and generation errors pass through unchanged.
pub open spec fn convert_result_matches(
    props: Seq<PropertyModel>,
    years: Seq<i32>,
    ts: Timestamp,
    r: Result<Vec<Event>, EventExtractorError>,
) -> bool {
    match first_named(props, "FN"@) {
        None => r matches Err(EventExtractorError::PropertyNotFound(m)) && m@ == "FN"@,
        Some(fnp) => match first_named(props, "UID"@) {
            None => r matches Err(EventExtractorError::PropertyNotFound(m)) && m@ == "UID"@,
            Some(uidp) => match first_named(props, "BDAY"@) {
                None => r matches Ok(evs) && evs@.len() == 0,
                Some(bdayp) => if extract_ok(bdayp) {
                    generate_result_matches(fnp, uidp, extract_date(bdayp), years, ts, r)
                } else {
                    r matches Err(e) && extraction_result_matches(bdayp, Err(e))
                },
            },
        },
    }
}

/// Converts one contact, given as its ordered property list, into reminder
/// events for the target years.  A contact without a `BDAY` property yields
/// zero events; one without `FN` or `UID` is an error.
pub fn convert(properties: &Vec<Property>, years: &Vec<i32>, timestamp: &Timestamp) -> (r: Result<
    Vec<Event>,
    EventExtractorError,
>)
    ensures
        convert_result_matches(properties.deep_view(), years@, *timestamp, r),
{
    let fn_idx = match find_first_named(properties, "FN") {
        Some(j) => j,
        None => {
            return Err(EventExtractorError::PropertyNotFound(String::from_str("FN")));
        },
    };
    let uid_idx = match find_first_named(properties, "UID") {
        Some(j) => j,
        None => {
            return Err(EventExtractorError::PropertyNotFound(String::from_str("UID")));
        },
    };
    let bday_idx = match find_first_named(properties, "BDAY") {
        Some(j) => j,
        None => {
            return Ok(Vec::new());
        },
    };
    let date = match ExtractedDate::try_from(&properties[bday_idx]) {
        Ok(d) => d,
        Err(e) => {
            return Err(e);
        },
    };
    generate_events_for_years(
        &properties[fn_idx],
        &properties[uid_idx],
        &date,
        years,
        timestamp,
    )
}

/// Wraps one generated event into a fresh one-event calendar carrying the
/// two fixed header properties, ready for serialization.
pub fn wrap_event(event: Event) -> (r: Calendar)
    ensures
        r.properties.deep_view().len() == 2,
        prop_is(r.properties.deep_view()[0], "VERSION"@, None, Some("2.0"@)),
        prop_is(
            r.properties.deep_view()[1],
            "PRODID"@,
            None,
            Some("event-extractor//hochreiner.net"@),
        ),
        r.events.deep_view() == seq![event@],
        r.alarms@.len() == 0,
        r.todos@.len() == 0,
        r.journals@.len() == 0,
        r.free_busys@.len() == 0,
        r.timezones@.len() == 0,
{
    let mut properties: Vec<Property> = Vec::new();
    properties.push(
        Property {
            name: String::from_str("VERSION"),
            params: None,
            value: Some(String::from_str("2.0")),
        },
    );
    properties.push(
        Property {
            name: String::from_str("PRODID"),
            params: None,
            value: Some(String::from_str("event-extractor//hochreiner.net")),
        },
    );
    let ghost ev_model = event@;
    let mut events: Vec<Event> = Vec::new();
    events.push(event);
    proof {
        assert(events.deep_view() =~= seq![ev_model]);
    }
    Calendar {
        properties,
        events,
        alarms: Vec::new(),
        todos: Vec::new(),
        journals: Vec::new(),
        free_busys: Vec::new(),
        timezones: Vec::new(),
    }
}

/// The value of an event's first `UID` property, from which the output file
/// name is derived.
pub fn event_uid(event: &Event) -> (r: Result<String, EventExtractorError>)
    ensures
        match first_named(event@.properties, "UID"@) {
            None => r matches Err(EventExtractorError::PropertyNotFound(m)) && m@ == "UID"@,
            Some(p) => match p.value {
                None => r matches Err(EventExtractorError::PropertyValueNotFound(m)) && m@
                    == "UID"@,
                Some(v) => r matches Ok(s) && s@ == v,
            },
        },
{
    let idx = match find_first_named(&event.properties, "UID") {
        Some(j) => j,
        None => {
            return Err(EventExtractorError::PropertyNotFound(String::from_str("UID")));
        },
    };
    match &event.properties[idx].value {
        Some(v) => Ok(v.clone()),
        None => Err(EventExtractorError::PropertyValueNotFound(String::from_str("UID"))),
    }
}

/// The four target years derived from the current year: the previous year,
/// the current one, and the next two.
pub fn target_years(current_year: i32) -> (r: Vec<i32>)
    requires
        i32::MIN <= current_year - 1,
        current_year + 2 <= i32::MAX,
    ensures
        r@ == seq![
            (current_year - 1) as i32,
            current_year,
            (current_year + 1) as i32,
            (current_year + 2) as i32,
        ],
{
    let mut years: Vec<i32> = Vec::new();
    years.push(current_year - 1);
    years.push(current_year);
    years.push(current_year + 1);
    years.push(current_year + 2);
    proof {
        assert(years@ =~= seq![
            (current_year - 1) as i32,
            current_year,
            (current_year + 1) as i32,
            (current_year + 2) as i32,
        ]);
    }
    years
}

/// Generation is deterministic: any two event sequences that satisfy the
/// generation contract for the same inputs are equal, and therefore render
/// to byte-identical calendar text.
pub proof fn lemma_generate_deterministic(
    evs1: Seq<EventModel>,
    evs2: Seq<EventModel>,
    fn_params: Option<Seq<(Seq<char>, Seq<Seq<char>>)>>,
    fn_value: Seq<char>,
    uid: Seq<char>,
    date: ExtractedDate,
    years: Seq<i32>,
    ts: Timestamp,
)
    requires
        evs1.len() == years.len(),
        evs2.len() == years.len(),
        forall|i: int|
            0 <= i < years.len() ==> event_matches(
                #[trigger] evs1[i],
                fn_params,
                fn_value,
                uid,
                date,
                years[i],
                ts,
            ),
        forall|i: int|
            0 <= i < years.len() ==> event_matches(
                #[trigger] evs2[i],
                fn_params,
                fn_value,
                uid,
                date,
                years[i],
                ts,
            ),
    ensures
        evs1 =~~= evs2,
        crate::ser::events_text(evs1) == crate::ser::events_text(evs2),
{
    assert forall|i: int| 0 <= i < years.len() implies evs1[i] =~~= evs2[i] by {
        assert(evs1[i].properties =~= evs2[i].properties);
        assert(evs1[i].alarms =~= evs2[i].alarms);
    }
    assert(evs1 =~~= evs2);
}

} // verus!
