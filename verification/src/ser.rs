//! Bit-exact serialization of the in-memory calendar model to its textual
//! wire format.  Validation comes first and output second: a rejected
//! calendar never yields any output text.

use vstd::prelude::*;

use crate::errors::SerializationError;
use crate::props::{Calendar, Event, EventModel, Property, PropertyModel};

verus! {

/// Parameter values joined by commas, in order, with no escaping.
pub open spec fn join_comma(vals: Seq<Seq<char>>) -> Seq<char>
    decreases vals.len(),
{
    if vals.len() == 0 {
        Seq::empty()
    } else if vals.len() == 1 {
        vals[0]
    } else {
        join_comma(vals.drop_last()) + ","@ + vals.last()
    }
}

/// One rendered parameter: `;name=v1,v2,...`.
pub open spec fn param_text(p: (Seq<char>, Seq<Seq<char>>)) -> Seq<char> {
    ";"@ + p.0 + "="@ + join_comma(p.1)
}

/// All parameters of a property, rendered in list order.
pub open spec fn params_text(ps: Seq<(Seq<char>, Seq<Seq<char>>)>) -> Seq<char>
    decreases ps.len(),
{
    if ps.len() == 0 {
        Seq::empty()
    } else {
        params_text(ps.drop_last()) + param_text(ps.last())
    }
}

/// One rendered property line: name, parameters in order, then `:value` if a
/// value is present (no colon segment at all otherwise), terminated by CRLF.
pub open spec fn property_text(p: PropertyModel) -> Seq<char> {
    p.name + (match p.params {
        Some(ps) => params_text(ps),
        None => Seq::empty(),
    }) + (match p.value {
        Some(v) => ":"@ + v,
        None => Seq::empty(),
    }) + "\r\n"@
}

/// A list of properties rendered in list order.
pub open spec fn props_text(ps: Seq<PropertyModel>) -> Seq<char>
    decreases ps.len(),
{
    if ps.len() == 0 {
        Seq::empty()
    } else {
        props_text(ps.drop_last()) + property_text(ps.last())
    }
}

/// One rendered event: `BEGIN:VEVENT`, its properties in order, `END:VEVENT`.
pub open spec fn event_text(e: EventModel) -> Seq<char> {
    "BEGIN:VEVENT\r\n"@ + props_text(e.properties) + "END:VEVENT\r\n"@
}

/// A list of events rendered in list order.
pub open spec fn events_text(es: Seq<EventModel>) -> Seq<char>
    decreases es.len(),
{
    if es.len() == 0 {
        Seq::empty()
    } else {
        events_text(es.drop_last()) + event_text(es.last())
    }
}

/// A whole rendered calendar: header, top-level properties in order, events
/// in order, footer.
pub open spec fn calendar_text(props: Seq<PropertyModel>, events: Seq<EventModel>) -> Seq<char> {
    "BEGIN:VCALENDAR\r\n"@ + props_text(props) + events_text(events) + "END:VCALENDAR\r\n"@
}

/// Renders one property line.
pub fn property_to_string(property: &Property) -> (r: String)
    ensures
        r@ == property_text(property@),
{
    let mut out = property.name.clone();
    if let Some(params) = &property.params {
        let ghost ps = params.deep_view();
        let mut i: usize = 0;
        while i < params.len()
            invariant
                i <= params.len(),
                ps == params.deep_view(),
                ps.len() == params@.len(),
                out@ == property.name@ + params_text(ps.subrange(0, i as int)),
            decreases params.len() - i,
        {
            let p = &params[i];
            out.append(";");
            out.append(p.0.as_str());
            out.append("=");
            let ghost vs = p.1.deep_view();
            let ghost before = out@;
            proof {
                assert(before + join_comma(vs.subrange(0, 0)) =~= before);
            }
            let mut k: usize = 0;
            while k < p.1.len()
                invariant
                    k <= p.1.len(),
                    vs == p.1.deep_view(),
                    vs.len() == p.1@.len(),
                    out@ == before + join_comma(vs.subrange(0, k as int)),
                decreases p.1.len() - k,
            {
                if k > 0 {
                    out.append(",");
                }
                out.append(p.1[k].as_str());
                proof {
                    let sub = vs.subrange(0, k + 1);
                    assert(sub.drop_last() =~= vs.subrange(0, k as int));
                    assert(sub.last() == vs[k as int]);
                    if k == 0 {
                        assert(join_comma(sub) == vs[0]);
                    }
                    assert(out@ == before + join_comma(vs.subrange(0, k + 1)));
                }
                k += 1;
            }
            proof {
                assert(vs.subrange(0, vs.len() as int) =~= vs);
                let sub = ps.subrange(0, i + 1);
                assert(sub.drop_last() =~= ps.subrange(0, i as int));
                assert(sub.last() == ps[i as int]);
                assert(ps[i as int] == (p.0@, p.1.deep_view()));
                assert(out@ == property.name@ + params_text(ps.subrange(0, i + 1)));
            }
            i += 1;
        }
        proof {
            assert(ps.subrange(0, ps.len() as int) =~= ps);
        }
    }
    if let Some(v) = &property.value {
        out.append(":");
        out.append(v.as_str());
    }
    out.append("\r\n");
    proof {
        assert(out@ =~= property_text(property@));
    }
    out
}

/// Renders one event, or rejects it if its alarm collection is non-empty.
pub fn event_to_string(event: &Event) -> (r: Result<String, SerializationError>)
    ensures
        event.alarms@.len() > 0 ==> (r matches Err(
            SerializationError::SerializationNotImplemented(m),
        ) && m@ == "event.alarms"@),
        event.alarms@.len() == 0 ==> (r matches Ok(s) && s@ == event_text(event@)),
{
    if event.alarms.len() > 0 {
        return Err(
            SerializationError::SerializationNotImplemented(String::from_str("event.alarms")),
        );
    }
    let mut out = String::from_str("BEGIN:VEVENT\r\n");
    let ghost ps = event.properties.deep_view();
    let mut i: usize = 0;
    while i < event.properties.len()
        invariant
            i <= event.properties.len(),
            ps == event.properties.deep_view(),
            ps.len() == event.properties@.len(),
            out@ == "BEGIN:VEVENT\r\n"@ + props_text(ps.subrange(0, i as int)),
        decreases event.properties.len() - i,
    {
        let line = property_to_string(&event.properties[i]);
        out.append(line.as_str());
        proof {
            let sub = ps.subrange(0, i + 1);
            assert(sub.drop_last() =~= ps.subrange(0, i as int));
            assert(sub.last() == ps[i as int]);
        }
        i += 1;
    }
    out.append("END:VEVENT\r\n");
    proof {
        assert(ps.subrange(0, ps.len() as int) =~= ps);
        assert(out@ =~= event_text(event@));
    }
    Ok(out)
}

/// Renders a whole calendar, or rejects it, before emitting anything, if any
/// unsupported collection (alarms, free-busys, journals, timezones, to-dos,
/// or an event's alarms) is non-empty.  The error names the offending
/// collection.
pub fn calendar_to_string(calendar: &Calendar) -> (r: Result<String, SerializationError>)
    ensures
        ({
            let clean_events = forall|i: int|
                0 <= i < calendar.events@.len() ==> #[trigger] calendar.events@[i].alarms@.len()
                    == 0;
            &&& calendar.alarms@.len() > 0 ==> (r matches Err(
                SerializationError::SerializationNotImplemented(m),
            ) && m@ == "calendar.alarms"@)
            &&& calendar.alarms@.len() == 0 && calendar.free_busys@.len() > 0 ==> (r matches Err(
                SerializationError::SerializationNotImplemented(m),
            ) && m@ == "calendar.free_busys"@)
            &&& calendar.alarms@.len() == 0 && calendar.free_busys@.len() == 0
                && calendar.journals@.len() > 0 ==> (r matches Err(
                SerializationError::SerializationNotImplemented(m),
            ) && m@ == "calendar.journals"@)
            &&& calendar.alarms@.len() == 0 && calendar.free_busys@.len() == 0
                && calendar.journals@.len() == 0 && calendar.timezones@.len() > 0 ==> (r matches Err(
                SerializationError::SerializationNotImplemented(m),
            ) && m@ == "calendar.timezones"@)
            &&& calendar.alarms@.len() == 0 && calendar.free_busys@.len() == 0
                && calendar.journals@.len() == 0 && calendar.timezones@.len() == 0
                && calendar.todos@.len() > 0 ==> (r matches Err(
                SerializationError::SerializationNotImplemented(m),
            ) && m@ == "calendar.todos"@)
            &&& calendar.alarms@.len() == 0 && calendar.free_busys@.len() == 0
                && calendar.journals@.len() == 0 && calendar.timezones@.len() == 0
                && calendar.todos@.len() == 0 && !clean_events ==> (r matches Err(
                SerializationError::SerializationNotImplemented(m),
            ) && m@ == "event.alarms"@)
            &&& calendar.alarms@.len() == 0 && calendar.free_busys@.len() == 0
                && calendar.journals@.len() == 0 && calendar.timezones@.len() == 0
                && calendar.todos@.len() == 0 && clean_events ==> (r matches Ok(s) && s@
                == calendar_text(calendar.properties.deep_view(), calendar.events.deep_view()))
        }),
{
    if calendar.alarms.len() > 0 {
        return Err(
            SerializationError::SerializationNotImplemented(String::from_str("calendar.alarms")),
        );
    }
    if calendar.free_busys.len() > 0 {
        return Err(
            SerializationError::SerializationNotImplemented(
                String::from_str("calendar.free_busys"),
            ),
        );
    }
    if calendar.journals.len() > 0 {
        return Err(
            SerializationError::SerializationNotImplemented(String::from_str("calendar.journals")),
        );
    }
    if calendar.timezones.len() > 0 {
        return Err(
            SerializationError::SerializationNotImplemented(
                String::from_str("calendar.timezones"),
            ),
        );
    }
    if calendar.todos.len() > 0 {
        return Err(
            SerializationError::SerializationNotImplemented(String::from_str("calendar.todos")),
        );
    }
    let mut out = String::from_str("BEGIN:VCALENDAR\r\n");
    let ghost ps = calendar.properties.deep_view();
    let mut i: usize = 0;
    while i < calendar.properties.len()
        invariant
            i <= calendar.properties.len(),
            ps == calendar.properties.deep_view(),
            ps.len() == calendar.properties@.len(),
            out@ == "BEGIN:VCALENDAR\r\n"@ + props_text(ps.subrange(0, i as int)),
        decreases calendar.properties.len() - i,
    {
        let line = property_to_string(&calendar.properties[i]);
        out.append(line.as_str());
        proof {
            let sub = ps.subrange(0, i + 1);
            assert(sub.drop_last() =~= ps.subrange(0, i as int));
            assert(sub.last() == ps[i as int]);
        }
        i += 1;
    }
    proof {
        assert(ps.subrange(0, ps.len() as int) =~= ps);
    }
    let ghost es = calendar.events.deep_view();
    let mut k: usize = 0;
    while k < calendar.events.len()
        invariant
            k <= calendar.events.len(),
            calendar.alarms@.len() == 0,
            calendar.free_busys@.len() == 0,
            calendar.journals@.len() == 0,
            calendar.timezones@.len() == 0,
            calendar.todos@.len() == 0,
            ps == calendar.properties.deep_view(),
            es == calendar.events.deep_view(),
            es.len() == calendar.events@.len(),
            forall|j: int|
                0 <= j < k ==> #[trigger] calendar.events@[j].alarms@.len() == 0,
            out@ == "BEGIN:VCALENDAR\r\n"@ + props_text(ps) + events_text(es.subrange(0, k as int)),
        decreases calendar.events.len() - k,
    {
        let rendered = match event_to_string(&calendar.events[k]) {
            Ok(s) => s,
            Err(e) => {
                proof {
                    assert(calendar.events@[k as int].alarms@.len() > 0);
                }
                return Err(e);
            },
        };
        out.append(rendered.as_str());
        proof {
            let sub = es.subrange(0, k + 1);
            assert(sub.drop_last() =~= es.subrange(0, k as int));
            assert(sub.last() == es[k as int]);
        }
        k += 1;
    }
    out.append("END:VCALENDAR\r\n");
    proof {
        assert(es.subrange(0, es.len() as int) =~= es);
        assert(out@ =~= calendar_text(ps, es));
    }
    Ok(out)
}

} // verus!
