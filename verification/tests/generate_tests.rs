use chrono::{Datelike, Timelike, Utc};
use event_extractor::errors::EventExtractorError;
use event_extractor::extract::ExtractedDate;
use event_extractor::generate::{
    convert, event_uid, generate_events_for_years, target_years, wrap_event, Timestamp,
};
use event_extractor::props::{Event, Property};
use event_extractor::ser::calendar_to_string;

fn now_timestamp() -> (Timestamp, String) {
    let now = Utc::now();
    let ts = Timestamp {
        year: now.year(),
        month: now.month(),
        day: now.day(),
        hour: now.hour(),
        minute: now.minute(),
        second: now.second(),
    };
    (ts, now.format("%Y%m%dT%H%M%SZ").to_string())
}

fn date_params() -> Option<Vec<(String, Vec<String>)>> {
    Some(vec![("VALUE".into(), vec!["DATE".into()])])
}

fn expected_event(uid_val: &str, stamp: &str, start: &str, end: &str, summary: &str) -> Event {
    Event {
        alarms: Vec::new(),
        properties: vec![
            Property {
                name: "UID".into(),
                params: None,
                value: Some(uid_val.into()),
            },
            Property {
                name: "DTSTAMP".into(),
                params: None,
                value: Some(stamp.into()),
            },
            Property {
                name: "STATUS".to_string(),
                params: None,
                value: Some("CONFIRMED".into()),
            },
            Property {
                name: "TRANSP".into(),
                params: None,
                value: Some("TRANSPARENT".into()),
            },
            Property {
                name: "DTSTART".into(),
                params: date_params(),
                value: Some(start.into()),
            },
            Property {
                name: "DTEND".into(),
                params: date_params(),
                value: Some(end.into()),
            },
            Property {
                name: "SUMMARY".into(),
                params: None,
                value: Some(summary.into()),
            },
        ],
    }
}

#[test]
fn generate_events_for_years_1() {
    let (timestamp, stamp) = now_timestamp();

    assert_eq!(
        format!(
            "{:?}",
            generate_events_for_years(
                &Property {
                    name: "FN".into(),
                    params: None,
                    value: Some("Test Person".into())
                },
                &Property {
                    name: "UID".into(),
                    params: None,
                    value: Some("test_uid".into())
                },
                &ExtractedDate {
                    year: Some(1990),
                    month: 10,
                    day: 5
                },
                &vec![2000, 2001],
                &timestamp
            )
            .unwrap()
        ),
        format!(
            "{:?}",
            vec![
                expected_event(
                    "test_uid_bday_2000",
                    &stamp,
                    "20001005",
                    "20001006",
                    "Birthday: Test Person (10)"
                ),
                expected_event(
                    "test_uid_bday_2001",
                    &stamp,
                    "20011005",
                    "20011006",
                    "Birthday: Test Person (11)"
                ),
            ]
        )
    )
}

#[test]
fn generate_events_for_years_2() {
    let (timestamp, stamp) = now_timestamp();

    assert_eq!(
        format!(
            "{:?}",
            generate_events_for_years(
                &Property {
                    name: "FN".into(),
                    params: None,
                    value: Some("Test Person".into())
                },
                &Property {
                    name: "UID".into(),
                    params: None,
                    value: Some("test_uid".into())
                },
                &ExtractedDate {
                    year: None,
                    month: 10,
                    day: 5
                },
                &vec![2012, 2013],
                &timestamp
            )
            .unwrap()
        ),
        format!(
            "{:?}",
            vec![
                expected_event(
                    "test_uid_bday_2012",
                    &stamp,
                    "20121005",
                    "20121006",
                    "Birthday: Test Person"
                ),
                expected_event(
                    "test_uid_bday_2013",
                    &stamp,
                    "20131005",
                    "20131006",
                    "Birthday: Test Person"
                ),
            ]
        )
    )
}

fn fixed_timestamp() -> Timestamp {
    Timestamp {
        year: 2024,
        month: 1,
        day: 15,
        hour: 12,
        minute: 30,
        second: 45,
    }
}

fn fn_prop() -> Property {
    Property {
        name: "FN".into(),
        params: None,
        value: Some("Test Person".into()),
    }
}

fn uid_prop() -> Property {
    Property {
        name: "UID".into(),
        params: None,
        value: Some("test_uid".into()),
    }
}

fn event_value(event: &Event, name: &str) -> String {
    event
        .properties
        .iter()
        .find(|p| p.name == name)
        .unwrap()
        .value
        .clone()
        .unwrap()
}

#[test]
fn generate_is_deterministic() {
    let date = ExtractedDate {
        year: Some(1990),
        month: 10,
        day: 5,
    };
    let years = vec![2000, 2001];
    let ts = fixed_timestamp();
    let a = generate_events_for_years(&fn_prop(), &uid_prop(), &date, &years, &ts).unwrap();
    let b = generate_events_for_years(&fn_prop(), &uid_prop(), &date, &years, &ts).unwrap();
    assert_eq!(a, b);
    let text_a: Vec<String> = a
        .into_iter()
        .map(|e| calendar_to_string(&wrap_event(e)).unwrap())
        .collect();
    let text_b: Vec<String> = b
        .into_iter()
        .map(|e| calendar_to_string(&wrap_event(e)).unwrap())
        .collect();
    assert_eq!(text_a, text_b);
}

#[test]
fn generate_dtstamp_format() {
    let date = ExtractedDate {
        year: None,
        month: 3,
        day: 7,
    };
    let evs =
        generate_events_for_years(&fn_prop(), &uid_prop(), &date, &vec![2024], &fixed_timestamp())
            .unwrap();
    assert_eq!(event_value(&evs[0], "DTSTAMP"), "20240115T123045Z");
    assert_eq!(event_value(&evs[0], "DTSTART"), "20240307");
    assert_eq!(event_value(&evs[0], "DTEND"), "20240308");
}

#[test]
fn generate_leap_day_end() {
    let date = ExtractedDate {
        year: None,
        month: 2,
        day: 29,
    };
    let evs =
        generate_events_for_years(&fn_prop(), &uid_prop(), &date, &vec![2000], &fixed_timestamp())
            .unwrap();
    assert_eq!(event_value(&evs[0], "DTSTART"), "20000229");
    assert_eq!(event_value(&evs[0], "DTEND"), "20000301");
}

#[test]
fn generate_leap_day_missing_year() {
    let date = ExtractedDate {
        year: None,
        month: 2,
        day: 29,
    };
    let r =
        generate_events_for_years(&fn_prop(), &uid_prop(), &date, &vec![2001], &fixed_timestamp());
    assert!(matches!(r, Err(EventExtractorError::UnexpectedDateFormat)));
}

#[test]
fn generate_year_rollover() {
    let date = ExtractedDate {
        year: Some(1999),
        month: 12,
        day: 31,
    };
    let evs =
        generate_events_for_years(&fn_prop(), &uid_prop(), &date, &vec![2003], &fixed_timestamp())
            .unwrap();
    assert_eq!(event_value(&evs[0], "DTSTART"), "20031231");
    assert_eq!(event_value(&evs[0], "DTEND"), "20040101");
    assert_eq!(
        event_value(&evs[0], "SUMMARY"),
        "Birthday: Test Person (4)"
    );
}

#[test]
fn generate_month_rollover_and_padding() {
    let date = ExtractedDate {
        year: None,
        month: 4,
        day: 30,
    };
    let evs =
        generate_events_for_years(&fn_prop(), &uid_prop(), &date, &vec![50], &fixed_timestamp())
            .unwrap();
    assert_eq!(event_value(&evs[0], "DTSTART"), "00500430");
    assert_eq!(event_value(&evs[0], "DTEND"), "00500501");
    assert_eq!(event_value(&evs[0], "UID"), "test_uid_bday_50");
}

#[test]
fn generate_missing_uid_value() {
    let date = ExtractedDate {
        year: None,
        month: 1,
        day: 1,
    };
    let bad_uid = Property {
        name: "UID".into(),
        params: None,
        value: None,
    };
    let r =
        generate_events_for_years(&fn_prop(), &bad_uid, &date, &vec![2024], &fixed_timestamp());
    match r {
        Err(EventExtractorError::PropertyValueNotFound(m)) => assert_eq!(m, "UID"),
        other => panic!("expected PropertyValueNotFound, got {:?}", other),
    }
}

#[test]
fn generate_missing_fn_value() {
    let date = ExtractedDate {
        year: None,
        month: 1,
        day: 1,
    };
    let bad_fn = Property {
        name: "FN".into(),
        params: None,
        value: None,
    };
    let r =
        generate_events_for_years(&bad_fn, &uid_prop(), &date, &vec![2024], &fixed_timestamp());
    match r {
        Err(EventExtractorError::PropertyValueNotFound(m)) => assert_eq!(m, "FN"),
        other => panic!("expected PropertyValueNotFound, got {:?}", other),
    }
}

#[test]
fn generate_keeps_fn_params_on_summary() {
    let named_fn = Property {
        name: "FN".into(),
        params: Some(vec![("CHARSET".into(), vec!["UTF-8".into()])]),
        value: Some("Test Person".into()),
    };
    let date = ExtractedDate {
        year: None,
        month: 6,
        day: 1,
    };
    let evs =
        generate_events_for_years(&named_fn, &uid_prop(), &date, &vec![2024], &fixed_timestamp())
            .unwrap();
    let summary = evs[0]
        .properties
        .iter()
        .find(|p| p.name == "SUMMARY")
        .unwrap();
    assert_eq!(
        summary.params,
        Some(vec![("CHARSET".to_string(), vec!["UTF-8".to_string()])])
    );
}

#[test]
fn convert_full_contact() {
    let properties = vec![
        fn_prop(),
        uid_prop(),
        Property {
            name: "BDAY".into(),
            params: Some(vec![("VALUE".into(), vec!["DATE".into()])]),
            value: Some("19901005".into()),
        },
    ];
    let evs = convert(&properties, &vec![2000, 2001], &fixed_timestamp()).unwrap();
    assert_eq!(evs.len(), 2);
    assert_eq!(
        event_value(&evs[0], "SUMMARY"),
        "Birthday: Test Person (10)"
    );
    assert_eq!(
        event_value(&evs[1], "SUMMARY"),
        "Birthday: Test Person (11)"
    );
}

#[test]
fn convert_no_bday_is_empty() {
    let properties = vec![fn_prop(), uid_prop()];
    let evs = convert(&properties, &vec![2024], &fixed_timestamp()).unwrap();
    assert!(evs.is_empty());
}

#[test]
fn convert_missing_fn_is_error() {
    let properties = vec![uid_prop()];
    let r = convert(&properties, &vec![2024], &fixed_timestamp());
    match r {
        Err(EventExtractorError::PropertyNotFound(m)) => assert_eq!(m, "FN"),
        other => panic!("expected PropertyNotFound, got {:?}", other),
    }
}

#[test]
fn convert_missing_uid_is_error() {
    let properties = vec![fn_prop()];
    let r = convert(&properties, &vec![2024], &fixed_timestamp());
    match r {
        Err(EventExtractorError::PropertyNotFound(m)) => assert_eq!(m, "UID"),
        other => panic!("expected PropertyNotFound, got {:?}", other),
    }
}

#[test]
fn wrap_event_headers_and_text() {
    let date = ExtractedDate {
        year: None,
        month: 10,
        day: 5,
    };
    let evs =
        generate_events_for_years(&fn_prop(), &uid_prop(), &date, &vec![2012], &fixed_timestamp())
            .unwrap();
    let event = evs.into_iter().next().unwrap();
    assert_eq!(event_uid(&event).unwrap(), "test_uid_bday_2012");
    let cal = wrap_event(event);
    let text = calendar_to_string(&cal).unwrap();
    assert_eq!(
        text,
        "BEGIN:VCALENDAR\r\nVERSION:2.0\r\nPRODID:event-extractor//hochreiner.net\r\n\
         BEGIN:VEVENT\r\nUID:test_uid_bday_2012\r\nDTSTAMP:20240115T123045Z\r\n\
         STATUS:CONFIRMED\r\nTRANSP:TRANSPARENT\r\nDTSTART;VALUE=DATE:20121005\r\n\
         DTEND;VALUE=DATE:20121006\r\nSUMMARY:Birthday: Test Person\r\nEND:VEVENT\r\n\
         END:VCALENDAR\r\n"
    );
}

#[test]
fn event_uid_missing_property() {
    let event = Event {
        properties: Vec::new(),
        alarms: Vec::new(),
    };
    match event_uid(&event) {
        Err(EventExtractorError::PropertyNotFound(m)) => assert_eq!(m, "UID"),
        other => panic!("expected PropertyNotFound, got {:?}", other),
    }
}

#[test]
fn target_years_window() {
    assert_eq!(target_years(2024), vec![2023, 2024, 2025, 2026]);
}
