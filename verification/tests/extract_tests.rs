use event_extractor::errors::EventExtractorError;
use event_extractor::extract::ExtractedDate;
use event_extractor::props::Property;

#[test]
fn extracted_date_1() {
    assert_eq!(
        &ExtractedDate::try_from(&Property {
            name: "BDAY".to_string(),
            value: Some("--0214".to_string()),
            params: Some(vec![("VALUE".to_string(), vec!["DATE".to_string()])])
        })
        .unwrap(),
        &ExtractedDate {
            year: None,
            month: 2,
            day: 14
        }
    )
}

#[test]
fn extracted_date_2() {
    assert_eq!(
        ExtractedDate::try_from(&Property {
            name: "BDAY".to_string(),
            value: Some("19961023".to_string()),
            params: Some(vec![("VALUE".to_string(), vec!["DATE".to_string()])])
        })
        .unwrap(),
        ExtractedDate {
            year: Some(1996),
            month: 10,
            day: 23
        }
    )
}

#[test]
fn extracted_date_wrong_value_type() {
    let r = ExtractedDate::try_from(&Property {
        name: "BDAY".to_string(),
        value: Some("19961023".to_string()),
        params: Some(vec![("VALUE".to_string(), vec!["TEXT".to_string()])]),
    });
    match r {
        Err(EventExtractorError::DateExtractionFailed(m)) => {
            assert_eq!(m, "expected value type \"DATE\" found \"TEXT\"");
        }
        other => panic!("expected DateExtractionFailed, got {:?}", other),
    }
}

#[test]
fn extracted_date_no_params() {
    let r = ExtractedDate::try_from(&Property {
        name: "BDAY".to_string(),
        value: Some("19961023".to_string()),
        params: None,
    });
    match r {
        Err(EventExtractorError::DateExtractionFailed(m)) => {
            assert_eq!(m, "no parameters found");
        }
        other => panic!("expected DateExtractionFailed, got {:?}", other),
    }
}

#[test]
fn extracted_date_no_value_param() {
    let r = ExtractedDate::try_from(&Property {
        name: "BDAY".to_string(),
        value: Some("19961023".to_string()),
        params: Some(vec![("OTHER".to_string(), vec!["DATE".to_string()])]),
    });
    match r {
        Err(EventExtractorError::DateExtractionFailed(m)) => {
            assert_eq!(m, "could not determine value type");
        }
        other => panic!("expected DateExtractionFailed, got {:?}", other),
    }
}

#[test]
fn extracted_date_value_type_not_unique() {
    let r = ExtractedDate::try_from(&Property {
        name: "BDAY".to_string(),
        value: Some("19961023".to_string()),
        params: Some(vec![(
            "VALUE".to_string(),
            vec!["DATE".to_string(), "TEXT".to_string()],
        )]),
    });
    match r {
        Err(EventExtractorError::DateExtractionFailed(m)) => {
            assert_eq!(m, "value type not unique");
        }
        other => panic!("expected DateExtractionFailed, got {:?}", other),
    }
}

#[test]
fn extracted_date_no_date_value() {
    let r = ExtractedDate::try_from(&Property {
        name: "BDAY".to_string(),
        value: None,
        params: Some(vec![("VALUE".to_string(), vec!["DATE".to_string()])]),
    });
    match r {
        Err(EventExtractorError::DateExtractionFailed(m)) => {
            assert_eq!(m, "no date value found");
        }
        other => panic!("expected DateExtractionFailed, got {:?}", other),
    }
}

#[test]
fn extracted_date_bad_shape() {
    let r = ExtractedDate::try_from(&Property {
        name: "BDAY".to_string(),
        value: Some("1996-10-23".to_string()),
        params: Some(vec![("VALUE".to_string(), vec!["DATE".to_string()])]),
    });
    assert!(matches!(r, Err(EventExtractorError::UnexpectedDateFormat)));
}

#[test]
fn extracted_date_non_numeric_month() {
    let r = ExtractedDate::try_from(&Property {
        name: "BDAY".to_string(),
        value: Some("1996AB23".to_string()),
        params: Some(vec![("VALUE".to_string(), vec!["DATE".to_string()])]),
    });
    match r {
        Err(EventExtractorError::ParseDateFailed(field, raw)) => {
            assert_eq!(field, "month");
            assert_eq!(raw, "AB");
        }
        other => panic!("expected ParseDateFailed, got {:?}", other),
    }
}

#[test]
fn extracted_date_non_numeric_year() {
    let r = ExtractedDate::try_from(&Property {
        name: "BDAY".to_string(),
        value: Some("19X61023".to_string()),
        params: Some(vec![("VALUE".to_string(), vec!["DATE".to_string()])]),
    });
    match r {
        Err(EventExtractorError::ParseDateFailed(field, raw)) => {
            assert_eq!(field, "year");
            assert_eq!(raw, "19X6");
        }
        other => panic!("expected ParseDateFailed, got {:?}", other),
    }
}

#[test]
fn extracted_date_yearless_non_numeric_day() {
    let r = ExtractedDate::try_from(&Property {
        name: "BDAY".to_string(),
        value: Some("--02XY".to_string()),
        params: Some(vec![("VALUE".to_string(), vec!["DATE".to_string()])]),
    });
    match r {
        Err(EventExtractorError::ParseDateFailed(field, raw)) => {
            assert_eq!(field, "day");
            assert_eq!(raw, "XY");
        }
        other => panic!("expected ParseDateFailed, got {:?}", other),
    }
}
