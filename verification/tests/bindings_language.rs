use pharia_skill::bindings::language;
use pharia_skill::csi::timestamp::Timestamp;
use pharia_skill::{LanguageCode, SelectLanguageRequest};

#[test]
fn test_from_select_language_request() {
    let text = "Hello, world!";
    let languages = vec!["eng".to_owned(), "fra".to_owned()];
    let request = SelectLanguageRequest {
        text: text.into(),
        languages: languages.iter().map(|l| l.parse().unwrap()).collect(),
    };
    let converted = language::SelectLanguageRequest::from(request);

    assert_eq!(
        converted,
        language::SelectLanguageRequest {
            text: text.into(),
            languages
        }
    );
}

#[test]
fn language_codes_read_back() {
    let all = [
        (LanguageCode::Afr, "afr"),
        (LanguageCode::Deu, "deu"),
        (LanguageCode::Eng, "eng"),
        (LanguageCode::Nob, "nob"),
        (LanguageCode::Zho, "zho"),
        (LanguageCode::Zul, "zul"),
    ];
    for (language, code) in all {
        assert_eq!(language.as_str(), code);
        assert_eq!(language.to_string(), code);
        assert_eq!(LanguageCode::parse(code), Some(language));
        assert_eq!(code.parse::<LanguageCode>(), Ok(language));
    }
}

#[test]
fn unknown_language_codes_are_not_read() {
    assert_eq!(LanguageCode::parse(""), None);
    assert_eq!(LanguageCode::parse("Eng"), None);
    assert_eq!(LanguageCode::parse("en"), None);
    assert_eq!(LanguageCode::parse("engl"), None);
    assert_eq!(LanguageCode::parse("xyz"), None);
    assert!("xyz".parse::<LanguageCode>().is_err());
}

#[test]
fn select_language_request_is_built_from_its_parts() {
    let request = SelectLanguageRequest::new(
        "A rising tide lifts all boats",
        vec![LanguageCode::Eng, LanguageCode::Deu, LanguageCode::Fra],
    );
    assert_eq!(request.text, "A rising tide lifts all boats");
    assert_eq!(
        request.languages,
        vec![LanguageCode::Eng, LanguageCode::Deu, LanguageCode::Fra]
    );
    let wire = language::select_language_requests(vec![request]);
    assert_eq!(wire.len(), 1);
    assert_eq!(wire[0].languages, vec!["eng", "deu", "fra"]);
}

#[test]
fn selected_languages_are_read_in_order() {
    let selected = vec![Some("eng".to_owned()), None, Some("deu".to_owned())];
    assert_eq!(
        language::try_select_languages(selected.clone()),
        Some(vec![Some(LanguageCode::Eng), None, Some(LanguageCode::Deu)])
    );
    assert_eq!(
        language::select_languages(selected),
        vec![Some(LanguageCode::Eng), None, Some(LanguageCode::Deu)]
    );
    assert_eq!(
        language::select_language(Some("fra".to_owned())),
        Some(LanguageCode::Fra)
    );
    assert_eq!(language::select_language(None), None);
}

#[test]
fn a_batch_with_an_unknown_code_is_not_read() {
    let selected = vec![Some("eng".to_owned()), Some("klingon".to_owned()), None];
    assert_eq!(language::try_select_languages(selected), None);
    assert_eq!(language::try_select_languages(Vec::new()), Some(Vec::new()));
}

#[test]
fn timestamps_print_as_rfc_3339() {
    let timestamp = Timestamp::new(1_123_456_789, 123_000_000).unwrap();
    assert_eq!(timestamp.to_string(), "2005-08-07T23:19:49.123Z");
    assert_eq!(timestamp.as_second(), 1_123_456_789);
    assert_eq!(timestamp.subsec_nanosecond(), 123_000_000);
    assert_eq!(
        Timestamp::new(0, 0).unwrap().to_string(),
        "1970-01-01T00:00:00Z"
    );
    assert_eq!(
        Timestamp::new(123_456_789, 0).unwrap().to_string(),
        "1973-11-29T21:33:09Z"
    );
    assert_eq!(
        Timestamp::new(-1, -500_000_000).unwrap().to_string(),
        "1969-12-31T23:59:58.5Z"
    );
}

#[test]
fn timestamps_are_read_from_text() {
    let timestamp: Timestamp = "2005-08-07T23:19:49.123Z".parse().unwrap();
    assert_eq!(timestamp, Timestamp::new(1_123_456_789, 123_000_000).unwrap());
    assert_eq!(
        Timestamp::parse("2024-03-10T02:05-04"),
        Timestamp::new(1_710_050_700, 0)
    );
    assert_eq!(Timestamp::parse("yesterday"), None);
    assert!("2005-08-07".parse::<Timestamp>().is_err());
}

#[test]
fn timestamps_keep_to_their_range() {
    assert!(Timestamp::new(-377705023201, 0).is_some());
    assert!(Timestamp::new(-377705023201, 1).is_none());
    assert!(Timestamp::new(-377705023201, -1).is_none());
    assert!(Timestamp::new(-377705023202, 0).is_none());
    assert!(Timestamp::new(253402207200, 999_999_999).is_some());
    assert!(Timestamp::new(253402207201, 0).is_none());
    assert!(Timestamp::new(0, 1_000_000_000).is_none());
    assert!(Timestamp::new(0, -1_000_000_000).is_none());
    assert!(Timestamp::new(0, -999_999_999).is_some());
    assert!(Timestamp::new(5, -1).is_none());
    assert!(Timestamp::new(-5, 1).is_none());
    assert_eq!(
        Timestamp::new(253402207200, 999_999_999).unwrap().to_string(),
        "9999-12-30T22:00:00.999999999Z"
    );
    assert_eq!(
        Timestamp::new(-377705023201, 0).unwrap().to_string(),
        "-009999-01-02T01:59:59Z"
    );
}
