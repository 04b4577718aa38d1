use tvdb::json::Number;
use tvdb::mapping::{parse_episode, parse_login_token, parse_search, parse_series_episodes};
use tvdb::TvdbError;

#[test]
fn parse_search_tolerates_unknown_and_missing_fields() {
    let body = r#"{"data": [{"id": 5, "seriesName": "A", "zap2itId": "x", "slug": "a"}],
                   "error": null, "unexpected": 1}"#;
    let sr = parse_search(body).unwrap();
    let data = sr.data.unwrap();
    assert_eq!(data.len(), 1);
    assert_eq!(data[0].id, Some(5));
    assert_eq!(data[0].series_name, "A");
    assert!(data[0].overview.is_none());
    assert!(data[0].aliases.is_none());
}

#[test]
fn parse_search_null_data_is_absent() {
    let sr = parse_search(r#"{"data": null, "error": "not authorized"}"#).unwrap();
    assert!(sr.data.is_none());
    assert_eq!(sr.error.as_deref(), Some("not authorized"));
}

#[test]
fn parse_search_rejects_wrong_shapes() {
    // A present field of the wrong type is an error, not an absent value.
    assert!(matches!(
        parse_search(r#"{"data": [{"id": "x", "seriesName": "A"}]}"#),
        Err(TvdbError::DataError { .. })
    ));
    // A missing required display name is an error.
    assert!(matches!(
        parse_search(r#"{"data": [{"id": 5}]}"#),
        Err(TvdbError::DataError { .. })
    ));
    // A non-object body is an error.
    assert!(matches!(parse_search("[1, 2]"), Err(TvdbError::DataError { .. })));
    // Invalid JSON is an error.
    assert!(matches!(parse_search("{"), Err(TvdbError::DataError { .. })));
}

#[test]
fn parse_episode_keeps_numbers_as_received() {
    let body = r#"{"data": {"episodeName": "My Mentor", "siteRating": 7.6,
                            "dvdEpisodeNumber": 2, "siteRatingCount": 432}}"#;
    let er = parse_episode(body).unwrap();
    let ep = er.data.unwrap();
    assert_eq!(ep.episode_name, "My Mentor");
    match ep.site_rating {
        Some(Number::Text(ref t)) => assert_eq!(t, "7.6"),
        ref other => panic!("expected decimal text, got {:?}", other),
    }
    match ep.dvd_episode_number {
        Some(Number::UInt(u)) => assert_eq!(u, 2),
        ref other => panic!("expected integer, got {:?}", other),
    }
    assert_eq!(ep.site_rating_count, Some(432));
}

#[test]
fn parse_episode_requires_name() {
    assert!(matches!(
        parse_episode(r#"{"data": {"id": 184603}}"#),
        Err(TvdbError::DataError { .. })
    ));
}

#[test]
fn parse_episode_reports_service_errors() {
    let body = r#"{"data": null, "errors": {"invalidLanguage": ["de"]}}"#;
    let er = parse_episode(body).unwrap();
    assert!(er.data.is_none());
    let errs = er.errors.unwrap();
    assert_eq!(errs.invalid_language.unwrap(), vec!["de".to_owned()]);
    assert!(errs.invalid_filters.is_none());
}

#[test]
fn parse_series_episodes_links() {
    let body = r#"{"data": [{"id": 1, "episodeName": "One"}],
                   "links": {"first": 1, "last": 7, "next": 2}}"#;
    let page = parse_series_episodes(body).unwrap();
    assert_eq!(page.data.unwrap().len(), 1);
    let links = page.links.unwrap();
    assert_eq!(links.first, Some(1));
    assert_eq!(links.last, Some(7));
    assert_eq!(links.next, Some(2));
    // Absence of `previous` signals there is no earlier page.
    assert!(links.previous.is_none());

    let last_page = parse_series_episodes(r#"{"data": [], "links": {"first": 1, "last": 7, "previous": 6}}"#)
        .unwrap();
    // Absence of `next` signals the last page.
    assert!(last_page.links.unwrap().next.is_none());
}

#[test]
fn parse_login_token_exact() {
    assert_eq!(parse_login_token(r#"{"token": "abc.def.ghi"}"#).unwrap(), "abc.def.ghi");
    assert!(matches!(
        parse_login_token(r#"{"Error": "API Key Required"}"#),
        Err(TvdbError::DataError { .. })
    ));
    assert!(matches!(parse_login_token("nope"), Err(TvdbError::DataError { .. })));
}
