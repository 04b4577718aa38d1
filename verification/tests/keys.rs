use tvdb::data::{SeriesId, SeriesSearchData};
use tvdb::{EpisodeId, TvdbError};

fn entry(id: Option<u32>, language: Option<&str>) -> SeriesSearchData {
    SeriesSearchData {
        aliases: None,
        banner: None,
        first_aired: None,
        id,
        language: language.map(|l| l.to_owned()),
        network: None,
        overview: None,
        series_name: "Scrubs".to_owned(),
        status: None,
    }
}

#[test]
fn integer_conversion_defaults_language_to_en() {
    for n in [0u32, 1, 184603, u32::MAX] {
        let key: EpisodeId = n.into();
        assert_eq!(key.seriesid, n);
        assert_eq!(key.language, "en");
    }
}

#[test]
fn explicit_constructor_keeps_language() {
    let key = EpisodeId::new(76156, "de");
    assert_eq!(key.seriesid, 76156);
    assert_eq!(key.language, "de");
}

#[test]
fn entry_conversion_preserves_id_and_language() {
    let key = EpisodeId::from_search_entry(&entry(Some(76156), Some("fr"))).unwrap();
    assert_eq!(key.seriesid, 76156);
    assert_eq!(key.language, "fr");

    let key = EpisodeId::from_search_entry(&entry(Some(42), None)).unwrap();
    assert_eq!(key.seriesid, 42);
    assert_eq!(key.language, "en");
}

#[test]
fn entry_conversion_without_id_fails_loudly() {
    let r = EpisodeId::from_search_entry(&entry(None, Some("en")));
    assert!(matches!(r, Err(TvdbError::InternalError { .. })));
}

#[test]
fn series_id_conversion() {
    let sid: SeriesId = 76156u32.into();
    assert_eq!(sid.seriesid, 76156);
}

#[test]
fn error_descriptions() {
    assert_eq!(
        TvdbError::InternalError { reason: "x".to_owned() }.describe(),
        "Internal error: x"
    );
    assert_eq!(TvdbError::SeriesNotFound.describe(), "Series not found");
    assert_eq!(
        TvdbError::CommunicationError { reason: "down".to_owned() }.describe(),
        "Communication error: down"
    );
    assert_eq!(
        TvdbError::DataError { reason: "bad".to_owned() }.describe(),
        "Data error: bad"
    );
    assert_eq!(TvdbError::Cancelled.describe(), "Cancelled");
}
