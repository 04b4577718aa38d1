use tvdb::coerce::{optional_date, optional_int, optional_text, require_int, require_text};
use tvdb::data::Date;
use tvdb::legacy::LegacyTvdb;
use tvdb::xml::{parse_document, XmlNode};
use tvdb::{RequestClient, TvdbError, TvdbResult};

static APIKEY: &str = "test-api-key";

const SEARCH_XML: &str = r#"<?xml version="1.0" encoding="UTF-8" ?>
<Data>
  <Series>
    <seriesid>76156</seriesid>
    <language>en</language>
    <SeriesName>Scrubs</SeriesName>
    <banner>graphical/76156-g23.jpg</banner>
    <Overview>An inexperienced doctor.</Overview>
    <FirstAired>2001-10-02</FirstAired>
    <Network>ABC</Network>
    <IMDB_ID>tt0285403</IMDB_ID>
  </Series>
  <Series>
    <seriesid>222571</seriesid>
    <SeriesName>Scrubs Interns</SeriesName>
  </Series>
</Data>"#;

const EPISODE_XML: &str = r#"<?xml version="1.0" encoding="UTF-8" ?>
<Data>
  <Episode>
    <id>184603</id>
    <EpisodeName>My Mentor</EpisodeName>
    <SeasonNumber>1</SeasonNumber>
    <EpisodeNumber>2</EpisodeNumber>
    <FirstAired>2001-10-04</FirstAired>
    <Director>Adam Bernstein</Director>
    <Rating>7.6</Rating>
    <lastupdated>1376283718</lastupdated>
  </Episode>
</Data>"#;

const EMPTY_XML: &str = r#"<?xml version="1.0" encoding="UTF-8" ?>
<Data></Data>"#;

/// A transport stub serving fixed legacy XML per endpoint.
#[derive(Debug)]
struct LegacyStub;

impl RequestClient for LegacyStub {
    fn get_url(&self, url: &str, _jwt_token: Option<String>) -> TvdbResult<String> {
        if url.contains("GetSeries.php") {
            Ok(SEARCH_XML.to_owned())
        } else {
            Ok(EPISODE_XML.to_owned())
        }
    }

    fn post_login(&self, _url: &str, _apikey: &str) -> TvdbResult<String> {
        Err(TvdbError::CommunicationError {
            reason: "No login endpoint in this generation".to_owned(),
        })
    }
}

/// A transport stub whose search always comes back empty.
#[derive(Debug)]
struct EmptyStub;

impl RequestClient for EmptyStub {
    fn get_url(&self, _url: &str, _jwt_token: Option<String>) -> TvdbResult<String> {
        Ok(EMPTY_XML.to_owned())
    }

    fn post_login(&self, _url: &str, _apikey: &str) -> TvdbResult<String> {
        Err(TvdbError::CommunicationError {
            reason: "No login endpoint in this generation".to_owned(),
        })
    }
}

#[test]
fn legacy_search_maps_entries() {
    let api = LegacyTvdb::new(APIKEY, LegacyStub);
    let entries = api.search("scrubs", "en").unwrap();
    assert_eq!(entries.len(), 2);
    assert_eq!(entries[0].id, 76156);
    assert_eq!(entries[0].series_name.as_deref(), Some("Scrubs"));
    assert_eq!(entries[0].language.as_deref(), Some("en"));
    assert_eq!(entries[0].first_aired, Some(Date { year: 2001, month: 10, day: 2 }));
    assert_eq!(entries[0].imdb_id.as_deref(), Some("tt0285403"));
    assert_eq!(entries[1].id, 222571);
    assert!(entries[1].language.is_none());
}

#[test]
fn legacy_search_zero_entries_is_series_not_found() {
    let api = LegacyTvdb::new(APIKEY, EmptyStub);
    let r = api.search("ladlkgdklfgsdfglk", "en");
    assert!(matches!(r, Err(TvdbError::SeriesNotFound)));
}

#[test]
fn legacy_entry_lookup_key_carries_language() {
    let api = LegacyTvdb::new(APIKEY, LegacyStub);
    let entries = api.search("scrubs", "en").unwrap();
    let key = entries[0].lookup_key();
    assert_eq!(key.seriesid, 76156);
    assert_eq!(key.language, "en");
    let fallback = entries[1].lookup_key();
    assert_eq!(fallback.seriesid, 222571);
    assert_eq!(fallback.language, "en");
}

#[test]
fn legacy_episode_maps_fields() {
    let api = LegacyTvdb::new(APIKEY, LegacyStub);
    let key = tvdb::EpisodeId::new(76156, "en");
    let ep = api.episode(&key, 1, 2).unwrap();
    assert_eq!(ep.id, 184603);
    assert_eq!(ep.episode_name, "My Mentor");
    assert_eq!(ep.season_number, 1);
    assert_eq!(ep.episode_number, 2);
    assert_eq!(ep.first_aired, Some(Date { year: 2001, month: 10, day: 4 }));
    assert_eq!(ep.director.as_deref(), Some("Adam Bernstein"));
    assert_eq!(ep.rating.as_deref(), Some("7.6"));
    assert_eq!(ep.last_updated, Some(1376283718));
    assert!(ep.overview.is_none());
}

fn sample_node() -> XmlNode {
    XmlNode {
        name: "Series".to_owned(),
        text: String::new(),
        children: vec![
            XmlNode {
                name: "SeriesName".to_owned(),
                text: "Scrubs".to_owned(),
                children: vec![],
            },
            XmlNode {
                name: "seriesid".to_owned(),
                text: "76156".to_owned(),
                children: vec![],
            },
            XmlNode {
                name: "Empty".to_owned(),
                text: String::new(),
                children: vec![],
            },
            XmlNode {
                name: "FirstAired".to_owned(),
                text: "2001-10-02".to_owned(),
                children: vec![],
            },
        ],
    }
}

#[test]
fn require_text_names_missing_element() {
    let node = sample_node();
    match require_text(&node, "Overview") {
        Err(TvdbError::DataError { reason }) => {
            assert_eq!(reason, "Missing or empty element: Overview");
        }
        other => panic!("expected DataError, got {:?}", other),
    }
    // The same input through the optional variant is an absent value, not a
    // failure.
    assert!(optional_text(&node, "Overview").is_none());
}

#[test]
fn require_text_rejects_empty_element() {
    let node = sample_node();
    assert!(require_text(&node, "Empty").is_err());
    assert_eq!(optional_text(&node, "Empty"), Some(String::new()));
}

#[test]
fn coercion_helpers_extract_values() {
    let node = sample_node();
    assert_eq!(require_text(&node, "SeriesName").unwrap(), "Scrubs");
    assert_eq!(require_int(&node, "seriesid").unwrap(), 76156);
    assert!(require_int(&node, "SeriesName").is_err());
    assert_eq!(optional_int(&node, "seriesid"), Some(76156));
    assert_eq!(optional_int(&node, "SeriesName"), None);
    assert_eq!(optional_int(&node, "Nowhere"), None);
    assert_eq!(optional_date(&node, "FirstAired"), Some(Date { year: 2001, month: 10, day: 2 }));
    assert_eq!(optional_date(&node, "SeriesName"), None);
    assert_eq!(optional_date(&node, "Nowhere"), None);
}

#[test]
fn xml_reader_handles_structure() {
    let doc = parse_document("<a><b>hi</b><c/>tail</a>").unwrap();
    assert_eq!(doc.name, "a");
    assert_eq!(doc.text, "tail");
    assert_eq!(doc.children.len(), 2);
    assert_eq!(doc.children[0].name, "b");
    assert_eq!(doc.children[0].text, "hi");
    assert_eq!(doc.children[1].name, "c");

    let doc = parse_document("<a attr=\"x\"><b>1</b></a>").unwrap();
    assert_eq!(doc.name, "a");
    assert_eq!(doc.children[0].text, "1");
}

#[test]
fn xml_reader_rejects_malformed() {
    assert!(parse_document("").is_err());
    assert!(parse_document("plain text").is_err());
    assert!(parse_document("<a><b></a></b>").is_err());
    assert!(parse_document("<a>").is_err());
    assert!(matches!(
        parse_document("<<>>"),
        Err(TvdbError::DataError { .. })
    ));
}
