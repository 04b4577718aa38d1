use std::cell::Cell;

use rand::{RngExt, SeedableRng};

use tvdb::{EpisodeId, RequestClient, Tvdb, TvdbError, TvdbResult};

const APIKEY: &str = "test-api-key";

const SEARCH_BODY: &str = r#"{
  "data": [
    {"id": 76156, "seriesName": "Scrubs", "language": "en",
     "overview": "An inexperienced doctor.", "status": "Ended",
     "aliases": ["Scrubs - Die Anfaenger"], "firstAired": "2001-10-02"},
    {"id": 222571, "seriesName": "Scrubs Interns", "language": "en"}
  ],
  "error": null
}"#;

const EPISODE_BODY: &str = r#"{
  "data": {
    "id": 184603,
    "airedSeason": 1,
    "airedEpisodeNumber": 2,
    "episodeName": "My Mentor",
    "firstAired": "2001-10-04",
    "writers": ["Bill Lawrence"],
    "siteRating": 7.6,
    "lastUpdated": 1376283718
  },
  "errors": null
}"#;

/// A transport stub serving fixed JSON per endpoint, as the remote service
/// would.
#[derive(Debug)]
struct StubClient;

impl RequestClient for StubClient {
    fn get_url(&self, url: &str, _jwt_token: Option<String>) -> TvdbResult<String> {
        if url.contains("/search/series") {
            Ok(SEARCH_BODY.to_owned())
        } else if url.contains("/episodes?page=") {
            let mut eps = String::new();
            eps.push_str(r#"{"id": 184602, "airedSeason": 1, "airedEpisodeNumber": 1, "episodeName": "My First Day"}"#);
            for i in 2..13u32 {
                eps.push_str(&format!(
                    r#", {{"id": {}, "airedSeason": 1, "airedEpisodeNumber": {}, "episodeName": "Episode {}"}}"#,
                    184602 + i,
                    i,
                    i
                ));
            }
            Ok(format!(
                r#"{{"data": [{}], "errors": null, "links": {{"first": 1, "last": 1}}}}"#,
                eps
            ))
        } else if url.contains("/episodes/") {
            Ok(EPISODE_BODY.to_owned())
        } else {
            Err(TvdbError::CommunicationError {
                reason: format!("Unsuccessful HTTP response from url {}: 404", url),
            })
        }
    }

    fn post_login(&self, _url: &str, _apikey: &str) -> TvdbResult<String> {
        Ok(r#"{"token": "fixed-session-token"}"#.to_owned())
    }
}

/// A transport stub that fails every request, as a dead network would.
#[derive(Debug)]
struct FailingClient;

impl RequestClient for FailingClient {
    fn get_url(&self, url: &str, jwt_token: Option<String>) -> TvdbResult<String> {
        Err(TvdbError::CommunicationError {
            reason: format!(
                "Fake error while doing fake request for: {:?} with JWT {:?}",
                url, jwt_token,
            ),
        })
    }

    fn post_login(&self, url: &str, _apikey: &str) -> TvdbResult<String> {
        Err(TvdbError::CommunicationError {
            reason: format!("Fake error while logging in at: {:?}", url),
        })
    }
}

#[test]
fn search() {
    let mut api = Tvdb::new(APIKEY, StubClient);
    api.login().unwrap();
    let sr = api.search(Some("scrubs"), None);
    println!("{:?}", sr);
    assert!(sr.ok().unwrap().data.unwrap()[0].series_name == "Scrubs");
}

#[test]
fn nonexist() {
    let api = Tvdb::new(APIKEY, FailingClient);
    let sr = api.search(Some("ladlkgdklfgsdfglk"), None);
    assert!(sr.is_err());
}

#[test]
fn lookup_by_epid() {
    let mut api = Tvdb::new(APIKEY, StubClient);
    api.login().unwrap();
    let ep = api.episode(EpisodeId::new(184603, "en"));
    println!("Episode: {:?}", ep);
    assert!(ep.unwrap().data.unwrap().episode_name == "My Mentor");
}

#[test]
fn lookup_by_u32() {
    let mut api = Tvdb::new(APIKEY, StubClient);
    api.login().unwrap();
    let ep = api.episode(184603);
    println!("Episode; {:?}", ep);
    assert!(ep.unwrap().data.unwrap().episode_name == "My Mentor");
}

#[test]
fn random_series() {
    // Opening a bunch of ~random series to check for panicing
    let mut rng = rand::rngs::StdRng::seed_from_u64(42);

    for _ in 1..10 {
        let rid: u32 = rng.random_range(1..20000);
        println!("Getting series {}", rid);

        let api = Tvdb::new(APIKEY, StubClient);
        let ep = api.episode(EpisodeId::new(rid, "en"));
        println!("{:?}", ep);
        match ep {
            Ok(ep) => println!("{}", ep.data.unwrap().episode_name),
            Err(e) => println!("{:?}", e),
        }
    }
}

/// A transport stub that counts its calls and always fails.
#[derive(Debug)]
struct DummyRequestClient {
    calls: Cell<u32>,
}

impl DummyRequestClient {
    pub fn new() -> DummyRequestClient {
        DummyRequestClient { calls: Cell::new(0) }
    }
}

impl RequestClient for DummyRequestClient {
    fn get_url(&self, url: &str, jwt_token: Option<String>) -> TvdbResult<String> {
        self.calls.set(self.calls.get() + 1);
        Err(TvdbError::CommunicationError {
            reason: format!(
                "Fake error while doing fake request for: {:?} with JWT {:?}",
                url, jwt_token,
            ),
        })
    }

    fn post_login(&self, _url: &str, _apikey: &str) -> TvdbResult<String> {
        self.calls.set(self.calls.get() + 1);
        Err(TvdbError::CommunicationError {
            reason: "Fake error while logging in".to_owned(),
        })
    }
}

#[test]
fn custom_http_client() {
    let c = DummyRequestClient::new();

    let mut api = Tvdb::new(APIKEY, DummyRequestClient::new());
    api.set_http_client(c);

    let result = api.search(Some("scrubs"), None);
    println!("{:?}", result);

    match result {
        Ok(_) => panic!("Expected error"),
        Err(e) => match e {
            TvdbError::CommunicationError { reason: _ } => (),
            _ => panic!("Unexpected"),
        },
    }
}

#[test]
fn failing_transport_calls_capability_exactly_once() {
    let api = Tvdb::new(APIKEY, DummyRequestClient::new());
    let result = api.search(Some("scrubs"), None);
    assert!(matches!(result, Err(TvdbError::CommunicationError { .. })));
    assert_eq!(api.http_client.calls.get(), 1);

    let api = Tvdb::new(APIKEY, DummyRequestClient::new());
    let result = api.episode(184603);
    assert!(matches!(result, Err(TvdbError::CommunicationError { .. })));
    assert_eq!(api.http_client.calls.get(), 1);

    let api = Tvdb::new(APIKEY, DummyRequestClient::new());
    let result = api.series_episodes(76156, 1);
    assert!(matches!(result, Err(TvdbError::CommunicationError { .. })));
    assert_eq!(api.http_client.calls.get(), 1);
}

#[test]
fn all_episodes() {
    let mut api = Tvdb::new(APIKEY, StubClient);
    api.login().unwrap();
    let sr = api.search(Some("scrubs"), None).unwrap();
    let first_id = sr.data.unwrap()[0].id.unwrap();
    let eps = api.series_episodes(first_id, 1).unwrap();
    let data = eps.data.unwrap();
    assert!(data.len() > 10);
    let ep = data[0].clone();
    assert!(ep.episode_name.unwrap() == "My First Day");
}

/// A transport stub returning a search envelope with zero matches.
#[derive(Debug)]
struct EmptyClient;

impl RequestClient for EmptyClient {
    fn get_url(&self, _url: &str, _jwt: Option<String>) -> TvdbResult<String> {
        Ok(r#"{"data": [], "error": null}"#.to_owned())
    }
    fn post_login(&self, _url: &str, _apikey: &str) -> TvdbResult<String> {
        Ok(r#"{"token": "fixed-session-token"}"#.to_owned())
    }
}

#[test]
fn empty_search_result_is_success() {
    let api = Tvdb::new(APIKEY, EmptyClient);
    let sr = api.search(Some("ladlkgdklfgsdfglk"), None).unwrap();
    assert_eq!(sr.data.unwrap().len(), 0);
    assert!(sr.error.is_none());
}

/// A transport stub returning bodies that are not JSON.
#[derive(Debug)]
struct GarbageClient;

impl RequestClient for GarbageClient {
    fn get_url(&self, _url: &str, _jwt: Option<String>) -> TvdbResult<String> {
        Ok("this is not json".to_owned())
    }
    fn post_login(&self, _url: &str, _apikey: &str) -> TvdbResult<String> {
        Ok("{}".to_owned())
    }
}

#[test]
fn bad_json_is_data_error() {
    let api = Tvdb::new(APIKEY, GarbageClient);
    let sr = api.search(Some("scrubs"), None);
    assert!(matches!(sr, Err(TvdbError::DataError { .. })));

    // A login body without a token field is a DataError too.
    let mut api = Tvdb::new(APIKEY, GarbageClient);
    let lr = api.login();
    assert!(matches!(lr, Err(TvdbError::DataError { .. })));
    assert!(api.jwt_token.is_none());
}

/// A transport stub recording the URL of the last request.
#[derive(Debug)]
struct RecordingClient {
    last_url: std::cell::RefCell<String>,
}

impl RequestClient for RecordingClient {
    fn get_url(&self, url: &str, _jwt: Option<String>) -> TvdbResult<String> {
        *self.last_url.borrow_mut() = url.to_owned();
        Err(TvdbError::CommunicationError { reason: "stop".to_owned() })
    }
    fn post_login(&self, _url: &str, _apikey: &str) -> TvdbResult<String> {
        Err(TvdbError::CommunicationError { reason: "stop".to_owned() })
    }
}

#[test]
fn requested_urls_are_exact() {
    let api = Tvdb::new(APIKEY, RecordingClient { last_url: std::cell::RefCell::new(String::new()) });

    let _ = api.search(Some("scrubs"), None);
    assert_eq!(
        api.http_client.last_url.borrow().as_str(),
        "https://api.thetvdb.com/search/series?name=scrubs"
    );

    let _ = api.search(Some("my show"), Some("tt0285403"));
    assert_eq!(
        api.http_client.last_url.borrow().as_str(),
        "https://api.thetvdb.com/search/series?name=my+show&imdbId=tt0285403"
    );

    let _ = api.episode(184603);
    assert_eq!(
        api.http_client.last_url.borrow().as_str(),
        "https://api.thetvdb.com/episodes/184603"
    );

    let _ = api.series_episodes(76156, 3);
    assert_eq!(
        api.http_client.last_url.borrow().as_str(),
        "https://api.thetvdb.com/series/76156/episodes?page=3"
    );
}
