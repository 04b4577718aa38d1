use tvdb::{RequestClient, Tvdb, TvdbResult};

static APIKEY: &str = "test-api-key";

const SEARCH_BODY: &str = r#"{
  "data": [
    {"id": 76156, "seriesName": "Scrubs", "language": "en"},
    {"id": 222571, "seriesName": "Scrubs Interns", "language": "en"}
  ],
  "error": null
}"#;

/// A transport stub serving a fixed search response.
#[derive(Debug)]
struct SearchStub;

impl RequestClient for SearchStub {
    fn get_url(&self, _url: &str, _jwt_token: Option<String>) -> TvdbResult<String> {
        Ok(SEARCH_BODY.to_owned())
    }

    fn post_login(&self, _url: &str, _apikey: &str) -> TvdbResult<String> {
        Ok(r#"{"token": "fixed-session-token"}"#.to_owned())
    }
}

#[test]
fn basic() {
    let mut t = Tvdb::new(APIKEY, SearchStub);
    t.login().unwrap();
    let sr = t.search(Some("scrubs"), None).unwrap();
    for s in sr.data.unwrap().iter() {
        println!("{:?}: ID {:?}", s.series_name, s.id);
    }
}

#[test]
fn search_by_imdb() {
    let mut t = Tvdb::new(APIKEY, SearchStub);
    t.login().unwrap();
    let sr = t.search(None, Some("tt0285403")).unwrap();
    for s in sr.data.unwrap().iter() {
        println!("{:?}: ID {:?}", s.series_name, s.id);
    }
}
