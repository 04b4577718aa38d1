//! Request-URL construction for both API generations.
//!
//! Path-templated URLs are built by verified string concatenation; the
//! search URL's query string goes through the `url` crate so that parameter
//! values are percent-encoded exactly as the service expects.

use vstd::prelude::*;

use crate::error::{TvdbError, TvdbResult};
use crate::parse::{dec_str, u32_to_string};

verus! {

/// The URL that a base plus serialized query pairs yields, `None` when the
/// base does not parse as a URL.  This names the result of
/// `url::Url::parse_with_params`, which is a function of its inputs alone;
/// nothing here says what the encoding is for given values, so concrete
/// URLs are checked only through the service's own acceptance of them.
pub uninterp spec fn url_with_params(base: Seq<char>, params: Seq<(Seq<char>, Seq<char>)>) -> Option<
    Seq<char>,
>;

/// The views of a list of query parameters.
pub open spec fn params_view(p: Seq<(String, String)>) -> Seq<(Seq<char>, Seq<char>)> {
    p.map_values(|kv: (String, String)| (kv.0@, kv.1@))
}

/// Relies on `url::Url::parse_with_params`: appends the pairs to the base
/// URL as a percent-encoded query string, deterministically in its inputs,
/// failing exactly when the base does not parse.
#[verifier::external_body]
fn parse_with_params(base: &str, params: &Vec<(String, String)>) -> (r: Option<String>)
    ensures
        r matches Some(u) ==> url_with_params(base@, params_view(params@)) == Some(u@),
        r is Some <==> url_with_params(base@, params_view(params@)) is Some,
{
    match url::Url::parse_with_params(base, params.iter().map(|(k, v)| (k.as_str(), v.as_str()))) {
        Ok(u) => Some(u.as_str().to_owned()),
        Err(_) => None,
    }
}

/// The view of an optional borrowed string.
pub open spec fn opt_sv(o: Option<&str>) -> Option<Seq<char>> {
    match o {
        Option::None => None,
        Option::Some(s) => Some(s@),
    }
}

/// The query pairs of a search request: `name` and `imdbId`, in that order,
/// each present exactly when the caller supplied it.
pub open spec fn search_params(name: Option<Seq<char>>, imdb_id: Option<Seq<char>>) -> Seq<
    (Seq<char>, Seq<char>),
> {
    let with_name: Seq<(Seq<char>, Seq<char>)> = if name is Some {
        seq![("name"@, name.unwrap())]
    } else {
        Seq::empty()
    };
    if imdb_id is Some {
        with_name.push(("imdbId"@, imdb_id.unwrap()))
    } else {
        with_name
    }
}

/// Build the search URL for the JSON generation.
pub fn search_url(name: Option<&str>, imdb_id: Option<&str>) -> (r: TvdbResult<String>)
    ensures
        r matches Ok(u) ==> url_with_params(
            "https://api.thetvdb.com/search/series"@,
            search_params(opt_sv(name), opt_sv(imdb_id)),
        ) == Some(u@),
        r is Ok <==> url_with_params(
            "https://api.thetvdb.com/search/series"@,
            search_params(opt_sv(name), opt_sv(imdb_id)),
        ) is Some,
        r matches Err(e) ==> e matches TvdbError::InternalError { .. },
{
    let mut params: Vec<(String, String)> = Vec::new();
    if let Some(n) = name {
        params.push(("name".to_owned(), n.to_owned()));
    }
    if let Some(i) = imdb_id {
        params.push(("imdbId".to_owned(), i.to_owned()));
    }
    proof {
        assert(params_view(params@) =~= search_params(opt_sv(name), opt_sv(imdb_id)));
    }
    match parse_with_params("https://api.thetvdb.com/search/series", &params) {
        Some(u) => Ok(u),
        None => Err(TvdbError::InternalError {
            reason: "Could not build search URL".to_owned(),
        }),
    }
}

/// The episode-detail URL of the JSON generation.
pub open spec fn episode_url_spec(id: u32) -> Seq<char> {
    "https://api.thetvdb.com/episodes/"@ + dec_str(id as int)
}

/// Build the episode-detail URL for the JSON generation.
pub fn episode_url(id: u32) -> (r: String)
    ensures
        r@ == episode_url_spec(id),
{
    let mut s = "https://api.thetvdb.com/episodes/".to_owned();
    let n = u32_to_string(id);
    s.append(n.as_str());
    s
}

/// Build the search URL for the legacy generation's form-encoded query.
pub fn legacy_search_url(name: &str, lang: &str) -> (r: TvdbResult<String>)
    ensures
        r matches Ok(u) ==> url_with_params(
            "https://thetvdb.com/api/GetSeries.php"@,
            seq![("seriesname"@, name@), ("language"@, lang@)],
        ) == Some(u@),
        r is Ok <==> url_with_params(
            "https://thetvdb.com/api/GetSeries.php"@,
            seq![("seriesname"@, name@), ("language"@, lang@)],
        ) is Some,
        r matches Err(e) ==> e matches TvdbError::InternalError { .. },
{
    let mut params: Vec<(String, String)> = Vec::new();
    params.push(("seriesname".to_owned(), name.to_owned()));
    params.push(("language".to_owned(), lang.to_owned()));
    proof {
        assert(params_view(params@) =~= seq![("seriesname"@, name@), ("language"@, lang@)]);
    }
    match parse_with_params("https://thetvdb.com/api/GetSeries.php", &params) {
        Some(u) => Ok(u),
        None => Err(TvdbError::InternalError {
            reason: "Could not build search URL".to_owned(),
        }),
    }
}

/// The path-templated episode URL of the legacy generation, embedding the
/// API key, series id, season, episode number and language.
pub open spec fn legacy_episode_url_spec(
    key: Seq<char>,
    id: u32,
    season: u32,
    episode: u32,
    lang: Seq<char>,
) -> Seq<char> {
    "https://thetvdb.com/api/"@ + key + "/series/"@ + dec_str(id as int) + "/default/"@ + dec_str(
        season as int,
    ) + "/"@ + dec_str(episode as int) + "/"@ + lang + ".xml"@
}

/// Build the episode URL for the legacy generation.
pub fn legacy_episode_url(key: &str, id: u32, season: u32, episode: u32, lang: &str) -> (r:
    String)
    ensures
        r@ == legacy_episode_url_spec(key@, id, season, episode, lang@),
{
    let mut s = "https://thetvdb.com/api/".to_owned();
    s.append(key);
    s.append("/series/");
    let sid = u32_to_string(id);
    s.append(sid.as_str());
    s.append("/default/");
    let sse = u32_to_string(season);
    s.append(sse.as_str());
    s.append("/");
    let sep = u32_to_string(episode);
    s.append(sep.as_str());
    s.append("/");
    s.append(lang);
    s.append(".xml");
    s
}

/// The series-episode-listing URL of the JSON generation.
pub open spec fn series_episodes_url_spec(id: u32, page: u32) -> Seq<char> {
    "https://api.thetvdb.com/series/"@ + dec_str(id as int) + "/episodes?page="@ + dec_str(
        page as int,
    )
}

/// Build the series-episode-listing URL for the JSON generation.
pub fn series_episodes_url(id: u32, page: u32) -> (r: String)
    ensures
        r@ == series_episodes_url_spec(id, page),
{
    let mut s = "https://api.thetvdb.com/series/".to_owned();
    let n = u32_to_string(id);
    s.append(n.as_str());
    s.append("/episodes?page=");
    let p = u32_to_string(page);
    s.append(p.as_str());
    s
}

} // verus!
