//! The JSON-generation client: login, search, episode detail, and series
//! episode listings, bound to a pluggable transport capability.
//!
//! Every operation performs at most one round trip through the capability
//! and surfaces a transport failure immediately; no retries happen here.
//! Only `login` writes the session-credential slot; all other operations
//! read it.

use vstd::prelude::*;

use crate::data::{EpisodeId, EpisodeRecordResult, SeriesEpisodesResult, SeriesId, SeriesSearchResult};
use crate::error::{TvdbError, TvdbResult};
use crate::json::{json_of, spec_req_str};
use crate::mapping::{
    parse_episode, parse_login_token, parse_search, parse_series_episodes, spec_episode_result,
    spec_search_result, spec_series_episodes_result,
};
use crate::urls::{
    episode_url, opt_sv, search_params, search_url, series_episodes_url, url_with_params,
};

verus! {

/// Trait for custom implementations of URL fetching.
///
/// Implementations must attach the credential as a bearer authorization
/// header when present, treat any non-success HTTP status as an error
/// carrying the status and URL, and return the full response body as text
/// on success.  No contract is assumed of an implementation: the client's
/// own guarantees hold whatever an implementation returns.
pub trait RequestClient {
    /// Perform an HTTP GET of `url`.
    fn get_url(&self, url: &str, jwt_token: Option<String>) -> TvdbResult<String>;

    /// POST the API key as a JSON body to the authentication endpoint at
    /// `url`, returning the response body as text.
    fn post_login(&self, url: &str, apikey: &str) -> TvdbResult<String>;
}

/// Main interface to the JSON generation of the service.
pub struct Tvdb<C: RequestClient> {
    /// Your API key for the service.
    pub key: String,
    /// The transport capability performing HTTP requests.
    pub http_client: C,
    /// The session-credential slot, written only by `login`.
    pub jwt_token: Option<String>,
}

impl<C: RequestClient> Tvdb<C> {
    /// Initialise the API with the given API key and transport capability.
    pub fn new(key: &str, client: C) -> (r: Tvdb<C>)
        ensures
            r.key@ == key@,
            r.jwt_token is None,
            r.http_client == client,
    {
        Tvdb { key: key.to_owned(), http_client: client, jwt_token: None }
    }

    /// Set the JWT session token.
    fn set_token(&mut self, token: String)
        ensures
            final(self).jwt_token == Some(token),
            final(self).key == old(self).key,
            final(self).http_client == old(self).http_client,
    {
        self.jwt_token = Some(token);
    }

    /// Get the JWT session token (typically set via the `login` method).
    pub fn get_token(&self) -> (r: Option<String>)
        ensures
            match (r, self.jwt_token) {
                (Option::Some(a), Option::Some(b)) => a@ == b@,
                (Option::None, Option::None) => true,
                _ => false,
            },
    {
        match &self.jwt_token {
            Option::None => None,
            Option::Some(t) => Some(t.clone()),
        }
    }

    /// Authenticate with the service, storing the session token internally
    /// for use by other methods.  On success the stored token is exactly
    /// the `token` field of some really-decoded JSON body; on any failure
    /// the slot is left as it was.
    pub fn login(&mut self) -> (r: TvdbResult<bool>)
        ensures
            final(self).key == old(self).key,
            final(self).http_client == old(self).http_client,
            r matches Ok(b) ==> b == true && final(self).jwt_token is Some,
            (r matches Ok(b) ==> exists|b2: Seq<char>| #[trigger] json_of(b2) matches Some(v)
                && spec_req_str(v, "token"@) == Some(final(self).jwt_token.unwrap()@)),
            r is Err ==> final(self).jwt_token == old(self).jwt_token,
    {
        let resp = self.http_client.post_login("https://api.thetvdb.com/login", self.key.as_str());
        let body = match resp {
            Ok(b) => b,
            Err(e) => {
                return Err(e);
            },
        };
        let tok = match parse_login_token(body.as_str()) {
            Ok(t) => t,
            Err(e) => {
                return Err(e);
            },
        };
        proof {
            assert(json_of(body@) matches Some(v)
                && spec_req_str(v, "token"@) == Some(tok@));
        }
        self.set_token(tok);
        Ok(true)
    }

    /// Sets a custom transport capability (implementation of
    /// `RequestClient`) used to perform HTTP requests.
    pub fn set_http_client(&mut self, client: C)
        ensures
            final(self).http_client == client,
            final(self).key == old(self).key,
            final(self).jwt_token == old(self).jwt_token,
    {
        self.http_client = client;
    }

    /// Search for series by name or IMDB id.  A success value is exactly
    /// the mapping of some really-decoded JSON document; an empty `data`
    /// list is returned as-is, not turned into an error.
    pub fn search(&self, name: Option<&str>, imdb_id: Option<&str>) -> (r: TvdbResult<
        SeriesSearchResult,
    >)
        ensures
            r matches Ok(sr) ==> exists|b: Seq<char>| #[trigger] json_of(b) matches Some(v)
                && spec_search_result(v) == Some(sr.dv()),
            url_with_params(
                "https://api.thetvdb.com/search/series"@,
                search_params(opt_sv(name), opt_sv(imdb_id)),
            ) is None ==> (r matches Err(e) && e matches TvdbError::InternalError { .. }),
    {
        let url = match search_url(name, imdb_id) {
            Ok(u) => u,
            Err(e) => {
                return Err(e);
            },
        };
        let body = match self.http_client.get_url(url.as_str(), self.get_token()) {
            Ok(b) => b,
            Err(e) => {
                return Err(e);
            },
        };
        let r = parse_search(body.as_str());
        proof {
            if r is Ok {
                assert(json_of(body@) matches Some(v)
                    && spec_search_result(v) == Some(r.unwrap().dv()));
            }
        }
        r
    }

    /// Full information about the given episode.
    ///
    /// The identifier's language is accepted but not applied to the request
    /// in this generation.
    pub fn episode<E: core::convert::Into<EpisodeId>>(&self, id: E) -> (r: TvdbResult<
        EpisodeRecordResult,
    >)
        ensures
            r matches Ok(x) ==> exists|b: Seq<char>| #[trigger] json_of(b) matches Some(v)
                && spec_episode_result(v) == Some(x.dv()),
    {
        self.episode_inner(id.into())
    }

    fn episode_inner(&self, id: EpisodeId) -> (r: TvdbResult<EpisodeRecordResult>)
        ensures
            r matches Ok(x) ==> exists|b: Seq<char>| #[trigger] json_of(b) matches Some(v)
                && spec_episode_result(v) == Some(x.dv()),
    {
        let url = episode_url(id.seriesid);
        let body = match self.http_client.get_url(url.as_str(), self.get_token()) {
            Ok(b) => b,
            Err(e) => {
                return Err(e);
            },
        };
        let r = parse_episode(body.as_str());
        proof {
            if r is Ok {
                assert(json_of(body@) matches Some(v)
                    && spec_episode_result(v) == Some(r.unwrap().dv()));
            }
        }
        r
    }

    /// One page of the episode listing for the given series.
    pub fn series_episodes<S: core::convert::Into<SeriesId>>(&self, id: S, page: u32) -> (r:
        TvdbResult<SeriesEpisodesResult>)
        ensures
            r matches Ok(x) ==> exists|b: Seq<char>| #[trigger] json_of(b) matches Some(v)
                && spec_series_episodes_result(v) == Some(x.dv()),
    {
        self.series_episodes_inner(id.into(), page)
    }

    fn series_episodes_inner(&self, id: SeriesId, page: u32) -> (r: TvdbResult<
        SeriesEpisodesResult,
    >)
        ensures
            r matches Ok(x) ==> exists|b: Seq<char>| #[trigger] json_of(b) matches Some(v)
                && spec_series_episodes_result(v) == Some(x.dv()),
    {
        let url = series_episodes_url(id.seriesid, page);
        let body = match self.http_client.get_url(url.as_str(), self.get_token()) {
            Ok(b) => b,
            Err(e) => {
                return Err(e);
            },
        };
        let r = parse_series_episodes(body.as_str());
        proof {
            if r is Ok {
                assert(json_of(body@) matches Some(v)
                    && spec_series_episodes_result(v) == Some(r.unwrap().dv()));
            }
        }
        r
    }
}

} // verus!
