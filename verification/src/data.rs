//! Identifier model and typed response records.
//!
//! The identifier types normalize the several ad-hoc ways a caller may name a
//! series (a bare integer, a search-result entry, an explicit id + language
//! pair) into canonical lookup keys.  The record types are the typed shapes
//! of the service's responses; they are created from response payloads and
//! never mutated afterwards.  Fields the service reports as fractional
//! numbers are kept as `Number` values, as received.

use vstd::prelude::*;

use crate::error::{TvdbError, TvdbResult};
use crate::json::{opt_num_view, opt_str_list_view, opt_str_view, Number, NumberV};

verus! {

/// A calendar date as parsed from `YYYY-MM-DD` text.  The parts are never
/// validated for calendar correctness (no month or day range checks); this
/// is a deliberate simplification, not an omission.
#[derive(Debug, Clone, Copy, PartialEq, Eq, Structural)]
pub struct Date {
    pub year: u32,
    pub month: u32,
    pub day: u32,
}

/// Wraps a provider-assigned series integer id.
#[derive(Debug, Clone)]
pub struct SeriesId {
    pub seriesid: u32,
}

impl From<u32> for SeriesId {
    fn from(x: u32) -> (r: Self) {
        SeriesId { seriesid: x }
    }
}

impl vstd::std_specs::convert::FromSpecImpl<u32> for SeriesId {
    open spec fn obeys_from_spec() -> bool {
        true
    }

    open spec fn from_spec(x: u32) -> Self {
        SeriesId { seriesid: x }
    }
}

/// Canonical episode-lookup key: a series id plus a two-letter language code.
///
/// The language is always populated once the key is constructed: conversion
/// from a bare integer fills in `"en"`.
#[derive(Debug, Clone)]
pub struct EpisodeId {
    /// Series ID
    pub seriesid: u32,
    /// Language code
    pub language: String,
}

impl EpisodeId {
    /// Constructor
    pub fn new(seriesid: u32, lang: &str) -> (r: EpisodeId)
        ensures
            r.seriesid == seriesid,
            r.language@ == lang@,
    {
        EpisodeId { seriesid: seriesid, language: lang.to_owned() }
    }

    /// Convert a search entry into a lookup key, preserving the entry's id
    /// and carrying its language forward (defaulting to `"en"` where the
    /// entry reports none).  An entry without an id is a contract violation
    /// by the search deserialization, surfaced as a typed error.
    pub fn from_search_entry(e: &SeriesSearchData) -> (r: TvdbResult<EpisodeId>)
        ensures
            r is Ok <==> e.id is Some,
            r matches Ok(k) ==> k.seriesid == e.id.unwrap(),
            r matches Ok(k) ==> (match e.language {
                Option::Some(l) => k.language@ == l@,
                Option::None => k.language@ == "en"@,
            }),
            r matches Err(err) ==> err matches TvdbError::InternalError { .. },
    {
        match e.id {
            Option::Some(id) => match &e.language {
                Option::Some(l) => Ok(EpisodeId { seriesid: id, language: l.clone() }),
                Option::None => Ok(EpisodeId { seriesid: id, language: "en".to_owned() }),
            },
            Option::None => Err(TvdbError::InternalError {
                reason: "Search entry has no id".to_owned(),
            }),
        }
    }
}

impl From<u32> for EpisodeId {
    /// Converting a bare integer always defaults the language to `"en"`;
    /// this is a fixed policy, not configurable per call.
    fn from(x: u32) -> (r: Self)
        ensures
            r.seriesid == x,
            r.language@ == "en"@,
    {
        EpisodeId { seriesid: x, language: "en".to_owned() }
    }
}

impl vstd::std_specs::convert::FromSpecImpl<u32> for EpisodeId {
    open spec fn obeys_from_spec() -> bool {
        false
    }

    open spec fn from_spec(x: u32) -> Self {
        arbitrary()
    }
}

/// Info for a single series, as returned from a search query.
#[derive(Debug, Clone)]
pub struct SeriesSearchData {
    pub aliases: Option<Vec<String>>,
    pub banner: Option<String>,
    pub first_aired: Option<String>,
    pub id: Option<u32>,
    pub language: Option<String>,
    pub network: Option<String>,
    pub overview: Option<String>,
    pub series_name: String,
    pub status: Option<String>,
}

/// The mathematical value of a `SeriesSearchData` record.
pub ghost struct SearchEntryV {
    pub aliases: Option<Seq<Seq<char>>>,
    pub banner: Option<Seq<char>>,
    pub first_aired: Option<Seq<char>>,
    pub id: Option<u32>,
    pub language: Option<Seq<char>>,
    pub network: Option<Seq<char>>,
    pub overview: Option<Seq<char>>,
    pub series_name: Seq<char>,
    pub status: Option<Seq<char>>,
}

impl SeriesSearchData {
    /// The view of the record.
    pub open spec fn dv(self) -> SearchEntryV {
        SearchEntryV {
            aliases: opt_str_list_view(self.aliases),
            banner: opt_str_view(self.banner),
            first_aired: opt_str_view(self.first_aired),
            id: self.id,
            language: opt_str_view(self.language),
            network: opt_str_view(self.network),
            overview: opt_str_view(self.overview),
            series_name: self.series_name@,
            status: opt_str_view(self.status),
        }
    }
}

/// Complete info for an episode.
#[derive(Debug, Clone)]
pub struct Episode {
    pub absolute_number: Option<u32>,
    pub aired_episode_number: Option<u32>,
    pub aired_season: Option<u32>,
    pub airs_after_season: Option<u32>,
    pub airs_before_episode: Option<u32>,
    pub airs_before_season: Option<u32>,
    pub director: Option<String>,
    pub directors: Option<Vec<String>>,
    pub dvd_chapter: Option<Number>,
    pub dvd_discid: Option<String>,
    pub dvd_episode_number: Option<Number>,
    pub dvd_season: Option<u32>,
    pub episode_name: String,
    pub filename: Option<String>,
    pub first_aired: Option<String>,
    pub guest_stars: Option<Vec<String>>,
    pub id: Option<u32>,
    pub imdb_id: Option<String>,
    pub last_updated: Option<u32>,
    pub last_updated_by: Option<u32>,
    pub overview: Option<String>,
    pub production_code: Option<String>,
    pub series_id: Option<u32>,
    pub show_url: Option<String>,
    pub site_rating: Option<Number>,
    pub site_rating_count: Option<u32>,
    pub thumb_added: Option<String>,
    pub thumb_author: Option<u32>,
    pub thumb_height: Option<String>,
    pub thumb_width: Option<String>,
    pub writers: Option<Vec<String>>,
}

/// The mathematical value of a `Episode` record.
pub ghost struct EpisodeV {
    pub absolute_number: Option<u32>,
    pub aired_episode_number: Option<u32>,
    pub aired_season: Option<u32>,
    pub airs_after_season: Option<u32>,
    pub airs_before_episode: Option<u32>,
    pub airs_before_season: Option<u32>,
    pub director: Option<Seq<char>>,
    pub directors: Option<Seq<Seq<char>>>,
    pub dvd_chapter: Option<NumberV>,
    pub dvd_discid: Option<Seq<char>>,
    pub dvd_episode_number: Option<NumberV>,
    pub dvd_season: Option<u32>,
    pub episode_name: Seq<char>,
    pub filename: Option<Seq<char>>,
    pub first_aired: Option<Seq<char>>,
    pub guest_stars: Option<Seq<Seq<char>>>,
    pub id: Option<u32>,
    pub imdb_id: Option<Seq<char>>,
    pub last_updated: Option<u32>,
    pub last_updated_by: Option<u32>,
    pub overview: Option<Seq<char>>,
    pub production_code: Option<Seq<char>>,
    pub series_id: Option<u32>,
    pub show_url: Option<Seq<char>>,
    pub site_rating: Option<NumberV>,
    pub site_rating_count: Option<u32>,
    pub thumb_added: Option<Seq<char>>,
    pub thumb_author: Option<u32>,
    pub thumb_height: Option<Seq<char>>,
    pub thumb_width: Option<Seq<char>>,
    pub writers: Option<Seq<Seq<char>>>,
}

impl Episode {
    /// The view of the record.
    pub open spec fn dv(self) -> EpisodeV {
        EpisodeV {
            absolute_number: self.absolute_number,
            aired_episode_number: self.aired_episode_number,
            aired_season: self.aired_season,
            airs_after_season: self.airs_after_season,
            airs_before_episode: self.airs_before_episode,
            airs_before_season: self.airs_before_season,
            director: opt_str_view(self.director),
            directors: opt_str_list_view(self.directors),
            dvd_chapter: opt_num_view(self.dvd_chapter),
            dvd_discid: opt_str_view(self.dvd_discid),
            dvd_episode_number: opt_num_view(self.dvd_episode_number),
            dvd_season: self.dvd_season,
            episode_name: self.episode_name@,
            filename: opt_str_view(self.filename),
            first_aired: opt_str_view(self.first_aired),
            guest_stars: opt_str_list_view(self.guest_stars),
            id: self.id,
            imdb_id: opt_str_view(self.imdb_id),
            last_updated: self.last_updated,
            last_updated_by: self.last_updated_by,
            overview: opt_str_view(self.overview),
            production_code: opt_str_view(self.production_code),
            series_id: self.series_id,
            show_url: opt_str_view(self.show_url),
            site_rating: opt_num_view(self.site_rating),
            site_rating_count: self.site_rating_count,
            thumb_added: opt_str_view(self.thumb_added),
            thumb_author: self.thumb_author,
            thumb_height: opt_str_view(self.thumb_height),
            thumb_width: opt_str_view(self.thumb_width),
            writers: opt_str_list_view(self.writers),
        }
    }
}

/// Episode with the most common attributes available.
#[derive(Debug, Clone)]
pub struct BasicEpisode {
    pub absolute_number: Option<u32>,
    pub aired_episode_number: Option<u32>,
    pub aired_season: Option<u32>,
    pub dvd_episode_number: Option<Number>,
    pub dvd_season: Option<u32>,
    pub episode_name: Option<String>,
    pub first_aired: Option<String>,
    pub id: Option<u32>,
    pub last_updated: Option<u32>,
    pub overview: Option<String>,
}

/// The mathematical value of a `BasicEpisode` record.
pub ghost struct BasicEpisodeV {
    pub absolute_number: Option<u32>,
    pub aired_episode_number: Option<u32>,
    pub aired_season: Option<u32>,
    pub dvd_episode_number: Option<NumberV>,
    pub dvd_season: Option<u32>,
    pub episode_name: Option<Seq<char>>,
    pub first_aired: Option<Seq<char>>,
    pub id: Option<u32>,
    pub last_updated: Option<u32>,
    pub overview: Option<Seq<char>>,
}

impl BasicEpisode {
    /// The view of the record.
    pub open spec fn dv(self) -> BasicEpisodeV {
        BasicEpisodeV {
            absolute_number: self.absolute_number,
            aired_episode_number: self.aired_episode_number,
            aired_season: self.aired_season,
            dvd_episode_number: opt_num_view(self.dvd_episode_number),
            dvd_season: self.dvd_season,
            episode_name: opt_str_view(self.episode_name),
            first_aired: opt_str_view(self.first_aired),
            id: self.id,
            last_updated: self.last_updated,
            overview: opt_str_view(self.overview),
        }
    }
}

/// Pagination links; absence of `next` signals the last page.
#[derive(Debug, Clone)]
pub struct Links {
    pub first: Option<u32>,
    pub last: Option<u32>,
    pub next: Option<u32>,
    pub previous: Option<u32>,
}

/// The mathematical value of a `Links` record.
pub ghost struct LinksV {
    pub first: Option<u32>,
    pub last: Option<u32>,
    pub next: Option<u32>,
    pub previous: Option<u32>,
}

impl Links {
    /// The view of the record.
    pub open spec fn dv(self) -> LinksV {
        LinksV {
            first: self.first,
            last: self.last,
            next: self.next,
            previous: self.previous,
        }
    }
}

/// Field-level complaints the service reports beside a response.
#[derive(Debug, Clone)]
pub struct JSONErrors {
    pub invalid_filters: Option<Vec<String>>,
    pub invalid_language: Option<Vec<String>>,
    pub invalid_query_params: Option<Vec<String>>,
}

/// The mathematical value of a `JSONErrors` record.
pub ghost struct JSONErrorsV {
    pub invalid_filters: Option<Seq<Seq<char>>>,
    pub invalid_language: Option<Seq<Seq<char>>>,
    pub invalid_query_params: Option<Seq<Seq<char>>>,
}

impl JSONErrors {
    /// The view of the record.
    pub open spec fn dv(self) -> JSONErrorsV {
        JSONErrorsV {
            invalid_filters: opt_str_list_view(self.invalid_filters),
            invalid_language: opt_str_list_view(self.invalid_language),
            invalid_query_params: opt_str_list_view(self.invalid_query_params),
        }
    }
}


/// List of `SeriesSearchData`, returned from a search.  An empty list is a
/// success value here, distinct from a transport failure.
#[derive(Debug, Clone)]
pub struct SeriesSearchResult {
    pub data: Option<Vec<SeriesSearchData>>,
    pub error: Option<String>,
}

/// The mathematical value of a `SeriesSearchResult`.
pub ghost struct SeriesSearchResultV {
    pub data: Option<Seq<SearchEntryV>>,
    pub error: Option<Seq<char>>,
}

impl SeriesSearchResult {
    /// The view of the envelope.
    pub open spec fn dv(self) -> SeriesSearchResultV {
        SeriesSearchResultV {
            data: match self.data {
                Option::None => None,
                Option::Some(v) => Some(v@.map_values(|x: SeriesSearchData| x.dv())),
            },
            error: opt_str_view(self.error),
        }
    }
}

/// A record-or-errors envelope around a single episode.
#[derive(Debug, Clone)]
pub struct EpisodeRecordResult {
    pub data: Option<Episode>,
    pub errors: Option<JSONErrors>,
}

/// The mathematical value of an `EpisodeRecordResult`.
pub ghost struct EpisodeRecordResultV {
    pub data: Option<EpisodeV>,
    pub errors: Option<JSONErrorsV>,
}

impl EpisodeRecordResult {
    /// The view of the envelope.
    pub open spec fn dv(self) -> EpisodeRecordResultV {
        EpisodeRecordResultV {
            data: match self.data {
                Option::None => None,
                Option::Some(e) => Some(e.dv()),
            },
            errors: match self.errors {
                Option::None => None,
                Option::Some(e) => Some(e.dv()),
            },
        }
    }
}

/// One page of a series' episode listing, with pagination links.
#[derive(Debug, Clone)]
pub struct SeriesEpisodesResult {
    pub data: Option<Vec<BasicEpisode>>,
    pub errors: Option<JSONErrors>,
    pub links: Option<Links>,
}

/// The mathematical value of a `SeriesEpisodesResult`.
pub ghost struct SeriesEpisodesResultV {
    pub data: Option<Seq<BasicEpisodeV>>,
    pub errors: Option<JSONErrorsV>,
    pub links: Option<LinksV>,
}

impl SeriesEpisodesResult {
    /// The view of the envelope.
    pub open spec fn dv(self) -> SeriesEpisodesResultV {
        SeriesEpisodesResultV {
            data: match self.data {
                Option::None => None,
                Option::Some(v) => Some(v@.map_values(|x: BasicEpisode| x.dv())),
            },
            errors: match self.errors {
                Option::None => None,
                Option::Some(e) => Some(e.dv()),
            },
            links: match self.links {
                Option::None => None,
                Option::Some(l) => Some(l.dv()),
            },
        }
    }
}

} // verus!
