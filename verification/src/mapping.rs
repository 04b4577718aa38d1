//! Verified mapping from decoded JSON trees to the typed response records.
//!
//! Each record has a spec-level mapping over `JsonV` and an executable
//! mapping over `Json` proved to agree with it.  Unknown fields are ignored
//! and missing optional fields become absent values; a present field of the
//! wrong shape, or a missing required field, is a `DataError`.

use vstd::prelude::*;

use crate::data::{
    BasicEpisode, BasicEpisodeV, Episode, EpisodeRecordResult, EpisodeRecordResultV, EpisodeV,
    JSONErrors, JSONErrorsV, Links, LinksV, SearchEntryV, SeriesEpisodesResult,
    SeriesEpisodesResultV, SeriesSearchData, SeriesSearchResult, SeriesSearchResultV,
};
use crate::error::{TvdbError, TvdbResult};
use crate::json::{
    decode_json, json_of, jv, jv_seq, lemma_jv_seq_index, obj_get, opt_num_field, opt_str_field,
    opt_str_list_field, opt_u32_field, req_str_field, spec_opt_num, spec_opt_str,
    spec_opt_str_list, spec_opt_u32, spec_req_str, Json, JsonV,
};

verus! {

/// The error reported for a response whose overall shape is not a record.
fn record_error() -> (r: TvdbError)
    ensures
        r matches TvdbError::DataError { .. },
{
    TvdbError::DataError { reason: "Malformed record in response".to_owned() }
}

/// The error wrapped around text that is not valid JSON.
fn json_parse_error(reason: String) -> (r: TvdbError)
    ensures
        r matches TvdbError::DataError { reason: rr } && rr@ == "Error parsing JSON data: "@
            + reason@,
{
    let mut rr = "Error parsing JSON data: ".to_owned();
    rr.append(reason.as_str());
    TvdbError::DataError { reason: rr }
}

/// Elementwise mapping of a sequence of tree values; `None` as soon as one
/// element fails.
pub open spec fn spec_entry_list<T, A>(es: Seq<T>, f: spec_fn(T) -> Option<A>) -> Option<Seq<A>>
    decreases es.len(),
{
    if es.len() == 0 {
        Some(Seq::empty())
    } else {
        match (f(es[0]), spec_entry_list(es.drop_first(), f)) {
            (Option::Some(e), Option::Some(rest)) => Some(seq![e] + rest),
            _ => None,
        }
    }
}

pub proof fn lemma_entry_list_some<T, A>(es: Seq<T>, f: spec_fn(T) -> Option<A>, out: Seq<A>)
    requires
        es.len() == out.len(),
        forall|m: int| 0 <= m < es.len() ==> f(#[trigger] es[m]) == Some(out[m]),
    ensures
        spec_entry_list(es, f) == Some(out),
    decreases es.len(),
{
    if es.len() > 0 {
        lemma_entry_list_some(es.drop_first(), f, out.drop_first());
        assert(seq![out[0]] + out.drop_first() =~= out);
    } else {
        assert(out =~= Seq::<A>::empty());
    }
}

pub proof fn lemma_entry_list_none<T, A>(es: Seq<T>, f: spec_fn(T) -> Option<A>, i: int)
    requires
        0 <= i < es.len(),
        f(es[i]) is None,
    ensures
        spec_entry_list(es, f) is None,
    decreases i,
{
    if i > 0 {
        lemma_entry_list_none(es.drop_first(), f, i - 1);
    }
}

/// What a JSON value must hold to map to a `SeriesSearchData` record.
pub open spec fn spec_search_entry(v: JsonV) -> Option<SearchEntryV> {
    if !(v is Obj) {
        None
    } else {
        let aliases = spec_opt_str_list(v, "aliases"@);
        let banner = spec_opt_str(v, "banner"@);
        let first_aired = spec_opt_str(v, "firstAired"@);
        let id = spec_opt_u32(v, "id"@);
        let language = spec_opt_str(v, "language"@);
        let network = spec_opt_str(v, "network"@);
        let overview = spec_opt_str(v, "overview"@);
        let series_name = spec_req_str(v, "seriesName"@);
        let status = spec_opt_str(v, "status"@);
        if aliases is None || banner is None || first_aired is None || id is None || language is None || network is None || overview is None || series_name is None || status is None {
            None
        } else {
            Some(SearchEntryV {
                aliases: aliases.unwrap(),
                banner: banner.unwrap(),
                first_aired: first_aired.unwrap(),
                id: id.unwrap(),
                language: language.unwrap(),
                network: network.unwrap(),
                overview: overview.unwrap(),
                series_name: series_name.unwrap(),
                status: status.unwrap(),
            })
        }
    }
}

/// What a JSON value must hold to map to a `Episode` record.
pub open spec fn spec_episode(v: JsonV) -> Option<EpisodeV> {
    if !(v is Obj) {
        None
    } else {
        let absolute_number = spec_opt_u32(v, "absoluteNumber"@);
        let aired_episode_number = spec_opt_u32(v, "airedEpisodeNumber"@);
        let aired_season = spec_opt_u32(v, "airedSeason"@);
        let airs_after_season = spec_opt_u32(v, "airsAfterSeason"@);
        let airs_before_episode = spec_opt_u32(v, "airsBeforeEpisode"@);
        let airs_before_season = spec_opt_u32(v, "airsBeforeSeason"@);
        let director = spec_opt_str(v, "director"@);
        let directors = spec_opt_str_list(v, "directors"@);
        let dvd_chapter = spec_opt_num(v, "dvdChapter"@);
        let dvd_discid = spec_opt_str(v, "dvdDiscid"@);
        let dvd_episode_number = spec_opt_num(v, "dvdEpisodeNumber"@);
        let dvd_season = spec_opt_u32(v, "dvdSeason"@);
        let episode_name = spec_req_str(v, "episodeName"@);
        let filename = spec_opt_str(v, "filename"@);
        let first_aired = spec_opt_str(v, "firstAired"@);
        let guest_stars = spec_opt_str_list(v, "guestStars"@);
        let id = spec_opt_u32(v, "id"@);
        let imdb_id = spec_opt_str(v, "imdbId"@);
        let last_updated = spec_opt_u32(v, "lastUpdated"@);
        let last_updated_by = spec_opt_u32(v, "lastUpdatedBy"@);
        let overview = spec_opt_str(v, "overview"@);
        let production_code = spec_opt_str(v, "productionCode"@);
        let series_id = spec_opt_u32(v, "seriesId"@);
        let show_url = spec_opt_str(v, "showUrl"@);
        let site_rating = spec_opt_num(v, "siteRating"@);
        let site_rating_count = spec_opt_u32(v, "siteRatingCount"@);
        let thumb_added = spec_opt_str(v, "thumbAdded"@);
        let thumb_author = spec_opt_u32(v, "thumbAuthor"@);
        let thumb_height = spec_opt_str(v, "thumbHeight"@);
        let thumb_width = spec_opt_str(v, "thumbWidth"@);
        let writers = spec_opt_str_list(v, "writers"@);
        if absolute_number is None || aired_episode_number is None || aired_season is None || airs_after_season is None || airs_before_episode is None || airs_before_season is None || director is None || directors is None || dvd_chapter is None || dvd_discid is None || dvd_episode_number is None || dvd_season is None || episode_name is None || filename is None || first_aired is None || guest_stars is None || id is None || imdb_id is None || last_updated is None || last_updated_by is None || overview is None || production_code is None || series_id is None || show_url is None || site_rating is None || site_rating_count is None || thumb_added is None || thumb_author is None || thumb_height is None || thumb_width is None || writers is None {
            None
        } else {
            Some(EpisodeV {
                absolute_number: absolute_number.unwrap(),
                aired_episode_number: aired_episode_number.unwrap(),
                aired_season: aired_season.unwrap(),
                airs_after_season: airs_after_season.unwrap(),
                airs_before_episode: airs_before_episode.unwrap(),
                airs_before_season: airs_before_season.unwrap(),
                director: director.unwrap(),
                directors: directors.unwrap(),
                dvd_chapter: dvd_chapter.unwrap(),
                dvd_discid: dvd_discid.unwrap(),
                dvd_episode_number: dvd_episode_number.unwrap(),
                dvd_season: dvd_season.unwrap(),
                episode_name: episode_name.unwrap(),
                filename: filename.unwrap(),
                first_aired: first_aired.unwrap(),
                guest_stars: guest_stars.unwrap(),
                id: id.unwrap(),
                imdb_id: imdb_id.unwrap(),
                last_updated: last_updated.unwrap(),
                last_updated_by: last_updated_by.unwrap(),
                overview: overview.unwrap(),
                production_code: production_code.unwrap(),
                series_id: series_id.unwrap(),
                show_url: show_url.unwrap(),
                site_rating: site_rating.unwrap(),
                site_rating_count: site_rating_count.unwrap(),
                thumb_added: thumb_added.unwrap(),
                thumb_author: thumb_author.unwrap(),
                thumb_height: thumb_height.unwrap(),
                thumb_width: thumb_width.unwrap(),
                writers: writers.unwrap(),
            })
        }
    }
}

/// What a JSON value must hold to map to a `BasicEpisode` record.
pub open spec fn spec_basic_episode(v: JsonV) -> Option<BasicEpisodeV> {
    if !(v is Obj) {
        None
    } else {
        let absolute_number = spec_opt_u32(v, "absoluteNumber"@);
        let aired_episode_number = spec_opt_u32(v, "airedEpisodeNumber"@);
        let aired_season = spec_opt_u32(v, "airedSeason"@);
        let dvd_episode_number = spec_opt_num(v, "dvdEpisodeNumber"@);
        let dvd_season = spec_opt_u32(v, "dvdSeason"@);
        let episode_name = spec_opt_str(v, "episodeName"@);
        let first_aired = spec_opt_str(v, "firstAired"@);
        let id = spec_opt_u32(v, "id"@);
        let last_updated = spec_opt_u32(v, "lastUpdated"@);
        let overview = spec_opt_str(v, "overview"@);
        if absolute_number is None || aired_episode_number is None || aired_season is None || dvd_episode_number is None || dvd_season is None || episode_name is None || first_aired is None || id is None || last_updated is None || overview is None {
            None
        } else {
            Some(BasicEpisodeV {
                absolute_number: absolute_number.unwrap(),
                aired_episode_number: aired_episode_number.unwrap(),
                aired_season: aired_season.unwrap(),
                dvd_episode_number: dvd_episode_number.unwrap(),
                dvd_season: dvd_season.unwrap(),
                episode_name: episode_name.unwrap(),
                first_aired: first_aired.unwrap(),
                id: id.unwrap(),
                last_updated: last_updated.unwrap(),
                overview: overview.unwrap(),
            })
        }
    }
}

/// What a JSON value must hold to map to a `Links` record.
pub open spec fn spec_links(v: JsonV) -> Option<LinksV> {
    if !(v is Obj) {
        None
    } else {
        let first = spec_opt_u32(v, "first"@);
        let last = spec_opt_u32(v, "last"@);
        let next = spec_opt_u32(v, "next"@);
        let previous = spec_opt_u32(v, "previous"@);
        if first is None || last is None || next is None || previous is None {
            None
        } else {
            Some(LinksV {
                first: first.unwrap(),
                last: last.unwrap(),
                next: next.unwrap(),
                previous: previous.unwrap(),
            })
        }
    }
}

/// What a JSON value must hold to map to a `JSONErrors` record.
pub open spec fn spec_json_errors(v: JsonV) -> Option<JSONErrorsV> {
    if !(v is Obj) {
        None
    } else {
        let invalid_filters = spec_opt_str_list(v, "invalidFilters"@);
        let invalid_language = spec_opt_str_list(v, "invalidLanguage"@);
        let invalid_query_params = spec_opt_str_list(v, "invalidQueryParams"@);
        if invalid_filters is None || invalid_language is None || invalid_query_params is None {
            None
        } else {
            Some(JSONErrorsV {
                invalid_filters: invalid_filters.unwrap(),
                invalid_language: invalid_language.unwrap(),
                invalid_query_params: invalid_query_params.unwrap(),
            })
        }
    }
}


/// Map a decoded JSON value to a `SeriesSearchData` record.
pub fn map_search_entry(j: &Json) -> (r: TvdbResult<SeriesSearchData>)
    ensures
        match spec_search_entry(jv(*j)) {
            Option::Some(rv) => r matches Ok(x) && x.dv() == rv,
            Option::None => r matches Err(e) && e matches TvdbError::DataError { .. },
        },
{
    match j {
        Json::Obj(_) => {},
        _ => {
            return Err(record_error());
        },
    }
    let aliases = match opt_str_list_field(j, "aliases") {
        Ok(x) => x,
        Err(e) => {
            return Err(e);
        },
    };
    let banner = match opt_str_field(j, "banner") {
        Ok(x) => x,
        Err(e) => {
            return Err(e);
        },
    };
    let first_aired = match opt_str_field(j, "firstAired") {
        Ok(x) => x,
        Err(e) => {
            return Err(e);
        },
    };
    let id = match opt_u32_field(j, "id") {
        Ok(x) => x,
        Err(e) => {
            return Err(e);
        },
    };
    let language = match opt_str_field(j, "language") {
        Ok(x) => x,
        Err(e) => {
            return Err(e);
        },
    };
    let network = match opt_str_field(j, "network") {
        Ok(x) => x,
        Err(e) => {
            return Err(e);
        },
    };
    let overview = match opt_str_field(j, "overview") {
        Ok(x) => x,
        Err(e) => {
            return Err(e);
        },
    };
    let series_name = match req_str_field(j, "seriesName") {
        Ok(x) => x,
        Err(e) => {
            return Err(e);
        },
    };
    let status = match opt_str_field(j, "status") {
        Ok(x) => x,
        Err(e) => {
            return Err(e);
        },
    };
    Ok(SeriesSearchData { aliases, banner, first_aired, id, language, network, overview, series_name, status })
}

/// Map a decoded JSON value to a `Episode` record.
pub fn map_episode(j: &Json) -> (r: TvdbResult<Episode>)
    ensures
        match spec_episode(jv(*j)) {
            Option::Some(rv) => r matches Ok(x) && x.dv() == rv,
            Option::None => r matches Err(e) && e matches TvdbError::DataError { .. },
        },
{
    match j {
        Json::Obj(_) => {},
        _ => {
            return Err(record_error());
        },
    }
    let absolute_number = match opt_u32_field(j, "absoluteNumber") {
        Ok(x) => x,
        Err(e) => {
            return Err(e);
        },
    };
    let aired_episode_number = match opt_u32_field(j, "airedEpisodeNumber") {
        Ok(x) => x,
        Err(e) => {
            return Err(e);
        },
    };
    let aired_season = match opt_u32_field(j, "airedSeason") {
        Ok(x) => x,
        Err(e) => {
            return Err(e);
        },
    };
    let airs_after_season = match opt_u32_field(j, "airsAfterSeason") {
        Ok(x) => x,
        Err(e) => {
            return Err(e);
        },
    };
    let airs_before_episode = match opt_u32_field(j, "airsBeforeEpisode") {
        Ok(x) => x,
        Err(e) => {
            return Err(e);
        },
    };
    let airs_before_season = match opt_u32_field(j, "airsBeforeSeason") {
        Ok(x) => x,
        Err(e) => {
            return Err(e);
        },
    };
    let director = match opt_str_field(j, "director") {
        Ok(x) => x,
        Err(e) => {
            return Err(e);
        },
    };
    let directors = match opt_str_list_field(j, "directors") {
        Ok(x) => x,
        Err(e) => {
            return Err(e);
        },
    };
    let dvd_chapter = match opt_num_field(j, "dvdChapter") {
        Ok(x) => x,
        Err(e) => {
            return Err(e);
        },
    };
    let dvd_discid = match opt_str_field(j, "dvdDiscid") {
        Ok(x) => x,
        Err(e) => {
            return Err(e);
        },
    };
    let dvd_episode_number = match opt_num_field(j, "dvdEpisodeNumber") {
        Ok(x) => x,
        Err(e) => {
            return Err(e);
        },
    };
    let dvd_season = match opt_u32_field(j, "dvdSeason") {
        Ok(x) => x,
        Err(e) => {
            return Err(e);
        },
    };
    let episode_name = match req_str_field(j, "episodeName") {
        Ok(x) => x,
        Err(e) => {
            return Err(e);
        },
    };
    let filename = match opt_str_field(j, "filename") {
        Ok(x) => x,
        Err(e) => {
            return Err(e);
        },
    };
    let first_aired = match opt_str_field(j, "firstAired") {
        Ok(x) => x,
        Err(e) => {
            return Err(e);
        },
    };
    let guest_stars = match opt_str_list_field(j, "guestStars") {
        Ok(x) => x,
        Err(e) => {
            return Err(e);
        },
    };
    let id = match opt_u32_field(j, "id") {
        Ok(x) => x,
        Err(e) => {
            return Err(e);
        },
    };
    let imdb_id = match opt_str_field(j, "imdbId") {
        Ok(x) => x,
        Err(e) => {
            return Err(e);
        },
    };
    let last_updated = match opt_u32_field(j, "lastUpdated") {
        Ok(x) => x,
        Err(e) => {
            return Err(e);
        },
    };
    let last_updated_by = match opt_u32_field(j, "lastUpdatedBy") {
        Ok(x) => x,
        Err(e) => {
            return Err(e);
        },
    };
    let overview = match opt_str_field(j, "overview") {
        Ok(x) => x,
        Err(e) => {
            return Err(e);
        },
    };
    let production_code = match opt_str_field(j, "productionCode") {
        Ok(x) => x,
        Err(e) => {
            return Err(e);
        },
    };
    let series_id = match opt_u32_field(j, "seriesId") {
        Ok(x) => x,
        Err(e) => {
            return Err(e);
        },
    };
    let show_url = match opt_str_field(j, "showUrl") {
        Ok(x) => x,
        Err(e) => {
            return Err(e);
        },
    };
    let site_rating = match opt_num_field(j, "siteRating") {
        Ok(x) => x,
        Err(e) => {
            return Err(e);
        },
    };
    let site_rating_count = match opt_u32_field(j, "siteRatingCount") {
        Ok(x) => x,
        Err(e) => {
            return Err(e);
        },
    };
    let thumb_added = match opt_str_field(j, "thumbAdded") {
        Ok(x) => x,
        Err(e) => {
            return Err(e);
        },
    };
    let thumb_author = match opt_u32_field(j, "thumbAuthor") {
        Ok(x) => x,
        Err(e) => {
            return Err(e);
        },
    };
    let thumb_height = match opt_str_field(j, "thumbHeight") {
        Ok(x) => x,
        Err(e) => {
            return Err(e);
        },
    };
    let thumb_width = match opt_str_field(j, "thumbWidth") {
        Ok(x) => x,
        Err(e) => {
            return Err(e);
        },
    };
    let writers = match opt_str_list_field(j, "writers") {
        Ok(x) => x,
        Err(e) => {
            return Err(e);
        },
    };
    Ok(Episode { absolute_number, aired_episode_number, aired_season, airs_after_season, airs_before_episode, airs_before_season, director, directors, dvd_chapter, dvd_discid, dvd_episode_number, dvd_season, episode_name, filename, first_aired, guest_stars, id, imdb_id, last_updated, last_updated_by, overview, production_code, series_id, show_url, site_rating, site_rating_count, thumb_added, thumb_author, thumb_height, thumb_width, writers })
}

/// Map a decoded JSON value to a `BasicEpisode` record.
pub fn map_basic_episode(j: &Json) -> (r: TvdbResult<BasicEpisode>)
    ensures
        match spec_basic_episode(jv(*j)) {
            Option::Some(rv) => r matches Ok(x) && x.dv() == rv,
            Option::None => r matches Err(e) && e matches TvdbError::DataError { .. },
        },
{
    match j {
        Json::Obj(_) => {},
        _ => {
            return Err(record_error());
        },
    }
    let absolute_number = match opt_u32_field(j, "absoluteNumber") {
        Ok(x) => x,
        Err(e) => {
            return Err(e);
        },
    };
    let aired_episode_number = match opt_u32_field(j, "airedEpisodeNumber") {
        Ok(x) => x,
        Err(e) => {
            return Err(e);
        },
    };
    let aired_season = match opt_u32_field(j, "airedSeason") {
        Ok(x) => x,
        Err(e) => {
            return Err(e);
        },
    };
    let dvd_episode_number = match opt_num_field(j, "dvdEpisodeNumber") {
        Ok(x) => x,
        Err(e) => {
            return Err(e);
        },
    };
    let dvd_season = match opt_u32_field(j, "dvdSeason") {
        Ok(x) => x,
        Err(e) => {
            return Err(e);
        },
    };
    let episode_name = match opt_str_field(j, "episodeName") {
        Ok(x) => x,
        Err(e) => {
            return Err(e);
        },
    };
    let first_aired = match opt_str_field(j, "firstAired") {
        Ok(x) => x,
        Err(e) => {
            return Err(e);
        },
    };
    let id = match opt_u32_field(j, "id") {
        Ok(x) => x,
        Err(e) => {
            return Err(e);
        },
    };
    let last_updated = match opt_u32_field(j, "lastUpdated") {
        Ok(x) => x,
        Err(e) => {
            return Err(e);
        },
    };
    let overview = match opt_str_field(j, "overview") {
        Ok(x) => x,
        Err(e) => {
            return Err(e);
        },
    };
    Ok(BasicEpisode { absolute_number, aired_episode_number, aired_season, dvd_episode_number, dvd_season, episode_name, first_aired, id, last_updated, overview })
}

/// Map a decoded JSON value to a `Links` record.
pub fn map_links(j: &Json) -> (r: TvdbResult<Links>)
    ensures
        match spec_links(jv(*j)) {
            Option::Some(rv) => r matches Ok(x) && x.dv() == rv,
            Option::None => r matches Err(e) && e matches TvdbError::DataError { .. },
        },
{
    match j {
        Json::Obj(_) => {},
        _ => {
            return Err(record_error());
        },
    }
    let first = match opt_u32_field(j, "first") {
        Ok(x) => x,
        Err(e) => {
            return Err(e);
        },
    };
    let last = match opt_u32_field(j, "last") {
        Ok(x) => x,
        Err(e) => {
            return Err(e);
        },
    };
    let next = match opt_u32_field(j, "next") {
        Ok(x) => x,
        Err(e) => {
            return Err(e);
        },
    };
    let previous = match opt_u32_field(j, "previous") {
        Ok(x) => x,
        Err(e) => {
            return Err(e);
        },
    };
    Ok(Links { first, last, next, previous })
}

/// Map a decoded JSON value to a `JSONErrors` record.
pub fn map_json_errors(j: &Json) -> (r: TvdbResult<JSONErrors>)
    ensures
        match spec_json_errors(jv(*j)) {
            Option::Some(rv) => r matches Ok(x) && x.dv() == rv,
            Option::None => r matches Err(e) && e matches TvdbError::DataError { .. },
        },
{
    match j {
        Json::Obj(_) => {},
        _ => {
            return Err(record_error());
        },
    }
    let invalid_filters = match opt_str_list_field(j, "invalidFilters") {
        Ok(x) => x,
        Err(e) => {
            return Err(e);
        },
    };
    let invalid_language = match opt_str_list_field(j, "invalidLanguage") {
        Ok(x) => x,
        Err(e) => {
            return Err(e);
        },
    };
    let invalid_query_params = match opt_str_list_field(j, "invalidQueryParams") {
        Ok(x) => x,
        Err(e) => {
            return Err(e);
        },
    };
    Ok(JSONErrors { invalid_filters, invalid_language, invalid_query_params })
}


/// The entry mapping as a value, shared by specs and proofs.
pub open spec fn search_entry_fn() -> spec_fn(JsonV) -> Option<SearchEntryV> {
    |v: JsonV| spec_search_entry(v)
}

/// The summary-episode mapping as a value, shared by specs and proofs.
pub open spec fn basic_episode_fn() -> spec_fn(JsonV) -> Option<BasicEpisodeV> {
    |v: JsonV| spec_basic_episode(v)
}

/// What a JSON value must hold to map to a `SeriesSearchResult` envelope.
pub open spec fn spec_search_result(v: JsonV) -> Option<SeriesSearchResultV> {
    if !(v is Obj) {
        None
    } else {
        let data = match obj_get(v, "data"@) {
            Option::None => Some(None),
            Option::Some(JsonV::Null) => Some(None),
            Option::Some(JsonV::Arr(es)) => match spec_entry_list(es, search_entry_fn()) {
                Option::Some(l) => Some(Some(l)),
                Option::None => None,
            },
            Option::Some(_) => None,
        };
        let error = spec_opt_str(v, "error"@);
        if data is None || error is None {
            None
        } else {
            Some(SeriesSearchResultV { data: data.unwrap(), error: error.unwrap() })
        }
    }
}

/// Map a decoded JSON value to a `SeriesSearchResult` envelope.
pub fn map_search_result(j: &Json) -> (r: TvdbResult<SeriesSearchResult>)
    ensures
        match spec_search_result(jv(*j)) {
            Option::Some(rv) => r matches Ok(x) && x.dv() == rv,
            Option::None => r matches Err(e) && e matches TvdbError::DataError { .. },
        },
{
    match j {
        Json::Obj(_) => {},
        _ => {
            return Err(record_error());
        },
    }
    let data = match j.get("data") {
        Option::None => None,
        Option::Some(Json::Null) => None,
        Option::Some(Json::Arr(es)) => {
            let ghost ges = jv_seq(es@);
            proof {
                lemma_jv_seq_index(es@);
            }
            let mut out: Vec<SeriesSearchData> = Vec::new();
            let mut i: usize = 0;
            while i < es.len()
                invariant
                    0 <= i <= es@.len(),
                    ges == jv_seq(es@),
                    obj_get(jv(*j), "data"@) == Some(JsonV::Arr(ges)),
                    jv(*j) is Obj,
                    ges.len() == es@.len(),
                    forall|m: int| 0 <= m < es@.len() ==> #[trigger] ges[m] == jv(es@[m]),
                    out@.len() == i,
                    forall|m: int| 0 <= m < i ==> search_entry_fn()(#[trigger] ges[m])
                        == Some(out@[m].dv()),
                decreases es@.len() - i,
            {
                let e = match map_search_entry(&es[i]) {
                    Ok(x) => x,
                    Err(err) => {
                        proof {
                            lemma_entry_list_none(ges, search_entry_fn(), i as int);
                        }
                        return Err(err);
                    },
                };
                out.push(e);
                i = i + 1;
            }
            proof {
                lemma_entry_list_some(
                    ges,
                    search_entry_fn(),
                    out@.map_values(|x: SeriesSearchData| x.dv()),
                );
            }
            Some(out)
        },
        Option::Some(_) => {
            return Err(record_error());
        },
    };
    let error = match opt_str_field(j, "error") {
        Ok(x) => x,
        Err(e) => {
            return Err(e);
        },
    };
    Ok(SeriesSearchResult { data, error })
}

/// What a JSON value must hold to map to an `EpisodeRecordResult` envelope.
pub open spec fn spec_episode_result(v: JsonV) -> Option<EpisodeRecordResultV> {
    if !(v is Obj) {
        None
    } else {
        let data = match obj_get(v, "data"@) {
            Option::None => Some(None),
            Option::Some(JsonV::Null) => Some(None),
            Option::Some(d) => match spec_episode(d) {
                Option::Some(e) => Some(Some(e)),
                Option::None => None,
            },
        };
        let errors = match obj_get(v, "errors"@) {
            Option::None => Some(None),
            Option::Some(JsonV::Null) => Some(None),
            Option::Some(d) => match spec_json_errors(d) {
                Option::Some(e) => Some(Some(e)),
                Option::None => None,
            },
        };
        if data is None || errors is None {
            None
        } else {
            Some(EpisodeRecordResultV { data: data.unwrap(), errors: errors.unwrap() })
        }
    }
}

/// Map a decoded JSON value to an `EpisodeRecordResult` envelope.
pub fn map_episode_result(j: &Json) -> (r: TvdbResult<EpisodeRecordResult>)
    ensures
        match spec_episode_result(jv(*j)) {
            Option::Some(rv) => r matches Ok(x) && x.dv() == rv,
            Option::None => r matches Err(e) && e matches TvdbError::DataError { .. },
        },
{
    match j {
        Json::Obj(_) => {},
        _ => {
            return Err(record_error());
        },
    }
    let data = match j.get("data") {
        Option::None => None,
        Option::Some(Json::Null) => None,
        Option::Some(d) => {
            let e = match map_episode(d) {
                Ok(x) => x,
                Err(err) => {
                    return Err(err);
                },
            };
            Some(e)
        },
    };
    let errors = match j.get("errors") {
        Option::None => None,
        Option::Some(Json::Null) => None,
        Option::Some(d) => {
            let e = match map_json_errors(d) {
                Ok(x) => x,
                Err(err) => {
                    return Err(err);
                },
            };
            Some(e)
        },
    };
    Ok(EpisodeRecordResult { data, errors })
}

/// What a JSON value must hold to map to a `SeriesEpisodesResult` envelope.
pub open spec fn spec_series_episodes_result(v: JsonV) -> Option<SeriesEpisodesResultV> {
    if !(v is Obj) {
        None
    } else {
        let data = match obj_get(v, "data"@) {
            Option::None => Some(None),
            Option::Some(JsonV::Null) => Some(None),
            Option::Some(JsonV::Arr(es)) => match spec_entry_list(es, basic_episode_fn()) {
                Option::Some(l) => Some(Some(l)),
                Option::None => None,
            },
            Option::Some(_) => None,
        };
        let errors = match obj_get(v, "errors"@) {
            Option::None => Some(None),
            Option::Some(JsonV::Null) => Some(None),
            Option::Some(d) => match spec_json_errors(d) {
                Option::Some(e) => Some(Some(e)),
                Option::None => None,
            },
        };
        let links = match obj_get(v, "links"@) {
            Option::None => Some(None),
            Option::Some(JsonV::Null) => Some(None),
            Option::Some(d) => match spec_links(d) {
                Option::Some(l) => Some(Some(l)),
                Option::None => None,
            },
        };
        if data is None || errors is None || links is None {
            None
        } else {
            Some(SeriesEpisodesResultV {
                data: data.unwrap(),
                errors: errors.unwrap(),
                links: links.unwrap(),
            })
        }
    }
}

/// Map a decoded JSON value to a `SeriesEpisodesResult` envelope.
pub fn map_series_episodes_result(j: &Json) -> (r: TvdbResult<SeriesEpisodesResult>)
    ensures
        match spec_series_episodes_result(jv(*j)) {
            Option::Some(rv) => r matches Ok(x) && x.dv() == rv,
            Option::None => r matches Err(e) && e matches TvdbError::DataError { .. },
        },
{
    match j {
        Json::Obj(_) => {},
        _ => {
            return Err(record_error());
        },
    }
    let data = match j.get("data") {
        Option::None => None,
        Option::Some(Json::Null) => None,
        Option::Some(Json::Arr(es)) => {
            let ghost ges = jv_seq(es@);
            proof {
                lemma_jv_seq_index(es@);
            }
            let mut out: Vec<BasicEpisode> = Vec::new();
            let mut i: usize = 0;
            while i < es.len()
                invariant
                    0 <= i <= es@.len(),
                    ges == jv_seq(es@),
                    obj_get(jv(*j), "data"@) == Some(JsonV::Arr(ges)),
                    jv(*j) is Obj,
                    ges.len() == es@.len(),
                    forall|m: int| 0 <= m < es@.len() ==> #[trigger] ges[m] == jv(es@[m]),
                    out@.len() == i,
                    forall|m: int| 0 <= m < i ==> basic_episode_fn()(#[trigger] ges[m])
                        == Some(out@[m].dv()),
                decreases es@.len() - i,
            {
                let e = match map_basic_episode(&es[i]) {
                    Ok(x) => x,
                    Err(err) => {
                        proof {
                            lemma_entry_list_none(ges, basic_episode_fn(), i as int);
                        }
                        return Err(err);
                    },
                };
                out.push(e);
                i = i + 1;
            }
            proof {
                lemma_entry_list_some(
                    ges,
                    basic_episode_fn(),
                    out@.map_values(|x: BasicEpisode| x.dv()),
                );
            }
            Some(out)
        },
        Option::Some(_) => {
            return Err(record_error());
        },
    };
    let errors = match j.get("errors") {
        Option::None => None,
        Option::Some(Json::Null) => None,
        Option::Some(d) => {
            let e = match map_json_errors(d) {
                Ok(x) => x,
                Err(err) => {
                    return Err(err);
                },
            };
            Some(e)
        },
    };
    let links = match j.get("links") {
        Option::None => None,
        Option::Some(Json::Null) => None,
        Option::Some(d) => {
            let l = match map_links(d) {
                Ok(x) => x,
                Err(err) => {
                    return Err(err);
                },
            };
            Some(l)
        },
    };
    Ok(SeriesEpisodesResult { data, errors, links })
}

/// Parse a search-response body.  Invalid JSON or a malformed envelope is a
/// `DataError`; an empty `data` list is returned as-is, not turned into an
/// error.
pub fn parse_search(body: &str) -> (r: TvdbResult<SeriesSearchResult>)
    ensures
        json_of(body@) is None ==> (r matches Err(e) && e matches TvdbError::DataError { .. }),
        json_of(body@) matches Some(v) ==> match spec_search_result(v) {
            Option::Some(rv) => r matches Ok(sr) && sr.dv() == rv,
            Option::None => r matches Err(e) && e matches TvdbError::DataError { .. },
        },
{
    match decode_json(body) {
        Err(reason) => Err(json_parse_error(reason)),
        Ok(j) => map_search_result(&j),
    }
}

/// Parse an episode-response body.
pub fn parse_episode(body: &str) -> (r: TvdbResult<EpisodeRecordResult>)
    ensures
        json_of(body@) is None ==> (r matches Err(e) && e matches TvdbError::DataError { .. }),
        json_of(body@) matches Some(v) ==> match spec_episode_result(v) {
            Option::Some(rv) => r matches Ok(x) && x.dv() == rv,
            Option::None => r matches Err(e) && e matches TvdbError::DataError { .. },
        },
{
    match decode_json(body) {
        Err(reason) => Err(json_parse_error(reason)),
        Ok(j) => map_episode_result(&j),
    }
}

/// Parse a series-episode-listing body.
pub fn parse_series_episodes(body: &str) -> (r: TvdbResult<SeriesEpisodesResult>)
    ensures
        json_of(body@) is None ==> (r matches Err(e) && e matches TvdbError::DataError { .. }),
        json_of(body@) matches Some(v) ==> match spec_series_episodes_result(v) {
            Option::Some(rv) => r matches Ok(x) && x.dv() == rv,
            Option::None => r matches Err(e) && e matches TvdbError::DataError { .. },
        },
{
    match decode_json(body) {
        Err(reason) => Err(json_parse_error(reason)),
        Ok(j) => map_series_episodes_result(&j),
    }
}

/// Parse a login-response body and extract the session token.  Fails with a
/// `DataError` when the body is not valid JSON or the token field is absent
/// or not a string.
pub fn parse_login_token(body: &str) -> (r: TvdbResult<String>)
    ensures
        json_of(body@) is None ==> (r matches Err(e) && e matches TvdbError::DataError { .. }),
        json_of(body@) matches Some(v) ==> match spec_req_str(v, "token"@) {
            Option::Some(t) => r matches Ok(tok) && tok@ == t,
            Option::None => r matches Err(e) && e matches TvdbError::DataError { .. },
        },
{
    match decode_json(body) {
        Err(reason) => Err(json_parse_error(reason)),
        Ok(j) => req_str_field(&j, "token"),
    }
}


/// Law: a JSON-generation search envelope whose `data` is an empty array
/// maps to a success value holding an empty list — zero matches are not an
/// error in this generation, in contrast with the legacy generation's
/// `SeriesNotFound` policy.
pub proof fn lemma_empty_search_data_is_success(v: JsonV)
    requires
        v is Obj,
        obj_get(v, "data"@) == Some(JsonV::Arr(Seq::<JsonV>::empty())),
        spec_opt_str(v, "error"@) is Some,
    ensures
        spec_search_result(v) matches Some(rv) && rv.data == Some(Seq::<SearchEntryV>::empty()),
{
}

} // verus!
