//! The legacy-generation client: name search and (series, season, episode)
//! lookup against the XML endpoints, through the same pluggable transport
//! capability as the JSON generation.
//!
//! Policy divergence, preserved deliberately: a search that yields zero
//! entries is a `SeriesNotFound` error here, while the JSON generation
//! returns an empty list as a success value.

use vstd::prelude::*;

use crate::coerce::{
    optional_date, optional_int, optional_text, require_int, require_text, spec_optional_date,
    spec_optional_int, spec_optional_text, spec_require_text,
};
use crate::data::{Date, EpisodeId};
use crate::error::{TvdbError, TvdbResult};
use crate::json::opt_str_view;
use crate::mapping::{lemma_entry_list_none, lemma_entry_list_some, spec_entry_list};
use crate::raw::RequestClient;
use crate::urls::{legacy_episode_url, legacy_search_url, url_with_params};
use crate::xml::{doc_represents, parse_document, xv, XmlNode};

verus! {

/// One match from a legacy name search.  The id is required for the entry
/// to exist at all; the display name is sometimes absent in this
/// generation.
#[derive(Debug, Clone)]
pub struct LegacySeriesSearchEntry {
    pub id: u32,
    pub series_name: Option<String>,
    pub language: Option<String>,
    pub overview: Option<String>,
    pub banner: Option<String>,
    pub first_aired: Option<Date>,
    pub network: Option<String>,
    pub imdb_id: Option<String>,
    pub status: Option<String>,
}

/// The mathematical value of a `LegacySeriesSearchEntry`.
pub ghost struct LegacySearchEntryV {
    pub id: u32,
    pub series_name: Option<Seq<char>>,
    pub language: Option<Seq<char>>,
    pub overview: Option<Seq<char>>,
    pub banner: Option<Seq<char>>,
    pub first_aired: Option<Date>,
    pub network: Option<Seq<char>>,
    pub imdb_id: Option<Seq<char>>,
    pub status: Option<Seq<char>>,
}

impl LegacySeriesSearchEntry {
    /// The view of the entry.
    pub open spec fn dv(self) -> LegacySearchEntryV {
        LegacySearchEntryV {
            id: self.id,
            series_name: opt_str_view(self.series_name),
            language: opt_str_view(self.language),
            overview: opt_str_view(self.overview),
            banner: opt_str_view(self.banner),
            first_aired: self.first_aired,
            network: opt_str_view(self.network),
            imdb_id: opt_str_view(self.imdb_id),
            status: opt_str_view(self.status),
        }
    }

    /// Convert the entry into an episode-lookup key: the id is preserved
    /// and the entry's language is carried forward, defaulting to `"en"`
    /// where the entry reports none.
    pub fn lookup_key(&self) -> (r: EpisodeId)
        ensures
            r.seriesid == self.id,
            match self.language {
                Option::Some(l) => r.language@ == l@,
                Option::None => r.language@ == "en"@,
            },
    {
        match &self.language {
            Option::Some(l) => EpisodeId { seriesid: self.id, language: l.clone() },
            Option::None => EpisodeId { seriesid: self.id, language: "en".to_owned() },
        }
    }
}

/// What a series element must hold to map to a search entry.
pub open spec fn spec_legacy_search_entry(n: XmlNode) -> Option<LegacySearchEntryV> {
    let id = spec_optional_int(n, "seriesid"@);
    if id is None {
        None
    } else {
        Some(LegacySearchEntryV {
            id: id.unwrap(),
            series_name: spec_optional_text(n, "SeriesName"@),
            language: spec_optional_text(n, "language"@),
            overview: spec_optional_text(n, "Overview"@),
            banner: spec_optional_text(n, "banner"@),
            first_aired: spec_optional_date(n, "FirstAired"@),
            network: spec_optional_text(n, "Network"@),
            imdb_id: spec_optional_text(n, "IMDB_ID"@),
            status: spec_optional_text(n, "Status"@),
        })
    }
}

/// The entry mapping as a value, shared by specs and proofs.
pub open spec fn legacy_entry_fn() -> spec_fn(XmlNode) -> Option<LegacySearchEntryV> {
    |n: XmlNode| spec_legacy_search_entry(n)
}

/// Map one series element of a legacy search response.
pub fn map_legacy_search_entry(n: &XmlNode) -> (r: TvdbResult<LegacySeriesSearchEntry>)
    ensures
        match spec_legacy_search_entry(*n) {
            Option::Some(ev) => r matches Ok(x) && x.dv() == ev,
            Option::None => r matches Err(e) && e matches TvdbError::DataError { .. },
        },
{
    let id = match require_int(n, "seriesid") {
        Ok(v) => v,
        Err(e) => {
            return Err(e);
        },
    };
    Ok(LegacySeriesSearchEntry {
        id,
        series_name: optional_text(n, "SeriesName"),
        language: optional_text(n, "language"),
        overview: optional_text(n, "Overview"),
        banner: optional_text(n, "banner"),
        first_aired: optional_date(n, "FirstAired"),
        network: optional_text(n, "Network"),
        imdb_id: optional_text(n, "IMDB_ID"),
        status: optional_text(n, "Status"),
    })
}

/// Map a legacy search document: each child of the root is a candidate
/// series element.  Zero entries is a `SeriesNotFound` error, not an empty
/// success value.
pub fn search_from_document(doc: &XmlNode) -> (r: TvdbResult<Vec<LegacySeriesSearchEntry>>)
    ensures
        doc.children@.len() == 0 ==> (r matches Err(e) && e matches TvdbError::SeriesNotFound),
        r matches Ok(v) ==> v@.len() > 0,
        doc.children@.len() > 0 ==> match spec_entry_list(doc.children@, legacy_entry_fn()) {
            Option::Some(l) => r matches Ok(v) && v@.map_values(
                |x: LegacySeriesSearchEntry| x.dv(),
            ) == l,
            Option::None => r matches Err(e) && e matches TvdbError::DataError { .. },
        },
{
    if doc.children.len() == 0 {
        return Err(TvdbError::SeriesNotFound);
    }
    let mut out: Vec<LegacySeriesSearchEntry> = Vec::new();
    let mut i: usize = 0;
    while i < doc.children.len()
        invariant
            0 <= i <= doc.children@.len(),
            out@.len() == i,
            forall|m: int| 0 <= m < i ==> legacy_entry_fn()(#[trigger] doc.children@[m])
                == Some(out@[m].dv()),
        decreases doc.children@.len() - i,
    {
        let e = match map_legacy_search_entry(&doc.children[i]) {
            Ok(x) => x,
            Err(err) => {
                proof {
                    lemma_entry_list_none(doc.children@, legacy_entry_fn(), i as int);
                }
                return Err(err);
            },
        };
        out.push(e);
        i = i + 1;
    }
    proof {
        lemma_entry_list_some(
            doc.children@,
            legacy_entry_fn(),
            out@.map_values(|x: LegacySeriesSearchEntry| x.dv()),
        );
    }
    Ok(out)
}

/// Full episode detail as the legacy generation reports it.  Credits are
/// pipe-delimited strings in this generation; the rating is kept as its
/// decimal text, as received.
#[derive(Debug, Clone)]
pub struct LegacyEpisode {
    pub id: u32,
    pub episode_name: String,
    pub season_number: u32,
    pub episode_number: u32,
    pub first_aired: Option<Date>,
    pub director: Option<String>,
    pub writer: Option<String>,
    pub guest_stars: Option<String>,
    pub overview: Option<String>,
    pub production_code: Option<String>,
    pub rating: Option<String>,
    pub language: Option<String>,
    pub filename: Option<String>,
    pub imdb_id: Option<String>,
    pub absolute_number: Option<u32>,
    pub last_updated: Option<u32>,
}

/// The mathematical value of a `LegacyEpisode`.
pub ghost struct LegacyEpisodeV {
    pub id: u32,
    pub episode_name: Seq<char>,
    pub season_number: u32,
    pub episode_number: u32,
    pub first_aired: Option<Date>,
    pub director: Option<Seq<char>>,
    pub writer: Option<Seq<char>>,
    pub guest_stars: Option<Seq<char>>,
    pub overview: Option<Seq<char>>,
    pub production_code: Option<Seq<char>>,
    pub rating: Option<Seq<char>>,
    pub language: Option<Seq<char>>,
    pub filename: Option<Seq<char>>,
    pub imdb_id: Option<Seq<char>>,
    pub absolute_number: Option<u32>,
    pub last_updated: Option<u32>,
}

impl LegacyEpisode {
    /// The view of the record.
    pub open spec fn dv(self) -> LegacyEpisodeV {
        LegacyEpisodeV {
            id: self.id,
            episode_name: self.episode_name@,
            season_number: self.season_number,
            episode_number: self.episode_number,
            first_aired: self.first_aired,
            director: opt_str_view(self.director),
            writer: opt_str_view(self.writer),
            guest_stars: opt_str_view(self.guest_stars),
            overview: opt_str_view(self.overview),
            production_code: opt_str_view(self.production_code),
            rating: opt_str_view(self.rating),
            language: opt_str_view(self.language),
            filename: opt_str_view(self.filename),
            imdb_id: opt_str_view(self.imdb_id),
            absolute_number: self.absolute_number,
            last_updated: self.last_updated,
        }
    }
}

/// What an episode element must hold to map to a `LegacyEpisode`: the id,
/// name and aired season/episode numbers are required, everything else is
/// optional.
pub open spec fn spec_legacy_episode(n: XmlNode) -> Option<LegacyEpisodeV> {
    let id = spec_optional_int(n, "id"@);
    let episode_name = spec_require_text(n, "EpisodeName"@);
    let season_number = spec_optional_int(n, "SeasonNumber"@);
    let episode_number = spec_optional_int(n, "EpisodeNumber"@);
    if id is None || episode_name is None || season_number is None || episode_number is None {
        None
    } else {
        Some(LegacyEpisodeV {
            id: id.unwrap(),
            episode_name: episode_name.unwrap(),
            season_number: season_number.unwrap(),
            episode_number: episode_number.unwrap(),
            first_aired: spec_optional_date(n, "FirstAired"@),
            director: spec_optional_text(n, "Director"@),
            writer: spec_optional_text(n, "Writer"@),
            guest_stars: spec_optional_text(n, "GuestStars"@),
            overview: spec_optional_text(n, "Overview"@),
            production_code: spec_optional_text(n, "ProductionCode"@),
            rating: spec_optional_text(n, "Rating"@),
            language: spec_optional_text(n, "Language"@),
            filename: spec_optional_text(n, "filename"@),
            imdb_id: spec_optional_text(n, "IMDB_ID"@),
            absolute_number: spec_optional_int(n, "absolute_number"@),
            last_updated: spec_optional_int(n, "lastupdated"@),
        })
    }
}

/// Map one episode element of a legacy episode response.
pub fn map_legacy_episode(n: &XmlNode) -> (r: TvdbResult<LegacyEpisode>)
    ensures
        match spec_legacy_episode(*n) {
            Option::Some(ev) => r matches Ok(x) && x.dv() == ev,
            Option::None => r matches Err(e) && e matches TvdbError::DataError { .. },
        },
{
    let id = match require_int(n, "id") {
        Ok(v) => v,
        Err(e) => {
            return Err(e);
        },
    };
    let episode_name = match require_text(n, "EpisodeName") {
        Ok(v) => v,
        Err(e) => {
            return Err(e);
        },
    };
    let season_number = match require_int(n, "SeasonNumber") {
        Ok(v) => v,
        Err(e) => {
            return Err(e);
        },
    };
    let episode_number = match require_int(n, "EpisodeNumber") {
        Ok(v) => v,
        Err(e) => {
            return Err(e);
        },
    };
    Ok(LegacyEpisode {
        id,
        episode_name,
        season_number,
        episode_number,
        first_aired: optional_date(n, "FirstAired"),
        director: optional_text(n, "Director"),
        writer: optional_text(n, "Writer"),
        guest_stars: optional_text(n, "GuestStars"),
        overview: optional_text(n, "Overview"),
        production_code: optional_text(n, "ProductionCode"),
        rating: optional_text(n, "Rating"),
        language: optional_text(n, "Language"),
        filename: optional_text(n, "filename"),
        imdb_id: optional_text(n, "IMDB_ID"),
        absolute_number: optional_int(n, "absolute_number"),
        last_updated: optional_int(n, "lastupdated"),
    })
}

/// Map a legacy episode document: the first child of the document root is
/// the episode record.
pub fn episode_from_document(doc: &XmlNode) -> (r: TvdbResult<LegacyEpisode>)
    ensures
        doc.children@.len() == 0 ==> (r matches Err(e) && e matches TvdbError::DataError { .. }),
        doc.children@.len() > 0 ==> match spec_legacy_episode(doc.children@[0]) {
            Option::Some(ev) => r matches Ok(x) && x.dv() == ev,
            Option::None => r matches Err(e) && e matches TvdbError::DataError { .. },
        },
{
    if doc.children.len() == 0 {
        return Err(TvdbError::DataError {
            reason: "Empty document in episode response".to_owned(),
        });
    }
    map_legacy_episode(&doc.children[0])
}

/// Main interface to the legacy generation of the service.
pub struct LegacyTvdb<C: RequestClient> {
    /// Your API key for the service.
    pub key: String,
    /// The transport capability performing HTTP requests.
    pub http_client: C,
}

impl<C: RequestClient> LegacyTvdb<C> {
    /// Initialise the API with the given API key and transport capability.
    pub fn new(key: &str, client: C) -> (r: LegacyTvdb<C>)
        ensures
            r.key@ == key@,
            r.http_client == client,
    {
        LegacyTvdb { key: key.to_owned(), http_client: client }
    }

    /// Search for series by name.  A success value is exactly the mapping
    /// of a document read from some response text, and never holds zero
    /// entries: zero search matches surface as `SeriesNotFound`.
    pub fn search(&self, name: &str, lang: &str) -> (r: TvdbResult<Vec<LegacySeriesSearchEntry>>)
        ensures
            r matches Ok(v) ==> v@.len() > 0,
            r matches Ok(v) ==> exists|b: Seq<char>, doc: XmlNode|
                #[trigger] doc_represents(b, xv(doc)) && doc.children@.len() > 0
                    && spec_entry_list(doc.children@, legacy_entry_fn()) == Some(
                    v@.map_values(|x: LegacySeriesSearchEntry| x.dv()),
                ),
            url_with_params(
                "https://thetvdb.com/api/GetSeries.php"@,
                seq![("seriesname"@, name@), ("language"@, lang@)],
            ) is None ==> (r matches Err(e) && e matches TvdbError::InternalError { .. }),
    {
        let url = match legacy_search_url(name, lang) {
            Ok(u) => u,
            Err(e) => {
                return Err(e);
            },
        };
        let body = match self.http_client.get_url(url.as_str(), None) {
            Ok(b) => b,
            Err(e) => {
                return Err(e);
            },
        };
        let doc = match parse_document(body.as_str()) {
            Ok(d) => d,
            Err(e) => {
                return Err(e);
            },
        };
        let r = search_from_document(&doc);
        proof {
            if r is Ok {
                assert(doc_represents(body@, xv(doc)) && doc.children@.len() > 0
                    && spec_entry_list(doc.children@, legacy_entry_fn()) == Some(
                    r.unwrap()@.map_values(|x: LegacySeriesSearchEntry| x.dv()),
                ));
            }
        }
        r
    }

    /// Full information about one episode, addressed by series key, season
    /// number and episode number.  The key's language is embedded in the
    /// request path; a success value is exactly the mapping of the first
    /// element of a document read from some response text.
    pub fn episode(&self, id: &EpisodeId, season: u32, episode: u32) -> (r: TvdbResult<
        LegacyEpisode,
    >)
        ensures
            r matches Ok(x) ==> exists|b: Seq<char>, doc: XmlNode|
                #[trigger] doc_represents(b, xv(doc)) && doc.children@.len() > 0
                    && spec_legacy_episode(doc.children@[0]) == Some(x.dv()),
    {
        let url = legacy_episode_url(
            self.key.as_str(),
            id.seriesid,
            season,
            episode,
            id.language.as_str(),
        );
        let body = match self.http_client.get_url(url.as_str(), None) {
            Ok(b) => b,
            Err(e) => {
                return Err(e);
            },
        };
        let doc = match parse_document(body.as_str()) {
            Ok(d) => d,
            Err(e) => {
                return Err(e);
            },
        };
        let r = episode_from_document(&doc);
        proof {
            if r is Ok {
                assert(doc_represents(body@, xv(doc)) && doc.children@.len() > 0
                    && spec_legacy_episode(doc.children@[0]) == Some(r.unwrap().dv()));
            }
        }
        r
    }
}

} // verus!
