//! The statistics resource of an entity, and the dispatch of its
//! tagged result: the anime and the manga side decode into different
//! shapes, and a caller that asked for one side gets an error when the
//! other came back.

use vstd::prelude::*;
use vstd::string::StringExecFns;

use crate::base::TypeSource;
use crate::client::resource_url_spec;
use crate::client::resource_url;

verus! {

/// The URL of the statistics of `ts`.
pub open spec fn stats_url_spec(ts: &TypeSource) -> Seq<char> {
    resource_url_spec(ts, "/stats"@)
}

/// Builds the URL of the statistics of `ts`.
pub fn stats_url(ts: &TypeSource) -> (s: String)
    ensures
        s@ == stats_url_spec(ts),
{
    resource_url(ts, "/stats")
}

/// How many users gave one score value. The upstream JSON carries the
/// percentage as a fraction; the library holds it in hundredths of a
/// percent (for example 1250 for 12.5 percent).
#[derive(Debug)]
pub struct ScoreStats {
    pub score: u32,
    pub votes: u32,
    pub percentage: u32,
}

/// The watching statistics of an anime.
#[derive(Debug)]
pub struct AnimeStats {
    pub watching: u32,
    pub completed: u32,
    pub on_hold: u32,
    pub dropped: u32,
    pub plan_to_watch: u32,
    pub total: u32,
    pub scores: Vec<ScoreStats>,
}

/// The reading statistics of a manga.
#[derive(Debug)]
pub struct MangaStats {
    pub reading: u32,
    pub completed: u32,
    pub on_hold: u32,
    pub dropped: u32,
    pub plan_to_read: u32,
    pub total: u32,
    pub scores: Vec<ScoreStats>,
}

/// The statistics of an entity, tagged by its side.
#[derive(Debug)]
pub enum Stats {
    Anime(AnimeStats),
    Manga(MangaStats),
}

impl Stats {
    /// Unwraps the anime side, and reports the mismatch when the manga
    /// side came back instead.
    pub fn expect_anime(self) -> (r: Result<AnimeStats, String>)
        ensures
            match self {
                Stats::Anime(stats) => (r matches Ok(v) && v == stats),
                Stats::Manga(_) => (r matches Err(m) && m@ == "Expected Anime Stats, but returned Manga Stats"@),
            },
    {
        match self {
            Stats::Anime(stats) => Ok(stats),
            Stats::Manga(_) => Err(String::from_str("Expected Anime Stats, but returned Manga Stats")),
        }
    }

    /// Unwraps the manga side, and reports the mismatch when the anime
    /// side came back instead.
    pub fn expect_manga(self) -> (r: Result<MangaStats, String>)
        ensures
            match self {
                Stats::Manga(stats) => (r matches Ok(v) && v == stats),
                Stats::Anime(_) => (r matches Err(m) && m@ == "Expected Manga Stats, but returned Anime Stats"@),
            },
    {
        match self {
            Stats::Manga(stats) => Ok(stats),
            Stats::Anime(_) => Err(String::from_str("Expected Manga Stats, but returned Anime Stats")),
        }
    }
}

} // verus!
