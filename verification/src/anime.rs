//! The anime entity: its record shape and the URL of its page. The
//! lazy fetches hanging off an anime (characters, episodes, news and so
//! on) have their URLs in the modules of those resources.

use vstd::prelude::*;
use vstd::string::StringExecFns;

use crate::base::{MALItem, RelatedContent};
use crate::client::base_url_spec;
use crate::client::base_url;
use crate::digits::{dec_digits, u32_to_dec};

verus! {

/// The URL of the anime with MAL id `mal_id`.
pub open spec fn anime_url_spec(mal_id: u32) -> Seq<char> {
    base_url_spec() + "/anime/"@ + dec_digits(mal_id as nat)
}

/// Builds the URL of the anime with MAL id `mal_id`.
pub fn anime_url(mal_id: u32) -> (s: String)
    ensures
        s@ == anime_url_spec(mal_id),
{
    let mut s = String::from_str(base_url());
    s.append("/anime/");
    let d = u32_to_dec(mal_id);
    s.append(d.as_str());
    s
}

/// An anime record. The upstream JSON carries the score as a fraction;
/// the library holds it in hundredths of a point (for example 812 for
/// a score of 8.12).
#[derive(Debug)]
pub struct Anime {
    pub request_hash: String,
    pub request_cached: bool,
    pub request_cache_expiry: u32,
    pub mal_id: u32,
    pub url: String,
    pub image_url: Option<String>,
    pub trailer_url: Option<String>,
    pub title: String,
    pub title_english: Option<String>,
    pub title_japanese: Option<String>,
    pub title_synonyms: Vec<String>,
    pub anime_type: String,
    pub source: String,
    pub episodes: Option<u16>,
    pub status: String,
    pub airing: bool,
    pub aired: Aired,
    pub duration: Option<String>,
    pub rating: Option<String>,
    pub score: Option<u32>,
    pub scored_by: Option<u32>,
    pub rank: Option<u32>,
    pub popularity: Option<u32>,
    pub members: Option<u32>,
    pub favorites: Option<u32>,
    pub synopsis: String,
    pub background: Option<String>,
    pub premiered: Option<String>,
    pub broadcast: Option<String>,
    pub related: RelatedContent,
    pub producers: Vec<MALItem>,
    pub licensors: Vec<MALItem>,
    pub studios: Vec<MALItem>,
    pub genres: Vec<MALItem>,
    pub opening_themes: Vec<String>,
    pub ending_themes: Vec<String>,
}

/// The airing window of an anime.
#[derive(Debug)]
pub struct Aired {
    pub from: Option<String>,
    pub to: Option<String>,
}

} // verus!
