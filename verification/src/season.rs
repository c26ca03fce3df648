//! The season listing endpoint: a year-and-season pair (or the later
//! bucket) names the page, and the response is one record with the
//! anime of that season.

use vstd::prelude::*;
use vstd::string::StringExecFns;

use crate::base::MALTypeItem;
use crate::client::base_url_spec;
use crate::client::base_url;
use crate::digits::{dec_digits, u32_to_dec};

verus! {

/// A season of a given year, or the later bucket for anime whose
/// season is not settled yet.
#[derive(Debug)]
pub enum Season {
    Winter(u16),
    Fall(u16),
    Summer(u16),
    Spring(u16),
    Later,
}

impl Season {
    /// The URI fragment for this season: the year in decimal, a slash
    /// and the season word, or the word `later` alone.
    pub open spec fn uri_spec(&self) -> Seq<char> {
        match self {
            Season::Winter(year) => dec_digits(*year as nat) + "/winter"@,
            Season::Fall(year) => dec_digits(*year as nat) + "/fall"@,
            Season::Summer(year) => dec_digits(*year as nat) + "/summer"@,
            Season::Spring(year) => dec_digits(*year as nat) + "/spring"@,
            Season::Later => "later"@,
        }
    }

    /// Renders the URI fragment, for example `2020/winter` or `later`.
    pub fn get_uri(&self) -> (s: String)
        ensures
            s@ == self.uri_spec(),
    {
        match self {
            Season::Winter(year) => {
                let mut s = u32_to_dec(*year as u32);
                s.append("/winter");
                s
            },
            Season::Fall(year) => {
                let mut s = u32_to_dec(*year as u32);
                s.append("/fall");
                s
            },
            Season::Summer(year) => {
                let mut s = u32_to_dec(*year as u32);
                s.append("/summer");
                s
            },
            Season::Spring(year) => {
                let mut s = u32_to_dec(*year as u32);
                s.append("/spring");
                s
            },
            Season::Later => String::from_str("later"),
        }
    }
}

/// The URL of the season listing for `season`.
pub open spec fn season_url_spec(season: &Season) -> Seq<char> {
    base_url_spec() + "/season/"@ + season.uri_spec()
}

/// Builds the URL of the season listing for `season`.
pub fn season_url(season: &Season) -> (s: String)
    ensures
        s@ == season_url_spec(season),
{
    let mut s = String::from_str(base_url());
    s.append("/season/");
    let uri = season.get_uri();
    s.append(uri.as_str());
    s
}

/// The response of the season listing endpoint.
#[derive(Debug)]
pub struct SeasonResult {
    pub request_hash: String,
    pub request_cached: bool,
    pub request_cache_expiry: u32,
    pub season_name: String,
    pub season_year: Option<u16>,
    pub animes: Vec<AnimeSeason>,
}

/// One anime of a season listing. The upstream JSON carries the score
/// as a fraction; the library holds it in hundredths of a point (for
/// example 812 for a score of 8.12).
#[derive(Debug)]
pub struct AnimeSeason {
    pub mal_id: u32,
    pub url: String,
    pub title: String,
    pub image_url: Option<String>,
    pub synopsis: String,
    pub anime_type: String,
    pub airing_start: Option<String>,
    pub episodes: Option<u16>,
    pub members: Option<u32>,
    pub genres: Vec<MALTypeItem>,
    pub source: String,
    pub producers: Vec<MALTypeItem>,
    pub score: Option<u32>,
    pub licensors: Vec<String>,
    pub r18: bool,
    pub kids: bool,
    pub continuing: bool,
}

} // verus!
