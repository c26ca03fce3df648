//! The manga entity: its record shape and the URL of its page.

use vstd::prelude::*;
use vstd::string::StringExecFns;

use crate::base::{MALTypeItem, RelatedContent};
use crate::client::base_url_spec;
use crate::client::base_url;
use crate::digits::{dec_digits, u32_to_dec};

verus! {

/// The URL of the manga with MAL id `mal_id`.
pub open spec fn manga_url_spec(mal_id: u32) -> Seq<char> {
    base_url_spec() + "/manga/"@ + dec_digits(mal_id as nat)
}

/// Builds the URL of the manga with MAL id `mal_id`.
pub fn manga_url(mal_id: u32) -> (s: String)
    ensures
        s@ == manga_url_spec(mal_id),
{
    let mut s = String::from_str(base_url());
    s.append("/manga/");
    let d = u32_to_dec(mal_id);
    s.append(d.as_str());
    s
}

/// A manga record. The upstream JSON carries the score as a fraction;
/// the library holds it in hundredths of a point (for example 812 for
/// a score of 8.12).
#[derive(Debug)]
pub struct Manga {
    pub request_hash: String,
    pub request_cached: bool,
    pub request_cache_expiry: u32,
    pub mal_id: u32,
    pub url: String,
    pub image_url: Option<String>,
    pub title: String,
    pub title_english: Option<String>,
    pub title_japanese: Option<String>,
    pub title_synonyms: Vec<String>,
    pub status: String,
    pub manga_type: String,
    pub volumes: Option<u32>,
    pub chapters: Option<u32>,
    pub publishing: bool,
    pub published: Published,
    pub rank: Option<u32>,
    pub score: Option<u32>,
    pub scored_by: Option<u32>,
    pub popularity: Option<u32>,
    pub members: Option<u32>,
    pub favorites: Option<u32>,
    pub synopsis: String,
    pub background: Option<String>,
    pub related: RelatedContent,
    pub genres: Vec<MALTypeItem>,
    pub authors: Vec<MALTypeItem>,
    pub serializations: Vec<MALTypeItem>,
}

/// The publication window of a manga.
#[derive(Debug)]
pub struct Published {
    pub from: Option<String>,
    pub to: Option<String>,
}

} // verus!
