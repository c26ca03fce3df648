//! The reviews resource of an entity, and the dispatch of its tagged
//! result. Reviews come in pages; the page number stands at the end of
//! the URL.

use vstd::prelude::*;
use vstd::string::StringExecFns;

use crate::base::TypeSource;
use crate::client::resource_url_spec;
use crate::client::resource_url;
use crate::digits::{dec_digits, u32_to_dec};

verus! {

/// The URL of page `page` of the reviews of `ts`.
pub open spec fn reviews_url_spec(ts: &TypeSource, page: u16) -> Seq<char> {
    resource_url_spec(ts, "/reviews/"@ + dec_digits(page as nat))
}

/// Builds the URL of page `page` of the reviews of `ts`.
pub fn reviews_url(ts: &TypeSource, page: u16) -> (s: String)
    ensures
        s@ == reviews_url_spec(ts, page),
{
    let mut s = resource_url(ts, "/reviews/");
    let d = u32_to_dec(page as u32);
    s.append(d.as_str());
    proof {
        assert(s@ =~= reviews_url_spec(ts, page));
    }
    s
}

/// One entry of this resource, with the author shape of its side.
#[derive(Debug)]
pub struct Review<R> {
    pub mal_id: u32,
    pub url: String,
    pub helpful_count: u32,
    pub date: String,
    pub reviewer: R,
    pub content: String,
}

/// The scores the author of an anime entry gave.
#[derive(Debug)]
pub struct AnimeScores {
    pub overall: u32,
    pub story: u32,
    pub animation: u32,
    pub sound: u32,
    pub character: u32,
    pub enjoyment: u32,
}

/// The scores the author of a manga entry gave.
#[derive(Debug)]
pub struct MangaScores {
    pub overall: u32,
    pub story: u32,
    pub art: u32,
    pub character: u32,
    pub enjoyment: u32,
}

/// The author of an anime entry.
#[derive(Debug)]
pub struct AnimeReviewer {
    pub url: String,
    pub image_url: String,
    pub username: String,
    pub episodes_seen: u32,
    pub scores: AnimeScores,
}

/// The author of a manga entry.
#[derive(Debug)]
pub struct MangaReviewer {
    pub url: String,
    pub image_url: String,
    pub username: String,
    pub chapters_read: u32,
    pub scores: MangaScores,
}

/// A page of reviews, tagged by its side.
#[derive(Debug)]
pub enum Reviews {
    Anime(Vec<Review<AnimeReviewer>>),
    Manga(Vec<Review<MangaReviewer>>),
}

impl Reviews {
    /// Unwraps the anime side, and reports the mismatch when the manga
    /// side came back instead.
    pub fn expect_anime(self) -> (r: Result<Vec<Review<AnimeReviewer>>, String>)
        ensures
            match self {
                Reviews::Anime(reviews) => (r matches Ok(v) && v == reviews),
                Reviews::Manga(_) => (r matches Err(m) && m@ == "Expected Anime Reviews, but returned Manga Reviews"@),
            },
    {
        match self {
            Reviews::Anime(reviews) => Ok(reviews),
            Reviews::Manga(_) => Err(String::from_str("Expected Anime Reviews, but returned Manga Reviews")),
        }
    }

    /// Unwraps the manga side, and reports the mismatch when the anime
    /// side came back instead.
    pub fn expect_manga(self) -> (r: Result<Vec<Review<MangaReviewer>>, String>)
        ensures
            match self {
                Reviews::Manga(reviews) => (r matches Ok(v) && v == reviews),
                Reviews::Anime(_) => (r matches Err(m) && m@ == "Expected Manga Reviews, but returned Anime Reviews"@),
            },
    {
        match self {
            Reviews::Manga(reviews) => Ok(reviews),
            Reviews::Anime(_) => Err(String::from_str("Expected Manga Reviews, but returned Anime Reviews")),
        }
    }
}

} // verus!
