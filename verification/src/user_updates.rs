//! The user-updates resource of an entity, and the dispatch of its
//! tagged result. Updates come in pages; the page number stands at the
//! end of the URL.

use vstd::prelude::*;
use vstd::string::StringExecFns;

use crate::base::TypeSource;
use crate::client::resource_url_spec;
use crate::client::resource_url;
use crate::digits::{dec_digits, u32_to_dec};

verus! {

/// The URL of page `page` of the user updates of `ts`.
pub open spec fn user_updates_url_spec(ts: &TypeSource, page: u16) -> Seq<char> {
    resource_url_spec(ts, "/userupdates/"@ + dec_digits(page as nat))
}

/// Builds the URL of page `page` of the user updates of `ts`.
pub fn user_updates_url(ts: &TypeSource, page: u16) -> (s: String)
    ensures
        s@ == user_updates_url_spec(ts, page),
{
    let mut s = resource_url(ts, "/userupdates/");
    let d = u32_to_dec(page as u32);
    s.append(d.as_str());
    proof {
        assert(s@ =~= user_updates_url_spec(ts, page));
    }
    s
}

/// One user's latest update on an anime.
#[derive(Debug)]
pub struct AnimeUserUpdate {
    pub username: String,
    pub url: String,
    pub image_url: String,
    pub score: Option<u32>,
    pub status: String,
    pub episodes_seen: Option<u32>,
    pub episodes_total: Option<u32>,
    pub date: String,
}

/// One user's latest update on a manga.
#[derive(Debug)]
pub struct MangaUserUpdate {
    pub username: String,
    pub url: String,
    pub image_url: String,
    pub score: Option<u32>,
    pub status: String,
    pub volumes_read: Option<u32>,
    pub volumes_total: Option<u32>,
    pub chapters_read: Option<u32>,
    pub chapters_total: Option<u32>,
    pub date: String,
}

/// A page of user updates, tagged by its side.
#[derive(Debug)]
pub enum UserUpdates {
    Anime(Vec<AnimeUserUpdate>),
    Manga(Vec<MangaUserUpdate>),
}

impl UserUpdates {
    /// Unwraps the anime side, and reports the mismatch when the manga
    /// side came back instead.
    pub fn expect_anime(self) -> (r: Result<Vec<AnimeUserUpdate>, String>)
        ensures
            match self {
                UserUpdates::Anime(updates) => (r matches Ok(v) && v == updates),
                UserUpdates::Manga(_) => (r matches Err(m) && m@
                    == "Expected Anime User Updates, but returned Manga User Updates"@),
            },
    {
        match self {
            UserUpdates::Anime(updates) => Ok(updates),
            UserUpdates::Manga(_) => Err(
                String::from_str("Expected Anime User Updates, but returned Manga User Updates"),
            ),
        }
    }

    /// Unwraps the manga side, and reports the mismatch when the anime
    /// side came back instead.
    pub fn expect_manga(self) -> (r: Result<Vec<MangaUserUpdate>, String>)
        ensures
            match self {
                UserUpdates::Manga(updates) => (r matches Ok(v) && v == updates),
                UserUpdates::Anime(_) => (r matches Err(m) && m@
                    == "Expected Manga User Updates, but returned Anime User Updates"@),
            },
    {
        match self {
            UserUpdates::Manga(updates) => Ok(updates),
            UserUpdates::Anime(_) => Err(
                String::from_str("Expected Manga User Updates, but returned Anime User Updates"),
            ),
        }
    }
}

} // verus!
