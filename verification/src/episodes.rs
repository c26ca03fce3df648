//! The episodes resource of an anime.

use vstd::prelude::*;

use crate::base::TypeSource;
use crate::client::resource_url_spec;
use crate::client::resource_url;

verus! {

/// The URL of the episode listing of the anime with MAL id `mal_id`.
pub open spec fn episodes_url_spec(mal_id: u32) -> Seq<char> {
    resource_url_spec(&TypeSource::Anime(mal_id), "/episodes"@)
}

/// Builds the URL of the episode listing of the anime `mal_id`.
pub fn episodes_url(mal_id: u32) -> (s: String)
    ensures
        s@ == episodes_url_spec(mal_id),
{
    resource_url(&TypeSource::Anime(mal_id), "/episodes")
}

/// One episode of an anime.
#[derive(Debug)]
pub struct Episode {
    pub episode_id: u32,
    pub title: String,
    pub title_japanese: Option<String>,
    pub title_romanji: Option<String>,
    pub aired: Option<String>,
    pub filler: bool,
    pub recap: bool,
    pub video_url: Option<String>,
    pub forum_url: Option<String>,
}

} // verus!
