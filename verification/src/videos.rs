//! The videos resource of an anime: promotional videos and episode
//! videos.

use vstd::prelude::*;

use crate::base::TypeSource;
use crate::client::resource_url_spec;
use crate::client::resource_url;

verus! {

/// The URL of the video listing of the anime with MAL id `mal_id`.
pub open spec fn videos_url_spec(mal_id: u32) -> Seq<char> {
    resource_url_spec(&TypeSource::Anime(mal_id), "/videos"@)
}

/// Builds the URL of the video listing of the anime `mal_id`.
pub fn videos_url(mal_id: u32) -> (s: String)
    ensures
        s@ == videos_url_spec(mal_id),
{
    resource_url(&TypeSource::Anime(mal_id), "/videos")
}

/// The video listing of an anime.
#[derive(Debug)]
pub struct Videos {
    pub promo: Vec<PromoVideo>,
    pub episodes: Vec<EpisodeVideo>,
}

/// A promotional video.
#[derive(Debug)]
pub struct PromoVideo {
    pub title: String,
    pub image_url: String,
    pub video_url: String,
}

/// A video of one episode.
#[derive(Debug)]
pub struct EpisodeVideo {
    pub title: String,
    pub episode: String,
    pub url: String,
    pub image_url: String,
}

} // verus!
