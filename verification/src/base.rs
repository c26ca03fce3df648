//! Shared record shapes and the source tag that picks between the
//! anime and the manga side of an endpoint.

use vstd::prelude::*;
use vstd::string::StringExecFns;

use crate::digits::{dec_digits, u32_to_dec};

verus! {

/// Tags a request with the entity it is about: an anime or a manga,
/// each by its MAL id.
#[derive(Debug)]
pub enum TypeSource {
    Anime(u32),
    Manga(u32),
}

impl TypeSource {
    /// The URI fragment for this source: the entity kind, a slash, and
    /// the id in decimal.
    pub open spec fn uri_spec(&self) -> Seq<char> {
        match self {
            TypeSource::Anime(id) => "anime/"@ + dec_digits(*id as nat),
            TypeSource::Manga(id) => "manga/"@ + dec_digits(*id as nat),
        }
    }

    /// Renders the URI fragment, for example `anime/1` or `manga/20`.
    pub fn get_uri(&self) -> (s: String)
        ensures
            s@ == self.uri_spec(),
    {
        match self {
            TypeSource::Anime(id) => {
                let mut s = String::from_str("anime/");
                let d = u32_to_dec(*id);
                s.append(d.as_str());
                s
            },
            TypeSource::Manga(id) => {
                let mut s = String::from_str("manga/");
                let d = u32_to_dec(*id);
                s.append(d.as_str());
                s
            },
        }
    }
}

/// A linked MAL entity: an id, a kind word, its page URL and a name.
#[derive(Debug)]
pub struct MALTypeItem {
    pub mal_id: u32,
    pub type_of: String,
    pub url: String,
    pub name: String,
}

/// A linked MAL entity without the kind word.
#[derive(Debug)]
pub struct MALItem {
    pub mal_id: u32,
    pub url: String,
    pub name: String,
}

/// A linked MAL entity together with the role it plays (a character's
/// role in a story, a person's role on a staff list).
#[derive(Debug)]
pub struct MALRoleItem {
    pub mal_id: u32,
    pub url: String,
    pub image_url: String,
    pub name: String,
    pub role: String,
}

/// The related-content block of an entity page: each relation kind with
/// the entities it points at.
#[derive(Debug)]
pub struct RelatedContent {
    pub adaptation: Vec<MALTypeItem>,
    pub alternative_version: Vec<MALTypeItem>,
    pub alternative_setting: Vec<MALTypeItem>,
    pub character: Vec<MALTypeItem>,
    pub full_story: Vec<MALTypeItem>,
    pub other: Vec<MALTypeItem>,
    pub parent_story: Vec<MALTypeItem>,
    pub prequel: Vec<MALTypeItem>,
    pub sequel: Vec<MALTypeItem>,
    pub side_story: Vec<MALTypeItem>,
    pub spin_off: Vec<MALTypeItem>,
    pub summary: Vec<MALTypeItem>,
}

/// One anime entry of a schedule or season listing. The upstream JSON
/// carries the score as a fraction; the library holds it in hundredths
/// of a point (for example 812 for a score of 8.12).
#[derive(Debug)]
pub struct AnimeInfo {
    pub mal_id: u32,
    pub url: String,
    pub title: String,
    pub image_url: Option<String>,
    pub synopsis: String,
    pub anime_type: String,
    pub airing_start: Option<String>,
    pub episodes: Option<u16>,
    pub members: Option<u32>,
    pub genres: Vec<MALTypeItem>,
    pub source: String,
    pub producers: Vec<MALTypeItem>,
    pub score: Option<u32>,
    pub licensors: Vec<String>,
    pub r18: bool,
    pub kids: bool,
    pub continuing: bool,
}

} // verus!
