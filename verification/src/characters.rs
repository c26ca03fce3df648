//! The characters resource of an entity. The anime side serves its
//! characters together with the staff, under a suffix of its own; the
//! manga side serves characters alone.

use vstd::prelude::*;

use crate::base::TypeSource;
use crate::client::resource_url_spec;
use crate::client::resource_url;

verus! {

/// The URL of the characters listing of `ts`.
pub open spec fn characters_url_spec(ts: &TypeSource) -> Seq<char> {
    match ts {
        TypeSource::Anime(_) => resource_url_spec(ts, "/characters_staff"@),
        TypeSource::Manga(_) => resource_url_spec(ts, "/characters"@),
    }
}

/// Builds the URL of the characters listing of `ts`.
pub fn characters_url(ts: &TypeSource) -> (s: String)
    ensures
        s@ == characters_url_spec(ts),
{
    match ts {
        TypeSource::Anime(_) => resource_url(ts, "/characters_staff"),
        TypeSource::Manga(_) => resource_url(ts, "/characters"),
    }
}

/// One character of an anime's cast listing.
#[derive(Debug)]
pub struct Character {
    pub mal_id: u32,
    pub url: String,
    pub image_url: String,
    pub name: String,
    pub role: String,
}

} // verus!
