//! The recommendations resource of an entity.

use vstd::prelude::*;

use crate::base::TypeSource;
use crate::client::resource_url_spec;
use crate::client::resource_url;

verus! {

/// The URL of the recommendation listing of `ts`.
pub open spec fn recommendations_url_spec(ts: &TypeSource) -> Seq<char> {
    resource_url_spec(ts, "/recommendations"@)
}

/// Builds the URL of the recommendation listing of `ts`.
pub fn recommendations_url(ts: &TypeSource) -> (s: String)
    ensures
        s@ == recommendations_url_spec(ts),
{
    resource_url(ts, "/recommendations")
}

/// One recommendation: an entity recommended to those who liked the
/// one it hangs off, with how many users recommended it.
#[derive(Debug)]
pub struct Recommendation {
    pub mal_id: u32,
    pub url: String,
    pub image_url: String,
    pub recommendation_url: String,
    pub title: String,
    pub recommendation_count: u32,
}

} // verus!
