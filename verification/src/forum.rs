//! The forum resource of an entity.

use vstd::prelude::*;

use crate::base::TypeSource;
use crate::client::resource_url_spec;
use crate::client::resource_url;

verus! {

/// The URL of the forum topic listing of `ts`.
pub open spec fn forum_url_spec(ts: &TypeSource) -> Seq<char> {
    resource_url_spec(ts, "/forum"@)
}

/// Builds the URL of the forum topic listing of `ts`.
pub fn forum_url(ts: &TypeSource) -> (s: String)
    ensures
        s@ == forum_url_spec(ts),
{
    resource_url(ts, "/forum")
}

/// One forum topic about an entity.
#[derive(Debug)]
pub struct Topic {
    pub topic_id: u32,
    pub url: String,
    pub title: String,
    pub date: String,
    pub author_name: String,
    pub author_url: String,
    pub replies: u32,
}

} // verus!
