//! The news resource of an entity.

use vstd::prelude::*;

use crate::base::TypeSource;
use crate::client::resource_url_spec;
use crate::client::resource_url;

verus! {

/// The URL of the news listing of `ts`.
pub open spec fn news_url_spec(ts: &TypeSource) -> Seq<char> {
    resource_url_spec(ts, "/news"@)
}

/// Builds the URL of the news listing of `ts`.
pub fn news_url(ts: &TypeSource) -> (s: String)
    ensures
        s@ == news_url_spec(ts),
{
    resource_url(ts, "/news")
}

/// One news article about an entity.
#[derive(Debug)]
pub struct News {
    pub url: String,
    pub title: String,
    pub date: String,
    pub author_name: String,
    pub author_url: String,
    pub forum_url: String,
    pub image_url: Option<String>,
    pub comments: u32,
    pub intro: String,
}

} // verus!
