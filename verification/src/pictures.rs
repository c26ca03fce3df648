//! The pictures resource of an entity.

use vstd::prelude::*;

use crate::base::TypeSource;
use crate::client::resource_url_spec;
use crate::client::resource_url;

verus! {

/// The URL of the picture listing of `ts`.
pub open spec fn pictures_url_spec(ts: &TypeSource) -> Seq<char> {
    resource_url_spec(ts, "/pictures"@)
}

/// Builds the URL of the picture listing of `ts`.
pub fn pictures_url(ts: &TypeSource) -> (s: String)
    ensures
        s@ == pictures_url_spec(ts),
{
    resource_url(ts, "/pictures")
}

/// One picture of an entity, in two sizes.
#[derive(Debug)]
pub struct Picture {
    pub large: String,
    pub small: String,
}

} // verus!
