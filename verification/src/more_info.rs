//! The free-form extra-information resource of an entity.

use vstd::prelude::*;

use crate::base::TypeSource;
use crate::client::resource_url_spec;
use crate::client::resource_url;

verus! {

/// The URL of the extra information of `ts`.
pub open spec fn more_info_url_spec(ts: &TypeSource) -> Seq<char> {
    resource_url_spec(ts, "/moreinfo"@)
}

/// Builds the URL of the extra information of `ts`.
pub fn more_info_url(ts: &TypeSource) -> (s: String)
    ensures
        s@ == more_info_url_spec(ts),
{
    resource_url(ts, "/moreinfo")
}

} // verus!
