//! The root of every request URL. The HTTP transport itself lives
//! outside the library; callers take the URLs built here and hand the
//! fetched bodies back to the typed records.

use vstd::prelude::*;
use vstd::string::StringExecFns;

use crate::base::TypeSource;

verus! {

/// The root under which every endpoint of the metadata service lives.
pub open spec fn base_url_spec() -> Seq<char> {
    "https://api.jikan.moe/v3"@
}

/// The root URL as a string slice.
pub fn base_url() -> (r: &'static str)
    ensures
        r@ == base_url_spec(),
{
    "https://api.jikan.moe/v3"
}

/// The URL of a resource hanging off an entity: the base URL, the
/// entity fragment (kind and id), and the resource's own suffix.
pub open spec fn resource_url_spec(ts: &TypeSource, suffix: Seq<char>) -> Seq<char> {
    base_url_spec() + "/"@ + ts.uri_spec() + suffix
}

/// Builds the URL of the resource `suffix` of the entity `ts`.
pub fn resource_url(ts: &TypeSource, suffix: &str) -> (s: String)
    ensures
        s@ == resource_url_spec(ts, suffix@),
{
    let mut s = String::from_str(base_url());
    s.append("/");
    let uri = ts.get_uri();
    s.append(uri.as_str());
    s.append(suffix);
    s
}

} // verus!
