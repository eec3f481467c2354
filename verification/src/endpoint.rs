//! The requests the endpoints are made of: a resource as a whole, one item
//! of it, or all its items.

use vstd::prelude::*;
use vstd::string::StringExecFns;

use crate::request::{Authentication, Request, RequestBuilder};
use crate::uri::{uri_for, IdParameter, Identifier};

verus! {

/// The request for `uri` with the given requirements.
pub open spec fn request_to(uri: Seq<char>, authentication: Authentication, localized: bool) -> Request {
    Request { uri, authentication, localized }
}

/// The URI of the item of `path` whose identifier renders as `id`.
pub open spec fn item_uri(path: Seq<char>, id: Seq<char>) -> Seq<char> {
    path + "?id="@ + id
}

/// The URI of all items of `path`.
pub open spec fn all_uri(path: Seq<char>) -> Seq<char> {
    path + "?ids=all"@
}

/// The request for the resource at `path`.
pub fn resource(path: &str, authentication: Authentication, localized: bool) -> (r: RequestBuilder)
    ensures
        r@ == request_to(path@, authentication, localized),
{
    RequestBuilder::new(path).authenticated(authentication).localized(localized)
}

/// The request for the item `id` of the resource at `path`.
pub fn item<I: Identifier>(
    path: &str,
    id: &I,
    authentication: Authentication,
    localized: bool,
) -> (r: RequestBuilder)
    ensures
        r@ == request_to(item_uri(path@, id.rendering()), authentication, localized),
{
    let mut uri = String::from_str(path);
    uri.append("?id=");
    id.render(&mut uri);
    resource(uri.as_str(), authentication, localized)
}

/// The request for all items of the resource at `path`.
pub fn all(path: &str, authentication: Authentication, localized: bool) -> (r: RequestBuilder)
    ensures
        r@ == request_to(all_uri(path@), authentication, localized),
{
    let mut uri = String::from_str(path);
    uri.append("?ids=all");
    resource(uri.as_str(), authentication, localized)
}

/// `first`, `second` and `third`, one after the other.
pub fn concat(first: &str, second: &str, third: &str) -> (r: String)
    ensures
        r@ == first@ + second@ + third@,
{
    let mut out = String::from_str(first);
    out.append(second);
    out.append(third);
    out
}

/// The URI of one item is the one the single-id strategy gives.
pub proof fn lemma_item_uri<I: Identifier>(path: Seq<char>, id: I)
    ensures
        uri_for(path, Some(IdParameter::Id(id))) == Some(item_uri(path, id.rendering())),
{
    reveal_strlit("?id=");
    reveal_strlit("id=");
    assert(path + seq!['?'] + ("id="@ + id.rendering()) =~= path + "?id="@ + id.rendering());
}

/// The URI of all items is the one the "all" strategy gives.
pub proof fn lemma_all_uri(path: Seq<char>)
    ensures
        uri_for(path, Some(IdParameter::<u64>::All)) == Some(all_uri(path)),
{
    reveal_strlit("?ids=all");
    reveal_strlit("ids=all");
    assert(path + seq!['?'] + "ids=all"@ =~= path + "?ids=all"@);
}

} // verus!
