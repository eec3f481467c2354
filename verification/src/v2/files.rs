//! Commonly requested assets.

use vstd::prelude::*;

use crate::client::ClientExecutor;
use crate::endpoint::{all, all_uri, item, item_uri, request_to, resource};
use crate::request::Authentication;
use crate::uri::Identifier;

verus! {

#[derive(Clone, Debug)]
pub struct File {
    pub id: String,
    pub icon: String,
}

impl File {
    /// Asks for the file with the given `id`.
    pub fn get<C: ClientExecutor<Self>>(client: &C, id: String) -> (r: C::Result)
        ensures
            client.answers(
                request_to(item_uri("/v2/files"@, id.rendering()), Authentication::Public, false),
                r,
            ),
    {
        client.send(item("/v2/files", &id, Authentication::Public, false))
    }

    /// Asks for every file.
    pub fn get_all<C: ClientExecutor<Vec<Self>>>(client: &C) -> (r: C::Result)
        ensures
            client.answers(request_to(all_uri("/v2/files"@), Authentication::Public, false), r),
    {
        client.send(all("/v2/files", Authentication::Public, false))
    }

    /// Asks for the ids of every file.
    pub fn ids<C: ClientExecutor<Vec<String>>>(client: &C) -> (r: C::Result)
        ensures
            client.answers(request_to("/v2/files"@, Authentication::Public, false), r),
    {
        client.send(resource("/v2/files", Authentication::Public, false))
    }
}

} // verus!
