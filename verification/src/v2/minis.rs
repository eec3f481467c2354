//! Miniatures.

use vstd::prelude::*;

use crate::client::ClientExecutor;
use crate::endpoint::{all, all_uri, item, item_uri, request_to, resource};
use crate::request::Authentication;
use crate::uri::Identifier;

verus! {

#[derive(Clone, Debug)]
pub struct Mini {
    pub id: u64,
    pub name: String,
    pub unlock: Option<String>,
    pub icon: String,
    pub order: u64,
    pub item_id: u64,
}

impl Mini {
    /// Asks for the miniature with the given `id`.
    pub fn get<C: ClientExecutor<Self>>(client: &C, id: u64) -> (r: C::Result)
        ensures
            client.answers(
                request_to(item_uri("/v2/minis"@, id.rendering()), Authentication::Public, false),
                r,
            ),
    {
        client.send(item("/v2/minis", &id, Authentication::Public, false))
    }

    /// Asks for every miniature.
    pub fn get_all<C: ClientExecutor<Vec<Self>>>(client: &C) -> (r: C::Result)
        ensures
            client.answers(request_to(all_uri("/v2/minis"@), Authentication::Public, false), r),
    {
        client.send(all("/v2/minis", Authentication::Public, false))
    }

    /// Asks for the ids of every miniature.
    pub fn ids<C: ClientExecutor<Vec<u64>>>(client: &C) -> (r: C::Result)
        ensures
            client.answers(request_to("/v2/minis"@, Authentication::Public, false), r),
    {
        client.send(resource("/v2/minis", Authentication::Public, false))
    }
}

} // verus!
