//! Novelties.

use vstd::prelude::*;

use crate::client::ClientExecutor;
use crate::endpoint::{all, all_uri, item, item_uri, request_to, resource};
use crate::request::Authentication;
use crate::uri::Identifier;

verus! {

#[derive(Clone, Debug)]
pub struct Novelty {
    pub id: u64,
    pub name: String,
    pub description: String,
    pub icon: String,
    pub slot: NoveltySlot,
    pub unlock_item: Vec<u64>,
}

#[derive(Copy, Clone, Debug, PartialEq, Eq, Hash, Structural)]
pub enum NoveltySlot {
    Chair,
    Music,
    HeldItem,
    Miscellaneous,
    Tonic,
}

impl Novelty {
    /// Asks for the novelty with the given `id`.
    pub fn get<C: ClientExecutor<Self>>(client: &C, id: u64) -> (r: C::Result)
        ensures
            client.answers(
                request_to(item_uri("/v2/novelties"@, id.rendering()), Authentication::Public, false),
                r,
            ),
    {
        client.send(item("/v2/novelties", &id, Authentication::Public, false))
    }

    /// Asks for every novelty.
    pub fn get_all<C: ClientExecutor<Vec<Self>>>(client: &C) -> (r: C::Result)
        ensures
            client.answers(request_to(all_uri("/v2/novelties"@), Authentication::Public, false), r),
    {
        client.send(all("/v2/novelties", Authentication::Public, false))
    }

    /// Asks for the ids of every novelty.
    pub fn ids<C: ClientExecutor<Vec<u64>>>(client: &C) -> (r: C::Result)
        ensures
            client.answers(request_to("/v2/novelties"@, Authentication::Public, false), r),
    {
        client.send(resource("/v2/novelties", Authentication::Public, false))
    }
}

} // verus!
