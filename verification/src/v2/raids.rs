//! Raids and their wings.

use vstd::prelude::*;

use crate::client::ClientExecutor;
use crate::endpoint::{all, all_uri, item, item_uri, request_to, resource};
use crate::request::Authentication;
use crate::uri::Identifier;

verus! {

#[derive(Clone, Debug)]
pub struct Raid {
    pub id: String,
}

#[derive(Clone, Debug)]
pub struct RaidWing {
    pub id: String,
    pub events: RaidEvent,
}

#[derive(Clone, Debug)]
pub struct RaidEvent {
    pub id: String,
    pub kind: RaidEventKind,
}

#[derive(Copy, Clone, Debug, PartialEq, Eq, Hash, Structural)]
pub enum RaidEventKind {
    Checkpoint,
    Boss,
}

impl Raid {
    /// Asks for the raid with the given `id`.
    pub fn get<C: ClientExecutor<Self>>(client: &C, id: String) -> (r: C::Result)
        ensures
            client.answers(
                request_to(item_uri("/v2/raids"@, id.rendering()), Authentication::Public, false),
                r,
            ),
    {
        client.send(item("/v2/raids", &id, Authentication::Public, false))
    }

    /// Asks for every raid.
    pub fn get_all<C: ClientExecutor<Vec<Self>>>(client: &C) -> (r: C::Result)
        ensures
            client.answers(request_to(all_uri("/v2/raids"@), Authentication::Public, false), r),
    {
        client.send(all("/v2/raids", Authentication::Public, false))
    }

    /// Asks for the ids of every raid.
    pub fn ids<C: ClientExecutor<Vec<String>>>(client: &C) -> (r: C::Result)
        ensures
            client.answers(request_to("/v2/raids"@, Authentication::Public, false), r),
    {
        client.send(resource("/v2/raids", Authentication::Public, false))
    }
}

} // verus!
