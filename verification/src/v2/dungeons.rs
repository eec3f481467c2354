//! Dungeons and their paths.

use vstd::prelude::*;

use crate::client::ClientExecutor;
use crate::endpoint::{all, all_uri, item, item_uri, request_to, resource};
use crate::request::Authentication;
use crate::uri::Identifier;

verus! {

#[derive(Clone, Debug)]
pub struct Dungeon {
    pub id: String,
    pub paths: Vec<DungeonPath>,
}

#[derive(Clone, Debug)]
pub struct DungeonPath {
    pub id: String,
    pub kind: DungeonKind,
}

#[derive(Copy, Clone, Debug, PartialEq, Eq, Hash, Structural)]
pub enum DungeonKind {
    Story,
    Explorable,
}

impl Dungeon {
    /// Asks for the dungeon with the given `id`.
    pub fn get<C: ClientExecutor<Self>>(client: &C, id: String) -> (r: C::Result)
        ensures
            client.answers(
                request_to(item_uri("/v2/dungeons"@, id.rendering()), Authentication::Public, false),
                r,
            ),
    {
        client.send(item("/v2/dungeons", &id, Authentication::Public, false))
    }

    /// Asks for every dungeon.
    pub fn get_all<C: ClientExecutor<Vec<Self>>>(client: &C) -> (r: C::Result)
        ensures
            client.answers(request_to(all_uri("/v2/dungeons"@), Authentication::Public, false), r),
    {
        client.send(all("/v2/dungeons", Authentication::Public, false))
    }

    /// Asks for the ids of every dungeon.
    pub fn ids<C: ClientExecutor<Vec<String>>>(client: &C) -> (r: C::Result)
        ensures
            client.answers(request_to("/v2/dungeons"@, Authentication::Public, false), r),
    {
        client.send(resource("/v2/dungeons", Authentication::Public, false))
    }
}

} // verus!
