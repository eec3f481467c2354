//! Titles.

use vstd::prelude::*;

use crate::client::ClientExecutor;
use crate::endpoint::{all, all_uri, item, item_uri, request_to, resource};
use crate::request::Authentication;
use crate::uri::Identifier;

verus! {

#[derive(Clone, Debug)]
pub struct Title {
    pub id: u64,
    pub name: String,
    pub achievements: Option<Vec<u64>>,
    pub ap_required: Option<u64>,
}

impl Title {
    /// Asks for the title with the given `id`.
    pub fn get<C: ClientExecutor<Self>>(client: &C, id: u64) -> (r: C::Result)
        ensures
            client.answers(
                request_to(item_uri("/v2/titles"@, id.rendering()), Authentication::Public, false),
                r,
            ),
    {
        client.send(item("/v2/titles", &id, Authentication::Public, false))
    }

    /// Asks for every title.
    pub fn get_all<C: ClientExecutor<Vec<Self>>>(client: &C) -> (r: C::Result)
        ensures
            client.answers(request_to(all_uri("/v2/titles"@), Authentication::Public, false), r),
    {
        client.send(all("/v2/titles", Authentication::Public, false))
    }

    /// Asks for the ids of every title.
    pub fn ids<C: ClientExecutor<Vec<u64>>>(client: &C) -> (r: C::Result)
        ensures
            client.answers(request_to("/v2/titles"@, Authentication::Public, false), r),
    {
        client.send(resource("/v2/titles", Authentication::Public, false))
    }
}

} // verus!
