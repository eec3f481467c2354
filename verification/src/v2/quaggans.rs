//! Quaggan images.

use vstd::prelude::*;

use crate::client::ClientExecutor;
use crate::endpoint::{all, all_uri, item, item_uri, request_to, resource};
use crate::request::Authentication;
use crate::uri::Identifier;

verus! {

#[derive(Clone, Debug)]
pub struct Quaggan {
    pub id: String,
    pub url: String,
}

impl Quaggan {
    /// Asks for the quaggan with the given `id`.
    pub fn get<C: ClientExecutor<Self>>(client: &C, id: String) -> (r: C::Result)
        ensures
            client.answers(
                request_to(item_uri("/v2/quaggans"@, id.rendering()), Authentication::Public, false),
                r,
            ),
    {
        client.send(item("/v2/quaggans", &id, Authentication::Public, false))
    }

    /// Asks for every quaggan.
    pub fn get_all<C: ClientExecutor<Vec<Self>>>(client: &C) -> (r: C::Result)
        ensures
            client.answers(request_to(all_uri("/v2/quaggans"@), Authentication::Public, false), r),
    {
        client.send(all("/v2/quaggans", Authentication::Public, false))
    }

    /// Asks for the ids of every quaggan.
    pub fn ids<C: ClientExecutor<Vec<String>>>(client: &C) -> (r: C::Result)
        ensures
            client.answers(request_to("/v2/quaggans"@, Authentication::Public, false), r),
    {
        client.send(resource("/v2/quaggans", Authentication::Public, false))
    }
}

} // verus!
