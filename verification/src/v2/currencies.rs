//! Currencies of the wallet.

use vstd::prelude::*;

use crate::client::ClientExecutor;
use crate::endpoint::{all, all_uri, item, item_uri, request_to, resource};
use crate::request::Authentication;
use crate::uri::Identifier;

verus! {

#[derive(Clone, Debug)]
pub struct Currency {
    pub id: u64,
    pub name: String,
    pub description: String,
    pub icon: String,
    pub order: u64,
}

impl Currency {
    /// Asks for the currency with the given `id`.
    pub fn get<C: ClientExecutor<Self>>(client: &C, id: u64) -> (r: C::Result)
        ensures
            client.answers(
                request_to(item_uri("/v2/currencies"@, id.rendering()), Authentication::Public, false),
                r,
            ),
    {
        client.send(item("/v2/currencies", &id, Authentication::Public, false))
    }

    /// Asks for every currency.
    pub fn get_all<C: ClientExecutor<Vec<Self>>>(client: &C) -> (r: C::Result)
        ensures
            client.answers(request_to(all_uri("/v2/currencies"@), Authentication::Public, false), r),
    {
        client.send(all("/v2/currencies", Authentication::Public, false))
    }

    /// Asks for the ids of every currency.
    pub fn ids<C: ClientExecutor<Vec<u64>>>(client: &C) -> (r: C::Result)
        ensures
            client.answers(request_to("/v2/currencies"@, Authentication::Public, false), r),
    {
        client.send(resource("/v2/currencies", Authentication::Public, false))
    }
}

} // verus!
