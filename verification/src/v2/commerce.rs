//! The trading post.

use vstd::prelude::*;
use vstd::string::StringExecFns;

use crate::client::ClientExecutor;
use crate::endpoint::{item, item_uri, request_to, resource};
use crate::request::Authentication;
use crate::time::Timestamp;
use crate::uri::Identifier;

verus! {

/// The coins and items currently waiting in trading post delivery.
#[derive(Clone, Debug)]
pub struct Delivery {
    pub coins: u64,
    pub items: Vec<DeliveryItem>,
}

/// An item in the delivery box.
#[derive(Clone, Debug)]
pub struct DeliveryItem {
    pub id: u64,
    pub count: u64,
}

impl Delivery {
    /// Asks for what waits for pickup at the trading post.
    pub fn get<C: ClientExecutor<Self>>(client: &C) -> (r: C::Result)
        ensures
            client.answers(request_to("/v2/commerce/delivery"@, Authentication::Required, false), r),
    {
        client.send(resource("/v2/commerce/delivery", Authentication::Required, false))
    }
}

/// The current gems to coins exchange rate.
///
/// `Exchange` handles both the coins to gems and gems to coins exchange rates.
#[derive(Clone, Debug)]
pub struct Exchange {
    /// The current coins to gem exchange rate.
    pub coins_per_gem: u64,
    /// The amount of coins/gems you get for the requested amount of coins/gems.
    pub quantity: u64,
}

impl Exchange {
    /// Asks how many gems `coins` coins buy.
    pub fn coins<C: ClientExecutor<Self>>(client: &C, coins: u64) -> (r: C::Result)
        ensures
            client.answers(
                request_to("/v2/commerce/exchange/coins?quantity="@ + coins.rendering(), Authentication::Public, false),
                r,
            ),
    {
        let mut uri = String::from_str("/v2/commerce/exchange/coins?quantity=");
        coins.render(&mut uri);
        client.send(resource(uri.as_str(), Authentication::Public, false))
    }

    /// Asks how many coins `gems` gems buy.
    pub fn gems<C: ClientExecutor<Self>>(client: &C, gems: u64) -> (r: C::Result)
        ensures
            client.answers(
                request_to("/v2/commerce/exchange/gems?quantity="@ + gems.rendering(), Authentication::Public, false),
                r,
            ),
    {
        let mut uri = String::from_str("/v2/commerce/exchange/gems?quantity=");
        gems.render(&mut uri);
        client.send(resource(uri.as_str(), Authentication::Public, false))
    }
}

#[derive(Clone, Debug)]
pub struct Listings {
    pub id: u64,
    pub buys: Listing,
}

#[derive(Clone, Debug)]
pub struct Listing {
    pub listings: u64,
    pub unit_price: u64,
    pub quantity: u64,
}

impl Listings {
    /// Asks for the listings of the item with the given `id`.
    pub fn get<C: ClientExecutor<Self>>(client: &C, id: u64) -> (r: C::Result)
        ensures
            client.answers(
                request_to(item_uri("/v2/commerce/listings"@, id.rendering()), Authentication::Public, false),
                r,
            ),
    {
        client.send(item("/v2/commerce/listings", &id, Authentication::Public, false))
    }

    /// Asks for the ids of every item with listings.
    pub fn ids<C: ClientExecutor<Vec<u64>>>(client: &C) -> (r: C::Result)
        ensures
            client.answers(request_to("/v2/commerce/listings"@, Authentication::Public, false), r),
    {
        client.send(resource("/v2/commerce/listings", Authentication::Public, false))
    }
}

#[derive(Clone, Debug)]
pub struct Prices {
    pub id: u64,
    /// Whether free to play accounts are allowed to buy/sell this item.
    pub whilelisted: bool,
    pub buys: Price,
    pub sells: Price,
}

#[derive(Clone, Debug)]
pub struct Price {
    pub unit_price: u64,
    pub quantity: u64,
}

impl Prices {
    /// Asks for the ids of every item with a price.
    pub fn ids<C: ClientExecutor<Vec<u64>>>(client: &C) -> (r: C::Result)
        ensures
            client.answers(request_to("/v2/commerce/prices"@, Authentication::Public, false), r),
    {
        client.send(resource("/v2/commerce/prices", Authentication::Public, false))
    }
}

#[derive(Clone, Debug)]
pub struct CurrentTransactions {
    pub transactions: Vec<CurrentTransaction>,
}

#[derive(Clone, Debug)]
pub struct CurrentTransaction {
    pub id: u64,
    pub item_id: u64,
    pub price: u64,
    pub quantity: u64,
    pub created: Timestamp,
}

impl CurrentTransactions {
    /// Asks for the open buy orders of the account.
    pub fn buys<C: ClientExecutor<Self>>(client: &C) -> (r: C::Result)
        ensures
            client.answers(request_to("/v2/commerce/transactions/current/buys"@, Authentication::Required, false), r),
    {
        client.send(resource("/v2/commerce/transactions/current/buys", Authentication::Required, false))
    }

    /// Asks for the open sell orders of the account.
    pub fn sells<C: ClientExecutor<Self>>(client: &C) -> (r: C::Result)
        ensures
            client.answers(request_to("/v2/commerce/transactions/current/sells"@, Authentication::Required, false), r),
    {
        client.send(resource("/v2/commerce/transactions/current/sells", Authentication::Required, false))
    }
}

#[derive(Clone, Debug)]
pub struct HistoryTransactions {
    pub transations: Vec<HistoryTransaction>,
}

#[derive(Clone, Debug)]
pub struct HistoryTransaction {
    pub id: u64,
    pub item_id: u64,
    pub price: u64,
    pub quantity: u64,
    pub created: Timestamp,
    pub purchased: Timestamp,
}

impl HistoryTransactions {
    /// Asks for the fulfilled buy orders of the account.
    pub fn buys<C: ClientExecutor<Self>>(client: &C) -> (r: C::Result)
        ensures
            client.answers(request_to("/v2/commerce/transactions/history/buys"@, Authentication::Required, false), r),
    {
        client.send(resource("/v2/commerce/transactions/history/buys", Authentication::Required, false))
    }

    /// Asks for the fulfilled sell orders of the account.
    pub fn sells<C: ClientExecutor<Self>>(client: &C) -> (r: C::Result)
        ensures
            client.answers(request_to("/v2/commerce/transactions/history/sells"@, Authentication::Required, false), r),
    {
        client.send(resource("/v2/commerce/transactions/history/sells", Authentication::Required, false))
    }
}

} // verus!
