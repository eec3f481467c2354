//! World versus world.

use std::collections::HashMap;

use vstd::prelude::*;

use crate::client::ClientExecutor;
use crate::endpoint::{all, all_uri, concat, item, item_uri, request_to, resource};
use crate::request::Authentication;
use crate::time::Timestamp;
use crate::uri::Identifier;

verus! {

/// A WvW ability
#[derive(Clone, Debug)]
pub struct Ability {
    pub id: u64,
    pub name: String,
    pub description: String,
    pub icon: String,
    pub ranks: Vec<AbilityRank>,
}

#[derive(Clone, Debug)]
pub struct AbilityRank {
    pub cost: u64,
    pub effect: String,
}

impl Ability {
    /// Asks for the ability with the given `id`.
    pub fn get<C: ClientExecutor<Self>>(client: &C, id: u64) -> (r: C::Result)
        ensures
            client.answers(
                request_to(item_uri("/v2/wvw/abilities"@, id.rendering()), Authentication::Public, false),
                r,
            ),
    {
        client.send(item("/v2/wvw/abilities", &id, Authentication::Public, false))
    }

    /// Asks for every ability.
    pub fn get_all<C: ClientExecutor<Vec<Self>>>(client: &C) -> (r: C::Result)
        ensures
            client.answers(request_to(all_uri("/v2/wvw/abilities"@), Authentication::Public, false), r),
    {
        client.send(all("/v2/wvw/abilities", Authentication::Public, false))
    }

    /// Asks for the ids of every ability.
    pub fn ids<C: ClientExecutor<Vec<u64>>>(client: &C) -> (r: C::Result)
        ensures
            client.answers(request_to("/v2/wvw/abilities"@, Authentication::Public, false), r),
    {
        client.send(resource("/v2/wvw/abilities", Authentication::Public, false))
    }
}

#[derive(Clone, Debug)]
pub struct Abilities {
    pub id: String,
    pub name: String,
    pub description: String,
    pub icon: String,
    pub ranks: Vec<AbilityRank>,
}

/// Details about a WvW match
#[derive(Clone, Debug)]
pub struct Match {
    /// Id of the match. NA matches have an `id` starting with `1`, EU matches have an `id`
    /// starting with `2`. The second number indicates the tier of match. Matches are sorted after
    /// their tier, but **not** NA/EU matches.
    pub id: String,
    /// The starting time of the match.
    pub start_time: Timestamp,
    /// The ending time of the match.
    pub end_time: Timestamp,
    /// The total (sum) scores of all sides. The keys always include `red`, `green` and `blue`.
    pub scores: HashMap<String, u64>,
    /// The hosting worlds of all sides.
    pub worlds: HashMap<String, u64>,
    /// All worlds of all sides.
    pub all_worlds: HashMap<String, Vec<u64>>,
    /// The total deaths of all sides.
    pub deaths: HashMap<String, u64>,
    /// The total kills of all sides.
    pub kills: HashMap<String, u64>,
    /// The total victory points of all sides.
    pub victory_points: HashMap<String, u64>,
    /// Detailed skirmish information (2 hours)
    pub skirmishes: Vec<Skirmish>,
    /// Map information
    pub maps: Vec<MatchMap>,
}

#[derive(Clone, Debug)]
pub struct Skirmish {
    pub id: u64,
    pub scores: HashMap<String, u64>,
    pub map_scores: Vec<MapScore>,
}

#[derive(Clone, Debug)]
pub struct MapScore {
    pub kind: String,
    pub scores: HashMap<String, u64>,
}

#[derive(Clone, Debug)]
pub struct MatchMap {
    pub id: u64,
    pub kind: String,
    pub scores: HashMap<String, u64>,
    pub bonuses: Vec<Bonus>,
    pub objectives: Vec<Objective>,
    pub deaths: HashMap<String, u64>,
    pub kills: HashMap<String, u64>,
}

#[derive(Clone, Debug)]
pub struct Bonus {
    pub kind: String,
    pub owner: String,
}

#[derive(Clone, Debug)]
pub struct Objective {
    pub id: String,
    pub kind: String,
    pub owner: String,
    pub last_flipped: Timestamp,
    pub claimed_by: Option<String>,
    pub claimed_at: Option<Timestamp>,
    pub points_tick: u64,
    pub points_capture: u64,
    /// Only for camps, towers and keeps (and sm)
    pub yaks_delivered: Option<u64>,
    pub guild_upgrades: Option<Vec<u64>>,
}

impl Match {
    /// Asks for the match with the given `id`.
    pub fn get<C: ClientExecutor<Self>>(client: &C, id: &str) -> (r: C::Result)
        ensures
            client.answers(request_to(item_uri("/v2/wvw/matches"@, id@), Authentication::Public, false), r),
    {
        let uri = concat("/v2/wvw/matches", "?id=", id);
        client.send(resource(uri.as_str(), Authentication::Public, false))
    }

    /// Asks for every match.
    pub fn get_all<C: ClientExecutor<Vec<Self>>>(client: &C) -> (r: C::Result)
        ensures
            client.answers(request_to(all_uri("/v2/wvw/matches"@), Authentication::Public, true), r),
    {
        client.send(all("/v2/wvw/matches", Authentication::Public, true))
    }

    /// Asks for the ids of every match.
    pub fn ids<C: ClientExecutor<Vec<String>>>(client: &C) -> (r: C::Result)
        ensures
            client.answers(request_to("/v2/wvw/matches"@, Authentication::Public, false), r),
    {
        client.send(resource("/v2/wvw/matches", Authentication::Public, false))
    }
}

#[derive(Clone, Debug)]
pub struct Rank {
    pub id: u64,
    pub title: String,
    pub min_rank: u64,
}

impl Rank {
    /// Asks for the rank with the given `id`.
    pub fn get<C: ClientExecutor<Self>>(client: &C, id: u64) -> (r: C::Result)
        ensures
            client.answers(
                request_to(item_uri("/v2/wvw/ranks"@, id.rendering()), Authentication::Public, true),
                r,
            ),
    {
        client.send(item("/v2/wvw/ranks", &id, Authentication::Public, true))
    }

    /// Asks for every rank.
    pub fn get_all<C: ClientExecutor<Vec<Self>>>(client: &C) -> (r: C::Result)
        ensures
            client.answers(request_to(all_uri("/v2/wvw/ranks"@), Authentication::Public, true), r),
    {
        client.send(all("/v2/wvw/ranks", Authentication::Public, true))
    }

    /// Asks for the ids of every rank.
    pub fn ids<C: ClientExecutor<Vec<u64>>>(client: &C) -> (r: C::Result)
        ensures
            client.answers(request_to("/v2/wvw/ranks"@, Authentication::Public, false), r),
    {
        client.send(resource("/v2/wvw/ranks", Authentication::Public, false))
    }
}

#[derive(Clone, Debug)]
pub struct Upgrades {
    pub id: u64,
    pub tiers: Vec<UpgradeTier>,
}

#[derive(Clone, Debug)]
pub struct UpgradeTier {
    pub name: String,
    pub yaks_required: u64,
    pub upgrades: Vec<Upgrade>,
}

#[derive(Clone, Debug)]
pub struct Upgrade {
    pub name: String,
    pub description: String,
    pub icon: String,
}

impl Upgrades {
    /// Asks for the set of upgrades with the given `id`.
    pub fn get<C: ClientExecutor<Self>>(client: &C, id: u64) -> (r: C::Result)
        ensures
            client.answers(
                request_to(item_uri("/v2/wvw/upgrades"@, id.rendering()), Authentication::Public, false),
                r,
            ),
    {
        client.send(item("/v2/wvw/upgrades", &id, Authentication::Public, false))
    }

    /// Asks for every set of upgrades.
    pub fn get_all<C: ClientExecutor<Vec<Self>>>(client: &C) -> (r: C::Result)
        ensures
            client.answers(request_to(all_uri("/v2/wvw/upgrades"@), Authentication::Public, false), r),
    {
        client.send(all("/v2/wvw/upgrades", Authentication::Public, false))
    }

    /// Asks for the ids of every set of upgrades.
    pub fn ids<C: ClientExecutor<Vec<u64>>>(client: &C) -> (r: C::Result)
        ensures
            client.answers(request_to("/v2/wvw/upgrades"@, Authentication::Public, false), r),
    {
        client.send(resource("/v2/wvw/upgrades", Authentication::Public, false))
    }
}

} // verus!
