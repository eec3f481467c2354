//! Achievements.

use vstd::prelude::*;

use crate::client::ClientExecutor;
use crate::endpoint::{item, item_uri, request_to, resource};
use crate::request::Authentication;
use crate::uri::Identifier;

verus! {

#[derive(Clone, Debug)]
pub struct Achievement {
    pub id: u64,
    pub icon: Option<String>,
    pub name: String,
    pub description: String,
    pub requirement: String,
    pub locked_text: String,
    pub kind: AchievementKind,
    pub flags: Vec<String>,
    pub tiers: Vec<AchievementTier>,
    pub prerequisites: Vec<u64>,
    pub rewards: Vec<AchievementReward>,
    pub bits: Vec<AchievementBit>,
    pub point_cap: Option<u64>,
}

#[derive(Copy, Clone, Debug, PartialEq, Eq, Hash, Structural)]
pub enum AchievementKind {
    Default,
    ItemSet,
}

#[derive(Clone, Debug)]
pub struct AchievementTier {
    pub count: u64,
    pub points: u64,
}

#[derive(Clone, Debug)]
pub enum AchievementReward {
    Coins { count: u64 },
    Item { id: u64, count: u64 },
    Mastery { id: u64, region: String },
    Title { id: u64 },
}

#[derive(Clone, Debug)]
pub enum AchievementBit {
    Text { text: String },
    Item { id: u64 },
    Minipet { id: u64 },
    Skin { id: u64 },
}

impl Achievement {
    /// Asks for the achievement with the given `id`.
    pub fn get<C: ClientExecutor<Self>>(client: &C, id: u64) -> (r: C::Result)
        ensures
            client.answers(
                request_to(item_uri("/v2/achievements"@, id.rendering()), Authentication::Public, false),
                r,
            ),
    {
        client.send(item("/v2/achievements", &id, Authentication::Public, false))
    }

    /// Asks for the ids of every achievement.
    pub fn ids<C: ClientExecutor<Vec<u64>>>(client: &C) -> (r: C::Result)
        ensures
            client.answers(request_to("/v2/achievements"@, Authentication::Public, false), r),
    {
        client.send(resource("/v2/achievements", Authentication::Public, false))
    }
}

} // verus!
