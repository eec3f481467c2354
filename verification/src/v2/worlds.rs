//! The worlds (servers) of the game.

use std::cmp::Ordering;

use vstd::prelude::*;
use vstd::std_specs::cmp::PartialOrdSpecImpl;

use crate::client::ClientExecutor;
use crate::endpoint::{all, all_uri, item, item_uri, request_to, resource};
use crate::request::Authentication;
use crate::uri::Identifier;

verus! {

/// A game world.
#[derive(Clone, Debug)]
pub struct World {
    pub id: u64,
    pub name: String,
    pub population: Population,
}

/// The population of a [`World`].
/// How crowded a world is.
#[derive(Copy, Clone, Debug, PartialEq, Eq, Hash, Structural)]
pub enum Population {
    Full,
    VeryHigh,
    High,
    Medium,
}

impl Population {
    /// The place of a population among the four, from the emptiest up.
    pub open spec fn level(self) -> u8 {
        match self {
            Population::Full => 3,
            Population::VeryHigh => 2,
            Population::High => 1,
            Population::Medium => 0,
        }
    }

    /// The place of a population among the four, from the emptiest up.
    pub fn as_u8(&self) -> (r: u8)
        ensures
            r == self.level(),
    {
        match self {
            Population::Full => 3,
            Population::VeryHigh => 2,
            Population::High => 1,
            Population::Medium => 0,
        }
    }
}

impl PartialOrd for Population {
    /// A fuller population is the greater one.
    fn partial_cmp(&self, other: &Self) -> (r: Option<Ordering>) {
        let mine = self.as_u8();
        let theirs = other.as_u8();
        if mine < theirs {
            Some(Ordering::Less)
        } else if mine == theirs {
            Some(Ordering::Equal)
        } else {
            Some(Ordering::Greater)
        }
    }
}

impl PartialOrdSpecImpl for Population {
    open spec fn obeys_partial_cmp_spec() -> bool {
        true
    }

    open spec fn partial_cmp_spec(&self, other: &Self) -> Option<Ordering> {
        if self.level() < other.level() {
            Some(Ordering::Less)
        } else if self.level() == other.level() {
            Some(Ordering::Equal)
        } else {
            Some(Ordering::Greater)
        }
    }
}

/// Populations are ordered in a line: two of them compare equal only where
/// they are the same, and turning a comparison round turns its result
/// round.
pub proof fn lemma_population_order(a: Population, b: Population)
    ensures
        vstd::std_specs::cmp::PartialOrdSpec::partial_cmp_spec(&a, &b) == Some(Ordering::Equal)
            <==> a == b,
        vstd::std_specs::cmp::PartialOrdSpec::partial_cmp_spec(&a, &b) == Some(Ordering::Less)
            <==> vstd::std_specs::cmp::PartialOrdSpec::partial_cmp_spec(&b, &a) == Some(
            Ordering::Greater,
        ),
{
}

impl World {
    /// Asks for the world with the given `id`.
    pub fn get<C: ClientExecutor<Self>>(client: &C, id: u64) -> (r: C::Result)
        ensures
            client.answers(
                request_to(item_uri("/v2/worlds"@, id.rendering()), Authentication::Public, false),
                r,
            ),
    {
        client.send(item("/v2/worlds", &id, Authentication::Public, false))
    }

    /// Asks for every world.
    pub fn get_all<C: ClientExecutor<Vec<Self>>>(client: &C) -> (r: C::Result)
        ensures
            client.answers(request_to(all_uri("/v2/worlds"@), Authentication::Public, false), r),
    {
        client.send(all("/v2/worlds", Authentication::Public, false))
    }

    /// Asks for the ids of every world.
    pub fn ids<C: ClientExecutor<Vec<u64>>>(client: &C) -> (r: C::Result)
        ensures
            client.answers(request_to("/v2/worlds"@, Authentication::Public, false), r),
    {
        client.send(resource("/v2/worlds", Authentication::Public, false))
    }
}

} // verus!
