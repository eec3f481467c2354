//! The build of the game.

use vstd::prelude::*;

use crate::client::ClientExecutor;
use crate::endpoint::{request_to, resource};
use crate::request::Authentication;

verus! {

/// The current build id of the game.
///
/// *https://api.guildwars2.com/v2/build*
#[derive(Copy, Clone, Debug)]
pub struct Build {
    pub id: u64,
}

impl Build {
    /// Asks for the current build.
    pub fn get<C: ClientExecutor<Self>>(client: &C) -> (r: C::Result)
        ensures
            client.answers(request_to("/v2/build"@, Authentication::Public, false), r),
    {
        client.send(resource("/v2/build", Authentication::Public, false))
    }
}

} // verus!
