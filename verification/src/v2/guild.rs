//! Guilds, their members and ranks.

use vstd::prelude::*;
use vstd::string::StringExecFns;

use crate::client::ClientExecutor;
use crate::endpoint::{concat, request_to, resource};
use crate::request::Authentication;
use crate::time::Timestamp;

verus! {

#[derive(Clone, Debug)]
pub struct Guild {
    pub id: String,
    pub name: String,
    pub tag: String,
    pub emblem: GuildEmblem,
    // Avaliable with leader token.
    pub level: Option<u8>,
    pub motd: Option<String>,
    pub influence: Option<u64>,
    pub aetherium: Option<u64>,
    pub favor: Option<u64>,
    pub member_count: Option<u16>,
    pub member_capacity: Option<u16>,
}

impl Guild {
    /// Asks for the guild with the given `id`.
    pub fn get<C: ClientExecutor<Self>>(client: &C, id: &str) -> (r: C::Result)
        ensures
            client.answers(request_to("/v2/guild/"@ + id@, Authentication::Public, false), r),
    {
        let mut uri = String::from_str("/v2/guild/");
        uri.append(id);
        client.send(resource(uri.as_str(), Authentication::Public, false))
    }

    /// Asks for the ids of the guilds with the given `name`.
    pub fn search<C: ClientExecutor<Vec<String>>>(client: &C, name: &str) -> (r: C::Result)
        ensures
            client.answers(request_to("/v2/guild/search?name="@ + name@, Authentication::Public, false), r),
    {
        let mut uri = String::from_str("/v2/guild/search?name=");
        uri.append(name);
        client.send(resource(uri.as_str(), Authentication::Public, false))
    }
}

#[derive(Clone, Debug)]
pub struct GuildEmblem {
    pub background: GuildEmblemSection,
    pub foreground: GuildEmblemSection,
    pub flags: Vec<GuildEmblemFlag>,
}

#[derive(Clone, Debug)]
pub struct GuildEmblemSection {
    pub id: u64,
    pub colors: Vec<u64>,
}

#[derive(Copy, Clone, Debug)]
pub enum GuildEmblemFlag {
    FlipBackgroundHorizontal,
    FlipBackgroundVertical,
}

/// A list of [`GuildMember`]s.
#[derive(Clone, Debug)]
pub struct GuildMembers(pub Vec<GuildMember>);

impl GuildMembers {
    /// Asks for the members of the guild. Only a leader of the guild is answered.
    pub fn get<C: ClientExecutor<Self>>(client: &C, guild_id: &str) -> (r: C::Result)
        ensures
            client.answers(
                request_to("/v2/guild/"@ + guild_id@ + "/members"@, Authentication::Required, false),
                r,
            ),
    {
        let uri = concat("/v2/guild/", guild_id, "/members");
        client.send(resource(uri.as_str(), Authentication::Required, false))
    }
}

/// A member in a guild.
#[derive(Clone, Debug)]
pub struct GuildMember {
    /// The account name of the member.
    pub name: String,
    /// The rank of the member.
    pub rank: String,
    /// The date the member joined the guild.
    pub joined: Timestamp,
}

#[derive(Clone, Debug)]
pub struct GuildRanks(pub Vec<GuildRank>);

impl GuildRanks {
    /// Asks for the ranks of the guild. Only a leader of the guild is answered.
    pub fn get<C: ClientExecutor<Self>>(client: &C, guild_id: &str) -> (r: C::Result)
        ensures
            client.answers(
                request_to("/v2/guild/"@ + guild_id@ + "/ranks"@, Authentication::Required, false),
                r,
            ),
    {
        let uri = concat("/v2/guild/", guild_id, "/ranks");
        client.send(resource(uri.as_str(), Authentication::Required, false))
    }
}

#[derive(Clone, Debug)]
pub struct GuildRank {
    /// The unique name of the rank.
    pub id: String,
    /// The sorting order of the rank. A lower order is a higher rank.
    pub order: u64,
    /// A list of permissions granted to this rank.
    pub permissions: Vec<String>,
    /// A url pointing to the icon of the rank.
    pub icon: String,
}

} // verus!
