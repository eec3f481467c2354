//! The access token itself.

use vstd::prelude::*;

use crate::client::ClientExecutor;
use crate::endpoint::{request_to, resource};
use crate::request::Authentication;
use crate::time::Timestamp;

verus! {

/// Details about an api token.
#[derive(Clone, Debug)]
pub struct TokenInfo {
    /// The unique id of the token.
    pub id: String,
    /// The name of the token defined by the user.
    pub name: String,
    /// All permissions granted to the token.
    pub permissions: Vec<TokenPermission>,
    /// The type of the token
    pub kind: TokenKind,
    /// Expiration time of the token. Only avaliable on subtokens.
    pub expires_at: Option<Timestamp>,
    /// Creation time of the token. Only avaliable on subtokens.
    pub issued_at: Option<Timestamp>,
    /// A list of urls the subtoken is restricted to. (optional)
    pub urls: Option<Vec<String>>,
}

/// A token permission.
#[derive(Clone, Debug)]
pub enum TokenPermission {
    Account,
    Builds,
    Characters,
    Guilds,
    Inventories,
    Progression,
    Pvp,
    TradingPost,
    Unlocks,
    Wallet,
}

/// Type of an api token.
#[derive(Clone, Debug)]
pub enum TokenKind {
    ApiKey,
    Subtoken,
}

impl TokenInfo {
    /// Asks what the access token of the client is and may do.
    pub fn get<C: ClientExecutor<Self>>(client: &C) -> (r: C::Result)
        ensures
            client.answers(request_to("/v2/tokeninfo"@, Authentication::Required, false), r),
    {
        client.send(resource("/v2/tokeninfo", Authentication::Required, false))
    }
}

} // verus!
