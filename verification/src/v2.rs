//! # /v2 endpoint
//!
//! Types for the [v2](https://api.guildwars2.com/v2) endpoint.

pub mod account;
pub mod achievements;
pub mod game_build;
pub mod commerce;
pub mod currencies;
pub mod dungeons;
pub mod files;
pub mod guild;
pub mod minis;
pub mod novelties;
pub mod quaggans;
pub mod raids;
pub mod titles;
pub mod tokeninfo;
pub mod worlds;
pub mod wvw;
