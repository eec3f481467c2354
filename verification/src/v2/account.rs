//! Exposes details about player accounts. All endpoints in this module required authentication.

use vstd::prelude::*;
use vstd::string::StringExecFns;

use crate::client::ClientExecutor;
use crate::endpoint::{request_to, resource};
use crate::error::JsonError;
use crate::request::Authentication;
use crate::text::text_is;
use crate::time::Timestamp;

verus! {

/// Basic information about an account.
#[derive(Clone, Debug)]
pub struct Account {
    /// A globally unique GUID for the account.
    pub id: String,
    /// The age of the account in seconds.
    pub age: u64,
    /// The unique display name of the account. Note that it is possible for the name to
    /// change.
    pub name: String,
    /// The home world of the account.
    pub world: u64,
    /// A list of guilds the account has joined.
    pub guilds: Vec<String>,
    /// A list of guilds the account has leader access to.
    ///
    /// **Requires the `guilds` scope.** This is `None` if the scope is missing.
    pub guild_leader: Option<Vec<String>>,
    /// The account creation date.
    pub created: Timestamp,
    /// A list of content the account has access to.
    pub access: AccountAccess,
    /// Whether the account has unlocked the commander tag.
    pub commander: bool,
    /// The fractal level of the account.
    ///
    /// **Requires the `progression` scope.** This is `None` if the scope is missing.
    pub fractal_level: Option<u8>,
    /// The number of daily achievement points unlocked by the account.
    ///
    /// **Requires the `progression` scope.** This is `None` if the scope is missing.
    pub daily_ap: Option<u16>,
    /// The number of monthly achievement points unlocked by the account.
    ///
    /// **Requires the `progression` scope.** This is `None` if the scope is missing.
    pub monthly_ap: Option<u16>,
    /// The WvW rank of the account.
    ///
    /// **Requires the `progression` scope.** This is `None` if the scope is missing.
    pub wvw_rank: Option<u16>,
    /// The date when the account information was last changed.
    pub last_modified: Timestamp,
    /// The amount of build storage slots unlocked by the account.
    ///
    /// **Requires the `builds` scope.** This is `None` if the scope is missing.
    pub build_storage_slots: Option<u64>,
}

impl Account {
    /// Asks for the basic information of the account the access token belongs to.
    pub fn get<C: ClientExecutor<Self>>(client: &C) -> (r: C::Result)
        ensures
            client.answers(request_to("/v2/account"@, Authentication::Required, false), r),
    {
        client.send(resource("/v2/account", Authentication::Required, false))
    }
}

/// A list of achievements unlocked by the account.
#[derive(Clone, Debug)]
pub struct AccountAchievements(pub Vec<AccountAchievement>);

impl AccountAchievements {
    /// Asks for the achievement progress of the account the access token belongs to.
    pub fn get<C: ClientExecutor<Self>>(client: &C) -> (r: C::Result)
        ensures
            client.answers(request_to("/v2/account/achievements"@, Authentication::Required, false), r),
    {
        client.send(resource("/v2/account/achievements", Authentication::Required, false))
    }
}

/// An achievement unlocked by an account.
#[derive(Clone, Debug)]
pub struct AccountAchievement {
    /// The id of the achievement.
    pub id: u64,
    pub bits: Option<Vec<u64>>,
    /// The current progress towards the achievement.
    pub current: Option<u64>,
    /// The amount if objectives required to complete the achievement.
    pub max: Option<u64>,
    /// Whether the achievement has been completed.
    pub done: bool,
    /// The number of times this achievement has been completed. Only avaliable for repeatable
    /// achievements.
    pub repeated: Option<u64>,
    /// Whether the achievement has been unlocked (not completed).
    ///
    /// Note that a `None` value also indicates that the achievment is unlocked.
    pub unlocked: Option<bool>,
}

#[derive(Copy, Clone, Debug, PartialEq, Eq, Structural)]
pub enum ItemBinding {
    Account,
    Character,
}

/// A list of items that have been crafted by the account since daily reset.
#[derive(Clone, Debug)]
pub struct AccountDailyCrafting(pub Vec<String>);

impl AccountDailyCrafting {
    /// Asks for the items crafted since the daily reset of the account the access token belongs to.
    pub fn get<C: ClientExecutor<Self>>(client: &C) -> (r: C::Result)
        ensures
            client.answers(request_to("/v2/account/dailycrafting"@, Authentication::Required, false), r),
    {
        client.send(resource("/v2/account/dailycrafting", Authentication::Required, false))
    }
}

/// A list of dungeon paths completed since daily reset.
#[derive(Clone, Debug)]
pub struct AccountDungeons(pub Vec<String>);

impl AccountDungeons {
    /// Asks for the dungeon paths completed since the daily reset of the account the access token belongs to.
    pub fn get<C: ClientExecutor<Self>>(client: &C) -> (r: C::Result)
        ensures
            client.answers(request_to("/v2/account/dungeons"@, Authentication::Required, false), r),
    {
        client.send(resource("/v2/account/dungeons", Authentication::Required, false))
    }
}

/// A list of dyes unlocked by an account.
#[derive(Clone, Debug)]
pub struct AccountDyes(pub Vec<u64>);

impl AccountDyes {
    /// Asks for the unlocked dyes of the account the access token belongs to.
    pub fn get<C: ClientExecutor<Self>>(client: &C) -> (r: C::Result)
        ensures
            client.answers(request_to("/v2/account/dyes"@, Authentication::Required, false), r),
    {
        client.send(resource("/v2/account/dyes", Authentication::Required, false))
    }
}

/// A list of finishers unlocked.
#[derive(Clone, Debug)]
pub struct AccountFinishers(pub Vec<AccountFinisher>);

impl AccountFinishers {
    /// Asks for the unlocked finishers of the account the access token belongs to.
    pub fn get<C: ClientExecutor<Self>>(client: &C) -> (r: C::Result)
        ensures
            client.answers(request_to("/v2/account/finishers"@, Authentication::Required, false), r),
    {
        client.send(resource("/v2/account/finishers", Authentication::Required, false))
    }
}

/// A single finisher unlocked by an account.
#[derive(Clone, Debug)]
pub struct AccountFinisher {
    /// The id of the finisher.
    pub id: u64,
    /// Whether the finisher is unlocked permanently.
    pub permanent: bool,
    /// The number of uses remaining if `permanent` is `false`.
    ///
    /// This field is always `0` if `permanent` is `true`.
    pub quantity: u64,
}

/// A list of gliders unlocked by an account.
#[derive(Clone, Debug)]
pub struct AccountGliders(pub Vec<u64>);

impl AccountGliders {
    /// Asks for the unlocked gliders of the account the access token belongs to.
    pub fn get<C: ClientExecutor<Self>>(client: &C) -> (r: C::Result)
        ensures
            client.answers(request_to("/v2/account/gliders"@, Authentication::Required, false), r),
    {
        client.send(resource("/v2/account/gliders", Authentication::Required, false))
    }
}

/// A list of home cats unlocked by an account.
#[derive(Clone, Debug)]
pub struct AccountHomeCats(pub Vec<u64>);

impl AccountHomeCats {
    /// Asks for the unlocked home cats of the account the access token belongs to.
    pub fn get<C: ClientExecutor<Self>>(client: &C) -> (r: C::Result)
        ensures
            client.answers(request_to("/v2/account/home/cats"@, Authentication::Required, false), r),
    {
        client.send(resource("/v2/account/home/cats", Authentication::Required, false))
    }
}

/// A list of home nodes unlocked by an account.
#[derive(Clone, Debug)]
pub struct AccountHomeNodes(pub Vec<String>);

impl AccountHomeNodes {
    /// Asks for the unlocked home nodes of the account the access token belongs to.
    pub fn get<C: ClientExecutor<Self>>(client: &C) -> (r: C::Result)
        ensures
            client.answers(request_to("/v2/account/home/nodes"@, Authentication::Required, false), r),
    {
        client.send(resource("/v2/account/home/nodes", Authentication::Required, false))
    }
}

/// A list of items stored in the shared inventory slots of an account.
///
/// A `None` value indicates an empty slot.
#[derive(Clone, Debug)]
pub struct AccountInventory(pub Vec<Option<InventoryItem>>);

impl AccountInventory {
    /// Asks for the shared inventory slots of the account the access token belongs to.
    pub fn get<C: ClientExecutor<Self>>(client: &C) -> (r: C::Result)
        ensures
            client.answers(request_to("/v2/account/inventory"@, Authentication::Required, false), r),
    {
        client.send(resource("/v2/account/inventory", Authentication::Required, false))
    }
}

#[derive(Clone, Debug)]
pub struct InventoryItem {
    pub id: u64,
    pub count: u64,
    pub charges: Option<u64>,
    pub skin: Option<u64>,
    pub upgrades: Option<Vec<u64>>,
    pub infusions: Option<Vec<u64>>,
    pub binding: ItemBinding,
}

/// A list of legendary items unlocked in the account armory.
#[derive(Clone, Debug)]
pub struct AccountLegendaryArmory(pub Vec<LegendaryArmoryItem>);

impl AccountLegendaryArmory {
    /// Asks for the legendary armory of the account the access token belongs to.
    pub fn get<C: ClientExecutor<Self>>(client: &C) -> (r: C::Result)
        ensures
            client.answers(request_to("/v2/account/legendaryarmory"@, Authentication::Required, false), r),
    {
        client.send(resource("/v2/account/legendaryarmory", Authentication::Required, false))
    }
}

/// An item in unlocked in the legendary armory.
#[derive(Clone, Debug)]
pub struct LegendaryArmoryItem {
    /// The id of the legendary item.
    pub id: u64,
    /// The number of items unlocked. This value is in the range of 1 to 4.
    pub count: u8,
}

/// A list of unlocked mail carriers.
#[derive(Clone, Debug)]
pub struct AccountMailCarriers(pub Vec<u64>);

impl AccountMailCarriers {
    /// Asks for the unlocked mail carriers of the account the access token belongs to.
    pub fn get<C: ClientExecutor<Self>>(client: &C) -> (r: C::Result)
        ensures
            client.answers(request_to("/v2/account/mailcarriers"@, Authentication::Required, false), r),
    {
        client.send(resource("/v2/account/mailcarriers", Authentication::Required, false))
    }
}

#[derive(Clone, Debug)]
pub struct AccountMapChests(pub Vec<String>);

impl AccountMapChests {
    /// Asks for the map chests opened since the daily reset of the account the access token belongs to.
    pub fn get<C: ClientExecutor<Self>>(client: &C) -> (r: C::Result)
        ensures
            client.answers(request_to("/v2/account/mapchests"@, Authentication::Required, false), r),
    {
        client.send(resource("/v2/account/mapchests", Authentication::Required, false))
    }
}

/// A list of unlocked masteries.
#[derive(Clone, Debug)]
pub struct AccountMasteries(pub Vec<AccountMastery>);

impl AccountMasteries {
    /// Asks for the unlocked masteries of the account the access token belongs to.
    pub fn get<C: ClientExecutor<Self>>(client: &C) -> (r: C::Result)
        ensures
            client.answers(request_to("/v2/account/masteries"@, Authentication::Required, false), r),
    {
        client.send(resource("/v2/account/masteries", Authentication::Required, false))
    }
}

/// A single unlocked mastery.
#[derive(Clone, Debug)]
pub struct AccountMastery {
    /// The id of the mastery track.
    pub id: u64,
    /// The unlocked level of the mastery track.
    pub level: u8,
}

#[derive(Clone, Debug)]
pub struct AccountMasteryPoints {
    pub totals: Vec<RegionMasteryPoints>,
    pub unlocked: Vec<u64>,
}

impl AccountMasteryPoints {
    /// Asks for the mastery points of the account the access token belongs to.
    pub fn get<C: ClientExecutor<Self>>(client: &C) -> (r: C::Result)
        ensures
            client.answers(request_to("/v2/account/mastery/points"@, Authentication::Required, false), r),
    {
        client.send(resource("/v2/account/mastery/points", Authentication::Required, false))
    }
}

#[derive(Clone, Debug)]
pub struct RegionMasteryPoints {
    /// The mastery region.
    pub region: String,
    /// The number of mastery points spent in mastery tracks.
    pub spent: u64,
    /// The number of mastery points unlocked.
    pub earned: u64,
}

/// The account's material storage.
#[derive(Clone, Debug)]
pub struct AccountMaterials(pub Vec<AccountMaterial>);

impl AccountMaterials {
    /// Asks for the material storage of the account the access token belongs to.
    pub fn get<C: ClientExecutor<Self>>(client: &C) -> (r: C::Result)
        ensures
            client.answers(request_to("/v2/account/materials"@, Authentication::Required, false), r),
    {
        client.send(resource("/v2/account/materials", Authentication::Required, false))
    }
}

/// A material slot in the account's material storage.
#[derive(Clone, Debug)]
pub struct AccountMaterial {
    /// The id of the item.
    pub id: u64,
    /// The id of the category this item belongs to.
    pub category: u8,
    /// The binding of the item.
    pub binding: Option<ItemBinding>,
    /// The number of items of this material stored.
    pub count: u16,
}

#[derive(Clone, Debug)]
pub struct AccountMinis(pub Vec<u64>);

impl AccountMinis {
    /// Asks for the unlocked miniatures of the account the access token belongs to.
    pub fn get<C: ClientExecutor<Self>>(client: &C) -> (r: C::Result)
        ensures
            client.answers(request_to("/v2/account/minis"@, Authentication::Required, false), r),
    {
        client.send(resource("/v2/account/minis", Authentication::Required, false))
    }
}

/// A list of unlocked mount skins.
#[derive(Clone, Debug)]
pub struct AccountMountSkins(pub Vec<u64>);

impl AccountMountSkins {
    /// Asks for the unlocked mount skins of the account the access token belongs to.
    pub fn get<C: ClientExecutor<Self>>(client: &C) -> (r: C::Result)
        ensures
            client.answers(request_to("/v2/account/mounts/skins"@, Authentication::Required, false), r),
    {
        client.send(resource("/v2/account/mounts/skins", Authentication::Required, false))
    }
}

/// A list of unlocked mount types.
#[derive(Clone, Debug)]
pub struct AccountMountTypes(pub Vec<String>);

impl AccountMountTypes {
    /// Asks for the unlocked mount types of the account the access token belongs to.
    pub fn get<C: ClientExecutor<Self>>(client: &C) -> (r: C::Result)
        ensures
            client.answers(request_to("/v2/account/mounts/types"@, Authentication::Required, false), r),
    {
        client.send(resource("/v2/account/mounts/types", Authentication::Required, false))
    }
}

/// A list of unlocked novelties.
#[derive(Clone, Debug)]
pub struct AccountNovelties(pub Vec<u64>);

impl AccountNovelties {
    /// Asks for the unlocked novelties of the account the access token belongs to.
    pub fn get<C: ClientExecutor<Self>>(client: &C) -> (r: C::Result)
        ensures
            client.answers(request_to("/v2/account/novelties"@, Authentication::Required, false), r),
    {
        client.send(resource("/v2/account/novelties", Authentication::Required, false))
    }
}

/// A list of unlocked outfits.
#[derive(Clone, Debug)]
pub struct AccountOutfits(pub Vec<u64>);

impl AccountOutfits {
    /// Asks for the unlocked outfits of the account the access token belongs to.
    pub fn get<C: ClientExecutor<Self>>(client: &C) -> (r: C::Result)
        ensures
            client.answers(request_to("/v2/account/outfits"@, Authentication::Required, false), r),
    {
        client.send(resource("/v2/account/outfits", Authentication::Required, false))
    }
}

/// A list of account-wide progression.
#[derive(Clone, Debug)]
pub struct AccountProgression(pub Vec<AccountProgressionItem>);

impl AccountProgression {
    /// Asks for the account-wide progression of the account the access token belongs to.
    pub fn get<C: ClientExecutor<Self>>(client: &C) -> (r: C::Result)
        ensures
            client.answers(request_to("/v2/account/progression"@, Authentication::Required, false), r),
    {
        client.send(resource("/v2/account/progression", Authentication::Required, false))
    }
}

#[derive(Clone, Debug)]
pub struct AccountProgressionItem {
    /// The name of the progression item.
    pub id: String,
    /// The value of the progression item.
    pub value: u64,
}

/// A list of unlocked PvP heroes.
#[derive(Clone, Debug)]
pub struct AccountPvPHeroes(pub Vec<u64>);

impl AccountPvPHeroes {
    /// Asks for the unlocked PvP heroes of the account the access token belongs to.
    pub fn get<C: ClientExecutor<Self>>(client: &C) -> (r: C::Result)
        ensures
            client.answers(request_to("/v2/account/pvp/heroes"@, Authentication::Required, false), r),
    {
        client.send(resource("/v2/account/pvp/heroes", Authentication::Required, false))
    }
}

/// A list of raid encounters completed since weekly reset.
#[derive(Clone, Debug)]
pub struct AccountRaids(pub Vec<String>);

impl AccountRaids {
    /// Asks for the raid encounters completed since the weekly reset of the account the access token belongs to.
    pub fn get<C: ClientExecutor<Self>>(client: &C) -> (r: C::Result)
        ensures
            client.answers(request_to("/v2/account/raids"@, Authentication::Required, false), r),
    {
        client.send(resource("/v2/account/raids", Authentication::Required, false))
    }
}

/// A list of unlocked recipes.
#[derive(Clone, Debug)]
pub struct AccountRecipes(pub Vec<u64>);

impl AccountRecipes {
    /// Asks for the unlocked recipes of the account the access token belongs to.
    pub fn get<C: ClientExecutor<Self>>(client: &C) -> (r: C::Result)
        ensures
            client.answers(request_to("/v2/account/recipes"@, Authentication::Required, false), r),
    {
        client.send(resource("/v2/account/recipes", Authentication::Required, false))
    }
}

/// A list of unlocked skins.
#[derive(Clone, Debug)]
pub struct AccountSkins(pub Vec<u64>);

impl AccountSkins {
    /// Asks for the unlocked skins of the account the access token belongs to.
    pub fn get<C: ClientExecutor<Self>>(client: &C) -> (r: C::Result)
        ensures
            client.answers(request_to("/v2/account/skins"@, Authentication::Required, false), r),
    {
        client.send(resource("/v2/account/skins", Authentication::Required, false))
    }
}

/// A list of unlocked titles.
#[derive(Clone, Debug)]
pub struct AccountTitles(pub Vec<u64>);

impl AccountTitles {
    /// Asks for the unlocked titles of the account the access token belongs to.
    pub fn get<C: ClientExecutor<Self>>(client: &C) -> (r: C::Result)
        ensures
            client.answers(request_to("/v2/account/titles"@, Authentication::Required, false), r),
    {
        client.send(resource("/v2/account/titles", Authentication::Required, false))
    }
}

/// A list of currencies in an account's wallet.
#[derive(Clone, Debug)]
pub struct AccountWallet(pub Vec<AccountCurrency>);

impl AccountWallet {
    /// Asks for the wallet of the account the access token belongs to.
    pub fn get<C: ClientExecutor<Self>>(client: &C) -> (r: C::Result)
        ensures
            client.answers(request_to("/v2/account/wallet"@, Authentication::Required, false), r),
    {
        client.send(resource("/v2/account/wallet", Authentication::Required, false))
    }
}

/// A currency in an account's wallet.
#[derive(Clone, Debug)]
pub struct AccountCurrency {
    /// The id of the currency.
    pub id: u64,
    /// The amount of the currency.
    pub value: u64,
}

/// A list of world bosses completed since daily reset.
#[derive(Clone, Debug)]
pub struct AccountWorldBosses(pub Vec<String>);

impl AccountWorldBosses {
    /// Asks for the world bosses defeated since the daily reset of the account the access token belongs to.
    pub fn get<C: ClientExecutor<Self>>(client: &C) -> (r: C::Result)
        ensures
            client.answers(request_to("/v2/account/worldbosses"@, Authentication::Required, false), r),
    {
        client.send(resource("/v2/account/worldbosses", Authentication::Required, false))
    }
}

impl AccountLuck {
    /// Asks for the luck of the account the access token belongs to.
    pub fn get<C: ClientExecutor<Self>>(client: &C) -> (r: C::Result)
        ensures
            client.answers(request_to("/v2/account/luck"@, Authentication::Required, false), r),
    {
        client.send(resource("/v2/account/luck", Authentication::Required, false))
    }
}

impl AccountAchievement {
    /// Returns `true` if this achievement is unlocked.
    pub fn is_unlocked(&self) -> (r: bool)
        ensures
            r == match self.unlocked {
                Some(unlocked) => unlocked,
                None => true,
            },
    {
        match self.unlocked {
            Some(unlocked) => unlocked,
            None => true,
        }
    }
}

impl LegendaryArmoryItem {
    /// Whether the count is one the armory can hold: at least one.
    pub open spec fn well_formed(&self) -> bool {
        self.count >= 1
    }

    /// The item `id`, unlocked `count` times; `None` where `count` is zero.
    pub fn new(id: u64, count: u8) -> (r: Option<Self>)
        ensures
            count == 0 ==> r is None,
            count >= 1 ==> (r matches Some(item) && item.id == id && item.count == count
                && item.well_formed()),
    {
        if count == 0 {
            None
        } else {
            Some(Self { id, count })
        }
    }
}

/// One kind of content an account can have access to.
#[derive(Copy, Clone, Debug, PartialEq, Eq, Hash, Structural)]
pub enum Access {
    NoAccess,
    PlayForFree,
    GuildWars2,
    HeartOfThorns,
    PathOfFire,
    EndOfDragons,
}

impl Access {
    /// The bit that stands for the access in an [`AccountAccess`].
    pub open spec fn mask(self) -> u8 {
        match self {
            Access::NoAccess => 1,
            Access::PlayForFree => 2,
            Access::GuildWars2 => 4,
            Access::HeartOfThorns => 8,
            Access::PathOfFire => 16,
            Access::EndOfDragons => 32,
        }
    }

    /// The name the API gives the access.
    pub open spec fn label(self) -> Seq<char> {
        match self {
            Access::NoAccess => "None"@,
            Access::PlayForFree => "PlayForFree"@,
            Access::GuildWars2 => "GuildWars2"@,
            Access::HeartOfThorns => "HeartOfThorns"@,
            Access::PathOfFire => "PathOfFire"@,
            Access::EndOfDragons => "EndOfDragons"@,
        }
    }

    /// The access that the API calls `name`, if there is one.
    pub open spec fn named(name: Seq<char>) -> Option<Access> {
        if name == "None"@ {
            Some(Access::NoAccess)
        } else if name == "PlayForFree"@ {
            Some(Access::PlayForFree)
        } else if name == "GuildWars2"@ {
            Some(Access::GuildWars2)
        } else if name == "HeartOfThorns"@ {
            Some(Access::HeartOfThorns)
        } else if name == "PathOfFire"@ {
            Some(Access::PathOfFire)
        } else if name == "EndOfDragons"@ {
            Some(Access::EndOfDragons)
        } else {
            None
        }
    }

    /// The bit that stands for the access in an [`AccountAccess`].
    pub fn bit(self) -> (r: u8)
        ensures
            r == self.mask(),
    {
        match self {
            Access::NoAccess => 1,
            Access::PlayForFree => 2,
            Access::GuildWars2 => 4,
            Access::HeartOfThorns => 8,
            Access::PathOfFire => 16,
            Access::EndOfDragons => 32,
        }
    }

    /// The name the API gives the access.
    pub fn name(self) -> (r: &'static str)
        ensures
            r@ == self.label(),
    {
        match self {
            Access::NoAccess => "None",
            Access::PlayForFree => "PlayForFree",
            Access::GuildWars2 => "GuildWars2",
            Access::HeartOfThorns => "HeartOfThorns",
            Access::PathOfFire => "PathOfFire",
            Access::EndOfDragons => "EndOfDragons",
        }
    }

    /// The access that the API calls `name`, if there is one.
    pub fn from_name(name: &String) -> (r: Option<Access>)
        ensures
            r == Access::named(name@),
    {
        if text_is(name, "None") {
            Some(Access::NoAccess)
        } else if text_is(name, "PlayForFree") {
            Some(Access::PlayForFree)
        } else if text_is(name, "GuildWars2") {
            Some(Access::GuildWars2)
        } else if text_is(name, "HeartOfThorns") {
            Some(Access::HeartOfThorns)
        } else if text_is(name, "PathOfFire") {
            Some(Access::PathOfFire)
        } else if text_is(name, "EndOfDragons") {
            Some(Access::EndOfDragons)
        } else {
            None
        }
    }
}

/// No two accesses share a name, so each is found again by its own.
pub proof fn lemma_access_names(access: Access)
    ensures
        Access::named(access.label()) == Some(access),
{
    reveal_strlit("None");
    reveal_strlit("PlayForFree");
    reveal_strlit("GuildWars2");
    reveal_strlit("HeartOfThorns");
    reveal_strlit("PathOfFire");
    reveal_strlit("EndOfDragons");
    assert("None"@.len() == 4);
    assert("PlayForFree"@.len() == 11);
    assert("GuildWars2"@.len() == 10);
    assert("HeartOfThorns"@.len() == 13);
    assert("PathOfFire"@.len() == 10);
    assert("EndOfDragons"@.len() == 12);
    assert("GuildWars2"@[0] == 'G');
    assert("PathOfFire"@[0] == 'P');
}

/// What is written is what is held, but for "no access".
pub proof fn lemma_listed_members(held: Set<Access>, access: Access)
    ensures
        listed(held).contains(access) <==> held.contains(access) && access != Access::NoAccess,
{
    let s0 = Seq::<Access>::empty();
    let s1 = listed_with(s0, held, Access::PlayForFree);
    let s2 = listed_with(s1, held, Access::GuildWars2);
    let s3 = listed_with(s2, held, Access::HeartOfThorns);
    let s4 = listed_with(s3, held, Access::PathOfFire);
    let s5 = listed_with(s4, held, Access::EndOfDragons);
    assert(s5 == listed(held));
    lemma_listed_step(s0, held, Access::PlayForFree, access);
    lemma_listed_step(s1, held, Access::GuildWars2, access);
    lemma_listed_step(s2, held, Access::HeartOfThorns, access);
    lemma_listed_step(s3, held, Access::PathOfFire, access);
    lemma_listed_step(s4, held, Access::EndOfDragons, access);
    assert(!s0.contains(access));
}

proof fn lemma_listed_step(before: Seq<Access>, held: Set<Access>, next: Access, access: Access)
    ensures
        listed_with(before, held, next).contains(access) <==> before.contains(access) || (access
            == next && held.contains(next)),
{
    let after = listed_with(before, held, next);
    if held.contains(next) {
        assert(after[before.len() as int] == next);
        if before.contains(access) {
            let i = choose|i: int| 0 <= i < before.len() && before[i] == access;
            assert(after[i] == access);
        }
    }
}

/// Two accesses share a bit only where they are the same.
pub proof fn lemma_access_masks(a: Access, b: Access)
    ensures
        (a.mask() & b.mask() != 0) <==> a == b,
{
    assert(1u8 & 1u8 != 0 && 2u8 & 2u8 != 0 && 4u8 & 4u8 != 0 && 8u8 & 8u8 != 0 && 16u8 & 16u8 != 0
        && 32u8 & 32u8 != 0) by (bit_vector);
    assert(1u8 & 2u8 == 0 && 1u8 & 4u8 == 0 && 1u8 & 8u8 == 0 && 1u8 & 16u8 == 0 && 1u8 & 32u8 == 0)
        by (bit_vector);
    assert(2u8 & 1u8 == 0 && 2u8 & 4u8 == 0 && 2u8 & 8u8 == 0 && 2u8 & 16u8 == 0 && 2u8 & 32u8 == 0)
        by (bit_vector);
    assert(4u8 & 1u8 == 0 && 4u8 & 2u8 == 0 && 4u8 & 8u8 == 0 && 4u8 & 16u8 == 0 && 4u8 & 32u8 == 0)
        by (bit_vector);
    assert(8u8 & 1u8 == 0 && 8u8 & 2u8 == 0 && 8u8 & 4u8 == 0 && 8u8 & 16u8 == 0 && 8u8 & 32u8 == 0)
        by (bit_vector);
    assert(16u8 & 1u8 == 0 && 16u8 & 2u8 == 0 && 16u8 & 4u8 == 0 && 16u8 & 8u8 == 0 && 16u8 & 32u8
        == 0) by (bit_vector);
    assert(32u8 & 1u8 == 0 && 32u8 & 2u8 == 0 && 32u8 & 4u8 == 0 && 32u8 & 8u8 == 0 && 32u8 & 16u8
        == 0) by (bit_vector);
}

/// A list of content an [`Account`] has access to.
#[derive(Copy, Clone, Debug, PartialEq, Eq, Hash)]
pub struct AccountAccess(u8);

impl View for AccountAccess {
    type V = Set<Access>;

    closed spec fn view(&self) -> Set<Access> {
        Set::new(|access: Access| self.0 & access.mask() != 0)
    }
}

/// The accesses that `names` name.
pub open spec fn accesses_named(names: Seq<String>) -> Set<Access> {
    Set::new(
        |access: Access|
            exists|i: int| 0 <= i < names.len() && Access::named(#[trigger] names[i]@) == Some(access),
    )
}

/// Whether each of `names` names an access.
pub open spec fn all_named(names: Seq<String>) -> bool {
    forall|i: int| 0 <= i < names.len() ==> Access::named(#[trigger] names[i]@) is Some
}

/// `listed` with `access` at its end if `held` holds it.
pub open spec fn listed_with(listed: Seq<Access>, held: Set<Access>, access: Access) -> Seq<Access> {
    if held.contains(access) {
        listed.push(access)
    } else {
        listed
    }
}

/// The accesses of `held` that are written out, in the order in which they
/// are written. "No access" is read and never written.
pub open spec fn listed(held: Set<Access>) -> Seq<Access> {
    listed_with(
        listed_with(
            listed_with(
                listed_with(
                    listed_with(Seq::empty(), held, Access::PlayForFree),
                    held,
                    Access::GuildWars2,
                ),
                held,
                Access::HeartOfThorns,
            ),
            held,
            Access::PathOfFire,
        ),
        held,
        Access::EndOfDragons,
    )
}

/// How many kinds of access `held` holds.
pub open spec fn access_count(held: Set<Access>) -> nat {
    let one = |access: Access| if held.contains(access) { 1nat } else { 0nat };
    one(Access::NoAccess) + one(Access::PlayForFree) + one(Access::GuildWars2) + one(
        Access::HeartOfThorns,
    ) + one(Access::PathOfFire) + one(Access::EndOfDragons)
}

impl AccountAccess {
    /// No access at all.
    pub fn empty() -> (r: Self)
        ensures
            r@ == Set::<Access>::empty(),
    {
        let r = AccountAccess(0);
        proof {
            assert forall|access: Access| !r@.contains(access) by {
                let m = access.mask();
                assert(0u8 & m == 0) by (bit_vector);
            }
            assert(r@ =~= Set::<Access>::empty());
        }
        r
    }

    /// The same accesses and `access`.
    pub fn with(self, access: Access) -> (r: Self)
        ensures
            r@ == self@.insert(access),
    {
        let r = AccountAccess(self.0 | access.bit());
        proof {
            let s = self.0;
            let m = access.mask();
            assert forall|other: Access| r@.contains(other) <==> self@.insert(access).contains(
                other,
            ) by {
                let k = other.mask();
                lemma_access_masks(access, other);
                assert(((s | m) & k != 0) <==> ((s & k != 0) || (m & k != 0))) by (bit_vector);
            }
            assert(r@ =~= self@.insert(access));
        }
        r
    }

    /// Whether the account has `access`.
    pub fn has(&self, access: Access) -> (r: bool)
        ensures
            r == self@.contains(access),
    {
        self.0 & access.bit() != 0
    }

    /// How many kinds of access the account has.
    pub fn len(&self) -> (r: usize)
        ensures
            r == access_count(self@),
    {
        let mut n: usize = 0;
        if self.none() {
            n = n + 1;
        }
        if self.play_for_free() {
            n = n + 1;
        }
        if self.guild_wars_2() {
            n = n + 1;
        }
        if self.heart_of_thorns() {
            n = n + 1;
        }
        if self.path_of_fire() {
            n = n + 1;
        }
        if self.end_of_dragons() {
            n = n + 1;
        }
        n
    }

    /// Returns `true` if the account has no access.
    ///
    /// Note that this probably shouldn't ever happen.
    pub fn none(&self) -> (r: bool)
        ensures
            r == self@.contains(Access::NoAccess),
    {
        self.has(Access::NoAccess)
    }

    /// Returns `true` if the account has free to play access.
    pub fn play_for_free(&self) -> (r: bool)
        ensures
            r == self@.contains(Access::PlayForFree),
    {
        self.has(Access::PlayForFree)
    }

    /// Returns `true` if the account has access to the base game of Guild Wars 2.
    pub fn guild_wars_2(&self) -> (r: bool)
        ensures
            r == self@.contains(Access::GuildWars2),
    {
        self.has(Access::GuildWars2)
    }

    /// Returns `true` if the account has access to the Heart of Thorns expansion.
    pub fn heart_of_thorns(&self) -> (r: bool)
        ensures
            r == self@.contains(Access::HeartOfThorns),
    {
        self.has(Access::HeartOfThorns)
    }

    /// Returns `true` if the account has access to the Path of Fire expansion.
    pub fn path_of_fire(&self) -> (r: bool)
        ensures
            r == self@.contains(Access::PathOfFire),
    {
        self.has(Access::PathOfFire)
    }

    /// Returns `true` if the account has access to the End of Dragons expansion.
    pub fn end_of_dragons(&self) -> (r: bool)
        ensures
            r == self@.contains(Access::EndOfDragons),
    {
        self.has(Access::EndOfDragons)
    }

    /// Reads the list of access names the API sends. Each name adds its
    /// access; a name that is none of the six is an error.
    pub fn from_names(names: &Vec<String>) -> (r: Result<Self, JsonError>)
        ensures
            all_named(names@) ==> (r matches Ok(access) && access@ == accesses_named(names@)),
            !all_named(names@) ==> (r matches Err(err) && err.message@
                == "invalid account access"@),
    {
        let mut state = AccountAccess::empty();
        let mut i: usize = 0;
        while i < names.len()
            invariant
                0 <= i <= names.len(),
                all_named(names@.take(i as int)),
                state@ == accesses_named(names@.take(i as int)),
            decreases names.len() - i,
        {
            let ghost before = names@.take(i as int);
            let ghost now = names@.take(i + 1);
            match Access::from_name(&names[i]) {
                Some(access) => {
                    state = state.with(access);
                    proof {
                        assert(now[i as int] == names@[i as int]);
                        assert forall|j: int| 0 <= j < now.len() implies Access::named(
                            #[trigger] now[j]@,
                        ) is Some by {
                            if j < i {
                                assert(before[j] == now[j]);
                            }
                        }
                        assert forall|other: Access| state@.contains(other) <==> accesses_named(
                            now,
                        ).contains(other) by {
                            if accesses_named(before).contains(other) {
                                let j = choose|j: int|
                                    0 <= j < before.len() && Access::named(#[trigger] before[j]@)
                                        == Some(other);
                                assert(now[j] == before[j]);
                            }
                            if accesses_named(now).contains(other) {
                                let j = choose|j: int|
                                    0 <= j < now.len() && Access::named(#[trigger] now[j]@) == Some(
                                        other,
                                    );
                                if j < i {
                                    assert(before[j] == now[j]);
                                }
                            }
                        }
                        assert(state@ =~= accesses_named(now));
                    }
                },
                None => {
                    return Err(JsonError { message: String::from_str("invalid account access") });
                },
            }
            i += 1;
        }
        assert(names@.take(i as int) =~= names@);
        Ok(state)
    }

    /// Writes the accesses as the list of names the API would send, in the
    /// order free to play, base game, then the expansions as they came out.
    pub fn names(&self) -> (r: Vec<String>)
        ensures
            r@.len() == listed(self@).len(),
            forall|i: int| 0 <= i < r@.len() ==> (#[trigger] r@[i])@ == listed(self@)[i].label(),
    {
        let mut out: Vec<String> = Vec::new();
        if self.has(Access::PlayForFree) {
            out.push(String::from_str(Access::PlayForFree.name()));
        }
        if self.has(Access::GuildWars2) {
            out.push(String::from_str(Access::GuildWars2.name()));
        }
        if self.has(Access::HeartOfThorns) {
            out.push(String::from_str(Access::HeartOfThorns.name()));
        }
        if self.has(Access::PathOfFire) {
            out.push(String::from_str(Access::PathOfFire.name()));
        }
        if self.has(Access::EndOfDragons) {
            out.push(String::from_str(Access::EndOfDragons.name()));
        }
        out
    }
}

/// Reading back what was written gives the same accesses, but for "no
/// access", which is never written.
pub proof fn lemma_access_round_trip(held: Set<Access>, names: Seq<String>)
    requires
        names.len() == listed(held).len(),
        forall|i: int| 0 <= i < names.len() ==> (#[trigger] names[i])@ == listed(held)[i].label(),
    ensures
        all_named(names),
        accesses_named(names) == held.remove(Access::NoAccess),
{
    let shown = listed(held);
    assert forall|i: int| 0 <= i < names.len() implies Access::named(#[trigger] names[i]@) == Some(
        shown[i],
    ) by {
        lemma_access_names(shown[i]);
    }
    assert forall|access: Access| accesses_named(names).contains(access) <==> held.remove(
        Access::NoAccess,
    ).contains(access) by {
        if accesses_named(names).contains(access) {
            let i = choose|i: int|
                0 <= i < names.len() && Access::named(#[trigger] names[i]@) == Some(access);
            assert(shown[i] == access);
            assert(shown.contains(access));
        }
        lemma_listed_members(held, access);
        if held.remove(Access::NoAccess).contains(access) {
            let i = choose|i: int| 0 <= i < shown.len() && shown[i] == access;
            assert(Access::named(names[i]@) == Some(access));
        }
    }
    assert(accesses_named(names) =~= held.remove(Access::NoAccess));
}

/// The current luck value of an account.
#[derive(Copy, Clone, Debug, PartialEq, Eq, Structural)]
pub struct AccountLuck(pub u64);

/// A value of the document the luck is sent in.
#[derive(Clone, Debug)]
pub enum LuckValue {
    /// The JSON `null`.
    Null,
    /// A JSON string.
    Text(String),
    /// A JSON number that is an unsigned integer.
    Number(u64),
}

/// A member of an object of the document the luck is sent in.
#[derive(Clone, Debug)]
pub struct LuckEntry {
    pub key: String,
    pub value: LuckValue,
}

/// What the luck document stands for, or the complaint about it.
///
/// The document is a list. An empty list is no luck at all. Otherwise its
/// first element counts: an object whose first member is `id` with the
/// text `luck` and whose second member is `value` with a number.
pub open spec fn luck_read(elements: Seq<Vec<LuckEntry>>) -> Result<u64, Seq<char>> {
    if elements.len() == 0 {
        Ok(0)
    } else {
        let entries = elements[0]@;
        if entries.len() == 0 {
            Err("missing fields id, value"@)
        } else if entries[0].key@ != "id"@ {
            Err("expected a luck id value"@)
        } else if !(entries[0].value matches LuckValue::Text(text) && text@ == "luck"@) {
            Err("expected a luck id value"@)
        } else if entries.len() == 1 {
            Err("missing fields value"@)
        } else if entries[1].key@ != "value"@ {
            Err("expected a value"@)
        } else {
            match entries[1].value {
                LuckValue::Number(value) => Ok(value),
                _ => Err("expected a value"@),
            }
        }
    }
}

/// Whether `elements` is the document that stands for `luck`: the empty
/// list for zero, else one object with the members `id` and `value`.
pub open spec fn luck_written(luck: u64, elements: Seq<Vec<LuckEntry>>) -> bool {
    if luck == 0 {
        elements.len() == 0
    } else {
        &&& elements.len() == 1
        &&& elements[0]@.len() == 2
        &&& elements[0]@[0].key@ == "id"@
        &&& elements[0]@[0].value matches LuckValue::Text(text) && text@ == "luck"@
        &&& elements[0]@[1].key@ == "value"@
        &&& elements[0]@[1].value == LuckValue::Number(luck)
    }
}

impl AccountLuck {
    /// Reads the luck from the document the API sends.
    pub fn decode(elements: &Vec<Vec<LuckEntry>>) -> (r: Result<Self, JsonError>)
        ensures
            match luck_read(elements@) {
                Ok(value) => r == Ok::<Self, JsonError>(AccountLuck(value)),
                Err(message) => r matches Err(err) && err.message@ == message,
            },
    {
        if elements.len() == 0 {
            return Ok(AccountLuck(0));
        }
        let entries = &elements[0];
        if entries.len() == 0 {
            return Err(JsonError { message: String::from_str("missing fields id, value") });
        }
        if !text_is(&entries[0].key, "id") {
            return Err(JsonError { message: String::from_str("expected a luck id value") });
        }
        let is_luck = match &entries[0].value {
            LuckValue::Text(text) => text_is(text, "luck"),
            _ => false,
        };
        if !is_luck {
            return Err(JsonError { message: String::from_str("expected a luck id value") });
        }
        if entries.len() == 1 {
            return Err(JsonError { message: String::from_str("missing fields value") });
        }
        if !text_is(&entries[1].key, "value") {
            return Err(JsonError { message: String::from_str("expected a value") });
        }
        match &entries[1].value {
            LuckValue::Number(value) => Ok(AccountLuck(*value)),
            _ => Err(JsonError { message: String::from_str("expected a value") }),
        }
    }

    /// Writes the luck as the document the API would send.
    pub fn encode(&self) -> (r: Vec<Vec<LuckEntry>>)
        ensures
            luck_written(self.0, r@),
    {
        let mut elements: Vec<Vec<LuckEntry>> = Vec::new();
        if self.0 != 0 {
            let mut entries: Vec<LuckEntry> = Vec::new();
            entries.push(
                LuckEntry {
                    key: String::from_str("id"),
                    value: LuckValue::Text(String::from_str("luck")),
                },
            );
            entries.push(
                LuckEntry { key: String::from_str("value"), value: LuckValue::Number(self.0) },
            );
            elements.push(entries);
        }
        elements
    }
}

/// Reading back the document that was written for a luck value gives that
/// value.
pub proof fn lemma_luck_round_trip(luck: u64, elements: Seq<Vec<LuckEntry>>)
    requires
        luck_written(luck, elements),
    ensures
        luck_read(elements) == Ok::<u64, Seq<char>>(luck),
{
}

} // verus!
