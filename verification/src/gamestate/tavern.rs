use vstd::prelude::*;

use crate::command::{DiceReward, DiceType, ExpeditionSetting};
use crate::error::{SFError, short_err};
use crate::gamestate::items::{ITEM_PARSE_LEN, Item, ItemType};

use crate::gamestate::{ServerTime, expedition_state_short, local_now, short_error_in};
use crate::gamestate::rewards::Reward;
use crate::misc::{cget, csiget_u8, csiget_u32, csiget_i32, soft_into_u32, cstget, skip, soft_u8, soft_u32, soft_i32, soft_into_u8, soft_into_i32};

verus! {

/// The background or location of a quest, or another activity.
#[derive(Debug, Clone, Copy, PartialEq, Eq, Structural, Hash)]
pub enum Location {
    SprawlingJungle,
    SkullIsland,
    EvernightForest,
    StumbleSteppe,
    ShadowrockMountain,
    SplitCanyon,
    BlackWaterSwamp,
    FloodedCaldwell,
    TuskMountain,
    MoldyForest,
    Nevermoor,
    BustedLands,
    Erogenion,
    Magmaron,
    SunburnDesert,
    Gnarogrim,
    Northrunt,
    BlackForest,
    Maerwynn,
    PlainsOfOzKorr,
    RottenLands,
}

impl Default for Location {
    fn default() -> (r: Self)
        ensures
            r == Location::SprawlingJungle,
    {
        Location::SprawlingJungle
    }
}

impl Location {
    /// The location with the number the server uses for it (1 to 21).
    pub open spec fn spec_from_i64(v: i64) -> Option<Location> {
        match v {
            1 => Some(Location::SprawlingJungle),
            2 => Some(Location::SkullIsland),
            3 => Some(Location::EvernightForest),
            4 => Some(Location::StumbleSteppe),
            5 => Some(Location::ShadowrockMountain),
            6 => Some(Location::SplitCanyon),
            7 => Some(Location::BlackWaterSwamp),
            8 => Some(Location::FloodedCaldwell),
            9 => Some(Location::TuskMountain),
            10 => Some(Location::MoldyForest),
            11 => Some(Location::Nevermoor),
            12 => Some(Location::BustedLands),
            13 => Some(Location::Erogenion),
            14 => Some(Location::Magmaron),
            15 => Some(Location::SunburnDesert),
            16 => Some(Location::Gnarogrim),
            17 => Some(Location::Northrunt),
            18 => Some(Location::BlackForest),
            19 => Some(Location::Maerwynn),
            20 => Some(Location::PlainsOfOzKorr),
            21 => Some(Location::RottenLands),
            _ => None,
        }
    }

    /// The location with the number the server uses for it (1 to 21).
    pub fn from_i64(v: i64) -> (r: Option<Location>)
        ensures
            r == Self::spec_from_i64(v),
    {
        match v {
            1 => Some(Location::SprawlingJungle),
            2 => Some(Location::SkullIsland),
            3 => Some(Location::EvernightForest),
            4 => Some(Location::StumbleSteppe),
            5 => Some(Location::ShadowrockMountain),
            6 => Some(Location::SplitCanyon),
            7 => Some(Location::BlackWaterSwamp),
            8 => Some(Location::FloodedCaldwell),
            9 => Some(Location::TuskMountain),
            10 => Some(Location::MoldyForest),
            11 => Some(Location::Nevermoor),
            12 => Some(Location::BustedLands),
            13 => Some(Location::Erogenion),
            14 => Some(Location::Magmaron),
            15 => Some(Location::SunburnDesert),
            16 => Some(Location::Gnarogrim),
            17 => Some(Location::Northrunt),
            18 => Some(Location::BlackForest),
            19 => Some(Location::Maerwynn),
            20 => Some(Location::PlainsOfOzKorr),
            21 => Some(Location::RottenLands),
            _ => None,
        }
    }

    /// The location with the given number, or the default location.
    pub open spec fn spec_or_default(v: i64) -> Location {
        match Self::spec_from_i64(v) {
            Some(l) => l,
            None => Location::SprawlingJungle,
        }
    }

    /// The location with the given number, or the default location.
    pub fn from_i64_or_default(v: i64) -> (r: Location)
        ensures
            r == Self::spec_or_default(v),
    {
        match Self::from_i64(v) {
            Some(l) => l,
            None => Location::SprawlingJungle,
        }
    }
}

/// The monster id that a raw value stands for: the raw value is the negated
/// id; values out of range give 0.
pub open spec fn spec_monster_id(raw: i64) -> u16 {
    if -65535 <= raw <= 0 { (-raw) as u16 } else { 0 }
}

fn monster_id_of(raw: i64) -> (r: u16)
    ensures
        r == spec_monster_id(raw),
{
    if -65535 <= raw && raw <= 0 {
        (-raw) as u16
    } else {
        0
    }
}

/// One of the three possible quests in the tavern.
#[derive(Debug, Clone, Copy, PartialEq, Eq)]
pub struct Quest {
    /// The length of this quest in sec (without item enchantment)
    pub base_length: u32,
    /// The silver reward for this quest (without item enchantment)
    pub base_silver: u32,
    /// The xp reward for this quest (without item enchantment)
    pub base_experience: u32,
    /// The item reward for this quest
    pub item: Option<Item>,
    /// The place where this quest takes place. Useful for the scrapbook
    pub location_id: Location,
    /// The enemy you fight in this quest. Useful for the scrapbook
    pub monster_id: u16,
}

impl Default for Quest {
    fn default() -> (r: Self)
        ensures
            r == Quest::spec_default(),
    {
        Quest {
            base_length: 0,
            base_silver: 0,
            base_experience: 0,
            item: None,
            location_id: Location::SprawlingJungle,
            monster_id: 0,
        }
    }
}

/// The item that the values at the start of `d` describe, as `Item::parse`
/// gives it.
pub open spec fn spec_item_at(d: Seq<i64>) -> Option<Item> {
    match ItemType::spec_parse(d) {
        Some(typ) => Some(Item::spec_parse(d, typ)),
        None => None,
    }
}

impl Quest {
    /// A quest with no reward, in the first location.
    pub open spec fn spec_default() -> Quest {
        Quest {
            base_length: 0,
            base_silver: 0,
            base_experience: 0,
            item: None,
            location_id: Location::SprawlingJungle,
            monster_id: 0,
        }
    }

    /// Holds of the monsters of the red quests, which have a special enemy
    /// and extra rewards.
    pub open spec fn spec_is_red(self) -> bool {
        self.monster_id == 139 || self.monster_id == 145 || self.monster_id == 148
            || self.monster_id == 152 || self.monster_id == 155 || self.monster_id == 157
    }

    /// Checks if this is a red quest, which means a special enemy and extra
    /// rewards.
    pub fn is_red(&self) -> (r: bool)
        ensures
            r == self.spec_is_red(),
    {
        match self.monster_id {
            139 | 145 | 148 | 152 | 155 | 157 => true,
            _ => false,
        }
    }

    /// The quest that `d` describes, as the quest with index `quest_index`.
    pub open spec fn spec_parse(d: Seq<i64>, quest_index: int) -> Quest {
        Quest {
            base_length: soft_u32(d[6], 100_000),
            base_silver: soft_u32(d[48], 0),
            base_experience: soft_u32(d[45], 0),
            item: spec_item_at(d.skip(9 + quest_index * 11)),
            location_id: Location::spec_or_default(d[3]),
            monster_id: spec_monster_id(d[0]),
        }
    }

    /// Parses the quest with index `quest_index` from the values of `data`.
    /// The values run to position 48; the item of the quest starts at
    /// `9 + 11 * quest_index`.
    pub fn parse(data: &[i64], quest_index: usize) -> (r: Result<Quest, SFError>)
        requires
            quest_index * 11 + 9 <= usize::MAX,
        ensures
            r is Ok ==> r == Ok::<Quest, SFError>(Self::spec_parse(data@, quest_index as int)),
            data@.len() > 48 && data@.len() >= 9 + quest_index * 11 + ITEM_PARSE_LEN ==> r is Ok,
            data@.len() <= 48 || data@.len() < 9 + quest_index * 11 + 4 ==> r is Err,
    {
        let item_start = skip(data, 9 + quest_index * 11, "quest item")?;
        let base_length = csiget_u32(data, 6, "quest length", 100_000)?;
        let base_silver = csiget_u32(data, 48, "quest silver", 0)?;
        let base_experience = csiget_u32(data, 45, "quest xp", 0)?;
        let item = Item::parse(item_start)?;
        let location_id = Location::from_i64_or_default(cget(data, 3, "quest location id")?);
        let monster_id = monster_id_of(cget(data, 0, "quest monster id")?);
        Ok(Quest { base_length, base_silver, base_experience, item, location_id, monster_id })
    }
}

/// The thing the player is currently doing.
#[derive(Debug, Clone, Copy, PartialEq, Eq, Structural)]
pub enum CurrentAction {
    /// The character is not doing anything and can basically do anything
    Idle,
    /// The character is working on guard duty right now. Once `busy_until`
    /// has passed, you can send a `WorkFinish` command
    CityGuard {
        /// The total amount of hours the character has decided to work
        hours: u8,
        /// The time at which the guard job will be over
        busy_until: i64,
    },
    /// The character is doing a quest right now. Once `busy_until` has
    /// passed, you can send a `FinishQuest` command
    Quest {
        /// 0-2 index into tavern quest array
        quest_idx: u8,
        /// The time, at which the quest can be finished
        busy_until: i64,
    },
    /// The player is currently doing an expedition. This can be wrong, if the
    /// last expedition timer elapsed since sending the last request
    Expedition,
    /// The character is not able to do something, but we do not know what.
    /// Most likely something from a new update
    Unkown(Option<i64>),
}

impl Default for CurrentAction {
    fn default() -> (r: Self)
        ensures
            r == CurrentAction::Idle,
    {
        CurrentAction::Idle
    }
}

impl CurrentAction {
    /// The action that an action id, its extra value and its end time stand
    /// for.
    pub open spec fn spec_parse(id: i64, sec: i64, busy: Option<i64>) -> CurrentAction {
        if id == 0 && busy is None {
            CurrentAction::Idle
        } else if id == 1 && busy is Some {
            CurrentAction::CityGuard { hours: soft_u8(sec, 10), busy_until: busy->0 }
        } else if id == 2 && busy is Some {
            CurrentAction::Quest { quest_idx: soft_u8(sec, 0), busy_until: busy->0 }
        } else if id == 4 && busy is None {
            CurrentAction::Expedition
        } else {
            CurrentAction::Unkown(busy)
        }
    }

    /// The action that an action id, its extra value and its end time stand
    /// for.
    pub fn parse(id: i64, sec: i64, busy: Option<i64>) -> (r: Self)
        ensures
            r == Self::spec_parse(id, sec, busy),
    {
        match busy {
            None => {
                if id == 0 {
                    CurrentAction::Idle
                } else if id == 4 {
                    CurrentAction::Expedition
                } else {
                    CurrentAction::Unkown(busy)
                }
            },
            Some(busy_until) => {
                if id == 1 {
                    CurrentAction::CityGuard {
                        hours: soft_into_u8(sec, "city guard time", 10),
                        busy_until,
                    }
                } else if id == 2 {
                    CurrentAction::Quest { quest_idx: soft_into_u8(sec, "quest index", 0), busy_until }
                } else {
                    CurrentAction::Unkown(busy)
                }
            },
        }
    }
}

/// The unlocked toilet, that you can throw items into.
#[derive(Debug, Clone, Copy, PartialEq, Eq, Structural)]
pub struct Toilet {
    /// Has the toilet been used today?
    pub used: bool,
    /// The level the aura is at currently
    pub aura: u32,
    /// The amount of mana currently in the toilet
    pub mana_currently: u32,
    /// The total amount of mana you have to collect to flush the toilet
    pub mana_total: u32,
}

impl Default for Toilet {
    fn default() -> (r: Self)
        ensures
            r == (Toilet { used: false, aura: 0, mana_currently: 0, mana_total: 0 }),
    {
        Toilet { used: false, aura: 0, mana_currently: 0, mana_total: 0 }
    }
}

impl Toilet {
    /// Updates the aura and the mana from the player save (positions 491,
    /// 492 and 515).
    pub fn update(&mut self, data: &[i64]) -> (r: Result<(), SFError>)
        ensures
            data@.len() > 515 <==> r is Ok,
            r is Ok ==> *final(self) == (Toilet {
                used: old(self).used,
                aura: soft_u32(data@[491], 0),
                mana_currently: soft_u32(data@[492], 0),
                mana_total: soft_u32(data@[515], 1000),
            }),
            final(self).used == old(self).used,
    {
        self.aura = csiget_u32(data, 491, "aura level", 0)?;
        self.mana_currently = csiget_u32(data, 492, "mana now", 0)?;
        self.mana_total = csiget_u32(data, 515, "mana missing", 1000)?;
        Ok(())
    }
}

/// The type of something you can encounter on the expedition. Can also be
/// found as the target, or in the items section.
#[derive(Debug, Clone, Copy, PartialEq, Eq, Structural)]
pub enum ExpeditionThing {
    Unknown,
    Dummy1,
    Dummy2,
    Dumy3,
    ToiletPaper,
    Bait,
    /// New name: `DragonTaming`
    Dragon,
    CampFire,
    Phoenix,
    /// New name: `ExtinguishedCampfire`
    BurntCampfire,
    UnicornHorn,
    Donkey,
    Rainbow,
    /// New name: `UnicornWhisperer`
    Unicorn,
    CupCake,
    /// New name: `SucklingPig`
    Cake,
    SmallHurdle,
    BigHurdle,
    /// New name: `PodiumClimber`
    WinnersPodium,
    Socks,
    ClothPile,
    /// New name: `RevealingLady`
    RevealingCouple,
    SwordInStone,
    BentSword,
    BrokenSword,
    Well,
    Girl,
    /// New name: `BewitchedStew`
    Balloons,
    Prince,
    /// New name: `ToxicFountainCure`
    RoyalFrog,
    Hand,
    Feet,
    Body,
    /// New name: `BuildAFriend`
    Klaus,
    Key,
    Suitcase,
    DummyBounty,
    ToiletPaperBounty,
    DragonBounty,
    BurntCampfireBounty,
    UnicornBounty,
    WinnerPodiumBounty,
    RevealingCoupleBounty,
    BrokenSwordBounty,
    BaloonBounty,
    FrogBounty,
    KlausBounty,
}

impl Default for ExpeditionThing {
    fn default() -> (r: Self)
        ensures
            r == ExpeditionThing::Unknown,
    {
        ExpeditionThing::Unknown
    }
}

impl ExpeditionThing {
    /// The number the server uses for this thing.
    pub open spec fn spec_id(self) -> int {
        match self {
            ExpeditionThing::Unknown => 0,
            ExpeditionThing::Dummy1 => 1,
            ExpeditionThing::Dummy2 => 2,
            ExpeditionThing::Dumy3 => 3,
            ExpeditionThing::ToiletPaper => 11,
            ExpeditionThing::Bait => 21,
            ExpeditionThing::Dragon => 22,
            ExpeditionThing::CampFire => 31,
            ExpeditionThing::Phoenix => 32,
            ExpeditionThing::BurntCampfire => 33,
            ExpeditionThing::UnicornHorn => 41,
            ExpeditionThing::Donkey => 42,
            ExpeditionThing::Rainbow => 43,
            ExpeditionThing::Unicorn => 44,
            ExpeditionThing::CupCake => 51,
            ExpeditionThing::Cake => 61,
            ExpeditionThing::SmallHurdle => 71,
            ExpeditionThing::BigHurdle => 72,
            ExpeditionThing::WinnersPodium => 73,
            ExpeditionThing::Socks => 81,
            ExpeditionThing::ClothPile => 82,
            ExpeditionThing::RevealingCouple => 83,
            ExpeditionThing::SwordInStone => 91,
            ExpeditionThing::BentSword => 92,
            ExpeditionThing::BrokenSword => 93,
            ExpeditionThing::Well => 101,
            ExpeditionThing::Girl => 102,
            ExpeditionThing::Balloons => 103,
            ExpeditionThing::Prince => 111,
            ExpeditionThing::RoyalFrog => 112,
            ExpeditionThing::Hand => 121,
            ExpeditionThing::Feet => 122,
            ExpeditionThing::Body => 123,
            ExpeditionThing::Klaus => 124,
            ExpeditionThing::Key => 131,
            ExpeditionThing::Suitcase => 132,
            ExpeditionThing::DummyBounty => 1000,
            ExpeditionThing::ToiletPaperBounty => 1001,
            ExpeditionThing::DragonBounty => 1002,
            ExpeditionThing::BurntCampfireBounty => 1003,
            ExpeditionThing::UnicornBounty => 1004,
            ExpeditionThing::WinnerPodiumBounty => 1007,
            ExpeditionThing::RevealingCoupleBounty => 1008,
            ExpeditionThing::BrokenSwordBounty => 1009,
            ExpeditionThing::BaloonBounty => 1010,
            ExpeditionThing::FrogBounty => 1011,
            ExpeditionThing::KlausBounty => 1012,
        }
    }

    /// The number the server uses for this thing.
    pub fn id(&self) -> (r: i64)
        ensures
            r == self.spec_id(),
    {
        match self {
            ExpeditionThing::Unknown => 0,
            ExpeditionThing::Dummy1 => 1,
            ExpeditionThing::Dummy2 => 2,
            ExpeditionThing::Dumy3 => 3,
            ExpeditionThing::ToiletPaper => 11,
            ExpeditionThing::Bait => 21,
            ExpeditionThing::Dragon => 22,
            ExpeditionThing::CampFire => 31,
            ExpeditionThing::Phoenix => 32,
            ExpeditionThing::BurntCampfire => 33,
            ExpeditionThing::UnicornHorn => 41,
            ExpeditionThing::Donkey => 42,
            ExpeditionThing::Rainbow => 43,
            ExpeditionThing::Unicorn => 44,
            ExpeditionThing::CupCake => 51,
            ExpeditionThing::Cake => 61,
            ExpeditionThing::SmallHurdle => 71,
            ExpeditionThing::BigHurdle => 72,
            ExpeditionThing::WinnersPodium => 73,
            ExpeditionThing::Socks => 81,
            ExpeditionThing::ClothPile => 82,
            ExpeditionThing::RevealingCouple => 83,
            ExpeditionThing::SwordInStone => 91,
            ExpeditionThing::BentSword => 92,
            ExpeditionThing::BrokenSword => 93,
            ExpeditionThing::Well => 101,
            ExpeditionThing::Girl => 102,
            ExpeditionThing::Balloons => 103,
            ExpeditionThing::Prince => 111,
            ExpeditionThing::RoyalFrog => 112,
            ExpeditionThing::Hand => 121,
            ExpeditionThing::Feet => 122,
            ExpeditionThing::Body => 123,
            ExpeditionThing::Klaus => 124,
            ExpeditionThing::Key => 131,
            ExpeditionThing::Suitcase => 132,
            ExpeditionThing::DummyBounty => 1000,
            ExpeditionThing::ToiletPaperBounty => 1001,
            ExpeditionThing::DragonBounty => 1002,
            ExpeditionThing::BurntCampfireBounty => 1003,
            ExpeditionThing::UnicornBounty => 1004,
            ExpeditionThing::WinnerPodiumBounty => 1007,
            ExpeditionThing::RevealingCoupleBounty => 1008,
            ExpeditionThing::BrokenSwordBounty => 1009,
            ExpeditionThing::BaloonBounty => 1010,
            ExpeditionThing::FrogBounty => 1011,
            ExpeditionThing::KlausBounty => 1012,
        }
    }

    /// The thing with the given number, if there is one.
    pub open spec fn spec_from_i64(v: i64) -> Option<ExpeditionThing> {
        match v {
            0 => Some(ExpeditionThing::Unknown),
            1 => Some(ExpeditionThing::Dummy1),
            2 => Some(ExpeditionThing::Dummy2),
            3 => Some(ExpeditionThing::Dumy3),
            11 => Some(ExpeditionThing::ToiletPaper),
            21 => Some(ExpeditionThing::Bait),
            22 => Some(ExpeditionThing::Dragon),
            31 => Some(ExpeditionThing::CampFire),
            32 => Some(ExpeditionThing::Phoenix),
            33 => Some(ExpeditionThing::BurntCampfire),
            41 => Some(ExpeditionThing::UnicornHorn),
            42 => Some(ExpeditionThing::Donkey),
            43 => Some(ExpeditionThing::Rainbow),
            44 => Some(ExpeditionThing::Unicorn),
            51 => Some(ExpeditionThing::CupCake),
            61 => Some(ExpeditionThing::Cake),
            71 => Some(ExpeditionThing::SmallHurdle),
            72 => Some(ExpeditionThing::BigHurdle),
            73 => Some(ExpeditionThing::WinnersPodium),
            81 => Some(ExpeditionThing::Socks),
            82 => Some(ExpeditionThing::ClothPile),
            83 => Some(ExpeditionThing::RevealingCouple),
            91 => Some(ExpeditionThing::SwordInStone),
            92 => Some(ExpeditionThing::BentSword),
            93 => Some(ExpeditionThing::BrokenSword),
            101 => Some(ExpeditionThing::Well),
            102 => Some(ExpeditionThing::Girl),
            103 => Some(ExpeditionThing::Balloons),
            111 => Some(ExpeditionThing::Prince),
            112 => Some(ExpeditionThing::RoyalFrog),
            121 => Some(ExpeditionThing::Hand),
            122 => Some(ExpeditionThing::Feet),
            123 => Some(ExpeditionThing::Body),
            124 => Some(ExpeditionThing::Klaus),
            131 => Some(ExpeditionThing::Key),
            132 => Some(ExpeditionThing::Suitcase),
            1000 => Some(ExpeditionThing::DummyBounty),
            1001 => Some(ExpeditionThing::ToiletPaperBounty),
            1002 => Some(ExpeditionThing::DragonBounty),
            1003 => Some(ExpeditionThing::BurntCampfireBounty),
            1004 => Some(ExpeditionThing::UnicornBounty),
            1007 => Some(ExpeditionThing::WinnerPodiumBounty),
            1008 => Some(ExpeditionThing::RevealingCoupleBounty),
            1009 => Some(ExpeditionThing::BrokenSwordBounty),
            1010 => Some(ExpeditionThing::BaloonBounty),
            1011 => Some(ExpeditionThing::FrogBounty),
            1012 => Some(ExpeditionThing::KlausBounty),
            _ => None,
        }
    }

    /// The thing with the given number, if there is one.
    pub fn from_i64(v: i64) -> (r: Option<ExpeditionThing>)
        ensures
            r == Self::spec_from_i64(v),
    {
        match v {
            0 => Some(ExpeditionThing::Unknown),
            1 => Some(ExpeditionThing::Dummy1),
            2 => Some(ExpeditionThing::Dummy2),
            3 => Some(ExpeditionThing::Dumy3),
            11 => Some(ExpeditionThing::ToiletPaper),
            21 => Some(ExpeditionThing::Bait),
            22 => Some(ExpeditionThing::Dragon),
            31 => Some(ExpeditionThing::CampFire),
            32 => Some(ExpeditionThing::Phoenix),
            33 => Some(ExpeditionThing::BurntCampfire),
            41 => Some(ExpeditionThing::UnicornHorn),
            42 => Some(ExpeditionThing::Donkey),
            43 => Some(ExpeditionThing::Rainbow),
            44 => Some(ExpeditionThing::Unicorn),
            51 => Some(ExpeditionThing::CupCake),
            61 => Some(ExpeditionThing::Cake),
            71 => Some(ExpeditionThing::SmallHurdle),
            72 => Some(ExpeditionThing::BigHurdle),
            73 => Some(ExpeditionThing::WinnersPodium),
            81 => Some(ExpeditionThing::Socks),
            82 => Some(ExpeditionThing::ClothPile),
            83 => Some(ExpeditionThing::RevealingCouple),
            91 => Some(ExpeditionThing::SwordInStone),
            92 => Some(ExpeditionThing::BentSword),
            93 => Some(ExpeditionThing::BrokenSword),
            101 => Some(ExpeditionThing::Well),
            102 => Some(ExpeditionThing::Girl),
            103 => Some(ExpeditionThing::Balloons),
            111 => Some(ExpeditionThing::Prince),
            112 => Some(ExpeditionThing::RoyalFrog),
            121 => Some(ExpeditionThing::Hand),
            122 => Some(ExpeditionThing::Feet),
            123 => Some(ExpeditionThing::Body),
            124 => Some(ExpeditionThing::Klaus),
            131 => Some(ExpeditionThing::Key),
            132 => Some(ExpeditionThing::Suitcase),
            1000 => Some(ExpeditionThing::DummyBounty),
            1001 => Some(ExpeditionThing::ToiletPaperBounty),
            1002 => Some(ExpeditionThing::DragonBounty),
            1003 => Some(ExpeditionThing::BurntCampfireBounty),
            1004 => Some(ExpeditionThing::UnicornBounty),
            1007 => Some(ExpeditionThing::WinnerPodiumBounty),
            1008 => Some(ExpeditionThing::RevealingCoupleBounty),
            1009 => Some(ExpeditionThing::BrokenSwordBounty),
            1010 => Some(ExpeditionThing::BaloonBounty),
            1011 => Some(ExpeditionThing::FrogBounty),
            1012 => Some(ExpeditionThing::KlausBounty),
            _ => None,
        }
    }

    /// The thing with the given number, or `Unknown`.
    pub open spec fn spec_or_unknown(v: i64) -> ExpeditionThing {
        match Self::spec_from_i64(v) {
            Some(t) => t,
            None => ExpeditionThing::Unknown,
        }
    }

    /// The thing with the given number, or `Unknown`.
    pub fn from_i64_or_unknown(v: i64) -> (r: ExpeditionThing)
        ensures
            r == Self::spec_or_unknown(v),
    {
        match Self::from_i64(v) {
            Some(t) => t,
            None => ExpeditionThing::Unknown,
        }
    }

    /// The bounty that gives a bonus of 10 heroism for picking up this thing.
    pub open spec fn spec_required_bounty(self) -> Option<ExpeditionThing> {
        match self {
            ExpeditionThing::Dummy1 | ExpeditionThing::Dummy2 | ExpeditionThing::Dumy3 => Some(ExpeditionThing::DummyBounty),
            ExpeditionThing::ToiletPaper => Some(ExpeditionThing::ToiletPaperBounty),
            ExpeditionThing::Dragon => Some(ExpeditionThing::DragonBounty),
            ExpeditionThing::BurntCampfire => Some(ExpeditionThing::BurntCampfireBounty),
            ExpeditionThing::Unicorn => Some(ExpeditionThing::UnicornBounty),
            ExpeditionThing::WinnersPodium => Some(ExpeditionThing::WinnerPodiumBounty),
            ExpeditionThing::RevealingCouple => Some(ExpeditionThing::RevealingCoupleBounty),
            ExpeditionThing::BrokenSword => Some(ExpeditionThing::BrokenSwordBounty),
            ExpeditionThing::Balloons => Some(ExpeditionThing::BaloonBounty),
            ExpeditionThing::RoyalFrog => Some(ExpeditionThing::FrogBounty),
            ExpeditionThing::Klaus => Some(ExpeditionThing::KlausBounty),
            _ => None,
        }
    }

    /// Returns the associated bounty item required to get a +10 bonus for
    /// picking up this item.
    pub fn required_bounty(&self) -> (r: Option<ExpeditionThing>)
        ensures
            r == self.spec_required_bounty(),
    {
        match self {
            ExpeditionThing::Dummy1 | ExpeditionThing::Dummy2 | ExpeditionThing::Dumy3 => Some(ExpeditionThing::DummyBounty),
            ExpeditionThing::ToiletPaper => Some(ExpeditionThing::ToiletPaperBounty),
            ExpeditionThing::Dragon => Some(ExpeditionThing::DragonBounty),
            ExpeditionThing::BurntCampfire => Some(ExpeditionThing::BurntCampfireBounty),
            ExpeditionThing::Unicorn => Some(ExpeditionThing::UnicornBounty),
            ExpeditionThing::WinnersPodium => Some(ExpeditionThing::WinnerPodiumBounty),
            ExpeditionThing::RevealingCouple => Some(ExpeditionThing::RevealingCoupleBounty),
            ExpeditionThing::BrokenSword => Some(ExpeditionThing::BrokenSwordBounty),
            ExpeditionThing::Balloons => Some(ExpeditionThing::BaloonBounty),
            ExpeditionThing::RoyalFrog => Some(ExpeditionThing::FrogBounty),
            ExpeditionThing::Klaus => Some(ExpeditionThing::KlausBounty),
            _ => None,
        }
    }

    /// The things that this bounty gives a bonus for.
    pub open spec fn spec_bounty_for(self) -> Option<Seq<ExpeditionThing>> {
        match self {
            ExpeditionThing::DummyBounty => Some(seq![ExpeditionThing::Dummy1, ExpeditionThing::Dummy2, ExpeditionThing::Dumy3]),
            ExpeditionThing::ToiletPaperBounty => Some(seq![ExpeditionThing::ToiletPaper]),
            ExpeditionThing::DragonBounty => Some(seq![ExpeditionThing::Dragon]),
            ExpeditionThing::BurntCampfireBounty => Some(seq![ExpeditionThing::BurntCampfire]),
            ExpeditionThing::UnicornBounty => Some(seq![ExpeditionThing::Unicorn]),
            ExpeditionThing::WinnerPodiumBounty => Some(seq![ExpeditionThing::WinnersPodium]),
            ExpeditionThing::RevealingCoupleBounty => Some(seq![ExpeditionThing::RevealingCouple]),
            ExpeditionThing::BrokenSwordBounty => Some(seq![ExpeditionThing::BrokenSword]),
            ExpeditionThing::BaloonBounty => Some(seq![ExpeditionThing::Balloons]),
            ExpeditionThing::FrogBounty => Some(seq![ExpeditionThing::RoyalFrog]),
            ExpeditionThing::KlausBounty => Some(seq![ExpeditionThing::Klaus]),
            _ => None,
        }
    }

    /// If the thing is a bounty, this holds all the things that receive a
    /// bonus for it.
    pub fn is_bounty_for(&self) -> (r: Option<Vec<ExpeditionThing>>)
        ensures
            match self.spec_bounty_for() {
                Some(s) => r matches Some(v) && v@ == s,
                None => r is None,
            },
    {
        match self {
            ExpeditionThing::DummyBounty => { let v = vec![ExpeditionThing::Dummy1, ExpeditionThing::Dummy2, ExpeditionThing::Dumy3]; assert(v@ =~= self.spec_bounty_for()->0); Some(v) },
            ExpeditionThing::ToiletPaperBounty => { let v = vec![ExpeditionThing::ToiletPaper]; assert(v@ =~= self.spec_bounty_for()->0); Some(v) },
            ExpeditionThing::DragonBounty => { let v = vec![ExpeditionThing::Dragon]; assert(v@ =~= self.spec_bounty_for()->0); Some(v) },
            ExpeditionThing::BurntCampfireBounty => { let v = vec![ExpeditionThing::BurntCampfire]; assert(v@ =~= self.spec_bounty_for()->0); Some(v) },
            ExpeditionThing::UnicornBounty => { let v = vec![ExpeditionThing::Unicorn]; assert(v@ =~= self.spec_bounty_for()->0); Some(v) },
            ExpeditionThing::WinnerPodiumBounty => { let v = vec![ExpeditionThing::WinnersPodium]; assert(v@ =~= self.spec_bounty_for()->0); Some(v) },
            ExpeditionThing::RevealingCoupleBounty => { let v = vec![ExpeditionThing::RevealingCouple]; assert(v@ =~= self.spec_bounty_for()->0); Some(v) },
            ExpeditionThing::BrokenSwordBounty => { let v = vec![ExpeditionThing::BrokenSword]; assert(v@ =~= self.spec_bounty_for()->0); Some(v) },
            ExpeditionThing::BaloonBounty => { let v = vec![ExpeditionThing::Balloons]; assert(v@ =~= self.spec_bounty_for()->0); Some(v) },
            ExpeditionThing::FrogBounty => { let v = vec![ExpeditionThing::RoyalFrog]; assert(v@ =~= self.spec_bounty_for()->0); Some(v) },
            ExpeditionThing::KlausBounty => { let v = vec![ExpeditionThing::Klaus]; assert(v@ =~= self.spec_bounty_for()->0); Some(v) },
            _ => None,
        }
    }
}

/// A bounty gives a bonus for exactly the things that require it: `thing`
/// requires `bounty` if and only if `bounty` lists `thing`.
pub proof fn lemma_bounty_lists_exactly(thing: ExpeditionThing, bounty: ExpeditionThing)
    ensures
        thing.spec_required_bounty() == Some(bounty) <==> (bounty.spec_bounty_for() matches Some(
            s,
        ) && s.contains(thing)),
{
    match bounty.spec_bounty_for() {
        Some(s) => {
            if thing.spec_required_bounty() == Some(bounty) {
                assert(s[0] == thing || s[1] == thing || s[2] == thing);
            }
            if s.contains(thing) {
                let i = choose|i: int| 0 <= i < s.len() && s[i] == thing;
                assert(s[i] == thing);
            }
        },
        None => {
            assert(thing.spec_required_bounty() != Some(bounty));
        },
    }
}


/// The monster you fight after 5 and 10 expedition encounters.
#[derive(Debug, Clone, Copy, PartialEq, Eq, Structural)]
pub struct ExpeditionBoss {
    /// The monster id of this boss
    pub id: i64,
    /// The amount of items this boss is supposed to drop
    pub items: u8,
}

/// One of up to three encounters you can find. In comparison to
/// `ExpeditionThing`, this also includes the expected heroism.
#[derive(Debug, Clone, Copy, PartialEq, Eq, Structural)]
pub struct ExpeditionEncounter {
    /// The type of thing you engage, or find on this path
    pub typ: ExpeditionThing,
    /// The heroism you get from picking this encounter. This contains the
    /// bonus from bounties, but no further boni from
    pub heroism: i32,
}

/// The current thing, that would be on screen, when using the web client.
#[derive(Debug, Clone)]
pub enum ExpeditionStage {
    /// Choose one of these rewards after winning against the boss
    Rewards(Vec<Reward>),
    /// If we encountered a boss, this will contain information about it
    Boss(ExpeditionBoss),
    /// The different encounters, that you can choose between. Should be <= 3
    Encounters(Vec<ExpeditionEncounter>),
    /// We have to wait until the specified time to continue in the
    /// expedition. Once it has passed, you can send the update command to
    /// update the expedition stage
    Waiting(i64),
    /// The expedition has finished and you can choose another one
    Finished,
    /// Something strange happened and the current stage is not known
    Unknown,
}

impl Default for ExpeditionStage {
    fn default() -> (r: Self)
        ensures
            r matches ExpeditionStage::Encounters(v) && v@.len() == 0,
    {
        ExpeditionStage::Encounters(Vec::new())
    }
}

/// Rust's `i32` addition that wraps around on overflow.
pub open spec fn wrapping_add_i32(a: i32, b: i32) -> i32 {
    if a + b > i32::MAX {
        (a + b - 0x1_0000_0000) as i32
    } else if a + b < i32::MIN {
        (a + b + 0x1_0000_0000) as i32
    } else {
        (a + b) as i32
    }
}

fn add_ten_wrapping(h: i32) -> (r: i32)
    ensures
        r == wrapping_add_i32(h, 10),
{
    if h <= 2147483637 {
        h + 10
    } else {
        (h - 2147483638) + (-2147483647 - 1)
    }
}

/// Holds of expedition items among which `thing` is.
pub open spec fn holds_item(items: [Option<ExpeditionThing>; 4], thing: ExpeditionThing) -> bool {
    exists|i: int| 0 <= i < 4 && items[i] == Some(thing)
}

/// The encounter with the bounty bonus of 10 heroism, where one of `items`
/// is the bounty its thing requires.
pub open spec fn with_bounty_bonus(
    e: ExpeditionEncounter,
    items: [Option<ExpeditionThing>; 4],
) -> ExpeditionEncounter {
    match e.typ.spec_required_bounty() {
        Some(b) => if holds_item(items, b) {
            ExpeditionEncounter { typ: e.typ, heroism: wrapping_add_i32(e.heroism, 10) }
        } else {
            e
        },
        None => e,
    }
}

/// The encounters that a list of (thing, heroism) pairs describes; a last
/// unpaired value is ignored.
pub open spec fn spec_encounters(d: Seq<i64>) -> Seq<ExpeditionEncounter> {
    Seq::new(
        d.len() / 2,
        |i: int|
            ExpeditionEncounter {
                typ: ExpeditionThing::spec_or_unknown(d[2 * i]),
                heroism: soft_i32(d[2 * i + 1], 0),
            },
    )
}

/// The state of an ongoing expedition.
#[derive(Debug, Clone)]
pub struct Expedition {
    /// The items collected durign the expedition
    pub items: [Option<ExpeditionThing>; 4],
    /// The thing, that we are searching on this expedition
    pub target_thing: ExpeditionThing,
    /// The amount of the target item we have found
    pub target_current: u8,
    /// The amount of the target item that we are supposed to find
    pub target_amount: u8,
    /// The level we are currently clearing. Starts at 1
    pub current_floor: u8,
    /// The heroism we have collected so far
    pub heroism: i32,
    pub adjusted_bounty_heroism: bool,
    pub floor_stage: i64,
    /// Choose one of these rewards
    pub rewards: Vec<Reward>,
    pub halftime_for_boss_id: i64,
    /// If we encountered a boss, this will contain information about it
    pub boss: ExpeditionBoss,
    /// The different encounters, that you can choose between. Should be 3
    pub encounters: Vec<ExpeditionEncounter>,
    pub busy_until: Option<i64>,
}

impl Default for Expedition {
    fn default() -> (r: Self)
        ensures
            r.items == [None::<ExpeditionThing>, None, None, None],
            r.target_thing == ExpeditionThing::Unknown,
            r.target_current == 0 && r.target_amount == 0 && r.current_floor == 0,
            r.heroism == 0,
            !r.adjusted_bounty_heroism,
            r.floor_stage == 0,
            r.rewards@.len() == 0,
            r.halftime_for_boss_id == 0,
            r.boss == (ExpeditionBoss { id: 0, items: 0 }),
            r.encounters@.len() == 0,
            r.busy_until is None,
    {
        Expedition {
            items: [None, None, None, None],
            target_thing: ExpeditionThing::Unknown,
            target_current: 0,
            target_amount: 0,
            current_floor: 0,
            heroism: 0,
            adjusted_bounty_heroism: false,
            floor_stage: 0,
            rewards: Vec::new(),
            halftime_for_boss_id: 0,
            boss: ExpeditionBoss { id: 0, items: 0 },
            encounters: Vec::new(),
            busy_until: None,
        }
    }
}

/// `-v`, where `v == i64::MIN` stays itself (the negation wraps around).
pub open spec fn wrapping_neg(v: i64) -> i64 {
    if v == i64::MIN { v } else { (-v) as i64 }
}

fn negate(v: i64) -> (r: i64)
    ensures
        r == wrapping_neg(v),
{
    if v == i64::MIN { v } else { -v }
}

impl Expedition {
    /// Holds where the two expeditions agree in all but the encounters and
    /// whether the bounty bonus was added.
    pub open spec fn same_but_encounters(self, other: Expedition) -> bool {
        &&& self.items == other.items
        &&& self.target_thing == other.target_thing
        &&& self.target_current == other.target_current
        &&& self.target_amount == other.target_amount
        &&& self.current_floor == other.current_floor
        &&& self.heroism == other.heroism
        &&& self.floor_stage == other.floor_stage
        &&& self.rewards == other.rewards
        &&& self.halftime_for_boss_id == other.halftime_for_boss_id
        &&& self.boss == other.boss
        &&& self.busy_until == other.busy_until
    }

    /// Holds where the items hold `thing`.
    fn has_item(&self, thing: ExpeditionThing) -> (r: bool)
        ensures
            r == holds_item(self.items, thing),
    {
        let mut i: usize = 0;
        while i < 4
            invariant
                i <= 4,
                forall|j: int| 0 <= j < i ==> self.items[j] != Some(thing),
            decreases 4 - i,
        {
            if self.items[i] == Some(thing) {
                return true;
            }
            i = i + 1;
        }
        false
    }

    /// Adds the bonus of 10 heroism to each encounter whose bounty was
    /// collected, once.
    pub fn adjust_bounty_heroism(&mut self)
        ensures
            old(self).adjusted_bounty_heroism ==> *final(self) == *old(self),
            !old(self).adjusted_bounty_heroism ==> {
                &&& final(self).adjusted_bounty_heroism
                &&& final(self).encounters@ == old(self).encounters@.map_values(
                    |e: ExpeditionEncounter| with_bounty_bonus(e, old(self).items),
                )
                &&& final(self).same_but_encounters(*old(self))
            },
    {
        if self.adjusted_bounty_heroism {
            return;
        }
        let ghost old_enc = self.encounters@;
        let n = self.encounters.len();
        let mut i: usize = 0;
        while i < n
            invariant
                i <= n,
                n == old_enc.len(),
                self.encounters@.len() == n,
                forall|j: int| 0 <= j < i ==> self.encounters@[j] == with_bounty_bonus(
                    old_enc[j],
                    self.items,
                ),
                forall|j: int| i <= j < n ==> self.encounters@[j] == old_enc[j],
                self.same_but_encounters(*old(self)),
                !self.adjusted_bounty_heroism,
            decreases n - i,
        {
            let e = self.encounters[i];
            let mut heroism = e.heroism;
            match e.typ.required_bounty() {
                Some(b) => {
                    if self.has_item(b) {
                        heroism = add_ten_wrapping(heroism);
                    }
                },
                None => {},
            }
            self.encounters.set(i, ExpeditionEncounter { typ: e.typ, heroism });
            i = i + 1;
        }
        self.adjusted_bounty_heroism = true;
        assert(self.encounters@ =~= old_enc.map_values(
            |e: ExpeditionEncounter| with_bounty_bonus(e, self.items),
        ));
    }

    /// Replaces the encounters with those that a list of (thing, heroism)
    /// pairs describes.
    pub fn update_encounters(&mut self, data: &[i64])
        ensures
            final(self).encounters@ == spec_encounters(data@),
            final(self).same_but_encounters(*old(self)),
            final(self).adjusted_bounty_heroism == old(self).adjusted_bounty_heroism,
    {
        let mut encounters: Vec<ExpeditionEncounter> = Vec::new();
        let len = data.len();
        let n = len / 2;
        let mut i: usize = 0;
        while i < n
            invariant
                i <= n,
                len == data@.len(),
                n == data@.len() / 2,
                encounters@ == spec_encounters(data@).take(i as int),
            decreases n - i,
        {
            assert(2 * i + 1 < data@.len()) by (nonlinear_arith)
                requires
                    i < n,
                    n == data@.len() / 2,
            ;
            let typ = ExpeditionThing::from_i64_or_unknown(data[2 * i]);
            let heroism = soft_into_i32(data[2 * i + 1], "e heroism", 0);
            encounters.push(ExpeditionEncounter { typ, heroism });
            i = i + 1;
            assert(encounters@ =~= spec_encounters(data@).take(i as int));
        }
        assert(encounters@ =~= spec_encounters(data@));
        self.encounters = encounters;
    }

    /// Holds where the expedition waits at the point in time `now`.
    pub open spec fn is_waiting_at(self, now: i64) -> bool {
        self.busy_until matches Some(x) && x > now
    }

    /// Holds where the expedition shows encounters at the point in time
    /// `now`.
    pub open spec fn shows_encounters_at(self, now: i64) -> bool {
        self.floor_stage == 1 || (self.floor_stage == 4 && !self.is_waiting_at(now)
            && self.current_floor != 10)
    }

    /// Holds where the expedition is finished at the point in time `now`.
    pub open spec fn spec_finished_at(self, now: i64) -> bool {
        self.floor_stage == 4 && !self.is_waiting_at(now) && self.current_floor == 10
    }

    /// The stage the player is at, at the point in time `now`.
    pub fn current_stage_at(&self, now: i64) -> (r: ExpeditionStage)
        ensures
            self.shows_encounters_at(now) ==> (r matches ExpeditionStage::Encounters(v)
                && v@ == self.encounters@),
            self.floor_stage == 2 ==> r == ExpeditionStage::Boss(self.boss),
            self.floor_stage == 3 ==> (r matches ExpeditionStage::Rewards(v) && v@
                == self.rewards@),
            self.floor_stage == 4 && self.is_waiting_at(now) ==> r == ExpeditionStage::Waiting(
                self.busy_until->0,
            ),
            self.spec_finished_at(now) ==> r is Finished,
            !(1 <= self.floor_stage <= 4) ==> r is Unknown,
    {
        if self.floor_stage == 1 {
            ExpeditionStage::Encounters(copy_encounters(&self.encounters))
        } else if self.floor_stage == 2 {
            ExpeditionStage::Boss(self.boss)
        } else if self.floor_stage == 3 {
            ExpeditionStage::Rewards(copy_rewards(&self.rewards))
        } else if self.floor_stage == 4 {
            match self.busy_until {
                Some(x) => {
                    if x > now {
                        return ExpeditionStage::Waiting(x);
                    }
                },
                None => {},
            }
            if self.current_floor == 10 {
                ExpeditionStage::Finished
            } else {
                ExpeditionStage::Encounters(copy_encounters(&self.encounters))
            }
        } else {
            ExpeditionStage::Unknown
        }
    }

    /// Returns the current stage the player is doing. This is dependent on
    /// time, because the timers are lazily evaluated. That means it might
    /// flip from Waiting to Encounters or Finished between calls.
    pub fn current_stage(&self) -> (r: ExpeditionStage)
        ensures
            self.floor_stage == 1 ==> (r matches ExpeditionStage::Encounters(v) && v@
                == self.encounters@),
            self.floor_stage == 2 ==> r == ExpeditionStage::Boss(self.boss),
            self.floor_stage == 3 ==> (r matches ExpeditionStage::Rewards(v) && v@
                == self.rewards@),
            !(1 <= self.floor_stage <= 4) ==> r is Unknown,
            exists|now: i64| #![auto] {
                &&& (self.shows_encounters_at(now) ==> (r matches ExpeditionStage::Encounters(v)
                    && v@ == self.encounters@))
                &&& (self.floor_stage == 4 && self.is_waiting_at(now) ==> r
                    == ExpeditionStage::Waiting(self.busy_until->0))
                &&& (self.spec_finished_at(now) ==> r is Finished)
            },
    {
        let now = local_now();
        let r = self.current_stage_at(now);
        assert(self.floor_stage == 4 && self.is_waiting_at(now) ==> r == ExpeditionStage::Waiting(
            self.busy_until->0,
        ));
        r
    }

    /// Checks, if the last timer of this expedition had run out at the
    /// point in time `now`.
    pub fn is_finished_at(&self, now: i64) -> (r: bool)
        ensures
            r == self.spec_finished_at(now),
    {
        let stage = self.current_stage_at(now);
        match stage {
            ExpeditionStage::Finished => true,
            _ => false,
        }
    }

    /// Checks, if the last timer of this expedition has run out.
    pub fn is_finished(&self) -> (r: bool)
        ensures
            r ==> self.floor_stage == 4 && self.current_floor == 10,
            self.floor_stage == 4 && self.current_floor == 10 && self.busy_until is None ==> r,
    {
        self.is_finished_at(local_now())
    }
}

/// A copy of a list of encounters.
fn copy_encounters(v: &Vec<ExpeditionEncounter>) -> (r: Vec<ExpeditionEncounter>)
    ensures
        r@ == v@,
{
    let mut r: Vec<ExpeditionEncounter> = Vec::new();
    let mut i: usize = 0;
    while i < v.len()
        invariant
            i <= v@.len(),
            r@ == v@.take(i as int),
        decreases v@.len() - i,
    {
        r.push(v[i]);
        i = i + 1;
        assert(r@ =~= v@.take(i as int));
    }
    assert(r@ =~= v@);
    r
}

/// A copy of a list of rewards.
fn copy_rewards(v: &Vec<Reward>) -> (r: Vec<Reward>)
    ensures
        r@ == v@,
{
    let mut r: Vec<Reward> = Vec::new();
    let mut i: usize = 0;
    while i < v.len()
        invariant
            i <= v@.len(),
            r@ == v@.take(i as int),
        decreases v@.len() - i,
    {
        r.push(v[i]);
        i = i + 1;
        assert(r@ =~= v@.take(i as int));
    }
    assert(r@ =~= v@);
    r
}


/// Information about a possible expedition, that you could start.
#[derive(Debug, Clone, Copy, PartialEq, Eq, Structural)]
pub struct AvailableExpedition {
    /// The target, that will be collected during the expedition
    pub target: ExpeditionThing,
    /// The amount of thirst for adventure, that selecting this expedition
    /// costs and also the expected time the two waiting periods take
    pub thirst_for_adventure_sec: u32,
    /// The first location, that you visit during the expedition. Might
    /// influence the haltime monsters type
    pub location_1: Location,
    /// The second location, that you visit during the expedition. Might
    /// influence the final monsters type
    pub location_2: Location,
}

impl AvailableExpedition {
    /// The expedition that (at least) 8 values describe.
    pub open spec fn spec_parse(d: Seq<i64>) -> AvailableExpedition {
        AvailableExpedition {
            target: ExpeditionThing::spec_or_unknown(d[0]),
            thirst_for_adventure_sec: soft_u32(d[6], 600),
            location_1: Location::spec_or_default(d[4]),
            location_2: Location::spec_or_default(d[5]),
        }
    }

    /// Parses the expedition that (at least) 8 values describe.
    pub fn parse(data: &[i64]) -> (r: AvailableExpedition)
        requires
            data@.len() >= 8,
        ensures
            r == Self::spec_parse(data@),
    {
        AvailableExpedition {
            target: ExpeditionThing::from_i64_or_unknown(data[0]),
            thirst_for_adventure_sec: soft_into_u32(data[6], "exp alu", 600),
            location_1: Location::from_i64_or_default(data[4]),
            location_2: Location::from_i64_or_default(data[5]),
        }
    }
}

/// The expeditions that groups of 8 values describe; a last incomplete group
/// is ignored.
pub open spec fn spec_available(d: Seq<i64>) -> Seq<AvailableExpedition> {
    Seq::new(d.len() / 8, |i: int| AvailableExpedition::spec_parse(d.subrange(8 * i, 8 * i + 8)))
}

/// The amount, that you either won or lost gambling. If the value is
/// negative, you lost.
#[derive(Debug, Clone, Copy, PartialEq, Eq, Structural)]
pub enum GambleResult {
    SilverChange(i64),
    MushroomChange(i32),
}

/// Information about the current state of the dice game.
#[derive(Debug, Clone)]
pub struct DiceGame {
    /// The amount of dice games you can still play today
    pub remaining: u8,
    /// The next free dice game can be played at this point in time
    pub next_free: Option<i64>,
    /// These are the dices, that are laying on the table after the first
    /// round. The ones you can select to keep from
    pub current_dice: Vec<DiceType>,
    /// Whatever we won in the dice game
    pub reward: Option<DiceReward>,
}

impl Default for DiceGame {
    fn default() -> (r: Self)
        ensures
            r.remaining == 0,
            r.next_free is None,
            r.current_dice@.len() == 0,
            r.reward is None,
    {
        DiceGame { remaining: 0, next_free: None, current_dice: Vec::new(), reward: None }
    }
}

/// Information about everything related to expeditions.
#[derive(Debug, Clone)]
pub struct ExpeditionsEvent {
    /// The time the expeditions mechanic was enabled at
    pub start: Option<i64>,
    /// The time until which expeditions will be available
    pub end: Option<i64>,
    /// The expeditions available to do
    pub available: Vec<AvailableExpedition>,
    /// The expedition the player is currently doing. Accessible via the
    /// `active()` method.
    pub active: Option<Expedition>,
}

impl Default for ExpeditionsEvent {
    fn default() -> (r: Self)
        ensures
            r.start is None,
            r.end is None,
            r.available@.len() == 0,
            r.active is None,
    {
        ExpeditionsEvent { start: None, end: None, available: Vec::new(), active: None }
    }
}

impl ExpeditionsEvent {
    /// Holds where the event had started and not yet ended at `now`.
    pub open spec fn spec_ongoing_at(self, now: i64) -> bool {
        self.start matches Some(s) && self.end matches Some(e) && e > now && s < now
    }

    /// Checks if the event had started and not yet ended at the point in
    /// time `now`.
    pub fn is_event_ongoing_at(&self, now: i64) -> (r: bool)
        ensures
            r == self.spec_ongoing_at(now),
    {
        match (self.start, self.end) {
            (Some(start), Some(end)) => end > now && start < now,
            _ => false,
        }
    }

    /// Checks if the event has started and not yet ended compared to the
    /// current time.
    pub fn is_event_ongoing(&self) -> (r: bool)
        ensures
            r ==> self.start is Some && self.end is Some && self.start->0 < self.end->0,
    {
        self.is_event_ongoing_at(local_now())
    }

    /// The active expedition, where it was not finished at `now`.
    pub fn active_at(&self, now: i64) -> (r: Option<&Expedition>)
        ensures
            match self.active {
                Some(a) => if a.spec_finished_at(now) {
                    r is None
                } else {
                    r == Some(&a)
                },
                None => r is None,
            },
    {
        match &self.active {
            Some(a) => {
                if a.is_finished_at(now) {
                    None
                } else {
                    Some(a)
                }
            },
            None => None,
        }
    }

    /// Expeditions finish after the last timer elapses. That means, this can
    /// happen without any new requests. To make sure you do not access an
    /// expedition, that has elapsed, you access expeditions with this.
    pub fn active(&self) -> (r: Option<&Expedition>)
        ensures
            self.active is None ==> r is None,
            r matches Some(a) ==> self.active == Some(*a),
    {
        self.active_at(local_now())
    }

    /// The active expedition, to change it, where it was not finished at
    /// `now`.
    pub fn active_mut_at(&mut self, now: i64) -> (r: Option<&mut Expedition>)
        ensures
            match old(self).active {
                Some(a) => if a.spec_finished_at(now) {
                    r is None && *final(self) == *old(self)
                } else {
                    r is Some && *r->0 == a && final(self).active == Some(*final(r->0))
                        && final(self).start == old(self).start && final(self).end == old(
                        self,
                    ).end && final(self).available == old(self).available
                },
                None => r is None && *final(self) == *old(self),
            },
    {
        let finished = match &self.active {
            Some(a) => a.is_finished_at(now),
            None => true,
        };
        if finished {
            None
        } else {
            self.active.as_mut()
        }
    }

    /// Expeditions finish after the last timer elapses. That means, this can
    /// happen without any new requests. To make sure you do not access an
    /// expedition, that has elapsed, you access expeditions with this.
    pub fn active_mut(&mut self) -> (r: Option<&mut Expedition>)
        ensures
            old(self).active is None ==> r is None && *final(self) == *old(self),
            final(self).start == old(self).start,
            final(self).end == old(self).end,
            final(self).available == old(self).available,
    {
        self.active_mut_at(local_now())
    }

    /// Updates the start and the end of the event from its two timestamps.
    pub fn update_times(&mut self, data: &[i64], server_time: ServerTime) -> (r: Result<
        (),
        SFError,
    >)
        ensures
            data@.len() >= 2 <==> r is Ok,
            data@.len() == 0 ==> (r matches Err(e) && short_error_in(
                e,
                "expedition start"@,
                0,
                data@,
            )),
            data@.len() == 1 ==> (r matches Err(e) && short_error_in(e, "expedition end"@, 1, data@)),
            r is Ok ==> final(self).start == server_time.spec_convert(data@[0]) && final(self).end
                == server_time.spec_convert(data@[1]),
            final(self).available == old(self).available,
            final(self).active == old(self).active,
    {
        self.start = cstget(data, 0, "expedition start", server_time)?;
        let end = cstget(data, 1, "expedition end", server_time)?;
        self.end = end;
        Ok(())
    }

    /// Replaces the available expeditions with those that groups of 8
    /// values describe.
    pub fn update_available(&mut self, data: &[i64])
        ensures
            final(self).available@ == spec_available(data@),
            final(self).start == old(self).start,
            final(self).end == old(self).end,
            final(self).active == old(self).active,
    {
        let mut available: Vec<AvailableExpedition> = Vec::new();
        let len = data.len();
        let n = len / 8;
        let mut i: usize = 0;
        while i < n
            invariant
                i <= n,
                len == data@.len(),
                n == data@.len() / 8,
                available@ == spec_available(data@).take(i as int),
            decreases n - i,
        {
            assert(8 * i + 8 <= data@.len()) by (nonlinear_arith)
                requires
                    i < n,
                    n == data@.len() / 8,
            ;
            let chunk = slice_range(data, 8 * i, 8 * i + 8);
            available.push(AvailableExpedition::parse(chunk));
            i = i + 1;
            assert(available@ =~= spec_available(data@).take(i as int));
        }
        assert(available@ =~= spec_available(data@));
        self.available = available;
    }

    /// The active expedition, where there is one, or a new one.
    fn take_active(&mut self) -> (r: Expedition)
        ensures
            Expedition::started_from(old(self).active, r),
            final(self).active is None,
            final(self).start == old(self).start,
            final(self).end == old(self).end,
            final(self).available == old(self).available,
    {
        match self.active.take() {
            Some(a) => a,
            None => Expedition::new(),
        }
    }

    /// Updates the boss of the active expedition, which is created where
    /// there is none.
    pub fn update_boss(&mut self, data: &[i64]) -> (r: Result<(), SFError>)
        ensures
            data@.len() == 0 ==> (r matches Err(e) && short_error_in(e, "expedition monster"@, 0, data@)),
            data@.len() >= 1 <==> r is Ok,
            final(self).active matches Some(e) && exists|before: Expedition|
                #[trigger] Expedition::started_from(old(self).active, before) && {
                    &&& r is Ok ==> e.boss == Expedition::spec_boss(data@)
                    &&& r is Err ==> e.boss == before.boss
                    &&& e.same_but_boss(before)
                },
            final(self).start == old(self).start,
            final(self).end == old(self).end,
            final(self).available == old(self).available,
    {
        let mut exp = self.take_active();
        let ghost before = exp;
        let r = exp.update_boss(data);
        self.active = Some(exp);
        assert(Expedition::started_from(old(self).active, before));
        r
    }

    /// Updates the rewards after the half of the active expedition, which
    /// is created where there is none.
    pub fn update_halftime(&mut self, data: &[i64]) -> (r: Result<(), SFError>)
        ensures
            data@.len() == 0 ==> (r matches Err(e) && short_error_in(e, "halftime for boss id"@, 0, data@)),
            data@.len() >= 1 <==> r is Ok,
            final(self).active matches Some(e) && exists|before: Expedition|
                #[trigger] Expedition::started_from(old(self).active, before) && {
                    &&& r is Ok ==> e.halftime_for_boss_id == wrapping_neg(data@[0])
                        && e.rewards@ == spec_rewards(data@.skip(1))
                    &&& e.same_but_halftime(before)
                },
            final(self).start == old(self).start,
            final(self).end == old(self).end,
            final(self).available == old(self).available,
    {
        let mut exp = self.take_active();
        let ghost before = exp;
        let r = exp.update_halftime(data);
        self.active = Some(exp);
        assert(Expedition::started_from(old(self).active, before));
        r
    }

    /// Updates the state of the active expedition, which is created where
    /// there is none.
    pub fn update_state(&mut self, data: &[i64], server_time: ServerTime) -> (r: Result<
        (),
        SFError,
    >)
        ensures
            r matches Err(e) ==> expedition_state_short(e, data@),
            data@.len() >= 17 <==> r is Ok,
            final(self).active is Some,
            r is Ok ==> exists|before: Expedition|
                #[trigger] Expedition::started_from(old(self).active, before)
                    && final(self).active->0 == before.spec_with_state(data@, server_time),
            final(self).start == old(self).start,
            final(self).end == old(self).end,
            final(self).available == old(self).available,
    {
        let mut exp = self.take_active();
        let ghost before = exp;
        let r = exp.update_state(data, server_time);
        self.active = Some(exp);
        assert(Expedition::started_from(old(self).active, before));
        r
    }

    /// Updates the encounters of the active expedition, which is created
    /// where there is none.
    pub fn update_crossroads(&mut self, data: &[i64])
        ensures
            final(self).active matches Some(e) && exists|before: Expedition|
                #[trigger] Expedition::started_from(old(self).active, before) && {
                    &&& e.encounters@ == spec_encounters(data@)
                    &&& e.same_but_encounters(before)
                    &&& e.adjusted_bounty_heroism == before.adjusted_bounty_heroism
                },
            final(self).start == old(self).start,
            final(self).end == old(self).end,
            final(self).available == old(self).available,
    {
        let mut exp = self.take_active();
        let ghost before = exp;
        exp.update_encounters(data);
        self.active = Some(exp);
        assert(Expedition::started_from(old(self).active, before));
    }
}

/// The values `data[start..end]`.
pub fn slice_range(data: &[i64], start: usize, end: usize) -> (r: &[i64])
    requires
        start <= end <= data@.len(),
    ensures
        r@ == data@.subrange(start as int, end as int),
{
    let (head, _) = data.split_at(end);
    let (_, mid) = head.split_at(start);
    assert(mid@ =~= data@.subrange(start as int, end as int));
    mid
}

/// The rewards that (type, amount) pairs describe; a last unpaired value is
/// ignored.
pub open spec fn spec_rewards(d: Seq<i64>) -> Seq<Reward> {
    Seq::new(d.len() / 2, |i: int| Reward::spec_parse(d.subrange(2 * i, 2 * i + 2)))
}

/// Parses the rewards that (type, amount) pairs describe.
pub fn parse_reward_pairs(data: &[i64]) -> (r: Vec<Reward>)
    ensures
        r@ == spec_rewards(data@),
{
    let mut rewards: Vec<Reward> = Vec::new();
    let len = data.len();
    let n = len / 2;
    let mut i: usize = 0;
    while i < n
        invariant
            i <= n,
            len == data@.len(),
            n == data@.len() / 2,
            rewards@ == spec_rewards(data@).take(i as int),
        decreases n - i,
    {
        assert(2 * i + 2 <= data@.len()) by (nonlinear_arith)
            requires
                i < n,
                n == data@.len() / 2,
        ;
        let chunk = slice_range(data, 2 * i, 2 * i + 2);
        if let Ok(reward) = Reward::parse(chunk) {
            rewards.push(reward);
        }
        i = i + 1;
        assert(rewards@ =~= spec_rewards(data@).take(i as int));
    }
    assert(rewards@ =~= spec_rewards(data@));
    rewards
}

impl Expedition {
    /// Holds of a new expedition, with no progress.
    pub open spec fn is_fresh(self) -> bool {
        &&& self.items == [None::<ExpeditionThing>, None, None, None]
        &&& self.target_thing == ExpeditionThing::Unknown
        &&& self.target_current == 0 && self.target_amount == 0 && self.current_floor == 0
        &&& self.heroism == 0
        &&& !self.adjusted_bounty_heroism
        &&& self.floor_stage == 0
        &&& self.rewards@.len() == 0
        &&& self.halftime_for_boss_id == 0
        &&& self.boss == (ExpeditionBoss { id: 0, items: 0 })
        &&& self.encounters@.len() == 0
        &&& self.busy_until is None
    }

    /// Holds where `before` is the expedition that an update of `active`
    /// starts from: the active one, or a new one where there is none.
    pub open spec fn started_from(active: Option<Expedition>, before: Expedition) -> bool {
        match active {
            Some(a) => before == a,
            None => before.is_fresh(),
        }
    }

    /// A new expedition, with no progress.
    pub fn new() -> (r: Expedition)
        ensures
            r.is_fresh(),
    {
        Expedition {
            items: [None, None, None, None],
            target_thing: ExpeditionThing::Unknown,
            target_current: 0,
            target_amount: 0,
            current_floor: 0,
            heroism: 0,
            adjusted_bounty_heroism: false,
            floor_stage: 0,
            rewards: Vec::new(),
            halftime_for_boss_id: 0,
            boss: ExpeditionBoss { id: 0, items: 0 },
            encounters: Vec::new(),
            busy_until: None,
        }
    }

    /// The boss that (at least one) value describes: the negated monster id
    /// and the amount of items, 3 where it is missing or out of range.
    pub open spec fn spec_boss(d: Seq<i64>) -> ExpeditionBoss {
        ExpeditionBoss {
            id: wrapping_neg(d[0]),
            items: soft_u8(if d.len() > 1 { d[1] } else { 0 }, 3),
        }
    }

    /// Holds where the two expeditions agree in all but the boss.
    pub open spec fn same_but_boss(self, other: Expedition) -> bool {
        &&& self.items == other.items
        &&& self.target_thing == other.target_thing
        &&& self.target_current == other.target_current
        &&& self.target_amount == other.target_amount
        &&& self.current_floor == other.current_floor
        &&& self.heroism == other.heroism
        &&& self.adjusted_bounty_heroism == other.adjusted_bounty_heroism
        &&& self.floor_stage == other.floor_stage
        &&& self.rewards == other.rewards
        &&& self.halftime_for_boss_id == other.halftime_for_boss_id
        &&& self.encounters == other.encounters
        &&& self.busy_until == other.busy_until
    }

    /// Holds where the two expeditions agree in all but the rewards and the
    /// boss id they are for.
    pub open spec fn same_but_halftime(self, other: Expedition) -> bool {
        &&& self.items == other.items
        &&& self.target_thing == other.target_thing
        &&& self.target_current == other.target_current
        &&& self.target_amount == other.target_amount
        &&& self.current_floor == other.current_floor
        &&& self.heroism == other.heroism
        &&& self.adjusted_bounty_heroism == other.adjusted_bounty_heroism
        &&& self.floor_stage == other.floor_stage
        &&& self.boss == other.boss
        &&& self.encounters == other.encounters
        &&& self.busy_until == other.busy_until
    }

    /// Updates the boss from its values.
    pub fn update_boss(&mut self, data: &[i64]) -> (r: Result<(), SFError>)
        ensures
            data@.len() == 0 ==> (r matches Err(e) && short_error_in(e, "expedition monster"@, 0, data@)),
            data@.len() >= 1 <==> r is Ok,
            r is Ok ==> final(self).boss == Self::spec_boss(data@),
            r is Err ==> final(self).boss == old(self).boss,
            final(self).same_but_boss(*old(self)),
    {
        let raw = cget(data, 0, "expedition monster")?;
        let items_raw = if data.len() > 1 { data[1] } else { 0 };
        self.boss = ExpeditionBoss {
            id: negate(raw),
            items: soft_into_u8(items_raw, "exp monster items", 3),
        };
        Ok(())
    }

    /// Updates the rewards to choose from after the half of the expedition.
    pub fn update_halftime(&mut self, data: &[i64]) -> (r: Result<(), SFError>)
        ensures
            data@.len() == 0 ==> (r matches Err(e) && short_error_in(e, "halftime for boss id"@, 0, data@)),
            data@.len() >= 1 <==> r is Ok,
            r is Ok ==> final(self).halftime_for_boss_id == wrapping_neg(data@[0])
                && final(self).rewards@ == spec_rewards(data@.skip(1)),
            final(self).same_but_halftime(*old(self)),
    {
        self.halftime_for_boss_id = negate(cget(data, 0, "halftime for boss id")?);
        let rest = skip(data, 1, "halftime choice")?;
        self.rewards = parse_reward_pairs(rest);
        Ok(())
    }

    /// The expedition after an update of its state from the values `d`.
    pub open spec fn spec_with_state(
        self,
        d: Seq<i64>,
        server_time: ServerTime,
    ) -> Expedition {
        Expedition {
            floor_stage: d[2],
            target_thing: ExpeditionThing::spec_or_unknown(d[3]),
            target_current: soft_u8(d[7], 100),
            target_amount: soft_u8(d[8], 100),
            current_floor: soft_u8(d[0], 0),
            heroism: soft_i32(d[13], 0),
            busy_until: server_time.spec_convert(d[16]),
            items: [
                Some(ExpeditionThing::spec_or_unknown(d[9])),
                Some(ExpeditionThing::spec_or_unknown(d[10])),
                Some(ExpeditionThing::spec_or_unknown(d[11])),
                Some(ExpeditionThing::spec_or_unknown(d[12])),
            ],
            ..self
        }
    }

    /// Updates the state of the expedition from its (at least 17) values.
    pub fn update_state(&mut self, data: &[i64], server_time: ServerTime) -> (r: Result<
        (),
        SFError,
    >)
        ensures
            r matches Err(e) ==> expedition_state_short(e, data@),
            data@.len() >= 17 <==> r is Ok,
            r is Ok ==> *final(self) == old(self).spec_with_state(data@, server_time),
    {
        let floor_stage = cget(data, 2, "floor stage")?;
        self.floor_stage = floor_stage;
        self.target_thing = ExpeditionThing::from_i64_or_unknown(
            cget(data, 3, "expedition target")?,
        );
        self.target_current = csiget_u8(data, 7, "exp current", 100)?;
        self.target_amount = csiget_u8(data, 8, "exp target", 100)?;
        self.current_floor = csiget_u8(data, 0, "clearing", 0)?;
        self.heroism = csiget_i32(data, 13, "heroism", 0)?;
        let _busy_since = cstget(data, 15, "exp start", server_time)?;
        self.busy_until = cstget(data, 16, "exp busy", server_time)?;
        let items = skip(data, 9, "exp items")?;
        self.items = [
            Some(ExpeditionThing::from_i64_or_unknown(items[0])),
            Some(ExpeditionThing::from_i64_or_unknown(items[1])),
            Some(ExpeditionThing::from_i64_or_unknown(items[2])),
            Some(ExpeditionThing::from_i64_or_unknown(items[3])),
        ];
        Ok(())
    }
}


/// Anything related to things you can do in the tavern.
#[derive(Debug, Clone)]
pub struct Tavern {
    /// All the available quests
    pub quests: [Quest; 3],
    /// How many seconds the character still has left to do adventures
    pub thirst_for_adventure_sec: u32,
    /// Whether or not skipping with mushrooms is allowed
    pub mushroom_skip_allowed: bool,
    /// The amount of beers we already drank today
    pub beer_drunk: u8,
    /// The amount of quicksand glasses we have and can use to skip quests
    pub quicksand_glasses: u32,
    /// The thing the player is currently doing (either questing or working)
    pub current_action: CurrentAction,
    /// The amount of silver earned per hour working the guard jobs
    pub guard_wage: u64,
    /// The toilet, if it has been unlocked
    pub toilet: Option<Toilet>,
    /// The dice game you can play with the weird guy in the tavern
    pub dice_game: DiceGame,
    /// Information about everything related to expeditions
    pub expeditions: ExpeditionsEvent,
    /// Decides if you can on on expeditions, or quests, when this event is
    /// currently ongoing
    pub questing_preference: ExpeditionSetting,
    /// The result of playing the shell game
    pub gamble_result: Option<GambleResult>,
}

impl Default for Tavern {
    fn default() -> (r: Self)
        ensures
            r.quests == [Quest::spec_default(), Quest::spec_default(), Quest::spec_default()],
            r.thirst_for_adventure_sec == 0,
            !r.mushroom_skip_allowed,
            r.beer_drunk == 0,
            r.quicksand_glasses == 0,
            r.current_action == CurrentAction::Idle,
            r.guard_wage == 0,
            r.toilet is None,
            r.expeditions.active is None,
            r.questing_preference == ExpeditionSetting::PreferExpeditions,
            r.gamble_result is None,
    {
        Tavern {
            quests: [Quest::default(), Quest::default(), Quest::default()],
            thirst_for_adventure_sec: 0,
            mushroom_skip_allowed: false,
            beer_drunk: 0,
            quicksand_glasses: 0,
            current_action: CurrentAction::Idle,
            guard_wage: 0,
            toilet: None,
            dice_game: DiceGame::default(),
            expeditions: ExpeditionsEvent::default(),
            questing_preference: ExpeditionSetting::PreferExpeditions,
            gamble_result: None,
        }
    }
}

/// The tasks you will presented with, when clicking the person in the
/// tavern. Make sure you are not currently busy and have enough thirst for
/// adventure before trying to start them.
#[derive(Debug, Clone)]
pub enum AvailableTasks<'a> {
    Quests(&'a [Quest; 3]),
    Expeditions(&'a [AvailableExpedition]),
}

impl Tavern {
    /// Holds where the player does nothing.
    pub open spec fn spec_is_idle(self) -> bool {
        match self.current_action {
            CurrentAction::Idle => true,
            CurrentAction::Expedition => self.expeditions.active is None,
            _ => false,
        }
    }

    /// Checks if the player is currently doing anything. Note that this may
    /// change between calls, as expeditions finish without sending any
    /// collect commands.
    pub fn is_idle(&self) -> (r: bool)
        ensures
            r == self.spec_is_idle(),
    {
        match self.current_action {
            CurrentAction::Idle => true,
            CurrentAction::Expedition => self.expeditions.active.is_none(),
            _ => false,
        }
    }

    /// Holds where the tavern offers expeditions at `now`.
    pub open spec fn offers_expeditions_at(self, now: i64) -> bool {
        self.questing_preference == ExpeditionSetting::PreferExpeditions
            && self.expeditions.spec_ongoing_at(now)
    }

    /// The tasks that the person in the tavern presents at `now`: the
    /// expeditions, where they are available and not disabled by the
    /// `questing_preference`, and else the quests.
    pub fn available_tasks_at(&self, now: i64) -> (r: AvailableTasks)
        ensures
            self.offers_expeditions_at(now) ==> (r matches AvailableTasks::Expeditions(e) && e@
                == self.expeditions.available@),
            !self.offers_expeditions_at(now) ==> (r matches AvailableTasks::Quests(q) && *q
                == self.quests),
    {
        if self.questing_preference == ExpeditionSetting::PreferExpeditions
            && self.expeditions.is_event_ongoing_at(now) {
            AvailableTasks::Expeditions(self.expeditions.available.as_slice())
        } else {
            AvailableTasks::Quests(&self.quests)
        }
    }

    /// Gives you the same tasks, that the person in the tavern would present
    /// you with. When expeditions are available and they are not disabled by
    /// the `questing_preference`, they will be shown. Otherwise you will get
    /// quests.
    pub fn available_tasks(&self) -> (r: AvailableTasks)
        ensures
            self.questing_preference == ExpeditionSetting::PreferQuests ==> (r matches AvailableTasks::Quests(
                q,
            ) && *q == self.quests),
            (r matches AvailableTasks::Expeditions(e) && e@ == self.expeditions.available@) || (
            r matches AvailableTasks::Quests(q) && *q == self.quests),
    {
        self.available_tasks_at(local_now())
    }

    /// The expedition/questing setting can only be changed, before any
    /// thirst for adventure is used that day.
    pub fn can_change_questing_preference(&self) -> (r: bool)
        ensures
            r == (self.thirst_for_adventure_sec == 6000 && self.beer_drunk == 0),
    {
        self.thirst_for_adventure_sec == 6000 && self.beer_drunk == 0
    }

    /// The quests that the player save describes.
    pub open spec fn spec_quests(d: Seq<i64>) -> [Quest; 3] {
        [
            Quest::spec_parse(d.skip(235), 0),
            Quest::spec_parse(d.skip(236), 1),
            Quest::spec_parse(d.skip(237), 2),
        ]
    }

    /// Updates the current action, the thirst for adventure, the beer and
    /// the quests from the player save.
    pub fn update(&mut self, data: &[i64], server_time: ServerTime) -> (r: Result<(), SFError>)
        ensures
            data@.len() > 457 <==> r is Ok,
            r is Ok ==> {
                &&& final(self).current_action == CurrentAction::spec_parse(
                    data@[45] & 0xFF,
                    data@[46] & 0xFF,
                    server_time.spec_convert(data@[47]),
                )
                &&& final(self).thirst_for_adventure_sec == soft_u32(data@[456], 0)
                &&& final(self).beer_drunk == soft_u8(data@[457], 0)
                &&& final(self).quests == Self::spec_quests(data@)
            },
            final(self).mushroom_skip_allowed == old(self).mushroom_skip_allowed,
            final(self).quicksand_glasses == old(self).quicksand_glasses,
            final(self).guard_wage == old(self).guard_wage,
            final(self).toilet == old(self).toilet,
            final(self).dice_game.remaining == old(self).dice_game.remaining,
            final(self).dice_game.next_free == old(self).dice_game.next_free,
            final(self).dice_game.current_dice == old(self).dice_game.current_dice,
            final(self).dice_game.reward == old(self).dice_game.reward,
            final(self).expeditions.start == old(self).expeditions.start,
            final(self).expeditions.end == old(self).expeditions.end,
            final(self).expeditions.available == old(self).expeditions.available,
            final(self).expeditions.active == old(self).expeditions.active,
            final(self).questing_preference == old(self).questing_preference,
            final(self).gamble_result == old(self).gamble_result,
    {
        let id = cget(data, 45, "action id")?;
        let sec = cget(data, 46, "action sec")?;
        let busy = cstget(data, 47, "current action time", server_time)?;
        self.current_action = CurrentAction::parse(id & 0xFF, sec & 0xFF, busy);
        self.thirst_for_adventure_sec = csiget_u32(data, 456, "remaining ALU", 0)?;
        self.beer_drunk = csiget_u8(data, 457, "beer drunk count", 0)?;
        let q0 = Quest::parse(skip(data, 235, "tavern quest")?, 0)?;
        let q1 = Quest::parse(skip(data, 236, "tavern quest")?, 1)?;
        let q2 = Quest::parse(skip(data, 237, "tavern quest")?, 2)?;
        self.quests = [q0, q1, q2];
        Ok(())
    }
}

} // verus!

verus! {

/// A quest is read from fixed positions of its values: its monster at 0,
/// its location at 3, its length at 6, its experience at 45 and its silver
/// at 48; its item starts at `9 + 11 * quest_index`.
pub proof fn lemma_quest_values(d: Seq<i64>, quest_index: int)
    ensures
        Quest::spec_parse(d, quest_index).base_length == soft_u32(d[6], 100_000),
        Quest::spec_parse(d, quest_index).base_experience == soft_u32(d[45], 0),
        Quest::spec_parse(d, quest_index).base_silver == soft_u32(d[48], 0),
        Quest::spec_parse(d, quest_index).location_id == Location::spec_or_default(d[3]),
        Quest::spec_parse(d, quest_index).monster_id == spec_monster_id(d[0]),
        Quest::spec_parse(d, quest_index).item == spec_item_at(d.skip(9 + quest_index * 11)),
{
}

} // verus!
