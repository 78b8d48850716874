use vstd::prelude::*;

use crate::error::SFError;
use crate::gamestate::items::Item;
use crate::gamestate::event::all_zero;
use crate::misc::{cget, csiget_u32, csiget_u64, soft_u32, soft_u64, soft_into_u32, tdiv, trem, too_short};

verus! {

/// The theme of a legendary dungeon event.
#[derive(Debug, Clone, Copy, PartialEq, Eq, Structural, Hash)]
pub enum LegendaryDungeonEventTheme {
    DiabolicalCompanyParty,
    LordOfTheThings,
    FantasticLegendaries,
    ShadyBirthdayBash,
    MassiveWinterSpectacle,
    AbyssOfMadness,
    HuntForBlazingEasterEgg,
    VileVacation,
    Unknown,
}

impl Default for LegendaryDungeonEventTheme {
    fn default() -> (r: Self)
        ensures
            r == LegendaryDungeonEventTheme::Unknown,
    {
        LegendaryDungeonEventTheme::Unknown
    }
}

impl LegendaryDungeonEventTheme {
    /// The value with the number the server uses for it.
    pub open spec fn spec_from_i64(v: i64) -> Option<LegendaryDungeonEventTheme> {
        if v == 1 { Some(LegendaryDungeonEventTheme::DiabolicalCompanyParty)
        } else if v == 2 { Some(LegendaryDungeonEventTheme::LordOfTheThings)
        } else if v == 3 { Some(LegendaryDungeonEventTheme::FantasticLegendaries)
        } else if v == 4 { Some(LegendaryDungeonEventTheme::ShadyBirthdayBash)
        } else if v == 5 { Some(LegendaryDungeonEventTheme::MassiveWinterSpectacle)
        } else if v == 6 { Some(LegendaryDungeonEventTheme::AbyssOfMadness)
        } else if v == 7 { Some(LegendaryDungeonEventTheme::HuntForBlazingEasterEgg)
        } else if v == 8 { Some(LegendaryDungeonEventTheme::VileVacation)
        } else if v == -1 { Some(LegendaryDungeonEventTheme::Unknown)
        } else { None }
    }

    /// The value with the number the server uses for it.
    pub fn from_i64(v: i64) -> (r: Option<LegendaryDungeonEventTheme>)
        ensures
            r == Self::spec_from_i64(v),
    {
        if v == 1 { Some(LegendaryDungeonEventTheme::DiabolicalCompanyParty)
        } else if v == 2 { Some(LegendaryDungeonEventTheme::LordOfTheThings)
        } else if v == 3 { Some(LegendaryDungeonEventTheme::FantasticLegendaries)
        } else if v == 4 { Some(LegendaryDungeonEventTheme::ShadyBirthdayBash)
        } else if v == 5 { Some(LegendaryDungeonEventTheme::MassiveWinterSpectacle)
        } else if v == 6 { Some(LegendaryDungeonEventTheme::AbyssOfMadness)
        } else if v == 7 { Some(LegendaryDungeonEventTheme::HuntForBlazingEasterEgg)
        } else if v == 8 { Some(LegendaryDungeonEventTheme::VileVacation)
        } else if v == -1 { Some(LegendaryDungeonEventTheme::Unknown)
        } else { None }
    }

    /// The value with the number the server uses for it, or the default.
    pub open spec fn spec_or_default(v: i64) -> LegendaryDungeonEventTheme {
        match Self::spec_from_i64(v) {
            Some(t) => t,
            None => LegendaryDungeonEventTheme::Unknown,
        }
    }

    /// The value with the number the server uses for it, or the default.
    pub fn from_i64_or_default(v: i64) -> (r: LegendaryDungeonEventTheme)
        ensures
            r == Self::spec_or_default(v),
    {
        match Self::from_i64(v) {
            Some(t) => t,
            None => LegendaryDungeonEventTheme::Unknown,
        }
    }
}

/// The stage a legendary dungeon is at.
#[derive(Debug, Clone, Copy, PartialEq, Eq, Structural, Hash)]
pub enum LegendaryDungeonStage {
    NotEntered,
    DoorSelect,
    RoomEntered,
    RoomInteracted,
    RoomSpecial,
    RoomFinished,
    Healing,
    Finished,
    Unknown,
}

impl Default for LegendaryDungeonStage {
    fn default() -> (r: Self)
        ensures
            r == LegendaryDungeonStage::Unknown,
    {
        LegendaryDungeonStage::Unknown
    }
}

impl LegendaryDungeonStage {
    /// The value with the number the server uses for it.
    pub open spec fn spec_from_i64(v: i64) -> Option<LegendaryDungeonStage> {
        if v == 0 { Some(LegendaryDungeonStage::NotEntered)
        } else if v == 1 { Some(LegendaryDungeonStage::DoorSelect)
        } else if v == 10 { Some(LegendaryDungeonStage::RoomEntered)
        } else if v == 11 { Some(LegendaryDungeonStage::RoomInteracted)
        } else if v == 12 { Some(LegendaryDungeonStage::RoomSpecial)
        } else if v == 100 { Some(LegendaryDungeonStage::RoomFinished)
        } else if v == 101 { Some(LegendaryDungeonStage::Healing)
        } else if v == 102 { Some(LegendaryDungeonStage::Finished)
        } else if v == -1 { Some(LegendaryDungeonStage::Unknown)
        } else { None }
    }

    /// The value with the number the server uses for it.
    pub fn from_i64(v: i64) -> (r: Option<LegendaryDungeonStage>)
        ensures
            r == Self::spec_from_i64(v),
    {
        if v == 0 { Some(LegendaryDungeonStage::NotEntered)
        } else if v == 1 { Some(LegendaryDungeonStage::DoorSelect)
        } else if v == 10 { Some(LegendaryDungeonStage::RoomEntered)
        } else if v == 11 { Some(LegendaryDungeonStage::RoomInteracted)
        } else if v == 12 { Some(LegendaryDungeonStage::RoomSpecial)
        } else if v == 100 { Some(LegendaryDungeonStage::RoomFinished)
        } else if v == 101 { Some(LegendaryDungeonStage::Healing)
        } else if v == 102 { Some(LegendaryDungeonStage::Finished)
        } else if v == -1 { Some(LegendaryDungeonStage::Unknown)
        } else { None }
    }

    /// The value with the number the server uses for it, or the default.
    pub open spec fn spec_or_default(v: i64) -> LegendaryDungeonStage {
        match Self::spec_from_i64(v) {
            Some(t) => t,
            None => LegendaryDungeonStage::Unknown,
        }
    }

    /// The value with the number the server uses for it, or the default.
    pub fn from_i64_or_default(v: i64) -> (r: LegendaryDungeonStage)
        ensures
            r == Self::spec_or_default(v),
    {
        match Self::from_i64(v) {
            Some(t) => t,
            None => LegendaryDungeonStage::Unknown,
        }
    }
}

/// The type of a room in the legendary dungeon.
#[derive(Debug, Clone, Copy, PartialEq, Eq, Structural, Hash)]
pub enum RoomType {
    Generic,
    BossRoom,
    FinalBossRoom,
    Encounter,
    Empty,
    FountainOfLife,
    HoleInTheFloor,
    PileOfRocks,
    TheFloorIsLava,
    DungeonNarrator,
    FloodedRoom,
    WishingWell,
    RockPaperScissors,
    Sewers,
    UndeadFiend,
    LockerRoom,
    UnlockedSarcophagus,
    Valaraukar,
    PileOfWood,
    KeyMasterShop,
    WheelOfFortune,
    SpiderWeb,
    BetaRoom,
    FlyingTube,
    SoulBath,
    ArcaneSplintersCave,
    KeyToFailureShop,
    RainbowRoom,
    PigRoom,
    AuctionHouse,
    MonsterCat1,
    MonsterCat2,
    Armory,
    Unknown,
}

impl Default for RoomType {
    fn default() -> (r: Self)
        ensures
            r == RoomType::Unknown,
    {
        RoomType::Unknown
    }
}

impl RoomType {
    /// The value with the number the server uses for it.
    pub open spec fn spec_from_i64(v: i64) -> Option<RoomType> {
        if v == 1 { Some(RoomType::Generic)
        } else if v == 4 { Some(RoomType::BossRoom)
        } else if v == 5 { Some(RoomType::FinalBossRoom)
        } else if v == 100 { Some(RoomType::Encounter)
        } else if v == 200 { Some(RoomType::Empty)
        } else if v == 301 { Some(RoomType::FountainOfLife)
        } else if v == 302 { Some(RoomType::HoleInTheFloor)
        } else if v == 303 { Some(RoomType::PileOfRocks)
        } else if v == 304 { Some(RoomType::TheFloorIsLava)
        } else if v == 305 { Some(RoomType::DungeonNarrator)
        } else if v == 306 { Some(RoomType::FloodedRoom)
        } else if v == 307 { Some(RoomType::WishingWell)
        } else if v == 308 { Some(RoomType::RockPaperScissors)
        } else if v == 309 { Some(RoomType::Sewers)
        } else if v == 310 { Some(RoomType::UndeadFiend)
        } else if v == 311 { Some(RoomType::LockerRoom)
        } else if v == 312 { Some(RoomType::UnlockedSarcophagus)
        } else if v == 313 { Some(RoomType::Valaraukar)
        } else if v == 314 { Some(RoomType::PileOfWood)
        } else if v == 315 { Some(RoomType::KeyMasterShop)
        } else if v == 316 { Some(RoomType::WheelOfFortune)
        } else if v == 317 { Some(RoomType::SpiderWeb)
        } else if v == 319 { Some(RoomType::BetaRoom)
        } else if v == 320 { Some(RoomType::FlyingTube)
        } else if v == 321 { Some(RoomType::SoulBath)
        } else if v == 322 { Some(RoomType::ArcaneSplintersCave)
        } else if v == 323 { Some(RoomType::KeyToFailureShop)
        } else if v == 324 { Some(RoomType::RainbowRoom)
        } else if v == 325 { Some(RoomType::PigRoom)
        } else if v == 326 { Some(RoomType::AuctionHouse)
        } else if v == 327 { Some(RoomType::MonsterCat1)
        } else if v == 328 { Some(RoomType::MonsterCat2)
        } else if v == 329 { Some(RoomType::Armory)
        } else if v == -1 { Some(RoomType::Unknown)
        } else { None }
    }

    /// The value with the number the server uses for it.
    pub fn from_i64(v: i64) -> (r: Option<RoomType>)
        ensures
            r == Self::spec_from_i64(v),
    {
        if v == 1 { Some(RoomType::Generic)
        } else if v == 4 { Some(RoomType::BossRoom)
        } else if v == 5 { Some(RoomType::FinalBossRoom)
        } else if v == 100 { Some(RoomType::Encounter)
        } else if v == 200 { Some(RoomType::Empty)
        } else if v == 301 { Some(RoomType::FountainOfLife)
        } else if v == 302 { Some(RoomType::HoleInTheFloor)
        } else if v == 303 { Some(RoomType::PileOfRocks)
        } else if v == 304 { Some(RoomType::TheFloorIsLava)
        } else if v == 305 { Some(RoomType::DungeonNarrator)
        } else if v == 306 { Some(RoomType::FloodedRoom)
        } else if v == 307 { Some(RoomType::WishingWell)
        } else if v == 308 { Some(RoomType::RockPaperScissors)
        } else if v == 309 { Some(RoomType::Sewers)
        } else if v == 310 { Some(RoomType::UndeadFiend)
        } else if v == 311 { Some(RoomType::LockerRoom)
        } else if v == 312 { Some(RoomType::UnlockedSarcophagus)
        } else if v == 313 { Some(RoomType::Valaraukar)
        } else if v == 314 { Some(RoomType::PileOfWood)
        } else if v == 315 { Some(RoomType::KeyMasterShop)
        } else if v == 316 { Some(RoomType::WheelOfFortune)
        } else if v == 317 { Some(RoomType::SpiderWeb)
        } else if v == 319 { Some(RoomType::BetaRoom)
        } else if v == 320 { Some(RoomType::FlyingTube)
        } else if v == 321 { Some(RoomType::SoulBath)
        } else if v == 322 { Some(RoomType::ArcaneSplintersCave)
        } else if v == 323 { Some(RoomType::KeyToFailureShop)
        } else if v == 324 { Some(RoomType::RainbowRoom)
        } else if v == 325 { Some(RoomType::PigRoom)
        } else if v == 326 { Some(RoomType::AuctionHouse)
        } else if v == 327 { Some(RoomType::MonsterCat1)
        } else if v == 328 { Some(RoomType::MonsterCat2)
        } else if v == 329 { Some(RoomType::Armory)
        } else if v == -1 { Some(RoomType::Unknown)
        } else { None }
    }

    /// The value with the number the server uses for it, or the default.
    pub open spec fn spec_or_default(v: i64) -> RoomType {
        match Self::spec_from_i64(v) {
            Some(t) => t,
            None => RoomType::Unknown,
        }
    }

    /// The value with the number the server uses for it, or the default.
    pub fn from_i64_or_default(v: i64) -> (r: RoomType)
        ensures
            r == Self::spec_or_default(v),
    {
        match Self::from_i64(v) {
            Some(t) => t,
            None => RoomType::Unknown,
        }
    }
}

/// The type of a door in the legendary dungeon.
#[derive(Debug, Clone, Copy, PartialEq, Eq, Structural, Hash)]
pub enum DoorType {
    Monster1,
    Monster2,
    Monster3,
    Boss1,
    Boss2,
    Blocked,
    MysteryDoor,
    LockedDoor,
    OpenDoor,
    EpicDoor,
    DoubleLockedDoor,
    GoldenDoor,
    SacrificialDoor,
    CursedDoor,
    KeyMasterShop,
    BlessingDoor,
    Wheel,
    Wood,
    Stone,
    Souls,
    Metal,
    Arcane,
    QuicksandGlasses,
    TrialRoom1,
    TrialRoom2,
    TrialRoom3,
    TrialRoom4,
    TrialRoom5,
    TrialRoomExit,
    Unknown,
}

impl Default for DoorType {
    fn default() -> (r: Self)
        ensures
            r == DoorType::Unknown,
    {
        DoorType::Unknown
    }
}

impl DoorType {
    /// The value with the number the server uses for it.
    pub open spec fn spec_from_i64(v: i64) -> Option<DoorType> {
        if v == 1 { Some(DoorType::Monster1)
        } else if v == 2 { Some(DoorType::Monster2)
        } else if v == 3 { Some(DoorType::Monster3)
        } else if v == 4 { Some(DoorType::Boss1)
        } else if v == 5 { Some(DoorType::Boss2)
        } else if v == 1000 { Some(DoorType::Blocked)
        } else if v == 1001 { Some(DoorType::MysteryDoor)
        } else if v == 1002 { Some(DoorType::LockedDoor)
        } else if v == 1003 { Some(DoorType::OpenDoor)
        } else if v == 1004 { Some(DoorType::EpicDoor)
        } else if v == 1005 { Some(DoorType::DoubleLockedDoor)
        } else if v == 1006 { Some(DoorType::GoldenDoor)
        } else if v == 1007 { Some(DoorType::SacrificialDoor)
        } else if v == 1008 { Some(DoorType::CursedDoor)
        } else if v == 1009 { Some(DoorType::KeyMasterShop)
        } else if v == 1010 { Some(DoorType::BlessingDoor)
        } else if v == 1011 { Some(DoorType::Wheel)
        } else if v == 1012 { Some(DoorType::Wood)
        } else if v == 1013 { Some(DoorType::Stone)
        } else if v == 1014 { Some(DoorType::Souls)
        } else if v == 1015 { Some(DoorType::Metal)
        } else if v == 1016 { Some(DoorType::Arcane)
        } else if v == 1017 { Some(DoorType::QuicksandGlasses)
        } else if v == 1018 { Some(DoorType::TrialRoom1)
        } else if v == 1019 { Some(DoorType::TrialRoom2)
        } else if v == 1020 { Some(DoorType::TrialRoom3)
        } else if v == 1021 { Some(DoorType::TrialRoom4)
        } else if v == 1022 { Some(DoorType::TrialRoom5)
        } else if v == 1023 { Some(DoorType::TrialRoomExit)
        } else if v == -1 { Some(DoorType::Unknown)
        } else { None }
    }

    /// The value with the number the server uses for it.
    pub fn from_i64(v: i64) -> (r: Option<DoorType>)
        ensures
            r == Self::spec_from_i64(v),
    {
        if v == 1 { Some(DoorType::Monster1)
        } else if v == 2 { Some(DoorType::Monster2)
        } else if v == 3 { Some(DoorType::Monster3)
        } else if v == 4 { Some(DoorType::Boss1)
        } else if v == 5 { Some(DoorType::Boss2)
        } else if v == 1000 { Some(DoorType::Blocked)
        } else if v == 1001 { Some(DoorType::MysteryDoor)
        } else if v == 1002 { Some(DoorType::LockedDoor)
        } else if v == 1003 { Some(DoorType::OpenDoor)
        } else if v == 1004 { Some(DoorType::EpicDoor)
        } else if v == 1005 { Some(DoorType::DoubleLockedDoor)
        } else if v == 1006 { Some(DoorType::GoldenDoor)
        } else if v == 1007 { Some(DoorType::SacrificialDoor)
        } else if v == 1008 { Some(DoorType::CursedDoor)
        } else if v == 1009 { Some(DoorType::KeyMasterShop)
        } else if v == 1010 { Some(DoorType::BlessingDoor)
        } else if v == 1011 { Some(DoorType::Wheel)
        } else if v == 1012 { Some(DoorType::Wood)
        } else if v == 1013 { Some(DoorType::Stone)
        } else if v == 1014 { Some(DoorType::Souls)
        } else if v == 1015 { Some(DoorType::Metal)
        } else if v == 1016 { Some(DoorType::Arcane)
        } else if v == 1017 { Some(DoorType::QuicksandGlasses)
        } else if v == 1018 { Some(DoorType::TrialRoom1)
        } else if v == 1019 { Some(DoorType::TrialRoom2)
        } else if v == 1020 { Some(DoorType::TrialRoom3)
        } else if v == 1021 { Some(DoorType::TrialRoom4)
        } else if v == 1022 { Some(DoorType::TrialRoom5)
        } else if v == 1023 { Some(DoorType::TrialRoomExit)
        } else if v == -1 { Some(DoorType::Unknown)
        } else { None }
    }

    /// The value with the number the server uses for it, or the default.
    pub open spec fn spec_or_default(v: i64) -> DoorType {
        match Self::spec_from_i64(v) {
            Some(t) => t,
            None => DoorType::Unknown,
        }
    }

    /// The value with the number the server uses for it, or the default.
    pub fn from_i64_or_default(v: i64) -> (r: DoorType)
        ensures
            r == Self::spec_or_default(v),
    {
        match Self::from_i64(v) {
            Some(t) => t,
            None => DoorType::Unknown,
        }
    }
}

/// A trap on a door in the legendary dungeon.
#[derive(Debug, Clone, Copy, PartialEq, Eq, Structural, Hash)]
pub enum DoorTrap {
    PoisonedDaggers,
    SwingingAxe,
    PaintBucket,
    BearTrap,
    Guillotine,
    HammerAmbush,
    TripWire,
    TopSpikes,
    Shark,
    Unknown,
}

impl Default for DoorTrap {
    fn default() -> (r: Self)
        ensures
            r == DoorTrap::Unknown,
    {
        DoorTrap::Unknown
    }
}

impl DoorTrap {
    /// The value with the number the server uses for it.
    pub open spec fn spec_from_i64(v: i64) -> Option<DoorTrap> {
        if v == 1 { Some(DoorTrap::PoisonedDaggers)
        } else if v == 2 { Some(DoorTrap::SwingingAxe)
        } else if v == 3 { Some(DoorTrap::PaintBucket)
        } else if v == 4 { Some(DoorTrap::BearTrap)
        } else if v == 5 { Some(DoorTrap::Guillotine)
        } else if v == 6 { Some(DoorTrap::HammerAmbush)
        } else if v == 7 { Some(DoorTrap::TripWire)
        } else if v == 8 { Some(DoorTrap::TopSpikes)
        } else if v == 9 { Some(DoorTrap::Shark)
        } else if v == -1 { Some(DoorTrap::Unknown)
        } else { None }
    }

    /// The value with the number the server uses for it.
    pub fn from_i64(v: i64) -> (r: Option<DoorTrap>)
        ensures
            r == Self::spec_from_i64(v),
    {
        if v == 1 { Some(DoorTrap::PoisonedDaggers)
        } else if v == 2 { Some(DoorTrap::SwingingAxe)
        } else if v == 3 { Some(DoorTrap::PaintBucket)
        } else if v == 4 { Some(DoorTrap::BearTrap)
        } else if v == 5 { Some(DoorTrap::Guillotine)
        } else if v == 6 { Some(DoorTrap::HammerAmbush)
        } else if v == 7 { Some(DoorTrap::TripWire)
        } else if v == 8 { Some(DoorTrap::TopSpikes)
        } else if v == 9 { Some(DoorTrap::Shark)
        } else if v == -1 { Some(DoorTrap::Unknown)
        } else { None }
    }

    /// The value with the number the server uses for it, or the default.
    pub open spec fn spec_or_default(v: i64) -> DoorTrap {
        match Self::spec_from_i64(v) {
            Some(t) => t,
            None => DoorTrap::Unknown,
        }
    }

    /// The value with the number the server uses for it, or the default.
    pub fn from_i64_or_default(v: i64) -> (r: DoorTrap)
        ensures
            r == Self::spec_or_default(v),
    {
        match Self::from_i64(v) {
            Some(t) => t,
            None => DoorTrap::Unknown,
        }
    }
}

/// The type of a blessing or a curse in the legendary dungeon.
#[derive(Debug, Clone, Copy, PartialEq, Eq, Structural, Hash)]
pub enum DungeonEffectType {
    Raider,
    OneHitWonder,
    EscapeAssistant,
    DisarmTraps,
    LockPick,
    KeyMoment,
    ElixirOfLife,
    RoadToRecovery,
    BrokenArmor,
    Poisoned,
    Panderous,
    GoldRushHangover,
    HardLock,
    Unknown,
}

impl Default for DungeonEffectType {
    fn default() -> (r: Self)
        ensures
            r == DungeonEffectType::Unknown,
    {
        DungeonEffectType::Unknown
    }
}

impl DungeonEffectType {
    /// The value with the number the server uses for it.
    pub open spec fn spec_from_i64(v: i64) -> Option<DungeonEffectType> {
        if v == 1 { Some(DungeonEffectType::Raider)
        } else if v == 2 { Some(DungeonEffectType::OneHitWonder)
        } else if v == 3 { Some(DungeonEffectType::EscapeAssistant)
        } else if v == 4 { Some(DungeonEffectType::DisarmTraps)
        } else if v == 5 { Some(DungeonEffectType::LockPick)
        } else if v == 6 { Some(DungeonEffectType::KeyMoment)
        } else if v == 7 { Some(DungeonEffectType::ElixirOfLife)
        } else if v == 8 { Some(DungeonEffectType::RoadToRecovery)
        } else if v == 101 { Some(DungeonEffectType::BrokenArmor)
        } else if v == 102 { Some(DungeonEffectType::Poisoned)
        } else if v == 103 { Some(DungeonEffectType::Panderous)
        } else if v == 104 { Some(DungeonEffectType::GoldRushHangover)
        } else if v == 105 { Some(DungeonEffectType::HardLock)
        } else if v == -1 { Some(DungeonEffectType::Unknown)
        } else { None }
    }

    /// The value with the number the server uses for it.
    pub fn from_i64(v: i64) -> (r: Option<DungeonEffectType>)
        ensures
            r == Self::spec_from_i64(v),
    {
        if v == 1 { Some(DungeonEffectType::Raider)
        } else if v == 2 { Some(DungeonEffectType::OneHitWonder)
        } else if v == 3 { Some(DungeonEffectType::EscapeAssistant)
        } else if v == 4 { Some(DungeonEffectType::DisarmTraps)
        } else if v == 5 { Some(DungeonEffectType::LockPick)
        } else if v == 6 { Some(DungeonEffectType::KeyMoment)
        } else if v == 7 { Some(DungeonEffectType::ElixirOfLife)
        } else if v == 8 { Some(DungeonEffectType::RoadToRecovery)
        } else if v == 101 { Some(DungeonEffectType::BrokenArmor)
        } else if v == 102 { Some(DungeonEffectType::Poisoned)
        } else if v == 103 { Some(DungeonEffectType::Panderous)
        } else if v == 104 { Some(DungeonEffectType::GoldRushHangover)
        } else if v == 105 { Some(DungeonEffectType::HardLock)
        } else if v == -1 { Some(DungeonEffectType::Unknown)
        } else { None }
    }

    /// The value with the number the server uses for it, or the default.
    pub open spec fn spec_or_default(v: i64) -> DungeonEffectType {
        match Self::spec_from_i64(v) {
            Some(t) => t,
            None => DungeonEffectType::Unknown,
        }
    }

    /// The value with the number the server uses for it, or the default.
    pub fn from_i64_or_default(v: i64) -> (r: DungeonEffectType)
        ensures
            r == Self::spec_or_default(v),
    {
        match Self::from_i64(v) {
            Some(t) => t,
            None => DungeonEffectType::Unknown,
        }
    }
}

/// The type of a gem of fate.
#[derive(Debug, Clone, Copy, PartialEq, Eq, Structural, Hash)]
pub enum GemOfFateType {
    EyeOfTheBull,
    SoulOfTheRabbit,
    BoulderOfGreed,
    EmeraldOfTheExplorer,
    PearlOfTheMasochist,
    PendantOfTheKeyMaster,
    PebbleOfDeceit,
    GreasyHealingStone,
    SpyingGem,
    LodeStone,
    BoulderOfTheGambler,
    OldSacrificialStone,
    BloodDropOfSacrifice,
    KidneyStoneOfDetermination,
    HopeOfTheThirstyOne,
    ErraticBoulderOfTheHip,
    SaphireOfTheMisadventurer,
    CursedMoonstone,
    DiamondOfTheTimetraveler,
    TreasureOfTheHero,
    CrownJewelOfTheDevil,
    CursedPearl,
    RustyHealingStone,
    Unknown,
}

impl Default for GemOfFateType {
    fn default() -> (r: Self)
        ensures
            r == GemOfFateType::Unknown,
    {
        GemOfFateType::Unknown
    }
}

impl GemOfFateType {
    /// The value with the number the server uses for it.
    pub open spec fn spec_from_i64(v: i64) -> Option<GemOfFateType> {
        if v == 1 { Some(GemOfFateType::EyeOfTheBull)
        } else if v == 2 { Some(GemOfFateType::SoulOfTheRabbit)
        } else if v == 3 { Some(GemOfFateType::BoulderOfGreed)
        } else if v == 4 { Some(GemOfFateType::EmeraldOfTheExplorer)
        } else if v == 5 { Some(GemOfFateType::PearlOfTheMasochist)
        } else if v == 6 { Some(GemOfFateType::PendantOfTheKeyMaster)
        } else if v == 7 { Some(GemOfFateType::PebbleOfDeceit)
        } else if v == 8 { Some(GemOfFateType::GreasyHealingStone)
        } else if v == 9 { Some(GemOfFateType::SpyingGem)
        } else if v == 10 { Some(GemOfFateType::LodeStone)
        } else if v == 11 { Some(GemOfFateType::BoulderOfTheGambler)
        } else if v == 12 { Some(GemOfFateType::OldSacrificialStone)
        } else if v == 13 { Some(GemOfFateType::BloodDropOfSacrifice)
        } else if v == 14 { Some(GemOfFateType::KidneyStoneOfDetermination)
        } else if v == 15 { Some(GemOfFateType::HopeOfTheThirstyOne)
        } else if v == 16 { Some(GemOfFateType::ErraticBoulderOfTheHip)
        } else if v == 17 { Some(GemOfFateType::SaphireOfTheMisadventurer)
        } else if v == 18 { Some(GemOfFateType::CursedMoonstone)
        } else if v == 19 { Some(GemOfFateType::DiamondOfTheTimetraveler)
        } else if v == 20 { Some(GemOfFateType::TreasureOfTheHero)
        } else if v == 21 { Some(GemOfFateType::CrownJewelOfTheDevil)
        } else if v == 22 { Some(GemOfFateType::CursedPearl)
        } else if v == 23 { Some(GemOfFateType::RustyHealingStone)
        } else if v == -1 { Some(GemOfFateType::Unknown)
        } else { None }
    }

    /// The value with the number the server uses for it.
    pub fn from_i64(v: i64) -> (r: Option<GemOfFateType>)
        ensures
            r == Self::spec_from_i64(v),
    {
        if v == 1 { Some(GemOfFateType::EyeOfTheBull)
        } else if v == 2 { Some(GemOfFateType::SoulOfTheRabbit)
        } else if v == 3 { Some(GemOfFateType::BoulderOfGreed)
        } else if v == 4 { Some(GemOfFateType::EmeraldOfTheExplorer)
        } else if v == 5 { Some(GemOfFateType::PearlOfTheMasochist)
        } else if v == 6 { Some(GemOfFateType::PendantOfTheKeyMaster)
        } else if v == 7 { Some(GemOfFateType::PebbleOfDeceit)
        } else if v == 8 { Some(GemOfFateType::GreasyHealingStone)
        } else if v == 9 { Some(GemOfFateType::SpyingGem)
        } else if v == 10 { Some(GemOfFateType::LodeStone)
        } else if v == 11 { Some(GemOfFateType::BoulderOfTheGambler)
        } else if v == 12 { Some(GemOfFateType::OldSacrificialStone)
        } else if v == 13 { Some(GemOfFateType::BloodDropOfSacrifice)
        } else if v == 14 { Some(GemOfFateType::KidneyStoneOfDetermination)
        } else if v == 15 { Some(GemOfFateType::HopeOfTheThirstyOne)
        } else if v == 16 { Some(GemOfFateType::ErraticBoulderOfTheHip)
        } else if v == 17 { Some(GemOfFateType::SaphireOfTheMisadventurer)
        } else if v == 18 { Some(GemOfFateType::CursedMoonstone)
        } else if v == 19 { Some(GemOfFateType::DiamondOfTheTimetraveler)
        } else if v == 20 { Some(GemOfFateType::TreasureOfTheHero)
        } else if v == 21 { Some(GemOfFateType::CrownJewelOfTheDevil)
        } else if v == 22 { Some(GemOfFateType::CursedPearl)
        } else if v == 23 { Some(GemOfFateType::RustyHealingStone)
        } else if v == -1 { Some(GemOfFateType::Unknown)
        } else { None }
    }

    /// The value with the number the server uses for it, or the default.
    pub open spec fn spec_or_default(v: i64) -> GemOfFateType {
        match Self::spec_from_i64(v) {
            Some(t) => t,
            None => GemOfFateType::Unknown,
        }
    }

    /// The value with the number the server uses for it, or the default.
    pub fn from_i64_or_default(v: i64) -> (r: GemOfFateType)
        ensures
            r == Self::spec_or_default(v),
    {
        match Self::from_i64(v) {
            Some(t) => t,
            None => GemOfFateType::Unknown,
        }
    }
}

/// An effect of a gem of fate.
#[derive(Debug, Clone, Copy, PartialEq, Eq, Structural, Hash)]
pub enum GemOfFateEffect {
    ChanceOfKeys,
    EscapeChance,
    DamageFromEscape,
    ChanceOfKeyAfterEscape,
    ChanceOfCurseAfterEscape,
    DurationOfBlessings,
    DurationOfCurses,
    ChanceOfStrongerCurses,
    DamageFromMonsters,
    ChanceOfBlessingAfterFight,
    ChanceOfCurseAfterFight,
    ChanceOfBlessingsInBarrels,
    ChanceOfBetterBlessingsInBarrels,
    DamageFromSacDoors,
    DamageFromChests,
    DamageFromTraps,
    BlessingOrCurseAfterRevive,
    BlessingsInBarrelsChestsCorpses,
    HealingFromBlessings,
    Unknown,
}

impl Default for GemOfFateEffect {
    fn default() -> (r: Self)
        ensures
            r == GemOfFateEffect::Unknown,
    {
        GemOfFateEffect::Unknown
    }
}

impl GemOfFateEffect {
    /// The value with the number the server uses for it.
    pub open spec fn spec_from_i64(v: i64) -> Option<GemOfFateEffect> {
        if v == 1 { Some(GemOfFateEffect::ChanceOfKeys)
        } else if v == 10 { Some(GemOfFateEffect::EscapeChance)
        } else if v == 11 { Some(GemOfFateEffect::DamageFromEscape)
        } else if v == 12 { Some(GemOfFateEffect::ChanceOfKeyAfterEscape)
        } else if v == 13 { Some(GemOfFateEffect::ChanceOfCurseAfterEscape)
        } else if v == 30 { Some(GemOfFateEffect::DurationOfBlessings)
        } else if v == 31 { Some(GemOfFateEffect::DurationOfCurses)
        } else if v == 32 { Some(GemOfFateEffect::ChanceOfStrongerCurses)
        } else if v == 40 { Some(GemOfFateEffect::DamageFromMonsters)
        } else if v == 41 { Some(GemOfFateEffect::ChanceOfBlessingAfterFight)
        } else if v == 42 { Some(GemOfFateEffect::ChanceOfCurseAfterFight)
        } else if v == 50 { Some(GemOfFateEffect::ChanceOfBlessingsInBarrels)
        } else if v == 51 { Some(GemOfFateEffect::ChanceOfBetterBlessingsInBarrels)
        } else if v == 70 { Some(GemOfFateEffect::DamageFromSacDoors)
        } else if v == 71 { Some(GemOfFateEffect::DamageFromChests)
        } else if v == 90 { Some(GemOfFateEffect::DamageFromTraps)
        } else if v == 100 { Some(GemOfFateEffect::BlessingOrCurseAfterRevive)
        } else if v == 110 { Some(GemOfFateEffect::BlessingsInBarrelsChestsCorpses)
        } else if v == 130 { Some(GemOfFateEffect::HealingFromBlessings)
        } else if v == -1 { Some(GemOfFateEffect::Unknown)
        } else { None }
    }

    /// The value with the number the server uses for it.
    pub fn from_i64(v: i64) -> (r: Option<GemOfFateEffect>)
        ensures
            r == Self::spec_from_i64(v),
    {
        if v == 1 { Some(GemOfFateEffect::ChanceOfKeys)
        } else if v == 10 { Some(GemOfFateEffect::EscapeChance)
        } else if v == 11 { Some(GemOfFateEffect::DamageFromEscape)
        } else if v == 12 { Some(GemOfFateEffect::ChanceOfKeyAfterEscape)
        } else if v == 13 { Some(GemOfFateEffect::ChanceOfCurseAfterEscape)
        } else if v == 30 { Some(GemOfFateEffect::DurationOfBlessings)
        } else if v == 31 { Some(GemOfFateEffect::DurationOfCurses)
        } else if v == 32 { Some(GemOfFateEffect::ChanceOfStrongerCurses)
        } else if v == 40 { Some(GemOfFateEffect::DamageFromMonsters)
        } else if v == 41 { Some(GemOfFateEffect::ChanceOfBlessingAfterFight)
        } else if v == 42 { Some(GemOfFateEffect::ChanceOfCurseAfterFight)
        } else if v == 50 { Some(GemOfFateEffect::ChanceOfBlessingsInBarrels)
        } else if v == 51 { Some(GemOfFateEffect::ChanceOfBetterBlessingsInBarrels)
        } else if v == 70 { Some(GemOfFateEffect::DamageFromSacDoors)
        } else if v == 71 { Some(GemOfFateEffect::DamageFromChests)
        } else if v == 90 { Some(GemOfFateEffect::DamageFromTraps)
        } else if v == 100 { Some(GemOfFateEffect::BlessingOrCurseAfterRevive)
        } else if v == 110 { Some(GemOfFateEffect::BlessingsInBarrelsChestsCorpses)
        } else if v == 130 { Some(GemOfFateEffect::HealingFromBlessings)
        } else if v == -1 { Some(GemOfFateEffect::Unknown)
        } else { None }
    }

    /// The value with the number the server uses for it, or the default.
    pub open spec fn spec_or_default(v: i64) -> GemOfFateEffect {
        match Self::spec_from_i64(v) {
            Some(t) => t,
            None => GemOfFateEffect::Unknown,
        }
    }

    /// The value with the number the server uses for it, or the default.
    pub fn from_i64_or_default(v: i64) -> (r: GemOfFateEffect)
        ensures
            r == Self::spec_or_default(v),
    {
        match Self::from_i64(v) {
            Some(t) => t,
            None => GemOfFateEffect::Unknown,
        }
    }
}

/// A special disadvantage of a gem of fate.
#[derive(Debug, Clone, Copy, PartialEq, Eq, Structural, Hash)]
pub enum GemOfFateSpecialDisadvantage {
    WeakerMonstersSpawn,
    StrongerMonstersSpawn,
    MoreTrapsSpawn,
    SacChestsSpawnBehindClosedDoors,
    MoreSacDoors,
    FewerSacDoors,
    CursedChestsSpawnBehindClosedDoors,
    MoreCursedDoors,
    FewerCursedDoors,
    ChanceOfEpicDoors,
    ChanceOfUnlockedDoors,
    ChanceOfDoubleLockedDoor,
    MoreMysteriousRooms,
    FewerMysteriousRooms,
    AlwaysOneTrap,
    AlwaysOneLock,
    MonstersBehindDoors,
    NoMoreEpicChests,
    TrapsInflictCurse,
    Unknown,
}

impl Default for GemOfFateSpecialDisadvantage {
    fn default() -> (r: Self)
        ensures
            r == GemOfFateSpecialDisadvantage::Unknown,
    {
        GemOfFateSpecialDisadvantage::Unknown
    }
}

impl GemOfFateSpecialDisadvantage {
    /// The value with the number the server uses for it.
    pub open spec fn spec_from_i64(v: i64) -> Option<GemOfFateSpecialDisadvantage> {
        if v == 1 { Some(GemOfFateSpecialDisadvantage::WeakerMonstersSpawn)
        } else if v == 2 { Some(GemOfFateSpecialDisadvantage::StrongerMonstersSpawn)
        } else if v == 3 { Some(GemOfFateSpecialDisadvantage::MoreTrapsSpawn)
        } else if v == 6 { Some(GemOfFateSpecialDisadvantage::SacChestsSpawnBehindClosedDoors)
        } else if v == 8 { Some(GemOfFateSpecialDisadvantage::MoreSacDoors)
        } else if v == 9 { Some(GemOfFateSpecialDisadvantage::FewerSacDoors)
        } else if v == 10 { Some(GemOfFateSpecialDisadvantage::CursedChestsSpawnBehindClosedDoors)
        } else if v == 12 { Some(GemOfFateSpecialDisadvantage::MoreCursedDoors)
        } else if v == 13 { Some(GemOfFateSpecialDisadvantage::FewerCursedDoors)
        } else if v == 17 { Some(GemOfFateSpecialDisadvantage::ChanceOfEpicDoors)
        } else if v == 18 { Some(GemOfFateSpecialDisadvantage::ChanceOfUnlockedDoors)
        } else if v == 19 { Some(GemOfFateSpecialDisadvantage::ChanceOfDoubleLockedDoor)
        } else if v == 20 { Some(GemOfFateSpecialDisadvantage::MoreMysteriousRooms)
        } else if v == 21 { Some(GemOfFateSpecialDisadvantage::FewerMysteriousRooms)
        } else if v == 22 { Some(GemOfFateSpecialDisadvantage::AlwaysOneTrap)
        } else if v == 23 { Some(GemOfFateSpecialDisadvantage::AlwaysOneLock)
        } else if v == 24 { Some(GemOfFateSpecialDisadvantage::MonstersBehindDoors)
        } else if v == 25 { Some(GemOfFateSpecialDisadvantage::NoMoreEpicChests)
        } else if v == 26 { Some(GemOfFateSpecialDisadvantage::TrapsInflictCurse)
        } else if v == -1 { Some(GemOfFateSpecialDisadvantage::Unknown)
        } else { None }
    }

    /// The value with the number the server uses for it.
    pub fn from_i64(v: i64) -> (r: Option<GemOfFateSpecialDisadvantage>)
        ensures
            r == Self::spec_from_i64(v),
    {
        if v == 1 { Some(GemOfFateSpecialDisadvantage::WeakerMonstersSpawn)
        } else if v == 2 { Some(GemOfFateSpecialDisadvantage::StrongerMonstersSpawn)
        } else if v == 3 { Some(GemOfFateSpecialDisadvantage::MoreTrapsSpawn)
        } else if v == 6 { Some(GemOfFateSpecialDisadvantage::SacChestsSpawnBehindClosedDoors)
        } else if v == 8 { Some(GemOfFateSpecialDisadvantage::MoreSacDoors)
        } else if v == 9 { Some(GemOfFateSpecialDisadvantage::FewerSacDoors)
        } else if v == 10 { Some(GemOfFateSpecialDisadvantage::CursedChestsSpawnBehindClosedDoors)
        } else if v == 12 { Some(GemOfFateSpecialDisadvantage::MoreCursedDoors)
        } else if v == 13 { Some(GemOfFateSpecialDisadvantage::FewerCursedDoors)
        } else if v == 17 { Some(GemOfFateSpecialDisadvantage::ChanceOfEpicDoors)
        } else if v == 18 { Some(GemOfFateSpecialDisadvantage::ChanceOfUnlockedDoors)
        } else if v == 19 { Some(GemOfFateSpecialDisadvantage::ChanceOfDoubleLockedDoor)
        } else if v == 20 { Some(GemOfFateSpecialDisadvantage::MoreMysteriousRooms)
        } else if v == 21 { Some(GemOfFateSpecialDisadvantage::FewerMysteriousRooms)
        } else if v == 22 { Some(GemOfFateSpecialDisadvantage::AlwaysOneTrap)
        } else if v == 23 { Some(GemOfFateSpecialDisadvantage::AlwaysOneLock)
        } else if v == 24 { Some(GemOfFateSpecialDisadvantage::MonstersBehindDoors)
        } else if v == 25 { Some(GemOfFateSpecialDisadvantage::NoMoreEpicChests)
        } else if v == 26 { Some(GemOfFateSpecialDisadvantage::TrapsInflictCurse)
        } else if v == -1 { Some(GemOfFateSpecialDisadvantage::Unknown)
        } else { None }
    }

    /// The value with the number the server uses for it, or the default.
    pub open spec fn spec_or_default(v: i64) -> GemOfFateSpecialDisadvantage {
        match Self::spec_from_i64(v) {
            Some(t) => t,
            None => GemOfFateSpecialDisadvantage::Unknown,
        }
    }

    /// The value with the number the server uses for it, or the default.
    pub fn from_i64_or_default(v: i64) -> (r: GemOfFateSpecialDisadvantage)
        ensures
            r == Self::spec_or_default(v),
    {
        match Self::from_i64(v) {
            Some(t) => t,
            None => GemOfFateSpecialDisadvantage::Unknown,
        }
    }
}

/// A choice in the game of rock, paper, scissors.
#[derive(Debug, Clone, Copy, PartialEq, Eq, Structural, Hash)]
pub enum RPSChoice {
    Rock,
    Paper,
    Scissors,
}

impl RPSChoice {
    /// The value with the number the server uses for it.
    pub open spec fn spec_from_i64(v: i64) -> Option<RPSChoice> {
        if v == 90 { Some(RPSChoice::Rock)
        } else if v == 91 { Some(RPSChoice::Paper)
        } else if v == 92 { Some(RPSChoice::Scissors)
        } else { None }
    }

    /// The value with the number the server uses for it.
    pub fn from_i64(v: i64) -> (r: Option<RPSChoice>)
        ensures
            r == Self::spec_from_i64(v),
    {
        if v == 90 { Some(RPSChoice::Rock)
        } else if v == 91 { Some(RPSChoice::Paper)
        } else if v == 92 { Some(RPSChoice::Scissors)
        } else { None }
    }
}


/// The state of a room.
#[derive(Debug, Clone, Copy, PartialEq, Eq, Structural)]
pub enum RoomStatus {
    Entered,
    Interacted,
    Special,
    Finished,
}

/// What there is in a room.
#[derive(Debug, Clone, Copy, PartialEq, Eq, Structural, Hash)]
pub enum RoomEncounter {
    BronzeChest,
    SilverChest,
    EpicChest,
    Crate1,
    Crate2,
    Crate3,
    WarriorSkeleton,
    MageSkeleton,
    Barrel,
    MimicChest,
    SacrificialChest,
    CurseChest,
    PrizeChest,
    SatedChest,
    Monster(u16),
    Unknown,
}

impl Default for RoomEncounter {
    fn default() -> (r: Self)
        ensures
            r == RoomEncounter::Unknown,
    {
        RoomEncounter::Unknown
    }
}

impl RoomEncounter {
    /// The encounter with the number the server uses for it: negative
    /// numbers are monsters (by their negated id).
    pub open spec fn spec_parse(v: i64) -> RoomEncounter {
        if v == 0 {
            RoomEncounter::BronzeChest
        } else if v == 1 {
            RoomEncounter::SilverChest
        } else if v == 2 {
            RoomEncounter::EpicChest
        } else if v == 100 {
            RoomEncounter::Crate1
        } else if v == 101 {
            RoomEncounter::Crate2
        } else if v == 102 {
            RoomEncounter::Crate3
        } else if v == 300 {
            RoomEncounter::MageSkeleton
        } else if v == 301 {
            RoomEncounter::WarriorSkeleton
        } else if v == 400 {
            RoomEncounter::Barrel
        } else if v == 500 {
            RoomEncounter::MimicChest
        } else if v == 600 {
            RoomEncounter::SacrificialChest
        } else if v == 601 {
            RoomEncounter::CurseChest
        } else if v == 602 {
            RoomEncounter::PrizeChest
        } else if v == 603 {
            RoomEncounter::SatedChest
        } else if v < 0 {
            RoomEncounter::Monster(if -v <= 65535 { (-v) as u16 } else { 0 })
        } else {
            RoomEncounter::Unknown
        }
    }

    /// The encounter with the number the server uses for it.
    pub fn parse(v: i64) -> (r: RoomEncounter)
        ensures
            r == Self::spec_parse(v),
    {
        if v == 0 {
            RoomEncounter::BronzeChest
        } else if v == 1 {
            RoomEncounter::SilverChest
        } else if v == 2 {
            RoomEncounter::EpicChest
        } else if v == 100 {
            RoomEncounter::Crate1
        } else if v == 101 {
            RoomEncounter::Crate2
        } else if v == 102 {
            RoomEncounter::Crate3
        } else if v == 300 {
            RoomEncounter::MageSkeleton
        } else if v == 301 {
            RoomEncounter::WarriorSkeleton
        } else if v == 400 {
            RoomEncounter::Barrel
        } else if v == 500 {
            RoomEncounter::MimicChest
        } else if v == 600 {
            RoomEncounter::SacrificialChest
        } else if v == 601 {
            RoomEncounter::CurseChest
        } else if v == 602 {
            RoomEncounter::PrizeChest
        } else if v == 603 {
            RoomEncounter::SatedChest
        } else if v < 0 {
            RoomEncounter::Monster(if -65535 <= v {
                (-v) as u16
            } else {
                0
            })
        } else {
            RoomEncounter::Unknown
        }
    }
}

/// A door to choose in the legendary dungeon.
#[derive(Debug, Clone, Copy, PartialEq, Eq, Structural)]
pub struct Door {
    pub typ: DoorType,
    pub trap: Option<DoorTrap>,
}

/// A blessing or a curse in the legendary dungeon.
#[derive(Debug, Clone, Copy, PartialEq, Eq, Structural)]
pub struct DungeonEffect {
    pub typ: DungeonEffectType,
    /// The amount of rooms, or uses this effect is still active for
    pub remaining_uses: u32,
    /// The amount of rooms, or uses this effect will be active for after you
    /// get it
    pub max_uses: u32,
    /// The strength of this effect
    pub strength: u32,
}

/// `v` as a `u32`, or 0 where it does not fit.
pub open spec fn u32_or_zero(v: i64) -> u32 {
    if 0 <= v <= u32::MAX { v as u32 } else { 0 }
}

fn to_u32_or_zero(v: i64) -> (r: u32)
    ensures
        r == u32_or_zero(v),
{
    if 0 <= v && v <= 4294967295 {
        v as u32
    } else {
        0
    }
}

impl DungeonEffect {
    /// The effect that its type, remaining uses, maximal uses and strength
    /// describe: none for a type that is not positive.
    pub open spec fn spec_parse(typ: i64, remaining: i64, max_uses: i64, strength: i64) -> Option<DungeonEffect> {
        if typ <= 0 {
            None
        } else {
            Some(DungeonEffect {
                typ: DungeonEffectType::spec_or_default(typ),
                remaining_uses: u32_or_zero(remaining),
                max_uses: u32_or_zero(max_uses),
                strength: u32_or_zero(strength),
            })
        }
    }

    /// Parses an effect from its type, remaining uses, maximal uses and
    /// strength.
    pub fn parse(typ: i64, remaining: i64, max_uses: i64, strength: i64) -> (r: Option<Self>)
        ensures
            r == Self::spec_parse(typ, remaining, max_uses, strength),
    {
        if typ <= 0 {
            return None;
        }
        Some(DungeonEffect {
            typ: DungeonEffectType::from_i64_or_default(typ),
            remaining_uses: to_u32_or_zero(remaining),
            max_uses: to_u32_or_zero(max_uses),
            strength: to_u32_or_zero(strength),
        })
    }
}

/// The statistics of a run of the legendary dungeon.
#[derive(Debug, Clone, Copy, PartialEq, Eq, Structural)]
pub struct Stats {
    pub items_found: u32,
    pub epics_found: u32,
    pub keys_found: u32,
    pub silver_found: u64,
    pub attempts: u32,
}

impl Stats {
    /// Parses the statistics from their (at least 5) values.
    pub fn parse(data: &[i64]) -> (r: Result<Self, SFError>)
        ensures
            data@.len() >= 5 <==> r is Ok,
            r is Ok ==> r == Ok::<Stats, SFError>(Stats {
                items_found: soft_u32(data@[0], 0),
                epics_found: soft_u32(data@[1], 0),
                keys_found: soft_u32(data@[2], 0),
                silver_found: soft_u64(data@[3], 0),
                attempts: soft_u32(data@[4], 0),
            }),
    {
        Ok(Stats {
            items_found: csiget_u32(data, 0, "ld item found", 0)?,
            epics_found: csiget_u32(data, 1, "ld epic found", 0)?,
            keys_found: csiget_u32(data, 2, "ld keys found", 0)?,
            silver_found: csiget_u64(data, 3, "ld silver found", 0)?,
            attempts: csiget_u32(data, 4, "ld attempts", 0)?,
        })
    }
}

/// The statistics over all runs of the legendary dungeon.
#[derive(Debug, Clone, Copy, PartialEq, Eq, Structural)]
pub struct TotalStats {
    pub legendaries_found: u32,
    pub attempts_best_run: u32,
    pub enemies_defeated: u32,
    pub epics_found: u32,
    pub gold_found: u64,
}

impl TotalStats {
    /// Parses the statistics from their (at least 5) values.
    pub fn parse(data: &[i64]) -> (r: Result<Self, SFError>)
        ensures
            data@.len() >= 5 <==> r is Ok,
            r is Ok ==> r == Ok::<TotalStats, SFError>(TotalStats {
                legendaries_found: soft_u32(data@[0], 0),
                attempts_best_run: soft_u32(data@[1], 0),
                enemies_defeated: soft_u32(data@[2], 0),
                epics_found: soft_u32(data@[3], 0),
                gold_found: soft_u64(data@[4], 0),
            }),
    {
        Ok(TotalStats {
            legendaries_found: csiget_u32(data, 0, "ld total legendaries", 0)?,
            attempts_best_run: csiget_u32(data, 1, "ld best attempts", 0)?,
            enemies_defeated: csiget_u32(data, 2, "ld enemies defeated", 0)?,
            epics_found: csiget_u32(data, 3, "ld total epics", 0)?,
            gold_found: csiget_u64(data, 4, "ld total gold", 0)?,
        })
    }
}

/// An offer of the merchant in the legendary dungeon.
#[derive(Debug, Clone, Copy, PartialEq, Eq, Structural)]
pub struct MerchantOffer {
    pub typ: DungeonEffectType,
    pub max_uses: u32,
    pub strength: u32,
    pub keys: u32,
}

impl MerchantOffer {
    /// Parses an offer from its values: none where all are 0.
    pub fn parse(data: &[i64]) -> (r: Result<Option<Self>, SFError>)
        ensures
            all_zero(data@) ==> r == Ok::<Option<MerchantOffer>, SFError>(None),
            !all_zero(data@) ==> (data@.len() >= 3 <==> r is Ok),
            !all_zero(data@) && r is Ok ==> r == Ok::<Option<MerchantOffer>, SFError>(Some(MerchantOffer {
                typ: DungeonEffectType::spec_or_default(data@[0]),
                max_uses: (soft_u32(data@[1], 0) / 10_000) as u32,
                strength: (soft_u32(data@[1], 0) % 10_000) as u32,
                keys: soft_u32(data@[2], u32::MAX),
            })),
    {
        if crate::gamestate::event::is_all_zero_pub(data) {
            return Ok(None);
        }
        let typ = DungeonEffectType::from_i64_or_default(cget(data, 0, "ld merchant offer type")?);
        let s = csiget_u32(data, 1, "ld merchant effect", 0)?;
        let price = csiget_u32(data, 2, "ld merchant price", 4294967295)?;
        Ok(Some(MerchantOffer { typ, max_uses: s / 10_000, strength: s % 10_000, keys: price }))
    }
}

/// A gem of fate.
#[derive(Debug, Clone, Copy, PartialEq, Eq, Structural)]
pub struct GemOfFate {
    pub typ: GemOfFateType,
    pub advantage: Option<GemOfFateEffect>,
    pub advantage_pwr: i64,
    pub disadvantage: Option<GemOfFateEffect>,
    pub disadvantage_pwr: i64,
    pub disadvantage_effect: Option<GemOfFateSpecialDisadvantage>,
}

impl GemOfFate {
    /// Parses a gem of fate from its values: none where all are 0.
    pub fn parse(data: &[i64]) -> (r: Result<Option<GemOfFate>, SFError>)
        ensures
            all_zero(data@) ==> r == Ok::<Option<GemOfFate>, SFError>(None),
            !all_zero(data@) ==> (data@.len() >= 6 <==> r is Ok),
            !all_zero(data@) && r is Ok ==> r == Ok::<Option<GemOfFate>, SFError>(Some(GemOfFate {
                typ: GemOfFateType::spec_or_default(data@[0]),
                advantage: GemOfFateEffect::spec_from_i64(data@[1]),
                advantage_pwr: data@[2],
                disadvantage: GemOfFateEffect::spec_from_i64(data@[3]),
                disadvantage_pwr: data@[4],
                disadvantage_effect: GemOfFateSpecialDisadvantage::spec_from_i64(data@[5]),
            })),
    {
        if crate::gamestate::event::is_all_zero_pub(data) {
            return Ok(None);
        }
        Ok(Some(GemOfFate {
            typ: GemOfFateType::from_i64_or_default(cget(data, 0, "ld gof typ")?),
            advantage: GemOfFateEffect::from_i64(cget(data, 1, "ld gof adv")?),
            advantage_pwr: cget(data, 2, "ld gof dis val")?,
            disadvantage: GemOfFateEffect::from_i64(cget(data, 3, "ld gof dis")?),
            disadvantage_pwr: cget(data, 4, "ld gof dis val")?,
            disadvantage_effect: GemOfFateSpecialDisadvantage::from_i64(cget(data, 5, "ld gof dis effect")?),
        }))
    }
}

/// A run of the legendary dungeon.
#[derive(Debug, Clone)]
pub struct LegendaryDungeon {
    pub stats: Stats,
    pub total_stats: TotalStats,
    pub current_hp: i64,
    pub pre_battle_hp: i64,
    pub max_hp: i64,
    pub blessings: [Option<DungeonEffect>; 3],
    pub curses: [Option<DungeonEffect>; 3],
    pub stage: LegendaryDungeonStage,
    pub current_floor: u32,
    pub max_floor: u32,
    pub keys: u32,
    pub heal_quarter_cost: u32,
    pub merchant_offers: Vec<MerchantOffer>,
    pub active_gems: Vec<GemOfFate>,
    pub doors: [Door; 2],
    pub room_type: RoomType,
    pub encounter: RoomEncounter,
    pub pending_items: Vec<Item>,
    pub available_gems: Vec<GemOfFate>,
    /// 2 is alive, 0 is dead (healing)
    pub health_status: i64,
    pub healing_start: Option<i64>,
}

/// The effect at position `pos` of the dungeon values: its type at
/// `typ_pos`, the combined remaining uses and strength at `s_pos` and the
/// maximal uses at `max_pos`.
pub open spec fn spec_effect(d: Seq<i64>, typ_pos: int, s_pos: int, max_pos: int) -> Option<DungeonEffect> {
    DungeonEffect::spec_parse(
        d[typ_pos],
        tdiv(d[s_pos] as int, 10_000) as i64,
        d[max_pos],
        trem(d[s_pos] as int, 10_000) as i64,
    )
}

impl LegendaryDungeon {
    /// Holds where `after` is `before` updated from the (at least 48)
    /// dungeon values `d`.
    pub open spec fn spec_updated(before: LegendaryDungeon, after: LegendaryDungeon, d: Seq<i64>) -> bool {
        let stage = LegendaryDungeonStage::spec_or_default(d[15]);
        &&& after.health_status == d[1]
        &&& after.current_hp == d[2]
        &&& after.pre_battle_hp == d[3]
        &&& after.max_hp == d[4]
        &&& after.blessings == [
            spec_effect(d, 5, 11, 42),
            spec_effect(d, 6, 12, 43),
            spec_effect(d, 7, 13, 44),
        ]
        &&& after.curses == [
            spec_effect(d, 8, 14, 45),
            spec_effect(d, 9, 40, 46),
            spec_effect(d, 10, 41, 47),
        ]
        &&& after.stage == stage
        &&& after.current_floor == soft_u32(d[17], 0)
        &&& after.max_floor == soft_u32(d[18], 0)
        &&& stage == LegendaryDungeonStage::DoorSelect ==> after.doors == [
            Door {
                typ: DoorType::spec_or_default(d[19]),
                trap: if d[25] == 0 { None } else { DoorTrap::spec_from_i64(d[25]) },
            },
            Door {
                typ: DoorType::spec_or_default(d[20]),
                trap: if d[26] == 0 { None } else { DoorTrap::spec_from_i64(d[26]) },
            },
        ] && after.room_type == before.room_type
        &&& stage != LegendaryDungeonStage::DoorSelect ==> after.room_type == RoomType::spec_or_default(d[19])
            && after.doors == before.doors
        &&& after.encounter == RoomEncounter::spec_parse(d[22])
        &&& after.keys == soft_u32(d[39], 0)
        &&& after.stats == before.stats
        &&& after.total_stats == before.total_stats
        &&& after.pending_items == before.pending_items
        &&& after.healing_start == before.healing_start
    }

    /// Updates the dungeon from its (at least 48) values.
    pub fn update(&mut self, data: &[i64]) -> (r: Result<(), SFError>)
        ensures
            data@.len() >= 48 <==> r is Ok,
            r is Ok ==> Self::spec_updated(*old(self), *final(self), data@),
    {
        if data.len() < 48 {
            return Err(too_short(data, 47, "ld blessing max"));
        }
        self.health_status = data[1];
        self.current_hp = data[2];
        self.pre_battle_hp = data[3];
        self.max_hp = data[4];
        self.blessings = [
            DungeonEffect::parse(data[5], data[11] / 10_000, data[42], data[11] % 10_000),
            DungeonEffect::parse(data[6], data[12] / 10_000, data[43], data[12] % 10_000),
            DungeonEffect::parse(data[7], data[13] / 10_000, data[44], data[13] % 10_000),
        ];
        self.curses = [
            DungeonEffect::parse(data[8], data[14] / 10_000, data[45], data[14] % 10_000),
            DungeonEffect::parse(data[9], data[40] / 10_000, data[46], data[40] % 10_000),
            DungeonEffect::parse(data[10], data[41] / 10_000, data[47], data[41] % 10_000),
        ];
        let stage = LegendaryDungeonStage::from_i64_or_default(data[15]);
        self.stage = stage;
        self.current_floor = soft_into_u32(data[17], "ld floor", 0);
        self.max_floor = soft_into_u32(data[18], "ld max floor", 0);
        if stage == LegendaryDungeonStage::DoorSelect {
            self.doors = [
                Door {
                    typ: DoorType::from_i64_or_default(data[19]),
                    trap: if data[25] == 0 { None } else { DoorTrap::from_i64(data[25]) },
                },
                Door {
                    typ: DoorType::from_i64_or_default(data[20]),
                    trap: if data[26] == 0 { None } else { DoorTrap::from_i64(data[26]) },
                },
            ];
        } else {
            self.room_type = RoomType::from_i64_or_default(data[19]);
        }
        self.encounter = RoomEncounter::parse(data[22]);
        self.keys = soft_into_u32(data[39], "ld keys", 0);
        Ok(())
    }
}

/// The state of the legendary dungeon event, as the player sees it.
#[derive(Debug, Clone, Copy)]
pub enum LegendaryDungeonStatus<'a> {
    Unavailable,
    NotEntered(LegendaryDungeonEventTheme),
    Ended(&'a TotalStats),
    DoorSelect { dungeon: &'a LegendaryDungeon, doors: &'a [Door; 2] },
    PickGem { dungeon: &'a LegendaryDungeon, available_gems: &'a [GemOfFate] },
    Healing { dungeon: &'a LegendaryDungeon, started: i64, current_health_percent: u8 },
    Room { dungeon: &'a LegendaryDungeon, status: RoomStatus, encounter: RoomEncounter, typ: RoomType },
    TakeItem { dungeon: &'a LegendaryDungeon, items: &'a [Item] },
    Unknown,
}

/// The legendary dungeon event.
#[derive(Debug, Clone)]
pub struct LegendaryDungeonEvent {
    pub theme: Option<LegendaryDungeonEventTheme>,
    pub start: Option<i64>,
    pub end: Option<i64>,
    pub close: Option<i64>,
    pub active: Option<LegendaryDungeon>,
}

/// The health in percent that healing has restored after the given number of
/// minutes: 100 percent per day, rounded down, between 0 and 100.
pub open spec fn spec_healed(minutes: int) -> u8 {
    if minutes <= 0 {
        0
    } else if minutes >= 1440 {
        100
    } else {
        (minutes * 100 / 1440) as u8
    }
}

fn healed_percent(now: i64, started: i64) -> (r: u8)
    ensures
        r == spec_healed(tdiv(now as int - started as int, 60)),
{
    let elapsed: i128 = now as i128 - started as i128;
    let minutes: i128 = elapsed / 60;
    if minutes <= 0 {
        0
    } else if minutes >= 1440 {
        100
    } else {
        assert(minutes * 100 / 1440 < 100) by (nonlinear_arith)
            requires
                0 < minutes < 1440,
        ;
        (minutes * 100 / 1440) as u8
    }
}

/// The kind of status that the event has at `now`, without the references
/// into the dungeon.
pub enum StatusKind {
    Unavailable,
    NotEntered(LegendaryDungeonEventTheme),
    Ended,
    DoorSelect,
    PickGem,
    Healing(i64, u8),
    Room(RoomStatus),
    TakeItem,
    Unknown,
}

impl LegendaryDungeonEvent {
    /// The theme of the event, where it is a known one.
    pub open spec fn known_theme(self) -> Option<LegendaryDungeonEventTheme> {
        match self.theme {
            Some(t) => if t == LegendaryDungeonEventTheme::Unknown { None } else { Some(t) },
            None => None,
        }
    }

    /// The kind of status that the event has at `now`.
    pub open spec fn spec_status(self, now: i64) -> StatusKind {
        if (self.start matches Some(s) && s <= now) && (self.close matches Some(c) && c >= now)
            && self.known_theme() is Some {
            let theme = self.known_theme()->0;
            match self.active {
                None => if (self.end matches Some(e) && e > now) {
                    StatusKind::NotEntered(theme)
                } else {
                    StatusKind::Unavailable
                },
                Some(a) => if a.pending_items@.len() > 0 {
                    StatusKind::TakeItem
                } else {
                    match a.stage {
                        LegendaryDungeonStage::NotEntered => StatusKind::NotEntered(theme),
                        LegendaryDungeonStage::DoorSelect => StatusKind::DoorSelect,
                        LegendaryDungeonStage::RoomSpecial => if a.room_type == RoomType::BossRoom {
                            StatusKind::PickGem
                        } else {
                            StatusKind::Room(RoomStatus::Special)
                        },
                        LegendaryDungeonStage::Healing => {
                            let started = match a.healing_start {
                                Some(s) => s,
                                None => 0,
                            };
                            StatusKind::Healing(started, spec_healed(tdiv(now as int - started as int, 60)))
                        },
                        LegendaryDungeonStage::RoomEntered => StatusKind::Room(RoomStatus::Entered),
                        LegendaryDungeonStage::RoomInteracted => StatusKind::Room(RoomStatus::Interacted),
                        LegendaryDungeonStage::RoomFinished => StatusKind::Room(RoomStatus::Finished),
                        LegendaryDungeonStage::Unknown => StatusKind::Unknown,
                        LegendaryDungeonStage::Finished => StatusKind::Ended,
                    }
                },
            }
        } else {
            StatusKind::Unavailable
        }
    }

    /// Holds where the status `r` is the one of the event at `now`.
    pub open spec fn status_matches(self, now: i64, r: LegendaryDungeonStatus) -> bool {
        match self.spec_status(now) {
            StatusKind::Unavailable => r is Unavailable,
            StatusKind::NotEntered(t) => r == LegendaryDungeonStatus::NotEntered(t),
            StatusKind::Ended => r matches LegendaryDungeonStatus::Ended(s) && *s == self.active->0.total_stats,
            StatusKind::DoorSelect => r matches LegendaryDungeonStatus::DoorSelect { dungeon, doors }
                && *dungeon == self.active->0 && *doors == self.active->0.doors,
            StatusKind::PickGem => r matches LegendaryDungeonStatus::PickGem { dungeon, available_gems }
                && *dungeon == self.active->0 && available_gems@ == self.active->0.available_gems@,
            StatusKind::Healing(started, p) => r matches LegendaryDungeonStatus::Healing { dungeon, started: s, current_health_percent: c }
                && *dungeon == self.active->0 && s == started && c == p,
            StatusKind::Room(st) => r matches LegendaryDungeonStatus::Room { dungeon, status, encounter, typ }
                && *dungeon == self.active->0 && status == st && encounter == self.active->0.encounter
                && typ == self.active->0.room_type,
            StatusKind::TakeItem => r matches LegendaryDungeonStatus::TakeItem { dungeon, items }
                && *dungeon == self.active->0 && items@ == self.active->0.pending_items@,
            StatusKind::Unknown => r is Unknown,
        }
    }

    /// The status of the event at the point in time `now`.
    pub fn status_at(&self, now: i64) -> (r: LegendaryDungeonStatus)
        ensures
            self.status_matches(now, r),
    {
        match self.start {
            Some(s) => {
                if s > now {
                    return LegendaryDungeonStatus::Unavailable;
                }
            },
            None => return LegendaryDungeonStatus::Unavailable,
        }
        match self.close {
            Some(c) => {
                if c < now {
                    return LegendaryDungeonStatus::Unavailable;
                }
            },
            None => return LegendaryDungeonStatus::Unavailable,
        }
        let theme = match self.theme {
            Some(t) => {
                if t == LegendaryDungeonEventTheme::Unknown {
                    return LegendaryDungeonStatus::Unavailable;
                }
                t
            },
            None => return LegendaryDungeonStatus::Unavailable,
        };
        let active = match &self.active {
            Some(a) => a,
            None => {
                return match self.end {
                    Some(e) => if e > now {
                        LegendaryDungeonStatus::NotEntered(theme)
                    } else {
                        LegendaryDungeonStatus::Unavailable
                    },
                    None => LegendaryDungeonStatus::Unavailable,
                };
            },
        };
        if active.pending_items.len() > 0 {
            return LegendaryDungeonStatus::TakeItem { dungeon: active, items: active.pending_items.as_slice() };
        }
        match active.stage {
            LegendaryDungeonStage::NotEntered => LegendaryDungeonStatus::NotEntered(theme),
            LegendaryDungeonStage::DoorSelect => LegendaryDungeonStatus::DoorSelect { dungeon: active, doors: &active.doors },
            LegendaryDungeonStage::RoomSpecial => {
                if active.room_type == RoomType::BossRoom {
                    LegendaryDungeonStatus::PickGem { dungeon: active, available_gems: active.available_gems.as_slice() }
                } else {
                    LegendaryDungeonStatus::Room {
                        dungeon: active,
                        status: RoomStatus::Special,
                        encounter: active.encounter,
                        typ: active.room_type,
                    }
                }
            },
            LegendaryDungeonStage::Healing => {
                let started = match active.healing_start {
                    Some(s) => s,
                    None => 0,
                };
                LegendaryDungeonStatus::Healing {
                    dungeon: active,
                    started,
                    current_health_percent: healed_percent(now, started),
                }
            },
            LegendaryDungeonStage::RoomEntered => LegendaryDungeonStatus::Room {
                dungeon: active,
                status: RoomStatus::Entered,
                encounter: active.encounter,
                typ: active.room_type,
            },
            LegendaryDungeonStage::RoomInteracted => LegendaryDungeonStatus::Room {
                dungeon: active,
                status: RoomStatus::Interacted,
                encounter: active.encounter,
                typ: active.room_type,
            },
            LegendaryDungeonStage::RoomFinished => LegendaryDungeonStatus::Room {
                dungeon: active,
                status: RoomStatus::Finished,
                encounter: active.encounter,
                typ: active.room_type,
            },
            LegendaryDungeonStage::Unknown => LegendaryDungeonStatus::Unknown,
            LegendaryDungeonStage::Finished => LegendaryDungeonStatus::Ended(&active.total_stats),
        }
    }

    /// The status of the event, as the player sees it now.
    pub fn status(&self) -> (r: LegendaryDungeonStatus)
        ensures
            exists|now: i64| self.status_matches(now, r),
    {
        let now = crate::gamestate::local_now();
        self.status_at(now)
    }
}

} // verus!
