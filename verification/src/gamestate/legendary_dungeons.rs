use vstd::prelude::*;

use crate::error::SFError;
use crate::gamestate::items::Item;
use crate::gamestate::event::{all_zero, is_all_zero_pub};
use crate::gamestate::legendary_dungeon::u32_or_zero;
use crate::misc::{cget, csiget_u32, csiget_u64, soft_u32, soft_u64, soft_into_u32, soft_into_u64, tdiv, trem, too_short};

verus! {

/// A curse, that you can get in the legendary dungeon.
#[derive(Debug, Clone, Copy, PartialEq, Eq, Structural, Hash)]
pub enum Curse {
    BrokenArmor,
    Poisoned,
    Panderous,
    GoldRushHangover,
    HardLock,
    Unknown,
}

impl Default for Curse {
    fn default() -> (r: Self)
        ensures
            r == Curse::Unknown,
    {
        Curse::Unknown
    }
}

impl Curse {
    /// The value with the number the server uses for it.
    pub open spec fn spec_from_i64(v: i64) -> Option<Curse> {
        if v == 101 { Some(Curse::BrokenArmor)
        } else if v == 102 { Some(Curse::Poisoned)
        } else if v == 103 { Some(Curse::Panderous)
        } else if v == 104 { Some(Curse::GoldRushHangover)
        } else if v == 105 { Some(Curse::HardLock)
        } else if v == -1 { Some(Curse::Unknown)
        } else { None }
    }

    /// The value with the number the server uses for it.
    pub fn from_i64(v: i64) -> (r: Option<Curse>)
        ensures
            r == Self::spec_from_i64(v),
    {
        if v == 101 { Some(Curse::BrokenArmor)
        } else if v == 102 { Some(Curse::Poisoned)
        } else if v == 103 { Some(Curse::Panderous)
        } else if v == 104 { Some(Curse::GoldRushHangover)
        } else if v == 105 { Some(Curse::HardLock)
        } else if v == -1 { Some(Curse::Unknown)
        } else { None }
    }

    /// The value with the number the server uses for it, or the default.
    pub open spec fn spec_or_default(v: i64) -> Curse {
        match Self::spec_from_i64(v) {
            Some(t) => t,
            None => Curse::Unknown,
        }
    }

    /// The value with the number the server uses for it, or the default.
    pub fn from_i64_or_default(v: i64) -> (r: Curse)
        ensures
            r == Self::spec_or_default(v),
    {
        match Self::from_i64(v) {
            Some(t) => t,
            None => Curse::Unknown,
        }
    }
}

/// A blessing, that you can get in the legendary dungeon.
#[derive(Debug, Clone, Copy, PartialEq, Eq, Structural, Hash)]
pub enum Blessing {
    Raider,
    OneHitWonder,
    EscapeAssistant,
    DisarmTraps,
    LockPick,
    KeyMoment,
    ElixirOfLife,
    RoadToRecovery,
    Unknown,
}

impl Default for Blessing {
    fn default() -> (r: Self)
        ensures
            r == Blessing::Unknown,
    {
        Blessing::Unknown
    }
}

impl Blessing {
    /// The value with the number the server uses for it.
    pub open spec fn spec_from_i64(v: i64) -> Option<Blessing> {
        if v == 1 { Some(Blessing::Raider)
        } else if v == 2 { Some(Blessing::OneHitWonder)
        } else if v == 3 { Some(Blessing::EscapeAssistant)
        } else if v == 4 { Some(Blessing::DisarmTraps)
        } else if v == 5 { Some(Blessing::LockPick)
        } else if v == 6 { Some(Blessing::KeyMoment)
        } else if v == 7 { Some(Blessing::ElixirOfLife)
        } else if v == 8 { Some(Blessing::RoadToRecovery)
        } else if v == -1 { Some(Blessing::Unknown)
        } else { None }
    }

    /// The value with the number the server uses for it.
    pub fn from_i64(v: i64) -> (r: Option<Blessing>)
        ensures
            r == Self::spec_from_i64(v),
    {
        if v == 1 { Some(Blessing::Raider)
        } else if v == 2 { Some(Blessing::OneHitWonder)
        } else if v == 3 { Some(Blessing::EscapeAssistant)
        } else if v == 4 { Some(Blessing::DisarmTraps)
        } else if v == 5 { Some(Blessing::LockPick)
        } else if v == 6 { Some(Blessing::KeyMoment)
        } else if v == 7 { Some(Blessing::ElixirOfLife)
        } else if v == 8 { Some(Blessing::RoadToRecovery)
        } else if v == -1 { Some(Blessing::Unknown)
        } else { None }
    }

    /// The value with the number the server uses for it, or the default.
    pub open spec fn spec_or_default(v: i64) -> Blessing {
        match Self::spec_from_i64(v) {
            Some(t) => t,
            None => Blessing::Unknown,
        }
    }

    /// The value with the number the server uses for it, or the default.
    pub fn from_i64_or_default(v: i64) -> (r: Blessing)
        ensures
            r == Self::spec_or_default(v),
    {
        match Self::from_i64(v) {
            Some(t) => t,
            None => Blessing::Unknown,
        }
    }
}

/// The type of a door in the legendary dungeon.
#[derive(Debug, Clone, Copy, PartialEq, Eq, Structural, Hash)]
pub enum DoorType {
    Monster1,
    Monster2,
    Monster3,
    Boss1,
    Boss2,
    Blocked,
    MysteryDoor,
    LockedDoor,
    OpenDoor,
    EpicDoor,
    DoubleLockedDoor,
    GoldenDoor,
    SacrificialDoor,
    CursedDoor,
    KeyMasterShop,
    BlessingDoor,
    Wheel,
    Wood,
    Stone,
    Souls,
    Metal,
    Arcane,
    SandWatches,
    TrialRoom1,
    TrialRoom2,
    TrialRoom3,
    TrialRoom4,
    TrialRoom5,
    TrialRoomExit,
    Unknown,
}

impl Default for DoorType {
    fn default() -> (r: Self)
        ensures
            r == DoorType::Unknown,
    {
        DoorType::Unknown
    }
}

impl DoorType {
    /// The value with the number the server uses for it.
    pub open spec fn spec_from_i64(v: i64) -> Option<DoorType> {
        if v == 1 { Some(DoorType::Monster1)
        } else if v == 2 { Some(DoorType::Monster2)
        } else if v == 3 { Some(DoorType::Monster3)
        } else if v == 4 { Some(DoorType::Boss1)
        } else if v == 5 { Some(DoorType::Boss2)
        } else if v == 1000 { Some(DoorType::Blocked)
        } else if v == 1001 { Some(DoorType::MysteryDoor)
        } else if v == 1002 { Some(DoorType::LockedDoor)
        } else if v == 1003 { Some(DoorType::OpenDoor)
        } else if v == 1004 { Some(DoorType::EpicDoor)
        } else if v == 1005 { Some(DoorType::DoubleLockedDoor)
        } else if v == 1006 { Some(DoorType::GoldenDoor)
        } else if v == 1007 { Some(DoorType::SacrificialDoor)
        } else if v == 1008 { Some(DoorType::CursedDoor)
        } else if v == 1009 { Some(DoorType::KeyMasterShop)
        } else if v == 1010 { Some(DoorType::BlessingDoor)
        } else if v == 1011 { Some(DoorType::Wheel)
        } else if v == 1012 { Some(DoorType::Wood)
        } else if v == 1013 { Some(DoorType::Stone)
        } else if v == 1014 { Some(DoorType::Souls)
        } else if v == 1015 { Some(DoorType::Metal)
        } else if v == 1016 { Some(DoorType::Arcane)
        } else if v == 1017 { Some(DoorType::SandWatches)
        } else if v == 1018 { Some(DoorType::TrialRoom1)
        } else if v == 1019 { Some(DoorType::TrialRoom2)
        } else if v == 1020 { Some(DoorType::TrialRoom3)
        } else if v == 1021 { Some(DoorType::TrialRoom4)
        } else if v == 1022 { Some(DoorType::TrialRoom5)
        } else if v == 1023 { Some(DoorType::TrialRoomExit)
        } else if v == -1 { Some(DoorType::Unknown)
        } else { None }
    }

    /// The value with the number the server uses for it.
    pub fn from_i64(v: i64) -> (r: Option<DoorType>)
        ensures
            r == Self::spec_from_i64(v),
    {
        if v == 1 { Some(DoorType::Monster1)
        } else if v == 2 { Some(DoorType::Monster2)
        } else if v == 3 { Some(DoorType::Monster3)
        } else if v == 4 { Some(DoorType::Boss1)
        } else if v == 5 { Some(DoorType::Boss2)
        } else if v == 1000 { Some(DoorType::Blocked)
        } else if v == 1001 { Some(DoorType::MysteryDoor)
        } else if v == 1002 { Some(DoorType::LockedDoor)
        } else if v == 1003 { Some(DoorType::OpenDoor)
        } else if v == 1004 { Some(DoorType::EpicDoor)
        } else if v == 1005 { Some(DoorType::DoubleLockedDoor)
        } else if v == 1006 { Some(DoorType::GoldenDoor)
        } else if v == 1007 { Some(DoorType::SacrificialDoor)
        } else if v == 1008 { Some(DoorType::CursedDoor)
        } else if v == 1009 { Some(DoorType::KeyMasterShop)
        } else if v == 1010 { Some(DoorType::BlessingDoor)
        } else if v == 1011 { Some(DoorType::Wheel)
        } else if v == 1012 { Some(DoorType::Wood)
        } else if v == 1013 { Some(DoorType::Stone)
        } else if v == 1014 { Some(DoorType::Souls)
        } else if v == 1015 { Some(DoorType::Metal)
        } else if v == 1016 { Some(DoorType::Arcane)
        } else if v == 1017 { Some(DoorType::SandWatches)
        } else if v == 1018 { Some(DoorType::TrialRoom1)
        } else if v == 1019 { Some(DoorType::TrialRoom2)
        } else if v == 1020 { Some(DoorType::TrialRoom3)
        } else if v == 1021 { Some(DoorType::TrialRoom4)
        } else if v == 1022 { Some(DoorType::TrialRoom5)
        } else if v == 1023 { Some(DoorType::TrialRoomExit)
        } else if v == -1 { Some(DoorType::Unknown)
        } else { None }
    }

    /// The value with the number the server uses for it, or the default.
    pub open spec fn spec_or_default(v: i64) -> DoorType {
        match Self::spec_from_i64(v) {
            Some(t) => t,
            None => DoorType::Unknown,
        }
    }

    /// The value with the number the server uses for it, or the default.
    pub fn from_i64_or_default(v: i64) -> (r: DoorType)
        ensures
            r == Self::spec_or_default(v),
    {
        match Self::from_i64(v) {
            Some(t) => t,
            None => DoorType::Unknown,
        }
    }
}

/// The stage a legendary dungeon is at.
#[derive(Debug, Clone, Copy, PartialEq, Eq, Structural, Hash)]
pub enum LegendaryDungeonStage {
    NotEntered,
    DoorSelect,
    RoomEntered,
    RoomInteracted,
    RoomFinished,
    Unknown,
}

impl Default for LegendaryDungeonStage {
    fn default() -> (r: Self)
        ensures
            r == LegendaryDungeonStage::Unknown,
    {
        LegendaryDungeonStage::Unknown
    }
}

impl LegendaryDungeonStage {
    /// The value with the number the server uses for it.
    pub open spec fn spec_from_i64(v: i64) -> Option<LegendaryDungeonStage> {
        if v == 0 { Some(LegendaryDungeonStage::NotEntered)
        } else if v == 1 { Some(LegendaryDungeonStage::DoorSelect)
        } else if v == 10 { Some(LegendaryDungeonStage::RoomEntered)
        } else if v == 11 { Some(LegendaryDungeonStage::RoomInteracted)
        } else if v == 100 { Some(LegendaryDungeonStage::RoomFinished)
        } else if v == -1 { Some(LegendaryDungeonStage::Unknown)
        } else { None }
    }

    /// The value with the number the server uses for it.
    pub fn from_i64(v: i64) -> (r: Option<LegendaryDungeonStage>)
        ensures
            r == Self::spec_from_i64(v),
    {
        if v == 0 { Some(LegendaryDungeonStage::NotEntered)
        } else if v == 1 { Some(LegendaryDungeonStage::DoorSelect)
        } else if v == 10 { Some(LegendaryDungeonStage::RoomEntered)
        } else if v == 11 { Some(LegendaryDungeonStage::RoomInteracted)
        } else if v == 100 { Some(LegendaryDungeonStage::RoomFinished)
        } else if v == -1 { Some(LegendaryDungeonStage::Unknown)
        } else { None }
    }

    /// The value with the number the server uses for it, or the default.
    pub open spec fn spec_or_default(v: i64) -> LegendaryDungeonStage {
        match Self::spec_from_i64(v) {
            Some(t) => t,
            None => LegendaryDungeonStage::Unknown,
        }
    }

    /// The value with the number the server uses for it, or the default.
    pub fn from_i64_or_default(v: i64) -> (r: LegendaryDungeonStage)
        ensures
            r == Self::spec_or_default(v),
    {
        match Self::from_i64(v) {
            Some(t) => t,
            None => LegendaryDungeonStage::Unknown,
        }
    }
}

/// The theme of a legendary dungeon event.
#[derive(Debug, Clone, Copy, PartialEq, Eq, Structural, Hash)]
pub enum LegendaryDungeonsEventTheme {
    DiabolicalCompanyParty,
    LordOfTheThings,
    FantasticLegendaries,
    ShadyBirthdayBash,
    MassiveWinterSpectacle,
    AbyssOfMadness,
    HuntForBlazingEasterEgg,
    VileVacation,
    Unknown,
}

impl Default for LegendaryDungeonsEventTheme {
    fn default() -> (r: Self)
        ensures
            r == LegendaryDungeonsEventTheme::Unknown,
    {
        LegendaryDungeonsEventTheme::Unknown
    }
}

impl LegendaryDungeonsEventTheme {
    /// The value with the number the server uses for it.
    pub open spec fn spec_from_i64(v: i64) -> Option<LegendaryDungeonsEventTheme> {
        if v == 1 { Some(LegendaryDungeonsEventTheme::DiabolicalCompanyParty)
        } else if v == 2 { Some(LegendaryDungeonsEventTheme::LordOfTheThings)
        } else if v == 3 { Some(LegendaryDungeonsEventTheme::FantasticLegendaries)
        } else if v == 4 { Some(LegendaryDungeonsEventTheme::ShadyBirthdayBash)
        } else if v == 5 { Some(LegendaryDungeonsEventTheme::MassiveWinterSpectacle)
        } else if v == 6 { Some(LegendaryDungeonsEventTheme::AbyssOfMadness)
        } else if v == 7 { Some(LegendaryDungeonsEventTheme::HuntForBlazingEasterEgg)
        } else if v == 8 { Some(LegendaryDungeonsEventTheme::VileVacation)
        } else if v == -1 { Some(LegendaryDungeonsEventTheme::Unknown)
        } else { None }
    }

    /// The value with the number the server uses for it.
    pub fn from_i64(v: i64) -> (r: Option<LegendaryDungeonsEventTheme>)
        ensures
            r == Self::spec_from_i64(v),
    {
        if v == 1 { Some(LegendaryDungeonsEventTheme::DiabolicalCompanyParty)
        } else if v == 2 { Some(LegendaryDungeonsEventTheme::LordOfTheThings)
        } else if v == 3 { Some(LegendaryDungeonsEventTheme::FantasticLegendaries)
        } else if v == 4 { Some(LegendaryDungeonsEventTheme::ShadyBirthdayBash)
        } else if v == 5 { Some(LegendaryDungeonsEventTheme::MassiveWinterSpectacle)
        } else if v == 6 { Some(LegendaryDungeonsEventTheme::AbyssOfMadness)
        } else if v == 7 { Some(LegendaryDungeonsEventTheme::HuntForBlazingEasterEgg)
        } else if v == 8 { Some(LegendaryDungeonsEventTheme::VileVacation)
        } else if v == -1 { Some(LegendaryDungeonsEventTheme::Unknown)
        } else { None }
    }

    /// The value with the number the server uses for it, or the default.
    pub open spec fn spec_or_default(v: i64) -> LegendaryDungeonsEventTheme {
        match Self::spec_from_i64(v) {
            Some(t) => t,
            None => LegendaryDungeonsEventTheme::Unknown,
        }
    }

    /// The value with the number the server uses for it, or the default.
    pub fn from_i64_or_default(v: i64) -> (r: LegendaryDungeonsEventTheme)
        ensures
            r == Self::spec_or_default(v),
    {
        match Self::from_i64(v) {
            Some(t) => t,
            None => LegendaryDungeonsEventTheme::Unknown,
        }
    }
}

/// A trap on a door in the legendary dungeon.
#[derive(Debug, Clone, Copy, PartialEq, Eq, Structural, Hash)]
pub enum DoorTrap {
    PoisonedDaggers,
    SwingingAxe,
    PaintBucket,
    BearTrap,
    Guillotine,
    HammerAmbush,
    TripWire,
    TopSpikes,
    Shark,
    Unknown,
}

impl Default for DoorTrap {
    fn default() -> (r: Self)
        ensures
            r == DoorTrap::Unknown,
    {
        DoorTrap::Unknown
    }
}

impl DoorTrap {
    /// The value with the number the server uses for it.
    pub open spec fn spec_from_i64(v: i64) -> Option<DoorTrap> {
        if v == 1 { Some(DoorTrap::PoisonedDaggers)
        } else if v == 2 { Some(DoorTrap::SwingingAxe)
        } else if v == 3 { Some(DoorTrap::PaintBucket)
        } else if v == 4 { Some(DoorTrap::BearTrap)
        } else if v == 5 { Some(DoorTrap::Guillotine)
        } else if v == 6 { Some(DoorTrap::HammerAmbush)
        } else if v == 7 { Some(DoorTrap::TripWire)
        } else if v == 8 { Some(DoorTrap::TopSpikes)
        } else if v == 9 { Some(DoorTrap::Shark)
        } else if v == -1 { Some(DoorTrap::Unknown)
        } else { None }
    }

    /// The value with the number the server uses for it.
    pub fn from_i64(v: i64) -> (r: Option<DoorTrap>)
        ensures
            r == Self::spec_from_i64(v),
    {
        if v == 1 { Some(DoorTrap::PoisonedDaggers)
        } else if v == 2 { Some(DoorTrap::SwingingAxe)
        } else if v == 3 { Some(DoorTrap::PaintBucket)
        } else if v == 4 { Some(DoorTrap::BearTrap)
        } else if v == 5 { Some(DoorTrap::Guillotine)
        } else if v == 6 { Some(DoorTrap::HammerAmbush)
        } else if v == 7 { Some(DoorTrap::TripWire)
        } else if v == 8 { Some(DoorTrap::TopSpikes)
        } else if v == 9 { Some(DoorTrap::Shark)
        } else if v == -1 { Some(DoorTrap::Unknown)
        } else { None }
    }

    /// The value with the number the server uses for it, or the default.
    pub open spec fn spec_or_default(v: i64) -> DoorTrap {
        match Self::spec_from_i64(v) {
            Some(t) => t,
            None => DoorTrap::Unknown,
        }
    }

    /// The value with the number the server uses for it, or the default.
    pub fn from_i64_or_default(v: i64) -> (r: DoorTrap)
        ensures
            r == Self::spec_or_default(v),
    {
        match Self::from_i64(v) {
            Some(t) => t,
            None => DoorTrap::Unknown,
        }
    }
}


/// A blessing or a curse in the legendary dungeon.
#[derive(Debug, Clone, Copy, PartialEq, Eq)]
pub struct DungeonEffect<T> {
    /// The type this effect has
    pub typ: T,
    /// The amount of rooms, or uses this effect is still active for
    pub remaining_uses: u32,
    /// The amount of rooms, or uses this effect will be active for after you
    /// get it
    pub max_uses: u32,
    /// The strength of this effect
    pub strength: u32,
}

/// The blessing that its type, remaining uses, maximal uses and strength
/// describe: none for an unknown type or counts that do not fit.
pub open spec fn spec_blessing(typ: i64, remaining: i64, max_uses: i64, strength: i64) -> Option<DungeonEffect<Blessing>> {
    if Blessing::spec_from_i64(typ) is Some && 0 <= remaining <= u32::MAX && 0 <= max_uses <= u32::MAX
        && 0 <= strength <= u32::MAX {
        Some(DungeonEffect {
            typ: Blessing::spec_from_i64(typ)->0,
            remaining_uses: remaining as u32,
            max_uses: max_uses as u32,
            strength: strength as u32,
        })
    } else {
        None
    }
}

/// The curse that its type, remaining uses, maximal uses and strength
/// describe: none for an unknown type or counts that do not fit.
pub open spec fn spec_curse(typ: i64, remaining: i64, max_uses: i64, strength: i64) -> Option<DungeonEffect<Curse>> {
    if Curse::spec_from_i64(typ) is Some && 0 <= remaining <= u32::MAX && 0 <= max_uses <= u32::MAX
        && 0 <= strength <= u32::MAX {
        Some(DungeonEffect {
            typ: Curse::spec_from_i64(typ)->0,
            remaining_uses: remaining as u32,
            max_uses: max_uses as u32,
            strength: strength as u32,
        })
    } else {
        None
    }
}

fn fits_u32(v: i64) -> (r: bool)
    ensures
        r == (0 <= v <= u32::MAX),
{
    0 <= v && v <= 4294967295
}

impl DungeonEffect<Blessing> {
    /// Parses a blessing from its type, remaining uses, maximal uses and
    /// strength.
    pub fn parse_blessing(typ: i64, remaining: i64, max_uses: i64, strength: i64) -> (r: Option<Self>)
        ensures
            r == spec_blessing(typ, remaining, max_uses, strength),
    {
        let t = Blessing::from_i64(typ)?;
        if fits_u32(remaining) && fits_u32(max_uses) && fits_u32(strength) {
            Some(DungeonEffect {
                typ: t,
                remaining_uses: remaining as u32,
                max_uses: max_uses as u32,
                strength: strength as u32,
            })
        } else {
            None
        }
    }
}

impl DungeonEffect<Curse> {
    /// Parses a curse from its type, remaining uses, maximal uses and
    /// strength.
    pub fn parse_curse(typ: i64, remaining: i64, max_uses: i64, strength: i64) -> (r: Option<Self>)
        ensures
            r == spec_curse(typ, remaining, max_uses, strength),
    {
        let t = Curse::from_i64(typ)?;
        if fits_u32(remaining) && fits_u32(max_uses) && fits_u32(strength) {
            Some(DungeonEffect {
                typ: t,
                remaining_uses: remaining as u32,
                max_uses: max_uses as u32,
                strength: strength as u32,
            })
        } else {
            None
        }
    }
}

/// What there is in a room.
#[derive(Debug, Clone, Copy, PartialEq, Eq, Structural, Hash)]
pub enum RoomEncounter {
    BronzeChest,
    SilverChest,
    EpicChest,
    Crate1,
    Crate2,
    Crate3,
    FallenWarrior,
    SleepingSkeleton,
    Barrel,
    WorkerChest,
    MimicChest,
    SacrificialChest,
    CurseChest,
    WeirdChest,
    SatedChest,
    Monster(u16),
    Unknown,
}

impl RoomEncounter {
    /// The encounter with the number the server uses for it: negative
    /// numbers are monsters (by their negated id).
    pub open spec fn spec_parse(v: i64) -> RoomEncounter {
        if v == 0 {
            RoomEncounter::BronzeChest
        } else if v == 1 {
            RoomEncounter::SilverChest
        } else if v == 2 {
            RoomEncounter::EpicChest
        } else if v == 100 {
            RoomEncounter::Crate1
        } else if v == 101 {
            RoomEncounter::Crate2
        } else if v == 102 {
            RoomEncounter::Crate3
        } else if v == 300 {
            RoomEncounter::FallenWarrior
        } else if v == 301 {
            RoomEncounter::SleepingSkeleton
        } else if v == 400 {
            RoomEncounter::Barrel
        } else if v == 500 {
            RoomEncounter::MimicChest
        } else if v == 600 {
            RoomEncounter::SacrificialChest
        } else if v == 601 {
            RoomEncounter::CurseChest
        } else if v == 602 {
            RoomEncounter::WeirdChest
        } else if v == 603 {
            RoomEncounter::SatedChest
        } else if v < 0 {
            RoomEncounter::Monster(if -v <= 65535 { (-v) as u16 } else { 0 })
        } else {
            RoomEncounter::Unknown
        }
    }

    /// The encounter with the number the server uses for it.
    pub fn parse(v: i64) -> (r: RoomEncounter)
        ensures
            r == Self::spec_parse(v),
    {
        if v == 0 {
            RoomEncounter::BronzeChest
        } else if v == 1 {
            RoomEncounter::SilverChest
        } else if v == 2 {
            RoomEncounter::EpicChest
        } else if v == 100 {
            RoomEncounter::Crate1
        } else if v == 101 {
            RoomEncounter::Crate2
        } else if v == 102 {
            RoomEncounter::Crate3
        } else if v == 300 {
            RoomEncounter::FallenWarrior
        } else if v == 301 {
            RoomEncounter::SleepingSkeleton
        } else if v == 400 {
            RoomEncounter::Barrel
        } else if v == 500 {
            RoomEncounter::MimicChest
        } else if v == 600 {
            RoomEncounter::SacrificialChest
        } else if v == 601 {
            RoomEncounter::CurseChest
        } else if v == 602 {
            RoomEncounter::WeirdChest
        } else if v == 603 {
            RoomEncounter::SatedChest
        } else if v < 0 {
            RoomEncounter::Monster(if -65535 <= v {
                (-v) as u16
            } else {
                0
            })
        } else {
            RoomEncounter::Unknown
        }
    }
}

/// The statistics of a run of the legendary dungeon.
#[derive(Debug, Clone, Copy, PartialEq, Eq, Structural)]
pub struct DungeonStats {
    pub items_found: u32,
    pub epics_found: u32,
    pub keys_found: u32,
    pub silver_found: u64,
    pub attempts: u32,
}

impl DungeonStats {
    /// Parses the statistics from their (at least 5) values.
    pub fn parse(data: &[i64]) -> (r: Result<Self, SFError>)
        ensures
            data@.len() >= 5 <==> r is Ok,
            r is Ok ==> r == Ok::<DungeonStats, SFError>(DungeonStats {
                items_found: soft_u32(data@[0], 0),
                epics_found: soft_u32(data@[1], 0),
                keys_found: soft_u32(data@[2], 0),
                silver_found: soft_u64(data@[3], 0),
                attempts: soft_u32(data@[4], 0),
            }),
    {
        Ok(DungeonStats {
            items_found: csiget_u32(data, 0, "ld item count", 0)?,
            epics_found: csiget_u32(data, 1, "ld item count", 0)?,
            keys_found: csiget_u32(data, 2, "ld item count", 0)?,
            silver_found: csiget_u64(data, 3, "ld item count", 0)?,
            attempts: csiget_u32(data, 4, "ld item count", 0)?,
        })
    }
}

/// The statistics over all runs of the legendary dungeon.
#[derive(Debug, Clone, Copy, PartialEq, Eq, Structural)]
pub struct LegendaryDungeonsTotalStats {
    pub legendaries_found: u32,
    pub attempts_best_run: u32,
    pub enemies_defeated: u32,
    pub epics_found: u32,
    pub gold_found: u64,
}

impl LegendaryDungeonsTotalStats {
    /// Parses the statistics from their (at least 5) values.
    pub fn parse(data: &[i64]) -> (r: Result<Self, SFError>)
        ensures
            data@.len() >= 5 <==> r is Ok,
            r is Ok ==> r == Ok::<LegendaryDungeonsTotalStats, SFError>(LegendaryDungeonsTotalStats {
                legendaries_found: soft_u32(data@[0], 0),
                attempts_best_run: soft_u32(data@[1], 0),
                enemies_defeated: soft_u32(data@[2], 0),
                epics_found: soft_u32(data@[3], 0),
                gold_found: soft_u64(data@[4], 0),
            }),
    {
        Ok(LegendaryDungeonsTotalStats {
            legendaries_found: csiget_u32(data, 0, "ld total legendaries", 0)?,
            attempts_best_run: csiget_u32(data, 1, "ld best attempts", 0)?,
            enemies_defeated: csiget_u32(data, 2, "ld enemies defeated", 0)?,
            epics_found: csiget_u32(data, 3, "ld total epics", 0)?,
            gold_found: csiget_u64(data, 4, "ld total gold", 0)?,
        })
    }
}

/// A door to choose in the legendary dungeon.
#[derive(Debug, Clone, Copy, PartialEq, Eq, Structural)]
pub struct Door {
    pub typ: DoorType,
    pub trap: Option<DoorTrap>,
}

/// A blessing that the merchant offers.
#[derive(Debug, Clone, Copy, PartialEq, Eq, Structural)]
pub struct MerchantBlessing {
    pub typ: Blessing,
    pub max_uses: u32,
    pub strength: u32,
    pub price: u32,
}

impl MerchantBlessing {
    /// Parses an offer from its values: none where all are 0.
    pub fn parse(data: &[i64]) -> (r: Result<Option<Self>, SFError>)
        ensures
            all_zero(data@) ==> r == Ok::<Option<MerchantBlessing>, SFError>(None),
            !all_zero(data@) ==> (data@.len() >= 3 <==> r is Ok),
            !all_zero(data@) && r is Ok ==> r == Ok::<Option<MerchantBlessing>, SFError>(Some(MerchantBlessing {
                typ: Blessing::spec_or_default(data@[0]),
                max_uses: (soft_u32(data@[1], 0) / 10_000) as u32,
                strength: (soft_u32(data@[1], 0) % 10_000) as u32,
                price: soft_u32(data@[2], u32::MAX),
            })),
    {
        if is_all_zero_pub(data) {
            return Ok(None);
        }
        let typ = Blessing::from_i64_or_default(cget(data, 0, "ld merchant blessing")?);
        let s = csiget_u32(data, 1, "ld merchant effect", 0)?;
        let price = csiget_u32(data, 2, "ld merchant price", 4294967295)?;
        Ok(Some(MerchantBlessing { typ, max_uses: s / 10_000, strength: s % 10_000, price }))
    }
}

/// A run of the legendary dungeon.
#[derive(Debug, Clone)]
pub struct LegendaryDungeons {
    pub stats: DungeonStats,
    pub total_stats: LegendaryDungeonsTotalStats,
    pub current_hp: u64,
    /// The hp from before the last action, to show the change
    pub pre_battle_hp: u64,
    pub max_hp: u64,
    pub blessings: [Option<DungeonEffect<Blessing>>; 3],
    pub curses: [Option<DungeonEffect<Curse>>; 3],
    pub stage: LegendaryDungeonStage,
    pub current_floor: u32,
    pub max_floor: u32,
    pub keys: u32,
    pub doors: [Door; 2],
    pub encounter: RoomEncounter,
    pub pending_items: Vec<Item>,
    pub merchant_blessings: Vec<MerchantBlessing>,
}

/// The legendary dungeon event.
#[derive(Debug, Clone)]
pub struct LegendaryDungeonsEvent {
    pub theme: Option<LegendaryDungeonsEventTheme>,
    pub start_time: Option<i64>,
    pub end_time: Option<i64>,
    pub close_time: Option<i64>,
    pub active: Option<LegendaryDungeons>,
}

impl LegendaryDungeons {
    /// Holds where `after` is `before` updated from the (at least 48)
    /// dungeon values `d`.
    pub open spec fn spec_updated(before: LegendaryDungeons, after: LegendaryDungeons, d: Seq<i64>) -> bool {
        &&& after.current_hp == soft_u64(d[2], 0)
        &&& after.pre_battle_hp == soft_u64(d[3], 0)
        &&& after.max_hp == soft_u64(d[4], 0)
        &&& after.blessings == [
            spec_blessing(d[5], tdiv(d[11] as int, 10_000) as i64, d[42], trem(d[11] as int, 10_000) as i64),
            spec_blessing(d[6], tdiv(d[12] as int, 10_000) as i64, d[43], trem(d[12] as int, 10_000) as i64),
            spec_blessing(d[7], tdiv(d[13] as int, 10_000) as i64, d[44], trem(d[13] as int, 10_000) as i64),
        ]
        &&& after.curses == [
            spec_curse(d[8], tdiv(d[14] as int, 10_000) as i64, d[45], trem(d[14] as int, 10_000) as i64),
            spec_curse(d[9], tdiv(d[40] as int, 10_000) as i64, d[46], trem(d[40] as int, 10_000) as i64),
            spec_curse(d[10], tdiv(d[41] as int, 10_000) as i64, d[47], trem(d[41] as int, 10_000) as i64),
        ]
        &&& after.stage == LegendaryDungeonStage::spec_or_default(d[15])
        &&& after.current_floor == soft_u32(d[17], 0)
        &&& after.max_floor == soft_u32(d[18], 0)
        &&& after.doors == [
            Door {
                typ: DoorType::spec_or_default(d[19]),
                trap: if d[25] == 0 { None } else { DoorTrap::spec_from_i64(d[25]) },
            },
            Door {
                typ: DoorType::spec_or_default(d[20]),
                trap: if d[26] == 0 { None } else { DoorTrap::spec_from_i64(d[26]) },
            },
        ]
        &&& after.encounter == RoomEncounter::spec_parse(d[22])
        &&& after.keys == soft_u32(d[39], 0)
        &&& after.stats == before.stats
        &&& after.total_stats == before.total_stats
    }

    /// Updates the dungeon from its (at least 48) values.
    pub fn update(&mut self, data: &[i64]) -> (r: Result<(), SFError>)
        ensures
            data@.len() >= 48 <==> r is Ok,
            r is Ok ==> Self::spec_updated(*old(self), *final(self), data@),
    {
        if data.len() < 48 {
            return Err(too_short(data, 47, "ld blessing max"));
        }
        self.current_hp = soft_into_u64(data[2], "ld current hp", 0);
        self.pre_battle_hp = soft_into_u64(data[3], "ld pre hp", 0);
        self.max_hp = soft_into_u64(data[4], "ld max hp", 0);
        self.blessings = [
            DungeonEffect::parse_blessing(data[5], data[11] / 10_000, data[42], data[11] % 10_000),
            DungeonEffect::parse_blessing(data[6], data[12] / 10_000, data[43], data[12] % 10_000),
            DungeonEffect::parse_blessing(data[7], data[13] / 10_000, data[44], data[13] % 10_000),
        ];
        self.curses = [
            DungeonEffect::parse_curse(data[8], data[14] / 10_000, data[45], data[14] % 10_000),
            DungeonEffect::parse_curse(data[9], data[40] / 10_000, data[46], data[40] % 10_000),
            DungeonEffect::parse_curse(data[10], data[41] / 10_000, data[47], data[41] % 10_000),
        ];
        self.stage = LegendaryDungeonStage::from_i64_or_default(data[15]);
        self.current_floor = soft_into_u32(data[17], "ld floor", 0);
        self.max_floor = soft_into_u32(data[18], "ld max floor", 0);
        self.doors = [
            Door {
                typ: DoorType::from_i64_or_default(data[19]),
                trap: if data[25] == 0 { None } else { DoorTrap::from_i64(data[25]) },
            },
            Door {
                typ: DoorType::from_i64_or_default(data[20]),
                trap: if data[26] == 0 { None } else { DoorTrap::from_i64(data[26]) },
            },
        ];
        self.encounter = RoomEncounter::parse(data[22]);
        self.keys = soft_into_u32(data[39], "ld keys", 0);
        Ok(())
    }
}

} // verus!
