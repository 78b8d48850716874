use vstd::prelude::*;

use crate::command::AttributeMap;
use crate::error::{SFError, short_err};
use crate::gamestate::character::Class;
use crate::gamestate::items::{Equipment, Item, ItemType};
use crate::gamestate::{ServerTime, chrono_timestamp_valid, portal_error};
use crate::constants::{Monster, light_enemies, spec_light_enemies};
use crate::misc::{csiget_u8, csiget_u16, csiget_u32, soft_u8, soft_u16, soft_u32, soft_into_u16};

verus! {

/// All light dungeons. They are not numbered continuously: 17 is missing.
#[derive(Debug, Clone, Copy, PartialEq, Eq, Structural, Hash)]
pub enum LightDungeon {
    DesecratedCatacombs,
    MinesOfGloria,
    RuinsOfGnark,
    CutthroatGrotto,
    EmeraldScaleAltar,
    ToxicTree,
    MagmaStream,
    FrostBloodTemple,
    PyramidsofMadness,
    BlackSkullFortress,
    CircusOfHorror,
    Hell,
    The13thFloor,
    Easteros,
    Tower,
    TimeHonoredSchoolofMagic,
    Hemorridor,
    NordicGods,
    MountOlympus,
    TavernoftheDarkDoppelgangers,
    DragonsHoard,
    HouseOfHorrors,
    ThirdLeagueOfSuperheroes,
    DojoOfChildhoodHeroes,
    MonsterGrotto,
    CityOfIntrigues,
    SchoolOfMagicExpress,
    AshMountain,
    PlayaGamesHQ,
    TrainingCamp,
    Sandstorm,
}

impl LightDungeon {
    /// The number the server uses for this dungeon.
    pub open spec fn spec_id(self) -> i64 {
        match self {
            LightDungeon::DesecratedCatacombs => 0,
            LightDungeon::MinesOfGloria => 1,
            LightDungeon::RuinsOfGnark => 2,
            LightDungeon::CutthroatGrotto => 3,
            LightDungeon::EmeraldScaleAltar => 4,
            LightDungeon::ToxicTree => 5,
            LightDungeon::MagmaStream => 6,
            LightDungeon::FrostBloodTemple => 7,
            LightDungeon::PyramidsofMadness => 8,
            LightDungeon::BlackSkullFortress => 9,
            LightDungeon::CircusOfHorror => 10,
            LightDungeon::Hell => 11,
            LightDungeon::The13thFloor => 12,
            LightDungeon::Easteros => 13,
            LightDungeon::Tower => 14,
            LightDungeon::TimeHonoredSchoolofMagic => 15,
            LightDungeon::Hemorridor => 16,
            LightDungeon::NordicGods => 18,
            LightDungeon::MountOlympus => 19,
            LightDungeon::TavernoftheDarkDoppelgangers => 20,
            LightDungeon::DragonsHoard => 21,
            LightDungeon::HouseOfHorrors => 22,
            LightDungeon::ThirdLeagueOfSuperheroes => 23,
            LightDungeon::DojoOfChildhoodHeroes => 24,
            LightDungeon::MonsterGrotto => 25,
            LightDungeon::CityOfIntrigues => 26,
            LightDungeon::SchoolOfMagicExpress => 27,
            LightDungeon::AshMountain => 28,
            LightDungeon::PlayaGamesHQ => 29,
            LightDungeon::TrainingCamp => 30,
            LightDungeon::Sandstorm => 31,
        }
    }

    /// The number the server uses for this dungeon.
    pub fn id(self) -> (r: i64)
        ensures
            r == self.spec_id(),
    {
        match self {
            LightDungeon::DesecratedCatacombs => 0,
            LightDungeon::MinesOfGloria => 1,
            LightDungeon::RuinsOfGnark => 2,
            LightDungeon::CutthroatGrotto => 3,
            LightDungeon::EmeraldScaleAltar => 4,
            LightDungeon::ToxicTree => 5,
            LightDungeon::MagmaStream => 6,
            LightDungeon::FrostBloodTemple => 7,
            LightDungeon::PyramidsofMadness => 8,
            LightDungeon::BlackSkullFortress => 9,
            LightDungeon::CircusOfHorror => 10,
            LightDungeon::Hell => 11,
            LightDungeon::The13thFloor => 12,
            LightDungeon::Easteros => 13,
            LightDungeon::Tower => 14,
            LightDungeon::TimeHonoredSchoolofMagic => 15,
            LightDungeon::Hemorridor => 16,
            LightDungeon::NordicGods => 18,
            LightDungeon::MountOlympus => 19,
            LightDungeon::TavernoftheDarkDoppelgangers => 20,
            LightDungeon::DragonsHoard => 21,
            LightDungeon::HouseOfHorrors => 22,
            LightDungeon::ThirdLeagueOfSuperheroes => 23,
            LightDungeon::DojoOfChildhoodHeroes => 24,
            LightDungeon::MonsterGrotto => 25,
            LightDungeon::CityOfIntrigues => 26,
            LightDungeon::SchoolOfMagicExpress => 27,
            LightDungeon::AshMountain => 28,
            LightDungeon::PlayaGamesHQ => 29,
            LightDungeon::TrainingCamp => 30,
            LightDungeon::Sandstorm => 31,
        }
    }

    /// The position of this dungeon among all of its kind.
    pub open spec fn spec_index(self) -> int {
        match self {
            LightDungeon::DesecratedCatacombs => 0,
            LightDungeon::MinesOfGloria => 1,
            LightDungeon::RuinsOfGnark => 2,
            LightDungeon::CutthroatGrotto => 3,
            LightDungeon::EmeraldScaleAltar => 4,
            LightDungeon::ToxicTree => 5,
            LightDungeon::MagmaStream => 6,
            LightDungeon::FrostBloodTemple => 7,
            LightDungeon::PyramidsofMadness => 8,
            LightDungeon::BlackSkullFortress => 9,
            LightDungeon::CircusOfHorror => 10,
            LightDungeon::Hell => 11,
            LightDungeon::The13thFloor => 12,
            LightDungeon::Easteros => 13,
            LightDungeon::Tower => 14,
            LightDungeon::TimeHonoredSchoolofMagic => 15,
            LightDungeon::Hemorridor => 16,
            LightDungeon::NordicGods => 17,
            LightDungeon::MountOlympus => 18,
            LightDungeon::TavernoftheDarkDoppelgangers => 19,
            LightDungeon::DragonsHoard => 20,
            LightDungeon::HouseOfHorrors => 21,
            LightDungeon::ThirdLeagueOfSuperheroes => 22,
            LightDungeon::DojoOfChildhoodHeroes => 23,
            LightDungeon::MonsterGrotto => 24,
            LightDungeon::CityOfIntrigues => 25,
            LightDungeon::SchoolOfMagicExpress => 26,
            LightDungeon::AshMountain => 27,
            LightDungeon::PlayaGamesHQ => 28,
            LightDungeon::TrainingCamp => 29,
            LightDungeon::Sandstorm => 30,
        }
    }

    /// The position of this dungeon among all of its kind.
    pub fn index(self) -> (r: usize)
        ensures
            r == self.spec_index(),
            r < 31,
    {
        match self {
            LightDungeon::DesecratedCatacombs => 0,
            LightDungeon::MinesOfGloria => 1,
            LightDungeon::RuinsOfGnark => 2,
            LightDungeon::CutthroatGrotto => 3,
            LightDungeon::EmeraldScaleAltar => 4,
            LightDungeon::ToxicTree => 5,
            LightDungeon::MagmaStream => 6,
            LightDungeon::FrostBloodTemple => 7,
            LightDungeon::PyramidsofMadness => 8,
            LightDungeon::BlackSkullFortress => 9,
            LightDungeon::CircusOfHorror => 10,
            LightDungeon::Hell => 11,
            LightDungeon::The13thFloor => 12,
            LightDungeon::Easteros => 13,
            LightDungeon::Tower => 14,
            LightDungeon::TimeHonoredSchoolofMagic => 15,
            LightDungeon::Hemorridor => 16,
            LightDungeon::NordicGods => 17,
            LightDungeon::MountOlympus => 18,
            LightDungeon::TavernoftheDarkDoppelgangers => 19,
            LightDungeon::DragonsHoard => 20,
            LightDungeon::HouseOfHorrors => 21,
            LightDungeon::ThirdLeagueOfSuperheroes => 22,
            LightDungeon::DojoOfChildhoodHeroes => 23,
            LightDungeon::MonsterGrotto => 24,
            LightDungeon::CityOfIntrigues => 25,
            LightDungeon::SchoolOfMagicExpress => 26,
            LightDungeon::AshMountain => 27,
            LightDungeon::PlayaGamesHQ => 28,
            LightDungeon::TrainingCamp => 29,
            LightDungeon::Sandstorm => 30,
        }
    }

    /// The dungeon with the number the server uses for it.
    pub open spec fn spec_from_i64(v: i64) -> Option<LightDungeon> {
        match v {
            0 => Some(LightDungeon::DesecratedCatacombs),
            1 => Some(LightDungeon::MinesOfGloria),
            2 => Some(LightDungeon::RuinsOfGnark),
            3 => Some(LightDungeon::CutthroatGrotto),
            4 => Some(LightDungeon::EmeraldScaleAltar),
            5 => Some(LightDungeon::ToxicTree),
            6 => Some(LightDungeon::MagmaStream),
            7 => Some(LightDungeon::FrostBloodTemple),
            8 => Some(LightDungeon::PyramidsofMadness),
            9 => Some(LightDungeon::BlackSkullFortress),
            10 => Some(LightDungeon::CircusOfHorror),
            11 => Some(LightDungeon::Hell),
            12 => Some(LightDungeon::The13thFloor),
            13 => Some(LightDungeon::Easteros),
            14 => Some(LightDungeon::Tower),
            15 => Some(LightDungeon::TimeHonoredSchoolofMagic),
            16 => Some(LightDungeon::Hemorridor),
            18 => Some(LightDungeon::NordicGods),
            19 => Some(LightDungeon::MountOlympus),
            20 => Some(LightDungeon::TavernoftheDarkDoppelgangers),
            21 => Some(LightDungeon::DragonsHoard),
            22 => Some(LightDungeon::HouseOfHorrors),
            23 => Some(LightDungeon::ThirdLeagueOfSuperheroes),
            24 => Some(LightDungeon::DojoOfChildhoodHeroes),
            25 => Some(LightDungeon::MonsterGrotto),
            26 => Some(LightDungeon::CityOfIntrigues),
            27 => Some(LightDungeon::SchoolOfMagicExpress),
            28 => Some(LightDungeon::AshMountain),
            29 => Some(LightDungeon::PlayaGamesHQ),
            30 => Some(LightDungeon::TrainingCamp),
            31 => Some(LightDungeon::Sandstorm),
            _ => None,
        }
    }

    /// The dungeon with the number the server uses for it.
    pub fn from_i64(v: i64) -> (r: Option<LightDungeon>)
        ensures
            r == Self::spec_from_i64(v),
            r matches Some(d) ==> d.spec_id() == v,
    {
        match v {
            0 => Some(LightDungeon::DesecratedCatacombs),
            1 => Some(LightDungeon::MinesOfGloria),
            2 => Some(LightDungeon::RuinsOfGnark),
            3 => Some(LightDungeon::CutthroatGrotto),
            4 => Some(LightDungeon::EmeraldScaleAltar),
            5 => Some(LightDungeon::ToxicTree),
            6 => Some(LightDungeon::MagmaStream),
            7 => Some(LightDungeon::FrostBloodTemple),
            8 => Some(LightDungeon::PyramidsofMadness),
            9 => Some(LightDungeon::BlackSkullFortress),
            10 => Some(LightDungeon::CircusOfHorror),
            11 => Some(LightDungeon::Hell),
            12 => Some(LightDungeon::The13thFloor),
            13 => Some(LightDungeon::Easteros),
            14 => Some(LightDungeon::Tower),
            15 => Some(LightDungeon::TimeHonoredSchoolofMagic),
            16 => Some(LightDungeon::Hemorridor),
            18 => Some(LightDungeon::NordicGods),
            19 => Some(LightDungeon::MountOlympus),
            20 => Some(LightDungeon::TavernoftheDarkDoppelgangers),
            21 => Some(LightDungeon::DragonsHoard),
            22 => Some(LightDungeon::HouseOfHorrors),
            23 => Some(LightDungeon::ThirdLeagueOfSuperheroes),
            24 => Some(LightDungeon::DojoOfChildhoodHeroes),
            25 => Some(LightDungeon::MonsterGrotto),
            26 => Some(LightDungeon::CityOfIntrigues),
            27 => Some(LightDungeon::SchoolOfMagicExpress),
            28 => Some(LightDungeon::AshMountain),
            29 => Some(LightDungeon::PlayaGamesHQ),
            30 => Some(LightDungeon::TrainingCamp),
            31 => Some(LightDungeon::Sandstorm),
            _ => None,
        }
    }
}

/// All shadow dungeons.
#[derive(Debug, Clone, Copy, PartialEq, Eq, Structural, Hash)]
pub enum ShadowDungeon {
    DesecratedCatacombs,
    MinesOfGloria,
    RuinsOfGnark,
    CutthroatGrotto,
    EmeraldScaleAltar,
    ToxicTree,
    MagmaStream,
    FrostBloodTemple,
    PyramidsOfMadness,
    BlackSkullFortress,
    CircusOfHorror,
    Hell,
    The13thFloor,
    Easteros,
    Twister,
    TimeHonoredSchoolOfMagic,
    Hemorridor,
    ContinuousLoopofIdols,
    NordicGods,
    MountOlympus,
    TavernOfTheDarkDoppelgangers,
    DragonsHoard,
    HouseOfHorrors,
    ThirdLeagueofSuperheroes,
    DojoOfChildhoodHeroes,
    MonsterGrotto,
    CityOfIntrigues,
    SchoolOfMagicExpress,
    AshMountain,
    PlayaGamesHQ,
}

impl ShadowDungeon {
    /// The number the server uses for this dungeon.
    pub open spec fn spec_id(self) -> i64 {
        match self {
            ShadowDungeon::DesecratedCatacombs => 0,
            ShadowDungeon::MinesOfGloria => 1,
            ShadowDungeon::RuinsOfGnark => 2,
            ShadowDungeon::CutthroatGrotto => 3,
            ShadowDungeon::EmeraldScaleAltar => 4,
            ShadowDungeon::ToxicTree => 5,
            ShadowDungeon::MagmaStream => 6,
            ShadowDungeon::FrostBloodTemple => 7,
            ShadowDungeon::PyramidsOfMadness => 8,
            ShadowDungeon::BlackSkullFortress => 9,
            ShadowDungeon::CircusOfHorror => 10,
            ShadowDungeon::Hell => 11,
            ShadowDungeon::The13thFloor => 12,
            ShadowDungeon::Easteros => 13,
            ShadowDungeon::Twister => 14,
            ShadowDungeon::TimeHonoredSchoolOfMagic => 15,
            ShadowDungeon::Hemorridor => 16,
            ShadowDungeon::ContinuousLoopofIdols => 17,
            ShadowDungeon::NordicGods => 18,
            ShadowDungeon::MountOlympus => 19,
            ShadowDungeon::TavernOfTheDarkDoppelgangers => 20,
            ShadowDungeon::DragonsHoard => 21,
            ShadowDungeon::HouseOfHorrors => 22,
            ShadowDungeon::ThirdLeagueofSuperheroes => 23,
            ShadowDungeon::DojoOfChildhoodHeroes => 24,
            ShadowDungeon::MonsterGrotto => 25,
            ShadowDungeon::CityOfIntrigues => 26,
            ShadowDungeon::SchoolOfMagicExpress => 27,
            ShadowDungeon::AshMountain => 28,
            ShadowDungeon::PlayaGamesHQ => 29,
        }
    }

    /// The number the server uses for this dungeon.
    pub fn id(self) -> (r: i64)
        ensures
            r == self.spec_id(),
    {
        match self {
            ShadowDungeon::DesecratedCatacombs => 0,
            ShadowDungeon::MinesOfGloria => 1,
            ShadowDungeon::RuinsOfGnark => 2,
            ShadowDungeon::CutthroatGrotto => 3,
            ShadowDungeon::EmeraldScaleAltar => 4,
            ShadowDungeon::ToxicTree => 5,
            ShadowDungeon::MagmaStream => 6,
            ShadowDungeon::FrostBloodTemple => 7,
            ShadowDungeon::PyramidsOfMadness => 8,
            ShadowDungeon::BlackSkullFortress => 9,
            ShadowDungeon::CircusOfHorror => 10,
            ShadowDungeon::Hell => 11,
            ShadowDungeon::The13thFloor => 12,
            ShadowDungeon::Easteros => 13,
            ShadowDungeon::Twister => 14,
            ShadowDungeon::TimeHonoredSchoolOfMagic => 15,
            ShadowDungeon::Hemorridor => 16,
            ShadowDungeon::ContinuousLoopofIdols => 17,
            ShadowDungeon::NordicGods => 18,
            ShadowDungeon::MountOlympus => 19,
            ShadowDungeon::TavernOfTheDarkDoppelgangers => 20,
            ShadowDungeon::DragonsHoard => 21,
            ShadowDungeon::HouseOfHorrors => 22,
            ShadowDungeon::ThirdLeagueofSuperheroes => 23,
            ShadowDungeon::DojoOfChildhoodHeroes => 24,
            ShadowDungeon::MonsterGrotto => 25,
            ShadowDungeon::CityOfIntrigues => 26,
            ShadowDungeon::SchoolOfMagicExpress => 27,
            ShadowDungeon::AshMountain => 28,
            ShadowDungeon::PlayaGamesHQ => 29,
        }
    }

    /// The position of this dungeon among all of its kind.
    pub open spec fn spec_index(self) -> int {
        match self {
            ShadowDungeon::DesecratedCatacombs => 0,
            ShadowDungeon::MinesOfGloria => 1,
            ShadowDungeon::RuinsOfGnark => 2,
            ShadowDungeon::CutthroatGrotto => 3,
            ShadowDungeon::EmeraldScaleAltar => 4,
            ShadowDungeon::ToxicTree => 5,
            ShadowDungeon::MagmaStream => 6,
            ShadowDungeon::FrostBloodTemple => 7,
            ShadowDungeon::PyramidsOfMadness => 8,
            ShadowDungeon::BlackSkullFortress => 9,
            ShadowDungeon::CircusOfHorror => 10,
            ShadowDungeon::Hell => 11,
            ShadowDungeon::The13thFloor => 12,
            ShadowDungeon::Easteros => 13,
            ShadowDungeon::Twister => 14,
            ShadowDungeon::TimeHonoredSchoolOfMagic => 15,
            ShadowDungeon::Hemorridor => 16,
            ShadowDungeon::ContinuousLoopofIdols => 17,
            ShadowDungeon::NordicGods => 18,
            ShadowDungeon::MountOlympus => 19,
            ShadowDungeon::TavernOfTheDarkDoppelgangers => 20,
            ShadowDungeon::DragonsHoard => 21,
            ShadowDungeon::HouseOfHorrors => 22,
            ShadowDungeon::ThirdLeagueofSuperheroes => 23,
            ShadowDungeon::DojoOfChildhoodHeroes => 24,
            ShadowDungeon::MonsterGrotto => 25,
            ShadowDungeon::CityOfIntrigues => 26,
            ShadowDungeon::SchoolOfMagicExpress => 27,
            ShadowDungeon::AshMountain => 28,
            ShadowDungeon::PlayaGamesHQ => 29,
        }
    }

    /// The position of this dungeon among all of its kind.
    pub fn index(self) -> (r: usize)
        ensures
            r == self.spec_index(),
            r < 30,
    {
        match self {
            ShadowDungeon::DesecratedCatacombs => 0,
            ShadowDungeon::MinesOfGloria => 1,
            ShadowDungeon::RuinsOfGnark => 2,
            ShadowDungeon::CutthroatGrotto => 3,
            ShadowDungeon::EmeraldScaleAltar => 4,
            ShadowDungeon::ToxicTree => 5,
            ShadowDungeon::MagmaStream => 6,
            ShadowDungeon::FrostBloodTemple => 7,
            ShadowDungeon::PyramidsOfMadness => 8,
            ShadowDungeon::BlackSkullFortress => 9,
            ShadowDungeon::CircusOfHorror => 10,
            ShadowDungeon::Hell => 11,
            ShadowDungeon::The13thFloor => 12,
            ShadowDungeon::Easteros => 13,
            ShadowDungeon::Twister => 14,
            ShadowDungeon::TimeHonoredSchoolOfMagic => 15,
            ShadowDungeon::Hemorridor => 16,
            ShadowDungeon::ContinuousLoopofIdols => 17,
            ShadowDungeon::NordicGods => 18,
            ShadowDungeon::MountOlympus => 19,
            ShadowDungeon::TavernOfTheDarkDoppelgangers => 20,
            ShadowDungeon::DragonsHoard => 21,
            ShadowDungeon::HouseOfHorrors => 22,
            ShadowDungeon::ThirdLeagueofSuperheroes => 23,
            ShadowDungeon::DojoOfChildhoodHeroes => 24,
            ShadowDungeon::MonsterGrotto => 25,
            ShadowDungeon::CityOfIntrigues => 26,
            ShadowDungeon::SchoolOfMagicExpress => 27,
            ShadowDungeon::AshMountain => 28,
            ShadowDungeon::PlayaGamesHQ => 29,
        }
    }

    /// The dungeon with the number the server uses for it.
    pub open spec fn spec_from_i64(v: i64) -> Option<ShadowDungeon> {
        match v {
            0 => Some(ShadowDungeon::DesecratedCatacombs),
            1 => Some(ShadowDungeon::MinesOfGloria),
            2 => Some(ShadowDungeon::RuinsOfGnark),
            3 => Some(ShadowDungeon::CutthroatGrotto),
            4 => Some(ShadowDungeon::EmeraldScaleAltar),
            5 => Some(ShadowDungeon::ToxicTree),
            6 => Some(ShadowDungeon::MagmaStream),
            7 => Some(ShadowDungeon::FrostBloodTemple),
            8 => Some(ShadowDungeon::PyramidsOfMadness),
            9 => Some(ShadowDungeon::BlackSkullFortress),
            10 => Some(ShadowDungeon::CircusOfHorror),
            11 => Some(ShadowDungeon::Hell),
            12 => Some(ShadowDungeon::The13thFloor),
            13 => Some(ShadowDungeon::Easteros),
            14 => Some(ShadowDungeon::Twister),
            15 => Some(ShadowDungeon::TimeHonoredSchoolOfMagic),
            16 => Some(ShadowDungeon::Hemorridor),
            17 => Some(ShadowDungeon::ContinuousLoopofIdols),
            18 => Some(ShadowDungeon::NordicGods),
            19 => Some(ShadowDungeon::MountOlympus),
            20 => Some(ShadowDungeon::TavernOfTheDarkDoppelgangers),
            21 => Some(ShadowDungeon::DragonsHoard),
            22 => Some(ShadowDungeon::HouseOfHorrors),
            23 => Some(ShadowDungeon::ThirdLeagueofSuperheroes),
            24 => Some(ShadowDungeon::DojoOfChildhoodHeroes),
            25 => Some(ShadowDungeon::MonsterGrotto),
            26 => Some(ShadowDungeon::CityOfIntrigues),
            27 => Some(ShadowDungeon::SchoolOfMagicExpress),
            28 => Some(ShadowDungeon::AshMountain),
            29 => Some(ShadowDungeon::PlayaGamesHQ),
            _ => None,
        }
    }

    /// The dungeon with the number the server uses for it.
    pub fn from_i64(v: i64) -> (r: Option<ShadowDungeon>)
        ensures
            r == Self::spec_from_i64(v),
            r matches Some(d) ==> d.spec_id() == v,
    {
        match v {
            0 => Some(ShadowDungeon::DesecratedCatacombs),
            1 => Some(ShadowDungeon::MinesOfGloria),
            2 => Some(ShadowDungeon::RuinsOfGnark),
            3 => Some(ShadowDungeon::CutthroatGrotto),
            4 => Some(ShadowDungeon::EmeraldScaleAltar),
            5 => Some(ShadowDungeon::ToxicTree),
            6 => Some(ShadowDungeon::MagmaStream),
            7 => Some(ShadowDungeon::FrostBloodTemple),
            8 => Some(ShadowDungeon::PyramidsOfMadness),
            9 => Some(ShadowDungeon::BlackSkullFortress),
            10 => Some(ShadowDungeon::CircusOfHorror),
            11 => Some(ShadowDungeon::Hell),
            12 => Some(ShadowDungeon::The13thFloor),
            13 => Some(ShadowDungeon::Easteros),
            14 => Some(ShadowDungeon::Twister),
            15 => Some(ShadowDungeon::TimeHonoredSchoolOfMagic),
            16 => Some(ShadowDungeon::Hemorridor),
            17 => Some(ShadowDungeon::ContinuousLoopofIdols),
            18 => Some(ShadowDungeon::NordicGods),
            19 => Some(ShadowDungeon::MountOlympus),
            20 => Some(ShadowDungeon::TavernOfTheDarkDoppelgangers),
            21 => Some(ShadowDungeon::DragonsHoard),
            22 => Some(ShadowDungeon::HouseOfHorrors),
            23 => Some(ShadowDungeon::ThirdLeagueofSuperheroes),
            24 => Some(ShadowDungeon::DojoOfChildhoodHeroes),
            25 => Some(ShadowDungeon::MonsterGrotto),
            26 => Some(ShadowDungeon::CityOfIntrigues),
            27 => Some(ShadowDungeon::SchoolOfMagicExpress),
            28 => Some(ShadowDungeon::AshMountain),
            29 => Some(ShadowDungeon::PlayaGamesHQ),
            _ => None,
        }
    }
}

} // verus!

verus! {

/// The current state of a dungeon.
#[derive(Debug, Clone, Copy, PartialEq, Eq, Structural)]
pub enum DungeonProgress {
    /// The dungeon has not yet been unlocked
    Locked,
    /// The dungeon is open and can be fought in
    Open {
        /// The amount of enemies already finished
        finished: u16,
    },
    /// The dungeon has been fully cleared and can not be entered anymore
    Finished,
}

impl Default for DungeonProgress {
    fn default() -> (r: Self)
        ensures
            r == DungeonProgress::Locked,
    {
        DungeonProgress::Locked
    }
}

/// The category of a dungeon.
#[derive(Debug, Clone, Copy, PartialEq, Eq, Structural, Hash)]
pub enum DungeonType {
    Light,
    Shadow,
}

/// A dungeon of either category.
#[derive(Debug, Clone, Copy, PartialEq, Eq, Structural, Hash)]
pub enum Dungeon {
    Light(LightDungeon),
    Shadow(ShadowDungeon),
}

/// The class of a companion. There is one companion per class.
#[derive(Debug, Clone, Copy, PartialEq, Eq, Structural, Hash)]
pub enum CompanionClass {
    /// Bert
    Warrior,
    /// Mark
    Mage,
    /// Kunigunde
    Scout,
}

impl CompanionClass {
    /// The position of this companion (0 to 2).
    pub fn index(self) -> (r: usize)
        ensures
            r == match self {
                CompanionClass::Warrior => 0usize,
                CompanionClass::Mage => 1,
                CompanionClass::Scout => 2,
            },
    {
        match self {
            CompanionClass::Warrior => 0,
            CompanionClass::Mage => 1,
            CompanionClass::Scout => 2,
        }
    }

    /// The class of this companion.
    pub open spec fn spec_class(self) -> Class {
        match self {
            CompanionClass::Warrior => Class::Warrior,
            CompanionClass::Mage => Class::Mage,
            CompanionClass::Scout => Class::Scout,
        }
    }

    /// The class of this companion.
    pub fn class(self) -> (r: Class)
        ensures
            r == self.spec_class(),
    {
        match self {
            CompanionClass::Warrior => Class::Warrior,
            CompanionClass::Mage => Class::Mage,
            CompanionClass::Scout => Class::Scout,
        }
    }
}

/// A single companion.
#[derive(Debug, Clone, Copy)]
pub struct Companion {
    /// The level of the companion
    pub level: i64,
    /// The equipment this companion is wearing
    pub equipment: Equipment,
    /// The total attributes of this companion
    pub attributes: AttributeMap,
}

/// The personal demon portal.
#[derive(Debug, Clone, Copy, PartialEq, Eq, Structural)]
pub struct Portal {
    /// The amount of enemies you have fought in the portal already
    pub finished: u16,
    /// Whether the portal can be fought today
    pub can_fight: bool,
    /// The level of the enemy in the portal
    pub enemy_level: u32,
    /// The amount of health the enemy has left
    pub enemy_hp_percentage: u8,
    /// Percentage boost to the players hp
    pub player_hp_bonus: u16,
}

impl Default for Portal {
    fn default() -> (r: Self)
        ensures
            r == (Portal {
                finished: 0,
                can_fight: false,
                enemy_level: 0,
                enemy_hp_percentage: 0,
                player_hp_bonus: 0,
            }),
    {
        Portal { finished: 0, can_fight: false, enemy_level: 0, enemy_hp_percentage: 0, player_hp_bonus: 0 }
    }
}

/// What reading the progress values `d` of the light or the shadow
/// dungeons does to the dungeons `a`, giving `b`: each dungeon that `d`
/// reaches takes its progress, and the rest stays.
pub open spec fn progress_read(a: Dungeons, d: Seq<i64>, t: DungeonType, b: Dungeons) -> bool {
    &&& b == (Dungeons { light: b.light, shadow: b.shadow, ..a })
    &&& t == DungeonType::Light ==> b.shadow == a.shadow && forall|x: LightDungeon|
        #[trigger] b.light@[x.spec_index()] == if x.spec_id() < d.len() {
            spec_progress(d[x.spec_id() as int], x.spec_id() as int)
        } else {
            a.light@[x.spec_index()]
        }
    &&& t == DungeonType::Shadow ==> b.light == a.light && forall|x: ShadowDungeon|
        #[trigger] b.shadow@[x.spec_index()] == spec_shadow_after(a.shadow@, d, x)
}

/// What reading the portal values `d` does to the portal `a`, giving `b`:
/// the finished fights and the enemy's health are read, and it can be
/// fought unless the last fight was on the server's current day (a day of
/// the year, or 0).
pub open spec fn portal_read(a: Portal, d: Seq<i64>, b: Portal) -> bool {
    &&& d.len() >= 3
    &&& b.finished == soft_u16(d[0], 10_000)
    &&& b.enemy_hp_percentage == soft_u8(d[1], 0)
    &&& b.enemy_level == a.enemy_level
    &&& b.player_hp_bonus == a.player_hp_bonus
    &&& exists|day: int| 0 <= day <= 366 && b.can_fight == #[trigger] fought_on_other_day(d[2], day)
}

/// The enemy of a dungeon at the given progress: for an open dungeon, the
/// enemy after the stages already finished, where the dungeon lists one. A
/// locked or finished dungeon has none, and no enemies are listed for the
/// shadow dungeons.
pub open spec fn spec_dungeon_enemy(dungeon: Dungeon, progress: DungeonProgress) -> Option<Monster> {
    match progress {
        DungeonProgress::Open { finished } => match dungeon {
            Dungeon::Light(d) => if (finished as int) < spec_light_enemies(d).len() {
                Some(spec_light_enemies(d)[finished as int])
            } else {
                None
            },
            Dungeon::Shadow(_) => None,
        },
        _ => None,
    }
}

/// The enemy of a dungeon at the given progress (see `spec_dungeon_enemy`).
pub fn dungeon_enemy(dungeon: Dungeon, progress: DungeonProgress) -> (r: Option<Monster>)
    ensures
        r == spec_dungeon_enemy(dungeon, progress),
{
    let stage = match progress {
        DungeonProgress::Open { finished } => finished,
        _ => return None,
    };
    match dungeon {
        Dungeon::Light(d) => {
            let enemies = light_enemies(d);
            if (stage as usize) < enemies.len() {
                Some(enemies[stage as usize])
            } else {
                None
            }
        },
        Dungeon::Shadow(_) => None,
    }
}

/// The day of the year (1 to 366) of the date and time `secs` seconds after
/// the epoch, as `chrono`'s `Datelike::ordinal` gives it.
pub uninterp spec fn ordinal_day(secs: i64) -> u32;

/// The day of the year of the date and time `secs` seconds after the epoch:
/// `chrono::Datelike::ordinal` of `DateTime::from_timestamp(secs, 0)`, which
/// `chrono`'s documentation puts at 1 to 366; `None` where `chrono` can not
/// represent the time. The contract names the day.
#[verifier::external_body]
fn ordinal_day_of(secs: i64) -> (r: Option<u32>)
    ensures
        r is Some <==> chrono_timestamp_valid(secs),
        r matches Some(d) ==> d == ordinal_day(secs) && 1 <= d <= 366,
{
    match chrono::DateTime::from_timestamp(secs, 0) {
        Some(t) => Some(chrono::Datelike::ordinal(&t.naive_utc())),
        None => None,
    }
}

/// Whether a portal last fought on the day that the raw value names can be
/// fought again on the given day of the year.
pub open spec fn fought_on_other_day(raw_last_day: i64, day: int) -> bool {
    soft_u32(raw_last_day, 0) != day
}

impl Portal {
    /// Updates the portal from the portal progress values, given the day of
    /// the year on the server: it can be fought where the last fight was on
    /// another day.
    pub fn update_on_day(&mut self, data: &[i64], current_day: u32) -> (r: Result<(), SFError>)
        ensures
            data@.len() >= 3 ==> r is Ok && final(self).finished == soft_u16(data@[0], 10_000)
                && final(self).enemy_hp_percentage == soft_u8(data@[1], 0) && final(self).can_fight
                == (soft_u32(data@[2], 0) != current_day) && final(self).enemy_level == old(
                self,
            ).enemy_level && final(self).player_hp_bonus == old(self).player_hp_bonus,
            data@.len() < 3 ==> r is Err,
            final(self).enemy_level == old(self).enemy_level,
            final(self).player_hp_bonus == old(self).player_hp_bonus,
            r matches Err(e) ==> portal_error(e, data@),
    {
        self.finished = csiget_u16(data, 0, "portal fights", 10_000)?;
        self.enemy_hp_percentage = csiget_u8(data, 1, "portal hp", 0)?;
        let last_portal_day = csiget_u32(data, 2, "portal day", 0)?;
        self.can_fight = last_portal_day != current_day;
        Ok(())
    }

    /// Updates the portal from the portal progress values, with the current
    /// day of the year on the server (day 0, which matches no stored day,
    /// where the server's date can not be represented).
    pub fn update(&mut self, data: &[i64], server_time: ServerTime) -> (r: Result<(), SFError>)
        ensures
            data@.len() >= 3 ==> r is Ok && final(self).finished == soft_u16(data@[0], 10_000)
                && final(self).enemy_hp_percentage == soft_u8(data@[1], 0),
            data@.len() >= 3 ==> exists|d: int|
                0 <= d <= 366 && final(self).can_fight == #[trigger] fought_on_other_day(
                    data@[2],
                    d,
                ),
            data@.len() >= 3 && soft_u32(data@[2], 0) > 366 ==> final(self).can_fight,
            data@.len() < 3 ==> r is Err,
            final(self).enemy_level == old(self).enemy_level,
            final(self).player_hp_bonus == old(self).player_hp_bonus,
            r is Ok ==> portal_read(*old(self), data@, *final(self)),
            r matches Err(e) ==> portal_error(e, data@),
    {
        let now = server_time.current();
        let day = match ordinal_day_of(now) {
            Some(d) => d,
            None => 0,
        };
        let r = self.update_on_day(data, day);
        proof {
            if data@.len() >= 3 {
                assert(self.can_fight == fought_on_other_day(data@[2], day as int));
            }
        }
        r
    }
}

/// The progress of a dungeon that a raw progress value describes.
pub open spec fn spec_progress(raw: i64, dungeon_id: int) -> DungeonProgress {
    if raw == -1 {
        DungeonProgress::Locked
    } else {
        let stage = soft_u16(raw, 0);
        if stage == 10 || (stage == 100 && dungeon_id == 14) {
            DungeonProgress::Finished
        } else {
            DungeonProgress::Open { finished: stage }
        }
    }
}

fn progress_of(raw: i64, dungeon_id: usize) -> (r: DungeonProgress)
    ensures
        r == spec_progress(raw, dungeon_id as int),
{
    if raw == -1 {
        DungeonProgress::Locked
    } else {
        let stage = soft_into_u16(raw, "dungeon progress", 0);
        if stage == 10 || (stage == 100 && dungeon_id == 14) {
            DungeonProgress::Finished
        } else {
            DungeonProgress::Open { finished: stage }
        }
    }
}

/// The information about all generic dungeons in the game.
#[derive(Debug, Clone)]
pub struct Dungeons {
    /// The next time you can fight in the dungeons for free
    pub next_free_fight: Option<i64>,
    /// All the light dungeons, by `LightDungeon::index`
    pub light: [DungeonProgress; 31],
    /// All the shadow dungeons, by `ShadowDungeon::index`
    pub shadow: [DungeonProgress; 30],
    /// The personal demon portal, if unlocked
    pub portal: Option<Portal>,
    /// The companions unlocked with the tower, by `CompanionClass::index`
    pub companions: Option<[Companion; 3]>,
}

impl Dungeons {
    /// The progress of a dungeon.
    pub fn progress(&self, dungeon: Dungeon) -> (r: DungeonProgress)
        ensures
            r == match dungeon {
                Dungeon::Light(d) => self.light@[d.spec_index()],
                Dungeon::Shadow(d) => self.shadow@[d.spec_index()],
            },
    {
        match dungeon {
            Dungeon::Light(d) => self.light[d.index()],
            Dungeon::Shadow(d) => self.shadow[d.index()],
        }
    }

    /// The enemy that the next fight of a dungeon is against: the one after
    /// the stages already finished, where the dungeon is open and lists it.
    pub fn current_enemy(&self, dungeon: Dungeon) -> (r: Option<Monster>)
        ensures
            r == spec_dungeon_enemy(
                dungeon,
                match dungeon {
                    Dungeon::Light(d) => self.light@[d.spec_index()],
                    Dungeon::Shadow(d) => self.shadow@[d.spec_index()],
                },
            ),
    {
        dungeon_enemy(dungeon, self.progress(dungeon))
    }

    /// Checks if a companion can equip the given item: there must be
    /// companions, and the item must suit the companion's class.
    pub fn can_companion_equip(&self, companion: CompanionClass, item: &Item) -> (r: bool)
        ensures
            r == (self.companions is Some && !(item.typ is Shield)
                && item.typ.spec_equipment_slot() is Some && item.spec_can_be_used_by(
                companion.spec_class(),
            )),
    {
        if self.companions.is_none() {
            return false;
        }
        item.can_be_equipped_by_companion(companion.class())
    }

    /// Updates the progress of the light dungeons: `data[id]` is the raw
    /// progress of the dungeon with the number `id`.
    pub fn update_light_progress(&mut self, data: &[i64])
        ensures
            *final(self) == (Dungeons { light: final(self).light, shadow: final(self).shadow, ..*old(self) }),
            forall|d: LightDungeon| #[trigger] final(self).light@[d.spec_index()] == if d.spec_id() < data@.len() {
                spec_progress(data@[d.spec_id() as int], d.spec_id() as int)
            } else {
                old(self).light@[d.spec_index()]
            },
            final(self).shadow == old(self).shadow,
    {
        let len = data.len();
        let mut i: usize = 0;
        while i < len
            invariant
                len == data@.len(),
                i <= len,
                self.shadow == old(self).shadow,
                *self == (Dungeons { light: self.light, shadow: self.shadow, ..*old(self) }),
                forall|d: LightDungeon| #[trigger] self.light@[d.spec_index()] == if d.spec_id() < i {
                    spec_progress(data@[d.spec_id() as int], d.spec_id() as int)
                } else {
                    old(self).light@[d.spec_index()]
                },
            decreases len - i,
        {
            if i <= 31 {
                match LightDungeon::from_i64(i as i64) {
                    Some(d) => {
                        let p = progress_of(data[i], i);
                        let ghost before = self.light@;
                        self.light[d.index()] = p;
                        assert forall|e: LightDungeon| e.spec_index() == d.spec_index() implies e == d by {}
                    },
                    None => {},
                }
            }
            i = i + 1;
        }
    }

    /// Updates the progress of the shadow dungeons, before the limits of
    /// the endless dungeons apply: `data[id]` is the raw progress of the
    /// dungeon with the number `id`.
    fn update_shadow_raw(&mut self, data: &[i64])
        ensures
            *final(self) == (Dungeons { light: final(self).light, shadow: final(self).shadow, ..*old(self) }),
            forall|d: ShadowDungeon| #[trigger] final(self).shadow@[d.spec_index()] == if d.spec_id() < data@.len() {
                spec_progress(data@[d.spec_id() as int], d.spec_id() as int)
            } else {
                old(self).shadow@[d.spec_index()]
            },
            final(self).light == old(self).light,
    {
        let len = data.len();
        let mut i: usize = 0;
        while i < len
            invariant
                len == data@.len(),
                i <= len,
                self.light == old(self).light,
                *self == (Dungeons { light: self.light, shadow: self.shadow, ..*old(self) }),
                forall|d: ShadowDungeon| #[trigger] self.shadow@[d.spec_index()] == if d.spec_id() < i {
                    spec_progress(data@[d.spec_id() as int], d.spec_id() as int)
                } else {
                    old(self).shadow@[d.spec_index()]
                },
            decreases len - i,
        {
            if i <= 31 {
                match ShadowDungeon::from_i64(i as i64) {
                    Some(d) => {
                        let p = progress_of(data[i], i);
                        self.shadow[d.index()] = p;
                        assert forall|e: ShadowDungeon| e.spec_index() == d.spec_index() implies e == d by {}
                    },
                    None => {},
                }
            }
            i = i + 1;
        }
    }

    /// Marks an open dungeon as finished, where it has reached a limit.
    fn finish_at_limit(&mut self, d: ShadowDungeon, limit: u16)
        ensures
            *final(self) == (Dungeons { light: final(self).light, shadow: final(self).shadow, ..*old(self) }),
            final(self).light == old(self).light,
            forall|e: ShadowDungeon| #[trigger] final(self).shadow@[e.spec_index()] == if e == d {
                spec_limit(old(self).shadow@[d.spec_index()], limit)
            } else {
                old(self).shadow@[e.spec_index()]
            },
    {
        let i = d.index();
        match self.shadow[i] {
            DungeonProgress::Open { finished } => {
                if finished >= limit {
                    self.shadow[i] = DungeonProgress::Finished;
                }
            },
            _ => {},
        }
        assert forall|e: ShadowDungeon| e.spec_index() == d.spec_index() implies e == d by {}
    }

    /// Updates the progress of the dungeons of one category: `data[id]` is
    /// the raw progress of the dungeon with the number `id`. The endless
    /// shadow dungeons count as finished at 21 and 1000 fights.
    pub fn update_progress(&mut self, data: &[i64], dungeon_type: DungeonType)
        ensures
            progress_read(*old(self), data@, dungeon_type, *final(self)),
            *final(self) == (Dungeons { light: final(self).light, shadow: final(self).shadow, ..*old(self) }),
            dungeon_type == DungeonType::Light ==> final(self).shadow == old(self).shadow
                && forall|d: LightDungeon| #[trigger] final(self).light@[d.spec_index()] == if d.spec_id() < data@.len() {
                    spec_progress(data@[d.spec_id() as int], d.spec_id() as int)
                } else {
                    old(self).light@[d.spec_index()]
                },
            dungeon_type == DungeonType::Shadow ==> final(self).light == old(self).light
                && forall|d: ShadowDungeon| #[trigger] final(self).shadow@[d.spec_index()] == spec_shadow_after(
                    old(self).shadow@,
                    data@,
                    d,
                ),
    {
        match dungeon_type {
            DungeonType::Light => self.update_light_progress(data),
            DungeonType::Shadow => {
                self.update_shadow_raw(data);
                self.finish_at_limit(ShadowDungeon::ContinuousLoopofIdols, 21);
                self.finish_at_limit(ShadowDungeon::Twister, 1000);
            },
        }
    }
}

/// A progress after the limit of an endless dungeon applies.
pub open spec fn spec_limit(p: DungeonProgress, limit: u16) -> DungeonProgress {
    match p {
        DungeonProgress::Open { finished } => if finished >= limit {
            DungeonProgress::Finished
        } else {
            p
        },
        _ => p,
    }
}

/// The progress of a shadow dungeon after an update with raw progress values.
pub open spec fn spec_shadow_after(old_shadow: Seq<DungeonProgress>, data: Seq<i64>, d: ShadowDungeon) -> DungeonProgress {
    let raw = if d.spec_id() < data.len() {
        spec_progress(data[d.spec_id() as int], d.spec_id() as int)
    } else {
        old_shadow[d.spec_index()]
    };
    if d == ShadowDungeon::ContinuousLoopofIdols {
        spec_limit(raw, 21)
    } else if d == ShadowDungeon::Twister {
        spec_limit(raw, 1000)
    } else {
        raw
    }
}

} // verus!

verus! {

impl Default for Dungeons {
    fn default() -> (r: Self)
        ensures
            r.next_free_fight is None,
            r.portal is None,
            r.companions is None,
            forall|i: int| 0 <= i < 31 ==> r.light@[i] == DungeonProgress::Locked,
            forall|i: int| 0 <= i < 30 ==> r.shadow@[i] == DungeonProgress::Locked,
    {
        Dungeons {
            next_free_fight: None,
            light: [DungeonProgress::Locked; 31],
            shadow: [DungeonProgress::Locked; 30],
            portal: None,
            companions: None,
        }
    }
}

} // verus!

verus! {

impl Default for Companion {
    fn default() -> (r: Self)
        ensures
            r.level == 0,
            r.attributes == [0u32, 0, 0, 0, 0],
    {
        Companion { level: 0, equipment: Equipment::default(), attributes: [0, 0, 0, 0, 0] }
    }
}

} // verus!

verus! {

impl From<LightDungeon> for Dungeon {
    fn from(val: LightDungeon) -> (r: Dungeon) {
        Dungeon::Light(val)
    }
}

impl vstd::std_specs::convert::FromSpecImpl<LightDungeon> for Dungeon {
    open spec fn obeys_from_spec() -> bool {
        true
    }

    open spec fn from_spec(val: LightDungeon) -> Dungeon {
        Dungeon::Light(val)
    }
}

impl From<ShadowDungeon> for Dungeon {
    fn from(val: ShadowDungeon) -> (r: Dungeon) {
        Dungeon::Shadow(val)
    }
}

impl vstd::std_specs::convert::FromSpecImpl<ShadowDungeon> for Dungeon {
    open spec fn obeys_from_spec() -> bool {
        true
    }

    open spec fn from_spec(val: ShadowDungeon) -> Dungeon {
        Dungeon::Shadow(val)
    }
}

impl From<CompanionClass> for Class {
    fn from(value: CompanionClass) -> (r: Class) {
        value.class()
    }
}

impl vstd::std_specs::convert::FromSpecImpl<CompanionClass> for Class {
    open spec fn obeys_from_spec() -> bool {
        true
    }

    open spec fn from_spec(value: CompanionClass) -> Class {
        value.spec_class()
    }
}

} // verus!
