use vstd::prelude::*;

use crate::error::SFError;
use crate::gamestate::{ServerTime, short_error_in};
use crate::misc::{csiget_u64, skip, soft_u8, soft_u16, soft_u32, soft_u64, soft_into_u8, soft_into_u16, soft_into_u32, soft_into_u64, too_short};

verus! {

/// The price of an upgrade in the underworld.
#[derive(Debug, Clone, Copy, PartialEq, Eq, Structural)]
pub struct UnderworldCost {
    /// The time the upgrade takes, in seconds
    pub time: u64,
    pub silver: u64,
    pub souls: u64,
}

impl Default for UnderworldCost {
    fn default() -> (r: Self)
        ensures
            r == (UnderworldCost { time: 0, silver: 0, souls: 0 }),
    {
        UnderworldCost { time: 0, silver: 0, souls: 0 }
    }
}

impl UnderworldCost {
    /// The cost that (at least) 3 values describe: time, silver, souls.
    pub open spec fn spec_parse(d: Seq<i64>) -> UnderworldCost {
        UnderworldCost {
            time: soft_u64(d[0], 0),
            silver: soft_u64(d[1], u64::MAX),
            souls: soft_u64(d[2], u64::MAX),
        }
    }

    /// Parses the cost that (at least) 3 values describe.
    pub fn parse(data: &[i64]) -> (r: Result<UnderworldCost, SFError>)
        ensures
            data@.len() >= 3 <==> r is Ok,
            r is Ok ==> r == Ok::<UnderworldCost, SFError>(Self::spec_parse(data@)),
    {
        Ok(UnderworldCost {
            time: csiget_u64(data, 0, "u time cost", 0)?,
            silver: csiget_u64(data, 1, "u silver cost", 18446744073709551615)?,
            souls: csiget_u64(data, 2, "u sould cost", 18446744073709551615)?,
        })
    }
}

/// A resource that the underworld produces.
#[derive(Debug, Clone, Copy, PartialEq, Eq, Structural, Hash)]
pub enum UnderWorldResourceType {
    Souls,
    Silver,
    ThirstForAdventure,
}

impl UnderWorldResourceType {
    /// The position of this value (counted from 0).
    pub open spec fn spec_index(self) -> int {
        match self {
            UnderWorldResourceType::Souls => 0,
            UnderWorldResourceType::Silver => 1,
            UnderWorldResourceType::ThirstForAdventure => 2,
        }
    }

    /// The position of this value (counted from 0).
    pub fn index(self) -> (r: usize)
        ensures
            r == self.spec_index(),
            r < 3,
    {
        match self {
            UnderWorldResourceType::Souls => 0,
            UnderWorldResourceType::Silver => 1,
            UnderWorldResourceType::ThirstForAdventure => 2,
        }
    }

    /// The value at the given position (counted from 0).
    pub open spec fn spec_from_index(v: int) -> Option<UnderWorldResourceType> {
        if v == 0 { Some(UnderWorldResourceType::Souls)
        } else if v == 1 { Some(UnderWorldResourceType::Silver)
        } else if v == 2 { Some(UnderWorldResourceType::ThirstForAdventure)
        } else { None }
    }

    /// The value at the given position (counted from 0).
    pub fn from_i64(v: i64) -> (r: Option<UnderWorldResourceType>)
        ensures
            r == Self::spec_from_index(v as int),
    {
        match v {
            0 => Some(UnderWorldResourceType::Souls),
            1 => Some(UnderWorldResourceType::Silver),
            2 => Some(UnderWorldResourceType::ThirstForAdventure),
            _ => None,
        }
    }
}

/// A building of the underworld.
#[derive(Debug, Clone, Copy, PartialEq, Eq, Structural, Hash)]
pub enum UnderworldBuildingType {
    HeartOfDarkness,
    Gate,
    GoldPit,
    SoulExtractor,
    GoblinPit,
    TortureChamber,
    GladiatorTrainer,
    TrollBlock,
    Adventuromatic,
    Keeper,
}

impl UnderworldBuildingType {
    /// The position of this value (counted from 0).
    pub open spec fn spec_index(self) -> int {
        match self {
            UnderworldBuildingType::HeartOfDarkness => 0,
            UnderworldBuildingType::Gate => 1,
            UnderworldBuildingType::GoldPit => 2,
            UnderworldBuildingType::SoulExtractor => 3,
            UnderworldBuildingType::GoblinPit => 4,
            UnderworldBuildingType::TortureChamber => 5,
            UnderworldBuildingType::GladiatorTrainer => 6,
            UnderworldBuildingType::TrollBlock => 7,
            UnderworldBuildingType::Adventuromatic => 8,
            UnderworldBuildingType::Keeper => 9,
        }
    }

    /// The position of this value (counted from 0).
    pub fn index(self) -> (r: usize)
        ensures
            r == self.spec_index(),
            r < 10,
    {
        match self {
            UnderworldBuildingType::HeartOfDarkness => 0,
            UnderworldBuildingType::Gate => 1,
            UnderworldBuildingType::GoldPit => 2,
            UnderworldBuildingType::SoulExtractor => 3,
            UnderworldBuildingType::GoblinPit => 4,
            UnderworldBuildingType::TortureChamber => 5,
            UnderworldBuildingType::GladiatorTrainer => 6,
            UnderworldBuildingType::TrollBlock => 7,
            UnderworldBuildingType::Adventuromatic => 8,
            UnderworldBuildingType::Keeper => 9,
        }
    }

    /// The value at the given position (counted from 0).
    pub open spec fn spec_from_index(v: int) -> Option<UnderworldBuildingType> {
        if v == 0 { Some(UnderworldBuildingType::HeartOfDarkness)
        } else if v == 1 { Some(UnderworldBuildingType::Gate)
        } else if v == 2 { Some(UnderworldBuildingType::GoldPit)
        } else if v == 3 { Some(UnderworldBuildingType::SoulExtractor)
        } else if v == 4 { Some(UnderworldBuildingType::GoblinPit)
        } else if v == 5 { Some(UnderworldBuildingType::TortureChamber)
        } else if v == 6 { Some(UnderworldBuildingType::GladiatorTrainer)
        } else if v == 7 { Some(UnderworldBuildingType::TrollBlock)
        } else if v == 8 { Some(UnderworldBuildingType::Adventuromatic)
        } else if v == 9 { Some(UnderworldBuildingType::Keeper)
        } else { None }
    }

    /// The value at the given position (counted from 0).
    pub fn from_i64(v: i64) -> (r: Option<UnderworldBuildingType>)
        ensures
            r == Self::spec_from_index(v as int),
    {
        match v {
            0 => Some(UnderworldBuildingType::HeartOfDarkness),
            1 => Some(UnderworldBuildingType::Gate),
            2 => Some(UnderworldBuildingType::GoldPit),
            3 => Some(UnderworldBuildingType::SoulExtractor),
            4 => Some(UnderworldBuildingType::GoblinPit),
            5 => Some(UnderworldBuildingType::TortureChamber),
            6 => Some(UnderworldBuildingType::GladiatorTrainer),
            7 => Some(UnderworldBuildingType::TrollBlock),
            8 => Some(UnderworldBuildingType::Adventuromatic),
            9 => Some(UnderworldBuildingType::Keeper),
            _ => None,
        }
    }
}

/// A unit of the underworld.
#[derive(Debug, Clone, Copy, PartialEq, Eq, Structural, Hash)]
pub enum UnderworldUnitType {
    Goblin,
    Troll,
    Keeper,
}

impl UnderworldUnitType {
    /// The position of this value (counted from 0).
    pub open spec fn spec_index(self) -> int {
        match self {
            UnderworldUnitType::Goblin => 0,
            UnderworldUnitType::Troll => 1,
            UnderworldUnitType::Keeper => 2,
        }
    }

    /// The position of this value (counted from 0).
    pub fn index(self) -> (r: usize)
        ensures
            r == self.spec_index(),
            r < 3,
    {
        match self {
            UnderworldUnitType::Goblin => 0,
            UnderworldUnitType::Troll => 1,
            UnderworldUnitType::Keeper => 2,
        }
    }

    /// The value at the given position (counted from 0).
    pub open spec fn spec_from_index(v: int) -> Option<UnderworldUnitType> {
        if v == 0 { Some(UnderworldUnitType::Goblin)
        } else if v == 1 { Some(UnderworldUnitType::Troll)
        } else if v == 2 { Some(UnderworldUnitType::Keeper)
        } else { None }
    }

    /// The value at the given position (counted from 0).
    pub fn from_i64(v: i64) -> (r: Option<UnderworldUnitType>)
        ensures
            r == Self::spec_from_index(v as int),
    {
        match v {
            0 => Some(UnderworldUnitType::Goblin),
            1 => Some(UnderworldUnitType::Troll),
            2 => Some(UnderworldUnitType::Keeper),
            _ => None,
        }
    }
}

/// The production of a resource in the underworld.
#[derive(Debug, Clone, Copy, PartialEq, Eq, Structural)]
pub struct UnderworldProduction {
    pub last_collectable: u64,
    pub limit: u64,
    pub per_hour: u64,
}

/// A building of the underworld.
#[derive(Debug, Clone, Copy, PartialEq, Eq, Structural)]
pub struct UnderworldBuilding {
    pub level: u8,
    pub upgrade_cost: UnderworldCost,
}

/// A unit of the underworld.
#[derive(Debug, Clone, Copy, PartialEq, Eq, Structural)]
pub struct UnderworldUnit {
    pub level: u16,
    pub count: u16,
    pub total_attributes: u32,
    pub upgraded_amount: u16,
    pub upgrade_cost: UnderworldCost,
    pub upgrade_next_lvl: u16,
}

/// The underworld of a character.
#[derive(Debug, Clone, Copy)]
pub struct Underworld {
    /// The buildings, by `UnderworldBuildingType::index`
    pub buildings: [UnderworldBuilding; 10],
    /// The units, by `UnderworldUnitType::index`
    pub units: [UnderworldUnit; 3],
    /// The production, by `UnderWorldResourceType::index`
    pub production: [UnderworldProduction; 3],
    pub last_collectable_update: Option<i64>,
    pub souls_current: u64,
    pub souls_limit: u64,
    pub upgrade_building: Option<UnderworldBuildingType>,
    pub upgrade_finish: Option<i64>,
    pub upgrade_begin: Option<i64>,
    pub honor: u16,
    pub lured_today: u16,
}

impl Default for Underworld {
    fn default() -> (r: Self)
        ensures
            r.last_collectable_update is None,
            r.souls_current == 0 && r.souls_limit == 0,
            r.upgrade_building is None && r.upgrade_finish is None && r.upgrade_begin is None,
            r.honor == 0 && r.lured_today == 0,
    {
        let c = UnderworldCost::default();
        let b = UnderworldBuilding { level: 0, upgrade_cost: c };
        let u = UnderworldUnit {
            level: 0,
            count: 0,
            total_attributes: 0,
            upgraded_amount: 0,
            upgrade_cost: c,
            upgrade_next_lvl: 0,
        };
        let p = UnderworldProduction { last_collectable: 0, limit: 0, per_hour: 0 };
        Underworld {
            buildings: [b, b, b, b, b, b, b, b, b, b],
            units: [u, u, u],
            production: [p, p, p],
            last_collectable_update: None,
            souls_current: 0,
            souls_limit: 0,
            upgrade_building: None,
            upgrade_finish: None,
            upgrade_begin: None,
            honor: 0,
            lured_today: 0,
        }
    }
}

impl Underworld {
    /// Updates the upgrade costs of the ten buildings, 3 values each.
    pub fn update_building_prices(&mut self, data: &[i64]) -> (r: Result<(), SFError>)
        ensures
            data@.len() >= 30 <==> r is Ok,
            r is Ok ==> forall|i: int|
                0 <= i < 10 ==> #[trigger] final(self).buildings[i] == (UnderworldBuilding {
                    upgrade_cost: UnderworldCost::spec_parse(data@.skip(3 * i)),
                    ..old(self).buildings[i]
                }),
            final(self).units == old(self).units,
            r is Ok ==> *final(self) == (Underworld { buildings: final(self).buildings, ..*old(self) }),
            r matches Err(e) ==> short_error_in(e, "underworld building prices"@, 29, data@),
    {
        if data.len() < 30 {
            return Err(too_short(data, 29, "underworld building prices"));
        }
        let mut buildings = self.buildings;
        let mut i: usize = 0;
        while i < 10
            invariant
                i <= 10,
                data@.len() >= 30,
                forall|k: int|
                    0 <= k < i ==> #[trigger] buildings[k] == (UnderworldBuilding {
                        upgrade_cost: UnderworldCost::spec_parse(data@.skip(3 * k)),
                        ..old(self).buildings[k]
                    }),
                forall|k: int| i <= k < 10 ==> #[trigger] buildings[k] == old(self).buildings[k],
            decreases 10 - i,
        {
            let cost = UnderworldCost::parse(skip(data, i * 3, "underworld building prices")?)?;
            let b = buildings[i];
            buildings[i] = UnderworldBuilding { level: b.level, upgrade_cost: cost };
            i = i + 1;
        }
        self.buildings = buildings;
        Ok(())
    }

    /// Updates the next levels and upgrade prices of the three units, 3
    /// values each.
    pub fn update_underworld_unit_prices(&mut self, data: &[i64]) -> (r: Result<(), SFError>)
        ensures
            data@.len() >= 9 <==> r is Ok,
            r is Ok ==> forall|i: int|
                0 <= i < 3 ==> #[trigger] final(self).units[i] == (UnderworldUnit {
                    upgrade_next_lvl: soft_u16(data@[3 * i], 0),
                    upgrade_cost: UnderworldCost {
                        silver: soft_u64(data@[3 * i + 1], 0),
                        souls: soft_u64(data@[3 * i + 2], 0),
                        ..old(self).units[i].upgrade_cost
                    },
                    ..old(self).units[i]
                }),
            final(self).buildings == old(self).buildings,
            r is Ok ==> *final(self) == (Underworld { units: final(self).units, ..*old(self) }),
            r matches Err(e) ==> short_error_in(e, "uunit upgrade gold"@, 8, data@),
    {
        if data.len() < 9 {
            return Err(too_short(data, 8, "uunit upgrade gold"));
        }
        let mut units = self.units;
        let mut i: usize = 0;
        while i < 3
            invariant
                i <= 3,
                data@.len() >= 9,
                forall|k: int|
                    0 <= k < i ==> #[trigger] units[k] == (UnderworldUnit {
                        upgrade_next_lvl: soft_u16(data@[3 * k], 0),
                        upgrade_cost: UnderworldCost {
                            silver: soft_u64(data@[3 * k + 1], 0),
                            souls: soft_u64(data@[3 * k + 2], 0),
                            ..old(self).units[k].upgrade_cost
                        },
                        ..old(self).units[k]
                    }),
                forall|k: int| i <= k < 3 ==> #[trigger] units[k] == old(self).units[k],
            decreases 3 - i,
        {
            let mut unit = units[i];
            unit.upgrade_next_lvl = soft_into_u16(data[i * 3], "uunit next lvl", 0);
            unit.upgrade_cost.silver = soft_into_u64(data[1 + i * 3], "uunit upgrade gold", 0);
            unit.upgrade_cost.souls = soft_into_u64(data[2 + i * 3], "uunit upgrade gold", 0);
            units[i] = unit;
            i = i + 1;
        }
        self.units = units;
        Ok(())
    }

    /// Holds where `after` is this underworld updated from the player save
    /// `d`.
    pub open spec fn spec_updated(self, d: Seq<i64>, st: ServerTime, after: Underworld) -> bool {
        &&& forall|i: int|
            0 <= i < 10 ==> #[trigger] after.buildings[i] == (UnderworldBuilding {
                level: soft_u8(d[448 + i], 0),
                ..self.buildings[i]
            })
        &&& forall|i: int|
            0 <= i < 3 ==> #[trigger] after.units[i] == (UnderworldUnit {
                upgraded_amount: soft_u16(d[146 + 148 * i], 0),
                count: soft_u16(d[147 + 148 * i], 0),
                total_attributes: soft_u32(d[148 + 148 * i], 0),
                level: soft_u16(d[149 + 148 * i], 0),
                ..self.units[i]
            })
        &&& after.production == [
            UnderworldProduction {
                last_collectable: soft_u64(d[459], 0),
                limit: soft_u64(d[460], 0),
                per_hour: soft_u64(d[463], 0),
            },
            UnderworldProduction {
                last_collectable: soft_u64(d[464], 0),
                limit: soft_u64(d[465], 0),
                per_hour: soft_u64(d[466], 0),
            },
            UnderworldProduction {
                last_collectable: soft_u64(d[473], 0),
                limit: soft_u64(d[474], 0),
                per_hour: soft_u64(d[475], 0),
            },
        ]
        &&& after.souls_limit == soft_u64(d[461], 0)
        &&& after.last_collectable_update == st.spec_convert(d[467])
        &&& after.upgrade_building == UnderworldBuildingType::spec_from_index(d[468] - 1)
        &&& after.upgrade_finish == st.spec_convert(d[469])
        &&& after.upgrade_begin == st.spec_convert(d[470])
        &&& after.honor == soft_u16(d[471], 0)
        &&& after.lured_today == soft_u16(d[472], 0)
        &&& after.souls_current == self.souls_current
    }

    /// Updates the underworld from the player save (positions 146 to 475).
    pub fn update(&mut self, data: &[i64], server_time: ServerTime) -> (r: Result<(), SFError>)
        ensures
            data@.len() > 475 <==> r is Ok,
            r is Ok ==> old(self).spec_updated(data@, server_time, *final(self)),
    {
        if data.len() <= 475 {
            return Err(too_short(data, 475, "uu alu per day"));
        }
        let ghost before = *self;
        let mut buildings = self.buildings;
        let mut i: usize = 0;
        while i < 10
            invariant
                i <= 10,
                data@.len() > 475,
                forall|k: int|
                    0 <= k < i ==> #[trigger] buildings[k] == (UnderworldBuilding {
                        level: soft_u8(data@[448 + k], 0),
                        ..before.buildings[k]
                    }),
                forall|k: int| i <= k < 10 ==> #[trigger] buildings[k] == before.buildings[k],
            decreases 10 - i,
        {
            let b = buildings[i];
            buildings[i] = UnderworldBuilding {
                level: soft_into_u8(data[448 + i], "building level", 0),
                upgrade_cost: b.upgrade_cost,
            };
            i = i + 1;
        }
        self.buildings = buildings;
        let mut units = self.units;
        let mut u: usize = 0;
        while u < 3
            invariant
                u <= 3,
                data@.len() > 475,
                forall|k: int|
                    0 <= k < u ==> #[trigger] units[k] == (UnderworldUnit {
                        upgraded_amount: soft_u16(data@[146 + 148 * k], 0),
                        count: soft_u16(data@[147 + 148 * k], 0),
                        total_attributes: soft_u32(data@[148 + 148 * k], 0),
                        level: soft_u16(data@[149 + 148 * k], 0),
                        ..before.units[k]
                    }),
                forall|k: int| u <= k < 3 ==> #[trigger] units[k] == before.units[k],
            decreases 3 - u,
        {
            let start = 146 + u * 148;
            let old_unit = units[u];
            units[u] = UnderworldUnit {
                upgraded_amount: soft_into_u16(data[start], "uunit upgrade level", 0),
                count: soft_into_u16(data[start + 1], "uunit count", 0),
                total_attributes: soft_into_u32(data[start + 2], "uunit atr bonus", 0),
                level: soft_into_u16(data[start + 3], "uunit level", 0),
                upgrade_cost: old_unit.upgrade_cost,
                upgrade_next_lvl: old_unit.upgrade_next_lvl,
            };
            u = u + 1;
        }
        self.units = units;
        self.production = [
            UnderworldProduction {
                last_collectable: soft_into_u64(data[459], "uu souls in building", 0),
                limit: soft_into_u64(data[460], "uu sould max in building", 0),
                per_hour: soft_into_u64(data[463], "uu souls per hour", 0),
            },
            UnderworldProduction {
                last_collectable: soft_into_u64(data[464], "uu gold in building", 0),
                limit: soft_into_u64(data[465], "uu max gold in building", 0),
                per_hour: soft_into_u64(data[466], "uu gold ", 0),
            },
            UnderworldProduction {
                last_collectable: soft_into_u64(data[473], "uu alu in building", 0),
                limit: soft_into_u64(data[474], "uu max stored alu", 0),
                per_hour: soft_into_u64(data[475], "uu alu per day", 0),
            },
        ];
        self.souls_limit = soft_into_u64(data[461], "uu souls max saved", 0);
        self.last_collectable_update = server_time.convert_to_local(data[467], "uw resource time");
        self.upgrade_building = if data[468] == -9223372036854775807 - 1 {
            None
        } else {
            UnderworldBuildingType::from_i64(data[468] - 1)
        };
        self.upgrade_finish = server_time.convert_to_local(data[469], "u expand end");
        self.upgrade_begin = server_time.convert_to_local(data[470], "u upgrade begin");
        self.honor = soft_into_u16(data[471], "uu honor", 0);
        self.lured_today = soft_into_u16(data[472], "u battles today", 0);
        Ok(())
    }
}

} // verus!
