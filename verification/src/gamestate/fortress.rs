use vstd::prelude::*;

use crate::error::SFError;
use crate::gamestate::{ServerTime, fortress_cost_short, short_error_in};
use crate::gamestate::items::GemType;
use crate::misc::{cget, csiget_u16, csiget_u64, skip, soft_u16, soft_u32, soft_u64, soft_into_u16, soft_into_u32, soft_into_u64, too_short, warning_try_into_u32};
use crate::PlayerId;

verus! {

/// The price an upgrade, or building something in the fortress costs. These
/// are always for one upgrade/build, which is important for unit builds.
#[derive(Debug, Clone, Copy, PartialEq, Eq, Structural)]
pub struct FortressCost {
    /// The time it takes to complete one build/upgrade, in seconds
    pub time: u64,
    /// The price in wood this costs
    pub wood: u64,
    /// The price in stone this costs
    pub stone: u64,
    /// The price in silver this costs
    pub silver: u64,
}

impl Default for FortressCost {
    fn default() -> (r: Self)
        ensures
            r == FortressCost::spec_default(),
    {
        FortressCost { time: 0, wood: 0, stone: 0, silver: 0 }
    }
}

impl FortressCost {
    /// A cost of nothing.
    pub open spec fn spec_default() -> FortressCost {
        FortressCost { time: 0, wood: 0, stone: 0, silver: 0 }
    }

    /// The cost that (at least) 4 values describe: time, silver, wood, stone.
    pub open spec fn spec_parse(d: Seq<i64>) -> FortressCost {
        FortressCost {
            time: soft_u64(d[0], 0),
            silver: soft_u64(d[1], u64::MAX),
            wood: soft_u64(d[2], u64::MAX),
            stone: soft_u64(d[3], u64::MAX),
        }
    }

    /// Parses the cost that (at least) 4 values describe.
    pub fn parse(data: &[i64]) -> (r: Result<FortressCost, SFError>)
        ensures
            data@.len() >= 4 <==> r is Ok,
            r matches Err(e) ==> fortress_cost_short(e, data@),
            r is Ok ==> r == Ok::<FortressCost, SFError>(Self::spec_parse(data@)),
    {
        Ok(FortressCost {
            time: csiget_u64(data, 0, "fortress time", 0)?,
            silver: csiget_u64(data, 1, "silver cost", 18446744073709551615)?,
            wood: csiget_u64(data, 2, "wood cost", 18446744073709551615)?,
            stone: csiget_u64(data, 3, "stone cost", 18446744073709551615)?,
        })
    }
}

/// Information about the producion of a resource in the fortress. Note that
/// experience will not have some of these fields.
#[derive(Debug, Clone, Copy, PartialEq, Eq, Structural)]
pub struct FortressProduction {
    /// The amount the production building has already produced, that you can
    /// collect. Note that this value will be out of date by some amount of
    /// time
    pub last_collectable: u64,
    /// The maximum amount of this resource, that this building can store
    pub limit: u64,
    /// The amount of this resource the coresponding production building
    /// produces per hour
    pub per_hour: u64,
    /// The amount of this resource the building produces on the next level
    /// per hour. If the resouce is Experience, this will be 0
    pub per_hour_next_lvl: u64,
}

/// Information about one of the three resources, that the fortress can
/// produce.
#[derive(Debug, Clone, Copy, PartialEq, Eq, Structural)]
pub struct FortressResource {
    /// The amount of this resource you have available to spend
    pub current: u64,
    /// The maximum amount of this resource, that you can store
    pub limit: u64,
    /// Information about the production building, that produces this
    /// resource
    pub production: FortressProduction,
}

impl Default for FortressResource {
    fn default() -> (r: Self)
        ensures
            r == (FortressResource {
                current: 0,
                limit: 0,
                production: FortressProduction {
                    last_collectable: 0,
                    limit: 0,
                    per_hour: 0,
                    per_hour_next_lvl: 0,
                },
            }),
    {
        FortressResource {
            current: 0,
            limit: 0,
            production: FortressProduction {
                last_collectable: 0,
                limit: 0,
                per_hour: 0,
                per_hour_next_lvl: 0,
            },
        }
    }
}

/// The type of resource, that the fortress available in the fortress.
#[derive(Debug, Clone, Copy, PartialEq, Eq, Structural, Hash)]
pub enum FortressResourceType {
    Wood,
    Stone,
    Experience,
}

impl FortressResourceType {
    /// The position of this value (counted from 0).
    pub open spec fn spec_index(self) -> int {
        match self {
            FortressResourceType::Wood => 0,
            FortressResourceType::Stone => 1,
            FortressResourceType::Experience => 2,
        }
    }

    /// The position of this value (counted from 0).
    pub fn index(self) -> (r: usize)
        ensures
            r == self.spec_index(),
            r < 3,
    {
        match self {
            FortressResourceType::Wood => 0,
            FortressResourceType::Stone => 1,
            FortressResourceType::Experience => 2,
        }
    }

    /// The value at the given position (counted from 0).
    pub open spec fn spec_from_index(v: int) -> Option<FortressResourceType> {
        if v == 0 { Some(FortressResourceType::Wood)
        } else if v == 1 { Some(FortressResourceType::Stone)
        } else if v == 2 { Some(FortressResourceType::Experience)
        } else { None }
    }

    /// The value at the given position (counted from 0).
    pub fn from_i64(v: i64) -> (r: Option<FortressResourceType>)
        ensures
            r == Self::spec_from_index(v as int),
    {
        match v {
            0 => Some(FortressResourceType::Wood),
            1 => Some(FortressResourceType::Stone),
            2 => Some(FortressResourceType::Experience),
            _ => None,
        }
    }
}

/// The type of building, that can be build in the fortress.
#[derive(Debug, Clone, Copy, PartialEq, Eq, Structural, Hash)]
pub enum FortressBuildingType {
    Fortress,
    LaborersQuarters,
    WoodcuttersHut,
    Quarry,
    GemMine,
    Academy,
    ArcheryGuild,
    Barracks,
    MagesTower,
    Treasury,
    Smithy,
    Wall,
}

impl FortressBuildingType {
    /// The position of this value (counted from 0).
    pub open spec fn spec_index(self) -> int {
        match self {
            FortressBuildingType::Fortress => 0,
            FortressBuildingType::LaborersQuarters => 1,
            FortressBuildingType::WoodcuttersHut => 2,
            FortressBuildingType::Quarry => 3,
            FortressBuildingType::GemMine => 4,
            FortressBuildingType::Academy => 5,
            FortressBuildingType::ArcheryGuild => 6,
            FortressBuildingType::Barracks => 7,
            FortressBuildingType::MagesTower => 8,
            FortressBuildingType::Treasury => 9,
            FortressBuildingType::Smithy => 10,
            FortressBuildingType::Wall => 11,
        }
    }

    /// The position of this value (counted from 0).
    pub fn index(self) -> (r: usize)
        ensures
            r == self.spec_index(),
            r < 12,
    {
        match self {
            FortressBuildingType::Fortress => 0,
            FortressBuildingType::LaborersQuarters => 1,
            FortressBuildingType::WoodcuttersHut => 2,
            FortressBuildingType::Quarry => 3,
            FortressBuildingType::GemMine => 4,
            FortressBuildingType::Academy => 5,
            FortressBuildingType::ArcheryGuild => 6,
            FortressBuildingType::Barracks => 7,
            FortressBuildingType::MagesTower => 8,
            FortressBuildingType::Treasury => 9,
            FortressBuildingType::Smithy => 10,
            FortressBuildingType::Wall => 11,
        }
    }

    /// The value at the given position (counted from 0).
    pub open spec fn spec_from_index(v: int) -> Option<FortressBuildingType> {
        if v == 0 { Some(FortressBuildingType::Fortress)
        } else if v == 1 { Some(FortressBuildingType::LaborersQuarters)
        } else if v == 2 { Some(FortressBuildingType::WoodcuttersHut)
        } else if v == 3 { Some(FortressBuildingType::Quarry)
        } else if v == 4 { Some(FortressBuildingType::GemMine)
        } else if v == 5 { Some(FortressBuildingType::Academy)
        } else if v == 6 { Some(FortressBuildingType::ArcheryGuild)
        } else if v == 7 { Some(FortressBuildingType::Barracks)
        } else if v == 8 { Some(FortressBuildingType::MagesTower)
        } else if v == 9 { Some(FortressBuildingType::Treasury)
        } else if v == 10 { Some(FortressBuildingType::Smithy)
        } else if v == 11 { Some(FortressBuildingType::Wall)
        } else { None }
    }

    /// The value at the given position (counted from 0).
    pub fn from_i64(v: i64) -> (r: Option<FortressBuildingType>)
        ensures
            r == Self::spec_from_index(v as int),
    {
        match v {
            0 => Some(FortressBuildingType::Fortress),
            1 => Some(FortressBuildingType::LaborersQuarters),
            2 => Some(FortressBuildingType::WoodcuttersHut),
            3 => Some(FortressBuildingType::Quarry),
            4 => Some(FortressBuildingType::GemMine),
            5 => Some(FortressBuildingType::Academy),
            6 => Some(FortressBuildingType::ArcheryGuild),
            7 => Some(FortressBuildingType::Barracks),
            8 => Some(FortressBuildingType::MagesTower),
            9 => Some(FortressBuildingType::Treasury),
            10 => Some(FortressBuildingType::Smithy),
            11 => Some(FortressBuildingType::Wall),
            _ => None,
        }
    }
}

/// The type of a unit useable in the fortress.
#[derive(Debug, Clone, Copy, PartialEq, Eq, Structural, Hash)]
pub enum FortressUnitType {
    Soldier,
    Magician,
    Archer,
}

impl FortressUnitType {
    /// The position of this value (counted from 0).
    pub open spec fn spec_index(self) -> int {
        match self {
            FortressUnitType::Soldier => 0,
            FortressUnitType::Magician => 1,
            FortressUnitType::Archer => 2,
        }
    }

    /// The position of this value (counted from 0).
    pub fn index(self) -> (r: usize)
        ensures
            r == self.spec_index(),
            r < 3,
    {
        match self {
            FortressUnitType::Soldier => 0,
            FortressUnitType::Magician => 1,
            FortressUnitType::Archer => 2,
        }
    }

    /// The value at the given position (counted from 0).
    pub open spec fn spec_from_index(v: int) -> Option<FortressUnitType> {
        if v == 0 { Some(FortressUnitType::Soldier)
        } else if v == 1 { Some(FortressUnitType::Magician)
        } else if v == 2 { Some(FortressUnitType::Archer)
        } else { None }
    }

    /// The value at the given position (counted from 0).
    pub fn from_i64(v: i64) -> (r: Option<FortressUnitType>)
        ensures
            r == Self::spec_from_index(v as int),
    {
        match v {
            0 => Some(FortressUnitType::Soldier),
            1 => Some(FortressUnitType::Magician),
            2 => Some(FortressUnitType::Archer),
            _ => None,
        }
    }
}

/// An action, that costs some amount of resources to do and will finish at a
/// certain point in time.
#[derive(Debug, Clone, Copy, PartialEq, Eq)]
pub struct FortressAction<T> {
    /// When this action was started. This can be months in the past, as this
    /// will often not be cleared by the server
    pub start: Option<i64>,
    /// Wheen this action will be finished
    pub finish: Option<i64>,
    /// The amount of resources it costs to do this
    pub cost: FortressCost,
    /// If it is not clear from the place where this is located, this will
    /// contain the specific type, that this action will be applied to/for
    pub target: Option<T>,
}

impl<T> Default for FortressAction<T> {
    fn default() -> (r: Self)
        ensures
            r.start is None,
            r.finish is None,
            r.cost == FortressCost::spec_default(),
            r.target is None,
    {
        FortressAction { start: None, finish: None, cost: FortressCost::default(), target: None }
    }
}

/// Information about a single type of unit.
#[derive(Debug, Clone, Copy, PartialEq, Eq)]
pub struct FortressUnit {
    /// The level this unit has
    pub level: u16,
    /// The amount of this unit, that you have available for combat
    pub count: u16,
    /// The amount of this unit, that are currently being trained/build
    pub in_training: u16,
    /// The maximum `count + in_training` you have of this unit
    pub limit: u16,
    /// All information about training up new units of this type
    pub training: FortressAction<()>,
    /// The price to pay in stone for the next upgrade
    pub upgrade_cost: FortressCost,
    /// The level this unit will be at, when you upgrade it
    pub upgrade_next_lvl: u64,
}

impl Default for FortressUnit {
    fn default() -> (r: Self)
        ensures
            r.level == 0 && r.count == 0 && r.in_training == 0 && r.limit == 0,
            r.upgrade_next_lvl == 0,
    {
        FortressUnit {
            level: 0,
            count: 0,
            in_training: 0,
            limit: 0,
            training: FortressAction::default(),
            upgrade_cost: FortressCost::default(),
            upgrade_next_lvl: 0,
        }
    }
}

/// Generic information about a building in the fortress. If you want
/// information about a production building, you should look at the resources.
#[derive(Debug, Clone, Copy, PartialEq, Eq, Structural)]
pub struct FortressBuilding {
    /// The current level of this building. If this is 0, it has not yet been
    /// build
    pub level: u16,
    /// The amount of resources it costs to upgrade to the next level
    pub upgrade_cost: FortressCost,
}

/// The information about a characters fortress.
#[derive(Debug, Clone, Copy)]
pub struct Fortress {
    /// All the buildings, by `FortressBuildingType::index`. If they are not
    /// yet built, they are level 0
    pub buildings: [FortressBuilding; 12],
    /// Information about all the buildable units, by `FortressUnitType::index`
    pub units: [FortressUnit; 3],
    /// All information about resources, by `FortressResourceType::index`
    pub resources: [FortressResource; 3],
    /// The point in time at which the server last calculated the collectable
    /// amounts of the production buildings
    pub last_collectable_updated: Option<i64>,
    /// The highest level buildings can be upgraded to
    pub building_max_lvl: u8,
    /// The level the fortress wall will have when defending against another
    /// player
    pub wall_combat_lvl: u16,
    /// Information about the building, that is currently being upgraded
    pub building_upgrade: FortressAction<FortressBuildingType>,
    /// The level visible on the HOF screen for fortress. Should be all
    /// building levels summed up
    pub level: u16,
    /// The honor you have in the fortress Hall of Fame
    pub honor: u32,
    /// The rank you have in the fortress Hall of Fame
    pub rank: u32,
    /// Information about searching for gems
    pub gem_search: FortressAction<GemType>,
    /// The level of the hall of knights
    pub hall_of_knights_level: u16,
    /// The price to upgrade the hall of knights. Note, that the duration here
    /// will be 0, as the game does not tell you how long it will take
    pub hall_of_knights_upgrade_price: FortressCost,
    /// The next enemy you can choose to battle
    pub attack_target: Option<PlayerId>,
    /// The time at which switching is free again
    pub attack_free_reroll: Option<i64>,
    /// The price in silver rerolling costs
    pub opponent_reroll_price: u64,
}

impl Default for Fortress {
    fn default() -> (r: Self)
        ensures
            r.last_collectable_updated is None,
            r.building_max_lvl == 0 && r.wall_combat_lvl == 0 && r.level == 0,
            r.honor == 0 && r.rank == 0 && r.hall_of_knights_level == 0,
            r.attack_target is None,
            r.attack_free_reroll is None,
            r.opponent_reroll_price == 0,
    {
        let b = FortressBuilding { level: 0, upgrade_cost: FortressCost::default() };
        let u = FortressUnit::default();
        let res = FortressResource::default();
        Fortress {
            buildings: [b, b, b, b, b, b, b, b, b, b, b, b],
            units: [u, u, u],
            resources: [res, res, res],
            last_collectable_updated: None,
            building_max_lvl: 0,
            wall_combat_lvl: 0,
            building_upgrade: FortressAction::default(),
            level: 0,
            honor: 0,
            rank: 0,
            gem_search: FortressAction::default(),
            hall_of_knights_level: 0,
            hall_of_knights_upgrade_price: FortressCost::default(),
            attack_target: None,
            attack_free_reroll: None,
            opponent_reroll_price: 0,
        }
    }
}

/// `level * factor`, wrapped around into a `u16`.
pub open spec fn unit_limit(level: u16, factor: int) -> u16 {
    ((level as int * factor) % 65536) as u16
}

fn unit_limit_of(level: u16, factor: u32) -> (r: u16)
    requires
        factor <= 3,
    ensures
        r == unit_limit(level, factor as int),
{
    assert(level as u32 * factor <= 65535 * 3) by (nonlinear_arith)
        requires
            factor <= 3,
            level <= 65535,
    ;
    ((level as u32 * factor) % 65536) as u16
}

/// The lowest 16 bits of a value, as a count.
pub open spec fn low_count(v: i64) -> u16 {
    soft_u16(v & 0xFFFF, 0)
}

/// The value shifted right by 16 bits, as a count.
pub open spec fn high_count(v: i64) -> u16 {
    soft_u16(v >> 16, 0)
}

impl Fortress {
    /// The unit `i` after an update from the player save `d`.
    pub open spec fn spec_unit(self, d: Seq<i64>, st: ServerTime, i: int) -> FortressUnit {
        let u = self.units[i];
        FortressUnit {
            training: FortressAction {
                start: st.spec_convert(d[550 + i]),
                finish: st.spec_convert(d[553 + i]),
                ..u.training
            },
            limit: if i == 0 {
                unit_limit(soft_u16(d[531], 0), 3)
            } else if i == 1 {
                unit_limit(soft_u16(d[532], 0), 1)
            } else {
                unit_limit(soft_u16(d[530], 0), 2)
            },
            count: if i == 0 {
                low_count(d[547])
            } else if i == 1 {
                high_count(d[547])
            } else {
                low_count(d[548])
            },
            in_training: if i == 0 {
                high_count(d[548])
            } else if i == 1 {
                low_count(d[549])
            } else {
                high_count(d[549])
            },
            ..u
        }
    }

    /// The resource `i` after an update from the player save `d`.
    pub open spec fn spec_resource(self, d: Seq<i64>, i: int) -> FortressResource {
        let r = self.resources[i];
        FortressResource {
            limit: soft_u64(d[568 + i], 0),
            production: FortressProduction {
                per_hour_next_lvl: if i != 2 {
                    soft_u64(d[584 + i], 0)
                } else {
                    r.production.per_hour_next_lvl
                },
                last_collectable: soft_u64(d[562 + i], 0),
                limit: soft_u64(d[565 + i], 0),
                per_hour: soft_u64(d[574 + i], 0),
            },
            ..r
        }
    }

    /// Holds where `after` is this fortress updated from the player save `d`.
    pub open spec fn spec_updated(self, d: Seq<i64>, st: ServerTime, after: Fortress) -> bool {
        &&& forall|i: int|
            0 <= i < 12 ==> #[trigger] after.buildings[i] == (FortressBuilding {
                level: soft_u16(d[524 + i], 0),
                ..self.buildings[i]
            })
        &&& forall|i: int| 0 <= i < 3 ==> #[trigger] after.units[i] == self.spec_unit(d, st, i)
        &&& forall|i: int| 0 <= i < 3 ==> #[trigger] after.resources[i] == self.spec_resource(d, i)
        &&& after.hall_of_knights_level == soft_u16(d[598], 0)
        &&& after.last_collectable_updated == st.spec_convert(d[577])
        &&& after.building_upgrade == (FortressAction {
            start: st.spec_convert(d[573]),
            finish: st.spec_convert(d[572]),
            cost: FortressCost::spec_default(),
            target: FortressBuildingType::spec_from_index(d[571] - 1),
        })
        &&& after.level == soft_u16(d[581], 0)
        &&& after.honor == soft_u32(d[582], 0)
        &&& after.rank == soft_u32(d[583], 0)
        &&& after.gem_search == (FortressAction {
            start: st.spec_convert(d[595]),
            finish: st.spec_convert(d[596]),
            target: GemType::spec_parse(d[594]),
            ..self.gem_search
        })
        &&& after.attack_target == (if 0 <= d[587] <= u32::MAX {
            Some(d[587] as u32)
        } else {
            None::<u32>
        })
        &&& after.attack_free_reroll == st.spec_convert(d[586])
        &&& after.building_max_lvl == self.building_max_lvl
        &&& after.wall_combat_lvl == self.wall_combat_lvl
        &&& after.hall_of_knights_upgrade_price == self.hall_of_knights_upgrade_price
        &&& after.opponent_reroll_price == self.opponent_reroll_price
    }

    /// Updates the fortress from the player save (positions 524 to 598).
    pub fn update(&mut self, data: &[i64], server_time: ServerTime) -> (r: Result<(), SFError>)
        ensures
            data@.len() > 598 <==> r is Ok,
            r is Ok ==> old(self).spec_updated(data@, server_time, *final(self)),
    {
        if data.len() <= 598 {
            return Err(too_short(data, 598, "hall of knights level"));
        }
        let ghost before = *self;
        let mut buildings = self.buildings;
        let mut i: usize = 0;
        while i < 12
            invariant
                i <= 12,
                data@.len() > 598,
                forall|k: int|
                    0 <= k < i ==> #[trigger] buildings[k] == (FortressBuilding {
                        level: soft_u16(data@[524 + k], 0),
                        ..before.buildings[k]
                    }),
                forall|k: int| i <= k < 12 ==> #[trigger] buildings[k] == before.buildings[k],
            decreases 12 - i,
        {
            let b = buildings[i];
            buildings[i] = FortressBuilding {
                level: soft_into_u16(data[524 + i], "building lvl", 0),
                upgrade_cost: b.upgrade_cost,
            };
            i = i + 1;
        }
        self.buildings = buildings;
        self.hall_of_knights_level = soft_into_u16(data[598], "hall of knights level", 0);

        let barracks = buildings[7].level;
        let mages = buildings[8].level;
        let archery = buildings[6].level;
        let mut units = self.units;
        let mut u: usize = 0;
        while u < 3
            invariant
                u <= 3,
                data@.len() > 598,
                barracks == soft_u16(data@[531], 0),
                mages == soft_u16(data@[532], 0),
                archery == soft_u16(data@[530], 0),
                forall|k: int| 0 <= k < u ==> #[trigger] units[k] == before.spec_unit(data@, server_time, k),
                forall|k: int| u <= k < 3 ==> #[trigger] units[k] == before.units[k],
            decreases 3 - u,
        {
            let old_unit = units[u];
            let start = server_time.convert_to_local(data[550 + u], "fortress unit training start");
            let finish = server_time.convert_to_local(data[553 + u], "fortress unit training finish");
            let (limit, count_raw, count_high, train_raw, train_high) = if u == 0 {
                (unit_limit_of(barracks, 3), data[547], false, data[548], true)
            } else if u == 1 {
                (unit_limit_of(mages, 1), data[547], true, data[549], false)
            } else {
                (unit_limit_of(archery, 2), data[548], false, data[549], true)
            };
            let count = if count_high {
                soft_into_u16(count_raw >> 16, "unit count", 0)
            } else {
                soft_into_u16(count_raw & 0xFFFF, "unit count", 0)
            };
            let in_training = if train_high {
                soft_into_u16(train_raw >> 16, "units in que", 0)
            } else {
                soft_into_u16(train_raw & 0xFFFF, "units in que", 0)
            };
            units[u] = FortressUnit {
                level: old_unit.level,
                count,
                in_training,
                limit,
                training: FortressAction {
                    start,
                    finish,
                    cost: old_unit.training.cost,
                    target: old_unit.training.target,
                },
                upgrade_cost: old_unit.upgrade_cost,
                upgrade_next_lvl: old_unit.upgrade_next_lvl,
            };
            u = u + 1;
        }
        self.units = units;

        let mut resources = self.resources;
        let mut k: usize = 0;
        while k < 3
            invariant
                k <= 3,
                data@.len() > 598,
                forall|j: int| 0 <= j < k ==> #[trigger] resources[j] == before.spec_resource(data@, j),
                forall|j: int| k <= j < 3 ==> #[trigger] resources[j] == before.resources[j],
            decreases 3 - k,
        {
            let old_res = resources[k];
            let per_hour_next_lvl = if k != 2 {
                soft_into_u64(data[584 + k], "max saved next resource", 0)
            } else {
                old_res.production.per_hour_next_lvl
            };
            resources[k] = FortressResource {
                current: old_res.current,
                limit: soft_into_u64(data[568 + k], "resource max save", 0),
                production: FortressProduction {
                    last_collectable: soft_into_u64(data[562 + k], "resource in collectable", 0),
                    limit: soft_into_u64(data[565 + k], "resource max in store", 0),
                    per_hour: soft_into_u64(data[574 + k], "resource per hour", 0),
                    per_hour_next_lvl,
                },
            };
            k = k + 1;
        }
        self.resources = resources;

        self.last_collectable_updated = server_time.convert_to_local(
            data[577],
            "fortress collection update",
        );
        self.building_upgrade = FortressAction {
            start: server_time.convert_to_local(data[573], "fortress upgrade begin"),
            finish: server_time.convert_to_local(data[572], "fortress upgrade end"),
            cost: FortressCost::default(),
            target: if data[571] == -9223372036854775807 - 1 {
                None
            } else {
                FortressBuildingType::from_i64(data[571] - 1)
            },
        };
        self.level = soft_into_u16(data[581], "fortress lvl", 0);
        self.honor = soft_into_u32(data[582], "fortress honor", 0);
        self.rank = soft_into_u32(data[583], "fortress rank", 0);
        self.gem_search.start = server_time.convert_to_local(data[595], "gem search start");
        self.gem_search.finish = server_time.convert_to_local(data[596], "gem search end");
        self.gem_search.target = GemType::parse(data[594], 0);
        self.attack_target = warning_try_into_u32(data[587], "fortress enemy");
        self.attack_free_reroll = server_time.convert_to_local(data[586], "fortress attack reroll");
        Ok(())
    }

    /// Updates the training costs of the three units, 4 values each.
    pub fn update_unit_prices(&mut self, data: &[i64]) -> (r: Result<(), SFError>)
        ensures
            data@.len() >= 12 <==> r is Ok,
            r matches Err(e) ==> short_error_in(e, "unit prices"@, 11, data@),
            r is Ok ==> forall|i: int|
                0 <= i < 3 ==> #[trigger] final(self).units[i] == (FortressUnit {
                    training: FortressAction {
                        cost: FortressCost::spec_parse(data@.skip(4 * i)),
                        ..old(self).units[i].training
                    },
                    ..old(self).units[i]
                }),
            final(self).buildings == old(self).buildings,
            final(self).resources == old(self).resources,
    {
        if data.len() < 12 {
            return Err(too_short(data, 11, "unit prices"));
        }
        let mut units = self.units;
        let mut i: usize = 0;
        while i < 3
            invariant
                i <= 3,
                data@.len() >= 12,
                forall|k: int|
                    0 <= k < i ==> #[trigger] units[k] == (FortressUnit {
                        training: FortressAction {
                            cost: FortressCost::spec_parse(data@.skip(4 * k)),
                            ..old(self).units[k].training
                        },
                        ..old(self).units[k]
                    }),
                forall|k: int| i <= k < 3 ==> #[trigger] units[k] == old(self).units[k],
            decreases 3 - i,
        {
            let cost = FortressCost::parse(skip(data, i * 4, "unit prices")?)?;
            let mut unit = units[i];
            unit.training.cost = cost;
            units[i] = unit;
            i = i + 1;
        }
        self.units = units;
        Ok(())
    }

    /// Updates the next levels and the upgrade costs of the three units, 3
    /// values each.
    pub fn update_unit_upgrade_info(&mut self, data: &[i64]) -> (r: Result<(), SFError>)
        ensures
            data@.len() >= 9 <==> r is Ok,
            r matches Err(e) ==> short_error_in(e, "wood price next unit lvl"@, 8, data@),
            r is Ok ==> forall|i: int|
                0 <= i < 3 ==> #[trigger] final(self).units[i] == (FortressUnit {
                    upgrade_next_lvl: soft_u64(data@[3 * i], 0),
                    upgrade_cost: FortressCost {
                        stone: soft_u64(data@[3 * i + 1], 0),
                        wood: soft_u64(data@[3 * i + 2], 0),
                        ..old(self).units[i].upgrade_cost
                    },
                    ..old(self).units[i]
                }),
            final(self).buildings == old(self).buildings,
            final(self).resources == old(self).resources,
    {
        if data.len() < 9 {
            return Err(too_short(data, 8, "wood price next unit lvl"));
        }
        let mut units = self.units;
        let mut i: usize = 0;
        while i < 3
            invariant
                i <= 3,
                data@.len() >= 9,
                forall|k: int|
                    0 <= k < i ==> #[trigger] units[k] == (FortressUnit {
                        upgrade_next_lvl: soft_u64(data@[3 * k], 0),
                        upgrade_cost: FortressCost {
                            stone: soft_u64(data@[3 * k + 1], 0),
                            wood: soft_u64(data@[3 * k + 2], 0),
                            ..old(self).units[k].upgrade_cost
                        },
                        ..old(self).units[k]
                    }),
                forall|k: int| i <= k < 3 ==> #[trigger] units[k] == old(self).units[k],
            decreases 3 - i,
        {
            let mut unit = units[i];
            unit.upgrade_next_lvl = soft_into_u64(data[i * 3], "unit next lvl", 0);
            unit.upgrade_cost.stone = soft_into_u64(data[1 + i * 3], "stone price next unit lvl", 0);
            unit.upgrade_cost.wood = soft_into_u64(data[2 + i * 3], "wood price next unit lvl", 0);
            units[i] = unit;
            i = i + 1;
        }
        self.units = units;
        Ok(())
    }

    /// Updates the levels of the three units (positions 1 to 3).
    pub fn update_levels(&mut self, data: &[i64]) -> (r: Result<(), SFError>)
        ensures
            data@.len() >= 4 <==> r is Ok,
            r matches Err(e) ==> short_error_in(e, "archer level"@, 3, data@),
            r is Ok ==> forall|i: int|
                0 <= i < 3 ==> #[trigger] final(self).units[i] == (FortressUnit {
                    level: soft_u16(data@[i + 1], 0),
                    ..old(self).units[i]
                }),
            final(self).buildings == old(self).buildings,
            final(self).resources == old(self).resources,
    {
        if data.len() < 4 {
            return Err(too_short(data, 3, "archer level"));
        }
        let mut units = self.units;
        units[0].level = soft_into_u16(data[1], "soldier level", 0);
        units[1].level = soft_into_u16(data[2], "magician level", 0);
        units[2].level = soft_into_u16(data[3], "archer level", 0);
        self.units = units;
        Ok(())
    }

    /// Updates the upgrade costs of the twelve buildings (4 values each) and
    /// of the gem search (at 48).
    pub fn update_prices(&mut self, data: &[i64]) -> (r: Result<(), SFError>)
        ensures
            data@.len() >= 52 <==> r is Ok,
            r matches Err(e) ==> short_error_in(e, "gem_search_cost"@, 51, data@),
            r is Ok ==> forall|i: int|
                0 <= i < 12 ==> #[trigger] final(self).buildings[i] == (FortressBuilding {
                    upgrade_cost: FortressCost::spec_parse(data@.skip(4 * i)),
                    ..old(self).buildings[i]
                }),
            r is Ok ==> final(self).gem_search.cost == FortressCost::spec_parse(data@.skip(48)),
            final(self).units == old(self).units,
            final(self).resources == old(self).resources,
    {
        if data.len() < 52 {
            return Err(too_short(data, 51, "gem_search_cost"));
        }
        let mut buildings = self.buildings;
        let mut i: usize = 0;
        while i < 12
            invariant
                i <= 12,
                data@.len() >= 52,
                forall|k: int|
                    0 <= k < i ==> #[trigger] buildings[k] == (FortressBuilding {
                        upgrade_cost: FortressCost::spec_parse(data@.skip(4 * k)),
                        ..old(self).buildings[k]
                    }),
                forall|k: int| i <= k < 12 ==> #[trigger] buildings[k] == old(self).buildings[k],
            decreases 12 - i,
        {
            let cost = FortressCost::parse(skip(data, i * 4, "fortress unit prices")?)?;
            let b = buildings[i];
            buildings[i] = FortressBuilding { level: b.level, upgrade_cost: cost };
            i = i + 1;
        }
        self.buildings = buildings;
        self.gem_search.cost = FortressCost::parse(skip(data, 48, "gem_search_cost")?)?;
        Ok(())
    }
}

} // verus!
