use vstd::prelude::*;

use crate::error::SFError;
use crate::gamestate::ServerTime;
use crate::gamestate::rewards::RewardType;
use crate::misc::{
    cget, csiget_u32, csiget_u64, cstget, decimal_i32, decimal_i64, decimal_u16, decimal_u32,
    decimal_u64, parse_i32, parse_i64, parse_u16, parse_u32, parse_u64, skip, soft_u8, soft_u32,
    soft_u64, soft_into_u8, string_views, too_short,
};

verus! {

/// The theme of a legendary dungeon event.
#[derive(Debug, Clone, Copy, PartialEq, Eq, Structural, Hash)]
pub enum LegendaryDungeonTheme {
    DiabolicalCompanyParty,
    LordOfTheThings,
    FantasticLegendaries,
    ShadyBirthdayBash,
    WinterSpectacle,
    AbyssesOfMadness,
    HuntForTheEasterEgg,
    VileVacation,
    Unknown,
}

impl Default for LegendaryDungeonTheme {
    fn default() -> (r: Self)
        ensures
            r == LegendaryDungeonTheme::Unknown,
    {
        LegendaryDungeonTheme::Unknown
    }
}

impl LegendaryDungeonTheme {
    /// The value with the number the server uses for it.
    pub open spec fn spec_from_i64(v: i64) -> Option<LegendaryDungeonTheme> {
        if v == 1 { Some(LegendaryDungeonTheme::DiabolicalCompanyParty)
        } else if v == 2 { Some(LegendaryDungeonTheme::LordOfTheThings)
        } else if v == 3 { Some(LegendaryDungeonTheme::FantasticLegendaries)
        } else if v == 4 { Some(LegendaryDungeonTheme::ShadyBirthdayBash)
        } else if v == 5 { Some(LegendaryDungeonTheme::WinterSpectacle)
        } else if v == 6 { Some(LegendaryDungeonTheme::AbyssesOfMadness)
        } else if v == 7 { Some(LegendaryDungeonTheme::HuntForTheEasterEgg)
        } else if v == 8 { Some(LegendaryDungeonTheme::VileVacation)
        } else if v == 9 { Some(LegendaryDungeonTheme::Unknown)
        } else { None }
    }

    /// The value with the number the server uses for it.
    pub fn from_i64(v: i64) -> (r: Option<LegendaryDungeonTheme>)
        ensures
            r == Self::spec_from_i64(v),
    {
        if v == 1 { Some(LegendaryDungeonTheme::DiabolicalCompanyParty)
        } else if v == 2 { Some(LegendaryDungeonTheme::LordOfTheThings)
        } else if v == 3 { Some(LegendaryDungeonTheme::FantasticLegendaries)
        } else if v == 4 { Some(LegendaryDungeonTheme::ShadyBirthdayBash)
        } else if v == 5 { Some(LegendaryDungeonTheme::WinterSpectacle)
        } else if v == 6 { Some(LegendaryDungeonTheme::AbyssesOfMadness)
        } else if v == 7 { Some(LegendaryDungeonTheme::HuntForTheEasterEgg)
        } else if v == 8 { Some(LegendaryDungeonTheme::VileVacation)
        } else if v == 9 { Some(LegendaryDungeonTheme::Unknown)
        } else { None }
    }

    /// The value with the number the server uses for it, or the default.
    pub open spec fn spec_or_default(v: i64) -> LegendaryDungeonTheme {
        match Self::spec_from_i64(v) {
            Some(t) => t,
            None => LegendaryDungeonTheme::Unknown,
        }
    }

    /// The value with the number the server uses for it, or the default.
    pub fn from_i64_or_default(v: i64) -> (r: LegendaryDungeonTheme)
        ensures
            r == Self::spec_or_default(v),
    {
        match Self::from_i64(v) {
            Some(t) => t,
            None => LegendaryDungeonTheme::Unknown,
        }
    }
}

/// The theme of a world boss event.
#[derive(Debug, Clone, Copy, PartialEq, Eq, Structural, Hash)]
pub enum WorldBossTheme {
    Normal,
    Winter,
    Unknown,
}

impl Default for WorldBossTheme {
    fn default() -> (r: Self)
        ensures
            r == WorldBossTheme::Unknown,
    {
        WorldBossTheme::Unknown
    }
}

impl WorldBossTheme {
    /// The value with the number the server uses for it.
    pub open spec fn spec_from_i64(v: i64) -> Option<WorldBossTheme> {
        if v == 1 { Some(WorldBossTheme::Normal)
        } else if v == 2 { Some(WorldBossTheme::Winter)
        } else if v == 3 { Some(WorldBossTheme::Unknown)
        } else { None }
    }

    /// The value with the number the server uses for it.
    pub fn from_i64(v: i64) -> (r: Option<WorldBossTheme>)
        ensures
            r == Self::spec_from_i64(v),
    {
        if v == 1 { Some(WorldBossTheme::Normal)
        } else if v == 2 { Some(WorldBossTheme::Winter)
        } else if v == 3 { Some(WorldBossTheme::Unknown)
        } else { None }
    }

    /// The value with the number the server uses for it, or the default.
    pub open spec fn spec_or_default(v: i64) -> WorldBossTheme {
        match Self::spec_from_i64(v) {
            Some(t) => t,
            None => WorldBossTheme::Unknown,
        }
    }

    /// The value with the number the server uses for it, or the default.
    pub fn from_i64_or_default(v: i64) -> (r: WorldBossTheme)
        ensures
            r == Self::spec_or_default(v),
    {
        match Self::from_i64(v) {
            Some(t) => t,
            None => WorldBossTheme::Unknown,
        }
    }
}

/// A segment of the world boss tower.
#[derive(Debug, Clone, Copy, PartialEq, Eq, Structural, Hash)]
pub enum WorldBossTowerSegment {
    Top,
    Middle,
    Bottom,
}

impl Default for WorldBossTowerSegment {
    fn default() -> (r: Self)
        ensures
            r == WorldBossTowerSegment::Top,
    {
        WorldBossTowerSegment::Top
    }
}

impl WorldBossTowerSegment {
    /// The value with the number the server uses for it.
    pub open spec fn spec_from_i64(v: i64) -> Option<WorldBossTowerSegment> {
        if v == 1 { Some(WorldBossTowerSegment::Top)
        } else if v == 2 { Some(WorldBossTowerSegment::Middle)
        } else if v == 3 { Some(WorldBossTowerSegment::Bottom)
        } else { None }
    }

    /// The value with the number the server uses for it.
    pub fn from_i64(v: i64) -> (r: Option<WorldBossTowerSegment>)
        ensures
            r == Self::spec_from_i64(v),
    {
        if v == 1 { Some(WorldBossTowerSegment::Top)
        } else if v == 2 { Some(WorldBossTowerSegment::Middle)
        } else if v == 3 { Some(WorldBossTowerSegment::Bottom)
        } else { None }
    }

    /// The value with the number the server uses for it, or the default.
    pub open spec fn spec_or_default(v: i64) -> WorldBossTowerSegment {
        match Self::spec_from_i64(v) {
            Some(t) => t,
            None => WorldBossTowerSegment::Top,
        }
    }

    /// The value with the number the server uses for it, or the default.
    pub fn from_i64_or_default(v: i64) -> (r: WorldBossTowerSegment)
        ensures
            r == Self::spec_or_default(v),
    {
        match Self::from_i64(v) {
            Some(t) => t,
            None => WorldBossTowerSegment::Top,
        }
    }
}

/// The type of a projectile of the catapult.
#[derive(Debug, Clone, Copy, PartialEq, Eq, Structural, Hash)]
pub enum WorldBossProjectileType {
    Impacting,
    Biting,
    Mangling,
    Unknown,
}

impl Default for WorldBossProjectileType {
    fn default() -> (r: Self)
        ensures
            r == WorldBossProjectileType::Unknown,
    {
        WorldBossProjectileType::Unknown
    }
}

impl WorldBossProjectileType {
    /// The value with the number the server uses for it.
    pub open spec fn spec_from_i64(v: i64) -> Option<WorldBossProjectileType> {
        if v == 1 { Some(WorldBossProjectileType::Impacting)
        } else if v == 2 { Some(WorldBossProjectileType::Biting)
        } else if v == 3 { Some(WorldBossProjectileType::Mangling)
        } else if v == 4 { Some(WorldBossProjectileType::Unknown)
        } else { None }
    }

    /// The value with the number the server uses for it.
    pub fn from_i64(v: i64) -> (r: Option<WorldBossProjectileType>)
        ensures
            r == Self::spec_from_i64(v),
    {
        if v == 1 { Some(WorldBossProjectileType::Impacting)
        } else if v == 2 { Some(WorldBossProjectileType::Biting)
        } else if v == 3 { Some(WorldBossProjectileType::Mangling)
        } else if v == 4 { Some(WorldBossProjectileType::Unknown)
        } else { None }
    }

    /// The value with the number the server uses for it, or the default.
    pub open spec fn spec_or_default(v: i64) -> WorldBossProjectileType {
        match Self::spec_from_i64(v) {
            Some(t) => t,
            None => WorldBossProjectileType::Unknown,
        }
    }

    /// The value with the number the server uses for it, or the default.
    pub fn from_i64_or_default(v: i64) -> (r: WorldBossProjectileType)
        ensures
            r == Self::spec_or_default(v),
    {
        match Self::from_i64(v) {
            Some(t) => t,
            None => WorldBossProjectileType::Unknown,
        }
    }
}

/// The type of an upgrade of the catapult.
#[derive(Debug, Clone, Copy, PartialEq, Eq, Structural, Hash)]
pub enum WorldBossCatapultUpgradeType {
    Motor,
    Thread,
    AimingDevice,
    Bowl,
    Unknown,
}

impl Default for WorldBossCatapultUpgradeType {
    fn default() -> (r: Self)
        ensures
            r == WorldBossCatapultUpgradeType::Unknown,
    {
        WorldBossCatapultUpgradeType::Unknown
    }
}

impl WorldBossCatapultUpgradeType {
    /// The value with the number the server uses for it.
    pub open spec fn spec_from_i64(v: i64) -> Option<WorldBossCatapultUpgradeType> {
        if v == 1 { Some(WorldBossCatapultUpgradeType::Motor)
        } else if v == 2 { Some(WorldBossCatapultUpgradeType::Thread)
        } else if v == 3 { Some(WorldBossCatapultUpgradeType::AimingDevice)
        } else if v == 4 { Some(WorldBossCatapultUpgradeType::Bowl)
        } else if v == 5 { Some(WorldBossCatapultUpgradeType::Unknown)
        } else { None }
    }

    /// The value with the number the server uses for it.
    pub fn from_i64(v: i64) -> (r: Option<WorldBossCatapultUpgradeType>)
        ensures
            r == Self::spec_from_i64(v),
    {
        if v == 1 { Some(WorldBossCatapultUpgradeType::Motor)
        } else if v == 2 { Some(WorldBossCatapultUpgradeType::Thread)
        } else if v == 3 { Some(WorldBossCatapultUpgradeType::AimingDevice)
        } else if v == 4 { Some(WorldBossCatapultUpgradeType::Bowl)
        } else if v == 5 { Some(WorldBossCatapultUpgradeType::Unknown)
        } else { None }
    }

    /// The value with the number the server uses for it, or the default.
    pub open spec fn spec_or_default(v: i64) -> WorldBossCatapultUpgradeType {
        match Self::spec_from_i64(v) {
            Some(t) => t,
            None => WorldBossCatapultUpgradeType::Unknown,
        }
    }

    /// The value with the number the server uses for it, or the default.
    pub fn from_i64_or_default(v: i64) -> (r: WorldBossCatapultUpgradeType)
        ensures
            r == Self::spec_or_default(v),
    {
        match Self::from_i64(v) {
            Some(t) => t,
            None => WorldBossCatapultUpgradeType::Unknown,
        }
    }
}


/// The type of a special event.
#[derive(Debug, Clone, Copy, PartialEq, Eq, Structural, Hash)]
pub enum SpecialEventType {
    LegendaryDungeon(LegendaryDungeonTheme),
    Hellevator,
    DrivingDungeon,
    TravelingCircus,
    WorldBoss(WorldBossTheme),
    Unknown,
}

/// Information about an upcoming, or currently running special event. This
/// is basically all the information the button above the tavern has in the
/// official GUI.
#[derive(Debug, Clone, Copy, PartialEq, Eq, Structural)]
pub struct EventStatus {
    pub typ: SpecialEventType,
    /// The time at which this event is scheduled to start at
    pub start: Option<i64>,
    /// The time until which the event will be active
    pub end: Option<i64>,
    /// The end of a phase after the main part of the event, if it has one
    pub extra_end: Option<i64>,
}

impl EventStatus {
    /// The type of event that its first two values describe.
    pub open spec fn spec_typ(d: Seq<i64>) -> SpecialEventType {
        if d[0] == 1 {
            SpecialEventType::LegendaryDungeon(LegendaryDungeonTheme::spec_or_default(d[1]))
        } else if d[0] == 2 {
            SpecialEventType::Hellevator
        } else if d[0] == 3 {
            SpecialEventType::DrivingDungeon
        } else if d[0] == 4 {
            SpecialEventType::TravelingCircus
        } else if d[0] == 6 {
            SpecialEventType::WorldBoss(WorldBossTheme::spec_or_default(d[1]))
        } else {
            SpecialEventType::Unknown
        }
    }

    /// Parses the state of an event from its (at least 5) values.
    pub fn parse(data: &[i64], server_time: ServerTime) -> (r: Result<Self, SFError>)
        ensures
            data@.len() >= 5 <==> r is Ok,
            r is Ok ==> r == Ok::<EventStatus, SFError>(EventStatus {
                typ: Self::spec_typ(data@),
                start: server_time.spec_convert(data@[2]),
                end: server_time.spec_convert(data@[3]),
                extra_end: server_time.spec_convert(data@[4]),
            }),
    {
        let start = cstget(data, 2, "event start", server_time)?;
        let end = cstget(data, 3, "event end", server_time)?;
        let extra_end = cstget(data, 4, "event claim end", server_time)?;
        let main = data[0];
        let typ = if main == 1 {
            SpecialEventType::LegendaryDungeon(LegendaryDungeonTheme::from_i64_or_default(data[1]))
        } else if main == 2 {
            SpecialEventType::Hellevator
        } else if main == 3 {
            SpecialEventType::DrivingDungeon
        } else if main == 4 {
            SpecialEventType::TravelingCircus
        } else if main == 6 {
            SpecialEventType::WorldBoss(WorldBossTheme::from_i64_or_default(data[1]))
        } else {
            SpecialEventType::Unknown
        };
        Ok(EventStatus { typ, start, end, extra_end })
    }
}

/// A chest of the world boss event.
#[derive(Debug, Clone, Copy, PartialEq, Eq, Structural, Hash)]
pub enum WorldBossChest {
    BattleLoot,
    WeakPointChest,
    KillStealChest,
    DamageMasterChest,
    SingleHitChest,
}

/// The size of a projectile offer.
#[derive(Debug, Clone, Copy, PartialEq, Eq, Structural, Hash)]
pub enum ProjectileOfferQuantity {
    Small,
    Large,
}

/// The amount of projectiles of an offer and its price.
#[derive(Debug, Clone, Copy, PartialEq, Eq, Structural)]
pub struct ProjectileOfferQuantified {
    pub amount: u32,
    pub price: u32,
}

/// An offer of projectiles.
#[derive(Debug, Clone, Copy, PartialEq, Eq)]
pub struct ProjectileOffer {
    /// The type of projectile you are buying
    pub typ: WorldBossProjectileType,
    /// The two sizes of the offer, small first
    pub buy_options: [ProjectileOfferQuantified; 2],
    /// The raw effect of this projectile
    pub effect_val: i64,
}

impl ProjectileOffer {
    /// Parses an offer of projectiles from its (at least 6) values; an
    /// unknown projectile type is an error.
    pub fn parse(data: &[i64]) -> (r: Result<ProjectileOffer, SFError>)
        ensures
            (data@.len() >= 6 && WorldBossProjectileType::spec_from_i64(data@[0]) is Some) <==> r is Ok,
            r matches Ok(o) ==> o == (ProjectileOffer {
                typ: WorldBossProjectileType::spec_from_i64(data@[0])->0,
                buy_options: [
                    ProjectileOfferQuantified { amount: soft_u32(data@[1], 20), price: soft_u32(data@[4], 100) },
                    ProjectileOfferQuantified { amount: soft_u32(data@[2], 50), price: soft_u32(data@[5], 250) },
                ],
                effect_val: data@[3],
            }),
    {
        let raw = cget(data, 0, "wb po typ")?;
        let typ = match WorldBossProjectileType::from_i64(raw) {
            Some(t) => t,
            None => return Err(crate::misc::bad_value("wb po typ", raw)),
        };
        let effect_val = cget(data, 3, "wb ev")?;
        let small_amount = csiget_u32(data, 1, "wb po sa", 20)?;
        let large_amount = csiget_u32(data, 2, "wb po la", 50)?;
        let small_price = csiget_u32(data, 4, "wb po sp", 100)?;
        let large_price = csiget_u32(data, 5, "wb po lp", 250)?;
        Ok(ProjectileOffer {
            typ,
            buy_options: [
                ProjectileOfferQuantified { amount: small_amount, price: small_price },
                ProjectileOfferQuantified { amount: large_amount, price: large_price },
            ],
            effect_val,
        })
    }
}

/// An upgrade of the catapult in the shop.
#[derive(Debug, Clone, Copy, PartialEq, Eq, Structural)]
pub struct UpgradeOffer {
    /// The type of upgrade, that we are offered to buy
    pub typ: WorldBossCatapultUpgradeType,
    /// The restiction in terms of which segment this upgrade works on, if any
    pub restriction: Option<WorldBossTowerSegment>,
    /// The effect this item has
    pub effect_value: i64,
    /// The price of the upgrade, which is payed by `main_price_type`
    pub raw_main_price: u64,
    /// The resource you have to use to buy this upgrade
    pub main_price_type: RewardType,
    /// The amount of catalysts you have to pay to buy this offer
    pub raw_catalyst_price: u64,
    /// The amount of mushrooms this upgrade would cost
    pub raw_mushroom_price: u64,
}

impl UpgradeOffer {
    /// The upgrade offer that (at least) 7 values describe.
    pub open spec fn spec_parse(d: Seq<i64>) -> UpgradeOffer {
        UpgradeOffer {
            typ: WorldBossCatapultUpgradeType::spec_or_default(d[0]),
            restriction: WorldBossTowerSegment::spec_from_i64(d[1]),
            effect_value: d[2],
            raw_main_price: soft_u64(d[3], u64::MAX),
            main_price_type: RewardType::spec_parse(if d[4] == i64::MIN { i64::MAX } else { (d[4] - 1) as i64 }),
            raw_catalyst_price: soft_u64(d[5], u64::MAX),
            raw_mushroom_price: soft_u64(d[6], u64::MAX),
        }
    }

    /// Parses an upgrade offer from its (at least 7) values.
    pub fn parse(data: &[i64]) -> (r: Result<UpgradeOffer, SFError>)
        ensures
            data@.len() >= 7 <==> r is Ok,
            r is Ok ==> r == Ok::<UpgradeOffer, SFError>(Self::spec_parse(data@)),
    {
        let typ = WorldBossCatapultUpgradeType::from_i64_or_default(cget(data, 0, "wb upgrade typ")?);
        let restriction = WorldBossTowerSegment::from_i64(cget(data, 1, "wb ug restrict")?);
        let effect_value = cget(data, 2, "wb ug effect type")?;
        let raw_main_price = csiget_u64(data, 3, "wb ug price", 18446744073709551615)?;
        let raw = cget(data, 4, "wb ug typ")?;
        let main_price_type = RewardType::parse(if raw == -9223372036854775807 - 1 {
            9223372036854775807
        } else {
            raw - 1
        });
        let raw_catalyst_price = csiget_u64(data, 5, "wb sec ug price", 18446744073709551615)?;
        let raw_mushroom_price = csiget_u64(data, 6, "wb mush ug price", 18446744073709551615)?;
        Ok(UpgradeOffer {
            typ,
            restriction,
            effect_value,
            raw_main_price,
            main_price_type,
            raw_catalyst_price,
            raw_mushroom_price,
        })
    }
}

/// The ammunition of the catapult.
#[derive(Debug, Clone, Copy, PartialEq, Eq, Structural)]
pub struct WorldBossProjectile {
    /// The type this ammunition is of
    pub typ: WorldBossProjectileType,
    /// The amount of this ammo, that we still have left
    pub amount: u32,
    /// The extra amount of damage this ammo does, in percent
    pub extra_dmg: u32,
}

/// Holds where all the values are 0 (also where there are none).
pub open spec fn all_zero(d: Seq<i64>) -> bool {
    forall|i: int| 0 <= i < d.len() ==> #[trigger] d[i] == 0
}

/// Checks whether all the values are 0.
pub fn is_all_zero_pub(d: &[i64]) -> (r: bool)
    ensures
        r == all_zero(d@),
{
    is_all_zero(d)
}

fn is_all_zero(d: &[i64]) -> (r: bool)
    ensures
        r == all_zero(d@),
{
    let mut i: usize = 0;
    while i < d.len()
        invariant
            i <= d@.len(),
            forall|k: int| 0 <= k < i ==> #[trigger] d@[k] == 0,
        decreases d@.len() - i,
    {
        if d[i] != 0 {
            return false;
        }
        i = i + 1;
    }
    true
}

impl WorldBossProjectile {
    /// Parses the ammunition from its values: none where all are 0.
    pub fn parse(data: &[i64]) -> (r: Result<Option<WorldBossProjectile>, SFError>)
        ensures
            all_zero(data@) ==> r == Ok::<Option<WorldBossProjectile>, SFError>(None),
            !all_zero(data@) ==> (data@.len() >= 3 <==> r is Ok),
            !all_zero(data@) && r is Ok ==> r == Ok::<Option<WorldBossProjectile>, SFError>(Some(WorldBossProjectile {
                typ: WorldBossProjectileType::spec_or_default(data@[0]),
                amount: soft_u32(data@[1], 0),
                extra_dmg: soft_u32(data@[2], 0),
            })),
    {
        if is_all_zero(data) {
            return Ok(None);
        }
        Ok(Some(WorldBossProjectile {
            typ: WorldBossProjectileType::from_i64_or_default(cget(data, 0, "wb ammo typ")?),
            amount: csiget_u32(data, 1, "wb ammo cnt", 0)?,
            extra_dmg: csiget_u32(data, 2, "wb ammo dmg", 0)?,
        }))
    }
}

/// An upgrade of the catapult.
#[derive(Debug, Clone, Copy, PartialEq, Eq, Structural)]
pub struct WorldBossCatapultUpgrade {
    /// The type of upgrade
    pub typ: WorldBossCatapultUpgradeType,
    /// The amount of upgrades we have of this type (0..=10)
    pub amount: u8,
    /// Is only working on this specific level of the tower
    pub restriction: Option<WorldBossTowerSegment>,
    /// The effect this upgrade has, in hundredths of a percent
    pub effect_val: i64,
}

/// The catapult of the world boss event.
#[derive(Debug, Clone, Copy, PartialEq, Eq)]
pub struct WorldBossCatapult {
    /// The time at which this catapult is going to break
    pub breaks: i64,
    /// The upgrades that have been bought to upgrade the effectiveness of
    /// this catapult
    pub upgrades: [Option<WorldBossCatapultUpgrade>; 4],
}

/// The upgrade that 4 values describe: none where all are 0.
pub open spec fn spec_upgrade(c: Seq<i64>) -> Option<WorldBossCatapultUpgrade> {
    if all_zero(c) {
        None
    } else {
        Some(WorldBossCatapultUpgrade {
            typ: WorldBossCatapultUpgradeType::spec_or_default(c[0]),
            restriction: WorldBossTowerSegment::spec_from_i64(c[1]),
            amount: soft_u8(c[2], 0),
            effect_val: c[3],
        })
    }
}

/// The upgrade `k` of the catapult values `d`: none where there are not 4
/// values for it.
pub open spec fn spec_upgrade_at(d: Seq<i64>, k: int) -> Option<WorldBossCatapultUpgrade> {
    if 1 + 4 * k + 4 <= d.len() {
        spec_upgrade(d.subrange(1 + 4 * k, 1 + 4 * k + 4))
    } else {
        None
    }
}

impl WorldBossCatapult {
    /// Parses the catapult from its values: none where it has no time at
    /// which it breaks.
    pub fn parse(data: &[i64], server_time: ServerTime) -> (r: Result<Option<WorldBossCatapult>, SFError>)
        ensures
            data@.len() >= 1 <==> r is Ok,
            r is Ok ==> match server_time.spec_convert(data@[0]) {
                None => r == Ok::<Option<WorldBossCatapult>, SFError>(None),
                Some(b) => r matches Ok(Some(c)) && c.breaks == b && c.upgrades == [
                    spec_upgrade_at(data@, 0),
                    spec_upgrade_at(data@, 1),
                    spec_upgrade_at(data@, 2),
                    spec_upgrade_at(data@, 3),
                ],
            },
    {
        let breaks = match cstget(data, 0, "wb cp breaks", server_time)? {
            Some(b) => b,
            None => return Ok(None),
        };
        let mut upgrades: [Option<WorldBossCatapultUpgrade>; 4] = [None, None, None, None];
        let len = data.len();
        let mut k: usize = 0;
        while k < 4
            invariant
                k <= 4,
                len == data@.len(),
                len >= 1,
                forall|j: int| 0 <= j < k ==> #[trigger] upgrades[j] == spec_upgrade_at(data@, j),
                forall|j: int| k <= j < 4 ==> #[trigger] upgrades[j] is None,
            decreases 4 - k,
        {
            if 1 + 4 * k + 4 <= len {
                let c = crate::gamestate::tavern::slice_range(data, 1 + 4 * k, 1 + 4 * k + 4);
                if !is_all_zero(c) {
                    upgrades[k] = Some(WorldBossCatapultUpgrade {
                        typ: WorldBossCatapultUpgradeType::from_i64_or_default(c[0]),
                        restriction: WorldBossTowerSegment::from_i64(c[1]),
                        amount: soft_into_u8(c[2], "wb upgrade amount", 0),
                        effect_val: c[3],
                    });
                }
            }
            k = k + 1;
        }
        assert(upgrades@ =~= seq![
            spec_upgrade_at(data@, 0),
            spec_upgrade_at(data@, 1),
            spec_upgrade_at(data@, 2),
            spec_upgrade_at(data@, 3),
        ]);
        Ok(Some(WorldBossCatapult { breaks, upgrades }))
    }
}

/// A hero with the most damage on a segment of the tower.
#[derive(Debug, Clone)]
pub struct WorldBossTowerHeroDamageSummary {
    /// The name of the hero
    pub name: String,
    /// The level this hero has
    pub level: u16,
}

/// A hero with the most special attacks on a segment of the tower.
#[derive(Debug, Clone)]
pub struct WorldBossTowerHeroSpecialSummary {
    /// The name of the hero
    pub name: String,
    /// The level this hero has
    pub level: u16,
    /// Probably the amount of special attacks this hero has done
    pub count: i64,
}

/// The state of one segment of the tower.
#[derive(Debug, Clone)]
pub struct WorldBossTowerSegmentInfo {
    /// The amount of heroes, that are currently fighting on this level
    pub signed_up_heroes: u32,
    /// The amount of damage all heroes did combined
    pub joint_damage: u64,
    /// The maximum amount of health this segment of the boss has
    pub max_health: u64,
    /// The amount of health the this segment of the boss still has
    pub remaining_health: u64,
    /// The amount of special effects currently acive
    pub active_special_attacks: u32,
    /// The 10 heroes, that did the most damage
    pub most_damage_heroes: Vec<WorldBossTowerHeroDamageSummary>,
    /// The 3 heroes, that did the most special attacks
    pub most_special_atk_heroes: Vec<WorldBossTowerHeroSpecialSummary>,
}

/// Holds where the 34 values of a segment starting at `b` can be read.
pub open spec fn segment_valid(d: Seq<Seq<char>>, b: int) -> bool {
    &&& decimal_u32(d[b]) is Some
    &&& decimal_u64(d[b + 1]) is Some && decimal_u64(d[b + 2]) is Some && decimal_u64(d[b + 3]) is Some
    &&& decimal_u32(d[b + 4]) is Some
    &&& forall|j: int| 0 <= j < 10 ==> #[trigger] decimal_u16(d[b + 5 + 2 * j]) is Some
    &&& forall|j: int| 0 <= j < 3 ==> #[trigger] decimal_u16(d[b + 25 + 3 * j]) is Some && decimal_i64(d[b + 27 + 3 * j]) is Some
}

/// Holds where `s` is the segment that valid values starting at `b` describe.
pub open spec fn segment_parsed(d: Seq<Seq<char>>, b: int, s: WorldBossTowerSegmentInfo) -> bool {
    &&& s.signed_up_heroes == decimal_u32(d[b])->0
    &&& s.joint_damage == decimal_u64(d[b + 1])->0
    &&& s.max_health == decimal_u64(d[b + 2])->0
    &&& s.remaining_health == decimal_u64(d[b + 3])->0
    &&& s.active_special_attacks == decimal_u32(d[b + 4])->0
    &&& s.most_damage_heroes@.len() == 10
    &&& forall|j: int| 0 <= j < 10 ==> (#[trigger] s.most_damage_heroes@[j]).level == decimal_u16(d[b + 5 + 2 * j])->0
        && s.most_damage_heroes@[j].name@ == d[b + 6 + 2 * j]
    &&& s.most_special_atk_heroes@.len() == 3
    &&& forall|j: int| 0 <= j < 3 ==> (#[trigger] s.most_special_atk_heroes@[j]).level == decimal_u16(d[b + 25 + 3 * j])->0
        && s.most_special_atk_heroes@[j].name@ == d[b + 26 + 3 * j]
        && s.most_special_atk_heroes@[j].count == decimal_i64(d[b + 27 + 3 * j])->0
}

fn parse_segment(data: &[String], b: usize) -> (r: Option<WorldBossTowerSegmentInfo>)
    requires
        b + 34 <= data@.len(),
    ensures
        segment_valid(string_views(data@), b as int) <==> r is Some,
        r matches Some(s) ==> segment_parsed(string_views(data@), b as int, s),
{
    let ghost d = string_views(data@);
    let len = data.len();
    let mut most_damage_heroes: Vec<WorldBossTowerHeroDamageSummary> = Vec::new();
    let mut j: usize = 0;
    while j < 10
        invariant
            j <= 10,
            b + 34 <= data@.len(),
            len == data@.len(),
            d == string_views(data@),
            most_damage_heroes@.len() == j,
            forall|k: int| 0 <= k < j ==> #[trigger] decimal_u16(d[b + 5 + 2 * k]) is Some,
            forall|k: int| 0 <= k < j ==> (#[trigger] most_damage_heroes@[k]).level == decimal_u16(d[b + 5 + 2 * k])->0
                && most_damage_heroes@[k].name@ == d[b + 6 + 2 * k],
        decreases 10 - j,
    {
        assert(d[b + 5 + 2 * j] == data@[b + 5 + 2 * j]@);
        assert(d[b + 6 + 2 * j] == data@[b + 6 + 2 * j]@);
        let level = match parse_u16(data[b + 5 + 2 * j].as_str()) {
            Some(v) => v,
            None => return None,
        };
        most_damage_heroes.push(WorldBossTowerHeroDamageSummary { level, name: data[b + 6 + 2 * j].clone() });
        j = j + 1;
    }
    let mut most_special_atk_heroes: Vec<WorldBossTowerHeroSpecialSummary> = Vec::new();
    let mut j: usize = 0;
    while j < 3
        invariant
            j <= 3,
            b + 34 <= data@.len(),
            len == data@.len(),
            d == string_views(data@),
            most_special_atk_heroes@.len() == j,
            forall|k: int| 0 <= k < j ==> #[trigger] decimal_u16(d[b + 25 + 3 * k]) is Some && decimal_i64(d[b + 27 + 3 * k]) is Some,
            forall|k: int| 0 <= k < j ==> (#[trigger] most_special_atk_heroes@[k]).level == decimal_u16(d[b + 25 + 3 * k])->0
                && most_special_atk_heroes@[k].name@ == d[b + 26 + 3 * k]
                && most_special_atk_heroes@[k].count == decimal_i64(d[b + 27 + 3 * k])->0,
        decreases 3 - j,
    {
        assert(d[b + 25 + 3 * j] == data@[b + 25 + 3 * j]@);
        assert(d[b + 26 + 3 * j] == data@[b + 26 + 3 * j]@);
        assert(d[b + 27 + 3 * j] == data@[b + 27 + 3 * j]@);
        let level = match parse_u16(data[b + 25 + 3 * j].as_str()) {
            Some(v) => v,
            None => return None,
        };
        let count = match parse_i64(data[b + 27 + 3 * j].as_str()) {
            Some(v) => v,
            None => return None,
        };
        most_special_atk_heroes.push(
            WorldBossTowerHeroSpecialSummary { level, name: data[b + 26 + 3 * j].clone(), count },
        );
        j = j + 1;
    }
    assert(d[b as int] == data@[b as int]@);
    assert(d[b + 1] == data@[b + 1]@ && d[b + 2] == data@[b + 2]@ && d[b + 3] == data@[b + 3]@);
    assert(d[b + 4] == data@[b + 4]@);
    let signed_up_heroes = match parse_u32(data[b].as_str()) {
        Some(v) => v,
        None => return None,
    };
    let joint_damage = match parse_u64(data[b + 1].as_str()) {
        Some(v) => v,
        None => return None,
    };
    let max_health = match parse_u64(data[b + 2].as_str()) {
        Some(v) => v,
        None => return None,
    };
    let remaining_health = match parse_u64(data[b + 3].as_str()) {
        Some(v) => v,
        None => return None,
    };
    let active_special_attacks = match parse_u32(data[b + 4].as_str()) {
        Some(v) => v,
        None => return None,
    };
    Some(WorldBossTowerSegmentInfo {
        signed_up_heroes,
        joint_damage,
        max_health,
        remaining_health,
        active_special_attacks,
        most_damage_heroes,
        most_special_atk_heroes,
    })
}

/// The currently ongoing fight against the world boss.
#[derive(Debug, Clone)]
pub struct WorldBossBattle {
    /// The number of the boss in the ongoing boss battles
    pub boss_nr: u32,
    /// A value of unknown meaning
    pub unknown: i64,
    /// The segment marked as the weak point of the world boss
    pub weak_point: Option<WorldBossTowerSegment>,
    /// Have we already hit the hitpoint for the chest?
    pub weak_point_hit: bool,
    /// The three levels of the boss, that you can fight, top first
    pub segments: Vec<WorldBossTowerSegmentInfo>,
}

impl WorldBossBattle {
    /// Holds where the values describe a battle: its head and three segments
    /// of 34 values each, from position 4 on.
    pub open spec fn spec_valid(d: Seq<Seq<char>>) -> bool {
        &&& d.len() >= 106
        &&& segment_valid(d, 4) && segment_valid(d, 38) && segment_valid(d, 72)
        &&& decimal_i32(d[3]) is Some && decimal_u32(d[0]) is Some && decimal_i64(d[1]) is Some
        &&& decimal_i32(d[2]) is Some
    }

    /// Parses the battle from its values.
    pub fn parse(data: &[String]) -> (r: Result<Self, SFError>)
        ensures
            Self::spec_valid(string_views(data@)) <==> r is Ok,
            r matches Ok(b) ==> {
                let d = string_views(data@);
                &&& b.boss_nr == decimal_u32(d[0])->0
                &&& b.unknown == decimal_i64(d[1])->0
                &&& b.weak_point == WorldBossTowerSegment::spec_from_i64(decimal_i32(d[2])->0 as i64)
                &&& b.weak_point_hit == (decimal_i32(d[3])->0 == 1)
                &&& b.segments@.len() == 3
                &&& segment_parsed(d, 4, b.segments@[0])
                &&& segment_parsed(d, 38, b.segments@[1])
                &&& segment_parsed(d, 72, b.segments@[2])
            },
    {
        let ghost d = string_views(data@);
        if data.len() < 106 {
            return Err(too_short(&[], 105, "wb sum count"));
        }
        let s0 = match parse_segment(data, 4) {
            Some(s) => s,
            None => return Err(SFError::ParsingError("tower segment", String::new())),
        };
        let s1 = match parse_segment(data, 38) {
            Some(s) => s,
            None => return Err(SFError::ParsingError("tower segment", String::new())),
        };
        let s2 = match parse_segment(data, 72) {
            Some(s) => s,
            None => return Err(SFError::ParsingError("tower segment", String::new())),
        };
        assert(d[0] == data@[0]@ && d[1] == data@[1]@ && d[2] == data@[2]@ && d[3] == data@[3]@);
        let weak_point_hit = match parse_i32(data[3].as_str()) {
            Some(v) => v,
            None => return Err(SFError::ParsingError("wb weak point hit", data[3].clone())),
        };
        let boss_nr = match parse_u32(data[0].as_str()) {
            Some(v) => v,
            None => return Err(SFError::ParsingError("wb boss nr", data[0].clone())),
        };
        let unknown = match parse_i64(data[1].as_str()) {
            Some(v) => v,
            None => return Err(SFError::ParsingError("wb unknown wbb", data[1].clone())),
        };
        let weak = match parse_i32(data[2].as_str()) {
            Some(v) => v,
            None => return Err(SFError::ParsingError("wb weak point", data[2].clone())),
        };
        let segments = vec![s0, s1, s2];
        Ok(WorldBossBattle {
            boss_nr,
            unknown,
            weak_point: WorldBossTowerSegment::from_i64(weak as i64),
            weak_point_hit: weak_point_hit == 1,
            segments,
        })
    }
}

/// The state of the world boss event.
#[derive(Debug, Clone)]
pub struct WorldBossEvent {
    pub catalysts: u32,
    pub medals: u32,
    pub rank: u32,
    pub current_segment: WorldBossTowerSegment,
    /// The amount of battle loot chests we have available to collect
    pub battle_reward_chests: u32,
    /// The time until the next attack
    pub attack_timer: Option<i64>,
    /// The next time the battle loot will be issued
    pub next_battle_loot_issued: Option<i64>,
    /// The amount of damage we do per hour
    pub damage_per_hour: u32,
    /// The amount of damage a single attack does
    pub damage_per_attack: u32,
    /// The damage comparative players do
    pub damage_comparative: u32,
    /// The amount of loot we get per hour
    pub loot_per_hour: u32,
    /// Information about the currently ongoing fight
    pub battle: Option<WorldBossBattle>,
    /// The projectiles available in the shop
    pub projectile_offers: Vec<ProjectileOffer>,
    /// The catapult upgrades available in the shop
    pub upgrade_offers: Vec<UpgradeOffer>,
    pub catapult: Option<WorldBossCatapult>,
    pub projectile: Option<WorldBossProjectile>,
    /// The amount of ranks available on the "international" tab
    pub max_international_ranks: Option<u32>,
    /// The amount of players available on the "damage" tab
    pub max_world_ranks: Option<u32>,
    /// A maximum rank of unknown meaning
    pub max_fighter_ranks: Option<u32>,
    /// The amount of chests, that are available for automatic, daily
    /// pickup, by the order of `WorldBossChest`
    pub available_daily_chests: [u32; 5],
}

impl Default for WorldBossEvent {
    fn default() -> (r: Self)
        ensures
            r.catalysts == 0 && r.medals == 0 && r.rank == 0,
            r.current_segment == WorldBossTowerSegment::Top,
            r.battle is None && r.catapult is None && r.projectile is None,
            r.projectile_offers@.len() == 0 && r.upgrade_offers@.len() == 0,
    {
        WorldBossEvent {
            catalysts: 0,
            medals: 0,
            rank: 0,
            current_segment: WorldBossTowerSegment::Top,
            battle_reward_chests: 0,
            attack_timer: None,
            next_battle_loot_issued: None,
            damage_per_hour: 0,
            damage_per_attack: 0,
            damage_comparative: 0,
            loot_per_hour: 0,
            battle: None,
            projectile_offers: Vec::new(),
            upgrade_offers: Vec::new(),
            catapult: None,
            projectile: None,
            max_international_ranks: None,
            max_world_ranks: None,
            max_fighter_ranks: None,
            available_daily_chests: [0, 0, 0, 0, 0],
        }
    }
}

impl WorldBossEvent {
    /// Updates the event from its (at least 15) values; an unknown segment
    /// is an error.
    pub fn update(&mut self, data: &[i64], server_time: ServerTime) -> (r: Result<(), SFError>)
        ensures
            (data@.len() >= 15 && WorldBossTowerSegment::spec_from_i64(data@[3]) is Some) <==> r is Ok,
            r is Ok ==> {
                &&& final(self).catalysts == soft_u32(data@[0], 0)
                &&& final(self).medals == soft_u32(data@[1], 0)
                &&& final(self).rank == soft_u32(data@[2], 0)
                &&& final(self).current_segment == WorldBossTowerSegment::spec_from_i64(data@[3])->0
                &&& final(self).attack_timer == server_time.spec_convert(data@[5])
                &&& final(self).damage_per_attack == soft_u32(data@[6], 0)
                &&& final(self).damage_per_hour == soft_u32(data@[9], 0)
                &&& final(self).loot_per_hour == soft_u32(data@[10], 0)
                &&& final(self).damage_comparative == soft_u32(data@[11], 0)
                &&& final(self).battle_reward_chests == soft_u32(data@[12], 0)
                &&& final(self).next_battle_loot_issued == server_time.spec_convert(data@[14])
            },
            final(self).projectile_offers == old(self).projectile_offers,
            final(self).catapult == old(self).catapult,
    {
        self.catalysts = csiget_u32(data, 0, "wb catalysts", 0)?;
        self.medals = csiget_u32(data, 1, "wb medals", 0)?;
        self.rank = csiget_u32(data, 2, "wb rank", 0)?;
        let raw = cget(data, 3, "wb level")?;
        self.current_segment = match WorldBossTowerSegment::from_i64(raw) {
            Some(s) => s,
            None => return Err(crate::misc::bad_value("wb level", raw)),
        };
        self.attack_timer = cstget(data, 5, "wb atk timer", server_time)?;
        self.damage_per_attack = csiget_u32(data, 6, "wb dmg atk", 0)?;
        self.damage_per_hour = csiget_u32(data, 9, "wb dmg per hour", 0)?;
        self.loot_per_hour = csiget_u32(data, 10, "wb loot per hour", 0)?;
        self.damage_comparative = csiget_u32(data, 11, "wb comparative", 0)?;
        self.battle_reward_chests = csiget_u32(data, 12, "wb chests", 0)?;
        self.next_battle_loot_issued = cstget(data, 14, "wb loot date", server_time)?;
        Ok(())
    }
}

} // verus!
