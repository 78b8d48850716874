use vstd::prelude::*;

use crate::command::{AttributeMap, AttributeType, ShopType};
use crate::error::{SFError, short_err};
use crate::gamestate::character::Class;
use crate::gamestate::unlockables::{EquipmentIdent, HabitatType};
use crate::misc::{debug_list, debug_list_text, tdiv, cget, csiget_u8, csiget_u32, csiget_i32, soft_u8, soft_u32, soft_i32, soft_into_u8, soft_into_u32, trem, warning_try_into_u32, warning_try_into_u8, decimal_text, push_char, push_decimal};

verus! {

/// The number of values that describe one item in server responses.
pub const ITEM_PARSE_LEN: usize = 19;

/// The values of `v` masked to their lowest 8 bits lie in `0..=255`.
pub proof fn lemma_mask_ff(v: i64)
    ensures
        0 <= (v & 0xFF) <= 0xFF,
{
    assert(0 <= (v & 0xFF) <= 0xFF) by (bit_vector);
}

/// The values of `v` masked to their lowest 16 bits lie in `0..=65535`.
pub proof fn lemma_mask_ffff(v: i64)
    ensures
        0 <= (v & 0xFFFF) <= 0xFFFF,
{
    assert(0 <= (v & 0xFFFF) <= 0xFFFF) by (bit_vector);
}

// ---------------------------------------------------------------------------
// Potions, resources, gems, runes and enchantments
// ---------------------------------------------------------------------------

/// The effect that a potion has.
#[derive(Debug, Clone, Copy, PartialEq, Eq, Structural, Hash)]
pub enum PotionType {
    Strength,
    Dexterity,
    Intelligence,
    Constitution,
    Luck,
    EternalLife,
}

impl PotionType {
    /// The potion type of an item sub ident.
    pub open spec fn spec_parse(id: i64) -> Option<PotionType> {
        if id == 0 {
            None
        } else if id == 16 {
            Some(PotionType::EternalLife)
        } else {
            let r = trem(id as int, 5);
            Some(
                if r == 0 {
                    PotionType::Luck
                } else if r == 1 {
                    PotionType::Strength
                } else if r == 2 {
                    PotionType::Dexterity
                } else if r == 3 {
                    PotionType::Intelligence
                } else {
                    PotionType::Constitution
                },
            )
        }
    }

    /// The potion type of an item sub ident.
    pub fn parse(id: i64) -> (r: Option<PotionType>)
        ensures
            r == Self::spec_parse(id),
    {
        if id == 0 {
            return None;
        }
        if id == 16 {
            return Some(PotionType::EternalLife);
        }
        Some(
            match id % 5 {
                0 => PotionType::Luck,
                1 => PotionType::Strength,
                2 => PotionType::Dexterity,
                3 => PotionType::Intelligence,
                _ => PotionType::Constitution,
            },
        )
    }

    /// The potion type that boosts an attribute.
    pub fn from_attribute(value: AttributeType) -> (r: PotionType)
        ensures
            r == match value {
                AttributeType::Strength => PotionType::Strength,
                AttributeType::Dexterity => PotionType::Dexterity,
                AttributeType::Intelligence => PotionType::Intelligence,
                AttributeType::Constitution => PotionType::Constitution,
                AttributeType::Luck => PotionType::Luck,
            },
    {
        match value {
            AttributeType::Strength => PotionType::Strength,
            AttributeType::Dexterity => PotionType::Dexterity,
            AttributeType::Intelligence => PotionType::Intelligence,
            AttributeType::Constitution => PotionType::Constitution,
            AttributeType::Luck => PotionType::Luck,
        }
    }
}

/// The size, and with it the strength, of a potion.
#[derive(Debug, Clone, Copy, PartialEq, Eq, Structural, Hash)]
pub enum PotionSize {
    Small,
    Medium,
    Large,
}

impl PotionSize {
    /// The potion size of an item sub ident.
    pub open spec fn spec_parse(id: i64) -> Option<PotionSize> {
        if 1 <= id <= 5 {
            Some(PotionSize::Small)
        } else if 6 <= id <= 10 {
            Some(PotionSize::Medium)
        } else if 11 <= id <= 16 {
            Some(PotionSize::Large)
        } else {
            None
        }
    }

    /// The potion size of an item sub ident.
    pub fn parse(id: i64) -> (r: Option<Self>)
        ensures
            r == Self::spec_parse(id),
    {
        if 1 <= id && id <= 5 {
            Some(PotionSize::Small)
        } else if 6 <= id && id <= 10 {
            Some(PotionSize::Medium)
        } else if 11 <= id && id <= 16 {
            Some(PotionSize::Large)
        } else {
            None
        }
    }
}

/// The type of a resource item.
#[derive(Debug, Clone, Copy, PartialEq, Eq, Structural)]
pub enum ResourceType {
    Wood,
    Stone,
    Souls,
    Arcane,
    Metal,
}

impl ResourceType {
    /// The resource type with the number the server uses for it (17 to 21).
    pub open spec fn spec_from_i64(v: i64) -> Option<ResourceType> {
        if v == 17 {
            Some(ResourceType::Wood)
        } else if v == 18 {
            Some(ResourceType::Stone)
        } else if v == 19 {
            Some(ResourceType::Souls)
        } else if v == 20 {
            Some(ResourceType::Arcane)
        } else if v == 21 {
            Some(ResourceType::Metal)
        } else {
            None
        }
    }

    /// The resource type with the number the server uses for it (17 to 21).
    pub fn from_i64(v: i64) -> (r: Option<ResourceType>)
        ensures
            r == Self::spec_from_i64(v),
    {
        match v {
            17 => Some(ResourceType::Wood),
            18 => Some(ResourceType::Stone),
            19 => Some(ResourceType::Souls),
            20 => Some(ResourceType::Arcane),
            21 => Some(ResourceType::Metal),
            _ => None,
        }
    }
}

/// A gem, that is either socketed in an item or in the inventory.
#[derive(Debug, Clone, Copy, PartialEq, Eq, Structural)]
pub struct Gem {
    /// The type of gem
    pub typ: GemType,
    /// The strength of this gem
    pub value: u32,
}

/// The type of a gem.
#[derive(Debug, Clone, Copy, PartialEq, Eq, Structural)]
pub enum GemType {
    Strength,
    Dexterity,
    Intelligence,
    Constitution,
    Luck,
    All,
    Legendary,
}

impl GemType {
    /// The gem type of an item sub ident: 10 to 40, by the last digit.
    pub open spec fn spec_parse(id: i64) -> Option<GemType> {
        if 10 <= id <= 40 {
            let r = id % 10;
            if r == 0 {
                Some(GemType::Strength)
            } else if r == 1 {
                Some(GemType::Dexterity)
            } else if r == 2 {
                Some(GemType::Intelligence)
            } else if r == 3 {
                Some(GemType::Constitution)
            } else if r == 4 {
                Some(GemType::Luck)
            } else if r == 5 {
                Some(GemType::All)
            } else if r == 6 {
                Some(GemType::Legendary)
            } else {
                None
            }
        } else {
            None
        }
    }

    /// The gem type of an item sub ident. The value is only for diagnostics.
    pub fn parse(id: i64, debug_value: u32) -> (r: Option<GemType>)
        ensures
            r == Self::spec_parse(id),
    {
        if 10 <= id && id <= 40 {
            match id % 10 {
                0 => Some(GemType::Strength),
                1 => Some(GemType::Dexterity),
                2 => Some(GemType::Intelligence),
                3 => Some(GemType::Constitution),
                4 => Some(GemType::Luck),
                5 => Some(GemType::All),
                6 => Some(GemType::Legendary),
                _ => None,
            }
        } else {
            None
        }
    }
}

/// A gem slot of an item.
#[derive(Debug, Clone, Copy, PartialEq, Eq, Structural)]
pub enum GemSlot {
    /// This gem slot has been filled and can only be emptied by the
    /// blacksmith
    Filled(Gem),
    /// A gem can be inserted into this item
    Empty,
}

impl GemSlot {
    /// The gem slot that a slot value and a gem power describe.
    pub open spec fn spec_parse(slot_val: i64, gem_pwr: i64) -> Option<GemSlot> {
        if slot_val == 0 {
            None
        } else if slot_val == 1 {
            Some(GemSlot::Empty)
        } else if !(0 <= gem_pwr <= u32::MAX) {
            None
        } else {
            match GemType::spec_parse(slot_val) {
                Some(typ) => Some(GemSlot::Filled(Gem { typ, value: gem_pwr as u32 })),
                None => Some(GemSlot::Empty),
            }
        }
    }

    /// The gem slot that a slot value and a gem power describe.
    pub fn parse(slot_val: i64, gem_pwr: i64) -> (r: Option<GemSlot>)
        ensures
            r == Self::spec_parse(slot_val, gem_pwr),
    {
        if slot_val == 0 {
            return None;
        }
        if slot_val == 1 {
            return Some(GemSlot::Empty);
        }
        let value = match warning_try_into_u32(gem_pwr, "gem power") {
            Some(v) => v,
            None => return None,
        };
        match GemType::parse(slot_val, value) {
            Some(typ) => Some(GemSlot::Filled(Gem { typ, value })),
            None => Some(GemSlot::Empty),
        }
    }
}

/// A potion.
#[derive(Debug, Clone, Copy, PartialEq, Eq, Structural)]
pub struct Potion {
    /// The type of potion
    pub typ: PotionType,
    /// The size of potion
    pub size: PotionSize,
    /// The time (seconds of the server's wall clock since the epoch) at which
    /// this potion expires, if known
    pub expires: Option<i64>,
}

/// An item usable for pets.
#[derive(Debug, Clone, Copy, PartialEq, Eq, Structural)]
pub enum PetItem {
    Egg(HabitatType),
    SpecialEgg(HabitatType),
    GoldenEgg,
    Nest,
    Fruit(HabitatType),
}

impl PetItem {
    /// The pet item of an item sub ident.
    pub open spec fn spec_parse(val: i64) -> Option<PetItem> {
        if 1 <= val <= 5 {
            match HabitatType::spec_from_typ_id(val) {
                Some(h) => Some(PetItem::Egg(h)),
                None => None,
            }
        } else if 11 <= val <= 15 {
            match HabitatType::spec_from_typ_id((val - 10) as i64) {
                Some(h) => Some(PetItem::SpecialEgg(h)),
                None => None,
            }
        } else if val == 21 {
            Some(PetItem::GoldenEgg)
        } else if val == 22 {
            Some(PetItem::Nest)
        } else if 31 <= val <= 35 {
            match HabitatType::spec_from_typ_id((val - 30) as i64) {
                Some(h) => Some(PetItem::Fruit(h)),
                None => None,
            }
        } else {
            None
        }
    }

    /// The pet item of an item sub ident.
    pub fn parse(val: i64) -> (r: Option<Self>)
        ensures
            r == Self::spec_parse(val),
    {
        if 1 <= val && val <= 5 {
            match HabitatType::from_typ_id(val) {
                Some(h) => Some(PetItem::Egg(h)),
                None => None,
            }
        } else if 11 <= val && val <= 15 {
            match HabitatType::from_typ_id(val - 10) {
                Some(h) => Some(PetItem::SpecialEgg(h)),
                None => None,
            }
        } else if val == 21 {
            Some(PetItem::GoldenEgg)
        } else if val == 22 {
            Some(PetItem::Nest)
        } else if 31 <= val && val <= 35 {
            match HabitatType::from_typ_id(val - 30) {
                Some(h) => Some(PetItem::Fruit(h)),
                None => None,
            }
        } else {
            None
        }
    }
}

/// The place where an item is equipped.
#[derive(Debug, Clone, Copy, PartialEq, Eq, Structural, Hash)]
pub enum EquipmentSlot {
    Hat,
    BreastPlate,
    Gloves,
    FootWear,
    Amulet,
    Belt,
    Ring,
    Talisman,
    Weapon,
    Shield,
}

impl EquipmentSlot {
    /// The position of this slot in the equipment (0 to 9).
    pub open spec fn spec_index(self) -> int {
        match self {
            EquipmentSlot::Hat => 0,
            EquipmentSlot::BreastPlate => 1,
            EquipmentSlot::Gloves => 2,
            EquipmentSlot::FootWear => 3,
            EquipmentSlot::Amulet => 4,
            EquipmentSlot::Belt => 5,
            EquipmentSlot::Ring => 6,
            EquipmentSlot::Talisman => 7,
            EquipmentSlot::Weapon => 8,
            EquipmentSlot::Shield => 9,
        }
    }

    /// The position of this slot in the equipment (0 to 9).
    pub fn index(self) -> (r: usize)
        ensures
            r == self.spec_index(),
            r < 10,
    {
        match self {
            EquipmentSlot::Hat => 0,
            EquipmentSlot::BreastPlate => 1,
            EquipmentSlot::Gloves => 2,
            EquipmentSlot::FootWear => 3,
            EquipmentSlot::Amulet => 4,
            EquipmentSlot::Belt => 5,
            EquipmentSlot::Ring => 6,
            EquipmentSlot::Talisman => 7,
            EquipmentSlot::Weapon => 8,
            EquipmentSlot::Shield => 9,
        }
    }

    /// The value the game uses internally for this slot.
    pub open spec fn spec_raw_id(self) -> u8 {
        match self {
            EquipmentSlot::Weapon => 1,
            EquipmentSlot::Shield => 2,
            EquipmentSlot::BreastPlate => 3,
            EquipmentSlot::FootWear => 4,
            EquipmentSlot::Gloves => 5,
            EquipmentSlot::Hat => 6,
            EquipmentSlot::Belt => 7,
            EquipmentSlot::Amulet => 8,
            EquipmentSlot::Ring => 9,
            EquipmentSlot::Talisman => 10,
        }
    }

    /// The value the game uses internally for this slot.
    pub fn raw_id(&self) -> (r: u8)
        ensures
            r == self.spec_raw_id(),
    {
        match self {
            EquipmentSlot::Weapon => 1,
            EquipmentSlot::Shield => 2,
            EquipmentSlot::BreastPlate => 3,
            EquipmentSlot::FootWear => 4,
            EquipmentSlot::Gloves => 5,
            EquipmentSlot::Hat => 6,
            EquipmentSlot::Belt => 7,
            EquipmentSlot::Amulet => 8,
            EquipmentSlot::Ring => 9,
            EquipmentSlot::Talisman => 10,
        }
    }

    /// The enchantment that items in this slot can get, if any.
    pub open spec fn spec_enchantment(self) -> Option<Enchantment> {
        match self {
            EquipmentSlot::Hat => Some(Enchantment::AdventurersArchaeologicalAura),
            EquipmentSlot::BreastPlate => Some(Enchantment::MariosBeard),
            EquipmentSlot::Gloves => Some(Enchantment::ShadowOfTheCowboy),
            EquipmentSlot::FootWear => Some(Enchantment::ManyFeetBoots),
            EquipmentSlot::Amulet => Some(Enchantment::UnholyAcquisitiveness),
            EquipmentSlot::Belt => Some(Enchantment::ThirstyWanderer),
            EquipmentSlot::Ring => Some(Enchantment::TheGraveRobbersPrayer),
            EquipmentSlot::Talisman => Some(Enchantment::RobberBaronRitual),
            EquipmentSlot::Weapon => Some(Enchantment::SwordOfVengeance),
            EquipmentSlot::Shield => None,
        }
    }

    /// The enchantment that items in this slot can get, if any.
    pub fn enchantment(&self) -> (r: Option<Enchantment>)
        ensures
            r == self.spec_enchantment(),
    {
        match self {
            EquipmentSlot::Hat => Some(Enchantment::AdventurersArchaeologicalAura),
            EquipmentSlot::BreastPlate => Some(Enchantment::MariosBeard),
            EquipmentSlot::Gloves => Some(Enchantment::ShadowOfTheCowboy),
            EquipmentSlot::FootWear => Some(Enchantment::ManyFeetBoots),
            EquipmentSlot::Amulet => Some(Enchantment::UnholyAcquisitiveness),
            EquipmentSlot::Belt => Some(Enchantment::ThirstyWanderer),
            EquipmentSlot::Ring => Some(Enchantment::TheGraveRobbersPrayer),
            EquipmentSlot::Talisman => Some(Enchantment::RobberBaronRitual),
            EquipmentSlot::Weapon => Some(Enchantment::SwordOfVengeance),
            EquipmentSlot::Shield => None,
        }
    }
}

/// An enchantment, that gives a bonus to some aspect.
#[derive(Debug, Clone, Copy, PartialEq, Eq, Structural, Hash)]
pub enum Enchantment {
    /// Increased crit damage
    SwordOfVengeance,
    /// Finds more mushrooms
    MariosBeard,
    /// Shortens travel time
    ManyFeetBoots,
    /// Increased reaction score in combat
    ShadowOfTheCowboy,
    /// Extra XP on expeditions
    AdventurersArchaeologicalAura,
    /// Allows an extra beer
    ThirstyWanderer,
    /// Find items at paths edge (expeditions) more often
    UnholyAcquisitiveness,
    /// Find extra gold on expeditions
    TheGraveRobbersPrayer,
    /// Increase the chance of loot against other players
    RobberBaronRitual,
}

impl Enchantment {
    /// The number the server uses for this enchantment.
    pub open spec fn spec_id(self) -> i64 {
        match self {
            Enchantment::SwordOfVengeance => 11,
            Enchantment::MariosBeard => 31,
            Enchantment::ManyFeetBoots => 41,
            Enchantment::ShadowOfTheCowboy => 51,
            Enchantment::AdventurersArchaeologicalAura => 61,
            Enchantment::ThirstyWanderer => 71,
            Enchantment::UnholyAcquisitiveness => 81,
            Enchantment::TheGraveRobbersPrayer => 91,
            Enchantment::RobberBaronRitual => 101,
        }
    }

    /// The enchantment with the number the server uses for it.
    pub open spec fn spec_from_i64(v: i64) -> Option<Enchantment> {
        if v == 11 {
            Some(Enchantment::SwordOfVengeance)
        } else if v == 31 {
            Some(Enchantment::MariosBeard)
        } else if v == 41 {
            Some(Enchantment::ManyFeetBoots)
        } else if v == 51 {
            Some(Enchantment::ShadowOfTheCowboy)
        } else if v == 61 {
            Some(Enchantment::AdventurersArchaeologicalAura)
        } else if v == 71 {
            Some(Enchantment::ThirstyWanderer)
        } else if v == 81 {
            Some(Enchantment::UnholyAcquisitiveness)
        } else if v == 91 {
            Some(Enchantment::TheGraveRobbersPrayer)
        } else if v == 101 {
            Some(Enchantment::RobberBaronRitual)
        } else {
            None
        }
    }

    /// The enchantment with the number the server uses for it.
    pub fn from_i64(v: i64) -> (r: Option<Enchantment>)
        ensures
            r == Self::spec_from_i64(v),
            r matches Some(e) ==> e.spec_id() == v,
    {
        match v {
            11 => Some(Enchantment::SwordOfVengeance),
            31 => Some(Enchantment::MariosBeard),
            41 => Some(Enchantment::ManyFeetBoots),
            51 => Some(Enchantment::ShadowOfTheCowboy),
            61 => Some(Enchantment::AdventurersArchaeologicalAura),
            71 => Some(Enchantment::ThirstyWanderer),
            81 => Some(Enchantment::UnholyAcquisitiveness),
            91 => Some(Enchantment::TheGraveRobbersPrayer),
            101 => Some(Enchantment::RobberBaronRitual),
            _ => None,
        }
    }

    /// The position of this enchantment in the order of its declaration (0 to
    /// 8).
    pub open spec fn spec_index(self) -> int {
        match self {
            Enchantment::SwordOfVengeance => 0,
            Enchantment::MariosBeard => 1,
            Enchantment::ManyFeetBoots => 2,
            Enchantment::ShadowOfTheCowboy => 3,
            Enchantment::AdventurersArchaeologicalAura => 4,
            Enchantment::ThirstyWanderer => 5,
            Enchantment::UnholyAcquisitiveness => 6,
            Enchantment::TheGraveRobbersPrayer => 7,
            Enchantment::RobberBaronRitual => 8,
        }
    }

    /// The position of this enchantment in the order of its declaration (0 to
    /// 8).
    pub fn index(self) -> (r: usize)
        ensures
            r == self.spec_index(),
            r < 9,
    {
        match self {
            Enchantment::SwordOfVengeance => 0,
            Enchantment::MariosBeard => 1,
            Enchantment::ManyFeetBoots => 2,
            Enchantment::ShadowOfTheCowboy => 3,
            Enchantment::AdventurersArchaeologicalAura => 4,
            Enchantment::ThirstyWanderer => 5,
            Enchantment::UnholyAcquisitiveness => 6,
            Enchantment::TheGraveRobbersPrayer => 7,
            Enchantment::RobberBaronRitual => 8,
        }
    }

    /// The equipment slot of the items that can get this enchantment.
    pub open spec fn spec_equipment_slot(self) -> EquipmentSlot {
        match self {
            Enchantment::SwordOfVengeance => EquipmentSlot::Weapon,
            Enchantment::MariosBeard => EquipmentSlot::BreastPlate,
            Enchantment::ManyFeetBoots => EquipmentSlot::FootWear,
            Enchantment::ShadowOfTheCowboy => EquipmentSlot::Gloves,
            Enchantment::AdventurersArchaeologicalAura => EquipmentSlot::Hat,
            Enchantment::ThirstyWanderer => EquipmentSlot::Belt,
            Enchantment::UnholyAcquisitiveness => EquipmentSlot::Amulet,
            Enchantment::TheGraveRobbersPrayer => EquipmentSlot::Ring,
            Enchantment::RobberBaronRitual => EquipmentSlot::Talisman,
        }
    }

    /// The equipment slot of the items that can get this enchantment.
    pub fn equipment_slot(&self) -> (r: EquipmentSlot)
        ensures
            r == self.spec_equipment_slot(),
    {
        match self {
            Enchantment::SwordOfVengeance => EquipmentSlot::Weapon,
            Enchantment::MariosBeard => EquipmentSlot::BreastPlate,
            Enchantment::ManyFeetBoots => EquipmentSlot::FootWear,
            Enchantment::ShadowOfTheCowboy => EquipmentSlot::Gloves,
            Enchantment::AdventurersArchaeologicalAura => EquipmentSlot::Hat,
            Enchantment::ThirstyWanderer => EquipmentSlot::Belt,
            Enchantment::UnholyAcquisitiveness => EquipmentSlot::Amulet,
            Enchantment::TheGraveRobbersPrayer => EquipmentSlot::Ring,
            Enchantment::RobberBaronRitual => EquipmentSlot::Talisman,
        }
    }
}

/// The effect of a rune.
#[derive(Debug, Clone, Copy, PartialEq, Eq, Structural, Hash)]
pub enum RuneType {
    QuestGold,
    EpicChance,
    ItemQuality,
    QuestXP,
    ExtraHitPoints,
    FireResistance,
    ColdResistence,
    LightningResistance,
    TotalResistence,
    FireDamage,
    ColdDamage,
    LightningDamage,
}

impl RuneType {
    /// The rune type with the number the server uses for it (31 to 42).
    pub open spec fn spec_from_i64(v: i64) -> Option<RuneType> {
        if v == 31 {
            Some(RuneType::QuestGold)
        } else if v == 32 {
            Some(RuneType::EpicChance)
        } else if v == 33 {
            Some(RuneType::ItemQuality)
        } else if v == 34 {
            Some(RuneType::QuestXP)
        } else if v == 35 {
            Some(RuneType::ExtraHitPoints)
        } else if v == 36 {
            Some(RuneType::FireResistance)
        } else if v == 37 {
            Some(RuneType::ColdResistence)
        } else if v == 38 {
            Some(RuneType::LightningResistance)
        } else if v == 39 {
            Some(RuneType::TotalResistence)
        } else if v == 40 {
            Some(RuneType::FireDamage)
        } else if v == 41 {
            Some(RuneType::ColdDamage)
        } else if v == 42 {
            Some(RuneType::LightningDamage)
        } else {
            None
        }
    }

    /// The rune type with the number the server uses for it (31 to 42).
    pub fn from_i64(v: i64) -> (r: Option<RuneType>)
        ensures
            r == Self::spec_from_i64(v),
    {
        match v {
            31 => Some(RuneType::QuestGold),
            32 => Some(RuneType::EpicChance),
            33 => Some(RuneType::ItemQuality),
            34 => Some(RuneType::QuestXP),
            35 => Some(RuneType::ExtraHitPoints),
            36 => Some(RuneType::FireResistance),
            37 => Some(RuneType::ColdResistence),
            38 => Some(RuneType::LightningResistance),
            39 => Some(RuneType::TotalResistence),
            40 => Some(RuneType::FireDamage),
            41 => Some(RuneType::ColdDamage),
            42 => Some(RuneType::LightningDamage),
            _ => None,
        }
    }
}

/// A rune, which has both a type and a strength.
#[derive(Debug, Clone, Copy, PartialEq, Eq, Structural)]
pub struct Rune {
    /// The type of rune this is
    pub typ: RuneType,
    /// The "strength" of this rune, in percent for resistances
    pub value: u8,
}

} // verus!

verus! {

/// The kind of an item, with the values specific to that kind. The armor of
/// an item is found with `Item::armor`.
#[derive(Debug, Clone, Copy, PartialEq, Eq, Structural)]
pub enum ItemType {
    Hat,
    BreastPlate,
    Gloves,
    FootWear,
    Weapon { min_dmg: u32, max_dmg: u32 },
    Amulet,
    Belt,
    Ring,
    Talisman,
    Shield { block_chance: u32 },
    Shard { piece: u32 },
    Potion(Potion),
    Scrapbook,
    DungeonKey { id: u32, shadow_key: bool },
    Gem(Gem),
    PetItem { typ: PetItem },
    QuickSandGlass,
    HeartOfDarkness,
    WheelOfFortune,
    Mannequin,
    Resource { amount: u32, typ: ResourceType },
    ToiletKey,
    Gral,
    EpicItemBag,
    /// An item type this library does not know yet, with its raw id
    Unknown(u8),
}

impl ItemType {
    /// Checks if this item type is a weapon.
    pub fn is_weapon(self) -> (r: bool)
        ensures
            r <==> self is Weapon,
    {
        match self {
            ItemType::Weapon { .. } => true,
            _ => false,
        }
    }

    /// Checks if this item type is a shield.
    pub fn is_shield(self) -> (r: bool)
        ensures
            r <==> self is Shield,
    {
        match self {
            ItemType::Shield { .. } => true,
            _ => false,
        }
    }

    /// Holds of the item types that only some classes can wear.
    pub open spec fn spec_is_class_item(self) -> bool {
        self is Hat || self is Belt || self is Gloves || self is FootWear || self is Shield
            || self is Weapon || self is BreastPlate
    }

    /// Checks if only particular classes can wear this type.
    pub fn is_class_item(&self) -> (r: bool)
        ensures
            r == self.spec_is_class_item(),
    {
        match self {
            ItemType::Hat | ItemType::Belt | ItemType::Gloves | ItemType::FootWear
            | ItemType::Shield { .. } | ItemType::Weapon { .. } | ItemType::BreastPlate => true,
            _ => false,
        }
    }

    /// Holds of the item types that exist at most once per character.
    pub open spec fn spec_is_unique(self) -> bool {
        self is Scrapbook || self is HeartOfDarkness || self is WheelOfFortune
            || self is Mannequin || self is ToiletKey || self is Gral || self is EpicItemBag
            || self is DungeonKey
    }

    /// Checks if this item type is unique.
    pub fn is_unique(&self) -> (r: bool)
        ensures
            r == self.spec_is_unique(),
    {
        match self {
            ItemType::Scrapbook | ItemType::HeartOfDarkness | ItemType::WheelOfFortune
            | ItemType::Mannequin | ItemType::ToiletKey | ItemType::Gral | ItemType::EpicItemBag
            | ItemType::DungeonKey { .. } => true,
            _ => false,
        }
    }

    /// The equipment slot that items of this type are equipped to, if any.
    pub open spec fn spec_equipment_slot(self) -> Option<EquipmentSlot> {
        match self {
            ItemType::Hat => Some(EquipmentSlot::Hat),
            ItemType::BreastPlate => Some(EquipmentSlot::BreastPlate),
            ItemType::Gloves => Some(EquipmentSlot::Gloves),
            ItemType::FootWear => Some(EquipmentSlot::FootWear),
            ItemType::Weapon { .. } => Some(EquipmentSlot::Weapon),
            ItemType::Amulet => Some(EquipmentSlot::Amulet),
            ItemType::Belt => Some(EquipmentSlot::Belt),
            ItemType::Ring => Some(EquipmentSlot::Ring),
            ItemType::Talisman => Some(EquipmentSlot::Talisman),
            ItemType::Shield { .. } => Some(EquipmentSlot::Shield),
            _ => None,
        }
    }

    /// The equipment slot that items of this type are equipped to, if any.
    pub fn equipment_slot(&self) -> (r: Option<EquipmentSlot>)
        ensures
            r == self.spec_equipment_slot(),
    {
        match self {
            ItemType::Hat => Some(EquipmentSlot::Hat),
            ItemType::BreastPlate => Some(EquipmentSlot::BreastPlate),
            ItemType::Gloves => Some(EquipmentSlot::Gloves),
            ItemType::FootWear => Some(EquipmentSlot::FootWear),
            ItemType::Weapon { .. } => Some(EquipmentSlot::Weapon),
            ItemType::Amulet => Some(EquipmentSlot::Amulet),
            ItemType::Belt => Some(EquipmentSlot::Belt),
            ItemType::Ring => Some(EquipmentSlot::Ring),
            ItemType::Talisman => Some(EquipmentSlot::Talisman),
            ItemType::Shield { .. } => Some(EquipmentSlot::Shield),
            _ => None,
        }
    }

    /// Holds of the item types that can be enchanted.
    pub open spec fn spec_is_enchantable(self) -> bool {
        self.spec_equipment_slot() matches Some(e) && e.spec_enchantment() is Some
    }

    /// Checks if items of this type can be enchanted.
    pub fn is_enchantable(&self) -> (r: bool)
        ensures
            r == self.spec_is_enchantable(),
    {
        match self.equipment_slot() {
            Some(e) => e.enchantment().is_some(),
            None => false,
        }
    }

    /// The id that the server associates with this item type.
    pub open spec fn spec_raw_id(self) -> u8 {
        match self {
            ItemType::Weapon { .. } => 1,
            ItemType::Shield { .. } => 2,
            ItemType::BreastPlate => 3,
            ItemType::FootWear => 4,
            ItemType::Gloves => 5,
            ItemType::Hat => 6,
            ItemType::Belt => 7,
            ItemType::Amulet => 8,
            ItemType::Ring => 9,
            ItemType::Talisman => 10,
            ItemType::Shard { .. } | ItemType::DungeonKey { .. } | ItemType::ToiletKey
            | ItemType::EpicItemBag => 11,
            ItemType::Potion(_) | ItemType::Resource { .. } => 12,
            ItemType::Scrapbook => 13,
            ItemType::Gem(_) => 15,
            ItemType::PetItem { .. } => 16,
            ItemType::QuickSandGlass | ItemType::Gral => 17,
            ItemType::HeartOfDarkness => 18,
            ItemType::WheelOfFortune => 19,
            ItemType::Mannequin => 20,
            ItemType::Unknown(u) => u,
        }
    }

    /// The id that the server associates with this item type.
    pub fn raw_id(&self) -> (r: u8)
        ensures
            r == self.spec_raw_id(),
    {
        match self {
            ItemType::Weapon { .. } => 1,
            ItemType::Shield { .. } => 2,
            ItemType::BreastPlate => 3,
            ItemType::FootWear => 4,
            ItemType::Gloves => 5,
            ItemType::Hat => 6,
            ItemType::Belt => 7,
            ItemType::Amulet => 8,
            ItemType::Ring => 9,
            ItemType::Talisman => 10,
            ItemType::Shard { .. } | ItemType::DungeonKey { .. } | ItemType::ToiletKey
            | ItemType::EpicItemBag => 11,
            ItemType::Potion(_) | ItemType::Resource { .. } => 12,
            ItemType::Scrapbook => 13,
            ItemType::Gem(_) => 15,
            ItemType::PetItem { .. } => 16,
            ItemType::QuickSandGlass | ItemType::Gral => 17,
            ItemType::HeartOfDarkness => 18,
            ItemType::WheelOfFortune => 19,
            ItemType::Mannequin => 20,
            ItemType::Unknown(u) => *u,
        }
    }

    /// The raw type of the item at the start of `d`: its first value's lowest
    /// eight bits.
    pub open spec fn spec_raw_typ(d: Seq<i64>) -> u8 {
        soft_u8(d[0] & 0xFF, 255)
    }

    /// How many values the item type at the start of `d` needs.
    pub open spec fn spec_parse_len(d: Seq<i64>) -> int {
        if d.len() == 0 {
            1
        } else {
            let t = Self::spec_raw_typ(d);
            if t == 1 {
                7
            } else if t == 2 {
                6
            } else if t == 15 {
                17
            } else {
                4
            }
        }
    }

    /// The item type of a unique item (raw type 11) with a sub ident.
    pub open spec fn spec_unique(id: u32) -> ItemType {
        if (1 <= id <= 11) || id == 17 || id == 19 || id == 22 || id == 69 || id == 70 {
            ItemType::DungeonKey { id, shadow_key: false }
        } else if id == 20 {
            ItemType::ToiletKey
        } else if (51 <= id <= 64) || (67 <= id <= 68) {
            ItemType::DungeonKey { id, shadow_key: true }
        } else if id == 10000 {
            ItemType::EpicItemBag
        } else {
            ItemType::Shard { piece: id }
        }
    }

    /// The item type of a consumable (raw type 12) with the given sub ident.
    pub open spec fn spec_consumable(id: i64, raw: u8) -> ItemType {
        if id > 16 {
            match ResourceType::spec_from_i64(id) {
                Some(typ) => ItemType::Resource { amount: 0, typ },
                None => ItemType::Unknown(raw),
            }
        } else {
            match (PotionType::spec_parse(id), PotionSize::spec_parse(id)) {
                (Some(typ), Some(size)) => ItemType::Potion(Potion { typ, size, expires: None }),
                _ => ItemType::Unknown(raw),
            }
        }
    }

    /// The item type that the values at the start of `d` describe, where `d`
    /// has at least `spec_parse_len(d)` values.
    pub open spec fn spec_parse(d: Seq<i64>) -> Option<ItemType> {
        let t = Self::spec_raw_typ(d);
        let sub = d[3];
        if t == 0 {
            None
        } else {
            Some(
                if t == 1 {
                    ItemType::Weapon { min_dmg: soft_u32(d[5], 0), max_dmg: soft_u32(d[6], 0) }
                } else if t == 2 {
                    ItemType::Shield { block_chance: soft_u32(d[5], 0) }
                } else if t == 3 {
                    ItemType::BreastPlate
                } else if t == 4 {
                    ItemType::FootWear
                } else if t == 5 {
                    ItemType::Gloves
                } else if t == 6 {
                    ItemType::Hat
                } else if t == 7 {
                    ItemType::Belt
                } else if t == 8 {
                    ItemType::Amulet
                } else if t == 9 {
                    ItemType::Ring
                } else if t == 10 {
                    ItemType::Talisman
                } else if t == 11 {
                    Self::spec_unique((sub & 0xFFFF) as u32)
                } else if t == 12 {
                    Self::spec_consumable(sub & 0xFF, t)
                } else if t == 13 {
                    ItemType::Scrapbook
                } else if t == 15 {
                    match GemType::spec_parse(sub) {
                        Some(typ) => ItemType::Gem(Gem { typ, value: soft_u32(d[16], 0) }),
                        None => ItemType::Unknown(t),
                    }
                } else if t == 16 {
                    match PetItem::spec_parse(sub & 0xFFFF) {
                        Some(typ) => ItemType::PetItem { typ },
                        None => ItemType::Unknown(t),
                    }
                } else if t == 17 {
                    if (sub & 0xFFFF) == 4 {
                        ItemType::Gral
                    } else {
                        ItemType::QuickSandGlass
                    }
                } else if t == 18 {
                    ItemType::HeartOfDarkness
                } else if t == 19 {
                    ItemType::WheelOfFortune
                } else if t == 20 {
                    ItemType::Mannequin
                } else {
                    ItemType::Unknown(t)
                },
            )
        }
    }

    /// Parses the type of the item that starts at the start of `data`. An
    /// unknown type gives `ItemType::Unknown`; a raw type of 0 means there is
    /// no item.
    pub fn parse(data: &[i64]) -> (r: Result<Option<Self>, SFError>)
        ensures
            data@.len() >= Self::spec_parse_len(data@) ==> r == Ok::<Option<ItemType>, SFError>(
                Self::spec_parse(data@),
            ),
            data@.len() < Self::spec_parse_len(data@) ==> r is Err,
    {
        let raw0 = cget(data, 0, "item type")?;
        let raw_typ = soft_into_u8(raw0 & 0xFF, "item type", 255);
        let sub_ident = cget(data, 3, "item sub type")?;
        proof {
            lemma_mask_ff(sub_ident);
            lemma_mask_ffff(sub_ident);
        }
        let typ = match raw_typ {
            0 => return Ok(None),
            1 => ItemType::Weapon {
                min_dmg: csiget_u32(data, 5, "weapon min dmg", 0)?,
                max_dmg: csiget_u32(data, 6, "weapon min dmg", 0)?,
            },
            2 => ItemType::Shield { block_chance: csiget_u32(data, 5, "shield block chance", 0)? },
            3 => ItemType::BreastPlate,
            4 => ItemType::FootWear,
            5 => ItemType::Gloves,
            6 => ItemType::Hat,
            7 => ItemType::Belt,
            8 => ItemType::Amulet,
            9 => ItemType::Ring,
            10 => ItemType::Talisman,
            11 => {
                let id = (sub_ident & 0xFFFF) as u32;
                if (1 <= id && id <= 11) || id == 17 || id == 19 || id == 22 || id == 69 || id
                    == 70 {
                    ItemType::DungeonKey { id, shadow_key: false }
                } else if id == 20 {
                    ItemType::ToiletKey
                } else if (51 <= id && id <= 64) || (67 <= id && id <= 68) {
                    ItemType::DungeonKey { id, shadow_key: true }
                } else if id == 10000 {
                    ItemType::EpicItemBag
                } else {
                    ItemType::Shard { piece: id }
                }
            },
            12 => {
                let id = sub_ident & 0xFF;
                if id > 16 {
                    match ResourceType::from_i64(id) {
                        Some(typ) => ItemType::Resource { amount: 0, typ },
                        None => ItemType::Unknown(raw_typ),
                    }
                } else {
                    match (PotionType::parse(id), PotionSize::parse(id)) {
                        (Some(typ), Some(size)) => ItemType::Potion(
                            Potion { typ, size, expires: None },
                        ),
                        _ => ItemType::Unknown(raw_typ),
                    }
                }
            },
            13 => ItemType::Scrapbook,
            15 => {
                let gem_value = csiget_u32(data, 16, "gem pwr", 0)?;
                match GemType::parse(sub_ident, gem_value) {
                    Some(typ) => ItemType::Gem(Gem { typ, value: gem_value }),
                    None => ItemType::Unknown(raw_typ),
                }
            },
            16 => match PetItem::parse(sub_ident & 0xFFFF) {
                Some(typ) => ItemType::PetItem { typ },
                None => ItemType::Unknown(raw_typ),
            },
            17 => {
                if (sub_ident & 0xFFFF) == 4 {
                    ItemType::Gral
                } else {
                    ItemType::QuickSandGlass
                }
            },
            18 => ItemType::HeartOfDarkness,
            19 => ItemType::WheelOfFortune,
            20 => ItemType::Mannequin,
            _ => ItemType::Unknown(raw_typ),
        };
        Ok(Some(typ))
    }
}

} // verus!

verus! {

/// A single item: in an inventory, in a shop, as a reward, or similar.
#[derive(Debug, Clone, Copy, PartialEq, Eq)]
pub struct Item {
    /// The type of this item, with type specific values
    pub typ: ItemType,
    /// Either the price to buy, or to sell
    pub price: u32,
    /// The mushroom price of this item
    pub mushroom_price: u32,
    /// The model id of this item
    pub model_id: u16,
    /// The class restriction of this item (one of the three main classes)
    pub class: Option<Class>,
    /// The armor, weapon damage, or other type specific value
    pub type_specific_val: u32,
    /// The attributes this item gives, when equipped
    pub attributes: AttributeMap,
    /// The gem slot of this item, if any
    pub gem_slot: Option<GemSlot>,
    /// The rune on this item
    pub rune: Option<Rune>,
    /// The enchantment applied to this item
    pub enchantment: Option<Enchantment>,
    /// The color, or other cosmetic variation of this item
    pub color: u8,
    /// How often this item has been upgraded
    pub upgrade_count: u8,
    /// The quality of this item
    pub item_quality: u32,
    /// Whether this item has been washed
    pub is_washed: bool,
}

/// What an item gives: its attributes and its rune.
pub struct ItemBonus {
    pub attributes: Seq<u32>,
    pub rune: Option<Rune>,
}

/// The attributes and the rune of an item after one (type, value) pair of its
/// description has been read.
pub open spec fn attr_step(b: ItemBonus, t: i64, v: i64) -> ItemBonus {
    if !(0 <= t <= usize::MAX) || !(0 <= v <= u32::MAX) || t == 0 {
        b
    } else if 1 <= t <= 5 {
        ItemBonus { attributes: b.attributes.update(t - 1, v as u32), rune: b.rune }
    } else if t == 6 {
        ItemBonus { attributes: seq![v as u32, v as u32, v as u32, v as u32, v as u32], rune: b.rune }
    } else if t == 21 {
        ItemBonus {
            attributes: b.attributes.update(0, v as u32).update(3, v as u32).update(4, v as u32),
            rune: b.rune,
        }
    } else if t == 22 {
        ItemBonus {
            attributes: b.attributes.update(1, v as u32).update(3, v as u32).update(4, v as u32),
            rune: b.rune,
        }
    } else if t == 23 {
        ItemBonus {
            attributes: b.attributes.update(2, v as u32).update(3, v as u32).update(4, v as u32),
            rune: b.rune,
        }
    } else {
        match RuneType::spec_from_i64(t) {
            Some(typ) => if v <= u8::MAX {
                ItemBonus { attributes: b.attributes, rune: Some(Rune { typ, value: v as u8 }) }
            } else {
                b
            },
            None => b,
        }
    }
}

/// The attributes and the rune that the three (type, value) pairs at
/// positions 7 to 12 of an item describe.
pub open spec fn item_bonus(d: Seq<i64>) -> ItemBonus {
    bonus_upto(d, 3)
}

/// The attributes and the rune after the first `n` (type, value) pairs.
pub open spec fn bonus_upto(d: Seq<i64>, n: nat) -> ItemBonus
    decreases n,
{
    if n == 0 {
        ItemBonus { attributes: seq![0u32, 0, 0, 0, 0], rune: None }
    } else {
        attr_step(bonus_upto(d, (n - 1) as nat), d[6 + n as int], d[9 + n as int])
    }
}

/// The sum of the values `d[5..13]`.
pub open spec fn color_sum(d: Seq<i64>) -> int {
    d[5] + d[6] + d[7] + d[8] + d[9] + d[10] + d[11] + d[12]
}

impl Item {
    /// The model id of the item described at the start of `d`.
    pub open spec fn spec_model_id(d: Seq<i64>) -> u16 {
        trem((d[3] & 0xFFFF) as int, 1000) as u16
    }

    /// The color of the item described at the start of `d`.
    pub open spec fn spec_color(d: Seq<i64>, typ: ItemType) -> u8 {
        if Self::spec_model_id(d) <= 49 && typ != ItemType::Talisman {
            let c = trem(color_sum(d), 5) + 1;
            if 0 <= c { c as u8 } else { 1 }
        } else {
            1
        }
    }

    /// The item described by the (at least 19) values at the start of `d`,
    /// given its type.
    pub open spec fn spec_parse(d: Seq<i64>, typ: ItemType) -> Item {
        let bonus = item_bonus(d);
        Item {
            typ,
            model_id: Self::spec_model_id(d),
            rune: if typ.spec_equipment_slot() is Some { bonus.rune } else { None },
            type_specific_val: soft_u32(d[5], 0),
            gem_slot: GemSlot::spec_parse(d[1], d[16]),
            enchantment: Enchantment::spec_from_i64(d[2]),
            class: if typ.spec_is_class_item() {
                Class::spec_from_i64(tdiv((d[3] & 0xFFFF) as int, 1000) as i64)
            } else {
                None
            },
            attributes: if typ.spec_equipment_slot() is Some {
                [
                    bonus.attributes[0],
                    bonus.attributes[1],
                    bonus.attributes[2],
                    bonus.attributes[3],
                    bonus.attributes[4],
                ]
            } else {
                [0u32, 0, 0, 0, 0]
            },
            color: Self::spec_color(d, typ),
            price: soft_u32(d[13], u32::MAX),
            mushroom_price: soft_u32(d[14], u32::MAX),
            upgrade_count: soft_u8(d[15], u8::MAX),
            item_quality: soft_u32(d[17], 0),
            is_washed: soft_i32(d[18], 0) != 0,
        }
    }

    /// Parses the item that starts at the start of `data`: `None` where there
    /// is no item. An item needs 19 values; no item needs 4.
    pub fn parse(data: &[i64]) -> (r: Result<Option<Self>, SFError>)
        ensures
            data@.len() >= ITEM_PARSE_LEN ==> r == Ok::<Option<Item>, SFError>(
                match ItemType::spec_parse(data@) {
                    Some(typ) => Some(Self::spec_parse(data@, typ)),
                    None => None,
                },
            ),
            data@.len() < ITEM_PARSE_LEN ==> (r is Err || (data@.len() >= 4
                && ItemType::spec_parse(data@) is None && r == Ok::<Option<Item>, SFError>(
                None,
            ))),
            data@.len() >= 4 && ItemType::spec_parse(data@) is None ==> r == Ok::<
                Option<Item>,
                SFError,
            >(None),
    {
        let typ = match ItemType::parse(data)? {
            Some(t) => t,
            None => return Ok(None),
        };
        let enchantment = Enchantment::from_i64(cget(data, 2, "item enchantment")?);
        let gem_slot_val = cget(data, 1, "gem slot val")?;
        let gem_pwr = cget(data, 16, "gem pwr")?;
        let gem_slot = GemSlot::parse(gem_slot_val, gem_pwr);
        let raw3 = cget(data, 3, "item class")?;
        proof {
            lemma_mask_ffff(raw3);
        }
        let class = if typ.is_class_item() {
            Class::from_i64((raw3 & 0xFFFF) / 1000)
        } else {
            None
        };
        let mut rune: Option<Rune> = None;
        let mut attributes: AttributeMap = [0, 0, 0, 0, 0];
        if typ.equipment_slot().is_some() {
            assert(attributes@ =~= bonus_upto(data@, 0).attributes);
            let mut i: usize = 0;
            while i < 3
                invariant
                    i <= 3,
                    data@.len() > 16,
                    attributes@ == bonus_upto(data@, i as nat).attributes,
                    rune == bonus_upto(data@, i as nat).rune,
                decreases 3 - i,
            {
                let atr_typ = cget(data, i + 7, "item atr typ")?;
                let atr_val = cget(data, i + 10, "item atr val")?;
                let ghost before = ItemBonus { attributes: attributes@, rune };
                if 0 <= atr_typ && (atr_typ as u64) <= (usize::MAX as u64) && 0 <= atr_val
                    && atr_val <= 4294967295 {
                    let v = atr_val as u32;
                    if atr_typ == 0 {
                    } else if 1 <= atr_typ && atr_typ <= 5 {
                        attributes[(atr_typ - 1) as usize] = v;
                    } else if atr_typ == 6 {
                        attributes = [v, v, v, v, v];
                    } else if atr_typ == 21 {
                        attributes[0] = v;
                        attributes[3] = v;
                        attributes[4] = v;
                    } else if atr_typ == 22 {
                        attributes[1] = v;
                        attributes[3] = v;
                        attributes[4] = v;
                    } else if atr_typ == 23 {
                        attributes[2] = v;
                        attributes[3] = v;
                        attributes[4] = v;
                    } else {
                        match RuneType::from_i64(atr_typ) {
                            Some(typ) => {
                                if atr_val <= 255 {
                                    rune = Some(Rune { typ, value: atr_val as u8 });
                                }
                            },
                            None => {},
                        }
                    }
                }
                assert(attributes@ =~= attr_step(before, atr_typ, atr_val).attributes);
                assert(bonus_upto(data@, (i + 1) as nat) == attr_step(before, atr_typ, atr_val));
                i = i + 1;
            }
        }
        let model_id: u16 = ((raw3 & 0xFFFF) % 1000) as u16;
        let color: u8 = if model_id <= 49 && typ != ItemType::Talisman {
            let sum = color_sum_of(data);
            let c = sum % 5 + 1;
            if 0 <= c {
                c as u8
            } else {
                1
            }
        } else {
            1
        };
        let item = Item {
            typ,
            model_id,
            rune,
            type_specific_val: csiget_u32(data, 5, "effect value", 0)?,
            gem_slot,
            enchantment,
            class,
            attributes,
            color,
            price: csiget_u32(data, 13, "item price", 4294967295)?,
            mushroom_price: csiget_u32(data, 14, "mushroom price", 4294967295)?,
            upgrade_count: csiget_u8(data, 15, "upgrade count", 255)?,
            item_quality: csiget_u32(data, 17, "upgrade count", 0)?,
            is_washed: csiget_i32(data, 18, "is washed", 0)? != 0,
        };
        let ghost sp = Self::spec_parse(data@, typ);
        assert(item.attributes@ =~= sp.attributes@);
        assert(item.model_id == sp.model_id);
        assert(item.color == sp.color);
        assert(item.class == sp.class);
        assert(item.rune == sp.rune);
        assert(item.gem_slot == sp.gem_slot);
        assert(item.is_washed == sp.is_washed);
        assert(item.attributes == sp.attributes);
        Ok(Some(item))
    }
}

/// The sum of the values at positions 5 to 12.
fn color_sum_of(data: &[i64]) -> (r: i128)
    requires
        data@.len() > 12,
    ensures
        r == color_sum(data@),
{
    data[5] as i128 + data[6] as i128 + data[7] as i128 + data[8] as i128 + data[9] as i128
        + data[10] as i128 + data[11] as i128 + data[12] as i128
}

} // verus!

verus! {

/// The identification of an item that commands need, to make sure the item
/// has not changed.
#[derive(Debug, Clone, Copy, PartialEq, Eq, Structural)]
pub struct ItemCommandIdent {
    pub typ: u8,
    pub model_id: u16,
    pub price: u32,
    pub mush_price: u32,
}

impl ItemCommandIdent {
    /// The text of this ident: `typ/model_id/price/mush_price`.
    pub open spec fn spec_text(self) -> Seq<char> {
        decimal_text(self.typ as nat) + seq!['/'] + decimal_text(self.model_id as nat) + seq!['/']
            + decimal_text(self.price as nat) + seq!['/'] + decimal_text(self.mush_price as nat)
    }

    /// The text of this ident, as commands send it.
    pub fn to_string(&self) -> (s: String)
        ensures
            s@ == self.spec_text(),
    {
        let mut s = String::new();
        push_decimal(&mut s, self.typ as u64);
        push_char(&mut s, '/');
        push_decimal(&mut s, self.model_id as u64);
        push_char(&mut s, '/');
        push_decimal(&mut s, self.price as u64);
        push_char(&mut s, '/');
        push_decimal(&mut s, self.mush_price as u64);
        assert(s@ =~= self.spec_text());
        s
    }
}

impl Item {
    /// The scrapbook ident of this item, if it is equipment.
    pub fn equipment_ident(&self) -> (r: Option<EquipmentIdent>)
        ensures
            r == match self.typ.spec_equipment_slot() {
                Some(typ) => Some(
                    EquipmentIdent {
                        class: self.class,
                        typ,
                        model_id: self.model_id,
                        color: self.color,
                    },
                ),
                None => None,
            },
    {
        match self.typ.equipment_slot() {
            Some(typ) => Some(
                EquipmentIdent { class: self.class, typ, model_id: self.model_id, color: self.color },
            ),
            None => None,
        }
    }

    /// The identification of this item that commands need.
    pub fn command_ident(&self) -> (r: ItemCommandIdent)
        ensures
            r == (ItemCommandIdent {
                typ: self.typ.spec_raw_id(),
                model_id: self.model_id,
                price: self.price,
                mush_price: self.mushroom_price,
            }),
    {
        ItemCommandIdent {
            typ: self.typ.raw_id(),
            model_id: self.model_id,
            price: self.price,
            mush_price: self.mushroom_price,
        }
    }

    /// Checks if this item is unique.
    pub fn is_unique(&self) -> (r: bool)
        ensures
            r == self.typ.spec_is_unique(),
    {
        self.typ.is_unique()
    }

    /// Checks if this item is an epic.
    pub fn is_epic(&self) -> (r: bool)
        ensures
            r == (self.model_id >= 50),
    {
        self.model_id >= 50
    }

    /// Checks if this item is a legendary.
    pub fn is_legendary(&self) -> (r: bool)
        ensures
            r == (self.model_id >= 90),
    {
        self.model_id >= 90
    }

    /// The armor rating of this item: its type specific value for armor
    /// pieces and jewelry, otherwise 0.
    pub fn armor(&self) -> (r: u32)
        ensures
            r == match self.typ {
                ItemType::Hat | ItemType::BreastPlate | ItemType::Gloves | ItemType::FootWear
                | ItemType::Amulet | ItemType::Belt | ItemType::Ring | ItemType::Talisman => {
                    self.type_specific_val
                },
                _ => 0,
            },
    {
        match self.typ {
            ItemType::Hat | ItemType::BreastPlate | ItemType::Gloves | ItemType::FootWear
            | ItemType::Amulet | ItemType::Belt | ItemType::Ring | ItemType::Talisman => {
                self.type_specific_val
            },
            _ => 0,
        }
    }

    /// Checks if this item can be enchanted.
    pub fn is_enchantable(&self) -> (r: bool)
        ensures
            r == self.typ.spec_is_enchantable(),
    {
        self.typ.is_enchantable()
    }

    /// Whether a character of the given class can use this item: items
    /// without a class requirement can be used by anyone.
    pub open spec fn spec_can_be_used_by(self, class: Class) -> bool {
        match self.class {
            None => true,
            Some(req) => {
                let weapon = self.typ is Weapon;
                let shield = self.typ is Shield;
                match (class, req) {
                    (Class::Warrior, Class::Warrior) => true,
                    (Class::Berserker, Class::Warrior) => !shield,
                    (Class::Scout, Class::Scout) => true,
                    (Class::Mage, Class::Mage) | (Class::Necromancer, Class::Mage) => true,
                    (Class::Assassin, Class::Warrior) => weapon,
                    (Class::Assassin, Class::Scout) => !weapon,
                    (Class::Bard, Class::Mage) | (Class::Druid, Class::Mage) => weapon,
                    (Class::Bard, Class::Scout) | (Class::Druid, Class::Scout) => !weapon,
                    (Class::BattleMage, Class::Warrior) => weapon,
                    (Class::BattleMage, Class::Mage) => !weapon,
                    (Class::DemonHunter, Class::Scout) => weapon,
                    (Class::DemonHunter, Class::Warrior) => !weapon && !shield,
                    _ => false,
                }
            },
        }
    }

    /// Checks if a character of the given class can use this item.
    pub fn can_be_used_by(&self, class: Class) -> (r: bool)
        ensures
            r == self.spec_can_be_used_by(class),
    {
        let req = match self.class {
            None => return true,
            Some(c) => c,
        };
        let weapon = self.typ.is_weapon();
        let shield = self.typ.is_shield();
        match (class, req) {
            (Class::Warrior, Class::Warrior) => true,
            (Class::Berserker, Class::Warrior) => !shield,
            (Class::Scout, Class::Scout) => true,
            (Class::Mage, Class::Mage) | (Class::Necromancer, Class::Mage) => true,
            (Class::Assassin, Class::Warrior) => weapon,
            (Class::Assassin, Class::Scout) => !weapon,
            (Class::Bard, Class::Mage) | (Class::Druid, Class::Mage) => weapon,
            (Class::Bard, Class::Scout) | (Class::Druid, Class::Scout) => !weapon,
            (Class::BattleMage, Class::Warrior) => weapon,
            (Class::BattleMage, Class::Mage) => !weapon,
            (Class::DemonHunter, Class::Scout) => weapon,
            (Class::DemonHunter, Class::Warrior) => !weapon && !shield,
            _ => false,
        }
    }

    /// Checks if a character of the given class can equip this item: it is
    /// equipment and the class can use it.
    pub fn can_be_equipped_by(&self, class: Class) -> (r: bool)
        ensures
            r == (self.typ.spec_equipment_slot() is Some && self.spec_can_be_used_by(class)),
    {
        self.typ.equipment_slot().is_some() && self.can_be_used_by(class)
    }

    /// Checks if a companion of the given class can equip this item:
    /// companions wear no shields.
    pub fn can_be_equipped_by_companion(&self, class: Class) -> (r: bool)
        ensures
            r == (!(self.typ is Shield) && self.typ.spec_equipment_slot() is Some
                && self.spec_can_be_used_by(class)),
    {
        !self.typ.is_shield() && self.can_be_equipped_by(class)
    }
}

impl ItemType {
    /// The active potion `i` (0 to 2) that the potion values describe.
    pub open spec fn spec_active_potion(d: Seq<i64>, i: int, server_time: crate::gamestate::ServerTime) -> Option<Potion> {
        match (PotionType::spec_parse(d[i]), PotionSize::spec_parse(d[i])) {
            (Some(typ), Some(size)) => Some(
                Potion { typ, size, expires: server_time.spec_convert(d[3 + i]) },
            ),
            _ => None,
        }
    }

    /// Parses the three active potions: the types at positions 0 to 2 and
    /// their expiry times at 3 to 5. With fewer than 6 values there are none.
    pub fn parse_active_potions(data: &[i64], server_time: crate::gamestate::ServerTime) -> (r: [Option<Potion>; 3])
        ensures
            data@.len() < 6 ==> r@ == seq![None::<Potion>, None, None],
            data@.len() >= 6 ==> r@ == seq![
                Self::spec_active_potion(data@, 0, server_time),
                Self::spec_active_potion(data@, 1, server_time),
                Self::spec_active_potion(data@, 2, server_time),
            ],
    {
        if data.len() < 6 {
            let r = [None, None, None];
            assert(r@ =~= seq![None::<Potion>, None, None]);
            return r;
        }
        let p0 = active_potion(data, 0, server_time);
        let p1 = active_potion(data, 1, server_time);
        let p2 = active_potion(data, 2, server_time);
        let r = [p0, p1, p2];
        assert(r@ =~= seq![
            Self::spec_active_potion(data@, 0, server_time),
            Self::spec_active_potion(data@, 1, server_time),
            Self::spec_active_potion(data@, 2, server_time),
        ]);
        r
    }
}

fn active_potion(data: &[i64], i: usize, server_time: crate::gamestate::ServerTime) -> (r: Option<Potion>)
    requires
        i < 3,
        data@.len() >= 6,
    ensures
        r == ItemType::spec_active_potion(data@, i as int, server_time),
{
    let typ = match PotionType::parse(data[i]) {
        Some(t) => t,
        None => return None,
    };
    let size = match PotionSize::parse(data[i]) {
        Some(s) => s,
        None => return None,
    };
    Some(Potion { typ, size, expires: server_time.convert_to_local(data[3 + i], "potion exp") })
}

/// All the equipment a player is wearing, one slot per `EquipmentSlot`.
#[derive(Debug, Clone, Copy)]
pub struct Equipment(pub [Option<Item>; 10]);

impl Default for Equipment {
    fn default() -> (r: Self)
        ensures
            forall|i: int| 0 <= i < 10 ==> r.0@[i] is None,
    {
        Equipment([None, None, None, None, None, None, None, None, None, None])
    }
}

/// A position in the equipment.
#[derive(Debug, Clone, Copy, PartialEq, Eq, Structural)]
pub struct EquipmentPosition(pub usize);

impl EquipmentPosition {
    /// The 0 based index into the equipment.
    pub fn position(&self) -> (r: usize)
        ensures
            r == self.0,
    {
        self.0
    }
}

impl Equipment {
    /// Checks if the item in the slot of the enchantment carries it.
    pub fn has_enchantment(&self, enchantment: Enchantment) -> (r: bool)
        ensures
            r == (self.0@[enchantment.spec_equipment_slot().spec_index()] matches Some(item)
                && item.enchantment == Some(enchantment)),
    {
        let slot = enchantment.equipment_slot();
        match &self.0[slot.index()] {
            Some(item) => match item.enchantment {
                Some(e) => e == enchantment,
                None => false,
            },
            None => false,
        }
    }

    /// The positions of the slots with the items in them, in slot order.
    pub fn iter(&self) -> (r: Vec<(EquipmentPosition, Option<Item>)>)
        ensures
            r@.len() == 10,
            forall|i: int| 0 <= i < 10 ==> #[trigger] r@[i] == (EquipmentPosition(i as usize), self.0@[i]),
    {
        let mut r: Vec<(EquipmentPosition, Option<Item>)> = Vec::new();
        let mut i: usize = 0;
        while i < 10
            invariant
                i <= 10,
                r@.len() == i,
                forall|k: int| 0 <= k < i ==> #[trigger] r@[k] == (EquipmentPosition(k as usize), self.0@[k]),
            decreases 10 - i,
        {
            r.push((EquipmentPosition(i), self.0[i]));
            i = i + 1;
        }
        r
    }

    /// Parses the equipment from the items that follow each other in
    /// `data`, 19 values each, slot by slot. The length of `data` must be a
    /// multiple of 19; items past the tenth are ignored.
    pub fn parse(data: &[i64]) -> (r: Result<Equipment, SFError>)
        ensures
            data@.len() % 19 != 0 ==> (r matches Err(SFError::ParsingError(n, s)) && n@
                == "Invalid Equipment"@ && s@ == debug_list_text(data@)),
            data@.len() % 19 == 0 ==> (r matches Ok(e) && forall|i: int|
                0 <= i < 10 ==> #[trigger] e.0@[i] == if (i + 1) * 19 <= data@.len() {
                    match ItemType::spec_parse(data@.subrange(i * 19, i * 19 + 19)) {
                        Some(typ) => Some(
                            Item::spec_parse(data@.subrange(i * 19, i * 19 + 19), typ),
                        ),
                        None => None,
                    }
                } else {
                    None::<Item>
                }),
    {
        if data.len() % 19 != 0 {
            return Err(SFError::ParsingError("Invalid Equipment", debug_list(data)));
        }
        let mut res = Equipment::default();
        let mut i: usize = 0;
        while i < 10 && (i + 1) * 19 <= data.len()
            invariant
                i <= 10,
                i * 19 <= data@.len(),
                data@.len() % 19 == 0,
                forall|k: int|
                    0 <= k < 10 ==> #[trigger] res.0@[k] == if k < i {
                        match ItemType::spec_parse(data@.subrange(k * 19, k * 19 + 19)) {
                            Some(typ) => Some(
                                Item::spec_parse(data@.subrange(k * 19, k * 19 + 19), typ),
                            ),
                            None => None,
                        }
                    } else {
                        None::<Item>
                    },
            decreases 10 - i,
        {
            let chunk = &data[i * 19..i * 19 + 19];
            assert(chunk@ =~= data@.subrange(i * 19, i * 19 + 19));
            let item = match Item::parse(chunk) {
                Ok(it) => it,
                Err(e) => return Err(e),
            };
            res.0[i] = item;
            i = i + 1;
        }
        Ok(res)
    }
}

} // verus!

verus! {

/// The basic inventory, that every player has.
#[derive(Debug, Clone)]
pub struct Inventory {
    pub backpack: Vec<Option<Item>>,
}

impl Default for Inventory {
    fn default() -> (r: Self)
        ensures
            r.backpack@.len() == 0,
    {
        Inventory { backpack: Vec::new() }
    }
}

/// A position in the backpack.
#[derive(Debug, Clone, Copy, PartialEq, Eq, Structural)]
pub struct BagPosition(pub usize);

/// All the parts of `ItemPlace` that are owned by the player.
#[derive(Debug, Clone, Copy, PartialEq, Eq, Structural, Hash)]
pub enum PlayerItemPlace {
    Equipment,
    MainInventory,
    ExtendedInventory,
}

/// A position of an item anywhere.
#[derive(Debug, Clone, Copy, PartialEq, Eq, Structural)]
pub struct ItemPosition {
    pub place: ItemPlace,
    pub position: usize,
}

/// A position of an item the player owns.
#[derive(Debug, Clone, Copy, PartialEq, Eq, Structural)]
pub struct PlayerItemPosition {
    pub place: PlayerItemPlace,
    pub position: usize,
}

/// The inventories of a player.
#[derive(Debug, Clone, Copy, PartialEq, Eq, Structural, Hash)]
pub enum InventoryType {
    MainInventory,
    ExtendedInventory,
}

/// All places that items can be dragged to, excluding companions.
#[derive(Debug, Clone, Copy, PartialEq, Eq, Structural, Hash)]
pub enum ItemPlace {
    /// The stuff a player can wear
    Equipment,
    /// All items in the main 5 inventory slots
    MainInventory,
    /// The items in the weapon shop
    WeaponShop,
    /// The items in the mage shop
    MageShop,
    /// The items in the fortress chest slots
    FortressChest,
}

impl ItemPlace {
    /// The number the server uses for this place.
    pub fn id(self) -> (r: u32)
        ensures
            r == match self {
                ItemPlace::Equipment => 1u32,
                ItemPlace::MainInventory => 2,
                ItemPlace::WeaponShop => 3,
                ItemPlace::MageShop => 4,
                ItemPlace::FortressChest => 5,
            },
    {
        match self {
            ItemPlace::Equipment => 1,
            ItemPlace::MainInventory => 2,
            ItemPlace::WeaponShop => 3,
            ItemPlace::MageShop => 4,
            ItemPlace::FortressChest => 5,
        }
    }

    /// The place of a shop.
    pub fn from_shop(value: ShopType) -> (r: ItemPlace)
        ensures
            r == match value {
                ShopType::Weapon => ItemPlace::WeaponShop,
                ShopType::Magic => ItemPlace::MageShop,
            },
    {
        match value {
            ShopType::Weapon => ItemPlace::WeaponShop,
            ShopType::Magic => ItemPlace::MageShop,
        }
    }
}

impl InventoryType {
    /// The number the server uses for this inventory.
    pub fn id(self) -> (r: u32)
        ensures
            r == match self {
                InventoryType::MainInventory => 2u32,
                InventoryType::ExtendedInventory => 5,
            },
    {
        match self {
            InventoryType::MainInventory => 2,
            InventoryType::ExtendedInventory => 5,
        }
    }

    /// The item place of this inventory.
    pub fn item_position(&self) -> (r: ItemPlace)
        ensures
            r == match *self {
                InventoryType::MainInventory => ItemPlace::MainInventory,
                InventoryType::ExtendedInventory => ItemPlace::FortressChest,
            },
    {
        match self {
            InventoryType::MainInventory => ItemPlace::MainInventory,
            InventoryType::ExtendedInventory => ItemPlace::FortressChest,
        }
    }

    /// The player item place of this inventory.
    pub open spec fn spec_player_item_position(self) -> PlayerItemPlace {
        match self {
            InventoryType::MainInventory => PlayerItemPlace::MainInventory,
            InventoryType::ExtendedInventory => PlayerItemPlace::ExtendedInventory,
        }
    }

    /// The player item place of this inventory.
    pub fn player_item_position(&self) -> (r: PlayerItemPlace)
        ensures
            r == self.spec_player_item_position(),
    {
        match self {
            InventoryType::MainInventory => PlayerItemPlace::MainInventory,
            InventoryType::ExtendedInventory => PlayerItemPlace::ExtendedInventory,
        }
    }
}

impl PlayerItemPlace {
    /// The item place of this player item place.
    pub open spec fn spec_item_position(self) -> ItemPlace {
        match self {
            PlayerItemPlace::Equipment => ItemPlace::Equipment,
            PlayerItemPlace::MainInventory => ItemPlace::MainInventory,
            PlayerItemPlace::ExtendedInventory => ItemPlace::FortressChest,
        }
    }

    /// The item place of this player item place.
    pub fn item_position(&self) -> (r: ItemPlace)
        ensures
            r == self.spec_item_position(),
    {
        match self {
            PlayerItemPlace::Equipment => ItemPlace::Equipment,
            PlayerItemPlace::MainInventory => ItemPlace::MainInventory,
            PlayerItemPlace::ExtendedInventory => ItemPlace::FortressChest,
        }
    }
}

impl BagPosition {
    /// The 0 based index into the backpack.
    pub fn backpack_pos(&self) -> (r: usize)
        ensures
            r == self.0,
    {
        self.0
    }

    /// The inventory and the position within it: the first five slots are
    /// the main inventory, the rest the extended inventory.
    pub open spec fn spec_inventory_pos(self) -> (InventoryType, usize) {
        if self.0 <= 4 {
            (InventoryType::MainInventory, self.0)
        } else {
            (InventoryType::ExtendedInventory, (self.0 - 5) as usize)
        }
    }

    /// The inventory and the position within it, as commands need them.
    pub fn inventory_pos(&self) -> (r: (InventoryType, usize))
        ensures
            r == self.spec_inventory_pos(),
    {
        let pos = self.0;
        if pos <= 4 {
            (InventoryType::MainInventory, pos)
        } else {
            (InventoryType::ExtendedInventory, pos - 5)
        }
    }
}

impl PlayerItemPosition {
    /// The player item position of a backpack position.
    pub fn from_bag(value: BagPosition) -> (r: PlayerItemPosition)
        ensures
            r == (PlayerItemPosition {
                place: value.spec_inventory_pos().0.spec_player_item_position(),
                position: value.spec_inventory_pos().1,
            }),
    {
        let p = value.inventory_pos();
        PlayerItemPosition { place: p.0.player_item_position(), position: p.1 }
    }

    /// The player item position of an equipment position.
    pub fn from_equipment(value: EquipmentPosition) -> (r: PlayerItemPosition)
        ensures
            r == (PlayerItemPosition { place: PlayerItemPlace::Equipment, position: value.0 }),
    {
        PlayerItemPosition { place: PlayerItemPlace::Equipment, position: value.0 }
    }
}

impl ItemPosition {
    /// The item position of a player item position.
    pub fn from_player(value: PlayerItemPosition) -> (r: ItemPosition)
        ensures
            r == (ItemPosition {
                place: value.place.spec_item_position(),
                position: value.position,
            }),
    {
        ItemPosition { place: value.place.item_position(), position: value.position }
    }

    /// The item position of a backpack position.
    pub fn from_bag(value: BagPosition) -> (r: ItemPosition)
        ensures
            r == (ItemPosition {
                place: value.spec_inventory_pos().0.spec_player_item_position().spec_item_position(),
                position: value.spec_inventory_pos().1,
            }),
    {
        Self::from_player(PlayerItemPosition::from_bag(value))
    }

    /// The item position of an equipment position.
    pub fn from_equipment(value: EquipmentPosition) -> (r: ItemPosition)
        ensures
            r == (ItemPosition { place: ItemPlace::Equipment, position: value.0 }),
    {
        Self::from_player(PlayerItemPosition::from_equipment(value))
    }
}

/// The number of empty slots among the first `n` of a backpack.
pub open spec fn free_count(b: Seq<Option<Item>>, n: int) -> nat
    decreases n,
{
    if n <= 0 {
        0
    } else {
        free_count(b, n - 1) + if b[n - 1] is None { 1nat } else { 0nat }
    }
}

impl Inventory {
    /// Splits the backpack as if it was the old bag/fortress chest layout:
    /// the first five slots and the rest. Both parts are empty where the
    /// backpack has fewer than five slots.
    pub fn as_split(&self) -> (r: (&[Option<Item>], &[Option<Item>]))
        ensures
            self.backpack@.len() < 5 ==> r.0@.len() == 0 && r.1@.len() == 0,
            self.backpack@.len() >= 5 ==> r.0@ == self.backpack@.take(5) && r.1@
                == self.backpack@.skip(5),
    {
        if self.backpack.len() < 5 {
            let e: &[Option<Item>] = &[];
            return (e, e);
        }
        let (a, b) = self.backpack.as_slice().split_at(5);
        assert(a@ =~= self.backpack@.take(5));
        assert(b@ =~= self.backpack@.skip(5));
        (a, b)
    }

    /// Splits the backpack, for changes, as if it was the old bag/fortress
    /// chest layout: the first five slots and the rest. Both parts are empty
    /// where the backpack has fewer than five slots; the backpack then stays
    /// as it is.
    pub fn as_split_mut(&mut self) -> ((bag, chest): (&mut [Option<Item>], &mut [Option<Item>]))
        ensures
            old(self).backpack@.len() < 5 ==> bag@.len() == 0 && chest@.len() == 0,
            old(self).backpack@.len() < 5 ==> final(self).backpack@ == final(bag)@ + final(chest)@
                + old(self).backpack@,
            old(self).backpack@.len() >= 5 ==> bag@ == old(self).backpack@.take(5),
            old(self).backpack@.len() >= 5 ==> chest@ == old(self).backpack@.skip(5),
            old(self).backpack@.len() >= 5 ==> final(self).backpack@ == final(bag)@ + final(chest)@,
    {
        if self.backpack.len() < 5 {
            let all = self.backpack.as_mut_slice();
            let (a, rest) = all.split_at_mut(0);
            let (b, tail) = rest.split_at_mut(0);
            return (a, b);
        }
        let all = self.backpack.as_mut_slice();
        all.split_at_mut(5)
    }

    /// A backpack position without an item, if any: the first one.
    pub fn free_slot(&self) -> (r: Option<BagPosition>)
        ensures
            r matches Some(p) ==> p.0 < self.backpack@.len() && self.backpack@[p.0 as int] is None
                && forall|k: int| 0 <= k < p.0 ==> #[trigger] self.backpack@[k] is Some,
            r is None ==> forall|k: int|
                0 <= k < self.backpack@.len() ==> #[trigger] self.backpack@[k] is Some,
    {
        let mut i: usize = 0;
        while i < self.backpack.len()
            invariant
                i <= self.backpack@.len(),
                forall|k: int| 0 <= k < i ==> #[trigger] self.backpack@[k] is Some,
            decreases self.backpack@.len() - i,
        {
            if self.backpack[i].is_none() {
                return Some(BagPosition(i));
            }
            i = i + 1;
        }
        None
    }

    /// The number of backpack slots without an item.
    pub fn count_free_slots(&self) -> (r: usize)
        ensures
            r == free_count(self.backpack@, self.backpack@.len() as int),
    {
        let mut i: usize = 0;
        let mut c: usize = 0;
        while i < self.backpack.len()
            invariant
                i <= self.backpack@.len(),
                c == free_count(self.backpack@, i as int),
                c <= i,
            decreases self.backpack@.len() - i,
        {
            if self.backpack[i].is_none() {
                c = c + 1;
            }
            i = i + 1;
        }
        c
    }

    /// The backpack positions with the items in them, in order.
    pub fn iter(&self) -> (r: Vec<(BagPosition, Option<Item>)>)
        ensures
            r@.len() == self.backpack@.len(),
            forall|i: int|
                0 <= i < r@.len() ==> #[trigger] r@[i] == (BagPosition(i as usize), self.backpack@[i]),
    {
        let mut r: Vec<(BagPosition, Option<Item>)> = Vec::new();
        let mut i: usize = 0;
        while i < self.backpack.len()
            invariant
                i <= self.backpack@.len(),
                r@.len() == i,
                forall|k: int| 0 <= k < i ==> #[trigger] r@[k] == (BagPosition(k as usize), self.backpack@[k]),
            decreases self.backpack@.len() - i,
        {
            r.push((BagPosition(i), self.backpack[i]));
            i = i + 1;
        }
        r
    }
}

} // verus!

verus! {

impl From<AttributeType> for PotionType {
    fn from(value: AttributeType) -> (r: PotionType) {
        PotionType::from_attribute(value)
    }
}

impl vstd::std_specs::convert::FromSpecImpl<AttributeType> for PotionType {
    open spec fn obeys_from_spec() -> bool {
        true
    }

    open spec fn from_spec(value: AttributeType) -> PotionType {
        match value {
            AttributeType::Strength => PotionType::Strength,
            AttributeType::Dexterity => PotionType::Dexterity,
            AttributeType::Intelligence => PotionType::Intelligence,
            AttributeType::Constitution => PotionType::Constitution,
            AttributeType::Luck => PotionType::Luck,
        }
    }
}

impl From<PlayerItemPosition> for ItemPosition {
    fn from(value: PlayerItemPosition) -> (r: ItemPosition) {
        ItemPosition::from_player(value)
    }
}

impl vstd::std_specs::convert::FromSpecImpl<PlayerItemPosition> for ItemPosition {
    open spec fn obeys_from_spec() -> bool {
        true
    }

    open spec fn from_spec(value: PlayerItemPosition) -> ItemPosition {
        ItemPosition { place: value.place.spec_item_position(), position: value.position }
    }
}

impl From<BagPosition> for ItemPosition {
    fn from(value: BagPosition) -> (r: ItemPosition) {
        ItemPosition::from_bag(value)
    }
}

impl vstd::std_specs::convert::FromSpecImpl<BagPosition> for ItemPosition {
    open spec fn obeys_from_spec() -> bool {
        true
    }

    open spec fn from_spec(value: BagPosition) -> ItemPosition {
        ItemPosition {
            place: value.spec_inventory_pos().0.spec_player_item_position().spec_item_position(),
            position: value.spec_inventory_pos().1,
        }
    }
}

impl From<EquipmentPosition> for ItemPosition {
    fn from(value: EquipmentPosition) -> (r: ItemPosition) {
        ItemPosition::from_equipment(value)
    }
}

impl vstd::std_specs::convert::FromSpecImpl<EquipmentPosition> for ItemPosition {
    open spec fn obeys_from_spec() -> bool {
        true
    }

    open spec fn from_spec(value: EquipmentPosition) -> ItemPosition {
        ItemPosition { place: ItemPlace::Equipment, position: value.0 }
    }
}

impl From<ShopType> for ItemPlace {
    fn from(value: ShopType) -> (r: ItemPlace) {
        ItemPlace::from_shop(value)
    }
}

impl vstd::std_specs::convert::FromSpecImpl<ShopType> for ItemPlace {
    open spec fn obeys_from_spec() -> bool {
        true
    }

    open spec fn from_spec(value: ShopType) -> ItemPlace {
        match value {
            ShopType::Weapon => ItemPlace::WeaponShop,
            ShopType::Magic => ItemPlace::MageShop,
        }
    }
}

impl From<BagPosition> for PlayerItemPosition {
    fn from(value: BagPosition) -> (r: PlayerItemPosition) {
        PlayerItemPosition::from_bag(value)
    }
}

impl vstd::std_specs::convert::FromSpecImpl<BagPosition> for PlayerItemPosition {
    open spec fn obeys_from_spec() -> bool {
        true
    }

    open spec fn from_spec(value: BagPosition) -> PlayerItemPosition {
        PlayerItemPosition {
            place: value.spec_inventory_pos().0.spec_player_item_position(),
            position: value.spec_inventory_pos().1,
        }
    }
}

impl From<EquipmentPosition> for PlayerItemPosition {
    fn from(value: EquipmentPosition) -> (r: PlayerItemPosition) {
        PlayerItemPosition::from_equipment(value)
    }
}

impl vstd::std_specs::convert::FromSpecImpl<EquipmentPosition> for PlayerItemPosition {
    open spec fn obeys_from_spec() -> bool {
        true
    }

    open spec fn from_spec(value: EquipmentPosition) -> PlayerItemPosition {
        PlayerItemPosition { place: PlayerItemPlace::Equipment, position: value.0 }
    }
}

} // verus!

verus! {

impl PotionSize {
    /// The place of this size in the order of the potions' effects:
    /// small, medium, large.
    pub open spec fn effect_rank(self) -> int {
        match self {
            PotionSize::Small => 0,
            PotionSize::Medium => 1,
            PotionSize::Large => 2,
        }
    }

    fn rank(&self) -> (r: u8)
        ensures
            r == self.effect_rank(),
    {
        match self {
            PotionSize::Small => 0,
            PotionSize::Medium => 1,
            PotionSize::Large => 2,
        }
    }
}

impl PartialOrd for PotionSize {
    fn partial_cmp(&self, other: &Self) -> (r: Option<core::cmp::Ordering>) {
        let a = self.rank();
        let b = other.rank();
        if a < b {
            Some(core::cmp::Ordering::Less)
        } else if a == b {
            Some(core::cmp::Ordering::Equal)
        } else {
            Some(core::cmp::Ordering::Greater)
        }
    }
}

impl vstd::std_specs::cmp::PartialOrdSpecImpl for PotionSize {
    open spec fn obeys_partial_cmp_spec() -> bool {
        true
    }

    open spec fn partial_cmp_spec(&self, other: &Self) -> Option<core::cmp::Ordering> {
        if self.effect_rank() < other.effect_rank() {
            Some(core::cmp::Ordering::Less)
        } else if self.effect_rank() == other.effect_rank() {
            Some(core::cmp::Ordering::Equal)
        } else {
            Some(core::cmp::Ordering::Greater)
        }
    }
}

} // verus!

verus! {

/// The values of an item come from fixed positions of its data: the value
/// that depends on the type at 5, the enchantment at 2, the silver price at
/// 13 and the mushroom price at 14 (both `u32::MAX` where they do not fit),
/// the upgrades at 15, the quality at 17 and whether it was washed at 18.
pub proof fn lemma_item_values(d: Seq<i64>, typ: ItemType)
    ensures
        Item::spec_parse(d, typ).typ == typ,
        Item::spec_parse(d, typ).type_specific_val == soft_u32(d[5], 0),
        Item::spec_parse(d, typ).enchantment == Enchantment::spec_from_i64(d[2]),
        Item::spec_parse(d, typ).price == soft_u32(d[13], u32::MAX),
        Item::spec_parse(d, typ).mushroom_price == soft_u32(d[14], u32::MAX),
        Item::spec_parse(d, typ).upgrade_count == soft_u8(d[15], u8::MAX),
        Item::spec_parse(d, typ).item_quality == soft_u32(d[17], 0),
        Item::spec_parse(d, typ).is_washed == (soft_i32(d[18], 0) != 0),
{
}

/// An item that `Item::parse` reads from 19 values or more is the one its
/// data describes, with its prices from positions 13 (silver) and 14
/// (mushrooms).
pub proof fn lemma_parsed_item_prices(d: Seq<i64>, r: Option<Item>)
    requires
        d.len() >= ITEM_PARSE_LEN,
        r == match ItemType::spec_parse(d) {
            Some(typ) => Some(Item::spec_parse(d, typ)),
            None => None,
        },
    ensures
        r matches Some(it) ==> it.price == soft_u32(d[13], u32::MAX) && it.mushroom_price
            == soft_u32(d[14], u32::MAX),
        r is Some <==> ItemType::spec_parse(d) is Some,
{
}

} // verus!
