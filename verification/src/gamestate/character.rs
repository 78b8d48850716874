use vstd::prelude::*;

use crate::command::{AttributeMap, AttributeType};
use crate::gamestate::items::{Equipment, Inventory, Potion};
use crate::gamestate::social::RelationEntry;
use crate::gamestate::unlockables::{Mirror, ScrapBook};
use crate::PlayerId;
use crate::error::{SFError, short_err};
use crate::gamestate::NormalCost;
use crate::misc::{soft_u8, csiget_u8, cget, soft_into_u8, tdiv, trem};

verus! {

/// The gender of a character.
#[derive(Debug, Clone, Copy, PartialEq, Eq, Structural, Hash)]
pub enum Gender {
    Female,
    Male,
}

impl Gender {
    /// The gender with the number the server uses for it.
    pub open spec fn spec_from_i64(v: i64) -> Option<Gender> {
        if v == 0 {
            Some(Gender::Female)
        } else if v == 1 {
            Some(Gender::Male)
        } else {
            None
        }
    }

    /// The gender with the number the server uses for it.
    pub fn from_i64(v: i64) -> (r: Option<Gender>)
        ensures
            r == Self::spec_from_i64(v),
    {
        match v {
            0 => Some(Gender::Female),
            1 => Some(Gender::Male),
            _ => None,
        }
    }
}

impl Default for Gender {
    fn default() -> (r: Self)
        ensures
            r == Gender::Female,
    {
        Gender::Female
    }
}

/// The class of a character.
#[derive(Debug, Clone, Copy, PartialEq, Eq, Structural, Hash)]
pub enum Class {
    Warrior,
    Mage,
    Scout,
    Assassin,
    BattleMage,
    Berserker,
    DemonHunter,
    Druid,
    Bard,
    Necromancer,
    Paladin,
    PlagueDoctor,
}

impl Default for Class {
    fn default() -> (r: Self)
        ensures
            r == Class::Warrior,
    {
        Class::Warrior
    }
}

impl Class {
    /// The number the server uses for this class, counted from 0.
    pub open spec fn spec_index(self) -> int {
        match self {
            Class::Warrior => 0,
            Class::Mage => 1,
            Class::Scout => 2,
            Class::Assassin => 3,
            Class::BattleMage => 4,
            Class::Berserker => 5,
            Class::DemonHunter => 6,
            Class::Druid => 7,
            Class::Bard => 8,
            Class::Necromancer => 9,
            Class::Paladin => 10,
            Class::PlagueDoctor => 11,
        }
    }

    /// The number the server uses for this class, counted from 0.
    pub fn index(self) -> (r: u8)
        ensures
            r == self.spec_index(),
    {
        match self {
            Class::Warrior => 0,
            Class::Mage => 1,
            Class::Scout => 2,
            Class::Assassin => 3,
            Class::BattleMage => 4,
            Class::Berserker => 5,
            Class::DemonHunter => 6,
            Class::Druid => 7,
            Class::Bard => 8,
            Class::Necromancer => 9,
            Class::Paladin => 10,
            Class::PlagueDoctor => 11,
        }
    }

    /// The class with the given number, counted from 0.
    pub open spec fn spec_from_i64(v: i64) -> Option<Class> {
        if v == 0 {
            Some(Class::Warrior)
        } else if v == 1 {
            Some(Class::Mage)
        } else if v == 2 {
            Some(Class::Scout)
        } else if v == 3 {
            Some(Class::Assassin)
        } else if v == 4 {
            Some(Class::BattleMage)
        } else if v == 5 {
            Some(Class::Berserker)
        } else if v == 6 {
            Some(Class::DemonHunter)
        } else if v == 7 {
            Some(Class::Druid)
        } else if v == 8 {
            Some(Class::Bard)
        } else if v == 9 {
            Some(Class::Necromancer)
        } else if v == 10 {
            Some(Class::Paladin)
        } else if v == 11 {
            Some(Class::PlagueDoctor)
        } else {
            None
        }
    }

    /// The class with the given number, counted from 0.
    pub fn from_i64(v: i64) -> (r: Option<Class>)
        ensures
            r == Self::spec_from_i64(v),
            r matches Some(c) ==> c.spec_index() == v,
    {
        match v {
            0 => Some(Class::Warrior),
            1 => Some(Class::Mage),
            2 => Some(Class::Scout),
            3 => Some(Class::Assassin),
            4 => Some(Class::BattleMage),
            5 => Some(Class::Berserker),
            6 => Some(Class::DemonHunter),
            7 => Some(Class::Druid),
            8 => Some(Class::Bard),
            9 => Some(Class::Necromancer),
            10 => Some(Class::Paladin),
            11 => Some(Class::PlagueDoctor),
            _ => None,
        }
    }

    /// The attribute that determines the damage of this class.
    pub fn main_attribute(&self) -> (r: AttributeType)
        ensures
            r == match *self {
                Class::Paladin | Class::BattleMage | Class::Berserker | Class::Warrior => {
                    AttributeType::Strength
                },
                Class::Assassin | Class::DemonHunter | Class::Scout | Class::PlagueDoctor => {
                    AttributeType::Dexterity
                },
                Class::Druid | Class::Bard | Class::Necromancer | Class::Mage => {
                    AttributeType::Intelligence
                },
            },
    {
        match self {
            Class::Paladin | Class::BattleMage | Class::Berserker | Class::Warrior => {
                AttributeType::Strength
            },
            Class::Assassin | Class::DemonHunter | Class::Scout | Class::PlagueDoctor => {
                AttributeType::Dexterity
            },
            Class::Druid | Class::Bard | Class::Necromancer | Class::Mage => {
                AttributeType::Intelligence
            },
        }
    }

    /// The armor multiplier a monster of this class has.
    pub fn monster_armor_multiplier(self) -> (r: u32)
        ensures
            r == match self {
                Class::Warrior | Class::Berserker | Class::DemonHunter => 50u32,
                Class::Paladin => 45,
                Class::Scout | Class::Assassin | Class::Druid | Class::Bard
                | Class::PlagueDoctor => 25,
                Class::Mage | Class::BattleMage | Class::Necromancer => 10,
            },
    {
        match self {
            Class::Warrior | Class::Berserker | Class::DemonHunter => 50,
            Class::Paladin => 45,
            Class::Scout | Class::Assassin | Class::Druid | Class::Bard | Class::PlagueDoctor => 25,
            Class::Mage | Class::BattleMage | Class::Necromancer => 10,
        }
    }

    /// Whether a character of this class can wear a shield.
    pub fn can_wear_shield(self) -> (r: bool)
        ensures
            r <==> (self == Class::Paladin || self == Class::Warrior),
    {
        match self {
            Class::Paladin | Class::Warrior => true,
            _ => false,
        }
    }
}

/// The race of a character.
#[derive(Debug, Clone, Copy, PartialEq, Eq, Structural, Hash)]
pub enum Race {
    Human,
    Elf,
    Dwarf,
    Gnome,
    Orc,
    DarkElf,
    Goblin,
    Demon,
}

impl Default for Race {
    fn default() -> (r: Self)
        ensures
            r == Race::Human,
    {
        Race::Human
    }
}

impl Race {
    /// The number the server uses for this race (1 to 8).
    pub open spec fn spec_id(self) -> int {
        match self {
            Race::Human => 1,
            Race::Elf => 2,
            Race::Dwarf => 3,
            Race::Gnome => 4,
            Race::Orc => 5,
            Race::DarkElf => 6,
            Race::Goblin => 7,
            Race::Demon => 8,
        }
    }

    /// The number the server uses for this race (1 to 8).
    pub fn id(self) -> (r: u8)
        ensures
            r == self.spec_id(),
    {
        match self {
            Race::Human => 1,
            Race::Elf => 2,
            Race::Dwarf => 3,
            Race::Gnome => 4,
            Race::Orc => 5,
            Race::DarkElf => 6,
            Race::Goblin => 7,
            Race::Demon => 8,
        }
    }

    /// The race with the number the server uses for it.
    pub open spec fn spec_from_i64(v: i64) -> Option<Race> {
        if v == 1 {
            Some(Race::Human)
        } else if v == 2 {
            Some(Race::Elf)
        } else if v == 3 {
            Some(Race::Dwarf)
        } else if v == 4 {
            Some(Race::Gnome)
        } else if v == 5 {
            Some(Race::Orc)
        } else if v == 6 {
            Some(Race::DarkElf)
        } else if v == 7 {
            Some(Race::Goblin)
        } else if v == 8 {
            Some(Race::Demon)
        } else {
            None
        }
    }

    /// The race with the number the server uses for it.
    pub fn from_i64(v: i64) -> (r: Option<Race>)
        ensures
            r == Self::spec_from_i64(v),
            r matches Some(x) ==> x.spec_id() == v,
    {
        match v {
            1 => Some(Race::Human),
            2 => Some(Race::Elf),
            3 => Some(Race::Dwarf),
            4 => Some(Race::Gnome),
            5 => Some(Race::Orc),
            6 => Some(Race::DarkElf),
            7 => Some(Race::Goblin),
            8 => Some(Race::Demon),
            _ => None,
        }
    }

    /// The attribute boni the game claims to give to each race, in the order
    /// of `AttributeType`.
    pub fn stat_modifiers(self) -> (r: [i32; 5])
        ensures
            r@ == match self {
                Race::Human => seq![0i32, 0i32, 0i32, 0i32, 0i32],
                Race::Elf => seq![-1i32, 2i32, 0i32, -1i32, 0i32],
                Race::Dwarf => seq![0i32, -2i32, -1i32, 2i32, 1i32],
                Race::Gnome => seq![-2i32, 3i32, -1i32, -1i32, 1i32],
                Race::Orc => seq![1i32, 0i32, -1i32, 0i32, 0i32],
                Race::DarkElf => seq![-2i32, 2i32, 1i32, -1i32, 0i32],
                Race::Goblin => seq![-2i32, 2i32, 0i32, -1i32, 1i32],
                Race::Demon => seq![3i32, -1i32, 0i32, 1i32, -3i32],
            },
    {
        let r = match self {
            Race::Human => [0, 0, 0, 0, 0],
            Race::Elf => [-1, 2, 0, -1, 0],
            Race::Dwarf => [0, -2, -1, 2, 1],
            Race::Gnome => [-2, 3, -1, -1, 1],
            Race::Orc => [1, 0, -1, 0, 0],
            Race::DarkElf => [-2, 2, 1, -1, 0],
            Race::Goblin => [-2, 2, 0, -1, 1],
            Race::Demon => [3, -1, 0, 1, -3],
        };
        assert(r@ =~= match self {
            Race::Human => seq![0i32, 0i32, 0i32, 0i32, 0i32],
            Race::Elf => seq![-1i32, 2i32, 0i32, -1i32, 0i32],
            Race::Dwarf => seq![0i32, -2i32, -1i32, 2i32, 1i32],
            Race::Gnome => seq![-2i32, 3i32, -1i32, -1i32, 1i32],
            Race::Orc => seq![1i32, 0i32, -1i32, 0i32, 0i32],
            Race::DarkElf => seq![-2i32, 2i32, 1i32, -1i32, 0i32],
            Race::Goblin => seq![-2i32, 2i32, 0i32, -1i32, 1i32],
            Race::Demon => seq![3i32, -1i32, 0i32, 1i32, -3i32],
        });
        r
    }
}

/// A mount, that makes travelling faster.
#[derive(Debug, Clone, Copy, PartialEq, Eq, Structural, Hash)]
pub enum Mount {
    Cow,
    Horse,
    Tiger,
    Dragon,
}

impl Mount {
    /// The mount with the number the server uses for it (1 to 4).
    pub open spec fn spec_from_i64(v: i64) -> Option<Mount> {
        if v == 1 {
            Some(Mount::Cow)
        } else if v == 2 {
            Some(Mount::Horse)
        } else if v == 3 {
            Some(Mount::Tiger)
        } else if v == 4 {
            Some(Mount::Dragon)
        } else {
            None
        }
    }

    /// The mount with the number the server uses for it (1 to 4).
    pub fn from_i64(v: i64) -> (r: Option<Mount>)
        ensures
            r == Self::spec_from_i64(v),
    {
        match v {
            1 => Some(Mount::Cow),
            2 => Some(Mount::Horse),
            3 => Some(Mount::Tiger),
            4 => Some(Mount::Dragon),
            _ => None,
        }
    }

    /// The cost of this mount.
    pub fn cost(&self) -> (r: NormalCost)
        ensures
            r == match *self {
                Mount::Cow => NormalCost { silver: 100, mushrooms: 0 },
                Mount::Horse => NormalCost { silver: 500, mushrooms: 0 },
                Mount::Tiger => NormalCost { silver: 1000, mushrooms: 1 },
                Mount::Dragon => NormalCost { silver: 0, mushrooms: 25 },
            },
    {
        match self {
            Mount::Cow => NormalCost { silver: 100, mushrooms: 0 },
            Mount::Horse => NormalCost { silver: 500, mushrooms: 0 },
            Mount::Tiger => NormalCost { silver: 1000, mushrooms: 1 },
            Mount::Dragon => NormalCost { silver: 0, mushrooms: 25 },
        }
    }
}

/// All the purely cosmetic values that make up a character's portrait.
#[derive(Debug, Clone, Copy, PartialEq, Eq, Structural)]
pub struct Portrait {
    /// The gender (m/w)
    pub gender: Gender,
    pub hair_color: u8,
    pub hair: u8,
    pub mouth: u8,
    pub brows: u8,
    pub eyes: u8,
    pub beards: u8,
    pub nose: u8,
    pub ears: u8,
    pub extra: u8,
    pub horns: u8,
    /// Influencers get a special portrait. Otherwise this should be 0
    pub special_portrait: i64,
}

impl Default for Portrait {
    fn default() -> (r: Self)
        ensures
            r == (Portrait {
                gender: Gender::Female,
                hair_color: 0,
                hair: 0,
                mouth: 0,
                brows: 0,
                eyes: 0,
                beards: 0,
                nose: 0,
                ears: 0,
                extra: 0,
                horns: 0,
                special_portrait: 0,
            }),
    {
        Portrait {
            gender: Gender::Female,
            hair_color: 0,
            hair: 0,
            mouth: 0,
            brows: 0,
            eyes: 0,
            beards: 0,
            nose: 0,
            ears: 0,
            extra: 0,
            horns: 0,
            special_portrait: 0,
        }
    }
}

impl Portrait {
    /// The portrait that the values `d[0..12]` of a player save describe.
    pub open spec fn spec_parse(d: Seq<i64>) -> Portrait {
        Portrait {
            mouth: soft_u8(d[0], 1),
            hair_color: soft_u8(tdiv(d[1] as int, 100) as i64, 100),
            hair: soft_u8(trem(d[1] as int, 100) as i64, 1),
            brows: soft_u8(trem(d[2] as int, 100) as i64, 1),
            eyes: soft_u8(d[3], 1),
            beards: soft_u8(trem(d[4] as int, 100) as i64, 1),
            nose: soft_u8(d[5], 1),
            ears: soft_u8(d[6], 1),
            extra: soft_u8(d[7], 1),
            horns: soft_u8(trem(d[8] as int, 100) as i64, 1),
            special_portrait: d[9],
            gender: if soft_u8(trem(d[11] as int, 2) as i64, 1) == 1 {
                Gender::Male
            } else {
                Gender::Female
            },
        }
    }

    /// Parses a portrait from the values at the start of `data`. Remainders
    /// and quotients are those of Rust's `%` and `/` on `i64`.
    pub fn parse(data: &[i64]) -> (r: Result<Portrait, SFError>)
        ensures
            data@.len() >= 12 ==> r == Ok::<Portrait, SFError>(
                Self::spec_parse(data@),
            ),
            data@.len() < 12 ==> r is Err,
    {
        let mouth = csiget_u8(data, 0, "mouth", 1)?;
        let raw1 = cget(data, 1, "hair color")?;
        let hair_color = soft_into_u8(raw1 / 100, "hair color", 100);
        let hair = soft_into_u8(raw1 % 100, "hair", 1);
        let raw2 = cget(data, 2, "brows")?;
        let brows = soft_into_u8(raw2 % 100, "brows", 1);
        let eyes = csiget_u8(data, 3, "eyes", 1)?;
        let raw4 = cget(data, 4, "beards")?;
        let beards = soft_into_u8(raw4 % 100, "beards", 1);
        let nose = csiget_u8(data, 5, "nose", 1)?;
        let ears = csiget_u8(data, 6, "ears", 1)?;
        let extra = csiget_u8(data, 7, "extra", 1)?;
        let raw8 = cget(data, 8, "horns")?;
        let horns = soft_into_u8(raw8 % 100, "horns", 1);
        let special_portrait = cget(data, 9, "special portrait")?;
        let raw11 = cget(data, 11, "gender")?;
        let g = soft_into_u8(raw11 % 2, "gender", 1);
        let gender = match Gender::from_i64(g as i64) {
            Some(g) => g,
            None => Gender::Female,
        };
        Ok(Portrait {
            mouth,
            hair_color,
            hair,
            brows,
            eyes,
            beards,
            nose,
            ears,
            extra,
            horns,
            special_portrait,
            gender,
        })
    }
}

/// Everything that can be considered part of the character and not the rest
/// of the world.
#[derive(Debug, Clone)]
pub struct Character {
    /// The unique identifier of this character
    pub player_id: PlayerId,
    /// The name of this character
    pub name: String,
    /// The current level of this character
    pub level: u16,
    /// The amount of silver a player has. 100 silver = 1 gold
    pub silver: u64,
    /// The amount of mushrooms a player has
    pub mushrooms: u32,
    /// The class of this character
    pub class: Class,
    /// The race of this character
    pub race: Race,
    /// Everything that determines the looks of the player except the race
    pub portrait: Portrait,
    /// The description of this character
    pub description: String,
    /// The amount of experience already earned in the current level
    pub experience: u64,
    /// The amount of experience required to level up
    pub next_level_xp: u64,
    /// The amount of honor earned through the arena
    pub honor: u32,
    /// The rank in the hall of fame
    pub rank: u32,
    /// All the items this character has stored
    pub inventory: Inventory,
    /// All items the character has currently equipped
    pub equipment: Equipment,
    /// The equipment stored in the manequin, if the character has one
    pub manequin: Option<Equipment>,
    /// The potions currently active
    pub active_potions: [Option<Potion>; 3],
    /// The total armor of the character
    pub armor: u64,
    /// The min amount of damage the weapon claims it can do without any bonus
    pub min_damage: u32,
    /// The max amount of damage the weapon claims it can do without any bonus
    pub max_damage: u32,
    /// The base attributes without any equipment, or other boosts
    pub attribute_basis: AttributeMap,
    /// All bonus attributes from equipment/pets/potions
    pub attribute_additions: AttributeMap,
    /// The amount of times an attribute has been bought already
    pub attribute_times_bought: AttributeMap,
    /// The mount this character has rented
    pub mount: Option<Mount>,
    /// The point at which the mount will end
    pub mount_end: Option<i64>,
    /// The silver you get for buying a dragon
    pub mount_dragon_refund: u64,
    /// Whether the mirror is completed, or still collecting pieces
    pub mirror: Mirror,
    /// The scrapbook, once it has been unlocked
    pub scrapbook: Option<ScrapBook>,
    /// Other characters that have some special relation to this one
    pub relations: Vec<RelationEntry>,
}

impl Default for Character {
    fn default() -> (r: Self)
        ensures
            r.player_id == 0,
            r.name@.len() == 0,
            r.level == 0,
            r.silver == 0,
            r.mushrooms == 0,
            r.description@.len() == 0,
            r.manequin is None,
            r.mount is None,
            r.mount_end is None,
            r.scrapbook is None,
            r.relations@.len() == 0,
            r.inventory.backpack@.len() == 0,
    {
        Character {
            player_id: 0,
            name: String::new(),
            level: 0,
            silver: 0,
            mushrooms: 0,
            class: Class::default(),
            race: Race::default(),
            portrait: Portrait::default(),
            description: String::new(),
            experience: 0,
            next_level_xp: 0,
            honor: 0,
            rank: 0,
            inventory: Inventory::default(),
            equipment: Equipment::default(),
            manequin: None,
            active_potions: [None, None, None],
            armor: 0,
            min_damage: 0,
            max_damage: 0,
            attribute_basis: [0, 0, 0, 0, 0],
            attribute_additions: [0, 0, 0, 0, 0],
            attribute_times_bought: [0, 0, 0, 0, 0],
            mount: None,
            mount_end: None,
            mount_dragon_refund: 0,
            mirror: Mirror::default(),
            scrapbook: None,
            relations: Vec::new(),
        }
    }
}

} // verus!
