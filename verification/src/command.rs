use vstd::prelude::*;
use vstd::utf8::encode_utf8;

use crate::error::SFError;
use crate::gamestate::character::{Class, Gender, Mount, Race};
use crate::gamestate::dungeons::{CompanionClass, Dungeon, LightDungeon, ShadowDungeon};
use crate::gamestate::fortress::{FortressBuildingType, FortressResourceType, FortressUnitType};
use crate::gamestate::guild::{Emblem, GuildSkill};
use crate::gamestate::idle::IdleBuildingType;
use crate::gamestate::items::{EquipmentSlot, InventoryType, ItemPlace, PlayerItemPlace};
use crate::gamestate::social::Relationship;
use crate::gamestate::underworld::{UnderWorldResourceType, UnderworldBuildingType, UnderworldUnitType};
use crate::gamestate::unlockables::{EnchantmentIdent, HabitatType, HellevatorTreatType, Unlockable};
use crate::misc::{
    sf_escaped, chars_of, decimal_text, hex_lower, i64_to_string, push_char, push_decimal,
    push_str, sf_codes, sf_plain, sha1_hash, sha1_of, signed_decimal_text, string_views,
    to_sf_string, u64_to_string, HASH_CONST,
};
use crate::PlayerId;

verus! {

/// This is the "Questing instead of expeditions" value in the settings.
#[derive(Debug, Clone, Copy, PartialEq, Eq, Structural)]
pub enum ExpeditionSetting {
    /// Expeditions are started when available; questing is disabled meanwhile.
    PreferExpeditions,
    /// Expeditions are ignored when available.
    PreferQuests,
}

impl Default for ExpeditionSetting {
    fn default() -> (r: Self)
        ensures
            r == ExpeditionSetting::PreferQuests,
    {
        ExpeditionSetting::PreferQuests
    }
}

/// What the blacksmith should do with an item.
#[derive(Debug, Clone, Copy, PartialEq, Eq, Structural)]
pub enum BlacksmithAction {
    Dismantle,
    SocketUpgrade,
    SocketUpgradeWithMushrooms,
    GemExtract,
    GemExtractWithMushrooms,
    Upgrade,
}

impl BlacksmithAction {
    /// The number the server uses for this action.
    pub fn id(self) -> (r: u32)
        ensures
            r == match self {
                BlacksmithAction::Dismantle => 201u32,
                BlacksmithAction::SocketUpgrade => 202,
                BlacksmithAction::SocketUpgradeWithMushrooms => 212,
                BlacksmithAction::GemExtract => 203,
                BlacksmithAction::GemExtractWithMushrooms => 213,
                BlacksmithAction::Upgrade => 204,
            },
    {
        match self {
            BlacksmithAction::Dismantle => 201,
            BlacksmithAction::SocketUpgrade => 202,
            BlacksmithAction::SocketUpgradeWithMushrooms => 212,
            BlacksmithAction::GemExtract => 203,
            BlacksmithAction::GemExtractWithMushrooms => 213,
            BlacksmithAction::Upgrade => 204,
        }
    }
}

/// How a spin of the wheel of fortune is paid for.
#[derive(Debug, Clone, Copy, PartialEq, Eq, Structural)]
pub enum FortunePayment {
    LuckyCoins,
    Mushrooms,
    FreeTurn,
}

/// The price you have to pay to roll the dice.
#[derive(Debug, Clone, Copy, PartialEq, Eq, Structural)]
pub enum RollDicePrice {
    Free,
    Mushrooms,
    Hourglass,
}

/// The type of a dice.
#[derive(Debug, Clone, Copy, PartialEq, Eq, Structural)]
pub enum DiceType {
    /// Discard whatever dice was previously at this position.
    ReRoll,
    Silver,
    Stone,
    Wood,
    Souls,
    Arcane,
    Hourglass,
}

impl DiceType {
    /// The dice type with the number the server uses for it.
    pub open spec fn spec_from_i64(v: i64) -> Option<DiceType> {
        if v == 0 {
            Some(DiceType::ReRoll)
        } else if v == 1 {
            Some(DiceType::Silver)
        } else if v == 2 {
            Some(DiceType::Stone)
        } else if v == 3 {
            Some(DiceType::Wood)
        } else if v == 4 {
            Some(DiceType::Souls)
        } else if v == 5 {
            Some(DiceType::Arcane)
        } else if v == 6 {
            Some(DiceType::Hourglass)
        } else {
            None
        }
    }

    /// The dice type with the number the server uses for it.
    pub fn from_i64(v: i64) -> (r: Option<DiceType>)
        ensures
            r == Self::spec_from_i64(v),
    {
        match v {
            0 => Some(DiceType::ReRoll),
            1 => Some(DiceType::Silver),
            2 => Some(DiceType::Stone),
            3 => Some(DiceType::Wood),
            4 => Some(DiceType::Souls),
            5 => Some(DiceType::Arcane),
            6 => Some(DiceType::Hourglass),
            _ => None,
        }
    }
}

/// The reward of a game of dice.
#[derive(Debug, Clone, Copy, PartialEq, Eq, Structural)]
pub struct DiceReward {
    /// The resource you have won
    pub win_typ: DiceType,
    /// The amount of the resource you have won
    pub amount: u32,
}

/// A type of attribute.
#[derive(Debug, Clone, Copy, PartialEq, Eq, Structural, Hash)]
pub enum AttributeType {
    Strength,
    Dexterity,
    Intelligence,
    Constitution,
    Luck,
}

/// One value per attribute, in the order Strength, Dexterity, Intelligence,
/// Constitution, Luck.
pub type AttributeMap = [u32; 5];

impl AttributeType {
    /// The position of this attribute in an `AttributeMap`.
    pub open spec fn spec_index(self) -> int {
        match self {
            AttributeType::Strength => 0,
            AttributeType::Dexterity => 1,
            AttributeType::Intelligence => 2,
            AttributeType::Constitution => 3,
            AttributeType::Luck => 4,
        }
    }

    /// The position of this attribute in an `AttributeMap`.
    pub fn index(self) -> (r: usize)
        ensures
            r == self.spec_index(),
            r < 5,
    {
        match self {
            AttributeType::Strength => 0,
            AttributeType::Dexterity => 1,
            AttributeType::Intelligence => 2,
            AttributeType::Constitution => 3,
            AttributeType::Luck => 4,
        }
    }

    /// The number the server uses for this attribute (1 to 5).
    pub open spec fn spec_id(self) -> u32 {
        (self.spec_index() + 1) as u32
    }

    /// The number the server uses for this attribute (1 to 5).
    pub fn id(self) -> (r: u32)
        ensures
            r == self.spec_id(),
    {
        self.index() as u32 + 1
    }

    /// The attribute with the number the server uses for it (1 to 5).
    pub open spec fn spec_from_i64(v: i64) -> Option<AttributeType> {
        if v == 1 {
            Some(AttributeType::Strength)
        } else if v == 2 {
            Some(AttributeType::Dexterity)
        } else if v == 3 {
            Some(AttributeType::Intelligence)
        } else if v == 4 {
            Some(AttributeType::Constitution)
        } else if v == 5 {
            Some(AttributeType::Luck)
        } else {
            None
        }
    }

    /// The attribute with the number the server uses for it (1 to 5).
    pub fn from_i64(v: i64) -> (r: Option<AttributeType>)
        ensures
            r == Self::spec_from_i64(v),
            r matches Some(a) ==> a.spec_id() == v,
    {
        match v {
            1 => Some(AttributeType::Strength),
            2 => Some(AttributeType::Dexterity),
            3 => Some(AttributeType::Intelligence),
            4 => Some(AttributeType::Constitution),
            5 => Some(AttributeType::Luck),
            _ => None,
        }
    }
}

/// A type of shop. This is a subset of `ItemPlace`.
#[derive(Debug, Clone, Copy, PartialEq, Eq, Structural, Hash)]
pub enum ShopType {
    Weapon,
    Magic,
}

impl ShopType {
    /// The number the server uses for this shop.
    pub fn id(self) -> (r: u32)
        ensures
            r == (match self {
                ShopType::Weapon => 3u32,
                ShopType::Magic => 4u32,
            }),
    {
        match self {
            ShopType::Weapon => 3,
            ShopType::Magic => 4,
        }
    }
}

/// The "currency" you want to use to skip a quest.
#[derive(Debug, Clone, Copy, PartialEq, Eq, Structural, Hash)]
pub enum TimeSkip {
    Mushroom,
    Glass,
}

} // verus!

verus! {

/// The flag of a country, that will be visible in the Hall of Fame.
#[derive(Debug, Clone, Copy, PartialEq, Eq, Structural, Hash)]
pub enum Flag {
    Argentina,
    Australia,
    Austria,
    Belgium,
    Bolivia,
    Brazil,
    Bulgaria,
    Canada,
    Chile,
    China,
    Colombia,
    CostaRica,
    Czechia,
    Denmark,
    DominicanRepublic,
    Ecuador,
    ElSalvador,
    Finland,
    France,
    Germany,
    GreatBritain,
    Greece,
    Honduras,
    Hungary,
    India,
    Italy,
    Japan,
    Lithuania,
    Mexico,
    Netherlands,
    Panama,
    Paraguay,
    Peru,
    Philippines,
    Poland,
    Portugal,
    Romania,
    Russia,
    SaudiArabia,
    Slovakia,
    SouthKorea,
    Spain,
    Sweden,
    Switzerland,
    Thailand,
    Turkey,
    Ukraine,
    UnitedArabEmirates,
    UnitedStates,
    Uruguay,
    Venezuela,
    Vietnam,
}

impl Flag {
    /// The two letter country code of this flag.
    pub open spec fn spec_code(self) -> Seq<char> {
        match self {
            Flag::Argentina => seq!['a', 'r'],
            Flag::Australia => seq!['a', 'u'],
            Flag::Austria => seq!['a', 't'],
            Flag::Belgium => seq!['b', 'e'],
            Flag::Bolivia => seq!['b', 'o'],
            Flag::Brazil => seq!['b', 'r'],
            Flag::Bulgaria => seq!['b', 'g'],
            Flag::Canada => seq!['c', 'a'],
            Flag::Chile => seq!['c', 'l'],
            Flag::China => seq!['c', 'n'],
            Flag::Colombia => seq!['c', 'o'],
            Flag::CostaRica => seq!['c', 'r'],
            Flag::Czechia => seq!['c', 'z'],
            Flag::Denmark => seq!['d', 'k'],
            Flag::DominicanRepublic => seq!['d', 'o'],
            Flag::Ecuador => seq!['e', 'c'],
            Flag::ElSalvador => seq!['s', 'v'],
            Flag::Finland => seq!['f', 'i'],
            Flag::France => seq!['f', 'r'],
            Flag::Germany => seq!['d', 'e'],
            Flag::GreatBritain => seq!['g', 'b'],
            Flag::Greece => seq!['g', 'r'],
            Flag::Honduras => seq!['h', 'n'],
            Flag::Hungary => seq!['h', 'u'],
            Flag::India => seq!['i', 'n'],
            Flag::Italy => seq!['i', 't'],
            Flag::Japan => seq!['j', 'p'],
            Flag::Lithuania => seq!['l', 't'],
            Flag::Mexico => seq!['m', 'x'],
            Flag::Netherlands => seq!['n', 'l'],
            Flag::Panama => seq!['p', 'a'],
            Flag::Paraguay => seq!['p', 'y'],
            Flag::Peru => seq!['p', 'e'],
            Flag::Philippines => seq!['p', 'h'],
            Flag::Poland => seq!['p', 'l'],
            Flag::Portugal => seq!['p', 't'],
            Flag::Romania => seq!['r', 'o'],
            Flag::Russia => seq!['r', 'u'],
            Flag::SaudiArabia => seq!['s', 'a'],
            Flag::Slovakia => seq!['s', 'k'],
            Flag::SouthKorea => seq!['k', 'r'],
            Flag::Spain => seq!['e', 's'],
            Flag::Sweden => seq!['s', 'e'],
            Flag::Switzerland => seq!['c', 'h'],
            Flag::Thailand => seq!['t', 'h'],
            Flag::Turkey => seq!['t', 'r'],
            Flag::Ukraine => seq!['u', 'a'],
            Flag::UnitedArabEmirates => seq!['a', 'e'],
            Flag::UnitedStates => seq!['u', 's'],
            Flag::Uruguay => seq!['u', 'y'],
            Flag::Venezuela => seq!['v', 'e'],
            Flag::Vietnam => seq!['v', 'n'],
        }
    }

    /// The two letter country code of this flag.
    pub fn code(self) -> (r: &'static str)
        ensures
            r@ == self.spec_code(),
    {
        match self {
            Flag::Argentina => { proof { reveal_strlit("ar"); } "ar" },
            Flag::Australia => { proof { reveal_strlit("au"); } "au" },
            Flag::Austria => { proof { reveal_strlit("at"); } "at" },
            Flag::Belgium => { proof { reveal_strlit("be"); } "be" },
            Flag::Bolivia => { proof { reveal_strlit("bo"); } "bo" },
            Flag::Brazil => { proof { reveal_strlit("br"); } "br" },
            Flag::Bulgaria => { proof { reveal_strlit("bg"); } "bg" },
            Flag::Canada => { proof { reveal_strlit("ca"); } "ca" },
            Flag::Chile => { proof { reveal_strlit("cl"); } "cl" },
            Flag::China => { proof { reveal_strlit("cn"); } "cn" },
            Flag::Colombia => { proof { reveal_strlit("co"); } "co" },
            Flag::CostaRica => { proof { reveal_strlit("cr"); } "cr" },
            Flag::Czechia => { proof { reveal_strlit("cz"); } "cz" },
            Flag::Denmark => { proof { reveal_strlit("dk"); } "dk" },
            Flag::DominicanRepublic => { proof { reveal_strlit("do"); } "do" },
            Flag::Ecuador => { proof { reveal_strlit("ec"); } "ec" },
            Flag::ElSalvador => { proof { reveal_strlit("sv"); } "sv" },
            Flag::Finland => { proof { reveal_strlit("fi"); } "fi" },
            Flag::France => { proof { reveal_strlit("fr"); } "fr" },
            Flag::Germany => { proof { reveal_strlit("de"); } "de" },
            Flag::GreatBritain => { proof { reveal_strlit("gb"); } "gb" },
            Flag::Greece => { proof { reveal_strlit("gr"); } "gr" },
            Flag::Honduras => { proof { reveal_strlit("hn"); } "hn" },
            Flag::Hungary => { proof { reveal_strlit("hu"); } "hu" },
            Flag::India => { proof { reveal_strlit("in"); } "in" },
            Flag::Italy => { proof { reveal_strlit("it"); } "it" },
            Flag::Japan => { proof { reveal_strlit("jp"); } "jp" },
            Flag::Lithuania => { proof { reveal_strlit("lt"); } "lt" },
            Flag::Mexico => { proof { reveal_strlit("mx"); } "mx" },
            Flag::Netherlands => { proof { reveal_strlit("nl"); } "nl" },
            Flag::Panama => { proof { reveal_strlit("pa"); } "pa" },
            Flag::Paraguay => { proof { reveal_strlit("py"); } "py" },
            Flag::Peru => { proof { reveal_strlit("pe"); } "pe" },
            Flag::Philippines => { proof { reveal_strlit("ph"); } "ph" },
            Flag::Poland => { proof { reveal_strlit("pl"); } "pl" },
            Flag::Portugal => { proof { reveal_strlit("pt"); } "pt" },
            Flag::Romania => { proof { reveal_strlit("ro"); } "ro" },
            Flag::Russia => { proof { reveal_strlit("ru"); } "ru" },
            Flag::SaudiArabia => { proof { reveal_strlit("sa"); } "sa" },
            Flag::Slovakia => { proof { reveal_strlit("sk"); } "sk" },
            Flag::SouthKorea => { proof { reveal_strlit("kr"); } "kr" },
            Flag::Spain => { proof { reveal_strlit("es"); } "es" },
            Flag::Sweden => { proof { reveal_strlit("se"); } "se" },
            Flag::Switzerland => { proof { reveal_strlit("ch"); } "ch" },
            Flag::Thailand => { proof { reveal_strlit("th"); } "th" },
            Flag::Turkey => { proof { reveal_strlit("tr"); } "tr" },
            Flag::Ukraine => { proof { reveal_strlit("ua"); } "ua" },
            Flag::UnitedArabEmirates => { proof { reveal_strlit("ae"); } "ae" },
            Flag::UnitedStates => { proof { reveal_strlit("us"); } "us" },
            Flag::Uruguay => { proof { reveal_strlit("uy"); } "uy" },
            Flag::Venezuela => { proof { reveal_strlit("ve"); } "ve" },
            Flag::Vietnam => { proof { reveal_strlit("vn"); } "vn" },
        }
    }

    /// The flag with the given country code.
    pub open spec fn spec_parse(v: Seq<char>) -> Option<Flag> {
        if v.len() != 2 {
            None
        } else {
            if v[0] == 'a' && v[1] == 'r' {
                Some(Flag::Argentina)
            } else if v[0] == 'a' && v[1] == 'u' {
                Some(Flag::Australia)
            } else if v[0] == 'a' && v[1] == 't' {
                Some(Flag::Austria)
            } else if v[0] == 'b' && v[1] == 'e' {
                Some(Flag::Belgium)
            } else if v[0] == 'b' && v[1] == 'o' {
                Some(Flag::Bolivia)
            } else if v[0] == 'b' && v[1] == 'r' {
                Some(Flag::Brazil)
            } else if v[0] == 'b' && v[1] == 'g' {
                Some(Flag::Bulgaria)
            } else if v[0] == 'c' && v[1] == 'a' {
                Some(Flag::Canada)
            } else if v[0] == 'c' && v[1] == 'l' {
                Some(Flag::Chile)
            } else if v[0] == 'c' && v[1] == 'n' {
                Some(Flag::China)
            } else if v[0] == 'c' && v[1] == 'o' {
                Some(Flag::Colombia)
            } else if v[0] == 'c' && v[1] == 'r' {
                Some(Flag::CostaRica)
            } else if v[0] == 'c' && v[1] == 'z' {
                Some(Flag::Czechia)
            } else if v[0] == 'd' && v[1] == 'k' {
                Some(Flag::Denmark)
            } else if v[0] == 'd' && v[1] == 'o' {
                Some(Flag::DominicanRepublic)
            } else if v[0] == 'e' && v[1] == 'c' {
                Some(Flag::Ecuador)
            } else if v[0] == 's' && v[1] == 'v' {
                Some(Flag::ElSalvador)
            } else if v[0] == 'f' && v[1] == 'i' {
                Some(Flag::Finland)
            } else if v[0] == 'f' && v[1] == 'r' {
                Some(Flag::France)
            } else if v[0] == 'd' && v[1] == 'e' {
                Some(Flag::Germany)
            } else if v[0] == 'g' && v[1] == 'b' {
                Some(Flag::GreatBritain)
            } else if v[0] == 'g' && v[1] == 'r' {
                Some(Flag::Greece)
            } else if v[0] == 'h' && v[1] == 'n' {
                Some(Flag::Honduras)
            } else if v[0] == 'h' && v[1] == 'u' {
                Some(Flag::Hungary)
            } else if v[0] == 'i' && v[1] == 'n' {
                Some(Flag::India)
            } else if v[0] == 'i' && v[1] == 't' {
                Some(Flag::Italy)
            } else if v[0] == 'j' && v[1] == 'p' {
                Some(Flag::Japan)
            } else if v[0] == 'l' && v[1] == 't' {
                Some(Flag::Lithuania)
            } else if v[0] == 'm' && v[1] == 'x' {
                Some(Flag::Mexico)
            } else if v[0] == 'n' && v[1] == 'l' {
                Some(Flag::Netherlands)
            } else if v[0] == 'p' && v[1] == 'a' {
                Some(Flag::Panama)
            } else if v[0] == 'p' && v[1] == 'y' {
                Some(Flag::Paraguay)
            } else if v[0] == 'p' && v[1] == 'e' {
                Some(Flag::Peru)
            } else if v[0] == 'p' && v[1] == 'h' {
                Some(Flag::Philippines)
            } else if v[0] == 'p' && v[1] == 'l' {
                Some(Flag::Poland)
            } else if v[0] == 'p' && v[1] == 't' {
                Some(Flag::Portugal)
            } else if v[0] == 'r' && v[1] == 'o' {
                Some(Flag::Romania)
            } else if v[0] == 'r' && v[1] == 'u' {
                Some(Flag::Russia)
            } else if v[0] == 's' && v[1] == 'a' {
                Some(Flag::SaudiArabia)
            } else if v[0] == 's' && v[1] == 'k' {
                Some(Flag::Slovakia)
            } else if v[0] == 'k' && v[1] == 'r' {
                Some(Flag::SouthKorea)
            } else if v[0] == 'e' && v[1] == 's' {
                Some(Flag::Spain)
            } else if v[0] == 's' && v[1] == 'e' {
                Some(Flag::Sweden)
            } else if v[0] == 'c' && v[1] == 'h' {
                Some(Flag::Switzerland)
            } else if v[0] == 't' && v[1] == 'h' {
                Some(Flag::Thailand)
            } else if v[0] == 't' && v[1] == 'r' {
                Some(Flag::Turkey)
            } else if v[0] == 'u' && v[1] == 'a' {
                Some(Flag::Ukraine)
            } else if v[0] == 'a' && v[1] == 'e' {
                Some(Flag::UnitedArabEmirates)
            } else if v[0] == 'u' && v[1] == 's' {
                Some(Flag::UnitedStates)
            } else if v[0] == 'u' && v[1] == 'y' {
                Some(Flag::Uruguay)
            } else if v[0] == 'v' && v[1] == 'e' {
                Some(Flag::Venezuela)
            } else if v[0] == 'v' && v[1] == 'n' {
                Some(Flag::Vietnam)
            } else {
                None
            }
        }
    }

    /// The flag with the given country code: `None` for the empty text and
    /// unknown codes.
    pub fn parse(value: &str) -> (r: Option<Flag>)
        ensures
            r == Self::spec_parse(value@),
    {
        let cs = chars_of(value);
        if cs.len() != 2 {
            return None;
        }
        let a = cs[0];
        let b = cs[1];
        if a == 'a' && b == 'r' {
            Some(Flag::Argentina)
        } else if a == 'a' && b == 'u' {
            Some(Flag::Australia)
        } else if a == 'a' && b == 't' {
            Some(Flag::Austria)
        } else if a == 'b' && b == 'e' {
            Some(Flag::Belgium)
        } else if a == 'b' && b == 'o' {
            Some(Flag::Bolivia)
        } else if a == 'b' && b == 'r' {
            Some(Flag::Brazil)
        } else if a == 'b' && b == 'g' {
            Some(Flag::Bulgaria)
        } else if a == 'c' && b == 'a' {
            Some(Flag::Canada)
        } else if a == 'c' && b == 'l' {
            Some(Flag::Chile)
        } else if a == 'c' && b == 'n' {
            Some(Flag::China)
        } else if a == 'c' && b == 'o' {
            Some(Flag::Colombia)
        } else if a == 'c' && b == 'r' {
            Some(Flag::CostaRica)
        } else if a == 'c' && b == 'z' {
            Some(Flag::Czechia)
        } else if a == 'd' && b == 'k' {
            Some(Flag::Denmark)
        } else if a == 'd' && b == 'o' {
            Some(Flag::DominicanRepublic)
        } else if a == 'e' && b == 'c' {
            Some(Flag::Ecuador)
        } else if a == 's' && b == 'v' {
            Some(Flag::ElSalvador)
        } else if a == 'f' && b == 'i' {
            Some(Flag::Finland)
        } else if a == 'f' && b == 'r' {
            Some(Flag::France)
        } else if a == 'd' && b == 'e' {
            Some(Flag::Germany)
        } else if a == 'g' && b == 'b' {
            Some(Flag::GreatBritain)
        } else if a == 'g' && b == 'r' {
            Some(Flag::Greece)
        } else if a == 'h' && b == 'n' {
            Some(Flag::Honduras)
        } else if a == 'h' && b == 'u' {
            Some(Flag::Hungary)
        } else if a == 'i' && b == 'n' {
            Some(Flag::India)
        } else if a == 'i' && b == 't' {
            Some(Flag::Italy)
        } else if a == 'j' && b == 'p' {
            Some(Flag::Japan)
        } else if a == 'l' && b == 't' {
            Some(Flag::Lithuania)
        } else if a == 'm' && b == 'x' {
            Some(Flag::Mexico)
        } else if a == 'n' && b == 'l' {
            Some(Flag::Netherlands)
        } else if a == 'p' && b == 'a' {
            Some(Flag::Panama)
        } else if a == 'p' && b == 'y' {
            Some(Flag::Paraguay)
        } else if a == 'p' && b == 'e' {
            Some(Flag::Peru)
        } else if a == 'p' && b == 'h' {
            Some(Flag::Philippines)
        } else if a == 'p' && b == 'l' {
            Some(Flag::Poland)
        } else if a == 'p' && b == 't' {
            Some(Flag::Portugal)
        } else if a == 'r' && b == 'o' {
            Some(Flag::Romania)
        } else if a == 'r' && b == 'u' {
            Some(Flag::Russia)
        } else if a == 's' && b == 'a' {
            Some(Flag::SaudiArabia)
        } else if a == 's' && b == 'k' {
            Some(Flag::Slovakia)
        } else if a == 'k' && b == 'r' {
            Some(Flag::SouthKorea)
        } else if a == 'e' && b == 's' {
            Some(Flag::Spain)
        } else if a == 's' && b == 'e' {
            Some(Flag::Sweden)
        } else if a == 'c' && b == 'h' {
            Some(Flag::Switzerland)
        } else if a == 't' && b == 'h' {
            Some(Flag::Thailand)
        } else if a == 't' && b == 'r' {
            Some(Flag::Turkey)
        } else if a == 'u' && b == 'a' {
            Some(Flag::Ukraine)
        } else if a == 'a' && b == 'e' {
            Some(Flag::UnitedArabEmirates)
        } else if a == 'u' && b == 's' {
            Some(Flag::UnitedStates)
        } else if a == 'u' && b == 'y' {
            Some(Flag::Uruguay)
        } else if a == 'v' && b == 'e' {
            Some(Flag::Venezuela)
        } else if a == 'v' && b == 'n' {
            Some(Flag::Vietnam)
        } else {
            None
        }
    }
}

/// Reading the code of a flag gives back the flag.
pub proof fn lemma_flag_code_roundtrip(f: Flag)
    ensures
        Flag::spec_parse(f.spec_code()) == Some(f),
{
}

} // verus!

verus! {

// ---------------------------------------------------------------------------
// The numbers and texts that requests use
// ---------------------------------------------------------------------------

/// 1 for true, 0 for false.
pub open spec fn nat_of_bool(b: bool) -> nat {
    if b { 1 } else { 0 }
}

fn u64_of_bool(b: bool) -> (r: u64)
    ensures
        r == nat_of_bool(b),
{
    if b { 1 } else { 0 }
}

/// The number of a gender in requests (1 or 2).
pub open spec fn spec_gender_code(g: Gender) -> nat {
    match g {
        Gender::Female => 1,
        Gender::Male => 2,
    }
}

fn gender_code(g: Gender) -> (r: u64)
    ensures
        r == spec_gender_code(g),
{
    match g {
        Gender::Female => 1,
        Gender::Male => 2,
    }
}

/// The number of a mount in requests (1 to 4).
pub open spec fn spec_mount_code(m: Mount) -> nat {
    match m {
        Mount::Cow => 1,
        Mount::Horse => 2,
        Mount::Tiger => 3,
        Mount::Dragon => 4,
    }
}

fn mount_code(m: Mount) -> (r: u64)
    ensures
        r == spec_mount_code(m),
{
    match m {
        Mount::Cow => 1,
        Mount::Horse => 2,
        Mount::Tiger => 3,
        Mount::Dragon => 4,
    }
}

/// The number of a guild skill in requests (0 to 2).
pub open spec fn spec_skill_index(s: GuildSkill) -> nat {
    match s {
        GuildSkill::Treasure => 0,
        GuildSkill::Instructor => 1,
        GuildSkill::Pet => 2,
    }
}

fn skill_index(s: GuildSkill) -> (r: u64)
    ensures
        r == spec_skill_index(s),
{
    match s {
        GuildSkill::Treasure => 0,
        GuildSkill::Instructor => 1,
        GuildSkill::Pet => 2,
    }
}

/// The number of an inventory of the player in requests.
pub open spec fn spec_player_place_code(p: PlayerItemPlace) -> nat {
    match p {
        PlayerItemPlace::Equipment => 1,
        PlayerItemPlace::MainInventory => 2,
        PlayerItemPlace::ExtendedInventory => 5,
    }
}

fn player_place_code(p: PlayerItemPlace) -> (r: u64)
    ensures
        r == spec_player_place_code(p),
{
    match p {
        PlayerItemPlace::Equipment => 1,
        PlayerItemPlace::MainInventory => 2,
        PlayerItemPlace::ExtendedInventory => 5,
    }
}

/// The number of a place of items in requests (1 to 5).
pub open spec fn spec_place_code(p: ItemPlace) -> nat {
    match p {
        ItemPlace::Equipment => 1,
        ItemPlace::MainInventory => 2,
        ItemPlace::WeaponShop => 3,
        ItemPlace::MageShop => 4,
        ItemPlace::FortressChest => 5,
    }
}

fn place_code(p: ItemPlace) -> (r: u64)
    ensures
        r == spec_place_code(p),
{
    match p {
        ItemPlace::Equipment => 1,
        ItemPlace::MainInventory => 2,
        ItemPlace::WeaponShop => 3,
        ItemPlace::MageShop => 4,
        ItemPlace::FortressChest => 5,
    }
}

/// The number of an inventory in requests (2 or 5).
pub open spec fn spec_inventory_code(i: InventoryType) -> nat {
    match i {
        InventoryType::MainInventory => 2,
        InventoryType::ExtendedInventory => 5,
    }
}

fn inventory_code(i: InventoryType) -> (r: u64)
    ensures
        r == spec_inventory_code(i),
{
    match i {
        InventoryType::MainInventory => 2,
        InventoryType::ExtendedInventory => 5,
    }
}

/// The number of a way to pay for the wheel of fortune (0 to 2).
pub open spec fn spec_fortune_code(p: FortunePayment) -> nat {
    match p {
        FortunePayment::LuckyCoins => 0,
        FortunePayment::Mushrooms => 1,
        FortunePayment::FreeTurn => 2,
    }
}

fn fortune_code(p: FortunePayment) -> (r: u64)
    ensures
        r == spec_fortune_code(p),
{
    match p {
        FortunePayment::LuckyCoins => 0,
        FortunePayment::Mushrooms => 1,
        FortunePayment::FreeTurn => 2,
    }
}

/// The number of a way to pay for the dice (0 to 2).
pub open spec fn spec_dice_price_code(p: RollDicePrice) -> nat {
    match p {
        RollDicePrice::Free => 0,
        RollDicePrice::Mushrooms => 1,
        RollDicePrice::Hourglass => 2,
    }
}

fn dice_price_code(p: RollDicePrice) -> (r: u64)
    ensures
        r == spec_dice_price_code(p),
{
    match p {
        RollDicePrice::Free => 0,
        RollDicePrice::Mushrooms => 1,
        RollDicePrice::Hourglass => 2,
    }
}

/// The digit of a dice in requests (`0` to `6`).
pub open spec fn dice_char(d: DiceType) -> char {
    match d {
        DiceType::ReRoll => '0',
        DiceType::Silver => '1',
        DiceType::Stone => '2',
        DiceType::Wood => '3',
        DiceType::Souls => '4',
        DiceType::Arcane => '5',
        DiceType::Hourglass => '6',
    }
}

fn dice_text(d: DiceType) -> (r: String)
    ensures
        r@ == seq![dice_char(d)],
{
    let c = match d {
        DiceType::ReRoll => '0',
        DiceType::Silver => '1',
        DiceType::Stone => '2',
        DiceType::Wood => '3',
        DiceType::Souls => '4',
        DiceType::Arcane => '5',
        DiceType::Hourglass => '6',
    };
    let mut s = String::new();
    push_char(&mut s, c);
    assert(s@ =~= seq![c]);
    s
}

/// The number of a hellevator treat in requests.
pub open spec fn spec_treat_code(t: HellevatorTreatType) -> nat {
    match t {
        HellevatorTreatType::ChocolateChilliPepper => 1,
        HellevatorTreatType::PeppermintChocolate => 2,
        HellevatorTreatType::Electroshock => 3,
        HellevatorTreatType::ChillIceCream => 4,
        HellevatorTreatType::CracklingChewingGum => 5,
        HellevatorTreatType::PeppermintChewingGum => 6,
        HellevatorTreatType::BeerBiscuit => 7,
        HellevatorTreatType::GingerBreadHeart => 8,
        HellevatorTreatType::FortuneCookie => 9,
        HellevatorTreatType::CannedSpinach => 10,
        HellevatorTreatType::StoneBiscuit => 11,
        HellevatorTreatType::OrganicGranolaBar => 12,
        HellevatorTreatType::ChocolateGoldCoin => 13,
        HellevatorTreatType::Unknown => 230,
    }
}

fn treat_code(t: HellevatorTreatType) -> (r: u64)
    ensures
        r == spec_treat_code(t),
{
    match t {
        HellevatorTreatType::ChocolateChilliPepper => 1,
        HellevatorTreatType::PeppermintChocolate => 2,
        HellevatorTreatType::Electroshock => 3,
        HellevatorTreatType::ChillIceCream => 4,
        HellevatorTreatType::CracklingChewingGum => 5,
        HellevatorTreatType::PeppermintChewingGum => 6,
        HellevatorTreatType::BeerBiscuit => 7,
        HellevatorTreatType::GingerBreadHeart => 8,
        HellevatorTreatType::FortuneCookie => 9,
        HellevatorTreatType::CannedSpinach => 10,
        HellevatorTreatType::StoneBiscuit => 11,
        HellevatorTreatType::OrganicGranolaBar => 12,
        HellevatorTreatType::ChocolateGoldCoin => 13,
        HellevatorTreatType::Unknown => 230,
    }
}

/// The number of a way to skip time (1 or 2).
pub open spec fn spec_time_skip_code(t: TimeSkip) -> nat {
    match t {
        TimeSkip::Mushroom => 1,
        TimeSkip::Glass => 2,
    }
}

fn time_skip_code(t: TimeSkip) -> (r: u64)
    ensures
        r == spec_time_skip_code(t),
{
    match t {
        TimeSkip::Mushroom => 1,
        TimeSkip::Glass => 2,
    }
}

/// The number of an optional way to skip time; 0 for none.
pub open spec fn spec_skip_code(t: Option<TimeSkip>) -> nat {
    match t {
        Some(s) => spec_time_skip_code(s),
        None => 0,
    }
}

fn skip_code(t: Option<TimeSkip>) -> (r: u64)
    ensures
        r == spec_skip_code(t),
{
    match t {
        Some(s) => time_skip_code(s),
        None => 0,
    }
}

/// The number of a companion in requests (101 to 103).
pub open spec fn spec_companion_code(c: CompanionClass) -> nat {
    match c {
        CompanionClass::Warrior => 101,
        CompanionClass::Mage => 102,
        CompanionClass::Scout => 103,
    }
}

fn companion_code(c: CompanionClass) -> (r: u64)
    ensures
        r == spec_companion_code(c),
{
    match c {
        CompanionClass::Warrior => 101,
        CompanionClass::Mage => 102,
        CompanionClass::Scout => 103,
    }
}

/// The number of a relation in requests (-1 to 1).
pub open spec fn spec_relation_code(r: Relationship) -> int {
    match r {
        Relationship::Ignored => -1,
        Relationship::Normal => 0,
        Relationship::Friend => 1,
    }
}

fn relation_code(r: Relationship) -> (c: i64)
    ensures
        c == spec_relation_code(r),
{
    match r {
        Relationship::Ignored => -1,
        Relationship::Normal => 0,
        Relationship::Friend => 1,
    }
}

/// The number of a shop in requests (3 or 4).
pub open spec fn spec_shop_code(s: ShopType) -> nat {
    match s {
        ShopType::Weapon => 3,
        ShopType::Magic => 4,
    }
}

/// The number of an action of the blacksmith in requests.
pub open spec fn spec_action_code(a: BlacksmithAction) -> nat {
    match a {
        BlacksmithAction::Dismantle => 201,
        BlacksmithAction::SocketUpgrade => 202,
        BlacksmithAction::SocketUpgradeWithMushrooms => 212,
        BlacksmithAction::GemExtract => 203,
        BlacksmithAction::GemExtractWithMushrooms => 213,
        BlacksmithAction::Upgrade => 204,
    }
}

/// The letter of the questing preference in requests.
pub open spec fn spec_setting_text(s: ExpeditionSetting) -> Seq<char> {
    match s {
        ExpeditionSetting::PreferExpeditions => seq!['a'],
        ExpeditionSetting::PreferQuests => seq!['b'],
    }
}

fn setting_text(s: ExpeditionSetting) -> (r: String)
    ensures
        r@ == spec_setting_text(s),
{
    let c = match s {
        ExpeditionSetting::PreferExpeditions => 'a',
        ExpeditionSetting::PreferQuests => 'b',
    };
    let mut t = String::new();
    push_char(&mut t, c);
    assert(t@ =~= seq![c]);
    t
}

/// The code of an optional flag; the empty text for none.
pub open spec fn spec_flag_text(f: Option<Flag>) -> Seq<char> {
    match f {
        Some(x) => x.spec_code(),
        None => Seq::empty(),
    }
}

fn flag_text(f: Option<Flag>) -> (r: String)
    ensures
        r@ == spec_flag_text(f),
{
    match f {
        Some(x) => x.code().to_string(),
        None => String::new(),
    }
}

/// A text as it is escaped for the server.
pub open spec fn escaped(s: Seq<char>) -> Seq<char> {
    sf_escaped(s)
}

/// The hash of a password for the login: the SHA-1 of the password hash
/// followed by the login count.
pub open spec fn spec_login_hash(pw_hash: Seq<char>, login_count: u32) -> Seq<char> {
    hex_lower(sha1_of(encode_utf8(pw_hash + decimal_text(login_count as nat))))
}

fn login_hash(pw_hash: &str, login_count: u32) -> (r: String)
    ensures
        r@ == spec_login_hash(pw_hash@, login_count),
{
    let mut s = String::new();
    push_str(&mut s, pw_hash);
    push_decimal(&mut s, login_count as u64);
    assert(s@ =~= pw_hash@ + decimal_text(login_count as nat));
    sha1_hash(s.as_str())
}

/// The hash of a password salted with the library's constant.
pub open spec fn spec_salted_hash(password: Seq<char>) -> Seq<char> {
    hex_lower(sha1_of(encode_utf8(password + HASH_CONST@)))
}

fn salted_hash(password: &str) -> (r: String)
    ensures
        r@ == spec_salted_hash(password@),
{
    let mut s = String::new();
    push_str(&mut s, password);
    push_str(&mut s, HASH_CONST);
    assert(s@ =~= password@ + HASH_CONST@);
    sha1_hash(s.as_str())
}

/// The mail address of a new account.
fn mail_of(username: &str) -> (r: String)
    ensures
        r@ == username@ + "@playa.sso"@,
{
    let mut s = String::new();
    push_str(&mut s, username);
    push_str(&mut s, "@playa.sso");
    assert(s@ =~= username@ + "@playa.sso"@);
    s
}

/// The guild info of a request: the emblem, `§` and the escaped description.
fn guild_info(emblem: &Emblem, description: &str) -> (r: String)
    ensures
        r@ == emblem.raw@ + seq!['\u{a7}'] + escaped(description@),
{
    let mut s = emblem.server_encode();
    push_char(&mut s, '\u{a7}');
    let d = to_sf_string(description);
    push_str(&mut s, d.as_str());
    assert(s@ =~= emblem.raw@ + seq!['\u{a7}'] + escaped(description@));
    s
}

/// The arguments of a request joined with `/`.
pub open spec fn join_args(args: Seq<Seq<char>>) -> Seq<char>
    decreases args.len(),
{
    if args.len() == 0 {
        Seq::empty()
    } else if args.len() == 1 {
        args[0]
    } else {
        join_args(args.drop_last()) + seq!['/'] + args.last()
    }
}

/// A request: the name, `:` and the arguments joined with `/`.
fn join_request(name: &str, args: &[String]) -> (r: String)
    ensures
        r@ == name@ + seq![':'] + join_args(string_views(args@)),
{
    let mut s = String::new();
    push_str(&mut s, name);
    push_char(&mut s, ':');
    let ghost head = name@ + seq![':'];
    assert(s@ =~= head);
    let mut i: usize = 0;
    while i < args.len()
        invariant
            i <= args@.len(),
            s@ == head + join_args(string_views(args@).take(i as int)),
        decreases args@.len() - i,
    {
        let ghost before = string_views(args@).take(i as int);
        assert(string_views(args@).take(i + 1).drop_last() =~= before);
        assert(string_views(args@)[i as int] == args@[i as int]@);
        if i > 0 {
            push_char(&mut s, '/');
        }
        push_str(&mut s, args[i].as_str());
        proof {
            if i == 0 {
                assert(before.len() == 0);
                assert(s@ =~= head + join_args(string_views(args@).take(1)));
            } else {
                assert(s@ =~= head + join_args(string_views(args@).take(i + 1)));
            }
        }
        i = i + 1;
    }
    assert(string_views(args@).take(args@.len() as int) =~= string_views(args@));
    s
}

/// A copy of a list of strings.
fn clone_strings(v: &Vec<String>) -> (r: Vec<String>)
    ensures
        string_views(r@) == string_views(v@),
{
    let mut out: Vec<String> = Vec::new();
    let mut i: usize = 0;
    while i < v.len()
        invariant
            i <= v@.len(),
            out@ =~= v@.take(i as int),
        decreases v@.len() - i,
    {
        out.push(v[i].clone());
        assert(out@ =~= v@.take(i + 1));
        i = i + 1;
    }
    assert(v@.take(v@.len() as int) =~= v@);
    out
}

/// Chooses at random, with `fastrand`, whether an item is sold to the magic
/// shop. Nothing is stated of the result: it is random.
#[verifier::external_body]
fn random_magic_shop() -> (r: bool) {
    fastrand::Rng::new().bool()
}

/// Chooses at random, with `fastrand`, the shop position (0 to 5) an item is
/// sold to: `Rng::u32` gives a number of the range it is given.
#[verifier::external_body]
fn random_shop_pos() -> (r: u32)
    ensures
        r < 6,
{
    fastrand::Rng::new().u32(0..6)
}

// ---------------------------------------------------------------------------
// Requests
// ---------------------------------------------------------------------------

/// The request that is sent for a command; `None` for a fight in the tower
/// with `FightDungeon`, which must be fought with `FightTower`. `magic` and
/// `shop_pos` are the shop and the position that `SellShop` sells to.
pub open spec fn spec_request(cmd: Command, magic: bool, sell_pos: u32) -> Option<Seq<char>> {
    match cmd {
        Command::Custom { cmd_name, arguments } => Some(
            cmd_name@ + seq![':'] + join_args(string_views(arguments@)),
        ),
        Command::FightDungeon { dungeon, use_mushroom } => match dungeon {
            Dungeon::Light(d) => if d == LightDungeon::Tower {
                None
            } else {
                Some(
                    "PlayerDungeonBattle"@ + seq![':'] + join_args(
                        seq![
                            decimal_text((d.spec_id() + 1) as nat),
                            decimal_text(nat_of_bool(use_mushroom)),
                        ],
                    ),
                )
            },
            Dungeon::Shadow(d) => if d == ShadowDungeon::Twister {
                Some(
                    "PlayerDungeonBattle"@ + seq![':'] + join_args(
                        seq![
                            decimal_text((LightDungeon::Tower.spec_id() + 1) as nat),
                            decimal_text(nat_of_bool(use_mushroom)),
                        ],
                    ),
                )
            } else {
                Some(
                    "PlayerShadowBattle"@ + seq![':'] + join_args(
                        seq![
                            decimal_text((d.spec_id() + 1) as nat),
                            decimal_text(nat_of_bool(use_mushroom)),
                        ],
                    ),
                )
            },
        },
        Command::HellevatorViewGuildRanking => Some("GroupTournamentRankingOwnGroup"@),
        _ => Some(
            request_parts(cmd, magic, sell_pos).0 + seq![':'] + join_args(
                request_parts(cmd, magic, sell_pos).1,
            ),
        ),
    }
}

impl Command {
    /// The request for this command, where `SellShop` sells to the magic
    /// shop (`magic`) or the weapon shop, at `shop_pos`.
    ///
    /// # Errors
    /// `InvalidRequest` for `FightDungeon` in the tower.
    pub fn request_string_with(&self, magic: bool, sell_pos: u32) -> (r: Result<String, SFError>)
        requires
            sell_pos < 6,
        ensures
            match spec_request(*self, magic, sell_pos) {
                Some(t) => r matches Ok(s) && s@ == t,
                None => r matches Err(SFError::InvalidRequest(m)) && m@
                    == "The tower must be fought with the FightTower command"@,
            },
    {
        match self {
            Command::Custom { cmd_name, arguments } => {
                let args = clone_strings(arguments);
                Ok(join_request(cmd_name.as_str(), &args))
            },
            Command::FightDungeon { dungeon, use_mushroom } => {
                let (name, number) = match dungeon {
                    Dungeon::Light(d) => {
                        if *d == LightDungeon::Tower {
                            return Err(
                                SFError::InvalidRequest(
                                    "The tower must be fought with the FightTower command",
                                ),
                            );
                        }
                        ("PlayerDungeonBattle", d.id() + 1)
                    },
                    Dungeon::Shadow(d) => {
                        if *d == ShadowDungeon::Twister {
                            ("PlayerDungeonBattle", LightDungeon::Tower.id() + 1)
                        } else {
                            ("PlayerShadowBattle", d.id() + 1)
                        }
                    },
                };
                let v: Vec<String> = vec![
                    u64_to_string(number as u64),
                    u64_to_string(u64_of_bool(*use_mushroom)),
                ];
                let ghost want: Seq<Seq<char>> = seq![
                    decimal_text(number as nat),
                    decimal_text(nat_of_bool(*use_mushroom)),
                ];
                assert(string_views(v@) =~= want);
                Ok(join_request(name, &v))
            },
            Command::HellevatorViewGuildRanking => Ok("GroupTournamentRankingOwnGroup".to_string()),
            _ => {
                let (name, args) = self.request_parts_exec(magic, sell_pos);
                Ok(join_request(name.as_str(), &args))
            },
        }
    }

    /// The request for this command. `SellShop` sells to a shop and a
    /// position chosen at random.
    ///
    /// # Errors
    /// `InvalidRequest` for `FightDungeon` in the tower.
    pub fn request_string(&self) -> (r: Result<String, SFError>)
        ensures
            exists|magic: bool, sell_pos: u32|
                sell_pos < 6 && match #[trigger] spec_request(*self, magic, sell_pos) {
                    Some(t) => r matches Ok(s) && s@ == t,
                    None => r matches Err(SFError::InvalidRequest(m)) && m@
                        == "The tower must be fought with the FightTower command"@,
                },
    {
        let (magic, sell_pos) = match self {
            Command::SellShop { .. } => (random_magic_shop(), random_shop_pos()),
            _ => (false, 0),
        };
        self.request_string_with(magic, sell_pos)
    }
}

} // verus!

verus! {

/// A command that can be sent to the server.
#[derive(Debug, Clone)]
pub enum Command {
    /// A command that is not covered by the others: its name and its arguments.
    Custom {
        /// The part of the command before the `:`
        cmd_name: String,
        /// The arguments, which are joined with `/`
        arguments: Vec<String>,
    },
    /// Logs in a player. Prefer the login methods of a session.
    Login {
        /// The name of the player
        username: String,
        /// The SHA-1 hash of the password
        pw_hash: String,
        /// The number of logins so far
        login_count: u32,
    },
    /// Registers a new character (with a default portrait).
    Register {
        /// The name of the new account
        username: String,
        /// The password of the new account
        password: String,
        /// The gender of the new character
        gender: Gender,
        /// The race of the new character
        race: Race,
        /// The class of the new character
        class: Class,
    },
    /// Updates the whole game state and tells the guild that the player is online.
    Update,
    /// Queries a page of the hall of fame.
    HallOfFamePage {
        /// The page (51 entries each)
        page: usize,
    },
    /// Queries a page of the fortress hall of fame.
    HallOfFameFortressPage {
        /// The page (51 entries each)
        page: usize,
    },
    /// Looks at another player.
    ViewPlayer {
        /// The name or the id of the player
        ident: String,
    },
    /// Buys a beer in the tavern.
    BuyBeer,
    /// Starts one of the three tavern quests.
    StartQuest {
        /// The position of the quest (0 to 2)
        quest_pos: usize,
        /// Whether a full inventory may lose an item
        overwrite_inv: bool,
    },
    /// Cancels the running quest.
    CancelQuest,
    /// Finishes the current quest, which starts its fight.
    FinishQuest {
        /// The way to skip the remaining time, if any
        skip: Option<TimeSkip>,
    },
    /// Starts working as a guard.
    StartWork {
        /// The hours to work (1 to 10)
        hours: u8,
    },
    /// Cancels the guard job.
    CancelWork,
    /// Collects the pay of the guard job.
    FinishWork,
    /// Checks whether a name is still free.
    CheckNameAvailable {
        /// The name to check
        name: String,
    },
    /// Buys a mount.
    BuyMount {
        /// The mount to buy
        mount: Mount,
    },
    /// Increases a base attribute.
    IncreaseAttribute {
        /// The attribute to increase
        attribute: AttributeType,
        /// The new value: the current one plus 1
        increase_to: u32,
    },
    /// Removes an active potion.
    RemovePotion {
        /// The position of the potion (0 to 2)
        pos: usize,
    },
    /// Queries the enemies of the arena.
    CheckArena,
    /// Fights another player.
    Fight {
        /// The name of the player to fight
        name: String,
        /// Whether to pay a mushroom where the timer has not run out
        use_mushroom: bool,
    },
    /// Collects the reward of the calendar.
    CollectCalendar,
    /// Looks at another guild.
    ViewGuild {
        /// The name or the id of the guild
        guild_ident: String,
    },
    /// Founds a guild.
    GuildFound {
        /// The name of the new guild
        name: String,
    },
    /// Invites a player into the guild.
    GuildInvitePlayer {
        /// The name of the player
        name: String,
    },
    /// Kicks a member from the guild.
    GuildKickPlayer {
        /// The name of the member
        name: String,
    },
    /// Makes a member the leader of the guild.
    GuildSetLeader {
        /// The name of the member
        name: String,
    },
    /// Toggles a member between officer and member.
    GuildToggleOfficer {
        /// The name of the member
        name: String,
    },
    /// Loads a mushroom into the catapult.
    GuildLoadMushrooms,
    /// Increases a guild skill by 1.
    GuildIncreaseSkill {
        /// The skill to increase
        skill: GuildSkill,
        /// The current value of the skill
        current: u16,
    },
    /// Joins the running attack.
    GuildJoinAttack,
    /// Joins the defense of the guild.
    GuildJoinDefense,
    /// Attacks another guild.
    GuildAttack {
        /// The name of the guild to attack
        guild: String,
    },
    /// Starts the next raid.
    GuildRaid,
    /// Fights the enemy of the guild portal.
    GuildPortalBattle,
    /// Fetches the guilds that can be fought.
    GuildGetFightableTargets,
    /// Flushes the toilet.
    ToiletFlush,
    /// Opens the toilet door for the first time.
    ToiletOpen,
    /// Drops an item into the toilet.
    ToiletDrop {
        /// The inventory of the item
        inventory: PlayerItemPlace,
        /// The position of the item (from 0)
        pos: usize,
    },
    /// Buys an item from a shop.
    BuyShop {
        /// The shop to buy from
        shop_type: ShopType,
        /// The position of the item in the shop
        shop_pos: usize,
        /// The inventory to put the item into
        inventory: PlayerItemPlace,
        /// The position in that inventory
        inventory_pos: usize,
    },
    /// Sells an item to one of the shops, at a position chosen at random.
    SellShop {
        /// The inventory of the item
        inventory: PlayerItemPlace,
        /// The position of the item
        inventory_pos: usize,
    },
    /// Moves an item between inventory positions.
    InventoryMove {
        /// The inventory to move from
        inventory_from: PlayerItemPlace,
        /// The position to move from
        inventory_from_pos: usize,
        /// The inventory to move to
        inventory_to: PlayerItemPlace,
        /// The position to move to
        inventory_to_pos: usize,
    },
    /// Moves an item from any place to any other.
    ItemMove {
        /// The place to move from
        from: ItemPlace,
        /// The position to move from
        from_pos: usize,
        /// The place to move to
        to: ItemPlace,
        /// The position to move to
        to_pos: usize,
    },
    /// Uses a potion.
    UsePotion {
        /// The place of the potion
        from: ItemPlace,
        /// The position of the potion
        from_pos: usize,
    },
    /// Opens a message.
    MessageOpen {
        /// The position of the message in the inbox
        pos: i32,
    },
    /// Deletes a message, or all of them.
    MessageDelete {
        /// The position of the message, or -1 for all
        pos: i32,
    },
    /// Fetches the scrapbook.
    ViewScrapbook,
    /// Fetches the statistics of a pet.
    ViewPet {
        /// The id of the pet
        pet_id: u16,
    },
    /// Unlocks a feature.
    UnlockFeature {
        /// The feature to unlock
        unlockable: Unlockable,
    },
    /// Fights the enemy of the personal portal.
    FightPortal,
    /// Fights in a dungeon. The tower is fought with `FightTower`.
    FightDungeon {
        /// The dungeon to fight in (not the tower)
        dungeon: Dungeon,
        /// Whether to pay a mushroom where the timer has not run out
        use_mushroom: bool,
    },
    /// Fights in the tower.
    FightTower {
        /// The current level in the tower
        current_level: u8,
        /// Whether to pay a mushroom where the timer has not run out
        use_mush: bool,
    },
    /// Fights the pet opponent.
    FightPetOpponent {
        /// The habitat to fight in
        habitat: HabitatType,
        /// The id of the opponent
        opponent_id: PlayerId,
    },
    /// Fights in a pet dungeon.
    FightPetDungeon {
        /// Whether to pay a mushroom where the timer has not run out
        use_mush: bool,
        /// The habitat of the dungeon
        habitat: HabitatType,
        /// The explored count of the habitat plus 1
        enemy_pos: u32,
        /// The pet to fight with
        player_pet_id: u32,
    },
    /// Sets the description and the emblem of the guild.
    GuildSetInfo {
        /// The new description
        description: String,
        /// The new emblem
        emblem: Emblem,
    },
    /// Gambles silver.
    GambleSilver {
        /// The silver to gamble
        amount: u64,
    },
    /// Gambles mushrooms.
    GambleMushrooms {
        /// The mushrooms to gamble
        amount: u64,
    },
    /// Sends a message to another player.
    SendMessage {
        /// The name of the receiver
        to: String,
        /// The message
        msg: String,
    },
    /// Sets the description of the character.
    SetDescription {
        /// The new description (at most 240 characters once escaped)
        description: String,
    },
    /// Drops an item into the witch's cauldron.
    WitchDropCauldron {
        /// The inventory of the item
        inventory_t: PlayerItemPlace,
        /// The position of the item
        position: usize,
    },
    /// Lets the blacksmith work on an item.
    Blacksmith {
        /// The inventory of the item
        inventory_t: PlayerItemPlace,
        /// The position of the item
        position: u8,
        /// What to do with the item
        action: BlacksmithAction,
    },
    /// Sends a message to the guild chat.
    GuildSendChat {
        /// The message
        message: String,
    },
    /// Enchants an item.
    WitchEnchant {
        /// The character specific value of the enchantment
        enchantment: EnchantmentIdent,
    },
    /// Spins the wheel of fortune.
    SpinWheelOfFortune {
        /// How to pay
        payment: FortunePayment,
    },
    /// Collects a reward chest of the event tasks.
    CollectEventTaskReward {
        /// The position of the chest
        pos: usize,
    },
    /// Collects a reward chest of the daily tasks.
    CollectDailyQuestReward {
        /// The position of the chest
        pos: usize,
    },
    /// Equips an item on a companion.
    EquipCompanion {
        /// The inventory of the item
        from_inventory: InventoryType,
        /// The position of the item
        from_pos: u8,
        /// The companion
        to_companion: CompanionClass,
        /// The slot to equip
        to_slot: EquipmentSlot,
    },
    /// Gathers a resource of the fortress.
    FortressGather {
        /// The resource to gather
        resource: FortressResourceType,
    },
    /// Starts building or upgrading a building.
    FortressBuild {
        /// The building
        f_type: FortressBuildingType,
    },
    /// Cancels the upgrade of a building.
    FortressBuildCancel {
        /// The building
        f_type: FortressBuildingType,
    },
    /// Finishes the upgrade of a building at once.
    FortressBuildFinish {
        /// The building
        f_type: FortressBuildingType,
        /// The mushrooms to pay
        mushrooms: u32,
    },
    /// Builds units.
    FortressBuildUnit {
        /// The unit
        unit: FortressUnitType,
        /// The number to build
        count: u32,
    },
    /// Starts searching for gems.
    FortressGemStoneSearch,
    /// Cancels the gem search.
    FortressGemStoneSearchCancel,
    /// Finishes the gem search at once.
    FortressGemStoneSearchFinish {
        /// The mushrooms to pay
        mushrooms: u32,
    },
    /// Attacks another fortress.
    FortressAttack {
        /// The soldiers to send
        soldiers: u32,
    },
    /// Picks a new fortress enemy.
    FortressNewEnemy {
        /// Whether to pay a mushroom
        use_mushroom: bool,
    },
    /// Picks the enemy of a counter attack.
    FortressSetCAEnemy {
        /// The message of the counter attack
        msg_id: u32,
    },
    /// Upgrades the hall of knights.
    FortressUpgradeHallOfKnights,
    /// Whispers to another player.
    Whisper {
        /// The name of the receiver
        player_name: String,
        /// The message
        message: String,
    },
    /// Collects a resource of the underworld.
    UnderworldCollect {
        /// The resource to collect
        resource: UnderWorldResourceType,
    },
    /// Upgrades a unit of the underworld.
    UnderworldUnitUpgrade {
        /// The unit
        unit: UnderworldUnitType,
    },
    /// Starts upgrading a building of the underworld.
    UnderworldUpgradeStart {
        /// The building
        building: UnderworldBuildingType,
        /// The mushrooms to pay
        mushrooms: u32,
    },
    /// Cancels the upgrade of a building of the underworld.
    UnderworldUpgradeCancel {
        /// The building (named by a unit type)
        building: UnderworldUnitType,
    },
    /// Finishes the upgrade of a building of the underworld at once.
    UnderworldUpgradeFinish {
        /// The building
        building: UnderworldBuildingType,
        /// The mushrooms to pay
        mushrooms: u32,
    },
    /// Lures another player into the underworld.
    UnderworldAttack {
        /// The player to lure
        player_id: PlayerId,
    },
    /// Rolls the dice.
    RollDice {
        /// How to pay
        payment: RollDicePrice,
        /// The dice to keep or reroll
        dices: [DiceType; 5],
    },
    /// Feeds a pet.
    PetFeed {
        /// The pet
        pet_id: u32,
        /// The fruit
        fruit_idx: u32,
    },
    /// Fights the guild's hydra.
    GuildPetBattle {
        /// Whether to pay a mushroom
        use_mushroom: bool,
    },
    /// Upgrades a building of the idle game.
    IdleUpgrade {
        /// The building
        typ: IdleBuildingType,
        /// The number of levels
        amount: u64,
    },
    /// Sacrifices the idle game for runes.
    IdleSacrifice,
    /// Upgrades an attribute.
    UpgradeSkill {
        /// The attribute
        attribute: AttributeType,
        /// The next value
        next_attribute: u32,
    },
    /// Refreshes a shop.
    RefreshShop {
        /// The shop
        shop: ShopType,
    },
    /// Queries a page of the guild hall of fame.
    HallOfFameGroupPage {
        /// The page (51 entries each)
        page: u32,
    },
    /// Queries a page of the underworld hall of fame.
    HallOfFameUnderworldPage {
        /// The page (51 entries each)
        page: u32,
    },
    /// Queries a page of the pet hall of fame.
    HallOfFamePetsPage {
        /// The page (51 entries each)
        page: u32,
    },
    /// Swaps the equipment with the manequin.
    SwapManequin,
    /// Sets the flag of the character.
    UpdateFlag {
        /// The new flag, if any
        flag: Option<Flag>,
    },
    /// Blocks or allows guild invites.
    BlockGuildInvites {
        /// Whether to block invites
        block_invites: bool,
    },
    /// Shows or hides the tips.
    ShowTips {
        /// Whether to show tips
        show_tips: bool,
    },
    /// Changes the password of the account.
    ChangePassword {
        /// The name of the account
        username: String,
        /// The old password
        old: String,
        /// The new password
        new: String,
    },
    /// Changes the mail address of the account.
    ChangeMailAddress {
        /// The old address
        old_mail: String,
        /// The new address
        new_mail: String,
        /// The password
        password: String,
        /// The name of the account
        username: String,
    },
    /// Sets the language.
    SetLanguage {
        /// The language code
        language: String,
    },
    /// Sets the relation to another player.
    SetPlayerRelation {
        /// The other player
        player_id: PlayerId,
        /// The relation
        relation: Relationship,
    },
    /// Sets the frame of the portrait.
    SetPortraitFrame {
        /// The frame
        portrait_id: i64,
    },
    /// Swaps the runes of two items.
    SwapRunes {
        /// The place of the first item
        from: ItemPlace,
        /// Its position
        from_pos: usize,
        /// The place of the second item
        to: ItemPlace,
        /// Its position
        to_pos: usize,
    },
    /// Changes the look of an item.
    ChangeItemLook {
        /// The place of the item
        inv: ItemPlace,
        /// Its position
        pos: usize,
        /// The new model
        raw_model_id: u16,
    },
    /// Picks an encounter of the expedition.
    ExpeditionPickEncounter {
        /// The position of the encounter
        pos: usize,
    },
    /// Continues the expedition.
    ExpeditionContinue,
    /// Picks a reward of the expedition.
    ExpeditionPickReward {
        /// The position of the reward
        pos: usize,
    },
    /// Starts an expedition.
    ExpeditionStart {
        /// The position of the expedition
        pos: usize,
    },
    /// Skips the waiting time of the expedition.
    ExpeditionSkipWait {
        /// How to skip
        typ: TimeSkip,
    },
    /// Sets whether quests are preferred to expeditions.
    SetQuestsInsteadOfExpeditions {
        /// The preference
        value: ExpeditionSetting,
    },
    /// Enters the hellevator.
    HellevatorEnter,
    /// Fetches the hellevator ranking of the own guild.
    HellevatorViewGuildRanking,
    /// Fights in the hellevator.
    HellevatorFight {
        /// Whether to pay a mushroom
        use_mushroom: bool,
    },
    /// Buys a treat in the hellevator shop.
    HellevatorBuy {
        /// The position in the shop
        position: usize,
        /// The treat
        typ: HellevatorTreatType,
        /// Its price
        price: u32,
        /// Whether to pay with mushrooms
        use_mushroom: bool,
    },
    /// Refreshes the hellevator shop.
    HellevatorRefreshShop,
    /// Joins the hell attack.
    HellevatorJoinHellAttack {
        /// Whether to pay a mushroom
        use_mushroom: bool,
        /// The plain to attack
        plain: usize,
    },
    /// Claims the daily reward of the hellevator.
    HellevatorClaimDaily,
    /// Claims the final reward of the hellevator.
    HellevatorClaimFinal,
    /// Previews the rewards of the hellevator.
    HellevatorPreviewRewards,
    /// Queries a page of the hellevator hall of fame.
    HallOfFameHellevatorPage {
        /// The page (51 entries each)
        page: usize,
    },
    /// Previews a claimable mail.
    ClaimablePreview {
        /// The claimable
        msg_id: i64,
    },
    /// Claims a claimable mail.
    ClaimableClaim {
        /// The claimable
        msg_id: i64,
    },
    /// Buys the gold frame.
    BuyGoldFrame,
}

/// The group of commands whose request parts one function builds.
pub open spec fn request_group(cmd: Command) -> int {
    match cmd {
        Command::Custom { .. } => -1,
        Command::Login { .. } => 0,
        Command::Register { .. } => 0,
        Command::Update => 0,
        Command::HallOfFamePage { .. } => 0,
        Command::HallOfFameFortressPage { .. } => 0,
        Command::ViewPlayer { .. } => 0,
        Command::BuyBeer => 0,
        Command::StartQuest { .. } => 0,
        Command::CancelQuest => 1,
        Command::FinishQuest { .. } => 1,
        Command::StartWork { .. } => 1,
        Command::CancelWork => 1,
        Command::FinishWork => 1,
        Command::CheckNameAvailable { .. } => 1,
        Command::BuyMount { .. } => 1,
        Command::IncreaseAttribute { .. } => 1,
        Command::RemovePotion { .. } => 2,
        Command::CheckArena => 2,
        Command::Fight { .. } => 2,
        Command::CollectCalendar => 2,
        Command::ViewGuild { .. } => 2,
        Command::GuildFound { .. } => 2,
        Command::GuildInvitePlayer { .. } => 2,
        Command::GuildKickPlayer { .. } => 2,
        Command::GuildSetLeader { .. } => 3,
        Command::GuildToggleOfficer { .. } => 3,
        Command::GuildLoadMushrooms => 3,
        Command::GuildIncreaseSkill { .. } => 3,
        Command::GuildJoinAttack => 3,
        Command::GuildJoinDefense => 3,
        Command::GuildAttack { .. } => 3,
        Command::GuildRaid => 3,
        Command::GuildPortalBattle => 4,
        Command::GuildGetFightableTargets => 4,
        Command::ToiletFlush => 4,
        Command::ToiletOpen => 4,
        Command::ToiletDrop { .. } => 4,
        Command::BuyShop { .. } => 4,
        Command::SellShop { .. } => 4,
        Command::InventoryMove { .. } => 4,
        Command::ItemMove { .. } => 5,
        Command::UsePotion { .. } => 5,
        Command::MessageOpen { .. } => 5,
        Command::MessageDelete { .. } => 5,
        Command::ViewScrapbook => 5,
        Command::ViewPet { .. } => 5,
        Command::UnlockFeature { .. } => 5,
        Command::FightPortal => 5,
        Command::FightDungeon { .. } => -1,
        Command::FightTower { .. } => 6,
        Command::FightPetOpponent { .. } => 6,
        Command::FightPetDungeon { .. } => 6,
        Command::GuildSetInfo { .. } => 6,
        Command::GambleSilver { .. } => 6,
        Command::GambleMushrooms { .. } => 6,
        Command::SendMessage { .. } => 6,
        Command::SetDescription { .. } => 6,
        Command::WitchDropCauldron { .. } => 7,
        Command::Blacksmith { .. } => 7,
        Command::GuildSendChat { .. } => 7,
        Command::WitchEnchant { .. } => 7,
        Command::SpinWheelOfFortune { .. } => 7,
        Command::CollectEventTaskReward { .. } => 7,
        Command::CollectDailyQuestReward { .. } => 7,
        Command::EquipCompanion { .. } => 7,
        Command::FortressGather { .. } => 8,
        Command::FortressBuild { .. } => 8,
        Command::FortressBuildCancel { .. } => 8,
        Command::FortressBuildFinish { .. } => 8,
        Command::FortressBuildUnit { .. } => 8,
        Command::FortressGemStoneSearch => 8,
        Command::FortressGemStoneSearchCancel => 8,
        Command::FortressGemStoneSearchFinish { .. } => 8,
        Command::FortressAttack { .. } => 9,
        Command::FortressNewEnemy { .. } => 9,
        Command::FortressSetCAEnemy { .. } => 9,
        Command::FortressUpgradeHallOfKnights => 9,
        Command::Whisper { .. } => 9,
        Command::UnderworldCollect { .. } => 9,
        Command::UnderworldUnitUpgrade { .. } => 9,
        Command::UnderworldUpgradeStart { .. } => 9,
        Command::UnderworldUpgradeCancel { .. } => 10,
        Command::UnderworldUpgradeFinish { .. } => 10,
        Command::UnderworldAttack { .. } => 10,
        Command::RollDice { .. } => 10,
        Command::PetFeed { .. } => 10,
        Command::GuildPetBattle { .. } => 10,
        Command::IdleUpgrade { .. } => 10,
        Command::IdleSacrifice => 10,
        Command::UpgradeSkill { .. } => 11,
        Command::RefreshShop { .. } => 11,
        Command::HallOfFameGroupPage { .. } => 11,
        Command::HallOfFameUnderworldPage { .. } => 11,
        Command::HallOfFamePetsPage { .. } => 11,
        Command::SwapManequin => 11,
        Command::UpdateFlag { .. } => 11,
        Command::BlockGuildInvites { .. } => 11,
        Command::ShowTips { .. } => 12,
        Command::ChangePassword { .. } => 12,
        Command::ChangeMailAddress { .. } => 12,
        Command::SetLanguage { .. } => 12,
        Command::SetPlayerRelation { .. } => 12,
        Command::SetPortraitFrame { .. } => 12,
        Command::SwapRunes { .. } => 12,
        Command::ChangeItemLook { .. } => 12,
        Command::ExpeditionPickEncounter { .. } => 13,
        Command::ExpeditionContinue => 13,
        Command::ExpeditionPickReward { .. } => 13,
        Command::ExpeditionStart { .. } => 13,
        Command::ExpeditionSkipWait { .. } => 13,
        Command::SetQuestsInsteadOfExpeditions { .. } => 13,
        Command::HellevatorEnter => 13,
        Command::HellevatorViewGuildRanking => -1,
        Command::HellevatorFight { .. } => 13,
        Command::HellevatorBuy { .. } => 14,
        Command::HellevatorRefreshShop => 14,
        Command::HellevatorJoinHellAttack { .. } => 14,
        Command::HellevatorClaimDaily => 14,
        Command::HellevatorClaimFinal => 14,
        Command::HellevatorPreviewRewards => 14,
        Command::HallOfFameHellevatorPage { .. } => 14,
        Command::ClaimablePreview { .. } => 14,
        Command::ClaimableClaim { .. } => 15,
        Command::BuyGoldFrame => 15,
    }
}

/// The name and the arguments of the request of a command, where the
/// request is made of them. `magic` and `shop_pos` are the shop and the
/// position that the item of `SellShop` is sold to.
pub open spec fn request_parts(cmd: Command, magic: bool, sell_pos: u32) -> (Seq<char>, Seq<Seq<char>>) {
    match cmd {
        Command::Login { username, pw_hash, login_count } => ("AccountLogin"@, seq![username@, spec_login_hash(pw_hash@, login_count), decimal_text(login_count as nat), "unity3d_webglplayer"@, ""@, "2100000000000"@, ""@, ""@, "0"@, ""@]),
        Command::Register { username, password, gender, race, class } => ("AccountCreate"@, seq![username@, password@, username@ + "@playa.sso"@, decimal_text(spec_gender_code(gender)), decimal_text(race.spec_id() as nat), decimal_text((class.spec_index() + 1) as nat), "8,203,201,6,199,3,1,2,1"@, "0"@, ""@, "en"@]),
        Command::Update => ("Poll"@, seq![]),
        Command::HallOfFamePage { page } => ("PlayerGetHallOfFame"@, seq![decimal_text(26usize.wrapping_add(51usize.wrapping_mul(page)) as nat), ""@, "25"@, "25"@]),
        Command::HallOfFameFortressPage { page } => ("FortressGetHallOfFame"@, seq![decimal_text(26usize.wrapping_add(51usize.wrapping_mul(page)) as nat), ""@, "25"@, "25"@]),
        Command::ViewPlayer { ident } => ("PlayerLookAt"@, seq![ident@]),
        Command::BuyBeer => ("PlayerBeerBuy"@, seq![]),
        Command::StartQuest { quest_pos, overwrite_inv } => ("PlayerAdventureStart"@, seq![decimal_text((quest_pos).wrapping_add(1) as nat), decimal_text(nat_of_bool(overwrite_inv))]),
        Command::CancelQuest => ("PlayerAdventureStop"@, seq![]),
        Command::FinishQuest { skip } => ("PlayerAdventureFinished"@, seq![decimal_text(spec_skip_code(skip))]),
        Command::StartWork { hours } => ("PlayerWorkStart"@, seq![decimal_text(hours as nat)]),
        Command::CancelWork => ("PlayerWorkStop"@, seq![]),
        Command::FinishWork => ("PlayerWorkFinished"@, seq![]),
        Command::CheckNameAvailable { name } => ("AccountCheck"@, seq![name@]),
        Command::BuyMount { mount } => ("PlayerMountBuy"@, seq![decimal_text(spec_mount_code(mount))]),
        Command::IncreaseAttribute { attribute, increase_to } => ("PlayerAttributIncrease"@, seq![decimal_text(attribute.spec_id() as nat), decimal_text(increase_to as nat)]),
        Command::RemovePotion { pos } => ("PlayerPotionKill"@, seq![decimal_text((pos).wrapping_add(1) as nat)]),
        Command::CheckArena => ("PlayerArenaEnemy"@, seq![]),
        Command::Fight { name, use_mushroom } => ("PlayerArenaFight"@, seq![name@, decimal_text(nat_of_bool(use_mushroom))]),
        Command::CollectCalendar => ("PlayerOpenCalender"@, seq![]),
        Command::ViewGuild { guild_ident } => ("GroupLookAt"@, seq![guild_ident@]),
        Command::GuildFound { name } => ("GroupFound"@, seq![name@]),
        Command::GuildInvitePlayer { name } => ("GroupInviteMember"@, seq![name@]),
        Command::GuildKickPlayer { name } => ("GroupRemoveMember"@, seq![name@]),
        Command::GuildSetLeader { name } => ("GroupSetLeader"@, seq![name@]),
        Command::GuildToggleOfficer { name } => ("GroupSetOfficer"@, seq![name@]),
        Command::GuildLoadMushrooms => ("GroupIncreaseBuilding"@, seq!["0"@]),
        Command::GuildIncreaseSkill { skill, current } => ("GroupSkillIncrease"@, seq![decimal_text(spec_skill_index(skill)), decimal_text(current as nat)]),
        Command::GuildJoinAttack => ("GroupReadyAttack"@, seq![]),
        Command::GuildJoinDefense => ("GroupReadyDefense"@, seq![]),
        Command::GuildAttack { guild } => ("GroupAttackDeclare"@, seq![guild@]),
        Command::GuildRaid => ("GroupRaidDeclare"@, seq![]),
        Command::GuildPortalBattle => ("GroupPortalBattle"@, seq![]),
        Command::GuildGetFightableTargets => ("GroupFightableTargets"@, seq![]),
        Command::ToiletFlush => ("PlayerToilettFlush"@, seq![]),
        Command::ToiletOpen => ("PlayerToilettOpenWithKey"@, seq![]),
        Command::ToiletDrop { inventory, pos } => ("PlayerToilettLoad"@, seq![decimal_text(spec_player_place_code(inventory)), decimal_text((pos).wrapping_add(1) as nat)]),
        Command::BuyShop { shop_type, shop_pos, inventory, inventory_pos } => ("PlayerItemMove"@, seq![decimal_text(spec_shop_code(shop_type)), decimal_text((shop_pos).wrapping_add(1) as nat), decimal_text(spec_player_place_code(inventory)), decimal_text((inventory_pos).wrapping_add(1) as nat)]),
        Command::SellShop { inventory, inventory_pos } => ("PlayerItemMove"@, seq![decimal_text(spec_player_place_code(inventory)), decimal_text((inventory_pos).wrapping_add(1) as nat), decimal_text(if magic { 4nat } else { 3nat }), decimal_text((sell_pos + 1) as nat)]),
        Command::InventoryMove { inventory_from, inventory_from_pos, inventory_to, inventory_to_pos } => ("PlayerItemMove"@, seq![decimal_text(spec_player_place_code(inventory_from)), decimal_text((inventory_from_pos).wrapping_add(1) as nat), decimal_text(spec_player_place_code(inventory_to)), decimal_text((inventory_to_pos).wrapping_add(1) as nat)]),
        Command::ItemMove { from, from_pos, to, to_pos } => ("PlayerItemMove"@, seq![decimal_text(spec_place_code(from)), decimal_text((from_pos).wrapping_add(1) as nat), decimal_text(spec_place_code(to)), decimal_text((to_pos).wrapping_add(1) as nat)]),
        Command::UsePotion { from, from_pos } => ("PlayerItemMove"@, seq![decimal_text(spec_place_code(from)), decimal_text((from_pos).wrapping_add(1) as nat), "1"@, "0"@, ""@]),
        Command::MessageOpen { pos } => ("PlayerMessageView"@, seq![signed_decimal_text(pos.wrapping_add(1) as int)]),
        Command::MessageDelete { pos } => ("PlayerMessageDelete"@, seq![signed_decimal_text(if pos == -1 { -1int } else { pos.wrapping_add(1) as int })]),
        Command::ViewScrapbook => ("PlayerPollScrapbook"@, seq![]),
        Command::ViewPet { pet_id } => ("PetsGetStats"@, seq![decimal_text(pet_id as nat)]),
        Command::UnlockFeature { unlockable } => ("UnlockFeature"@, seq![signed_decimal_text(unlockable.main_ident as int), signed_decimal_text(unlockable.sub_ident as int)]),
        Command::FightPortal => ("PlayerPortalBattle"@, seq![]),
        Command::FightTower { current_level, use_mush } => ("PlayerTowerBattle"@, seq![decimal_text(current_level as nat), decimal_text(nat_of_bool(use_mush))]),
        Command::FightPetOpponent { habitat, opponent_id } => ("PetsPvPFight"@, seq!["0"@, decimal_text(opponent_id as nat), decimal_text((habitat.spec_index() + 1) as nat)]),
        Command::FightPetDungeon { use_mush, habitat, enemy_pos, player_pet_id } => ("PetsDungeonFight"@, seq![decimal_text(nat_of_bool(use_mush)), decimal_text((habitat.spec_index() + 1) as nat), decimal_text(enemy_pos as nat), decimal_text(player_pet_id as nat)]),
        Command::GuildSetInfo { description, emblem } => ("GroupSetDescription"@, seq![emblem.raw@ + seq!['\u{a7}'] + escaped(description@)]),
        Command::GambleSilver { amount } => ("PlayerGambleGold"@, seq![decimal_text(amount as nat)]),
        Command::GambleMushrooms { amount } => ("PlayerGambleCoins"@, seq![decimal_text(amount as nat)]),
        Command::SendMessage { to, msg } => ("PlayerMessageSend"@, seq![to@, escaped(msg@)]),
        Command::SetDescription { description } => ("PlayerSetDescription"@, seq![escaped(description@)]),
        Command::WitchDropCauldron { inventory_t, position } => ("PlayerWitchSpendItem"@, seq![decimal_text(spec_player_place_code(inventory_t)), decimal_text((position).wrapping_add(1) as nat)]),
        Command::Blacksmith { inventory_t, position, action } => ("PlayerItemMove"@, seq![decimal_text(spec_player_place_code(inventory_t)), decimal_text(position.wrapping_add(1) as nat), decimal_text(spec_action_code(action)), "-1"@]),
        Command::GuildSendChat { message } => ("GroupChat"@, seq![escaped(message@)]),
        Command::WitchEnchant { enchantment } => ("PlayerWitchEnchantItem"@, seq![decimal_text(enchantment.0 as nat), "1"@]),
        Command::SpinWheelOfFortune { payment } => ("WheelOfFortune"@, seq![decimal_text(spec_fortune_code(payment))]),
        Command::CollectEventTaskReward { pos } => ("DailyTaskClaim"@, seq!["2"@, decimal_text((pos).wrapping_add(1) as nat)]),
        Command::CollectDailyQuestReward { pos } => ("DailyTaskClaim"@, seq!["1"@, decimal_text((pos).wrapping_add(1) as nat)]),
        Command::EquipCompanion { from_inventory, from_pos, to_companion, to_slot } => ("PlayerItemMove"@, seq![decimal_text(spec_inventory_code(from_inventory)), decimal_text(from_pos as nat), decimal_text(spec_companion_code(to_companion)), decimal_text(to_slot.spec_raw_id() as nat)]),
        Command::FortressGather { resource } => ("FortressGather"@, seq![decimal_text((resource.spec_index() + 1) as nat)]),
        Command::FortressBuild { f_type } => ("FortressBuildStart"@, seq![decimal_text((f_type.spec_index() + 1) as nat), "0"@]),
        Command::FortressBuildCancel { f_type } => ("FortressBuildStop"@, seq![decimal_text((f_type.spec_index() + 1) as nat)]),
        Command::FortressBuildFinish { f_type, mushrooms } => ("FortressBuildFinished"@, seq![decimal_text((f_type.spec_index() + 1) as nat), decimal_text(mushrooms as nat)]),
        Command::FortressBuildUnit { unit, count } => ("FortressBuildUnitStart"@, seq![decimal_text((unit.spec_index() + 1) as nat), decimal_text(count as nat)]),
        Command::FortressGemStoneSearch => ("FortressGemstoneStart"@, seq![]),
        Command::FortressGemStoneSearchCancel => ("FortressGemStoneStop"@, seq!["0"@]),
        Command::FortressGemStoneSearchFinish { mushrooms } => ("FortressGemstoneFinished"@, seq![decimal_text(mushrooms as nat)]),
        Command::FortressAttack { soldiers } => ("FortressAttack"@, seq![decimal_text(soldiers as nat)]),
        Command::FortressNewEnemy { use_mushroom } => ("FortressEnemy"@, seq![decimal_text(nat_of_bool(use_mushroom))]),
        Command::FortressSetCAEnemy { msg_id } => ("FortressEnemy"@, seq!["0"@, decimal_text(msg_id as nat)]),
        Command::FortressUpgradeHallOfKnights => ("FortressGroupBonusUpgrade"@, seq![]),
        Command::Whisper { player_name, message } => ("PlayerMessageWhisper"@, seq![player_name@, escaped(message@)]),
        Command::UnderworldCollect { resource } => ("UnderworldGather"@, seq![decimal_text((resource.spec_index() + 1) as nat)]),
        Command::UnderworldUnitUpgrade { unit } => ("UnderworldUpgradeUnit"@, seq![decimal_text((unit.spec_index() + 1) as nat)]),
        Command::UnderworldUpgradeStart { building, mushrooms } => ("UnderworldBuildStart"@, seq![decimal_text((building.spec_index() + 1) as nat), decimal_text(mushrooms as nat)]),
        Command::UnderworldUpgradeCancel { building } => ("UnderworldBuildStop"@, seq![decimal_text((building.spec_index() + 1) as nat)]),
        Command::UnderworldUpgradeFinish { building, mushrooms } => ("UnderworldBuildFinished"@, seq![decimal_text((building.spec_index() + 1) as nat), decimal_text(mushrooms as nat)]),
        Command::UnderworldAttack { player_id } => ("UnderworldAttack"@, seq![decimal_text(player_id as nat)]),
        Command::RollDice { payment, dices } => ("RollDice"@, seq![decimal_text(spec_dice_price_code(payment)), seq![dice_char(dices[0])], seq![dice_char(dices[1])], seq![dice_char(dices[2])], seq![dice_char(dices[3])], seq![dice_char(dices[4])]]),
        Command::PetFeed { pet_id, fruit_idx } => ("PlayerPetFeed"@, seq![decimal_text(pet_id as nat), decimal_text(fruit_idx as nat)]),
        Command::GuildPetBattle { use_mushroom } => ("GroupPetBattle"@, seq![decimal_text(nat_of_bool(use_mushroom))]),
        Command::IdleUpgrade { typ, amount } => ("IdleIncrease"@, seq![decimal_text((typ.spec_index() + 1) as nat), decimal_text(amount as nat)]),
        Command::IdleSacrifice => ("IdlePrestige"@, seq!["0"@]),
        Command::UpgradeSkill { attribute, next_attribute } => ("PlayerAttributIncrease"@, seq![decimal_text(attribute.spec_id() as nat), decimal_text(next_attribute as nat)]),
        Command::RefreshShop { shop } => ("PlayerNewWares"@, seq![decimal_text((spec_shop_code(shop) - 2) as nat)]),
        Command::HallOfFameGroupPage { page } => ("GroupGetHallOfFame"@, seq![decimal_text(26u32.wrapping_add(51u32.wrapping_mul(page)) as nat), ""@, "25"@, "25"@]),
        Command::HallOfFameUnderworldPage { page } => ("UnderworldGetHallOfFame"@, seq![decimal_text(26u32.wrapping_add(51u32.wrapping_mul(page)) as nat), ""@, "25"@, "25"@]),
        Command::HallOfFamePetsPage { page } => ("PetsGetHallOfFame"@, seq![decimal_text(26u32.wrapping_add(51u32.wrapping_mul(page)) as nat), ""@, "25"@, "25"@]),
        Command::SwapManequin => ("PlayerDummySwap"@, seq!["301"@, "1"@]),
        Command::UpdateFlag { flag } => ("PlayerSetFlag"@, seq![spec_flag_text(flag)]),
        Command::BlockGuildInvites { block_invites } => ("PlayerSetNoGroupInvite"@, seq![decimal_text(nat_of_bool(block_invites))]),
        Command::ShowTips { show_tips } => ("PlayerTutorialStatus"@, seq![decimal_text(if show_tips { 0nat } else { 268435455nat })]),
        Command::ChangePassword { username, old, new } => ("AccountPasswordChange"@, seq![username@, spec_salted_hash(old@), "106"@, spec_salted_hash(new@), ""@]),
        Command::ChangeMailAddress { old_mail, new_mail, password, username } => ("AccountMailChange"@, seq![old_mail@, new_mail@, username@, spec_salted_hash(password@), "106"@]),
        Command::SetLanguage { language } => ("AccountSetLanguage"@, seq![language@]),
        Command::SetPlayerRelation { player_id, relation } => ("PlayerFriendSet"@, seq![decimal_text(player_id as nat), signed_decimal_text(spec_relation_code(relation))]),
        Command::SetPortraitFrame { portrait_id } => ("PlayerSetActiveFrame"@, seq![signed_decimal_text(portrait_id as int)]),
        Command::SwapRunes { from, from_pos, to, to_pos } => ("PlayerSmithSwapRunes"@, seq![decimal_text(spec_place_code(from)), decimal_text((from_pos).wrapping_add(1) as nat), decimal_text(spec_place_code(to)), decimal_text((to_pos).wrapping_add(1) as nat)]),
        Command::ChangeItemLook { inv, pos, raw_model_id } => ("ItemChangePicture"@, seq![decimal_text(spec_place_code(inv)), decimal_text((pos).wrapping_add(1) as nat), decimal_text(raw_model_id as nat)]),
        Command::ExpeditionPickEncounter { pos } => ("ExpeditionProceed"@, seq![decimal_text((pos).wrapping_add(1) as nat)]),
        Command::ExpeditionContinue => ("ExpeditionProceed"@, seq!["1"@]),
        Command::ExpeditionPickReward { pos } => ("ExpeditionProceed"@, seq![decimal_text((pos).wrapping_add(1) as nat)]),
        Command::ExpeditionStart { pos } => ("ExpeditionStart"@, seq![decimal_text((pos).wrapping_add(1) as nat)]),
        Command::ExpeditionSkipWait { typ } => ("ExpeditionTimeSkip"@, seq![decimal_text(spec_time_skip_code(typ))]),
        Command::SetQuestsInsteadOfExpeditions { value } => ("UserSettingsUpdate"@, seq!["5"@, spec_setting_text(value)]),
        Command::HellevatorEnter => ("GroupTournamentJoin"@, seq![]),
        Command::HellevatorFight { use_mushroom } => ("GroupTournamentBattle"@, seq![decimal_text(nat_of_bool(use_mushroom))]),
        Command::HellevatorBuy { position, typ, price, use_mushroom } => ("GroupTournamentMerchantBuy"@, seq![decimal_text(position as nat), decimal_text(spec_treat_code(typ)), decimal_text(price as nat), decimal_text(if use_mushroom { 2nat } else { 1nat })]),
        Command::HellevatorRefreshShop => ("GroupTournamentMerchantReroll"@, seq![]),
        Command::HellevatorJoinHellAttack { use_mushroom, plain } => ("GroupTournamentRaidParticipant"@, seq![decimal_text(nat_of_bool(use_mushroom)), decimal_text((plain).wrapping_add(1) as nat)]),
        Command::HellevatorClaimDaily => ("GroupTournamentClaimDaily"@, seq![]),
        Command::HellevatorClaimFinal => ("GroupTournamentClaim"@, seq![]),
        Command::HellevatorPreviewRewards => ("GroupTournamentPreview"@, seq![]),
        Command::HallOfFameHellevatorPage { page } => ("GroupTournamentRankingAllGroups"@, seq![decimal_text(26usize.wrapping_add(51usize.wrapping_mul(page)) as nat), ""@, "25"@, "25"@]),
        Command::ClaimablePreview { msg_id } => ("PendingRewardView"@, seq![signed_decimal_text(msg_id as int)]),
        Command::ClaimableClaim { msg_id } => ("PendingRewardClaim"@, seq![signed_decimal_text(msg_id as int)]),
        Command::BuyGoldFrame => ("PlayerGoldFrameBuy"@, seq![]),
        _ => (Seq::empty(), Seq::empty()),
    }
}

impl Command {
    /// The request parts of the commands of group 0.
    #[verifier::spinoff_prover]
    #[verifier::rlimit(50)]
    fn request_parts_0(&self, magic: bool, sell_pos: u32) -> (r: (String, Vec<String>))
        requires
            request_group(*self) == 0,
        ensures
            r.0@ == request_parts(*self, magic, sell_pos).0,
            string_views(r.1@) == request_parts(*self, magic, sell_pos).1,
    {
        match self {
            Command::Login { username, pw_hash, login_count } => {
                let v: Vec<String> = vec![username.clone(), login_hash(pw_hash.as_str(), *login_count), u64_to_string(*login_count as u64), "unity3d_webglplayer".to_string(), "".to_string(), "2100000000000".to_string(), "".to_string(), "".to_string(), "0".to_string(), "".to_string()];
                assert(string_views(v@) =~= request_parts(*self, magic, sell_pos).1);
                ("AccountLogin".to_string(), v)
            },
            Command::Register { username, password, gender, race, class } => {
                let v: Vec<String> = vec![username.clone(), password.clone(), mail_of(username.as_str()), u64_to_string(gender_code(*gender)), u64_to_string(race.id() as u64), u64_to_string(class.index() as u64 + 1), "8,203,201,6,199,3,1,2,1".to_string(), "0".to_string(), "".to_string(), "en".to_string()];
                assert(string_views(v@) =~= request_parts(*self, magic, sell_pos).1);
                ("AccountCreate".to_string(), v)
            },
            Command::Update => {
                let v: Vec<String> = vec![];
                assert(string_views(v@) =~= request_parts(*self, magic, sell_pos).1);
                ("Poll".to_string(), v)
            },
            Command::HallOfFamePage { page } => {
                let v: Vec<String> = vec![u64_to_string(26usize.wrapping_add(51usize.wrapping_mul(*page)) as u64), "".to_string(), "25".to_string(), "25".to_string()];
                assert(string_views(v@) =~= request_parts(*self, magic, sell_pos).1);
                ("PlayerGetHallOfFame".to_string(), v)
            },
            Command::HallOfFameFortressPage { page } => {
                let v: Vec<String> = vec![u64_to_string(26usize.wrapping_add(51usize.wrapping_mul(*page)) as u64), "".to_string(), "25".to_string(), "25".to_string()];
                assert(string_views(v@) =~= request_parts(*self, magic, sell_pos).1);
                ("FortressGetHallOfFame".to_string(), v)
            },
            Command::ViewPlayer { ident } => {
                let v: Vec<String> = vec![ident.clone()];
                assert(string_views(v@) =~= request_parts(*self, magic, sell_pos).1);
                ("PlayerLookAt".to_string(), v)
            },
            Command::BuyBeer => {
                let v: Vec<String> = vec![];
                assert(string_views(v@) =~= request_parts(*self, magic, sell_pos).1);
                ("PlayerBeerBuy".to_string(), v)
            },
            Command::StartQuest { quest_pos, overwrite_inv } => {
                let v: Vec<String> = vec![u64_to_string((*quest_pos).wrapping_add(1) as u64), u64_to_string(u64_of_bool(*overwrite_inv))];
                assert(string_views(v@) =~= request_parts(*self, magic, sell_pos).1);
                ("PlayerAdventureStart".to_string(), v)
            },
            _ => (String::new(), Vec::new()),
        }
    }
}

impl Command {
    /// The request parts of the commands of group 1.
    #[verifier::spinoff_prover]
    #[verifier::rlimit(50)]
    fn request_parts_1(&self, magic: bool, sell_pos: u32) -> (r: (String, Vec<String>))
        requires
            request_group(*self) == 1,
        ensures
            r.0@ == request_parts(*self, magic, sell_pos).0,
            string_views(r.1@) == request_parts(*self, magic, sell_pos).1,
    {
        match self {
            Command::CancelQuest => {
                let v: Vec<String> = vec![];
                assert(string_views(v@) =~= request_parts(*self, magic, sell_pos).1);
                ("PlayerAdventureStop".to_string(), v)
            },
            Command::FinishQuest { skip } => {
                let v: Vec<String> = vec![u64_to_string(skip_code(*skip))];
                assert(string_views(v@) =~= request_parts(*self, magic, sell_pos).1);
                ("PlayerAdventureFinished".to_string(), v)
            },
            Command::StartWork { hours } => {
                let v: Vec<String> = vec![u64_to_string(*hours as u64)];
                assert(string_views(v@) =~= request_parts(*self, magic, sell_pos).1);
                ("PlayerWorkStart".to_string(), v)
            },
            Command::CancelWork => {
                let v: Vec<String> = vec![];
                assert(string_views(v@) =~= request_parts(*self, magic, sell_pos).1);
                ("PlayerWorkStop".to_string(), v)
            },
            Command::FinishWork => {
                let v: Vec<String> = vec![];
                assert(string_views(v@) =~= request_parts(*self, magic, sell_pos).1);
                ("PlayerWorkFinished".to_string(), v)
            },
            Command::CheckNameAvailable { name } => {
                let v: Vec<String> = vec![name.clone()];
                assert(string_views(v@) =~= request_parts(*self, magic, sell_pos).1);
                ("AccountCheck".to_string(), v)
            },
            Command::BuyMount { mount } => {
                let v: Vec<String> = vec![u64_to_string(mount_code(*mount))];
                assert(string_views(v@) =~= request_parts(*self, magic, sell_pos).1);
                ("PlayerMountBuy".to_string(), v)
            },
            Command::IncreaseAttribute { attribute, increase_to } => {
                let v: Vec<String> = vec![u64_to_string(attribute.id() as u64), u64_to_string(*increase_to as u64)];
                assert(string_views(v@) =~= request_parts(*self, magic, sell_pos).1);
                ("PlayerAttributIncrease".to_string(), v)
            },
            _ => (String::new(), Vec::new()),
        }
    }
}

impl Command {
    /// The request parts of the commands of group 2.
    #[verifier::spinoff_prover]
    #[verifier::rlimit(50)]
    fn request_parts_2(&self, magic: bool, sell_pos: u32) -> (r: (String, Vec<String>))
        requires
            request_group(*self) == 2,
        ensures
            r.0@ == request_parts(*self, magic, sell_pos).0,
            string_views(r.1@) == request_parts(*self, magic, sell_pos).1,
    {
        match self {
            Command::RemovePotion { pos } => {
                let v: Vec<String> = vec![u64_to_string((*pos).wrapping_add(1) as u64)];
                assert(string_views(v@) =~= request_parts(*self, magic, sell_pos).1);
                ("PlayerPotionKill".to_string(), v)
            },
            Command::CheckArena => {
                let v: Vec<String> = vec![];
                assert(string_views(v@) =~= request_parts(*self, magic, sell_pos).1);
                ("PlayerArenaEnemy".to_string(), v)
            },
            Command::Fight { name, use_mushroom } => {
                let v: Vec<String> = vec![name.clone(), u64_to_string(u64_of_bool(*use_mushroom))];
                assert(string_views(v@) =~= request_parts(*self, magic, sell_pos).1);
                ("PlayerArenaFight".to_string(), v)
            },
            Command::CollectCalendar => {
                let v: Vec<String> = vec![];
                assert(string_views(v@) =~= request_parts(*self, magic, sell_pos).1);
                ("PlayerOpenCalender".to_string(), v)
            },
            Command::ViewGuild { guild_ident } => {
                let v: Vec<String> = vec![guild_ident.clone()];
                assert(string_views(v@) =~= request_parts(*self, magic, sell_pos).1);
                ("GroupLookAt".to_string(), v)
            },
            Command::GuildFound { name } => {
                let v: Vec<String> = vec![name.clone()];
                assert(string_views(v@) =~= request_parts(*self, magic, sell_pos).1);
                ("GroupFound".to_string(), v)
            },
            Command::GuildInvitePlayer { name } => {
                let v: Vec<String> = vec![name.clone()];
                assert(string_views(v@) =~= request_parts(*self, magic, sell_pos).1);
                ("GroupInviteMember".to_string(), v)
            },
            Command::GuildKickPlayer { name } => {
                let v: Vec<String> = vec![name.clone()];
                assert(string_views(v@) =~= request_parts(*self, magic, sell_pos).1);
                ("GroupRemoveMember".to_string(), v)
            },
            _ => (String::new(), Vec::new()),
        }
    }
}

impl Command {
    /// The request parts of the commands of group 3.
    #[verifier::spinoff_prover]
    #[verifier::rlimit(50)]
    fn request_parts_3(&self, magic: bool, sell_pos: u32) -> (r: (String, Vec<String>))
        requires
            request_group(*self) == 3,
        ensures
            r.0@ == request_parts(*self, magic, sell_pos).0,
            string_views(r.1@) == request_parts(*self, magic, sell_pos).1,
    {
        match self {
            Command::GuildSetLeader { name } => {
                let v: Vec<String> = vec![name.clone()];
                assert(string_views(v@) =~= request_parts(*self, magic, sell_pos).1);
                ("GroupSetLeader".to_string(), v)
            },
            Command::GuildToggleOfficer { name } => {
                let v: Vec<String> = vec![name.clone()];
                assert(string_views(v@) =~= request_parts(*self, magic, sell_pos).1);
                ("GroupSetOfficer".to_string(), v)
            },
            Command::GuildLoadMushrooms => {
                let v: Vec<String> = vec!["0".to_string()];
                assert(string_views(v@) =~= request_parts(*self, magic, sell_pos).1);
                ("GroupIncreaseBuilding".to_string(), v)
            },
            Command::GuildIncreaseSkill { skill, current } => {
                let v: Vec<String> = vec![u64_to_string(skill_index(*skill)), u64_to_string(*current as u64)];
                assert(string_views(v@) =~= request_parts(*self, magic, sell_pos).1);
                ("GroupSkillIncrease".to_string(), v)
            },
            Command::GuildJoinAttack => {
                let v: Vec<String> = vec![];
                assert(string_views(v@) =~= request_parts(*self, magic, sell_pos).1);
                ("GroupReadyAttack".to_string(), v)
            },
            Command::GuildJoinDefense => {
                let v: Vec<String> = vec![];
                assert(string_views(v@) =~= request_parts(*self, magic, sell_pos).1);
                ("GroupReadyDefense".to_string(), v)
            },
            Command::GuildAttack { guild } => {
                let v: Vec<String> = vec![guild.clone()];
                assert(string_views(v@) =~= request_parts(*self, magic, sell_pos).1);
                ("GroupAttackDeclare".to_string(), v)
            },
            Command::GuildRaid => {
                let v: Vec<String> = vec![];
                assert(string_views(v@) =~= request_parts(*self, magic, sell_pos).1);
                ("GroupRaidDeclare".to_string(), v)
            },
            _ => (String::new(), Vec::new()),
        }
    }
}

impl Command {
    /// The request parts of the commands of group 4.
    #[verifier::spinoff_prover]
    #[verifier::rlimit(50)]
    fn request_parts_4(&self, magic: bool, sell_pos: u32) -> (r: (String, Vec<String>))
        requires
            request_group(*self) == 4,
        ensures
            r.0@ == request_parts(*self, magic, sell_pos).0,
            string_views(r.1@) == request_parts(*self, magic, sell_pos).1,
    {
        match self {
            Command::GuildPortalBattle => {
                let v: Vec<String> = vec![];
                assert(string_views(v@) =~= request_parts(*self, magic, sell_pos).1);
                ("GroupPortalBattle".to_string(), v)
            },
            Command::GuildGetFightableTargets => {
                let v: Vec<String> = vec![];
                assert(string_views(v@) =~= request_parts(*self, magic, sell_pos).1);
                ("GroupFightableTargets".to_string(), v)
            },
            Command::ToiletFlush => {
                let v: Vec<String> = vec![];
                assert(string_views(v@) =~= request_parts(*self, magic, sell_pos).1);
                ("PlayerToilettFlush".to_string(), v)
            },
            Command::ToiletOpen => {
                let v: Vec<String> = vec![];
                assert(string_views(v@) =~= request_parts(*self, magic, sell_pos).1);
                ("PlayerToilettOpenWithKey".to_string(), v)
            },
            Command::ToiletDrop { inventory, pos } => {
                let v: Vec<String> = vec![u64_to_string(player_place_code(*inventory)), u64_to_string((*pos).wrapping_add(1) as u64)];
                assert(string_views(v@) =~= request_parts(*self, magic, sell_pos).1);
                ("PlayerToilettLoad".to_string(), v)
            },
            Command::BuyShop { shop_type, shop_pos, inventory, inventory_pos } => {
                let v: Vec<String> = vec![u64_to_string(shop_type.id() as u64), u64_to_string((*shop_pos).wrapping_add(1) as u64), u64_to_string(player_place_code(*inventory)), u64_to_string((*inventory_pos).wrapping_add(1) as u64)];
                assert(string_views(v@) =~= request_parts(*self, magic, sell_pos).1);
                ("PlayerItemMove".to_string(), v)
            },
            Command::SellShop { inventory, inventory_pos } => {
                let v: Vec<String> = vec![u64_to_string(player_place_code(*inventory)), u64_to_string((*inventory_pos).wrapping_add(1) as u64), u64_to_string(if magic { 4 } else { 3 }), u64_to_string(sell_pos as u64 + 1)];
                assert(string_views(v@) =~= request_parts(*self, magic, sell_pos).1);
                ("PlayerItemMove".to_string(), v)
            },
            Command::InventoryMove { inventory_from, inventory_from_pos, inventory_to, inventory_to_pos } => {
                let v: Vec<String> = vec![u64_to_string(player_place_code(*inventory_from)), u64_to_string((*inventory_from_pos).wrapping_add(1) as u64), u64_to_string(player_place_code(*inventory_to)), u64_to_string((*inventory_to_pos).wrapping_add(1) as u64)];
                assert(string_views(v@) =~= request_parts(*self, magic, sell_pos).1);
                ("PlayerItemMove".to_string(), v)
            },
            _ => (String::new(), Vec::new()),
        }
    }
}

impl Command {
    /// The request parts of the commands of group 5.
    #[verifier::spinoff_prover]
    #[verifier::rlimit(50)]
    fn request_parts_5(&self, magic: bool, sell_pos: u32) -> (r: (String, Vec<String>))
        requires
            request_group(*self) == 5,
        ensures
            r.0@ == request_parts(*self, magic, sell_pos).0,
            string_views(r.1@) == request_parts(*self, magic, sell_pos).1,
    {
        match self {
            Command::ItemMove { from, from_pos, to, to_pos } => {
                let v: Vec<String> = vec![u64_to_string(place_code(*from)), u64_to_string((*from_pos).wrapping_add(1) as u64), u64_to_string(place_code(*to)), u64_to_string((*to_pos).wrapping_add(1) as u64)];
                assert(string_views(v@) =~= request_parts(*self, magic, sell_pos).1);
                ("PlayerItemMove".to_string(), v)
            },
            Command::UsePotion { from, from_pos } => {
                let v: Vec<String> = vec![u64_to_string(place_code(*from)), u64_to_string((*from_pos).wrapping_add(1) as u64), "1".to_string(), "0".to_string(), "".to_string()];
                assert(string_views(v@) =~= request_parts(*self, magic, sell_pos).1);
                ("PlayerItemMove".to_string(), v)
            },
            Command::MessageOpen { pos } => {
                let v: Vec<String> = vec![i64_to_string(pos.wrapping_add(1) as i64)];
                assert(string_views(v@) =~= request_parts(*self, magic, sell_pos).1);
                ("PlayerMessageView".to_string(), v)
            },
            Command::MessageDelete { pos } => {
                let v: Vec<String> = vec![i64_to_string(if *pos == -1 { -1 } else { pos.wrapping_add(1) as i64 })];
                assert(string_views(v@) =~= request_parts(*self, magic, sell_pos).1);
                ("PlayerMessageDelete".to_string(), v)
            },
            Command::ViewScrapbook => {
                let v: Vec<String> = vec![];
                assert(string_views(v@) =~= request_parts(*self, magic, sell_pos).1);
                ("PlayerPollScrapbook".to_string(), v)
            },
            Command::ViewPet { pet_id } => {
                let v: Vec<String> = vec![u64_to_string(*pet_id as u64)];
                assert(string_views(v@) =~= request_parts(*self, magic, sell_pos).1);
                ("PetsGetStats".to_string(), v)
            },
            Command::UnlockFeature { unlockable } => {
                let v: Vec<String> = vec![i64_to_string(unlockable.main_ident), i64_to_string(unlockable.sub_ident)];
                assert(string_views(v@) =~= request_parts(*self, magic, sell_pos).1);
                ("UnlockFeature".to_string(), v)
            },
            Command::FightPortal => {
                let v: Vec<String> = vec![];
                assert(string_views(v@) =~= request_parts(*self, magic, sell_pos).1);
                ("PlayerPortalBattle".to_string(), v)
            },
            _ => (String::new(), Vec::new()),
        }
    }
}

impl Command {
    /// The request parts of the commands of group 6.
    #[verifier::spinoff_prover]
    #[verifier::rlimit(50)]
    fn request_parts_6(&self, magic: bool, sell_pos: u32) -> (r: (String, Vec<String>))
        requires
            request_group(*self) == 6,
        ensures
            r.0@ == request_parts(*self, magic, sell_pos).0,
            string_views(r.1@) == request_parts(*self, magic, sell_pos).1,
    {
        match self {
            Command::FightTower { current_level, use_mush } => {
                let v: Vec<String> = vec![u64_to_string(*current_level as u64), u64_to_string(u64_of_bool(*use_mush))];
                assert(string_views(v@) =~= request_parts(*self, magic, sell_pos).1);
                ("PlayerTowerBattle".to_string(), v)
            },
            Command::FightPetOpponent { habitat, opponent_id } => {
                let v: Vec<String> = vec!["0".to_string(), u64_to_string(*opponent_id as u64), u64_to_string(habitat.index() as u64 + 1)];
                assert(string_views(v@) =~= request_parts(*self, magic, sell_pos).1);
                ("PetsPvPFight".to_string(), v)
            },
            Command::FightPetDungeon { use_mush, habitat, enemy_pos, player_pet_id } => {
                let v: Vec<String> = vec![u64_to_string(u64_of_bool(*use_mush)), u64_to_string(habitat.index() as u64 + 1), u64_to_string(*enemy_pos as u64), u64_to_string(*player_pet_id as u64)];
                assert(string_views(v@) =~= request_parts(*self, magic, sell_pos).1);
                ("PetsDungeonFight".to_string(), v)
            },
            Command::GuildSetInfo { description, emblem } => {
                let v: Vec<String> = vec![guild_info(emblem, description.as_str())];
                assert(string_views(v@) =~= request_parts(*self, magic, sell_pos).1);
                ("GroupSetDescription".to_string(), v)
            },
            Command::GambleSilver { amount } => {
                let v: Vec<String> = vec![u64_to_string(*amount)];
                assert(string_views(v@) =~= request_parts(*self, magic, sell_pos).1);
                ("PlayerGambleGold".to_string(), v)
            },
            Command::GambleMushrooms { amount } => {
                let v: Vec<String> = vec![u64_to_string(*amount)];
                assert(string_views(v@) =~= request_parts(*self, magic, sell_pos).1);
                ("PlayerGambleCoins".to_string(), v)
            },
            Command::SendMessage { to, msg } => {
                let v: Vec<String> = vec![to.clone(), to_sf_string(msg.as_str())];
                assert(string_views(v@) =~= request_parts(*self, magic, sell_pos).1);
                ("PlayerMessageSend".to_string(), v)
            },
            Command::SetDescription { description } => {
                let v: Vec<String> = vec![to_sf_string(description.as_str())];
                assert(string_views(v@) =~= request_parts(*self, magic, sell_pos).1);
                ("PlayerSetDescription".to_string(), v)
            },
            _ => (String::new(), Vec::new()),
        }
    }
}

impl Command {
    /// The request parts of the commands of group 7.
    #[verifier::spinoff_prover]
    #[verifier::rlimit(50)]
    fn request_parts_7(&self, magic: bool, sell_pos: u32) -> (r: (String, Vec<String>))
        requires
            request_group(*self) == 7,
        ensures
            r.0@ == request_parts(*self, magic, sell_pos).0,
            string_views(r.1@) == request_parts(*self, magic, sell_pos).1,
    {
        match self {
            Command::WitchDropCauldron { inventory_t, position } => {
                let v: Vec<String> = vec![u64_to_string(player_place_code(*inventory_t)), u64_to_string((*position).wrapping_add(1) as u64)];
                assert(string_views(v@) =~= request_parts(*self, magic, sell_pos).1);
                ("PlayerWitchSpendItem".to_string(), v)
            },
            Command::Blacksmith { inventory_t, position, action } => {
                let v: Vec<String> = vec![u64_to_string(player_place_code(*inventory_t)), u64_to_string(position.wrapping_add(1) as u64), u64_to_string(action.id() as u64), "-1".to_string()];
                assert(string_views(v@) =~= request_parts(*self, magic, sell_pos).1);
                ("PlayerItemMove".to_string(), v)
            },
            Command::GuildSendChat { message } => {
                let v: Vec<String> = vec![to_sf_string(message.as_str())];
                assert(string_views(v@) =~= request_parts(*self, magic, sell_pos).1);
                ("GroupChat".to_string(), v)
            },
            Command::WitchEnchant { enchantment } => {
                let v: Vec<String> = vec![u64_to_string(enchantment.0 as u64), "1".to_string()];
                assert(string_views(v@) =~= request_parts(*self, magic, sell_pos).1);
                ("PlayerWitchEnchantItem".to_string(), v)
            },
            Command::SpinWheelOfFortune { payment } => {
                let v: Vec<String> = vec![u64_to_string(fortune_code(*payment))];
                assert(string_views(v@) =~= request_parts(*self, magic, sell_pos).1);
                ("WheelOfFortune".to_string(), v)
            },
            Command::CollectEventTaskReward { pos } => {
                let v: Vec<String> = vec!["2".to_string(), u64_to_string((*pos).wrapping_add(1) as u64)];
                assert(string_views(v@) =~= request_parts(*self, magic, sell_pos).1);
                ("DailyTaskClaim".to_string(), v)
            },
            Command::CollectDailyQuestReward { pos } => {
                let v: Vec<String> = vec!["1".to_string(), u64_to_string((*pos).wrapping_add(1) as u64)];
                assert(string_views(v@) =~= request_parts(*self, magic, sell_pos).1);
                ("DailyTaskClaim".to_string(), v)
            },
            Command::EquipCompanion { from_inventory, from_pos, to_companion, to_slot } => {
                let v: Vec<String> = vec![u64_to_string(inventory_code(*from_inventory)), u64_to_string(*from_pos as u64), u64_to_string(companion_code(*to_companion)), u64_to_string(to_slot.raw_id() as u64)];
                assert(string_views(v@) =~= request_parts(*self, magic, sell_pos).1);
                ("PlayerItemMove".to_string(), v)
            },
            _ => (String::new(), Vec::new()),
        }
    }
}

impl Command {
    /// The request parts of the commands of group 8.
    #[verifier::spinoff_prover]
    #[verifier::rlimit(50)]
    fn request_parts_8(&self, magic: bool, sell_pos: u32) -> (r: (String, Vec<String>))
        requires
            request_group(*self) == 8,
        ensures
            r.0@ == request_parts(*self, magic, sell_pos).0,
            string_views(r.1@) == request_parts(*self, magic, sell_pos).1,
    {
        match self {
            Command::FortressGather { resource } => {
                let v: Vec<String> = vec![u64_to_string(resource.index() as u64 + 1)];
                assert(string_views(v@) =~= request_parts(*self, magic, sell_pos).1);
                ("FortressGather".to_string(), v)
            },
            Command::FortressBuild { f_type } => {
                let v: Vec<String> = vec![u64_to_string(f_type.index() as u64 + 1), "0".to_string()];
                assert(string_views(v@) =~= request_parts(*self, magic, sell_pos).1);
                ("FortressBuildStart".to_string(), v)
            },
            Command::FortressBuildCancel { f_type } => {
                let v: Vec<String> = vec![u64_to_string(f_type.index() as u64 + 1)];
                assert(string_views(v@) =~= request_parts(*self, magic, sell_pos).1);
                ("FortressBuildStop".to_string(), v)
            },
            Command::FortressBuildFinish { f_type, mushrooms } => {
                let v: Vec<String> = vec![u64_to_string(f_type.index() as u64 + 1), u64_to_string(*mushrooms as u64)];
                assert(string_views(v@) =~= request_parts(*self, magic, sell_pos).1);
                ("FortressBuildFinished".to_string(), v)
            },
            Command::FortressBuildUnit { unit, count } => {
                let v: Vec<String> = vec![u64_to_string(unit.index() as u64 + 1), u64_to_string(*count as u64)];
                assert(string_views(v@) =~= request_parts(*self, magic, sell_pos).1);
                ("FortressBuildUnitStart".to_string(), v)
            },
            Command::FortressGemStoneSearch => {
                let v: Vec<String> = vec![];
                assert(string_views(v@) =~= request_parts(*self, magic, sell_pos).1);
                ("FortressGemstoneStart".to_string(), v)
            },
            Command::FortressGemStoneSearchCancel => {
                let v: Vec<String> = vec!["0".to_string()];
                assert(string_views(v@) =~= request_parts(*self, magic, sell_pos).1);
                ("FortressGemStoneStop".to_string(), v)
            },
            Command::FortressGemStoneSearchFinish { mushrooms } => {
                let v: Vec<String> = vec![u64_to_string(*mushrooms as u64)];
                assert(string_views(v@) =~= request_parts(*self, magic, sell_pos).1);
                ("FortressGemstoneFinished".to_string(), v)
            },
            _ => (String::new(), Vec::new()),
        }
    }
}

impl Command {
    /// The request parts of the commands of group 9.
    #[verifier::spinoff_prover]
    #[verifier::rlimit(50)]
    fn request_parts_9(&self, magic: bool, sell_pos: u32) -> (r: (String, Vec<String>))
        requires
            request_group(*self) == 9,
        ensures
            r.0@ == request_parts(*self, magic, sell_pos).0,
            string_views(r.1@) == request_parts(*self, magic, sell_pos).1,
    {
        match self {
            Command::FortressAttack { soldiers } => {
                let v: Vec<String> = vec![u64_to_string(*soldiers as u64)];
                assert(string_views(v@) =~= request_parts(*self, magic, sell_pos).1);
                ("FortressAttack".to_string(), v)
            },
            Command::FortressNewEnemy { use_mushroom } => {
                let v: Vec<String> = vec![u64_to_string(u64_of_bool(*use_mushroom))];
                assert(string_views(v@) =~= request_parts(*self, magic, sell_pos).1);
                ("FortressEnemy".to_string(), v)
            },
            Command::FortressSetCAEnemy { msg_id } => {
                let v: Vec<String> = vec!["0".to_string(), u64_to_string(*msg_id as u64)];
                assert(string_views(v@) =~= request_parts(*self, magic, sell_pos).1);
                ("FortressEnemy".to_string(), v)
            },
            Command::FortressUpgradeHallOfKnights => {
                let v: Vec<String> = vec![];
                assert(string_views(v@) =~= request_parts(*self, magic, sell_pos).1);
                ("FortressGroupBonusUpgrade".to_string(), v)
            },
            Command::Whisper { player_name, message } => {
                let v: Vec<String> = vec![player_name.clone(), to_sf_string(message.as_str())];
                assert(string_views(v@) =~= request_parts(*self, magic, sell_pos).1);
                ("PlayerMessageWhisper".to_string(), v)
            },
            Command::UnderworldCollect { resource } => {
                let v: Vec<String> = vec![u64_to_string(resource.index() as u64 + 1)];
                assert(string_views(v@) =~= request_parts(*self, magic, sell_pos).1);
                ("UnderworldGather".to_string(), v)
            },
            Command::UnderworldUnitUpgrade { unit } => {
                let v: Vec<String> = vec![u64_to_string(unit.index() as u64 + 1)];
                assert(string_views(v@) =~= request_parts(*self, magic, sell_pos).1);
                ("UnderworldUpgradeUnit".to_string(), v)
            },
            Command::UnderworldUpgradeStart { building, mushrooms } => {
                let v: Vec<String> = vec![u64_to_string(building.index() as u64 + 1), u64_to_string(*mushrooms as u64)];
                assert(string_views(v@) =~= request_parts(*self, magic, sell_pos).1);
                ("UnderworldBuildStart".to_string(), v)
            },
            _ => (String::new(), Vec::new()),
        }
    }
}

impl Command {
    /// The request parts of the commands of group 10.
    #[verifier::spinoff_prover]
    #[verifier::rlimit(50)]
    fn request_parts_10(&self, magic: bool, sell_pos: u32) -> (r: (String, Vec<String>))
        requires
            request_group(*self) == 10,
        ensures
            r.0@ == request_parts(*self, magic, sell_pos).0,
            string_views(r.1@) == request_parts(*self, magic, sell_pos).1,
    {
        match self {
            Command::UnderworldUpgradeCancel { building } => {
                let v: Vec<String> = vec![u64_to_string(building.index() as u64 + 1)];
                assert(string_views(v@) =~= request_parts(*self, magic, sell_pos).1);
                ("UnderworldBuildStop".to_string(), v)
            },
            Command::UnderworldUpgradeFinish { building, mushrooms } => {
                let v: Vec<String> = vec![u64_to_string(building.index() as u64 + 1), u64_to_string(*mushrooms as u64)];
                assert(string_views(v@) =~= request_parts(*self, magic, sell_pos).1);
                ("UnderworldBuildFinished".to_string(), v)
            },
            Command::UnderworldAttack { player_id } => {
                let v: Vec<String> = vec![u64_to_string(*player_id as u64)];
                assert(string_views(v@) =~= request_parts(*self, magic, sell_pos).1);
                ("UnderworldAttack".to_string(), v)
            },
            Command::RollDice { payment, dices } => {
                let v: Vec<String> = vec![u64_to_string(dice_price_code(*payment)), dice_text(dices[0]), dice_text(dices[1]), dice_text(dices[2]), dice_text(dices[3]), dice_text(dices[4])];
                assert(string_views(v@) =~= request_parts(*self, magic, sell_pos).1);
                ("RollDice".to_string(), v)
            },
            Command::PetFeed { pet_id, fruit_idx } => {
                let v: Vec<String> = vec![u64_to_string(*pet_id as u64), u64_to_string(*fruit_idx as u64)];
                assert(string_views(v@) =~= request_parts(*self, magic, sell_pos).1);
                ("PlayerPetFeed".to_string(), v)
            },
            Command::GuildPetBattle { use_mushroom } => {
                let v: Vec<String> = vec![u64_to_string(u64_of_bool(*use_mushroom))];
                assert(string_views(v@) =~= request_parts(*self, magic, sell_pos).1);
                ("GroupPetBattle".to_string(), v)
            },
            Command::IdleUpgrade { typ, amount } => {
                let v: Vec<String> = vec![u64_to_string(typ.index() as u64 + 1), u64_to_string(*amount)];
                assert(string_views(v@) =~= request_parts(*self, magic, sell_pos).1);
                ("IdleIncrease".to_string(), v)
            },
            Command::IdleSacrifice => {
                let v: Vec<String> = vec!["0".to_string()];
                assert(string_views(v@) =~= request_parts(*self, magic, sell_pos).1);
                ("IdlePrestige".to_string(), v)
            },
            _ => (String::new(), Vec::new()),
        }
    }
}

impl Command {
    /// The request parts of the commands of group 11.
    #[verifier::spinoff_prover]
    #[verifier::rlimit(50)]
    fn request_parts_11(&self, magic: bool, sell_pos: u32) -> (r: (String, Vec<String>))
        requires
            request_group(*self) == 11,
        ensures
            r.0@ == request_parts(*self, magic, sell_pos).0,
            string_views(r.1@) == request_parts(*self, magic, sell_pos).1,
    {
        match self {
            Command::UpgradeSkill { attribute, next_attribute } => {
                let v: Vec<String> = vec![u64_to_string(attribute.id() as u64), u64_to_string(*next_attribute as u64)];
                assert(string_views(v@) =~= request_parts(*self, magic, sell_pos).1);
                ("PlayerAttributIncrease".to_string(), v)
            },
            Command::RefreshShop { shop } => {
                let v: Vec<String> = vec![u64_to_string(shop.id() as u64 - 2)];
                assert(string_views(v@) =~= request_parts(*self, magic, sell_pos).1);
                ("PlayerNewWares".to_string(), v)
            },
            Command::HallOfFameGroupPage { page } => {
                let v: Vec<String> = vec![u64_to_string(26u32.wrapping_add(51u32.wrapping_mul(*page)) as u64), "".to_string(), "25".to_string(), "25".to_string()];
                assert(string_views(v@) =~= request_parts(*self, magic, sell_pos).1);
                ("GroupGetHallOfFame".to_string(), v)
            },
            Command::HallOfFameUnderworldPage { page } => {
                let v: Vec<String> = vec![u64_to_string(26u32.wrapping_add(51u32.wrapping_mul(*page)) as u64), "".to_string(), "25".to_string(), "25".to_string()];
                assert(string_views(v@) =~= request_parts(*self, magic, sell_pos).1);
                ("UnderworldGetHallOfFame".to_string(), v)
            },
            Command::HallOfFamePetsPage { page } => {
                let v: Vec<String> = vec![u64_to_string(26u32.wrapping_add(51u32.wrapping_mul(*page)) as u64), "".to_string(), "25".to_string(), "25".to_string()];
                assert(string_views(v@) =~= request_parts(*self, magic, sell_pos).1);
                ("PetsGetHallOfFame".to_string(), v)
            },
            Command::SwapManequin => {
                let v: Vec<String> = vec!["301".to_string(), "1".to_string()];
                assert(string_views(v@) =~= request_parts(*self, magic, sell_pos).1);
                ("PlayerDummySwap".to_string(), v)
            },
            Command::UpdateFlag { flag } => {
                let v: Vec<String> = vec![flag_text(*flag)];
                assert(string_views(v@) =~= request_parts(*self, magic, sell_pos).1);
                ("PlayerSetFlag".to_string(), v)
            },
            Command::BlockGuildInvites { block_invites } => {
                let v: Vec<String> = vec![u64_to_string(u64_of_bool(*block_invites))];
                assert(string_views(v@) =~= request_parts(*self, magic, sell_pos).1);
                ("PlayerSetNoGroupInvite".to_string(), v)
            },
            _ => (String::new(), Vec::new()),
        }
    }
}

impl Command {
    /// The request parts of the commands of group 12.
    #[verifier::spinoff_prover]
    #[verifier::rlimit(50)]
    fn request_parts_12(&self, magic: bool, sell_pos: u32) -> (r: (String, Vec<String>))
        requires
            request_group(*self) == 12,
        ensures
            r.0@ == request_parts(*self, magic, sell_pos).0,
            string_views(r.1@) == request_parts(*self, magic, sell_pos).1,
    {
        match self {
            Command::ShowTips { show_tips } => {
                let v: Vec<String> = vec![u64_to_string(if *show_tips { 0 } else { 268435455 })];
                assert(string_views(v@) =~= request_parts(*self, magic, sell_pos).1);
                ("PlayerTutorialStatus".to_string(), v)
            },
            Command::ChangePassword { username, old, new } => {
                let v: Vec<String> = vec![username.clone(), salted_hash(old.as_str()), "106".to_string(), salted_hash(new.as_str()), "".to_string()];
                assert(string_views(v@) =~= request_parts(*self, magic, sell_pos).1);
                ("AccountPasswordChange".to_string(), v)
            },
            Command::ChangeMailAddress { old_mail, new_mail, password, username } => {
                let v: Vec<String> = vec![old_mail.clone(), new_mail.clone(), username.clone(), salted_hash(password.as_str()), "106".to_string()];
                assert(string_views(v@) =~= request_parts(*self, magic, sell_pos).1);
                ("AccountMailChange".to_string(), v)
            },
            Command::SetLanguage { language } => {
                let v: Vec<String> = vec![language.clone()];
                assert(string_views(v@) =~= request_parts(*self, magic, sell_pos).1);
                ("AccountSetLanguage".to_string(), v)
            },
            Command::SetPlayerRelation { player_id, relation } => {
                let v: Vec<String> = vec![u64_to_string(*player_id as u64), i64_to_string(relation_code(*relation))];
                assert(string_views(v@) =~= request_parts(*self, magic, sell_pos).1);
                ("PlayerFriendSet".to_string(), v)
            },
            Command::SetPortraitFrame { portrait_id } => {
                let v: Vec<String> = vec![i64_to_string(*portrait_id)];
                assert(string_views(v@) =~= request_parts(*self, magic, sell_pos).1);
                ("PlayerSetActiveFrame".to_string(), v)
            },
            Command::SwapRunes { from, from_pos, to, to_pos } => {
                let v: Vec<String> = vec![u64_to_string(place_code(*from)), u64_to_string((*from_pos).wrapping_add(1) as u64), u64_to_string(place_code(*to)), u64_to_string((*to_pos).wrapping_add(1) as u64)];
                assert(string_views(v@) =~= request_parts(*self, magic, sell_pos).1);
                ("PlayerSmithSwapRunes".to_string(), v)
            },
            Command::ChangeItemLook { inv, pos, raw_model_id } => {
                let v: Vec<String> = vec![u64_to_string(place_code(*inv)), u64_to_string((*pos).wrapping_add(1) as u64), u64_to_string(*raw_model_id as u64)];
                assert(string_views(v@) =~= request_parts(*self, magic, sell_pos).1);
                ("ItemChangePicture".to_string(), v)
            },
            _ => (String::new(), Vec::new()),
        }
    }
}

impl Command {
    /// The request parts of the commands of group 13.
    #[verifier::spinoff_prover]
    #[verifier::rlimit(50)]
    fn request_parts_13(&self, magic: bool, sell_pos: u32) -> (r: (String, Vec<String>))
        requires
            request_group(*self) == 13,
        ensures
            r.0@ == request_parts(*self, magic, sell_pos).0,
            string_views(r.1@) == request_parts(*self, magic, sell_pos).1,
    {
        match self {
            Command::ExpeditionPickEncounter { pos } => {
                let v: Vec<String> = vec![u64_to_string((*pos).wrapping_add(1) as u64)];
                assert(string_views(v@) =~= request_parts(*self, magic, sell_pos).1);
                ("ExpeditionProceed".to_string(), v)
            },
            Command::ExpeditionContinue => {
                let v: Vec<String> = vec!["1".to_string()];
                assert(string_views(v@) =~= request_parts(*self, magic, sell_pos).1);
                ("ExpeditionProceed".to_string(), v)
            },
            Command::ExpeditionPickReward { pos } => {
                let v: Vec<String> = vec![u64_to_string((*pos).wrapping_add(1) as u64)];
                assert(string_views(v@) =~= request_parts(*self, magic, sell_pos).1);
                ("ExpeditionProceed".to_string(), v)
            },
            Command::ExpeditionStart { pos } => {
                let v: Vec<String> = vec![u64_to_string((*pos).wrapping_add(1) as u64)];
                assert(string_views(v@) =~= request_parts(*self, magic, sell_pos).1);
                ("ExpeditionStart".to_string(), v)
            },
            Command::ExpeditionSkipWait { typ } => {
                let v: Vec<String> = vec![u64_to_string(time_skip_code(*typ))];
                assert(string_views(v@) =~= request_parts(*self, magic, sell_pos).1);
                ("ExpeditionTimeSkip".to_string(), v)
            },
            Command::SetQuestsInsteadOfExpeditions { value } => {
                let v: Vec<String> = vec!["5".to_string(), setting_text(*value)];
                assert(string_views(v@) =~= request_parts(*self, magic, sell_pos).1);
                ("UserSettingsUpdate".to_string(), v)
            },
            Command::HellevatorEnter => {
                let v: Vec<String> = vec![];
                assert(string_views(v@) =~= request_parts(*self, magic, sell_pos).1);
                ("GroupTournamentJoin".to_string(), v)
            },
            Command::HellevatorFight { use_mushroom } => {
                let v: Vec<String> = vec![u64_to_string(u64_of_bool(*use_mushroom))];
                assert(string_views(v@) =~= request_parts(*self, magic, sell_pos).1);
                ("GroupTournamentBattle".to_string(), v)
            },
            _ => (String::new(), Vec::new()),
        }
    }
}

impl Command {
    /// The request parts of the commands of group 14.
    #[verifier::spinoff_prover]
    #[verifier::rlimit(50)]
    fn request_parts_14(&self, magic: bool, sell_pos: u32) -> (r: (String, Vec<String>))
        requires
            request_group(*self) == 14,
        ensures
            r.0@ == request_parts(*self, magic, sell_pos).0,
            string_views(r.1@) == request_parts(*self, magic, sell_pos).1,
    {
        match self {
            Command::HellevatorBuy { position, typ, price, use_mushroom } => {
                let v: Vec<String> = vec![u64_to_string(*position as u64), u64_to_string(treat_code(*typ)), u64_to_string(*price as u64), u64_to_string(if *use_mushroom { 2 } else { 1 })];
                assert(string_views(v@) =~= request_parts(*self, magic, sell_pos).1);
                ("GroupTournamentMerchantBuy".to_string(), v)
            },
            Command::HellevatorRefreshShop => {
                let v: Vec<String> = vec![];
                assert(string_views(v@) =~= request_parts(*self, magic, sell_pos).1);
                ("GroupTournamentMerchantReroll".to_string(), v)
            },
            Command::HellevatorJoinHellAttack { use_mushroom, plain } => {
                let v: Vec<String> = vec![u64_to_string(u64_of_bool(*use_mushroom)), u64_to_string((*plain).wrapping_add(1) as u64)];
                assert(string_views(v@) =~= request_parts(*self, magic, sell_pos).1);
                ("GroupTournamentRaidParticipant".to_string(), v)
            },
            Command::HellevatorClaimDaily => {
                let v: Vec<String> = vec![];
                assert(string_views(v@) =~= request_parts(*self, magic, sell_pos).1);
                ("GroupTournamentClaimDaily".to_string(), v)
            },
            Command::HellevatorClaimFinal => {
                let v: Vec<String> = vec![];
                assert(string_views(v@) =~= request_parts(*self, magic, sell_pos).1);
                ("GroupTournamentClaim".to_string(), v)
            },
            Command::HellevatorPreviewRewards => {
                let v: Vec<String> = vec![];
                assert(string_views(v@) =~= request_parts(*self, magic, sell_pos).1);
                ("GroupTournamentPreview".to_string(), v)
            },
            Command::HallOfFameHellevatorPage { page } => {
                let v: Vec<String> = vec![u64_to_string(26usize.wrapping_add(51usize.wrapping_mul(*page)) as u64), "".to_string(), "25".to_string(), "25".to_string()];
                assert(string_views(v@) =~= request_parts(*self, magic, sell_pos).1);
                ("GroupTournamentRankingAllGroups".to_string(), v)
            },
            Command::ClaimablePreview { msg_id } => {
                let v: Vec<String> = vec![i64_to_string(*msg_id)];
                assert(string_views(v@) =~= request_parts(*self, magic, sell_pos).1);
                ("PendingRewardView".to_string(), v)
            },
            _ => (String::new(), Vec::new()),
        }
    }
}

impl Command {
    /// The request parts of the commands of group 15.
    #[verifier::spinoff_prover]
    #[verifier::rlimit(50)]
    fn request_parts_15(&self, magic: bool, sell_pos: u32) -> (r: (String, Vec<String>))
        requires
            request_group(*self) == 15,
        ensures
            r.0@ == request_parts(*self, magic, sell_pos).0,
            string_views(r.1@) == request_parts(*self, magic, sell_pos).1,
    {
        match self {
            Command::ClaimableClaim { msg_id } => {
                let v: Vec<String> = vec![i64_to_string(*msg_id)];
                assert(string_views(v@) =~= request_parts(*self, magic, sell_pos).1);
                ("PendingRewardClaim".to_string(), v)
            },
            Command::BuyGoldFrame => {
                let v: Vec<String> = vec![];
                assert(string_views(v@) =~= request_parts(*self, magic, sell_pos).1);
                ("PlayerGoldFrameBuy".to_string(), v)
            },
            _ => (String::new(), Vec::new()),
        }
    }
}

impl Command {
    /// The request parts of a command that is made of them.
    fn request_parts_exec(&self, magic: bool, sell_pos: u32) -> (r: (String, Vec<String>))
        requires
            0 <= request_group(*self) < 16,
        ensures
            r.0@ == request_parts(*self, magic, sell_pos).0,
            string_views(r.1@) == request_parts(*self, magic, sell_pos).1,
    {
        let g = self.group_exec();
        if g == 0 {
            self.request_parts_0(magic, sell_pos)
        } else if g == 1 {
            self.request_parts_1(magic, sell_pos)
        } else if g == 2 {
            self.request_parts_2(magic, sell_pos)
        } else if g == 3 {
            self.request_parts_3(magic, sell_pos)
        } else if g == 4 {
            self.request_parts_4(magic, sell_pos)
        } else if g == 5 {
            self.request_parts_5(magic, sell_pos)
        } else if g == 6 {
            self.request_parts_6(magic, sell_pos)
        } else if g == 7 {
            self.request_parts_7(magic, sell_pos)
        } else if g == 8 {
            self.request_parts_8(magic, sell_pos)
        } else if g == 9 {
            self.request_parts_9(magic, sell_pos)
        } else if g == 10 {
            self.request_parts_10(magic, sell_pos)
        } else if g == 11 {
            self.request_parts_11(magic, sell_pos)
        } else if g == 12 {
            self.request_parts_12(magic, sell_pos)
        } else if g == 13 {
            self.request_parts_13(magic, sell_pos)
        } else if g == 14 {
            self.request_parts_14(magic, sell_pos)
        } else if g == 15 {
            self.request_parts_15(magic, sell_pos)
        } else {
            (String::new(), Vec::new())
        }
    }

    /// The group of the command.
    fn group_exec(&self) -> (r: i64)
        ensures
            r == request_group(*self),
    {
        match self {
            Command::Custom { .. } => -1,
            Command::Login { .. } => 0,
            Command::Register { .. } => 0,
            Command::Update => 0,
            Command::HallOfFamePage { .. } => 0,
            Command::HallOfFameFortressPage { .. } => 0,
            Command::ViewPlayer { .. } => 0,
            Command::BuyBeer => 0,
            Command::StartQuest { .. } => 0,
            Command::CancelQuest => 1,
            Command::FinishQuest { .. } => 1,
            Command::StartWork { .. } => 1,
            Command::CancelWork => 1,
            Command::FinishWork => 1,
            Command::CheckNameAvailable { .. } => 1,
            Command::BuyMount { .. } => 1,
            Command::IncreaseAttribute { .. } => 1,
            Command::RemovePotion { .. } => 2,
            Command::CheckArena => 2,
            Command::Fight { .. } => 2,
            Command::CollectCalendar => 2,
            Command::ViewGuild { .. } => 2,
            Command::GuildFound { .. } => 2,
            Command::GuildInvitePlayer { .. } => 2,
            Command::GuildKickPlayer { .. } => 2,
            Command::GuildSetLeader { .. } => 3,
            Command::GuildToggleOfficer { .. } => 3,
            Command::GuildLoadMushrooms => 3,
            Command::GuildIncreaseSkill { .. } => 3,
            Command::GuildJoinAttack => 3,
            Command::GuildJoinDefense => 3,
            Command::GuildAttack { .. } => 3,
            Command::GuildRaid => 3,
            Command::GuildPortalBattle => 4,
            Command::GuildGetFightableTargets => 4,
            Command::ToiletFlush => 4,
            Command::ToiletOpen => 4,
            Command::ToiletDrop { .. } => 4,
            Command::BuyShop { .. } => 4,
            Command::SellShop { .. } => 4,
            Command::InventoryMove { .. } => 4,
            Command::ItemMove { .. } => 5,
            Command::UsePotion { .. } => 5,
            Command::MessageOpen { .. } => 5,
            Command::MessageDelete { .. } => 5,
            Command::ViewScrapbook => 5,
            Command::ViewPet { .. } => 5,
            Command::UnlockFeature { .. } => 5,
            Command::FightPortal => 5,
            Command::FightDungeon { .. } => -1,
            Command::FightTower { .. } => 6,
            Command::FightPetOpponent { .. } => 6,
            Command::FightPetDungeon { .. } => 6,
            Command::GuildSetInfo { .. } => 6,
            Command::GambleSilver { .. } => 6,
            Command::GambleMushrooms { .. } => 6,
            Command::SendMessage { .. } => 6,
            Command::SetDescription { .. } => 6,
            Command::WitchDropCauldron { .. } => 7,
            Command::Blacksmith { .. } => 7,
            Command::GuildSendChat { .. } => 7,
            Command::WitchEnchant { .. } => 7,
            Command::SpinWheelOfFortune { .. } => 7,
            Command::CollectEventTaskReward { .. } => 7,
            Command::CollectDailyQuestReward { .. } => 7,
            Command::EquipCompanion { .. } => 7,
            Command::FortressGather { .. } => 8,
            Command::FortressBuild { .. } => 8,
            Command::FortressBuildCancel { .. } => 8,
            Command::FortressBuildFinish { .. } => 8,
            Command::FortressBuildUnit { .. } => 8,
            Command::FortressGemStoneSearch => 8,
            Command::FortressGemStoneSearchCancel => 8,
            Command::FortressGemStoneSearchFinish { .. } => 8,
            Command::FortressAttack { .. } => 9,
            Command::FortressNewEnemy { .. } => 9,
            Command::FortressSetCAEnemy { .. } => 9,
            Command::FortressUpgradeHallOfKnights => 9,
            Command::Whisper { .. } => 9,
            Command::UnderworldCollect { .. } => 9,
            Command::UnderworldUnitUpgrade { .. } => 9,
            Command::UnderworldUpgradeStart { .. } => 9,
            Command::UnderworldUpgradeCancel { .. } => 10,
            Command::UnderworldUpgradeFinish { .. } => 10,
            Command::UnderworldAttack { .. } => 10,
            Command::RollDice { .. } => 10,
            Command::PetFeed { .. } => 10,
            Command::GuildPetBattle { .. } => 10,
            Command::IdleUpgrade { .. } => 10,
            Command::IdleSacrifice => 10,
            Command::UpgradeSkill { .. } => 11,
            Command::RefreshShop { .. } => 11,
            Command::HallOfFameGroupPage { .. } => 11,
            Command::HallOfFameUnderworldPage { .. } => 11,
            Command::HallOfFamePetsPage { .. } => 11,
            Command::SwapManequin => 11,
            Command::UpdateFlag { .. } => 11,
            Command::BlockGuildInvites { .. } => 11,
            Command::ShowTips { .. } => 12,
            Command::ChangePassword { .. } => 12,
            Command::ChangeMailAddress { .. } => 12,
            Command::SetLanguage { .. } => 12,
            Command::SetPlayerRelation { .. } => 12,
            Command::SetPortraitFrame { .. } => 12,
            Command::SwapRunes { .. } => 12,
            Command::ChangeItemLook { .. } => 12,
            Command::ExpeditionPickEncounter { .. } => 13,
            Command::ExpeditionContinue => 13,
            Command::ExpeditionPickReward { .. } => 13,
            Command::ExpeditionStart { .. } => 13,
            Command::ExpeditionSkipWait { .. } => 13,
            Command::SetQuestsInsteadOfExpeditions { .. } => 13,
            Command::HellevatorEnter => 13,
            Command::HellevatorViewGuildRanking => -1,
            Command::HellevatorFight { .. } => 13,
            Command::HellevatorBuy { .. } => 14,
            Command::HellevatorRefreshShop => 14,
            Command::HellevatorJoinHellAttack { .. } => 14,
            Command::HellevatorClaimDaily => 14,
            Command::HellevatorClaimFinal => 14,
            Command::HellevatorPreviewRewards => 14,
            Command::HallOfFameHellevatorPage { .. } => 14,
            Command::ClaimablePreview { .. } => 14,
            Command::ClaimableClaim { .. } => 15,
            Command::BuyGoldFrame => 15,
        }
    }
}

} // verus!

verus! {

/// A mount is bought with the number that the server uses for it, the same
/// number by which a player save names the mount the character rides
/// (`Mount::from_i64`): the request for `BuyMount` carries that number.
pub proof fn lemma_mount_code_reads_back(mount: Mount, magic: bool, sell_pos: u32)
    ensures
        Mount::spec_from_i64(spec_mount_code(mount) as i64) == Some(mount),
        spec_request(Command::BuyMount { mount }, magic, sell_pos) == Some(
            "PlayerMountBuy"@ + seq![':'] + decimal_text(spec_mount_code(mount)),
        ),
{
}

} // verus!

verus! {

/// A new character is registered with the numbers by which a player save
/// names its gender, race and class: the gender's number less one, the
/// race's number and the class's number less one read back as them.
pub proof fn lemma_register_codes_read_back(gender: Gender, race: Race, class: Class)
    ensures
        Gender::spec_from_i64((spec_gender_code(gender) - 1) as i64) == Some(gender),
        Race::spec_from_i64(race.spec_id() as i64) == Some(race),
        Class::spec_from_i64(((class.spec_index() + 1) - 1) as i64) == Some(class),
{
}

} // verus!

verus! {

/// A place of the player's items has the same number in requests whichever
/// list of places names it: the equipment, the main inventory and the
/// extended inventory are numbered alike as player places, as item places
/// and as inventories, and the shops and the fortress chest have numbers of
/// their own.
pub proof fn lemma_place_codes_agree()
    ensures
        spec_player_place_code(PlayerItemPlace::Equipment) == spec_place_code(ItemPlace::Equipment),
        spec_player_place_code(PlayerItemPlace::MainInventory) == spec_place_code(
            ItemPlace::MainInventory,
        ),
        spec_player_place_code(PlayerItemPlace::MainInventory) == spec_inventory_code(
            InventoryType::MainInventory,
        ),
        spec_player_place_code(PlayerItemPlace::ExtendedInventory) == spec_inventory_code(
            InventoryType::ExtendedInventory,
        ),
        forall|a: ItemPlace, b: ItemPlace| a != b ==> spec_place_code(a) != spec_place_code(b),
        forall|a: PlayerItemPlace, b: PlayerItemPlace|
            a != b ==> spec_player_place_code(a) != spec_player_place_code(b),
{
}

} // verus!
