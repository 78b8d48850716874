use vstd::prelude::*;

use crate::command::{AttributeMap, Flag};
use crate::error::SFError;
use crate::gamestate::ServerTime;
use crate::gamestate::character::{Class, Mount, Portrait, Race};
use crate::gamestate::guild::{Emblem, GuildRank};
use crate::gamestate::items::{Equipment, Item, Potion};
use crate::gamestate::rewards::Reward;
use crate::gamestate::unlockables::spec_map_update;
use crate::misc::{
    cget, chars_of, decimal_i32, decimal_i64, decimal_u32, first_index, from_sf_string, parse_i32,
    parse_i64, parse_u32, sf_text, skip, soft_u8, soft_u16, soft_u32, soft_u64, soft_into_u16,
    soft_into_u32, soft_into_u64, split_by, split_once_char, split_once_text, split_text,
    string_views, text_is, too_short, trim_end_char, trim_end_matches_char, csiget_u16,
    csiget_u32, csiget_u64, update_enum_map, ciget_u32, cstget, trim_start_chars,
    trim_start_matches_chars, trim_white,
};
use crate::PlayerId;

verus! {

/// The `u8` that a text writes, if it writes one that fits.
pub open spec fn decimal_u8(s: Seq<char>) -> Option<u8> {
    match decimal_u32(s) {
        Some(v) => if v <= 255 { Some(v as u8) } else { None },
        None => None,
    }
}

fn parse_u8(s: &str) -> (r: Option<u8>)
    ensures
        r == decimal_u8(s@),
{
    match parse_u32(s) {
        Some(v) => if v <= 255 {
            Some(v as u8)
        } else {
            None
        },
        None => None,
    }
}

/// The class with the given number, counted from 1.
pub open spec fn class_from_one_based(v: i64) -> Option<Class> {
    if v == i64::MIN {
        None
    } else {
        Class::spec_from_i64((v - 1) as i64)
    }
}

/// The guild of a Hall of Fame entry: `None` for the empty text.
pub open spec fn guild_of(s: Seq<char>) -> Option<Seq<char>> {
    if s.len() == 0 { None } else { Some(s) }
}

fn guild_text(s: &String) -> (r: Option<String>)
    ensures
        match guild_of(s@) {
            Some(g) => r matches Some(x) && x@ == g,
            None => r is None,
        },
{
    let cs = chars_of(s.as_str());
    if cs.len() == 0 {
        None
    } else {
        Some(s.clone())
    }
}

/// Holds where an optional string has the given optional view.
pub open spec fn opt_view(o: Option<String>, v: Option<Seq<char>>) -> bool {
    match v {
        Some(s) => o matches Some(x) && x@ == s,
        None => o is None,
    }
}

/// Basic information about one character on the server. To get more
/// information, you need to query this player via the `ViewPlayer` command.
#[derive(Debug, Clone)]
pub struct HallOfFamePlayer {
    /// The rank of this player
    pub rank: u32,
    /// The name of this player. Used to query more information
    pub name: String,
    /// The guild this player is currently in. If this is None, the player is
    /// not in a guild
    pub guild: Option<String>,
    /// The level of this player
    pub level: u32,
    /// The amount of fame this player has
    pub honor: u32,
    /// The class of this player
    pub class: Class,
    /// The Flag of this player, if they have set any
    pub flag: Option<Flag>,
}

impl HallOfFamePlayer {
    /// Holds where the comma separated values describe a player.
    pub open spec fn spec_valid(d: Seq<Seq<char>>) -> bool {
        &&& d.len() >= 6
        &&& decimal_u32(d[0]) is Some && decimal_u32(d[3]) is Some && decimal_u32(d[4]) is Some
        &&& decimal_i64(d[5]) is Some
        &&& class_from_one_based(decimal_i64(d[5])->0) is Some
    }

    /// Holds where `p` is the player that the valid values describe.
    pub open spec fn spec_parsed(d: Seq<Seq<char>>, p: HallOfFamePlayer) -> bool {
        &&& p.rank == decimal_u32(d[0])->0
        &&& p.name@ == d[1]
        &&& opt_view(p.guild, guild_of(d[2]))
        &&& p.level == decimal_u32(d[3])->0
        &&& p.honor == decimal_u32(d[4])->0
        &&& p.class == class_from_one_based(decimal_i64(d[5])->0)->0
        &&& p.flag == Flag::spec_parse(if d.len() > 6 { d[6] } else { Seq::empty() })
    }

    /// Parses a player of the Hall of Fame from its comma separated values.
    pub fn parse(val: &str) -> (r: Result<Self, SFError>)
        ensures
            Self::spec_valid(split_text(val@, ',')) <==> r is Ok,
            r matches Ok(p) ==> Self::spec_parsed(split_text(val@, ','), p),
    {
        let data = split_by(val, ',');
        let ghost d = string_views(data@);
        if data.len() < 6 {
            return Err(too_short(&[], 5, "hof player class"));
        }
        assert(d[0] == data@[0]@ && d[1] == data@[1]@ && d[2] == data@[2]@);
        assert(d[3] == data@[3]@ && d[4] == data@[4]@ && d[5] == data@[5]@);
        let rank = match parse_u32(data[0].as_str()) {
            Some(v) => v,
            None => return Err(SFError::ParsingError("hof player rank", data[0].clone())),
        };
        let name = data[1].clone();
        let guild = guild_text(&data[2]);
        let level = match parse_u32(data[3].as_str()) {
            Some(v) => v,
            None => return Err(SFError::ParsingError("hof player level", data[3].clone())),
        };
        let honor = match parse_u32(data[4].as_str()) {
            Some(v) => v,
            None => return Err(SFError::ParsingError("hof player fame", data[4].clone())),
        };
        let class_raw = match parse_i64(data[5].as_str()) {
            Some(v) => v,
            None => return Err(SFError::ParsingError("hof player class", data[5].clone())),
        };
        let class = if class_raw == -9223372036854775807 - 1 {
            None
        } else {
            Class::from_i64(class_raw - 1)
        };
        let class = match class {
            Some(c) => c,
            None => return Err(SFError::ParsingError("hof player class", data[5].clone())),
        };
        let flag = if data.len() > 6 {
            assert(d[6] == data@[6]@);
            Flag::parse(data[6].as_str())
        } else {
            Flag::parse("")
        };
        proof {
            reveal_strlit("");
        }
        Ok(HallOfFamePlayer { rank, name, guild, level, honor, class, flag })
    }
}

/// Basic information about one guild on the server.
#[derive(Debug, Clone)]
pub struct HallOfFameGuild {
    /// The name of the guild
    pub name: String,
    /// The rank of the guild
    pub rank: u32,
    /// The leader of the guild
    pub leader: String,
    /// The amount of members this guild has
    pub member_count: u32,
    /// The amount of honor this guild has
    pub honor: u32,
    /// Whether or not this guild is already being attacked
    pub is_attacked: bool,
}

impl HallOfFameGuild {
    /// Holds where the comma separated values describe a guild.
    pub open spec fn spec_valid(d: Seq<Seq<char>>) -> bool {
        &&& d.len() >= 6
        &&& decimal_u32(d[0]) is Some && decimal_u32(d[3]) is Some && decimal_u32(d[4]) is Some
        &&& decimal_u8(d[5]) is Some
    }

    /// Holds where `g` is the guild that the valid values describe.
    pub open spec fn spec_parsed(d: Seq<Seq<char>>, g: HallOfFameGuild) -> bool {
        &&& g.rank == decimal_u32(d[0])->0
        &&& g.name@ == d[1]
        &&& g.leader@ == d[2]
        &&& g.member_count == decimal_u32(d[3])->0
        &&& g.honor == decimal_u32(d[4])->0
        &&& g.is_attacked == (decimal_u8(d[5])->0 == 1)
    }

    /// Parses a guild of the Hall of Fame from its comma separated values.
    pub fn parse(val: &str) -> (r: Result<Self, SFError>)
        ensures
            Self::spec_valid(split_text(val@, ',')) <==> r is Ok,
            r matches Ok(g) ==> Self::spec_parsed(split_text(val@, ','), g),
    {
        let data = split_by(val, ',');
        let ghost d = string_views(data@);
        if data.len() < 6 {
            return Err(too_short(&[], 5, "hof guild atk"));
        }
        assert(d[0] == data@[0]@ && d[1] == data@[1]@ && d[2] == data@[2]@);
        assert(d[3] == data@[3]@ && d[4] == data@[4]@ && d[5] == data@[5]@);
        let rank = match parse_u32(data[0].as_str()) {
            Some(v) => v,
            None => return Err(SFError::ParsingError("hof guild rank", data[0].clone())),
        };
        let name = data[1].clone();
        let leader = data[2].clone();
        let member_count = match parse_u32(data[3].as_str()) {
            Some(v) => v,
            None => return Err(SFError::ParsingError("hof guild member", data[3].clone())),
        };
        let honor = match parse_u32(data[4].as_str()) {
            Some(v) => v,
            None => return Err(SFError::ParsingError("hof guild fame", data[4].clone())),
        };
        let attack_status = match parse_u8(data[5].as_str()) {
            Some(v) => v,
            None => return Err(SFError::ParsingError("hof guild atk", data[5].clone())),
        };
        Ok(HallOfFameGuild { rank, name, leader, member_count, honor, is_attacked: attack_status == 1 })
    }
}

/// Basic information about one fortress on the server.
#[derive(Debug, Clone)]
pub struct HallOfFameFortress {
    /// The name of the person, that owns this fort
    pub name: String,
    /// The rank of this fortress in the fortress Hall of Fame
    pub rank: u32,
    /// The guild of the owner, if they are in one
    pub guild: Option<String>,
    /// The amount of upgrades, that have been built in this fortress
    pub upgrade: u32,
    /// The amount of honor this fortress has gained
    pub honor: u32,
}

/// Basic information about one players pet collection on the server.
#[derive(Debug, Clone)]
pub struct HallOfFamePets {
    /// The name of the player, that has these pets
    pub name: String,
    /// The rank of this players pet collection
    pub rank: u32,
    /// The guild of the owner, if they are in one
    pub guild: Option<String>,
    /// The amount of pets collected
    pub collected: u32,
    /// The amount of honor this pet collection has gained
    pub honor: u32,
    /// For guilds the value at this position is the attacked status, but no
    /// idea, what it means here
    pub unknown: i64,
}

/// Basic information about one players underworld on the server.
#[derive(Debug, Clone)]
pub struct HallOfFameUnderworld {
    /// The rank this underworld has
    pub rank: u32,
    /// The name of the player, that owns this underworld
    pub name: String,
    /// The guild of the owner, if they are in one
    pub guild: Option<String>,
    /// The amount of upgrades this underworld has
    pub upgrade: u32,
    /// The amount of honor this underworld has
    pub honor: u32,
    /// For guilds the value at this position is the attacked status, but no
    /// idea, what it means here
    pub unknown: i64,
}

/// An entry of the Hellevator Hall of Fame.
#[derive(Debug, Clone)]
pub struct HallOfFameHellevator {
    pub rank: usize,
    pub name: String,
    pub tokens: u64,
}

/// The common values of the Hall of Fame entries of fortresses, pets and
/// underworlds: rank, name, guild, a count and the honor, and for some a
/// last number.
struct HofEntry {
    rank: u32,
    name: String,
    guild: Option<String>,
    count: u32,
    honor: u32,
    extra: i64,
}

/// Holds where the comma separated values describe such an entry; with
/// `with_extra` the sixth value must be a number too.
pub open spec fn hof_entry_valid(d: Seq<Seq<char>>, with_extra: bool) -> bool {
    &&& d.len() >= 5
    &&& decimal_u32(d[0]) is Some && decimal_u32(d[3]) is Some && decimal_u32(d[4]) is Some
    &&& with_extra ==> d.len() >= 6 && decimal_i64(d[5]) is Some
}

fn parse_hof_entry(val: &str, with_extra: bool) -> (r: Result<HofEntry, SFError>)
    ensures
        hof_entry_valid(split_text(val@, ','), with_extra) <==> r is Ok,
        r matches Ok(e) ==> {
            let d = split_text(val@, ',');
            &&& e.rank == decimal_u32(d[0])->0
            &&& e.name@ == d[1]
            &&& opt_view(e.guild, guild_of(d[2]))
            &&& e.count == decimal_u32(d[3])->0
            &&& e.honor == decimal_u32(d[4])->0
            &&& with_extra ==> e.extra == decimal_i64(d[5])->0
        },
{
    let data = split_by(val, ',');
    let ghost d = string_views(data@);
    if data.len() < 5 {
        return Err(too_short(&[], 4, "hof entry"));
    }
    assert(d[0] == data@[0]@ && d[1] == data@[1]@ && d[2] == data@[2]@);
    assert(d[3] == data@[3]@ && d[4] == data@[4]@);
    let rank = match parse_u32(data[0].as_str()) {
        Some(v) => v,
        None => return Err(SFError::ParsingError("hof rank", data[0].clone())),
    };
    let name = data[1].clone();
    let guild = guild_text(&data[2]);
    let count = match parse_u32(data[3].as_str()) {
        Some(v) => v,
        None => return Err(SFError::ParsingError("hof collected", data[3].clone())),
    };
    let honor = match parse_u32(data[4].as_str()) {
        Some(v) => v,
        None => return Err(SFError::ParsingError("hof fame", data[4].clone())),
    };
    let mut extra: i64 = 0;
    if with_extra {
        if data.len() < 6 {
            return Err(too_short(&[], 5, "hof uk"));
        }
        assert(d[5] == data@[5]@);
        extra = match parse_i64(data[5].as_str()) {
            Some(v) => v,
            None => return Err(SFError::ParsingError("hof uk", data[5].clone())),
        };
    }
    Ok(HofEntry { rank, name, guild, count, honor, extra })
}

impl HallOfFamePets {
    /// Holds where `p` is the pet collection that the valid values describe.
    pub open spec fn spec_parsed(d: Seq<Seq<char>>, p: HallOfFamePets) -> bool {
        &&& p.rank == decimal_u32(d[0])->0
        &&& p.name@ == d[1]
        &&& opt_view(p.guild, guild_of(d[2]))
        &&& p.collected == decimal_u32(d[3])->0
        &&& p.honor == decimal_u32(d[4])->0
        &&& p.unknown == decimal_i64(d[5])->0
    }

    /// Parses a pet collection of the Hall of Fame from its comma separated
    /// values.
    pub fn parse(val: &str) -> (r: Result<Self, SFError>)
        ensures
            hof_entry_valid(split_text(val@, ','), true) <==> r is Ok,
            r matches Ok(p) ==> Self::spec_parsed(split_text(val@, ','), p),
    {
        let e = parse_hof_entry(val, true)?;
        Ok(HallOfFamePets {
            name: e.name,
            rank: e.rank,
            guild: e.guild,
            collected: e.count,
            honor: e.honor,
            unknown: e.extra,
        })
    }
}

impl HallOfFameFortress {
    /// Holds where `p` is the fortress that the valid values describe.
    pub open spec fn spec_parsed(d: Seq<Seq<char>>, p: HallOfFameFortress) -> bool {
        &&& p.rank == decimal_u32(d[0])->0
        &&& p.name@ == d[1]
        &&& opt_view(p.guild, guild_of(d[2]))
        &&& p.upgrade == decimal_u32(d[3])->0
        &&& p.honor == decimal_u32(d[4])->0
    }

    /// Parses a fortress of the Hall of Fame from its comma separated
    /// values.
    pub fn parse(val: &str) -> (r: Result<Self, SFError>)
        ensures
            hof_entry_valid(split_text(val@, ','), false) <==> r is Ok,
            r matches Ok(p) ==> Self::spec_parsed(split_text(val@, ','), p),
    {
        let e = parse_hof_entry(val, false)?;
        Ok(HallOfFameFortress { name: e.name, rank: e.rank, guild: e.guild, upgrade: e.count, honor: e.honor })
    }
}

impl HallOfFameUnderworld {
    /// Holds where `p` is the underworld that the valid values describe.
    pub open spec fn spec_parsed(d: Seq<Seq<char>>, p: HallOfFameUnderworld) -> bool {
        &&& p.rank == decimal_u32(d[0])->0
        &&& p.name@ == d[1]
        &&& opt_view(p.guild, guild_of(d[2]))
        &&& p.upgrade == decimal_u32(d[3])->0
        &&& p.honor == decimal_u32(d[4])->0
        &&& p.unknown == decimal_i64(d[5])->0
    }

    /// Parses an underworld of the Hall of Fame from its comma separated
    /// values.
    pub fn parse(val: &str) -> (r: Result<Self, SFError>)
        ensures
            hof_entry_valid(split_text(val@, ','), true) <==> r is Ok,
            r matches Ok(p) ==> Self::spec_parsed(split_text(val@, ','), p),
    {
        let e = parse_hof_entry(val, true)?;
        Ok(HallOfFameUnderworld {
            rank: e.rank,
            name: e.name,
            guild: e.guild,
            upgrade: e.count,
            honor: e.honor,
            unknown: e.extra,
        })
    }
}

/// Contains information about everything involving other players on the
/// server. This mainly revolves around the Hall of Fame.
#[derive(Debug, Clone)]
pub struct HallOfFames {
    /// The amount of accounts on the server
    pub players_total: u32,
    /// A list of hall of fame players fetched during the last command
    pub players: Vec<HallOfFamePlayer>,
    /// The amount of guilds on this server
    pub guilds_total: Option<u32>,
    /// A list of hall of fame guilds fetched during the last command
    pub guilds: Vec<HallOfFameGuild>,
    /// The amount of fortresses on this server
    pub fortresses_total: Option<u32>,
    /// A list of hall of fame fortresses fetched during the last command
    pub fortresses: Vec<HallOfFameFortress>,
    /// The amount of players with pets on this server
    pub pets_total: Option<u32>,
    /// A list of hall of fame pet players fetched during the last command
    pub pets: Vec<HallOfFamePets>,
    pub hellevator_total: Option<u32>,
    pub hellevator: Vec<HallOfFameHellevator>,
    /// The amount of players with underworlds on this server
    pub underworlds_total: Option<u32>,
    /// A list of hall of fame underworlds fetched during the last command
    pub underworlds: Vec<HallOfFameUnderworld>,
}

impl Default for HallOfFames {
    fn default() -> (r: Self)
        ensures
            r.players_total == 0,
            r.players@.len() == 0 && r.guilds@.len() == 0 && r.fortresses@.len() == 0,
            r.pets@.len() == 0 && r.hellevator@.len() == 0 && r.underworlds@.len() == 0,
            r.guilds_total is None && r.fortresses_total is None && r.pets_total is None,
            r.hellevator_total is None && r.underworlds_total is None,
    {
        HallOfFames {
            players_total: 0,
            players: Vec::new(),
            guilds_total: None,
            guilds: Vec::new(),
            fortresses_total: None,
            fortresses: Vec::new(),
            pets_total: None,
            pets: Vec::new(),
            hellevator_total: None,
            hellevator: Vec::new(),
            underworlds_total: None,
            underworlds: Vec::new(),
        }
    }
}

} // verus!

verus! {

/// The relation the own character has set towards another player.
#[derive(Debug, Clone, Copy, PartialEq, Eq, Structural)]
pub enum Relationship {
    Ignored,
    Normal,
    Friend,
}

impl Default for Relationship {
    fn default() -> (r: Self)
        ensures
            r == Relationship::Ignored,
    {
        Relationship::Ignored
    }
}

impl Relationship {
    /// The relation with the number the server uses for it (-1 to 1).
    pub open spec fn spec_from_i64(v: i64) -> Option<Relationship> {
        if v == -1 {
            Some(Relationship::Ignored)
        } else if v == 0 {
            Some(Relationship::Normal)
        } else if v == 1 {
            Some(Relationship::Friend)
        } else {
            None
        }
    }

    /// The relation with the number the server uses for it (-1 to 1).
    pub fn from_i64(v: i64) -> (r: Option<Relationship>)
        ensures
            r == Self::spec_from_i64(v),
    {
        if v == -1 {
            Some(Relationship::Ignored)
        } else if v == 0 {
            Some(Relationship::Normal)
        } else if v == 1 {
            Some(Relationship::Friend)
        } else {
            None
        }
    }
}

/// The fortress of another player.
#[derive(Debug, Clone, Copy, PartialEq, Eq, Structural)]
pub struct OtherFortress {
    /// The total amount of upgrades this player has for their fortress
    pub upgrade_count: u32,
    /// The amount of soldiers suggested to use when attacking this fortress
    pub soldier_advice: u16,
    /// The amount of wood we are expected to gain from raiding this fortress
    pub lootable_wood: u64,
    /// The amount of stone we are expected to gain from raiding this fortress
    pub lootable_stone: u64,
    /// The amount of archers defending this players fortress
    pub archer_count: u16,
    /// The amount of mages defending this players fortress
    pub mage_count: u16,
    /// The rank this player has achieved in the fortress
    pub rank: u32,
}

impl Default for OtherFortress {
    fn default() -> (r: Self)
        ensures
            r == (OtherFortress {
                upgrade_count: 0,
                soldier_advice: 0,
                lootable_wood: 0,
                lootable_stone: 0,
                archer_count: 0,
                mage_count: 0,
                rank: 0,
            }),
    {
        OtherFortress {
            upgrade_count: 0,
            soldier_advice: 0,
            lootable_wood: 0,
            lootable_stone: 0,
            archer_count: 0,
            mage_count: 0,
            rank: 0,
        }
    }
}

/// All information about another player, that was queried via the
/// `ViewPlayer` command.
#[derive(Debug, Clone)]
pub struct OtherPlayer {
    /// The id of this player
    pub player_id: PlayerId,
    /// The name of the player
    pub name: String,
    /// The level of the player
    pub level: u16,
    /// The description this player has set for themselves
    pub description: String,
    /// If the player is in a guild, this will contain the name
    pub guild: Option<String>,
    /// The time at which this player joined their guild, if any
    pub guild_joined: Option<i64>,
    /// The mount the player currently has rented
    pub mount: Option<Mount>,
    /// The time at which the others mount will expire
    pub mount_end: Option<i64>,
    /// Information about the players visual apperarence
    pub portrait: Portrait,
    /// The relation the own character has set towards this player
    pub relationship: Relationship,
    /// The level their fortress wall would have in combat
    pub wall_combat_lvl: u16,
    /// The equipment this player is currently wearing
    pub equipment: Equipment,
    pub experience: u64,
    pub next_level_xp: u64,
    pub honor: u32,
    pub rank: u32,
    /// The hp bonus in percent this player has from the personal portal
    pub portal_hp_bonus: u32,
    /// The damage bonus in percent this player has from the guild portal
    pub portal_dmg_bonus: u32,
    /// The base level of attributes
    pub attribute_basis: AttributeMap,
    /// The amount of bonus attribuets from equipment & other things
    pub attribute_additions: AttributeMap,
    /// The amount of times the player has manually bought an attribute
    pub attribute_times_bought: AttributeMap,
    /// The bonus to attributes from pets
    pub attribute_pet_bonus: AttributeMap,
    /// The class of this player
    pub class: Class,
    /// The race this player is of
    pub race: Race,
    /// None if they do not have a scrapbook
    pub scrapbook_count: Option<u32>,
    /// The potions this player has currently equipped
    pub active_potions: [Option<Potion>; 3],
    /// The total amount of armor
    pub armor: u64,
    /// The minimum base damage (from their weapon)
    pub min_damage: u32,
    /// The maximum base damage (from their weapon)
    pub max_damage: u32,
    /// All available data about their fortress, if any
    pub fortress: Option<OtherFortress>,
    /// The level of their gladiator in the underworld
    pub gladiator_lvl: u32,
    /// Is the player considered to be a VIP by the game
    pub is_vip: bool,
}

impl OtherPlayer {
    /// Holds where the values of another player can be read.
    pub open spec fn spec_valid(d: Seq<i64>) -> bool {
        &&& d.len() >= 70
        &&& Race::spec_from_i64(d[18]) is Some
        &&& d[20] != i64::MIN && Class::spec_from_i64((d[20] - 1) as i64) is Some
        &&& 0 <= d[26] <= u32::MAX
    }

    /// Holds where `after` is `before` updated from the values `d`.
    pub open spec fn spec_updated(before: OtherPlayer, after: OtherPlayer, d: Seq<i64>, st: ServerTime) -> bool {
        &&& after.player_id == soft_u32(d[1], 0)
        &&& after.level == soft_u16(d[3] & 0xFFFF, 0)
        &&& after.experience == soft_u64(d[4], 0)
        &&& after.next_level_xp == soft_u64(d[5], 0)
        &&& after.honor == soft_u32(d[6], 0)
        &&& after.rank == soft_u32(d[7], 0)
        &&& after.portrait == Portrait::spec_parse(d.skip(8))
        &&& after.race == Race::spec_from_i64(d[18])->0
        &&& after.class == Class::spec_from_i64((d[20] - 1) as i64)->0
        &&& after.mount == Mount::spec_from_i64(d[21] & 0xFF)
        &&& after.armor == soft_u64(d[23], 0)
        &&& after.min_damage == soft_u32(d[24], 0)
        &&& after.max_damage == soft_u32(d[25], 0)
        &&& after.portal_dmg_bonus == d[26] as u32
        &&& after.portal_hp_bonus == soft_u32(d[28], 0)
        &&& after.mount_end == st.spec_convert(d[29])
        &&& after.attribute_basis == spec_map_update(before.attribute_basis, d.skip(30))
        &&& after.attribute_additions == spec_map_update(before.attribute_additions, d.skip(35))
        &&& after.attribute_times_bought == spec_map_update(before.attribute_times_bought, d.skip(40))
        &&& after.scrapbook_count == if d[66] >= 10000 {
            Some(soft_u32((d[66] - 10000) as i64, 0))
        } else {
            before.scrapbook_count
        }
        &&& after.gladiator_lvl == soft_u32(d[69], 0)
        &&& after.name == before.name
        &&& after.description == before.description
        &&& after.guild == before.guild
        &&& after.fortress == before.fortress
        &&& after.attribute_pet_bonus == before.attribute_pet_bonus
        &&& after.equipment == before.equipment
    }

    /// Updates the player from the (at least 70) values that describe them.
    pub fn update(&mut self, data: &[i64], server_time: ServerTime) -> (r: Result<(), SFError>)
        ensures
            Self::spec_valid(data@) <==> r is Ok,
            r is Ok ==> Self::spec_updated(*old(self), *final(self), data@, server_time),
    {
        if data.len() < 70 {
            return Err(too_short(data, 69, "gladiator lvl"));
        }
        let race = match Race::from_i64(data[18]) {
            Some(r) => r,
            None => return Err(SFError::ParsingError("char race", String::new())),
        };
        let class = if data[20] == -9223372036854775807 - 1 {
            None
        } else {
            Class::from_i64(data[20] - 1)
        };
        let class = match class {
            Some(c) => c,
            None => return Err(SFError::ParsingError("character class", String::new())),
        };
        if !(0 <= data[26] && data[26] <= 4294967295) {
            return Err(SFError::ParsingError("portal dmg bonus", String::new()));
        }
        let ghost before = *self;
        self.player_id = soft_into_u32(data[1], "player id", 0);
        self.level = soft_into_u16(data[3] & 0xFFFF, "level", 0);
        self.experience = soft_into_u64(data[4], "experience", 0);
        self.next_level_xp = soft_into_u64(data[5], "xp to next lvl", 0);
        self.honor = soft_into_u32(data[6], "honor", 0);
        self.rank = soft_into_u32(data[7], "rank", 0);
        self.portrait = match Portrait::parse(skip(data, 8, "portrait")?) {
            Ok(p) => p,
            Err(_) => Portrait::default(),
        };
        self.race = race;
        self.class = class;
        self.mount = Mount::from_i64(data[21] & 0xFF);
        self.armor = soft_into_u64(data[23], "total armor", 0);
        self.min_damage = soft_into_u32(data[24], "min damage", 0);
        self.max_damage = soft_into_u32(data[25], "max damage", 0);
        self.portal_dmg_bonus = data[26] as u32;
        self.portal_hp_bonus = soft_into_u32(data[28], "portal hp bonus", 0);
        self.mount_end = server_time.convert_to_local(data[29], "mount end");
        let b30 = skip(data, 30, "char attr basis")?;
        update_enum_map(&mut self.attribute_basis, b30);
        assert(self.attribute_basis == spec_map_update(before.attribute_basis, b30@));
        let b35 = skip(data, 35, "char attr adds")?;
        update_enum_map(&mut self.attribute_additions, b35);
        assert(self.attribute_additions == spec_map_update(before.attribute_additions, b35@));
        let b40 = skip(data, 40, "char attr tb")?;
        update_enum_map(&mut self.attribute_times_bought, b40);
        assert(self.attribute_times_bought == spec_map_update(before.attribute_times_bought, b40@));
        let sb_count = data[66];
        if sb_count >= 10000 {
            self.scrapbook_count = Some(soft_into_u32(sb_count - 10000, "scrapbook count", 0));
        }
        self.gladiator_lvl = soft_into_u32(data[69], "gladiator lvl", 0);
        Ok(())
    }

    /// Updates the attribute bonus from pets from its values (positions 1
    /// to 5: constitution, dexterity, intelligence, luck, strength).
    pub fn update_pet_bonus(&mut self, data: &[u32]) -> (r: Result<(), SFError>)
        ensures
            data@.len() >= 6 <==> r is Ok,
            r matches Err(e) ==> (e matches SFError::TooShortResponse { name, pos, array } && name@
                == "pet str"@ && pos == 5 && array@.len() == 0),
            r is Ok ==> final(self).attribute_pet_bonus == [data@[5], data@[2], data@[3], data@[1], data@[4]],
            final(self).attribute_basis == old(self).attribute_basis,
            final(self).fortress == old(self).fortress,
    {
        if data.len() < 6 {
            return Err(SFError::TooShortResponse { name: "pet str", pos: 5, array: String::new() });
        }
        self.attribute_pet_bonus = [data[5], data[2], data[3], data[1], data[4]];
        Ok(())
    }

    /// Updates the fortress of the player (which is created where there is
    /// none) from its values.
    pub fn update_fortress(&mut self, data: &[i64]) -> (r: Result<(), SFError>)
        ensures
            data@.len() >= 6 <==> r is Ok,
            final(self).fortress is Some,
            r is Ok ==> {
                let f = final(self).fortress->0;
                &&& f.upgrade_count == soft_u32(data@[0], 0)
                &&& f.soldier_advice == soft_u16(data@[1], 0)
                &&& f.mage_count == soft_u16(data@[2], 0)
                &&& f.archer_count == soft_u16(data@[3], 0)
                &&& f.lootable_wood == soft_u64(data@[4], 0)
                &&& f.lootable_stone == soft_u64(data@[5], 0)
                &&& f.rank == match old(self).fortress {
                    Some(o) => o.rank,
                    None => 0,
                }
            },
            final(self).attribute_basis == old(self).attribute_basis,
            final(self).attribute_pet_bonus == old(self).attribute_pet_bonus,
    {
        let mut ft = match self.fortress {
            Some(f) => f,
            None => OtherFortress::default(),
        };
        if data.len() < 6 {
            self.fortress = Some(ft);
            return Err(too_short(data, 5, "other lootable stone"));
        }
        ft.upgrade_count = soft_into_u32(data[0], "other ft upgrades", 0);
        ft.soldier_advice = soft_into_u16(data[1], "other soldier advice", 0);
        ft.mage_count = soft_into_u16(data[2], "other mage count", 0);
        ft.archer_count = soft_into_u16(data[3], "other soldier advice", 0);
        ft.lootable_wood = soft_into_u64(data[4], "other lootable wood", 0);
        ft.lootable_stone = soft_into_u64(data[5], "other lootable stone", 0);
        self.fortress = Some(ft);
        Ok(())
    }
}

/// The players and guilds that the character has looked at. Each player id
/// and each name is held at most once.
#[derive(Debug, Clone)]
pub struct Lookup {
    /// The players, each id at most once. Use the methods to read them
    pub players: Vec<OtherPlayer>,
    /// The ids of the players by name, each name at most once
    pub name_to_id: Vec<(String, PlayerId)>,
    /// Guilds that the character has looked at, each name at most once
    pub guilds: Vec<OtherGuild>,
}

impl Default for Lookup {
    fn default() -> (r: Self)
        ensures
            r.wf(),
            r.players@.len() == 0 && r.name_to_id@.len() == 0 && r.guilds@.len() == 0,
    {
        Lookup { players: Vec::new(), name_to_id: Vec::new(), guilds: Vec::new() }
    }
}

/// Holds where no two of the players share an id.
pub open spec fn unique_ids(v: Seq<OtherPlayer>) -> bool {
    forall|i: int, j: int|
        0 <= i < j < v.len() ==> (#[trigger] v[i]).player_id != (#[trigger] v[j]).player_id
}

/// Holds where no two of the entries share a name.
pub open spec fn unique_names(v: Seq<(String, PlayerId)>) -> bool {
    forall|i: int, j: int| 0 <= i < j < v.len() ==> (#[trigger] v[i]).0@ != (#[trigger] v[j]).0@
}

/// Holds where no two of the guilds share a name.
pub open spec fn unique_guilds(v: Seq<OtherGuild>) -> bool {
    forall|i: int, j: int| 0 <= i < j < v.len() ==> (#[trigger] v[i]).name@ != (#[trigger] v[j]).name@
}

/// The player with the given id, if there is one.
pub open spec fn player_with(v: Seq<OtherPlayer>, pid: PlayerId) -> Option<OtherPlayer> {
    if exists|i: int| 0 <= i < v.len() && (#[trigger] v[i]).player_id == pid {
        Some(v[choose|i: int| 0 <= i < v.len() && (#[trigger] v[i]).player_id == pid])
    } else {
        None
    }
}

/// The id stored for the given name, if there is one.
pub open spec fn id_for(v: Seq<(String, PlayerId)>, name: Seq<char>) -> Option<PlayerId> {
    if exists|i: int| 0 <= i < v.len() && (#[trigger] v[i]).0@ == name {
        Some(v[choose|i: int| 0 <= i < v.len() && (#[trigger] v[i]).0@ == name].1)
    } else {
        None
    }
}

impl Lookup {
    /// Holds where each player id and each name is held at most once.
    pub open spec fn wf(self) -> bool {
        unique_ids(self.players@) && unique_names(self.name_to_id@) && unique_guilds(self.guilds@)
    }

    /// The players by id.
    pub open spec fn player_map(self) -> Map<PlayerId, OtherPlayer> {
        Map::new(|pid: PlayerId| player_with(self.players@, pid) is Some, |pid: PlayerId| player_with(self.players@, pid)->0)
    }

    /// The ids by name.
    pub open spec fn name_map(self) -> Map<Seq<char>, PlayerId> {
        Map::new(|n: Seq<char>| id_for(self.name_to_id@, n) is Some, |n: Seq<char>| id_for(self.name_to_id@, n)->0)
    }

    /// The position of the player with the given id.
    fn find_pid(&self, pid: PlayerId) -> (r: Option<usize>)
        requires
            self.wf(),
        ensures
            match r {
                Some(i) => i < self.players@.len() && self.players@[i as int].player_id == pid
                    && player_with(self.players@, pid) == Some(self.players@[i as int]),
                None => player_with(self.players@, pid) is None,
            },
    {
        let mut i: usize = 0;
        while i < self.players.len()
            invariant
                i <= self.players@.len(),
                unique_ids(self.players@),
                forall|k: int| 0 <= k < i ==> (#[trigger] self.players@[k]).player_id != pid,
            decreases self.players@.len() - i,
        {
            if self.players[i].player_id == pid {
                proof {
                    let j = choose|j: int| 0 <= j < self.players@.len() && (#[trigger] self.players@[j]).player_id == pid;
                    if j != i {
                        if j < i {
                            assert(self.players@[j].player_id != pid);
                        } else {
                            assert(self.players@[i as int].player_id != self.players@[j].player_id);
                        }
                    }
                }
                return Some(i);
            }
            i = i + 1;
        }
        None
    }

    /// The position of the entry with the given name.
    fn find_name(&self, name: &str) -> (r: Option<usize>)
        requires
            self.wf(),
        ensures
            match r {
                Some(i) => i < self.name_to_id@.len() && self.name_to_id@[i as int].0@ == name@
                    && id_for(self.name_to_id@, name@) == Some(self.name_to_id@[i as int].1),
                None => id_for(self.name_to_id@, name@) is None,
            },
    {
        let cs = chars_of(name);
        let mut i: usize = 0;
        while i < self.name_to_id.len()
            invariant
                i <= self.name_to_id@.len(),
                unique_names(self.name_to_id@),
                cs@ == name@,
                forall|k: int| 0 <= k < i ==> (#[trigger] self.name_to_id@[k]).0@ != name@,
            decreases self.name_to_id@.len() - i,
        {
            if text_is(self.name_to_id[i].0.as_str(), &cs) {
                proof {
                    let j = choose|j: int| 0 <= j < self.name_to_id@.len() && (#[trigger] self.name_to_id@[j]).0@ == name@;
                    if j != i {
                        if j < i {
                            assert(self.name_to_id@[j].0@ != name@);
                        } else {
                            assert(self.name_to_id@[i as int].0@ != self.name_to_id@[j].0@);
                        }
                    }
                }
                return Some(i);
            }
            i = i + 1;
        }
        None
    }

    /// Checks to see if we have queried a player with that player id.
    pub fn lookup_pid(&self, pid: PlayerId) -> (r: Option<&OtherPlayer>)
        requires
            self.wf(),
        ensures
            match player_with(self.players@, pid) {
                Some(p) => r == Some(&p),
                None => r is None,
            },
    {
        match self.find_pid(pid) {
            Some(i) => Some(&self.players[i]),
            None => None,
        }
    }

    /// Checks to see if we have queried a player with the given name.
    pub fn lookup_name(&self, name: &str) -> (r: Option<&OtherPlayer>)
        requires
            self.wf(),
        ensures
            match id_for(self.name_to_id@, name@) {
                Some(pid) => match player_with(self.players@, pid) {
                    Some(p) => r == Some(&p),
                    None => r is None,
                },
                None => r is None,
            },
    {
        match self.find_name(name) {
            Some(i) => self.lookup_pid(self.name_to_id[i].1),
            None => None,
        }
    }

    /// Removes the information about another player based on their id.
    pub fn remove_pid(&mut self, pid: PlayerId) -> (r: Option<OtherPlayer>)
        requires
            old(self).wf(),
        ensures
            final(self).wf(),
            r == player_with(old(self).players@, pid),
            player_with(final(self).players@, pid) is None,
            forall|q: PlayerId| q != pid ==> #[trigger] player_with(final(self).players@, q) == player_with(old(self).players@, q),
            final(self).name_to_id == old(self).name_to_id,
            final(self).guilds == old(self).guilds,
    {
        match self.find_pid(pid) {
            Some(i) => {
                let ghost before = self.players@;
                let p = self.players.remove(i);
                proof {
                    assert(self.players@ == before.remove(i as int));
                    assert forall|q: PlayerId| q != pid implies #[trigger] player_with(self.players@, q) == player_with(before, q) by {
                        if exists|k: int| 0 <= k < before.len() && (#[trigger] before[k]).player_id == q {
                            let k = choose|k: int| 0 <= k < before.len() && (#[trigger] before[k]).player_id == q;
                            assert(k != i);
                            let k2 = if k < i { k } else { k - 1 };
                            assert(self.players@[k2] == before[k]);
                            let m = choose|m: int| 0 <= m < self.players@.len() && (#[trigger] self.players@[m]).player_id == q;
                            let m2 = if m < i { m } else { m + 1 };
                            assert(before[m2] == self.players@[m]);
                            if m2 != k {
                                if m2 < k {
                                    assert(before[m2].player_id != before[k].player_id);
                                } else {
                                    assert(before[k].player_id != before[m2].player_id);
                                }
                            }
                        } else {
                            if exists|m: int| 0 <= m < self.players@.len() && (#[trigger] self.players@[m]).player_id == q {
                                let m = choose|m: int| 0 <= m < self.players@.len() && (#[trigger] self.players@[m]).player_id == q;
                                let m2 = if m < i { m } else { m + 1 };
                                assert(before[m2] == self.players@[m]);
                            }
                        }
                    }
                    if exists|m: int| 0 <= m < self.players@.len() && (#[trigger] self.players@[m]).player_id == pid {
                        let m = choose|m: int| 0 <= m < self.players@.len() && (#[trigger] self.players@[m]).player_id == pid;
                        let m2 = if m < i { m } else { m + 1 };
                        assert(before[m2] == self.players@[m]);
                        if m2 < i {
                            assert(before[m2].player_id != before[i as int].player_id);
                        } else {
                            assert(before[i as int].player_id != before[m2].player_id);
                        }
                    }
                    assert forall|a: int, b: int| 0 <= a < b < self.players@.len() implies (#[trigger] self.players@[a]).player_id != (#[trigger] self.players@[b]).player_id by {
                        let a2 = if a < i { a } else { a + 1 };
                        let b2 = if b < i { b } else { b + 1 };
                        assert(before[a2] == self.players@[a]);
                        assert(before[b2] == self.players@[b]);
                    }
                }
                Some(p)
            },
            None => None,
        }
    }

    /// Clears out all players, that have previously been queried.
    pub fn reset_lookups(&mut self)
        ensures
            final(self).wf() == unique_guilds(old(self).guilds@),
            final(self).players@.len() == 0,
            final(self).name_to_id@.len() == 0,
            final(self).guilds == old(self).guilds,
    {
        self.players = Vec::new();
        self.name_to_id = Vec::new();
    }
}

/// The type of a fight in the combat log.
#[derive(Debug, Clone, Copy, PartialEq, Eq, Structural)]
pub enum CombatMessageType {
    Arena,
    Quest,
    GuildFight,
    GuildRaid,
    Dungeon,
    TowerFight,
    LostFight,
    WonFight,
    FortressFight,
    FortressDefense,
    ShadowWorld,
    FortressDefenseAlreadyCountered,
    PetAttack,
    PetDefense,
    Underworld,
    Twister,
    GuildFightLost,
    GuildFightWon,
}

impl CombatMessageType {
    /// The fight type with the number the server uses for it.
    pub open spec fn spec_from_i64(v: i64) -> Option<CombatMessageType> {
        match v {
            0 => Some(CombatMessageType::Arena),
            1 => Some(CombatMessageType::Quest),
            2 => Some(CombatMessageType::GuildFight),
            3 => Some(CombatMessageType::GuildRaid),
            4 => Some(CombatMessageType::Dungeon),
            5 => Some(CombatMessageType::TowerFight),
            6 => Some(CombatMessageType::LostFight),
            7 => Some(CombatMessageType::WonFight),
            8 => Some(CombatMessageType::FortressFight),
            9 => Some(CombatMessageType::FortressDefense),
            12 => Some(CombatMessageType::ShadowWorld),
            109 => Some(CombatMessageType::FortressDefenseAlreadyCountered),
            14 => Some(CombatMessageType::PetAttack),
            15 => Some(CombatMessageType::PetDefense),
            16 => Some(CombatMessageType::Underworld),
            25 => Some(CombatMessageType::Twister),
            26 => Some(CombatMessageType::GuildFightLost),
            27 => Some(CombatMessageType::GuildFightWon),
            _ => None,
        }
    }

    /// The fight type with the number the server uses for it.
    pub fn from_i64(v: i64) -> (r: Option<CombatMessageType>)
        ensures
            r == Self::spec_from_i64(v),
    {
        match v {
            0 => Some(CombatMessageType::Arena),
            1 => Some(CombatMessageType::Quest),
            2 => Some(CombatMessageType::GuildFight),
            3 => Some(CombatMessageType::GuildRaid),
            4 => Some(CombatMessageType::Dungeon),
            5 => Some(CombatMessageType::TowerFight),
            6 => Some(CombatMessageType::LostFight),
            7 => Some(CombatMessageType::WonFight),
            8 => Some(CombatMessageType::FortressFight),
            9 => Some(CombatMessageType::FortressDefense),
            12 => Some(CombatMessageType::ShadowWorld),
            109 => Some(CombatMessageType::FortressDefenseAlreadyCountered),
            14 => Some(CombatMessageType::PetAttack),
            15 => Some(CombatMessageType::PetDefense),
            16 => Some(CombatMessageType::Underworld),
            25 => Some(CombatMessageType::Twister),
            26 => Some(CombatMessageType::GuildFightLost),
            27 => Some(CombatMessageType::GuildFightWon),
            _ => None,
        }
    }
}

/// The type of a message in the inbox.
#[derive(Debug, Clone, Copy, PartialEq, Eq, Structural)]
pub enum MessageType {
    Normal,
    GuildInvite,
    GuildKicked,
}

/// A fight in the combat log.
#[derive(Debug, Clone)]
pub struct CombatLogEntry {
    pub msg_id: i64,
    pub player_name: String,
    pub won: bool,
    pub battle_type: CombatMessageType,
    pub time: i64,
}

impl CombatLogEntry {
    /// Holds where the values describe a fight of the combat log.
    pub open spec fn spec_valid(d: Seq<Seq<char>>, st: ServerTime) -> bool {
        &&& d.len() >= 5
        &&& decimal_i64(d[0]) is Some && decimal_i64(d[3]) is Some && decimal_i64(d[4]) is Some
        &&& st.spec_convert(decimal_i64(d[4])->0) is Some
        &&& CombatMessageType::spec_from_i64(decimal_i64(d[3])->0) is Some
    }

    /// Parses a fight of the combat log from its values.
    /// Holds where `e` is the fight that the valid values describe.
    pub open spec fn spec_parsed(d: Seq<Seq<char>>, st: ServerTime, e: CombatLogEntry) -> bool {
        &&& e.msg_id == decimal_i64(d[0])->0
        &&& e.player_name@ == d[1]
        &&& e.won == (d[2] == seq!['1'])
        &&& e.battle_type == CombatMessageType::spec_from_i64(decimal_i64(d[3])->0)->0
        &&& e.time == st.spec_convert(decimal_i64(d[4])->0)->0
    }

    pub fn parse(data: &[String], server_time: ServerTime) -> (r: Result<CombatLogEntry, SFError>)
        ensures
            Self::spec_valid(string_views(data@), server_time) <==> r is Ok,
            r matches Ok(e) ==> Self::spec_parsed(string_views(data@), server_time, e),
    {
        let ghost d = string_views(data@);
        if data.len() < 5 {
            return Err(too_short(&[], 4, "combat log time"));
        }
        assert(d[0] == data@[0]@ && d[1] == data@[1]@ && d[2] == data@[2]@);
        assert(d[3] == data@[3]@ && d[4] == data@[4]@);
        let msg_id = match parse_i64(data[0].as_str()) {
            Some(v) => v,
            None => return Err(SFError::ParsingError("combat msg_id", data[0].clone())),
        };
        let battle_t = match parse_i64(data[3].as_str()) {
            Some(v) => v,
            None => return Err(SFError::ParsingError("battle t", data[3].clone())),
        };
        let time_stamp = match parse_i64(data[4].as_str()) {
            Some(v) => v,
            None => return Err(SFError::ParsingError("combat log time", data[4].clone())),
        };
        let time = match server_time.convert_to_local(time_stamp, "combat time") {
            Some(t) => t,
            None => return Err(SFError::ParsingError("combat time", data[4].clone())),
        };
        let mt = match CombatMessageType::from_i64(battle_t) {
            Some(m) => m,
            None => return Err(SFError::ParsingError("combat mt", data[3].clone())),
        };
        let one = ['1'];
        assert(one@ == seq!['1']);
        Ok(CombatLogEntry {
            msg_id,
            player_name: data[1].clone(),
            won: text_is(data[2].as_str(), &one),
            battle_type: mt,
            time,
        })
    }
}

} // verus!

verus! {

/// A member of another guild.
#[derive(Debug, Clone)]
pub struct OtherGuildMember {
    pub name: String,
    pub instructor_lvl: u16,
    pub treasure_lvl: u16,
    pub rank: GuildRank,
    pub level: u16,
    pub pet_lvl: u16,
    pub last_active: Option<i64>,
}

impl OtherGuildMember {
    fn blank() -> (r: OtherGuildMember)
        ensures
            r.name@.len() == 0,
            r.instructor_lvl == 0 && r.treasure_lvl == 0 && r.level == 0 && r.pet_lvl == 0,
            r.rank == GuildRank::Member,
            r.last_active is None,
    {
        OtherGuildMember {
            name: String::new(),
            instructor_lvl: 0,
            treasure_lvl: 0,
            rank: GuildRank::Member,
            level: 0,
            pet_lvl: 0,
            last_active: None,
        }
    }
}

/// The rank with the number the server uses for it, where it is known.
pub open spec fn rank_from_i64(v: i64) -> Option<GuildRank> {
    if v == 1 {
        Some(GuildRank::Leader)
    } else if v == 2 {
        Some(GuildRank::Officer)
    } else if v == 3 {
        Some(GuildRank::Member)
    } else if v == 4 {
        Some(GuildRank::Invited)
    } else {
        None
    }
}

fn rank_or_member(v: i64) -> (r: GuildRank)
    ensures
        r == match rank_from_i64(v) {
            Some(x) => x,
            None => GuildRank::Member,
        },
{
    if v == 1 {
        GuildRank::Leader
    } else if v == 2 {
        GuildRank::Officer
    } else if v == 3 {
        GuildRank::Member
    } else if v == 4 {
        GuildRank::Invited
    } else {
        GuildRank::Member
    }
}

/// Another guild that the character has looked at.
#[derive(Debug, Clone)]
pub struct OtherGuild {
    pub name: String,
    pub attacks: Option<String>,
    pub defends_against: Option<String>,
    pub rank: u16,
    pub attack_cost: u32,
    pub description: String,
    pub emblem: Emblem,
    pub honor: u32,
    pub finished_raids: u16,
    /// The member count that the server gave
    pub member_count: u8,
    pub members: Vec<OtherGuildMember>,
}

impl Default for OtherGuild {
    fn default() -> (r: Self)
        ensures
            r.name@.len() == 0 && r.members@.len() == 0,
    {
        OtherGuild {
            name: String::new(),
            attacks: None,
            defends_against: None,
            rank: 0,
            attack_cost: 0,
            description: String::new(),
            emblem: Emblem::default(),
            honor: 0,
            finished_raids: 0,
            member_count: 0,
            members: Vec::new(),
        }
    }
}

impl OtherGuild {
    /// Holds where the group values of another guild can be read.
    pub open spec fn spec_valid(d: Seq<i64>) -> bool {
        d.len() > 13 && (soft_u8(d[3], 0) > 0 ==> d.len() >= 390 + soft_u8(d[3], 0))
    }

    /// Updates the guild from the numbers of its group save.
    pub fn update_values(&mut self, data: &[i64], server_time: ServerTime) -> (r: Result<(), SFError>)
        ensures
            Self::spec_valid(data@) <==> r is Ok,
            r is Ok ==> {
                let n = soft_u8(data@[3], 0) as int;
                &&& final(self).member_count == n
                &&& final(self).finished_raids == soft_u16(data@[8], 0)
                &&& final(self).honor == soft_u32(data@[13], 0)
                &&& final(self).members@.len() == n
                &&& forall|i: int|
                    0 <= i < n ==> {
                        let m = #[trigger] final(self).members@[i];
                        &&& m.level == soft_u16(data@[64 + i], 0)
                        &&& m.last_active == server_time.spec_convert(data@[114 + i])
                        &&& m.treasure_lvl == soft_u16(data@[214 + i], 0)
                        &&& m.instructor_lvl == soft_u16(data@[264 + i], 0)
                        &&& m.rank == match rank_from_i64(data@[314 + i]) {
                            Some(x) => x,
                            None => GuildRank::Member,
                        }
                        &&& m.pet_lvl == soft_u16(data@[390 + i], 0)
                        &&& m.name@ == if i < old(self).members@.len() {
                            old(self).members@[i].name@
                        } else {
                            Seq::empty()
                        }
                    }
            },
            final(self).name == old(self).name,
    {
        if data.len() <= 13 {
            return Err(too_short(data, 13, "other guild honor"));
        }
        let member_count = crate::misc::soft_into_u8(data[3], "member count", 0);
        let n = member_count as usize;
        if n > 0 && data.len() < 390 + n {
            return Err(too_short(data, 389 + n, "other guild pet levels"));
        }
        let mut members: Vec<OtherGuildMember> = Vec::new();
        let mut i: usize = 0;
        while i < n
            invariant
                i <= n,
                n == soft_u8(data@[3], 0),
                n > 0 ==> data@.len() >= 390 + n,
                members@.len() == i,
                forall|k: int|
                    0 <= k < i ==> {
                        let m = #[trigger] members@[k];
                        &&& m.level == soft_u16(data@[64 + k], 0)
                        &&& m.last_active == server_time.spec_convert(data@[114 + k])
                        &&& m.treasure_lvl == soft_u16(data@[214 + k], 0)
                        &&& m.instructor_lvl == soft_u16(data@[264 + k], 0)
                        &&& m.rank == match rank_from_i64(data@[314 + k]) {
                            Some(x) => x,
                            None => GuildRank::Member,
                        }
                        &&& m.pet_lvl == soft_u16(data@[390 + k], 0)
                        &&& m.name@ == if k < self.members@.len() {
                            self.members@[k].name@
                        } else {
                            Seq::empty()
                        }
                    },
            decreases n - i,
        {
            let name = if i < self.members.len() {
                self.members[i].name.clone()
            } else {
                String::new()
            };
            members.push(
                OtherGuildMember {
                    name,
                    level: soft_into_u16(data[64 + i], "other guild member level", 0),
                    last_active: server_time.convert_to_local(data[114 + i], "other guild member active"),
                    treasure_lvl: soft_into_u16(data[214 + i], "other guild member treasure levels", 0),
                    instructor_lvl: soft_into_u16(data[264 + i], "other guild member instructor levels", 0),
                    rank: rank_or_member(data[314 + i]),
                    pet_lvl: soft_into_u16(data[390 + i], "other guild pet levels", 0),
                },
            );
            i = i + 1;
        }
        self.member_count = member_count;
        self.finished_raids = soft_into_u16(data[8], "raid count", 0);
        self.honor = soft_into_u32(data[13], "other guild honor", 0);
        self.members = members;
        Ok(())
    }

    /// Updates the guild from its group save, whose numbers are separated by
    /// `/`.
    pub fn update(&mut self, val: &str, server_time: ServerTime) -> (r: Result<(), SFError>)
        ensures
            Self::spec_valid(crate::gamestate::guild::spec_group_values(val@)) <==> r is Ok,
            r is Ok ==> final(self).member_count == soft_u8(
                crate::gamestate::guild::spec_group_values(val@)[3],
                0,
            ),
            final(self).name == old(self).name,
    {
        let data = crate::gamestate::guild::Guild::group_values(val);
        self.update_values(&data, server_time)
    }
}

/// Another player in the list of friends or ignored players.
#[derive(Debug, Clone)]
pub struct RelationEntry {
    pub id: PlayerId,
    pub name: String,
    pub guild: String,
    pub level: u16,
    pub relation: Relationship,
}

/// The state of a claimable mail.
#[derive(Debug, Clone, Copy, PartialEq, Eq, Structural)]
pub enum ClaimableStatus {
    Unread,
    Read,
    Claimed,
}

/// The type of a claimable mail.
#[derive(Debug, Clone, Copy, PartialEq, Eq, Structural)]
pub enum ClaimableMailType {
    Coupon,
    SupermanDelivery,
    TwitchDrop,
    GenericDelivery,
}

impl Default for ClaimableMailType {
    fn default() -> (r: Self)
        ensures
            r == ClaimableMailType::GenericDelivery,
    {
        ClaimableMailType::GenericDelivery
    }
}

impl ClaimableMailType {
    /// The type with the number the server uses for it.
    pub open spec fn spec_from_i64(v: i64) -> Option<ClaimableMailType> {
        if v == 10 {
            Some(ClaimableMailType::Coupon)
        } else if v == 11 {
            Some(ClaimableMailType::SupermanDelivery)
        } else if v == 12 {
            Some(ClaimableMailType::TwitchDrop)
        } else if v == 13 {
            Some(ClaimableMailType::GenericDelivery)
        } else {
            None
        }
    }

    /// The type with the number the server uses for it.
    pub fn from_i64(v: i64) -> (r: Option<ClaimableMailType>)
        ensures
            r == Self::spec_from_i64(v),
    {
        if v == 10 {
            Some(ClaimableMailType::Coupon)
        } else if v == 11 {
            Some(ClaimableMailType::SupermanDelivery)
        } else if v == 12 {
            Some(ClaimableMailType::TwitchDrop)
        } else if v == 13 {
            Some(ClaimableMailType::GenericDelivery)
        } else {
            None
        }
    }
}

/// Items and resources from item codes or drops, that you can claim.
#[derive(Debug, Clone)]
pub struct ClaimableMail {
    pub msg_id: i64,
    pub typ: ClaimableMailType,
    pub status: ClaimableStatus,
    pub name: String,
    pub received: Option<i64>,
    pub claimable_until: Option<i64>,
}

/// A preview of a claimable mail.
#[derive(Debug, Clone)]
pub struct ClaimablePreview {
    pub items: Vec<Item>,
    pub resources: Vec<Reward>,
}

/// A message in the inbox.
#[derive(Debug, Clone)]
pub struct InboxEntry {
    pub msg_typ: MessageType,
    pub from: String,
    pub msg_id: i32,
    pub title: String,
    pub date: i64,
    pub read: bool,
}

/// The position of the last `c` in the text, if there is one.
pub open spec fn last_index(s: Seq<char>, c: char) -> Option<int>
    decreases s.len(),
{
    if s.len() == 0 {
        None
    } else if s.last() == c {
        Some(s.len() - 1)
    } else {
        last_index(s.drop_last(), c)
    }
}

/// The text before and after its last `c`, as `str::rsplit_once` with a
/// character gives them.
pub open spec fn rsplit_once_text(s: Seq<char>, c: char) -> Option<(Seq<char>, Seq<char>)> {
    match last_index(s, c) {
        Some(i) => Some((s.take(i), s.skip(i + 1))),
        None => None,
    }
}

proof fn lemma_last_index(s: Seq<char>, c: char)
    ensures
        last_index(s, c) matches Some(i) ==> 0 <= i < s.len() && s[i] == c && forall|k: int|
            i < k < s.len() ==> s[k] != c,
        last_index(s, c) is None ==> forall|k: int| 0 <= k < s.len() ==> s[k] != c,
    decreases s.len(),
{
    if s.len() > 0 && s.last() != c {
        let t = s.drop_last();
        lemma_last_index(t, c);
        assert forall|k: int| 0 <= k < t.len() implies t[k] == s[k] by {}
        if last_index(s, c) is None {
            assert forall|k: int| 0 <= k < s.len() implies s[k] != c by {
                if k < t.len() {
                    assert(t[k] == s[k]);
                }
            }
        }
    }
}

fn rsplit_once_char(s: &str, c: char) -> (r: Option<(String, String)>)
    ensures
        match rsplit_once_text(s@, c) {
            Some((a, b)) => r matches Some((x, y)) && x@ == a && y@ == b,
            None => r is None,
        },
{
    let cs = chars_of(s);
    let mut end: usize = cs.len();
    assert(cs@.take(end as int) =~= cs@);
    while end > 0 && cs[end - 1] != c
        invariant
            end <= cs@.len(),
            cs@ == s@,
            last_index(cs@, c) == last_index(cs@.take(end as int), c),
        decreases end,
    {
        assert(cs@.take(end as int).drop_last() =~= cs@.take(end - 1));
        end = end - 1;
    }
    if end == 0 {
        assert(cs@.take(0) =~= Seq::<char>::empty());
        return None;
    }
    let i = end - 1;
    assert(cs@.take(end as int).last() == c);
    assert(last_index(cs@.take(end as int), c) == Some(i as int));
    let (head, tail) = cs.as_slice().split_at(i);
    let (_, rest) = tail.split_at(1);
    assert(head@ =~= s@.take(i as int));
    assert(rest@ =~= s@.skip(i + 1));
    Some((string_of_chars(head), string_of_chars(rest)))
}

fn string_of_chars(cs: &[char]) -> (s: String)
    ensures
        s@ == cs@,
{
    crate::misc::string_of(cs)
}

/// The (up to) four pieces of a text split at its first three commas, as
/// `str::splitn(4, ',')` gives them: `None` where it has fewer than three.
pub open spec fn split4(s: Seq<char>) -> Option<(Seq<char>, Seq<char>, Seq<char>, Seq<char>)> {
    match split_once_text(s, ',') {
        Some((a, r1)) => match split_once_text(r1, ',') {
            Some((b, r2)) => match split_once_text(r2, ',') {
                Some((c, d)) => Some((a, b, c, d)),
                None => None,
            },
            None => None,
        },
        None => None,
    }
}

/// Holds of texts made only of ASCII digits (the empty text too).
pub open spec fn all_ascii_digits(s: Seq<char>) -> bool {
    forall|i: int| 0 <= i < s.len() ==> '0' <= #[trigger] s[i] <= '9'
}

fn ascii_digits(s: &str) -> (r: bool)
    ensures
        r == all_ascii_digits(s@),
{
    let cs = chars_of(s);
    let mut i: usize = 0;
    while i < cs.len()
        invariant
            i <= cs@.len(),
            cs@ == s@,
            forall|k: int| 0 <= k < i ==> '0' <= #[trigger] cs@[k] <= '9',
        decreases cs@.len() - i,
    {
        if !('0' <= cs[i] && cs[i] <= '9') {
            return false;
        }
        i = i + 1;
    }
    true
}

/// The type of a message with the given title, where it is one: "3" is a
/// kick, "5" an invitation, other numbers are unknown.
pub open spec fn spec_msg_typ(title: Seq<char>) -> Option<MessageType> {
    if title == seq!['3'] {
        Some(MessageType::GuildKicked)
    } else if title == seq!['5'] {
        Some(MessageType::GuildInvite)
    } else if all_ascii_digits(title) {
        None
    } else {
        Some(MessageType::Normal)
    }
}

impl InboxEntry {
    /// Holds where the text describes a message:
    /// `id,from,read,title,date`.
    pub open spec fn spec_valid(s: Seq<char>, st: ServerTime) -> bool {
        split4(s) matches Some((id, from, read, rest)) && rsplit_once_text(rest, ',') matches Some(
            (title, date),
        ) && spec_msg_typ(title) is Some && decimal_i64(date) is Some && st.spec_convert(
            decimal_i64(date)->0,
        ) is Some && decimal_i32(id) is Some
    }

    /// Holds where `e` is the message that the valid text describes.
    pub open spec fn spec_parsed(s: Seq<char>, st: ServerTime, e: InboxEntry) -> bool {
        split4(s) matches Some((id, from, read, rest)) && rsplit_once_text(rest, ',') matches Some(
            (title, date),
        ) && {
            &&& e.msg_typ == spec_msg_typ(title)->0
            &&& e.date == st.spec_convert(decimal_i64(date)->0)->0
            &&& e.from@ == from
            &&& e.msg_id == decimal_i32(id)->0
            &&& e.title@ == sf_text(trim_end_char(title, '\t'))
            &&& e.read == (read == seq!['1'])
        }
    }

    /// Parses a message of the inbox from its text.
    pub fn parse(msg: &str, server_time: ServerTime) -> (r: Result<InboxEntry, SFError>)
        ensures
            Self::spec_valid(msg@, server_time) <==> r is Ok,
            r matches Ok(e) ==> Self::spec_parsed(msg@, server_time, e),
    {
        let (id, r1) = match split_once_char(msg, ',') {
            Some(x) => x,
            None => return Err(too_short(&[], 3, "msg title/date")),
        };
        let (from, r2) = match split_once_char(r1.as_str(), ',') {
            Some(x) => x,
            None => return Err(too_short(&[], 3, "msg title/date")),
        };
        let (read, rest) = match split_once_char(r2.as_str(), ',') {
            Some(x) => x,
            None => return Err(too_short(&[], 3, "msg title/date")),
        };
        let (title, date) = match rsplit_once_char(rest.as_str(), ',') {
            Some(x) => x,
            None => return Err(SFError::ParsingError("title/msg comma", msg.to_string())),
        };
        let three = ['3'];
        let five = ['5'];
        assert(three@ == seq!['3']);
        assert(five@ == seq!['5']);
        let msg_typ = if text_is(title.as_str(), &three) {
            MessageType::GuildKicked
        } else if text_is(title.as_str(), &five) {
            MessageType::GuildInvite
        } else if ascii_digits(title.as_str()) {
            return Err(SFError::ParsingError("msg typ", title));
        } else {
            MessageType::Normal
        };
        let date_val = match parse_i64(date.as_str()) {
            Some(v) => v,
            None => return Err(SFError::ParsingError("msg date", date)),
        };
        let date = match server_time.convert_to_local(date_val, "msg_date") {
            Some(d) => d,
            None => return Err(SFError::ParsingError("msg date", date)),
        };
        let msg_id = match parse_i32(id.as_str()) {
            Some(v) => v,
            None => return Err(SFError::ParsingError("msg_id", id)),
        };
        let trimmed = trim_end_matches_char(title.as_str(), '\t');
        let one = ['1'];
        assert(one@ == seq!['1']);
        Ok(InboxEntry {
            msg_typ,
            date,
            from,
            msg_id,
            title: from_sf_string(trimmed.as_str()),
            read: text_is(read.as_str(), &one),
        })
    }
}

/// The mails, messages and fights of the character.
#[derive(Debug, Clone)]
pub struct Mail {
    /// All the fights, that the character has stored for some reason
    pub combat_log: Vec<CombatLogEntry>,
    /// The amount of messages the inbox can store
    pub inbox_capacity: u16,
    /// Messages and notifications
    pub inbox: Vec<InboxEntry>,
    /// Items and resources from item codes/twitch drops, that you can claim
    pub claimables: Vec<ClaimableMail>,
    /// If you open a message (via command), this here will contain the
    /// opened message
    pub open_msg: Option<String>,
    /// A preview of a claimable
    pub open_claimable: Option<ClaimablePreview>,
}

impl Default for Mail {
    fn default() -> (r: Self)
        ensures
            r.combat_log@.len() == 0 && r.inbox@.len() == 0 && r.claimables@.len() == 0,
            r.inbox_capacity == 0,
            r.open_msg is None && r.open_claimable is None,
    {
        Mail {
            combat_log: Vec::new(),
            inbox_capacity: 0,
            inbox: Vec::new(),
            claimables: Vec::new(),
            open_msg: None,
            open_claimable: None,
        }
    }
}

/// Replacing a player in place keeps the ids unique and changes only the
/// lookup of its id.
proof fn lemma_player_replace(v: Seq<OtherPlayer>, i: int, p: OtherPlayer)
    requires
        unique_ids(v),
        0 <= i < v.len(),
        v[i].player_id == p.player_id,
    ensures
        unique_ids(v.update(i, p)),
        forall|q: PlayerId| #[trigger] player_with(v.update(i, p), q) == if q == p.player_id {
            Some(p)
        } else {
            player_with(v, q)
        },
{
    let w = v.update(i, p);
    assert forall|a: int, b: int| 0 <= a < b < w.len() implies (#[trigger] w[a]).player_id != (#[trigger] w[b]).player_id by {
        assert(v[a].player_id != v[b].player_id);
    }
    assert forall|q: PlayerId| #[trigger] player_with(w, q) == if q == p.player_id {
        Some(p)
    } else {
        player_with(v, q)
    } by {
        if q == p.player_id {
            assert(w[i] == p);
            let k = choose|k: int| 0 <= k < w.len() && (#[trigger] w[k]).player_id == q;
            if k != i {
                if k < i {
                    assert(w[k].player_id != w[i].player_id);
                } else {
                    assert(w[i].player_id != w[k].player_id);
                }
            }
        } else {
            if exists|k: int| 0 <= k < v.len() && (#[trigger] v[k]).player_id == q {
                let k = choose|k: int| 0 <= k < v.len() && (#[trigger] v[k]).player_id == q;
                assert(w[k] == v[k]);
                let m = choose|m: int| 0 <= m < w.len() && (#[trigger] w[m]).player_id == q;
                assert(w[m] == v[m]);
                if m != k {
                    if m < k {
                        assert(v[m].player_id != v[k].player_id);
                    } else {
                        assert(v[k].player_id != v[m].player_id);
                    }
                }
            } else {
                if exists|m: int| 0 <= m < w.len() && (#[trigger] w[m]).player_id == q {
                    let m = choose|m: int| 0 <= m < w.len() && (#[trigger] w[m]).player_id == q;
                    assert(w[m] == v[m]);
                }
            }
        }
    }
}

/// Adding a player with a new id keeps the ids unique and changes only the
/// lookup of its id.
proof fn lemma_player_push(v: Seq<OtherPlayer>, p: OtherPlayer)
    requires
        unique_ids(v),
        player_with(v, p.player_id) is None,
    ensures
        unique_ids(v.push(p)),
        forall|q: PlayerId| #[trigger] player_with(v.push(p), q) == if q == p.player_id {
            Some(p)
        } else {
            player_with(v, q)
        },
{
    let w = v.push(p);
    assert forall|a: int, b: int| 0 <= a < b < w.len() implies (#[trigger] w[a]).player_id != (#[trigger] w[b]).player_id by {
        if b < v.len() {
            assert(v[a].player_id != v[b].player_id);
        } else {
            assert(w[a] == v[a]);
        }
    }
    assert forall|q: PlayerId| #[trigger] player_with(w, q) == if q == p.player_id {
        Some(p)
    } else {
        player_with(v, q)
    } by {
        let n = v.len() as int;
        if q == p.player_id {
            assert(w[n] == p);
            let k = choose|k: int| 0 <= k < w.len() && (#[trigger] w[k]).player_id == q;
            if k != n {
                assert(w[k] == v[k]);
            }
        } else {
            if exists|k: int| 0 <= k < v.len() && (#[trigger] v[k]).player_id == q {
                let k = choose|k: int| 0 <= k < v.len() && (#[trigger] v[k]).player_id == q;
                assert(w[k] == v[k]);
                let m = choose|m: int| 0 <= m < w.len() && (#[trigger] w[m]).player_id == q;
                assert(w[m] == v[m]);
                if m != k {
                    if m < k {
                        assert(v[m].player_id != v[k].player_id);
                    } else {
                        assert(v[k].player_id != v[m].player_id);
                    }
                }
            } else {
                if exists|m: int| 0 <= m < w.len() && (#[trigger] w[m]).player_id == q {
                    let m = choose|m: int| 0 <= m < w.len() && (#[trigger] w[m]).player_id == q;
                    assert(w[m] == v[m]);
                }
            }
        }
    }
}

/// Replacing the id of a name in place keeps the names unique and changes
/// only the lookup of that name.
proof fn lemma_name_replace(v: Seq<(String, PlayerId)>, i: int, e: (String, PlayerId))
    requires
        unique_names(v),
        0 <= i < v.len(),
        v[i].0@ == e.0@,
    ensures
        unique_names(v.update(i, e)),
        forall|n: Seq<char>| #[trigger] id_for(v.update(i, e), n) == if n == e.0@ {
            Some(e.1)
        } else {
            id_for(v, n)
        },
{
    let w = v.update(i, e);
    assert forall|a: int, b: int| 0 <= a < b < w.len() implies (#[trigger] w[a]).0@ != (#[trigger] w[b]).0@ by {
        assert(v[a].0@ != v[b].0@);
    }
    assert forall|n: Seq<char>| #[trigger] id_for(w, n) == if n == e.0@ {
        Some(e.1)
    } else {
        id_for(v, n)
    } by {
        if n == e.0@ {
            assert(w[i] == e);
            let k = choose|k: int| 0 <= k < w.len() && (#[trigger] w[k]).0@ == n;
            if k != i {
                if k < i {
                    assert(w[k].0@ != w[i].0@);
                } else {
                    assert(w[i].0@ != w[k].0@);
                }
            }
        } else {
            if exists|k: int| 0 <= k < v.len() && (#[trigger] v[k]).0@ == n {
                let k = choose|k: int| 0 <= k < v.len() && (#[trigger] v[k]).0@ == n;
                assert(w[k] == v[k]);
                let m = choose|m: int| 0 <= m < w.len() && (#[trigger] w[m]).0@ == n;
                assert(w[m] == v[m]);
                if m != k {
                    if m < k {
                        assert(v[m].0@ != v[k].0@);
                    } else {
                        assert(v[k].0@ != v[m].0@);
                    }
                }
            } else {
                if exists|m: int| 0 <= m < w.len() && (#[trigger] w[m]).0@ == n {
                    let m = choose|m: int| 0 <= m < w.len() && (#[trigger] w[m]).0@ == n;
                    assert(w[m] == v[m]);
                }
            }
        }
    }
}

/// Adding a new name keeps the names unique and changes only the lookup of
/// that name.
proof fn lemma_name_push(v: Seq<(String, PlayerId)>, e: (String, PlayerId))
    requires
        unique_names(v),
        id_for(v, e.0@) is None,
    ensures
        unique_names(v.push(e)),
        forall|n: Seq<char>| #[trigger] id_for(v.push(e), n) == if n == e.0@ {
            Some(e.1)
        } else {
            id_for(v, n)
        },
{
    let w = v.push(e);
    assert forall|a: int, b: int| 0 <= a < b < w.len() implies (#[trigger] w[a]).0@ != (#[trigger] w[b]).0@ by {
        if b < v.len() {
            assert(v[a].0@ != v[b].0@);
        } else {
            assert(w[a] == v[a]);
        }
    }
    assert forall|n: Seq<char>| #[trigger] id_for(w, n) == if n == e.0@ {
        Some(e.1)
    } else {
        id_for(v, n)
    } by {
        let len = v.len() as int;
        if n == e.0@ {
            assert(w[len] == e);
            let k = choose|k: int| 0 <= k < w.len() && (#[trigger] w[k]).0@ == n;
            if k != len {
                assert(w[k] == v[k]);
            }
        } else {
            if exists|k: int| 0 <= k < v.len() && (#[trigger] v[k]).0@ == n {
                let k = choose|k: int| 0 <= k < v.len() && (#[trigger] v[k]).0@ == n;
                assert(w[k] == v[k]);
                let m = choose|m: int| 0 <= m < w.len() && (#[trigger] w[m]).0@ == n;
                assert(w[m] == v[m]);
                if m != k {
                    if m < k {
                        assert(v[m].0@ != v[k].0@);
                    } else {
                        assert(v[k].0@ != v[m].0@);
                    }
                }
            } else {
                if exists|m: int| 0 <= m < w.len() && (#[trigger] w[m]).0@ == n {
                    let m = choose|m: int| 0 <= m < w.len() && (#[trigger] w[m]).0@ == n;
                    assert(w[m] == v[m]);
                }
            }
        }
    }
}

/// Holds where `after` is `before` with `other` stored: found by its id and
/// by its name, with the other ids and names found as before.
pub open spec fn stores(before: Lookup, other: OtherPlayer, after: Lookup) -> bool {
    &&& forall|q: PlayerId| #[trigger] player_with(after.players@, q) == if q == other.player_id {
        Some(other)
    } else {
        player_with(before.players@, q)
    }
    &&& forall|n: Seq<char>| #[trigger] id_for(after.name_to_id@, n) == if n == other.name@ {
        Some(other.player_id)
    } else {
        id_for(before.name_to_id@, n)
    }
}

/// A player that was stored in the lookup is read back by its id and by its
/// name; the lookup maps change by that one entry.
pub proof fn lemma_lookup_reads_back(before: Lookup, other: OtherPlayer, after: Lookup)
    requires
        stores(before, other, after),
    ensures
        player_with(after.players@, other.player_id) == Some(other),
        id_for(after.name_to_id@, other.name@) == Some(other.player_id),
        after.player_map() == before.player_map().insert(other.player_id, other),
        after.name_map() == before.name_map().insert(other.name@, other.player_id),
{
    assert(player_with(after.players@, other.player_id) == Some(other));
    assert(id_for(after.name_to_id@, other.name@) == Some(other.player_id));
    assert(after.player_map() =~= before.player_map().insert(other.player_id, other)) by {
        assert forall|q: PlayerId| #[trigger] after.player_map().contains_key(q) == before.player_map().insert(other.player_id, other).contains_key(q) by {
            assert(player_with(after.players@, q) == player_with(after.players@, q));
        }
        assert forall|q: PlayerId| after.player_map().contains_key(q) implies #[trigger] after.player_map()[q] == before.player_map().insert(other.player_id, other)[q] by {
            assert(player_with(after.players@, q) == player_with(after.players@, q));
        }
    }
    assert(after.name_map() =~= before.name_map().insert(other.name@, other.player_id)) by {
        assert forall|n: Seq<char>| #[trigger] after.name_map().contains_key(n) == before.name_map().insert(other.name@, other.player_id).contains_key(n) by {
            assert(id_for(after.name_to_id@, n) == id_for(after.name_to_id@, n));
        }
        assert forall|n: Seq<char>| after.name_map().contains_key(n) implies #[trigger] after.name_map()[n] == before.name_map().insert(other.name@, other.player_id)[n] by {
            assert(id_for(after.name_to_id@, n) == id_for(after.name_to_id@, n));
        }
    }
}

impl Lookup {
    /// Stores another player, found by id and by name afterwards. A player
    /// with an empty name or the id 0 is not stored.
    pub fn insert_lookup(&mut self, other: OtherPlayer)
        requires
            old(self).wf(),
        ensures
            final(self).wf(),
            other.name@.len() == 0 || other.player_id == 0 ==> *final(self) == *old(self),
            other.name@.len() != 0 && other.player_id != 0 ==> stores(*old(self), other, *final(self)),
            final(self).guilds == old(self).guilds,
    {
        let empty = chars_of(other.name.as_str()).len() == 0;
        if empty || other.player_id == 0 {
            return;
        }
        let pid = other.player_id;
        let entry = (other.name.clone(), pid);
        let ghost names = self.name_to_id@;
        match self.find_name(other.name.as_str()) {
            Some(i) => {
                proof {
                    lemma_name_replace(names, i as int, entry);
                }
                self.name_to_id.set(i, entry);
            },
            None => {
                proof {
                    lemma_name_push(names, entry);
                }
                self.name_to_id.push(entry);
            },
        }
        let ghost players = self.players@;
        match self.find_pid(pid) {
            Some(i) => {
                proof {
                    lemma_player_replace(players, i as int, other);
                }
                self.players.set(i, other);
            },
            None => {
                proof {
                    lemma_player_push(players, other);
                }
                self.players.push(other);
            },
        }
    }

    /// Removes the information about another player based on their name.
    pub fn remove_name(&mut self, name: &str) -> (r: Option<OtherPlayer>)
        requires
            old(self).wf(),
        ensures
            final(self).wf(),
            id_for(final(self).name_to_id@, name@) is None,
            forall|n: Seq<char>| n != name@ ==> #[trigger] id_for(final(self).name_to_id@, n) == id_for(old(self).name_to_id@, n),
            match id_for(old(self).name_to_id@, name@) {
                Some(pid) => r == player_with(old(self).players@, pid)
                    && player_with(final(self).players@, pid) is None
                    && forall|q: PlayerId| q != pid ==> #[trigger] player_with(final(self).players@, q) == player_with(old(self).players@, q),
                None => r is None && final(self).players == old(self).players,
            },
            final(self).guilds == old(self).guilds,
    {
        match self.find_name(name) {
            Some(i) => {
                let ghost before = self.name_to_id@;
                let (_, pid) = self.name_to_id.remove(i);
                proof {
                    assert(self.name_to_id@ == before.remove(i as int));
                    assert forall|n: Seq<char>| n != name@ implies #[trigger] id_for(self.name_to_id@, n) == id_for(before, n) by {
                        if exists|k: int| 0 <= k < before.len() && (#[trigger] before[k]).0@ == n {
                            let k = choose|k: int| 0 <= k < before.len() && (#[trigger] before[k]).0@ == n;
                            assert(k != i);
                            let k2 = if k < i { k } else { k - 1 };
                            assert(self.name_to_id@[k2] == before[k]);
                            let m = choose|m: int| 0 <= m < self.name_to_id@.len() && (#[trigger] self.name_to_id@[m]).0@ == n;
                            let m2 = if m < i { m } else { m + 1 };
                            assert(before[m2] == self.name_to_id@[m]);
                            if m2 != k {
                                if m2 < k {
                                    assert(before[m2].0@ != before[k].0@);
                                } else {
                                    assert(before[k].0@ != before[m2].0@);
                                }
                            }
                        } else {
                            if exists|m: int| 0 <= m < self.name_to_id@.len() && (#[trigger] self.name_to_id@[m]).0@ == n {
                                let m = choose|m: int| 0 <= m < self.name_to_id@.len() && (#[trigger] self.name_to_id@[m]).0@ == n;
                                let m2 = if m < i { m } else { m + 1 };
                                assert(before[m2] == self.name_to_id@[m]);
                            }
                        }
                    }
                    if exists|m: int| 0 <= m < self.name_to_id@.len() && (#[trigger] self.name_to_id@[m]).0@ == name@ {
                        let m = choose|m: int| 0 <= m < self.name_to_id@.len() && (#[trigger] self.name_to_id@[m]).0@ == name@;
                        let m2 = if m < i { m } else { m + 1 };
                        assert(before[m2] == self.name_to_id@[m]);
                        if m2 < i {
                            assert(before[m2].0@ != before[i as int].0@);
                        } else {
                            assert(before[i as int].0@ != before[m2].0@);
                        }
                    }
                    assert forall|a: int, b: int| 0 <= a < b < self.name_to_id@.len() implies (#[trigger] self.name_to_id@[a]).0@ != (#[trigger] self.name_to_id@[b]).0@ by {
                        let a2 = if a < i { a } else { a + 1 };
                        let b2 = if b < i { b } else { b + 1 };
                        assert(before[a2] == self.name_to_id@[a]);
                        assert(before[b2] == self.name_to_id@[b]);
                    }
                }
                self.remove_pid(pid)
            },
            None => None,
        }
    }

    /// Stores a guild that the character has looked at, replacing one with
    /// the same name.
    pub fn insert_guild(&mut self, guild: OtherGuild)
        requires
            old(self).wf(),
        ensures
            final(self).wf(),
            final(self).players == old(self).players,
            final(self).name_to_id == old(self).name_to_id,
            exists|i: int| 0 <= i < final(self).guilds@.len() && final(self).guilds@[i] == guild,
            forall|i: int| 0 <= i < old(self).guilds@.len() && old(self).guilds@[i].name@ != guild.name@ ==> final(self).guilds@.contains(#[trigger] old(self).guilds@[i]),
            forall|i: int| 0 <= i < final(self).guilds@.len() ==> #[trigger] final(self).guilds@[i] == guild || old(self).guilds@.contains(final(self).guilds@[i]),
    {
        let cs = chars_of(guild.name.as_str());
        let mut i: usize = 0;
        while i < self.guilds.len()
            invariant
                i <= self.guilds@.len(),
                cs@ == guild.name@,
                self.guilds@ == old(self).guilds@,
                self.players == old(self).players,
                self.name_to_id == old(self).name_to_id,
                old(self).wf(),
                forall|k: int| 0 <= k < i ==> (#[trigger] self.guilds@[k]).name@ != guild.name@,
            decreases self.guilds@.len() - i,
        {
            if text_is(self.guilds[i].name.as_str(), &cs) {
                let ghost before = self.guilds@;
                self.guilds.set(i, guild);
                proof {
                    assert(self.guilds@[i as int] == guild);
                    assert forall|a: int, b: int| 0 <= a < b < self.guilds@.len() implies (#[trigger] self.guilds@[a]).name@ != (#[trigger] self.guilds@[b]).name@ by {
                        assert(before[a].name@ != before[b].name@);
                    }
                    assert forall|k: int| 0 <= k < before.len() && before[k].name@ != guild.name@ implies self.guilds@.contains(#[trigger] before[k]) by {
                        assert(k != i);
                        assert(self.guilds@[k] == before[k]);
                    }
                    assert forall|k: int| 0 <= k < self.guilds@.len() implies #[trigger] self.guilds@[k] == guild || before.contains(self.guilds@[k]) by {
                        if k != i {
                            assert(self.guilds@[k] == before[k]);
                        }
                    }
                }
                return;
            }
            i = i + 1;
        }
        let ghost before = self.guilds@;
        self.guilds.push(guild);
        proof {
            let n = before.len() as int;
            assert(self.guilds@[n] == guild);
            assert forall|a: int, b: int| 0 <= a < b < self.guilds@.len() implies (#[trigger] self.guilds@[a]).name@ != (#[trigger] self.guilds@[b]).name@ by {
                if b < n {
                    assert(before[a].name@ != before[b].name@);
                } else {
                    assert(self.guilds@[a] == before[a]);
                }
            }
            assert forall|k: int| 0 <= k < before.len() && before[k].name@ != guild.name@ implies self.guilds@.contains(#[trigger] before[k]) by {
                assert(self.guilds@[k] == before[k]);
            }
            assert forall|k: int| 0 <= k < self.guilds@.len() implies #[trigger] self.guilds@[k] == guild || before.contains(self.guilds@[k]) by {
                if k < n {
                    assert(self.guilds@[k] == before[k]);
                }
            }
        }
    }
}

} // verus!

verus! {

impl Default for OtherPlayer {
    fn default() -> (r: Self)
        ensures
            r.player_id == 0,
            r.name@.len() == 0,
            r.description@.len() == 0,
            r.guild is None,
            r.fortress is None,
            r.relationship == Relationship::Ignored,
            r.wall_combat_lvl == 0,
    {
        OtherPlayer {
            player_id: 0,
            name: String::new(),
            level: 0,
            description: String::new(),
            guild: None,
            guild_joined: None,
            mount: None,
            mount_end: None,
            portrait: Portrait::default(),
            relationship: Relationship::default(),
            wall_combat_lvl: 0,
            equipment: Equipment::default(),
            experience: 0,
            next_level_xp: 0,
            honor: 0,
            rank: 0,
            portal_hp_bonus: 0,
            portal_dmg_bonus: 0,
            attribute_basis: [0, 0, 0, 0, 0],
            attribute_additions: [0, 0, 0, 0, 0],
            attribute_times_bought: [0, 0, 0, 0, 0],
            attribute_pet_bonus: [0, 0, 0, 0, 0],
            class: Class::default(),
            race: Race::default(),
            scrapbook_count: None,
            active_potions: [None, None, None],
            armor: 0,
            min_damage: 0,
            max_damage: 0,
            fortress: None,
            gladiator_lvl: 0,
            is_vip: false,
        }
    }
}

impl Default for OtherGuildMember {
    fn default() -> (r: Self)
        ensures
            r.name@.len() == 0,
            r.level == 0,
    {
        OtherGuildMember {
            name: String::new(),
            instructor_lvl: 0,
            treasure_lvl: 0,
            rank: GuildRank::default(),
            level: 0,
            pet_lvl: 0,
            last_active: None,
        }
    }
}

} // verus!

verus! {

/// The pieces of a hall of fame list: the text without `;` at its ends,
/// split at each `;`.
pub open spec fn hof_texts(s: Seq<char>) -> Seq<Seq<char>> {
    split_text(trim_end_char(trim_start_chars(s, ';', ';'), ';'), ';')
}

/// The pieces of a hall of fame list.
pub fn hof_pieces(val: &str) -> (r: Vec<String>)
    ensures
        string_views(r@) == hof_texts(val@),
{
    let t = trim_start_matches_chars(val, ';', ';');
    let t = trim_end_matches_char(t.as_str(), ';');
    split_by(t.as_str(), ';')
}

/// The pieces that describe a hall of fame player, in order.
pub open spec fn valid_player_texts(ps: Seq<Seq<char>>) -> Seq<Seq<char>>
    decreases ps.len(),
{
    if ps.len() == 0 {
        Seq::empty()
    } else if HallOfFamePlayer::spec_valid(split_text(ps.last(), ',')) {
        valid_player_texts(ps.drop_last()).push(ps.last())
    } else {
        valid_player_texts(ps.drop_last())
    }
}

/// The pieces that describe a hall of fame guild, in order.
pub open spec fn valid_guild_texts(ps: Seq<Seq<char>>) -> Seq<Seq<char>>
    decreases ps.len(),
{
    if ps.len() == 0 {
        Seq::empty()
    } else if HallOfFameGuild::spec_valid(split_text(ps.last(), ',')) {
        valid_guild_texts(ps.drop_last()).push(ps.last())
    } else {
        valid_guild_texts(ps.drop_last())
    }
}

/// Holds where `players` are the players that the pieces of a hall of fame
/// list describe, in order; pieces that describe none are skipped.
pub open spec fn hof_players_read(players: Seq<HallOfFamePlayer>, text: Seq<char>) -> bool {
    let vs = valid_player_texts(hof_texts(text));
    &&& players.len() == vs.len()
    &&& forall|i: int|
        0 <= i < vs.len() ==> HallOfFamePlayer::spec_parsed(split_text(vs[i], ','), #[trigger] players[i])
}

/// Holds where `guilds` are the guilds that the pieces of a hall of fame list
/// describe, in order; pieces that describe none are skipped.
pub open spec fn hof_guilds_read(guilds: Seq<HallOfFameGuild>, text: Seq<char>) -> bool {
    let vs = valid_guild_texts(hof_texts(text));
    &&& guilds.len() == vs.len()
    &&& forall|i: int|
        0 <= i < vs.len() ==> HallOfFameGuild::spec_parsed(split_text(vs[i], ','), #[trigger] guilds[i])
}

/// Reads the players of a hall of fame list, skipping pieces that describe
/// none.
pub fn read_hof_players(val: &str) -> (r: Vec<HallOfFamePlayer>)
    ensures
        hof_players_read(r@, val@),
{
    let pieces = hof_pieces(val);
    let ghost ps = string_views(pieces@);
    let mut out: Vec<HallOfFamePlayer> = Vec::new();
    let mut i: usize = 0;
    while i < pieces.len()
        invariant
            i <= pieces@.len(),
            ps == string_views(pieces@),
            ps == hof_texts(val@),
            out@.len() == valid_player_texts(ps.take(i as int)).len(),
            forall|k: int|
                0 <= k < out@.len() ==> HallOfFamePlayer::spec_parsed(
                    split_text(valid_player_texts(ps.take(i as int))[k], ','),
                    #[trigger] out@[k],
                ),
        decreases pieces@.len() - i,
    {
        assert(ps.take(i + 1).drop_last() =~= ps.take(i as int));
        assert(ps.take(i + 1).last() == pieces@[i as int]@);
        if let Ok(x) = HallOfFamePlayer::parse(pieces[i].as_str()) {
            out.push(x);
        }
        i = i + 1;
    }
    assert(ps.take(pieces@.len() as int) =~= ps);
    out
}

/// Reads the guilds of a hall of fame list, skipping pieces that describe
/// none.
pub fn read_hof_guilds(val: &str) -> (r: Vec<HallOfFameGuild>)
    ensures
        hof_guilds_read(r@, val@),
{
    let pieces = hof_pieces(val);
    let ghost ps = string_views(pieces@);
    let mut out: Vec<HallOfFameGuild> = Vec::new();
    let mut i: usize = 0;
    while i < pieces.len()
        invariant
            i <= pieces@.len(),
            ps == string_views(pieces@),
            ps == hof_texts(val@),
            out@.len() == valid_guild_texts(ps.take(i as int)).len(),
            forall|k: int|
                0 <= k < out@.len() ==> HallOfFameGuild::spec_parsed(
                    split_text(valid_guild_texts(ps.take(i as int))[k], ','),
                    #[trigger] out@[k],
                ),
        decreases pieces@.len() - i,
    {
        assert(ps.take(i + 1).drop_last() =~= ps.take(i as int));
        assert(ps.take(i + 1).last() == pieces@[i as int]@);
        if let Ok(x) = HallOfFameGuild::parse(pieces[i].as_str()) {
            out.push(x);
        }
        i = i + 1;
    }
    assert(ps.take(pieces@.len() as int) =~= ps);
    out
}

} // verus!

verus! {

/// The pieces that describe an entry with an extra value (a pet collection
/// or an underworld) of a hall of fame list, in order.
pub open spec fn valid_extra_texts(ps: Seq<Seq<char>>) -> Seq<Seq<char>>
    decreases ps.len(),
{
    if ps.len() == 0 {
        Seq::empty()
    } else if hof_entry_valid(split_text(ps.last(), ','), true) {
        valid_extra_texts(ps.drop_last()).push(ps.last())
    } else {
        valid_extra_texts(ps.drop_last())
    }
}

/// Holds where `pets` are the pet collections that the pieces of a hall of
/// fame list describe, in order; pieces that describe none are skipped.
pub open spec fn hof_pets_read(pets: Seq<HallOfFamePets>, text: Seq<char>) -> bool {
    let vs = valid_extra_texts(hof_texts(text));
    &&& pets.len() == vs.len()
    &&& forall|i: int|
        0 <= i < vs.len() ==> HallOfFamePets::spec_parsed(split_text(vs[i], ','), #[trigger] pets[i])
}

/// Holds where `uws` are the underworlds that the pieces of a hall of fame
/// list describe, in order; pieces that describe none are skipped.
pub open spec fn hof_underworlds_read(uws: Seq<HallOfFameUnderworld>, text: Seq<char>) -> bool {
    let vs = valid_extra_texts(hof_texts(text));
    &&& uws.len() == vs.len()
    &&& forall|i: int|
        0 <= i < vs.len() ==> HallOfFameUnderworld::spec_parsed(
            split_text(vs[i], ','),
            #[trigger] uws[i],
        )
}

/// Reads the pet collections of a hall of fame list, skipping pieces that
/// describe none.
pub fn read_hof_pets(val: &str) -> (r: Vec<HallOfFamePets>)
    ensures
        hof_pets_read(r@, val@),
{
    let pieces = hof_pieces(val);
    let ghost ps = string_views(pieces@);
    let mut out: Vec<HallOfFamePets> = Vec::new();
    let mut i: usize = 0;
    while i < pieces.len()
        invariant
            i <= pieces@.len(),
            ps == string_views(pieces@),
            ps == hof_texts(val@),
            out@.len() == valid_extra_texts(ps.take(i as int)).len(),
            forall|k: int|
                0 <= k < out@.len() ==> HallOfFamePets::spec_parsed(
                    split_text(valid_extra_texts(ps.take(i as int))[k], ','),
                    #[trigger] out@[k],
                ),
        decreases pieces@.len() - i,
    {
        assert(ps.take(i + 1).drop_last() =~= ps.take(i as int));
        assert(ps.take(i + 1).last() == pieces@[i as int]@);
        if let Ok(x) = HallOfFamePets::parse(pieces[i].as_str()) {
            out.push(x);
        }
        i = i + 1;
    }
    assert(ps.take(pieces@.len() as int) =~= ps);
    out
}

/// Reads the underworlds of a hall of fame list, skipping pieces that
/// describe none.
pub fn read_hof_underworlds(val: &str) -> (r: Vec<HallOfFameUnderworld>)
    ensures
        hof_underworlds_read(r@, val@),
{
    let pieces = hof_pieces(val);
    let ghost ps = string_views(pieces@);
    let mut out: Vec<HallOfFameUnderworld> = Vec::new();
    let mut i: usize = 0;
    while i < pieces.len()
        invariant
            i <= pieces@.len(),
            ps == string_views(pieces@),
            ps == hof_texts(val@),
            out@.len() == valid_extra_texts(ps.take(i as int)).len(),
            forall|k: int|
                0 <= k < out@.len() ==> HallOfFameUnderworld::spec_parsed(
                    split_text(valid_extra_texts(ps.take(i as int))[k], ','),
                    #[trigger] out@[k],
                ),
        decreases pieces@.len() - i,
    {
        assert(ps.take(i + 1).drop_last() =~= ps.take(i as int));
        assert(ps.take(i + 1).last() == pieces@[i as int]@);
        if let Ok(x) = HallOfFameUnderworld::parse(pieces[i].as_str()) {
            out.push(x);
        }
        i = i + 1;
    }
    assert(ps.take(pieces@.len() as int) =~= ps);
    out
}

} // verus!

verus! {

/// The pieces of a message list that describe a message, in order: pieces
/// that are blank or invalid are skipped.
pub open spec fn valid_inbox_texts(ps: Seq<Seq<char>>, st: ServerTime) -> Seq<Seq<char>>
    decreases ps.len(),
{
    if ps.len() == 0 {
        Seq::empty()
    } else if trim_white(ps.last()).len() > 0 && InboxEntry::spec_valid(ps.last(), st) {
        valid_inbox_texts(ps.drop_last(), st).push(ps.last())
    } else {
        valid_inbox_texts(ps.drop_last(), st)
    }
}

/// Holds where `inbox` holds the messages that a message list (separated by
/// `;`) describes, in order.
pub open spec fn inbox_read(inbox: Seq<InboxEntry>, text: Seq<char>, st: ServerTime) -> bool {
    let vs = valid_inbox_texts(split_text(text, ';'), st);
    &&& inbox.len() == vs.len()
    &&& forall|i: int| 0 <= i < vs.len() ==> InboxEntry::spec_parsed(vs[i], st, #[trigger] inbox[i])
}

/// Reads the messages of a message list, skipping pieces that are blank or
/// describe none.
pub fn read_inbox(val: &str, st: ServerTime) -> (r: Vec<InboxEntry>)
    ensures
        inbox_read(r@, val@, st),
{
    let pieces = split_by(val, ';');
    let ghost ps = string_views(pieces@);
    let mut out: Vec<InboxEntry> = Vec::new();
    let mut i: usize = 0;
    while i < pieces.len()
        invariant
            i <= pieces@.len(),
            ps == string_views(pieces@),
            ps == split_text(val@, ';'),
            out@.len() == valid_inbox_texts(ps.take(i as int), st).len(),
            forall|k: int|
                0 <= k < out@.len() ==> InboxEntry::spec_parsed(
                    valid_inbox_texts(ps.take(i as int), st)[k],
                    st,
                    #[trigger] out@[k],
                ),
        decreases pieces@.len() - i,
    {
        assert(ps.take(i + 1).drop_last() =~= ps.take(i as int));
        assert(ps.take(i + 1).last() == pieces@[i as int]@);
        let t = crate::misc::trim_text(pieces[i].as_str());
        if !t.as_str().is_empty() {
            if let Ok(msg) = InboxEntry::parse(pieces[i].as_str(), st) {
                out.push(msg);
            }
        }
        i = i + 1;
    }
    assert(ps.take(pieces@.len() as int) =~= ps);
    out
}

/// Holds where every value is empty.
pub open spec fn all_empty(d: Seq<Seq<char>>) -> bool {
    forall|i: int| 0 <= i < d.len() ==> (#[trigger] d[i]).len() == 0
}

/// The pieces of a combat log that describe a fight, in order: pieces whose
/// values are all empty, or that are invalid, are skipped.
pub open spec fn valid_combat_texts(ps: Seq<Seq<char>>, st: ServerTime) -> Seq<Seq<char>>
    decreases ps.len(),
{
    if ps.len() == 0 {
        Seq::empty()
    } else if !all_empty(split_text(ps.last(), ',')) && CombatLogEntry::spec_valid(
        split_text(ps.last(), ','),
        st,
    ) {
        valid_combat_texts(ps.drop_last(), st).push(ps.last())
    } else {
        valid_combat_texts(ps.drop_last(), st)
    }
}

/// Holds where `log` holds the fights that a combat log (separated by `;`)
/// describes, in order.
pub open spec fn combat_log_read(log: Seq<CombatLogEntry>, text: Seq<char>, st: ServerTime) -> bool {
    let vs = valid_combat_texts(split_text(text, ';'), st);
    &&& log.len() == vs.len()
    &&& forall|i: int|
        0 <= i < vs.len() ==> CombatLogEntry::spec_parsed(split_text(vs[i], ','), st, #[trigger] log[i])
}

/// Reads the fights of a combat log, skipping pieces whose values are all
/// empty or that describe none.
pub fn read_combat_log(val: &str, st: ServerTime) -> (r: Vec<CombatLogEntry>)
    ensures
        combat_log_read(r@, val@, st),
{
    let entries = split_by(val, ';');
    let ghost ps = string_views(entries@);
    let mut out: Vec<CombatLogEntry> = Vec::new();
    let mut i: usize = 0;
    while i < entries.len()
        invariant
            i <= entries@.len(),
            ps == string_views(entries@),
            ps == split_text(val@, ';'),
            out@.len() == valid_combat_texts(ps.take(i as int), st).len(),
            forall|k: int|
                0 <= k < out@.len() ==> CombatLogEntry::spec_parsed(
                    split_text(valid_combat_texts(ps.take(i as int), st)[k], ','),
                    st,
                    #[trigger] out@[k],
                ),
        decreases entries@.len() - i,
    {
        assert(ps.take(i + 1).drop_last() =~= ps.take(i as int));
        assert(ps.take(i + 1).last() == entries@[i as int]@);
        let parts = split_by(entries[i].as_str(), ',');
        let ghost d = string_views(parts@);
        let mut empty = true;
        let mut k: usize = 0;
        while k < parts.len()
            invariant
                k <= parts@.len(),
                d == string_views(parts@),
                empty <==> forall|j: int| 0 <= j < k ==> (#[trigger] d[j]).len() == 0,
            decreases parts@.len() - k,
        {
            assert(d[k as int] == parts@[k as int]@);
            if !parts[k].as_str().is_empty() {
                empty = false;
            }
            k = k + 1;
        }
        assert(empty <==> all_empty(d));
        if !empty {
            if let Ok(cle) = CombatLogEntry::parse(&parts, st) {
                out.push(cle);
            }
        }
        i = i + 1;
    }
    assert(ps.take(entries@.len() as int) =~= ps);
    out
}

} // verus!

verus! {

/// The pieces that describe a fortress of a hall of fame list, in order.
pub open spec fn valid_fortress_texts(ps: Seq<Seq<char>>) -> Seq<Seq<char>>
    decreases ps.len(),
{
    if ps.len() == 0 {
        Seq::empty()
    } else if hof_entry_valid(split_text(ps.last(), ','), false) {
        valid_fortress_texts(ps.drop_last()).push(ps.last())
    } else {
        valid_fortress_texts(ps.drop_last())
    }
}

/// Holds where `fs` are the fortresses that the pieces of a hall of fame
/// list describe, in order; pieces that describe none are skipped.
pub open spec fn hof_fortresses_read(fs: Seq<HallOfFameFortress>, text: Seq<char>) -> bool {
    let vs = valid_fortress_texts(hof_texts(text));
    &&& fs.len() == vs.len()
    &&& forall|i: int|
        0 <= i < vs.len() ==> HallOfFameFortress::spec_parsed(split_text(vs[i], ','), #[trigger] fs[i])
}

/// Reads the fortresses of a hall of fame list, skipping pieces that
/// describe none.
pub fn read_hof_fortresses(val: &str) -> (r: Vec<HallOfFameFortress>)
    ensures
        hof_fortresses_read(r@, val@),
{
    let pieces = hof_pieces(val);
    let ghost ps = string_views(pieces@);
    let mut out: Vec<HallOfFameFortress> = Vec::new();
    let mut i: usize = 0;
    while i < pieces.len()
        invariant
            i <= pieces@.len(),
            ps == string_views(pieces@),
            ps == hof_texts(val@),
            out@.len() == valid_fortress_texts(ps.take(i as int)).len(),
            forall|k: int|
                0 <= k < out@.len() ==> HallOfFameFortress::spec_parsed(
                    split_text(valid_fortress_texts(ps.take(i as int))[k], ','),
                    #[trigger] out@[k],
                ),
        decreases pieces@.len() - i,
    {
        assert(ps.take(i + 1).drop_last() =~= ps.take(i as int));
        assert(ps.take(i + 1).last() == pieces@[i as int]@);
        if let Ok(x) = HallOfFameFortress::parse(pieces[i].as_str()) {
            out.push(x);
        }
        i = i + 1;
    }
    assert(ps.take(pieces@.len() as int) =~= ps);
    out
}

} // verus!

verus! {

/// A player of the Hall of Fame is read from its comma separated values in
/// their order: the rank is the first value, the name the second, the level
/// the fourth and the honor the fifth.
pub proof fn lemma_hof_player_values(val: Seq<char>, p: HallOfFamePlayer)
    requires
        HallOfFamePlayer::spec_parsed(split_text(val, ','), p),
    ensures
        p.rank == decimal_u32(split_text(val, ',')[0])->0,
        p.name@ == split_text(val, ',')[1],
        p.level == decimal_u32(split_text(val, ',')[3])->0,
        p.honor == decimal_u32(split_text(val, ',')[4])->0,
{
}

/// A guild of the Hall of Fame is read from its comma separated values in
/// their order: the rank, the name, the leader, the member count and the
/// honor are the first five values.
pub proof fn lemma_hof_guild_values(val: Seq<char>, g: HallOfFameGuild)
    requires
        HallOfFameGuild::spec_parsed(split_text(val, ','), g),
    ensures
        g.rank == decimal_u32(split_text(val, ',')[0])->0,
        g.name@ == split_text(val, ',')[1],
        g.leader@ == split_text(val, ',')[2],
        g.member_count == decimal_u32(split_text(val, ',')[3])->0,
        g.honor == decimal_u32(split_text(val, ',')[4])->0,
{
}

/// A pet collection of the Hall of Fame is read from its comma separated
/// values in their order: the rank is the first value, the name the second,
/// the pets collected the fourth and the honor the fifth.
pub proof fn lemma_hof_pets_values(val: Seq<char>, p: HallOfFamePets)
    requires
        HallOfFamePets::spec_parsed(split_text(val, ','), p),
    ensures
        p.rank == decimal_u32(split_text(val, ',')[0])->0,
        p.name@ == split_text(val, ',')[1],
        p.collected == decimal_u32(split_text(val, ',')[3])->0,
        p.honor == decimal_u32(split_text(val, ',')[4])->0,
{
}

/// A fortress of the Hall of Fame is read from its comma separated values
/// in their order: the rank is the first value, the name the second, the
/// upgrades the fourth and the honor the fifth.
pub proof fn lemma_hof_fortress_values(val: Seq<char>, f: HallOfFameFortress)
    requires
        HallOfFameFortress::spec_parsed(split_text(val, ','), f),
    ensures
        f.rank == decimal_u32(split_text(val, ',')[0])->0,
        f.name@ == split_text(val, ',')[1],
        f.upgrade == decimal_u32(split_text(val, ',')[3])->0,
        f.honor == decimal_u32(split_text(val, ',')[4])->0,
{
}

/// An underworld of the Hall of Fame is read from its comma separated values
/// in their order: the rank is the first value, the name the second, the
/// upgrades the fourth and the honor the fifth.
pub proof fn lemma_hof_underworld_values(val: Seq<char>, u: HallOfFameUnderworld)
    requires
        HallOfFameUnderworld::spec_parsed(split_text(val, ','), u),
    ensures
        u.rank == decimal_u32(split_text(val, ',')[0])->0,
        u.name@ == split_text(val, ',')[1],
        u.upgrade == decimal_u32(split_text(val, ',')[3])->0,
        u.honor == decimal_u32(split_text(val, ',')[4])->0,
{
}

} // verus!

verus! {

/// Another player is read from fixed positions of their values: the level
/// at 3 (low 16 bits), the experience at 4, the experience for the next
/// level at 5, the honor at 6, the rank at 7, the armor at 23, the damage
/// range at 24 and 25, and the base attributes, their additions and the
/// times bought at 30, 35 and 40 on.
pub proof fn lemma_other_player_values(
    before: OtherPlayer,
    after: OtherPlayer,
    d: Seq<i64>,
    st: ServerTime,
)
    requires
        d.len() >= 70,
        OtherPlayer::spec_updated(before, after, d, st),
    ensures
        after.player_id == soft_u32(d[1], 0),
        after.level == soft_u16(d[3] & 0xFFFF, 0),
        after.experience == soft_u64(d[4], 0),
        after.next_level_xp == soft_u64(d[5], 0),
        after.honor == soft_u32(d[6], 0),
        after.rank == soft_u32(d[7], 0),
        after.armor == soft_u64(d[23], 0),
        after.min_damage == soft_u32(d[24], 0),
        after.max_damage == soft_u32(d[25], 0),
        forall|i: int|
            0 <= i < 5 ==> #[trigger] after.attribute_basis@[i] == soft_u32(d[30 + i], 0)
                && after.attribute_additions@[i] == soft_u32(d[35 + i], 0)
                && after.attribute_times_bought@[i] == soft_u32(d[40 + i], 0),
{
    assert forall|i: int| 0 <= i < 5 implies #[trigger] after.attribute_basis@[i] == soft_u32(
        d[30 + i],
        0,
    ) && after.attribute_additions@[i] == soft_u32(d[35 + i], 0)
        && after.attribute_times_bought@[i] == soft_u32(d[40 + i], 0) by {
        assert(d.skip(30)[i] == d[30 + i]);
        assert(d.skip(35)[i] == d[35 + i]);
        assert(d.skip(40)[i] == d[40 + i]);
    }
}

} // verus!
