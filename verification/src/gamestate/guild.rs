use vstd::prelude::*;

use crate::command::AttributeMap;
use crate::error::SFError;
use crate::gamestate::{NormalCost, ServerTime, group_prices_short};
use crate::gamestate::items::{ItemType, Potion, PotionSize, PotionType};
use crate::gamestate::unlockables::spec_map_update;
use crate::misc::{
    csiget_u16, csiget_u64, decimal_u32, first_index, from_sf_string, i64_or_zero, parse_i64,
    parse_i64_or_zero, parse_u32, parse_u32_or_zero, skip, soft_u8, soft_u16, soft_u32, soft_u64,
    soft_into_u8, soft_into_u16, soft_into_u32, soft_into_u64, split_by, split_once_char,
    split_once_text, split_text, string_views, too_short, trem, trim_end_char,
    trim_end_matches_char, trim_start_chars, trim_start_matches_chars, trim_text, trim_white,
    u32_or_zero, update_enum_map, decimal_i64, cget, sf_text,
};

verus! {

/// The seconds since midnight of the time of day that `chrono` reads from a
/// text in the format `%H:%M`, if it reads one.
pub uninterp spec fn chrono_hour_minute(s: Seq<char>) -> Option<u32>;

/// Reads a time of day in the format `%H:%M` with
/// `chrono::NaiveTime::parse_from_str` and gives its seconds since midnight
/// (`Timelike::num_seconds_from_midnight`). The contract names the result and
/// states what the documentation of `parse_from_str` promises: seconds that
/// are not given are 0, and times out of bounds are errors.
#[verifier::external_body]
fn parse_hour_minute(s: &str) -> (r: Option<u32>)
    ensures
        r == chrono_hour_minute(s@),
        r matches Some(v) ==> v < 86400 && v % 60 == 0,
{
    match chrono::NaiveTime::parse_from_str(s, "%H:%M") {
        Ok(t) => Some(chrono::Timelike::num_seconds_from_midnight(&t)),
        Err(_) => None,
    }
}

/// The customizable emblem each guild has.
#[derive(Debug, Clone)]
pub struct Emblem {
    /// The emblem in its server encoded form
    pub raw: String,
}

impl Emblem {
    /// Returns the guild emblem in it's server encoded form.
    pub fn server_encode(&self) -> (r: String)
        ensures
            r@ == self.raw@,
    {
        self.raw.clone()
    }

    /// Replaces the emblem with its server encoded form.
    pub fn update(&mut self, val: &str)
        ensures
            final(self).raw@ == val@,
    {
        self.raw = val.to_string();
    }
}

impl Default for Emblem {
    fn default() -> (r: Self)
        ensures
            r.raw@.len() == 0,
    {
        Emblem { raw: String::new() }
    }
}

/// A message, that the player has received, or has send to others via the
/// chat.
#[derive(Debug, Clone)]
pub struct ChatMessage {
    /// The user this message originated from. Note that this might not be
    /// in the guild member list in some cases
    pub user: String,
    /// The time of day at which this message has been sent, in seconds since
    /// midnight
    pub time: u32,
    /// The actual message, that got send
    pub message: String,
}

/// The message that one piece of the chat describes: `time name:message`.
/// The text of the message has its leading `§` and spaces removed and is
/// decoded from the server's encoding.
pub open spec fn spec_message(p: Seq<char>) -> Option<(Seq<char>, u32, Seq<char>)> {
    match split_once_text(p, ' ') {
        Some((time, rest)) => match split_once_text(rest, ':') {
            Some((name, msg)) => match chrono_hour_minute(time) {
                Some(t) => Some((name, t, sf_text(trim_start_chars(msg, '§', ' ')))),
                None => None,
            },
            None => None,
        },
        None => None,
    }
}

/// The messages that the pieces of a chat describe, in order; pieces that
/// describe none are skipped.
pub open spec fn spec_messages(ps: Seq<Seq<char>>) -> Seq<(Seq<char>, u32, Seq<char>)>
    decreases ps.len(),
{
    if ps.len() == 0 {
        Seq::empty()
    } else {
        let before = spec_messages(ps.drop_last());
        match spec_message(ps.last()) {
            Some(m) => before.push(m),
            None => before,
        }
    }
}

/// The views of chat messages.
pub open spec fn message_views(v: Seq<ChatMessage>) -> Seq<(Seq<char>, u32, Seq<char>)> {
    v.map_values(|m: ChatMessage| (m.user@, m.time, m.message@))
}

impl ChatMessage {
    /// Parses one piece of a chat.
    fn parse_one(p: &str) -> (r: Option<ChatMessage>)
        ensures
            match spec_message(p@) {
                Some(m) => r matches Some(c) && (c.user@, c.time, c.message@) == m,
                None => r is None,
            },
    {
        let (time, rest) = match split_once_char(p, ' ') {
            Some(x) => x,
            None => return None,
        };
        let (name, msg) = match split_once_char(rest.as_str(), ':') {
            Some(x) => x,
            None => return None,
        };
        let trimmed = trim_start_matches_chars(msg.as_str(), '§', ' ');
        let message = from_sf_string(trimmed.as_str());
        let time = match parse_hour_minute(time.as_str()) {
            Some(t) => t,
            None => return None,
        };
        Some(ChatMessage { user: name, time, message })
    }

    /// Parses the messages of a chat, which are separated by `/`. Pieces
    /// that are no message are skipped.
    pub fn parse_messages(data: &str) -> (r: Vec<ChatMessage>)
        ensures
            message_views(r@) == spec_messages(split_text(data@, '/')),
    {
        let pieces = split_by(data, '/');
        let ghost ps = string_views(pieces@);
        let mut r: Vec<ChatMessage> = Vec::new();
        let mut i: usize = 0;
        while i < pieces.len()
            invariant
                i <= pieces@.len(),
                ps == string_views(pieces@),
                message_views(r@) == spec_messages(ps.take(i as int)),
            decreases pieces@.len() - i,
        {
            assert(ps.take(i + 1).drop_last() =~= ps.take(i as int));
            assert(ps[i as int] == pieces@[i as int]@);
            match Self::parse_one(pieces[i].as_str()) {
                Some(m) => {
                    r.push(m);
                    assert(message_views(r@) =~= spec_messages(ps.take(i + 1)));
                },
                None => {},
            }
            i = i + 1;
        }
        assert(ps.take(ps.len() as int) =~= ps);
        r
    }
}

/// The hydra, that the guild pet can fight.
#[derive(Debug, Clone, Copy)]
pub struct GuildHydra {
    /// The last time the hydra has been fought
    pub last_battle: Option<i64>,
    /// The last time the hydra has been seen with full health
    pub last_full: Option<i64>,
    /// This seems to be `last_battle + 30 min`
    pub next_battle: Option<i64>,
    /// The amount of times the player can still fight the hydra
    pub remaining_fights: u16,
    /// The current life of the guilds hydra
    pub current_life: u64,
    /// The maximum life the hydra can have
    pub max_life: u64,
    /// The attributes the hydra has
    pub attributes: AttributeMap,
}

impl Default for GuildHydra {
    fn default() -> (r: Self)
        ensures
            r.last_battle is None && r.last_full is None && r.next_battle is None,
            r.remaining_fights == 0 && r.current_life == 0 && r.max_life == 0,
            r.attributes == [0u32, 0, 0, 0, 0],
    {
        GuildHydra {
            last_battle: None,
            last_full: None,
            next_battle: None,
            remaining_fights: 0,
            current_life: 0,
            max_life: 0,
            attributes: [0, 0, 0, 0, 0],
        }
    }
}

/// The portal a guild has.
#[derive(Debug, Clone, Copy, PartialEq, Eq, Structural)]
pub struct GuildPortal {
    /// The damage bonus in percent the guild portal gives to its members
    pub damage_bonus: u8,
    /// The amount of times the portal enemy has already been defeated
    pub defeated_count: u8,
    /// The percentage of life the portal enemy still has
    pub life_percentage: u8,
}

impl Default for GuildPortal {
    fn default() -> (r: Self)
        ensures
            r == (GuildPortal { damage_bonus: 0, defeated_count: 0, life_percentage: 0 }),
    {
        GuildPortal { damage_bonus: 0, defeated_count: 0, life_percentage: 0 }
    }
}

/// A guild battle, that is scheduled to take place at a certain place and
/// time.
#[derive(Debug, Clone, Copy, PartialEq, Eq, Structural)]
pub struct PlanedBattle {
    /// The guild this battle will be against
    pub other: u32,
    /// The date & time this battle will be at
    pub date: i64,
}

impl PlanedBattle {
    /// Holds of a battle against the raid: its opponent is 1,000,000.
    pub open spec fn spec_is_raid(self) -> bool {
        self.other == 1_000_000
    }

    /// Checks if the battle is a raid.
    pub fn is_raid(&self) -> (r: bool)
        ensures
            r == self.spec_is_raid(),
    {
        self.other == 1_000_000
    }

    /// The battle that (at least) 2 values describe: the opponent (above 1)
    /// and the time.
    pub open spec fn spec_parse(d: Seq<i64>, st: ServerTime) -> Option<PlanedBattle> {
        if 1 < d[0] <= u32::MAX && st.spec_convert(d[1]) is Some {
            Some(PlanedBattle { other: d[0] as u32, date: st.spec_convert(d[1])->0 })
        } else {
            None
        }
    }

    /// Parses the battle that (at least) 2 values describe.
    pub fn parse(data: &[i64], server_time: ServerTime) -> (r: Result<Option<Self>, SFError>)
        ensures
            data@.len() >= 2 <==> r is Ok,
            r is Ok ==> r == Ok::<Option<PlanedBattle>, SFError>(Self::spec_parse(data@, server_time)),
    {
        let other = cget(data, 0, "gbattle other")?;
        let date = cget(data, 1, "gbattle time")?;
        let date = server_time.convert_to_local(date, "next guild fight");
        if 1 < other && other <= 4294967295 {
            match date {
                Some(date) => Ok(Some(PlanedBattle { other: other as u32, date })),
                None => Ok(None),
            }
        } else {
            Ok(None)
        }
    }
}

/// Which battles a member will participate in.
#[derive(Debug, Clone, Copy, PartialEq, Eq, Structural)]
pub enum BattlesJoined {
    /// The player has only joined the defense of the guild
    Defense,
    /// The player has only joined the offensive attack against another guild
    Attack,
    /// The player has joined both the offense and defensive battles
    Both,
}

impl BattlesJoined {
    /// The battles with the number the server uses for them.
    pub open spec fn spec_from_i64(v: i64) -> Option<BattlesJoined> {
        if v == 1 {
            Some(BattlesJoined::Defense)
        } else if v == 10 {
            Some(BattlesJoined::Attack)
        } else if v == 11 {
            Some(BattlesJoined::Both)
        } else {
            None
        }
    }

    /// The battles with the number the server uses for them.
    pub fn from_i64(v: i64) -> (r: Option<BattlesJoined>)
        ensures
            r == Self::spec_from_i64(v),
    {
        if v == 1 {
            Some(BattlesJoined::Defense)
        } else if v == 10 {
            Some(BattlesJoined::Attack)
        } else if v == 11 {
            Some(BattlesJoined::Both)
        } else {
            None
        }
    }
}

/// The rank a member can have in a guild.
#[derive(Debug, Clone, Copy, PartialEq, Eq, Structural)]
pub enum GuildRank {
    Leader,
    Officer,
    Member,
    Invited,
}

impl Default for GuildRank {
    fn default() -> (r: Self)
        ensures
            r == GuildRank::Member,
    {
        GuildRank::Member
    }
}

impl GuildRank {
    /// The rank with the number the server uses for it; unknown numbers are
    /// `Invited`.
    pub open spec fn spec_parse(v: i64) -> GuildRank {
        if v == 1 {
            GuildRank::Leader
        } else if v == 2 {
            GuildRank::Officer
        } else if v == 3 {
            GuildRank::Member
        } else {
            GuildRank::Invited
        }
    }

    /// The rank with the number the server uses for it; unknown numbers are
    /// `Invited`.
    pub fn parse(v: i64) -> (r: GuildRank)
        ensures
            r == Self::spec_parse(v),
    {
        if v == 1 {
            GuildRank::Leader
        } else if v == 2 {
            GuildRank::Officer
        } else if v == 3 {
            GuildRank::Member
        } else {
            GuildRank::Invited
        }
    }
}

/// Something the player can upgrade in the guild.
#[derive(Debug, Clone, Copy, PartialEq, Eq, Structural)]
pub enum GuildSkill {
    Treasure,
    Instructor,
    Pet,
}

/// A member of a guild.
#[derive(Debug, Clone)]
pub struct GuildMemberData {
    /// The name of the member
    pub name: String,
    /// Which battles this member will participate in
    pub battles_joined: Option<BattlesJoined>,
    /// The level of this member
    pub level: u16,
    /// The last time this player was online
    pub last_online: Option<i64>,
    /// The level, that this member has upgraded their treasure to
    pub treasure_skill: u16,
    /// The level, that this member has upgraded their instructor to
    pub instructor_skill: u16,
    /// The level of this members guild pet
    pub guild_pet_lvl: u16,
    /// The rank this member has in the guild
    pub guild_rank: GuildRank,
    /// The last time this member has fought the portal
    pub portal_fought: Option<i64>,
    /// The potions this player has active. This will always be potion, no
    /// other item type
    pub potions: [Option<ItemType>; 3],
    /// The level of this members hall of knights
    pub knights: u8,
}

impl GuildMemberData {
    /// Holds of a member with no values yet.
    pub open spec fn is_blank(self) -> bool {
        &&& self.name@.len() == 0
        &&& self.blank_but_name()
    }

    /// Holds of a member with no values yet, but maybe a name.
    pub open spec fn blank_but_name(self) -> bool {
        &&& self.battles_joined is None
        &&& self.level == 0 && self.treasure_skill == 0 && self.instructor_skill == 0
        &&& self.guild_pet_lvl == 0
        &&& self.last_online is None && self.portal_fought is None
        &&& self.guild_rank == GuildRank::Member
        &&& self.potions == [None::<ItemType>, None, None]
        &&& self.knights == 0
    }

    /// A copy of this member.
    pub fn copy(&self) -> (r: GuildMemberData)
        ensures
            r == *self,
    {
        GuildMemberData {
            name: self.name.clone(),
            battles_joined: self.battles_joined,
            level: self.level,
            last_online: self.last_online,
            treasure_skill: self.treasure_skill,
            instructor_skill: self.instructor_skill,
            guild_pet_lvl: self.guild_pet_lvl,
            guild_rank: self.guild_rank,
            portal_fought: self.portal_fought,
            potions: self.potions,
            knights: self.knights,
        }
    }
}

impl Default for GuildMemberData {
    fn default() -> (r: Self)
        ensures
            r.is_blank(),
    {
        GuildMemberData {
            name: String::new(),
            battles_joined: None,
            level: 0,
            last_online: None,
            treasure_skill: 0,
            instructor_skill: 0,
            guild_pet_lvl: 0,
            guild_rank: GuildRank::Member,
            portal_fought: None,
            potions: [None, None, None],
            knights: 0,
        }
    }
}

/// Another guild which can be fought.
#[derive(Debug, Clone)]
pub struct FightableGuild {
    /// Id of the guild
    pub id: u32,
    /// Name of the guild
    pub name: String,
    /// Emblem of the guild
    pub emblem: Emblem,
    /// Number of members the guild currently has
    pub number_of_members: u8,
    /// The lowest level a member of the guild has
    pub members_min_level: u32,
    /// The highest level a member of the guild has
    pub members_max_level: u32,
    /// The average level of the guild members
    pub members_average_level: u32,
    /// The rank of the guild in the hall of fame
    pub rank: u32,
    /// The amount of honor the guild currently has
    pub honor: u32,
}

/// The `u8` that a text writes, or 0.
pub open spec fn u8_or_zero(s: Seq<char>) -> u8 {
    match decimal_u32(s) {
        Some(v) => if v <= 255 { v as u8 } else { 0 },
        None => 0,
    }
}

fn parse_u8_or_zero(s: &str) -> (r: u8)
    ensures
        r == u8_or_zero(s@),
{
    match parse_u32(s) {
        Some(v) => if v <= 255 {
            v as u8
        } else {
            0
        },
        None => 0,
    }
}

/// Holds where `g` is the guild that the 9 values `e` describe.
pub open spec fn spec_fightable(e: Seq<Seq<char>>, g: FightableGuild) -> bool {
    &&& g.id == u32_or_zero(e[0])
    &&& g.name@ == sf_text(e[1])
    &&& g.emblem.raw@ == e[2]
    &&& g.number_of_members == u8_or_zero(e[3])
    &&& g.members_min_level == u32_or_zero(e[4])
    &&& g.members_max_level == u32_or_zero(e[5])
    &&& g.members_average_level == u32_or_zero(e[6])
    &&& g.rank == u32_or_zero(e[7])
    &&& g.honor == u32_or_zero(e[8])
}

/// The values of the group save: the numbers between the `/`, without
/// white space around them; what is no number is 0.
pub open spec fn spec_group_values(val: Seq<char>) -> Seq<i64> {
    split_text(val, '/').map_values(|p: Seq<char>| i64_or_zero(trim_white(p)))
}

/// The numbers of a comma separated list, after its trailing commas are
/// removed; pieces that are no number are skipped.
pub open spec fn spec_number_list(ps: Seq<Seq<char>>) -> Seq<i64>
    decreases ps.len(),
{
    if ps.len() == 0 {
        Seq::empty()
    } else {
        let before = spec_number_list(ps.drop_last());
        match decimal_i64(ps.last()) {
            Some(v) => before.push(v),
            None => before,
        }
    }
}

/// The potion that a value describes.
pub open spec fn spec_quick_potion(v: i64) -> Option<ItemType> {
    match (PotionType::spec_parse(v), PotionSize::spec_parse(v)) {
        (Some(typ), Some(size)) => Some(ItemType::Potion(Potion { typ, size, expires: None })),
        _ => None,
    }
}

fn quick_potion(v: i64) -> (r: Option<ItemType>)
    ensures
        r == spec_quick_potion(v),
{
    match (PotionType::parse(v), PotionSize::parse(v)) {
        (Some(typ), Some(size)) => Some(ItemType::Potion(Potion { typ, size, expires: None })),
        _ => None,
    }
}

/// Information about the characters current guild.
#[derive(Debug, Clone)]
pub struct Guild {
    /// The internal server id of this guild
    pub id: u32,
    /// The name of the guild
    pub name: String,
    /// The description text of the guild
    pub description: String,
    /// This is guilds emblem
    pub emblem: Emblem,
    /// The honor this guild has earned
    pub honor: u32,
    /// The rank in the Hall of Fame this guild has
    pub rank: u32,
    /// The date at which the character joined this guild
    pub joined: i64,
    /// The skill you yourself contribute to the guild
    pub own_treasure_skill: u16,
    /// The price to pay to upgrade your treasure by one rank
    pub own_treasure_upgrade: NormalCost,
    /// The skill you yourself contribute to the guild
    pub own_instructor_skill: u16,
    /// The price to pay to upgrade your instructor by one rank
    pub own_instructor_upgrade: NormalCost,
    /// How many raids this guild has completed already
    pub finished_raids: u16,
    /// If the guild is defending against another guild, this will contain
    /// information about the upcoming battle
    pub defending: Option<PlanedBattle>,
    /// If the guild is attacking another guild, this will contain
    /// information about the upcoming battle
    pub attacking: Option<PlanedBattle>,
    /// The id of the pet, that is currently selected as the guild pet
    pub pet_id: u32,
    /// The maximum level, that the pet can be at
    pub pet_max_lvl: u16,
    /// All information about the hydra the guild pet can fight
    pub hydra: GuildHydra,
    /// The thing each player can enter and fight once a day
    pub portal: GuildPortal,
    /// The member count that the server gave
    pub member_count: u8,
    /// Information about the members of the guild. This includes the player
    pub members: Vec<GuildMemberData>,
    /// The chat messages, that get send in the guild chat
    pub chat: Vec<ChatMessage>,
    /// The whisper messages, that a player can receive
    pub whispers: Vec<ChatMessage>,
    /// A list of guilds which can be fought, must first be fetched by
    /// sending `Command::GuildGetFightableTargets`
    pub fightable_guilds: Vec<FightableGuild>,
}

impl Default for Guild {
    fn default() -> (r: Self)
        ensures
            r.id == 0 && r.honor == 0 && r.rank == 0,
            r.name@.len() == 0 && r.description@.len() == 0,
            r.members@.len() == 0,
            r.chat@.len() == 0 && r.whispers@.len() == 0,
            r.fightable_guilds@.len() == 0,
    {
        Guild {
            id: 0,
            name: String::new(),
            description: String::new(),
            emblem: Emblem::default(),
            honor: 0,
            rank: 0,
            joined: 0,
            own_treasure_skill: 0,
            own_treasure_upgrade: NormalCost { silver: 0, mushrooms: 0 },
            own_instructor_skill: 0,
            own_instructor_upgrade: NormalCost { silver: 0, mushrooms: 0 },
            finished_raids: 0,
            defending: None,
            attacking: None,
            pet_id: 0,
            pet_max_lvl: 0,
            hydra: GuildHydra::default(),
            portal: GuildPortal::default(),
            member_count: 0,
            members: Vec::new(),
            chat: Vec::new(),
            whispers: Vec::new(),
            fightable_guilds: Vec::new(),
        }
    }
}

/// The member `o` after an update from the group values `d`, starting from
/// `m`.
pub open spec fn spec_member(m: GuildMemberData, d: Seq<i64>, st: ServerTime, o: int) -> GuildMemberData {
    GuildMemberData {
        battles_joined: BattlesJoined::spec_from_i64(trem(d[445 + o] as int, 100) as i64),
        level: soft_u16(d[64 + o], 0),
        last_online: st.spec_convert(d[114 + o]),
        treasure_skill: soft_u16(d[214 + o], 0),
        instructor_skill: soft_u16(d[264 + o], 0),
        guild_rank: GuildRank::spec_parse(d[314 + o]),
        portal_fought: st.spec_convert(d[164 + o]),
        guild_pet_lvl: soft_u16(d[390 + o], 0),
        ..m
    }
}

impl Guild {
    /// Holds where `after` is the guild `before` updated from the group
    /// values `d`.
    pub open spec fn group_updated(before: Guild, after: Guild, d: Seq<i64>, st: ServerTime) -> bool {
                let n = soft_u8(d[3], 0) as int;
                &&& after.member_count == n
                &&& after.members@.len() == n
                &&& forall|o: int|
                    0 <= o < n ==> #[trigger] after.members@[o] == spec_member(
                        if o < before.members@.len() {
                            before.members@[o]
                        } else {
                            after.members@[o]
                        },
                        d,
                        st,
                        o,
                    )
                &&& forall|o: int|
                    0 <= o < n && o >= before.members@.len() ==> ({
                        let m = #[trigger] after.members@[o];
                        m.name@.len() == 0 && m.potions == [None::<ItemType>, None, None] && m.knights
                            == 0
                    })
                &&& after.honor == soft_u32(d[13], 0)
                &&& after.id == soft_u32(d[0], 0)
                &&& after.finished_raids == soft_u16(d[8], 0)
                &&& after.attacking == PlanedBattle::spec_parse(d.skip(364), st)
                &&& after.defending == PlanedBattle::spec_parse(d.skip(366), st)
                &&& after.pet_id == soft_u32(d[377], 0)
                &&& after.pet_max_lvl == soft_u16(d[378], 0)
                &&& after.hydra.last_battle == st.spec_convert(d[382])
                &&& after.hydra.last_full == st.spec_convert(d[381])
                &&& after.hydra.current_life == soft_u64(d[383], u64::MAX)
                &&& after.hydra.max_life == soft_u64(d[384], u64::MAX)
                &&& after.hydra.attributes == spec_map_update(
                    before.hydra.attributes,
                    d.skip(385),
                )
                &&& after.portal.life_percentage == soft_u8(d[6] >> 16, 100)
                &&& after.portal.defeated_count == soft_u8(d[7] >> 16, 0)
                &&& after.portal.damage_bonus == before.portal.damage_bonus
            }

    /// Holds where the group values can be read.
    pub open spec fn spec_group_valid(d: Seq<i64>) -> bool {
        d.len() >= 385 && (soft_u8(d[3], 0) > 0 ==> d.len() >= 445 + soft_u8(d[3], 0))
    }

    /// Updates the guild from the numbers of its group save.
    pub fn update_group_values(&mut self, data: &[i64], server_time: ServerTime) -> (r: Result<
        (),
        SFError,
    >)
        ensures
            Self::spec_group_valid(data@) <==> r is Ok,
            r is Ok ==> Self::group_updated(*old(self), *final(self), data@, server_time),
    {
        if data.len() < 385 {
            return Err(too_short(data, 384, "ghydra max clife"));
        }
        let member_count = soft_into_u8(data[3], "member count", 0);
        let n = member_count as usize;
        if n > 0 && data.len() < 445 + n {
            return Err(too_short(data, 444 + n, "member fights joined"));
        }
        let mut members: Vec<GuildMemberData> = Vec::new();
        let mut o: usize = 0;
        while o < n
            invariant
                o <= n,
                n == soft_u8(data@[3], 0),
                data@.len() >= 385,
                n > 0 ==> data@.len() >= 445 + n,
                members@.len() == o,
                forall|k: int|
                    0 <= k < o ==> #[trigger] members@[k] == spec_member(
                        if k < self.members@.len() {
                            self.members@[k]
                        } else {
                            members@[k]
                        },
                        data@,
                        server_time,
                        k,
                    ),
                forall|k: int|
                    0 <= k < o && k >= self.members@.len() ==> ({
                        let m = #[trigger] members@[k];
                        m.name@.len() == 0 && m.potions == [None::<ItemType>, None, None] && m.knights
                            == 0
                    }),
            decreases n - o,
        {
            let base = if o < self.members.len() {
                self.members[o].copy()
            } else {
                GuildMemberData::default()
            };
            let battles = BattlesJoined::from_i64(data[445 + o] % 100);
            let m = GuildMemberData {
                name: base.name,
                battles_joined: battles,
                level: soft_into_u16(data[64 + o], "member level", 0),
                last_online: server_time.convert_to_local(data[114 + o], "member last online"),
                treasure_skill: soft_into_u16(data[214 + o], "member treasure skill", 0),
                instructor_skill: soft_into_u16(data[264 + o], "member master skill", 0),
                guild_pet_lvl: soft_into_u16(data[390 + o], "member pet skill", 0),
                guild_rank: GuildRank::parse(data[314 + o]),
                portal_fought: server_time.convert_to_local(data[164 + o], "member portal fought"),
                potions: base.potions,
                knights: base.knights,
            };
            members.push(m);
            o = o + 1;
        }
        self.member_count = member_count;
        self.members = members;
        self.honor = soft_into_u32(data[13], "guild honor", 0);
        self.id = soft_into_u32(data[0], "guild id", 0);
        self.finished_raids = soft_into_u16(data[8], "finished raids", 0);
        self.attacking = PlanedBattle::parse(skip(data, 364, "attacking guild")?, server_time)?;
        self.defending = PlanedBattle::parse(skip(data, 366, "attacking guild")?, server_time)?;
        self.pet_id = soft_into_u32(data[377], "gpet id", 0);
        self.pet_max_lvl = soft_into_u16(data[378], "gpet max lvl", 0);
        self.hydra.last_battle = server_time.convert_to_local(data[382], "hydra pet lb");
        self.hydra.last_full = server_time.convert_to_local(data[381], "hydra last defeat");
        self.hydra.current_life = soft_into_u64(data[383], "ghydra clife", 18446744073709551615);
        self.hydra.max_life = soft_into_u64(data[384], "ghydra max clife", 18446744073709551615);
        let ghost before = self.hydra.attributes;
        let rest = skip(data, 385, "hydra attributes")?;
        update_enum_map(&mut self.hydra.attributes, rest);
        assert(self.hydra.attributes@ =~= spec_map_update(before, rest@)@);
        assert(self.hydra.attributes == spec_map_update(before, rest@));
        self.portal.life_percentage = soft_into_u8(data[6] >> 16, "guild portal life p", 100);
        self.portal.defeated_count = soft_into_u8(data[7] >> 16, "guild portal progress", 0);
        Ok(())
    }

    /// Reads the numbers of a group save.
    pub fn group_values(val: &str) -> (r: Vec<i64>)
        ensures
            r@ == spec_group_values(val@),
    {
        let pieces = split_by(val, '/');
        let ghost ps = string_views(pieces@);
        let mut r: Vec<i64> = Vec::new();
        let mut i: usize = 0;
        while i < pieces.len()
            invariant
                i <= pieces@.len(),
                ps == string_views(pieces@),
                ps == split_text(val@, '/'),
                r@ == spec_group_values(val@).take(i as int),
            decreases pieces@.len() - i,
        {
            assert(ps[i as int] == pieces@[i as int]@);
            let t = trim_text(pieces[i].as_str());
            r.push(parse_i64_or_zero(t.as_str()));
            i = i + 1;
            assert(r@ =~= spec_group_values(val@).take(i as int));
        }
        assert(r@ =~= spec_group_values(val@));
        r
    }

    /// Updates the guild from its group save, whose numbers are separated by
    /// `/`.
    pub fn update_group_save(&mut self, val: &str, server_time: ServerTime) -> (r: Result<
        (),
        SFError,
    >)
        ensures
            Self::spec_group_valid(spec_group_values(val@)) <==> r is Ok,
            r is Ok ==> Self::group_updated(
                *old(self),
                *final(self),
                spec_group_values(val@),
                server_time,
            ),
    {
        let data = Self::group_values(val);
        self.update_group_values(&data, server_time)
    }

    /// Holds where `after` is `before` with the members renamed from the names in `v`.
    pub open spec fn spec_members_named(before: Guild, after: Guild, v: Seq<char>) -> bool {
            let names = split_text(v, ',');
            &&& after.members@.len() == names.len()
            &&& forall|i: int|
                0 <= i < names.len() ==> (#[trigger] after.members@[i]).name@ == names[i]
            &&& forall|i: int|
                0 <= i < names.len() && i < before.members@.len() ==> (GuildMemberData {
                    name: before.members@[i].name,
                    ..#[trigger] after.members@[i]
                }) == before.members@[i]
            &&& forall|i: int|
                0 <= i < names.len() && i >= before.members@.len() ==> (
                #[trigger] after.members@[i]).blank_but_name()
    }

    /// Holds where `after` is `before` with the members with the potions in `v`.
    pub open spec fn spec_potions_read(before: Guild, after: Guild, v: Seq<char>) -> bool {
            let d = split_text(trim_end_char(v, ','), ',').map_values(
                |p: Seq<char>| i64_or_zero(p),
            );
            let n = d.len() / 6;
            &&& after.members@.len() == n
            &&& forall|i: int|
                0 <= i < n ==> (#[trigger] after.members@[i]).potions == [
                    spec_quick_potion(d[6 * i]),
                    spec_quick_potion(d[6 * i + 2]),
                    spec_quick_potion(d[6 * i + 4]),
                ]
            &&& forall|i: int|
                0 <= i < n && i < before.members@.len() ==> (GuildMemberData {
                    potions: before.members@[i].potions,
                    ..#[trigger] after.members@[i]
                }) == before.members@[i]
    }

    /// Holds where `after` is `before` with the members with the knights in `v`.
    pub open spec fn spec_knights_read(before: Guild, after: Guild, v: Seq<char>) -> bool {
            let d = spec_number_list(split_text(trim_end_char(v, ','), ','));
            &&& after.members@.len() == d.len()
            &&& forall|i: int|
                0 <= i < d.len() ==> (#[trigger] after.members@[i]).knights == soft_u8(d[i], 0)
            &&& forall|i: int|
                0 <= i < d.len() && i < before.members@.len() ==> (GuildMemberData {
                    knights: before.members@[i].knights,
                    ..#[trigger] after.members@[i]
                }) == before.members@[i]
    }

    /// Sets the names of the members from a comma separated list; the list
    /// decides how many members there are.
    pub fn update_member_names(&mut self, val: &str)
        ensures
            Self::spec_members_named(*old(self), *final(self), val@),
    {
        let names = split_by(val, ',');
        let ghost ns = string_views(names@);
        let mut members: Vec<GuildMemberData> = Vec::new();
        let mut i: usize = 0;
        while i < names.len()
            invariant
                i <= names@.len(),
                ns == string_views(names@),
                ns == split_text(val@, ','),
                members@.len() == i,
                forall|k: int| 0 <= k < i ==> (#[trigger] members@[k]).name@ == ns[k],
                forall|k: int|
                    0 <= k < i && k < self.members@.len() ==> (GuildMemberData {
                        name: self.members@[k].name,
                        ..#[trigger] members@[k]
                    }) == self.members@[k],
                forall|k: int|
                    0 <= k < i && k >= self.members@.len() ==> (
                    #[trigger] members@[k]).blank_but_name(),
            decreases names@.len() - i,
        {
            let mut m = if i < self.members.len() {
                self.members[i].copy()
            } else {
                GuildMemberData::default()
            };
            m.name = names[i].clone();
            assert(ns[i as int] == names@[i as int]@);
            members.push(m);
            i = i + 1;
        }
        self.members = members;
    }

    /// Sets the hall of knights levels of the members from a comma separated
    /// list of numbers; the numbers decide how many members there are.
    pub fn update_group_knights(&mut self, val: &str)
        ensures
            Self::spec_knights_read(*old(self), *final(self), val@),
    {
        let trimmed = trim_end_matches_char(val, ',');
        let pieces = split_by(trimmed.as_str(), ',');
        let ghost ps = string_views(pieces@);
        let mut data: Vec<i64> = Vec::new();
        let mut i: usize = 0;
        while i < pieces.len()
            invariant
                i <= pieces@.len(),
                ps == string_views(pieces@),
                data@ == spec_number_list(ps.take(i as int)),
            decreases pieces@.len() - i,
        {
            assert(ps.take(i + 1).drop_last() =~= ps.take(i as int));
            assert(ps[i as int] == pieces@[i as int]@);
            match parse_i64(pieces[i].as_str()) {
                Some(v) => {
                    data.push(v);
                },
                None => {},
            }
            i = i + 1;
        }
        assert(ps.take(ps.len() as int) =~= ps);
        let mut members: Vec<GuildMemberData> = Vec::new();
        let mut k: usize = 0;
        while k < data.len()
            invariant
                k <= data@.len(),
                members@.len() == k,
                forall|j: int| 0 <= j < k ==> (#[trigger] members@[j]).knights == soft_u8(data@[j], 0),
                forall|j: int|
                    0 <= j < k && j < self.members@.len() ==> (GuildMemberData {
                        knights: self.members@[j].knights,
                        ..#[trigger] members@[j]
                    }) == self.members@[j],
            decreases data@.len() - k,
        {
            let mut m = if k < self.members.len() {
                self.members[k].copy()
            } else {
                GuildMemberData::default()
            };
            m.knights = soft_into_u8(data[k], "guild knight", 0);
            members.push(m);
            k = k + 1;
        }
        self.members = members;
    }

    /// Sets the potions of the members from a comma separated list: each
    /// member has 3 potions of 2 values, of which the first is the potion.
    pub fn update_member_potions(&mut self, val: &str)
        ensures
            Self::spec_potions_read(*old(self), *final(self), val@),
    {
        let trimmed = trim_end_matches_char(val, ',');
        let pieces = split_by(trimmed.as_str(), ',');
        let ghost ps = string_views(pieces@);
        let ghost d = ps.map_values(|p: Seq<char>| i64_or_zero(p));
        let mut data: Vec<i64> = Vec::new();
        let mut i: usize = 0;
        while i < pieces.len()
            invariant
                i <= pieces@.len(),
                ps == string_views(pieces@),
                d == ps.map_values(|p: Seq<char>| i64_or_zero(p)),
                data@ == d.take(i as int),
            decreases pieces@.len() - i,
        {
            assert(ps[i as int] == pieces@[i as int]@);
            data.push(parse_i64_or_zero(pieces[i].as_str()));
            i = i + 1;
            assert(data@ =~= d.take(i as int));
        }
        assert(data@ =~= d);
        let len = data.len();
        let n = len / 6;
        let mut members: Vec<GuildMemberData> = Vec::new();
        let mut k: usize = 0;
        while k < n
            invariant
                k <= n,
                len == data@.len(),
                n == len / 6,
                members@.len() == k,
                forall|j: int|
                    0 <= j < k ==> (#[trigger] members@[j]).potions == [
                        spec_quick_potion(data@[6 * j]),
                        spec_quick_potion(data@[6 * j + 2]),
                        spec_quick_potion(data@[6 * j + 4]),
                    ],
                forall|j: int|
                    0 <= j < k && j < self.members@.len() ==> (GuildMemberData {
                        potions: self.members@[j].potions,
                        ..#[trigger] members@[j]
                    }) == self.members@[j],
            decreases n - k,
        {
            assert(6 * k + 6 <= len) by (nonlinear_arith)
                requires
                    k < n,
                    n == len / 6,
            ;
            let mut m = if k < self.members.len() {
                self.members[k].copy()
            } else {
                GuildMemberData::default()
            };
            m.potions = [
                quick_potion(data[6 * k]),
                quick_potion(data[6 * k + 2]),
                quick_potion(data[6 * k + 4]),
            ];
            members.push(m);
            k = k + 1;
        }
        self.members = members;
    }

    /// Holds where `after` is `before` with the emblem and the description
    /// read from `v` (`emblem§description`).
    pub open spec fn spec_description_read(before: Guild, after: Guild, v: Seq<char>) -> bool {
        &&& match split_once_text(v, '§') {
            Some((e, d)) => after.description@ == sf_text(d) && after.emblem.raw@ == e,
            None => after.description@ == sf_text(v) && after.emblem.raw == before.emblem.raw,
        }
        &&& after.members == before.members
    }

    /// Updates the emblem and the description from their text: the emblem
    /// comes before the first `§`. Without a `§` the text is the
    /// description and the emblem stays.
    pub fn update_description_embed(&mut self, data: &str)
        ensures
            Self::spec_description_read(*old(self), *final(self), data@),
    {
        match split_once_char(data, '§') {
            Some((emblem, description)) => {
                self.description = from_sf_string(description.as_str());
                self.emblem.update(emblem.as_str());
            },
            None => {
                self.description = from_sf_string(data);
            },
        }
    }

    /// Updates the upgrade prices of the own treasure and instructor.
    pub fn update_group_prices(&mut self, data: &[i64]) -> (r: Result<(), SFError>)
        ensures
            data@.len() >= 4 <==> r is Ok,
            r matches Err(e) ==> group_prices_short(e, data@),
            r is Ok ==> final(self).own_treasure_upgrade == (NormalCost {
                silver: soft_u64(data@[0], 0),
                mushrooms: soft_u16(data@[1], 0),
            }) && final(self).own_instructor_upgrade == (NormalCost {
                silver: soft_u64(data@[2], 0),
                mushrooms: soft_u16(data@[3], 0),
            }),
    {
        self.own_treasure_upgrade.silver = csiget_u64(data, 0, "treasure upgr. silver", 0)?;
        self.own_treasure_upgrade.mushrooms = csiget_u16(data, 1, "treasure upgr. mush", 0)?;
        self.own_instructor_upgrade.silver = csiget_u64(data, 2, "instr upgr. silver", 0)?;
        self.own_instructor_upgrade.mushrooms = csiget_u16(data, 3, "instr upgr. mush", 0)?;
        Ok(())
    }

    /// Replaces the guilds that can be fought with those that groups of 9
    /// values (separated by `/`) describe. A number of values that is no
    /// multiple of 9 is an error.
    pub fn update_fightable_targets(&mut self, data: &str) -> (r: Result<(), SFError>)
        ensures
            ({
                let e = split_text(trim_end_char(data@, '/'), '/');
                &&& (e.len() % 9 == 0 <==> r is Ok)
                &&& r is Ok ==> final(self).fightable_guilds@.len() == e.len() / 9 && forall|i: int|
                    0 <= i < e.len() / 9 ==> spec_fightable(
                        e.subrange(9 * i, 9 * i + 9),
                        #[trigger] final(self).fightable_guilds@[i],
                    )
                &&& r is Err ==> final(self).fightable_guilds@.len() == 0
            }),
    {
        self.fightable_guilds = Vec::new();
        let trimmed = trim_end_matches_char(data, '/');
        let entries = split_by(trimmed.as_str(), '/');
        let ghost e = string_views(entries@);
        let len = entries.len();
        let n = len / 9;
        if n * 9 != len {
            return Err(SFError::ParsingError("Fightable targets invalid length", data.to_string()));
        }
        let mut i: usize = 0;
        while i < n
            invariant
                i <= n,
                len == entries@.len(),
                n == len / 9,
                e == string_views(entries@),
                e == split_text(trim_end_char(data@, '/'), '/'),
                self.fightable_guilds@.len() == i,
                forall|k: int|
                    0 <= k < i ==> spec_fightable(
                        e.subrange(9 * k, 9 * k + 9),
                        #[trigger] self.fightable_guilds@[k],
                    ),
            decreases n - i,
        {
            assert(9 * i + 9 <= len) by (nonlinear_arith)
                requires
                    i < n,
                    n == len / 9,
            ;
            let o = 9 * i;
            let ghost c = e.subrange(9 * i, 9 * i + 9);
            assert(c[0] == entries@[o as int]@);
            assert(c[1] == entries@[o + 1]@);
            assert(c[2] == entries@[o + 2]@);
            assert(c[3] == entries@[o + 3]@);
            assert(c[4] == entries@[o + 4]@);
            assert(c[5] == entries@[o + 5]@);
            assert(c[6] == entries@[o + 6]@);
            assert(c[7] == entries@[o + 7]@);
            assert(c[8] == entries@[o + 8]@);
            let g = FightableGuild {
                id: parse_u32_or_zero(entries[o].as_str()),
                name: from_sf_string(entries[o + 1].as_str()),
                emblem: Emblem { raw: entries[o + 2].clone() },
                number_of_members: parse_u8_or_zero(entries[o + 3].as_str()),
                members_min_level: parse_u32_or_zero(entries[o + 4].as_str()),
                members_max_level: parse_u32_or_zero(entries[o + 5].as_str()),
                members_average_level: parse_u32_or_zero(entries[o + 6].as_str()),
                rank: parse_u32_or_zero(entries[o + 7].as_str()),
                honor: parse_u32_or_zero(entries[o + 8].as_str()),
            };
            self.fightable_guilds.push(g);
            i = i + 1;
        }
        Ok(())
    }
}

} // verus!
