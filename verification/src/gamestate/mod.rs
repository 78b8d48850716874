use vstd::prelude::*;
use vstd::string::StringSliceAdditionalSpecFns;

use crate::command::ShopType;
use crate::error::SFError;
use crate::gamestate::arena::{Arena, Fight, SingleFight, spec_rounds};
use crate::gamestate::character::{Character, Class, Mount, Portrait, Race};
use crate::gamestate::dungeons::{Companion, DungeonType, Dungeons, Portal, portal_read, progress_read};
use crate::gamestate::fortress::{Fortress, FortressAction, FortressBuilding, FortressCost, FortressProduction, FortressResource, FortressResourceType, FortressUnit};
use crate::gamestate::guild::{ChatMessage, Guild, message_views, spec_group_values, spec_messages};
use crate::gamestate::idle::IdleGame;
use crate::command::{DiceReward, DiceType, ExpeditionSetting};
use crate::response::{Response, ResponseVal, big_list_values, debug_str_text, first_bad_big, first_bad_piece, first_bad_u32, last_value, list_ok, list_of, list_pieces, u32_list_values};
use crate::gamestate::items::{Equipment, Item, ItemType, PetItem};
use crate::gamestate::rewards::{CalendarReward, DailyTasks, EventTaskTheme, EventTasks, RewardChest, Reward, Task, TaskType, Tasks, TimedSpecials, Wheel, WheelReward, events_of};
use crate::gamestate::social::{
    CombatLogEntry, HallOfFameFortress, HallOfFameGuild, HallOfFamePets, HallOfFamePlayer,
    HallOfFameUnderworld, HallOfFames, InboxEntry, Lookup, Mail, OtherGuild, OtherGuildMember,
    OtherPlayer, RelationEntry, Relationship, hof_guilds_read, hof_players_read,
    read_hof_guilds, read_hof_players, hof_pets_read, hof_underworlds_read, read_hof_pets,
    read_hof_underworlds, inbox_read, combat_log_read, read_inbox, read_combat_log,
    hof_fortresses_read, read_hof_fortresses, stores,
};
use crate::gamestate::tavern::Tavern;
use crate::gamestate::underworld::{Underworld, UnderworldBuilding, UnderworldCost, UnderworldUnit};
use crate::gamestate::unlockables::{
    Achievements, Blacksmith, HabitatType, Hellevator, HellevatorEvent, Mirror, Pets, ScrapBook,
    Unlockable, Witch, base64_url_safe_decoded, unlockables_upto, PetOpponent, EnchantmentIdent,
    Achievement,
};
use crate::gamestate::tavern::{CurrentAction, DiceGame, Expedition, ExpeditionsEvent, GambleResult, Toilet, spec_available, spec_encounters, spec_rewards, wrapping_neg};
use crate::misc::{
    bad_value, cget, chars_of, from_sf_string, split_once_char, too_short, trim_start_matches_chars, csiget_u16, csiget_u32, csiget_u64, csiget_u8, cstget, debug_list, debug_list_text,
    split_once_text, decimal_i32, decimal_i64, decimal_u16, decimal_u32, decimal_u64, i64_to_string, parse_u16, sf_text, signed_decimal_text, trim_white, parse_u32, skip, soft_u16, soft_u32, soft_u64, soft_u8,
    soft_usize, soft_into_u16, soft_into_u32, soft_into_u64, soft_into_u8, soft_into_usize, split_by, split_text, string_views,
    text_is, trem, trim_end_char, trim_end_matches_char, update_enum_map,
};

pub mod character;
pub mod idle;
pub mod items;
pub mod unlockables;
pub mod tavern;
pub mod dungeons;
pub mod rewards;
pub mod fortress;
pub mod arena;
pub mod guild;
pub mod social;
pub mod event;
pub mod underworld;
pub mod legendary_dungeon;
pub mod legendary_dungeons;

verus! {

/// Holds of the seconds since the epoch that `chrono` can represent as a
/// date and time: those from the start of January 1 of the year -262143 to
/// the end of December 31 of the year 262142 (UTC), the years that `chrono`'s
/// dates allow.
pub open spec fn chrono_timestamp_valid(secs: i64) -> bool {
    -8_334_601_315_200 <= secs <= 8_210_266_876_799
}

/// Checks with `chrono::DateTime::from_timestamp` whether `secs` seconds since
/// the epoch can be represented. Its source turns the seconds into a day
/// (`div_euclid` by 86400, counted from the common era) and accepts the days
/// of the years `MIN_YEAR` (-262143) to `MAX_YEAR` (262142); the contract
/// states that interval in seconds.
#[verifier::external_body]
fn chrono_timestamp_in_range(secs: i64) -> (r: bool)
    ensures
        r == chrono_timestamp_valid(secs),
{
    chrono::DateTime::from_timestamp(secs, 0).is_some()
}

/// The current date and time on the client's clock, as the seconds since the
/// epoch that this wall clock time would be in UTC
/// (`chrono::Local::now().naive_local()`). Nothing is stated of it: it
/// depends on the clock.
#[verifier::external_body]
pub(crate) fn local_now() -> (r: i64) {
    chrono::Local::now().naive_local().and_utc().timestamp()
}

/// The time difference between the server and the client, in seconds (the
/// server is ahead by this amount; it can be negative). All points in time of
/// the library are wall clock times of the client's time zone, written as the
/// seconds since the epoch that this wall clock time would be in UTC.
#[derive(Debug, Clone, Copy, PartialEq, Eq, Structural)]
pub struct ServerTime(pub i64);

impl Default for ServerTime {
    fn default() -> (r: Self)
        ensures
            r == ServerTime(0),
    {
        ServerTime(0)
    }
}

impl ServerTime {
    /// The time that a raw timestamp of the server stands for: `None` for the
    /// placeholders 0, -1 and 11, for values outside 1e9..=3e9 and where the
    /// corrected time can not be represented.
    pub open spec fn spec_convert(self, timestamp: i64) -> Option<i64> {
        if timestamp == 0 || timestamp == -1 || timestamp == 11 {
            None
        } else if !(1_000_000_000 <= timestamp <= 3_000_000_000) {
            None
        } else if !(i64::MIN <= timestamp - self.0 <= i64::MAX) {
            None
        } else if !chrono_timestamp_valid((timestamp - self.0) as i64) {
            None
        } else {
            Some((timestamp - self.0) as i64)
        }
    }

    /// Converts a raw timestamp of the server into the time it stands for.
    pub fn convert_to_local(self, timestamp: i64, name: &str) -> (r: Option<i64>)
        ensures
            r == self.spec_convert(timestamp),
    {
        if timestamp == 0 || timestamp == -1 || timestamp == 11 {
            return None;
        }
        if !(1_000_000_000 <= timestamp && timestamp <= 3_000_000_000) {
            return None;
        }
        let secs = match timestamp.checked_sub(self.0) {
            Some(s) => s,
            None => return None,
        };
        if chrono_timestamp_in_range(secs) {
            Some(secs)
        } else {
            None
        }
    }
}

/// The cost of something.
#[derive(Debug, Clone, Copy, PartialEq, Eq, Structural)]
pub struct NormalCost {
    /// The amount of silver something costs
    pub silver: u64,
    /// The amount of mushrooms something costs
    pub mushrooms: u16,
}

} // verus!

verus! {

/// The number of items a shop offers.
pub const SHOP_N: usize = 6;

/// A shop that you can buy items from.
#[derive(Debug, Clone)]
pub struct Shop {
    /// The items this shop has for sale
    pub items: Vec<Item>,
}

/// The item that a shop offers at position `idx` of its values (12 values
/// apart), where there is one.
pub open spec fn shop_item(d: Seq<i64>, idx: int) -> Option<Item> {
    match ItemType::spec_parse(d.skip(idx * 12)) {
        Some(typ) => Some(Item::spec_parse(d.skip(idx * 12), typ)),
        None => None,
    }
}

impl Shop {
    /// Parses the six items of a shop, each starting 12 values after the
    /// previous one.
    ///
    /// # Errors
    /// Where the values are too short, or a position holds no item: then the
    /// `ParsingError` names the shop item and holds the values from that
    /// position on, in debug form.
    pub fn parse(data: &[i64]) -> (r: Result<Shop, SFError>)
        ensures
            data@.len() >= 5 * 12 + 19 && (forall|i: int| 0 <= i < 6 ==> #[trigger] shop_item(data@, i) is Some)
                ==> (r matches Ok(shop) && shop.items@.len() == 6 && forall|i: int|
                0 <= i < 6 ==> Some(#[trigger] shop.items@[i]) == shop_item(data@, i)),
            r matches Ok(shop) ==> shop.items@.len() == 6 && forall|i: int|
                0 <= i < 6 ==> Some(#[trigger] shop.items@[i]) == shop_item(data@, i),
    {
        let ghost good: bool = data@.len() >= 5 * 12 + 19 && (forall|i: int|
            0 <= i < 6 ==> #[trigger] shop_item(data@, i) is Some);
        let mut items: Vec<Item> = Vec::new();
        let mut idx: usize = 0;
        while idx < SHOP_N
            invariant
                idx <= 6,
                good == (data@.len() >= 5 * 12 + 19 && (forall|i: int|
                    0 <= i < 6 ==> #[trigger] shop_item(data@, i) is Some)),
                items@.len() == idx,
                forall|i: int| 0 <= i < idx ==> Some(#[trigger] items@[i]) == shop_item(data@, i),
            decreases 6 - idx,
        {
            let d = skip(data, idx * 12, "shop item")?;
            assert(d@ == data@.skip(idx * 12));
            assert(good ==> shop_item(data@, idx as int) is Some);
            match Item::parse(d)? {
                Some(item) => {
                    items.push(item);
                },
                None => {
                    return Err(SFError::ParsingError("shop item", debug_list(d)));
                },
            }
            idx = idx + 1;
        }
        Ok(Shop { items })
    }
}

/// The full state of the game at some point in time.
#[derive(Debug, Clone)]
pub struct GameState {
    /// Everything that can be considered part of the character
    pub character: Character,
    /// Information about quests and work
    pub tavern: Tavern,
    /// The place to fight other players
    pub arena: Arena,
    /// The last fight that this player was involved in
    pub last_fight: Option<Fight>,
    /// Both shops, by `ShopType` (weapon, then magic)
    pub shops: [Shop; 2],
    /// Information about the guild, if the player is in one
    pub guild: Option<Guild>,
    /// Everything that is time sensitive, like events and the calendar
    pub specials: TimedSpecials,
    /// Everything that can be found under the dungeon tab
    pub dungeons: Dungeons,
    /// The underworld, once it has been unlocked
    pub underworld: Option<Underworld>,
    /// The fortress, once it has been unlocked
    pub fortress: Option<Fortress>,
    /// The pet collection
    pub pets: Option<Pets>,
    /// The hellevator, while it is active
    pub hellevator: HellevatorEvent,
    /// The blacksmith, once it has been unlocked
    pub blacksmith: Option<Blacksmith>,
    /// The witch, once she has been unlocked
    pub witch: Option<Witch>,
    /// The small challenges a player can complete
    pub achievements: Achievements,
    /// The idle game
    pub idle_game: Option<IdleGame>,
    /// The features this character can unlock right now
    pub pending_unlocks: Vec<Unlockable>,
    /// Everything about the halls of fame
    pub hall_of_fames: HallOfFames,
    /// Other guilds and players that have been looked at
    pub lookup: Lookup,
    /// Everything from the mail tab
    pub mail: Mail,
    /// The raw timestamp that the server sent last
    pub last_request_timestamp: i64,
    /// The amount of seconds that the server is ahead of the client (can be
    /// negative)
    pub server_time_diff: i64,
}

impl ShopType {
    /// The position of the shop in `GameState::shops`.
    pub open spec fn spec_index(self) -> int {
        match self {
            ShopType::Weapon => 0,
            ShopType::Magic => 1,
        }
    }
}

impl GameState {
    /// Holds of a well formed state: the lookup of other players and guilds
    /// is well formed.
    pub open spec fn wf(self) -> bool {
        self.lookup.wf()
    }

    /// The time difference to the server, as the state holds it.
    pub fn server_time(&self) -> (r: ServerTime)
        ensures
            r == ServerTime(self.server_time_diff),
    {
        ServerTime(self.server_time_diff)
    }

    /// The shop of the given type.
    pub fn shop(&self, typ: ShopType) -> (r: &Shop)
        ensures
            *r == self.shops[typ.spec_index()],
    {
        match typ {
            ShopType::Weapon => &self.shops[0],
            ShopType::Magic => &self.shops[1],
        }
    }

    /// Updates the hellevator times (positions 0, 1 and 3).
    pub fn update_gttime(&mut self, data: &[i64], server_time: ServerTime) -> (r: Result<(), SFError>)
        ensures
            data@.len() > 3 <==> r is Ok,
            r is Ok ==> *final(self) == (GameState {
                hellevator: HellevatorEvent {
                    start: server_time.spec_convert(data@[0]),
                    end: server_time.spec_convert(data@[1]),
                    collect_time_end: server_time.spec_convert(data@[3]),
                    ..old(self).hellevator
                },
                ..*old(self)
            }),
            r is Err ==> *final(self) == *old(self),
            r matches Err(e) ==> gttime_error(e, data@),
    {
        let start = cstget(data, 0, "event start", server_time)?;
        let end = cstget(data, 1, "event end", server_time)?;
        let collect = cstget(data, 3, "claim time end", server_time)?;
        self.hellevator.start = start;
        self.hellevator.end = end;
        self.hellevator.collect_time_end = collect;
        Ok(())
    }
}

} // verus!

verus! {

/// Holds where the fields that single response keys set are the same in both
/// states: the character's name and description, the guard's wage, the
/// permission to skip with mushrooms, the questing preference, the inbox
/// capacity, the open message, the number of players, and the lookup.
pub open spec fn tracked_same(a: GameState, b: GameState) -> bool {
    &&& a.character.name == b.character.name
    &&& a.character.description == b.character.description
    &&& a.tavern.guard_wage == b.tavern.guard_wage
    &&& a.tavern.mushroom_skip_allowed == b.tavern.mushroom_skip_allowed
    &&& a.tavern.questing_preference == b.tavern.questing_preference
    &&& a.mail.inbox_capacity == b.mail.inbox_capacity
    &&& a.mail.open_msg == b.mail.open_msg
    &&& a.hall_of_fames.players_total == b.hall_of_fames.players_total
    &&& a.character.mount_dragon_refund == b.character.mount_dragon_refund
    &&& a.character.scrapbook == b.character.scrapbook
    &&& a.pending_unlocks == b.pending_unlocks
    &&& a.specials.events.active == b.specials.events.active
    &&& a.specials.events.ends == b.specials.events.ends
    &&& a.specials.tasks.event.theme == b.specials.tasks.event.theme
    &&& a.specials.tasks.event.start == b.specials.tasks.event.start
    &&& a.specials.tasks.event.end == b.specials.tasks.event.end
    &&& a.hall_of_fames.guilds_total == b.hall_of_fames.guilds_total
    &&& a.hall_of_fames.pets_total == b.hall_of_fames.pets_total
    &&& a.hall_of_fames.fortresses_total == b.hall_of_fames.fortresses_total
    &&& a.hall_of_fames.underworlds_total == b.hall_of_fames.underworlds_total
    &&& a.hall_of_fames.players == b.hall_of_fames.players
    &&& a.hall_of_fames.guilds == b.hall_of_fames.guilds
    &&& a.hall_of_fames.pets == b.hall_of_fames.pets
    &&& a.hall_of_fames.underworlds == b.hall_of_fames.underworlds
    &&& a.mail.inbox == b.mail.inbox
    &&& a.mail.combat_log == b.mail.combat_log
    &&& a.specials.calendar.rewards == b.specials.calendar.rewards
    &&& a.specials.tasks.event.tasks == b.specials.tasks.event.tasks
    &&& a.specials.tasks.daily.tasks == b.specials.tasks.daily.tasks
    &&& a.character.relations == b.character.relations
    &&& a.hellevator.start == b.hellevator.start
    &&& a.hellevator.end == b.hellevator.end
    &&& a.hellevator.collect_time_end == b.hellevator.collect_time_end
    &&& a.tavern.dice_game.current_dice == b.tavern.dice_game.current_dice
    &&& a.lookup == b.lookup
    &&& a.server_time_diff == b.server_time_diff
    &&& a.last_request_timestamp == b.last_request_timestamp
}

/// A friend list entry `id,name,guild,level,relation`: the id and level must
/// be numbers and the relation `-1` (ignored) or `1` (friend). Pieces past
/// the fifth are ignored.
pub open spec fn relation_of(entry: Seq<char>) -> Option<(u32, Seq<char>, Seq<char>, u16, Relationship)> {
    let p = split_text(entry, ',');
    if p.len() < 5 {
        None
    } else {
        match (decimal_u32(p[0]), decimal_u16(p[3])) {
            (Some(id), Some(level)) => if p[4] == seq!['-', '1'] {
                Some((id, p[1], p[2], level, Relationship::Ignored))
            } else if p[4] == seq!['1'] {
                Some((id, p[1], p[2], level, Relationship::Friend))
            } else {
                None
            },
            _ => None,
        }
    }
}

/// The valid entries of a friend list, in order.
pub open spec fn relations_of(entries: Seq<Seq<char>>) -> Seq<(u32, Seq<char>, Seq<char>, u16, Relationship)>
    decreases entries.len(),
{
    if entries.len() == 0 {
        Seq::empty()
    } else {
        let prev = relations_of(entries.drop_last());
        match relation_of(entries.last()) {
            Some(r) => prev.push(r),
            None => prev,
        }
    }
}

/// The values of some relation entries.
pub open spec fn relation_views(v: Seq<RelationEntry>) -> Seq<(u32, Seq<char>, Seq<char>, u16, Relationship)> {
    v.map_values(|e: RelationEntry| (e.id, e.name@, e.guild@, e.level, e.relation))
}

/// The equipment that 10 items describe, 12 values apart from `start` on.
pub open spec fn spec_equipment_at(d: Seq<i64>, start: int) -> Seq<Option<Item>> {
    Seq::new(10, |i: int| match ItemType::spec_parse(d.skip(start + 12 * i)) {
        Some(typ) => Some(Item::spec_parse(d.skip(start + 12 * i), typ)),
        None => None,
    })
}

/// Reads the equipment of 10 items, 12 values apart from `start` on.
fn equipment_at(data: &[i64], start: usize) -> (r: Result<Equipment, SFError>)
    ensures
        r matches Ok(e) ==> e.0@ == spec_equipment_at(data@, start as int),
        start + 12 * 9 + 19 <= data@.len() ==> r is Ok,
{
    let mut slots: [Option<Item>; 10] = [None, None, None, None, None, None, None, None, None, None];
    let len = data.len();
    let mut i: usize = 0;
    while i < 10
        invariant
            i <= 10,
            len == data@.len(),
            forall|k: int| 0 <= k < i ==> #[trigger] slots@[k] == spec_equipment_at(data@, start as int)[k],
        decreases 10 - i,
    {
        if start > len || 12 * i > len - start {
            return Err(too_short(data, start, "equipment"));
        }
        let d = skip(data, start + 12 * i, "equipment")?;
        let item = Item::parse(d)?;
        slots.set(i, item);
        i = i + 1;
    }
    assert(slots@ =~= spec_equipment_at(data@, start as int));
    Ok(Equipment(slots))
}

/// The piece at position 4 of the user settings, which says whether the
/// player prefers expeditions (`a`) or quests.
pub open spec fn spec_questing(v: Seq<char>) -> crate::command::ExpeditionSetting {
    if split_text(v, '/')[4] == seq!['a'] {
        crate::command::ExpeditionSetting::PreferExpeditions
    } else {
        crate::command::ExpeditionSetting::PreferQuests
    }
}

impl GameState {
    /// Updates the resources of the character, the blacksmith, the fortress,
    /// the pets and the underworld (positions 1 to 16). Those that are not
    /// unlocked yet are created. Where the values are too short, nothing
    /// changes.
    pub fn update_resources(&mut self, res: &[i64]) -> (r: Result<(), SFError>)
        ensures
            res@.len() > 16 <==> r is Ok,
            r is Err ==> *final(self) == *old(self),
            final(self).character.level == old(self).character.level,
            tracked_same(*old(self), *final(self)),
            r is Ok ==> {
                &&& final(self).character.mushrooms == soft_u32(res@[1], 0)
                &&& final(self).character.silver == soft_u64(res@[2], 0)
                &&& final(self).specials.wheel.lucky_coins == soft_u32(res@[3], 0)
                &&& final(self).tavern.quicksand_glasses == soft_u32(res@[4], 0)
                &&& final(self).blacksmith matches Some(bs) && bs.metal == soft_u64(res@[9], 0)
                    && bs.arcane == soft_u64(res@[10], 0)
                &&& final(self).fortress matches Some(f) && f.resources[0].current == soft_u64(
                    res@[5],
                    0,
                ) && f.resources[1].current == soft_u64(res@[7], 0)
                &&& final(self).pets matches Some(p) && forall|i: int|
                    0 <= i < 5 ==> #[trigger] p.habitats[i].fruits == soft_u16(res@[12 + i], 0)
                &&& final(self).underworld matches Some(u) && u.souls_current == soft_u64(res@[11], 0)
                &&& final(self).fortress matches Some(f) && f.level == fortress_level_of(old(self).fortress)
                &&& final(self).pets matches Some(p) && p.rank == pets_rank_of(old(self).pets)
                &&& final(self).underworld matches Some(u) && u.honor == underworld_honor_of(
                    old(self).underworld,
                )
            },
            final(self).last_fight == old(self).last_fight,
            final(self).witch == old(self).witch,
            final(self).guild == old(self).guild,
            final(self).dungeons == old(self).dungeons,
            r matches Err(e) ==> resources_short(e, res@),
    {
        let mushrooms = csiget_u32(res, 1, "mushrooms", 0)?;
        let silver = csiget_u64(res, 2, "player silver", 0)?;
        let glasses = csiget_u32(res, 4, "quicksand glass count", 0)?;
        let coins = csiget_u32(res, 3, "lucky coins", 0)?;
        let metal = csiget_u64(res, 9, "bs metal", 0)?;
        let arcane = csiget_u64(res, 10, "bs arcane", 0)?;
        let wood = csiget_u64(res, 5, "saved wood ", 0)?;
        let stone = csiget_u64(res, 7, "saved stone", 0)?;
        let f0 = csiget_u16(res, 12, "fruits", 0)?;
        let f1 = csiget_u16(res, 13, "fruits", 0)?;
        let f2 = csiget_u16(res, 14, "fruits", 0)?;
        let f3 = csiget_u16(res, 15, "fruits", 0)?;
        let f4 = csiget_u16(res, 16, "fruits", 0)?;
        let souls = csiget_u64(res, 11, "uu souls saved", 0)?;
        self.character.mushrooms = mushrooms;
        self.character.silver = silver;
        self.tavern.quicksand_glasses = glasses;
        self.specials.wheel.lucky_coins = coins;
        let mut bs = match self.blacksmith {
            Some(b) => b,
            None => Blacksmith::default(),
        };
        bs.metal = metal;
        bs.arcane = arcane;
        self.blacksmith = Some(bs);
        let mut fortress = match self.fortress.take() {
            Some(f) => f,
            None => Fortress::default(),
        };
        fortress.resources[FortressResourceType::Wood.index()].current = wood;
        fortress.resources[FortressResourceType::Stone.index()].current = stone;
        self.fortress = Some(fortress);
        let mut pets = match self.pets.take() {
            Some(p) => p,
            None => Pets::default(),
        };
        pets.habitats[0].fruits = f0;
        pets.habitats[1].fruits = f1;
        pets.habitats[2].fruits = f2;
        pets.habitats[3].fruits = f3;
        pets.habitats[4].fruits = f4;
        self.pets = Some(pets);
        let mut uw = match self.underworld.take() {
            Some(u) => u,
            None => Underworld::default(),
        };
        uw.souls_current = souls;
        self.underworld = Some(uw);
        Ok(())
    }
}

impl GameState {
    /// Replaces the list of friends and ignored players with the entries of
    /// `val` (separated by `;`); invalid entries are skipped.
    pub fn updatete_relation_list(&mut self, val: &str)
        ensures
            relation_views(final(self).character.relations@) == relations_of(
                split_text(trim_end_char(val@, ';'), ';'),
            ),
            *final(self) == (GameState {
                character: Character { relations: final(self).character.relations, ..old(self).character },
                ..*old(self)
            }),
    {
        let trimmed = trim_end_matches_char(val, ';');
        let entries = split_by(trimmed.as_str(), ';');
        let ghost es = string_views(entries@);
        let mut relations: Vec<RelationEntry> = Vec::new();
        let mut i: usize = 0;
        while i < entries.len()
            invariant
                i <= entries@.len(),
                es == string_views(entries@),
                relation_views(relations@) == relations_of(es.take(i as int)),
            decreases entries@.len() - i,
        {
            assert(es.take(i + 1).drop_last() =~= es.take(i as int));
            assert(es[i as int] == entries@[i as int]@);
            match relation_entry(entries[i].as_str()) {
                Some(e) => {
                    let ghost before = relations@;
                    relations.push(e);
                    assert(relation_views(relations@) =~= relation_views(before).push(
                        (e.id, e.name@, e.guild@, e.level, e.relation),
                    ));
                },
                None => {},
            }
            i = i + 1;
        }
        assert(es.take(es.len() as int) =~= es);
        self.character.relations = relations;
    }
}

/// Reads one entry of the friend list.
fn relation_entry(entry: &str) -> (r: Option<RelationEntry>)
    ensures
        match relation_of(entry@) {
            Some(v) => r matches Some(e) && (e.id, e.name@, e.guild@, e.level, e.relation) == v,
            None => r is None,
        },
{
    let parts = split_by(entry, ',');
    let ghost ps = string_views(parts@);
    if parts.len() < 5 {
        return None;
    }
    assert(ps[0] == parts@[0]@ && ps[1] == parts@[1]@ && ps[2] == parts@[2]@);
    assert(ps[3] == parts@[3]@ && ps[4] == parts@[4]@);
    let id = match parse_u32(parts[0].as_str()) {
        Some(v) => v,
        None => return None,
    };
    let level = match parse_u16(parts[3].as_str()) {
        Some(v) => v,
        None => return None,
    };
    let minus_one = ['-', '1'];
    let one = ['1'];
    let relation = if text_is(parts[4].as_str(), &minus_one) {
        assert(minus_one@ =~= seq!['-', '1']);
        Relationship::Ignored
    } else if text_is(parts[4].as_str(), &one) {
        assert(one@ =~= seq!['1']);
        assert(minus_one@ =~= seq!['-', '1']);
        Relationship::Friend
    } else {
        assert(one@ =~= seq!['1']);
        assert(minus_one@ =~= seq!['-', '1']);
        return None;
    };
    Some(
        RelationEntry {
            id,
            name: parts[1].clone(),
            guild: parts[2].clone(),
            level,
            relation,
        },
    )
}

/// Holds where the six items of a shop can be read from `d`.
pub open spec fn shop_ok(d: Seq<i64>) -> bool {
    d.len() >= 5 * 12 + 19 && forall|i: int| 0 <= i < 6 ==> #[trigger] shop_item(d, i) is Some
}

/// The damage bonus of the guild portal that a player save holds, as the
/// server writes it (before it is checked to fit a `u8`).
pub open spec fn portal_damage_raw(d: Seq<i64>) -> int {
    trem((d[445] >> 16) as int, 256)
}

/// Holds where a player save of at least 700 values can be read: its class,
/// race, shops and guild portal bonus are valid.
pub open spec fn player_save_ok(d: Seq<i64>) -> bool {
    &&& Class::spec_from_i64(((d[29] & 0xFF) - 1) as i64) is Some
    &&& Race::spec_from_i64(d[27] & 0xFF) is Some
    &&& shop_ok(d.skip(288))
    &&& shop_ok(d.skip(361))
    &&& 0 <= portal_damage_raw(d) <= 255
}

/// Holds of a player save `d` of at least 700 values whose failure names one
/// error: its class or its race is unknown, or its shops can be read and
/// its guild portal bonus does not fit.
pub open spec fn save_error_named(d: Seq<i64>) -> bool {
    ||| Class::spec_from_i64(((d[29] & 0xFF) - 1) as i64) is None
    ||| Race::spec_from_i64(d[27] & 0xFF) is None
    ||| shop_ok(d.skip(288)) && shop_ok(d.skip(361)) && !(0 <= portal_damage_raw(d) <= 255)
}

/// The error of a player save `d` for which `save_error_named` holds: the
/// unknown class, else the unknown race, else the portal bonus, each with
/// its value.
pub open spec fn save_error(e: SFError, d: Seq<i64>) -> bool {
    if Class::spec_from_i64(((d[29] & 0xFF) - 1) as i64) is None {
        parsing_error_of(e, "character class"@, signed_decimal_text((d[29] & 0xFF) - 1))
    } else if Race::spec_from_i64(d[27] & 0xFF) is None {
        parsing_error_of(e, "character race"@, signed_decimal_text((d[27] & 0xFF) as int))
    } else {
        parsing_error_of(e, "portal dmg bonus"@, signed_decimal_text(portal_damage_raw(d)))
    }
}

/// Sets the values of the character that a player save (of at least 700
/// values) holds.
fn save_character(
    c: &mut Character,
    data: &[i64],
    st: ServerTime,
    class: Class,
    race: Race,
    equipment: Equipment,
)
    requires
        data@.len() >= 700,
    ensures
        final(c).name == old(c).name,
        final(c).description == old(c).description,
        final(c).mount_dragon_refund == old(c).mount_dragon_refund,
        final(c).scrapbook == old(c).scrapbook,
        final(c).inventory == old(c).inventory,
        final(c).relations == old(c).relations,
        final(c).player_id == soft_u32(data@[1], 0),
        final(c).portrait == Portrait::spec_parse(data@.skip(17)),
        final(c).equipment == equipment,
        final(c).armor == soft_u64(data@[447], 0),
        final(c).min_damage == soft_u32(data@[448], 0),
        final(c).max_damage == soft_u32(data@[449], 0),
        final(c).level == soft_u16(data@[7] & 0xFFFF, 0),
        final(c).experience == soft_u64(data@[8], 0),
        final(c).next_level_xp == soft_u64(data@[9], 0),
        final(c).honor == soft_u32(data@[10], 0),
        final(c).rank == soft_u32(data@[11], 0),
        final(c).class == class,
        final(c).race == race,
        forall|i: int|
            0 <= i < 5 ==> #[trigger] final(c).attribute_basis@[i] == soft_u32(data@[30 + i], 0)
                && final(c).attribute_additions@[i] == soft_u32(data@[35 + i], 0)
                && final(c).attribute_times_bought@[i] == soft_u32(data@[40 + i], 0),
        final(c).mount == Mount::spec_from_i64(data@[286] & 0xFF),
        final(c).mount_end == st.spec_convert(data@[451]),
        final(c).mirror == Mirror::spec_parse(data@[28]),
        final(c).active_potions@ == seq![
            ItemType::spec_active_potion(data@.skip(493), 0, st),
            ItemType::spec_active_potion(data@.skip(493), 1, st),
            ItemType::spec_active_potion(data@.skip(493), 2, st),
        ],
{
    c.player_id = soft_into_u32(data[1], "player id", 0);
    let (_, portrait_data) = data.split_at(17);
    assert(portrait_data@ =~= data@.skip(17));
    c.portrait = match Portrait::parse(portrait_data) {
        Ok(p) => p,
        Err(_) => Portrait::default(),
    };
    c.equipment = equipment;
    c.armor = soft_into_u64(data[447], "total armor", 0);
    c.min_damage = soft_into_u32(data[448], "min damage", 0);
    c.max_damage = soft_into_u32(data[449], "max damage", 0);
    c.level = soft_into_u16(data[7] & 0xFFFF, "level", 0);
    c.experience = soft_into_u64(data[8], "experience", 0);
    c.next_level_xp = soft_into_u64(data[9], "xp to next lvl", 0);
    c.honor = soft_into_u32(data[10], "honor", 0);
    c.rank = soft_into_u32(data[11], "rank", 0);
    c.class = class;
    c.race = race;
    let (_, b30) = data.split_at(30);
    assert(b30@ =~= data@.skip(30));
    update_enum_map(&mut c.attribute_basis, b30);
    let (_, b35) = data.split_at(35);
    assert(b35@ =~= data@.skip(35));
    update_enum_map(&mut c.attribute_additions, b35);
    let (_, b40) = data.split_at(40);
    assert(b40@ =~= data@.skip(40));
    update_enum_map(&mut c.attribute_times_bought, b40);
    c.mount = Mount::from_i64(data[286] & 0xFF);
    c.mount_end = st.convert_to_local(data[451], "mount end");
    let (_, potions) = data.split_at(493);
    assert(potions@ =~= data@.skip(493));
    c.active_potions = ItemType::parse_active_potions(potions, st);
    c.mirror = Mirror::parse(data[28]);
}

/// Sets the first five slots of the backpack (the bag) from a player save,
/// where the backpack has them.
fn save_bag(inv: &mut crate::gamestate::items::Inventory, data: &[i64])
    requires
        data@.len() >= 700,
    ensures
        final(inv).backpack@.len() == old(inv).backpack@.len(),
        old(inv).backpack@.len() < 5 ==> *final(inv) == *old(inv),
        old(inv).backpack@.len() >= 5 ==> forall|i: int|
            0 <= i < old(inv).backpack@.len() ==> #[trigger] final(inv).backpack@[i] == if i < 5 {
                spec_equipment_at(data@, 168)[i]
            } else {
                old(inv).backpack@[i]
            },
{
    if inv.backpack.len() >= 5 {
        let mut idx: usize = 0;
        while idx < 5
            invariant
                idx <= 5,
                data@.len() >= 700,
                inv.backpack@.len() == old(inv).backpack@.len(),
                inv.backpack@.len() >= 5,
                forall|i: int|
                    0 <= i < inv.backpack@.len() ==> #[trigger] inv.backpack@[i] == if i < idx {
                        spec_equipment_at(data@, 168)[i]
                    } else {
                        old(inv).backpack@[i]
                    },
            decreases 5 - idx,
        {
            let (_, d) = data.split_at(168 + idx * 12);
            assert(d@ =~= data@.skip(168 + idx * 12));
            let item = match Item::parse(d) {
                Ok(i) => i,
                Err(_) => None,
            };
            inv.backpack.set(idx, item);
            idx = idx + 1;
        }
    }
}

/// The name of the own guild, or the empty name where there is none.
pub open spec fn guild_name_of(o: Option<Guild>) -> Seq<char> {
    match o {
        Some(g) => g.name@,
        None => Seq::empty(),
    }
}

/// The rank of the pets, or 0 where there are none.
pub open spec fn pets_rank_of(o: Option<Pets>) -> u32 {
    match o {
        Some(p) => p.rank,
        None => 0,
    }
}

/// The level of the fortress, or 0 where there is none.
pub open spec fn fortress_level_of(o: Option<Fortress>) -> u16 {
    match o {
        Some(f) => f.level,
        None => 0,
    }
}

/// The honor of the underworld, or 0 where there is none.
pub open spec fn underworld_honor_of(o: Option<Underworld>) -> u16 {
    match o {
        Some(u) => u.honor,
        None => 0,
    }
}

/// The finished fights of the portal, or 0 where there is none.
pub open spec fn portal_finished_of(o: Option<Portal>) -> u16 {
    match o {
        Some(p) => p.finished,
        None => 0,
    }
}

/// Holds where `b` is what `o` held, or a fortress as it is made new (of
/// level 0) where it held none.
pub open spec fn fortress_base(o: Option<Fortress>, b: Fortress) -> bool {
    match o {
        Some(f) => b == f,
        None => b.level == 0 && b.honor == 0 && b.rank == 0,
    }
}

/// What reading a player save `d` of at least 700 values does to the state
/// `a`, giving `b`: the character, its backpack, the tavern, the arena, the
/// shops, the fortress (from level 25), the toilet (where it has a level),
/// the timers, the guild, the pets and the portal.
pub open spec fn save_applied(a: GameState, d: Seq<i64>, b: GameState) -> bool {
    let c = b.character;
    let st = ServerTime(a.server_time_diff);
    &&& c.player_id == soft_u32(d[1], 0)
    &&& c.portrait == Portrait::spec_parse(d.skip(17))
    &&& c.equipment.0@ == spec_equipment_at(d, 48)
    &&& c.armor == soft_u64(d[447], 0)
    &&& c.min_damage == soft_u32(d[448], 0)
    &&& c.max_damage == soft_u32(d[449], 0)
    &&& c.level == soft_u16(d[7] & 0xFFFF, 0)
    &&& b.arena.fights_for_xp == soft_u8(d[7] >> 16, 0)
    &&& c.experience == soft_u64(d[8], 0)
    &&& c.next_level_xp == soft_u64(d[9], 0)
    &&& c.honor == soft_u32(d[10], 0)
    &&& c.rank == soft_u32(d[11], 0)
    &&& c.class == Class::spec_from_i64(((d[29] & 0xFF) - 1) as i64)->0
    &&& c.race == Race::spec_from_i64(d[27] & 0xFF)->0
    &&& forall|i: int|
        0 <= i < 5 ==> #[trigger] c.attribute_basis@[i] == soft_u32(d[30 + i], 0)
            && c.attribute_additions@[i] == soft_u32(d[35 + i], 0)
            && c.attribute_times_bought@[i] == soft_u32(d[40 + i], 0)
    &&& c.mount == Mount::spec_from_i64(d[286] & 0xFF)
    &&& c.mount_end == st.spec_convert(d[451])
    &&& c.mirror == Mirror::spec_parse(d[28])
    &&& b.arena.next_free_fight == st.spec_convert(d[460])
    &&& b.arena.enemy_ids == [
        soft_u32(d[599], 0),
        soft_u32(d[600], 0),
        soft_u32(d[601], 0),
    ]
    &&& b.dungeons.next_free_fight == st.spec_convert(d[459])
    &&& b.specials.wheel.spins_today == soft_u8(d[579], 0)
    &&& b.specials.calendar.collected == soft_usize(d[648] >> 16, 245)
    &&& b.tavern.dice_game.remaining == soft_u8(d[651], 0)
    &&& b.pets matches Some(p) && p.next_free_exploration == st.spec_convert(
        d[660],
    )
    &&& b.guild matches Some(g) && g.portal.damage_bonus == portal_damage_raw(
        d,
    ) && g.own_treasure_skill == soft_u16(d[623], 0)
    &&& forall|k: int|
        0 <= k < 6 ==> Some(#[trigger] b.shops[0].items@[k]) == shop_item(
            d.skip(288),
            k,
        )
    &&& forall|k: int|
        0 <= k < 6 ==> Some(#[trigger] b.shops[1].items@[k]) == shop_item(
            d.skip(361),
            k,
        )
            &&& b.tavern.current_action == CurrentAction::spec_parse(
        d[45] & 0xFF,
        d[46] & 0xFF,
        st.spec_convert(d[47]),
    )
    &&& b.tavern.thirst_for_adventure_sec == soft_u32(d[456], 0)
    &&& b.tavern.beer_drunk == soft_u8(d[457], 0)
    &&& b.tavern.quests == Tavern::spec_quests(d)
    &&& a.character.inventory.backpack@.len() >= 5 ==> forall|i: int|
        0 <= i < 5 ==> #[trigger] c.inventory.backpack@[i] == spec_equipment_at(d, 168)[i]
    &&& c.inventory.backpack@.len() == a.character.inventory.backpack@.len()
    &&& c.level >= 25 ==> (b.fortress matches Some(f) && exists|x: Fortress|
        #[trigger] fortress_base(a.fortress, x) && x.spec_updated(d, st, f))
    &&& c.level < 25 ==> b.fortress == a.fortress
    &&& d[491] > 0 ==> b.tavern.toilet == Some(Toilet {
        used: match a.tavern.toilet {
            Some(t) => t.used,
            None => false,
        },
        aura: soft_u32(d[491], 0),
        mana_currently: soft_u32(d[492], 0),
        mana_total: soft_u32(d[515], 1000),
    })
    &&& d[491] <= 0 ==> b.tavern.toilet == a.tavern.toilet
    &&& b.guild matches Some(g) && g.name@ == guild_name_of(a.guild)
    &&& b.pets matches Some(p) && p.rank == pets_rank_of(a.pets)
    &&& b.dungeons.portal matches Some(p) && p.finished == portal_finished_of(a.dungeons.portal)
    &&& b.last_fight == a.last_fight
    &&& b.witch == a.witch
    &&& b.underworld == a.underworld
    &&& b.lookup == a.lookup
}

impl GameState {
    /// Sets the timers and counters that a player save holds.
    fn save_timers(&mut self, data: &[i64], st: ServerTime)
        requires
            data@.len() >= 700,
        ensures
            tracked_same(*old(self), *final(self)),
            final(self).character == old(self).character,
            final(self).shops == old(self).shops,
            final(self).guild == old(self).guild,
            final(self).pets == old(self).pets,
            final(self).dungeons.portal == old(self).dungeons.portal,
            final(self).arena.fights_for_xp == old(self).arena.fights_for_xp,
            final(self).arena.next_free_fight == st.spec_convert(data@[460]),
            final(self).arena.enemy_ids == [
                soft_u32(data@[599], 0),
                soft_u32(data@[600], 0),
                soft_u32(data@[601], 0),
            ],
            final(self).dungeons.next_free_fight == st.spec_convert(data@[459]),
            final(self).specials.wheel.spins_today == soft_u8(data@[579], 0),
            final(self).specials.wheel.next_free_spin == st.spec_convert(data@[580]),
            final(self).specials.calendar.collected == soft_usize(data@[648] >> 16, 245),
            final(self).specials.calendar.next_possible == st.spec_convert(data@[649]),
            final(self).tavern.dice_game.next_free == st.spec_convert(data@[650]),
            final(self).tavern.dice_game.remaining == soft_u8(data@[651], 0),
            final(self).last_fight == old(self).last_fight,
            final(self).witch == old(self).witch,
            final(self).underworld == old(self).underworld,
            final(self).fortress == old(self).fortress,
            final(self).tavern.current_action == old(self).tavern.current_action,
            final(self).tavern.thirst_for_adventure_sec == old(self).tavern.thirst_for_adventure_sec,
            final(self).tavern.beer_drunk == old(self).tavern.beer_drunk,
            final(self).tavern.quests == old(self).tavern.quests,
            final(self).tavern.toilet == old(self).tavern.toilet,
    {
        self.specials.wheel.spins_today = soft_into_u8(data[579], "lucky turns", 0);
        self.specials.wheel.next_free_spin = st.convert_to_local(data[580], "next lucky turn");
        self.arena.next_free_fight = st.convert_to_local(data[460], "next battle time");
        self.arena.enemy_ids = [
            soft_into_u32(data[599], "enemy_id", 0),
            soft_into_u32(data[600], "enemy_id", 0),
            soft_into_u32(data[601], "enemy_id", 0),
        ];
        self.dungeons.next_free_fight = st.convert_to_local(data[459], "dungeon timer");
        self.specials.calendar.collected = soft_into_usize(
            data[648] >> 16,
            "calendar collected",
            245,
        );
        self.specials.calendar.next_possible = st.convert_to_local(data[649], "calendar next");
        self.tavern.dice_game.next_free = st.convert_to_local(data[650], "dice next");
        self.tavern.dice_game.remaining = soft_into_u8(data[651], "rem dice games", 0);
    }

    /// Sets the guild, pet and portal values that a player save holds; the
    /// guild, the pets and the portal are created where there are none.
    fn save_guild_pets(&mut self, data: &[i64], st: ServerTime, damage_bonus: u8)
        requires
            data@.len() >= 700,
        ensures
            tracked_same(*old(self), *final(self)),
            final(self).character == old(self).character,
            final(self).shops == old(self).shops,
            final(self).arena == old(self).arena,
            final(self).dungeons.next_free_fight == old(self).dungeons.next_free_fight,
            final(self).specials == old(self).specials,
            final(self).tavern.dice_game == old(self).tavern.dice_game,
            final(self).pets matches Some(p) && p.next_free_exploration == st.spec_convert(
                data@[660],
            ),
            final(self).dungeons.portal matches Some(p) && p.player_hp_bonus == soft_u16(
                data@[445] >> 24,
                0,
            ),
            final(self).guild matches Some(g) && g.portal.damage_bonus == damage_bonus
                && g.own_treasure_skill == soft_u16(data@[623], 0) && g.own_instructor_skill
                == soft_u16(data@[624], 0) && g.hydra.next_battle == st.spec_convert(data@[627])
                && g.hydra.remaining_fights == soft_u16(data@[628], 0),
            final(self).guild matches Some(g) && g.name@ == guild_name_of(old(self).guild),
            final(self).pets matches Some(p) && p.rank == pets_rank_of(old(self).pets),
            final(self).dungeons.portal matches Some(p) && p.finished == portal_finished_of(
                old(self).dungeons.portal,
            ),
            final(self).last_fight == old(self).last_fight,
            final(self).witch == old(self).witch,
            final(self).underworld == old(self).underworld,
            final(self).fortress == old(self).fortress,
            final(self).tavern == old(self).tavern,
    {
        let mut guild = match self.guild.take() {
            Some(g) => g,
            None => Guild::default(),
        };
        if let Some(jg) = st.convert_to_local(data[443], "guild join date") {
            guild.joined = jg;
        }
        let mut pets = match self.pets.take() {
            Some(p) => p,
            None => Pets::default(),
        };
        pets.next_free_exploration = st.convert_to_local(data[660], "pet next free exp");
        self.pets = Some(pets);
        let mut portal = match self.dungeons.portal {
            Some(p) => p,
            None => crate::gamestate::dungeons::Portal::default(),
        };
        portal.player_hp_bonus = soft_into_u16(data[445] >> 24, "portal hp bonus", 0);
        self.dungeons.portal = Some(portal);
        guild.portal.damage_bonus = damage_bonus;
        guild.own_treasure_skill = soft_into_u16(data[623], "own treasure skill", 0);
        guild.own_instructor_skill = soft_into_u16(data[624], "own instruction skill", 0);
        guild.hydra.next_battle = st.convert_to_local(data[627], "pet battle");
        guild.hydra.remaining_fights = soft_into_u16(data[628], "remaining pet battles", 0);
        self.guild = Some(guild);
    }

    /// Updates the character and much of the rest of the state from the
    /// player save. A save of fewer than 700 values is skipped. A save with
    /// an invalid class, race, shop item or portal bonus is an error, and then
    /// nothing changes.
    #[verifier::spinoff_prover]
    #[verifier::rlimit(100)]
    pub fn update_player_save(&mut self, data: &[i64]) -> (r: Result<(), SFError>)
        ensures
            data@.len() < 700 ==> r is Ok && *final(self) == *old(self),
            data@.len() >= 700 ==> (r is Ok <==> player_save_ok(data@)),
            r is Err ==> *final(self) == *old(self),
            data@.len() >= 700 && save_error_named(data@) ==> (r matches Err(e) && save_error(
                e,
                data@,
            )),
            tracked_same(*old(self), *final(self)),
            r is Ok && data@.len() >= 700 ==> save_applied(*old(self), data@, *final(self)),
    {
        let server_time = self.server_time();
        if data.len() < 700 {
            return Ok(());
        }
        proof {
            crate::gamestate::items::lemma_mask_ff(data@[29]);
        }
        let raw_class = (data[29] & 0xFF) - 1;
        let class = match Class::from_i64(raw_class) {
            Some(c) => c,
            None => return Err(bad_value("character class", raw_class)),
        };
        let raw_race = data[27] & 0xFF;
        let race = match Race::from_i64(raw_race) {
            Some(r) => r,
            None => return Err(bad_value("character race", raw_race)),
        };
        let (_, weapon_data) = data.split_at(288);
        assert(weapon_data@ =~= data@.skip(288));
        let weapon_shop = Shop::parse(weapon_data)?;
        let (_, magic_data) = data.split_at(361);
        assert(magic_data@ =~= data@.skip(361));
        let magic_shop = Shop::parse(magic_data)?;
        assert(shop_ok(data@.skip(288))) by {
            assert forall|i: int| 0 <= i < 6 implies #[trigger] shop_item(data@.skip(288), i) is Some by {
                assert(Some(weapon_shop.items@[i]) == shop_item(data@.skip(288), i));
            }
        }
        assert(shop_ok(data@.skip(361))) by {
            assert forall|i: int| 0 <= i < 6 implies #[trigger] shop_item(data@.skip(361), i) is Some by {
                assert(Some(magic_shop.items@[i]) == shop_item(data@.skip(361), i));
            }
        }
        let raw_dmg = (data[445] >> 16) % 256;
        assert(raw_dmg == portal_damage_raw(data@));
        if raw_dmg < 0 {
            return Err(bad_value("portal dmg bonus", raw_dmg));
        }
        assert(0 <= portal_damage_raw(data@) <= 255);
        let damage_bonus = raw_dmg as u8;
        let equipment = match equipment_at(data, 48) {
            Ok(e) => e,
            Err(e) => return Err(e),
        };
        save_character(&mut self.character, data, server_time, class, race, equipment);
        self.arena.fights_for_xp = soft_into_u8(data[7] >> 16, "arena xp fights", 0);
        let tavern_res = self.tavern.update(data, server_time);
        save_bag(&mut self.character.inventory, data);
        if self.character.level >= 25 {
            let mut fortress = match self.fortress.take() {
                Some(f) => f,
                None => Fortress::default(),
            };
            let ghost fb = fortress;
            assert(fortress_base(old(self).fortress, fb));
            let fortress_res = fortress.update(data, server_time);
            assert(fb.spec_updated(data@, server_time, fortress));
            self.fortress = Some(fortress);
        }
        self.shops = [weapon_shop, magic_shop];
        self.save_timers(data, server_time);
        if data[491] > 0 {
            let mut toilet = match self.tavern.toilet {
                Some(t) => t,
                None => Toilet::default(),
            };
            let toilet_res = toilet.update(data);
            self.tavern.toilet = Some(toilet);
        }
        self.save_guild_pets(data, server_time, damage_bonus);
        Ok(())
    }
}

/// Holds where the text is the literal `lit`.
fn key_is(key: &str, lit: &str) -> (r: bool)
    ensures
        r == (key@ == lit@),
{
    let lc = chars_of(lit);
    text_is(key, lc.as_slice())
}

/// Holds where the text starts with the literal `lit`.
fn key_starts(key: &str, lit: &str) -> (r: bool)
    ensures
        r == (lit@.len() <= key@.len() && key@.take(lit@.len() as int) == lit@),
{
    let kc = chars_of(key);
    let lc = chars_of(lit);
    if lc.len() > kc.len() {
        return false;
    }
    let mut i: usize = 0;
    while i < lc.len()
        invariant
            i <= lc@.len() <= kc@.len(),
            kc@ == key@,
            lc@ == lit@,
            forall|k: int| 0 <= k < i ==> kc@[k] == lc@[k],
        decreases lc@.len() - i,
    {
        if kc[i] != lc[i] {
            assert(key@.take(lit@.len() as int)[i as int] != lit@[i as int]);
            return false;
        }
        i = i + 1;
    }
    assert(key@.take(lit@.len() as int) =~= lit@);
    true
}

/// The text that std's `Debug` formatting gives for a list of strings.
pub uninterp spec fn debug_strings_text(v: Seq<Seq<char>>) -> Seq<char>;

/// Formats a list of strings with std's `Debug` formatting
/// (`format!("{:?}", ..)`). The contract only names the result.
#[verifier::external_body]
fn debug_pieces(v: &[String]) -> (r: String)
    ensures
        r@ == debug_strings_text(string_views(v@)),
{
    format!("{v:?}")
}

impl Default for Shop {
    fn default() -> (r: Self)
        ensures
            r.items@.len() == 6,
    {
        let mut items: Vec<Item> = Vec::new();
        let mut i: usize = 0;
        while i < SHOP_N
            invariant
                i <= 6,
                items@.len() == i,
            decreases 6 - i,
        {
            items.push(
                Item {
                    typ: ItemType::Unknown(0),
                    price: u32::MAX,
                    mushroom_price: u32::MAX,
                    model_id: 0,
                    class: None,
                    type_specific_val: 0,
                    attributes: [0, 0, 0, 0, 0],
                    gem_slot: None,
                    rune: None,
                    enchantment: None,
                    color: 0,
                    upgrade_count: 0,
                    item_quality: 0,
                    is_washed: false,
                },
            );
            i = i + 1;
        }
        Shop { items }
    }
}

impl Default for GameState {
    fn default() -> (r: Self)
        ensures
            r.wf(),
            r.character.level == 0,
            r.character.name@.len() == 0,
            r.last_fight is None,
            r.guild is None,
            r.fortress is None,
            r.underworld is None,
            r.pets is None,
            r.server_time_diff == 0,
            r.last_request_timestamp == 0,
    {
        GameState {
            character: Character::default(),
            tavern: Tavern::default(),
            arena: Arena::default(),
            last_fight: None,
            shops: [Shop::default(), Shop::default()],
            guild: None,
            specials: TimedSpecials::default(),
            dungeons: Dungeons::default(),
            underworld: None,
            fortress: None,
            pets: None,
            hellevator: HellevatorEvent::default(),
            blacksmith: None,
            witch: None,
            achievements: Achievements::default(),
            idle_game: None,
            pending_unlocks: Vec::new(),
            hall_of_fames: HallOfFames::default(),
            lookup: Lookup::default(),
            mail: Mail::default(),
            last_request_timestamp: 0,
            server_time_diff: 0,
        }
    }
}

impl GameState {
    /// The position of the fight that a header such as `fight4` names in the
    /// last fight (`fight4` is the fourth). The last fight is created where
    /// there is none, and gets enough fights.
    fn fight_slot(&mut self, header_name: &str) -> (r: usize)
        ensures
            final(self).last_fight matches Some(f) && r < f.fights@.len(),
            *final(self) == (GameState { last_fight: final(self).last_fight, ..*old(self) }),
            tracked_same(*old(self), *final(self)),
            final(self).character == old(self).character,
            final(self).guild == old(self).guild,
            final(self).fortress == old(self).fortress,
            final(self).pets == old(self).pets,
            final(self).underworld == old(self).underworld,
            final(self).dungeons == old(self).dungeons,
    {
        let cs = chars_of(header_name);
        let mut start: usize = 0;
        while start < cs.len() && !('0' <= cs[start] && cs[start] <= '9')
            invariant
                start <= cs@.len(),
            decreases cs@.len() - start,
        {
            start = start + 1;
        }
        let (_, digits) = cs.as_slice().split_at(start);
        let number = string_of_chars(digits);
        let id: usize = match crate::misc::parse_u64(number.as_str()) {
            Some(v) => if v == 0 || v > usize::MAX as u64 {
                1
            } else {
                v as usize
            },
            None => 1,
        };
        let mut fight = match self.last_fight.take() {
            Some(f) => f,
            None => Fight::default(),
        };
        while fight.fights.len() < id
            invariant
                id >= 1,
            decreases id - fight.fights@.len(),
        {
            fight.fights.push(SingleFight::default());
        }
        self.last_fight = Some(fight);
        id - 1
    }
}

fn string_of_chars(cs: &[char]) -> (r: String)
    ensures
        r@ == cs@,
{
    crate::misc::string_of(cs)
}

/// Replaces the calendar rewards with the pairs of `data`; a trailing odd
/// value is ignored.
fn parse_calendar(data: &[i64], rewards: &mut Vec<CalendarReward>) -> (r: Result<(), SFError>)
    ensures
        r is Ok,
        final(rewards)@ == calendar_of(data@),
{
    rewards.clear();
    let len = data.len();
    let n = len / 2;
    let mut i: usize = 0;
    while i < n
        invariant
            i <= n,
            len == data@.len(),
            n == data@.len() / 2,
            rewards@.len() == i,
            forall|k: int| 0 <= k < i ==> #[trigger] rewards@[k] == calendar_of(data@)[k],
        decreases n - i,
    {
        assert(2 * i + 2 <= len) by (nonlinear_arith)
            requires
                i < n,
                n == len / 2,
        ;
        let (_, rest) = data.split_at(2 * i);
        let (pair, _) = rest.split_at(2);
        assert(pair@[0] == data@[2 * i] && pair@[1] == data@[2 * i + 1]);
        let reward = CalendarReward::parse(pair)?;
        rewards.push(reward);
        i = i + 1;
    }
    assert(rewards@ =~= calendar_of(data@));
    Ok(())
}

/// The calendar rewards that pairs of values describe; a trailing value is
/// ignored.
pub open spec fn calendar_of(d: Seq<i64>) -> Seq<CalendarReward> {
    Seq::new(
        (d.len() / 2) as nat,
        |i: int| CalendarReward { typ: CalendarReward::spec_typ(d[2 * i]), amount: d[2 * i + 1] },
    )
}

/// The tasks that groups of 4 values describe; trailing values that make
/// no group are ignored.
pub open spec fn tasks_of(d: Seq<i64>) -> Seq<Task> {
    Seq::new(
        (d.len() / 4) as nat,
        |i: int|
            Task {
                typ: TaskType::spec_parse(d[4 * i]),
                current: soft_u64(d[4 * i + 1], 0),
                target: soft_u64(d[4 * i + 2], u64::MAX),
                point_reward: soft_u32(d[4 * i + 3], 0),
            },
    )
}

/// Replaces the tasks with those that groups of 4 values describe; trailing
/// values that make no group are ignored.
fn parse_tasks(data: &[i64], tasks: &mut Vec<Task>) -> (r: Result<(), SFError>)
    ensures
        r is Ok,
        final(tasks)@ == tasks_of(data@),
{
    tasks.clear();
    let len = data.len();
    let n = len / 4;
    let mut i: usize = 0;
    while i < n
        invariant
            i <= n,
            len == data@.len(),
            n == data@.len() / 4,
            tasks@.len() == i,
            forall|k: int| 0 <= k < i ==> #[trigger] tasks@[k] == tasks_of(data@)[k],
        decreases n - i,
    {
        assert(4 * i + 4 <= len) by (nonlinear_arith)
            requires
                i < n,
                n == len / 4,
        ;
        let (_, rest) = data.split_at(4 * i);
        let (group, _) = rest.split_at(4);
        assert(group@[0] == data@[4 * i] && group@[1] == data@[4 * i + 1]);
        assert(group@[2] == data@[4 * i + 2] && group@[3] == data@[4 * i + 3]);
        let task = Task::parse(group)?;
        tasks.push(task);
        i = i + 1;
    }
    assert(tasks@ =~= tasks_of(data@));
    Ok(())
}

/// Sets the reward chests from groups of 5 values, as far as both reach.
fn parse_chests(data: &[i64], chests: &mut [RewardChest; 3]) -> (r: Result<(), SFError>)
    ensures
        r is Ok <==> forall|i: int|
            0 <= i < chest_count(data@) ==> RewardChest::spec_valid(#[trigger] chest_values(data@, i)),
        r is Ok ==> forall|i: int|
            0 <= i < 3 ==> if i < chest_count(data@) {
                chest_read(chest_values(data@, i), #[trigger] final(chests)@[i])
            } else {
                final(chests)@[i] == old(chests)@[i]
            },
{
    let n = data.len() / 5;
    let mut i: usize = 0;
    while i < n && i < 3
        invariant
            i <= n,
            i <= 3,
            n == data@.len() / 5,
            forall|k: int| 0 <= k < i ==> RewardChest::spec_valid(#[trigger] chest_values(data@, k)),
            forall|k: int|
                0 <= k < 3 ==> if k < i {
                    chest_read(chest_values(data@, k), #[trigger] chests@[k])
                } else {
                    chests@[k] == old(chests)@[k]
                },
        decreases 3 - i,
    {
        assert(5 * i + 5 <= data@.len()) by (nonlinear_arith)
            requires
                i < n,
                n == data@.len() / 5,
        ;
        let (_, rest) = data.split_at(5 * i);
        let (group, _) = rest.split_at(5);
        assert(group@ =~= chest_values(data@, i as int));
        let chest = match RewardChest::parse(group) {
            Ok(c) => c,
            Err(e) => return Err(e),
        };
        chests.set(i, chest);
        i = i + 1;
    }
    Ok(())
}

/// The number of reward chests that values in groups of 5 describe: at most
/// three.
pub open spec fn chest_count(d: Seq<i64>) -> int {
    if d.len() / 5 < 3 {
        (d.len() / 5) as int
    } else {
        3
    }
}

/// The 5 values of chest `i`.
pub open spec fn chest_values(d: Seq<i64>, i: int) -> Seq<i64> {
    d.subrange(5 * i, 5 * i + 5)
}

/// Holds where `c` is the chest that the valid values describe.
pub open spec fn chest_read(d: Seq<i64>, c: RewardChest) -> bool {
    &&& c.opened == (d[0] != 0)
    &&& c.required_points == d[1]
    &&& c.rewards@.len() == d[2]
    &&& forall|i: int|
        0 <= i < d[2] ==> #[trigger] c.rewards@[i] == Reward::spec_parse(d.subrange(3 + 2 * i, d.len() as int))
}

/// The dice that the values name; `None` where one names no dice.
fn parse_dice(data: &[u32]) -> (r: Option<Vec<DiceType>>)
    ensures
        match dice_of(data@) {
            Some(d) => r matches Some(v) && v@ == d,
            None => r is None,
        },
{
    let mut out: Vec<DiceType> = Vec::new();
    let mut i: usize = 0;
    while i < data.len()
        invariant
            i <= data@.len(),
            out@.len() == i,
            forall|k: int| 0 <= k < i ==> dice_ok(#[trigger] data@[k]),
            forall|k: int|
                0 <= k < i ==> #[trigger] out@[k] == DiceType::spec_from_i64(data@[k] as i64)->0,
        decreases data@.len() - i,
    {
        if data[i] > 255 {
            assert(!dice_ok(data@[i as int]));
            return None;
        }
        match DiceType::from_i64(data[i] as i64) {
            Some(d) => out.push(d),
            None => {
                assert(!dice_ok(data@[i as int]));
                return None;
            },
        }
        i = i + 1;
    }
    assert(out@ =~= Seq::new(data@.len(), |k: int| DiceType::spec_from_i64(data@[k] as i64)->0));
    Some(out)
}

/// Holds of a value that names a dice.
pub open spec fn dice_ok(v: u32) -> bool {
    v <= 255 && DiceType::spec_from_i64(v as i64) is Some
}

/// The dice that the values name; `None` where one names no dice.
pub open spec fn dice_of(d: Seq<u32>) -> Option<Seq<DiceType>> {
    if forall|k: int| 0 <= k < d.len() ==> dice_ok(#[trigger] d[k]) {
        Some(Seq::new(d.len(), |k: int| DiceType::spec_from_i64(d[k] as i64)->0))
    } else {
        None
    }
}

/// The values of a `u32` list as `i64` values.
fn widen(data: &[u32]) -> (r: Vec<i64>)
    ensures
        r@.len() == data@.len(),
        forall|i: int| 0 <= i < data@.len() ==> r@[i] == data@[i] as i64,
{
    let mut out: Vec<i64> = Vec::new();
    let mut i: usize = 0;
    while i < data.len()
        invariant
            i <= data@.len(),
            out@.len() == i,
            forall|k: int| 0 <= k < i ==> out@[k] == data@[k] as i64,
        decreases data@.len() - i,
    {
        out.push(data[i] as i64);
        i = i + 1;
    }
    out
}

/// The keys about the character, the tavern and the timed specials that are read together.
pub open spec fn character_keys(k: Seq<char>) -> bool {
    k == "toilettfull"@ || k == "ownplayersave"@ || k == "wheelresult"@ || k == "gamblegoldvalue"@ || k == "gamblecoinvalue"@ || k == "dailytaskrewardpreview"@ || k == "eventtaskrewardpreview"@ || k == "dummies"@ || k == "achievement"@ || k == "idle"@ || k == "resources"@ || k == "smith"@ || k == "gtsave"@ || k == "expeditionevent"@ || k == "expeditions"@ || k == "expeditionmonster"@ || k == "expeditionhalftime"@ || k == "expeditionstate"@ || k == "expeditioncrossroad"@ || k == "dicereward"@
}

/// The keys about the own guild.
pub open spec fn guild_keys(k: Seq<char>) -> bool {
    k == "owngroupname"@ || k == "owngrouprank"@ || k == "owngroupsave"@ || k == "owngroupmember"@ || k == "owngrouppotion"@ || k == "owngroupdescription"@ || k == "owngroupknights"@ || k == "groupskillprice"@ || k == "chathistory"@ || k == "chatwhisper"@
}

/// The keys about the fortress.
pub open spec fn fortress_keys(k: Seq<char>) -> bool {
    k == "unitprice"@ || k == "upgradeprice"@ || k == "unitlevel"@ || k == "fortressprice"@ || k == "stoneperhournextlevel"@ || k == "woodperhournextlevel"@ || k == "fortresspricereroll"@ || k == "fortresswalllevel"@ || k == "maxupgradelevel"@ || k == "fortressGroupPrice"@
}

/// The keys about the pets.
pub open spec fn pet_keys(k: Seq<char>) -> bool {
    k == "maxpetlevel"@ || k == "ownpetsstats"@ || k == "ownpets"@ || k == "petsdefensetype"@ || k == "petsrank"@
}

/// The keys about the guild, the fortress, the underworld, the dungeons and
/// the pets.
pub open spec fn world_keys(k: Seq<char>) -> bool {
    guild_keys(k) || fortress_keys(k) || pet_keys(k) || k == "witch"@ || k == "underworldupgradeprice"@ || k == "underworldprice"@ || k == "owntower"@ || k == "dungeonprogresslight"@ || k == "dungeonprogressshadow"@ || k == "portalprogress"@ || k == "singleportalenemylevel"@
}

/// Whether the text `k` begins with `lit`.
pub open spec fn text_starts(k: Seq<char>, lit: Seq<char>) -> bool {
    lit.len() <= k.len() && k.take(lit.len() as int) == lit
}

/// The keys about fights: the result, the groups, the version, and the
/// winner, the header and the rounds of a numbered fight (`fight4`).
pub open spec fn fight_key(k: Seq<char>) -> bool {
    k == "fightresult"@ || k == "fightgroups"@ || k == "fightversion"@ || text_starts(
        k,
        "winnerid"@,
    ) || text_starts(k, "fightheader"@) || (text_starts(k, "fight"@)
        && vstd::utf8::encode_utf8(k).len() as usize <= 7)
}

/// The keys that the parts of the state other than the single fields are
/// read from.
pub open spec fn other_keys(key: &str) -> bool {
    character_keys(key@) || world_keys(key@) || key@ == "ranklistfortress"@ || key@
        == "Ranklistfortress"@ || key@ == "otherplayer"@ || other_player_value_keys(key@)
        || other_guild_value_keys(key@) || fight_key(key@)
}

proof fn lemma_character_keys_distinct()
    ensures
        "toilettfull"@ != "ownplayersave"@,
        "toilettfull"@ != "gamblegoldvalue"@,
        "toilettfull"@ != "gamblecoinvalue"@,
        "toilettfull"@ != "expeditions"@,
        "ownplayersave"@ != "wheelresult"@,
        "ownplayersave"@ != "gamblegoldvalue"@,
        "ownplayersave"@ != "gamblecoinvalue"@,
        "ownplayersave"@ != "dailytaskrewardpreview"@,
        "ownplayersave"@ != "eventtaskrewardpreview"@,
        "ownplayersave"@ != "dummies"@,
        "ownplayersave"@ != "achievement"@,
        "ownplayersave"@ != "idle"@,
        "ownplayersave"@ != "resources"@,
        "ownplayersave"@ != "smith"@,
        "ownplayersave"@ != "gtsave"@,
        "ownplayersave"@ != "expeditionevent"@,
        "ownplayersave"@ != "expeditions"@,
        "ownplayersave"@ != "expeditionmonster"@,
        "ownplayersave"@ != "expeditionhalftime"@,
        "ownplayersave"@ != "expeditionstate"@,
        "ownplayersave"@ != "expeditioncrossroad"@,
        "ownplayersave"@ != "dicereward"@,
        "wheelresult"@ != "gamblegoldvalue"@,
        "wheelresult"@ != "gamblecoinvalue"@,
        "wheelresult"@ != "expeditions"@,
        "gamblegoldvalue"@ != "gamblecoinvalue"@,
        "gamblegoldvalue"@ != "dailytaskrewardpreview"@,
        "gamblegoldvalue"@ != "eventtaskrewardpreview"@,
        "gamblegoldvalue"@ != "dummies"@,
        "gamblegoldvalue"@ != "achievement"@,
        "gamblegoldvalue"@ != "idle"@,
        "gamblegoldvalue"@ != "resources"@,
        "gamblegoldvalue"@ != "smith"@,
        "gamblegoldvalue"@ != "gtsave"@,
        "gamblegoldvalue"@ != "expeditionevent"@,
        "gamblegoldvalue"@ != "expeditions"@,
        "gamblegoldvalue"@ != "expeditionmonster"@,
        "gamblegoldvalue"@ != "expeditionhalftime"@,
        "gamblegoldvalue"@ != "expeditionstate"@,
        "gamblegoldvalue"@ != "expeditioncrossroad"@,
        "gamblegoldvalue"@ != "dicereward"@,
        "gamblecoinvalue"@ != "dailytaskrewardpreview"@,
        "gamblecoinvalue"@ != "eventtaskrewardpreview"@,
        "gamblecoinvalue"@ != "dummies"@,
        "gamblecoinvalue"@ != "achievement"@,
        "gamblecoinvalue"@ != "idle"@,
        "gamblecoinvalue"@ != "resources"@,
        "gamblecoinvalue"@ != "smith"@,
        "gamblecoinvalue"@ != "gtsave"@,
        "gamblecoinvalue"@ != "expeditionevent"@,
        "gamblecoinvalue"@ != "expeditions"@,
        "gamblecoinvalue"@ != "expeditionmonster"@,
        "gamblecoinvalue"@ != "expeditionhalftime"@,
        "gamblecoinvalue"@ != "expeditionstate"@,
        "gamblecoinvalue"@ != "expeditioncrossroad"@,
        "gamblecoinvalue"@ != "dicereward"@,
        "dailytaskrewardpreview"@ != "expeditions"@,
        "eventtaskrewardpreview"@ != "expeditions"@,
        "dummies"@ != "expeditions"@,
        "achievement"@ != "expeditions"@,
        "idle"@ != "expeditions"@,
        "resources"@ != "expeditions"@,
        "smith"@ != "expeditions"@,
        "gtsave"@ != "expeditions"@,
        "expeditionevent"@ != "expeditions"@,
        "expeditions"@ != "expeditionmonster"@,
        "expeditions"@ != "expeditionhalftime"@,
        "expeditions"@ != "expeditionstate"@,
        "expeditions"@ != "expeditioncrossroad"@,
        "expeditions"@ != "dicereward"@,
        "toilettfull"@ != "resources"@,
        "wheelresult"@ != "resources"@,
        "dailytaskrewardpreview"@ != "resources"@,
        "eventtaskrewardpreview"@ != "resources"@,
        "dummies"@ != "resources"@,
        "achievement"@ != "resources"@,
        "idle"@ != "resources"@,
        "smith"@ != "resources"@,
        "gtsave"@ != "resources"@,
        "expeditionevent"@ != "resources"@,
        "expeditionmonster"@ != "resources"@,
        "expeditionhalftime"@ != "resources"@,
        "expeditionstate"@ != "resources"@,
        "expeditioncrossroad"@ != "resources"@,
        "dicereward"@ != "resources"@,
        "wheelresult"@ != "toilettfull"@,
        "dailytaskrewardpreview"@ != "toilettfull"@,
        "eventtaskrewardpreview"@ != "toilettfull"@,
        "dummies"@ != "toilettfull"@,
        "achievement"@ != "toilettfull"@,
        "idle"@ != "toilettfull"@,
        "smith"@ != "toilettfull"@,
        "gtsave"@ != "toilettfull"@,
        "expeditionevent"@ != "toilettfull"@,
        "expeditionmonster"@ != "toilettfull"@,
        "expeditionhalftime"@ != "toilettfull"@,
        "expeditionstate"@ != "toilettfull"@,
        "expeditioncrossroad"@ != "toilettfull"@,
        "dicereward"@ != "toilettfull"@,
        "wheelresult"@ != "idle"@,
        "dailytaskrewardpreview"@ != "idle"@,
        "eventtaskrewardpreview"@ != "idle"@,
        "dummies"@ != "idle"@,
        "achievement"@ != "idle"@,
        "smith"@ != "idle"@,
        "gtsave"@ != "idle"@,
        "expeditionevent"@ != "idle"@,
        "expeditionmonster"@ != "idle"@,
        "expeditionhalftime"@ != "idle"@,
        "expeditionstate"@ != "idle"@,
        "expeditioncrossroad"@ != "idle"@,
        "dicereward"@ != "idle"@,
        "wheelresult"@ != "smith"@,
        "dailytaskrewardpreview"@ != "smith"@,
        "eventtaskrewardpreview"@ != "smith"@,
        "dummies"@ != "smith"@,
        "achievement"@ != "smith"@,
        "gtsave"@ != "smith"@,
        "expeditionevent"@ != "smith"@,
        "expeditionmonster"@ != "smith"@,
        "expeditionhalftime"@ != "smith"@,
        "expeditionstate"@ != "smith"@,
        "expeditioncrossroad"@ != "smith"@,
        "dicereward"@ != "smith"@,
        "wheelresult"@ != "expeditionevent"@,
        "dailytaskrewardpreview"@ != "expeditionevent"@,
        "eventtaskrewardpreview"@ != "expeditionevent"@,
        "dummies"@ != "expeditionevent"@,
        "achievement"@ != "expeditionevent"@,
        "gtsave"@ != "expeditionevent"@,
        "expeditionmonster"@ != "expeditionevent"@,
        "expeditionhalftime"@ != "expeditionevent"@,
        "expeditionstate"@ != "expeditionevent"@,
        "expeditioncrossroad"@ != "expeditionevent"@,
        "dicereward"@ != "expeditionevent"@,
        "wheelresult"@ != "dicereward"@,
        "dailytaskrewardpreview"@ != "dicereward"@,
        "eventtaskrewardpreview"@ != "dicereward"@,
        "dummies"@ != "dicereward"@,
        "achievement"@ != "dicereward"@,
        "gtsave"@ != "dicereward"@,
        "expeditionmonster"@ != "dicereward"@,
        "expeditionhalftime"@ != "dicereward"@,
        "expeditionstate"@ != "dicereward"@,
        "expeditioncrossroad"@ != "dicereward"@,
        "wheelresult"@ != "dummies"@,
        "dailytaskrewardpreview"@ != "dummies"@,
        "eventtaskrewardpreview"@ != "dummies"@,
        "achievement"@ != "dummies"@,
        "gtsave"@ != "dummies"@,
        "expeditionmonster"@ != "dummies"@,
        "expeditionhalftime"@ != "dummies"@,
        "expeditionstate"@ != "dummies"@,
        "expeditioncrossroad"@ != "dummies"@,
        "dailytaskrewardpreview"@ != "wheelresult"@,
        "eventtaskrewardpreview"@ != "wheelresult"@,
        "achievement"@ != "wheelresult"@,
        "gtsave"@ != "wheelresult"@,
        "expeditionmonster"@ != "wheelresult"@,
        "expeditionhalftime"@ != "wheelresult"@,
        "expeditionstate"@ != "wheelresult"@,
        "expeditioncrossroad"@ != "wheelresult"@,
        "dailytaskrewardpreview"@ != "gtsave"@,
        "eventtaskrewardpreview"@ != "gtsave"@,
        "achievement"@ != "gtsave"@,
        "expeditionmonster"@ != "gtsave"@,
        "expeditionhalftime"@ != "gtsave"@,
        "expeditionstate"@ != "gtsave"@,
        "expeditioncrossroad"@ != "gtsave"@,
        "dailytaskrewardpreview"@ != "expeditionmonster"@,
        "eventtaskrewardpreview"@ != "expeditionmonster"@,
        "achievement"@ != "expeditionmonster"@,
        "expeditionhalftime"@ != "expeditionmonster"@,
        "expeditionstate"@ != "expeditionmonster"@,
        "expeditioncrossroad"@ != "expeditionmonster"@,
        "dailytaskrewardpreview"@ != "expeditionhalftime"@,
        "eventtaskrewardpreview"@ != "expeditionhalftime"@,
        "achievement"@ != "expeditionhalftime"@,
        "expeditionstate"@ != "expeditionhalftime"@,
        "expeditioncrossroad"@ != "expeditionhalftime"@,
        "dailytaskrewardpreview"@ != "expeditionstate"@,
        "eventtaskrewardpreview"@ != "expeditionstate"@,
        "achievement"@ != "expeditionstate"@,
        "expeditioncrossroad"@ != "expeditionstate"@,
{
    reveal_strlit("toilettfull");
    reveal_strlit("ownplayersave");
    reveal_strlit("wheelresult");
    reveal_strlit("gamblegoldvalue");
    reveal_strlit("gamblecoinvalue");
    reveal_strlit("dailytaskrewardpreview");
    reveal_strlit("eventtaskrewardpreview");
    reveal_strlit("dummies");
    reveal_strlit("achievement");
    reveal_strlit("idle");
    reveal_strlit("resources");
    reveal_strlit("smith");
    reveal_strlit("gtsave");
    reveal_strlit("expeditionevent");
    reveal_strlit("expeditions");
    reveal_strlit("expeditionmonster");
    reveal_strlit("expeditionhalftime");
    reveal_strlit("expeditionstate");
    reveal_strlit("expeditioncrossroad");
    reveal_strlit("dicereward");
    assert("toilettfull"@.len() != "ownplayersave"@.len());
    assert("toilettfull"@.len() != "gamblegoldvalue"@.len());
    assert("toilettfull"@.len() != "gamblecoinvalue"@.len());
    assert("toilettfull"@[0] != "expeditions"@[0]);
    assert("ownplayersave"@.len() != "wheelresult"@.len());
    assert("ownplayersave"@.len() != "gamblegoldvalue"@.len());
    assert("ownplayersave"@.len() != "gamblecoinvalue"@.len());
    assert("ownplayersave"@.len() != "dailytaskrewardpreview"@.len());
    assert("ownplayersave"@.len() != "eventtaskrewardpreview"@.len());
    assert("ownplayersave"@.len() != "dummies"@.len());
    assert("ownplayersave"@.len() != "achievement"@.len());
    assert("ownplayersave"@.len() != "idle"@.len());
    assert("ownplayersave"@.len() != "resources"@.len());
    assert("ownplayersave"@.len() != "smith"@.len());
    assert("ownplayersave"@.len() != "gtsave"@.len());
    assert("ownplayersave"@.len() != "expeditionevent"@.len());
    assert("ownplayersave"@.len() != "expeditions"@.len());
    assert("ownplayersave"@.len() != "expeditionmonster"@.len());
    assert("ownplayersave"@.len() != "expeditionhalftime"@.len());
    assert("ownplayersave"@.len() != "expeditionstate"@.len());
    assert("ownplayersave"@.len() != "expeditioncrossroad"@.len());
    assert("ownplayersave"@.len() != "dicereward"@.len());
    assert("wheelresult"@.len() != "gamblegoldvalue"@.len());
    assert("wheelresult"@.len() != "gamblecoinvalue"@.len());
    assert("wheelresult"@[0] != "expeditions"@[0]);
    assert("gamblegoldvalue"@[6] != "gamblecoinvalue"@[6]);
    assert("gamblegoldvalue"@.len() != "dailytaskrewardpreview"@.len());
    assert("gamblegoldvalue"@.len() != "eventtaskrewardpreview"@.len());
    assert("gamblegoldvalue"@.len() != "dummies"@.len());
    assert("gamblegoldvalue"@.len() != "achievement"@.len());
    assert("gamblegoldvalue"@.len() != "idle"@.len());
    assert("gamblegoldvalue"@.len() != "resources"@.len());
    assert("gamblegoldvalue"@.len() != "smith"@.len());
    assert("gamblegoldvalue"@.len() != "gtsave"@.len());
    assert("gamblegoldvalue"@[0] != "expeditionevent"@[0]);
    assert("gamblegoldvalue"@.len() != "expeditions"@.len());
    assert("gamblegoldvalue"@.len() != "expeditionmonster"@.len());
    assert("gamblegoldvalue"@.len() != "expeditionhalftime"@.len());
    assert("gamblegoldvalue"@[0] != "expeditionstate"@[0]);
    assert("gamblegoldvalue"@.len() != "expeditioncrossroad"@.len());
    assert("gamblegoldvalue"@.len() != "dicereward"@.len());
    assert("gamblecoinvalue"@.len() != "dailytaskrewardpreview"@.len());
    assert("gamblecoinvalue"@.len() != "eventtaskrewardpreview"@.len());
    assert("gamblecoinvalue"@.len() != "dummies"@.len());
    assert("gamblecoinvalue"@.len() != "achievement"@.len());
    assert("gamblecoinvalue"@.len() != "idle"@.len());
    assert("gamblecoinvalue"@.len() != "resources"@.len());
    assert("gamblecoinvalue"@.len() != "smith"@.len());
    assert("gamblecoinvalue"@.len() != "gtsave"@.len());
    assert("gamblecoinvalue"@[0] != "expeditionevent"@[0]);
    assert("gamblecoinvalue"@.len() != "expeditions"@.len());
    assert("gamblecoinvalue"@.len() != "expeditionmonster"@.len());
    assert("gamblecoinvalue"@.len() != "expeditionhalftime"@.len());
    assert("gamblecoinvalue"@[0] != "expeditionstate"@[0]);
    assert("gamblecoinvalue"@.len() != "expeditioncrossroad"@.len());
    assert("gamblecoinvalue"@.len() != "dicereward"@.len());
    assert("dailytaskrewardpreview"@.len() != "expeditions"@.len());
    assert("eventtaskrewardpreview"@.len() != "expeditions"@.len());
    assert("dummies"@.len() != "expeditions"@.len());
    assert("achievement"@[0] != "expeditions"@[0]);
    assert("idle"@.len() != "expeditions"@.len());
    assert("resources"@.len() != "expeditions"@.len());
    assert("smith"@.len() != "expeditions"@.len());
    assert("gtsave"@.len() != "expeditions"@.len());
    assert("expeditionevent"@.len() != "expeditions"@.len());
    assert("expeditions"@.len() != "expeditionmonster"@.len());
    assert("expeditions"@.len() != "expeditionhalftime"@.len());
    assert("expeditions"@.len() != "expeditionstate"@.len());
    assert("expeditions"@.len() != "expeditioncrossroad"@.len());
    assert("expeditions"@.len() != "dicereward"@.len());
    assert("toilettfull"@.len() != "resources"@.len());
    assert("wheelresult"@.len() != "resources"@.len());
    assert("dailytaskrewardpreview"@.len() != "resources"@.len());
    assert("eventtaskrewardpreview"@.len() != "resources"@.len());
    assert("dummies"@.len() != "resources"@.len());
    assert("achievement"@.len() != "resources"@.len());
    assert("idle"@.len() != "resources"@.len());
    assert("smith"@.len() != "resources"@.len());
    assert("gtsave"@.len() != "resources"@.len());
    assert("expeditionevent"@.len() != "resources"@.len());
    assert("expeditionmonster"@.len() != "resources"@.len());
    assert("expeditionhalftime"@.len() != "resources"@.len());
    assert("expeditionstate"@.len() != "resources"@.len());
    assert("expeditioncrossroad"@.len() != "resources"@.len());
    assert("dicereward"@.len() != "resources"@.len());
    assert("wheelresult"@[0] != "toilettfull"@[0]);
    assert("dailytaskrewardpreview"@.len() != "toilettfull"@.len());
    assert("eventtaskrewardpreview"@.len() != "toilettfull"@.len());
    assert("dummies"@.len() != "toilettfull"@.len());
    assert("achievement"@[0] != "toilettfull"@[0]);
    assert("idle"@.len() != "toilettfull"@.len());
    assert("smith"@.len() != "toilettfull"@.len());
    assert("gtsave"@.len() != "toilettfull"@.len());
    assert("expeditionevent"@.len() != "toilettfull"@.len());
    assert("expeditionmonster"@.len() != "toilettfull"@.len());
    assert("expeditionhalftime"@.len() != "toilettfull"@.len());
    assert("expeditionstate"@.len() != "toilettfull"@.len());
    assert("expeditioncrossroad"@.len() != "toilettfull"@.len());
    assert("dicereward"@.len() != "toilettfull"@.len());
    assert("wheelresult"@.len() != "idle"@.len());
    assert("dailytaskrewardpreview"@.len() != "idle"@.len());
    assert("eventtaskrewardpreview"@.len() != "idle"@.len());
    assert("dummies"@.len() != "idle"@.len());
    assert("achievement"@.len() != "idle"@.len());
    assert("smith"@.len() != "idle"@.len());
    assert("gtsave"@.len() != "idle"@.len());
    assert("expeditionevent"@.len() != "idle"@.len());
    assert("expeditionmonster"@.len() != "idle"@.len());
    assert("expeditionhalftime"@.len() != "idle"@.len());
    assert("expeditionstate"@.len() != "idle"@.len());
    assert("expeditioncrossroad"@.len() != "idle"@.len());
    assert("dicereward"@.len() != "idle"@.len());
    assert("wheelresult"@.len() != "smith"@.len());
    assert("dailytaskrewardpreview"@.len() != "smith"@.len());
    assert("eventtaskrewardpreview"@.len() != "smith"@.len());
    assert("dummies"@.len() != "smith"@.len());
    assert("achievement"@.len() != "smith"@.len());
    assert("gtsave"@.len() != "smith"@.len());
    assert("expeditionevent"@.len() != "smith"@.len());
    assert("expeditionmonster"@.len() != "smith"@.len());
    assert("expeditionhalftime"@.len() != "smith"@.len());
    assert("expeditionstate"@.len() != "smith"@.len());
    assert("expeditioncrossroad"@.len() != "smith"@.len());
    assert("dicereward"@.len() != "smith"@.len());
    assert("wheelresult"@.len() != "expeditionevent"@.len());
    assert("dailytaskrewardpreview"@.len() != "expeditionevent"@.len());
    assert("eventtaskrewardpreview"@.len() != "expeditionevent"@.len());
    assert("dummies"@.len() != "expeditionevent"@.len());
    assert("achievement"@.len() != "expeditionevent"@.len());
    assert("gtsave"@.len() != "expeditionevent"@.len());
    assert("expeditionmonster"@.len() != "expeditionevent"@.len());
    assert("expeditionhalftime"@.len() != "expeditionevent"@.len());
    assert("expeditionstate"@[10] != "expeditionevent"@[10]);
    assert("expeditioncrossroad"@.len() != "expeditionevent"@.len());
    assert("dicereward"@.len() != "expeditionevent"@.len());
    assert("wheelresult"@.len() != "dicereward"@.len());
    assert("dailytaskrewardpreview"@.len() != "dicereward"@.len());
    assert("eventtaskrewardpreview"@.len() != "dicereward"@.len());
    assert("dummies"@.len() != "dicereward"@.len());
    assert("achievement"@.len() != "dicereward"@.len());
    assert("gtsave"@.len() != "dicereward"@.len());
    assert("expeditionmonster"@.len() != "dicereward"@.len());
    assert("expeditionhalftime"@.len() != "dicereward"@.len());
    assert("expeditionstate"@.len() != "dicereward"@.len());
    assert("expeditioncrossroad"@.len() != "dicereward"@.len());
    assert("wheelresult"@.len() != "dummies"@.len());
    assert("dailytaskrewardpreview"@.len() != "dummies"@.len());
    assert("eventtaskrewardpreview"@.len() != "dummies"@.len());
    assert("achievement"@.len() != "dummies"@.len());
    assert("gtsave"@.len() != "dummies"@.len());
    assert("expeditionmonster"@.len() != "dummies"@.len());
    assert("expeditionhalftime"@.len() != "dummies"@.len());
    assert("expeditionstate"@.len() != "dummies"@.len());
    assert("expeditioncrossroad"@.len() != "dummies"@.len());
    assert("dailytaskrewardpreview"@.len() != "wheelresult"@.len());
    assert("eventtaskrewardpreview"@.len() != "wheelresult"@.len());
    assert("achievement"@[0] != "wheelresult"@[0]);
    assert("gtsave"@.len() != "wheelresult"@.len());
    assert("expeditionmonster"@.len() != "wheelresult"@.len());
    assert("expeditionhalftime"@.len() != "wheelresult"@.len());
    assert("expeditionstate"@.len() != "wheelresult"@.len());
    assert("expeditioncrossroad"@.len() != "wheelresult"@.len());
    assert("dailytaskrewardpreview"@.len() != "gtsave"@.len());
    assert("eventtaskrewardpreview"@.len() != "gtsave"@.len());
    assert("achievement"@.len() != "gtsave"@.len());
    assert("expeditionmonster"@.len() != "gtsave"@.len());
    assert("expeditionhalftime"@.len() != "gtsave"@.len());
    assert("expeditionstate"@.len() != "gtsave"@.len());
    assert("expeditioncrossroad"@.len() != "gtsave"@.len());
    assert("dailytaskrewardpreview"@.len() != "expeditionmonster"@.len());
    assert("eventtaskrewardpreview"@.len() != "expeditionmonster"@.len());
    assert("achievement"@.len() != "expeditionmonster"@.len());
    assert("expeditionhalftime"@.len() != "expeditionmonster"@.len());
    assert("expeditionstate"@.len() != "expeditionmonster"@.len());
    assert("expeditioncrossroad"@.len() != "expeditionmonster"@.len());
    assert("dailytaskrewardpreview"@.len() != "expeditionhalftime"@.len());
    assert("eventtaskrewardpreview"@.len() != "expeditionhalftime"@.len());
    assert("achievement"@.len() != "expeditionhalftime"@.len());
    assert("expeditionstate"@.len() != "expeditionhalftime"@.len());
    assert("expeditioncrossroad"@.len() != "expeditionhalftime"@.len());
    assert("dailytaskrewardpreview"@.len() != "expeditionstate"@.len());
    assert("eventtaskrewardpreview"@.len() != "expeditionstate"@.len());
    assert("achievement"@.len() != "expeditionstate"@.len());
    assert("expeditioncrossroad"@.len() != "expeditionstate"@.len());
}

proof fn lemma_world_keys_distinct()
    ensures
        "owngroupname"@ != "unitprice"@,
        "owngroupname"@ != "upgradeprice"@,
        "owngroupname"@ != "unitlevel"@,
        "owngroupname"@ != "fortressprice"@,
        "owngroupname"@ != "stoneperhournextlevel"@,
        "owngroupname"@ != "woodperhournextlevel"@,
        "owngroupname"@ != "fortresspricereroll"@,
        "owngroupname"@ != "fortresswalllevel"@,
        "owngroupname"@ != "maxupgradelevel"@,
        "owngroupname"@ != "fortressGroupPrice"@,
        "owngroupname"@ != "maxpetlevel"@,
        "owngroupname"@ != "ownpetsstats"@,
        "owngroupname"@ != "ownpets"@,
        "owngroupname"@ != "petsdefensetype"@,
        "owngroupname"@ != "petsrank"@,
        "owngroupname"@ != "witch"@,
        "owngroupname"@ != "underworldupgradeprice"@,
        "owngroupname"@ != "underworldprice"@,
        "owngroupname"@ != "owntower"@,
        "owngroupname"@ != "dungeonprogresslight"@,
        "owngroupname"@ != "dungeonprogressshadow"@,
        "owngroupname"@ != "portalprogress"@,
        "owngroupname"@ != "singleportalenemylevel"@,
        "owngrouprank"@ != "unitprice"@,
        "owngrouprank"@ != "upgradeprice"@,
        "owngrouprank"@ != "unitlevel"@,
        "owngrouprank"@ != "fortressprice"@,
        "owngrouprank"@ != "stoneperhournextlevel"@,
        "owngrouprank"@ != "woodperhournextlevel"@,
        "owngrouprank"@ != "fortresspricereroll"@,
        "owngrouprank"@ != "fortresswalllevel"@,
        "owngrouprank"@ != "maxupgradelevel"@,
        "owngrouprank"@ != "fortressGroupPrice"@,
        "owngrouprank"@ != "maxpetlevel"@,
        "owngrouprank"@ != "ownpetsstats"@,
        "owngrouprank"@ != "ownpets"@,
        "owngrouprank"@ != "petsdefensetype"@,
        "owngrouprank"@ != "petsrank"@,
        "owngrouprank"@ != "witch"@,
        "owngrouprank"@ != "underworldupgradeprice"@,
        "owngrouprank"@ != "underworldprice"@,
        "owngrouprank"@ != "owntower"@,
        "owngrouprank"@ != "dungeonprogresslight"@,
        "owngrouprank"@ != "dungeonprogressshadow"@,
        "owngrouprank"@ != "portalprogress"@,
        "owngrouprank"@ != "singleportalenemylevel"@,
        "owngroupsave"@ != "unitprice"@,
        "owngroupsave"@ != "upgradeprice"@,
        "owngroupsave"@ != "unitlevel"@,
        "owngroupsave"@ != "fortressprice"@,
        "owngroupsave"@ != "stoneperhournextlevel"@,
        "owngroupsave"@ != "woodperhournextlevel"@,
        "owngroupsave"@ != "fortresspricereroll"@,
        "owngroupsave"@ != "fortresswalllevel"@,
        "owngroupsave"@ != "maxupgradelevel"@,
        "owngroupsave"@ != "fortressGroupPrice"@,
        "owngroupsave"@ != "maxpetlevel"@,
        "owngroupsave"@ != "ownpetsstats"@,
        "owngroupsave"@ != "ownpets"@,
        "owngroupsave"@ != "petsdefensetype"@,
        "owngroupsave"@ != "petsrank"@,
        "owngroupsave"@ != "witch"@,
        "owngroupsave"@ != "underworldupgradeprice"@,
        "owngroupsave"@ != "underworldprice"@,
        "owngroupsave"@ != "owntower"@,
        "owngroupsave"@ != "dungeonprogresslight"@,
        "owngroupsave"@ != "dungeonprogressshadow"@,
        "owngroupsave"@ != "portalprogress"@,
        "owngroupsave"@ != "singleportalenemylevel"@,
        "owngroupmember"@ != "unitprice"@,
        "owngroupmember"@ != "upgradeprice"@,
        "owngroupmember"@ != "unitlevel"@,
        "owngroupmember"@ != "fortressprice"@,
        "owngroupmember"@ != "stoneperhournextlevel"@,
        "owngroupmember"@ != "woodperhournextlevel"@,
        "owngroupmember"@ != "fortresspricereroll"@,
        "owngroupmember"@ != "fortresswalllevel"@,
        "owngroupmember"@ != "maxupgradelevel"@,
        "owngroupmember"@ != "fortressGroupPrice"@,
        "owngroupmember"@ != "maxpetlevel"@,
        "owngroupmember"@ != "ownpetsstats"@,
        "owngroupmember"@ != "ownpets"@,
        "owngroupmember"@ != "petsdefensetype"@,
        "owngroupmember"@ != "petsrank"@,
        "owngroupmember"@ != "witch"@,
        "owngroupmember"@ != "underworldupgradeprice"@,
        "owngroupmember"@ != "underworldprice"@,
        "owngroupmember"@ != "owntower"@,
        "owngroupmember"@ != "dungeonprogresslight"@,
        "owngroupmember"@ != "dungeonprogressshadow"@,
        "owngroupmember"@ != "portalprogress"@,
        "owngroupmember"@ != "singleportalenemylevel"@,
        "owngrouppotion"@ != "unitprice"@,
        "owngrouppotion"@ != "upgradeprice"@,
        "owngrouppotion"@ != "unitlevel"@,
        "owngrouppotion"@ != "fortressprice"@,
        "owngrouppotion"@ != "stoneperhournextlevel"@,
        "owngrouppotion"@ != "woodperhournextlevel"@,
        "owngrouppotion"@ != "fortresspricereroll"@,
        "owngrouppotion"@ != "fortresswalllevel"@,
        "owngrouppotion"@ != "maxupgradelevel"@,
        "owngrouppotion"@ != "fortressGroupPrice"@,
        "owngrouppotion"@ != "maxpetlevel"@,
        "owngrouppotion"@ != "ownpetsstats"@,
        "owngrouppotion"@ != "ownpets"@,
        "owngrouppotion"@ != "petsdefensetype"@,
        "owngrouppotion"@ != "petsrank"@,
        "owngrouppotion"@ != "witch"@,
        "owngrouppotion"@ != "underworldupgradeprice"@,
        "owngrouppotion"@ != "underworldprice"@,
        "owngrouppotion"@ != "owntower"@,
        "owngrouppotion"@ != "dungeonprogresslight"@,
        "owngrouppotion"@ != "dungeonprogressshadow"@,
        "owngrouppotion"@ != "portalprogress"@,
        "owngrouppotion"@ != "singleportalenemylevel"@,
        "owngroupdescription"@ != "unitprice"@,
        "owngroupdescription"@ != "upgradeprice"@,
        "owngroupdescription"@ != "unitlevel"@,
        "owngroupdescription"@ != "fortressprice"@,
        "owngroupdescription"@ != "stoneperhournextlevel"@,
        "owngroupdescription"@ != "woodperhournextlevel"@,
        "owngroupdescription"@ != "fortresspricereroll"@,
        "owngroupdescription"@ != "fortresswalllevel"@,
        "owngroupdescription"@ != "maxupgradelevel"@,
        "owngroupdescription"@ != "fortressGroupPrice"@,
        "owngroupdescription"@ != "maxpetlevel"@,
        "owngroupdescription"@ != "ownpetsstats"@,
        "owngroupdescription"@ != "ownpets"@,
        "owngroupdescription"@ != "petsdefensetype"@,
        "owngroupdescription"@ != "petsrank"@,
        "owngroupdescription"@ != "witch"@,
        "owngroupdescription"@ != "underworldupgradeprice"@,
        "owngroupdescription"@ != "underworldprice"@,
        "owngroupdescription"@ != "owntower"@,
        "owngroupdescription"@ != "dungeonprogresslight"@,
        "owngroupdescription"@ != "dungeonprogressshadow"@,
        "owngroupdescription"@ != "portalprogress"@,
        "owngroupdescription"@ != "singleportalenemylevel"@,
        "owngroupknights"@ != "unitprice"@,
        "owngroupknights"@ != "upgradeprice"@,
        "owngroupknights"@ != "unitlevel"@,
        "owngroupknights"@ != "fortressprice"@,
        "owngroupknights"@ != "stoneperhournextlevel"@,
        "owngroupknights"@ != "woodperhournextlevel"@,
        "owngroupknights"@ != "fortresspricereroll"@,
        "owngroupknights"@ != "fortresswalllevel"@,
        "owngroupknights"@ != "maxupgradelevel"@,
        "owngroupknights"@ != "fortressGroupPrice"@,
        "owngroupknights"@ != "maxpetlevel"@,
        "owngroupknights"@ != "ownpetsstats"@,
        "owngroupknights"@ != "ownpets"@,
        "owngroupknights"@ != "petsdefensetype"@,
        "owngroupknights"@ != "petsrank"@,
        "owngroupknights"@ != "witch"@,
        "owngroupknights"@ != "underworldupgradeprice"@,
        "owngroupknights"@ != "underworldprice"@,
        "owngroupknights"@ != "owntower"@,
        "owngroupknights"@ != "dungeonprogresslight"@,
        "owngroupknights"@ != "dungeonprogressshadow"@,
        "owngroupknights"@ != "portalprogress"@,
        "owngroupknights"@ != "singleportalenemylevel"@,
        "groupskillprice"@ != "unitprice"@,
        "groupskillprice"@ != "upgradeprice"@,
        "groupskillprice"@ != "unitlevel"@,
        "groupskillprice"@ != "fortressprice"@,
        "groupskillprice"@ != "stoneperhournextlevel"@,
        "groupskillprice"@ != "woodperhournextlevel"@,
        "groupskillprice"@ != "fortresspricereroll"@,
        "groupskillprice"@ != "fortresswalllevel"@,
        "groupskillprice"@ != "maxupgradelevel"@,
        "groupskillprice"@ != "fortressGroupPrice"@,
        "groupskillprice"@ != "maxpetlevel"@,
        "groupskillprice"@ != "ownpetsstats"@,
        "groupskillprice"@ != "ownpets"@,
        "groupskillprice"@ != "petsdefensetype"@,
        "groupskillprice"@ != "petsrank"@,
        "groupskillprice"@ != "witch"@,
        "groupskillprice"@ != "underworldupgradeprice"@,
        "groupskillprice"@ != "underworldprice"@,
        "groupskillprice"@ != "owntower"@,
        "groupskillprice"@ != "dungeonprogresslight"@,
        "groupskillprice"@ != "dungeonprogressshadow"@,
        "groupskillprice"@ != "portalprogress"@,
        "groupskillprice"@ != "singleportalenemylevel"@,
        "chathistory"@ != "unitprice"@,
        "chathistory"@ != "upgradeprice"@,
        "chathistory"@ != "unitlevel"@,
        "chathistory"@ != "fortressprice"@,
        "chathistory"@ != "stoneperhournextlevel"@,
        "chathistory"@ != "woodperhournextlevel"@,
        "chathistory"@ != "fortresspricereroll"@,
        "chathistory"@ != "fortresswalllevel"@,
        "chathistory"@ != "maxupgradelevel"@,
        "chathistory"@ != "fortressGroupPrice"@,
        "chathistory"@ != "maxpetlevel"@,
        "chathistory"@ != "ownpetsstats"@,
        "chathistory"@ != "ownpets"@,
        "chathistory"@ != "petsdefensetype"@,
        "chathistory"@ != "petsrank"@,
        "chathistory"@ != "witch"@,
        "chathistory"@ != "underworldupgradeprice"@,
        "chathistory"@ != "underworldprice"@,
        "chathistory"@ != "owntower"@,
        "chathistory"@ != "dungeonprogresslight"@,
        "chathistory"@ != "dungeonprogressshadow"@,
        "chathistory"@ != "portalprogress"@,
        "chathistory"@ != "singleportalenemylevel"@,
        "chatwhisper"@ != "unitprice"@,
        "chatwhisper"@ != "upgradeprice"@,
        "chatwhisper"@ != "unitlevel"@,
        "chatwhisper"@ != "fortressprice"@,
        "chatwhisper"@ != "stoneperhournextlevel"@,
        "chatwhisper"@ != "woodperhournextlevel"@,
        "chatwhisper"@ != "fortresspricereroll"@,
        "chatwhisper"@ != "fortresswalllevel"@,
        "chatwhisper"@ != "maxupgradelevel"@,
        "chatwhisper"@ != "fortressGroupPrice"@,
        "chatwhisper"@ != "maxpetlevel"@,
        "chatwhisper"@ != "ownpetsstats"@,
        "chatwhisper"@ != "ownpets"@,
        "chatwhisper"@ != "petsdefensetype"@,
        "chatwhisper"@ != "petsrank"@,
        "chatwhisper"@ != "witch"@,
        "chatwhisper"@ != "underworldupgradeprice"@,
        "chatwhisper"@ != "underworldprice"@,
        "chatwhisper"@ != "owntower"@,
        "chatwhisper"@ != "dungeonprogresslight"@,
        "chatwhisper"@ != "dungeonprogressshadow"@,
        "chatwhisper"@ != "portalprogress"@,
        "chatwhisper"@ != "singleportalenemylevel"@,
        "unitprice"@ != "maxpetlevel"@,
        "unitprice"@ != "ownpetsstats"@,
        "unitprice"@ != "ownpets"@,
        "unitprice"@ != "petsdefensetype"@,
        "unitprice"@ != "petsrank"@,
        "unitprice"@ != "witch"@,
        "unitprice"@ != "underworldupgradeprice"@,
        "unitprice"@ != "underworldprice"@,
        "unitprice"@ != "owntower"@,
        "unitprice"@ != "dungeonprogresslight"@,
        "unitprice"@ != "dungeonprogressshadow"@,
        "unitprice"@ != "portalprogress"@,
        "unitprice"@ != "singleportalenemylevel"@,
        "upgradeprice"@ != "maxpetlevel"@,
        "upgradeprice"@ != "ownpetsstats"@,
        "upgradeprice"@ != "ownpets"@,
        "upgradeprice"@ != "petsdefensetype"@,
        "upgradeprice"@ != "petsrank"@,
        "upgradeprice"@ != "witch"@,
        "upgradeprice"@ != "underworldupgradeprice"@,
        "upgradeprice"@ != "underworldprice"@,
        "upgradeprice"@ != "owntower"@,
        "upgradeprice"@ != "dungeonprogresslight"@,
        "upgradeprice"@ != "dungeonprogressshadow"@,
        "upgradeprice"@ != "portalprogress"@,
        "upgradeprice"@ != "singleportalenemylevel"@,
        "unitlevel"@ != "maxpetlevel"@,
        "unitlevel"@ != "ownpetsstats"@,
        "unitlevel"@ != "ownpets"@,
        "unitlevel"@ != "petsdefensetype"@,
        "unitlevel"@ != "petsrank"@,
        "unitlevel"@ != "witch"@,
        "unitlevel"@ != "underworldupgradeprice"@,
        "unitlevel"@ != "underworldprice"@,
        "unitlevel"@ != "owntower"@,
        "unitlevel"@ != "dungeonprogresslight"@,
        "unitlevel"@ != "dungeonprogressshadow"@,
        "unitlevel"@ != "portalprogress"@,
        "unitlevel"@ != "singleportalenemylevel"@,
        "fortressprice"@ != "maxpetlevel"@,
        "fortressprice"@ != "ownpetsstats"@,
        "fortressprice"@ != "ownpets"@,
        "fortressprice"@ != "petsdefensetype"@,
        "fortressprice"@ != "petsrank"@,
        "fortressprice"@ != "witch"@,
        "fortressprice"@ != "underworldupgradeprice"@,
        "fortressprice"@ != "underworldprice"@,
        "fortressprice"@ != "owntower"@,
        "fortressprice"@ != "dungeonprogresslight"@,
        "fortressprice"@ != "dungeonprogressshadow"@,
        "fortressprice"@ != "portalprogress"@,
        "fortressprice"@ != "singleportalenemylevel"@,
        "stoneperhournextlevel"@ != "maxpetlevel"@,
        "stoneperhournextlevel"@ != "ownpetsstats"@,
        "stoneperhournextlevel"@ != "ownpets"@,
        "stoneperhournextlevel"@ != "petsdefensetype"@,
        "stoneperhournextlevel"@ != "petsrank"@,
        "stoneperhournextlevel"@ != "witch"@,
        "stoneperhournextlevel"@ != "underworldupgradeprice"@,
        "stoneperhournextlevel"@ != "underworldprice"@,
        "stoneperhournextlevel"@ != "owntower"@,
        "stoneperhournextlevel"@ != "dungeonprogresslight"@,
        "stoneperhournextlevel"@ != "dungeonprogressshadow"@,
        "stoneperhournextlevel"@ != "portalprogress"@,
        "stoneperhournextlevel"@ != "singleportalenemylevel"@,
        "woodperhournextlevel"@ != "maxpetlevel"@,
        "woodperhournextlevel"@ != "ownpetsstats"@,
        "woodperhournextlevel"@ != "ownpets"@,
        "woodperhournextlevel"@ != "petsdefensetype"@,
        "woodperhournextlevel"@ != "petsrank"@,
        "woodperhournextlevel"@ != "witch"@,
        "woodperhournextlevel"@ != "underworldupgradeprice"@,
        "woodperhournextlevel"@ != "underworldprice"@,
        "woodperhournextlevel"@ != "owntower"@,
        "woodperhournextlevel"@ != "dungeonprogresslight"@,
        "woodperhournextlevel"@ != "dungeonprogressshadow"@,
        "woodperhournextlevel"@ != "portalprogress"@,
        "woodperhournextlevel"@ != "singleportalenemylevel"@,
        "fortresspricereroll"@ != "maxpetlevel"@,
        "fortresspricereroll"@ != "ownpetsstats"@,
        "fortresspricereroll"@ != "ownpets"@,
        "fortresspricereroll"@ != "petsdefensetype"@,
        "fortresspricereroll"@ != "petsrank"@,
        "fortresspricereroll"@ != "witch"@,
        "fortresspricereroll"@ != "underworldupgradeprice"@,
        "fortresspricereroll"@ != "underworldprice"@,
        "fortresspricereroll"@ != "owntower"@,
        "fortresspricereroll"@ != "dungeonprogresslight"@,
        "fortresspricereroll"@ != "dungeonprogressshadow"@,
        "fortresspricereroll"@ != "portalprogress"@,
        "fortresspricereroll"@ != "singleportalenemylevel"@,
        "fortresswalllevel"@ != "maxpetlevel"@,
        "fortresswalllevel"@ != "ownpetsstats"@,
        "fortresswalllevel"@ != "ownpets"@,
        "fortresswalllevel"@ != "petsdefensetype"@,
        "fortresswalllevel"@ != "petsrank"@,
        "fortresswalllevel"@ != "witch"@,
        "fortresswalllevel"@ != "underworldupgradeprice"@,
        "fortresswalllevel"@ != "underworldprice"@,
        "fortresswalllevel"@ != "owntower"@,
        "fortresswalllevel"@ != "dungeonprogresslight"@,
        "fortresswalllevel"@ != "dungeonprogressshadow"@,
        "fortresswalllevel"@ != "portalprogress"@,
        "fortresswalllevel"@ != "singleportalenemylevel"@,
        "maxupgradelevel"@ != "maxpetlevel"@,
        "maxupgradelevel"@ != "ownpetsstats"@,
        "maxupgradelevel"@ != "ownpets"@,
        "maxupgradelevel"@ != "petsdefensetype"@,
        "maxupgradelevel"@ != "petsrank"@,
        "maxupgradelevel"@ != "witch"@,
        "maxupgradelevel"@ != "underworldupgradeprice"@,
        "maxupgradelevel"@ != "underworldprice"@,
        "maxupgradelevel"@ != "owntower"@,
        "maxupgradelevel"@ != "dungeonprogresslight"@,
        "maxupgradelevel"@ != "dungeonprogressshadow"@,
        "maxupgradelevel"@ != "portalprogress"@,
        "maxupgradelevel"@ != "singleportalenemylevel"@,
        "fortressGroupPrice"@ != "maxpetlevel"@,
        "fortressGroupPrice"@ != "ownpetsstats"@,
        "fortressGroupPrice"@ != "ownpets"@,
        "fortressGroupPrice"@ != "petsdefensetype"@,
        "fortressGroupPrice"@ != "petsrank"@,
        "fortressGroupPrice"@ != "witch"@,
        "fortressGroupPrice"@ != "underworldupgradeprice"@,
        "fortressGroupPrice"@ != "underworldprice"@,
        "fortressGroupPrice"@ != "owntower"@,
        "fortressGroupPrice"@ != "dungeonprogresslight"@,
        "fortressGroupPrice"@ != "dungeonprogressshadow"@,
        "fortressGroupPrice"@ != "portalprogress"@,
        "fortressGroupPrice"@ != "singleportalenemylevel"@,
        "maxpetlevel"@ != "witch"@,
        "maxpetlevel"@ != "underworldupgradeprice"@,
        "maxpetlevel"@ != "underworldprice"@,
        "maxpetlevel"@ != "owntower"@,
        "maxpetlevel"@ != "dungeonprogresslight"@,
        "maxpetlevel"@ != "dungeonprogressshadow"@,
        "maxpetlevel"@ != "portalprogress"@,
        "maxpetlevel"@ != "singleportalenemylevel"@,
        "ownpetsstats"@ != "witch"@,
        "ownpetsstats"@ != "underworldupgradeprice"@,
        "ownpetsstats"@ != "underworldprice"@,
        "ownpetsstats"@ != "owntower"@,
        "ownpetsstats"@ != "dungeonprogresslight"@,
        "ownpetsstats"@ != "dungeonprogressshadow"@,
        "ownpetsstats"@ != "portalprogress"@,
        "ownpetsstats"@ != "singleportalenemylevel"@,
        "ownpets"@ != "witch"@,
        "ownpets"@ != "underworldupgradeprice"@,
        "ownpets"@ != "underworldprice"@,
        "ownpets"@ != "owntower"@,
        "ownpets"@ != "dungeonprogresslight"@,
        "ownpets"@ != "dungeonprogressshadow"@,
        "ownpets"@ != "portalprogress"@,
        "ownpets"@ != "singleportalenemylevel"@,
        "petsdefensetype"@ != "witch"@,
        "petsdefensetype"@ != "underworldupgradeprice"@,
        "petsdefensetype"@ != "underworldprice"@,
        "petsdefensetype"@ != "owntower"@,
        "petsdefensetype"@ != "dungeonprogresslight"@,
        "petsdefensetype"@ != "dungeonprogressshadow"@,
        "petsdefensetype"@ != "portalprogress"@,
        "petsdefensetype"@ != "singleportalenemylevel"@,
        "petsrank"@ != "witch"@,
        "petsrank"@ != "underworldupgradeprice"@,
        "petsrank"@ != "underworldprice"@,
        "petsrank"@ != "owntower"@,
        "petsrank"@ != "dungeonprogresslight"@,
        "petsrank"@ != "dungeonprogressshadow"@,
        "petsrank"@ != "portalprogress"@,
        "petsrank"@ != "singleportalenemylevel"@,
        "witch"@ != "underworldupgradeprice"@,
        "witch"@ != "underworldprice"@,
        "witch"@ != "owntower"@,
        "witch"@ != "dungeonprogresslight"@,
        "witch"@ != "dungeonprogressshadow"@,
        "witch"@ != "portalprogress"@,
        "witch"@ != "singleportalenemylevel"@,
        "underworldupgradeprice"@ != "underworldprice"@,
        "underworldupgradeprice"@ != "owntower"@,
        "underworldupgradeprice"@ != "dungeonprogresslight"@,
        "underworldupgradeprice"@ != "dungeonprogressshadow"@,
        "underworldupgradeprice"@ != "portalprogress"@,
        "underworldupgradeprice"@ != "singleportalenemylevel"@,
        "underworldprice"@ != "owntower"@,
        "underworldprice"@ != "dungeonprogresslight"@,
        "underworldprice"@ != "dungeonprogressshadow"@,
        "underworldprice"@ != "portalprogress"@,
        "underworldprice"@ != "singleportalenemylevel"@,
        "owntower"@ != "dungeonprogresslight"@,
        "owntower"@ != "dungeonprogressshadow"@,
        "owntower"@ != "portalprogress"@,
        "owntower"@ != "singleportalenemylevel"@,
        "dungeonprogresslight"@ != "dungeonprogressshadow"@,
        "dungeonprogresslight"@ != "portalprogress"@,
        "dungeonprogresslight"@ != "singleportalenemylevel"@,
        "dungeonprogressshadow"@ != "portalprogress"@,
        "dungeonprogressshadow"@ != "singleportalenemylevel"@,
        "portalprogress"@ != "singleportalenemylevel"@,
{
    reveal_strlit("owngroupname");
    reveal_strlit("owngrouprank");
    reveal_strlit("owngroupsave");
    reveal_strlit("owngroupmember");
    reveal_strlit("owngrouppotion");
    reveal_strlit("owngroupdescription");
    reveal_strlit("owngroupknights");
    reveal_strlit("groupskillprice");
    reveal_strlit("chathistory");
    reveal_strlit("chatwhisper");
    reveal_strlit("unitprice");
    reveal_strlit("upgradeprice");
    reveal_strlit("unitlevel");
    reveal_strlit("fortressprice");
    reveal_strlit("stoneperhournextlevel");
    reveal_strlit("woodperhournextlevel");
    reveal_strlit("fortresspricereroll");
    reveal_strlit("fortresswalllevel");
    reveal_strlit("maxupgradelevel");
    reveal_strlit("fortressGroupPrice");
    reveal_strlit("maxpetlevel");
    reveal_strlit("ownpetsstats");
    reveal_strlit("ownpets");
    reveal_strlit("petsdefensetype");
    reveal_strlit("petsrank");
    reveal_strlit("witch");
    reveal_strlit("underworldupgradeprice");
    reveal_strlit("underworldprice");
    reveal_strlit("owntower");
    reveal_strlit("dungeonprogresslight");
    reveal_strlit("dungeonprogressshadow");
    reveal_strlit("portalprogress");
    reveal_strlit("singleportalenemylevel");
    assert("owngroupname"@.len() != "unitprice"@.len());
    assert("owngroupname"@[0] != "upgradeprice"@[0]);
    assert("owngroupname"@.len() != "unitlevel"@.len());
    assert("owngroupname"@.len() != "fortressprice"@.len());
    assert("owngroupname"@.len() != "stoneperhournextlevel"@.len());
    assert("owngroupname"@.len() != "woodperhournextlevel"@.len());
    assert("owngroupname"@.len() != "fortresspricereroll"@.len());
    assert("owngroupname"@.len() != "fortresswalllevel"@.len());
    assert("owngroupname"@.len() != "maxupgradelevel"@.len());
    assert("owngroupname"@.len() != "fortressGroupPrice"@.len());
    assert("owngroupname"@.len() != "maxpetlevel"@.len());
    assert("owngroupname"@[3] != "ownpetsstats"@[3]);
    assert("owngroupname"@.len() != "ownpets"@.len());
    assert("owngroupname"@.len() != "petsdefensetype"@.len());
    assert("owngroupname"@.len() != "petsrank"@.len());
    assert("owngroupname"@.len() != "witch"@.len());
    assert("owngroupname"@.len() != "underworldupgradeprice"@.len());
    assert("owngroupname"@.len() != "underworldprice"@.len());
    assert("owngroupname"@.len() != "owntower"@.len());
    assert("owngroupname"@.len() != "dungeonprogresslight"@.len());
    assert("owngroupname"@.len() != "dungeonprogressshadow"@.len());
    assert("owngroupname"@.len() != "portalprogress"@.len());
    assert("owngroupname"@.len() != "singleportalenemylevel"@.len());
    assert("owngrouprank"@.len() != "unitprice"@.len());
    assert("owngrouprank"@[0] != "upgradeprice"@[0]);
    assert("owngrouprank"@.len() != "unitlevel"@.len());
    assert("owngrouprank"@.len() != "fortressprice"@.len());
    assert("owngrouprank"@.len() != "stoneperhournextlevel"@.len());
    assert("owngrouprank"@.len() != "woodperhournextlevel"@.len());
    assert("owngrouprank"@.len() != "fortresspricereroll"@.len());
    assert("owngrouprank"@.len() != "fortresswalllevel"@.len());
    assert("owngrouprank"@.len() != "maxupgradelevel"@.len());
    assert("owngrouprank"@.len() != "fortressGroupPrice"@.len());
    assert("owngrouprank"@.len() != "maxpetlevel"@.len());
    assert("owngrouprank"@[3] != "ownpetsstats"@[3]);
    assert("owngrouprank"@.len() != "ownpets"@.len());
    assert("owngrouprank"@.len() != "petsdefensetype"@.len());
    assert("owngrouprank"@.len() != "petsrank"@.len());
    assert("owngrouprank"@.len() != "witch"@.len());
    assert("owngrouprank"@.len() != "underworldupgradeprice"@.len());
    assert("owngrouprank"@.len() != "underworldprice"@.len());
    assert("owngrouprank"@.len() != "owntower"@.len());
    assert("owngrouprank"@.len() != "dungeonprogresslight"@.len());
    assert("owngrouprank"@.len() != "dungeonprogressshadow"@.len());
    assert("owngrouprank"@.len() != "portalprogress"@.len());
    assert("owngrouprank"@.len() != "singleportalenemylevel"@.len());
    assert("owngroupsave"@.len() != "unitprice"@.len());
    assert("owngroupsave"@[0] != "upgradeprice"@[0]);
    assert("owngroupsave"@.len() != "unitlevel"@.len());
    assert("owngroupsave"@.len() != "fortressprice"@.len());
    assert("owngroupsave"@.len() != "stoneperhournextlevel"@.len());
    assert("owngroupsave"@.len() != "woodperhournextlevel"@.len());
    assert("owngroupsave"@.len() != "fortresspricereroll"@.len());
    assert("owngroupsave"@.len() != "fortresswalllevel"@.len());
    assert("owngroupsave"@.len() != "maxupgradelevel"@.len());
    assert("owngroupsave"@.len() != "fortressGroupPrice"@.len());
    assert("owngroupsave"@.len() != "maxpetlevel"@.len());
    assert("owngroupsave"@[3] != "ownpetsstats"@[3]);
    assert("owngroupsave"@.len() != "ownpets"@.len());
    assert("owngroupsave"@.len() != "petsdefensetype"@.len());
    assert("owngroupsave"@.len() != "petsrank"@.len());
    assert("owngroupsave"@.len() != "witch"@.len());
    assert("owngroupsave"@.len() != "underworldupgradeprice"@.len());
    assert("owngroupsave"@.len() != "underworldprice"@.len());
    assert("owngroupsave"@.len() != "owntower"@.len());
    assert("owngroupsave"@.len() != "dungeonprogresslight"@.len());
    assert("owngroupsave"@.len() != "dungeonprogressshadow"@.len());
    assert("owngroupsave"@.len() != "portalprogress"@.len());
    assert("owngroupsave"@.len() != "singleportalenemylevel"@.len());
    assert("owngroupmember"@.len() != "unitprice"@.len());
    assert("owngroupmember"@.len() != "upgradeprice"@.len());
    assert("owngroupmember"@.len() != "unitlevel"@.len());
    assert("owngroupmember"@.len() != "fortressprice"@.len());
    assert("owngroupmember"@.len() != "stoneperhournextlevel"@.len());
    assert("owngroupmember"@.len() != "woodperhournextlevel"@.len());
    assert("owngroupmember"@.len() != "fortresspricereroll"@.len());
    assert("owngroupmember"@.len() != "fortresswalllevel"@.len());
    assert("owngroupmember"@.len() != "maxupgradelevel"@.len());
    assert("owngroupmember"@.len() != "fortressGroupPrice"@.len());
    assert("owngroupmember"@.len() != "maxpetlevel"@.len());
    assert("owngroupmember"@.len() != "ownpetsstats"@.len());
    assert("owngroupmember"@.len() != "ownpets"@.len());
    assert("owngroupmember"@.len() != "petsdefensetype"@.len());
    assert("owngroupmember"@.len() != "petsrank"@.len());
    assert("owngroupmember"@.len() != "witch"@.len());
    assert("owngroupmember"@.len() != "underworldupgradeprice"@.len());
    assert("owngroupmember"@.len() != "underworldprice"@.len());
    assert("owngroupmember"@.len() != "owntower"@.len());
    assert("owngroupmember"@.len() != "dungeonprogresslight"@.len());
    assert("owngroupmember"@.len() != "dungeonprogressshadow"@.len());
    assert("owngroupmember"@[0] != "portalprogress"@[0]);
    assert("owngroupmember"@.len() != "singleportalenemylevel"@.len());
    assert("owngrouppotion"@.len() != "unitprice"@.len());
    assert("owngrouppotion"@.len() != "upgradeprice"@.len());
    assert("owngrouppotion"@.len() != "unitlevel"@.len());
    assert("owngrouppotion"@.len() != "fortressprice"@.len());
    assert("owngrouppotion"@.len() != "stoneperhournextlevel"@.len());
    assert("owngrouppotion"@.len() != "woodperhournextlevel"@.len());
    assert("owngrouppotion"@.len() != "fortresspricereroll"@.len());
    assert("owngrouppotion"@.len() != "fortresswalllevel"@.len());
    assert("owngrouppotion"@.len() != "maxupgradelevel"@.len());
    assert("owngrouppotion"@.len() != "fortressGroupPrice"@.len());
    assert("owngrouppotion"@.len() != "maxpetlevel"@.len());
    assert("owngrouppotion"@.len() != "ownpetsstats"@.len());
    assert("owngrouppotion"@.len() != "ownpets"@.len());
    assert("owngrouppotion"@.len() != "petsdefensetype"@.len());
    assert("owngrouppotion"@.len() != "petsrank"@.len());
    assert("owngrouppotion"@.len() != "witch"@.len());
    assert("owngrouppotion"@.len() != "underworldupgradeprice"@.len());
    assert("owngrouppotion"@.len() != "underworldprice"@.len());
    assert("owngrouppotion"@.len() != "owntower"@.len());
    assert("owngrouppotion"@.len() != "dungeonprogresslight"@.len());
    assert("owngrouppotion"@.len() != "dungeonprogressshadow"@.len());
    assert("owngrouppotion"@[0] != "portalprogress"@[0]);
    assert("owngrouppotion"@.len() != "singleportalenemylevel"@.len());
    assert("owngroupdescription"@.len() != "unitprice"@.len());
    assert("owngroupdescription"@.len() != "upgradeprice"@.len());
    assert("owngroupdescription"@.len() != "unitlevel"@.len());
    assert("owngroupdescription"@.len() != "fortressprice"@.len());
    assert("owngroupdescription"@.len() != "stoneperhournextlevel"@.len());
    assert("owngroupdescription"@.len() != "woodperhournextlevel"@.len());
    assert("owngroupdescription"@[0] != "fortresspricereroll"@[0]);
    assert("owngroupdescription"@.len() != "fortresswalllevel"@.len());
    assert("owngroupdescription"@.len() != "maxupgradelevel"@.len());
    assert("owngroupdescription"@.len() != "fortressGroupPrice"@.len());
    assert("owngroupdescription"@.len() != "maxpetlevel"@.len());
    assert("owngroupdescription"@.len() != "ownpetsstats"@.len());
    assert("owngroupdescription"@.len() != "ownpets"@.len());
    assert("owngroupdescription"@.len() != "petsdefensetype"@.len());
    assert("owngroupdescription"@.len() != "petsrank"@.len());
    assert("owngroupdescription"@.len() != "witch"@.len());
    assert("owngroupdescription"@.len() != "underworldupgradeprice"@.len());
    assert("owngroupdescription"@.len() != "underworldprice"@.len());
    assert("owngroupdescription"@.len() != "owntower"@.len());
    assert("owngroupdescription"@.len() != "dungeonprogresslight"@.len());
    assert("owngroupdescription"@.len() != "dungeonprogressshadow"@.len());
    assert("owngroupdescription"@.len() != "portalprogress"@.len());
    assert("owngroupdescription"@.len() != "singleportalenemylevel"@.len());
    assert("owngroupknights"@.len() != "unitprice"@.len());
    assert("owngroupknights"@.len() != "upgradeprice"@.len());
    assert("owngroupknights"@.len() != "unitlevel"@.len());
    assert("owngroupknights"@.len() != "fortressprice"@.len());
    assert("owngroupknights"@.len() != "stoneperhournextlevel"@.len());
    assert("owngroupknights"@.len() != "woodperhournextlevel"@.len());
    assert("owngroupknights"@.len() != "fortresspricereroll"@.len());
    assert("owngroupknights"@.len() != "fortresswalllevel"@.len());
    assert("owngroupknights"@[0] != "maxupgradelevel"@[0]);
    assert("owngroupknights"@.len() != "fortressGroupPrice"@.len());
    assert("owngroupknights"@.len() != "maxpetlevel"@.len());
    assert("owngroupknights"@.len() != "ownpetsstats"@.len());
    assert("owngroupknights"@.len() != "ownpets"@.len());
    assert("owngroupknights"@[0] != "petsdefensetype"@[0]);
    assert("owngroupknights"@.len() != "petsrank"@.len());
    assert("owngroupknights"@.len() != "witch"@.len());
    assert("owngroupknights"@.len() != "underworldupgradeprice"@.len());
    assert("owngroupknights"@[0] != "underworldprice"@[0]);
    assert("owngroupknights"@.len() != "owntower"@.len());
    assert("owngroupknights"@.len() != "dungeonprogresslight"@.len());
    assert("owngroupknights"@.len() != "dungeonprogressshadow"@.len());
    assert("owngroupknights"@.len() != "portalprogress"@.len());
    assert("owngroupknights"@.len() != "singleportalenemylevel"@.len());
    assert("groupskillprice"@.len() != "unitprice"@.len());
    assert("groupskillprice"@.len() != "upgradeprice"@.len());
    assert("groupskillprice"@.len() != "unitlevel"@.len());
    assert("groupskillprice"@.len() != "fortressprice"@.len());
    assert("groupskillprice"@.len() != "stoneperhournextlevel"@.len());
    assert("groupskillprice"@.len() != "woodperhournextlevel"@.len());
    assert("groupskillprice"@.len() != "fortresspricereroll"@.len());
    assert("groupskillprice"@.len() != "fortresswalllevel"@.len());
    assert("groupskillprice"@[0] != "maxupgradelevel"@[0]);
    assert("groupskillprice"@.len() != "fortressGroupPrice"@.len());
    assert("groupskillprice"@.len() != "maxpetlevel"@.len());
    assert("groupskillprice"@.len() != "ownpetsstats"@.len());
    assert("groupskillprice"@.len() != "ownpets"@.len());
    assert("groupskillprice"@[0] != "petsdefensetype"@[0]);
    assert("groupskillprice"@.len() != "petsrank"@.len());
    assert("groupskillprice"@.len() != "witch"@.len());
    assert("groupskillprice"@.len() != "underworldupgradeprice"@.len());
    assert("groupskillprice"@[0] != "underworldprice"@[0]);
    assert("groupskillprice"@.len() != "owntower"@.len());
    assert("groupskillprice"@.len() != "dungeonprogresslight"@.len());
    assert("groupskillprice"@.len() != "dungeonprogressshadow"@.len());
    assert("groupskillprice"@.len() != "portalprogress"@.len());
    assert("groupskillprice"@.len() != "singleportalenemylevel"@.len());
    assert("chathistory"@.len() != "unitprice"@.len());
    assert("chathistory"@.len() != "upgradeprice"@.len());
    assert("chathistory"@.len() != "unitlevel"@.len());
    assert("chathistory"@.len() != "fortressprice"@.len());
    assert("chathistory"@.len() != "stoneperhournextlevel"@.len());
    assert("chathistory"@.len() != "woodperhournextlevel"@.len());
    assert("chathistory"@.len() != "fortresspricereroll"@.len());
    assert("chathistory"@.len() != "fortresswalllevel"@.len());
    assert("chathistory"@.len() != "maxupgradelevel"@.len());
    assert("chathistory"@.len() != "fortressGroupPrice"@.len());
    assert("chathistory"@[0] != "maxpetlevel"@[0]);
    assert("chathistory"@.len() != "ownpetsstats"@.len());
    assert("chathistory"@.len() != "ownpets"@.len());
    assert("chathistory"@.len() != "petsdefensetype"@.len());
    assert("chathistory"@.len() != "petsrank"@.len());
    assert("chathistory"@.len() != "witch"@.len());
    assert("chathistory"@.len() != "underworldupgradeprice"@.len());
    assert("chathistory"@.len() != "underworldprice"@.len());
    assert("chathistory"@.len() != "owntower"@.len());
    assert("chathistory"@.len() != "dungeonprogresslight"@.len());
    assert("chathistory"@.len() != "dungeonprogressshadow"@.len());
    assert("chathistory"@.len() != "portalprogress"@.len());
    assert("chathistory"@.len() != "singleportalenemylevel"@.len());
    assert("chatwhisper"@.len() != "unitprice"@.len());
    assert("chatwhisper"@.len() != "upgradeprice"@.len());
    assert("chatwhisper"@.len() != "unitlevel"@.len());
    assert("chatwhisper"@.len() != "fortressprice"@.len());
    assert("chatwhisper"@.len() != "stoneperhournextlevel"@.len());
    assert("chatwhisper"@.len() != "woodperhournextlevel"@.len());
    assert("chatwhisper"@.len() != "fortresspricereroll"@.len());
    assert("chatwhisper"@.len() != "fortresswalllevel"@.len());
    assert("chatwhisper"@.len() != "maxupgradelevel"@.len());
    assert("chatwhisper"@.len() != "fortressGroupPrice"@.len());
    assert("chatwhisper"@[0] != "maxpetlevel"@[0]);
    assert("chatwhisper"@.len() != "ownpetsstats"@.len());
    assert("chatwhisper"@.len() != "ownpets"@.len());
    assert("chatwhisper"@.len() != "petsdefensetype"@.len());
    assert("chatwhisper"@.len() != "petsrank"@.len());
    assert("chatwhisper"@.len() != "witch"@.len());
    assert("chatwhisper"@.len() != "underworldupgradeprice"@.len());
    assert("chatwhisper"@.len() != "underworldprice"@.len());
    assert("chatwhisper"@.len() != "owntower"@.len());
    assert("chatwhisper"@.len() != "dungeonprogresslight"@.len());
    assert("chatwhisper"@.len() != "dungeonprogressshadow"@.len());
    assert("chatwhisper"@.len() != "portalprogress"@.len());
    assert("chatwhisper"@.len() != "singleportalenemylevel"@.len());
    assert("unitprice"@.len() != "maxpetlevel"@.len());
    assert("unitprice"@.len() != "ownpetsstats"@.len());
    assert("unitprice"@.len() != "ownpets"@.len());
    assert("unitprice"@.len() != "petsdefensetype"@.len());
    assert("unitprice"@.len() != "petsrank"@.len());
    assert("unitprice"@.len() != "witch"@.len());
    assert("unitprice"@.len() != "underworldupgradeprice"@.len());
    assert("unitprice"@.len() != "underworldprice"@.len());
    assert("unitprice"@.len() != "owntower"@.len());
    assert("unitprice"@.len() != "dungeonprogresslight"@.len());
    assert("unitprice"@.len() != "dungeonprogressshadow"@.len());
    assert("unitprice"@.len() != "portalprogress"@.len());
    assert("unitprice"@.len() != "singleportalenemylevel"@.len());
    assert("upgradeprice"@.len() != "maxpetlevel"@.len());
    assert("upgradeprice"@[0] != "ownpetsstats"@[0]);
    assert("upgradeprice"@.len() != "ownpets"@.len());
    assert("upgradeprice"@.len() != "petsdefensetype"@.len());
    assert("upgradeprice"@.len() != "petsrank"@.len());
    assert("upgradeprice"@.len() != "witch"@.len());
    assert("upgradeprice"@.len() != "underworldupgradeprice"@.len());
    assert("upgradeprice"@.len() != "underworldprice"@.len());
    assert("upgradeprice"@.len() != "owntower"@.len());
    assert("upgradeprice"@.len() != "dungeonprogresslight"@.len());
    assert("upgradeprice"@.len() != "dungeonprogressshadow"@.len());
    assert("upgradeprice"@.len() != "portalprogress"@.len());
    assert("upgradeprice"@.len() != "singleportalenemylevel"@.len());
    assert("unitlevel"@.len() != "maxpetlevel"@.len());
    assert("unitlevel"@.len() != "ownpetsstats"@.len());
    assert("unitlevel"@.len() != "ownpets"@.len());
    assert("unitlevel"@.len() != "petsdefensetype"@.len());
    assert("unitlevel"@.len() != "petsrank"@.len());
    assert("unitlevel"@.len() != "witch"@.len());
    assert("unitlevel"@.len() != "underworldupgradeprice"@.len());
    assert("unitlevel"@.len() != "underworldprice"@.len());
    assert("unitlevel"@.len() != "owntower"@.len());
    assert("unitlevel"@.len() != "dungeonprogresslight"@.len());
    assert("unitlevel"@.len() != "dungeonprogressshadow"@.len());
    assert("unitlevel"@.len() != "portalprogress"@.len());
    assert("unitlevel"@.len() != "singleportalenemylevel"@.len());
    assert("fortressprice"@.len() != "maxpetlevel"@.len());
    assert("fortressprice"@.len() != "ownpetsstats"@.len());
    assert("fortressprice"@.len() != "ownpets"@.len());
    assert("fortressprice"@.len() != "petsdefensetype"@.len());
    assert("fortressprice"@.len() != "petsrank"@.len());
    assert("fortressprice"@.len() != "witch"@.len());
    assert("fortressprice"@.len() != "underworldupgradeprice"@.len());
    assert("fortressprice"@.len() != "underworldprice"@.len());
    assert("fortressprice"@.len() != "owntower"@.len());
    assert("fortressprice"@.len() != "dungeonprogresslight"@.len());
    assert("fortressprice"@.len() != "dungeonprogressshadow"@.len());
    assert("fortressprice"@.len() != "portalprogress"@.len());
    assert("fortressprice"@.len() != "singleportalenemylevel"@.len());
    assert("stoneperhournextlevel"@.len() != "maxpetlevel"@.len());
    assert("stoneperhournextlevel"@.len() != "ownpetsstats"@.len());
    assert("stoneperhournextlevel"@.len() != "ownpets"@.len());
    assert("stoneperhournextlevel"@.len() != "petsdefensetype"@.len());
    assert("stoneperhournextlevel"@.len() != "petsrank"@.len());
    assert("stoneperhournextlevel"@.len() != "witch"@.len());
    assert("stoneperhournextlevel"@.len() != "underworldupgradeprice"@.len());
    assert("stoneperhournextlevel"@.len() != "underworldprice"@.len());
    assert("stoneperhournextlevel"@.len() != "owntower"@.len());
    assert("stoneperhournextlevel"@.len() != "dungeonprogresslight"@.len());
    assert("stoneperhournextlevel"@[0] != "dungeonprogressshadow"@[0]);
    assert("stoneperhournextlevel"@.len() != "portalprogress"@.len());
    assert("stoneperhournextlevel"@.len() != "singleportalenemylevel"@.len());
    assert("woodperhournextlevel"@.len() != "maxpetlevel"@.len());
    assert("woodperhournextlevel"@.len() != "ownpetsstats"@.len());
    assert("woodperhournextlevel"@.len() != "ownpets"@.len());
    assert("woodperhournextlevel"@.len() != "petsdefensetype"@.len());
    assert("woodperhournextlevel"@.len() != "petsrank"@.len());
    assert("woodperhournextlevel"@.len() != "witch"@.len());
    assert("woodperhournextlevel"@.len() != "underworldupgradeprice"@.len());
    assert("woodperhournextlevel"@.len() != "underworldprice"@.len());
    assert("woodperhournextlevel"@.len() != "owntower"@.len());
    assert("woodperhournextlevel"@[0] != "dungeonprogresslight"@[0]);
    assert("woodperhournextlevel"@.len() != "dungeonprogressshadow"@.len());
    assert("woodperhournextlevel"@.len() != "portalprogress"@.len());
    assert("woodperhournextlevel"@.len() != "singleportalenemylevel"@.len());
    assert("fortresspricereroll"@.len() != "maxpetlevel"@.len());
    assert("fortresspricereroll"@.len() != "ownpetsstats"@.len());
    assert("fortresspricereroll"@.len() != "ownpets"@.len());
    assert("fortresspricereroll"@.len() != "petsdefensetype"@.len());
    assert("fortresspricereroll"@.len() != "petsrank"@.len());
    assert("fortresspricereroll"@.len() != "witch"@.len());
    assert("fortresspricereroll"@.len() != "underworldupgradeprice"@.len());
    assert("fortresspricereroll"@.len() != "underworldprice"@.len());
    assert("fortresspricereroll"@.len() != "owntower"@.len());
    assert("fortresspricereroll"@.len() != "dungeonprogresslight"@.len());
    assert("fortresspricereroll"@.len() != "dungeonprogressshadow"@.len());
    assert("fortresspricereroll"@.len() != "portalprogress"@.len());
    assert("fortresspricereroll"@.len() != "singleportalenemylevel"@.len());
    assert("fortresswalllevel"@.len() != "maxpetlevel"@.len());
    assert("fortresswalllevel"@.len() != "ownpetsstats"@.len());
    assert("fortresswalllevel"@.len() != "ownpets"@.len());
    assert("fortresswalllevel"@.len() != "petsdefensetype"@.len());
    assert("fortresswalllevel"@.len() != "petsrank"@.len());
    assert("fortresswalllevel"@.len() != "witch"@.len());
    assert("fortresswalllevel"@.len() != "underworldupgradeprice"@.len());
    assert("fortresswalllevel"@.len() != "underworldprice"@.len());
    assert("fortresswalllevel"@.len() != "owntower"@.len());
    assert("fortresswalllevel"@.len() != "dungeonprogresslight"@.len());
    assert("fortresswalllevel"@.len() != "dungeonprogressshadow"@.len());
    assert("fortresswalllevel"@.len() != "portalprogress"@.len());
    assert("fortresswalllevel"@.len() != "singleportalenemylevel"@.len());
    assert("maxupgradelevel"@.len() != "maxpetlevel"@.len());
    assert("maxupgradelevel"@.len() != "ownpetsstats"@.len());
    assert("maxupgradelevel"@.len() != "ownpets"@.len());
    assert("maxupgradelevel"@[0] != "petsdefensetype"@[0]);
    assert("maxupgradelevel"@.len() != "petsrank"@.len());
    assert("maxupgradelevel"@.len() != "witch"@.len());
    assert("maxupgradelevel"@.len() != "underworldupgradeprice"@.len());
    assert("maxupgradelevel"@[0] != "underworldprice"@[0]);
    assert("maxupgradelevel"@.len() != "owntower"@.len());
    assert("maxupgradelevel"@.len() != "dungeonprogresslight"@.len());
    assert("maxupgradelevel"@.len() != "dungeonprogressshadow"@.len());
    assert("maxupgradelevel"@.len() != "portalprogress"@.len());
    assert("maxupgradelevel"@.len() != "singleportalenemylevel"@.len());
    assert("fortressGroupPrice"@.len() != "maxpetlevel"@.len());
    assert("fortressGroupPrice"@.len() != "ownpetsstats"@.len());
    assert("fortressGroupPrice"@.len() != "ownpets"@.len());
    assert("fortressGroupPrice"@.len() != "petsdefensetype"@.len());
    assert("fortressGroupPrice"@.len() != "petsrank"@.len());
    assert("fortressGroupPrice"@.len() != "witch"@.len());
    assert("fortressGroupPrice"@.len() != "underworldupgradeprice"@.len());
    assert("fortressGroupPrice"@.len() != "underworldprice"@.len());
    assert("fortressGroupPrice"@.len() != "owntower"@.len());
    assert("fortressGroupPrice"@.len() != "dungeonprogresslight"@.len());
    assert("fortressGroupPrice"@.len() != "dungeonprogressshadow"@.len());
    assert("fortressGroupPrice"@.len() != "portalprogress"@.len());
    assert("fortressGroupPrice"@.len() != "singleportalenemylevel"@.len());
    assert("maxpetlevel"@.len() != "witch"@.len());
    assert("maxpetlevel"@.len() != "underworldupgradeprice"@.len());
    assert("maxpetlevel"@.len() != "underworldprice"@.len());
    assert("maxpetlevel"@.len() != "owntower"@.len());
    assert("maxpetlevel"@.len() != "dungeonprogresslight"@.len());
    assert("maxpetlevel"@.len() != "dungeonprogressshadow"@.len());
    assert("maxpetlevel"@.len() != "portalprogress"@.len());
    assert("maxpetlevel"@.len() != "singleportalenemylevel"@.len());
    assert("ownpetsstats"@.len() != "witch"@.len());
    assert("ownpetsstats"@.len() != "underworldupgradeprice"@.len());
    assert("ownpetsstats"@.len() != "underworldprice"@.len());
    assert("ownpetsstats"@.len() != "owntower"@.len());
    assert("ownpetsstats"@.len() != "dungeonprogresslight"@.len());
    assert("ownpetsstats"@.len() != "dungeonprogressshadow"@.len());
    assert("ownpetsstats"@.len() != "portalprogress"@.len());
    assert("ownpetsstats"@.len() != "singleportalenemylevel"@.len());
    assert("ownpets"@.len() != "witch"@.len());
    assert("ownpets"@.len() != "underworldupgradeprice"@.len());
    assert("ownpets"@.len() != "underworldprice"@.len());
    assert("ownpets"@.len() != "owntower"@.len());
    assert("ownpets"@.len() != "dungeonprogresslight"@.len());
    assert("ownpets"@.len() != "dungeonprogressshadow"@.len());
    assert("ownpets"@.len() != "portalprogress"@.len());
    assert("ownpets"@.len() != "singleportalenemylevel"@.len());
    assert("petsdefensetype"@.len() != "witch"@.len());
    assert("petsdefensetype"@.len() != "underworldupgradeprice"@.len());
    assert("petsdefensetype"@[0] != "underworldprice"@[0]);
    assert("petsdefensetype"@.len() != "owntower"@.len());
    assert("petsdefensetype"@.len() != "dungeonprogresslight"@.len());
    assert("petsdefensetype"@.len() != "dungeonprogressshadow"@.len());
    assert("petsdefensetype"@.len() != "portalprogress"@.len());
    assert("petsdefensetype"@.len() != "singleportalenemylevel"@.len());
    assert("petsrank"@.len() != "witch"@.len());
    assert("petsrank"@.len() != "underworldupgradeprice"@.len());
    assert("petsrank"@.len() != "underworldprice"@.len());
    assert("petsrank"@[0] != "owntower"@[0]);
    assert("petsrank"@.len() != "dungeonprogresslight"@.len());
    assert("petsrank"@.len() != "dungeonprogressshadow"@.len());
    assert("petsrank"@.len() != "portalprogress"@.len());
    assert("petsrank"@.len() != "singleportalenemylevel"@.len());
    assert("witch"@.len() != "underworldupgradeprice"@.len());
    assert("witch"@.len() != "underworldprice"@.len());
    assert("witch"@.len() != "owntower"@.len());
    assert("witch"@.len() != "dungeonprogresslight"@.len());
    assert("witch"@.len() != "dungeonprogressshadow"@.len());
    assert("witch"@.len() != "portalprogress"@.len());
    assert("witch"@.len() != "singleportalenemylevel"@.len());
    assert("underworldupgradeprice"@.len() != "underworldprice"@.len());
    assert("underworldupgradeprice"@.len() != "owntower"@.len());
    assert("underworldupgradeprice"@.len() != "dungeonprogresslight"@.len());
    assert("underworldupgradeprice"@.len() != "dungeonprogressshadow"@.len());
    assert("underworldupgradeprice"@.len() != "portalprogress"@.len());
    assert("underworldupgradeprice"@[0] != "singleportalenemylevel"@[0]);
    assert("underworldprice"@.len() != "owntower"@.len());
    assert("underworldprice"@.len() != "dungeonprogresslight"@.len());
    assert("underworldprice"@.len() != "dungeonprogressshadow"@.len());
    assert("underworldprice"@.len() != "portalprogress"@.len());
    assert("underworldprice"@.len() != "singleportalenemylevel"@.len());
    assert("owntower"@.len() != "dungeonprogresslight"@.len());
    assert("owntower"@.len() != "dungeonprogressshadow"@.len());
    assert("owntower"@.len() != "portalprogress"@.len());
    assert("owntower"@.len() != "singleportalenemylevel"@.len());
    assert("dungeonprogresslight"@.len() != "dungeonprogressshadow"@.len());
    assert("dungeonprogresslight"@.len() != "portalprogress"@.len());
    assert("dungeonprogresslight"@.len() != "singleportalenemylevel"@.len());
    assert("dungeonprogressshadow"@.len() != "portalprogress"@.len());
    assert("dungeonprogressshadow"@.len() != "singleportalenemylevel"@.len());
    assert("portalprogress"@.len() != "singleportalenemylevel"@.len());
}

/// Whether a player save value can be read: a list of numbers, which is
/// ignored where it is shorter than 700 values and must hold a valid save
/// otherwise.
pub open spec fn save_value_ok(v: Seq<char>) -> bool {
    list_ok(v) && (list_of(v).len() < 700 || player_save_ok(list_of(v)))
}

/// The level after a player save value was read, from the level `l` before.
pub open spec fn level_from_save(l: u16, v: Seq<char>) -> u16 {
    if list_of(v).len() >= 700 {
        soft_u16(list_of(v)[7] & 0xFFFF, 0)
    } else {
        l
    }
}

impl GameState {
    /// Applies the keys about the character, the tavern and the timed
    /// specials. Returns whether the key was one of them.
    #[verifier::spinoff_prover]
    fn apply_character_keys(&mut self, key: &str, val: &ResponseVal, st: ServerTime) -> (r: Result<
        bool,
        SFError,
    >)
        ensures
            character_keys(key@) && character_error_named(key@, val.value@) ==> (r matches Err(e)
                ==> character_error(key@, val.value@, e)),
            character_keys(key@) && character_error_named(key@, val.value@) && r is Ok
                ==> character_value_ok(key@, val.value@),
            character_keys(key@) && character_value_ok(key@, val.value@) ==> r is Ok,
            tracked_same(*old(self), *final(self)),
            r matches Ok(false) ==> *final(self) == *old(self),
            !character_keys(key@) ==> r == Ok::<bool, SFError>(false),
            r matches Ok(b) ==> b == character_keys(key@),
            key@ == "gamblegoldvalue"@ ==> (r is Ok <==> decimal_i64(trim_white(val.value@)) is Some),
            key@ == "gamblegoldvalue"@ && r is Ok ==> final(self).tavern.gamble_result == Some(
                GambleResult::SilverChange(decimal_i64(trim_white(val.value@))->0),
            ),
            key@ == "gamblecoinvalue"@ ==> (r is Ok <==> decimal_i32(trim_white(val.value@)) is Some),
            key@ == "gamblecoinvalue"@ && r is Ok ==> final(self).tavern.gamble_result == Some(
                GambleResult::MushroomChange(decimal_i32(trim_white(val.value@))->0),
            ),
            key@ == "expeditions"@ ==> (r is Ok <==> list_ok(val.value@)),
            r is Ok ==> character_applied(*old(self), key@, val.value@, st, *final(self)),
            key@ != "ownplayersave"@ ==> final(self).character.level == old(self).character.level,
            key@ == "ownplayersave"@ ==> (r is Ok <==> save_value_ok(val.value@)),
            key@ == "ownplayersave"@ && r is Ok ==> final(self).character.level == level_from_save(
                old(self).character.level,
                val.value@,
            ),
    {
        proof {
            lemma_character_keys_distinct();
        }
        if key_is(key, "toilettfull") {
            let mut toilet = match self.tavern.toilet {
                Some(t) => t,
                None => Toilet::default(),
            };
            self.tavern.toilet = Some(toilet);
            toilet.used = val.into_i32("toilet full status")? != 0;
            self.tavern.toilet = Some(toilet);
        } else if key_is(key, "ownplayersave") {
            let data = val.into_list("player save")?;
            self.update_player_save(&data)?;
        } else if key_is(key, "wheelresult") {
            let upgraded = self.character.level >= 95 && self.pets.is_some()
                && self.underworld.is_some();
            let data = val.into_list("wheel result")?;
            self.specials.wheel.result = Some(WheelReward::parse(&data, upgraded)?);
        } else if key_is(key, "gamblegoldvalue") {
            self.tavern.gamble_result = Some(GambleResult::SilverChange(val.into("gold gamble")?));
        } else if key_is(key, "gamblecoinvalue") {
            self.tavern.gamble_result = Some(
                GambleResult::MushroomChange(val.into_i32("gold gamble")?),
            );
        } else if key_is(key, "dailytaskrewardpreview") {
            let data = val.into_list("daily task reward preview")?;
            parse_chests(&data, &mut self.specials.tasks.daily.rewards)?;
        } else if key_is(key, "eventtaskrewardpreview") {
            let data = val.into_list("event task reward preview")?;
            parse_chests(&data, &mut self.specials.tasks.event.rewards)?;
        } else if key_is(key, "dummies") {
            let data = val.into_list("manequin")?;
            self.character.manequin = Some(Equipment::parse(&data)?);
        } else if key_is(key, "achievement") {
            let data = val.into_list("achievements")?;
            self.achievements.update(&data)?;
        } else if key_is(key, "idle") {
            let data = val.into_big_list("idle game")?;
            self.idle_game = IdleGame::parse_idle_game(&data, st);
        } else if key_is(key, "resources") {
            let data = val.into_list("resources")?;
            self.update_resources(&data)?;
        } else if key_is(key, "smith") {
            let data = val.into_list("smith")?;
            let mut bs = match self.blacksmith {
                Some(b) => b,
                None => Blacksmith::default(),
            };
            self.blacksmith = Some(bs);
            bs.dismantle_left = csiget_u8(&data, 0, "dismantles left", 0)?;
            self.blacksmith = Some(bs);
            bs.last_dismantled = cstget(&data, 1, "bs time", st)?;
            self.blacksmith = Some(bs);
        } else if key_is(key, "gtsave") {
            let data = val.into_list("gtsave")?;
            let mut h = Hellevator::default();
            h.update(&data, st)?;
            self.hellevator.active = Some(h);
        } else if key_is(key, "expeditionevent") {
            let data = val.into_list("exp event")?;
            self.tavern.expeditions.update_times(&data, st)?;
        } else if key_is(key, "expeditions") {
            let data = val.into_list("exp event")?;
            self.tavern.expeditions.update_available(&data);
        } else if key_is(key, "expeditionmonster") {
            let data = val.into_list("expedition monster")?;
            self.tavern.expeditions.update_boss(&data)?;
        } else if key_is(key, "expeditionhalftime") {
            let data = val.into_list("halftime exp")?;
            self.tavern.expeditions.update_halftime(&data)?;
        } else if key_is(key, "expeditionstate") {
            let data = val.into_list("exp state")?;
            self.tavern.expeditions.update_state(&data, st)?;
        } else if key_is(key, "expeditioncrossroad") {
            let data = val.into_list("cross")?;
            self.tavern.expeditions.update_crossroads(&data);
        } else if key_is(key, "dicereward") {
            let raw = val.into_list_u32("dice reward")?;
            let data = widen(&raw);
            proof {
                assert(data@ =~= widened(raw@));
                if val.value@.len() == 0 {
                    assert(raw@ =~= Seq::<u32>::empty());
                }
            }
            let first = cget(&data, 0, "dice reward")?;
            let typ = first - 1;
            let wrapped = if typ < 0 { 4294967295 } else { typ };
            let win_typ = match DiceType::from_i64(wrapped) {
                Some(d) => d,
                None => return Err(bad_value("dice reward", wrapped)),
            };
            let amount = cget(&data, 1, "dice reward amount")?;
            self.tavern.dice_game.reward = Some(DiceReward { win_typ, amount: raw[1] });
        } else {
            return Ok(false);
        }
        Ok(true)
    }
}

/// The companion `after` is `before` read from the tower values of
/// companion `i`: its level, its equipment of 10 items 12 values apart, and
/// its attributes (each where the values reach).
pub open spec fn companion_read(before: Companion, d: Seq<i64>, i: int, after: Companion) -> bool {
    let start = 3 + 148 * i;
    &&& start < d.len()
    &&& after.level == d[start]
    &&& after.equipment.0@ == spec_equipment_at(d, start + 22)
    &&& forall|j: int|
        0 <= j < 5 ==> #[trigger] after.attributes@[j] == if start + 4 + j < d.len() {
            soft_u32(d[start + 4 + j], 0)
        } else {
            before.attributes@[j]
        }
}

/// Updates the companions from the tower values: each companion's values
/// start 148 values after the previous one, from position 3 on.
fn update_companions(comps: &mut [Companion; 3], data: &[i64]) -> (r: Result<(), SFError>)
    ensures
        data@.len() >= 448 ==> r is Ok,
        r is Ok ==> forall|i: int| 0 <= i < 3 ==> #[trigger] companion_read(old(comps)@[i], data@, i, final(comps)@[i]),
{
    let len = data.len();
    let mut i: usize = 0;
    while i < 3
        invariant
            i <= 3,
            len == data@.len(),
            forall|k: int| 0 <= k < i ==> #[trigger] companion_read(old(comps)@[k], data@, k, comps@[k]),
            forall|k: int| i <= k < 3 ==> #[trigger] comps@[k] == old(comps)@[k],
        decreases 3 - i,
    {
        let comp_start = 3 + i * 148;
        let level = cget(data, comp_start, "comp level")?;
        comps[i].level = level;
        let equipment = equipment_at(data, comp_start + 22)?;
        comps[i].equipment = equipment;
        let attrs = skip(data, comp_start + 4, "comp attrs")?;
        let mut attributes = comps[i].attributes;
        update_enum_map(&mut attributes, attrs);
        comps[i].attributes = attributes;
        i = i + 1;
    }
    Ok(())
}

proof fn lemma_guild_keys_distinct()
    ensures
        "owngroupname"@ != "owngrouprank"@,
        "owngroupname"@ != "owngroupsave"@,
        "owngroupname"@ != "owngroupmember"@,
        "owngroupname"@ != "owngrouppotion"@,
        "owngroupname"@ != "owngroupdescription"@,
        "owngroupname"@ != "owngroupknights"@,
        "owngroupname"@ != "groupskillprice"@,
        "owngroupname"@ != "chathistory"@,
        "owngroupname"@ != "chatwhisper"@,
        "owngrouprank"@ != "owngroupsave"@,
        "owngrouprank"@ != "owngroupmember"@,
        "owngrouprank"@ != "owngrouppotion"@,
        "owngrouprank"@ != "owngroupdescription"@,
        "owngrouprank"@ != "owngroupknights"@,
        "owngrouprank"@ != "groupskillprice"@,
        "owngrouprank"@ != "chathistory"@,
        "owngrouprank"@ != "chatwhisper"@,
        "owngroupsave"@ != "owngroupmember"@,
        "owngroupsave"@ != "owngrouppotion"@,
        "owngroupsave"@ != "owngroupdescription"@,
        "owngroupsave"@ != "owngroupknights"@,
        "owngroupsave"@ != "groupskillprice"@,
        "owngroupsave"@ != "chathistory"@,
        "owngroupsave"@ != "chatwhisper"@,
        "owngroupmember"@ != "owngrouppotion"@,
        "owngroupmember"@ != "owngroupdescription"@,
        "owngroupmember"@ != "owngroupknights"@,
        "owngroupmember"@ != "groupskillprice"@,
        "owngroupmember"@ != "chathistory"@,
        "owngroupmember"@ != "chatwhisper"@,
        "owngrouppotion"@ != "owngroupdescription"@,
        "owngrouppotion"@ != "owngroupknights"@,
        "owngrouppotion"@ != "groupskillprice"@,
        "owngrouppotion"@ != "chathistory"@,
        "owngrouppotion"@ != "chatwhisper"@,
        "owngroupdescription"@ != "owngroupknights"@,
        "owngroupdescription"@ != "groupskillprice"@,
        "owngroupdescription"@ != "chathistory"@,
        "owngroupdescription"@ != "chatwhisper"@,
        "owngroupknights"@ != "groupskillprice"@,
        "owngroupknights"@ != "chathistory"@,
        "owngroupknights"@ != "chatwhisper"@,
        "groupskillprice"@ != "chathistory"@,
        "groupskillprice"@ != "chatwhisper"@,
        "chathistory"@ != "chatwhisper"@,
{
    reveal_strlit("owngroupname");
    reveal_strlit("owngrouprank");
    reveal_strlit("owngroupsave");
    reveal_strlit("owngroupmember");
    reveal_strlit("owngrouppotion");
    reveal_strlit("owngroupdescription");
    reveal_strlit("owngroupknights");
    reveal_strlit("groupskillprice");
    reveal_strlit("chathistory");
    reveal_strlit("chatwhisper");
    assert("owngroupname"@[8] != "owngrouprank"@[8]);
    assert("owngroupname"@[8] != "owngroupsave"@[8]);
    assert("owngroupname"@.len() != "owngroupmember"@.len());
    assert("owngroupname"@.len() != "owngrouppotion"@.len());
    assert("owngroupname"@.len() != "owngroupdescription"@.len());
    assert("owngroupname"@.len() != "owngroupknights"@.len());
    assert("owngroupname"@.len() != "groupskillprice"@.len());
    assert("owngroupname"@.len() != "chathistory"@.len());
    assert("owngroupname"@.len() != "chatwhisper"@.len());
    assert("owngrouprank"@[8] != "owngroupsave"@[8]);
    assert("owngrouprank"@.len() != "owngroupmember"@.len());
    assert("owngrouprank"@.len() != "owngrouppotion"@.len());
    assert("owngrouprank"@.len() != "owngroupdescription"@.len());
    assert("owngrouprank"@.len() != "owngroupknights"@.len());
    assert("owngrouprank"@.len() != "groupskillprice"@.len());
    assert("owngrouprank"@.len() != "chathistory"@.len());
    assert("owngrouprank"@.len() != "chatwhisper"@.len());
    assert("owngroupsave"@.len() != "owngroupmember"@.len());
    assert("owngroupsave"@.len() != "owngrouppotion"@.len());
    assert("owngroupsave"@.len() != "owngroupdescription"@.len());
    assert("owngroupsave"@.len() != "owngroupknights"@.len());
    assert("owngroupsave"@.len() != "groupskillprice"@.len());
    assert("owngroupsave"@.len() != "chathistory"@.len());
    assert("owngroupsave"@.len() != "chatwhisper"@.len());
    assert("owngroupmember"@[8] != "owngrouppotion"@[8]);
    assert("owngroupmember"@.len() != "owngroupdescription"@.len());
    assert("owngroupmember"@.len() != "owngroupknights"@.len());
    assert("owngroupmember"@.len() != "groupskillprice"@.len());
    assert("owngroupmember"@.len() != "chathistory"@.len());
    assert("owngroupmember"@.len() != "chatwhisper"@.len());
    assert("owngrouppotion"@.len() != "owngroupdescription"@.len());
    assert("owngrouppotion"@.len() != "owngroupknights"@.len());
    assert("owngrouppotion"@.len() != "groupskillprice"@.len());
    assert("owngrouppotion"@.len() != "chathistory"@.len());
    assert("owngrouppotion"@.len() != "chatwhisper"@.len());
    assert("owngroupdescription"@.len() != "owngroupknights"@.len());
    assert("owngroupdescription"@.len() != "groupskillprice"@.len());
    assert("owngroupdescription"@.len() != "chathistory"@.len());
    assert("owngroupdescription"@.len() != "chatwhisper"@.len());
    assert("owngroupknights"@[0] != "groupskillprice"@[0]);
    assert("owngroupknights"@.len() != "chathistory"@.len());
    assert("owngroupknights"@.len() != "chatwhisper"@.len());
    assert("groupskillprice"@.len() != "chathistory"@.len());
    assert("groupskillprice"@.len() != "chatwhisper"@.len());
    assert("chathistory"@[4] != "chatwhisper"@[4]);
}

/// Whether the value `v` of key `k` about the own guild can be read.
pub open spec fn guild_value_ok(k: Seq<char>, v: Seq<char>) -> bool {
    if k == "owngrouprank"@ {
        decimal_u32(trim_white(v)) is Some
    } else if k == "owngroupsave"@ {
        Guild::spec_group_valid(spec_group_values(v))
    } else if k == "groupskillprice"@ {
        list_ok(v) && list_of(v).len() >= 4
    } else {
        true
    }
}

/// What reading the value `v` of key `k` does to the own guild: its name,
/// its rank, its group save, the names, potions or knights of its members,
/// its emblem and description, its skill prices, its chat or its whispers;
/// other keys leave it as it is.
pub open spec fn guild_value_set(before: Guild, k: Seq<char>, v: Seq<char>, st: ServerTime, after: Guild) -> bool {
    let d = list_of(v);
    if k == "owngroupname"@ {
        after == (Guild { name: after.name, ..before }) && after.name@ == v
    } else if k == "owngrouprank"@ {
        after == (Guild { rank: decimal_u32(trim_white(v))->0, ..before })
    } else if k == "owngroupsave"@ {
        Guild::group_updated(before, after, spec_group_values(v), st)
    } else if k == "owngroupmember"@ {
        Guild::spec_members_named(before, after, v)
    } else if k == "owngrouppotion"@ {
        Guild::spec_potions_read(before, after, v)
    } else if k == "owngroupdescription"@ {
        Guild::spec_description_read(before, after, v)
    } else if k == "owngroupknights"@ {
        Guild::spec_knights_read(before, after, v)
    } else if k == "groupskillprice"@ {
        after.own_treasure_upgrade == (NormalCost { silver: soft_u64(d[0], 0), mushrooms: soft_u16(d[1], 0) })
            && after.own_instructor_upgrade == (NormalCost {
            silver: soft_u64(d[2], 0),
            mushrooms: soft_u16(d[3], 0),
        })
    } else if k == "chathistory"@ {
        after == (Guild { chat: after.chat, ..before }) && message_views(after.chat@)
            == spec_messages(split_text(v, '/'))
    } else if k == "chatwhisper"@ {
        after == (Guild { whispers: after.whispers, ..before }) && message_views(after.whispers@)
            == spec_messages(split_text(v, '/'))
    } else {
        after == before
    }
}

impl GameState {
    /// Applies the keys about the guild, the fortress, the underworld, the
    /// dungeons and the pets. Returns whether the key was one of them.
    #[verifier::spinoff_prover]
    fn apply_world_keys(&mut self, key: &str, val: &ResponseVal, st: ServerTime) -> (r: Result<
        bool,
        SFError,
    >)
        ensures
            world_keys(key@) && world_error_named(key@, val.value@) ==> (r matches Err(e)
                ==> world_error(key@, val.value@, e)),
            world_keys(key@) && world_error_named(key@, val.value@) && r is Ok ==> world_value_ok(
                key@,
                val.value@,
            ),
            world_keys(key@) && world_value_ok(key@, val.value@) ==> r is Ok,
            tracked_same(*old(self), *final(self)),
            r matches Ok(false) ==> *final(self) == *old(self),
            !world_keys(key@) ==> r == Ok::<bool, SFError>(false),
            final(self).character.level == old(self).character.level,
            r matches Ok(b) ==> b == world_keys(key@),
            guild_keys(key@) ==> (r is Ok <==> guild_value_ok(key@, val.value@)),
            guild_keys(key@) && r is Ok ==> (final(self).guild matches Some(g) && exists|b: Guild|
                #[trigger] guild_base(old(self).guild, b) && guild_value_set(b, key@, val.value@, st, g)),
            fortress_keys(key@) ==> (r is Ok <==> fortress_value_ok(key@, val.value@)),
            fortress_keys(key@) && r is Ok ==> (final(self).fortress matches Some(f) && exists|b: Fortress|
                #[trigger] fortress_base(old(self).fortress, b) && fortress_value_set(b, key@, val.value@, f)),
            pet_keys(key@) ==> (r is Ok <==> pet_value_ok(key@, val.value@)),
            pet_keys(key@) && r is Ok ==> (final(self).pets matches Some(p) && exists|b: Pets|
                #[trigger] pets_base(old(self).pets, b) && pet_value_set(b, key@, val.value@, st, p)),
            r is Ok ==> world_applied(*old(self), key@, val.value@, st, *final(self)),
            key@ == "singleportalenemylevel"@ ==> r == Ok::<bool, SFError>(true) && (
            final(self).dungeons.portal matches Some(p) && p.enemy_level == match decimal_u32(
                trim_white(val.value@),
            ) {
                Some(x) => x,
                None => u32::MAX,
            }),
    {
        proof {
            lemma_world_keys_distinct();
        }
        if key_is(key, "owngroupname") || key_is(key, "owngrouprank") || key_is(key, "owngroupsave")
            || key_is(key, "owngroupmember") || key_is(key, "owngrouppotion") || key_is(
            key,
            "owngroupdescription",
        ) || key_is(key, "owngroupknights") || key_is(key, "groupskillprice") || key_is(
            key,
            "chathistory",
        ) || key_is(key, "chatwhisper") {
            let mut g = match self.guild.take() {
                Some(g) => g,
                None => Guild::default(),
            };
            let ghost b = g;
            assert(guild_base(old(self).guild, b));
            let res = Self::apply_guild_key(&mut g, key, val, st);
            self.guild = Some(g);
            res?;
        } else if key_is(key, "unitprice") || key_is(key, "upgradeprice") || key_is(key, "unitlevel")
            || key_is(key, "fortressprice") || key_is(key, "stoneperhournextlevel") || key_is(
            key,
            "woodperhournextlevel",
        ) || key_is(key, "fortresspricereroll") || key_is(key, "fortresswalllevel") || key_is(
            key,
            "maxupgradelevel",
        ) || key_is(key, "fortressGroupPrice") {
            let mut f = match self.fortress.take() {
                Some(f) => f,
                None => Fortress::default(),
            };
            let ghost b = f;
            assert(fortress_base(old(self).fortress, b));
            let res = apply_fortress_key(&mut f, key, val);
            self.fortress = Some(f);
            res?;
        } else if key_is(key, "witch") {
            let data = val.into_list("witch")?;
            let mut w = match self.witch.take() {
                Some(w) => w,
                None => Witch::default(),
            };
            let ghost b = w;
            assert(witch_base(old(self).witch, b));
            let res = w.update(&data);
            self.witch = Some(w);
            res?;
        } else if key_is(key, "underworldupgradeprice") {
            let data = val.into_list("underworld upgrade prices")?;
            let mut u = match self.underworld.take() {
                Some(u) => u,
                None => Underworld::default(),
            };
            let ghost b = u;
            assert(underworld_base(old(self).underworld, b));
            let res = u.update_underworld_unit_prices(&data);
            self.underworld = Some(u);
            res?;
        } else if key_is(key, "underworldprice") {
            let data = val.into_list("ub prices")?;
            let mut u = match self.underworld.take() {
                Some(u) => u,
                None => Underworld::default(),
            };
            let ghost b = u;
            assert(underworld_base(old(self).underworld, b));
            let res = u.update_building_prices(&data);
            self.underworld = Some(u);
            res?;
        } else if key_is(key, "owntower") {
            let data = val.into_list("tower")?;
            let mut comps = match self.dungeons.companions.take() {
                Some(c) => c,
                None => [Companion::default(), Companion::default(), Companion::default()],
            };
            let ghost bc = comps;
            assert(based_on(old(self).dungeons.companions, bc));
            let res = update_companions(&mut comps, &data);
            self.dungeons.companions = Some(comps);
            res?;
            let mut u = match self.underworld.take() {
                Some(u) => u,
                None => Underworld::default(),
            };
            let ghost b = u;
            assert(underworld_base(old(self).underworld, b));
            let res = u.update(&data, st);
            self.underworld = Some(u);
            res?;
        } else if key_is(key, "dungeonprogresslight") {
            let data = val.into_list("dungeon progress light")?;
            self.dungeons.update_progress(&data, DungeonType::Light);
        } else if key_is(key, "dungeonprogressshadow") {
            let data = val.into_list("dungeon progress shadow")?;
            self.dungeons.update_progress(&data, DungeonType::Shadow);
        } else if key_is(key, "portalprogress") {
            let data = val.into_list("portal progress")?;
            let mut p = match self.dungeons.portal {
                Some(p) => p,
                None => Portal::default(),
            };
            let ghost b = p;
            assert(portal_base(old(self).dungeons.portal, b));
            let res = p.update(&data, st);
            self.dungeons.portal = Some(p);
            res?;
        } else if key_is(key, "singleportalenemylevel") {
            let mut p = match self.dungeons.portal {
                Some(p) => p,
                None => Portal::default(),
            };
            p.enemy_level = match val.into_u32("portal lvl") {
                Ok(v) => v,
                Err(_) => u32::MAX,
            };
            self.dungeons.portal = Some(p);
        } else if key_is(key, "maxpetlevel") || key_is(key, "ownpetsstats") || key_is(key, "ownpets")
            || key_is(key, "petsdefensetype") || key_is(key, "petsrank") {
            let mut p = match self.pets.take() {
                Some(p) => p,
                None => Pets::default(),
            };
            let ghost b = p;
            assert(pets_base(old(self).pets, b));
            let res = apply_pet_key(&mut p, key, val, st);
            self.pets = Some(p);
            res?;
        } else {
            return Ok(false);
        }
        Ok(true)
    }

    /// Applies a key about the own guild to it.
    fn apply_guild_key(g: &mut Guild, key: &str, val: &ResponseVal, st: ServerTime) -> (r: Result<(), SFError>)
        ensures
            guild_error_named(key@, val.value@) ==> (r matches Err(e) ==> guild_error(key@, val.value@, e)),
            r is Ok <==> guild_value_ok(key@, val.value@),
            r is Ok ==> guild_value_set(*old(g), key@, val.value@, st, *final(g)),
    {
        proof {
            lemma_guild_keys_distinct();
        }
        if key_is(key, "owngroupname") {
            g.name = val.as_str().to_string();
        } else if key_is(key, "owngrouprank") {
            g.rank = val.into_u32("group rank")?;
        } else if key_is(key, "owngroupsave") {
            g.update_group_save(val.as_str(), st)?;
        } else if key_is(key, "owngroupmember") {
            g.update_member_names(val.as_str());
        } else if key_is(key, "owngrouppotion") {
            g.update_member_potions(val.as_str());
        } else if key_is(key, "owngroupdescription") {
            g.update_description_embed(val.as_str());
        } else if key_is(key, "owngroupknights") {
            g.update_group_knights(val.as_str());
        } else if key_is(key, "groupskillprice") {
            let data = val.into_list("guild skill prices")?;
            g.update_group_prices(&data)?;
        } else if key_is(key, "chathistory") {
            g.chat = ChatMessage::parse_messages(val.as_str());
        } else if key_is(key, "chatwhisper") {
            g.whispers = ChatMessage::parse_messages(val.as_str());
        }
        Ok(())
    }
}

proof fn lemma_fortress_keys_distinct()
    ensures
        "unitprice"@ != "upgradeprice"@,
        "unitprice"@ != "unitlevel"@,
        "unitprice"@ != "fortressprice"@,
        "unitprice"@ != "stoneperhournextlevel"@,
        "unitprice"@ != "woodperhournextlevel"@,
        "unitprice"@ != "fortresspricereroll"@,
        "unitprice"@ != "fortresswalllevel"@,
        "unitprice"@ != "maxupgradelevel"@,
        "unitprice"@ != "fortressGroupPrice"@,
        "upgradeprice"@ != "unitlevel"@,
        "upgradeprice"@ != "fortressprice"@,
        "upgradeprice"@ != "stoneperhournextlevel"@,
        "upgradeprice"@ != "woodperhournextlevel"@,
        "upgradeprice"@ != "fortresspricereroll"@,
        "upgradeprice"@ != "fortresswalllevel"@,
        "upgradeprice"@ != "maxupgradelevel"@,
        "upgradeprice"@ != "fortressGroupPrice"@,
        "unitlevel"@ != "fortressprice"@,
        "unitlevel"@ != "stoneperhournextlevel"@,
        "unitlevel"@ != "woodperhournextlevel"@,
        "unitlevel"@ != "fortresspricereroll"@,
        "unitlevel"@ != "fortresswalllevel"@,
        "unitlevel"@ != "maxupgradelevel"@,
        "unitlevel"@ != "fortressGroupPrice"@,
        "fortressprice"@ != "stoneperhournextlevel"@,
        "fortressprice"@ != "woodperhournextlevel"@,
        "fortressprice"@ != "fortresspricereroll"@,
        "fortressprice"@ != "fortresswalllevel"@,
        "fortressprice"@ != "maxupgradelevel"@,
        "fortressprice"@ != "fortressGroupPrice"@,
        "stoneperhournextlevel"@ != "woodperhournextlevel"@,
        "stoneperhournextlevel"@ != "fortresspricereroll"@,
        "stoneperhournextlevel"@ != "fortresswalllevel"@,
        "stoneperhournextlevel"@ != "maxupgradelevel"@,
        "stoneperhournextlevel"@ != "fortressGroupPrice"@,
        "woodperhournextlevel"@ != "fortresspricereroll"@,
        "woodperhournextlevel"@ != "fortresswalllevel"@,
        "woodperhournextlevel"@ != "maxupgradelevel"@,
        "woodperhournextlevel"@ != "fortressGroupPrice"@,
        "fortresspricereroll"@ != "fortresswalllevel"@,
        "fortresspricereroll"@ != "maxupgradelevel"@,
        "fortresspricereroll"@ != "fortressGroupPrice"@,
        "fortresswalllevel"@ != "maxupgradelevel"@,
        "fortresswalllevel"@ != "fortressGroupPrice"@,
        "maxupgradelevel"@ != "fortressGroupPrice"@,
{
    reveal_strlit("unitprice");
    reveal_strlit("upgradeprice");
    reveal_strlit("unitlevel");
    reveal_strlit("fortressprice");
    reveal_strlit("stoneperhournextlevel");
    reveal_strlit("woodperhournextlevel");
    reveal_strlit("fortresspricereroll");
    reveal_strlit("fortresswalllevel");
    reveal_strlit("maxupgradelevel");
    reveal_strlit("fortressGroupPrice");
    assert("unitprice"@.len() != "upgradeprice"@.len());
    assert("unitprice"@[4] != "unitlevel"@[4]);
    assert("unitprice"@.len() != "fortressprice"@.len());
    assert("unitprice"@.len() != "stoneperhournextlevel"@.len());
    assert("unitprice"@.len() != "woodperhournextlevel"@.len());
    assert("unitprice"@.len() != "fortresspricereroll"@.len());
    assert("unitprice"@.len() != "fortresswalllevel"@.len());
    assert("unitprice"@.len() != "maxupgradelevel"@.len());
    assert("unitprice"@.len() != "fortressGroupPrice"@.len());
    assert("upgradeprice"@.len() != "unitlevel"@.len());
    assert("upgradeprice"@.len() != "fortressprice"@.len());
    assert("upgradeprice"@.len() != "stoneperhournextlevel"@.len());
    assert("upgradeprice"@.len() != "woodperhournextlevel"@.len());
    assert("upgradeprice"@.len() != "fortresspricereroll"@.len());
    assert("upgradeprice"@.len() != "fortresswalllevel"@.len());
    assert("upgradeprice"@.len() != "maxupgradelevel"@.len());
    assert("upgradeprice"@.len() != "fortressGroupPrice"@.len());
    assert("unitlevel"@.len() != "fortressprice"@.len());
    assert("unitlevel"@.len() != "stoneperhournextlevel"@.len());
    assert("unitlevel"@.len() != "woodperhournextlevel"@.len());
    assert("unitlevel"@.len() != "fortresspricereroll"@.len());
    assert("unitlevel"@.len() != "fortresswalllevel"@.len());
    assert("unitlevel"@.len() != "maxupgradelevel"@.len());
    assert("unitlevel"@.len() != "fortressGroupPrice"@.len());
    assert("fortressprice"@.len() != "stoneperhournextlevel"@.len());
    assert("fortressprice"@.len() != "woodperhournextlevel"@.len());
    assert("fortressprice"@.len() != "fortresspricereroll"@.len());
    assert("fortressprice"@.len() != "fortresswalllevel"@.len());
    assert("fortressprice"@.len() != "maxupgradelevel"@.len());
    assert("fortressprice"@.len() != "fortressGroupPrice"@.len());
    assert("stoneperhournextlevel"@.len() != "woodperhournextlevel"@.len());
    assert("stoneperhournextlevel"@.len() != "fortresspricereroll"@.len());
    assert("stoneperhournextlevel"@.len() != "fortresswalllevel"@.len());
    assert("stoneperhournextlevel"@.len() != "maxupgradelevel"@.len());
    assert("stoneperhournextlevel"@.len() != "fortressGroupPrice"@.len());
    assert("woodperhournextlevel"@.len() != "fortresspricereroll"@.len());
    assert("woodperhournextlevel"@.len() != "fortresswalllevel"@.len());
    assert("woodperhournextlevel"@.len() != "maxupgradelevel"@.len());
    assert("woodperhournextlevel"@.len() != "fortressGroupPrice"@.len());
    assert("fortresspricereroll"@.len() != "fortresswalllevel"@.len());
    assert("fortresspricereroll"@.len() != "maxupgradelevel"@.len());
    assert("fortresspricereroll"@.len() != "fortressGroupPrice"@.len());
    assert("fortresswalllevel"@.len() != "maxupgradelevel"@.len());
    assert("fortresswalllevel"@.len() != "fortressGroupPrice"@.len());
    assert("maxupgradelevel"@.len() != "fortressGroupPrice"@.len());
}

/// Whether the value `v` of key `k` about the fortress can be read.
pub open spec fn fortress_value_ok(k: Seq<char>, v: Seq<char>) -> bool {
    if k == "unitprice"@ {
        list_ok(v) && list_of(v).len() >= 12
    } else if k == "upgradeprice"@ {
        list_ok(v) && list_of(v).len() >= 9
    } else if k == "unitlevel"@ {
        list_ok(v) && list_of(v).len() >= 4
    } else if k == "fortressprice"@ {
        list_ok(v) && list_of(v).len() >= 52
    } else if k == "stoneperhournextlevel"@ || k == "woodperhournextlevel"@ || k
        == "fortresspricereroll"@ {
        decimal_u64(trim_white(v)) is Some
    } else if k == "fortresswalllevel"@ {
        decimal_u16(trim_white(v)) is Some
    } else if k == "maxupgradelevel"@ {
        decimal_u16(trim_white(v)) matches Some(x) && x <= 255
    } else if k == "fortressGroupPrice"@ {
        list_ok(v) && list_of(v).len() >= 4
    } else {
        true
    }
}

/// Holds where `after` is `before` with the production per hour on the next
/// level of resource `i` set to `x`.
pub open spec fn next_production_set(before: Fortress, i: int, x: u64, after: Fortress) -> bool {
    &&& after == (Fortress { resources: after.resources, ..before })
    &&& forall|j: int|
        0 <= j < 3 ==> #[trigger] after.resources[j] == if j == i {
            FortressResource {
                production: FortressProduction { per_hour_next_lvl: x, ..before.resources[j].production },
                ..before.resources[j]
            }
        } else {
            before.resources[j]
        }
}

/// What reading the value `v` of key `k` does to the fortress: unit prices,
/// unit upgrades, unit levels, building prices, the production on the next
/// level, the reroll price, the wall level, the highest building level or
/// the prices of the hall of knights; other keys leave it as it is.
pub open spec fn fortress_value_set(before: Fortress, k: Seq<char>, v: Seq<char>, after: Fortress) -> bool {
    let d = list_of(v);
    if k == "unitprice"@ {
        &&& forall|i: int|
            0 <= i < 3 ==> #[trigger] after.units[i] == (FortressUnit {
                training: FortressAction {
                    cost: FortressCost::spec_parse(d.skip(4 * i)),
                    ..before.units[i].training
                },
                ..before.units[i]
            })
        &&& after.buildings == before.buildings && after.resources == before.resources
    } else if k == "upgradeprice"@ {
        &&& forall|i: int|
            0 <= i < 3 ==> #[trigger] after.units[i] == (FortressUnit {
                upgrade_next_lvl: soft_u64(d[3 * i], 0),
                upgrade_cost: FortressCost {
                    stone: soft_u64(d[3 * i + 1], 0),
                    wood: soft_u64(d[3 * i + 2], 0),
                    ..before.units[i].upgrade_cost
                },
                ..before.units[i]
            })
        &&& after.buildings == before.buildings && after.resources == before.resources
    } else if k == "unitlevel"@ {
        &&& forall|i: int|
            0 <= i < 3 ==> #[trigger] after.units[i] == (FortressUnit {
                level: soft_u16(d[i + 1], 0),
                ..before.units[i]
            })
        &&& after.buildings == before.buildings && after.resources == before.resources
    } else if k == "fortressprice"@ {
        &&& forall|i: int|
            0 <= i < 12 ==> #[trigger] after.buildings[i] == (FortressBuilding {
                upgrade_cost: FortressCost::spec_parse(d.skip(4 * i)),
                ..before.buildings[i]
            })
        &&& after.gem_search.cost == FortressCost::spec_parse(d.skip(48))
        &&& after.units == before.units && after.resources == before.resources
    } else if k == "stoneperhournextlevel"@ {
        next_production_set(
            before,
            FortressResourceType::Stone.spec_index() as int,
            decimal_u64(trim_white(v))->0,
            after,
        )
    } else if k == "woodperhournextlevel"@ {
        next_production_set(
            before,
            FortressResourceType::Wood.spec_index() as int,
            decimal_u64(trim_white(v))->0,
            after,
        )
    } else if k == "fortresspricereroll"@ {
        after == (Fortress { opponent_reroll_price: decimal_u64(trim_white(v))->0, ..before })
    } else if k == "fortresswalllevel"@ {
        after == (Fortress { wall_combat_lvl: decimal_u16(trim_white(v))->0, ..before })
    } else if k == "maxupgradelevel"@ {
        after == (Fortress { building_max_lvl: decimal_u16(trim_white(v))->0 as u8, ..before })
    } else if k == "fortressGroupPrice"@ {
        after == (Fortress { hall_of_knights_upgrade_price: FortressCost::spec_parse(d), ..before })
    } else {
        after == before
    }
}

/// Applies a key about the fortress to it.
fn apply_fortress_key(f: &mut Fortress, key: &str, val: &ResponseVal) -> (r: Result<(), SFError>)
    ensures
        fortress_error_named(key@, val.value@) ==> (r matches Err(e) ==> fortress_error(key@, val.value@, e)),
        r is Ok <==> fortress_value_ok(key@, val.value@),
        r is Ok ==> fortress_value_set(*old(f), key@, val.value@, *final(f)),
{
    proof {
        lemma_fortress_keys_distinct();
    }
    if key_is(key, "unitprice") {
        let data = val.into_list("fortress units")?;
        f.update_unit_prices(&data)?;
    } else if key_is(key, "upgradeprice") {
        let data = val.into_list("fortress unit upgrade prices")?;
        f.update_unit_upgrade_info(&data)?;
    } else if key_is(key, "unitlevel") {
        let data = val.into_list("fortress unit levels")?;
        f.update_levels(&data)?;
    } else if key_is(key, "fortressprice") {
        let data = val.into_list("fortress upgrade prices")?;
        f.update_prices(&data)?;
    } else if key_is(key, "stoneperhournextlevel") {
        let v = val.into_u64("stone next lvl")?;
        f.resources[FortressResourceType::Stone.index()].production.per_hour_next_lvl = v;
    } else if key_is(key, "woodperhournextlevel") {
        let v = val.into_u64("wood next lvl")?;
        f.resources[FortressResourceType::Wood.index()].production.per_hour_next_lvl = v;
    } else if key_is(key, "fortresspricereroll") {
        f.opponent_reroll_price = val.into_u64("fortress reroll")?;
    } else if key_is(key, "fortresswalllevel") {
        f.wall_combat_lvl = val.into_u16("fortress wall lvl")?;
    } else if key_is(key, "maxupgradelevel") {
        let v = val.into_u16("max upgrade lvl")?;
        if v > 255 {
            return Err(SFError::ParsingError("max upgrade lvl", val.value.clone()));
        }
        f.building_max_lvl = v as u8;
    } else if key_is(key, "fortressGroupPrice") {
        let data = val.into_list("hall of knights prices")?;
        f.hall_of_knights_upgrade_price = FortressCost::parse(&data)?;
    }
    Ok(())
}

proof fn lemma_pet_keys_distinct()
    ensures
        "maxpetlevel"@ != "ownpetsstats"@,
        "maxpetlevel"@ != "ownpets"@,
        "maxpetlevel"@ != "petsdefensetype"@,
        "maxpetlevel"@ != "petsrank"@,
        "ownpetsstats"@ != "ownpets"@,
        "ownpetsstats"@ != "petsdefensetype"@,
        "ownpetsstats"@ != "petsrank"@,
        "ownpets"@ != "petsdefensetype"@,
        "ownpets"@ != "petsrank"@,
        "petsdefensetype"@ != "petsrank"@,
{
    reveal_strlit("maxpetlevel");
    reveal_strlit("ownpetsstats");
    reveal_strlit("ownpets");
    reveal_strlit("petsdefensetype");
    reveal_strlit("petsrank");
    assert("maxpetlevel"@.len() != "ownpetsstats"@.len());
    assert("maxpetlevel"@.len() != "ownpets"@.len());
    assert("maxpetlevel"@.len() != "petsdefensetype"@.len());
    assert("maxpetlevel"@.len() != "petsrank"@.len());
    assert("ownpetsstats"@.len() != "ownpets"@.len());
    assert("ownpetsstats"@.len() != "petsdefensetype"@.len());
    assert("ownpetsstats"@.len() != "petsrank"@.len());
    assert("ownpets"@.len() != "petsdefensetype"@.len());
    assert("ownpets"@.len() != "petsrank"@.len());
    assert("petsdefensetype"@.len() != "petsrank"@.len());
}

/// Whether the value `v` of key `k` about the pets can be read.
pub open spec fn pet_value_ok(k: Seq<char>, v: Seq<char>) -> bool {
    if k == "maxpetlevel"@ {
        decimal_u16(trim_white(v)) is Some
    } else if k == "ownpetsstats"@ {
        list_ok(v)
    } else if k == "ownpets"@ {
        list_ok(v) && list_of(v).len() >= 250
    } else if k == "petsdefensetype"@ {
        decimal_i64(trim_white(v)) matches Some(x) && HabitatType::spec_from_typ_id(x) is Some
    } else if k == "petsrank"@ {
        decimal_u32(trim_white(v)) is Some
    } else {
        true
    }
}

/// What reading the value `v` of key `k` does to the pets: it sets the
/// highest pet level, the statistics of a pet, the pet values, the
/// opponent's habitat or the rank; other keys leave the pets as they are.
pub open spec fn pet_value_set(before: Pets, k: Seq<char>, v: Seq<char>, st: ServerTime, after: Pets) -> bool {
    if k == "maxpetlevel"@ {
        after == (Pets { max_pet_level: decimal_u16(trim_white(v))->0, ..before })
    } else if k == "ownpetsstats"@ {
        Pets::spec_stat_updated(before, after, list_of(v))
    } else if k == "ownpets"@ {
        Pets::spec_updated(before, after, list_of(v), st)
    } else if k == "petsdefensetype"@ {
        after == (Pets {
            opponent: PetOpponent {
                habitat: HabitatType::spec_from_typ_id(decimal_i64(trim_white(v))->0),
                ..before.opponent
            },
            ..before
        })
    } else if k == "petsrank"@ {
        after == (Pets { rank: decimal_u32(trim_white(v))->0, ..before })
    } else {
        after == before
    }
}

/// Applies a key about the pets to them.
fn apply_pet_key(p: &mut Pets, key: &str, val: &ResponseVal, st: ServerTime) -> (r: Result<(), SFError>)
    ensures
        pet_error_named(key@, val.value@) ==> (r matches Err(e) ==> pet_error(key@, val.value@, e)),
        r is Ok <==> pet_value_ok(key@, val.value@),
        r is Ok ==> pet_value_set(*old(p), key@, val.value@, st, *final(p)),
{
    proof {
        lemma_pet_keys_distinct();
    }
    if key_is(key, "maxpetlevel") {
        p.max_pet_level = val.into_u16("max pet lvl")?;
    } else if key_is(key, "ownpetsstats") {
        let data = val.into_list("pet stats")?;
        p.update_pet_stat(&data);
    } else if key_is(key, "ownpets") {
        let data = val.into_list("own pets")?;
        p.update(&data, st)?;
    } else if key_is(key, "petsdefensetype") {
        let pet_id = val.into("pet def typ")?;
        match HabitatType::from_typ_id(pet_id) {
            Some(h) => {
                p.opponent.habitat = Some(h);
            },
            None => return Err(bad_value("pet def typ", pet_id)),
        }
    } else if key_is(key, "petsrank") {
        p.rank = val.into_u32("pet rank")?;
    }
    Ok(())
}

/// Applies a key about the halls of fame. Returns whether the key was one
/// of them.
fn apply_hof_key(h: &mut HallOfFames, key: &str, val: &ResponseVal) -> (r: Result<bool, SFError>)
    ensures
        key@ == "ranklistfortress"@ || key@ == "Ranklistfortress"@ ==> r == Ok::<bool, SFError>(true)
            && *final(h) == (HallOfFames { fortresses: final(h).fortresses, ..*old(h) })
            && hof_fortresses_read(final(h).fortresses@, val.value@),
        !(key@ == "ranklistfortress"@ || key@ == "Ranklistfortress"@) ==> r == Ok::<bool, SFError>(
            false,
        ) && *final(h) == *old(h),
{
    if key_is(key, "ranklistfortress") || key_is(key, "Ranklistfortress") {
        h.fortresses = read_hof_fortresses(val.as_str());
        Ok(true)
    } else {
        Ok(false)
    }
}

/// Holds where `b` is what was held in `o`, where something was; anything
/// where nothing was.
pub open spec fn based_on<T>(o: Option<T>, b: T) -> bool {
    o matches Some(x) ==> b == x
}

/// Applies a key about another player. Returns whether the key was one of
/// them.
fn apply_other_player_key(op: &mut Option<OtherPlayer>, key: &str, val: &ResponseVal, st: ServerTime) -> (r: Result<bool, SFError>)
    ensures
        (key@ == "otherplayer"@ || other_player_value_keys(key@)) && other_player_error_named(
            key@,
            val.value@,
        ) ==> (r matches Err(e) ==> other_player_error(key@, val.value@, e)),
        r matches Ok(false) ==> *final(op) == *old(op),
        !(key@ == "otherplayer"@ || other_player_value_keys(key@)) ==> r == Ok::<bool, SFError>(false),
        key@ == "otherplayer"@ ==> (r is Ok <==> list_ok(val.value@)),
        key@ == "otherplayer"@ && r is Ok ==> r == Ok::<bool, SFError>(true) && match *final(op) {
            Some(p) => OtherPlayer::spec_valid(list_of(val.value@)) && exists|b: OtherPlayer|
                #[trigger] based_on(*old(op), b) && OtherPlayer::spec_updated(b, p, list_of(val.value@), st),
            None => !OtherPlayer::spec_valid(list_of(val.value@)),
        },
        other_player_value_keys(key@) ==> (r is Ok <==> other_player_value_ok(key@, val.value@)),
        other_player_value_keys(key@) && r is Ok ==> r == Ok::<bool, SFError>(true) && (
        *final(op) matches Some(p) && exists|b: OtherPlayer|
            #[trigger] based_on(*old(op), b) && other_player_value_set(b, key@, val.value@, p)),
{
    proof {
        lemma_other_player_keys_distinct();
        reveal_strlit("otherplayer");
        reveal_strlit("otherdescription");
        reveal_strlit("otherplayergroupname");
        reveal_strlit("otherplayername");
        reveal_strlit("otherplayerfriendstatus");
        reveal_strlit("otherplayerpetbonus");
        reveal_strlit("otherplayerunitlevel");
        assert("otherplayer"@.len() != "otherdescription"@.len());
        assert("otherplayer"@.len() != "otherplayergroupname"@.len());
        assert("otherplayer"@.len() != "otherplayername"@.len());
        assert("otherplayer"@.len() != "otherplayerfriendstatus"@.len());
        assert("otherplayer"@.len() != "otherplayerpetbonus"@.len());
        assert("otherplayer"@.len() != "otherplayerunitlevel"@.len());
    }
    if key_is(key, "otherplayer") {
        let data = val.into_list("other player")?;
        let mut p = match op.take() {
            Some(p) => p,
            None => OtherPlayer::default(),
        };
        let ghost b = p;
        assert(based_on(*old(op), b));
        match p.update(&data, st) {
            Ok(()) => {
                *op = Some(p);
            },
            Err(_) => {
                *op = None;
            },
        }
        return Ok(true);
    }
    if !(key_is(key, "otherdescription") || key_is(key, "otherplayergroupname") || key_is(
        key,
        "otherplayername",
    ) || key_is(key, "otherplayerfriendstatus") || key_is(key, "otherplayerpetbonus") || key_is(
        key,
        "otherplayerunitlevel",
    )) {
        return Ok(false);
    }
    let mut p = match op.take() {
        Some(p) => p,
        None => OtherPlayer::default(),
    };
    let ghost b = p;
    assert(based_on(*old(op), b));
    let res = apply_other_player_value(&mut p, key, val);
    *op = Some(p);
    res?;
    Ok(true)
}

proof fn lemma_other_player_keys_distinct()
    ensures
        "otherdescription"@ != "otherplayergroupname"@,
        "otherdescription"@ != "otherplayername"@,
        "otherdescription"@ != "otherplayerfriendstatus"@,
        "otherdescription"@ != "otherplayerpetbonus"@,
        "otherdescription"@ != "otherplayerunitlevel"@,
        "otherplayergroupname"@ != "otherplayername"@,
        "otherplayergroupname"@ != "otherplayerfriendstatus"@,
        "otherplayergroupname"@ != "otherplayerpetbonus"@,
        "otherplayergroupname"@ != "otherplayerunitlevel"@,
        "otherplayername"@ != "otherplayerfriendstatus"@,
        "otherplayername"@ != "otherplayerpetbonus"@,
        "otherplayername"@ != "otherplayerunitlevel"@,
        "otherplayerfriendstatus"@ != "otherplayerpetbonus"@,
        "otherplayerfriendstatus"@ != "otherplayerunitlevel"@,
        "otherplayerpetbonus"@ != "otherplayerunitlevel"@,
{
    reveal_strlit("otherdescription");
    reveal_strlit("otherplayergroupname");
    reveal_strlit("otherplayername");
    reveal_strlit("otherplayerfriendstatus");
    reveal_strlit("otherplayerpetbonus");
    reveal_strlit("otherplayerunitlevel");
    assert("otherdescription"@.len() != "otherplayergroupname"@.len());
    assert("otherdescription"@.len() != "otherplayername"@.len());
    assert("otherdescription"@.len() != "otherplayerfriendstatus"@.len());
    assert("otherdescription"@.len() != "otherplayerpetbonus"@.len());
    assert("otherdescription"@.len() != "otherplayerunitlevel"@.len());
    assert("otherplayergroupname"@.len() != "otherplayername"@.len());
    assert("otherplayergroupname"@.len() != "otherplayerfriendstatus"@.len());
    assert("otherplayergroupname"@.len() != "otherplayerpetbonus"@.len());
    assert("otherplayergroupname"@[11] != "otherplayerunitlevel"@[11]);
    assert("otherplayername"@.len() != "otherplayerfriendstatus"@.len());
    assert("otherplayername"@.len() != "otherplayerpetbonus"@.len());
    assert("otherplayername"@.len() != "otherplayerunitlevel"@.len());
    assert("otherplayerfriendstatus"@.len() != "otherplayerpetbonus"@.len());
    assert("otherplayerfriendstatus"@.len() != "otherplayerunitlevel"@.len());
    assert("otherplayerpetbonus"@.len() != "otherplayerunitlevel"@.len());
}

/// The keys that hold a single value about another player.
pub open spec fn other_player_value_keys(k: Seq<char>) -> bool {
    k == "otherdescription"@ || k == "otherplayergroupname"@ || k == "otherplayername"@ || k
        == "otherplayerfriendstatus"@ || k == "otherplayerpetbonus"@ || k == "otherplayerunitlevel"@
}

/// Whether the value `v` of key `k` about another player can be read.
pub open spec fn other_player_value_ok(k: Seq<char>, v: Seq<char>) -> bool {
    if k == "otherplayerfriendstatus"@ {
        decimal_i32(trim_white(v)) is Some
    } else if k == "otherplayerpetbonus"@ {
        dice_list(v) matches Some(d) && d.len() >= 6
    } else if k == "otherplayerunitlevel"@ {
        list_ok(v) && list_of(v).len() >= 1
    } else {
        true
    }
}

/// What reading the value `v` of key `k` does to another player: it sets
/// the description, the guild, the name, the relationship, the pet bonus or
/// the wall level; other keys leave the player as it is.
pub open spec fn other_player_value_set(before: OtherPlayer, k: Seq<char>, v: Seq<char>, after: OtherPlayer) -> bool {
    if k == "otherdescription"@ {
        after == (OtherPlayer { description: after.description, ..before }) && after.description@
            == sf_text(v)
    } else if k == "otherplayergroupname"@ {
        after == (OtherPlayer { guild: after.guild, ..before }) && if v.len() == 0 {
            after.guild is None
        } else {
            after.guild matches Some(g) && g@ == v
        }
    } else if k == "otherplayername"@ {
        after == (OtherPlayer { name: after.name, ..before }) && after.name@ == v
    } else if k == "otherplayerfriendstatus"@ {
        after == (OtherPlayer { relationship: after.relationship, ..before }) && after.relationship
            == match Relationship::spec_from_i64(decimal_i32(trim_white(v))->0 as i64) {
            Some(x) => x,
            None => Relationship::Ignored,
        }
    } else if k == "otherplayerpetbonus"@ {
        let d = dice_list(v)->0;
        after.attribute_pet_bonus == [d[5], d[2], d[3], d[1], d[4]] && after.attribute_basis
            == before.attribute_basis && after.fortress == before.fortress
    } else if k == "otherplayerunitlevel"@ {
        after == (OtherPlayer { wall_combat_lvl: after.wall_combat_lvl, ..before })
            && after.wall_combat_lvl == soft_u16(list_of(v)[0], 0)
    } else {
        after == before
    }
}

/// Applies a single value about another player.
fn apply_other_player_value(p: &mut OtherPlayer, key: &str, val: &ResponseVal) -> (r: Result<(), SFError>)
    ensures
        other_player_error_named(key@, val.value@) ==> (r matches Err(e) ==> other_player_error(
            key@,
            val.value@,
            e,
        )),
        r is Ok <==> other_player_value_ok(key@, val.value@),
        r is Ok ==> other_player_value_set(*old(p), key@, val.value@, *final(p)),
{
    proof {
        reveal_strlit("otherplayer");
        reveal_strlit("otherplayerfriendstatus");
        reveal_strlit("otherplayerpetbonus");
        reveal_strlit("otherplayerunitlevel");
        assert("otherplayer"@.len() != "otherplayerfriendstatus"@.len());
        assert("otherplayer"@.len() != "otherplayerpetbonus"@.len());
        assert("otherplayer"@.len() != "otherplayerunitlevel"@.len());
    }
    proof {
        lemma_other_player_keys_distinct();
    }
    if key_is(key, "otherdescription") {
        p.description = from_sf_string(val.as_str());
    } else if key_is(key, "otherplayergroupname") {
        p.guild = if val.as_str().is_empty() {
            None
        } else {
            Some(val.as_str().to_string())
        };
    } else if key_is(key, "otherplayername") {
        p.name = val.as_str().to_string();
    } else if key_is(key, "otherplayerfriendstatus") {
        let raw = val.into_i32("other friend")?;
        p.relationship = match Relationship::from_i64(raw as i64) {
            Some(r) => r,
            None => Relationship::default(),
        };
    } else if key_is(key, "otherplayerpetbonus") {
        let data = val.into_list_u32("o pet bonus")?;
        proof {
            if val.value@.len() == 0 {
                assert(data@ =~= Seq::<u32>::empty());
            }
            assert(dice_list(val.value@) == Some(data@));
        }
        p.update_pet_bonus(&data)?;
    } else if key_is(key, "otherplayerunitlevel") {
        let data = val.into_list("other player unit level")?;
        p.wall_combat_lvl = csiget_u16(&data, 0, "wall_lvl", 0)?;
        assert(*p == (OtherPlayer { wall_combat_lvl: p.wall_combat_lvl, ..*old(p) }));
    }
    Ok(())
}

/// Applies a key about another guild. Returns whether the key was one of
/// them.
fn apply_other_guild_key(og: &mut Option<OtherGuild>, key: &str, val: &ResponseVal, st: ServerTime) -> (r: Result<bool, SFError>)
    ensures
        other_guild_value_keys(key@) && other_guild_error_named(key@, val.value@) ==> (r matches Err(
            e,
        ) ==> other_guild_error(key@, val.value@, e)),
        r matches Ok(false) ==> *final(og) == *old(og),
        !other_guild_value_keys(key@) ==> r == Ok::<bool, SFError>(false),
        other_guild_value_keys(key@) ==> (r is Ok <==> other_guild_value_ok(key@, val.value@)),
        other_guild_value_keys(key@) && r is Ok ==> r == Ok::<bool, SFError>(true) && (
        *final(og) matches Some(g) && exists|b: OtherGuild|
            #[trigger] based_on(*old(og), b) && other_guild_value_set(b, key@, val.value@, st, g)),
{
    if !(key_is(key, "othergroupname") || key_is(key, "othergrouprank") || key_is(
        key,
        "othergroupfightcost",
    ) || key_is(key, "othergroupattack") || key_is(key, "othergroupdefense") || key_is(
        key,
        "othergroupmember",
    ) || key_is(key, "othergroupdescription") || key_is(key, "othergroup")) {
        return Ok(false);
    }
    let mut g = match og.take() {
        Some(g) => g,
        None => OtherGuild::default(),
    };
    let ghost b = g;
    assert(based_on(*old(og), b));
    let res = apply_other_guild_value(&mut g, key, val, st);
    *og = Some(g);
    res?;
    Ok(true)
}

proof fn lemma_other_guild_keys_distinct()
    ensures
        "othergroupname"@ != "othergrouprank"@,
        "othergroupname"@ != "othergroupfightcost"@,
        "othergroupname"@ != "othergroupattack"@,
        "othergroupname"@ != "othergroupdefense"@,
        "othergroupname"@ != "othergroupmember"@,
        "othergroupname"@ != "othergroupdescription"@,
        "othergroupname"@ != "othergroup"@,
        "othergrouprank"@ != "othergroupfightcost"@,
        "othergrouprank"@ != "othergroupattack"@,
        "othergrouprank"@ != "othergroupdefense"@,
        "othergrouprank"@ != "othergroupmember"@,
        "othergrouprank"@ != "othergroupdescription"@,
        "othergrouprank"@ != "othergroup"@,
        "othergroupfightcost"@ != "othergroupattack"@,
        "othergroupfightcost"@ != "othergroupdefense"@,
        "othergroupfightcost"@ != "othergroupmember"@,
        "othergroupfightcost"@ != "othergroupdescription"@,
        "othergroupfightcost"@ != "othergroup"@,
        "othergroupattack"@ != "othergroupdefense"@,
        "othergroupattack"@ != "othergroupmember"@,
        "othergroupattack"@ != "othergroupdescription"@,
        "othergroupattack"@ != "othergroup"@,
        "othergroupdefense"@ != "othergroupmember"@,
        "othergroupdefense"@ != "othergroupdescription"@,
        "othergroupdefense"@ != "othergroup"@,
        "othergroupmember"@ != "othergroupdescription"@,
        "othergroupmember"@ != "othergroup"@,
        "othergroupdescription"@ != "othergroup"@,
{
    reveal_strlit("othergroupname");
    reveal_strlit("othergrouprank");
    reveal_strlit("othergroupfightcost");
    reveal_strlit("othergroupattack");
    reveal_strlit("othergroupdefense");
    reveal_strlit("othergroupmember");
    reveal_strlit("othergroupdescription");
    reveal_strlit("othergroup");
    assert("othergroupname"@[10] != "othergrouprank"@[10]);
    assert("othergroupname"@.len() != "othergroupfightcost"@.len());
    assert("othergroupname"@.len() != "othergroupattack"@.len());
    assert("othergroupname"@.len() != "othergroupdefense"@.len());
    assert("othergroupname"@.len() != "othergroupmember"@.len());
    assert("othergroupname"@.len() != "othergroupdescription"@.len());
    assert("othergroupname"@.len() != "othergroup"@.len());
    assert("othergrouprank"@.len() != "othergroupfightcost"@.len());
    assert("othergrouprank"@.len() != "othergroupattack"@.len());
    assert("othergrouprank"@.len() != "othergroupdefense"@.len());
    assert("othergrouprank"@.len() != "othergroupmember"@.len());
    assert("othergrouprank"@.len() != "othergroupdescription"@.len());
    assert("othergrouprank"@.len() != "othergroup"@.len());
    assert("othergroupfightcost"@.len() != "othergroupattack"@.len());
    assert("othergroupfightcost"@.len() != "othergroupdefense"@.len());
    assert("othergroupfightcost"@.len() != "othergroupmember"@.len());
    assert("othergroupfightcost"@.len() != "othergroupdescription"@.len());
    assert("othergroupfightcost"@.len() != "othergroup"@.len());
    assert("othergroupattack"@.len() != "othergroupdefense"@.len());
    assert("othergroupattack"@[10] != "othergroupmember"@[10]);
    assert("othergroupattack"@.len() != "othergroupdescription"@.len());
    assert("othergroupattack"@.len() != "othergroup"@.len());
    assert("othergroupdefense"@.len() != "othergroupmember"@.len());
    assert("othergroupdefense"@.len() != "othergroupdescription"@.len());
    assert("othergroupdefense"@.len() != "othergroup"@.len());
    assert("othergroupmember"@.len() != "othergroupdescription"@.len());
    assert("othergroupmember"@.len() != "othergroup"@.len());
    assert("othergroupdescription"@.len() != "othergroup"@.len());
}

/// The keys that hold a single value about another guild.
pub open spec fn other_guild_value_keys(k: Seq<char>) -> bool {
    k == "othergroupname"@ || k == "othergrouprank"@ || k == "othergroupfightcost"@ || k
        == "othergroupattack"@ || k == "othergroupdefense"@ || k == "othergroupmember"@ || k
        == "othergroupdescription"@ || k == "othergroup"@
}

/// Whether the value `v` of key `k` about another guild can be read.
pub open spec fn other_guild_value_ok(k: Seq<char>, v: Seq<char>) -> bool {
    if k == "othergrouprank"@ {
        decimal_u16(trim_white(v)) is Some
    } else if k == "othergroupfightcost"@ {
        decimal_u32(trim_white(v)) is Some
    } else if k == "othergroup"@ {
        OtherGuild::spec_valid(spec_group_values(v))
    } else {
        true
    }
}

/// The members of another guild after its member names were read: one per
/// name, with that name; members that were there keep their other values,
/// new ones start at level 0.
pub open spec fn members_renamed(before: Seq<OtherGuildMember>, names: Seq<Seq<char>>, after: Seq<OtherGuildMember>) -> bool {
    &&& after.len() == names.len()
    &&& forall|i: int| 0 <= i < after.len() ==> (#[trigger] after[i]).name@ == names[i]
    &&& forall|i: int|
        0 <= i < after.len() ==> if i < before.len() {
            #[trigger] after[i] == (OtherGuildMember { name: after[i].name, ..before[i] })
        } else {
            after[i].level == 0
        }
}

/// What reading the value `v` of key `k` does to another guild: it sets the
/// name, the rank, the attack cost, the attacked and defended guilds, the
/// member names, the emblem and description, or the values of its group
/// save; other keys leave the guild as it is.
pub open spec fn other_guild_value_set(before: OtherGuild, k: Seq<char>, v: Seq<char>, st: ServerTime, after: OtherGuild) -> bool {
    if k == "othergroupname"@ {
        after == (OtherGuild { name: after.name, ..before }) && after.name@ == v
    } else if k == "othergrouprank"@ {
        after == (OtherGuild { rank: decimal_u16(trim_white(v))->0, ..before })
    } else if k == "othergroupfightcost"@ {
        after == (OtherGuild { attack_cost: decimal_u32(trim_white(v))->0, ..before })
    } else if k == "othergroupattack"@ {
        after == (OtherGuild { attacks: after.attacks, ..before }) && (after.attacks matches Some(a)
            && a@ == v)
    } else if k == "othergroupdefense"@ {
        after == (OtherGuild { defends_against: after.defends_against, ..before })
            && (after.defends_against matches Some(a) && a@ == v)
    } else if k == "othergroupmember"@ {
        after == (OtherGuild { members: after.members, ..before }) && members_renamed(
            before.members@,
            split_text(v, ','),
            after.members@,
        )
    } else if k == "othergroupdescription"@ {
        after == (OtherGuild { emblem: after.emblem, description: after.description, ..before })
            && match split_once_text(v, '§') {
            Some((e, d)) => after.emblem.raw@ == e && after.description@ == sf_text(d),
            None => after.emblem.raw@.len() == 0 && after.description@ == sf_text(v),
        }
    } else if k == "othergroup"@ {
        after.member_count == soft_u8(spec_group_values(v)[3], 0) && after.name == before.name
    } else {
        after == before
    }
}

/// Applies a single value about another guild.
fn apply_other_guild_value(g: &mut OtherGuild, key: &str, val: &ResponseVal, st: ServerTime) -> (r: Result<(), SFError>)
    ensures
        other_guild_error_named(key@, val.value@) ==> (r matches Err(e) ==> other_guild_error(
            key@,
            val.value@,
            e,
        )),
        r is Ok <==> other_guild_value_ok(key@, val.value@),
        r is Ok ==> other_guild_value_set(*old(g), key@, val.value@, st, *final(g)),
{
    proof {
        lemma_other_guild_keys_distinct();
    }
    if key_is(key, "othergroupname") {
        g.name = val.as_str().to_string();
    } else if key_is(key, "othergrouprank") {
        g.rank = val.into_u16("other group rank")?;
    } else if key_is(key, "othergroupfightcost") {
        g.attack_cost = val.into_u32("other group fighting cost")?;
    } else if key_is(key, "othergroupattack") {
        g.attacks = Some(val.as_str().to_string());
    } else if key_is(key, "othergroupdefense") {
        g.defends_against = Some(val.as_str().to_string());
    } else if key_is(key, "othergroupmember") {
        let names = split_by(val.as_str(), ',');
        let ghost ns = string_views(names@);
        let ghost before = g.members@;
        while g.members.len() > names.len()
            invariant
                g.members@ == before.take(g.members@.len() as int),
                g.members@.len() <= before.len(),
                g.members@.len() == before.len() || g.members@.len() >= names@.len(),
                *g == (OtherGuild { members: g.members, ..*old(g) }),
            decreases g.members@.len(),
        {
            g.members.pop();
        }
        while g.members.len() < names.len()
            invariant
                g.members@.len() <= names@.len(),
                g.members@.len() >= before.len() || g.members@.len() >= names@.len(),
                forall|k: int|
                    0 <= k < g.members@.len() ==> if k < before.len() {
                        #[trigger] g.members@[k] == before[k]
                    } else {
                        g.members@[k].level == 0
                    },
                *g == (OtherGuild { members: g.members, ..*old(g) }),
            decreases names@.len() - g.members@.len(),
        {
            g.members.push(OtherGuildMember::default());
        }
        let ghost mid = g.members@;
        let mut i: usize = 0;
        while i < names.len()
            invariant
                i <= names@.len(),
                g.members@.len() == names@.len(),
                mid.len() == names@.len(),
                ns == string_views(names@),
                forall|k: int|
                    0 <= k < names@.len() ==> #[trigger] g.members@[k] == (OtherGuildMember {
                        name: g.members@[k].name,
                        ..mid[k]
                    }),
                forall|k: int| 0 <= k < i ==> (#[trigger] g.members@[k]).name@ == ns[k],
                forall|k: int| i <= k < names@.len() ==> #[trigger] g.members@[k] == mid[k],
                *g == (OtherGuild { members: g.members, ..*old(g) }),
            decreases names@.len() - i,
        {
            let mut m = g.members.remove(i);
            m.name = names[i].clone();
            g.members.insert(i, m);
            i = i + 1;
        }
    } else if key_is(key, "othergroupdescription") {
        let (emblem, desc) = match split_once_char(val.as_str(), '§') {
            Some(x) => x,
            None => (String::new(), val.as_str().to_string()),
        };
        g.emblem.update(emblem.as_str());
        g.description = from_sf_string(desc.as_str());
    } else if key_is(key, "othergroup") {
        g.update(val.as_str(), st)?;
    }
    Ok(())
}

impl GameState {
    /// Applies the keys about fights. Returns whether the key was one of
    /// them.
    fn apply_fight_key(&mut self, key: &str, val: &ResponseVal, fight_version: &mut u32) -> (r: Result<
        bool,
        SFError,
    >)
        ensures
            fight_key(key@) && fight_error_named(key@, val.value@) ==> (r matches Err(e)
                ==> fight_error(key@, val.value@, e)),
            fight_key(key@) && fight_error_named(key@, val.value@) && r is Ok ==> fight_value_ok(
                key@,
                val.value@,
            ),
            fight_key(key@) && fight_value_ok(key@, val.value@) ==> r is Ok,
            tracked_same(*old(self), *final(self)),
            r matches Ok(false) ==> *final(self) == *old(self),
            !fight_key(key@) ==> r == Ok::<bool, SFError>(false),
            final(self).character.level == old(self).character.level,
            r matches Ok(b) ==> b == fight_key(key@),
            key@ == "fightversion"@ ==> (r is Ok <==> decimal_u32(trim_white(val.value@)) is Some),
            key@ == "fightversion"@ && r is Ok ==> *final(fight_version) == decimal_u32(
                trim_white(val.value@),
            )->0 && *final(self) == *old(self),
            key@ != "fightversion"@ ==> *final(fight_version) == *old(fight_version),
            key@ == "fightgroups"@ ==> r is Ok,
            fight_key(key@) && key@ != "fightversion"@ && r is Ok ==> final(self).last_fight is Some,
            r is Ok ==> *final(self) == (GameState { last_fight: final(self).last_fight, ..*old(self) }),
            r == Ok::<bool, SFError>(true) && key@ != "fightversion"@ ==> fight_read(
                old(self).last_fight,
                key@,
                val.value@,
                final(self).last_fight,
            ),
    {
        proof {
            assert(key.spec_bytes() == vstd::utf8::encode_utf8(key@));
            reveal_strlit("fightresult");
            reveal_strlit("fightgroups");
            reveal_strlit("fightversion");
            assert("fightresult"@.len() != "fightversion"@.len());
            assert("fightgroups"@.len() != "fightversion"@.len());
            assert("fightresult"@[5] != "fightgroups"@[5]);
        }
        if key_is(key, "fightresult") {
            let data = val.into_list("fight result")?;
            let mut f = match self.last_fight.take() {
                Some(f) => f,
                None => Fight::default(),
            };
            let ghost x = f;
            assert(based_on(old(self).last_fight, x));
            let res = f.update_result(&data);
            self.last_fight = Some(f);
            res?;
        } else if key_is(key, "fightgroups") {
            let mut f = match self.last_fight.take() {
                Some(f) => f,
                None => Fight::default(),
            };
            let ghost x = f;
            assert(based_on(old(self).last_fight, x));
            f.update_groups(val.as_str());
            self.last_fight = Some(f);
        } else if key_is(key, "fightversion") {
            *fight_version = val.into_u32("fight version")?;
        } else if key_starts(key, "winnerid") {
            let winner = val.into_u32("winner id")?;
            let idx = self.fight_slot(key);
            let mut f = self.last_fight.take().unwrap();
            let mut sf = f.fights.remove(idx);
            sf.winner_id = winner;
            f.fights.insert(idx, sf);
            assert(f.fights@[idx as int].winner_id == winner);
            self.last_fight = Some(f);
        } else if key_starts(key, "fightheader") {
            let idx = self.fight_slot(key);
            let mut f = self.last_fight.take().unwrap();
            let mut sf = f.fights.remove(idx);
            sf.update_fighters(val.as_str());
            f.fights.insert(idx, sf);
            self.last_fight = Some(f);
        } else if key_starts(key, "fight") && key.len() <= 7 {
            let idx = self.fight_slot(key);
            let mut f = self.last_fight.take().unwrap();
            let mut sf = f.fights.remove(idx);
            let res = sf.update_rounds(val.as_str(), *fight_version);
            f.fights.insert(idx, sf);
            self.last_fight = Some(f);
            res?;
        } else {
            return Ok(false);
        }
        Ok(true)
    }
}

} // verus!

verus! {

/// What the value `v` of key `k` says of the state `g`, for the keys that
/// set a single field: the player's name (`ownplayername`) and description
/// (`owndescription`), the guard's wage (`wagesperhour`), the permission to
/// skip with mushrooms (`skipallow`), the questing preference
/// (`usersettings`), the inbox capacity (`inboxcapacity`), the open message
/// (`messagetext`) and the number of players (`maxrank`). Other keys say
/// nothing here.
pub open spec fn key_sets(g: GameState, k: Seq<char>, v: ResponseVal) -> bool {
    &&& (k == "ownplayername"@ ==> (g.character.name@ == v.value@))
    &&& (k == "owndescription"@ ==> (g.character.description@ == sf_text(v.value@)))
    &&& (k == "wagesperhour"@ ==> (Some(g.tavern.guard_wage) == decimal_u64(trim_white(v.value@))))
    &&& (k == "skipallow"@ ==> (decimal_i32(trim_white(v.value@)) matches Some(x) && g.tavern.mushroom_skip_allowed == (x != 0)))
    &&& (k == "usersettings"@ ==> (split_text(v.value@, '/').len() > 4 && g.tavern.questing_preference == spec_questing(v.value@)))
    &&& (k == "inboxcapacity"@ ==> (Some(g.mail.inbox_capacity) == decimal_u16(trim_white(v.value@))))
    &&& (k == "messagetext"@ ==> (g.mail.open_msg matches Some(m) && m@ == sf_text(v.value@)))
    &&& (k == "maxrank"@ ==> (Some(g.hall_of_fames.players_total) == decimal_u32(trim_white(v.value@))))
    &&& (k == "dragongoldbonus"@ ==> (Some(g.character.mount_dragon_refund) == decimal_u64(trim_white(v.value@))))
    &&& (k == "scrapbook"@ ==> scrapbook_read(g.character.scrapbook, v.value@))
    &&& (k == "unlockfeature"@ ==> (list_ok(v.value@) && g.pending_unlocks@ == unlockables_upto(
        list_of(v.value@),
        (list_of(v.value@).len() / 2) as nat,
    )))
    &&& (k == "tavernspecialsub"@ ==> (decimal_i32(trim_white(v.value@)) matches Some(f)
        && g.specials.events.active@ == events_of(f, 17)))
    &&& (k == "tavernspecialend"@ ==> (decimal_i64(trim_white(v.value@)) matches Some(raw)
        && g.specials.events.ends == ServerTime(g.server_time_diff).spec_convert(raw)))
    &&& (k == "eventtaskinfo"@ ==> event_task_info_read(g, v.value@))
    &&& (k == "maxrankgroup"@ ==> (g.hall_of_fames.guilds_total is Some && g.hall_of_fames.guilds_total
        == decimal_u32(trim_white(v.value@))))
    &&& (k == "maxrankPets"@ ==> (g.hall_of_fames.pets_total is Some && g.hall_of_fames.pets_total
        == decimal_u32(trim_white(v.value@))))
    &&& (k == "maxrankFortress"@ ==> (g.hall_of_fames.fortresses_total is Some
        && g.hall_of_fames.fortresses_total == decimal_u32(trim_white(v.value@))))
    &&& (k == "maxrankUnderworld"@ ==> (g.hall_of_fames.underworlds_total is Some
        && g.hall_of_fames.underworlds_total == decimal_u32(trim_white(v.value@))))
    &&& (k == "Ranklistplayer"@ ==> hof_players_read(g.hall_of_fames.players@, v.value@))
    &&& (k == "ranklistgroup"@ ==> hof_guilds_read(g.hall_of_fames.guilds@, v.value@))
    &&& (k == "RanklistPets"@ ==> hof_pets_read(g.hall_of_fames.pets@, v.value@))
    &&& (k == "ranklistunderworld"@ ==> hof_underworlds_read(g.hall_of_fames.underworlds@, v.value@))
    &&& (k == "messagelist"@ ==> inbox_read(g.mail.inbox@, v.value@, ServerTime(g.server_time_diff)))
    &&& (k == "combatloglist"@ ==> combat_log_read(
        g.mail.combat_log@,
        v.value@,
        ServerTime(g.server_time_diff),
    ))
    &&& (k == "calenderinfo"@ ==> (list_ok(v.value@) && g.specials.calendar.rewards@ == calendar_of(
        list_of(v.value@),
    )))
    &&& (k == "eventtasklist"@ ==> (list_ok(v.value@) && g.specials.tasks.event.tasks@ == tasks_of(
        list_of(v.value@),
    )))
    &&& (k == "dailytasklist"@ ==> (list_ok(v.value@) && list_of(v.value@).len() >= 1
        && g.specials.tasks.daily.tasks@ == tasks_of(list_of(v.value@).skip(1))))
    &&& (k == "friendlist"@ ==> relation_views(g.character.relations@) == relations_of(
        split_text(trim_end_char(v.value@, ';'), ';'),
    ))
    &&& (k == "gttime"@ ==> gttime_read(g, v.value@))
    &&& (k == "dicestatus"@ ==> (dice_list(v.value@) matches Some(d)
        && g.tavern.dice_game.current_dice@ == match dice_of(d) {
        Some(x) => x,
        None => Seq::empty(),
    }))
}

/// The hellevator times that a `gttime` value sets: the list
/// `start/end/_/collect end`.
pub open spec fn gttime_read(g: GameState, text: Seq<char>) -> bool {
    let d = list_of(text);
    let st = ServerTime(g.server_time_diff);
    &&& list_ok(text) && d.len() > 3
    &&& g.hellevator.start == st.spec_convert(d[0])
    &&& g.hellevator.end == st.spec_convert(d[1])
    &&& g.hellevator.collect_time_end == st.spec_convert(d[3])
}

/// The numbers of a list of `u32` values separated by `/`; the empty text is
/// the empty list.
pub open spec fn dice_list(text: Seq<char>) -> Option<Seq<u32>> {
    if text.len() == 0 {
        Some(Seq::empty())
    } else {
        u32_list_values(list_pieces(text))
    }
}

/// The theme and the times of the event tasks that an `eventtaskinfo` value
/// sets: the list `start/end/theme`; an unknown theme is `Unknown`.
pub open spec fn event_task_info_read(g: GameState, text: Seq<char>) -> bool {
    let d = list_of(text);
    let st = ServerTime(g.server_time_diff);
    &&& list_ok(text) && d.len() > 2
    &&& g.specials.tasks.event.theme == match EventTaskTheme::spec_from_i64(d[2]) {
        Some(t) => t,
        None => EventTaskTheme::Unknown,
    }
    &&& g.specials.tasks.event.start == st.spec_convert(d[0])
    &&& g.specials.tasks.event.end == st.spec_convert(d[1])
}

/// The scrapbook that `ScrapBook::parse` reads from a text.
pub open spec fn scrapbook_read(book: Option<ScrapBook>, text: Seq<char>) -> bool {
    match base64_url_safe_decoded(text) {
        None => book is None,
        Some(bytes) => match ScrapBook::spec_from_bytes(bytes) {
            None => book is None,
            Some((m, i)) => book matches Some(s) && s.monster@ == m && s.items@ == i,
        },
    }
}

/// The fields that the single-field keys set are the same in `a` and `b`,
/// but for the one that `k` sets.
pub open spec fn others_same(a: GameState, b: GameState, k: Seq<char>) -> bool {
    &&& (k != "ownplayername"@ ==> a.character.name == b.character.name)
    &&& (k != "owndescription"@ ==> a.character.description == b.character.description)
    &&& (k != "wagesperhour"@ ==> a.tavern.guard_wage == b.tavern.guard_wage)
    &&& (k != "skipallow"@ ==> a.tavern.mushroom_skip_allowed == b.tavern.mushroom_skip_allowed)
    &&& (k != "usersettings"@ ==> a.tavern.questing_preference == b.tavern.questing_preference)
    &&& (k != "inboxcapacity"@ ==> a.mail.inbox_capacity == b.mail.inbox_capacity)
    &&& (k != "messagetext"@ ==> a.mail.open_msg == b.mail.open_msg)
    &&& (k != "maxrank"@ ==> a.hall_of_fames.players_total == b.hall_of_fames.players_total)
    &&& (k != "dragongoldbonus"@ ==> a.character.mount_dragon_refund == b.character.mount_dragon_refund)
    &&& (k != "scrapbook"@ ==> a.character.scrapbook == b.character.scrapbook)
    &&& (k != "unlockfeature"@ ==> a.pending_unlocks == b.pending_unlocks)
    &&& (k != "tavernspecialsub"@ ==> a.specials.events.active == b.specials.events.active)
    &&& (k != "tavernspecialend"@ ==> a.specials.events.ends == b.specials.events.ends)
    &&& (k != "eventtaskinfo"@ ==> a.specials.tasks.event.theme == b.specials.tasks.event.theme
        && a.specials.tasks.event.start == b.specials.tasks.event.start
        && a.specials.tasks.event.end == b.specials.tasks.event.end)
    &&& (k != "maxrankgroup"@ ==> a.hall_of_fames.guilds_total == b.hall_of_fames.guilds_total)
    &&& (k != "maxrankPets"@ ==> a.hall_of_fames.pets_total == b.hall_of_fames.pets_total)
    &&& (k != "maxrankFortress"@ ==> a.hall_of_fames.fortresses_total == b.hall_of_fames.fortresses_total)
    &&& (k != "maxrankUnderworld"@ ==> a.hall_of_fames.underworlds_total == b.hall_of_fames.underworlds_total)
    &&& (k != "Ranklistplayer"@ ==> a.hall_of_fames.players == b.hall_of_fames.players)
    &&& (k != "ranklistgroup"@ ==> a.hall_of_fames.guilds == b.hall_of_fames.guilds)
    &&& (k != "RanklistPets"@ ==> a.hall_of_fames.pets == b.hall_of_fames.pets)
    &&& (k != "ranklistunderworld"@ ==> a.hall_of_fames.underworlds == b.hall_of_fames.underworlds)
    &&& (k != "messagelist"@ ==> a.mail.inbox == b.mail.inbox)
    &&& (k != "combatloglist"@ ==> a.mail.combat_log == b.mail.combat_log)
    &&& (k != "calenderinfo"@ ==> a.specials.calendar.rewards == b.specials.calendar.rewards)
    &&& (k != "eventtasklist"@ ==> a.specials.tasks.event.tasks == b.specials.tasks.event.tasks)
    &&& (k != "dailytasklist"@ ==> a.specials.tasks.daily.tasks == b.specials.tasks.daily.tasks)
    &&& (k != "friendlist"@ ==> a.character.relations == b.character.relations)
    &&& (k != "gttime"@ ==> a.hellevator.start == b.hellevator.start && a.hellevator.end
        == b.hellevator.end && a.hellevator.collect_time_end == b.hellevator.collect_time_end)
    &&& (k != "dicestatus"@ ==> a.tavern.dice_game.current_dice == b.tavern.dice_game.current_dice)
}

/// The state `g` reflects the last value of each single-field key among the
/// entries `e`, and keeps the field of `a` where the entries have no such key.
pub open spec fn entries_set(a: GameState, g: GameState, e: Seq<(String, ResponseVal)>) -> bool {
    &&& match last_value(e, "ownplayername"@) {
        Some(v) => key_sets(g, "ownplayername"@, v),
        None => a.character.name == g.character.name,
    }
    &&& match last_value(e, "owndescription"@) {
        Some(v) => key_sets(g, "owndescription"@, v),
        None => a.character.description == g.character.description,
    }
    &&& match last_value(e, "wagesperhour"@) {
        Some(v) => key_sets(g, "wagesperhour"@, v),
        None => a.tavern.guard_wage == g.tavern.guard_wage,
    }
    &&& match last_value(e, "skipallow"@) {
        Some(v) => key_sets(g, "skipallow"@, v),
        None => a.tavern.mushroom_skip_allowed == g.tavern.mushroom_skip_allowed,
    }
    &&& match last_value(e, "usersettings"@) {
        Some(v) => key_sets(g, "usersettings"@, v),
        None => a.tavern.questing_preference == g.tavern.questing_preference,
    }
    &&& match last_value(e, "inboxcapacity"@) {
        Some(v) => key_sets(g, "inboxcapacity"@, v),
        None => a.mail.inbox_capacity == g.mail.inbox_capacity,
    }
    &&& match last_value(e, "messagetext"@) {
        Some(v) => key_sets(g, "messagetext"@, v),
        None => a.mail.open_msg == g.mail.open_msg,
    }
    &&& match last_value(e, "maxrank"@) {
        Some(v) => key_sets(g, "maxrank"@, v),
        None => a.hall_of_fames.players_total == g.hall_of_fames.players_total,
    }
    &&& match last_value(e, "dragongoldbonus"@) {
        Some(v) => key_sets(g, "dragongoldbonus"@, v),
        None => a.character.mount_dragon_refund == g.character.mount_dragon_refund,
    }
    &&& match last_value(e, "scrapbook"@) {
        Some(v) => key_sets(g, "scrapbook"@, v),
        None => a.character.scrapbook == g.character.scrapbook,
    }
    &&& match last_value(e, "unlockfeature"@) {
        Some(v) => key_sets(g, "unlockfeature"@, v),
        None => a.pending_unlocks == g.pending_unlocks,
    }
    &&& match last_value(e, "tavernspecialsub"@) {
        Some(v) => key_sets(g, "tavernspecialsub"@, v),
        None => a.specials.events.active == g.specials.events.active,
    }
    &&& match last_value(e, "tavernspecialend"@) {
        Some(v) => key_sets(g, "tavernspecialend"@, v),
        None => a.specials.events.ends == g.specials.events.ends,
    }
    &&& match last_value(e, "eventtaskinfo"@) {
        Some(v) => key_sets(g, "eventtaskinfo"@, v),
        None => a.specials.tasks.event.theme == g.specials.tasks.event.theme
            && a.specials.tasks.event.start == g.specials.tasks.event.start
            && a.specials.tasks.event.end == g.specials.tasks.event.end,
    }
    &&& match last_value(e, "maxrankgroup"@) {
        Some(v) => key_sets(g, "maxrankgroup"@, v),
        None => a.hall_of_fames.guilds_total == g.hall_of_fames.guilds_total,
    }
    &&& match last_value(e, "maxrankPets"@) {
        Some(v) => key_sets(g, "maxrankPets"@, v),
        None => a.hall_of_fames.pets_total == g.hall_of_fames.pets_total,
    }
    &&& match last_value(e, "maxrankFortress"@) {
        Some(v) => key_sets(g, "maxrankFortress"@, v),
        None => a.hall_of_fames.fortresses_total == g.hall_of_fames.fortresses_total,
    }
    &&& match last_value(e, "maxrankUnderworld"@) {
        Some(v) => key_sets(g, "maxrankUnderworld"@, v),
        None => a.hall_of_fames.underworlds_total == g.hall_of_fames.underworlds_total,
    }
    &&& match last_value(e, "Ranklistplayer"@) {
        Some(v) => key_sets(g, "Ranklistplayer"@, v),
        None => a.hall_of_fames.players == g.hall_of_fames.players,
    }
    &&& match last_value(e, "ranklistgroup"@) {
        Some(v) => key_sets(g, "ranklistgroup"@, v),
        None => a.hall_of_fames.guilds == g.hall_of_fames.guilds,
    }
    &&& match last_value(e, "RanklistPets"@) {
        Some(v) => key_sets(g, "RanklistPets"@, v),
        None => a.hall_of_fames.pets == g.hall_of_fames.pets,
    }
    &&& match last_value(e, "ranklistunderworld"@) {
        Some(v) => key_sets(g, "ranklistunderworld"@, v),
        None => a.hall_of_fames.underworlds == g.hall_of_fames.underworlds,
    }
    &&& match last_value(e, "messagelist"@) {
        Some(v) => key_sets(g, "messagelist"@, v),
        None => a.mail.inbox == g.mail.inbox,
    }
    &&& match last_value(e, "combatloglist"@) {
        Some(v) => key_sets(g, "combatloglist"@, v),
        None => a.mail.combat_log == g.mail.combat_log,
    }
    &&& match last_value(e, "calenderinfo"@) {
        Some(v) => key_sets(g, "calenderinfo"@, v),
        None => a.specials.calendar.rewards == g.specials.calendar.rewards,
    }
    &&& match last_value(e, "eventtasklist"@) {
        Some(v) => key_sets(g, "eventtasklist"@, v),
        None => a.specials.tasks.event.tasks == g.specials.tasks.event.tasks,
    }
    &&& match last_value(e, "dailytasklist"@) {
        Some(v) => key_sets(g, "dailytasklist"@, v),
        None => a.specials.tasks.daily.tasks == g.specials.tasks.daily.tasks,
    }
    &&& match last_value(e, "friendlist"@) {
        Some(v) => key_sets(g, "friendlist"@, v),
        None => a.character.relations == g.character.relations,
    }
    &&& match last_value(e, "gttime"@) {
        Some(v) => key_sets(g, "gttime"@, v),
        None => a.hellevator.start == g.hellevator.start && a.hellevator.end == g.hellevator.end
            && a.hellevator.collect_time_end == g.hellevator.collect_time_end,
    }
    &&& match last_value(e, "dicestatus"@) {
        Some(v) => key_sets(g, "dicestatus"@, v),
        None => a.tavern.dice_game.current_dice == g.tavern.dice_game.current_dice,
    }
}

/// The state `g` reflects the last value of each single-field key that the
/// entries `e` hold.
pub open spec fn entries_shown(g: GameState, e: Seq<(String, ResponseVal)>) -> bool {
    &&& (last_value(e, "ownplayername"@) matches Some(v) ==> key_sets(g, "ownplayername"@, v))
    &&& (last_value(e, "owndescription"@) matches Some(v) ==> key_sets(g, "owndescription"@, v))
    &&& (last_value(e, "wagesperhour"@) matches Some(v) ==> key_sets(g, "wagesperhour"@, v))
    &&& (last_value(e, "skipallow"@) matches Some(v) ==> key_sets(g, "skipallow"@, v))
    &&& (last_value(e, "usersettings"@) matches Some(v) ==> key_sets(g, "usersettings"@, v))
    &&& (last_value(e, "inboxcapacity"@) matches Some(v) ==> key_sets(g, "inboxcapacity"@, v))
    &&& (last_value(e, "messagetext"@) matches Some(v) ==> key_sets(g, "messagetext"@, v))
    &&& (last_value(e, "maxrank"@) matches Some(v) ==> key_sets(g, "maxrank"@, v))
    &&& (last_value(e, "dragongoldbonus"@) matches Some(v) ==> key_sets(g, "dragongoldbonus"@, v))
    &&& (last_value(e, "scrapbook"@) matches Some(v) ==> key_sets(g, "scrapbook"@, v))
    &&& (last_value(e, "unlockfeature"@) matches Some(v) ==> key_sets(g, "unlockfeature"@, v))
    &&& (last_value(e, "tavernspecialsub"@) matches Some(v) ==> key_sets(g, "tavernspecialsub"@, v))
    &&& (last_value(e, "tavernspecialend"@) matches Some(v) ==> key_sets(g, "tavernspecialend"@, v))
    &&& (last_value(e, "eventtaskinfo"@) matches Some(v) ==> key_sets(g, "eventtaskinfo"@, v))
    &&& (last_value(e, "maxrankgroup"@) matches Some(v) ==> key_sets(g, "maxrankgroup"@, v))
    &&& (last_value(e, "maxrankPets"@) matches Some(v) ==> key_sets(g, "maxrankPets"@, v))
    &&& (last_value(e, "maxrankFortress"@) matches Some(v) ==> key_sets(g, "maxrankFortress"@, v))
    &&& (last_value(e, "maxrankUnderworld"@) matches Some(v) ==> key_sets(g, "maxrankUnderworld"@, v))
    &&& (last_value(e, "Ranklistplayer"@) matches Some(v) ==> key_sets(g, "Ranklistplayer"@, v))
    &&& (last_value(e, "ranklistgroup"@) matches Some(v) ==> key_sets(g, "ranklistgroup"@, v))
    &&& (last_value(e, "RanklistPets"@) matches Some(v) ==> key_sets(g, "RanklistPets"@, v))
    &&& (last_value(e, "ranklistunderworld"@) matches Some(v) ==> key_sets(g, "ranklistunderworld"@, v))
    &&& (last_value(e, "messagelist"@) matches Some(v) ==> key_sets(g, "messagelist"@, v))
    &&& (last_value(e, "combatloglist"@) matches Some(v) ==> key_sets(g, "combatloglist"@, v))
    &&& (last_value(e, "calenderinfo"@) matches Some(v) ==> key_sets(g, "calenderinfo"@, v))
    &&& (last_value(e, "eventtasklist"@) matches Some(v) ==> key_sets(g, "eventtasklist"@, v))
    &&& (last_value(e, "dailytasklist"@) matches Some(v) ==> key_sets(g, "dailytasklist"@, v))
    &&& (last_value(e, "friendlist"@) matches Some(v) ==> key_sets(g, "friendlist"@, v))
    &&& (last_value(e, "gttime"@) matches Some(v) ==> key_sets(g, "gttime"@, v))
    &&& (last_value(e, "dicestatus"@) matches Some(v) ==> key_sets(g, "dicestatus"@, v))
}

proof fn lemma_entries_shown(a: GameState, g: GameState, e: Seq<(String, ResponseVal)>)
    requires
        entries_set(a, g, e),
    ensures
        entries_shown(g, e),
{
}

/// One more entry keeps `entries_set`: where its key is a single-field key,
/// it sets that field, and the other fields stay.
proof fn lemma_entries_set_step(
    s0: GameState,
    before: GameState,
    after: GameState,
    e: Seq<(String, ResponseVal)>,
    i: int,
)
    requires
        0 <= i < e.len(),
        entries_set(s0, before, e.take(i)),
        before.server_time_diff == after.server_time_diff,
        others_same(before, after, e[i].0@),
        key_sets(after, e[i].0@, e[i].1),
    ensures
        entries_set(s0, after, e.take(i + 1)),
{
    lemma_keys_distinct();
    assert(e.take(i + 1).drop_last() =~= e.take(i));
    assert(e.take(i + 1).last() == e[i]);
}

/// The keys that set a single part of the state.
pub open spec fn single_keys(k: Seq<char>) -> bool {
    k == "ownplayername"@ || k == "owndescription"@ || k == "wagesperhour"@ || k == "skipallow"@ || k == "usersettings"@ || k == "inboxcapacity"@ || k == "messagetext"@ || k == "maxrank"@ || k == "dragongoldbonus"@ || k == "scrapbook"@ || k == "unlockfeature"@ || k == "tavernspecialsub"@ || k == "tavernspecialend"@ || k == "eventtaskinfo"@ || k == "maxrankgroup"@ || k == "maxrankPets"@ || k == "maxrankFortress"@ || k == "maxrankUnderworld"@ || k == "Ranklistplayer"@ || k == "ranklistgroup"@ || k == "RanklistPets"@ || k == "ranklistunderworld"@ || k == "messagelist"@ || k == "combatloglist"@ || k == "calenderinfo"@ || k == "eventtasklist"@ || k == "dailytasklist"@ || k == "friendlist"@ || k == "gttime"@ || k == "dicestatus"@
}

/// Whether the value `v` of a single-field key `k` can be read.
pub open spec fn entry_ok(k: Seq<char>, v: Seq<char>) -> bool {
    if k == "ownplayername"@ {
        true
    } else if k == "owndescription"@ {
        true
    } else if k == "wagesperhour"@ {
        decimal_u64(trim_white(v)) is Some
    } else if k == "skipallow"@ {
        decimal_i32(trim_white(v)) is Some
    } else if k == "usersettings"@ {
        split_text(v, '/').len() > 4
    } else if k == "inboxcapacity"@ {
        decimal_u16(trim_white(v)) is Some
    } else if k == "messagetext"@ {
        true
    } else if k == "maxrank"@ {
        decimal_u32(trim_white(v)) is Some
    } else if k == "dragongoldbonus"@ {
        decimal_u64(trim_white(v)) is Some
    } else if k == "scrapbook"@ {
        true
    } else if k == "unlockfeature"@ {
        list_ok(v)
    } else if k == "tavernspecialsub"@ {
        decimal_i32(trim_white(v)) is Some
    } else if k == "tavernspecialend"@ {
        decimal_i64(trim_white(v)) is Some
    } else if k == "eventtaskinfo"@ {
        list_ok(v) && list_of(v).len() > 2
    } else if k == "maxrankgroup"@ {
        decimal_u32(trim_white(v)) is Some
    } else if k == "maxrankPets"@ {
        decimal_u32(trim_white(v)) is Some
    } else if k == "maxrankFortress"@ {
        decimal_u32(trim_white(v)) is Some
    } else if k == "maxrankUnderworld"@ {
        decimal_u32(trim_white(v)) is Some
    } else if k == "Ranklistplayer"@ {
        true
    } else if k == "ranklistgroup"@ {
        true
    } else if k == "RanklistPets"@ {
        true
    } else if k == "ranklistunderworld"@ {
        true
    } else if k == "messagelist"@ {
        true
    } else if k == "combatloglist"@ {
        true
    } else if k == "calenderinfo"@ {
        list_ok(v)
    } else if k == "eventtasklist"@ {
        list_ok(v)
    } else if k == "dailytasklist"@ {
        list_ok(v) && list_of(v).len() >= 1
    } else if k == "friendlist"@ {
        true
    } else if k == "gttime"@ {
        list_ok(v) && list_of(v).len() > 3
    } else if k == "dicestatus"@ {
        dice_list(v) is Some
    } else {
        false
    }
}

/// Holds of a parsing error about the value `name` whose text is `raw`.
pub open spec fn parsing_error_of(e: SFError, name: Seq<char>, raw: Seq<char>) -> bool {
    e matches SFError::ParsingError(n, s) && n@ == name && s@ == raw
}

/// Holds of the error that reading the list `v` as numbers gives: a parsing
/// error about `name` with the first piece that is no number.
pub open spec fn list_error_of(e: SFError, name: Seq<char>, v: Seq<char>) -> bool {
    parsing_error_of(e, name, debug_str_text(first_bad_piece(list_pieces(v))))
}

/// Holds of an error about the array `arr` being too short to hold the
/// value `name` at `pos`.
pub open spec fn short_error_in(e: SFError, name: Seq<char>, pos: int, arr: Seq<i64>) -> bool {
    e matches SFError::TooShortResponse { name: n, pos: p, array } && n@ == name && p == pos
        && array@ == debug_list_text(arr)
}

/// The entries whose failure names one error, whatever the state: the
/// single-field keys, the key of a lost session, and the other keys where
/// `other_error_named` says so.
pub open spec fn error_named(k: Seq<char>, v: Seq<char>) -> bool {
    single_keys(k) || k == "cryptoid not found"@ || other_error_named(k, v)
}

/// The error that the entry `k: v` gives where it can not be read, for the
/// entries of `error_named`.
pub open spec fn entry_error(k: Seq<char>, v: Seq<char>, e: SFError) -> bool {
    if k == "cryptoid not found"@ || single_keys(k) {
        single_error(k, v, e)
    } else {
        other_error(k, v, e)
    }
}

/// The numbers of a list of `u32` values, as the `i64` values they are read
/// as.
pub open spec fn widened(raw: Seq<u32>) -> Seq<i64> {
    Seq::new(raw.len(), |i: int| raw[i] as i64)
}

/// The error of resource values `d` of 16 values or fewer: the first value
/// that is read and missing (the mushrooms at 1, the silver at 2, the
/// quicksand glasses at 4, the metal at 9, the arcane splinters at 10, then
/// the fruits at 12 to 16).
pub open spec fn resources_short(e: SFError, d: Seq<i64>) -> bool {
    let l = d.len() as int;
    if l <= 1 {
        short_error_in(e, "mushrooms"@, 1, d)
    } else if l == 2 {
        short_error_in(e, "player silver"@, 2, d)
    } else if l <= 4 {
        short_error_in(e, "quicksand glass count"@, 4, d)
    } else if l <= 9 {
        short_error_in(e, "bs metal"@, 9, d)
    } else if l == 10 {
        short_error_in(e, "bs arcane"@, 10, d)
    } else if l <= 12 {
        short_error_in(e, "fruits"@, 12, d)
    } else {
        short_error_in(e, "fruits"@, l, d)
    }
}

/// The error of a dice reward value `v` that can not be read: a list that is
/// no list of `u32` values, no values, a type that is no dice, or no amount.
pub open spec fn dice_reward_error(e: SFError, v: Seq<char>) -> bool {
    if v.len() > 0 && u32_list_values(list_pieces(v)) is None {
        parsing_error_of(e, "dice reward"@, debug_str_text(first_bad_u32(list_pieces(v))))
    } else {
        let raw = if v.len() == 0 {
            Seq::<u32>::empty()
        } else {
            u32_list_values(list_pieces(v))->0
        };
        if raw.len() == 0 {
            short_error_in(e, "dice reward"@, 0, widened(raw))
        } else if DiceType::spec_from_i64(dice_reward_type(raw[0])) is None {
            parsing_error_of(e, "dice reward"@, signed_decimal_text(dice_reward_type(raw[0]) as int))
        } else {
            short_error_in(e, "dice reward amount"@, 1, widened(raw))
        }
    }
}

/// The error of expedition state values `d` of fewer than 17 values: the
/// first that is read and missing of the floor stage (2), the target (3),
/// the current and the needed amount (7, 8), the heroism (13) and the two
/// times (15, 16).
pub open spec fn expedition_state_short(e: SFError, d: Seq<i64>) -> bool {
    let l = d.len() as int;
    if l <= 2 {
        short_error_in(e, "floor stage"@, 2, d)
    } else if l == 3 {
        short_error_in(e, "expedition target"@, 3, d)
    } else if l <= 7 {
        short_error_in(e, "exp current"@, 7, d)
    } else if l == 8 {
        short_error_in(e, "exp target"@, 8, d)
    } else if l <= 13 {
        short_error_in(e, "heroism"@, 13, d)
    } else if l <= 15 {
        short_error_in(e, "exp start"@, 15, d)
    } else {
        short_error_in(e, "exp busy"@, 16, d)
    }
}

/// Whether the failure of the value `v` of a key `k` about the character,
/// the tavern and the timed specials names one error: the numbers, the idle
/// game, the dice reward, the resources, the smith and the expedition times
/// always; the other list values where they are no list of numbers.
pub open spec fn character_error_named(k: Seq<char>, v: Seq<char>) -> bool {
    if k == "toilettfull"@ || k == "gamblegoldvalue"@ || k == "gamblecoinvalue"@ || k == "idle"@
        || k == "resources"@ || k == "smith"@ || k == "expeditionevent"@ || k == "dicereward"@
        || k == "dummies"@ || k == "gtsave"@ {
        true
    } else if k == "wheelresult"@ {
        !list_ok(v) || list_of(v).len() < 2
    } else if k == "ownplayersave"@ {
        !list_ok(v) || (list_of(v).len() >= 700 && save_error_named(list_of(v)))
    } else if k == "expeditionmonster"@ || k == "expeditionhalftime"@ {
        !list_ok(v) || list_of(v).len() == 0
    } else if k == "expeditionstate"@ {
        true
    } else {
        !list_ok(v)
    }
}

/// The error that the value `v` of a key `k` about the character, the
/// tavern and the timed specials gives, where `character_error_named` holds.
pub open spec fn character_error(k: Seq<char>, v: Seq<char>, e: SFError) -> bool {
    let d = list_of(v);
    if k == "toilettfull"@ {
        parsing_error_of(e, "toilet full status"@, v)
    } else if k == "ownplayersave"@ {
        if !list_ok(v) {
            list_error_of(e, "player save"@, v)
        } else {
            save_error(e, d)
        }
    } else if k == "wheelresult"@ {
        if !list_ok(v) {
            list_error_of(e, "wheel result"@, v)
        } else if d.len() == 0 {
            short_error_in(e, "wheel reward typ"@, 0, d)
        } else {
            short_error_in(e, "wheel reward amount"@, 1, d)
        }
    } else if k == "gamblegoldvalue"@ {
        parsing_error_of(e, "gold gamble"@, v)
    } else if k == "gamblecoinvalue"@ {
        parsing_error_of(e, "gold gamble"@, v)
    } else if k == "dailytaskrewardpreview"@ {
        list_error_of(e, "daily task reward preview"@, v)
    } else if k == "eventtaskrewardpreview"@ {
        list_error_of(e, "event task reward preview"@, v)
    } else if k == "dummies"@ {
        if !list_ok(v) {
            list_error_of(e, "manequin"@, v)
        } else {
            e matches SFError::ParsingError(n, s) && n@ == "Invalid Equipment"@ && s@
                == debug_list_text(d)
        }
    } else if k == "achievement"@ {
        list_error_of(e, "achievements"@, v)
    } else if k == "idle"@ {
        parsing_error_of(e, "idle game"@, debug_str_text(first_bad_big(list_pieces(v))))
    } else if k == "resources"@ {
        if !list_ok(v) {
            list_error_of(e, "resources"@, v)
        } else {
            resources_short(e, d)
        }
    } else if k == "smith"@ {
        if !list_ok(v) {
            list_error_of(e, "smith"@, v)
        } else if d.len() == 0 {
            short_error_in(e, "dismantles left"@, 0, d)
        } else {
            short_error_in(e, "bs time"@, 1, d)
        }
    } else if k == "gtsave"@ {
        if !list_ok(v) {
            list_error_of(e, "gtsave"@, v)
        } else {
            short_error_in(e, "points earned yd"@, 29, d)
        }
    } else if k == "expeditionevent"@ {
        if !list_ok(v) {
            list_error_of(e, "exp event"@, v)
        } else if d.len() == 0 {
            short_error_in(e, "expedition start"@, 0, d)
        } else {
            short_error_in(e, "expedition end"@, 1, d)
        }
    } else if k == "expeditions"@ {
        list_error_of(e, "exp event"@, v)
    } else if k == "expeditionmonster"@ {
        if !list_ok(v) {
            list_error_of(e, "expedition monster"@, v)
        } else {
            short_error_in(e, "expedition monster"@, 0, d)
        }
    } else if k == "expeditionhalftime"@ {
        if !list_ok(v) {
            list_error_of(e, "halftime exp"@, v)
        } else {
            short_error_in(e, "halftime for boss id"@, 0, d)
        }
    } else if k == "expeditionstate"@ {
        if !list_ok(v) {
            list_error_of(e, "exp state"@, v)
        } else {
            expedition_state_short(e, d)
        }
    } else if k == "expeditioncrossroad"@ {
        list_error_of(e, "cross"@, v)
    } else if k == "dicereward"@ {
        dice_reward_error(e, v)
    } else {
        true
    }
}

/// The error of guild skill prices `d` of fewer than four values: the
/// first that is missing of the treasure's silver and mushrooms and the
/// instructor's silver and mushrooms.
pub open spec fn group_prices_short(e: SFError, d: Seq<i64>) -> bool {
    if d.len() == 0 {
        short_error_in(e, "treasure upgr. silver"@, 0, d)
    } else if d.len() == 1 {
        short_error_in(e, "treasure upgr. mush"@, 1, d)
    } else if d.len() == 2 {
        short_error_in(e, "instr upgr. silver"@, 2, d)
    } else {
        short_error_in(e, "instr upgr. mush"@, 3, d)
    }
}

/// Whether the failure of the value `v` of a key `k` about the own guild
/// names one error: the rank always, the skill prices where they are no list
/// of numbers.
pub open spec fn guild_error_named(k: Seq<char>, v: Seq<char>) -> bool {
    if k == "owngroupname"@ {
        false
    } else if k == "owngrouprank"@ {
        true
    } else if k == "owngroupsave"@ || k == "owngroupmember"@ || k == "owngrouppotion"@ || k
        == "owngroupdescription"@ || k == "owngroupknights"@ {
        false
    } else if k == "groupskillprice"@ {
        true
    } else {
        false
    }
}

/// The error that the value `v` of a key `k` about the own guild gives,
/// where `guild_error_named` holds.
pub open spec fn guild_error(k: Seq<char>, v: Seq<char>, e: SFError) -> bool {
    if k == "owngroupname"@ {
        true
    } else if k == "owngrouprank"@ {
        parsing_error_of(e, "group rank"@, v)
    } else if k == "owngroupsave"@ || k == "owngroupmember"@ || k == "owngrouppotion"@ || k
        == "owngroupdescription"@ || k == "owngroupknights"@ {
        true
    } else if k == "groupskillprice"@ {
        if !list_ok(v) {
            list_error_of(e, "guild skill prices"@, v)
        } else {
            group_prices_short(e, list_of(v))
        }
    } else {
        true
    }
}

/// The error of cost values `d` of fewer than four values: the first that
/// is missing of the time, the silver, the wood and the stone.
pub open spec fn fortress_cost_short(e: SFError, d: Seq<i64>) -> bool {
    if d.len() == 0 {
        short_error_in(e, "fortress time"@, 0, d)
    } else if d.len() == 1 {
        short_error_in(e, "silver cost"@, 1, d)
    } else if d.len() == 2 {
        short_error_in(e, "wood cost"@, 2, d)
    } else {
        short_error_in(e, "stone cost"@, 3, d)
    }
}

/// Whether the failure of the value `v` of a key `k` about the fortress
/// names one error: the single numbers always (the highest upgrade level
/// where it is no number), the lists where they are no list of numbers.
pub open spec fn fortress_error_named(k: Seq<char>, v: Seq<char>) -> bool {
    if k == "unitprice"@ || k == "upgradeprice"@ || k == "unitlevel"@ || k == "fortressprice"@ {
        true
    } else if k == "stoneperhournextlevel"@ || k == "woodperhournextlevel"@ || k
        == "fortresspricereroll"@ || k == "fortresswalllevel"@ {
        true
    } else if k == "maxupgradelevel"@ {
        true
    } else if k == "fortressGroupPrice"@ {
        true
    } else {
        false
    }
}

/// The error that the value `v` of a key `k` about the fortress gives,
/// where `fortress_error_named` holds.
pub open spec fn fortress_error(k: Seq<char>, v: Seq<char>, e: SFError) -> bool {
    if k == "unitprice"@ {
        if !list_ok(v) {
            list_error_of(e, "fortress units"@, v)
        } else {
            short_error_in(e, "unit prices"@, 11, list_of(v))
        }
    } else if k == "upgradeprice"@ {
        if !list_ok(v) {
            list_error_of(e, "fortress unit upgrade prices"@, v)
        } else {
            short_error_in(e, "wood price next unit lvl"@, 8, list_of(v))
        }
    } else if k == "unitlevel"@ {
        if !list_ok(v) {
            list_error_of(e, "fortress unit levels"@, v)
        } else {
            short_error_in(e, "archer level"@, 3, list_of(v))
        }
    } else if k == "fortressprice"@ {
        if !list_ok(v) {
            list_error_of(e, "fortress upgrade prices"@, v)
        } else {
            short_error_in(e, "gem_search_cost"@, 51, list_of(v))
        }
    } else if k == "stoneperhournextlevel"@ {
        parsing_error_of(e, "stone next lvl"@, v)
    } else if k == "woodperhournextlevel"@ {
        parsing_error_of(e, "wood next lvl"@, v)
    } else if k == "fortresspricereroll"@ {
        parsing_error_of(e, "fortress reroll"@, v)
    } else if k == "fortresswalllevel"@ {
        parsing_error_of(e, "fortress wall lvl"@, v)
    } else if k == "maxupgradelevel"@ {
        parsing_error_of(e, "max upgrade lvl"@, v)
    } else if k == "fortressGroupPrice"@ {
        if !list_ok(v) {
            list_error_of(e, "hall of knights prices"@, v)
        } else {
            fortress_cost_short(e, list_of(v))
        }
    } else {
        true
    }
}

/// Whether the failure of the value `v` of a key `k` about the pets names
/// one error: the numbers always, the lists where they are no list of
/// numbers.
pub open spec fn pet_error_named(k: Seq<char>, v: Seq<char>) -> bool {
    if k == "maxpetlevel"@ {
        true
    } else if k == "ownpetsstats"@ {
        !list_ok(v)
    } else if k == "ownpets"@ {
        true
    } else if k == "petsdefensetype"@ || k == "petsrank"@ {
        true
    } else {
        false
    }
}

/// The error that the value `v` of a key `k` about the pets gives, where
/// `pet_error_named` holds.
pub open spec fn pet_error(k: Seq<char>, v: Seq<char>, e: SFError) -> bool {
    if k == "maxpetlevel"@ {
        parsing_error_of(e, "max pet lvl"@, v)
    } else if k == "ownpetsstats"@ {
        list_error_of(e, "pet stats"@, v)
    } else if k == "ownpets"@ {
        if !list_ok(v) {
            list_error_of(e, "own pets"@, v)
        } else {
            short_error_in(e, "pet atr boni"@, 250, list_of(v))
        }
    } else if k == "petsdefensetype"@ {
        match decimal_i64(trim_white(v)) {
            Some(x) => parsing_error_of(e, "pet def typ"@, signed_decimal_text(x as int)),
            None => parsing_error_of(e, "pet def typ"@, v),
        }
    } else if k == "petsrank"@ {
        parsing_error_of(e, "pet rank"@, v)
    } else {
        true
    }
}

/// Whether the failure of the value `v` of a key `k` about the guild, the
/// fortress, the pets, the underworld or the dungeons names one error: the
/// price lists of the underworld and the portal always; the witch, the
/// tower and the dungeon progress where they are no list of numbers.
pub open spec fn world_error_named(k: Seq<char>, v: Seq<char>) -> bool {
    if guild_keys(k) {
        guild_error_named(k, v)
    } else if fortress_keys(k) {
        fortress_error_named(k, v)
    } else if k == "underworldupgradeprice"@ || k == "underworldprice"@ || k == "portalprogress"@ {
        true
    } else if pet_keys(k) {
        pet_error_named(k, v)
    } else if k == "witch"@ || k == "owntower"@ || k == "dungeonprogresslight"@ || k
        == "dungeonprogressshadow"@ {
        !list_ok(v)
    } else {
        false
    }
}

/// The error of portal values `d` of fewer than three values: the first
/// that is missing of the finished fights, the enemy's health and the day.
pub open spec fn portal_error(e: SFError, d: Seq<i64>) -> bool {
    if d.len() == 0 {
        short_error_in(e, "portal fights"@, 0, d)
    } else if d.len() == 1 {
        short_error_in(e, "portal hp"@, 1, d)
    } else {
        short_error_in(e, "portal day"@, 2, d)
    }
}

/// The error that the value `v` of a key `k` about the guild, the fortress,
/// the pets, the underworld or the dungeons gives, where
/// `world_error_named` holds.
pub open spec fn world_error(k: Seq<char>, v: Seq<char>, e: SFError) -> bool {
    let d = list_of(v);
    if guild_keys(k) {
        guild_error(k, v, e)
    } else if fortress_keys(k) {
        fortress_error(k, v, e)
    } else if k == "witch"@ {
        list_error_of(e, "witch"@, v)
    } else if k == "underworldupgradeprice"@ {
        if !list_ok(v) {
            list_error_of(e, "underworld upgrade prices"@, v)
        } else {
            short_error_in(e, "uunit upgrade gold"@, 8, d)
        }
    } else if k == "underworldprice"@ {
        if !list_ok(v) {
            list_error_of(e, "ub prices"@, v)
        } else {
            short_error_in(e, "underworld building prices"@, 29, d)
        }
    } else if k == "owntower"@ {
        list_error_of(e, "tower"@, v)
    } else if k == "dungeonprogresslight"@ {
        list_error_of(e, "dungeon progress light"@, v)
    } else if k == "dungeonprogressshadow"@ {
        list_error_of(e, "dungeon progress shadow"@, v)
    } else if k == "portalprogress"@ {
        if !list_ok(v) {
            list_error_of(e, "portal progress"@, v)
        } else {
            portal_error(e, d)
        }
    } else if k == "singleportalenemylevel"@ {
        true
    } else if pet_keys(k) {
        pet_error(k, v, e)
    } else {
        true
    }
}

/// The error of fight result values `d` of three values or fewer: the first
/// that is missing of the outcome (0), the silver (2) and the souls (3).
pub open spec fn fight_result_short(e: SFError, d: Seq<i64>) -> bool {
    if d.len() == 0 {
        short_error_in(e, "has_player_won"@, 0, d)
    } else if d.len() <= 2 {
        short_error_in(e, "fight silver change"@, 2, d)
    } else {
        short_error_in(e, "underworld souls"@, 3, d)
    }
}

/// Whether the failure of the value `v` of a key `k` about a fight names one
/// error: the version and a winner always, a result that is no list or has
/// three values or fewer.
pub open spec fn fight_error_named(k: Seq<char>, v: Seq<char>) -> bool {
    if k == "fightresult"@ {
        !list_ok(v) || list_of(v).len() <= 3
    } else if k == "fightgroups"@ {
        false
    } else if k == "fightversion"@ {
        true
    } else if text_starts(k, "winnerid"@) {
        true
    } else {
        false
    }
}

/// The error that the value `v` of a key `k` about a fight gives, where
/// `fight_error_named` holds.
pub open spec fn fight_error(k: Seq<char>, v: Seq<char>, e: SFError) -> bool {
    if k == "fightresult"@ {
        if !list_ok(v) {
            list_error_of(e, "fight result"@, v)
        } else {
            fight_result_short(e, list_of(v))
        }
    } else if k == "fightgroups"@ {
        true
    } else if k == "fightversion"@ {
        parsing_error_of(e, "fight version"@, v)
    } else if text_starts(k, "winnerid"@) {
        parsing_error_of(e, "winner id"@, v)
    } else {
        true
    }
}

/// Whether the failure of the value `v` of a key `k` about another player
/// names one error: the player values where they are no list of numbers,
/// the relationship and the wall level always, the pet bonus where it is no
/// list of `u32` values.
pub open spec fn other_player_error_named(k: Seq<char>, v: Seq<char>) -> bool {
    if k == "otherplayer"@ {
        !list_ok(v)
    } else if k == "otherdescription"@ || k == "otherplayergroupname"@ || k == "otherplayername"@ {
        false
    } else if k == "otherplayerfriendstatus"@ {
        true
    } else if k == "otherplayerpetbonus"@ {
        true
    } else if k == "otherplayerunitlevel"@ {
        true
    } else {
        false
    }
}

/// The error that the value `v` of a key `k` about another player gives,
/// where `other_player_error_named` holds.
pub open spec fn other_player_error(k: Seq<char>, v: Seq<char>, e: SFError) -> bool {
    if k == "otherplayer"@ {
        list_error_of(e, "other player"@, v)
    } else if k == "otherdescription"@ || k == "otherplayergroupname"@ || k == "otherplayername"@ {
        true
    } else if k == "otherplayerfriendstatus"@ {
        parsing_error_of(e, "other friend"@, v)
    } else if k == "otherplayerpetbonus"@ {
        if dice_list(v) is None {
            parsing_error_of(e, "o pet bonus"@, debug_str_text(first_bad_u32(list_pieces(v))))
        } else {
            e matches SFError::TooShortResponse { name, pos, array } && name@ == "pet str"@ && pos
                == 5 && array@.len() == 0
        }
    } else if k == "otherplayerunitlevel"@ {
        if !list_ok(v) {
            list_error_of(e, "other player unit level"@, v)
        } else {
            short_error_in(e, "wall_lvl"@, 0, list_of(v))
        }
    } else {
        true
    }
}

/// Whether the failure of the value `v` of a key `k` about another guild
/// names one error: its rank and its attack cost.
pub open spec fn other_guild_error_named(k: Seq<char>, v: Seq<char>) -> bool {
    if k == "othergroupname"@ {
        false
    } else if k == "othergrouprank"@ || k == "othergroupfightcost"@ {
        true
    } else {
        false
    }
}

/// The error that the value `v` of a key `k` about another guild gives,
/// where `other_guild_error_named` holds.
pub open spec fn other_guild_error(k: Seq<char>, v: Seq<char>, e: SFError) -> bool {
    if k == "othergroupname"@ {
        true
    } else if k == "othergrouprank"@ {
        parsing_error_of(e, "other group rank"@, v)
    } else if k == "othergroupfightcost"@ {
        parsing_error_of(e, "other group fighting cost"@, v)
    } else {
        true
    }
}

/// Whether the failure of the value `v` of a key `k` that sets none of the
/// single fields names one error, the keys taken in the order in which the
/// parts are asked.
pub open spec fn other_error_named(k: Seq<char>, v: Seq<char>) -> bool {
    if character_keys(k) {
        character_error_named(k, v)
    } else if world_keys(k) {
        world_error_named(k, v)
    } else if k == "ranklistfortress"@ || k == "Ranklistfortress"@ {
        false
    } else if k == "otherplayer"@ || other_player_value_keys(k) {
        other_player_error_named(k, v)
    } else if other_guild_value_keys(k) {
        other_guild_error_named(k, v)
    } else if fight_key(k) {
        fight_error_named(k, v)
    } else {
        false
    }
}

/// The error that the value `v` of a key `k` that sets none of the single
/// fields gives, where `other_error_named` holds.
pub open spec fn other_error(k: Seq<char>, v: Seq<char>, e: SFError) -> bool {
    if character_keys(k) {
        character_error(k, v, e)
    } else if world_keys(k) {
        world_error(k, v, e)
    } else if k == "ranklistfortress"@ || k == "Ranklistfortress"@ {
        true
    } else if k == "otherplayer"@ || other_player_value_keys(k) {
        other_player_error(k, v, e)
    } else if other_guild_value_keys(k) {
        other_guild_error(k, v, e)
    } else if fight_key(k) {
        fight_error(k, v, e)
    } else {
        true
    }
}

/// The error that the value `v` of a single-field key `k`, or the key of a
/// lost session, gives where it can not be read.
pub open spec fn single_error(k: Seq<char>, v: Seq<char>, e: SFError) -> bool {
    if k == "cryptoid not found"@ {
        e is ConnectionError
    } else if k == "wagesperhour"@ {
        parsing_error_of(e, "tavern wage"@, v)
    } else if k == "skipallow"@ {
        parsing_error_of(e, "skip allow"@, v)
    } else if k == "usersettings"@ {
        e matches SFError::TooShortResponse { name, pos, array } && name@ == "questing setting"@
            && pos == 4 && array@ == debug_strings_text(split_text(v, '/'))
    } else if k == "inboxcapacity"@ {
        parsing_error_of(e, "inbox cap"@, v)
    } else if k == "maxrank"@ {
        parsing_error_of(e, "player count"@, v)
    } else if k == "dragongoldbonus"@ {
        parsing_error_of(e, "dragon gold"@, v)
    } else if k == "unlockfeature"@ {
        list_error_of(e, "unlock"@, v)
    } else if k == "tavernspecialsub"@ {
        parsing_error_of(e, "tavern special sub"@, v)
    } else if k == "tavernspecialend"@ {
        parsing_error_of(e, "event end"@, v)
    } else if k == "eventtaskinfo"@ {
        if !list_ok(v) {
            list_error_of(e, "eti"@, v)
        } else {
            short_error_in(e, "event task theme"@, 2, list_of(v))
        }
    } else if k == "maxrankgroup"@ {
        parsing_error_of(e, "guild max"@, v)
    } else if k == "maxrankPets"@ {
        parsing_error_of(e, "pet rank max"@, v)
    } else if k == "maxrankFortress"@ {
        parsing_error_of(e, "fortress max"@, v)
    } else if k == "maxrankUnderworld"@ {
        parsing_error_of(e, "mrank under"@, v)
    } else if k == "calenderinfo"@ {
        list_error_of(e, "calendar"@, v)
    } else if k == "eventtasklist"@ {
        list_error_of(e, "etl"@, v)
    } else if k == "dailytasklist"@ {
        if !list_ok(v) {
            list_error_of(e, "daily tasks list"@, v)
        } else {
            short_error_in(e, "daily tasks"@, 1, list_of(v))
        }
    } else if k == "gttime"@ {
        if !list_ok(v) {
            list_error_of(e, "gttime"@, v)
        } else {
            gttime_error(e, list_of(v))
        }
    } else if k == "dicestatus"@ {
        parsing_error_of(e, "dice status"@, debug_str_text(first_bad_u32(list_pieces(v))))
    } else {
        true
    }
}

/// The error of a hellevator time list `d` of fewer than four values: the
/// first of the start (0), the end (1) and the end of collecting (3) that
/// it lacks.
pub open spec fn gttime_error(e: SFError, d: Seq<i64>) -> bool {
    if d.len() == 0 {
        short_error_in(e, "event start"@, 0, d)
    } else if d.len() == 1 {
        short_error_in(e, "event end"@, 1, d)
    } else {
        short_error_in(e, "claim time end"@, 3, d)
    }
}

/// Holds where `j` is the first entry of `e` that can not be read.
pub open spec fn first_bad_at(e: Seq<(String, ResponseVal)>, j: int) -> bool {
    &&& 0 <= j < e.len()
    &&& !entry_readable(e[j].0@, e[j].1.value@)
    &&& forall|i: int| 0 <= i < j ==> entry_readable(#[trigger] e[i].0@, e[i].1.value@)
}

/// The parts of the state that only some keys change: the guild, the
/// fortress, the pets, the underworld, the portal, the witch and the last
/// fight.
pub open spec fn parts_same(a: GameState, b: GameState) -> bool {
    &&& a.guild == b.guild
    &&& a.fortress == b.fortress
    &&& a.pets == b.pets
    &&& a.underworld == b.underworld
    &&& a.dungeons.portal == b.dungeons.portal
    &&& a.witch == b.witch
    &&& a.last_fight == b.last_fight
}

/// Holds where `b` is the guild that `o` held, or a guild as it is made new
/// (without a name) where it held none.
pub open spec fn guild_base(o: Option<Guild>, b: Guild) -> bool {
    match o {
        Some(g) => b == g,
        None => b.name@.len() == 0 && b.id == 0 && b.rank == 0 && b.honor == 0,
    }
}

/// Holds where `b` are the pets that `o` held, or pets as they are made new
/// (of rank 0) where it held none.
pub open spec fn pets_base(o: Option<Pets>, b: Pets) -> bool {
    match o {
        Some(p) => b == p,
        None => b.rank == 0 && b.honor == 0 && b.total_collected == 0,
    }
}

/// The toilet that `o` held, or a toilet as it is made new.
pub open spec fn toilet_of(o: Option<Toilet>) -> Toilet {
    match o {
        Some(t) => t,
        None => Toilet { used: false, aura: 0, mana_currently: 0, mana_total: 0 },
    }
}

/// The reward chests `after` are `before` with the chests of the preview
/// values `d` read, as many as `d` holds.
pub open spec fn chests_read(before: [RewardChest; 3], d: Seq<i64>, after: [RewardChest; 3]) -> bool {
    forall|i: int|
        0 <= i < 3 ==> if i < chest_count(d) {
            chest_read(chest_values(d, i), #[trigger] after@[i])
        } else {
            after@[i] == before@[i]
        }
}

/// What reading the values `d` of key `k` about the active expedition does
/// to the expeditions `a`, giving `b`: the active expedition (started where
/// there is none) takes its boss, its rewards after the half, its state or
/// its encounters; the rest stays.
pub open spec fn expedition_read(a: ExpeditionsEvent, k: Seq<char>, d: Seq<i64>, st: ServerTime, b: ExpeditionsEvent) -> bool {
    &&& b == (ExpeditionsEvent { active: b.active, ..a })
    &&& b.active matches Some(e) && exists|x: Expedition|
        #[trigger] Expedition::started_from(a.active, x) && if k == "expeditionmonster"@ {
            e.boss == Expedition::spec_boss(d) && e.same_but_boss(x)
        } else if k == "expeditionhalftime"@ {
            e.halftime_for_boss_id == wrapping_neg(d[0]) && e.rewards@ == spec_rewards(d.skip(1))
                && e.same_but_halftime(x)
        } else if k == "expeditionstate"@ {
            e == x.spec_with_state(d, st)
        } else {
            e.encounters@ == spec_encounters(d) && e.same_but_encounters(x)
                && e.adjusted_bounty_heroism == x.adjusted_bounty_heroism
        }
}

/// What reading the value `v` of a key `k` about the character, the tavern
/// and the timed specials (but a player save and the resources) does to the
/// state `a`, giving `b`: the part that the key is about changes, the rest
/// stays.
pub open spec fn character_key_read(a: GameState, k: Seq<char>, v: Seq<char>, st: ServerTime, b: GameState) -> bool {
    let d = list_of(v);
    if k == "toilettfull"@ {
        &&& b == (GameState { tavern: Tavern { toilet: b.tavern.toilet, ..a.tavern }, ..a })
        &&& b.tavern.toilet == Some(Toilet {
            used: decimal_i32(trim_white(v))->0 != 0,
            ..toilet_of(a.tavern.toilet)
        })
    } else if k == "wheelresult"@ {
        &&& b == (GameState {
            specials: TimedSpecials {
                wheel: Wheel { result: b.specials.wheel.result, ..a.specials.wheel },
                ..a.specials
            },
            ..a
        })
        &&& b.specials.wheel.result == WheelReward::spec_parse(
            d[0],
            d[1],
            a.character.level >= 95 && a.pets is Some && a.underworld is Some,
        )
    } else if k == "gamblegoldvalue"@ || k == "gamblecoinvalue"@ {
        b == (GameState { tavern: Tavern { gamble_result: b.tavern.gamble_result, ..a.tavern }, ..a })
    } else if k == "dailytaskrewardpreview"@ {
        &&& b == (GameState {
            specials: TimedSpecials {
                tasks: Tasks {
                    daily: DailyTasks { rewards: b.specials.tasks.daily.rewards, ..a.specials.tasks.daily },
                    ..a.specials.tasks
                },
                ..a.specials
            },
            ..a
        })
        &&& chests_read(a.specials.tasks.daily.rewards, d, b.specials.tasks.daily.rewards)
    } else if k == "eventtaskrewardpreview"@ {
        &&& b == (GameState {
            specials: TimedSpecials {
                tasks: Tasks {
                    event: EventTasks { rewards: b.specials.tasks.event.rewards, ..a.specials.tasks.event },
                    ..a.specials.tasks
                },
                ..a.specials
            },
            ..a
        })
        &&& chests_read(a.specials.tasks.event.rewards, d, b.specials.tasks.event.rewards)
    } else if k == "dummies"@ {
        b == (GameState {
            character: Character { manequin: b.character.manequin, ..a.character },
            ..a
        }) && b.character.manequin is Some
    } else if k == "achievement"@ {
        &&& b == (GameState { achievements: b.achievements, ..a })
        &&& d.len() % 2 != 0 ==> b.achievements.0@.len() == 0
        &&& d.len() % 2 == 0 ==> b.achievements.0@.len() == d.len() / 2 && forall|i: int|
            0 <= i < d.len() / 2 ==> #[trigger] b.achievements.0@[i] == (Achievement {
                achieved: d[i] == 1,
                progress: d[i + d.len() / 2],
            })
    } else if k == "idle"@ {
        b == (GameState { idle_game: b.idle_game, ..a })
    } else if k == "smith"@ {
        &&& b == (GameState { blacksmith: b.blacksmith, ..a })
        &&& b.blacksmith matches Some(bs) && bs.dismantle_left == soft_u8(d[0], 0)
            && bs.last_dismantled == st.spec_convert(d[1]) && (a.blacksmith matches Some(x)
            ==> bs.metal == x.metal && bs.arcane == x.arcane)
    } else if k == "gtsave"@ {
        b == (GameState {
            hellevator: HellevatorEvent { active: b.hellevator.active, ..a.hellevator },
            ..a
        }) && b.hellevator.active is Some
    } else if k == "expeditionevent"@ {
        &&& b == (GameState { tavern: Tavern { expeditions: b.tavern.expeditions, ..a.tavern }, ..a })
        &&& b.tavern.expeditions == (ExpeditionsEvent {
            start: st.spec_convert(d[0]),
            end: st.spec_convert(d[1]),
            ..a.tavern.expeditions
        })
    } else if k == "expeditions"@ {
        &&& b == (GameState { tavern: Tavern { expeditions: b.tavern.expeditions, ..a.tavern }, ..a })
        &&& b.tavern.expeditions == (ExpeditionsEvent {
            available: b.tavern.expeditions.available,
            ..a.tavern.expeditions
        })
        &&& b.tavern.expeditions.available@ == spec_available(d)
    } else if k == "expeditionmonster"@ || k == "expeditionhalftime"@ || k == "expeditionstate"@
        || k == "expeditioncrossroad"@ {
        b == (GameState { tavern: Tavern { expeditions: b.tavern.expeditions, ..a.tavern }, ..a })
            && expedition_read(a.tavern.expeditions, k, d, st, b.tavern.expeditions)
    } else if k == "dicereward"@ {
        &&& b == (GameState {
            tavern: Tavern {
                dice_game: DiceGame { reward: b.tavern.dice_game.reward, ..a.tavern.dice_game },
                ..a.tavern
            },
            ..a
        })
        &&& u32_list_values(list_pieces(v)) matches Some(raw) && raw.len() >= 2
            && b.tavern.dice_game.reward == Some(DiceReward {
            win_typ: DiceType::spec_from_i64(
                if raw[0] as i64 - 1 < 0 {
                    4294967295
                } else {
                    (raw[0] as i64 - 1) as i64
                },
            )->0,
            amount: raw[1],
        })
    } else {
        true
    }
}

/// What reading the value `v` of a key `k` about the character and the
/// tavern does to the state `a`, giving `b`: a player save sets what
/// `save_applied` says, the resources set the fortress, the pets and the
/// underworld (keeping their levels), and the other keys leave the guild,
/// the fortress, the pets, the underworld, the portal, the witch and the
/// last fight as they were.
pub open spec fn character_applied(a: GameState, k: Seq<char>, v: Seq<char>, st: ServerTime, b: GameState) -> bool {
    &&& tracked_same(a, b)
    &&& b.last_fight == a.last_fight && b.witch == a.witch
    &&& (k != "ownplayersave"@ && k != "resources"@ ==> parts_same(a, b))
    &&& (k == "resources"@ ==> {
        &&& b.guild == a.guild && b.dungeons.portal == a.dungeons.portal
        &&& b.fortress matches Some(f) && f.level == fortress_level_of(a.fortress)
        &&& b.pets matches Some(p) && p.rank == pets_rank_of(a.pets)
        &&& b.underworld matches Some(u) && u.honor == underworld_honor_of(a.underworld)
    })
    &&& (k == "ownplayersave"@ ==> list_ok(v) && (list_of(v).len() < 700 ==> b == a) && (
    list_of(v).len() >= 700 ==> save_applied(a, list_of(v), b)))
    &&& (k != "ownplayersave"@ && k != "resources"@ ==> character_key_read(a, k, v, st, b))
}

/// Holds where `b` is the witch that `o` held, or a witch as it is made new
/// where it held none.
pub open spec fn witch_base(o: Option<Witch>, b: Witch) -> bool {
    match o {
        Some(w) => b == w,
        None => b.required_item is None && !b.cauldron_bubbling && b.progress == 0
            && b.enchantment_price == 0 && b.enchantments == [
            None::<EnchantmentIdent>,
            None,
            None,
            None,
            None,
            None,
            None,
            None,
            None,
        ],
    }
}

/// Holds where `b` is the underworld that `o` held, or an underworld as it
/// is made new (without honor or souls) where it held none.
pub open spec fn underworld_base(o: Option<Underworld>, b: Underworld) -> bool {
    match o {
        Some(u) => b == u,
        None => b.honor == 0 && b.souls_current == 0 && b.souls_limit == 0 && b.lured_today == 0
            && b.last_collectable_update is None && b.upgrade_building is None,
    }
}

/// Holds where `b` is the portal that `o` held, or a portal as it is made
/// new where it held none.
pub open spec fn portal_base(o: Option<Portal>, b: Portal) -> bool {
    match o {
        Some(p) => b == p,
        None => b == (Portal {
            finished: 0,
            can_fight: false,
            enemy_level: 0,
            enemy_hp_percentage: 0,
            player_hp_bonus: 0,
        }),
    }
}

/// What reading the upgrade prices `d` of the underworld's units
/// (`underworldupgradeprice`) or buildings (`underworldprice`) does to the
/// underworld `a`, giving `b`.
pub open spec fn underworld_prices_read(a: Underworld, k: Seq<char>, d: Seq<i64>, b: Underworld) -> bool {
    if k == "underworldupgradeprice"@ {
        &&& b == (Underworld { units: b.units, ..a })
        &&& forall|i: int|
            0 <= i < 3 ==> #[trigger] b.units[i] == (UnderworldUnit {
                upgrade_next_lvl: soft_u16(d[3 * i], 0),
                upgrade_cost: UnderworldCost {
                    silver: soft_u64(d[3 * i + 1], 0),
                    souls: soft_u64(d[3 * i + 2], 0),
                    ..a.units[i].upgrade_cost
                },
                ..a.units[i]
            })
    } else {
        &&& b == (Underworld { buildings: b.buildings, ..a })
        &&& forall|i: int|
            0 <= i < 10 ==> #[trigger] b.buildings[i] == (UnderworldBuilding {
                upgrade_cost: UnderworldCost::spec_parse(d.skip(3 * i)),
                ..a.buildings[i]
            })
    }
}

/// What reading the value `v` of a key `k` about the guild, the fortress,
/// the pets, the underworld or the dungeons does to the state `a`, giving
/// `b`: the part that the key is about is set (made new where there was
/// none), and the rest stays.
pub open spec fn world_applied(a: GameState, k: Seq<char>, v: Seq<char>, st: ServerTime, b: GameState) -> bool {
    if guild_keys(k) {
        b == (GameState { guild: b.guild, ..a }) && (b.guild matches Some(g) && exists|x: Guild|
            #[trigger] guild_base(a.guild, x) && guild_value_set(x, k, v, st, g))
    } else if fortress_keys(k) {
        b == (GameState { fortress: b.fortress, ..a }) && (b.fortress matches Some(f) && exists|
            x: Fortress,
        | #[trigger] fortress_base(a.fortress, x) && fortress_value_set(x, k, v, f))
    } else if k == "witch"@ {
        b == (GameState { witch: b.witch, ..a }) && (b.witch matches Some(w) && exists|x: Witch|
            #[trigger] witch_base(a.witch, x) && x.spec_read(list_of(v), w))
    } else if k == "underworldupgradeprice"@ || k == "underworldprice"@ {
        b == (GameState { underworld: b.underworld, ..a }) && (b.underworld matches Some(u)
            && exists|x: Underworld|
            #[trigger] underworld_base(a.underworld, x) && underworld_prices_read(x, k, list_of(v), u))
    } else if k == "owntower"@ {
        b == (GameState {
            underworld: b.underworld,
            dungeons: Dungeons { companions: b.dungeons.companions, ..a.dungeons },
            ..a
        }) && (b.underworld matches Some(u) && exists|x: Underworld|
            #[trigger] underworld_base(a.underworld, x) && x.spec_updated(list_of(v), st, u)) && (
        b.dungeons.companions matches Some(c) && exists|x: [Companion; 3]|
            #[trigger] based_on(a.dungeons.companions, x) && forall|i: int|
                0 <= i < 3 ==> #[trigger] companion_read(x@[i], list_of(v), i, c@[i]))
    } else if k == "dungeonprogresslight"@ || k == "dungeonprogressshadow"@ {
        b == (GameState { dungeons: b.dungeons, ..a }) && progress_read(
            a.dungeons,
            list_of(v),
            if k == "dungeonprogresslight"@ {
                DungeonType::Light
            } else {
                DungeonType::Shadow
            },
            b.dungeons,
        )
    } else if k == "portalprogress"@ {
        b == (GameState { dungeons: Dungeons { portal: b.dungeons.portal, ..a.dungeons }, ..a })
            && (b.dungeons.portal matches Some(p) && exists|x: Portal|
            #[trigger] portal_base(a.dungeons.portal, x) && portal_read(x, list_of(v), p))
    } else if k == "singleportalenemylevel"@ {
        b == (GameState { dungeons: Dungeons { portal: b.dungeons.portal, ..a.dungeons }, ..a })
            && (b.dungeons.portal matches Some(p) && p == (Portal {
            enemy_level: match decimal_u32(trim_white(v)) {
                Some(x) => x,
                None => u32::MAX,
            },
            ..match a.dungeons.portal {
                Some(q) => q,
                None => p,
            }
        }) && (a.dungeons.portal is None ==> p.finished == 0))
    } else if pet_keys(k) {
        b == (GameState { pets: b.pets, ..a }) && (b.pets matches Some(p) && exists|x: Pets|
            #[trigger] pets_base(a.pets, x) && pet_value_set(x, k, v, st, p))
    } else {
        b == a
    }
}

/// What reading the value `v` of a key `k` about another player does to
/// the player described so far: `otherplayer` reads the player anew (none
/// where the values are not valid), the other keys set one of its values.
pub open spec fn other_player_applied(pa: Option<OtherPlayer>, k: Seq<char>, v: Seq<char>, st: ServerTime, pb: Option<OtherPlayer>) -> bool {
    if k == "otherplayer"@ {
        match pb {
            Some(p) => OtherPlayer::spec_valid(list_of(v)) && exists|x: OtherPlayer|
                #[trigger] based_on(pa, x) && OtherPlayer::spec_updated(x, p, list_of(v), st),
            None => !OtherPlayer::spec_valid(list_of(v)),
        }
    } else {
        pb matches Some(p) && exists|x: OtherPlayer|
            #[trigger] based_on(pa, x) && other_player_value_set(x, k, v, p)
    }
}

/// What reading the value `v` of a key `k` about a fight (but the version)
/// does to the last fight `a`, giving `b`: the result and the groups are
/// read into the fight (a new one where there was none), a winner is set on
/// one of its fights, and the other keys leave a fight.
pub open spec fn fight_read(a: Option<Fight>, k: Seq<char>, v: Seq<char>, b: Option<Fight>) -> bool {
    if k == "fightresult"@ {
        b matches Some(f) && exists|x: Fight|
            #[trigger] based_on(a, x) && Fight::spec_result_read(x, list_of(v), f)
    } else if k == "fightgroups"@ {
        b matches Some(f) && exists|x: Fight|
            #[trigger] based_on(a, x) && Fight::spec_groups_read(x, v, f)
    } else if text_starts(k, "winnerid"@) {
        b matches Some(f) && exists|i: int|
            0 <= i < f.fights@.len() && #[trigger] f.fights@[i].winner_id == decimal_u32(
                trim_white(v),
            )->0
    } else {
        b is Some
    }
}

/// What reading the value `v` of a key `k` that sets none of the single
/// fields does, from the state `a`, the other player `pa` and the other
/// guild `ga` described so far, to `b`, `pb` and `gb`. The keys are taken
/// in the order in which the parts are asked: the character, the guild,
/// fortress, pets, underworld and dungeons, the fortress ranking, another
/// player, another guild, and a fight; a key of none of them changes
/// nothing.
pub open spec fn other_applied(
    a: GameState,
    pa: Option<OtherPlayer>,
    ga: Option<OtherGuild>,
    k: Seq<char>,
    v: Seq<char>,
    st: ServerTime,
    b: GameState,
    pb: Option<OtherPlayer>,
    gb: Option<OtherGuild>,
) -> bool {
    if character_keys(k) {
        character_applied(a, k, v, st, b) && pb == pa && gb == ga
    } else if world_keys(k) {
        world_applied(a, k, v, st, b) && pb == pa && gb == ga
    } else if k == "ranklistfortress"@ || k == "Ranklistfortress"@ {
        b == (GameState {
            hall_of_fames: HallOfFames { fortresses: b.hall_of_fames.fortresses, ..a.hall_of_fames },
            ..a
        }) && hof_fortresses_read(b.hall_of_fames.fortresses@, v) && pb == pa && gb == ga
    } else if k == "otherplayer"@ || other_player_value_keys(k) {
        b == a && gb == ga && other_player_applied(pa, k, v, st, pb)
    } else if other_guild_value_keys(k) {
        b == a && pb == pa && (gb matches Some(g) && exists|x: OtherGuild|
            #[trigger] based_on(ga, x) && other_guild_value_set(x, k, v, st, g))
    } else if fight_key(k) {
        b == (GameState { last_fight: b.last_fight, ..a }) && pb == pa && gb == ga && (k
            != "fightversion"@ ==> fight_read(a.last_fight, k, v, b.last_fight)) && (k
            == "fightversion"@ ==> b == a)
    } else {
        b == a && pb == pa && gb == ga
    }
}

/// What reading one entry `k: v` does: a single-field key leaves the parts
/// of `parts_same` and the other player and guild as they were; any other
/// key does what `other_applied` says.
pub open spec fn entry_applied(
    a: GameState,
    pa: Option<OtherPlayer>,
    ga: Option<OtherGuild>,
    k: Seq<char>,
    v: Seq<char>,
    st: ServerTime,
    b: GameState,
    pb: Option<OtherPlayer>,
    gb: Option<OtherGuild>,
) -> bool {
    if single_keys(k) {
        parts_same(a, b) && pb == pa && gb == ga
    } else {
        other_applied(a, pa, ga, k, v, st, b, pb, gb)
    }
}

/// Step `i` of the states `t` that reading the entries `e` passes through:
/// the entry `i` turns the state before it into the one after it.
pub open spec fn step_read(
    t: Seq<(GameState, Option<OtherPlayer>, Option<OtherGuild>)>,
    e: Seq<(String, ResponseVal)>,
    st: ServerTime,
    i: int,
) -> bool {
    entry_applied(
        t[i].0,
        t[i].1,
        t[i].2,
        e[i].0@,
        e[i].1.value@,
        st,
        t[i + 1].0,
        t[i + 1].1,
        t[i + 1].2,
    )
}

/// Holds where `t` are the states (with the other player and the other
/// guild described so far) that reading the entries `e` one after the other
/// passes through, starting with no other player and no other guild.
pub open spec fn read_in_order(
    t: Seq<(GameState, Option<OtherPlayer>, Option<OtherGuild>)>,
    e: Seq<(String, ResponseVal)>,
    st: ServerTime,
) -> bool {
    &&& t.len() == e.len() + 1
    &&& t[0].1 is None && t[0].2 is None
    &&& forall|i: int| 0 <= i < e.len() ==> #[trigger] step_read(t, e, st, i)
}

/// The guild that is kept at the end of an update: one without a name is
/// dropped.
pub open spec fn named_guild(o: Option<Guild>) -> Option<Guild> {
    match o {
        Some(g) => if g.name@.len() == 0 {
            None
        } else {
            Some(g)
        },
        None => None,
    }
}

/// The pets that are kept at the end of an update: pets of rank 0 are
/// dropped.
pub open spec fn ranked_pets(o: Option<Pets>) -> Option<Pets> {
    match o {
        Some(p) => if p.rank == 0 {
            None
        } else {
            Some(p)
        },
        None => None,
    }
}

/// The fortress that is kept at the end of an update: one of level 0 is
/// dropped.
pub open spec fn built_fortress(o: Option<Fortress>) -> Option<Fortress> {
    match o {
        Some(f) => if f.level == 0 {
            None
        } else {
            Some(f)
        },
        None => None,
    }
}

/// The underworld that is kept at the end of an update: one without honor
/// is dropped.
pub open spec fn honored_underworld(o: Option<Underworld>) -> Option<Underworld> {
    match o {
        Some(u) => if u.honor == 0 {
            None
        } else {
            Some(u)
        },
        None => None,
    }
}

/// The portal that is kept at the end of an update: one without a finished
/// fight is dropped.
pub open spec fn fought_portal(o: Option<Portal>) -> Option<Portal> {
    match o {
        Some(p) => if p.finished == 0 {
            None
        } else {
            Some(p)
        },
        None => None,
    }
}

/// The lookup `b` is `a` with the other guild `og` stored, where there is
/// one: it is found, and guilds of other names stay.
pub open spec fn guild_stored(a: Lookup, og: Option<OtherGuild>, b: Lookup) -> bool {
    match og {
        None => b == a,
        Some(g) => {
            &&& b.players == a.players && b.name_to_id == a.name_to_id
            &&& b.guilds@.contains(g)
            &&& forall|i: int|
                0 <= i < a.guilds@.len() && a.guilds@[i].name@ != g.name@ ==> b.guilds@.contains(
                    #[trigger] a.guilds@[i],
                )
            &&& forall|i: int|
                0 <= i < b.guilds@.len() ==> #[trigger] b.guilds@[i] == g || a.guilds@.contains(
                    b.guilds@[i],
                )
        },
    }
}

/// The lookup `b` is `a` with the other player `op` stored, where there is
/// one with a name and an id.
pub open spec fn player_stored(a: Lookup, op: Option<OtherPlayer>, b: Lookup) -> bool {
    match op {
        None => b == a,
        Some(p) => {
            &&& b.guilds == a.guilds
            &&& p.name@.len() == 0 || p.player_id == 0 ==> b == a
            &&& p.name@.len() != 0 && p.player_id != 0 ==> stores(a, p, b)
        },
    }
}

/// What the end of an update does to the state `s` that the entries left,
/// with the other player `op` and the other guild `og` they described,
/// giving `g`: both are stored in the lookup, the parts that were never
/// unlocked are dropped, and only the active expedition may take its bounty
/// bonus.
pub open spec fn finished(s: GameState, op: Option<OtherPlayer>, og: Option<OtherGuild>, g: GameState) -> bool {
    &&& g == (GameState {
        tavern: Tavern {
            expeditions: ExpeditionsEvent {
                active: g.tavern.expeditions.active,
                ..s.tavern.expeditions
            },
            ..s.tavern
        },
        lookup: g.lookup,
        guild: named_guild(s.guild),
        pets: ranked_pets(s.pets),
        fortress: built_fortress(s.fortress),
        underworld: honored_underworld(s.underworld),
        dungeons: Dungeons { portal: fought_portal(s.dungeons.portal), ..s.dungeons },
        ..s
    })
    &&& s.tavern.expeditions.active is None ==> g.tavern.expeditions.active is None
    &&& exists|l: Lookup| #[trigger] guild_stored(s.lookup, og, l) && player_stored(l, op, g.lookup)
}

/// The type a dice reward names: its first value less one, where that is
/// negative the largest `u32`.
pub open spec fn dice_reward_type(raw: u32) -> i64 {
    if raw as i64 - 1 < 0 {
        4294967295
    } else {
        (raw as i64 - 1) as i64
    }
}

/// Whether the value `v` of a key `k` about the character, the tavern and
/// the timed specials can be read.
pub open spec fn character_value_ok(k: Seq<char>, v: Seq<char>) -> bool {
    let d = list_of(v);
    if k == "toilettfull"@ {
        decimal_i32(trim_white(v)) is Some
    } else if k == "ownplayersave"@ {
        save_value_ok(v)
    } else if k == "wheelresult"@ {
        list_ok(v) && d.len() >= 2 && (d[0] != 3 || PetItem::spec_parse(d[1]) is Some)
    } else if k == "gamblegoldvalue"@ {
        decimal_i64(trim_white(v)) is Some
    } else if k == "gamblecoinvalue"@ {
        decimal_i32(trim_white(v)) is Some
    } else if k == "dailytaskrewardpreview"@ || k == "eventtaskrewardpreview"@ {
        list_ok(v) && forall|i: int|
            0 <= i < chest_count(d) ==> RewardChest::spec_valid(#[trigger] chest_values(d, i))
    } else if k == "dummies"@ {
        list_ok(v) && d.len() % 19 == 0
    } else if k == "achievement"@ {
        list_ok(v)
    } else if k == "idle"@ {
        v.len() == 0 || big_list_values(list_pieces(v)) is Some
    } else if k == "resources"@ {
        list_ok(v) && d.len() > 16
    } else if k == "smith"@ {
        list_ok(v) && d.len() >= 2
    } else if k == "gtsave"@ {
        list_ok(v) && d.len() >= 30
    } else if k == "expeditionevent"@ {
        list_ok(v) && d.len() >= 2
    } else if k == "expeditions"@ {
        list_ok(v)
    } else if k == "expeditionmonster"@ || k == "expeditionhalftime"@ {
        list_ok(v) && d.len() >= 1
    } else if k == "expeditionstate"@ {
        list_ok(v) && d.len() >= 17
    } else if k == "expeditioncrossroad"@ {
        list_ok(v)
    } else if k == "dicereward"@ {
        v.len() > 0 && (u32_list_values(list_pieces(v)) matches Some(raw) && raw.len() >= 2
            && DiceType::spec_from_i64(dice_reward_type(raw[0])) is Some)
    } else {
        true
    }
}

/// Whether the value `v` of a key `k` about the guild, the fortress, the
/// pets, the underworld or the dungeons can be read.
pub open spec fn world_value_ok(k: Seq<char>, v: Seq<char>) -> bool {
    let d = list_of(v);
    if guild_keys(k) {
        guild_value_ok(k, v)
    } else if fortress_keys(k) {
        fortress_value_ok(k, v)
    } else if k == "witch"@ {
        list_ok(v) && Witch::spec_valid(d)
    } else if k == "underworldupgradeprice"@ {
        list_ok(v) && d.len() >= 9
    } else if k == "underworldprice"@ {
        list_ok(v) && d.len() >= 30
    } else if k == "owntower"@ {
        list_ok(v) && d.len() > 475
    } else if k == "dungeonprogresslight"@ || k == "dungeonprogressshadow"@ {
        list_ok(v)
    } else if k == "portalprogress"@ {
        list_ok(v) && d.len() >= 3
    } else if k == "singleportalenemylevel"@ {
        true
    } else if pet_keys(k) {
        pet_value_ok(k, v)
    } else {
        true
    }
}

/// Whether the value `v` of a key `k` about a fight can be read, whatever
/// fight version came before: a result of 4 to 19 or of 28 and more values,
/// a version and a winner that are numbers, and rounds that can all be read.
pub open spec fn fight_value_ok(k: Seq<char>, v: Seq<char>) -> bool {
    let d = list_of(v);
    if k == "fightresult"@ {
        list_ok(v) && ((4 <= d.len() && d.len() < 20) || d.len() >= 28)
    } else if k == "fightgroups"@ {
        true
    } else if k == "fightversion"@ {
        decimal_u32(trim_white(v)) is Some
    } else if text_starts(k, "winnerid"@) {
        decimal_u32(trim_white(v)) is Some
    } else if text_starts(k, "fightheader"@) {
        true
    } else {
        forall|j: int|
            0 <= j < spec_rounds(split_text(v, '/')).len() ==> #[trigger] spec_rounds(
                split_text(v, '/'),
            )[j] is Some
    }
}

/// Whether the value `v` of a key `k` that sets none of the single fields
/// can be read, the keys taken in the order in which the parts are asked.
pub open spec fn other_readable(k: Seq<char>, v: Seq<char>) -> bool {
    if character_keys(k) {
        character_value_ok(k, v)
    } else if world_keys(k) {
        world_value_ok(k, v)
    } else if k == "ranklistfortress"@ || k == "Ranklistfortress"@ {
        true
    } else if k == "otherplayer"@ {
        list_ok(v)
    } else if other_player_value_keys(k) {
        other_player_value_ok(k, v)
    } else if other_guild_value_keys(k) {
        other_guild_value_ok(k, v)
    } else if fight_key(k) {
        fight_value_ok(k, v)
    } else {
        true
    }
}

/// Whether the entry `k: v` can be read: a lost session never, a
/// single-field key where its value can be read, any other key as
/// `other_readable` says.
pub open spec fn entry_readable(k: Seq<char>, v: Seq<char>) -> bool {
    if k == "cryptoid not found"@ {
        false
    } else if single_keys(k) {
        entry_ok(k, v)
    } else {
        other_readable(k, v)
    }
}

/// Holds where every entry can be read.
pub open spec fn all_readable(e: Seq<(String, ResponseVal)>) -> bool {
    forall|i: int| 0 <= i < e.len() ==> entry_readable(#[trigger] e[i].0@, e[i].1.value@)
}

/// The level after the entries were read, from the level `l` before: each
/// player save of 700 values or more sets it.
pub open spec fn level_after(l: u16, e: Seq<(String, ResponseVal)>) -> u16
    decreases e.len(),
{
    if e.len() == 0 {
        l
    } else if e.last().0@ == "ownplayersave"@ {
        level_from_save(level_after(l, e.drop_last()), e.last().1.value@)
    } else {
        level_after(l, e.drop_last())
    }
}

/// A key that begins neither with `fight` nor with `winnerid` is no key
/// about fights.
proof fn lemma_not_fight(k: Seq<char>)
    requires
        !text_starts(k, "fight"@),
        !text_starts(k, "winnerid"@),
    ensures
        !fight_key(k),
{
    reveal_strlit("fight");
    reveal_strlit("fightresult");
    reveal_strlit("fightgroups");
    reveal_strlit("fightversion");
    reveal_strlit("fightheader");
    if k == "fightresult"@ || k == "fightgroups"@ || k == "fightversion"@ || text_starts(
        k,
        "fightheader"@,
    ) {
        assert(k.take(5) =~= "fight"@);
    }
}

/// Reading an entry whose key is no key about fights keeps the last fight.
proof fn lemma_fight_kept(
    a: GameState,
    pa: Option<OtherPlayer>,
    ga: Option<OtherGuild>,
    k: Seq<char>,
    v: Seq<char>,
    st: ServerTime,
    b: GameState,
    pb: Option<OtherPlayer>,
    gb: Option<OtherGuild>,
)
    requires
        entry_applied(a, pa, ga, k, v, st, b, pb, gb),
        !fight_key(k),
    ensures
        b.last_fight == a.last_fight,
{
}

impl GameState {
    /// Applies one entry of a response.
    #[verifier::spinoff_prover]
    fn apply_entry(
        &mut self,
        key: &str,
        val: &ResponseVal,
        st: ServerTime,
        op: &mut Option<OtherPlayer>,
        og: &mut Option<OtherGuild>,
        fight_version: &mut u32,
    ) -> (r: Result<(), SFError>)
        requires
            st == ServerTime(old(self).server_time_diff),
        ensures
            entry_readable(key@, val.value@) ==> r is Ok,
            final(self).lookup == old(self).lookup,
            final(self).server_time_diff == old(self).server_time_diff,
            final(self).last_request_timestamp == old(self).last_request_timestamp,
            others_same(*old(self), *final(self), key@),
            r is Ok ==> key_sets(*final(self), key@, *val),
            key@ == "cryptoid not found"@ ==> r is Err,
            r is Ok ==> entry_applied(
                *old(self),
                *old(op),
                *old(og),
                key@,
                val.value@,
                st,
                *final(self),
                *final(op),
                *final(og),
            ),
            single_keys(key@) ==> (r is Ok <==> entry_ok(key@, val.value@)),
            error_named(key@, val.value@) ==> (r matches Err(e) ==> entry_error(
                key@,
                val.value@,
                e,
            )),
            error_named(key@, val.value@) && r is Ok ==> entry_readable(key@, val.value@),
            key@ != "ownplayersave"@ ==> final(self).character.level == old(self).character.level,
            key@ == "ownplayersave"@ ==> (r is Ok <==> save_value_ok(val.value@)),
            key@ == "ownplayersave"@ && r is Ok ==> final(self).character.level == level_from_save(
                old(self).character.level,
                val.value@,
            ),
            !single_keys(key@) && !other_keys(key) && key@ != "cryptoid not found"@ ==> r is Ok
                && *final(self) == *old(self) && *final(op) == *old(op) && *final(og) == *old(og)
                && *final(fight_version) == *old(fight_version),
    {
        proof {
            lemma_keys_distinct();
        }
        if key_is(key, "cryptoid not found") {
            return Err(SFError::ConnectionError);
        } else if key_is(key, "ownplayername") {
            self.character.name = val.as_str().to_string();
        } else if key_is(key, "owndescription") {
            self.character.description = from_sf_string(val.as_str());
        } else if key_is(key, "wagesperhour") {
            self.tavern.guard_wage = val.into_u64("tavern wage")?;
        } else if key_is(key, "skipallow") {
            let raw_skip = val.into_i32("skip allow")?;
            self.tavern.mushroom_skip_allowed = raw_skip != 0;
        } else if key_is(key, "usersettings") {
            let vals = split_by(val.as_str(), '/');
            if vals.len() <= 4 {
                return Err(
                    SFError::TooShortResponse {
                        name: "questing setting",
                        pos: 4,
                        array: debug_pieces(&vals),
                    },
                );
            }
            let a = ['a'];
            let setting = if text_is(vals[4].as_str(), &a) {
                ExpeditionSetting::PreferExpeditions
            } else {
                ExpeditionSetting::PreferQuests
            };
            assert(a@ =~= seq!['a']);
            assert(string_views(vals@)[4] == vals@[4]@);
            self.tavern.questing_preference = setting;
        } else if key_is(key, "inboxcapacity") {
            self.mail.inbox_capacity = val.into_u16("inbox cap")?;
        } else if key_is(key, "messagetext") {
            self.mail.open_msg = Some(from_sf_string(val.as_str()));
        } else if key_is(key, "maxrank") {
            self.hall_of_fames.players_total = val.into_u32("player count")?;
        } else if key_is(key, "dragongoldbonus") {
            self.character.mount_dragon_refund = val.into_u64("dragon gold")?;
        } else if key_is(key, "scrapbook") {
            self.character.scrapbook = ScrapBook::parse(val.as_str());
        } else if key_is(key, "unlockfeature") {
            let data = val.into_list("unlock")?;
            self.pending_unlocks = Unlockable::parse(&data)?;
        } else if key_is(key, "Ranklistplayer") {
            self.hall_of_fames.players = read_hof_players(val.as_str());
        } else if key_is(key, "ranklistgroup") {
            self.hall_of_fames.guilds = read_hof_guilds(val.as_str());
        } else if key_is(key, "calenderinfo") {
            let data = val.into_list("calendar")?;
            parse_calendar(&data, &mut self.specials.calendar.rewards)?;
        } else if key_is(key, "eventtasklist") {
            let data = val.into_list("etl")?;
            parse_tasks(&data, &mut self.specials.tasks.event.tasks)?;
        } else if key_is(key, "dailytasklist") {
            let data = val.into_list("daily tasks list")?;
            self.specials.tasks.daily.tasks.clear();
            let rest = skip(&data, 1, "daily tasks")?;
            parse_tasks(rest, &mut self.specials.tasks.daily.tasks)?;
        } else if key_is(key, "friendlist") {
            self.updatete_relation_list(val.as_str());
        } else if key_is(key, "gttime") {
            let data = val.into_list("gttime")?;
            self.update_gttime(&data, st)?;
        } else if key_is(key, "dicestatus") {
            let data = val.into_list_u32("dice status")?;
            proof {
                if val.value@.len() == 0 {
                    assert(data@ =~= Seq::<u32>::empty());
                }
                assert(dice_list(val.value@) == Some(data@));
            }
            self.tavern.dice_game.current_dice = match parse_dice(data.as_slice()) {
                Some(d) => d,
                None => Vec::new(),
            };
        } else if key_is(key, "messagelist") {
            self.mail.inbox = read_inbox(val.as_str(), st);
        } else if key_is(key, "combatloglist") {
            self.mail.combat_log = read_combat_log(val.as_str(), st);
        } else if key_is(key, "RanklistPets") {
            self.hall_of_fames.pets = read_hof_pets(val.as_str());
        } else if key_is(key, "ranklistunderworld") {
            self.hall_of_fames.underworlds = read_hof_underworlds(val.as_str());
        } else if key_is(key, "maxrankgroup") {
            self.hall_of_fames.guilds_total = Some(val.into_u32("guild max")?);
        } else if key_is(key, "maxrankPets") {
            self.hall_of_fames.pets_total = Some(val.into_u32("pet rank max")?);
        } else if key_is(key, "maxrankFortress") {
            self.hall_of_fames.fortresses_total = Some(val.into_u32("fortress max")?);
        } else if key_is(key, "maxrankUnderworld") {
            self.hall_of_fames.underworlds_total = Some(val.into_u32("mrank under")?);
        } else if key_is(key, "tavernspecialsub") {
            let flags = val.into_i32("tavern special sub")?;
            self.specials.events.set_active(flags);
        } else if key_is(key, "tavernspecialend") {
            let raw = val.into("event end")?;
            self.specials.events.ends = st.convert_to_local(raw, "event end");
        } else if key_is(key, "eventtaskinfo") {
            let data = val.into_list("eti")?;
            let raw_theme = cget(&data, 2, "event task theme")?;
            self.specials.tasks.event.theme = match EventTaskTheme::from_i64(raw_theme) {
                Some(t) => t,
                None => EventTaskTheme::Unknown,
            };
            self.specials.tasks.event.start = cstget(&data, 0, "event t start", st)?;
            self.specials.tasks.event.end = cstget(&data, 1, "event t end", st)?;
        } else {
            self.apply_other(key, val, st, op, og, fight_version)?;
        }
        Ok(())
    }

    /// Applies an entry whose key sets none of the single fields.
    fn apply_other(
        &mut self,
        key: &str,
        val: &ResponseVal,
        st: ServerTime,
        op: &mut Option<OtherPlayer>,
        og: &mut Option<OtherGuild>,
        fight_version: &mut u32,
    ) -> (r: Result<(), SFError>)
        ensures
            other_error_named(key@, val.value@) ==> (r matches Err(e) ==> other_error(
                key@,
                val.value@,
                e,
            )),
            other_error_named(key@, val.value@) && r is Ok ==> other_readable(key@, val.value@),
            other_readable(key@, val.value@) ==> r is Ok,
            tracked_same(*old(self), *final(self)),
            r is Ok ==> other_applied(
                *old(self),
                *old(op),
                *old(og),
                key@,
                val.value@,
                st,
                *final(self),
                *final(op),
                *final(og),
            ),
            !other_keys(key) ==> r is Ok && *final(self) == *old(self) && *final(op) == *old(op)
                && *final(og) == *old(og) && *final(fight_version) == *old(fight_version),
            key@ != "ownplayersave"@ ==> final(self).character.level == old(self).character.level,
            key@ == "ownplayersave"@ ==> (r is Ok <==> save_value_ok(val.value@)),
            key@ == "ownplayersave"@ && r is Ok ==> final(self).character.level == level_from_save(
                old(self).character.level,
                val.value@,
            ),
    {
        if self.apply_character_keys(key, val, st)? {
            return Ok(());
        }
        if self.apply_world_keys(key, val, st)? {
            return Ok(());
        }
        if apply_hof_key(&mut self.hall_of_fames, key, val)? {
            return Ok(());
        }
        if apply_other_player_key(op, key, val, st)? {
            return Ok(());
        }
        if apply_other_guild_key(og, key, val, st)? {
            return Ok(());
        }
        self.apply_fight_key(key, val, fight_version)?;
        Ok(())
    }
}

/// Holds of a state in which nothing is held that was never unlocked: a
/// guild has a name, pets have a rank, a fortress a level, an underworld
/// honor and a portal finished fights.
pub open spec fn unlocked_only(g: GameState) -> bool {
    &&& (g.guild matches Some(x) ==> x.name@.len() > 0)
    &&& (g.pets matches Some(x) ==> x.rank != 0)
    &&& (g.fortress matches Some(x) ==> x.level != 0)
    &&& (g.underworld matches Some(x) ==> x.honor != 0)
    &&& (g.dungeons.portal matches Some(x) ==> x.finished != 0)
}

impl GameState {
    /// Updates the state with the new data of a response. The first error
    /// that is found stops the update and is returned.
    ///
    /// The server's timestamp is read first, as all other times depend on it.
    /// Each key of the response then updates its part of the state. At the
    /// end, another player or guild that the response described is stored
    /// in the lookup, and parts that were never unlocked are removed.
    ///
    /// The update succeeds where the timestamp and every entry can be read
    /// (`entry_readable`).
    ///
    /// # Errors
    /// Mainly `ParsingError` and `TooShortResponse`, where the response does
    /// not follow the expected layout; `ConnectionError` where the server did
    /// not find the session. For the entries of `error_named`, the error of
    /// the first entry that can not be read is the one `entry_error` names.
    #[verifier::spinoff_prover]
    pub fn update(&mut self, response: &Response) -> (r: Result<(), SFError>)
        requires
            old(self).wf(),
        ensures
            final(self).wf(),
            timestamp_bad(*response) ==> r is Err,
            !timestamp_bad(*response) ==> timestamp_read(*old(self), *final(self), *response),
            r is Ok ==> last_value(response.entries@, "cryptoid not found"@) is None,
            r is Ok ==> entries_set(*old(self), *final(self), response.entries@),
            r is Ok ==> unlocked_only(*final(self)),
            !timestamp_bad(*response) && all_readable(response.entries@) ==> r is Ok,
            forall|j: int|
                #![trigger first_bad_at(response.entries@, j)]
                !timestamp_bad(*response) && first_bad_at(response.entries@, j) && error_named(
                    response.entries@[j].0@,
                    response.entries@[j].1.value@,
                ) ==> (r matches Err(e) && entry_error(
                    response.entries@[j].0@,
                    response.entries@[j].1.value@,
                    e,
                )),
            r is Ok ==> final(self).character.level == level_after(
                old(self).character.level,
                response.entries@,
            ),
            r is Ok ==> exists|t: Seq<(GameState, Option<OtherPlayer>, Option<OtherGuild>)>|
                #[trigger] read_in_order(
                    t,
                    response.entries@,
                    ServerTime(final(self).server_time_diff),
                ) && t[0].0 == (GameState {
                    last_fight: None,
                    server_time_diff: final(self).server_time_diff,
                    last_request_timestamp: final(self).last_request_timestamp,
                    ..*old(self)
                }) && finished(t.last().0, t.last().1, t.last().2, *final(self)),
            r is Ok && (forall|j: int|
                0 <= j < response.entries@.len() ==> !text_starts(
                    #[trigger] response.entries@[j].0@,
                    "fight"@,
                ) && !text_starts(response.entries@[j].0@, "winnerid"@))
                ==> final(self).last_fight is None,
    {
        proof {
            lemma_keys_distinct();
        }
        self.read_timestamp(response)?;
        let st = self.server_time();
        self.last_fight = None;
        let mut other_player: Option<OtherPlayer> = None;
        let mut other_guild: Option<OtherGuild> = None;
        let mut fight_version: u32 = 0;
        let ghost s0 = *self;
        let ghost mut trace: Seq<(GameState, Option<OtherPlayer>, Option<OtherGuild>)> = seq![
            (s0, None, None),
        ];
        let mut i: usize = 0;
        assert(response.entries@.take(0) =~= Seq::<(String, ResponseVal)>::empty());
        while i < response.entries.len()
            invariant
                i <= response.entries@.len(),
                self.wf(),
                self.lookup == s0.lookup,
                self.server_time_diff == s0.server_time_diff,
                st == ServerTime(s0.server_time_diff),
                self.last_request_timestamp == s0.last_request_timestamp,
                !timestamp_bad(*response),
                timestamp_read(*old(self), *self, *response),
                entries_set(s0, *self, response.entries@.take(i as int)),
                last_value(response.entries@.take(i as int), "cryptoid not found"@) is None,
                self.character.level == level_after(
                    old(self).character.level,
                    response.entries@.take(i as int),
                ),
                forall|j: int|
                    #![trigger first_bad_at(response.entries@, j)]
                    first_bad_at(response.entries@, j) && error_named(
                        response.entries@[j].0@,
                        response.entries@[j].1.value@,
                    ) ==> j >= i,
                read_in_order(trace, response.entries@.take(i as int), st),
                trace[0] == (s0, None::<OtherPlayer>, None::<OtherGuild>),
                trace.last() == (*self, other_player, other_guild),
                (forall|j: int|
                    0 <= j < i ==> !text_starts(#[trigger] response.entries@[j].0@, "fight"@)
                        && !text_starts(response.entries@[j].0@, "winnerid"@))
                    ==> self.last_fight is None,
            decreases response.entries@.len() - i,
        {
            assert(response.entries@.take(i + 1).drop_last() =~= response.entries@.take(i as int));
            assert(response.entries@.take(i + 1).last() == response.entries@[i as int]);
            let ghost before = *self;
            let ghost op_before = other_player;
            let ghost og_before = other_guild;
            let key = response.entries[i].0.as_str();
            proof {
                if all_readable(response.entries@) {
                    let e = response.entries@[i as int];
                    assert(entry_readable(e.0@, e.1.value@));
                }
            }
            let res = self.apply_entry(
                key,
                &response.entries[i].1,
                st,
                &mut other_player,
                &mut other_guild,
                &mut fight_version,
            );
            if let Err(e) = res {
                proof {
                    assert forall|j: int|
                        #![trigger first_bad_at(response.entries@, j)]
                        first_bad_at(response.entries@, j) && error_named(
                            response.entries@[j].0@,
                            response.entries@[j].1.value@,
                        ) implies entry_error(
                            response.entries@[j].0@,
                            response.entries@[j].1.value@,
                            e,
                        ) by {
                        if j > i {
                            assert(entry_readable(
                                response.entries@[i as int].0@,
                                response.entries@[i as int].1.value@,
                            ));
                        }
                    }
                }
                return Err(e);
            }
            proof {
                assert forall|j: int|
                    #![trigger first_bad_at(response.entries@, j)]
                    first_bad_at(response.entries@, j) && error_named(
                        response.entries@[j].0@,
                        response.entries@[j].1.value@,
                    ) implies j >= i + 1 by {
                    if j == i {
                        assert(entry_readable(key@, response.entries@[i as int].1.value@));
                    }
                }
            }
            proof {
                lemma_entries_set_step(s0, before, *self, response.entries@, i as int);
                let e = response.entries@;
                let t2 = trace.push((*self, other_player, other_guild));
                assert forall|j: int| 0 <= j < i + 1 implies #[trigger] step_read(
                    t2,
                    e.take(i + 1),
                    st,
                    j,
                ) by {
                    if j < i {
                        assert(step_read(trace, e.take(i as int), st, j));
                        assert(e.take(i + 1)[j] == e.take(i as int)[j]);
                    } else {
                        assert(e.take(i + 1)[j] == e[i as int]);
                    }
                }
                trace = t2;
                if (forall|j: int|
                    0 <= j < i + 1 ==> !text_starts(#[trigger] e[j].0@, "fight"@)
                        && !text_starts(e[j].0@, "winnerid"@)) {
                    assert(!text_starts(e[i as int].0@, "fight"@));
                    lemma_not_fight(key@);
                    lemma_fight_kept(
                        before,
                        op_before,
                        og_before,
                        key@,
                        e[i as int].1.value@,
                        st,
                        *self,
                        other_player,
                        other_guild,
                    );
                }
            }
            i = i + 1;
        }
        assert(response.entries@.take(response.entries@.len() as int) =~= response.entries@);
        self.finish_update(other_player, other_guild);
        assert(read_in_order(trace, response.entries@, ServerTime(self.server_time_diff)));
        Ok(())
    }

    /// Builds the state from the response to a login: the response must
    /// hold the full state of the player.
    ///
    /// # Errors
    /// Any error of `update`, and a `ParsingError` where the response did
    /// not hold a character with a name and a level.
    pub fn new(response: &Response) -> (r: Result<GameState, SFError>)
        ensures
            timestamp_bad(*response) ==> r is Err,
            r is Ok ==> last_value(response.entries@, "cryptoid not found"@) is None,
            r matches Ok(g) ==> g.wf() && g.character.level != 0 && g.character.name@.len() > 0
                && unlocked_only(g),
            r matches Ok(g) ==> last_value(response.entries@, "ownplayername"@) matches Some(v)
                && g.character.name@ == v.value@,
            r matches Ok(g) ==> entries_shown(g, response.entries@),
            r matches Ok(g) ==> first_timestamp_read(g, *response),
            !timestamp_bad(*response) && all_readable(response.entries@) && level_after(
                0,
                response.entries@,
            ) != 0 && (last_value(response.entries@, "ownplayername"@) matches Some(v)
                && v.value@.len() > 0) ==> r is Ok,
            !timestamp_bad(*response) && all_readable(response.entries@) && (level_after(
                0,
                response.entries@,
            ) == 0 || !(last_value(response.entries@, "ownplayername"@) matches Some(v)
                && v.value@.len() > 0)) ==> (r matches Err(SFError::ParsingError(n, s)) && n@
                == "response did not contain full player state"@ && s@.len() == 0),
    {
        let mut res = GameState::default();
        let ghost d = res;
        res.update(response)?;
        if res.character.level == 0 || res.character.name.as_str().is_empty() {
            return Err(
                SFError::ParsingError("response did not contain full player state", String::new()),
            );
        }
        proof {
            lemma_entries_shown(d, res, response.entries@);
        }
        Ok(res)
    }
}

impl GameState {
    /// Reads the server's timestamp from a response, where it has one, and
    /// stores it with the difference to the time the response was received.
    fn read_timestamp(&mut self, response: &Response) -> (r: Result<(), SFError>)
        ensures
            timestamp_bad(*response) <==> r is Err,
            r is Ok ==> timestamp_read(*old(self), *final(self), *response),
            final(self).character == old(self).character,
            final(self).tavern == old(self).tavern,
            final(self).mail == old(self).mail,
            final(self).hall_of_fames == old(self).hall_of_fames,
            final(self).pending_unlocks == old(self).pending_unlocks,
            final(self).specials == old(self).specials,
            final(self).hellevator == old(self).hellevator,
            final(self).lookup == old(self).lookup,
            *final(self) == (GameState {
                server_time_diff: final(self).server_time_diff,
                last_request_timestamp: final(self).last_request_timestamp,
                ..*old(self)
            }),
    {
        if let Some(ts_val) = response.get("timestamp") {
            let ts = ts_val.into("server time stamp")?;
            if !chrono_timestamp_in_range(ts) {
                return Err(SFError::ParsingError("server time stamp", i64_to_string(ts)));
            }
            self.server_time_diff = ts.wrapping_sub(response.received_at);
            self.last_request_timestamp = ts;
        }
        Ok(())
    }

    /// Ends an update: the bounty bonus of the active expedition is applied,
    /// another player or guild that was described is stored in the lookup,
    /// and the parts that were never unlocked are removed.
    #[verifier::spinoff_prover]
    #[verifier::rlimit(40)]
    fn finish_update(&mut self, other_player: Option<OtherPlayer>, other_guild: Option<OtherGuild>)
        requires
            old(self).wf(),
        ensures
            final(self).wf(),
            unlocked_only(*final(self)),
            final(self).character == old(self).character,
            final(self).tavern.guard_wage == old(self).tavern.guard_wage,
            final(self).tavern.mushroom_skip_allowed == old(self).tavern.mushroom_skip_allowed,
            final(self).tavern.questing_preference == old(self).tavern.questing_preference,
            final(self).mail == old(self).mail,
            final(self).hall_of_fames == old(self).hall_of_fames,
            final(self).pending_unlocks == old(self).pending_unlocks,
            final(self).specials == old(self).specials,
            final(self).hellevator == old(self).hellevator,
            final(self).tavern.dice_game == old(self).tavern.dice_game,
            final(self).server_time_diff == old(self).server_time_diff,
            final(self).last_request_timestamp == old(self).last_request_timestamp,
            finished(*old(self), other_player, other_guild, *final(self)),
    {
        let ghost og = other_guild;
        let ghost op = other_player;
        if let Some(exp) = self.tavern.expeditions.active_mut() {
            exp.adjust_bounty_heroism();
        }
        let ghost l0 = self.lookup;
        if let Some(g) = other_guild {
            self.lookup.insert_guild(g);
        }
        let ghost l1 = self.lookup;
        assert(guild_stored(l0, og, l1));
        if let Some(p) = other_player {
            self.lookup.insert_lookup(p);
        }
        assert(player_stored(l1, op, self.lookup));
        if let Some(t) = self.dungeons.portal {
            if t.finished == 0 {
                self.dungeons.portal = None;
            }
        }
        let drop_pets = match &self.pets {
            Some(p) => p.rank == 0,
            None => false,
        };
        if drop_pets {
            self.pets = None;
        }
        let drop_guild = match &self.guild {
            Some(g) => g.name.as_str().is_empty(),
            None => false,
        };
        if drop_guild {
            self.guild = None;
        }
        let drop_fortress = match &self.fortress {
            Some(f) => f.level == 0,
            None => false,
        };
        if drop_fortress {
            self.fortress = None;
        }
        let drop_underworld = match &self.underworld {
            Some(u) => u.honor == 0,
            None => false,
        };
        if drop_underworld {
            self.underworld = None;
        }
    }
}


/// The keys that set single fields, and the key of a lost session, are
/// distinct texts.
proof fn lemma_keys_distinct()
    ensures
        "ownplayername"@ != "owndescription"@,
        "ownplayername"@ != "wagesperhour"@,
        "ownplayername"@ != "skipallow"@,
        "ownplayername"@ != "usersettings"@,
        "ownplayername"@ != "inboxcapacity"@,
        "ownplayername"@ != "messagetext"@,
        "ownplayername"@ != "maxrank"@,
        "ownplayername"@ != "dragongoldbonus"@,
        "ownplayername"@ != "scrapbook"@,
        "ownplayername"@ != "unlockfeature"@,
        "ownplayername"@ != "tavernspecialsub"@,
        "ownplayername"@ != "tavernspecialend"@,
        "ownplayername"@ != "eventtaskinfo"@,
        "ownplayername"@ != "maxrankgroup"@,
        "ownplayername"@ != "maxrankPets"@,
        "ownplayername"@ != "maxrankFortress"@,
        "ownplayername"@ != "maxrankUnderworld"@,
        "ownplayername"@ != "Ranklistplayer"@,
        "ownplayername"@ != "ranklistgroup"@,
        "ownplayername"@ != "RanklistPets"@,
        "ownplayername"@ != "ranklistunderworld"@,
        "ownplayername"@ != "messagelist"@,
        "ownplayername"@ != "combatloglist"@,
        "ownplayername"@ != "calenderinfo"@,
        "ownplayername"@ != "eventtasklist"@,
        "ownplayername"@ != "dailytasklist"@,
        "ownplayername"@ != "friendlist"@,
        "ownplayername"@ != "gttime"@,
        "ownplayername"@ != "dicestatus"@,
        "ownplayername"@ != "cryptoid not found"@,
        "ownplayername"@ != "ownplayersave"@,
        "owndescription"@ != "wagesperhour"@,
        "owndescription"@ != "skipallow"@,
        "owndescription"@ != "usersettings"@,
        "owndescription"@ != "inboxcapacity"@,
        "owndescription"@ != "messagetext"@,
        "owndescription"@ != "maxrank"@,
        "owndescription"@ != "dragongoldbonus"@,
        "owndescription"@ != "scrapbook"@,
        "owndescription"@ != "unlockfeature"@,
        "owndescription"@ != "tavernspecialsub"@,
        "owndescription"@ != "tavernspecialend"@,
        "owndescription"@ != "eventtaskinfo"@,
        "owndescription"@ != "maxrankgroup"@,
        "owndescription"@ != "maxrankPets"@,
        "owndescription"@ != "maxrankFortress"@,
        "owndescription"@ != "maxrankUnderworld"@,
        "owndescription"@ != "Ranklistplayer"@,
        "owndescription"@ != "ranklistgroup"@,
        "owndescription"@ != "RanklistPets"@,
        "owndescription"@ != "ranklistunderworld"@,
        "owndescription"@ != "messagelist"@,
        "owndescription"@ != "combatloglist"@,
        "owndescription"@ != "calenderinfo"@,
        "owndescription"@ != "eventtasklist"@,
        "owndescription"@ != "dailytasklist"@,
        "owndescription"@ != "friendlist"@,
        "owndescription"@ != "gttime"@,
        "owndescription"@ != "dicestatus"@,
        "owndescription"@ != "cryptoid not found"@,
        "owndescription"@ != "ownplayersave"@,
        "wagesperhour"@ != "skipallow"@,
        "wagesperhour"@ != "usersettings"@,
        "wagesperhour"@ != "inboxcapacity"@,
        "wagesperhour"@ != "messagetext"@,
        "wagesperhour"@ != "maxrank"@,
        "wagesperhour"@ != "dragongoldbonus"@,
        "wagesperhour"@ != "scrapbook"@,
        "wagesperhour"@ != "unlockfeature"@,
        "wagesperhour"@ != "tavernspecialsub"@,
        "wagesperhour"@ != "tavernspecialend"@,
        "wagesperhour"@ != "eventtaskinfo"@,
        "wagesperhour"@ != "maxrankgroup"@,
        "wagesperhour"@ != "maxrankPets"@,
        "wagesperhour"@ != "maxrankFortress"@,
        "wagesperhour"@ != "maxrankUnderworld"@,
        "wagesperhour"@ != "Ranklistplayer"@,
        "wagesperhour"@ != "ranklistgroup"@,
        "wagesperhour"@ != "RanklistPets"@,
        "wagesperhour"@ != "ranklistunderworld"@,
        "wagesperhour"@ != "messagelist"@,
        "wagesperhour"@ != "combatloglist"@,
        "wagesperhour"@ != "calenderinfo"@,
        "wagesperhour"@ != "eventtasklist"@,
        "wagesperhour"@ != "dailytasklist"@,
        "wagesperhour"@ != "friendlist"@,
        "wagesperhour"@ != "gttime"@,
        "wagesperhour"@ != "dicestatus"@,
        "wagesperhour"@ != "cryptoid not found"@,
        "wagesperhour"@ != "ownplayersave"@,
        "skipallow"@ != "usersettings"@,
        "skipallow"@ != "inboxcapacity"@,
        "skipallow"@ != "messagetext"@,
        "skipallow"@ != "maxrank"@,
        "skipallow"@ != "dragongoldbonus"@,
        "skipallow"@ != "scrapbook"@,
        "skipallow"@ != "unlockfeature"@,
        "skipallow"@ != "tavernspecialsub"@,
        "skipallow"@ != "tavernspecialend"@,
        "skipallow"@ != "eventtaskinfo"@,
        "skipallow"@ != "maxrankgroup"@,
        "skipallow"@ != "maxrankPets"@,
        "skipallow"@ != "maxrankFortress"@,
        "skipallow"@ != "maxrankUnderworld"@,
        "skipallow"@ != "Ranklistplayer"@,
        "skipallow"@ != "ranklistgroup"@,
        "skipallow"@ != "RanklistPets"@,
        "skipallow"@ != "ranklistunderworld"@,
        "skipallow"@ != "messagelist"@,
        "skipallow"@ != "combatloglist"@,
        "skipallow"@ != "calenderinfo"@,
        "skipallow"@ != "eventtasklist"@,
        "skipallow"@ != "dailytasklist"@,
        "skipallow"@ != "friendlist"@,
        "skipallow"@ != "gttime"@,
        "skipallow"@ != "dicestatus"@,
        "skipallow"@ != "cryptoid not found"@,
        "skipallow"@ != "ownplayersave"@,
        "usersettings"@ != "inboxcapacity"@,
        "usersettings"@ != "messagetext"@,
        "usersettings"@ != "maxrank"@,
        "usersettings"@ != "dragongoldbonus"@,
        "usersettings"@ != "scrapbook"@,
        "usersettings"@ != "unlockfeature"@,
        "usersettings"@ != "tavernspecialsub"@,
        "usersettings"@ != "tavernspecialend"@,
        "usersettings"@ != "eventtaskinfo"@,
        "usersettings"@ != "maxrankgroup"@,
        "usersettings"@ != "maxrankPets"@,
        "usersettings"@ != "maxrankFortress"@,
        "usersettings"@ != "maxrankUnderworld"@,
        "usersettings"@ != "Ranklistplayer"@,
        "usersettings"@ != "ranklistgroup"@,
        "usersettings"@ != "RanklistPets"@,
        "usersettings"@ != "ranklistunderworld"@,
        "usersettings"@ != "messagelist"@,
        "usersettings"@ != "combatloglist"@,
        "usersettings"@ != "calenderinfo"@,
        "usersettings"@ != "eventtasklist"@,
        "usersettings"@ != "dailytasklist"@,
        "usersettings"@ != "friendlist"@,
        "usersettings"@ != "gttime"@,
        "usersettings"@ != "dicestatus"@,
        "usersettings"@ != "cryptoid not found"@,
        "usersettings"@ != "ownplayersave"@,
        "inboxcapacity"@ != "messagetext"@,
        "inboxcapacity"@ != "maxrank"@,
        "inboxcapacity"@ != "dragongoldbonus"@,
        "inboxcapacity"@ != "scrapbook"@,
        "inboxcapacity"@ != "unlockfeature"@,
        "inboxcapacity"@ != "tavernspecialsub"@,
        "inboxcapacity"@ != "tavernspecialend"@,
        "inboxcapacity"@ != "eventtaskinfo"@,
        "inboxcapacity"@ != "maxrankgroup"@,
        "inboxcapacity"@ != "maxrankPets"@,
        "inboxcapacity"@ != "maxrankFortress"@,
        "inboxcapacity"@ != "maxrankUnderworld"@,
        "inboxcapacity"@ != "Ranklistplayer"@,
        "inboxcapacity"@ != "ranklistgroup"@,
        "inboxcapacity"@ != "RanklistPets"@,
        "inboxcapacity"@ != "ranklistunderworld"@,
        "inboxcapacity"@ != "messagelist"@,
        "inboxcapacity"@ != "combatloglist"@,
        "inboxcapacity"@ != "calenderinfo"@,
        "inboxcapacity"@ != "eventtasklist"@,
        "inboxcapacity"@ != "dailytasklist"@,
        "inboxcapacity"@ != "friendlist"@,
        "inboxcapacity"@ != "gttime"@,
        "inboxcapacity"@ != "dicestatus"@,
        "inboxcapacity"@ != "cryptoid not found"@,
        "inboxcapacity"@ != "ownplayersave"@,
        "messagetext"@ != "maxrank"@,
        "messagetext"@ != "dragongoldbonus"@,
        "messagetext"@ != "scrapbook"@,
        "messagetext"@ != "unlockfeature"@,
        "messagetext"@ != "tavernspecialsub"@,
        "messagetext"@ != "tavernspecialend"@,
        "messagetext"@ != "eventtaskinfo"@,
        "messagetext"@ != "maxrankgroup"@,
        "messagetext"@ != "maxrankPets"@,
        "messagetext"@ != "maxrankFortress"@,
        "messagetext"@ != "maxrankUnderworld"@,
        "messagetext"@ != "Ranklistplayer"@,
        "messagetext"@ != "ranklistgroup"@,
        "messagetext"@ != "RanklistPets"@,
        "messagetext"@ != "ranklistunderworld"@,
        "messagetext"@ != "messagelist"@,
        "messagetext"@ != "combatloglist"@,
        "messagetext"@ != "calenderinfo"@,
        "messagetext"@ != "eventtasklist"@,
        "messagetext"@ != "dailytasklist"@,
        "messagetext"@ != "friendlist"@,
        "messagetext"@ != "gttime"@,
        "messagetext"@ != "dicestatus"@,
        "messagetext"@ != "cryptoid not found"@,
        "messagetext"@ != "ownplayersave"@,
        "maxrank"@ != "dragongoldbonus"@,
        "maxrank"@ != "scrapbook"@,
        "maxrank"@ != "unlockfeature"@,
        "maxrank"@ != "tavernspecialsub"@,
        "maxrank"@ != "tavernspecialend"@,
        "maxrank"@ != "eventtaskinfo"@,
        "maxrank"@ != "maxrankgroup"@,
        "maxrank"@ != "maxrankPets"@,
        "maxrank"@ != "maxrankFortress"@,
        "maxrank"@ != "maxrankUnderworld"@,
        "maxrank"@ != "Ranklistplayer"@,
        "maxrank"@ != "ranklistgroup"@,
        "maxrank"@ != "RanklistPets"@,
        "maxrank"@ != "ranklistunderworld"@,
        "maxrank"@ != "messagelist"@,
        "maxrank"@ != "combatloglist"@,
        "maxrank"@ != "calenderinfo"@,
        "maxrank"@ != "eventtasklist"@,
        "maxrank"@ != "dailytasklist"@,
        "maxrank"@ != "friendlist"@,
        "maxrank"@ != "gttime"@,
        "maxrank"@ != "dicestatus"@,
        "maxrank"@ != "cryptoid not found"@,
        "maxrank"@ != "ownplayersave"@,
        "dragongoldbonus"@ != "scrapbook"@,
        "dragongoldbonus"@ != "unlockfeature"@,
        "dragongoldbonus"@ != "tavernspecialsub"@,
        "dragongoldbonus"@ != "tavernspecialend"@,
        "dragongoldbonus"@ != "eventtaskinfo"@,
        "dragongoldbonus"@ != "maxrankgroup"@,
        "dragongoldbonus"@ != "maxrankPets"@,
        "dragongoldbonus"@ != "maxrankFortress"@,
        "dragongoldbonus"@ != "maxrankUnderworld"@,
        "dragongoldbonus"@ != "Ranklistplayer"@,
        "dragongoldbonus"@ != "ranklistgroup"@,
        "dragongoldbonus"@ != "RanklistPets"@,
        "dragongoldbonus"@ != "ranklistunderworld"@,
        "dragongoldbonus"@ != "messagelist"@,
        "dragongoldbonus"@ != "combatloglist"@,
        "dragongoldbonus"@ != "calenderinfo"@,
        "dragongoldbonus"@ != "eventtasklist"@,
        "dragongoldbonus"@ != "dailytasklist"@,
        "dragongoldbonus"@ != "friendlist"@,
        "dragongoldbonus"@ != "gttime"@,
        "dragongoldbonus"@ != "dicestatus"@,
        "dragongoldbonus"@ != "cryptoid not found"@,
        "dragongoldbonus"@ != "ownplayersave"@,
        "scrapbook"@ != "unlockfeature"@,
        "scrapbook"@ != "tavernspecialsub"@,
        "scrapbook"@ != "tavernspecialend"@,
        "scrapbook"@ != "eventtaskinfo"@,
        "scrapbook"@ != "maxrankgroup"@,
        "scrapbook"@ != "maxrankPets"@,
        "scrapbook"@ != "maxrankFortress"@,
        "scrapbook"@ != "maxrankUnderworld"@,
        "scrapbook"@ != "Ranklistplayer"@,
        "scrapbook"@ != "ranklistgroup"@,
        "scrapbook"@ != "RanklistPets"@,
        "scrapbook"@ != "ranklistunderworld"@,
        "scrapbook"@ != "messagelist"@,
        "scrapbook"@ != "combatloglist"@,
        "scrapbook"@ != "calenderinfo"@,
        "scrapbook"@ != "eventtasklist"@,
        "scrapbook"@ != "dailytasklist"@,
        "scrapbook"@ != "friendlist"@,
        "scrapbook"@ != "gttime"@,
        "scrapbook"@ != "dicestatus"@,
        "scrapbook"@ != "cryptoid not found"@,
        "scrapbook"@ != "ownplayersave"@,
        "unlockfeature"@ != "tavernspecialsub"@,
        "unlockfeature"@ != "tavernspecialend"@,
        "unlockfeature"@ != "eventtaskinfo"@,
        "unlockfeature"@ != "maxrankgroup"@,
        "unlockfeature"@ != "maxrankPets"@,
        "unlockfeature"@ != "maxrankFortress"@,
        "unlockfeature"@ != "maxrankUnderworld"@,
        "unlockfeature"@ != "Ranklistplayer"@,
        "unlockfeature"@ != "ranklistgroup"@,
        "unlockfeature"@ != "RanklistPets"@,
        "unlockfeature"@ != "ranklistunderworld"@,
        "unlockfeature"@ != "messagelist"@,
        "unlockfeature"@ != "combatloglist"@,
        "unlockfeature"@ != "calenderinfo"@,
        "unlockfeature"@ != "eventtasklist"@,
        "unlockfeature"@ != "dailytasklist"@,
        "unlockfeature"@ != "friendlist"@,
        "unlockfeature"@ != "gttime"@,
        "unlockfeature"@ != "dicestatus"@,
        "unlockfeature"@ != "cryptoid not found"@,
        "unlockfeature"@ != "ownplayersave"@,
        "tavernspecialsub"@ != "tavernspecialend"@,
        "tavernspecialsub"@ != "eventtaskinfo"@,
        "tavernspecialsub"@ != "maxrankgroup"@,
        "tavernspecialsub"@ != "maxrankPets"@,
        "tavernspecialsub"@ != "maxrankFortress"@,
        "tavernspecialsub"@ != "maxrankUnderworld"@,
        "tavernspecialsub"@ != "Ranklistplayer"@,
        "tavernspecialsub"@ != "ranklistgroup"@,
        "tavernspecialsub"@ != "RanklistPets"@,
        "tavernspecialsub"@ != "ranklistunderworld"@,
        "tavernspecialsub"@ != "messagelist"@,
        "tavernspecialsub"@ != "combatloglist"@,
        "tavernspecialsub"@ != "calenderinfo"@,
        "tavernspecialsub"@ != "eventtasklist"@,
        "tavernspecialsub"@ != "dailytasklist"@,
        "tavernspecialsub"@ != "friendlist"@,
        "tavernspecialsub"@ != "gttime"@,
        "tavernspecialsub"@ != "dicestatus"@,
        "tavernspecialsub"@ != "cryptoid not found"@,
        "tavernspecialsub"@ != "ownplayersave"@,
        "tavernspecialend"@ != "eventtaskinfo"@,
        "tavernspecialend"@ != "maxrankgroup"@,
        "tavernspecialend"@ != "maxrankPets"@,
        "tavernspecialend"@ != "maxrankFortress"@,
        "tavernspecialend"@ != "maxrankUnderworld"@,
        "tavernspecialend"@ != "Ranklistplayer"@,
        "tavernspecialend"@ != "ranklistgroup"@,
        "tavernspecialend"@ != "RanklistPets"@,
        "tavernspecialend"@ != "ranklistunderworld"@,
        "tavernspecialend"@ != "messagelist"@,
        "tavernspecialend"@ != "combatloglist"@,
        "tavernspecialend"@ != "calenderinfo"@,
        "tavernspecialend"@ != "eventtasklist"@,
        "tavernspecialend"@ != "dailytasklist"@,
        "tavernspecialend"@ != "friendlist"@,
        "tavernspecialend"@ != "gttime"@,
        "tavernspecialend"@ != "dicestatus"@,
        "tavernspecialend"@ != "cryptoid not found"@,
        "tavernspecialend"@ != "ownplayersave"@,
        "eventtaskinfo"@ != "maxrankgroup"@,
        "eventtaskinfo"@ != "maxrankPets"@,
        "eventtaskinfo"@ != "maxrankFortress"@,
        "eventtaskinfo"@ != "maxrankUnderworld"@,
        "eventtaskinfo"@ != "Ranklistplayer"@,
        "eventtaskinfo"@ != "ranklistgroup"@,
        "eventtaskinfo"@ != "RanklistPets"@,
        "eventtaskinfo"@ != "ranklistunderworld"@,
        "eventtaskinfo"@ != "messagelist"@,
        "eventtaskinfo"@ != "combatloglist"@,
        "eventtaskinfo"@ != "calenderinfo"@,
        "eventtaskinfo"@ != "eventtasklist"@,
        "eventtaskinfo"@ != "dailytasklist"@,
        "eventtaskinfo"@ != "friendlist"@,
        "eventtaskinfo"@ != "gttime"@,
        "eventtaskinfo"@ != "dicestatus"@,
        "eventtaskinfo"@ != "cryptoid not found"@,
        "eventtaskinfo"@ != "ownplayersave"@,
        "maxrankgroup"@ != "maxrankPets"@,
        "maxrankgroup"@ != "maxrankFortress"@,
        "maxrankgroup"@ != "maxrankUnderworld"@,
        "maxrankgroup"@ != "Ranklistplayer"@,
        "maxrankgroup"@ != "ranklistgroup"@,
        "maxrankgroup"@ != "RanklistPets"@,
        "maxrankgroup"@ != "ranklistunderworld"@,
        "maxrankgroup"@ != "messagelist"@,
        "maxrankgroup"@ != "combatloglist"@,
        "maxrankgroup"@ != "calenderinfo"@,
        "maxrankgroup"@ != "eventtasklist"@,
        "maxrankgroup"@ != "dailytasklist"@,
        "maxrankgroup"@ != "friendlist"@,
        "maxrankgroup"@ != "gttime"@,
        "maxrankgroup"@ != "dicestatus"@,
        "maxrankgroup"@ != "cryptoid not found"@,
        "maxrankgroup"@ != "ownplayersave"@,
        "maxrankPets"@ != "maxrankFortress"@,
        "maxrankPets"@ != "maxrankUnderworld"@,
        "maxrankPets"@ != "Ranklistplayer"@,
        "maxrankPets"@ != "ranklistgroup"@,
        "maxrankPets"@ != "RanklistPets"@,
        "maxrankPets"@ != "ranklistunderworld"@,
        "maxrankPets"@ != "messagelist"@,
        "maxrankPets"@ != "combatloglist"@,
        "maxrankPets"@ != "calenderinfo"@,
        "maxrankPets"@ != "eventtasklist"@,
        "maxrankPets"@ != "dailytasklist"@,
        "maxrankPets"@ != "friendlist"@,
        "maxrankPets"@ != "gttime"@,
        "maxrankPets"@ != "dicestatus"@,
        "maxrankPets"@ != "cryptoid not found"@,
        "maxrankPets"@ != "ownplayersave"@,
        "maxrankFortress"@ != "maxrankUnderworld"@,
        "maxrankFortress"@ != "Ranklistplayer"@,
        "maxrankFortress"@ != "ranklistgroup"@,
        "maxrankFortress"@ != "RanklistPets"@,
        "maxrankFortress"@ != "ranklistunderworld"@,
        "maxrankFortress"@ != "messagelist"@,
        "maxrankFortress"@ != "combatloglist"@,
        "maxrankFortress"@ != "calenderinfo"@,
        "maxrankFortress"@ != "eventtasklist"@,
        "maxrankFortress"@ != "dailytasklist"@,
        "maxrankFortress"@ != "friendlist"@,
        "maxrankFortress"@ != "gttime"@,
        "maxrankFortress"@ != "dicestatus"@,
        "maxrankFortress"@ != "cryptoid not found"@,
        "maxrankFortress"@ != "ownplayersave"@,
        "maxrankUnderworld"@ != "Ranklistplayer"@,
        "maxrankUnderworld"@ != "ranklistgroup"@,
        "maxrankUnderworld"@ != "RanklistPets"@,
        "maxrankUnderworld"@ != "ranklistunderworld"@,
        "maxrankUnderworld"@ != "messagelist"@,
        "maxrankUnderworld"@ != "combatloglist"@,
        "maxrankUnderworld"@ != "calenderinfo"@,
        "maxrankUnderworld"@ != "eventtasklist"@,
        "maxrankUnderworld"@ != "dailytasklist"@,
        "maxrankUnderworld"@ != "friendlist"@,
        "maxrankUnderworld"@ != "gttime"@,
        "maxrankUnderworld"@ != "dicestatus"@,
        "maxrankUnderworld"@ != "cryptoid not found"@,
        "maxrankUnderworld"@ != "ownplayersave"@,
        "Ranklistplayer"@ != "ranklistgroup"@,
        "Ranklistplayer"@ != "RanklistPets"@,
        "Ranklistplayer"@ != "ranklistunderworld"@,
        "Ranklistplayer"@ != "messagelist"@,
        "Ranklistplayer"@ != "combatloglist"@,
        "Ranklistplayer"@ != "calenderinfo"@,
        "Ranklistplayer"@ != "eventtasklist"@,
        "Ranklistplayer"@ != "dailytasklist"@,
        "Ranklistplayer"@ != "friendlist"@,
        "Ranklistplayer"@ != "gttime"@,
        "Ranklistplayer"@ != "dicestatus"@,
        "Ranklistplayer"@ != "cryptoid not found"@,
        "Ranklistplayer"@ != "ownplayersave"@,
        "ranklistgroup"@ != "RanklistPets"@,
        "ranklistgroup"@ != "ranklistunderworld"@,
        "ranklistgroup"@ != "messagelist"@,
        "ranklistgroup"@ != "combatloglist"@,
        "ranklistgroup"@ != "calenderinfo"@,
        "ranklistgroup"@ != "eventtasklist"@,
        "ranklistgroup"@ != "dailytasklist"@,
        "ranklistgroup"@ != "friendlist"@,
        "ranklistgroup"@ != "gttime"@,
        "ranklistgroup"@ != "dicestatus"@,
        "ranklistgroup"@ != "cryptoid not found"@,
        "ranklistgroup"@ != "ownplayersave"@,
        "RanklistPets"@ != "ranklistunderworld"@,
        "RanklistPets"@ != "messagelist"@,
        "RanklistPets"@ != "combatloglist"@,
        "RanklistPets"@ != "calenderinfo"@,
        "RanklistPets"@ != "eventtasklist"@,
        "RanklistPets"@ != "dailytasklist"@,
        "RanklistPets"@ != "friendlist"@,
        "RanklistPets"@ != "gttime"@,
        "RanklistPets"@ != "dicestatus"@,
        "RanklistPets"@ != "cryptoid not found"@,
        "RanklistPets"@ != "ownplayersave"@,
        "ranklistunderworld"@ != "messagelist"@,
        "ranklistunderworld"@ != "combatloglist"@,
        "ranklistunderworld"@ != "calenderinfo"@,
        "ranklistunderworld"@ != "eventtasklist"@,
        "ranklistunderworld"@ != "dailytasklist"@,
        "ranklistunderworld"@ != "friendlist"@,
        "ranklistunderworld"@ != "gttime"@,
        "ranklistunderworld"@ != "dicestatus"@,
        "ranklistunderworld"@ != "cryptoid not found"@,
        "ranklistunderworld"@ != "ownplayersave"@,
        "messagelist"@ != "combatloglist"@,
        "messagelist"@ != "calenderinfo"@,
        "messagelist"@ != "eventtasklist"@,
        "messagelist"@ != "dailytasklist"@,
        "messagelist"@ != "friendlist"@,
        "messagelist"@ != "gttime"@,
        "messagelist"@ != "dicestatus"@,
        "messagelist"@ != "cryptoid not found"@,
        "messagelist"@ != "ownplayersave"@,
        "combatloglist"@ != "calenderinfo"@,
        "combatloglist"@ != "eventtasklist"@,
        "combatloglist"@ != "dailytasklist"@,
        "combatloglist"@ != "friendlist"@,
        "combatloglist"@ != "gttime"@,
        "combatloglist"@ != "dicestatus"@,
        "combatloglist"@ != "cryptoid not found"@,
        "combatloglist"@ != "ownplayersave"@,
        "calenderinfo"@ != "eventtasklist"@,
        "calenderinfo"@ != "dailytasklist"@,
        "calenderinfo"@ != "friendlist"@,
        "calenderinfo"@ != "gttime"@,
        "calenderinfo"@ != "dicestatus"@,
        "calenderinfo"@ != "cryptoid not found"@,
        "calenderinfo"@ != "ownplayersave"@,
        "eventtasklist"@ != "dailytasklist"@,
        "eventtasklist"@ != "friendlist"@,
        "eventtasklist"@ != "gttime"@,
        "eventtasklist"@ != "dicestatus"@,
        "eventtasklist"@ != "cryptoid not found"@,
        "eventtasklist"@ != "ownplayersave"@,
        "dailytasklist"@ != "friendlist"@,
        "dailytasklist"@ != "gttime"@,
        "dailytasklist"@ != "dicestatus"@,
        "dailytasklist"@ != "cryptoid not found"@,
        "dailytasklist"@ != "ownplayersave"@,
        "friendlist"@ != "gttime"@,
        "friendlist"@ != "dicestatus"@,
        "friendlist"@ != "cryptoid not found"@,
        "friendlist"@ != "ownplayersave"@,
        "gttime"@ != "dicestatus"@,
        "gttime"@ != "cryptoid not found"@,
        "gttime"@ != "ownplayersave"@,
        "dicestatus"@ != "cryptoid not found"@,
        "dicestatus"@ != "ownplayersave"@,
        "cryptoid not found"@ != "ownplayersave"@,
{
    reveal_strlit("ownplayername");
    reveal_strlit("owndescription");
    reveal_strlit("wagesperhour");
    reveal_strlit("skipallow");
    reveal_strlit("usersettings");
    reveal_strlit("inboxcapacity");
    reveal_strlit("messagetext");
    reveal_strlit("maxrank");
    reveal_strlit("dragongoldbonus");
    reveal_strlit("scrapbook");
    reveal_strlit("unlockfeature");
    reveal_strlit("tavernspecialsub");
    reveal_strlit("tavernspecialend");
    reveal_strlit("eventtaskinfo");
    reveal_strlit("maxrankgroup");
    reveal_strlit("maxrankPets");
    reveal_strlit("maxrankFortress");
    reveal_strlit("maxrankUnderworld");
    reveal_strlit("Ranklistplayer");
    reveal_strlit("ranklistgroup");
    reveal_strlit("RanklistPets");
    reveal_strlit("ranklistunderworld");
    reveal_strlit("messagelist");
    reveal_strlit("combatloglist");
    reveal_strlit("calenderinfo");
    reveal_strlit("eventtasklist");
    reveal_strlit("dailytasklist");
    reveal_strlit("friendlist");
    reveal_strlit("gttime");
    reveal_strlit("dicestatus");
    reveal_strlit("cryptoid not found");
    reveal_strlit("ownplayersave");
    assert("ownplayername"@.len() != "owndescription"@.len());
    assert("ownplayername"@.len() != "wagesperhour"@.len());
    assert("ownplayername"@.len() != "skipallow"@.len());
    assert("ownplayername"@.len() != "usersettings"@.len());
    assert("ownplayername"@[0] != "inboxcapacity"@[0]);
    assert("ownplayername"@.len() != "messagetext"@.len());
    assert("ownplayername"@.len() != "maxrank"@.len());
    assert("ownplayername"@.len() != "dragongoldbonus"@.len());
    assert("ownplayername"@.len() != "scrapbook"@.len());
    assert("ownplayername"@[0] != "unlockfeature"@[0]);
    assert("ownplayername"@.len() != "tavernspecialsub"@.len());
    assert("ownplayername"@.len() != "tavernspecialend"@.len());
    assert("ownplayername"@[0] != "eventtaskinfo"@[0]);
    assert("ownplayername"@.len() != "maxrankgroup"@.len());
    assert("ownplayername"@.len() != "maxrankPets"@.len());
    assert("ownplayername"@.len() != "maxrankFortress"@.len());
    assert("ownplayername"@.len() != "maxrankUnderworld"@.len());
    assert("ownplayername"@.len() != "Ranklistplayer"@.len());
    assert("ownplayername"@[0] != "ranklistgroup"@[0]);
    assert("ownplayername"@.len() != "RanklistPets"@.len());
    assert("ownplayername"@.len() != "ranklistunderworld"@.len());
    assert("ownplayername"@.len() != "messagelist"@.len());
    assert("ownplayername"@[0] != "combatloglist"@[0]);
    assert("ownplayername"@.len() != "calenderinfo"@.len());
    assert("ownplayername"@[0] != "eventtasklist"@[0]);
    assert("ownplayername"@[0] != "dailytasklist"@[0]);
    assert("ownplayername"@.len() != "friendlist"@.len());
    assert("ownplayername"@.len() != "gttime"@.len());
    assert("ownplayername"@.len() != "dicestatus"@.len());
    assert("ownplayername"@.len() != "cryptoid not found"@.len());
    assert("ownplayername"@[9] != "ownplayersave"@[9]);
    assert("owndescription"@.len() != "wagesperhour"@.len());
    assert("owndescription"@.len() != "skipallow"@.len());
    assert("owndescription"@.len() != "usersettings"@.len());
    assert("owndescription"@.len() != "inboxcapacity"@.len());
    assert("owndescription"@.len() != "messagetext"@.len());
    assert("owndescription"@.len() != "maxrank"@.len());
    assert("owndescription"@.len() != "dragongoldbonus"@.len());
    assert("owndescription"@.len() != "scrapbook"@.len());
    assert("owndescription"@.len() != "unlockfeature"@.len());
    assert("owndescription"@.len() != "tavernspecialsub"@.len());
    assert("owndescription"@.len() != "tavernspecialend"@.len());
    assert("owndescription"@.len() != "eventtaskinfo"@.len());
    assert("owndescription"@.len() != "maxrankgroup"@.len());
    assert("owndescription"@.len() != "maxrankPets"@.len());
    assert("owndescription"@.len() != "maxrankFortress"@.len());
    assert("owndescription"@.len() != "maxrankUnderworld"@.len());
    assert("owndescription"@[0] != "Ranklistplayer"@[0]);
    assert("owndescription"@.len() != "ranklistgroup"@.len());
    assert("owndescription"@.len() != "RanklistPets"@.len());
    assert("owndescription"@.len() != "ranklistunderworld"@.len());
    assert("owndescription"@.len() != "messagelist"@.len());
    assert("owndescription"@.len() != "combatloglist"@.len());
    assert("owndescription"@.len() != "calenderinfo"@.len());
    assert("owndescription"@.len() != "eventtasklist"@.len());
    assert("owndescription"@.len() != "dailytasklist"@.len());
    assert("owndescription"@.len() != "friendlist"@.len());
    assert("owndescription"@.len() != "gttime"@.len());
    assert("owndescription"@.len() != "dicestatus"@.len());
    assert("owndescription"@.len() != "cryptoid not found"@.len());
    assert("owndescription"@.len() != "ownplayersave"@.len());
    assert("wagesperhour"@.len() != "skipallow"@.len());
    assert("wagesperhour"@[0] != "usersettings"@[0]);
    assert("wagesperhour"@.len() != "inboxcapacity"@.len());
    assert("wagesperhour"@.len() != "messagetext"@.len());
    assert("wagesperhour"@.len() != "maxrank"@.len());
    assert("wagesperhour"@.len() != "dragongoldbonus"@.len());
    assert("wagesperhour"@.len() != "scrapbook"@.len());
    assert("wagesperhour"@.len() != "unlockfeature"@.len());
    assert("wagesperhour"@.len() != "tavernspecialsub"@.len());
    assert("wagesperhour"@.len() != "tavernspecialend"@.len());
    assert("wagesperhour"@.len() != "eventtaskinfo"@.len());
    assert("wagesperhour"@[0] != "maxrankgroup"@[0]);
    assert("wagesperhour"@.len() != "maxrankPets"@.len());
    assert("wagesperhour"@.len() != "maxrankFortress"@.len());
    assert("wagesperhour"@.len() != "maxrankUnderworld"@.len());
    assert("wagesperhour"@.len() != "Ranklistplayer"@.len());
    assert("wagesperhour"@.len() != "ranklistgroup"@.len());
    assert("wagesperhour"@[0] != "RanklistPets"@[0]);
    assert("wagesperhour"@.len() != "ranklistunderworld"@.len());
    assert("wagesperhour"@.len() != "messagelist"@.len());
    assert("wagesperhour"@.len() != "combatloglist"@.len());
    assert("wagesperhour"@[0] != "calenderinfo"@[0]);
    assert("wagesperhour"@.len() != "eventtasklist"@.len());
    assert("wagesperhour"@.len() != "dailytasklist"@.len());
    assert("wagesperhour"@.len() != "friendlist"@.len());
    assert("wagesperhour"@.len() != "gttime"@.len());
    assert("wagesperhour"@.len() != "dicestatus"@.len());
    assert("wagesperhour"@.len() != "cryptoid not found"@.len());
    assert("wagesperhour"@.len() != "ownplayersave"@.len());
    assert("skipallow"@.len() != "usersettings"@.len());
    assert("skipallow"@.len() != "inboxcapacity"@.len());
    assert("skipallow"@.len() != "messagetext"@.len());
    assert("skipallow"@.len() != "maxrank"@.len());
    assert("skipallow"@.len() != "dragongoldbonus"@.len());
    assert("skipallow"@[1] != "scrapbook"@[1]);
    assert("skipallow"@.len() != "unlockfeature"@.len());
    assert("skipallow"@.len() != "tavernspecialsub"@.len());
    assert("skipallow"@.len() != "tavernspecialend"@.len());
    assert("skipallow"@.len() != "eventtaskinfo"@.len());
    assert("skipallow"@.len() != "maxrankgroup"@.len());
    assert("skipallow"@.len() != "maxrankPets"@.len());
    assert("skipallow"@.len() != "maxrankFortress"@.len());
    assert("skipallow"@.len() != "maxrankUnderworld"@.len());
    assert("skipallow"@.len() != "Ranklistplayer"@.len());
    assert("skipallow"@.len() != "ranklistgroup"@.len());
    assert("skipallow"@.len() != "RanklistPets"@.len());
    assert("skipallow"@.len() != "ranklistunderworld"@.len());
    assert("skipallow"@.len() != "messagelist"@.len());
    assert("skipallow"@.len() != "combatloglist"@.len());
    assert("skipallow"@.len() != "calenderinfo"@.len());
    assert("skipallow"@.len() != "eventtasklist"@.len());
    assert("skipallow"@.len() != "dailytasklist"@.len());
    assert("skipallow"@.len() != "friendlist"@.len());
    assert("skipallow"@.len() != "gttime"@.len());
    assert("skipallow"@.len() != "dicestatus"@.len());
    assert("skipallow"@.len() != "cryptoid not found"@.len());
    assert("skipallow"@.len() != "ownplayersave"@.len());
    assert("usersettings"@.len() != "inboxcapacity"@.len());
    assert("usersettings"@.len() != "messagetext"@.len());
    assert("usersettings"@.len() != "maxrank"@.len());
    assert("usersettings"@.len() != "dragongoldbonus"@.len());
    assert("usersettings"@.len() != "scrapbook"@.len());
    assert("usersettings"@.len() != "unlockfeature"@.len());
    assert("usersettings"@.len() != "tavernspecialsub"@.len());
    assert("usersettings"@.len() != "tavernspecialend"@.len());
    assert("usersettings"@.len() != "eventtaskinfo"@.len());
    assert("usersettings"@[0] != "maxrankgroup"@[0]);
    assert("usersettings"@.len() != "maxrankPets"@.len());
    assert("usersettings"@.len() != "maxrankFortress"@.len());
    assert("usersettings"@.len() != "maxrankUnderworld"@.len());
    assert("usersettings"@.len() != "Ranklistplayer"@.len());
    assert("usersettings"@.len() != "ranklistgroup"@.len());
    assert("usersettings"@[0] != "RanklistPets"@[0]);
    assert("usersettings"@.len() != "ranklistunderworld"@.len());
    assert("usersettings"@.len() != "messagelist"@.len());
    assert("usersettings"@.len() != "combatloglist"@.len());
    assert("usersettings"@[0] != "calenderinfo"@[0]);
    assert("usersettings"@.len() != "eventtasklist"@.len());
    assert("usersettings"@.len() != "dailytasklist"@.len());
    assert("usersettings"@.len() != "friendlist"@.len());
    assert("usersettings"@.len() != "gttime"@.len());
    assert("usersettings"@.len() != "dicestatus"@.len());
    assert("usersettings"@.len() != "cryptoid not found"@.len());
    assert("usersettings"@.len() != "ownplayersave"@.len());
    assert("inboxcapacity"@.len() != "messagetext"@.len());
    assert("inboxcapacity"@.len() != "maxrank"@.len());
    assert("inboxcapacity"@.len() != "dragongoldbonus"@.len());
    assert("inboxcapacity"@.len() != "scrapbook"@.len());
    assert("inboxcapacity"@[0] != "unlockfeature"@[0]);
    assert("inboxcapacity"@.len() != "tavernspecialsub"@.len());
    assert("inboxcapacity"@.len() != "tavernspecialend"@.len());
    assert("inboxcapacity"@[0] != "eventtaskinfo"@[0]);
    assert("inboxcapacity"@.len() != "maxrankgroup"@.len());
    assert("inboxcapacity"@.len() != "maxrankPets"@.len());
    assert("inboxcapacity"@.len() != "maxrankFortress"@.len());
    assert("inboxcapacity"@.len() != "maxrankUnderworld"@.len());
    assert("inboxcapacity"@.len() != "Ranklistplayer"@.len());
    assert("inboxcapacity"@[0] != "ranklistgroup"@[0]);
    assert("inboxcapacity"@.len() != "RanklistPets"@.len());
    assert("inboxcapacity"@.len() != "ranklistunderworld"@.len());
    assert("inboxcapacity"@.len() != "messagelist"@.len());
    assert("inboxcapacity"@[0] != "combatloglist"@[0]);
    assert("inboxcapacity"@.len() != "calenderinfo"@.len());
    assert("inboxcapacity"@[0] != "eventtasklist"@[0]);
    assert("inboxcapacity"@[0] != "dailytasklist"@[0]);
    assert("inboxcapacity"@.len() != "friendlist"@.len());
    assert("inboxcapacity"@.len() != "gttime"@.len());
    assert("inboxcapacity"@.len() != "dicestatus"@.len());
    assert("inboxcapacity"@.len() != "cryptoid not found"@.len());
    assert("inboxcapacity"@[0] != "ownplayersave"@[0]);
    assert("messagetext"@.len() != "maxrank"@.len());
    assert("messagetext"@.len() != "dragongoldbonus"@.len());
    assert("messagetext"@.len() != "scrapbook"@.len());
    assert("messagetext"@.len() != "unlockfeature"@.len());
    assert("messagetext"@.len() != "tavernspecialsub"@.len());
    assert("messagetext"@.len() != "tavernspecialend"@.len());
    assert("messagetext"@.len() != "eventtaskinfo"@.len());
    assert("messagetext"@.len() != "maxrankgroup"@.len());
    assert("messagetext"@[1] != "maxrankPets"@[1]);
    assert("messagetext"@.len() != "maxrankFortress"@.len());
    assert("messagetext"@.len() != "maxrankUnderworld"@.len());
    assert("messagetext"@.len() != "Ranklistplayer"@.len());
    assert("messagetext"@.len() != "ranklistgroup"@.len());
    assert("messagetext"@.len() != "RanklistPets"@.len());
    assert("messagetext"@.len() != "ranklistunderworld"@.len());
    assert("messagetext"@[7] != "messagelist"@[7]);
    assert("messagetext"@.len() != "combatloglist"@.len());
    assert("messagetext"@.len() != "calenderinfo"@.len());
    assert("messagetext"@.len() != "eventtasklist"@.len());
    assert("messagetext"@.len() != "dailytasklist"@.len());
    assert("messagetext"@.len() != "friendlist"@.len());
    assert("messagetext"@.len() != "gttime"@.len());
    assert("messagetext"@.len() != "dicestatus"@.len());
    assert("messagetext"@.len() != "cryptoid not found"@.len());
    assert("messagetext"@.len() != "ownplayersave"@.len());
    assert("maxrank"@.len() != "dragongoldbonus"@.len());
    assert("maxrank"@.len() != "scrapbook"@.len());
    assert("maxrank"@.len() != "unlockfeature"@.len());
    assert("maxrank"@.len() != "tavernspecialsub"@.len());
    assert("maxrank"@.len() != "tavernspecialend"@.len());
    assert("maxrank"@.len() != "eventtaskinfo"@.len());
    assert("maxrank"@.len() != "maxrankgroup"@.len());
    assert("maxrank"@.len() != "maxrankPets"@.len());
    assert("maxrank"@.len() != "maxrankFortress"@.len());
    assert("maxrank"@.len() != "maxrankUnderworld"@.len());
    assert("maxrank"@.len() != "Ranklistplayer"@.len());
    assert("maxrank"@.len() != "ranklistgroup"@.len());
    assert("maxrank"@.len() != "RanklistPets"@.len());
    assert("maxrank"@.len() != "ranklistunderworld"@.len());
    assert("maxrank"@.len() != "messagelist"@.len());
    assert("maxrank"@.len() != "combatloglist"@.len());
    assert("maxrank"@.len() != "calenderinfo"@.len());
    assert("maxrank"@.len() != "eventtasklist"@.len());
    assert("maxrank"@.len() != "dailytasklist"@.len());
    assert("maxrank"@.len() != "friendlist"@.len());
    assert("maxrank"@.len() != "gttime"@.len());
    assert("maxrank"@.len() != "dicestatus"@.len());
    assert("maxrank"@.len() != "cryptoid not found"@.len());
    assert("maxrank"@.len() != "ownplayersave"@.len());
    assert("dragongoldbonus"@.len() != "scrapbook"@.len());
    assert("dragongoldbonus"@.len() != "unlockfeature"@.len());
    assert("dragongoldbonus"@.len() != "tavernspecialsub"@.len());
    assert("dragongoldbonus"@.len() != "tavernspecialend"@.len());
    assert("dragongoldbonus"@.len() != "eventtaskinfo"@.len());
    assert("dragongoldbonus"@.len() != "maxrankgroup"@.len());
    assert("dragongoldbonus"@.len() != "maxrankPets"@.len());
    assert("dragongoldbonus"@[0] != "maxrankFortress"@[0]);
    assert("dragongoldbonus"@.len() != "maxrankUnderworld"@.len());
    assert("dragongoldbonus"@.len() != "Ranklistplayer"@.len());
    assert("dragongoldbonus"@.len() != "ranklistgroup"@.len());
    assert("dragongoldbonus"@.len() != "RanklistPets"@.len());
    assert("dragongoldbonus"@.len() != "ranklistunderworld"@.len());
    assert("dragongoldbonus"@.len() != "messagelist"@.len());
    assert("dragongoldbonus"@.len() != "combatloglist"@.len());
    assert("dragongoldbonus"@.len() != "calenderinfo"@.len());
    assert("dragongoldbonus"@.len() != "eventtasklist"@.len());
    assert("dragongoldbonus"@.len() != "dailytasklist"@.len());
    assert("dragongoldbonus"@.len() != "friendlist"@.len());
    assert("dragongoldbonus"@.len() != "gttime"@.len());
    assert("dragongoldbonus"@.len() != "dicestatus"@.len());
    assert("dragongoldbonus"@.len() != "cryptoid not found"@.len());
    assert("dragongoldbonus"@.len() != "ownplayersave"@.len());
    assert("scrapbook"@.len() != "unlockfeature"@.len());
    assert("scrapbook"@.len() != "tavernspecialsub"@.len());
    assert("scrapbook"@.len() != "tavernspecialend"@.len());
    assert("scrapbook"@.len() != "eventtaskinfo"@.len());
    assert("scrapbook"@.len() != "maxrankgroup"@.len());
    assert("scrapbook"@.len() != "maxrankPets"@.len());
    assert("scrapbook"@.len() != "maxrankFortress"@.len());
    assert("scrapbook"@.len() != "maxrankUnderworld"@.len());
    assert("scrapbook"@.len() != "Ranklistplayer"@.len());
    assert("scrapbook"@.len() != "ranklistgroup"@.len());
    assert("scrapbook"@.len() != "RanklistPets"@.len());
    assert("scrapbook"@.len() != "ranklistunderworld"@.len());
    assert("scrapbook"@.len() != "messagelist"@.len());
    assert("scrapbook"@.len() != "combatloglist"@.len());
    assert("scrapbook"@.len() != "calenderinfo"@.len());
    assert("scrapbook"@.len() != "eventtasklist"@.len());
    assert("scrapbook"@.len() != "dailytasklist"@.len());
    assert("scrapbook"@.len() != "friendlist"@.len());
    assert("scrapbook"@.len() != "gttime"@.len());
    assert("scrapbook"@.len() != "dicestatus"@.len());
    assert("scrapbook"@.len() != "cryptoid not found"@.len());
    assert("scrapbook"@.len() != "ownplayersave"@.len());
    assert("unlockfeature"@.len() != "tavernspecialsub"@.len());
    assert("unlockfeature"@.len() != "tavernspecialend"@.len());
    assert("unlockfeature"@[0] != "eventtaskinfo"@[0]);
    assert("unlockfeature"@.len() != "maxrankgroup"@.len());
    assert("unlockfeature"@.len() != "maxrankPets"@.len());
    assert("unlockfeature"@.len() != "maxrankFortress"@.len());
    assert("unlockfeature"@.len() != "maxrankUnderworld"@.len());
    assert("unlockfeature"@.len() != "Ranklistplayer"@.len());
    assert("unlockfeature"@[0] != "ranklistgroup"@[0]);
    assert("unlockfeature"@.len() != "RanklistPets"@.len());
    assert("unlockfeature"@.len() != "ranklistunderworld"@.len());
    assert("unlockfeature"@.len() != "messagelist"@.len());
    assert("unlockfeature"@[0] != "combatloglist"@[0]);
    assert("unlockfeature"@.len() != "calenderinfo"@.len());
    assert("unlockfeature"@[0] != "eventtasklist"@[0]);
    assert("unlockfeature"@[0] != "dailytasklist"@[0]);
    assert("unlockfeature"@.len() != "friendlist"@.len());
    assert("unlockfeature"@.len() != "gttime"@.len());
    assert("unlockfeature"@.len() != "dicestatus"@.len());
    assert("unlockfeature"@.len() != "cryptoid not found"@.len());
    assert("unlockfeature"@[0] != "ownplayersave"@[0]);
    assert("tavernspecialsub"@[13] != "tavernspecialend"@[13]);
    assert("tavernspecialsub"@.len() != "eventtaskinfo"@.len());
    assert("tavernspecialsub"@.len() != "maxrankgroup"@.len());
    assert("tavernspecialsub"@.len() != "maxrankPets"@.len());
    assert("tavernspecialsub"@.len() != "maxrankFortress"@.len());
    assert("tavernspecialsub"@.len() != "maxrankUnderworld"@.len());
    assert("tavernspecialsub"@.len() != "Ranklistplayer"@.len());
    assert("tavernspecialsub"@.len() != "ranklistgroup"@.len());
    assert("tavernspecialsub"@.len() != "RanklistPets"@.len());
    assert("tavernspecialsub"@.len() != "ranklistunderworld"@.len());
    assert("tavernspecialsub"@.len() != "messagelist"@.len());
    assert("tavernspecialsub"@.len() != "combatloglist"@.len());
    assert("tavernspecialsub"@.len() != "calenderinfo"@.len());
    assert("tavernspecialsub"@.len() != "eventtasklist"@.len());
    assert("tavernspecialsub"@.len() != "dailytasklist"@.len());
    assert("tavernspecialsub"@.len() != "friendlist"@.len());
    assert("tavernspecialsub"@.len() != "gttime"@.len());
    assert("tavernspecialsub"@.len() != "dicestatus"@.len());
    assert("tavernspecialsub"@.len() != "cryptoid not found"@.len());
    assert("tavernspecialsub"@.len() != "ownplayersave"@.len());
    assert("tavernspecialend"@.len() != "eventtaskinfo"@.len());
    assert("tavernspecialend"@.len() != "maxrankgroup"@.len());
    assert("tavernspecialend"@.len() != "maxrankPets"@.len());
    assert("tavernspecialend"@.len() != "maxrankFortress"@.len());
    assert("tavernspecialend"@.len() != "maxrankUnderworld"@.len());
    assert("tavernspecialend"@.len() != "Ranklistplayer"@.len());
    assert("tavernspecialend"@.len() != "ranklistgroup"@.len());
    assert("tavernspecialend"@.len() != "RanklistPets"@.len());
    assert("tavernspecialend"@.len() != "ranklistunderworld"@.len());
    assert("tavernspecialend"@.len() != "messagelist"@.len());
    assert("tavernspecialend"@.len() != "combatloglist"@.len());
    assert("tavernspecialend"@.len() != "calenderinfo"@.len());
    assert("tavernspecialend"@.len() != "eventtasklist"@.len());
    assert("tavernspecialend"@.len() != "dailytasklist"@.len());
    assert("tavernspecialend"@.len() != "friendlist"@.len());
    assert("tavernspecialend"@.len() != "gttime"@.len());
    assert("tavernspecialend"@.len() != "dicestatus"@.len());
    assert("tavernspecialend"@.len() != "cryptoid not found"@.len());
    assert("tavernspecialend"@.len() != "ownplayersave"@.len());
    assert("eventtaskinfo"@.len() != "maxrankgroup"@.len());
    assert("eventtaskinfo"@.len() != "maxrankPets"@.len());
    assert("eventtaskinfo"@.len() != "maxrankFortress"@.len());
    assert("eventtaskinfo"@.len() != "maxrankUnderworld"@.len());
    assert("eventtaskinfo"@.len() != "Ranklistplayer"@.len());
    assert("eventtaskinfo"@[0] != "ranklistgroup"@[0]);
    assert("eventtaskinfo"@.len() != "RanklistPets"@.len());
    assert("eventtaskinfo"@.len() != "ranklistunderworld"@.len());
    assert("eventtaskinfo"@.len() != "messagelist"@.len());
    assert("eventtaskinfo"@[0] != "combatloglist"@[0]);
    assert("eventtaskinfo"@.len() != "calenderinfo"@.len());
    assert("eventtaskinfo"@[9] != "eventtasklist"@[9]);
    assert("eventtaskinfo"@[0] != "dailytasklist"@[0]);
    assert("eventtaskinfo"@.len() != "friendlist"@.len());
    assert("eventtaskinfo"@.len() != "gttime"@.len());
    assert("eventtaskinfo"@.len() != "dicestatus"@.len());
    assert("eventtaskinfo"@.len() != "cryptoid not found"@.len());
    assert("eventtaskinfo"@[0] != "ownplayersave"@[0]);
    assert("maxrankgroup"@.len() != "maxrankPets"@.len());
    assert("maxrankgroup"@.len() != "maxrankFortress"@.len());
    assert("maxrankgroup"@.len() != "maxrankUnderworld"@.len());
    assert("maxrankgroup"@.len() != "Ranklistplayer"@.len());
    assert("maxrankgroup"@.len() != "ranklistgroup"@.len());
    assert("maxrankgroup"@[0] != "RanklistPets"@[0]);
    assert("maxrankgroup"@.len() != "ranklistunderworld"@.len());
    assert("maxrankgroup"@.len() != "messagelist"@.len());
    assert("maxrankgroup"@.len() != "combatloglist"@.len());
    assert("maxrankgroup"@[0] != "calenderinfo"@[0]);
    assert("maxrankgroup"@.len() != "eventtasklist"@.len());
    assert("maxrankgroup"@.len() != "dailytasklist"@.len());
    assert("maxrankgroup"@.len() != "friendlist"@.len());
    assert("maxrankgroup"@.len() != "gttime"@.len());
    assert("maxrankgroup"@.len() != "dicestatus"@.len());
    assert("maxrankgroup"@.len() != "cryptoid not found"@.len());
    assert("maxrankgroup"@.len() != "ownplayersave"@.len());
    assert("maxrankPets"@.len() != "maxrankFortress"@.len());
    assert("maxrankPets"@.len() != "maxrankUnderworld"@.len());
    assert("maxrankPets"@.len() != "Ranklistplayer"@.len());
    assert("maxrankPets"@.len() != "ranklistgroup"@.len());
    assert("maxrankPets"@.len() != "RanklistPets"@.len());
    assert("maxrankPets"@.len() != "ranklistunderworld"@.len());
    assert("maxrankPets"@[1] != "messagelist"@[1]);
    assert("maxrankPets"@.len() != "combatloglist"@.len());
    assert("maxrankPets"@.len() != "calenderinfo"@.len());
    assert("maxrankPets"@.len() != "eventtasklist"@.len());
    assert("maxrankPets"@.len() != "dailytasklist"@.len());
    assert("maxrankPets"@.len() != "friendlist"@.len());
    assert("maxrankPets"@.len() != "gttime"@.len());
    assert("maxrankPets"@.len() != "dicestatus"@.len());
    assert("maxrankPets"@.len() != "cryptoid not found"@.len());
    assert("maxrankPets"@.len() != "ownplayersave"@.len());
    assert("maxrankFortress"@.len() != "maxrankUnderworld"@.len());
    assert("maxrankFortress"@.len() != "Ranklistplayer"@.len());
    assert("maxrankFortress"@.len() != "ranklistgroup"@.len());
    assert("maxrankFortress"@.len() != "RanklistPets"@.len());
    assert("maxrankFortress"@.len() != "ranklistunderworld"@.len());
    assert("maxrankFortress"@.len() != "messagelist"@.len());
    assert("maxrankFortress"@.len() != "combatloglist"@.len());
    assert("maxrankFortress"@.len() != "calenderinfo"@.len());
    assert("maxrankFortress"@.len() != "eventtasklist"@.len());
    assert("maxrankFortress"@.len() != "dailytasklist"@.len());
    assert("maxrankFortress"@.len() != "friendlist"@.len());
    assert("maxrankFortress"@.len() != "gttime"@.len());
    assert("maxrankFortress"@.len() != "dicestatus"@.len());
    assert("maxrankFortress"@.len() != "cryptoid not found"@.len());
    assert("maxrankFortress"@.len() != "ownplayersave"@.len());
    assert("maxrankUnderworld"@.len() != "Ranklistplayer"@.len());
    assert("maxrankUnderworld"@.len() != "ranklistgroup"@.len());
    assert("maxrankUnderworld"@.len() != "RanklistPets"@.len());
    assert("maxrankUnderworld"@.len() != "ranklistunderworld"@.len());
    assert("maxrankUnderworld"@.len() != "messagelist"@.len());
    assert("maxrankUnderworld"@.len() != "combatloglist"@.len());
    assert("maxrankUnderworld"@.len() != "calenderinfo"@.len());
    assert("maxrankUnderworld"@.len() != "eventtasklist"@.len());
    assert("maxrankUnderworld"@.len() != "dailytasklist"@.len());
    assert("maxrankUnderworld"@.len() != "friendlist"@.len());
    assert("maxrankUnderworld"@.len() != "gttime"@.len());
    assert("maxrankUnderworld"@.len() != "dicestatus"@.len());
    assert("maxrankUnderworld"@.len() != "cryptoid not found"@.len());
    assert("maxrankUnderworld"@.len() != "ownplayersave"@.len());
    assert("Ranklistplayer"@.len() != "ranklistgroup"@.len());
    assert("Ranklistplayer"@.len() != "RanklistPets"@.len());
    assert("Ranklistplayer"@.len() != "ranklistunderworld"@.len());
    assert("Ranklistplayer"@.len() != "messagelist"@.len());
    assert("Ranklistplayer"@.len() != "combatloglist"@.len());
    assert("Ranklistplayer"@.len() != "calenderinfo"@.len());
    assert("Ranklistplayer"@.len() != "eventtasklist"@.len());
    assert("Ranklistplayer"@.len() != "dailytasklist"@.len());
    assert("Ranklistplayer"@.len() != "friendlist"@.len());
    assert("Ranklistplayer"@.len() != "gttime"@.len());
    assert("Ranklistplayer"@.len() != "dicestatus"@.len());
    assert("Ranklistplayer"@.len() != "cryptoid not found"@.len());
    assert("Ranklistplayer"@.len() != "ownplayersave"@.len());
    assert("ranklistgroup"@.len() != "RanklistPets"@.len());
    assert("ranklistgroup"@.len() != "ranklistunderworld"@.len());
    assert("ranklistgroup"@.len() != "messagelist"@.len());
    assert("ranklistgroup"@[0] != "combatloglist"@[0]);
    assert("ranklistgroup"@.len() != "calenderinfo"@.len());
    assert("ranklistgroup"@[0] != "eventtasklist"@[0]);
    assert("ranklistgroup"@[0] != "dailytasklist"@[0]);
    assert("ranklistgroup"@.len() != "friendlist"@.len());
    assert("ranklistgroup"@.len() != "gttime"@.len());
    assert("ranklistgroup"@.len() != "dicestatus"@.len());
    assert("ranklistgroup"@.len() != "cryptoid not found"@.len());
    assert("ranklistgroup"@[0] != "ownplayersave"@[0]);
    assert("RanklistPets"@.len() != "ranklistunderworld"@.len());
    assert("RanklistPets"@.len() != "messagelist"@.len());
    assert("RanklistPets"@.len() != "combatloglist"@.len());
    assert("RanklistPets"@[0] != "calenderinfo"@[0]);
    assert("RanklistPets"@.len() != "eventtasklist"@.len());
    assert("RanklistPets"@.len() != "dailytasklist"@.len());
    assert("RanklistPets"@.len() != "friendlist"@.len());
    assert("RanklistPets"@.len() != "gttime"@.len());
    assert("RanklistPets"@.len() != "dicestatus"@.len());
    assert("RanklistPets"@.len() != "cryptoid not found"@.len());
    assert("RanklistPets"@.len() != "ownplayersave"@.len());
    assert("ranklistunderworld"@.len() != "messagelist"@.len());
    assert("ranklistunderworld"@.len() != "combatloglist"@.len());
    assert("ranklistunderworld"@.len() != "calenderinfo"@.len());
    assert("ranklistunderworld"@.len() != "eventtasklist"@.len());
    assert("ranklistunderworld"@.len() != "dailytasklist"@.len());
    assert("ranklistunderworld"@.len() != "friendlist"@.len());
    assert("ranklistunderworld"@.len() != "gttime"@.len());
    assert("ranklistunderworld"@.len() != "dicestatus"@.len());
    assert("ranklistunderworld"@[0] != "cryptoid not found"@[0]);
    assert("ranklistunderworld"@.len() != "ownplayersave"@.len());
    assert("messagelist"@.len() != "combatloglist"@.len());
    assert("messagelist"@.len() != "calenderinfo"@.len());
    assert("messagelist"@.len() != "eventtasklist"@.len());
    assert("messagelist"@.len() != "dailytasklist"@.len());
    assert("messagelist"@.len() != "friendlist"@.len());
    assert("messagelist"@.len() != "gttime"@.len());
    assert("messagelist"@.len() != "dicestatus"@.len());
    assert("messagelist"@.len() != "cryptoid not found"@.len());
    assert("messagelist"@.len() != "ownplayersave"@.len());
    assert("combatloglist"@.len() != "calenderinfo"@.len());
    assert("combatloglist"@[0] != "eventtasklist"@[0]);
    assert("combatloglist"@[0] != "dailytasklist"@[0]);
    assert("combatloglist"@.len() != "friendlist"@.len());
    assert("combatloglist"@.len() != "gttime"@.len());
    assert("combatloglist"@.len() != "dicestatus"@.len());
    assert("combatloglist"@.len() != "cryptoid not found"@.len());
    assert("combatloglist"@[0] != "ownplayersave"@[0]);
    assert("calenderinfo"@.len() != "eventtasklist"@.len());
    assert("calenderinfo"@.len() != "dailytasklist"@.len());
    assert("calenderinfo"@.len() != "friendlist"@.len());
    assert("calenderinfo"@.len() != "gttime"@.len());
    assert("calenderinfo"@.len() != "dicestatus"@.len());
    assert("calenderinfo"@.len() != "cryptoid not found"@.len());
    assert("calenderinfo"@.len() != "ownplayersave"@.len());
    assert("eventtasklist"@[0] != "dailytasklist"@[0]);
    assert("eventtasklist"@.len() != "friendlist"@.len());
    assert("eventtasklist"@.len() != "gttime"@.len());
    assert("eventtasklist"@.len() != "dicestatus"@.len());
    assert("eventtasklist"@.len() != "cryptoid not found"@.len());
    assert("eventtasklist"@[0] != "ownplayersave"@[0]);
    assert("dailytasklist"@.len() != "friendlist"@.len());
    assert("dailytasklist"@.len() != "gttime"@.len());
    assert("dailytasklist"@.len() != "dicestatus"@.len());
    assert("dailytasklist"@.len() != "cryptoid not found"@.len());
    assert("dailytasklist"@[0] != "ownplayersave"@[0]);
    assert("friendlist"@.len() != "gttime"@.len());
    assert("friendlist"@[0] != "dicestatus"@[0]);
    assert("friendlist"@.len() != "cryptoid not found"@.len());
    assert("friendlist"@.len() != "ownplayersave"@.len());
    assert("gttime"@.len() != "dicestatus"@.len());
    assert("gttime"@.len() != "cryptoid not found"@.len());
    assert("gttime"@.len() != "ownplayersave"@.len());
    assert("dicestatus"@.len() != "cryptoid not found"@.len());
    assert("dicestatus"@.len() != "ownplayersave"@.len());
    assert("cryptoid not found"@.len() != "ownplayersave"@.len());
}


/// Holds of a response whose timestamp can not be read: it is no `i64`, or
/// no time that can be represented.
pub open spec fn timestamp_bad(response: Response) -> bool {
    match last_value(response.entries@, "timestamp"@) {
        None => false,
        Some(v) => match decimal_i64(trim_white(v.value@)) {
            None => true,
            Some(ts) => !chrono_timestamp_valid(ts),
        },
    }
}

/// The state `b` holds the timestamp of the response and the difference to
/// the time it was received, where the response has one; else those of `a`.
pub open spec fn timestamp_read(a: GameState, b: GameState, response: Response) -> bool {
    match last_value(response.entries@, "timestamp"@) {
        None => b.server_time_diff == a.server_time_diff && b.last_request_timestamp
            == a.last_request_timestamp,
        Some(v) => match decimal_i64(trim_white(v.value@)) {
            None => true,
            Some(ts) => b.server_time_diff == ts.wrapping_sub(response.received_at)
                && b.last_request_timestamp == ts,
        },
    }
}

/// The state `g` holds the timestamp of the response and the difference to
/// the time it was received, where the response has one; else none (both 0).
pub open spec fn first_timestamp_read(g: GameState, response: Response) -> bool {
    match last_value(response.entries@, "timestamp"@) {
        None => g.server_time_diff == 0 && g.last_request_timestamp == 0,
        Some(v) => match decimal_i64(trim_white(v.value@)) {
            None => true,
            Some(ts) => g.server_time_diff == ts.wrapping_sub(response.received_at)
                && g.last_request_timestamp == ts,
        },
    }
}

/// The seconds from the client's time `now`, moved by `diff`, to the next
/// midnight; 0 where the moved time leaves the range of `i64`.
pub open spec fn midnight_after(now: i64, diff: i64) -> int {
    if i64::MIN <= now + diff <= i64::MAX {
        secs_to_midnight(now + diff)
    } else {
        0
    }
}

/// `a + b`, held to the range of `i64`.
pub open spec fn clamp_add(a: i64, b: i64) -> i64 {
    if a + b > i64::MAX {
        i64::MAX
    } else if a + b < i64::MIN {
        i64::MIN
    } else {
        (a + b) as i64
    }
}

/// The seconds from the time `t` to the next midnight; 0 at midnight.
pub open spec fn secs_to_midnight(t: int) -> int {
    (86400 - t % 86400) % 86400
}

impl ServerTime {
    /// The current time of the server, in its time zone, where the client's
    /// clock shows `now`.
    pub fn current_at(&self, now: i64) -> (r: i64)
        requires
            i64::MIN <= now + self.0 <= i64::MAX,
        ensures
            r == now + self.0,
    {
        now + self.0
    }

    /// The current time of the server in its time zone, from the client's
    /// clock and the difference to the server.
    pub fn current(&self) -> (r: i64)
        ensures
            exists|now: i64| r == clamp_add(now, self.0),
    {
        let now = local_now();
        let r = match now.checked_add(self.0) {
            Some(v) => v,
            None => if self.0 > 0 {
                i64::MAX
            } else {
                i64::MIN
            },
        };
        assert(r == clamp_add(now, self.0));
        r
    }

    /// The seconds until the next midnight of the server, where the client's
    /// clock shows `now`; 0 at midnight.
    #[verifier::spinoff_prover]
    pub fn next_midnight_at(&self, now: i64) -> (r: u64)
        requires
            i64::MIN <= now + self.0 <= i64::MAX,
        ensures
            r == secs_to_midnight(now + self.0),
            r < 86400,
            (now + self.0 + r) % 86400 == 0,
    {
        let current = self.current_at(now);
        let rem = current % 86400;
        let into_day = if rem < 0 {
            rem + 86400
        } else {
            rem
        };
        assert(into_day == current % 86400) by (nonlinear_arith)
            requires
                rem == crate::misc::trem(current as int, 86400),
                into_day == if rem < 0 { rem + 86400 } else { rem as int },
        ;
        let secs = ((86400 - into_day) % 86400) as u64;
        assert((current + secs) % 86400 == 0);
        secs
    }

    /// The seconds until the next midnight of the server; 0 at midnight.
    pub fn next_midnight(&self) -> (r: u64)
        ensures
            r < 86400,
            exists|now: i64| r == #[trigger] midnight_after(now, self.0),
    {
        let now = local_now();
        let r = match now.checked_add(self.0) {
            Some(_) => self.next_midnight_at(now),
            None => 0,
        };
        assert(r == midnight_after(now, self.0));
        r
    }
}

} // verus!

verus! {

/// A player save sets the character's attributes from fixed positions of
/// its values: the base values (strength, dexterity, intelligence,
/// constitution, luck) at 30 to 34, the additions at 35 to 39 and the times
/// each was bought at 40 to 44.
pub proof fn lemma_save_attributes(a: GameState, d: Seq<i64>, b: GameState)
    requires
        d.len() >= 700,
        save_applied(a, d, b),
    ensures
        b.character.attribute_basis == [
            soft_u32(d[30], 0),
            soft_u32(d[31], 0),
            soft_u32(d[32], 0),
            soft_u32(d[33], 0),
            soft_u32(d[34], 0),
        ],
        b.character.attribute_additions == [
            soft_u32(d[35], 0),
            soft_u32(d[36], 0),
            soft_u32(d[37], 0),
            soft_u32(d[38], 0),
            soft_u32(d[39], 0),
        ],
        b.character.attribute_times_bought == [
            soft_u32(d[40], 0),
            soft_u32(d[41], 0),
            soft_u32(d[42], 0),
            soft_u32(d[43], 0),
            soft_u32(d[44], 0),
        ],
{
    let c = b.character;
    assert(c.attribute_basis@[0] == soft_u32(d[30], 0));
    assert(c.attribute_basis@[1] == soft_u32(d[31], 0));
    assert(c.attribute_basis@[2] == soft_u32(d[32], 0));
    assert(c.attribute_basis@[3] == soft_u32(d[33], 0));
    assert(c.attribute_basis@[4] == soft_u32(d[34], 0));
    assert(c.attribute_basis@ =~= seq![
        soft_u32(d[30], 0),
        soft_u32(d[31], 0),
        soft_u32(d[32], 0),
        soft_u32(d[33], 0),
        soft_u32(d[34], 0),
    ]);
    assert(c.attribute_additions@[0] == soft_u32(d[35], 0));
    assert(c.attribute_additions@[1] == soft_u32(d[36], 0));
    assert(c.attribute_additions@[2] == soft_u32(d[37], 0));
    assert(c.attribute_additions@[3] == soft_u32(d[38], 0));
    assert(c.attribute_additions@[4] == soft_u32(d[39], 0));
    assert(c.attribute_times_bought@[0] == soft_u32(d[40], 0));
    assert(c.attribute_times_bought@[1] == soft_u32(d[41], 0));
    assert(c.attribute_times_bought@[2] == soft_u32(d[42], 0));
    assert(c.attribute_times_bought@[3] == soft_u32(d[43], 0));
    assert(c.attribute_times_bought@[4] == soft_u32(d[44], 0));
}

} // verus!

verus! {

/// A player save sets the character's values from fixed positions: the id
/// at 1, the level at 7 (low 16 bits), the experience at 8, the experience
/// needed for the next level at 9, the honor at 10, the rank at 11, the
/// armor at 447 and the damage range at 448 and 449.
pub proof fn lemma_save_character_values(a: GameState, d: Seq<i64>, b: GameState)
    requires
        d.len() >= 700,
        save_applied(a, d, b),
    ensures
        b.character.player_id == soft_u32(d[1], 0),
        b.character.level == soft_u16(d[7] & 0xFFFF, 0),
        b.character.experience == soft_u64(d[8], 0),
        b.character.next_level_xp == soft_u64(d[9], 0),
        b.character.honor == soft_u32(d[10], 0),
        b.character.rank == soft_u32(d[11], 0),
        b.character.armor == soft_u64(d[447], 0),
        b.character.min_damage == soft_u32(d[448], 0),
        b.character.max_damage == soft_u32(d[449], 0),
        b.character.mount == Mount::spec_from_i64(d[286] & 0xFF),
        b.arena.fights_for_xp == soft_u8(d[7] >> 16, 0),
{
}

} // verus!

verus! {

/// A player save sets the timers and the other parts from fixed positions:
/// the next free arena fight at 460 and the arena's enemies at 599 to 601,
/// the next free dungeon fight at 459, the wheel's spins today at 579, the
/// collected calendar days at 648 (high half), the remaining dice games at
/// 651, the thirst for adventure at 456 and the beer drunk at 457, the
/// portrait from 17, the equipment from 48 and the shops from 288 and 361.
pub proof fn lemma_save_other_values(a: GameState, d: Seq<i64>, b: GameState)
    requires
        d.len() >= 700,
        save_applied(a, d, b),
    ensures
        b.arena.next_free_fight == ServerTime(a.server_time_diff).spec_convert(d[460]),
        b.arena.enemy_ids == [soft_u32(d[599], 0), soft_u32(d[600], 0), soft_u32(d[601], 0)],
        b.dungeons.next_free_fight == ServerTime(a.server_time_diff).spec_convert(d[459]),
        b.specials.wheel.spins_today == soft_u8(d[579], 0),
        b.specials.calendar.collected == soft_usize(d[648] >> 16, 245),
        b.tavern.dice_game.remaining == soft_u8(d[651], 0),
        b.tavern.thirst_for_adventure_sec == soft_u32(d[456], 0),
        b.tavern.beer_drunk == soft_u8(d[457], 0),
        b.character.portrait == Portrait::spec_parse(d.skip(17)),
        b.character.equipment.0@ == spec_equipment_at(d, 48),
        forall|k: int|
            0 <= k < 6 ==> Some(#[trigger] b.shops[0].items@[k]) == shop_item(d.skip(288), k),
        forall|k: int|
            0 <= k < 6 ==> Some(#[trigger] b.shops[1].items@[k]) == shop_item(d.skip(361), k),
{
}

} // verus!
