use vstd::prelude::*;

use crate::command::AttributeMap;
use crate::error::SFError;
use crate::gamestate::{ServerTime, fight_result_short};
use crate::gamestate::character::Class;
use crate::gamestate::dungeons::CompanionClass;
use crate::gamestate::items::{ITEM_PARSE_LEN, Item, ItemType};
use crate::gamestate::tavern::spec_item_at;
use crate::misc::{
    cget, csiget_u8, csiget_u32, csiget_u64, decimal_i32, decimal_i64, decimal_u32, parse_i32,
    parse_i64, parse_u32, skip, soft_u16, soft_u32, soft_u64, soft_into_u16, soft_into_u32,
    split_by, split_text, string_views, text_is, too_short, bad_value,
};
use crate::PlayerId;

verus! {

/// The arena, that a player can fight other players in.
#[derive(Debug, Clone, Copy, PartialEq, Eq)]
pub struct Arena {
    /// The enemies currently available in the arena. You have to fetch the
    /// full player info before fighting them, as you need their name
    pub enemy_ids: [PlayerId; 3],
    /// The time at which the player will be able to fight for free again
    pub next_free_fight: Option<i64>,
    /// The amount of fights this character has already fought today, that
    /// gave xp. 0-10
    pub fights_for_xp: u8,
}

impl Default for Arena {
    fn default() -> (r: Self)
        ensures
            r.enemy_ids == [0u32, 0, 0],
            r.next_free_fight is None,
            r.fights_for_xp == 0,
    {
        Arena { enemy_ids: [0, 0, 0], next_free_fight: None, fights_for_xp: 0 }
    }
}

/// Extra metadata for specific fight types.
#[derive(Debug, Clone, Copy, PartialEq, Eq, Structural)]
pub enum FightExtra {
    /// No special metadata
    NoExtra,
    /// Fortress attack or defense details
    Fortress {
        /// Soldiers sent (attack) or deployed by enemy (defense)
        soldiers: u32,
        /// Stone looted or lost in a fortress attack
        stone: i64,
        /// Wood looted or lost in a fortress attack
        wood: i64,
        /// Archers defeated in a fortress defense
        archers_defeated: u32,
        /// Battlemages defeated in a fortress defense
        mages_defeated: u32,
    },
    /// Underworld lure — souls pillaged from another player
    UnderworldLure { souls: i64 },
}

impl Default for FightExtra {
    fn default() -> (r: Self)
        ensures
            r == FightExtra::NoExtra,
    {
        FightExtra::NoExtra
    }
}

/// An action in a fight. In the official client this determines the
/// animation, that gets played.
#[derive(Debug, Clone, Copy, PartialEq, Eq, Structural, Hash)]
pub enum FightActionType {
    /// A simple attack with the normal weapon
    Attack,
    /// One shot from a loaded mushroom catapult in a guild battle
    MushroomCatapult,
    /// The last action was blocked
    Blocked,
    /// The last action was evaded
    Evaded,
    /// The summoned minion attacks
    MinionAttack,
    /// The summoned minion blocked the last attack
    MinionAttackBlocked,
    /// The summoned minion evaded the last attack
    MinionAttackEvaded,
    /// The summoned minion was crit
    MinionCrit,
    /// Plays the harp, or summons a friendly minion
    SummonSpecial,
    /// Any action not known here
    Unknown,
}

impl FightActionType {
    /// The action with the number the server uses for it.
    pub open spec fn spec_parse(val: u32) -> FightActionType {
        if val == 0 || val == 1 {
            FightActionType::Attack
        } else if val == 2 {
            FightActionType::MushroomCatapult
        } else if val == 3 {
            FightActionType::Blocked
        } else if val == 4 {
            FightActionType::Evaded
        } else if val == 5 {
            FightActionType::MinionAttack
        } else if val == 6 {
            FightActionType::MinionAttackBlocked
        } else if val == 7 {
            FightActionType::MinionAttackEvaded
        } else if val == 25 {
            FightActionType::MinionCrit
        } else if 200 <= val <= 250 {
            FightActionType::SummonSpecial
        } else {
            FightActionType::Unknown
        }
    }

    /// The action with the number the server uses for it.
    pub fn parse(val: u32) -> (r: FightActionType)
        ensures
            r == Self::spec_parse(val),
    {
        if val == 0 || val == 1 {
            FightActionType::Attack
        } else if val == 2 {
            FightActionType::MushroomCatapult
        } else if val == 3 {
            FightActionType::Blocked
        } else if val == 4 {
            FightActionType::Evaded
        } else if val == 5 {
            FightActionType::MinionAttack
        } else if val == 6 {
            FightActionType::MinionAttackBlocked
        } else if val == 7 {
            FightActionType::MinionAttackEvaded
        } else if val == 25 {
            FightActionType::MinionCrit
        } else if 200 <= val && val <= 250 {
            FightActionType::SummonSpecial
        } else {
            FightActionType::Unknown
        }
    }

    /// The action of a round, given its outcome and its type: blocked (3)
    /// and evaded (4) outcomes override the type.
    pub open spec fn spec_of_round(outcome: u32, action_type: u32) -> FightActionType {
        if outcome == 3 && action_type == 5 {
            FightActionType::MinionAttackBlocked
        } else if outcome == 4 && action_type == 5 {
            FightActionType::MinionAttackEvaded
        } else if outcome == 3 {
            FightActionType::Blocked
        } else if outcome == 4 {
            FightActionType::Evaded
        } else {
            Self::spec_parse(action_type)
        }
    }
}

/// One round (action) in a fight. This is mostly just one attack.
#[derive(Debug, Clone, Copy, PartialEq, Eq, Structural)]
pub struct FightAction {
    /// The id of the fighter, that does the action
    pub acting_id: i64,
    /// The new current life of the fighter, that was hit
    pub other_new_life: i64,
    /// The action, that the active side does
    pub action: FightActionType,
    /// The life of the acting fighter at the time of this action
    pub actor_life: Option<i64>,
}

/// The type of the participant in a fight.
#[derive(Debug, Clone, Copy, PartialEq, Eq, Structural, Hash)]
pub enum FighterTyp {
    /// Not just the own player, but any player on the server
    Player,
    /// A generic monster, or dungeon boss with its `monster_id`
    Monster(u16),
    /// One of the players companions
    Companion(CompanionClass),
    /// A pillager in a fortress attack
    FortressPillager,
    /// An archer defending a fortress
    FortressArcher,
    /// A battlemage defending a fortress
    FortressMage,
    /// The wall in a fortress attack
    FortressWall,
    /// A minion in an underworld lure battle
    UnderworldMinion,
    /// A pet
    Pet,
}

impl Default for FighterTyp {
    fn default() -> (r: Self)
        ensures
            r == FighterTyp::Player,
    {
        FighterTyp::Player
    }
}

/// A participant in a fight. Can be anything, that shows up in the battle
/// screen from the player to a fortress Wall.
#[derive(Debug, Clone)]
pub struct Fighter {
    /// The type of the fighter
    pub typ: FighterTyp,
    /// The raw id of the fighter. This is <= 0 for monsters & companions and
    /// equivalent to the player id for players (>0)
    pub id: i64,
    /// The name of the fighter, if it is a player
    pub name: Option<String>,
    /// The level of the fighter
    pub level: u32,
    /// The amount of hp this fighter has at the start of a battle
    pub life: u32,
    /// The total attributes this fighter has
    pub attributes: AttributeMap,
    /// The class of the fighter
    pub class: Class,
}

/// The fighter type that a fighter id stands for, before its name is seen.
pub open spec fn spec_base_typ(id: i64) -> FighterTyp {
    if id == -391 {
        FighterTyp::Companion(CompanionClass::Warrior)
    } else if id == -392 {
        FighterTyp::Companion(CompanionClass::Mage)
    } else if id == -393 {
        FighterTyp::Companion(CompanionClass::Scout)
    } else if id >= 1 {
        FighterTyp::Player
    } else {
        FighterTyp::Monster(soft_u16(if id == i64::MIN { id } else { (-id) as i64 }, 0))
    }
}

fn base_typ(id: i64) -> (r: FighterTyp)
    ensures
        r == spec_base_typ(id),
{
    if id == -391 {
        FighterTyp::Companion(CompanionClass::Warrior)
    } else if id == -392 {
        FighterTyp::Companion(CompanionClass::Mage)
    } else if id == -393 {
        FighterTyp::Companion(CompanionClass::Scout)
    } else if id >= 1 {
        FighterTyp::Player
    } else {
        let neg = if id == -9223372036854775807 - 1 {
            id
        } else {
            -id
        };
        FighterTyp::Monster(soft_into_u16(neg, "monster_id", 0))
    }
}

/// Holds of the name values of underworld minions.
pub open spec fn is_minion_mark(s: Seq<char>) -> bool {
    s == seq!['-', '9', '1', '0'] || s == seq!['-', '9', '3', '5'] || s == seq!['-', '9', '3', '3']
        || s == seq!['-', '9', '2', '4']
}

fn minion_mark(s: &str) -> (r: bool)
    ensures
        r == is_minion_mark(s@),
{
    let a = ['-', '9', '1', '0'];
    let b = ['-', '9', '3', '5'];
    let c = ['-', '9', '3', '3'];
    let d = ['-', '9', '2', '4'];
    assert(a@ == seq!['-', '9', '1', '0']);
    assert(b@ == seq!['-', '9', '3', '5']);
    assert(c@ == seq!['-', '9', '3', '3']);
    assert(d@ == seq!['-', '9', '2', '4']);
    text_is(s, &a) || text_is(s, &b) || text_is(s, &c) || text_is(s, &d)
}

impl Fighter {
    /// Holds where the values describe a fighter.
    pub open spec fn spec_valid(d: Seq<Seq<char>>) -> bool {
        &&& d.len() > 27
        &&& decimal_i64(d[5]) is Some
        &&& forall|k: int| 10 <= k < 15 ==> #[trigger] decimal_i64(d[k]) is Some
        &&& decimal_i32(d[27]) is Some
        &&& Class::spec_from_i64((decimal_i32(d[27])->0 - 1) as i64) is Some
        &&& decimal_u32(d[7]) is Some
        &&& decimal_u32(d[8]) is Some
    }

    /// The type of a fighter with valid values, and whether the name value
    /// is its name.
    pub open spec fn spec_typ_and_named(d: Seq<Seq<char>>) -> (FighterTyp, bool) {
        let id = decimal_i64(d[5])->0;
        let base = spec_base_typ(id);
        match decimal_i64(d[6]) {
            Some(v) => if -770 <= v <= -740 {
                (FighterTyp::FortressWall, false)
            } else if v == -712 {
                (FighterTyp::FortressPillager, false)
            } else if v == -732 {
                (FighterTyp::FortressArcher, false)
            } else if v == -722 {
                (FighterTyp::FortressMage, false)
            } else if v <= -1 {
                (base, false)
            } else if v == 0 {
                (if is_minion_mark(d[15]) { FighterTyp::UnderworldMinion } else { base }, false)
            } else if v == id && base == FighterTyp::Player {
                (FighterTyp::Pet, false)
            } else {
                (base, true)
            },
            None => (base, true),
        }
    }

    /// The attributes of a fighter with valid values.
    pub open spec fn spec_attributes(d: Seq<Seq<char>>) -> AttributeMap {
        [
            soft_u32(decimal_i64(d[10])->0, 0),
            soft_u32(decimal_i64(d[11])->0, 0),
            soft_u32(decimal_i64(d[12])->0, 0),
            soft_u32(decimal_i64(d[13])->0, 0),
            soft_u32(decimal_i64(d[14])->0, 0),
        ]
    }

    /// Holds where `f` is the fighter that the valid values `d` describe.
    pub open spec fn spec_parsed(d: Seq<Seq<char>>, f: Fighter) -> bool {
        let (typ, named) = Self::spec_typ_and_named(d);
        &&& f.typ == typ
        &&& f.id == decimal_i64(d[5])->0
        &&& (named ==> (f.name matches Some(n) && n@ == d[6]))
        &&& (!named ==> f.name is None)
        &&& f.level == decimal_u32(d[7])->0
        &&& f.life == decimal_u32(d[8])->0
        &&& f.attributes == Self::spec_attributes(d)
        &&& f.class == Class::spec_from_i64((decimal_i32(d[27])->0 - 1) as i64)->0
    }

    /// Parses a fighter from the values of a fight: `None` where they do not
    /// describe one.
    pub fn parse(data: &[String]) -> (r: Option<Fighter>)
        ensures
            Self::spec_valid(string_views(data@)) <==> r is Some,
            r matches Some(f) ==> Self::spec_parsed(string_views(data@), f),
    {
        let ghost d = string_views(data@);
        if data.len() <= 27 {
            return None;
        }
        assert(d[5] == data@[5]@);
        let id = match parse_i64(data[5].as_str()) {
            Some(v) => v,
            None => return None,
        };
        let mut typ = base_typ(id);
        let mut raw: [i64; 5] = [0, 0, 0, 0, 0];
        let mut k: usize = 0;
        while k < 5
            invariant
                k <= 5,
                data@.len() > 27,
                d == string_views(data@),
                forall|j: int| 0 <= j < k ==> decimal_i64(#[trigger] d[10 + j]) == Some(raw[j]),
            decreases 5 - k,
        {
            assert(d[10 + k as int] == data@[10 + k as int]@);
            match parse_i64(data[10 + k].as_str()) {
                Some(v) => {
                    raw[k] = v;
                },
                None => {
                    assert(decimal_i64(d[10 + k as int]) is None);
                    return None;
                },
            }
            k = k + 1;
        }
        assert(forall|j: int| 10 <= j < 15 ==> #[trigger] decimal_i64(d[j]) is Some) by {
            assert forall|j: int| 10 <= j < 15 implies #[trigger] decimal_i64(d[j]) is Some by {
                assert(decimal_i64(d[10 + (j - 10)]) == Some(raw[j - 10]));
            }
        }
        let attributes: AttributeMap = [
            soft_into_u32(raw[0], "attribute val", 0),
            soft_into_u32(raw[1], "attribute val", 0),
            soft_into_u32(raw[2], "attribute val", 0),
            soft_into_u32(raw[3], "attribute val", 0),
            soft_into_u32(raw[4], "attribute val", 0),
        ];
        assert(decimal_i64(d[10 + 0int]) == Some(raw[0]));
        assert(decimal_i64(d[10 + 1int]) == Some(raw[1]));
        assert(decimal_i64(d[10 + 2int]) == Some(raw[2]));
        assert(decimal_i64(d[10 + 3int]) == Some(raw[3]));
        assert(decimal_i64(d[10 + 4int]) == Some(raw[4]));
        assert(attributes@ =~= Self::spec_attributes(d)@);
        assert(d[27] == data@[27]@);
        let class_raw = match parse_i32(data[27].as_str()) {
            Some(v) => v,
            None => return None,
        };
        let class = match Class::from_i64(class_raw as i64 - 1) {
            Some(c) => c,
            None => return None,
        };
        assert(d[6] == data@[6]@);
        assert(d[15] == data@[15]@);
        let mut named = false;
        match parse_i64(data[6].as_str()) {
            Some(v) => {
                if -770 <= v && v <= -740 {
                    typ = FighterTyp::FortressWall;
                } else if v == -712 {
                    typ = FighterTyp::FortressPillager;
                } else if v == -732 {
                    typ = FighterTyp::FortressArcher;
                } else if v == -722 {
                    typ = FighterTyp::FortressMage;
                } else if v <= -1 {
                } else if v == 0 {
                    if minion_mark(data[15].as_str()) {
                        typ = FighterTyp::UnderworldMinion;
                    }
                } else if v == id && typ == FighterTyp::Player {
                    typ = FighterTyp::Pet;
                } else {
                    named = true;
                }
            },
            None => {
                named = true;
            },
        }
        let name = if named {
            Some(data[6].clone())
        } else {
            None
        };
        assert(d[7] == data@[7]@);
        assert(d[8] == data@[8]@);
        let level = match parse_u32(data[7].as_str()) {
            Some(v) => v,
            None => return None,
        };
        let life = match parse_u32(data[8].as_str()) {
            Some(v) => v,
            None => return None,
        };
        Some(Fighter { typ, id, name, level, life, attributes, class })
    }
}

/// This is a single fight between two fighters, which ends when one of them
/// is at <= 0 health.
#[derive(Debug, Clone)]
pub struct SingleFight {
    /// The ID of the player, that won.
    pub winner_id: PlayerId,
    /// The stats of the first fighter. Typically the player, if the fight
    /// was started by them
    pub fighter_a: Option<Fighter>,
    /// The stats of the second fighter
    pub fighter_b: Option<Fighter>,
    /// The actions this fight involved
    pub actions: Vec<FightAction>,
    /// Raw equipment data for the first fighter. Each entry is 19 values
    /// (model id and item stats). The encoding differs from regular items
    pub equipment: Vec<Vec<i64>>,
}

impl Default for SingleFight {
    fn default() -> (r: Self)
        ensures
            r.winner_id == 0,
            r.fighter_a is None,
            r.fighter_b is None,
            r.actions@.len() == 0,
            r.equipment@.len() == 0,
    {
        SingleFight {
            winner_id: 0,
            fighter_a: None,
            fighter_b: None,
            actions: Vec::new(),
            equipment: Vec::new(),
        }
    }
}

/// The `u32` that a text writes, or 0.
pub open spec fn u32_or_zero(s: Seq<char>) -> u32 {
    match decimal_u32(s) {
        Some(v) => v,
        None => 0,
    }
}

/// The round that 9 values describe: `None` where one of the actor id, the
/// actor life or the target life is not a number.
pub open spec fn spec_round(c: Seq<Seq<char>>) -> Option<FightAction> {
    if decimal_i64(c[0]) is Some && decimal_i64(c[6]) is Some && decimal_i64(c[5]) is Some {
        Some(
            FightAction {
                acting_id: decimal_i64(c[0])->0,
                action: FightActionType::spec_of_round(u32_or_zero(c[3]), u32_or_zero(c[2])),
                other_new_life: decimal_i64(c[6])->0,
                actor_life: Some(decimal_i64(c[5])->0),
            },
        )
    } else {
        None
    }
}

/// The round number `k` (9 values each) of the round values.
pub open spec fn round_chunk(v: Seq<Seq<char>>, k: int) -> Seq<Seq<char>> {
    v.subrange(9 * k, 9 * k + 9)
}

/// The rounds that the round values describe, where each complete group of 9
/// values describes one.
pub open spec fn spec_rounds(v: Seq<Seq<char>>) -> Seq<Option<FightAction>> {
    Seq::new(v.len() / 9, |k: int| spec_round(round_chunk(v, k)))
}

impl SingleFight {
    /// Parses the two fighters of the fight from its values: the first 47
    /// values describe the first fighter, the rest the second one. With
    /// fewer than 60 values there are none.
    pub fn update_fighters(&mut self, data: &str)
        ensures
            split_text(data@, '/').len() < 60 ==> final(self).fighter_a is None
                && final(self).fighter_b is None,
            split_text(data@, '/').len() >= 60 ==> {
                let v = split_text(data@, '/');
                &&& (Fighter::spec_valid(v.take(47)) <==> final(self).fighter_a is Some)
                &&& (final(self).fighter_a matches Some(f) ==> Fighter::spec_parsed(v.take(47), f))
                &&& (Fighter::spec_valid(v.skip(47)) <==> final(self).fighter_b is Some)
                &&& (final(self).fighter_b matches Some(f) ==> Fighter::spec_parsed(v.skip(47), f))
            },
            final(self).actions == old(self).actions,
            final(self).winner_id == old(self).winner_id,
    {
        let parts = split_by(data, '/');
        if parts.len() < 60 {
            self.fighter_a = None;
            self.fighter_b = None;
            return;
        }
        let (a, b) = parts.as_slice().split_at(47);
        assert(string_views(a@) =~= split_text(data@, '/').take(47));
        assert(string_views(b@) =~= split_text(data@, '/').skip(47));
        self.fighter_a = Fighter::parse(a);
        self.fighter_b = Fighter::parse(b);
    }

    /// Parses the rounds of the fight from its values (9 per round). Only
    /// fights of version 2 have rounds that can be read.
    pub fn update_rounds(&mut self, data: &str, fight_version: u32) -> (r: Result<(), SFError>)
        ensures
            fight_version != 2 ==> r is Ok && final(self).actions@.len() == 0,
            fight_version == 2 ==> {
                let rounds = spec_rounds(split_text(data@, '/'));
                &&& (r is Ok <==> forall|k: int| 0 <= k < rounds.len() ==> #[trigger] rounds[k] is Some)
                &&& r is Ok ==> final(self).actions@ == rounds.map_values(|a: Option<FightAction>| a->0)
            },
            final(self).winner_id == old(self).winner_id,
    {
        self.actions = Vec::new();
        if fight_version != 2 {
            return Ok(());
        }
        let values = split_by(data, '/');
        let ghost v = string_views(values@);
        let ghost rounds = spec_rounds(v);
        let len = values.len();
        let n = len / 9;
        let mut k: usize = 0;
        while k < n
            invariant
                k <= n,
                len == values@.len(),
                n == len / 9,
                v == string_views(values@),
                rounds == spec_rounds(v),
                v == split_text(data@, '/'),
                fight_version == 2,
                forall|j: int| 0 <= j < k ==> #[trigger] rounds[j] is Some,
                self.actions@ == rounds.take(k as int).map_values(|a: Option<FightAction>| a->0),
                self.winner_id == old(self).winner_id,
            decreases n - k,
        {
            assert(9 * k + 9 <= len) by (nonlinear_arith)
                requires
                    k < n,
                    n == len / 9,
            ;
            let base = 9 * k;
            let ghost c = round_chunk(v, k as int);
            assert(c[0] == values@[base as int]@);
            assert(c[2] == values@[base + 2]@);
            assert(c[3] == values@[base + 3]@);
            assert(c[5] == values@[base + 5]@);
            assert(c[6] == values@[base + 6]@);
            assert(rounds[k as int] == spec_round(c));
            let acting_id = match parse_i64(values[base].as_str()) {
                Some(v) => v,
                None => {
                    assert(rounds[k as int] is None);
                    return Err(SFError::ParsingError("action pid", values[base].clone()));
                },
            };
            let action_type = match parse_u32(values[base + 2].as_str()) {
                Some(v) => v,
                None => 0,
            };
            let outcome = match parse_u32(values[base + 3].as_str()) {
                Some(v) => v,
                None => 0,
            };
            let action = if outcome == 3 && action_type == 5 {
                FightActionType::MinionAttackBlocked
            } else if outcome == 4 && action_type == 5 {
                FightActionType::MinionAttackEvaded
            } else if outcome == 3 {
                FightActionType::Blocked
            } else if outcome == 4 {
                FightActionType::Evaded
            } else {
                FightActionType::parse(action_type)
            };
            let target_life = match parse_i64(values[base + 6].as_str()) {
                Some(v) => v,
                None => {
                    assert(rounds[k as int] is None);
                    return Err(SFError::ParsingError("action target life", values[base + 6].clone()));
                },
            };
            let actor_life = match parse_i64(values[base + 5].as_str()) {
                Some(v) => v,
                None => {
                    assert(rounds[k as int] is None);
                    return Err(SFError::ParsingError("action actor life", values[base + 5].clone()));
                },
            };
            self.actions.push(
                FightAction { acting_id, action, other_new_life: target_life, actor_life: Some(actor_life) },
            );
            assert(rounds[k as int] == spec_round(c));
            k = k + 1;
            assert(self.actions@ =~= rounds.take(k as int).map_values(|a: Option<FightAction>| a->0));
        }
        assert(rounds.take(n as int) =~= rounds);
        Ok(())
    }
}

/// A complete fight, which can be between multiple fighters for guild or
/// tower fights.
#[derive(Debug, Clone)]
pub struct Fight {
    /// The name of the attacking player for pet battles, or the name of the
    /// attacking guild in guild battles
    pub group_attacker_name: Option<String>,
    /// Either the player or guild id depending on pet/guild fight
    pub group_attacker_id: Option<u32>,
    /// The name of the defending player for pet battles, or the name of the
    /// defending guild in guild battles
    pub group_defender_name: Option<String>,
    /// Either the player or guild id depending on pet/guild fight
    pub group_defender_id: Option<u32>,
    /// The 1on1 fights within a larger fight, that end with one of the
    /// contestants defeated
    pub fights: Vec<SingleFight>,
    /// Whether the fight was won by the player.
    pub has_player_won: bool,
    /// The amount of money, that changed from a players perspective
    pub silver_change: i64,
    /// The amount of experience, that changed from a players perspective
    pub xp_change: u64,
    /// The amount of mushrooms the player got after this fight
    pub mushroom_change: u8,
    /// How much this fight changed the players honor by
    pub honor_change: i64,
    /// The rank before this fight
    pub rank_pre_fight: u32,
    /// The rank after this fight
    pub rank_post_fight: u32,
    /// The item this fight gave the player (if any)
    pub item_won: Option<Item>,
    /// Extra metadata specific to certain fight types
    pub extra: FightExtra,
}

impl Default for Fight {
    fn default() -> (r: Self)
        ensures
            r.group_attacker_name is None && r.group_attacker_id is None,
            r.group_defender_name is None && r.group_defender_id is None,
            r.fights@.len() == 0,
            !r.has_player_won,
            r.silver_change == 0 && r.xp_change == 0 && r.mushroom_change == 0,
            r.honor_change == 0 && r.rank_pre_fight == 0 && r.rank_post_fight == 0,
            r.item_won is None,
            r.extra == FightExtra::NoExtra,
    {
        Fight {
            group_attacker_name: None,
            group_attacker_id: None,
            group_defender_name: None,
            group_defender_id: None,
            fights: Vec::new(),
            has_player_won: false,
            silver_change: 0,
            xp_change: 0,
            mushroom_change: 0,
            honor_change: 0,
            rank_pre_fight: 0,
            rank_post_fight: 0,
            item_won: None,
            extra: FightExtra::NoExtra,
        }
    }
}

impl Fight {
    /// What reading the result values `d` of a fight does to the fight
    /// `before`, giving `after`: fewer than 20 values are the result of an
    /// underworld lure, more carry the changes of the fight, and 25 and more
    /// those of a fortress fight.
    pub open spec fn spec_result_read(before: Fight, d: Seq<i64>, after: Fight) -> bool {
        &&& 4 <= d.len() < 20 ==> {
            &&& after.has_player_won == (d[0] != 0)
            &&& after.silver_change == d[2]
            &&& after.extra == (FightExtra::UnderworldLure { souls: d[3] })
            &&& after.xp_change == before.xp_change
            &&& after.item_won == before.item_won
        }
        &&& d.len() >= 20 ==> {
            &&& after.has_player_won == (d[0] != 0)
            &&& after.silver_change == d[2]
            &&& after.xp_change == soft_u64(d[3], 0)
            &&& after.mushroom_change == crate::misc::soft_u8(d[4], 0)
            &&& after.honor_change == d[5]
            &&& after.rank_pre_fight == soft_u32(d[7], 0)
            &&& after.rank_post_fight == soft_u32(d[8], 0)
            &&& after.item_won == spec_item_at(d.skip(9))
            &&& d.len() >= 25 ==> after.extra == (FightExtra::Fortress {
                soldiers: soft_u32(d[24], 0),
                stone: d[21],
                wood: d[22],
                archers_defeated: soft_u32(d[25], 0),
                mages_defeated: soft_u32(d[26], 0),
            })
            &&& d.len() < 25 ==> after.extra == before.extra
        }
    }

    /// Updates the result of the fight from its values. Fewer than 20
    /// values are the result of an underworld lure; 25 and more carry the
    /// details of a fortress fight.
    pub fn update_result(&mut self, data: &[i64]) -> (r: Result<(), SFError>)
        ensures
            data@.len() <= 3 ==> (r matches Err(e) && fight_result_short(e, data@)),
            4 <= data@.len() < 20 ==> r is Ok,
            r is Ok ==> Self::spec_result_read(*old(self), data@, *final(self)),
            data@.len() >= 28 ==> r is Ok,
            data@.len() == 25 || data@.len() == 26 ==> r is Err,
    {
        self.has_player_won = cget(data, 0, "has_player_won")? != 0;
        self.silver_change = cget(data, 2, "fight silver change")?;
        if data.len() < 20 {
            self.extra = FightExtra::UnderworldLure { souls: cget(data, 3, "underworld souls")? };
            return Ok(());
        }
        self.xp_change = csiget_u64(data, 3, "fight xp", 0)?;
        self.mushroom_change = csiget_u8(data, 4, "fight mushrooms", 0)?;
        self.honor_change = cget(data, 5, "fight honor")?;
        self.rank_pre_fight = csiget_u32(data, 7, "fight rank pre", 0)?;
        self.rank_post_fight = csiget_u32(data, 8, "fight rank post", 0)?;
        let item = skip(data, 9, "fight item")?;
        self.item_won = Item::parse(item)?;
        if data.len() >= 25 {
            self.extra = FightExtra::Fortress {
                soldiers: csiget_u32(data, 24, "soldiers", 0)?,
                stone: cget(data, 21, "fortress stone")?,
                wood: cget(data, 22, "fortress wood")?,
                archers_defeated: csiget_u32(data, 25, "archers defeated", 0)?,
                mages_defeated: csiget_u32(data, 26, "mages defeated", 0)?,
            };
        }
        Ok(())
    }

    /// Holds where the group values can be read: the ids of both groups,
    /// then their names.
    pub open spec fn spec_groups_valid(v: Seq<Seq<char>>) -> bool {
        v.len() >= 4 && decimal_u32(v[0]) is Some && decimal_u32(v[1]) is Some
    }

    /// What reading the comma separated group values `text` does to the
    /// fight `before`, giving `after`: the ids and names of the two groups,
    /// where the values can be read.
    pub open spec fn spec_groups_read(before: Fight, text: Seq<char>, after: Fight) -> bool {
        let v = split_text(text, ',');
        &&& if Self::spec_groups_valid(v) {
            &&& after.group_attacker_id == decimal_u32(v[0])
            &&& after.group_defender_id == decimal_u32(v[1])
            &&& (after.group_attacker_name matches Some(n) && n@ == v[2])
            &&& (after.group_defender_name matches Some(n) && n@ == v[3])
        } else {
            &&& after.group_attacker_id == before.group_attacker_id
            &&& after.group_defender_id == before.group_defender_id
            &&& after.group_attacker_name == before.group_attacker_name
            &&& after.group_defender_name == before.group_defender_name
        }
        &&& after.has_player_won == before.has_player_won
        &&& after.silver_change == before.silver_change
    }

    /// Updates the ids and names of the two groups from their comma
    /// separated values. Values that can not be read change nothing.
    pub fn update_groups(&mut self, val: &str)
        ensures
            Self::spec_groups_read(*old(self), val@, *final(self)),
            ({
                let v = split_text(val@, ',');
                if Self::spec_groups_valid(v) {
                    &&& final(self).group_attacker_id == decimal_u32(v[0])
                    &&& final(self).group_defender_id == decimal_u32(v[1])
                    &&& (final(self).group_attacker_name matches Some(n) && n@ == v[2])
                    &&& (final(self).group_defender_name matches Some(n) && n@ == v[3])
                } else {
                    &&& final(self).group_attacker_id == old(self).group_attacker_id
                    &&& final(self).group_defender_id == old(self).group_defender_id
                    &&& final(self).group_attacker_name == old(self).group_attacker_name
                    &&& final(self).group_defender_name == old(self).group_defender_name
                }
            }),
            final(self).has_player_won == old(self).has_player_won,
            final(self).silver_change == old(self).silver_change,
    {
        let groups = split_by(val, ',');
        let ghost v = string_views(groups@);
        if groups.len() < 4 {
            return;
        }
        assert(v[0] == groups@[0]@);
        assert(v[1] == groups@[1]@);
        assert(v[2] == groups@[2]@);
        assert(v[3] == groups@[3]@);
        let aid = match parse_u32(groups[0].as_str()) {
            Some(a) => a,
            None => return,
        };
        let did = match parse_u32(groups[1].as_str()) {
            Some(d) => d,
            None => return,
        };
        self.group_attacker_id = Some(aid);
        self.group_defender_id = Some(did);
        self.group_attacker_name = Some(groups[2].clone());
        self.group_defender_name = Some(groups[3].clone());
    }
}

} // verus!

verus! {

/// A fighter is read from fixed positions of its values: the id at 5, the
/// level at 7 and the health at 8.
pub proof fn lemma_fighter_values(d: Seq<Seq<char>>, f: Fighter)
    requires
        Fighter::spec_parsed(d, f),
    ensures
        f.id == decimal_i64(d[5])->0,
        f.level == decimal_u32(d[7])->0,
        f.life == decimal_u32(d[8])->0,
{
}

} // verus!
