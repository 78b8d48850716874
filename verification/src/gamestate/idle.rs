use vstd::prelude::*;

use crate::gamestate::ServerTime;
use crate::misc::{
    chars_of, decimal_i64, decimal_u32, digits_value, parse_i64, parse_u32,
    signed_decimal_text,
};

verus! {

// ---------------------------------------------------------------------------
// Integers of any size
// ---------------------------------------------------------------------------

/// The digits of the text of a big integer without its separators `_`, where
/// the text is valid: not empty, not starting with `_`, and made of digits
/// and `_` only.
pub open spec fn big_digits(s: Seq<char>) -> Option<Seq<char>> {
    if s.len() == 0 || s[0] == '_' {
        None
    } else if forall|i: int| 0 <= i < s.len() ==> ('0' <= #[trigger] s[i] <= '9' || s[i] == '_') {
        Some(s.filter(|c: char| c != '_'))
    } else {
        None
    }
}

/// The value that `num_bigint` reads from a decimal text: an optional sign
/// (`-` or `+`, not followed by another `+`), then the digits.
pub open spec fn bigint_value(s: Seq<char>) -> Option<int> {
    let signed = s.len() > 0 && (s[0] == '-' || s[0] == '+') && !(s.len() > 1 && s[1] == '+');
    let body = if signed {
        s.skip(1)
    } else {
        s
    };
    match big_digits(body) {
        Some(d) => Some(
            if signed && s[0] == '-' {
                -digits_value(d)
            } else {
                digits_value(d)
            },
        ),
        None => None,
    }
}

/// Parses a decimal text with `num_bigint` (`BigInt::from_str`) and gives the
/// decimal text of the value as `BigInt`'s `Display` writes it: the digits
/// without leading zeros, with `-` before those of a negative value.
#[verifier::external_body]
fn bigint_canonical(s: &str) -> (r: Option<String>)
    ensures
        match bigint_value(s@) {
            Some(v) => r matches Some(t) && t@ == signed_decimal_text(v),
            None => r is None,
        },
{
    match s.parse::<num_bigint::BigInt>() {
        Ok(b) => Some(b.to_string()),
        Err(_) => None,
    }
}

/// An integer of any size, as the idle game counts money and runes: its
/// decimal text, as `num_bigint` writes it.
#[derive(Debug, Clone)]
pub struct BigNum {
    /// The decimal text of the number
    pub text: String,
}

impl BigNum {
    /// Reads a big integer from its decimal text; `None` where the text is
    /// none.
    pub fn parse(s: &str) -> (r: Option<BigNum>)
        ensures
            match bigint_value(s@) {
                Some(v) => r matches Some(b) && b.text@ == signed_decimal_text(v),
                None => r is None,
            },
    {
        match bigint_canonical(s) {
            Some(text) => Some(BigNum { text }),
            None => None,
        }
    }

    /// A copy of the number.
    pub fn copy(&self) -> (r: BigNum)
        ensures
            r == *self,
    {
        BigNum { text: self.text.clone() }
    }

    /// The number as a `u32`, where it fits.
    pub fn to_u32(&self) -> (r: Option<u32>)
        ensures
            r == decimal_u32(self.text@),
    {
        parse_u32(self.text.as_str())
    }

    /// The number as an `i64`, where it fits.
    pub fn to_i64(&self) -> (r: Option<i64>)
        ensures
            r == decimal_i64(self.text@),
    {
        parse_i64(self.text.as_str())
    }

    /// Holds of the number one.
    pub fn is_one(&self) -> (r: bool)
        ensures
            r == (self.text@ == seq!['1']),
    {
        let cs = chars_of(self.text.as_str());
        if cs.len() == 1 && cs[0] == '1' {
            assert(cs@ =~= seq!['1']);
            true
        } else {
            assert(cs@.len() == 1 ==> cs@ != seq!['1'] || cs@[0] == '1');
            false
        }
    }
}

// ---------------------------------------------------------------------------
// The idle game
// ---------------------------------------------------------------------------

/// The type of a building in the idle game.
#[derive(Debug, Clone, Copy, PartialEq, Eq, Structural, Hash)]
pub enum IdleBuildingType {
    Seat,
    PopcornStand,
    ParkingLot,
    Trap,
    Drinks,
    DeadlyTrap,
    VIPSeat,
    Snacks,
    StrayingMonsters,
    Toilet,
}

impl IdleBuildingType {
    /// The position of the building among all buildings (0 to 9).
    pub open spec fn spec_index(self) -> int {
        match self {
            IdleBuildingType::Seat => 0,
            IdleBuildingType::PopcornStand => 1,
            IdleBuildingType::ParkingLot => 2,
            IdleBuildingType::Trap => 3,
            IdleBuildingType::Drinks => 4,
            IdleBuildingType::DeadlyTrap => 5,
            IdleBuildingType::VIPSeat => 6,
            IdleBuildingType::Snacks => 7,
            IdleBuildingType::StrayingMonsters => 8,
            IdleBuildingType::Toilet => 9,
        }
    }

    /// The position of the building among all buildings (0 to 9); the
    /// server numbers them from 1.
    pub fn index(self) -> (r: usize)
        ensures
            r == self.spec_index(),
            r < 10,
    {
        match self {
            IdleBuildingType::Seat => 0,
            IdleBuildingType::PopcornStand => 1,
            IdleBuildingType::ParkingLot => 2,
            IdleBuildingType::Trap => 3,
            IdleBuildingType::Drinks => 4,
            IdleBuildingType::DeadlyTrap => 5,
            IdleBuildingType::VIPSeat => 6,
            IdleBuildingType::Snacks => 7,
            IdleBuildingType::StrayingMonsters => 8,
            IdleBuildingType::Toilet => 9,
        }
    }
}

/// A single building in the idle game.
#[derive(Debug, Clone)]
pub struct IdleBuilding {
    /// The current level of this building
    pub level: u32,
    /// The amount of money this earns on the next gather
    pub earning: BigNum,
    /// The time at which this building will gather resources
    pub next_gather: Option<i64>,
    /// The next time at which this building will gather resources
    pub next_next_gather: Option<i64>,
    /// Whether the upgrade for this building has been bought
    pub golden: bool,
    /// The price to upgrade this building once
    pub upgrade_cost: BigNum,
    /// The price to upgrade this building 10x
    pub upgrade_cost_10x: BigNum,
    /// The price to upgrade this building 25x
    pub upgrade_cost_25x: BigNum,
    /// The price to upgrade this building 100x
    pub upgrade_cost_100x: BigNum,
}

/// The idle clicker game where you invest money and get runes by sacrificing.
#[derive(Debug, Clone)]
pub struct IdleGame {
    /// The current amount of money
    pub current_money: BigNum,
    /// The current amount of runes
    pub current_runes: BigNum,
    /// The amount of times the idle game has been reset
    pub resets: u32,
    /// The runes you get when you sacrifice
    pub sacrifice_runes: BigNum,
    /// The time at which new items will be present in the shop
    pub merchant_new_goods: i64,
    /// Related to the money sacrificed so far
    pub total_sacrificed: BigNum,
    /// Slightly larger than the current money, for reasons unknown
    pub current_money_2: BigNum,
    /// Information about all the buildings, by `IdleBuildingType::index`
    pub buildings: Vec<IdleBuilding>,
}

/// The building at `pos` that the values of the idle game describe; `None`
/// where its level or one of its times is out of range.
pub open spec fn spec_building(d: Seq<BigNum>, pos: int, st: ServerTime) -> Option<IdleBuilding> {
    match (
        decimal_u32(d[pos + 3].text@),
        decimal_i64(d[pos + 23].text@),
        decimal_i64(d[pos + 33].text@),
    ) {
        (Some(level), Some(t1), Some(t2)) => Some(
            IdleBuilding {
                level,
                earning: d[pos + 13],
                next_gather: st.spec_convert(t1),
                next_next_gather: st.spec_convert(t2),
                golden: d[pos + 53].text@ == seq!['1'],
                upgrade_cost: d[pos + 78],
                upgrade_cost_10x: d[pos + 88],
                upgrade_cost_25x: d[pos + 98],
                upgrade_cost_100x: d[pos + 108],
            },
        ),
        _ => None,
    }
}

/// Holds where the first `n` buildings can be read.
pub open spec fn buildings_ok(d: Seq<BigNum>, n: int, st: ServerTime) -> bool {
    forall|pos: int| 0 <= pos < n ==> #[trigger] spec_building(d, pos, st) is Some
}

/// Holds where the values describe an idle game: there are enough of them,
/// the resets fit, the merchant time is a valid time, and each building can
/// be read.
pub open spec fn idle_ok(d: Seq<BigNum>, st: ServerTime) -> bool {
    &&& d.len() >= 118
    &&& decimal_u32(d[2].text@) is Some
    &&& decimal_i64(d[63].text@) is Some
    &&& st.spec_convert(decimal_i64(d[63].text@)->0) is Some
    &&& buildings_ok(d, 10, st)
}

impl IdleGame {
    /// Reads the idle game from its values; `None` where they do not describe
    /// one (see `idle_ok`).
    pub fn parse_idle_game(data: &[BigNum], server_time: ServerTime) -> (r: Option<IdleGame>)
        ensures
            idle_ok(data@, server_time) <==> r is Some,
            r matches Some(g) ==> {
                &&& g.resets == decimal_u32(data@[2].text@)->0
                &&& Some(g.merchant_new_goods) == server_time.spec_convert(
                    decimal_i64(data@[63].text@)->0,
                )
                &&& g.current_money == data@[72]
                &&& g.total_sacrificed == data@[73]
                &&& g.current_money_2 == data@[74]
                &&& g.sacrifice_runes == data@[75]
                &&& g.current_runes == data@[76]
                &&& g.buildings@.len() == 10
                &&& forall|pos: int|
                    0 <= pos < 10 ==> Some(#[trigger] g.buildings@[pos]) == spec_building(
                        data@,
                        pos,
                        server_time,
                    )
            },
    {
        if data.len() < 118 {
            return None;
        }
        let resets = match data[2].to_u32() {
            Some(v) => v,
            None => return None,
        };
        let raw_merchant = match data[63].to_i64() {
            Some(v) => v,
            None => return None,
        };
        let merchant_new_goods = match server_time.convert_to_local(raw_merchant, "trader time") {
            Some(t) => t,
            None => return None,
        };
        let mut buildings: Vec<IdleBuilding> = Vec::new();
        let mut pos: usize = 0;
        while pos < 10
            invariant
                pos <= 10,
                data@.len() >= 118,
                buildings@.len() == pos,
                forall|k: int|
                    0 <= k < pos ==> Some(#[trigger] buildings@[k]) == spec_building(
                        data@,
                        k,
                        server_time,
                    ),
            decreases 10 - pos,
        {
            let level = match data[pos + 3].to_u32() {
                Some(v) => v,
                None => {
                    assert(spec_building(data@, pos as int, server_time) is None);
                    return None;
                },
            };
            let t1 = match data[pos + 23].to_i64() {
                Some(v) => v,
                None => {
                    assert(spec_building(data@, pos as int, server_time) is None);
                    return None;
                },
            };
            let t2 = match data[pos + 33].to_i64() {
                Some(v) => v,
                None => {
                    assert(spec_building(data@, pos as int, server_time) is None);
                    return None;
                },
            };
            let building = IdleBuilding {
                level,
                earning: data[pos + 13].copy(),
                next_gather: server_time.convert_to_local(t1, "next gather time"),
                next_next_gather: server_time.convert_to_local(t2, "next next gather time"),
                golden: data[pos + 53].is_one(),
                upgrade_cost: data[pos + 78].copy(),
                upgrade_cost_10x: data[pos + 88].copy(),
                upgrade_cost_25x: data[pos + 98].copy(),
                upgrade_cost_100x: data[pos + 108].copy(),
            };
            buildings.push(building);
            pos = pos + 1;
        }
        assert(buildings_ok(data@, 10, server_time)) by {
            assert forall|k: int| 0 <= k < 10 implies #[trigger] spec_building(
                data@,
                k,
                server_time,
            ) is Some by {
                assert(Some(buildings@[k]) == spec_building(data@, k, server_time));
            }
        }
        Some(
            IdleGame {
                current_money: data[72].copy(),
                current_runes: data[76].copy(),
                resets,
                sacrifice_runes: data[75].copy(),
                merchant_new_goods,
                total_sacrificed: data[73].copy(),
                current_money_2: data[74].copy(),
                buildings,
            },
        )
    }
}

} // verus!
