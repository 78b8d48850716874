use vstd::prelude::*;

use crate::command::AttributeType;
use crate::gamestate::character::Class;
use crate::gamestate::items::{Enchantment, EquipmentSlot, ItemType};
use crate::error::{SFError, short_err};
use crate::misc::{push_char, push_decimal, push_str, decimal_text, cget, csiget_u16, csiget_u32, skip, soft_u16, soft_u32, soft_into_u16, soft_into_u32, update_enum_map, bad_value, too_short, ciget_i32, ciget_u8, soft_u64, soft_into_u64};
use crate::command::AttributeMap;
use crate::gamestate::{ServerTime, local_now, short_error_in};
use crate::PlayerId;

verus! {

/// The element of a pet habitat.
#[derive(Debug, Clone, Copy, PartialEq, Eq, Structural, Hash)]
pub enum HabitatType {
    Shadow,
    Light,
    Earth,
    Fire,
    Water,
}

impl Default for HabitatType {
    fn default() -> (r: Self)
        ensures
            r == HabitatType::Shadow,
    {
        HabitatType::Shadow
    }
}

impl HabitatType {
    /// The position of this habitat (0 to 4).
    pub open spec fn spec_index(self) -> int {
        match self {
            HabitatType::Shadow => 0,
            HabitatType::Light => 1,
            HabitatType::Earth => 2,
            HabitatType::Fire => 3,
            HabitatType::Water => 4,
        }
    }

    /// The position of this habitat (0 to 4).
    pub fn index(self) -> (r: usize)
        ensures
            r == self.spec_index(),
            r < 5,
    {
        match self {
            HabitatType::Shadow => 0,
            HabitatType::Light => 1,
            HabitatType::Earth => 2,
            HabitatType::Fire => 3,
            HabitatType::Water => 4,
        }
    }

    /// The habitat of the pet with the given id (1 to 100, 20 per habitat).
    pub open spec fn spec_from_pet_id(id: i64) -> Option<HabitatType> {
        if 1 <= id <= 20 {
            Some(HabitatType::Shadow)
        } else if 21 <= id <= 40 {
            Some(HabitatType::Light)
        } else if 41 <= id <= 60 {
            Some(HabitatType::Earth)
        } else if 61 <= id <= 80 {
            Some(HabitatType::Fire)
        } else if 81 <= id <= 100 {
            Some(HabitatType::Water)
        } else {
            None
        }
    }

    /// The habitat of the pet with the given id (1 to 100, 20 per habitat).
    pub fn from_pet_id(id: i64) -> (r: Option<Self>)
        ensures
            r == Self::spec_from_pet_id(id),
    {
        if 1 <= id && id <= 20 {
            Some(HabitatType::Shadow)
        } else if 21 <= id && id <= 40 {
            Some(HabitatType::Light)
        } else if 41 <= id && id <= 60 {
            Some(HabitatType::Earth)
        } else if 61 <= id && id <= 80 {
            Some(HabitatType::Fire)
        } else if 81 <= id && id <= 100 {
            Some(HabitatType::Water)
        } else {
            None
        }
    }

    /// The habitat with the type number the server uses for it (1 to 5).
    pub open spec fn spec_from_typ_id(id: i64) -> Option<HabitatType> {
        if id == 1 {
            Some(HabitatType::Shadow)
        } else if id == 2 {
            Some(HabitatType::Light)
        } else if id == 3 {
            Some(HabitatType::Earth)
        } else if id == 4 {
            Some(HabitatType::Fire)
        } else if id == 5 {
            Some(HabitatType::Water)
        } else {
            None
        }
    }

    /// The habitat with the type number the server uses for it (1 to 5).
    pub fn from_typ_id(id: i64) -> (r: Option<Self>)
        ensures
            r == Self::spec_from_typ_id(id),
            r matches Some(h) ==> h.spec_index() + 1 == id,
    {
        match id {
            1 => Some(HabitatType::Shadow),
            2 => Some(HabitatType::Light),
            3 => Some(HabitatType::Earth),
            4 => Some(HabitatType::Fire),
            5 => Some(HabitatType::Water),
            _ => None,
        }
    }

    /// The attribute that pets of this habitat boost.
    pub fn attribute(self) -> (r: AttributeType)
        ensures
            r == match self {
                HabitatType::Water => AttributeType::Strength,
                HabitatType::Light => AttributeType::Dexterity,
                HabitatType::Earth => AttributeType::Intelligence,
                HabitatType::Shadow => AttributeType::Constitution,
                HabitatType::Fire => AttributeType::Luck,
            },
    {
        match self {
            HabitatType::Water => AttributeType::Strength,
            HabitatType::Light => AttributeType::Dexterity,
            HabitatType::Earth => AttributeType::Intelligence,
            HabitatType::Shadow => AttributeType::Constitution,
            HabitatType::Fire => AttributeType::Luck,
        }
    }
}

/// The identification of items in the scrapbook.
#[derive(Debug, Clone, Copy, PartialEq, Eq, Structural, Hash)]
pub struct EquipmentIdent {
    /// The class the item has and thus the wearer must have
    pub class: Option<Class>,
    /// The position at which the item is worn
    pub typ: EquipmentSlot,
    /// The model id, this is basically the "name" of the item
    pub model_id: u16,
    /// The color variation of this item
    pub color: u8,
}

impl EquipmentIdent {
    /// The text of an ident: `itm{typ}_{model}_{color}`, followed by
    /// `_{class + 1}` where the item has a class.
    pub open spec fn spec_text(self) -> Seq<char> {
        let base = seq!['i', 't', 'm'] + decimal_text(
            self.typ.spec_raw_id() as nat,
        ) + seq!['_'] + decimal_text(self.model_id as nat) + seq!['_'] + decimal_text(
            self.color as nat,
        );
        match self.class {
            Some(c) => base + seq!['_'] + decimal_text((c.spec_index() + 1) as nat),
            None => base,
        }
    }

    /// The text of an ident, as the game names item pictures.
    pub fn to_string(&self) -> (s: String)
        ensures
            s@ == self.spec_text(),
    {
        let mut s = String::new();
        push_str(&mut s, "itm");
        push_decimal(&mut s, self.typ.raw_id() as u64);
        push_char(&mut s, '_');
        push_decimal(&mut s, self.model_id as u64);
        push_char(&mut s, '_');
        push_decimal(&mut s, self.color as u64);
        if let Some(class) = self.class {
            push_char(&mut s, '_');
            push_decimal(&mut s, class.index() as u64 + 1);
        }
        proof {
            reveal_strlit("itm");
        }
        assert(s@ =~= self.spec_text());
        s
    }
}

} // verus!

verus! {

/// The number of set bits of `v` among bits `k` to 31.
pub open spec fn ones_from(v: i64, k: int) -> nat
    decreases 32 - k,
{
    if k >= 32 || k < 0 {
        0
    } else {
        (if (v >> (k as i64)) & 1 == 1 { 1nat } else { 0nat }) + ones_from(v, k + 1)
    }
}

/// The current state of the mirror.
#[derive(Debug, Clone, Copy, PartialEq, Eq, Structural)]
pub enum Mirror {
    /// The player is still collecting the mirror pieces
    Pieces {
        /// The amount of pieces the character has found
        amount: u8,
    },
    /// The player has found all mirror pieces and thus has a working mirror
    Full,
}

impl Default for Mirror {
    fn default() -> (r: Self)
        ensures
            r == Mirror::Full,
    {
        Mirror::Full
    }
}

impl Mirror {
    /// The mirror that a value of the player save describes: bit 8 marks a
    /// full mirror, otherwise each set bit among bits 19 to 31 is a piece.
    pub open spec fn spec_parse(i: i64) -> Mirror {
        if (i & 256) != 0 {
            Mirror::Full
        } else {
            Mirror::Pieces { amount: ones_from(i, 19) as u8 }
        }
    }

    /// Parses the mirror state out of a value of the player save.
    pub fn parse(i: i64) -> (r: Mirror)
        ensures
            r == Self::spec_parse(i),
    {
        if (i & 256) != 0 {
            return Mirror::Full;
        }
        let mut amount: u8 = 0;
        let mut k: i64 = 31;
        while k >= 19
            invariant
                18 <= k <= 31,
                amount == ones_from(i, k + 1),
                amount <= 31 - k,
            decreases k,
        {
            if (i >> k) & 1 == 1 {
                amount = amount + 1;
            }
            k = k - 1;
        }
        Mirror::Pieces { amount }
    }
}

/// A feature that the character is able to unlock.
#[derive(Debug, Clone, Copy, PartialEq, Eq, Structural)]
pub struct Unlockable {
    /// Something like `Dungeon-key`
    pub main_ident: i64,
    /// A specification of the main ident, like which dungeon
    pub sub_ident: i64,
}

/// The unlockables that the pairs `d[0..2n]` describe: pairs whose first
/// value is 0 are left out.
pub open spec fn unlockables_upto(d: Seq<i64>, n: nat) -> Seq<Unlockable>
    decreases n,
{
    if n == 0 {
        Seq::empty()
    } else {
        let prev = unlockables_upto(d, (n - 1) as nat);
        let k = 2 * (n - 1);
        if d[k] != 0 {
            prev.push(Unlockable { main_ident: d[k], sub_ident: d[k + 1] })
        } else {
            prev
        }
    }
}

impl Unlockable {
    /// Parses the pairs of (main ident, sub ident) in `data`; a trailing odd
    /// value is ignored.
    pub fn parse(data: &[i64]) -> (r: Result<Vec<Unlockable>, SFError>)
        ensures
            r matches Ok(v) && v@ == unlockables_upto(data@, (data@.len() / 2) as nat),
    {
        let mut res: Vec<Unlockable> = Vec::new();
        let len = data.len();
        let n = len / 2;
        let mut i: usize = 0;
        while i < n
            invariant
                len == data@.len(),
                i <= n,
                n == data@.len() / 2,
                2 * n <= data@.len(),
                res@ == unlockables_upto(data@, i as nat),
            decreases n - i,
        {
            assert(2 * i + 1 < data@.len());
            let main_ident = data[2 * i];
            if main_ident != 0 {
                res.push(Unlockable { main_ident, sub_ident: data[2 * i + 1] });
            }
            i = i + 1;
        }
        Ok(res)
    }
}

/// A small challenge you can complete in the game.
#[derive(Debug, Clone, Copy, PartialEq, Eq, Structural)]
pub struct Achievement {
    /// Whether or not this achievement has been completed
    pub achieved: bool,
    /// The progress of doing this achievement
    pub progress: i64,
}

/// The current progress towards all achievements.
#[derive(Debug, Clone)]
pub struct Achievements(pub Vec<Achievement>);

/// The number of achieved achievements among the first `n`.
pub open spec fn achieved_count(a: Seq<Achievement>, n: int) -> nat
    decreases n,
{
    if n <= 0 {
        0
    } else {
        achieved_count(a, n - 1) + if a[n - 1].achieved { 1nat } else { 0nat }
    }
}

/// The number of achieved achievements grows with the number counted.
proof fn lemma_achieved_count_grows(a: Seq<Achievement>, i: int, j: int)
    requires
        0 <= i <= j,
    ensures
        achieved_count(a, i) <= achieved_count(a, j),
    decreases j - i,
{
    if i < j {
        lemma_achieved_count_grows(a, i, j - 1);
    }
}

/// The number of values equal to 1 among the first `n` of `d`.
pub open spec fn ones_count(d: Seq<i64>, n: int) -> nat
    decreases n,
{
    if n <= 0 {
        0
    } else {
        ones_count(d, n - 1) + if d[n - 1] == 1 { 1nat } else { 0nat }
    }
}

/// After the achievements were read from values `d` of even length, the
/// achievements owned are the values of the first half of `d` that are 1.
pub proof fn lemma_owned_counts_ones(a: Achievements, d: Seq<i64>)
    requires
        d.len() % 2 == 0,
        a.0@.len() == d.len() / 2,
        forall|i: int|
            0 <= i < d.len() / 2 ==> #[trigger] a.0@[i] == (Achievement {
                achieved: d[i] == 1,
                progress: d[i + d.len() / 2],
            }),
    ensures
        achieved_count(a.0@, a.0@.len() as int) == ones_count(d, (d.len() / 2) as int),
{
    lemma_counts_agree(a, d, (d.len() / 2) as int);
}

proof fn lemma_counts_agree(a: Achievements, d: Seq<i64>, n: int)
    requires
        0 <= n <= d.len() / 2,
        a.0@.len() == d.len() / 2,
        forall|i: int|
            0 <= i < d.len() / 2 ==> #[trigger] a.0@[i] == (Achievement {
                achieved: d[i] == 1,
                progress: d[i + d.len() / 2],
            }),
    ensures
        achieved_count(a.0@, n) == ones_count(d, n),
    decreases n,
{
    if n > 0 {
        lemma_counts_agree(a, d, n - 1);
        assert(a.0@[n - 1].achieved == (d[n - 1] == 1));
    }
}

impl Achievements {
    /// Replaces the achievements with those of `data`: its first half says
    /// which are achieved (value 1), its second half gives their progress.
    /// Data of odd length leaves no achievements.
    pub fn update(&mut self, data: &[i64]) -> (r: Result<(), SFError>)
        ensures
            r is Ok,
            data@.len() % 2 != 0 ==> final(self).0@.len() == 0,
            data@.len() % 2 == 0 ==> final(self).0@.len() == data@.len() / 2 && forall|i: int|
                0 <= i < data@.len() / 2 ==> #[trigger] final(self).0@[i] == (Achievement {
                    achieved: data@[i] == 1,
                    progress: data@[i + data@.len() / 2],
                }),
    {
        self.0.clear();
        let total = data.len() / 2;
        if data.len() % 2 != 0 {
            return Ok(());
        }
        let mut i: usize = 0;
        while i < total
            invariant
                i <= total,
                total == data@.len() / 2,
                data@.len() % 2 == 0,
                self.0@.len() == i,
                forall|k: int|
                    0 <= k < i ==> #[trigger] self.0@[k] == (Achievement {
                        achieved: data@[k] == 1,
                        progress: data@[k + total],
                    }),
            decreases total - i,
        {
            self.0.push(Achievement { achieved: data[i] == 1, progress: data[i + total] });
            i = i + 1;
        }
        Ok(())
    }

    /// The amount of achievements that have been earned. The count is a
    /// `u32`: more than `u32::MAX` earned achievements overflow it.
    pub fn owned(&self) -> (r: u32)
        requires
            achieved_count(self.0@, self.0@.len() as int) <= u32::MAX,
        ensures
            r == achieved_count(self.0@, self.0@.len() as int),
    {
        let mut c: u32 = 0;
        let mut i: usize = 0;
        while i < self.0.len()
            invariant
                i <= self.0@.len(),
                achieved_count(self.0@, self.0@.len() as int) <= u32::MAX,
                c == achieved_count(self.0@, i as int),
            decreases self.0@.len() - i,
        {
            proof {
                lemma_achieved_count_grows(self.0@, i + 1, self.0@.len() as int);
            }
            if self.0[i].achieved {
                c = c + 1;
            }
            i = i + 1;
        }
        c
    }
}

} // verus!

verus! {

/// The first scrapbook index of each of the 44 item ranges, and the end of
/// the last range.
pub open spec fn scrap_bounds() -> Seq<i64> {
    seq![
        801i64, 1011, 1051, 1211, 1251, 1325, 1365, 1665, 1705, 1805, 1845, 1945, 1985, 2085,
        2125, 2225, 2265, 2365, 2405, 2505, 2545, 2645, 2685, 2785, 2825, 2925, 2965, 3065, 3105,
        3205, 3245, 3345, 3385, 3485, 3525, 3625, 3665, 3765, 3805, 3905, 3945, 4045, 4085, 4185,
        4225,
    ]
}

/// The slot of the items of each scrapbook range.
pub open spec fn scrap_slots() -> Seq<EquipmentSlot> {
    seq![
        EquipmentSlot::Amulet, EquipmentSlot::Amulet, EquipmentSlot::Ring, EquipmentSlot::Ring,
        EquipmentSlot::Talisman, EquipmentSlot::Talisman, EquipmentSlot::Weapon,
        EquipmentSlot::Weapon, EquipmentSlot::Shield, EquipmentSlot::Shield,
        EquipmentSlot::BreastPlate, EquipmentSlot::BreastPlate, EquipmentSlot::FootWear,
        EquipmentSlot::FootWear, EquipmentSlot::Gloves, EquipmentSlot::Gloves, EquipmentSlot::Hat,
        EquipmentSlot::Hat, EquipmentSlot::Belt, EquipmentSlot::Belt, EquipmentSlot::Weapon,
        EquipmentSlot::Weapon, EquipmentSlot::BreastPlate, EquipmentSlot::BreastPlate,
        EquipmentSlot::FootWear, EquipmentSlot::FootWear, EquipmentSlot::Gloves,
        EquipmentSlot::Gloves, EquipmentSlot::Hat, EquipmentSlot::Hat, EquipmentSlot::Belt,
        EquipmentSlot::Belt, EquipmentSlot::Weapon, EquipmentSlot::Weapon,
        EquipmentSlot::BreastPlate, EquipmentSlot::BreastPlate, EquipmentSlot::FootWear,
        EquipmentSlot::FootWear, EquipmentSlot::Gloves, EquipmentSlot::Gloves, EquipmentSlot::Hat,
        EquipmentSlot::Hat, EquipmentSlot::Belt, EquipmentSlot::Belt,
    ]
}

/// The class of the items of scrapbook range `k`: none for the first six
/// ranges, then Warrior, Mage and Scout.
pub open spec fn scrap_class(k: int) -> Option<Class> {
    if k < 6 {
        None
    } else if k < 20 {
        Some(Class::Warrior)
    } else if k < 32 {
        Some(Class::Mage)
    } else {
        Some(Class::Scout)
    }
}

/// Holds of the scrapbook ranges whose 10th and 11th positions hold no item:
/// the epic armor ranges.
pub open spec fn scrap_has_gap(k: int) -> bool {
    k % 2 == 1 && ((11 <= k <= 19) || (23 <= k <= 31) || (35 <= k <= 43))
}

/// The scrapbook item of range `k` at the 1 based position `rel` within it.
pub open spec fn scrap_ident(k: int, rel: int) -> EquipmentIdent {
    let typ = scrap_slots()[k];
    let is_epic = k % 2 == 1;
    let color = if typ == EquipmentSlot::Talisman || is_epic {
        1
    } else if rel % 10 == 0 {
        5
    } else if 1 <= rel % 10 <= 5 {
        rel % 10
    } else {
        rel % 10 - 5
    };
    let model_id = if is_epic {
        rel + 49
    } else if typ == EquipmentSlot::Talisman {
        rel
    } else if rel % 5 != 0 {
        rel / 5 + 1
    } else {
        rel / 5
    };
    EquipmentIdent { class: scrap_class(k), typ, model_id: model_id as u16, color: color as u8 }
}

/// Holds where `index` lies in scrapbook range `k`.
pub open spec fn in_scrap_range(k: int, index: i64) -> bool {
    0 <= k < 44 && scrap_bounds()[k] <= index < scrap_bounds()[k + 1]
}

/// The scrapbook item at an index of the scrapbook, if one is there.
pub open spec fn spec_scrapbook_item(index: i64) -> Option<EquipmentIdent> {
    if exists|k: int| #[trigger] in_scrap_range(k, index) {
        let k = choose|k: int| #[trigger] in_scrap_range(k, index);
        let rel = index - scrap_bounds()[k] + 1;
        if scrap_has_gap(k) && (rel == 10 || rel == 11) {
            None
        } else {
            Some(scrap_ident(k, rel))
        }
    } else {
        None
    }
}

/// The scrapbook ranges do not overlap: each index lies in at most one.
proof fn lemma_scrap_bounds_increase(j: int, k: int)
    requires
        0 <= j < k <= 44,
    ensures
        scrap_bounds()[j] < scrap_bounds()[k],
    decreases k - j,
{
    if j + 1 < k {
        lemma_scrap_bounds_increase(j, k - 1);
        lemma_scrap_bounds_increase(k - 1, k);
    } else {
        assert(scrap_bounds()[j] < scrap_bounds()[j + 1]);
    }
}

fn scrap_bounds_exec() -> (r: [i64; 45])
    ensures
        r@ == scrap_bounds(),
{
    let r = [
        801i64, 1011, 1051, 1211, 1251, 1325, 1365, 1665, 1705, 1805, 1845, 1945, 1985, 2085,
        2125, 2225, 2265, 2365, 2405, 2505, 2545, 2645, 2685, 2785, 2825, 2925, 2965, 3065, 3105,
        3205, 3245, 3345, 3385, 3485, 3525, 3625, 3665, 3765, 3805, 3905, 3945, 4045, 4085, 4185,
        4225,
    ];
    assert(r@ =~= scrap_bounds());
    r
}

fn scrap_slots_exec() -> (r: [EquipmentSlot; 44])
    ensures
        r@ == scrap_slots(),
{
    let r = [
        EquipmentSlot::Amulet, EquipmentSlot::Amulet, EquipmentSlot::Ring, EquipmentSlot::Ring,
        EquipmentSlot::Talisman, EquipmentSlot::Talisman, EquipmentSlot::Weapon,
        EquipmentSlot::Weapon, EquipmentSlot::Shield, EquipmentSlot::Shield,
        EquipmentSlot::BreastPlate, EquipmentSlot::BreastPlate, EquipmentSlot::FootWear,
        EquipmentSlot::FootWear, EquipmentSlot::Gloves, EquipmentSlot::Gloves, EquipmentSlot::Hat,
        EquipmentSlot::Hat, EquipmentSlot::Belt, EquipmentSlot::Belt, EquipmentSlot::Weapon,
        EquipmentSlot::Weapon, EquipmentSlot::BreastPlate, EquipmentSlot::BreastPlate,
        EquipmentSlot::FootWear, EquipmentSlot::FootWear, EquipmentSlot::Gloves,
        EquipmentSlot::Gloves, EquipmentSlot::Hat, EquipmentSlot::Hat, EquipmentSlot::Belt,
        EquipmentSlot::Belt, EquipmentSlot::Weapon, EquipmentSlot::Weapon,
        EquipmentSlot::BreastPlate, EquipmentSlot::BreastPlate, EquipmentSlot::FootWear,
        EquipmentSlot::FootWear, EquipmentSlot::Gloves, EquipmentSlot::Gloves, EquipmentSlot::Hat,
        EquipmentSlot::Hat, EquipmentSlot::Belt, EquipmentSlot::Belt,
    ];
    assert(r@ =~= scrap_slots());
    r
}

/// The scrapbook item at an index of the scrapbook (indices 801 to 4224
/// hold items), if one is there.
pub fn parse_scrapbook_item(index: i64) -> (r: Option<EquipmentIdent>)
    ensures
        r == spec_scrapbook_item(index),
{
    let bounds = scrap_bounds_exec();
    let slots = scrap_slots_exec();
    let mut k: usize = 0;
    while k < 44
        invariant
            k <= 44,
            bounds@ == scrap_bounds(),
            slots@ == scrap_slots(),
            forall|j: int| 0 <= j < k ==> !#[trigger] in_scrap_range(j, index),
        decreases 44 - k,
    {
        if bounds[k] <= index && index < bounds[k + 1] {
            proof {
                assert(in_scrap_range(k as int, index));
                assert forall|j: int| #[trigger] in_scrap_range(j, index) implies j == k by {
                    if j < k {
                    } else if j > k {
                        lemma_scrap_bounds_increase(k as int + 1, j);
                    }
                }
            }
            let rel = index - bounds[k] + 1;
            let has_gap = k % 2 == 1 && ((11 <= k && k <= 19) || (23 <= k && k <= 31) || (35 <= k
                && k <= 43));
            if has_gap && (rel == 10 || rel == 11) {
                return None;
            }
            let typ = slots[k];
            let is_epic = k % 2 == 1;
            let class = if k < 6 {
                None
            } else if k < 20 {
                Some(Class::Warrior)
            } else if k < 32 {
                Some(Class::Mage)
            } else {
                Some(Class::Scout)
            };
            let color: i64 = if typ == EquipmentSlot::Talisman || is_epic {
                1
            } else if rel % 10 == 0 {
                5
            } else if 1 <= rel % 10 && rel % 10 <= 5 {
                rel % 10
            } else {
                rel % 10 - 5
            };
            let model_id: i64 = if is_epic {
                rel + 49
            } else if typ == EquipmentSlot::Talisman {
                rel
            } else if rel % 5 != 0 {
                rel / 5 + 1
            } else {
                rel / 5
            };
            return Some(EquipmentIdent { class, typ, model_id: model_id as u16, color: color as u8 });
        }
        k = k + 1;
    }
    None
}

} // verus!

verus! {

/// The bytes that the URL safe base64 alphabet (with padding) decodes a text
/// into, or `None` where the text is not valid.
pub uninterp spec fn base64_url_safe_decoded(text: Seq<char>) -> Option<Seq<u8>>;

/// Decodes `text` with `base64::engine::general_purpose::URL_SAFE`. The
/// contract names the result.
#[verifier::external_body]
fn base64_url_safe_decode(text: &str) -> (r: Option<Vec<u8>>)
    ensures
        r matches Some(v) ==> base64_url_safe_decoded(text@) == Some(v@),
        r is None ==> base64_url_safe_decoded(text@) is None,
{
    base64::Engine::decode(&base64::engine::general_purpose::URL_SAFE, text).ok()
}

/// Whether the scrapbook bit with the 1 based index `index` is set: bits are
/// read from the most significant bit of each byte on.
pub open spec fn scrap_bit(bytes: Seq<u8>, index: int) -> bool {
    let byte = bytes[(index - 1) / 8];
    let pos = 7 - (index - 1) % 8;
    (byte >> (pos as u8)) & 1 == 1
}

/// The monsters and items of a scrapbook after reading its first `n` bits.
pub struct ScrapState {
    pub monster: Seq<u16>,
    pub items: Seq<EquipmentIdent>,
}

/// The monsters and items that the first `n` bits of a scrapbook record:
/// indices below 801 are monsters, the others items; an item is recorded
/// once.
pub open spec fn scrap_fold(bytes: Seq<u8>, n: nat) -> ScrapState
    decreases n,
{
    if n == 0 {
        ScrapState { monster: Seq::empty(), items: Seq::empty() }
    } else {
        let prev = scrap_fold(bytes, (n - 1) as nat);
        let index = n as int;
        if !scrap_bit(bytes, index) {
            prev
        } else if index < 801 {
            ScrapState { monster: prev.monster.push(index as u16), items: prev.items }
        } else if index >= 4225 {
            prev
        } else {
            match spec_scrapbook_item(index as i64) {
                Some(ident) => if prev.items.contains(ident) {
                    prev
                } else {
                    ScrapState { monster: prev.monster, items: prev.items.push(ident) }
                },
                None => prev,
            }
        }
    }
}

/// All the items and monsters that the player has found for the scrapbook.
#[derive(Debug, Clone)]
pub struct ScrapBook {
    /// The items already collected, each once
    pub items: Vec<EquipmentIdent>,
    /// The monsters already seen, each once
    pub monster: Vec<u16>,
}

impl ScrapBook {
    /// The scrapbook that some decoded bytes describe.
    pub open spec fn spec_from_bytes(bytes: Seq<u8>) -> Option<(Seq<u16>, Seq<EquipmentIdent>)> {
        if forall|i: int| 0 <= i < bytes.len() ==> #[trigger] bytes[i] == 0 {
            None
        } else {
            let st = scrap_fold(bytes, (bytes.len() * 8) as nat);
            Some((st.monster, st.items))
        }
    }

    /// Parses the scrapbook from its base64 text. `None` where the text is
    /// not valid base64 or where nothing is collected.
    pub fn parse(val: &str) -> (r: Option<ScrapBook>)
        ensures
            match base64_url_safe_decoded(val@) {
                None => r is None,
                Some(bytes) => match Self::spec_from_bytes(bytes) {
                    None => r is None,
                    Some((m, i)) => r matches Some(s) && s.monster@ == m && s.items@ == i,
                },
            },
    {
        let text = match base64_url_safe_decode(val) {
            Some(t) => t,
            None => return None,
        };
        Self::from_bytes(&text)
    }

    /// The scrapbook that decoded bytes describe: `None` where no bit is set.
    pub fn from_bytes(text: &[u8]) -> (r: Option<ScrapBook>)
        ensures
            match Self::spec_from_bytes(text@) {
                None => r is None,
                Some((m, i)) => r matches Some(s) && s.monster@ == m && s.items@ == i,
            },
    {
        let mut any = false;
        let mut j: usize = 0;
        while j < text.len()
            invariant
                j <= text@.len(),
                any <==> exists|k: int| 0 <= k < j && #[trigger] text@[k] != 0,
            decreases text@.len() - j,
        {
            if text[j] != 0 {
                any = true;
            }
            j = j + 1;
        }
        if !any {
            return None;
        }
        let mut monster: Vec<u16> = Vec::new();
        let mut items: Vec<EquipmentIdent> = Vec::new();
        let mut b: usize = 0;
        while b < text.len()
            invariant
                b <= text@.len(),
                monster@ == scrap_fold(text@, (b * 8) as nat).monster,
                items@ == scrap_fold(text@, (b * 8) as nat).items,
            decreases text@.len() - b,
        {
            let byte = text[b];
            let mut p: usize = 0;
            while p < 8
                invariant
                    p <= 8,
                    b < text@.len(),
                    byte == text@[b as int],
                    monster@ == scrap_fold(text@, (b * 8 + p) as nat).monster,
                    items@ == scrap_fold(text@, (b * 8 + p) as nat).items,
                decreases 8 - p,
            {
                let index: u128 = b as u128 * 8 + p as u128 + 1;
                let owned = (byte >> ((7 - p) as u8)) & 1 == 1;
                assert((index - 1) / 8 == b && (index - 1) % 8 == p);
                assert(owned == scrap_bit(text@, index as int));
                if owned {
                    if index < 801 {
                        monster.push(index as u16);
                    } else if index < 4225 {
                        match parse_scrapbook_item(index as i64) {
                            Some(ident) => {
                                if !contains_ident(&items, &ident) {
                                    items.push(ident);
                                }
                            },
                            None => {},
                        }
                    }
                }
                assert((b * 8 + p + 1) as nat == (b * 8 + (p + 1)) as nat);
                p = p + 1;
            }
            b = b + 1;
        }
        Some(ScrapBook { items, monster })
    }
}

/// Checks whether a list of idents holds `x`.
fn contains_ident(v: &Vec<EquipmentIdent>, x: &EquipmentIdent) -> (r: bool)
    ensures
        r == v@.contains(*x),
{
    let mut i: usize = 0;
    while i < v.len()
        invariant
            i <= v@.len(),
            forall|k: int| 0 <= k < i ==> v@[k] != *x,
        decreases v@.len() - i,
    {
        if v[i] == *x {
            assert(v@[i as int] == *x);
            return true;
        }
        i = i + 1;
    }
    false
}


/// The statistics of a pet.
#[derive(Debug, Clone, Copy, PartialEq, Eq)]
pub struct PetStats {
    pub id: usize,
    pub level: u16,
    pub armor: u16,
    pub class: Class,
    pub attributes: AttributeMap,
    pub bonus_attributes: AttributeMap,
    pub min_damage: u16,
    pub max_damage: u16,
    pub element: HabitatType,
}

/// The attribute values `m` with the first of them replaced by the (up to)
/// five values at the start of `d`, each converted softly with the default 0.
pub open spec fn spec_map_update(m: AttributeMap, d: Seq<i64>) -> AttributeMap {
    [
        if d.len() > 0 { soft_u32(d[0], 0) } else { m[0] },
        if d.len() > 1 { soft_u32(d[1], 0) } else { m[1] },
        if d.len() > 2 { soft_u32(d[2], 0) } else { m[2] },
        if d.len() > 3 { soft_u32(d[3], 0) } else { m[3] },
        if d.len() > 4 { soft_u32(d[4], 0) } else { m[4] },
    ]
}

/// The (up to) five attribute values at the start of `d`, each converted
/// softly with the default 0; missing ones are 0.
pub open spec fn spec_attribute_map(d: Seq<i64>) -> AttributeMap {
    spec_map_update([0u32, 0, 0, 0, 0], d)
}

/// Reads the (up to) five attribute values at the start of `vals`.
pub fn attribute_map_of(vals: &[i64]) -> (r: AttributeMap)
    ensures
        r == spec_attribute_map(vals@),
{
    let mut m: AttributeMap = [0, 0, 0, 0, 0];
    update_enum_map(&mut m, vals);
    assert(m@ =~= spec_attribute_map(vals@)@);
    m
}

impl PetStats {
    /// The element of a pet whose element value is `raw`: for 0 the element
    /// follows from the pet id.
    pub open spec fn spec_element(raw: i64, pet_id: u32) -> Option<HabitatType> {
        if raw == 0 {
            HabitatType::spec_from_pet_id(pet_id as i64)
        } else {
            HabitatType::spec_from_typ_id(raw)
        }
    }

    /// Holds where the (at least 17) values describe a pet: its class and
    /// its element are known.
    pub open spec fn spec_valid(d: Seq<i64>) -> bool {
        &&& d.len() > 16
        &&& Class::spec_from_i64(d[3]) is Some
        &&& Self::spec_element(d[16], soft_u32(d[0], 0)) is Some
    }

    /// The statistics that valid values describe.
    pub open spec fn spec_parse(d: Seq<i64>) -> PetStats {
        PetStats {
            id: soft_u32(d[0], 0) as usize,
            level: soft_u16(d[1], 0),
            armor: soft_u16(d[2], 0),
            class: Class::spec_from_i64(d[3])->0,
            attributes: spec_attribute_map(d.skip(4)),
            bonus_attributes: spec_attribute_map(d.skip(9)),
            min_damage: soft_u16(d[14], 0),
            max_damage: soft_u16(d[15], 0),
            element: Self::spec_element(d[16], soft_u32(d[0], 0))->0,
        }
    }

    /// Parses the statistics of a pet. An unknown class or element is an
    /// error.
    pub fn parse(data: &[i64]) -> (r: Result<Self, SFError>)
        ensures
            Self::spec_valid(data@) <==> r is Ok,
            r is Ok ==> r == Ok::<PetStats, SFError>(Self::spec_parse(data@)),
    {
        let pet_id = csiget_u32(data, 0, "pet index", 0)?;
        let level = csiget_u16(data, 1, "pet lvl", 0)?;
        let armor = csiget_u16(data, 2, "pet armor", 0)?;
        let raw_class = cget(data, 3, "pet class")?;
        let class = match Class::from_i64(raw_class) {
            Some(c) => c,
            None => return Err(bad_value("pet class", raw_class)),
        };
        let min_damage = csiget_u16(data, 14, "min damage", 0)?;
        let max_damage = csiget_u16(data, 15, "max damage", 0)?;
        let raw_element = cget(data, 16, "pet element")?;
        let element = if raw_element == 0 {
            match HabitatType::from_pet_id(pet_id as i64) {
                Some(e) => e,
                None => return Err(bad_value("det pet typ", pet_id as i64)),
            }
        } else {
            match HabitatType::from_typ_id(raw_element) {
                Some(e) => e,
                None => return Err(bad_value("det pet typ", raw_element)),
            }
        };
        let attributes = attribute_map_of(skip(data, 4, "pet attrs")?);
        let bonus_attributes = attribute_map_of(skip(data, 9, "pet bonus")?);
        Ok(PetStats {
            id: pet_id as usize,
            level,
            armor,
            class,
            attributes,
            bonus_attributes,
            min_damage,
            max_damage,
            element,
        })
    }
}

/// A pet.
#[derive(Debug, Clone, Copy, PartialEq, Eq)]
pub struct Pet {
    pub id: u32,
    pub level: u16,
    /// The amount of fruits this pet got today
    pub fruits_today: u16,
    pub element: HabitatType,
    /// This is None until you look at your pets again
    pub stats: Option<PetStats>,
    /// Check if this pet can be found already
    pub can_be_found: bool,
}

impl Default for Pet {
    fn default() -> (r: Self)
        ensures
            r == (Pet {
                id: 0,
                level: 0,
                fruits_today: 0,
                element: HabitatType::Shadow,
                stats: None,
                can_be_found: false,
            }),
    {
        Pet {
            id: 0,
            level: 0,
            fruits_today: 0,
            element: HabitatType::Shadow,
            stats: None,
            can_be_found: false,
        }
    }
}

/// Represents the current state of the habitat exploration.
#[derive(Debug, Clone, Copy, PartialEq, Eq, Structural)]
pub enum HabitatExploration {
    /// Explored/won all 20 habitat battles. This means you can no longer
    /// fight in the habitat
    Finished,
    /// The habitat has not yet been fully explored
    Exploring {
        /// The amount of pets you have already won fights against (explored)
        /// 0..=19
        fights_won: u32,
        /// The level of the next habitat exploration fight
        next_fight_lvl: u16,
    },
}

impl Default for HabitatExploration {
    fn default() -> (r: Self)
        ensures
            r == HabitatExploration::Finished,
    {
        HabitatExploration::Finished
    }
}

/// The amount of pets in each habitat.
pub const PETS_PER_HABITAT: usize = 20;

/// A habitat of pets.
#[derive(Debug, Clone, Copy)]
pub struct Habitat {
    /// The state of the exploration of this habitat
    pub exploration: HabitatExploration,
    /// The amount of fruits you have for this class
    pub fruits: u16,
    /// Has this habitat already fought an opponent today. If so, they can
    /// not do this until the next day
    pub battled_opponent: bool,
    /// All the different pets you can collect in this habitat
    pub pets: [Pet; PETS_PER_HABITAT],
}

impl Default for Habitat {
    fn default() -> (r: Self)
        ensures
            r.exploration == HabitatExploration::Finished,
            r.fruits == 0,
            !r.battled_opponent,
    {
        let p = Pet::default();
        Habitat {
            exploration: HabitatExploration::Finished,
            fruits: 0,
            battled_opponent: false,
            pets: [p, p, p, p, p, p, p, p, p, p, p, p, p, p, p, p, p, p, p, p],
        }
    }
}

/// The pvp opponent you can attack with your pets.
#[derive(Debug, Clone, Copy, PartialEq, Eq, Structural)]
pub struct PetOpponent {
    pub id: PlayerId,
    pub pet_count: u32,
    pub level_total: u32,
    /// The next time a battle against this opponent will cost no mushroom
    pub next_free_battle: Option<i64>,
    /// The time the opponent was chosen
    pub reroll_date: Option<i64>,
    pub habitat: Option<HabitatType>,
}

impl Default for PetOpponent {
    fn default() -> (r: Self)
        ensures
            r == (PetOpponent {
                id: 0,
                pet_count: 0,
                level_total: 0,
                next_free_battle: None,
                reroll_date: None,
                habitat: None,
            }),
    {
        PetOpponent {
            id: 0,
            pet_count: 0,
            level_total: 0,
            next_free_battle: None,
            reroll_date: None,
            habitat: None,
        }
    }
}

/// All the pets of a player.
#[derive(Debug, Clone, Copy)]
pub struct Pets {
    /// The total amount of pets collected in all habitats
    pub total_collected: u16,
    /// The rank this pet collection achieved in the hall of fame
    pub rank: u32,
    /// The honor this pet collection has gained
    pub honor: u32,
    pub max_pet_level: u16,
    /// Information about the pvp opponent you can attack with your pets
    pub opponent: PetOpponent,
    /// Information about all the different habitats, by `HabitatType::index`
    pub habitats: [Habitat; 5],
    /// The next time the exploration will be possible without spending a
    /// mushroom
    pub next_free_exploration: Option<i64>,
    /// The bonus the player receives from pets
    pub atr_bonus: AttributeMap,
}

impl Default for Pets {
    fn default() -> (r: Self)
        ensures
            r.total_collected == 0 && r.rank == 0 && r.honor == 0 && r.max_pet_level == 0,
            r.next_free_exploration is None,
            r.atr_bonus == [0u32, 0, 0, 0, 0],
    {
        let h = Habitat::default();
        Pets {
            total_collected: 0,
            rank: 0,
            honor: 0,
            max_pet_level: 0,
            opponent: PetOpponent::default(),
            habitats: [h, h, h, h, h],
            next_free_exploration: None,
            atr_bonus: [0, 0, 0, 0, 0],
        }
    }
}

/// The habitat at position `i` (0 to 4).
pub open spec fn habitat_at(i: int) -> HabitatType {
    if i == 0 {
        HabitatType::Shadow
    } else if i == 1 {
        HabitatType::Light
    } else if i == 2 {
        HabitatType::Earth
    } else if i == 3 {
        HabitatType::Fire
    } else {
        HabitatType::Water
    }
}

fn habitat_of_index(i: usize) -> (r: HabitatType)
    requires
        i < 5,
    ensures
        r == habitat_at(i as int),
        r.spec_index() == i,
{
    if i == 0 {
        HabitatType::Shadow
    } else if i == 1 {
        HabitatType::Light
    } else if i == 2 {
        HabitatType::Earth
    } else if i == 3 {
        HabitatType::Fire
    } else {
        HabitatType::Water
    }
}

impl Pets {
    /// The exploration state of habitat `h` that the pet values describe.
    pub open spec fn spec_exploration(d: Seq<i64>, h: int) -> HabitatExploration {
        let explored = soft_u32(d[210 + h], 20);
        if explored == 20 {
            HabitatExploration::Finished
        } else {
            HabitatExploration::Exploring {
                fights_won: explored,
                next_fight_lvl: soft_u16(d[238 + h], 1_000),
            }
        }
    }

    /// The pet `p` of habitat `h` that the pet values describe, keeping its
    /// statistics.
    pub open spec fn spec_pet(d: Seq<i64>, h: int, p: int, stats: Option<PetStats>) -> Pet {
        let id = 20 * h + p + 1;
        let level = soft_u16(d[id + 1], 0);
        Pet {
            id: id as u32,
            level,
            fruits_today: soft_u16(d[id + 109], 0),
            element: habitat_at(h),
            stats,
            can_be_found: level == 0 && soft_u32(d[210 + h], 20) >= p,
        }
    }

    /// Holds where habitat `h` of `after` is the one that the pet values
    /// describe, updated from `before`.
    pub open spec fn habitat_updated(d: Seq<i64>, h: int, before: Habitat, after: Habitat) -> bool {
        &&& after.exploration == Self::spec_exploration(d, h)
        &&& after.battled_opponent == (d[223 + h] == 1)
        &&& after.fruits == before.fruits
        &&& forall|p: int|
            0 <= p < 20 ==> #[trigger] after.pets[p] == Self::spec_pet(d, h, p, before.pets[p].stats)
    }

    /// Holds where `after` is `before` updated from the pet values `d`.
    pub open spec fn spec_updated(before: Pets, after: Pets, d: Seq<i64>, st: ServerTime) -> bool {
        &&& forall|h: int|
            0 <= h < 5 ==> Self::habitat_updated(d, h, #[trigger] before.habitats[h], after.habitats[h])
        &&& after.total_collected == soft_u16(d[103], 0)
        &&& after.opponent.id == soft_u32(d[231], 0)
        &&& after.opponent.next_free_battle == st.spec_convert(d[232])
        &&& after.rank == soft_u32(d[233], 0)
        &&& after.honor == soft_u32(d[234], 0)
        &&& after.opponent.pet_count == soft_u32(d[235], 0)
        &&& after.opponent.level_total == soft_u32(d[236], 0)
        &&& after.opponent.reroll_date == st.spec_convert(d[237])
        &&& after.opponent.habitat == before.opponent.habitat
        &&& after.atr_bonus == spec_map_update(before.atr_bonus, d.skip(250))
        &&& after.max_pet_level == before.max_pet_level
        &&& after.next_free_exploration == before.next_free_exploration
    }

    /// Holds where `after` is `before` with the statistics of one pet read
    /// from `d`, where they are valid.
    pub open spec fn spec_stat_updated(before: Pets, after: Pets, d: Seq<i64>) -> bool {
        &&& PetStats::spec_valid(d) ==> {
            let ps = PetStats::spec_parse(d);
            let h = ps.element.spec_index();
            let p = (ps.id % 20) as int;
            &&& after.habitats[h].pets[p] == (Pet { stats: Some(ps), ..before.habitats[h].pets[p] })
            &&& forall|q: int| 0 <= q < 20 && q != p ==> #[trigger] after.habitats[h].pets[q] == before.habitats[h].pets[q]
            &&& after.habitats[h].exploration == before.habitats[h].exploration
            &&& after.habitats[h].fruits == before.habitats[h].fruits
            &&& after.habitats[h].battled_opponent == before.habitats[h].battled_opponent
            &&& forall|k: int| 0 <= k < 5 && k != h ==> #[trigger] after.habitats[k] == before.habitats[k]
        }
        &&& !PetStats::spec_valid(d) ==> after.habitats == before.habitats
        &&& after.total_collected == before.total_collected
        &&& after.rank == before.rank
        &&& after.honor == before.honor
        &&& after.max_pet_level == before.max_pet_level
        &&& after.opponent == before.opponent
        &&& after.next_free_exploration == before.next_free_exploration
        &&& after.atr_bonus == before.atr_bonus
    }

    /// Updates the pets from the pet values (at least 250 of them).
    pub fn update(&mut self, data: &[i64], server_time: ServerTime) -> (r: Result<(), SFError>)
        ensures
            data@.len() >= 250 <==> r is Ok,
            r matches Err(e) ==> short_error_in(e, "pet atr boni"@, 250, data@),
            r is Ok ==> Self::spec_updated(*old(self), *final(self), data@, server_time),
    {
        if data.len() < 250 {
            return Err(too_short(data, 250, "pet atr boni"));
        }
        let ghost old_habitats = self.habitats;
        let mut h: usize = 0;
        while h < 5
            invariant
                h <= 5,
                data@.len() >= 250,
                forall|k: int|
                    0 <= k < h ==> Self::habitat_updated(
                        data@,
                        k,
                        #[trigger] old_habitats[k],
                        self.habitats[k],
                    ),
                forall|k: int| h <= k < 5 ==> #[trigger] self.habitats[k] == old_habitats[k],
                self.opponent == old(self).opponent,
                self.max_pet_level == old(self).max_pet_level,
                self.next_free_exploration == old(self).next_free_exploration,
                self.atr_bonus == old(self).atr_bonus,
            decreases 5 - h,
        {
            let element = habitat_of_index(h);
            let mut hab = self.habitats[h];
            let ghost before = hab;
            let explored = soft_into_u32(data[210 + h], "pet exp", 20);
            hab.exploration = if explored == 20 {
                HabitatExploration::Finished
            } else {
                HabitatExploration::Exploring {
                    fights_won: explored,
                    next_fight_lvl: soft_into_u16(data[238 + h], "next exp pet lvl", 1_000),
                }
            };
            let mut p: usize = 0;
            while p < 20
                invariant
                    p <= 20,
                    h < 5,
                    data@.len() >= 250,
                    explored == soft_u32(data@[210 + h], 20),
                    element == habitat_at(h as int),
                    forall|q: int|
                        0 <= q < p ==> #[trigger] hab.pets[q] == Self::spec_pet(
                            data@,
                            h as int,
                            q,
                            before.pets[q].stats,
                        ),
                    forall|q: int| p <= q < 20 ==> #[trigger] hab.pets[q] == before.pets[q],
                    hab.exploration == Self::spec_exploration(data@, h as int),
                    hab.fruits == before.fruits,
                decreases 20 - p,
            {
                let id = 20 * h + p + 1;
                let level = soft_into_u16(data[id + 1], "pet level", 0);
                let old_pet = hab.pets[p];
                hab.pets[p] = Pet {
                    id: id as u32,
                    level,
                    fruits_today: soft_into_u16(data[id + 109], "pet fruits td", 0),
                    element,
                    stats: old_pet.stats,
                    can_be_found: level == 0 && explored as usize >= p,
                };
                p = p + 1;
            }
            hab.battled_opponent = data[223 + h] == 1;
            self.habitats[h] = hab;
            h = h + 1;
        }
        self.total_collected = soft_into_u16(data[103], "total pets", 0);
        self.opponent.id = soft_into_u32(data[231], "pet opponent id", 0);
        self.opponent.next_free_battle = server_time.convert_to_local(data[232], "next free pet fight");
        self.rank = soft_into_u32(data[233], "pet rank", 0);
        self.honor = soft_into_u32(data[234], "pet honor", 0);
        self.opponent.pet_count = soft_into_u32(data[235], "pet enemy count", 0);
        self.opponent.level_total = soft_into_u32(data[236], "pet enemy lvl total", 0);
        self.opponent.reroll_date = server_time.convert_to_local(data[237], "pet enemy reroll date");
        let bonus = skip(data, 250, "pet atr boni")?;
        let ghost before = self.atr_bonus;
        update_enum_map(&mut self.atr_bonus, bonus);
        assert(self.atr_bonus@ =~= spec_map_update(before, bonus@)@);
        assert(old_habitats == old(self).habitats);
        assert forall|k: int| 0 <= k < 5 implies Self::habitat_updated(
            data@,
            k,
            #[trigger] old(self).habitats[k],
            self.habitats[k],
        ) by {
            assert(old_habitats[k] == old(self).habitats[k]);
        }
        assert(self.total_collected == soft_u16(data@[103], 0));
        assert(self.opponent.habitat == old(self).opponent.habitat);
        assert(self.atr_bonus == spec_map_update(old(self).atr_bonus, data@.skip(250)));
        assert(self.max_pet_level == old(self).max_pet_level);
        assert(self.next_free_exploration == old(self).next_free_exploration);
        assert(self.opponent.reroll_date == server_time.spec_convert(data@[237]));
        Ok(())
    }
}


impl Pets {
    /// Stores the statistics of a pet, which the values describe, with that
    /// pet. Values that describe no pet change nothing.
    pub fn update_pet_stat(&mut self, data: &[i64])
        ensures
            Self::spec_stat_updated(*old(self), *final(self), data@),
    {
        match PetStats::parse(data) {
            Ok(ps) => {
                let h = ps.element.index();
                let p = ps.id % 20;
                let mut hab = self.habitats[h];
                let mut pet = hab.pets[p];
                pet.stats = Some(ps);
                hab.pets[p] = pet;
                self.habitats[h] = hab;
            },
            Err(_) => {},
        }
    }
}

/// The value that the server needs, for a character, to enchant items with
/// one enchantment. It is never 0.
#[derive(Debug, Clone, Copy, PartialEq, Eq, Structural)]
pub struct EnchantmentIdent(pub u8);

/// The witch, who enchants items.
#[derive(Debug, Clone, Copy)]
pub struct Witch {
    /// The item type the witch wants today
    pub required_item: Option<EquipmentSlot>,
    /// Whether or not the cauldron is bubbling
    pub cauldron_bubbling: bool,
    /// The enchant role collection progress from 0-100
    pub progress: u32,
    /// The price in silver to enchant an item
    pub enchantment_price: u64,
    /// Contains the ident to use when you want to apply the enchantment, by
    /// `Enchantment::index`. If this is `None`, the enchantment has not been
    /// unlocked yet
    pub enchantments: [Option<EnchantmentIdent>; 9],
}

impl Default for Witch {
    fn default() -> (r: Self)
        ensures
            r.required_item is None,
            !r.cauldron_bubbling,
            r.progress == 0,
            r.enchantment_price == 0,
            r.enchantments == [None::<EnchantmentIdent>, None, None, None, None, None, None, None, None],
    {
        Witch {
            required_item: None,
            cauldron_bubbling: false,
            progress: 0,
            enchantment_price: 0,
            enchantments: [None, None, None, None, None, None, None, None, None],
        }
    }
}

/// The collection progress in percent (0 to 100) for `current` of `target`
/// collected, rounded down and capped at 100; 100 where the values are not
/// positive.
pub open spec fn spec_progress(current: i32, target: i32) -> u32 {
    if current < 0 || target <= 0 {
        100
    } else if (100 * current as int) / (target as int) > 100 {
        100
    } else {
        ((100 * current as int) / (target as int)) as u32
    }
}

fn progress_of(current: i32, target: i32) -> (r: u32)
    ensures
        r == spec_progress(current, target),
        r <= 100,
{
    if current < 0 || target <= 0 {
        100
    } else {
        let p: i64 = (current as i64 * 100) / (target as i64);
        if p > 100 {
            100
        } else {
            p as u32
        }
    }
}

/// The enchantment idents after the first `n` enchantment values, starting
/// from `m`: the `i`-th value (at `9 + 3 * i`) gives the ident `i + 1` to its
/// enchantment; unknown values are skipped.
pub open spec fn spec_enchantments(m: Seq<Option<EnchantmentIdent>>, d: Seq<i64>, n: nat) -> Seq<
    Option<EnchantmentIdent>,
>
    decreases n,
{
    if n == 0 {
        m
    } else {
        let before = spec_enchantments(m, d, (n - 1) as nat);
        match Enchantment::spec_from_i64(d[9 + 3 * (n - 1)]) {
            Some(e) => before.update(e.spec_index(), Some(EnchantmentIdent(n as u8))),
            None => before,
        }
    }
}

impl Witch {
    /// The equipment slot the witch asks for, where the values name one.
    pub open spec fn spec_required_item(d: Seq<i64>) -> Option<EquipmentSlot> {
        if d[5] == 0 {
            match ItemType::spec_parse(d.skip(3)) {
                Some(t) => t.spec_equipment_slot(),
                None => None,
            }
        } else {
            None
        }
    }

    /// Holds where the witch values can be read.
    pub open spec fn spec_valid(d: Seq<i64>) -> bool {
        &&& d.len() > 7
        &&& (d[5] == 0 ==> d.len() - 3 >= ItemType::spec_parse_len(d.skip(3)))
        &&& (Self::spec_required_item(d) is Some ==> i32::MIN <= d[1] <= i32::MAX && i32::MIN
            <= d[2] <= i32::MAX)
        &&& 0 <= d[7] <= u8::MAX
        &&& (d[7] > 0 ==> d.len() > 9 + 3 * (d[7] - 1))
    }

    /// What reading the witch's values `d` does: the item wanted today, the
    /// cauldron, the collection progress and the enchantments; the price
    /// stays.
    pub open spec fn spec_read(self, d: Seq<i64>, after: Witch) -> bool {
        let req = Self::spec_required_item(d);
        &&& after.required_item == req
        &&& req is None ==> after.cauldron_bubbling && after.progress == self.progress
        &&& req is Some ==> after.cauldron_bubbling == self.cauldron_bubbling && after.progress
            == spec_progress(d[1] as i32, d[2] as i32)
        &&& after.enchantments@ == spec_enchantments(self.enchantments@, d, d[7] as nat)
        &&& after.enchantment_price == self.enchantment_price
    }

    /// Updates the witch from its values.
    pub fn update(&mut self, data: &[i64]) -> (r: Result<(), SFError>)
        ensures
            Self::spec_valid(data@) <==> r is Ok,
            r is Ok ==> old(self).spec_read(data@, *final(self)),
            final(self).enchantment_price == old(self).enchantment_price,
    {
        self.required_item = None;
        if cget(data, 5, "w current item")? == 0 {
            let item_data = skip(data, 3, "witch item")?;
            self.required_item = match ItemType::parse(item_data)? {
                Some(t) => t.equipment_slot(),
                None => None,
            };
        }
        if self.required_item.is_none() {
            self.cauldron_bubbling = true;
        } else {
            let current = ciget_i32(data, 1, "witch current")?;
            let target = ciget_i32(data, 2, "witch target")?;
            self.progress = progress_of(current, target);
        }
        let e_count = ciget_u8(data, 7, "enchant count")?;
        let ghost start = self.enchantments@;
        let mut i: u8 = 0;
        while i < e_count
            invariant
                i <= e_count,
                e_count == data@[7],
                data@.len() > 7,
                self.enchantments@ == spec_enchantments(start, data@, i as nat),
                self.required_item == Self::spec_required_item(data@),
                self.enchantment_price == old(self).enchantment_price,
                self.cauldron_bubbling == old(self).cauldron_bubbling || self.required_item is None,
                self.required_item is None ==> self.cauldron_bubbling && self.progress == old(self).progress,
                self.required_item is Some ==> self.cauldron_bubbling == old(self).cauldron_bubbling
                    && self.progress == spec_progress(data@[1] as i32, data@[2] as i32),
                i > 0 ==> data@.len() > 9 + 3 * (i - 1),
            decreases e_count - i,
        {
            let pos: usize = 9 + 3 * (i as usize);
            let raw = cget(data, pos, "iid")?;
            match Enchantment::from_i64(raw) {
                Some(key) => {
                    self.enchantments[key.index()] = Some(EnchantmentIdent(i + 1));
                },
                None => {},
            }
            i = i + 1;
            assert(self.enchantments@ =~= spec_enchantments(start, data@, i as nat));
        }
        Ok(())
    }
}

/// The blacksmith, who upgrades and dismantles items.
#[derive(Debug, Clone, Copy, PartialEq, Eq, Structural)]
pub struct Blacksmith {
    pub metal: u64,
    pub arcane: u64,
    pub dismantle_left: u8,
    /// This seems to keep track of when you last dismantled. No idea why
    pub last_dismantled: Option<i64>,
}

impl Default for Blacksmith {
    fn default() -> (r: Self)
        ensures
            r == (Blacksmith { metal: 0, arcane: 0, dismantle_left: 0, last_dismantled: None }),
    {
        Blacksmith { metal: 0, arcane: 0, dismantle_left: 0, last_dismantled: None }
    }
}


/// The element of a monster in the Hellevator.
#[derive(Debug, Clone, Copy, PartialEq, Eq, Structural, Hash)]
pub enum HellevatorMonsterElement {
    Fire,
    Cold,
    Lightning,
    Unknown,
}

impl HellevatorMonsterElement {
    /// The value with the number the server uses for it.
    pub open spec fn spec_from_i64(v: i64) -> Option<HellevatorMonsterElement> {
        match v {
            1 => Some(HellevatorMonsterElement::Fire),
            2 => Some(HellevatorMonsterElement::Cold),
            3 => Some(HellevatorMonsterElement::Lightning),
            240 => Some(HellevatorMonsterElement::Unknown),
            _ => None,
        }
    }

    /// The value with the number the server uses for it.
    pub fn from_i64(v: i64) -> (r: Option<HellevatorMonsterElement>)
        ensures
            r == Self::spec_from_i64(v),
    {
        match v {
            1 => Some(HellevatorMonsterElement::Fire),
            2 => Some(HellevatorMonsterElement::Cold),
            3 => Some(HellevatorMonsterElement::Lightning),
            240 => Some(HellevatorMonsterElement::Unknown),
            _ => None,
        }
    }

    /// The value with the number the server uses for it, or `Unknown`.
    pub open spec fn spec_or_default(v: i64) -> HellevatorMonsterElement {
        match Self::spec_from_i64(v) {
            Some(t) => t,
            None => HellevatorMonsterElement::Unknown,
        }
    }

    /// The value with the number the server uses for it, or `Unknown`.
    pub fn from_i64_or_default(v: i64) -> (r: HellevatorMonsterElement)
        ensures
            r == Self::spec_or_default(v),
    {
        match Self::from_i64(v) {
            Some(t) => t,
            None => HellevatorMonsterElement::Unknown,
        }
    }
}

impl Default for HellevatorMonsterElement {
    fn default() -> (r: Self)
        ensures
            r == HellevatorMonsterElement::Unknown,
    {
        HellevatorMonsterElement::Unknown
    }
}


/// The type of the bonus of a treat.
#[derive(Debug, Clone, Copy, PartialEq, Eq, Structural, Hash)]
pub enum HellevatorTreatBonusType {
    ExtraDamage,
    Unknown,
}

impl HellevatorTreatBonusType {
    /// The value with the number the server uses for it.
    pub open spec fn spec_from_i64(v: i64) -> Option<HellevatorTreatBonusType> {
        match v {
            14 => Some(HellevatorTreatBonusType::ExtraDamage),
            240 => Some(HellevatorTreatBonusType::Unknown),
            _ => None,
        }
    }

    /// The value with the number the server uses for it.
    pub fn from_i64(v: i64) -> (r: Option<HellevatorTreatBonusType>)
        ensures
            r == Self::spec_from_i64(v),
    {
        match v {
            14 => Some(HellevatorTreatBonusType::ExtraDamage),
            240 => Some(HellevatorTreatBonusType::Unknown),
            _ => None,
        }
    }

    /// The value with the number the server uses for it, or `Unknown`.
    pub open spec fn spec_or_default(v: i64) -> HellevatorTreatBonusType {
        match Self::spec_from_i64(v) {
            Some(t) => t,
            None => HellevatorTreatBonusType::Unknown,
        }
    }

    /// The value with the number the server uses for it, or `Unknown`.
    pub fn from_i64_or_default(v: i64) -> (r: HellevatorTreatBonusType)
        ensures
            r == Self::spec_or_default(v),
    {
        match Self::from_i64(v) {
            Some(t) => t,
            None => HellevatorTreatBonusType::Unknown,
        }
    }
}

impl Default for HellevatorTreatBonusType {
    fn default() -> (r: Self)
        ensures
            r == HellevatorTreatBonusType::Unknown,
    {
        HellevatorTreatBonusType::Unknown
    }
}


/// A treat of the Hellevator shop.
#[derive(Debug, Clone, Copy, PartialEq, Eq, Structural, Hash)]
pub enum HellevatorTreatType {
    ChocolateChilliPepper,
    PeppermintChocolate,
    Electroshock,
    ChillIceCream,
    CracklingChewingGum,
    PeppermintChewingGum,
    BeerBiscuit,
    GingerBreadHeart,
    FortuneCookie,
    CannedSpinach,
    StoneBiscuit,
    OrganicGranolaBar,
    ChocolateGoldCoin,
    Unknown,
}

impl HellevatorTreatType {
    /// The value with the number the server uses for it.
    pub open spec fn spec_from_i64(v: i64) -> Option<HellevatorTreatType> {
        match v {
            1 => Some(HellevatorTreatType::ChocolateChilliPepper),
            2 => Some(HellevatorTreatType::PeppermintChocolate),
            3 => Some(HellevatorTreatType::Electroshock),
            4 => Some(HellevatorTreatType::ChillIceCream),
            5 => Some(HellevatorTreatType::CracklingChewingGum),
            6 => Some(HellevatorTreatType::PeppermintChewingGum),
            7 => Some(HellevatorTreatType::BeerBiscuit),
            8 => Some(HellevatorTreatType::GingerBreadHeart),
            9 => Some(HellevatorTreatType::FortuneCookie),
            10 => Some(HellevatorTreatType::CannedSpinach),
            11 => Some(HellevatorTreatType::StoneBiscuit),
            12 => Some(HellevatorTreatType::OrganicGranolaBar),
            13 => Some(HellevatorTreatType::ChocolateGoldCoin),
            230 => Some(HellevatorTreatType::Unknown),
            _ => None,
        }
    }

    /// The value with the number the server uses for it.
    pub fn from_i64(v: i64) -> (r: Option<HellevatorTreatType>)
        ensures
            r == Self::spec_from_i64(v),
    {
        match v {
            1 => Some(HellevatorTreatType::ChocolateChilliPepper),
            2 => Some(HellevatorTreatType::PeppermintChocolate),
            3 => Some(HellevatorTreatType::Electroshock),
            4 => Some(HellevatorTreatType::ChillIceCream),
            5 => Some(HellevatorTreatType::CracklingChewingGum),
            6 => Some(HellevatorTreatType::PeppermintChewingGum),
            7 => Some(HellevatorTreatType::BeerBiscuit),
            8 => Some(HellevatorTreatType::GingerBreadHeart),
            9 => Some(HellevatorTreatType::FortuneCookie),
            10 => Some(HellevatorTreatType::CannedSpinach),
            11 => Some(HellevatorTreatType::StoneBiscuit),
            12 => Some(HellevatorTreatType::OrganicGranolaBar),
            13 => Some(HellevatorTreatType::ChocolateGoldCoin),
            230 => Some(HellevatorTreatType::Unknown),
            _ => None,
        }
    }

    /// The value with the number the server uses for it, or `Unknown`.
    pub open spec fn spec_or_default(v: i64) -> HellevatorTreatType {
        match Self::spec_from_i64(v) {
            Some(t) => t,
            None => HellevatorTreatType::Unknown,
        }
    }

    /// The value with the number the server uses for it, or `Unknown`.
    pub fn from_i64_or_default(v: i64) -> (r: HellevatorTreatType)
        ensures
            r == Self::spec_or_default(v),
    {
        match Self::from_i64(v) {
            Some(t) => t,
            None => HellevatorTreatType::Unknown,
        }
    }
}

impl Default for HellevatorTreatType {
    fn default() -> (r: Self)
        ensures
            r == HellevatorTreatType::Unknown,
    {
        HellevatorTreatType::Unknown
    }
}


/// The monster you fight in the Hellevator.
#[derive(Debug, Clone, Copy, PartialEq, Eq, Structural)]
pub struct HellevatorMonster {
    pub id: i64,
    pub level: u32,
    pub typ: HellevatorMonsterElement,
}

impl HellevatorMonster {
    /// The monster that (at least) 3 values describe.
    pub open spec fn spec_parse(d: Seq<i64>) -> HellevatorMonster {
        HellevatorMonster {
            id: d[0],
            level: soft_u32(d[1], 0),
            typ: HellevatorMonsterElement::spec_or_default(d[2]),
        }
    }

    /// Parses the monster that (at least) 3 values describe.
    pub fn parse(data: &[i64]) -> (r: Result<Self, SFError>)
        ensures
            data@.len() >= 3 <==> r is Ok,
            r is Ok ==> r == Ok::<HellevatorMonster, SFError>(Self::spec_parse(data@)),
    {
        Ok(HellevatorMonster {
            id: cget(data, 0, "h monster id")?,
            level: csiget_u32(data, 1, "h monster level", 0)?,
            typ: HellevatorMonsterElement::from_i64_or_default(cget(data, 2, "h monster typ")?),
        })
    }
}

/// The daily bonus of treats.
#[derive(Debug, Clone, Copy, PartialEq, Eq, Structural)]
pub struct HellevatorTreatBonus {
    pub typ: HellevatorTreatBonusType,
    pub amount: u32,
}

impl HellevatorTreatBonus {
    /// The bonus that (at least) 2 values describe.
    pub open spec fn spec_parse(d: Seq<i64>) -> HellevatorTreatBonus {
        HellevatorTreatBonus {
            typ: HellevatorTreatBonusType::spec_or_default(d[0]),
            amount: soft_u32(d[1], 0),
        }
    }

    /// Parses the bonus that (at least) 2 values describe.
    pub fn parse(data: &[i64]) -> (r: Result<Self, SFError>)
        ensures
            data@.len() >= 2 <==> r is Ok,
            r is Ok ==> r == Ok::<HellevatorTreatBonus, SFError>(Self::spec_parse(data@)),
    {
        Ok(HellevatorTreatBonus {
            typ: HellevatorTreatBonusType::from_i64_or_default(
                cget(data, 0, "hellevator treat bonus")?,
            ),
            amount: csiget_u32(data, 1, "hellevator treat bonus a", 0)?,
        })
    }
}

/// The type of a reward for defeating a Hellevator monster.
#[derive(Debug, Clone, Copy, PartialEq, Eq, Structural, Hash)]
pub enum HellevatorMonsterRewardTyp {
    Points,
    Tickets,
    Mushrooms,
    Silver,
    LuckyCoin,
    Wood,
    Stone,
    Arcane,
    Metal,
    Souls,
    Fruit(HabitatType),
    Unknown,
}

impl Default for HellevatorMonsterRewardTyp {
    fn default() -> (r: Self)
        ensures
            r == HellevatorMonsterRewardTyp::Unknown,
    {
        HellevatorMonsterRewardTyp::Unknown
    }
}

impl HellevatorMonsterRewardTyp {
    /// The reward type with the number the server uses for it.
    pub open spec fn spec_parse(v: i64) -> HellevatorMonsterRewardTyp {
        match v {
            1 => HellevatorMonsterRewardTyp::Points,
            2 => HellevatorMonsterRewardTyp::Tickets,
            3 => HellevatorMonsterRewardTyp::Mushrooms,
            4 => HellevatorMonsterRewardTyp::Silver,
            5 => HellevatorMonsterRewardTyp::LuckyCoin,
            6 => HellevatorMonsterRewardTyp::Wood,
            7 => HellevatorMonsterRewardTyp::Stone,
            8 => HellevatorMonsterRewardTyp::Arcane,
            9 => HellevatorMonsterRewardTyp::Metal,
            10 => HellevatorMonsterRewardTyp::Souls,
            11 => HellevatorMonsterRewardTyp::Fruit(HabitatType::Shadow),
            12 => HellevatorMonsterRewardTyp::Fruit(HabitatType::Light),
            13 => HellevatorMonsterRewardTyp::Fruit(HabitatType::Earth),
            14 => HellevatorMonsterRewardTyp::Fruit(HabitatType::Fire),
            15 => HellevatorMonsterRewardTyp::Fruit(HabitatType::Water),
            _ => HellevatorMonsterRewardTyp::Unknown,
        }
    }

    /// The reward type with the number the server uses for it.
    pub fn parse(v: i64) -> (r: HellevatorMonsterRewardTyp)
        ensures
            r == Self::spec_parse(v),
    {
        match v {
            1 => HellevatorMonsterRewardTyp::Points,
            2 => HellevatorMonsterRewardTyp::Tickets,
            3 => HellevatorMonsterRewardTyp::Mushrooms,
            4 => HellevatorMonsterRewardTyp::Silver,
            5 => HellevatorMonsterRewardTyp::LuckyCoin,
            6 => HellevatorMonsterRewardTyp::Wood,
            7 => HellevatorMonsterRewardTyp::Stone,
            8 => HellevatorMonsterRewardTyp::Arcane,
            9 => HellevatorMonsterRewardTyp::Metal,
            10 => HellevatorMonsterRewardTyp::Souls,
            11 => HellevatorMonsterRewardTyp::Fruit(HabitatType::Shadow),
            12 => HellevatorMonsterRewardTyp::Fruit(HabitatType::Light),
            13 => HellevatorMonsterRewardTyp::Fruit(HabitatType::Earth),
            14 => HellevatorMonsterRewardTyp::Fruit(HabitatType::Fire),
            15 => HellevatorMonsterRewardTyp::Fruit(HabitatType::Water),
            _ => HellevatorMonsterRewardTyp::Unknown,
        }
    }
}

/// A reward for defeating a Hellevator monster.
#[derive(Debug, Clone, Copy, PartialEq, Eq, Structural)]
pub struct HellevatorMonsterReward {
    pub typ: HellevatorMonsterRewardTyp,
    pub amount: u64,
}

/// A floor of the guild raid in the Hellevator.
#[derive(Debug, Clone)]
pub struct HellevatorRaidFloor {
    pub today: i64,
    pub yesterday: i64,
    pub point_reward: u32,
    pub silver_reward: u64,
    pub today_assigned: Vec<String>,
    pub yesterday_assigned: Vec<String>,
}

/// A treat of the Hellevator shop.
#[derive(Debug, Clone, Copy, PartialEq, Eq, Structural)]
pub struct HellevatorShopTreat {
    pub is_special: bool,
    pub typ: HellevatorTreatType,
    pub price: u32,
    pub duration: u32,
    pub effect_strength: u32,
}

impl Default for HellevatorShopTreat {
    fn default() -> (r: Self)
        ensures
            r == (HellevatorShopTreat {
                is_special: false,
                typ: HellevatorTreatType::Unknown,
                price: 0,
                duration: 0,
                effect_strength: 0,
            }),
    {
        HellevatorShopTreat {
            is_special: false,
            typ: HellevatorTreatType::Unknown,
            price: 0,
            duration: 0,
            effect_strength: 0,
        }
    }
}

/// The daily rewards of the Hellevator.
#[derive(Debug, Clone, Copy, PartialEq, Eq, Structural)]
pub struct HellevatorDailyReward {
    pub start_level: u16,
    pub end_level: u16,
    pub gold_chests: u16,
    pub silver: u64,
    pub fortress_chests: u16,
    pub wood: u64,
    pub stone: u64,
    pub blacksmith_chests: u16,
    pub arcane: u64,
    pub metal: u64,
}

impl HellevatorDailyReward {
    /// Holds where the daily reward can be claimed: it holds a chest.
    pub open spec fn spec_claimable(self) -> bool {
        self.gold_chests > 0 || self.fortress_chests > 0 || self.blacksmith_chests > 0
    }

    /// Returns `true` if the daily reward can be claimed.
    pub fn claimable(&self) -> (r: bool)
        ensures
            r == self.spec_claimable(),
    {
        self.gold_chests > 0 || self.fortress_chests > 0 || self.blacksmith_chests > 0
    }

    /// The daily reward that (at least) 10 values describe.
    pub open spec fn spec_parse(d: Seq<i64>) -> HellevatorDailyReward {
        HellevatorDailyReward {
            start_level: soft_u16(d[0], 0),
            end_level: soft_u16(d[1], 0),
            gold_chests: soft_u16(d[2], 0),
            silver: soft_u64(d[5], 0),
            fortress_chests: soft_u16(d[3], 0),
            wood: soft_u64(d[6], 0),
            stone: soft_u64(d[7], 0),
            blacksmith_chests: soft_u16(d[4], 0),
            arcane: soft_u64(d[8], 0),
            metal: soft_u64(d[9], 0),
        }
    }

    /// Parses the daily reward that 10 values describe; `None` where there
    /// are fewer.
    pub fn parse(data: &[i64]) -> (r: Option<HellevatorDailyReward>)
        ensures
            data@.len() < 10 ==> r is None,
            data@.len() >= 10 ==> r == Some(Self::spec_parse(data@)),
    {
        if data.len() < 10 {
            return None;
        }
        Some(HellevatorDailyReward {
            start_level: soft_into_u16(data[0], "start level", 0),
            end_level: soft_into_u16(data[1], "end level", 0),
            gold_chests: soft_into_u16(data[2], "gold chests", 0),
            silver: soft_into_u64(data[5], "silver reward", 0),
            fortress_chests: soft_into_u16(data[3], "ft chests", 0),
            wood: soft_into_u64(data[6], "wood reward", 0),
            stone: soft_into_u64(data[7], "stone reward", 0),
            blacksmith_chests: soft_into_u16(data[4], "bs chests", 0),
            arcane: soft_into_u64(data[8], "arcane reward", 0),
            metal: soft_into_u64(data[9], "metal reward", 0),
        })
    }
}

/// The Hellevator of a player.
#[derive(Debug, Clone)]
pub struct Hellevator {
    pub key_cards: u32,
    pub current_floor: u32,
    pub points: u32,
    pub has_final_reward: bool,
    pub guild_points_today: u32,
    pub guild_rank: u32,
    pub guild_raid_floors: Vec<HellevatorRaidFloor>,
    pub guild_raid_signup_start: i64,
    pub guild_raid_start: i64,
    pub monster_rewards: Vec<HellevatorMonsterReward>,
    pub own_best_floor: u32,
    pub shop_items: [HellevatorShopTreat; 3],
    pub current_treat: Option<HellevatorShopTreat>,
    pub next_card_generated: Option<i64>,
    pub next_reset: Option<i64>,
    pub start_contrib_date: Option<i64>,
    pub rewards_yesterday: Option<HellevatorDailyReward>,
    pub rewards_today: Option<HellevatorDailyReward>,
    pub rewards_next: Option<HellevatorDailyReward>,
    pub daily_treat_bonus: Option<HellevatorTreatBonus>,
    pub current_monster: Option<HellevatorMonster>,
    pub earned_today: u32,
    pub earned_yesterday: u32,
    /// The sizes of the reward brackets of the guild ranks, best first
    pub brackets: Vec<u32>,
}

impl Default for Hellevator {
    fn default() -> (r: Self)
        ensures
            r.key_cards == 0 && r.current_floor == 0 && r.points == 0,
            !r.has_final_reward,
            r.brackets@.len() == 0,
            r.guild_raid_floors@.len() == 0,
            r.monster_rewards@.len() == 0,
    {
        let t = HellevatorShopTreat::default();
        Hellevator {
            key_cards: 0,
            current_floor: 0,
            points: 0,
            has_final_reward: false,
            guild_points_today: 0,
            guild_rank: 0,
            guild_raid_floors: Vec::new(),
            guild_raid_signup_start: 0,
            guild_raid_start: 0,
            monster_rewards: Vec::new(),
            own_best_floor: 0,
            shop_items: [t, t, t],
            current_treat: None,
            next_card_generated: None,
            next_reset: None,
            start_contrib_date: None,
            rewards_yesterday: None,
            rewards_today: None,
            rewards_next: None,
            daily_treat_bonus: None,
            current_monster: None,
            earned_today: 0,
            earned_yesterday: 0,
            brackets: Vec::new(),
        }
    }
}

/// The sum of the first `n` bracket sizes.
pub open spec fn bracket_sum(b: Seq<u32>, n: int) -> int
    decreases n,
{
    if n <= 0 {
        0
    } else {
        bracket_sum(b, n - 1) + b[n - 1]
    }
}

/// The reward bracket (counted from 1) that a rank falls in, searching from
/// bracket `i + 1` on: the first one whose cumulative size reaches the rank.
pub open spec fn rewards_rank_from(b: Seq<u32>, rank: int, i: int) -> Option<u32>
    decreases b.len() - i,
{
    if i < 0 || i >= b.len() {
        None
    } else if rank <= bracket_sum(b, i + 1) {
        Some((i + 1) as u32)
    } else {
        rewards_rank_from(b, rank, i + 1)
    }
}

/// The reward bracket (counted from 1) that a rank falls in: the first one
/// whose cumulative size reaches the rank.
pub open spec fn spec_rewards_rank(b: Seq<u32>, rank: int) -> Option<u32> {
    rewards_rank_from(b, rank, 0)
}

proof fn lemma_bracket_sum_bound(b: Seq<u32>, n: int)
    requires
        0 <= n <= b.len(),
    ensures
        0 <= bracket_sum(b, n) <= n * 4294967295,
    decreases n,
{
    if n > 0 {
        lemma_bracket_sum_bound(b, n - 1);
    }
}

proof fn lemma_bracket_sum_mono(b: Seq<u32>, m: int, n: int)
    requires
        0 <= m <= n <= b.len(),
    ensures
        bracket_sum(b, m) <= bracket_sum(b, n),
    decreases n - m,
{
    if m < n {
        lemma_bracket_sum_mono(b, m, n - 1);
    }
}

/// The shop treat at `8 + pos` of the Hellevator values.
pub open spec fn spec_shop_treat(d: Seq<i64>, pos: int) -> HellevatorShopTreat {
    HellevatorShopTreat {
        typ: HellevatorTreatType::spec_or_default(d[8 + pos]),
        is_special: d[8 + pos + 3] > 0,
        price: soft_u32(d[8 + pos + 6], u32::MAX),
        duration: soft_u32(d[8 + pos + 9], 0),
        effect_strength: soft_u32(d[8 + pos + 12], 0),
    }
}

impl Hellevator {
    /// Converts the rank of a guild in the Hellevator into the reward
    /// bracket, that they would be in (1 to 25). If the rank would gain no
    /// rewards, none is returned here.
    pub fn rank_to_rewards_rank(&self, rank: u32) -> (r: Option<u32>)
        requires
            self.brackets@.len() <= u32::MAX,
        ensures
            r == spec_rewards_rank(self.brackets@, rank as int),
    {
        let b = &self.brackets;
        let len = b.len();
        let mut rank_limit: u128 = 0;
        let mut i: usize = 0;
        while i < len
            invariant
                i <= len,
                len == b@.len(),
                b@ == self.brackets@,
                len <= u32::MAX,
                rank_limit == bracket_sum(b@, i as int),
                spec_rewards_rank(b@, rank as int) == rewards_rank_from(b@, rank as int, i as int),
            decreases len - i,
        {
            proof {
                lemma_bracket_sum_bound(b@, i as int);
                assert(i * 4294967295 <= 4294967295 * 4294967295) by (nonlinear_arith)
                    requires
                        i <= 4294967295,
                ;
            }
            rank_limit = rank_limit + b[i] as u128;
            i = i + 1;
            if (rank as u128) <= rank_limit {
                return Some(i as u32);
            }
        }
        None
    }

    /// Updates the Hellevator from its (at least 30) values.
    pub fn update(&mut self, data: &[i64], server_time: ServerTime) -> (r: Result<(), SFError>)
        ensures
            data@.len() >= 30 <==> r is Ok,
            r matches Err(e) ==> short_error_in(e, "points earned yd"@, 29, data@),
            r is Ok ==> {
                &&& final(self).key_cards == soft_u32(data@[0], 0)
                &&& final(self).next_card_generated == server_time.spec_convert(data@[1])
                &&& final(self).next_reset == server_time.spec_convert(data@[2])
                &&& final(self).current_floor == soft_u32(data@[3], 0)
                &&& final(self).points == soft_u32(data@[4], 0)
                &&& final(self).start_contrib_date == server_time.spec_convert(data@[5])
                &&& final(self).has_final_reward == (data@[6] == 1)
                &&& final(self).own_best_floor == soft_u32(data@[7], 0)
                &&& final(self).shop_items == [
                    spec_shop_treat(data@, 0),
                    spec_shop_treat(data@, 1),
                    spec_shop_treat(data@, 2),
                ]
                &&& final(self).current_treat == if data@[23] > 0 {
                    Some(
                        HellevatorShopTreat {
                            typ: HellevatorTreatType::spec_or_default(data@[23]),
                            is_special: data@[24] > 0,
                            price: 0,
                            duration: soft_u32(data@[25], 0),
                            effect_strength: soft_u32(data@[26], 0),
                        },
                    )
                } else {
                    None
                }
                &&& final(self).earned_today == soft_u32(data@[27], 0)
                &&& final(self).earned_yesterday == soft_u32(data@[29], 0)
            },
            final(self).guild_points_today == old(self).guild_points_today,
            final(self).guild_rank == old(self).guild_rank,
            final(self).brackets == old(self).brackets,
            final(self).rewards_today == old(self).rewards_today,
            final(self).current_monster == old(self).current_monster,
    {
        if data.len() < 30 {
            return Err(too_short(data, 29, "points earned yd"));
        }
        self.key_cards = soft_into_u32(data[0], "h key cards", 0);
        self.next_card_generated = server_time.convert_to_local(data[1], "next card");
        self.next_reset = server_time.convert_to_local(data[2], "h next reset");
        self.current_floor = soft_into_u32(data[3], "h current floor", 0);
        self.points = soft_into_u32(data[4], "h points", 0);
        self.start_contrib_date = server_time.convert_to_local(data[5], "start contrib");
        self.has_final_reward = data[6] == 1;
        self.own_best_floor = soft_into_u32(data[7], "hellevator best rank", 0);
        let mut shop_items = self.shop_items;
        let mut pos: usize = 0;
        while pos < 3
            invariant
                pos <= 3,
                data@.len() >= 30,
                forall|k: int| 0 <= k < pos ==> #[trigger] shop_items[k] == spec_shop_treat(data@, k),
            decreases 3 - pos,
        {
            let start = skip(data, 8 + pos, "shop item start")?;
            shop_items[pos] = HellevatorShopTreat {
                typ: HellevatorTreatType::from_i64_or_default(start[0]),
                is_special: start[3] > 0,
                price: soft_into_u32(start[6], "hellevator shop price", 4294967295),
                duration: soft_into_u32(start[9], "hellevator shop duration", 0),
                effect_strength: soft_into_u32(start[12], "hellevator effect str", 0),
            };
            pos = pos + 1;
        }
        self.shop_items = shop_items;
        let c_typ = data[23];
        self.current_treat = if c_typ > 0 {
            Some(
                HellevatorShopTreat {
                    typ: HellevatorTreatType::from_i64_or_default(c_typ),
                    is_special: data[24] > 0,
                    price: 0,
                    duration: soft_into_u32(data[25], "current item remaining", 0),
                    effect_strength: soft_into_u32(data[26], "current item effect", 0),
                },
            )
        } else {
            None
        };
        self.earned_today = soft_into_u32(data[27], "points earned today", 0);
        self.earned_yesterday = soft_into_u32(data[29], "points earned yd", 0);
        assert(self.shop_items@ =~= seq![
            spec_shop_treat(data@, 0),
            spec_shop_treat(data@, 1),
            spec_shop_treat(data@, 2),
        ]);
        Ok(())
    }
}

/// Information about the Hellevator event on the server. If it is active,
/// you can get more detailed info via `status()`.
#[derive(Debug, Clone)]
pub struct HellevatorEvent {
    /// The time the hellevator event was enabled at
    pub start: Option<i64>,
    /// The time the hellevator event will be disabled at
    pub end: Option<i64>,
    /// The time at which you will no longer be able to collect things for
    /// the hellevator
    pub collect_time_end: Option<i64>,
    /// Contains the hellevator. This can be some(x), even if the event is
    /// not going, so you should use the `status()` functions to get this
    pub active: Option<Hellevator>,
}

impl Default for HellevatorEvent {
    fn default() -> (r: Self)
        ensures
            r.start is None && r.end is None && r.collect_time_end is None && r.active is None,
    {
        HellevatorEvent { start: None, end: None, collect_time_end: None, active: None }
    }
}

/// The state of the Hellevator event.
#[derive(Debug)]
pub enum HellevatorStatus<'a> {
    /// The event is ongoing, but you have to send a `HellevatorEnter`
    /// command to start using it
    NotEntered,
    /// The event is currently not available
    NotAvailable,
    /// The event has ended, but you can still claim the final reward
    RewardClaimable,
    /// A reference to the Hellevator
    Active(&'a Hellevator),
}

impl HellevatorEvent {
    /// Holds where the event had started and not yet ended at `now`.
    pub open spec fn spec_ongoing_at(self, now: i64) -> bool {
        self.start matches Some(s) && self.end matches Some(e) && e > now && s < now
    }

    /// Checks if the event had started and not yet ended at the point in
    /// time `now`.
    pub fn is_event_ongoing_at(&self, now: i64) -> (r: bool)
        ensures
            r == self.spec_ongoing_at(now),
    {
        match (self.start, self.end) {
            (Some(start), Some(end)) => end > now && start < now,
            _ => false,
        }
    }

    /// Checks if the event has started and not yet ended compared to the
    /// current time.
    pub fn is_event_ongoing(&self) -> (r: bool)
        ensures
            r ==> self.start is Some && self.end is Some && self.start->0 < self.end->0,
    {
        self.is_event_ongoing_at(local_now())
    }

    /// The state of the event at the point in time `now`.
    pub fn status_at(&self, now: i64) -> (r: HellevatorStatus)
        ensures
            match self.active {
                None => r is NotAvailable,
                Some(h) => if !self.spec_ongoing_at(now) {
                    if self.collect_time_end matches Some(cend) && !h.has_final_reward && now
                        < cend {
                        r is RewardClaimable
                    } else {
                        r is NotAvailable
                    }
                } else if h.current_floor == 0 {
                    r is NotEntered
                } else {
                    r == HellevatorStatus::Active(&h)
                },
            },
    {
        match &self.active {
            None => HellevatorStatus::NotAvailable,
            Some(h) => {
                if !self.is_event_ongoing_at(now) {
                    match self.collect_time_end {
                        Some(cend) => {
                            if !h.has_final_reward && now < cend {
                                return HellevatorStatus::RewardClaimable;
                            }
                        },
                        None => {},
                    }
                    HellevatorStatus::NotAvailable
                } else if h.current_floor == 0 {
                    HellevatorStatus::NotEntered
                } else {
                    HellevatorStatus::Active(h)
                }
            },
        }
    }

    /// If the Hellevator event is active, this returns a reference to the
    /// information about it. Note that you still need to check the level >=
    /// 10 requirement yourself.
    pub fn status(&self) -> (r: HellevatorStatus)
        ensures
            self.active is None ==> r is NotAvailable,
            r matches HellevatorStatus::Active(h) ==> self.active == Some(*h) && h.current_floor
                != 0,
    {
        self.status_at(local_now())
    }
}

} // verus!

verus! {

impl Default for Achievements {
    fn default() -> (r: Self)
        ensures
            r.0@.len() == 0,
    {
        Achievements(Vec::new())
    }
}

} // verus!

verus! {

/// A bracket found from `i` on is past `i`.
proof fn lemma_rewards_rank_from_bound(b: Seq<u32>, rank: int, i: int)
    requires
        rewards_rank_from(b, rank, i) is Some,
        b.len() <= u32::MAX,
    ensures
        rewards_rank_from(b, rank, i)->0 >= i + 1,
    decreases b.len() - i,
{
    if 0 <= i < b.len() && !(rank <= bracket_sum(b, i + 1)) {
        lemma_rewards_rank_from_bound(b, rank, i + 1);
    }
}

proof fn lemma_rewards_rank_from_monotonic(b: Seq<u32>, r1: int, r2: int, i: int)
    requires
        r1 <= r2,
        rewards_rank_from(b, r2, i) is Some,
        b.len() <= u32::MAX,
    ensures
        rewards_rank_from(b, r1, i) is Some,
        rewards_rank_from(b, r1, i)->0 <= rewards_rank_from(b, r2, i)->0,
    decreases b.len() - i,
{
    if !(r2 <= bracket_sum(b, i + 1)) {
        lemma_rewards_rank_from_bound(b, r2, i + 1);
        if !(r1 <= bracket_sum(b, i + 1)) {
            lemma_rewards_rank_from_monotonic(b, r1, r2, i + 1);
        }
    }
}

/// A better (smaller) hellevator rank never falls in a worse reward
/// bracket: where a rank gets a reward, every better rank gets one too, in
/// the same or a better bracket.
pub proof fn lemma_rewards_rank_monotonic(b: Seq<u32>, r1: int, r2: int)
    requires
        r1 <= r2,
        spec_rewards_rank(b, r2) is Some,
        b.len() <= u32::MAX,
    ensures
        spec_rewards_rank(b, r1) is Some,
        spec_rewards_rank(b, r1)->0 <= spec_rewards_rank(b, r2)->0,
{
    lemma_rewards_rank_from_monotonic(b, r1, r2, 0);
}

} // verus!

verus! {

impl From<HabitatType> for AttributeType {
    fn from(value: HabitatType) -> (r: AttributeType) {
        value.attribute()
    }
}

impl vstd::std_specs::convert::FromSpecImpl<HabitatType> for AttributeType {
    open spec fn obeys_from_spec() -> bool {
        true
    }

    open spec fn from_spec(value: HabitatType) -> AttributeType {
        match value {
            HabitatType::Water => AttributeType::Strength,
            HabitatType::Light => AttributeType::Dexterity,
            HabitatType::Earth => AttributeType::Intelligence,
            HabitatType::Shadow => AttributeType::Constitution,
            HabitatType::Fire => AttributeType::Luck,
        }
    }
}

} // verus!
