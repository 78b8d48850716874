use vstd::prelude::*;

use crate::error::{SFError, short_err, parse_err};
use vstd::string::StringSliceAdditionalSpecFns;

verus! {

// ---------------------------------------------------------------------------
// Rust's integer division, which rounds toward zero
// ---------------------------------------------------------------------------

/// The quotient of Rust's `/` for a positive divisor: rounded toward zero.
pub open spec fn tdiv(a: int, b: int) -> int {
    if a >= 0 { a / b } else { -((-a) / b) }
}

/// The remainder of Rust's `%` for a positive divisor: it has the sign of `a`.
pub open spec fn trem(a: int, b: int) -> int {
    if a >= 0 { a % b } else { -((-a) % b) }
}

// ---------------------------------------------------------------------------
// Soft conversions: out of range values fall back to a default
// ---------------------------------------------------------------------------

/// `v` converted to a `u8`, or `d` where it does not fit.
pub open spec fn soft_u8(v: i64, d: u8) -> u8 {
    if 0 <= v <= u8::MAX { v as u8 } else { d }
}

/// `v` converted to a `u16`, or `d` where it does not fit.
pub open spec fn soft_u16(v: i64, d: u16) -> u16 {
    if 0 <= v <= u16::MAX { v as u16 } else { d }
}

/// `v` converted to a `u32`, or `d` where it does not fit.
pub open spec fn soft_u32(v: i64, d: u32) -> u32 {
    if 0 <= v <= u32::MAX { v as u32 } else { d }
}

/// `v` converted to a `u64`, or `d` where it does not fit.
pub open spec fn soft_u64(v: i64, d: u64) -> u64 {
    if 0 <= v { v as u64 } else { d }
}

/// `v` converted to an `i32`, or `d` where it does not fit.
pub open spec fn soft_i32(v: i64, d: i32) -> i32 {
    if i32::MIN <= v <= i32::MAX { v as i32 } else { d }
}

/// `v` converted to a `usize`, or `d` where it does not fit.
pub open spec fn soft_usize(v: i64, d: usize) -> usize {
    if 0 <= v <= usize::MAX { v as usize } else { d }
}

/// Converts a raw value into a `u8`. Where that is not possible, the default
/// is returned.
pub fn soft_into_u8(val: i64, name: &str, default: u8) -> (r: u8)
    ensures
        r == soft_u8(val, default),
{
    if 0 <= val && val <= 255 {
        val as u8
    } else {
        default
    }
}

/// Converts a raw value into a `u16`. Where that is not possible, the default
/// is returned.
pub fn soft_into_u16(val: i64, name: &str, default: u16) -> (r: u16)
    ensures
        r == soft_u16(val, default),
{
    if 0 <= val && val <= 65535 {
        val as u16
    } else {
        default
    }
}

/// Converts a raw value into a `u32`. Where that is not possible, the default
/// is returned.
pub fn soft_into_u32(val: i64, name: &str, default: u32) -> (r: u32)
    ensures
        r == soft_u32(val, default),
{
    if 0 <= val && val <= 4294967295 {
        val as u32
    } else {
        default
    }
}

/// Converts a raw value into a `u64`. Where that is not possible, the default
/// is returned.
pub fn soft_into_u64(val: i64, name: &str, default: u64) -> (r: u64)
    ensures
        r == soft_u64(val, default),
{
    if 0 <= val {
        val as u64
    } else {
        default
    }
}

/// Converts a raw value into an `i32`. Where that is not possible, the
/// default is returned.
pub fn soft_into_i32(val: i64, name: &str, default: i32) -> (r: i32)
    ensures
        r == soft_i32(val, default),
{
    if -2147483648 <= val && val <= 2147483647 {
        val as i32
    } else {
        default
    }
}

/// Converts a raw value into a `usize`. Where that is not possible, the
/// default is returned.
pub fn soft_into_usize(val: i64, name: &str, default: usize) -> (r: usize)
    ensures
        r == soft_usize(val, default),
{
    if 0 <= val && (val as u64) <= (usize::MAX as u64) {
        val as usize
    } else {
        default
    }
}

/// Tries to convert a raw value into a `u32`: `None` where it does not fit.
pub fn warning_try_into_u32(val: i64, name: &str) -> (r: Option<u32>)
    ensures
        r == (if 0 <= val <= u32::MAX { Some(val as u32) } else { None::<u32> }),
{
    if 0 <= val && val <= 4294967295 {
        Some(val as u32)
    } else {
        None
    }
}

/// Tries to convert a raw value into a `u8`: `None` where it does not fit.
pub fn warning_try_into_u8(val: i64, name: &str) -> (r: Option<u8>)
    ensures
        r == (if 0 <= val <= u8::MAX { Some(val as u8) } else { None::<u8> }),
{
    if 0 <= val && val <= 255 {
        Some(val as u8)
    } else {
        None
    }
}

// ---------------------------------------------------------------------------
// Checked access into response arrays
// ---------------------------------------------------------------------------

/// The text that std's `Debug` formatting gives for a list of integers.
pub uninterp spec fn debug_list_text(data: Seq<i64>) -> Seq<char>;

/// Formats a list of integers with std's `Debug` formatting
/// (`format!("{:?}", ..)`). The contract only names the result.
#[verifier::external_body]
pub(crate) fn debug_list(data: &[i64]) -> (s: String)
    ensures
        s@ == debug_list_text(data@),
{
    format!("{data:?}")
}

/// The error for an access at `pos` into a response array that is too short.
pub fn too_short(data: &[i64], pos: usize, name: &'static str) -> (e: SFError)
    ensures
        e.is_too_short(name, pos as int),
        (e matches SFError::TooShortResponse { array, .. } && array@ == debug_list_text(data@)),
{
    SFError::TooShortResponse { name, pos, array: debug_list(data) }
}

/// Reads the value at `pos`, or reports that the array is too short.
pub fn raw_cget(val: &[i64], pos: usize, name: &'static str) -> (r: Result<i64, SFError>)
    ensures
        pos < val@.len() ==> r == Ok::<i64, SFError>(val@[pos as int]),
        pos >= val@.len() ==> short_err(r, name, pos as int),
        pos >= val@.len() ==> (r matches Err(SFError::TooShortResponse { array, .. })
            && array@ == debug_list_text(val@)),
{
    if pos < val.len() {
        Ok(val[pos])
    } else {
        Err(too_short(val, pos, name))
    }
}

/// Reads the value at `pos`, or reports that the array is too short.
pub fn cget(val: &[i64], pos: usize, name: &'static str) -> (r: Result<i64, SFError>)
    ensures
        pos < val@.len() ==> r == Ok::<i64, SFError>(val@[pos as int]),
        pos >= val@.len() ==> short_err(r, name, pos as int),
        pos >= val@.len() ==> (r matches Err(SFError::TooShortResponse { array, .. })
            && array@ == debug_list_text(val@)),
{
    raw_cget(val, pos, name)
}

/// The array without its first `pos` values, or an error where it is shorter
/// than `pos`.
pub fn skip<'a>(data: &'a [i64], pos: usize, name: &'static str) -> (r: Result<&'a [i64], SFError>)
    ensures
        pos <= data@.len() ==> (r matches Ok(s) && s@ == data@.skip(pos as int)),
        pos > data@.len() ==> short_err(r, name, pos as int),
        pos > data@.len() ==> (r matches Err(SFError::TooShortResponse { array, .. })
            && array@ == debug_list_text(data@)),
{
    if pos > data.len() {
        return Err(too_short(data, pos, name));
    }
    let (_, rest) = data.split_at(pos);
    assert(rest@ =~= data@.skip(pos as int));
    Ok(rest)
}

/// Reads the value at `pos` as a `u8`, falling back to `def` where it does not
/// fit.
pub fn csiget_u8(data: &[i64], pos: usize, name: &'static str, def: u8) -> (r: Result<u8, SFError>)
    ensures
        pos < data@.len() ==> r == Ok::<u8, SFError>(soft_u8(data@[pos as int], def)),
        pos >= data@.len() ==> short_err(r, name, pos as int),
        pos >= data@.len() ==> (r matches Err(SFError::TooShortResponse { array, .. })
            && array@ == debug_list_text(data@)),
{
    let raw = raw_cget(data, pos, name)?;
    Ok(soft_into_u8(raw, name, def))
}

/// Reads the value at `pos` as a `u16`, falling back to `def` where it does
/// not fit.
pub fn csiget_u16(data: &[i64], pos: usize, name: &'static str, def: u16) -> (r: Result<u16, SFError>)
    ensures
        pos < data@.len() ==> r == Ok::<u16, SFError>(soft_u16(data@[pos as int], def)),
        pos >= data@.len() ==> short_err(r, name, pos as int),
        pos >= data@.len() ==> (r matches Err(SFError::TooShortResponse { array, .. })
            && array@ == debug_list_text(data@)),
{
    let raw = raw_cget(data, pos, name)?;
    Ok(soft_into_u16(raw, name, def))
}

/// Reads the value at `pos` as a `u32`, falling back to `def` where it does
/// not fit.
pub fn csiget_u32(data: &[i64], pos: usize, name: &'static str, def: u32) -> (r: Result<u32, SFError>)
    ensures
        pos < data@.len() ==> r == Ok::<u32, SFError>(soft_u32(data@[pos as int], def)),
        pos >= data@.len() ==> short_err(r, name, pos as int),
        pos >= data@.len() ==> (r matches Err(SFError::TooShortResponse { array, .. })
            && array@ == debug_list_text(data@)),
{
    let raw = raw_cget(data, pos, name)?;
    Ok(soft_into_u32(raw, name, def))
}

/// Reads the value at `pos` as a `u64`, falling back to `def` where it does
/// not fit.
pub fn csiget_u64(data: &[i64], pos: usize, name: &'static str, def: u64) -> (r: Result<u64, SFError>)
    ensures
        pos < data@.len() ==> r == Ok::<u64, SFError>(soft_u64(data@[pos as int], def)),
        pos >= data@.len() ==> short_err(r, name, pos as int),
        pos >= data@.len() ==> (r matches Err(SFError::TooShortResponse { array, .. })
            && array@ == debug_list_text(data@)),
{
    let raw = raw_cget(data, pos, name)?;
    Ok(soft_into_u64(raw, name, def))
}

/// Reads the value at `pos` as an `i32`, falling back to `def` where it does
/// not fit.
pub fn csiget_i32(data: &[i64], pos: usize, name: &'static str, def: i32) -> (r: Result<i32, SFError>)
    ensures
        pos < data@.len() ==> r == Ok::<i32, SFError>(soft_i32(data@[pos as int], def)),
        pos >= data@.len() ==> short_err(r, name, pos as int),
        pos >= data@.len() ==> (r matches Err(SFError::TooShortResponse { array, .. })
            && array@ == debug_list_text(data@)),
{
    let raw = raw_cget(data, pos, name)?;
    Ok(soft_into_i32(raw, name, def))
}

/// Reads the value at `pos` as a `usize`, falling back to `def` where it does
/// not fit.
pub fn csiget_usize(data: &[i64], pos: usize, name: &'static str, def: usize) -> (r: Result<usize, SFError>)
    ensures
        pos < data@.len() ==> r == Ok::<usize, SFError>(soft_usize(data@[pos as int], def)),
        pos >= data@.len() ==> short_err(r, name, pos as int),
        pos >= data@.len() ==> (r matches Err(SFError::TooShortResponse { array, .. })
            && array@ == debug_list_text(data@)),
{
    let raw = raw_cget(data, pos, name)?;
    Ok(soft_into_usize(raw, name, def))
}

/// The error for a value that does not fit the type it is read as.
pub fn bad_value(name: &'static str, raw: i64) -> (e: SFError)
    ensures
        e.is_parsing(name),
        e matches SFError::ParsingError(_, s) && s@ == signed_decimal_text(raw as int),
{
    SFError::ParsingError(name, i64_to_string(raw))
}

/// Reads the value at `pos` as a `u8`; a value that does not fit is an
/// error.
pub fn ciget_u8(data: &[i64], pos: usize, name: &'static str) -> (r: Result<u8, SFError>)
    ensures
        pos < data@.len() && 0 <= data@[pos as int] <= u8::MAX ==> r == Ok::<u8, SFError>(
            data@[pos as int] as u8,
        ),
        pos < data@.len() && !(0 <= data@[pos as int] <= u8::MAX) ==> parse_err(r, name),
        pos >= data@.len() ==> short_err(r, name, pos as int),
{
    let raw = raw_cget(data, pos, name)?;
    if 0 <= raw && raw <= 255 {
        Ok(raw as u8)
    } else {
        Err(bad_value(name, raw))
    }
}

/// Reads the value at `pos` as an `i32`; a value that does not fit is an
/// error.
pub fn ciget_i32(data: &[i64], pos: usize, name: &'static str) -> (r: Result<i32, SFError>)
    ensures
        pos < data@.len() && i32::MIN <= data@[pos as int] <= i32::MAX ==> r == Ok::<
            i32,
            SFError,
        >(data@[pos as int] as i32),
        pos < data@.len() && !(i32::MIN <= data@[pos as int] <= i32::MAX) ==> parse_err(r, name),
        pos >= data@.len() ==> short_err(r, name, pos as int),
{
    let raw = raw_cget(data, pos, name)?;
    if -2147483648 <= raw && raw <= 2147483647 {
        Ok(raw as i32)
    } else {
        Err(bad_value(name, raw))
    }
}

/// Reads the value at `pos` as a `u32`; a value that does not fit is an
/// error.
pub fn ciget_u32(data: &[i64], pos: usize, name: &'static str) -> (r: Result<u32, SFError>)
    ensures
        pos < data@.len() && 0 <= data@[pos as int] <= u32::MAX ==> r == Ok::<u32, SFError>(
            data@[pos as int] as u32,
        ),
        pos < data@.len() && !(0 <= data@[pos as int] <= u32::MAX) ==> parse_err(r, name),
        pos >= data@.len() ==> short_err(r, name, pos as int),
{
    let raw = raw_cget(data, pos, name)?;
    if 0 <= raw && raw <= 4294967295 {
        Ok(raw as u32)
    } else {
        Err(bad_value(name, raw))
    }
}

} // verus!

verus! {

// ---------------------------------------------------------------------------
// Characters and strings
// ---------------------------------------------------------------------------

/// Appends a character to a string (std's `String::push`).
#[verifier::external_body]
pub(crate) fn push_char(s: &mut String, c: char)
    ensures
        final(s)@ == old(s)@.push(c),
{
    s.push(c)
}

/// The characters of a string, in order.
pub fn chars_of(s: &str) -> (v: Vec<char>)
    ensures
        v@ == s@,
{
    let mut v: Vec<char> = Vec::new();
    proof {
        broadcast use vstd::string::axiom_spec_iter;
    }
    for c in it: s.chars()
        invariant
            it.seq() == s@,
            v@ == it.seq().take(it.index() as int),
    {
        proof {
            assert(it.seq().take(it.index() + 1) =~= it.seq().take(it.index() as int).push(c));
        }
        v.push(c);
    }
    assert(s@.take(s@.len() as int) =~= s@);
    v
}

/// The string made of the given characters.
pub fn string_of(cs: &[char]) -> (s: String)
    ensures
        s@ == cs@,
{
    let mut s = String::new();
    let mut i: usize = 0;
    while i < cs.len()
        invariant
            i <= cs@.len(),
            s@ == cs@.take(i as int),
        decreases cs@.len() - i,
    {
        push_char(&mut s, cs[i]);
        assert(cs@.take(i + 1) =~= cs@.take(i as int).push(cs@[i as int]));
        i = i + 1;
    }
    assert(cs@.take(cs@.len() as int) =~= cs@);
    s
}

/// Holds of a decimal digit.
pub open spec fn is_digit(c: char) -> bool {
    '0' <= c <= '9'
}

/// Holds of a non-empty sequence of decimal digits.
pub open spec fn all_digits(s: Seq<char>) -> bool {
    s.len() > 0 && forall|i: int| 0 <= i < s.len() ==> #[trigger] is_digit(s[i])
}

/// The value of a sequence of decimal digits.
pub open spec fn digits_value(s: Seq<char>) -> int
    decreases s.len(),
{
    if s.len() == 0 {
        0
    } else {
        digits_value(s.drop_last()) * 10 + ((s.last() as int) - ('0' as int))
    }
}

/// The integer that a text writes in decimal, as std's `FromStr` for the
/// integer types reads it: an optional sign, then at least one digit.
pub open spec fn decimal_value(s: Seq<char>) -> Option<int> {
    if s.len() > 0 && s[0] == '-' && all_digits(s.skip(1)) {
        Some(-digits_value(s.skip(1)))
    } else if s.len() > 0 && s[0] == '+' && all_digits(s.skip(1)) {
        Some(digits_value(s.skip(1)))
    } else if all_digits(s) {
        Some(digits_value(s))
    } else {
        None
    }
}

/// The `i64` that a text writes in decimal, if it writes one that fits.
pub open spec fn decimal_i64(s: Seq<char>) -> Option<i64> {
    match decimal_value(s) {
        Some(v) => if i64::MIN <= v <= i64::MAX { Some(v as i64) } else { None },
        None => None,
    }
}

/// The value of digits is never negative.
proof fn lemma_digits_nonneg(s: Seq<char>, n: int)
    requires
        0 <= n <= s.len(),
        forall|k: int| 0 <= k < s.len() ==> #[trigger] is_digit(s[k]),
    ensures
        0 <= digits_value(s.take(n)),
    decreases n,
{
    if n > 0 {
        lemma_digits_nonneg(s, n - 1);
        assert(s.take(n).drop_last() =~= s.take(n - 1));
        assert(is_digit(s[n - 1]));
    }
}

/// Appending a digit never makes the value smaller.
proof fn lemma_digits_grow(s: Seq<char>, i: int, j: int)
    requires
        0 <= i <= j <= s.len(),
        forall|k: int| 0 <= k < s.len() ==> #[trigger] is_digit(s[k]),
    ensures
        digits_value(s.take(i)) <= digits_value(s.take(j)),
    decreases j - i,
{
    if i < j {
        lemma_digits_grow(s, i, j - 1);
        lemma_digits_nonneg(s, j - 1);
        assert(s.take(j).drop_last() =~= s.take(j - 1));
        assert(is_digit(s[j - 1]));
    }
}

/// Reads the digits `cs[start..]` as a number of at most `limit`.
fn parse_digits(cs: &[char], start: usize, limit: u64) -> (r: Option<u64>)
    requires
        start <= cs@.len(),
        limit >= 9,
    ensures
        r == (if all_digits(cs@.skip(start as int)) && digits_value(cs@.skip(start as int))
            <= limit {
            Some(digits_value(cs@.skip(start as int)) as u64)
        } else {
            None::<u64>
        }),
        r matches Some(v) ==> v <= limit && v == digits_value(cs@.skip(start as int)),
{
    let ghost t = cs@.skip(start as int);
    if start == cs.len() {
        return None;
    }
    let mut acc: u64 = 0;
    let mut i: usize = start;
    while i < cs.len()
        invariant
            start <= i <= cs@.len(),
            t == cs@.skip(start as int),
            forall|k: int| 0 <= k < i - start ==> #[trigger] is_digit(t[k]),
            acc == digits_value(t.take(i - start)),
            acc <= limit,
            limit >= 9,
        decreases cs@.len() - i,
    {
        let c = cs[i];
        assert(t[i - start] == c);
        if !('0' <= c && c <= '9') {
            assert(!is_digit(t[i - start]));
            return None;
        }
        let d = (c as u32 - '0' as u32) as u64;
        assert(t.take(i - start + 1).drop_last() =~= t.take(i - start));
        if acc > (limit - d) / 10 {
            proof {
                let n = (i - start + 1) as int;
                assert(digits_value(t.take(n)) == acc * 10 + d);
                if all_digits(t) {
                    lemma_digits_grow(t, n, t.len() as int);
                    assert(t.take(t.len() as int) =~= t);
                }
            }
            return None;
        }
        acc = acc * 10 + d;
        i = i + 1;
    }
    assert(t.take(t.len() as int) =~= t);
    Some(acc)
}

/// Reads a decimal `i64` the way std's `str::parse::<i64>` does.
pub fn parse_i64(s: &str) -> (r: Option<i64>)
    ensures
        r == decimal_i64(s@),
{
    let cs = chars_of(s);
    parse_i64_chars(&cs)
}

/// Reads a decimal `i64` from a sequence of characters.
pub fn parse_i64_chars(cs: &[char]) -> (r: Option<i64>)
    ensures
        r == decimal_i64(cs@),
{
    if cs.len() == 0 {
        return None;
    }
    if cs[0] == '-' {
        match parse_digits(cs, 1, 9223372036854775808) {
            Some(v) => {
                if v == 9223372036854775808 {
                    Some(-9223372036854775807i64 - 1)
                } else {
                    Some(-(v as i64))
                }
            },
            None => {
                assert(!is_digit('-'));
                None
            },
        }
    } else if cs[0] == '+' {
        assert(!is_digit('+'));
        match parse_digits(cs, 1, 9223372036854775807) {
            Some(v) => Some(v as i64),
            None => None,
        }
    } else {
        assert(cs@.skip(0) =~= cs@);
        match parse_digits(cs, 0, 9223372036854775807) {
            Some(v) => Some(v as i64),
            None => None,
        }
    }
}

} // verus!

verus! {

/// The text that the automaton of `aho_corasick` gives when it replaces, in
/// `haystack`, each match of `patterns[i]` by `with[i]`.
pub uninterp spec fn aho_replace_all(
    patterns: Seq<Seq<char>>,
    with: Seq<Seq<char>>,
    haystack: Seq<char>,
) -> Seq<char>;

/// The views of a list of strings.
pub open spec fn str_views(s: Seq<&str>) -> Seq<Seq<char>> {
    s.map_values(|x: &str| x@)
}

/// Holds where none of the patterns occurs in the text (an empty pattern
/// occurs everywhere).
pub open spec fn no_match(patterns: Seq<Seq<char>>, haystack: Seq<char>) -> bool {
    forall|i: int, j: int|
        0 <= i < patterns.len() && 0 <= j && j + patterns[i].len() <= haystack.len()
            ==> #[trigger] haystack.subrange(j, j + patterns[i].len()) != patterns[i]
}

/// Whether `p` occurs in `s` at position `j`.
pub open spec fn occurs_at(p: Seq<char>, s: Seq<char>, j: int) -> bool {
    0 <= j && j + p.len() <= s.len() && s.subrange(j, j + p.len()) == p
}

/// Holds where every pattern is nonempty and no two occurrences of patterns
/// in `s` overlap (two patterns at one position count as overlapping).
pub open spec fn occurrences_disjoint(ps: Seq<Seq<char>>, s: Seq<char>) -> bool {
    &&& forall|i: int| 0 <= i < ps.len() ==> #[trigger] ps[i].len() > 0
    &&& forall|i: int, k: int, a: int, b: int|
        0 <= i < ps.len() && 0 <= k < ps.len() && #[trigger] occurs_at(ps[i], s, a)
            && #[trigger] occurs_at(ps[k], s, b) && a <= b && (a != b || i != k) ==> a
            + ps[i].len() <= b
}

/// The index of the first pattern, from index `k` on, that `s` begins
/// with; `ps.len()` where there is none.
pub open spec fn prefix_pattern(ps: Seq<Seq<char>>, s: Seq<char>, k: int) -> int
    decreases ps.len() - k,
{
    if k < 0 || k >= ps.len() {
        ps.len() as int
    } else if ps[k].len() <= s.len() && s.take(ps[k].len() as int) == ps[k] {
        k
    } else {
        prefix_pattern(ps, s, k + 1)
    }
}

/// `s` with its occurrences of the patterns replaced from left to right:
/// where a (nonempty) pattern begins, the first such pattern is replaced by
/// its replacement in `ws` and the text after it follows; elsewhere the
/// character stays.
pub open spec fn replace_each(ps: Seq<Seq<char>>, ws: Seq<Seq<char>>, s: Seq<char>) -> Seq<char>
    decreases s.len(),
{
    if s.len() == 0 {
        Seq::empty()
    } else {
        let i = prefix_pattern(ps, s, 0);
        if 0 <= i < ps.len() && 0 < ps[i].len() <= s.len() {
            ws[i] + replace_each(ps, ws, s.skip(ps[i].len() as int))
        } else {
            seq![s[0]] + replace_each(ps, ws, s.skip(1))
        }
    }
}

/// Builds an `aho_corasick::AhoCorasick` automaton for `patterns` and replaces
/// all its matches in `haystack` with `AhoCorasick::replace_all`. The contract
/// names the result, which is a function of the three arguments, and states
/// what the documentation of `replace_all` gives: all non-overlapping matches,
/// as the default (standard) match semantics report them, are replaced by the
/// replacement of the same index. So where no two occurrences of patterns
/// overlap, every occurrence is replaced; and a text in which no pattern
/// occurs comes back unchanged. Building the automaton only fails beyond its
/// size limits, which the bounds in `requires` keep far away from.
#[verifier::external_body]
fn aho_corasick_replace(patterns: &[&str], with: &[&str], haystack: &str) -> (res: String)
    requires
        patterns@.len() == with@.len(),
        patterns@.len() <= 1000,
        forall|i: int| 0 <= i < patterns@.len() ==> #[trigger] patterns@[i]@.len() <= 1000,
    ensures
        res@ == aho_replace_all(str_views(patterns@), str_views(with@), haystack@),
        no_match(str_views(patterns@), haystack@) ==> res@ == haystack@,
        occurrences_disjoint(str_views(patterns@), haystack@) ==> res@ == replace_each(
            str_views(patterns@),
            str_views(with@),
            haystack@,
        ),
{
    match aho_corasick::AhoCorasick::new(patterns) {
        Ok(ac) => ac.replace_all(haystack, with),
        Err(_) => String::new(),
    }
}

/// The escape codes the server uses in strings, and the characters they stand
/// for, in the same order.
pub fn sf_str_lookups() -> (r: ([&'static str; 11], [&'static str; 11]))
    ensures
        r.0@.len() == 11 && r.1@.len() == 11,
        str_views(r.0@) == sf_codes(),
        str_views(r.1@) == sf_plain(),
{
    let r = (
        ["$b", "$c", "$P", "$s", "$p", "$+", "$q", "$r", "$C", "$S", "$d"],
        ["\n", ":", "%", "/", "|", "&", "\"", "#", ",", ";", "$"],
    );
    assert(str_views(r.0@) =~= sf_codes());
    assert(str_views(r.1@) =~= sf_plain());
    r
}

/// The escape codes of server strings.
pub open spec fn sf_codes() -> Seq<Seq<char>> {
    seq![
        "$b"@, "$c"@, "$P"@, "$s"@, "$p"@, "$+"@, "$q"@, "$r"@, "$C"@, "$S"@, "$d"@,
    ]
}

/// The characters that the escape codes of server strings stand for.
pub open spec fn sf_plain() -> Seq<Seq<char>> {
    seq!["\n"@, ":"@, "%"@, "/"@, "|"@, "&"@, "\""@, "#"@, ","@, ";"@, "$"@]
}

/// Replaces the escape codes or the plain characters of server strings.
fn pattern_replace(s: &str, from_server: bool) -> (r: String)
    ensures
        from_server ==> r@ == sf_text(s@),
        !from_server ==> r@ == sf_escaped(s@),
        from_server && no_match(sf_codes(), s@) ==> r@ == s@,
        !from_server && no_match(sf_plain(), s@) ==> r@ == s@,
{
    let (codes, plain) = sf_str_lookups();
    proof {
        lemma_sf_tables();
        lemma_codes_disjoint(s@);
        lemma_plain_disjoint(s@);
    }
    if from_server {
        aho_corasick_replace(&codes, &plain, s)
    } else {
        aho_corasick_replace(&plain, &codes, s)
    }
}

/// The unescaped form of a text from the server: each escape code is
/// replaced by the character it stands for.
pub open spec fn sf_text(s: Seq<char>) -> Seq<char> {
    replace_each(sf_codes(), sf_plain(), s)
}

/// The escaped form of a text for the server: each character that the server
/// escapes is replaced by its escape code.
pub open spec fn sf_escaped(s: Seq<char>) -> Seq<char> {
    replace_each(sf_plain(), sf_codes(), s)
}

/// Holds of a text without the characters that the server escapes.
pub open spec fn needs_no_escape(s: Seq<char>) -> bool {
    forall|i: int| 0 <= i < s.len() ==> !sf_plain().contains(seq![#[trigger] s[i]])
}

/// Holds of a text without `$`, the start of every escape code.
pub open spec fn no_dollar(s: Seq<char>) -> bool {
    forall|i: int| 0 <= i < s.len() ==> s[i] != '$'
}

/// A text without the characters that need escaping holds no `$` either.
pub proof fn lemma_plain_has_no_dollar(s: Seq<char>)
    requires
        needs_no_escape(s),
    ensures
        no_dollar(s),
{
    reveal_strlit("$");
    assert forall|i: int| 0 <= i < s.len() implies s[i] != '$' by {
        if s[i] == '$' {
            assert(sf_plain()[10] == seq!['$']);
            assert(sf_plain().contains(seq![s[i]]));
        }
    }
}

/// In a text without the characters that need escaping, no plain character
/// occurs.
proof fn lemma_plain_no_match(s: Seq<char>)
    requires
        needs_no_escape(s),
    ensures
        no_match(sf_plain(), s),
{
    reveal_strlit("\n");
    reveal_strlit(":");
    reveal_strlit("%");
    reveal_strlit("/");
    reveal_strlit("|");
    reveal_strlit("&");
    reveal_strlit("\"");
    reveal_strlit("#");
    reveal_strlit(",");
    reveal_strlit(";");
    reveal_strlit("$");
    assert forall|i: int, j: int|
        0 <= i < sf_plain().len() && 0 <= j && j + sf_plain()[i].len() <= s.len()
            implies #[trigger] s.subrange(j, j + sf_plain()[i].len()) != sf_plain()[i] by {
        assert(sf_plain()[i].len() == 1);
        if s.subrange(j, j + 1) == sf_plain()[i] {
            assert(s.subrange(j, j + 1) =~= seq![s[j]]);
            assert(sf_plain().contains(seq![s[j]]));
        }
    }
}

/// In a text without `$`, no escape code occurs.
proof fn lemma_codes_no_match(s: Seq<char>)
    requires
        no_dollar(s),
    ensures
        no_match(sf_codes(), s),
{
    reveal_strlit("$b");
    reveal_strlit("$c");
    reveal_strlit("$P");
    reveal_strlit("$s");
    reveal_strlit("$p");
    reveal_strlit("$+");
    reveal_strlit("$q");
    reveal_strlit("$r");
    reveal_strlit("$C");
    reveal_strlit("$S");
    reveal_strlit("$d");
    assert forall|i: int, j: int|
        0 <= i < sf_codes().len() && 0 <= j && j + sf_codes()[i].len() <= s.len()
            implies #[trigger] s.subrange(j, j + sf_codes()[i].len()) != sf_codes()[i] by {
        assert(sf_codes()[i].len() == 2 && sf_codes()[i][0] == '$');
        assert(s.subrange(j, j + 2)[0] == s[j]);
    }
}

/// Converts a string from the server into its unescaped form.
pub fn from_sf_string(val: &str) -> (r: String)
    ensures
        r@ == sf_text(val@),
        no_dollar(val@) ==> r@ == val@,
{
    proof {
        if no_dollar(val@) {
            lemma_codes_no_match(val@);
        }
    }
    pattern_replace(val, true)
}

/// Escapes a user controlled string, like a description, for a request.
pub fn to_sf_string(val: &str) -> (r: String)
    ensures
        r@ == sf_escaped(val@),
        needs_no_escape(val@) ==> r@ == val@,
{
    proof {
        if needs_no_escape(val@) {
            lemma_plain_no_match(val@);
        }
    }
    pattern_replace(val, false)
}

/// What the two tables of server strings hold: eleven escape codes of two
/// characters, `$` and a distinct second character that is never `$`, and
/// eleven distinct single characters, the last of them `$`.
proof fn lemma_sf_tables()
    ensures
        sf_codes().len() == 11,
        sf_plain().len() == 11,
        forall|i: int|
            0 <= i < 11 ==> #[trigger] sf_codes()[i].len() == 2 && sf_codes()[i][0] == '$'
                && sf_codes()[i][1] != '$',
        forall|i: int| 0 <= i < 11 ==> #[trigger] sf_plain()[i].len() == 1,
        forall|i: int, j: int|
            0 <= i < 11 && 0 <= j < 11 && i != j ==> #[trigger] sf_codes()[i][1] != #[trigger] sf_codes()[j][1],
        forall|i: int, j: int|
            0 <= i < 11 && 0 <= j < 11 && i != j ==> #[trigger] sf_plain()[i][0] != #[trigger] sf_plain()[j][0],
        sf_plain()[10] == seq!['$'],
{
    reveal_strlit("$b");
    reveal_strlit("$c");
    reveal_strlit("$P");
    reveal_strlit("$s");
    reveal_strlit("$p");
    reveal_strlit("$+");
    reveal_strlit("$q");
    reveal_strlit("$r");
    reveal_strlit("$C");
    reveal_strlit("$S");
    reveal_strlit("$d");
    reveal_strlit("\n");
    reveal_strlit(":");
    reveal_strlit("%");
    reveal_strlit("/");
    reveal_strlit("|");
    reveal_strlit("&");
    reveal_strlit("\"");
    reveal_strlit("#");
    reveal_strlit(",");
    reveal_strlit(";");
    reveal_strlit("$");
    assert(sf_plain()[10] =~= seq!['$']);
}

/// Among distinct patterns of one length `n`, the one that the first `n`
/// characters of `s` form is the first one that `s` begins with.
proof fn lemma_prefix_pattern_unique(ps: Seq<Seq<char>>, s: Seq<char>, k: int, j: int, n: int)
    requires
        0 <= k <= j < ps.len(),
        forall|m: int| 0 <= m < ps.len() ==> #[trigger] ps[m].len() == n,
        forall|a: int| 0 <= a < ps.len() && a != j ==> #[trigger] ps[a] != ps[j],
        0 <= n <= s.len(),
        s.take(n) == ps[j],
    ensures
        prefix_pattern(ps, s, k) == j,
    decreases j - k,
{
    if k < j {
        lemma_prefix_pattern_unique(ps, s, k + 1, j, n);
    }
}

/// Where `s` begins with none of the patterns from index `k` on, there is
/// no first one.
proof fn lemma_prefix_pattern_none(ps: Seq<Seq<char>>, s: Seq<char>, k: int)
    requires
        0 <= k <= ps.len(),
        forall|m: int|
            k <= m < ps.len() ==> !(#[trigger] ps[m].len() <= s.len() && s.take(ps[m].len() as int)
                == ps[m]),
    ensures
        prefix_pattern(ps, s, k) == ps.len(),
    decreases ps.len() - k,
{
    if k < ps.len() {
        lemma_prefix_pattern_none(ps, s, k + 1);
    }
}

/// No two occurrences of escape codes overlap, in any text: two codes at
/// one position are the same code, and a code can not begin at the second
/// character of another, which is never `$`.
proof fn lemma_codes_disjoint(t: Seq<char>)
    ensures
        occurrences_disjoint(sf_codes(), t),
{
    lemma_sf_tables();
    let ps = sf_codes();
    assert forall|i: int, k: int, a: int, b: int|
        0 <= i < ps.len() && 0 <= k < ps.len() && #[trigger] occurs_at(ps[i], t, a)
            && #[trigger] occurs_at(ps[k], t, b) && a <= b && (a != b || i != k) implies a
            + ps[i].len() <= b by {
        assert(t.subrange(a, a + 2)[1] == t[a + 1]);
        assert(t.subrange(b, b + 2)[0] == t[b]);
        assert(t.subrange(b, b + 2)[1] == t[b + 1]);
        assert(t.subrange(a, a + 2)[0] == t[a]);
    }
}

/// No two occurrences of the escaped characters overlap, in any text.
proof fn lemma_plain_disjoint(t: Seq<char>)
    ensures
        occurrences_disjoint(sf_plain(), t),
{
    lemma_sf_tables();
    let ps = sf_plain();
    assert forall|i: int, k: int, a: int, b: int|
        0 <= i < ps.len() && 0 <= k < ps.len() && #[trigger] occurs_at(ps[i], t, a)
            && #[trigger] occurs_at(ps[k], t, b) && a <= b && (a != b || i != k) implies a
            + ps[i].len() <= b by {
        assert(t.subrange(a, a + 1)[0] == t[a]);
        assert(t.subrange(b, b + 1)[0] == t[b]);
    }
}

/// Unescaping an escaped text gives the text back: what the server shows of
/// a text that was sent to it escaped is that text.
pub proof fn lemma_sf_string_round_trip(s: Seq<char>)
    ensures
        sf_text(sf_escaped(s)) == s,
    decreases s.len(),
{
    lemma_sf_tables();
    if s.len() > 0 {
        let c = s[0];
        let rest = sf_escaped(s.skip(1));
        lemma_sf_string_round_trip(s.skip(1));
        assert(s.take(1) =~= seq![c]);
        if exists|j: int| 0 <= j < 11 && sf_plain()[j] == seq![c] {
            let j = choose|j: int| 0 <= j < 11 && sf_plain()[j] == seq![c];
            assert forall|a: int| 0 <= a < sf_plain().len() && a != j implies #[trigger] sf_plain()[a]
                != sf_plain()[j] by {
                assert(sf_plain()[a][0] != sf_plain()[j][0]);
            }
            lemma_prefix_pattern_unique(sf_plain(), s, 0, j, 1);
            assert(sf_escaped(s) == sf_codes()[j] + rest);
            let t = sf_codes()[j] + rest;
            assert(t.take(2) =~= sf_codes()[j]);
            assert forall|a: int| 0 <= a < sf_codes().len() && a != j implies #[trigger] sf_codes()[a]
                != sf_codes()[j] by {
                assert(sf_codes()[a][1] != sf_codes()[j][1]);
            }
            lemma_prefix_pattern_unique(sf_codes(), t, 0, j, 2);
            assert(t.skip(2) =~= rest);
            assert(sf_text(t) == sf_plain()[j] + sf_text(rest));
            assert(sf_text(t) =~= s);
        } else {
            assert forall|m: int|
                0 <= m < sf_plain().len() implies !(#[trigger] sf_plain()[m].len() <= s.len()
                && s.take(sf_plain()[m].len() as int) == sf_plain()[m]) by {
                assert(sf_plain()[m].len() == 1);
            }
            lemma_prefix_pattern_none(sf_plain(), s, 0);
            assert(sf_escaped(s) == seq![c] + rest);
            let t = seq![c] + rest;
            assert(c != '$') by {
                if c == '$' {
                    assert(sf_plain()[10] == seq![c]);
                }
            }
            assert forall|m: int|
                0 <= m < sf_codes().len() implies !(#[trigger] sf_codes()[m].len() <= t.len()
                && t.take(sf_codes()[m].len() as int) == sf_codes()[m]) by {
                if sf_codes()[m].len() <= t.len() && t.take(2) == sf_codes()[m] {
                    assert(t.take(2)[0] == c);
                }
            }
            lemma_prefix_pattern_none(sf_codes(), t, 0);
            assert(t.skip(1) =~= rest);
            assert(sf_text(t) == seq![c] + sf_text(rest));
            assert(sf_text(t) =~= s);
        }
    }
}

// ---------------------------------------------------------------------------
// Hashing
// ---------------------------------------------------------------------------

/// The constant that is appended to passwords before hashing them.
pub const HASH_CONST: &'static str = "ahHoj2woo1eeChiech6ohphoB7Aithoh";

/// The SHA-1 digest of some bytes.
pub uninterp spec fn sha1_of(data: Seq<u8>) -> Seq<u8>;

/// Computes the SHA-1 digest of `data` with `sha1::Sha1::digest`. A SHA-1
/// digest has 20 bytes; the contract names the bytes.
#[verifier::external_body]
fn sha1_digest(data: &[u8]) -> (r: Vec<u8>)
    ensures
        r@ == sha1_of(data@),
        r@.len() == 20,
{
    <sha1::Sha1 as sha1::Digest>::digest(data).to_vec()
}

/// The lower case hexadecimal digit for a value below 16.
pub open spec fn hex_digit(v: int) -> char {
    if v < 10 { (v + 48) as char } else { (v - 10 + 97) as char }
}

/// The lower case hexadecimal text of some bytes, two digits per byte.
pub open spec fn hex_lower(b: Seq<u8>) -> Seq<char>
    decreases b.len(),
{
    if b.len() == 0 {
        Seq::empty()
    } else {
        hex_lower(b.drop_last()).push(hex_digit(b.last() as int / 16)).push(
            hex_digit(b.last() as int % 16),
        )
    }
}

fn hex_char(v: u8) -> (c: char)
    requires
        v < 16,
    ensures
        c == hex_digit(v as int),
{
    if v < 10 {
        (v + 48) as char
    } else {
        (v - 10 + 97) as char
    }
}

/// The lower case hexadecimal text of some bytes.
pub fn to_hex(b: &[u8]) -> (s: String)
    ensures
        s@ == hex_lower(b@),
{
    let mut s = String::new();
    let mut i: usize = 0;
    while i < b.len()
        invariant
            i <= b@.len(),
            s@ == hex_lower(b@.take(i as int)),
        decreases b@.len() - i,
    {
        let byte = b[i];
        push_char(&mut s, hex_char(byte / 16));
        push_char(&mut s, hex_char(byte % 16));
        assert(b@.take(i + 1).drop_last() =~= b@.take(i as int));
        i = i + 1;
    }
    assert(b@.take(b@.len() as int) =~= b@);
    s
}

/// The SHA-1 hash of a string's UTF-8 bytes, as lower case hexadecimal text.
pub fn sha1_hash(val: &str) -> (r: String)
    ensures
        r@ == hex_lower(sha1_of(val.spec_bytes())),
        r@.len() == 40,
{
    let digest = sha1_digest(val.as_bytes());
    let r = to_hex(&digest);
    proof {
        lemma_hex_len(digest@);
    }
    r
}

proof fn lemma_hex_len(b: Seq<u8>)
    ensures
        hex_lower(b).len() == 2 * b.len(),
    decreases b.len(),
{
    if b.len() > 0 {
        lemma_hex_len(b.drop_last());
    }
}

} // verus!

verus! {

/// Sets the first values of `map` from `vals`, each converted softly to a
/// `u32` with the default 0. Positions past the end of `vals` stay unchanged.
pub fn update_enum_map(map: &mut [u32; 5], vals: &[i64])
    ensures
        forall|i: int|
            0 <= i < 5 ==> #[trigger] final(map)@[i] == if i < vals@.len() {
                soft_u32(vals@[i], 0)
            } else {
                old(map)@[i]
            },
{
    let mut i: usize = 0;
    while i < 5 && i < vals.len()
        invariant
            i <= 5,
            forall|k: int|
                0 <= k < 5 ==> #[trigger] map@[k] == if k < i && k < vals@.len() {
                    soft_u32(vals@[k], 0)
                } else {
                    old(map)@[k]
                },
        decreases 5 - i,
    {
        map[i] = soft_into_u32(vals[i], "attribute val", 0);
        i = i + 1;
    }
}

} // verus!

verus! {

// ---------------------------------------------------------------------------
// Decimal text of numbers
// ---------------------------------------------------------------------------

/// The decimal digit for a value below 10.
pub open spec fn digit_char(v: nat) -> char {
    (v + 48) as char
}

/// The decimal text of a natural number, as std's `Display` writes it.
pub open spec fn decimal_text(n: nat) -> Seq<char>
    decreases n,
{
    if n < 10 {
        seq![digit_char(n)]
    } else {
        decimal_text(n / 10).push(digit_char(n % 10))
    }
}

/// The decimal text of an integer, with a leading `-` where it is negative.
pub open spec fn signed_decimal_text(n: int) -> Seq<char> {
    if n < 0 {
        seq!['-'] + decimal_text((-n) as nat)
    } else {
        decimal_text(n as nat)
    }
}

/// Appends the decimal text of `n` to `s`.
pub fn push_decimal(s: &mut String, n: u64)
    ensures
        final(s)@ == old(s)@ + decimal_text(n as nat),
    decreases n,
{
    if n >= 10 {
        push_decimal(s, n / 10);
    }
    let d = (n % 10) as u8;
    push_char(s, (d + 48) as char);
    assert(n < 10 ==> decimal_text(n as nat) == seq![digit_char(n as nat)]);
    proof {
        if n >= 10 {
            assert(decimal_text(n as nat) == decimal_text((n / 10) as nat).push(
                digit_char((n % 10) as nat),
            ));
        }
    }
}

/// Appends the decimal text of `n` to `s`, with a leading `-` where it is
/// negative.
pub fn push_signed_decimal(s: &mut String, n: i64)
    ensures
        final(s)@ == old(s)@ + signed_decimal_text(n as int),
{
    if n < 0 {
        push_char(s, '-');
        let m: u64 = if n == -9223372036854775807i64 - 1 {
            9223372036854775808u64
        } else {
            (-n) as u64
        };
        push_decimal(s, m);
        assert(old(s)@ + signed_decimal_text(n as int) =~= old(s)@.push('-') + decimal_text(
            m as nat,
        ));
    } else {
        push_decimal(s, n as u64);
    }
}

/// The decimal text of a number, as std's `to_string` gives it.
pub fn u64_to_string(n: u64) -> (s: String)
    ensures
        s@ == decimal_text(n as nat),
{
    let mut s = String::new();
    push_decimal(&mut s, n);
    assert(s@ =~= decimal_text(n as nat));
    s
}

/// The decimal text of a signed number, as std's `to_string` gives it.
pub fn i64_to_string(n: i64) -> (s: String)
    ensures
        s@ == signed_decimal_text(n as int),
{
    let mut s = String::new();
    push_signed_decimal(&mut s, n);
    assert(s@ =~= signed_decimal_text(n as int));
    s
}

/// Appends a string to another (std's `String::push_str`).
#[verifier::external_body]
pub(crate) fn push_str(s: &mut String, t: &str)
    ensures
        final(s)@ == old(s)@ + t@,
{
    s.push_str(t)
}

} // verus!

verus! {

/// Reads the timestamp at `pos` and converts it into the time it stands for.
pub fn cstget(
    data: &[i64],
    pos: usize,
    name: &'static str,
    server_time: crate::gamestate::ServerTime,
) -> (r: Result<Option<i64>, SFError>)
    ensures
        pos < data@.len() ==> r == Ok::<Option<i64>, SFError>(
            server_time.spec_convert(data@[pos as int]),
        ),
        pos >= data@.len() ==> short_err(r, name, pos as int),
        pos >= data@.len() ==> (r matches Err(SFError::TooShortResponse { array, .. })
            && array@ == debug_list_text(data@)),
{
    let val = raw_cget(data, pos, name)?;
    Ok(server_time.convert_to_local(val, name))
}

} // verus!

verus! {

// ---------------------------------------------------------------------------
// Splitting texts
// ---------------------------------------------------------------------------

/// The pieces of a text between the separators, as std's `str::split` with a
/// character gives them: a text without the separator is one piece, and
/// every separator starts a new (possibly empty) piece.
pub open spec fn split_text(s: Seq<char>, sep: char) -> Seq<Seq<char>>
    decreases s.len(),
{
    if s.len() == 0 {
        seq![Seq::empty()]
    } else {
        let p = split_text(s.drop_last(), sep);
        if s.last() == sep {
            p.push(Seq::empty())
        } else {
            p.update(p.len() - 1, p.last().push(s.last()))
        }
    }
}

/// A text has at least one piece.
pub proof fn lemma_split_nonempty(s: Seq<char>, sep: char)
    ensures
        split_text(s, sep).len() >= 1,
    decreases s.len(),
{
    if s.len() > 0 {
        lemma_split_nonempty(s.drop_last(), sep);
    }
}

/// The views of a list of strings.
pub open spec fn string_views(v: Seq<String>) -> Seq<Seq<char>> {
    v.map_values(|s: String| s@)
}

/// Splits a text at each separator, as `str::split` does.
pub fn split_by(s: &str, sep: char) -> (r: Vec<String>)
    ensures
        string_views(r@) == split_text(s@, sep),
{
    let cs = chars_of(s);
    let mut pieces: Vec<String> = Vec::new();
    let mut current: Vec<char> = Vec::new();
    let mut i: usize = 0;
    while i < cs.len()
        invariant
            i <= cs@.len(),
            cs@ == s@,
            string_views(pieces@).push(current@) == split_text(cs@.take(i as int), sep),
        decreases cs@.len() - i,
    {
        let c = cs[i];
        proof {
            assert(cs@.take(i + 1).drop_last() =~= cs@.take(i as int));
            lemma_split_nonempty(cs@.take(i as int), sep);
        }
        if c == sep {
            let piece = string_of(&current);
            pieces.push(piece);
            current = Vec::new();
            assert(string_views(pieces@).push(current@) =~= split_text(cs@.take(i + 1), sep));
        } else {
            let ghost before = string_views(pieces@).push(current@);
            current.push(c);
            assert(string_views(pieces@).push(current@) =~= before.update(
                before.len() - 1,
                before.last().push(c),
            ));
        }
        i = i + 1;
    }
    pieces.push(string_of(&current));
    assert(cs@.take(cs@.len() as int) =~= cs@);
    assert(string_views(pieces@) =~= split_text(s@, sep));
    pieces
}

/// The `u32` that a text writes in decimal, as std's `str::parse::<u32>`
/// reads it: a minus sign is refused.
pub open spec fn decimal_u32(s: Seq<char>) -> Option<u32> {
    if s.len() > 0 && s[0] == '-' {
        None
    } else {
        match decimal_value(s) {
            Some(v) => if 0 <= v <= u32::MAX { Some(v as u32) } else { None },
            None => None,
        }
    }
}

/// The `i32` that a text writes in decimal, if it writes one that fits.
pub open spec fn decimal_i32(s: Seq<char>) -> Option<i32> {
    match decimal_value(s) {
        Some(v) => if i32::MIN <= v <= i32::MAX { Some(v as i32) } else { None },
        None => None,
    }
}

/// Reads a decimal `u32` the way std's `str::parse::<u32>` does.
pub fn parse_u32(s: &str) -> (r: Option<u32>)
    ensures
        r == decimal_u32(s@),
{
    let cs = chars_of(s);
    if cs.len() > 0 && cs[0] == '-' {
        return None;
    }
    match parse_i64_chars(&cs) {
        Some(v) => {
            if 0 <= v && v <= 4294967295 {
                Some(v as u32)
            } else {
                None
            }
        },
        None => {
            proof {
                if decimal_value(s@) is Some {
                    let v = decimal_value(s@)->0;
                    if 0 <= v <= u32::MAX {
                        assert(decimal_i64(s@) is Some);
                    }
                }
            }
            None
        },
    }
}

/// Reads a decimal `i32` the way std's `str::parse::<i32>` does.
pub fn parse_i32(s: &str) -> (r: Option<i32>)
    ensures
        r == decimal_i32(s@),
{
    match parse_i64(s) {
        Some(v) => {
            if -2147483648 <= v && v <= 2147483647 {
                Some(v as i32)
            } else {
                None
            }
        },
        None => None,
    }
}

/// Holds where the text equals the given characters.
pub fn text_is(s: &str, lit: &[char]) -> (r: bool)
    ensures
        r == (s@ == lit@),
{
    let cs = chars_of(s);
    if cs.len() != lit.len() {
        return false;
    }
    let mut i: usize = 0;
    while i < cs.len()
        invariant
            i <= cs@.len(),
            cs@.len() == lit@.len(),
            cs@ == s@,
            forall|k: int| 0 <= k < i ==> cs@[k] == lit@[k],
        decreases cs@.len() - i,
    {
        if cs[i] != lit[i] {
            return false;
        }
        i = i + 1;
    }
    assert(cs@ =~= lit@);
    true
}

} // verus!

verus! {

// ---------------------------------------------------------------------------
// Trimming and splitting once
// ---------------------------------------------------------------------------

/// Holds of the characters with the Unicode property `White_Space`, which
/// std's `char::is_whitespace` and `str::trim` go by.
pub open spec fn is_white(c: char) -> bool {
    ('\u{9}' <= c <= '\u{d}') || c == ' ' || c == '\u{85}' || c == '\u{a0}' || c == '\u{1680}'
        || ('\u{2000}' <= c <= '\u{200a}') || c == '\u{2028}' || c == '\u{2029}' || c
        == '\u{202f}' || c == '\u{205f}' || c == '\u{3000}'
}

fn white(c: char) -> (r: bool)
    ensures
        r == is_white(c),
{
    ('\u{9}' <= c && c <= '\u{d}') || c == ' ' || c == '\u{85}' || c == '\u{a0}' || c
        == '\u{1680}' || ('\u{2000}' <= c && c <= '\u{200a}') || c == '\u{2028}' || c
        == '\u{2029}' || c == '\u{202f}' || c == '\u{205f}' || c == '\u{3000}'
}

/// The text without its leading white space.
pub open spec fn trim_start_white(s: Seq<char>) -> Seq<char>
    decreases s.len(),
{
    if s.len() > 0 && is_white(s[0]) {
        trim_start_white(s.skip(1))
    } else {
        s
    }
}

/// The text without its trailing white space.
pub open spec fn trim_end_white(s: Seq<char>) -> Seq<char>
    decreases s.len(),
{
    if s.len() > 0 && is_white(s.last()) {
        trim_end_white(s.drop_last())
    } else {
        s
    }
}

/// The text without leading and trailing white space, as `str::trim` gives
/// it.
pub open spec fn trim_white(s: Seq<char>) -> Seq<char> {
    trim_end_white(trim_start_white(s))
}

/// The text without the character `c` at its end, repeated, as
/// `str::trim_end_matches` with a character gives it.
pub open spec fn trim_end_char(s: Seq<char>, c: char) -> Seq<char>
    decreases s.len(),
{
    if s.len() > 0 && s.last() == c {
        trim_end_char(s.drop_last(), c)
    } else {
        s
    }
}

/// The text without the characters `a` and `b` at its start, repeated, as
/// `str::trim_start_matches` with the two characters gives it.
pub open spec fn trim_start_chars(s: Seq<char>, a: char, b: char) -> Seq<char>
    decreases s.len(),
{
    if s.len() > 0 && (s[0] == a || s[0] == b) {
        trim_start_chars(s.skip(1), a, b)
    } else {
        s
    }
}

/// The position of the first `c` in the text, if there is one.
pub open spec fn first_index(s: Seq<char>, c: char) -> Option<int>
    decreases s.len(),
{
    if s.len() == 0 {
        None
    } else if s[0] == c {
        Some(0)
    } else {
        match first_index(s.skip(1), c) {
            Some(i) => Some(i + 1),
            None => None,
        }
    }
}

proof fn lemma_first_index(s: Seq<char>, c: char)
    ensures
        first_index(s, c) matches Some(i) ==> 0 <= i < s.len() && s[i] == c && forall|k: int|
            0 <= k < i ==> s[k] != c,
        first_index(s, c) is None ==> forall|k: int| 0 <= k < s.len() ==> s[k] != c,
    decreases s.len(),
{
    if s.len() > 0 && s[0] != c {
        lemma_first_index(s.skip(1), c);
        if first_index(s, c) is None {
            assert forall|k: int| 0 <= k < s.len() implies s[k] != c by {
                if k > 0 {
                    assert(s.skip(1)[k - 1] == s[k]);
                }
            }
        } else {
            let i = first_index(s, c)->0;
            assert forall|k: int| 0 <= k < i implies s[k] != c by {
                if k > 0 {
                    assert(s.skip(1)[k - 1] == s[k]);
                }
            }
        }
    }
}

/// The text before and after its first `c`, as `str::split_once` with a
/// character gives them; `None` where there is no `c`.
pub open spec fn split_once_text(s: Seq<char>, c: char) -> Option<(Seq<char>, Seq<char>)> {
    match first_index(s, c) {
        Some(i) => Some((s.take(i), s.skip(i + 1))),
        None => None,
    }
}

/// The position of the first `c` among `cs`, if there is one.
fn find_char(cs: &[char], c: char) -> (r: Option<usize>)
    ensures
        r matches Some(i) ==> first_index(cs@, c) == Some(i as int),
        r is None ==> first_index(cs@, c) is None,
{
    let mut i: usize = 0;
    while i < cs.len()
        invariant
            i <= cs@.len(),
            forall|k: int| 0 <= k < i ==> cs@[k] != c,
        decreases cs@.len() - i,
    {
        if cs[i] == c {
            proof {
                lemma_first_index(cs@, c);
                match first_index(cs@, c) {
                    Some(j) => {
                        if j != i {
                            assert(cs@[j] == c);
                        }
                    },
                    None => {
                        assert(cs@[i as int] == c);
                    },
                }
            }
            return Some(i);
        }
        i = i + 1;
    }
    proof {
        lemma_first_index(cs@, c);
        match first_index(cs@, c) {
            Some(j) => {
                assert(cs@[j] == c);
            },
            None => {},
        }
    }
    None
}

/// Splits a text at its first `c`, as `str::split_once` does.
pub fn split_once_char(s: &str, c: char) -> (r: Option<(String, String)>)
    ensures
        match split_once_text(s@, c) {
            Some((a, b)) => r matches Some((x, y)) && x@ == a && y@ == b,
            None => r is None,
        },
{
    let cs = chars_of(s);
    proof {
        lemma_first_index(cs@, c);
    }
    match find_char(&cs, c) {
        Some(i) => {
            let (head, tail) = cs.as_slice().split_at(i);
            let (_, rest) = tail.split_at(1);
            assert(head@ =~= s@.take(i as int));
            assert(rest@ =~= s@.skip(i + 1));
            Some((string_of(head), string_of(rest)))
        },
        None => None,
    }
}

/// A text without leading and trailing white space, as `str::trim` gives it.
pub fn trim_text(s: &str) -> (r: String)
    ensures
        r@ == trim_white(s@),
{
    let cs = chars_of(s);
    let mut start: usize = 0;
    assert(cs@.skip(0) =~= cs@);
    while start < cs.len() && white(cs[start])
        invariant
            start <= cs@.len(),
            trim_start_white(cs@) == trim_start_white(cs@.skip(start as int)),
        decreases cs@.len() - start,
    {
        assert(cs@.skip(start as int).skip(1) =~= cs@.skip(start + 1));
        start = start + 1;
    }
    let ghost t = cs@.skip(start as int);
    assert(trim_start_white(t) == t);
    let mut end: usize = cs.len();
    while end > start && white(cs[end - 1])
        invariant
            start <= end <= cs@.len(),
            trim_end_white(t) == trim_end_white(cs@.subrange(start as int, end as int)),
            t == cs@.skip(start as int),
        decreases end,
    {
        assert(cs@.subrange(start as int, end as int).drop_last() =~= cs@.subrange(
            start as int,
            end - 1,
        ));
        end = end - 1;
    }
    assert(t =~= cs@.subrange(start as int, cs@.len() as int));
    let (head, _) = cs.as_slice().split_at(end);
    let (_, mid) = head.split_at(start);
    assert(mid@ =~= cs@.subrange(start as int, end as int));
    string_of(mid)
}

/// A text without the character `c` at its end, repeated.
pub fn trim_end_matches_char(s: &str, c: char) -> (r: String)
    ensures
        r@ == trim_end_char(s@, c),
{
    let cs = chars_of(s);
    let mut end: usize = cs.len();
    assert(cs@.take(end as int) =~= cs@);
    while end > 0 && cs[end - 1] == c
        invariant
            end <= cs@.len(),
            trim_end_char(cs@, c) == trim_end_char(cs@.take(end as int), c),
        decreases end,
    {
        assert(cs@.take(end as int).drop_last() =~= cs@.take(end - 1));
        end = end - 1;
    }
    let (head, _) = cs.as_slice().split_at(end);
    assert(head@ =~= cs@.take(end as int));
    string_of(head)
}

/// A text without the characters `a` and `b` at its start, repeated.
pub fn trim_start_matches_chars(s: &str, a: char, b: char) -> (r: String)
    ensures
        r@ == trim_start_chars(s@, a, b),
{
    let cs = chars_of(s);
    let mut start: usize = 0;
    assert(cs@.skip(0) =~= cs@);
    while start < cs.len() && (cs[start] == a || cs[start] == b)
        invariant
            start <= cs@.len(),
            trim_start_chars(cs@, a, b) == trim_start_chars(cs@.skip(start as int), a, b),
        decreases cs@.len() - start,
    {
        assert(cs@.skip(start as int).skip(1) =~= cs@.skip(start + 1));
        start = start + 1;
    }
    let (_, rest) = cs.as_slice().split_at(start);
    assert(rest@ =~= cs@.skip(start as int));
    string_of(rest)
}

/// The `i64` that a text writes, or 0.
pub open spec fn i64_or_zero(s: Seq<char>) -> i64 {
    match decimal_i64(s) {
        Some(v) => v,
        None => 0,
    }
}

/// The `u32` that a text writes, or 0.
pub open spec fn u32_or_zero(s: Seq<char>) -> u32 {
    match decimal_u32(s) {
        Some(v) => v,
        None => 0,
    }
}

/// Reads the `i64` that a text writes, or 0.
pub fn parse_i64_or_zero(s: &str) -> (r: i64)
    ensures
        r == i64_or_zero(s@),
{
    match parse_i64(s) {
        Some(v) => v,
        None => 0,
    }
}

/// Reads the `u32` that a text writes, or 0.
pub fn parse_u32_or_zero(s: &str) -> (r: u32)
    ensures
        r == u32_or_zero(s@),
{
    match parse_u32(s) {
        Some(v) => v,
        None => 0,
    }
}

} // verus!

verus! {

/// The `u64` that a text writes in decimal, as std's `str::parse::<u64>`
/// reads it: a minus sign is refused.
pub open spec fn decimal_u64(s: Seq<char>) -> Option<u64> {
    if s.len() > 0 && s[0] == '-' {
        None
    } else {
        match decimal_value(s) {
            Some(v) => if 0 <= v <= u64::MAX { Some(v as u64) } else { None },
            None => None,
        }
    }
}

/// The `u16` that a text writes in decimal, as std's `str::parse::<u16>`
/// reads it.
pub open spec fn decimal_u16(s: Seq<char>) -> Option<u16> {
    match decimal_u32(s) {
        Some(v) => if v <= u16::MAX { Some(v as u16) } else { None },
        None => None,
    }
}

/// Reads a decimal `u64` the way std's `str::parse::<u64>` does.
pub fn parse_u64(s: &str) -> (r: Option<u64>)
    ensures
        r == decimal_u64(s@),
{
    let cs = chars_of(s);
    if cs.len() == 0 || cs[0] == '-' {
        return None;
    }
    if cs[0] == '+' {
        assert(!is_digit('+'));
        parse_digits(&cs, 1, 18446744073709551615)
    } else {
        assert(cs@.skip(0) =~= cs@);
        parse_digits(&cs, 0, 18446744073709551615)
    }
}

/// Reads a decimal `u16` the way std's `str::parse::<u16>` does.
pub fn parse_u16(s: &str) -> (r: Option<u16>)
    ensures
        r == decimal_u16(s@),
{
    match parse_u32(s) {
        Some(v) => if v <= 65535 {
            Some(v as u16)
        } else {
            None
        },
        None => None,
    }
}

} // verus!

verus! {

/// Access to the values of a map from the cases of an enum, by case.
pub trait EnumMapGet<K, V> {
    /// The value of a case
    fn get(&self, key: K) -> &V;

    /// The value of a case, to change it
    fn get_mut(&mut self, key: K) -> &mut V;
}

impl EnumMapGet<crate::command::AttributeType, u32> for [u32; 5] {
    fn get(&self, key: crate::command::AttributeType) -> (r: &u32)
        ensures
            *r == self@[key.spec_index()],
    {
        &self[key.index()]
    }

    fn get_mut(&mut self, key: crate::command::AttributeType) -> (r: &mut u32)
        ensures
            *r == old(self)@[key.spec_index()],
            final(self)@ == old(self)@.update(key.spec_index(), *final(r)),
    {
        &mut self[key.index()]
    }
}

} // verus!

verus! {

/// The decimal text of a number is made of digits whose value is the number.
proof fn lemma_decimal_text_digits(m: nat)
    ensures
        all_digits(decimal_text(m)),
        digits_value(decimal_text(m)) == m,
    decreases m,
{
    if m < 10 {
        let t = decimal_text(m);
        assert(t == seq![digit_char(m)]);
        assert(t.drop_last() =~= Seq::<char>::empty());
        assert((digit_char(m) as int) == m + 48);
        assert(('0' as int) == 48);
        assert(digits_value(t) == digits_value(t.drop_last()) * 10 + ((t.last() as int) - ('0' as int)));
    } else {
        lemma_decimal_text_digits(m / 10);
        let t = decimal_text(m);
        let d = digit_char(m % 10);
        assert(t == decimal_text(m / 10).push(d));
        assert(t.drop_last() =~= decimal_text(m / 10));
        assert((d as int) == m % 10 + 48);
        assert(t.last() == d);
        assert(('0' as int) == 48);
        assert(digits_value(t) == digits_value(t.drop_last()) * 10 + ((t.last() as int) - ('0' as int)));
        assert((m / 10) * 10 + m % 10 == m);
        assert forall|i: int| 0 <= i < t.len() implies #[trigger] is_digit(t[i]) by {
            if i < t.len() - 1 {
                assert(t[i] == decimal_text(m / 10)[i]);
            }
        }
    }
}

/// Reading the decimal text of an `i64` (as `to_string` writes it) gives the
/// number back.
pub proof fn lemma_decimal_round_trip(n: i64)
    ensures
        decimal_i64(signed_decimal_text(n as int)) == Some(n),
{
    if n < 0 {
        let m = (-n) as nat;
        lemma_decimal_text_digits(m);
        let t = signed_decimal_text(n as int);
        assert(t.skip(1) =~= decimal_text(m));
        assert(t[0] == '-');
    } else {
        lemma_decimal_text_digits(n as nat);
        let t = decimal_text(n as nat);
        assert(is_digit(t[0]));
    }
}

/// Reading the decimal text of a `u64` (as `to_string` writes it) gives the
/// number back.
pub proof fn lemma_unsigned_decimal_round_trip(n: u64)
    ensures
        decimal_u64(decimal_text(n as nat)) == Some(n),
{
    lemma_decimal_text_digits(n as nat);
    let t = decimal_text(n as nat);
    assert(is_digit(t[0]));
}

} // verus!

verus! {

/// The character at index `j` of the escaped characters, in front of any
/// text, is escaped as the code at index `j`, and that code is read back as
/// the character.
proof fn lemma_sf_code_step(j: int, s: Seq<char>)
    requires
        0 <= j < 11,
    ensures
        sf_escaped(sf_plain()[j] + s) == sf_codes()[j] + sf_escaped(s),
        sf_text(sf_codes()[j] + s) == sf_plain()[j] + sf_text(s),
{
    lemma_sf_tables();
    let t = sf_plain()[j] + s;
    assert(t.take(1) =~= sf_plain()[j]);
    assert forall|a: int| 0 <= a < sf_plain().len() && a != j implies #[trigger] sf_plain()[a]
        != sf_plain()[j] by {
        assert(sf_plain()[a][0] != sf_plain()[j][0]);
    }
    lemma_prefix_pattern_unique(sf_plain(), t, 0, j, 1);
    assert(t.skip(1) =~= s);
    let u = sf_codes()[j] + s;
    assert(u.take(2) =~= sf_codes()[j]);
    assert forall|a: int| 0 <= a < sf_codes().len() && a != j implies #[trigger] sf_codes()[a]
        != sf_codes()[j] by {
        assert(sf_codes()[a][1] != sf_codes()[j][1]);
    }
    lemma_prefix_pattern_unique(sf_codes(), u, 0, j, 2);
    assert(u.skip(2) =~= s);
}

/// Each character that the server escapes has its own fixed code, in front
/// of any text: a line break is written `$b`, `:` `$c`, `%` `$P`, `/` `$s`,
/// `|` `$p`, `&` `$+`, `"` `$q`, `#` `$r`, `,` `$C`, `;` `$S` and `$` `$d`;
/// and reading a text from the server turns each code back into its
/// character.
pub proof fn lemma_sf_codes_fixed(s: Seq<char>)
    ensures
        sf_escaped(seq!['\n'] + s) == seq!['$', 'b'] + sf_escaped(s),
        sf_escaped(seq![':'] + s) == seq!['$', 'c'] + sf_escaped(s),
        sf_escaped(seq!['%'] + s) == seq!['$', 'P'] + sf_escaped(s),
        sf_escaped(seq!['/'] + s) == seq!['$', 's'] + sf_escaped(s),
        sf_escaped(seq!['|'] + s) == seq!['$', 'p'] + sf_escaped(s),
        sf_escaped(seq!['&'] + s) == seq!['$', '+'] + sf_escaped(s),
        sf_escaped(seq!['"'] + s) == seq!['$', 'q'] + sf_escaped(s),
        sf_escaped(seq!['#'] + s) == seq!['$', 'r'] + sf_escaped(s),
        sf_escaped(seq![','] + s) == seq!['$', 'C'] + sf_escaped(s),
        sf_escaped(seq![';'] + s) == seq!['$', 'S'] + sf_escaped(s),
        sf_escaped(seq!['$'] + s) == seq!['$', 'd'] + sf_escaped(s),
        sf_text(seq!['$', 'b'] + s) == seq!['\n'] + sf_text(s),
        sf_text(seq!['$', 'c'] + s) == seq![':'] + sf_text(s),
        sf_text(seq!['$', 'P'] + s) == seq!['%'] + sf_text(s),
        sf_text(seq!['$', 's'] + s) == seq!['/'] + sf_text(s),
        sf_text(seq!['$', 'p'] + s) == seq!['|'] + sf_text(s),
        sf_text(seq!['$', '+'] + s) == seq!['&'] + sf_text(s),
        sf_text(seq!['$', 'q'] + s) == seq!['"'] + sf_text(s),
        sf_text(seq!['$', 'r'] + s) == seq!['#'] + sf_text(s),
        sf_text(seq!['$', 'C'] + s) == seq![','] + sf_text(s),
        sf_text(seq!['$', 'S'] + s) == seq![';'] + sf_text(s),
        sf_text(seq!['$', 'd'] + s) == seq!['$'] + sf_text(s),
{
    reveal_strlit("\n");
    reveal_strlit(":");
    reveal_strlit("%");
    reveal_strlit("/");
    reveal_strlit("|");
    reveal_strlit("&");
    reveal_strlit("\"");
    reveal_strlit("#");
    reveal_strlit(",");
    reveal_strlit(";");
    reveal_strlit("$");
    reveal_strlit("$b");
    reveal_strlit("$c");
    reveal_strlit("$P");
    reveal_strlit("$s");
    reveal_strlit("$p");
    reveal_strlit("$+");
    reveal_strlit("$q");
    reveal_strlit("$r");
    reveal_strlit("$C");
    reveal_strlit("$S");
    reveal_strlit("$d");
    assert(sf_plain()[0] =~= seq!['\n']);
    assert(sf_codes()[0] =~= seq!['$', 'b']);
    lemma_sf_code_step(0, s);
    assert(sf_plain()[1] =~= seq![':']);
    assert(sf_codes()[1] =~= seq!['$', 'c']);
    lemma_sf_code_step(1, s);
    assert(sf_plain()[2] =~= seq!['%']);
    assert(sf_codes()[2] =~= seq!['$', 'P']);
    lemma_sf_code_step(2, s);
    assert(sf_plain()[3] =~= seq!['/']);
    assert(sf_codes()[3] =~= seq!['$', 's']);
    lemma_sf_code_step(3, s);
    assert(sf_plain()[4] =~= seq!['|']);
    assert(sf_codes()[4] =~= seq!['$', 'p']);
    lemma_sf_code_step(4, s);
    assert(sf_plain()[5] =~= seq!['&']);
    assert(sf_codes()[5] =~= seq!['$', '+']);
    lemma_sf_code_step(5, s);
    assert(sf_plain()[6] =~= seq!['"']);
    assert(sf_codes()[6] =~= seq!['$', 'q']);
    lemma_sf_code_step(6, s);
    assert(sf_plain()[7] =~= seq!['#']);
    assert(sf_codes()[7] =~= seq!['$', 'r']);
    lemma_sf_code_step(7, s);
    assert(sf_plain()[8] =~= seq![',']);
    assert(sf_codes()[8] =~= seq!['$', 'C']);
    lemma_sf_code_step(8, s);
    assert(sf_plain()[9] =~= seq![';']);
    assert(sf_codes()[9] =~= seq!['$', 'S']);
    lemma_sf_code_step(9, s);
    assert(sf_plain()[10] =~= seq!['$']);
    assert(sf_codes()[10] =~= seq!['$', 'd']);
    lemma_sf_code_step(10, s);
}

} // verus!
