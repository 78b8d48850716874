use vstd::prelude::*;

use crate::error::SFError;
use crate::gamestate::idle::{BigNum, bigint_value};
use crate::misc::{
    chars_of, decimal_i32, decimal_i64, decimal_u16, decimal_u32, decimal_u64, first_index,
    parse_i32, parse_i64, parse_u16, parse_u32, parse_u64, split_by, split_once_char,
    split_once_text, split_text, string_of, string_views, text_is, trim_end_char, trim_end_matches_char,
    signed_decimal_text, trim_start_chars, trim_start_matches_chars, trim_text, trim_white,
};

verus! {

// ---------------------------------------------------------------------------
// What std gives for characters and debug text
// ---------------------------------------------------------------------------

/// Holds of the characters beyond ASCII that have the Unicode property
/// `Alphabetic` in the tables of the standard library.
pub uninterp spec fn non_ascii_alphabetic(c: char) -> bool;

/// Holds of the characters that have the Unicode property `Alphabetic`: among
/// the ASCII characters exactly the letters `a` to `z` and `A` to `Z`.
pub open spec fn char_alphabetic(c: char) -> bool {
    if (c as u32) < 128 {
        ('a' <= c && c <= 'z') || ('A' <= c && c <= 'Z')
    } else {
        non_ascii_alphabetic(c)
    }
}

/// `char::is_alphabetic`: whether the character has the Unicode property
/// `Alphabetic`. Among ASCII characters these are the letters; beyond ASCII
/// the contract names the property, which Unicode fixes for each character.
#[verifier::external_body]
fn is_alphabetic(c: char) -> (r: bool)
    ensures
        r == char_alphabetic(c),
        (c as u32) >= 128 ==> r == non_ascii_alphabetic(c),
{
    c.is_alphabetic()
}

/// The text that std's `Debug` formatting gives for a string slice: the text
/// in double quotes, with special characters escaped.
pub uninterp spec fn debug_str_text(s: Seq<char>) -> Seq<char>;

/// Formats a string slice with std's `Debug` formatting
/// (`format!("{:?}", ..)`). The contract only names the result.
#[verifier::external_body]
fn debug_str(s: &str) -> (r: String)
    ensures
        r@ == debug_str_text(s@),
{
    format!("{s:?}")
}

// ---------------------------------------------------------------------------
// The format of a response body
// ---------------------------------------------------------------------------

/// The text without its leading characters that are not alphabetic.
pub open spec fn trim_start_non_alpha(s: Seq<char>) -> Seq<char>
    decreases s.len(),
{
    if s.len() > 0 && !char_alphabetic(s[0]) {
        trim_start_non_alpha(s.skip(1))
    } else {
        s
    }
}

/// The part of a response body that holds its entries: the body without the
/// `|` at its end and without what precedes its first letter.
pub open spec fn response_text(body: Seq<char>) -> Seq<char> {
    trim_start_non_alpha(trim_end_char(body, '|'))
}

/// Holds where `s` starts with `p`.
pub open spec fn starts_with(s: Seq<char>, p: Seq<char>) -> bool {
    p.len() <= s.len() && s.take(p.len() as int) == p
}

/// The text without the character `c` at either end, as `str::trim_matches`
/// with a character gives it.
pub open spec fn trim_char(s: Seq<char>, c: char) -> Seq<char> {
    trim_end_char(trim_start_chars(s, c, c), c)
}

/// The key, sub key and value of one part `key.sub:value`, `key(sub):value`
/// or `key:value` of a response; `None` for a part without `:` or with an
/// empty key.
pub open spec fn part_entry(part: Seq<char>) -> Option<(Seq<char>, Seq<char>, Seq<char>)> {
    match split_once_text(part, ':') {
        None => None,
        Some((full_key, value)) => {
            let (key, sub) = match split_once_text(full_key, '.') {
                Some((k, s)) => (k, s),
                None => match split_once_text(full_key, '(') {
                    Some((k, s)) => (k, trim_char(s, ')')),
                    None => (full_key, Seq::empty()),
                },
            };
            if key.len() == 0 {
                None
            } else {
                Some((key, sub, value))
            }
        },
    }
}

/// What the parts of a response map each key to: the sub key and the value
/// of the last part with that key.
pub open spec fn entries_map(parts: Seq<Seq<char>>) -> Map<Seq<char>, (Seq<char>, Seq<char>)>
    decreases parts.len(),
{
    if parts.len() == 0 {
        Map::empty()
    } else {
        let m = entries_map(parts.drop_last());
        match part_entry(parts.last()) {
            Some((k, s, v)) => m.insert(k, (s, v)),
            None => m,
        }
    }
}

/// The entries of a response body: its parts are separated by `&`.
pub open spec fn response_map(body: Seq<char>) -> Map<Seq<char>, (Seq<char>, Seq<char>)> {
    entries_map(split_text(response_text(body), '&'))
}

/// The message of a server error `error:message`. The one message of the
/// server that counts from 1 is reworded to count from 0, as the library does.
pub open spec fn server_error_message(text: Seq<char>) -> Seq<char> {
    let raw = match split_once_text(text, ':') {
        Some((_, b)) => b,
        None => Seq::empty(),
    };
    if raw == "adventure index must be 1-3"@ {
        "quest index must be 0-2"@
    } else {
        raw
    }
}

/// Holds of a body that is no server response: it has no `:` and does not
/// report success.
pub open spec fn is_unexpected(text: Seq<char>) -> bool {
    first_index(text, ':') is None && !starts_with(text, "success"@) && !starts_with(
        text,
        "Success"@,
    )
}

/// Holds of a body in which the server reports an error.
pub open spec fn is_server_error(text: Seq<char>) -> bool {
    starts_with(text, "error"@) || starts_with(text, "Error"@)
}

// ---------------------------------------------------------------------------
// Response values
// ---------------------------------------------------------------------------

/// The raw text that the server sent as the value of some key, with the sub
/// key that stood after the key (`.playerSave`, `(10)`, ...).
#[derive(Debug, Clone)]
pub struct ResponseVal {
    /// The raw value
    pub value: String,
    /// The sub key of the key, or the empty text
    pub sub_key: String,
}

/// The integers that a list value holds, as `into_list` reads them; `None`
/// where one of them is not a valid `i64`.
pub open spec fn list_values(pieces: Seq<Seq<char>>) -> Option<Seq<i64>>
    decreases pieces.len(),
{
    if pieces.len() == 0 {
        Some(Seq::empty())
    } else {
        match (list_values(pieces.drop_last()), decimal_i64(trim_white(pieces.last()))) {
            (Some(s), Some(v)) => Some(s.push(v)),
            _ => None,
        }
    }
}

/// The first piece of a list that is not a valid `i64`.
pub open spec fn first_bad_piece(pieces: Seq<Seq<char>>) -> Seq<char>
    decreases pieces.len(),
{
    if pieces.len() == 0 {
        Seq::empty()
    } else if list_values(pieces.drop_last()) is None {
        first_bad_piece(pieces.drop_last())
    } else {
        pieces.last()
    }
}

/// The text of a list value without `/`, ` ` and line breaks at its ends.
pub open spec fn trim_list(s: Seq<char>) -> Seq<char>
    decreases s.len(),
{
    if s.len() > 0 && (s[0] == '/' || s[0] == ' ' || s[0] == '\n') {
        trim_list(s.skip(1))
    } else if s.len() > 0 && (s.last() == '/' || s.last() == ' ' || s.last() == '\n') {
        trim_list(s.drop_last())
    } else {
        s
    }
}

/// The pieces of a non-empty list value.
pub open spec fn list_pieces(s: Seq<char>) -> Seq<Seq<char>> {
    split_text(trim_list(s), '/')
}

/// Holds of a list value of which each piece is a valid `i64`.
pub open spec fn list_ok(s: Seq<char>) -> bool {
    s.len() == 0 || list_values(list_pieces(s)) is Some
}

/// The integers of a valid list value.
pub open spec fn list_of(s: Seq<char>) -> Seq<i64> {
    if s.len() == 0 {
        Seq::empty()
    } else {
        list_values(list_pieces(s))->0
    }
}

/// The decimal texts of the big integers that a list value holds; `None`
/// where one of them is not a valid integer.
pub open spec fn big_list_values(pieces: Seq<Seq<char>>) -> Option<Seq<Seq<char>>>
    decreases pieces.len(),
{
    if pieces.len() == 0 {
        Some(Seq::empty())
    } else {
        match (big_list_values(pieces.drop_last()), bigint_value(trim_white(pieces.last()))) {
            (Some(s), Some(v)) => Some(s.push(signed_decimal_text(v))),
            _ => None,
        }
    }
}

/// The first piece of a list that is not a valid big integer.
pub open spec fn first_bad_big(pieces: Seq<Seq<char>>) -> Seq<char>
    decreases pieces.len(),
{
    if pieces.len() == 0 {
        Seq::empty()
    } else if big_list_values(pieces.drop_last()) is None {
        first_bad_big(pieces.drop_last())
    } else {
        pieces.last()
    }
}

/// The texts of some big integers.
pub open spec fn big_texts(v: Seq<BigNum>) -> Seq<Seq<char>> {
    v.map_values(|b: BigNum| b.text@)
}

/// The `u32` values that a list value holds; `None` where one of them is
/// not a valid `u32`.
pub open spec fn u32_list_values(pieces: Seq<Seq<char>>) -> Option<Seq<u32>>
    decreases pieces.len(),
{
    if pieces.len() == 0 {
        Some(Seq::empty())
    } else {
        match (u32_list_values(pieces.drop_last()), decimal_u32(trim_white(pieces.last()))) {
            (Some(s), Some(v)) => Some(s.push(v)),
            _ => None,
        }
    }
}

/// The first piece of a list that is not a valid `u32`.
pub open spec fn first_bad_u32(pieces: Seq<Seq<char>>) -> Seq<char>
    decreases pieces.len(),
{
    if pieces.len() == 0 {
        Seq::empty()
    } else if u32_list_values(pieces.drop_last()) is None {
        first_bad_u32(pieces.drop_last())
    } else {
        pieces.last()
    }
}

fn is_list_edge(c: char) -> (r: bool)
    ensures
        r == (c == '/' || c == ' ' || c == '\n'),
{
    c == '/' || c == ' ' || c == '\n'
}

fn trim_list_exec(s: &str) -> (r: String)
    ensures
        r@ == trim_list(s@),
{
    let cs = chars_of(s);
    let mut start: usize = 0;
    let mut end: usize = cs.len();
    assert(cs@.subrange(0, cs@.len() as int) =~= cs@);
    while start < end && is_list_edge(cs[start])
        invariant
            start <= end <= cs@.len(),
            end == cs@.len(),
            trim_list(cs@) == trim_list(cs@.subrange(start as int, end as int)),
        decreases end - start,
    {
        assert(cs@.subrange(start as int, end as int).skip(1) =~= cs@.subrange(
            start + 1,
            end as int,
        ));
        start = start + 1;
    }
    while start < end && is_list_edge(cs[end - 1])
        invariant
            start <= end <= cs@.len(),
            start < end ==> !(cs@[start as int] == '/' || cs@[start as int] == ' '
                || cs@[start as int] == '\n'),
            trim_list(cs@) == trim_list(cs@.subrange(start as int, end as int)),
        decreases end - start,
    {
        assert(cs@.subrange(start as int, end as int).drop_last() =~= cs@.subrange(
            start as int,
            end - 1,
        ));
        end = end - 1;
    }
    let (head, _) = cs.as_slice().split_at(end);
    let (_, mid) = head.split_at(start);
    assert(mid@ =~= cs@.subrange(start as int, end as int));
    string_of(mid)
}

impl ResponseVal {
    /// Reads the value as an `i64`, after trimming white space.
    ///
    /// # Errors
    /// A `ParsingError` with the raw value where it is no valid `i64`.
    pub fn into(&self, name: &'static str) -> (r: Result<i64, SFError>)
        ensures
            match decimal_i64(trim_white(self.value@)) {
                Some(v) => r == Ok::<i64, SFError>(v),
                None => r matches Err(SFError::ParsingError(n, s)) && n == name && s@
                    == self.value@,
            },
    {
        let t = trim_text(self.value.as_str());
        match parse_i64(t.as_str()) {
            Some(v) => Ok(v),
            None => Err(SFError::ParsingError(name, self.value.clone())),
        }
    }

    /// Reads the value as an `i32`, after trimming white space.
    ///
    /// # Errors
    /// A `ParsingError` with the raw value where it is no valid `i32`.
    pub fn into_i32(&self, name: &'static str) -> (r: Result<i32, SFError>)
        ensures
            match decimal_i32(trim_white(self.value@)) {
                Some(v) => r == Ok::<i32, SFError>(v),
                None => r matches Err(SFError::ParsingError(n, s)) && n == name && s@
                    == self.value@,
            },
    {
        let t = trim_text(self.value.as_str());
        match parse_i32(t.as_str()) {
            Some(v) => Ok(v),
            None => Err(SFError::ParsingError(name, self.value.clone())),
        }
    }

    /// Reads the value as a `u16`, after trimming white space.
    ///
    /// # Errors
    /// A `ParsingError` with the raw value where it is no valid `u16`.
    pub fn into_u16(&self, name: &'static str) -> (r: Result<u16, SFError>)
        ensures
            match decimal_u16(trim_white(self.value@)) {
                Some(v) => r == Ok::<u16, SFError>(v),
                None => r matches Err(SFError::ParsingError(n, s)) && n == name && s@
                    == self.value@,
            },
    {
        let t = trim_text(self.value.as_str());
        match parse_u16(t.as_str()) {
            Some(v) => Ok(v),
            None => Err(SFError::ParsingError(name, self.value.clone())),
        }
    }

    /// Reads the value as a `u32`, after trimming white space.
    ///
    /// # Errors
    /// A `ParsingError` with the raw value where it is no valid `u32`.
    pub fn into_u32(&self, name: &'static str) -> (r: Result<u32, SFError>)
        ensures
            match decimal_u32(trim_white(self.value@)) {
                Some(v) => r == Ok::<u32, SFError>(v),
                None => r matches Err(SFError::ParsingError(n, s)) && n == name && s@
                    == self.value@,
            },
    {
        let t = trim_text(self.value.as_str());
        match parse_u32(t.as_str()) {
            Some(v) => Ok(v),
            None => Err(SFError::ParsingError(name, self.value.clone())),
        }
    }

    /// Reads the value as a `u64`, after trimming white space.
    ///
    /// # Errors
    /// A `ParsingError` with the raw value where it is no valid `u64`.
    pub fn into_u64(&self, name: &'static str) -> (r: Result<u64, SFError>)
        ensures
            match decimal_u64(trim_white(self.value@)) {
                Some(v) => r == Ok::<u64, SFError>(v),
                None => r matches Err(SFError::ParsingError(n, s)) && n == name && s@
                    == self.value@,
            },
    {
        let t = trim_text(self.value.as_str());
        match parse_u64(t.as_str()) {
            Some(v) => Ok(v),
            None => Err(SFError::ParsingError(name, self.value.clone())),
        }
    }

    /// Reads the value as a list of integers separated by `/`. The empty
    /// value is the empty list.
    ///
    /// # Errors
    /// The `ParsingError` for the first piece that is no valid `i64`, with
    /// that piece in debug form.
    pub fn into_list(&self, name: &'static str) -> (r: Result<Vec<i64>, SFError>)
        ensures
            list_ok(self.value@) ==> (r matches Ok(v) && v@ == list_of(self.value@)),
            !list_ok(self.value@) ==> (r matches Err(SFError::ParsingError(n, s)) && n == name
                && s@ == debug_str_text(first_bad_piece(list_pieces(self.value@)))),
    {
        if self.value.as_str().is_empty() {
            return Ok(Vec::new());
        }
        let trimmed = trim_list_exec(self.value.as_str());
        let pieces = split_by(trimmed.as_str(), '/');
        let ghost ps = string_views(pieces@);
        assert(ps == list_pieces(self.value@));
        let mut out: Vec<i64> = Vec::new();
        let mut i: usize = 0;
        while i < pieces.len()
            invariant
                i <= pieces@.len(),
                ps == string_views(pieces@),
                ps == list_pieces(self.value@),
                self.value@.len() > 0,
                list_values(ps.take(i as int)) == Some(out@),
            decreases pieces@.len() - i,
        {
            assert(ps.take(i + 1).drop_last() =~= ps.take(i as int));
            assert(ps[i as int] == pieces@[i as int]@);
            let t = trim_text(pieces[i].as_str());
            match parse_i64(t.as_str()) {
                Some(v) => {
                    out.push(v);
                },
                None => {
                    proof {
                        lemma_list_values_prefix(ps, i as int + 1);
                        lemma_first_bad_prefix(ps, i as int + 1);
                        assert(first_bad_piece(ps.take(i + 1)) == ps[i as int]);
                    }
                    return Err(SFError::ParsingError(name, debug_str(pieces[i].as_str())));
                },
            }
            i = i + 1;
        }
        assert(ps.take(ps.len() as int) =~= ps);
        Ok(out)
    }

    /// Reads the value as a list of `u32` values separated by `/`. The empty
    /// value is the empty list.
    ///
    /// # Errors
    /// The `ParsingError` for the first piece that is no valid `u32`, with
    /// that piece in debug form.
    pub fn into_list_u32(&self, name: &'static str) -> (r: Result<Vec<u32>, SFError>)
        ensures
            self.value@.len() == 0 ==> (r matches Ok(v) && v@.len() == 0),
            self.value@.len() > 0 && u32_list_values(list_pieces(self.value@)) is Some ==> (r matches Ok(v)
                && v@ == u32_list_values(list_pieces(self.value@))->0),
            self.value@.len() > 0 && u32_list_values(list_pieces(self.value@)) is None ==> (r matches Err(
                SFError::ParsingError(n, s),
            ) && n == name && s@ == debug_str_text(first_bad_u32(list_pieces(self.value@)))),
    {
        if self.value.as_str().is_empty() {
            return Ok(Vec::new());
        }
        let trimmed = trim_list_exec(self.value.as_str());
        let pieces = split_by(trimmed.as_str(), '/');
        let ghost ps = string_views(pieces@);
        let mut out: Vec<u32> = Vec::new();
        let mut i: usize = 0;
        while i < pieces.len()
            invariant
                i <= pieces@.len(),
                ps == string_views(pieces@),
                ps == list_pieces(self.value@),
                self.value@.len() > 0,
                u32_list_values(ps.take(i as int)) == Some(out@),
            decreases pieces@.len() - i,
        {
            assert(ps.take(i + 1).drop_last() =~= ps.take(i as int));
            assert(ps[i as int] == pieces@[i as int]@);
            let t = trim_text(pieces[i].as_str());
            match parse_u32(t.as_str()) {
                Some(v) => {
                    out.push(v);
                },
                None => {
                    proof {
                        lemma_u32_values_prefix(ps, i as int + 1);
                        lemma_first_bad_u32_prefix(ps, i as int + 1);
                    }
                    return Err(SFError::ParsingError(name, debug_str(pieces[i].as_str())));
                },
            }
            i = i + 1;
        }
        assert(ps.take(ps.len() as int) =~= ps);
        Ok(out)
    }

    /// Reads the value as a list of big integers separated by `/`. The empty
    /// value is the empty list.
    ///
    /// # Errors
    /// The `ParsingError` for the first piece that is no valid integer, with
    /// that piece in debug form.
    pub fn into_big_list(&self, name: &'static str) -> (r: Result<Vec<BigNum>, SFError>)
        ensures
            self.value@.len() == 0 ==> (r matches Ok(v) && v@.len() == 0),
            self.value@.len() > 0 && big_list_values(list_pieces(self.value@)) is Some ==> (r matches Ok(v)
                && big_texts(v@) == big_list_values(list_pieces(self.value@))->0),
            self.value@.len() > 0 && big_list_values(list_pieces(self.value@)) is None ==> (r matches Err(
                SFError::ParsingError(n, s),
            ) && n == name && s@ == debug_str_text(first_bad_big(list_pieces(self.value@)))),
    {
        if self.value.as_str().is_empty() {
            return Ok(Vec::new());
        }
        let trimmed = trim_list_exec(self.value.as_str());
        let pieces = split_by(trimmed.as_str(), '/');
        let ghost ps = string_views(pieces@);
        let mut out: Vec<BigNum> = Vec::new();
        let mut i: usize = 0;
        while i < pieces.len()
            invariant
                i <= pieces@.len(),
                ps == string_views(pieces@),
                ps == list_pieces(self.value@),
                self.value@.len() > 0,
                big_list_values(ps.take(i as int)) == Some(big_texts(out@)),
            decreases pieces@.len() - i,
        {
            assert(ps.take(i + 1).drop_last() =~= ps.take(i as int));
            assert(ps[i as int] == pieces@[i as int]@);
            let t = trim_text(pieces[i].as_str());
            match BigNum::parse(t.as_str()) {
                Some(b) => {
                    let ghost before = out@;
                    out.push(b);
                    assert(big_texts(out@) =~= big_texts(before).push(b.text@));
                },
                None => {
                    proof {
                        lemma_big_values_prefix(ps, i as int + 1);
                        lemma_first_bad_big_prefix(ps, i as int + 1);
                    }
                    return Err(SFError::ParsingError(name, debug_str(pieces[i].as_str())));
                },
            }
            i = i + 1;
        }
        assert(ps.take(ps.len() as int) =~= ps);
        Ok(out)
    }

    /// The sub key that stood after the key of this value: `playerSave` for
    /// `ownplayersave.playerSave`, `10` for `key(10)`, else the empty text.
    pub fn sub_key(&self) -> (r: &str)
        ensures
            r@ == self.sub_key@,
    {
        self.sub_key.as_str()
    }

    /// The raw text that the server sent.
    pub fn as_str(&self) -> (r: &str)
        ensures
            r@ == self.value@,
    {
        self.value.as_str()
    }

    /// The raw text that the server sent, as an owned string: what the
    /// value shows when it is printed.
    pub fn to_string(&self) -> (r: String)
        ensures
            r@ == self.value@,
    {
        self.value.clone()
    }
}

/// Where the first `n` pieces hold a bad one, so do all pieces.
proof fn lemma_list_values_prefix(ps: Seq<Seq<char>>, n: int)
    requires
        0 <= n <= ps.len(),
        list_values(ps.take(n)) is None,
    ensures
        list_values(ps) is None,
    decreases ps.len() - n,
{
    if n < ps.len() {
        assert(ps.take(n + 1).drop_last() =~= ps.take(n));
        lemma_list_values_prefix(ps, n + 1);
    } else {
        assert(ps.take(n) =~= ps);
    }
}

/// The first bad piece of all pieces is that of the first `n` pieces, where
/// those hold a bad one.
proof fn lemma_first_bad_prefix(ps: Seq<Seq<char>>, n: int)
    requires
        0 <= n <= ps.len(),
        list_values(ps.take(n)) is None,
    ensures
        first_bad_piece(ps) == first_bad_piece(ps.take(n)),
    decreases ps.len() - n,
{
    if n < ps.len() {
        assert(ps.take(n + 1).drop_last() =~= ps.take(n));
        lemma_first_bad_prefix(ps, n + 1);
    } else {
        assert(ps.take(n) =~= ps);
    }
}


/// Where the first `n` pieces hold a bad big integer, so do all pieces.
proof fn lemma_big_values_prefix(ps: Seq<Seq<char>>, n: int)
    requires
        0 <= n <= ps.len(),
        big_list_values(ps.take(n)) is None,
    ensures
        big_list_values(ps) is None,
    decreases ps.len() - n,
{
    if n < ps.len() {
        assert(ps.take(n + 1).drop_last() =~= ps.take(n));
        lemma_big_values_prefix(ps, n + 1);
    } else {
        assert(ps.take(n) =~= ps);
    }
}

/// The first bad big integer of all pieces is that of the first `n` pieces,
/// where those hold one.
proof fn lemma_first_bad_big_prefix(ps: Seq<Seq<char>>, n: int)
    requires
        0 <= n <= ps.len(),
        big_list_values(ps.take(n)) is None,
    ensures
        first_bad_big(ps) == first_bad_big(ps.take(n)),
    decreases ps.len() - n,
{
    if n < ps.len() {
        assert(ps.take(n + 1).drop_last() =~= ps.take(n));
        lemma_first_bad_big_prefix(ps, n + 1);
    } else {
        assert(ps.take(n) =~= ps);
    }
}

/// Where the first `n` pieces hold a bad `u32`, so do all pieces.
proof fn lemma_u32_values_prefix(ps: Seq<Seq<char>>, n: int)
    requires
        0 <= n <= ps.len(),
        u32_list_values(ps.take(n)) is None,
    ensures
        u32_list_values(ps) is None,
    decreases ps.len() - n,
{
    if n < ps.len() {
        assert(ps.take(n + 1).drop_last() =~= ps.take(n));
        lemma_u32_values_prefix(ps, n + 1);
    } else {
        assert(ps.take(n) =~= ps);
    }
}

/// The first bad `u32` of all pieces is that of the first `n` pieces, where
/// those hold one.
proof fn lemma_first_bad_u32_prefix(ps: Seq<Seq<char>>, n: int)
    requires
        0 <= n <= ps.len(),
        u32_list_values(ps.take(n)) is None,
    ensures
        first_bad_u32(ps) == first_bad_u32(ps.take(n)),
    decreases ps.len() - n,
{
    if n < ps.len() {
        assert(ps.take(n + 1).drop_last() =~= ps.take(n));
        lemma_first_bad_u32_prefix(ps, n + 1);
    } else {
        assert(ps.take(n) =~= ps);
    }
}

// ---------------------------------------------------------------------------
// Responses
// ---------------------------------------------------------------------------

/// New information about the state of the server and/or the player: the raw
/// body that the server sent, its entries by key, and the (local) time at
/// which it was received, in seconds.
#[derive(Debug, Clone)]
pub struct Response {
    /// The raw body
    pub body: String,
    /// The entries of the body, each key once
    pub entries: Vec<(String, ResponseVal)>,
    /// The local time at which the response was received, so that time
    /// calculations stay correct where the response is kept a while before it
    /// is used
    pub received_at: i64,
}

/// The value of the last entry with key `k`, if there is one.
pub open spec fn last_value(e: Seq<(String, ResponseVal)>, k: Seq<char>) -> Option<ResponseVal>
    decreases e.len(),
{
    if e.len() == 0 {
        None
    } else if e.last().0@ == k {
        Some(e.last().1)
    } else {
        last_value(e.drop_last(), k)
    }
}

/// The sub key and value of a response value.
pub open spec fn val_view(v: ResponseVal) -> (Seq<char>, Seq<char>) {
    (v.sub_key@, v.value@)
}

/// Holds where no key occurs twice among the entries.
pub open spec fn keys_unique(e: Seq<(String, ResponseVal)>) -> bool {
    forall|i: int, j: int| 0 <= i < j < e.len() ==> #[trigger] e[i].0@ != #[trigger] e[j].0@
}

/// Holds where the entries hold exactly the keys of `m`, each once and with
/// its value in `m`.
pub open spec fn represents(
    e: Seq<(String, ResponseVal)>,
    m: Map<Seq<char>, (Seq<char>, Seq<char>)>,
) -> bool {
    &&& keys_unique(e)
    &&& forall|i: int|
        0 <= i < e.len() ==> m.contains_key(#[trigger] e[i].0@) && m[e[i].0@] == val_view(e[i].1)
    &&& forall|k: Seq<char>|
        #[trigger] m.contains_key(k) ==> exists|i: int| 0 <= i < e.len() && #[trigger] e[i].0@ == k
}

/// Sets the value of `key`: it replaces the value that the key had, or the
/// key is added at the end.
fn insert_entry(
    entries: &mut Vec<(String, ResponseVal)>,
    key: String,
    val: ResponseVal,
    Ghost(m): Ghost<Map<Seq<char>, (Seq<char>, Seq<char>)>>,
)
    requires
        represents(old(entries)@, m),
    ensures
        represents(final(entries)@, m.insert(key@, val_view(val))),
{
    let ghost e = entries@;
    let ghost m2 = m.insert(key@, val_view(val));
    let mut j: usize = 0;
    while j < entries.len()
        invariant
            j <= entries@.len(),
            entries@ == e,
            represents(e, m),
            m2 == m.insert(key@, val_view(val)),
            forall|k: int| 0 <= k < j ==> e[k].0@ != key@,
        decreases entries@.len() - j,
    {
        if entries[j].0 == key {
            let ghost kj = e[j as int].0@;
            entries.set(j, (key, val));
            assert forall|i: int| 0 <= i < entries@.len() implies m2.contains_key(
                #[trigger] entries@[i].0@,
            ) && m2[entries@[i].0@] == val_view(entries@[i].1) by {
                if i != j {
                    assert(entries@[i] == e[i]);
                    if i < j {
                        assert(e[i].0@ != e[j as int].0@);
                    } else {
                        assert(e[j as int].0@ != e[i].0@);
                    }
                }
            }
            assert forall|k: Seq<char>| #[trigger] m2.contains_key(k) implies exists|i: int|
                0 <= i < entries@.len() && #[trigger] entries@[i].0@ == k by {
                if k == key@ {
                    assert(entries@[j as int].0@ == k);
                } else {
                    let i = choose|i: int| 0 <= i < e.len() && #[trigger] e[i].0@ == k;
                    assert(entries@[i].0@ == k);
                }
            }
            assert forall|a: int, b: int| 0 <= a < b < entries@.len() implies #[trigger] entries@[
                a
            ].0@ != #[trigger] entries@[b].0@ by {
                assert(entries@[a].0@ == e[a].0@);
                assert(entries@[b].0@ == e[b].0@);
            }
            return;
        }
        j = j + 1;
    }
    entries.push((key, val));
    let ghost n = e.len() as int;
    assert forall|i: int| 0 <= i < entries@.len() implies m2.contains_key(
        #[trigger] entries@[i].0@,
    ) && m2[entries@[i].0@] == val_view(entries@[i].1) by {
        if i < n {
            assert(entries@[i] == e[i]);
        }
    }
    assert forall|k: Seq<char>| #[trigger] m2.contains_key(k) implies exists|i: int|
        0 <= i < entries@.len() && #[trigger] entries@[i].0@ == k by {
        if k == key@ {
            assert(entries@[n].0@ == k);
        } else {
            let i = choose|i: int| 0 <= i < e.len() && #[trigger] e[i].0@ == k;
            assert(entries@[i].0@ == k);
        }
    }
    assert forall|a: int, b: int| 0 <= a < b < entries@.len() implies #[trigger] entries@[
        a
    ].0@ != #[trigger] entries@[b].0@ by {
        if b == n {
            assert(entries@[a] == e[a]);
        } else {
            assert(entries@[a] == e[a]);
            assert(entries@[b] == e[b]);
        }
    }
}

/// The key, sub key and value of one part of a response.
fn part_entry_exec(part: &str) -> (r: Option<(String, String, String)>)
    ensures
        match part_entry(part@) {
            Some((k, s, v)) => r matches Some((a, b, c)) && a@ == k && b@ == s && c@ == v,
            None => r is None,
        },
{
    let (full_key, value) = match split_once_char(part, ':') {
        Some(x) => x,
        None => return None,
    };
    let (key, sub) = match split_once_char(full_key.as_str(), '.') {
        Some(x) => x,
        None => match split_once_char(full_key.as_str(), '(') {
            Some((k, s)) => {
                let t = trim_start_matches_chars(s.as_str(), ')', ')');
                (k, trim_end_matches_char(t.as_str(), ')'))
            },
            None => (full_key, String::new()),
        },
    };
    if key.as_str().is_empty() {
        None
    } else {
        Some((key, sub, value))
    }
}

/// The text without its leading characters that are not alphabetic.
fn trim_start_non_alpha_exec(s: &str) -> (r: String)
    ensures
        r@ == trim_start_non_alpha(s@),
{
    let cs = chars_of(s);
    let mut start: usize = 0;
    assert(cs@.skip(0) =~= cs@);
    while start < cs.len() && !is_alphabetic(cs[start])
        invariant
            start <= cs@.len(),
            trim_start_non_alpha(cs@) == trim_start_non_alpha(cs@.skip(start as int)),
        decreases cs@.len() - start,
    {
        assert(cs@.skip(start as int).skip(1) =~= cs@.skip(start + 1));
        start = start + 1;
    }
    let (_, rest) = cs.as_slice().split_at(start);
    assert(rest@ =~= cs@.skip(start as int));
    string_of(rest)
}

/// Holds where the text starts with `p`.
fn starts_with_exec(s: &str, p: &str) -> (r: bool)
    ensures
        r == starts_with(s@, p@),
{
    let cs = chars_of(s);
    let ps = chars_of(p);
    if ps.len() > cs.len() {
        return false;
    }
    let mut i: usize = 0;
    while i < ps.len()
        invariant
            i <= ps@.len() <= cs@.len(),
            cs@ == s@,
            ps@ == p@,
            forall|k: int| 0 <= k < i ==> cs@[k] == ps@[k],
        decreases ps@.len() - i,
    {
        if cs[i] != ps[i] {
            assert(s@.take(p@.len() as int)[i as int] != p@[i as int]);
            return false;
        }
        i = i + 1;
    }
    assert(s@.take(p@.len() as int) =~= p@);
    true
}

impl Response {
    /// The entries of the response, each key once.
    pub fn values(&self) -> (r: &[(String, ResponseVal)])
        ensures
            r@ == self.entries@,
    {
        self.entries.as_slice()
    }

    /// The raw body that the server sent. This should only be needed for
    /// debugging, caching, or a response format that is not supported yet.
    pub fn raw_response(&self) -> (r: &str)
        ensures
            r@ == self.body@,
    {
        self.body.as_str()
    }

    /// The local time at which the response was received.
    pub fn received_at(&self) -> (r: i64)
        ensures
            r == self.received_at,
    {
        self.received_at
    }

    /// The value of `key`, if the response has one (the last one, where it
    /// has several).
    pub fn get(&self, key: &str) -> (r: Option<&ResponseVal>)
        ensures
            match last_value(self.entries@, key@) {
                Some(v) => r matches Some(x) && *x == v,
                None => r is None,
            },
    {
        let key_chars = chars_of(key);
        let mut i: usize = self.entries.len();
        assert(self.entries@.take(i as int) =~= self.entries@);
        while i > 0
            invariant
                i <= self.entries@.len(),
                key_chars@ == key@,
                last_value(self.entries@, key@) == last_value(self.entries@.take(i as int), key@),
            decreases i,
        {
            assert(self.entries@.take(i as int).drop_last() =~= self.entries@.take(i - 1));
            if text_is(self.entries[i - 1].0.as_str(), key_chars.as_slice()) {
                return Some(&self.entries[i - 1].1);
            }
            i = i - 1;
        }
        None
    }

    /// Parses a response body of the server.
    ///
    /// # Errors
    /// - `ServerError`: where the server answered with an error
    /// - `ParsingError`: where the body does not follow the format of the
    ///   server's responses
    pub fn parse(og_body: String, received_at: i64) -> (r: Result<Response, SFError>)
        ensures
            is_unexpected(response_text(og_body@)) ==> (r matches Err(
                SFError::ParsingError(n, s),
            ) && n == "unexpected server response" && s@ == response_text(og_body@)),
            !is_unexpected(response_text(og_body@)) && is_server_error(response_text(og_body@))
                ==> (r matches Err(SFError::ServerError(s)) && s@ == server_error_message(
                response_text(og_body@),
            )),
            !is_unexpected(response_text(og_body@)) && !is_server_error(response_text(og_body@))
                ==> (r matches Ok(resp) && resp.body@ == og_body@ && resp.received_at
                == received_at && represents(resp.entries@, response_map(og_body@))),
    {
        let cut = trim_end_matches_char(og_body.as_str(), '|');
        let text = trim_start_non_alpha_exec(cut.as_str());
        let has_colon = split_once_char(text.as_str(), ':');
        if has_colon.is_none() && !starts_with_exec(text.as_str(), "success") && !starts_with_exec(
            text.as_str(),
            "Success",
        ) {
            proof {
                reveal_strlit("success");
                reveal_strlit("Success");
            }
            return Err(SFError::ParsingError("unexpected server response", text));
        }
        if starts_with_exec(text.as_str(), "error") || starts_with_exec(text.as_str(), "Error") {
            let raw = match has_colon {
                Some((_, b)) => b,
                None => String::new(),
            };
            let adventure = "adventure index must be 1-3".to_string();
            let msg = if raw == adventure {
                "quest index must be 0-2".to_string()
            } else {
                raw
            };
            return Err(SFError::ServerError(msg));
        }
        let pieces = split_by(text.as_str(), '&');
        let ghost ps = string_views(pieces@);
        let mut entries: Vec<(String, ResponseVal)> = Vec::new();
        let mut i: usize = 0;
        while i < pieces.len()
            invariant
                i <= pieces@.len(),
                ps == string_views(pieces@),
                represents(entries@, entries_map(ps.take(i as int))),
            decreases pieces@.len() - i,
        {
            assert(ps.take(i + 1).drop_last() =~= ps.take(i as int));
            assert(ps[i as int] == pieces@[i as int]@);
            match part_entry_exec(pieces[i].as_str()) {
                Some((key, sub_key, value)) => {
                    insert_entry(
                        &mut entries,
                        key,
                        ResponseVal { value, sub_key },
                        Ghost(entries_map(ps.take(i as int))),
                    );
                },
                None => {},
            }
            i = i + 1;
        }
        assert(ps.take(ps.len() as int) =~= ps);
        Ok(Response { body: og_body, entries, received_at })
    }
}

} // verus!

verus! {

/// Among entries with distinct keys, the last value of a key is the value of
/// the entry with that key.
proof fn lemma_last_value_unique(e: Seq<(String, ResponseVal)>, k: Seq<char>)
    requires
        keys_unique(e),
    ensures
        last_value(e, k) is None ==> forall|i: int| 0 <= i < e.len() ==> #[trigger] e[i].0@ != k,
        forall|i: int| 0 <= i < e.len() && #[trigger] e[i].0@ == k ==> last_value(e, k) == Some(e[i].1),
    decreases e.len(),
{
    if e.len() > 0 {
        let d = e.drop_last();
        assert(keys_unique(d)) by {
            assert forall|a: int, b: int| 0 <= a < b < d.len() implies #[trigger] d[a].0@ != #[trigger] d[b].0@ by {
                assert(d[a] == e[a] && d[b] == e[b]);
            }
        }
        lemma_last_value_unique(d, k);
        assert forall|i: int| 0 <= i < e.len() && #[trigger] e[i].0@ == k implies last_value(e, k) == Some(e[i].1) by {
            if i < e.len() - 1 {
                assert(d[i] == e[i]);
                assert(e[i].0@ != e[e.len() - 1].0@);
            }
        }
        if last_value(e, k) is None {
            assert forall|i: int| 0 <= i < e.len() implies #[trigger] e[i].0@ != k by {
                if i < e.len() - 1 {
                    assert(d[i] == e[i]);
                }
            }
        }
    }
}

/// A parsed response gives for each key the sub key and the value of the
/// last part of the body with that key, and nothing for a key that no part
/// of the body has.
pub proof fn lemma_parsed_lookup(entries: Seq<(String, ResponseVal)>, body: Seq<char>, k: Seq<char>)
    requires
        represents(entries, response_map(body)),
    ensures
        match last_value(entries, k) {
            Some(v) => response_map(body).contains_key(k) && response_map(body)[k] == val_view(v),
            None => !response_map(body).contains_key(k),
        },
{
    lemma_last_value_unique(entries, k);
    let m = response_map(body);
    if m.contains_key(k) {
        let i = choose|i: int| 0 <= i < entries.len() && #[trigger] entries[i].0@ == k;
        assert(last_value(entries, k) == Some(entries[i].1));
    } else {
        if last_value(entries, k) is Some {
            lemma_last_value_found(entries, k);
        }
    }
}

/// Where a key has a last value, some entry has that key.
proof fn lemma_last_value_found(e: Seq<(String, ResponseVal)>, k: Seq<char>)
    requires
        last_value(e, k) is Some,
    ensures
        exists|i: int| 0 <= i < e.len() && #[trigger] e[i].0@ == k && e[i].1 == last_value(e, k)->0,
    decreases e.len(),
{
    if e.last().0@ == k {
        assert(e[e.len() - 1].0@ == k);
    } else {
        lemma_last_value_found(e.drop_last(), k);
        let i = choose|i: int| 0 <= i < e.drop_last().len() && #[trigger] e.drop_last()[i].0@ == k
            && e.drop_last()[i].1 == last_value(e.drop_last(), k)->0;
        assert(e[i] == e.drop_last()[i]);
    }
}

} // verus!
