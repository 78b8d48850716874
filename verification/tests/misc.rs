use sf_api::error::SFError;
use sf_api::misc::{
    cget, from_sf_string, i64_to_string, parse_i64, parse_u32, sha1_hash, split_by,
    to_sf_string, trim_text, u64_to_string,
};

#[test]
fn decimal_round_trip() {
    for n in [0i64, 1, -1, 9, 10, 12345, -98765, i64::MAX, i64::MIN] {
        assert_eq!(parse_i64(&i64_to_string(n)), Some(n));
        assert_eq!(i64_to_string(n), n.to_string());
    }
    assert_eq!(u64_to_string(u64::MAX), u64::MAX.to_string());
}

#[test]
fn parsing_numbers_as_std_does() {
    assert_eq!(parse_i64("+5"), Some(5));
    assert_eq!(parse_i64("-"), None);
    assert_eq!(parse_i64(""), None);
    assert_eq!(parse_i64("9223372036854775808"), None);
    assert_eq!(parse_u32("-0"), None);
    assert_eq!(parse_u32("4294967295"), Some(u32::MAX));
}

#[test]
fn server_strings_are_escaped_and_unescaped() {
    assert_eq!(to_sf_string("a/b:c"), "a$sb$cc");
    assert_eq!(from_sf_string("a$sb$cc"), "a/b:c");
    assert_eq!(to_sf_string("100$"), "100$d");
    assert_eq!(from_sf_string(&to_sf_string("I love sushi!")), "I love sushi!");
    assert_eq!(from_sf_string(&to_sf_string("a;b|c&d\"e#f,g%h$i\nj")), "a;b|c&d\"e#f,g%h$i\nj");
    for text in ["$b", "$$d", "$", "$$", "x$sy", "::$c"] {
        assert_eq!(from_sf_string(&to_sf_string(text)), text);
    }
    assert_eq!(to_sf_string("$b"), "$db");
    assert_eq!(from_sf_string("$db"), "$b");
    assert_eq!(from_sf_string("$x$"), "$x$");
}

#[test]
fn plain_text_is_sent_unchanged() {
    assert_eq!(to_sf_string("hello world"), "hello world");
    assert_eq!(from_sf_string("hello world"), "hello world");
}

#[test]
fn sha1_is_lower_case_hex() {
    assert_eq!(sha1_hash(""), "da39a3ee5e6b4b0d3255bfef95601890afd80709");
    assert_eq!(sha1_hash("abc"), "a9993e364706816aba3e25717850c26c9cd0d89d");
}

#[test]
fn too_short_arrays_are_reported() {
    assert_eq!(cget(&[1, 2], 1, "x").unwrap(), 2);
    match cget(&[1, 2], 2, "second") {
        Err(SFError::TooShortResponse { name, pos, array }) => {
            assert_eq!(name, "second");
            assert_eq!(pos, 2);
            assert_eq!(array, "[1, 2]");
        }
        other => panic!("unexpected {other:?}"),
    }
}

#[test]
fn splitting_and_trimming() {
    assert_eq!(split_by("a//b", '/'), vec!["a", "", "b"]);
    assert_eq!(split_by("", '/'), vec![""]);
    assert_eq!(trim_text("  x y \n"), "x y");
}
