use sf_api::error::SFError;
use sf_api::response::{Response, ResponseVal};

fn val(v: &str) -> ResponseVal {
    ResponseVal { value: v.to_string(), sub_key: String::new() }
}

#[test]
fn parse_reads_keys_values_and_sub_keys() {
    let body = "Success:&ownplayername:Bob&ownplayersave.playerSave:1/2/3&maxrank(10):77&|".to_string();
    let r = Response::parse(body.clone(), 5).unwrap();
    assert_eq!(r.raw_response(), body.as_str());
    assert_eq!(r.received_at(), 5);
    assert_eq!(r.get("ownplayername").unwrap().as_str(), "Bob");
    let save = r.get("ownplayersave").unwrap();
    assert_eq!(save.sub_key(), "playerSave");
    assert_eq!(save.into_list("save").unwrap(), vec![1, 2, 3]);
    let rank = r.get("maxrank").unwrap();
    assert_eq!(rank.sub_key(), "10");
    assert_eq!(rank.into("rank").unwrap(), 77);
    assert!(r.get("Success").is_some());
    assert!(r.get("unknown").is_none());
    assert_eq!(r.values().len(), 4);
}

#[test]
fn parse_keeps_the_last_value_of_a_key() {
    let r = Response::parse("a:1&b:2&a:3".to_string(), 0).unwrap();
    assert_eq!(r.values().len(), 2);
    assert_eq!(r.get("a").unwrap().as_str(), "3");
}

#[test]
fn parse_skips_leading_characters_that_are_no_letters() {
    let r = Response::parse("123 \nkey:v".to_string(), 0).unwrap();
    assert_eq!(r.get("key").unwrap().as_str(), "v");
}

#[test]
fn parse_rewords_the_quest_index_error() {
    match Response::parse("error:adventure index must be 1-3".to_string(), 0) {
        Err(SFError::ServerError(msg)) => assert_eq!(msg, "quest index must be 0-2"),
        other => panic!("unexpected {other:?}"),
    }
    match Response::parse("Error:player not found".to_string(), 0) {
        Err(SFError::ServerError(msg)) => assert_eq!(msg, "player not found"),
        other => panic!("unexpected {other:?}"),
    }
}

#[test]
fn parse_refuses_a_body_that_is_no_response() {
    match Response::parse("hello there".to_string(), 0) {
        Err(SFError::ParsingError(name, body)) => {
            assert_eq!(name, "unexpected server response");
            assert_eq!(body, "hello there");
        }
        other => panic!("unexpected {other:?}"),
    }
    assert!(Response::parse("success".to_string(), 0).is_ok());
}

#[test]
fn into_trims_and_reads_numbers() {
    assert_eq!((&val(" 42 ")).into("x").unwrap(), 42);
    assert_eq!(val("-7").into_i32("x").unwrap(), -7);
    assert_eq!(val("65535").into_u16("x").unwrap(), 65535);
    assert!(val("65536").into_u16("x").is_err());
    assert_eq!(val("18446744073709551615").into_u64("x").unwrap(), u64::MAX);
    match val("abc").into_u32("the name") {
        Err(SFError::ParsingError(name, raw)) => {
            assert_eq!(name, "the name");
            assert_eq!(raw, "abc");
        }
        other => panic!("unexpected {other:?}"),
    }
}

#[test]
fn into_list_splits_at_slashes() {
    assert_eq!(val("1/2/3/").into_list("x").unwrap(), vec![1, 2, 3]);
    assert_eq!(val("").into_list("x").unwrap(), Vec::<i64>::new());
    assert_eq!(val(" /4/ 5 /").into_list("x").unwrap(), vec![4, 5]);
    assert_eq!(val("7/8").into_list_u32("x").unwrap(), vec![7, 8]);
    match val("1/x/3").into_list("list") {
        Err(SFError::ParsingError(name, raw)) => {
            assert_eq!(name, "list");
            assert_eq!(raw, "\"x\"");
        }
        other => panic!("unexpected {other:?}"),
    }
    assert!(val("-1").into_list_u32("x").is_err());
}

#[test]
fn into_big_list_reads_integers_of_any_size() {
    let v = val("007/-5/1_000/123456789012345678901234567890").into_big_list("x").unwrap();
    let texts: Vec<&str> = v.iter().map(|b| b.text.as_str()).collect();
    assert_eq!(texts, vec!["7", "-5", "1000", "123456789012345678901234567890"]);
    assert_eq!(v[0].to_u32(), Some(7));
    assert_eq!(v[1].to_u32(), None);
    assert_eq!(v[1].to_i64(), Some(-5));
    assert!(val("1/_2").into_big_list("x").is_err());
}

#[test]
fn a_value_prints_as_its_raw_text() {
    assert_eq!(val(" 7/8 ").to_string(), " 7/8 ");
    assert_eq!(val("").to_string(), "");
}
