use sf_api::gamestate::social::{Lookup, OtherPlayer};

fn player(id: u32, name: &str, level: u16) -> OtherPlayer {
    let mut p = OtherPlayer::default();
    p.player_id = id;
    p.name = name.to_string();
    p.level = level;
    p
}

#[test]
fn a_stored_player_is_read_back_by_id_and_name() {
    let mut l = Lookup::default();
    l.insert_lookup(player(7, "Bob", 12));
    l.insert_lookup(player(9, "Al", 3));
    assert_eq!(l.lookup_pid(7).unwrap().level, 12);
    assert_eq!(l.lookup_name("Bob").unwrap().player_id, 7);
    assert_eq!(l.lookup_name("Al").unwrap().level, 3);
    assert!(l.lookup_pid(8).is_none());
    assert!(l.lookup_name("Carl").is_none());
}

#[test]
fn storing_again_replaces_the_player() {
    let mut l = Lookup::default();
    l.insert_lookup(player(7, "Bob", 12));
    l.insert_lookup(player(7, "Bob", 13));
    assert_eq!(l.lookup_pid(7).unwrap().level, 13);
    assert_eq!(l.players.len(), 1);
}

#[test]
fn nameless_players_and_id_zero_are_not_stored() {
    let mut l = Lookup::default();
    l.insert_lookup(player(0, "Bob", 12));
    l.insert_lookup(player(5, "", 12));
    assert!(l.players.is_empty());
    assert!(l.lookup_name("Bob").is_none());
}

#[test]
fn removed_players_are_gone() {
    let mut l = Lookup::default();
    l.insert_lookup(player(7, "Bob", 12));
    l.insert_lookup(player(9, "Al", 3));
    assert_eq!(l.remove_pid(7).unwrap().name, "Bob");
    assert!(l.lookup_pid(7).is_none());
    assert_eq!(l.lookup_pid(9).unwrap().name, "Al");
    assert!(l.remove_pid(7).is_none());
    l.reset_lookups();
    assert!(l.lookup_pid(9).is_none());
}
