use sf_api::command::{DiceType, ExpeditionSetting, Flag};
use sf_api::gamestate::social::Relationship;
use sf_api::gamestate::character::Class;
use sf_api::error::SFError;
use sf_api::gamestate::rewards::{Event, EventTaskTheme};
use sf_api::gamestate::unlockables::{Hellevator, Witch};
use sf_api::gamestate::items::EquipmentSlot;
use sf_api::gamestate::{GameState, ServerTime};
use sf_api::gamestate::dungeons::{Dungeon, DungeonProgress, LightDungeon, Portal, dungeon_enemy};
use sf_api::response::Response;

fn player_save() -> Vec<i64> {
    let mut save = vec![0i64; 700];
    save[1] = 42;
    save[7] = 30 | (3 << 16);
    save[8] = 1000;
    save[27] = 1;
    save[29] = 1;
    for i in 0..6 {
        save[288 + 12 * i] = 3;
        save[361 + 12 * i] = 3;
    }
    save[445] = 5 << 16;
    save
}

fn login_body() -> String {
    let save: Vec<String> = player_save().iter().map(|v| v.to_string()).collect();
    format!(
        "ownplayername:Bob&ownplayersave.playerSave:{}&owndescription:I love sushi$s\
         &timestamp:1700000000&wagesperhour:15&skipallow:1&usersettings:en/0/0/0/a\
         &inboxcapacity:100&messagetext:hi$cthere&maxrank:5000",
        save.join("/")
    )
}

#[test]
fn a_login_response_builds_the_state() {
    let resp = Response::parse(login_body(), 1_699_999_000).unwrap();
    let gs = GameState::new(&resp).unwrap();
    assert_eq!(gs.character.name, "Bob");
    assert_eq!(gs.character.player_id, 42);
    assert_eq!(gs.character.level, 30);
    assert_eq!(gs.arena.fights_for_xp, 3);
    assert_eq!(gs.character.experience, 1000);
    assert_eq!(gs.character.description, "I love sushi/");
    assert_eq!(gs.tavern.guard_wage, 15);
    assert!(gs.tavern.mushroom_skip_allowed);
    assert_eq!(gs.tavern.questing_preference, ExpeditionSetting::PreferExpeditions);
    assert_eq!(gs.mail.inbox_capacity, 100);
    assert_eq!(gs.mail.open_msg.as_deref(), Some("hi:there"));
    assert_eq!(gs.hall_of_fames.players_total, 5000);
    assert_eq!(gs.server_time().0, 1000);
    assert_eq!(gs.last_request_timestamp, 1_700_000_000);
    assert_eq!(gs.shops[0].items.len(), 6);
    // The guild was only created by the player save and has no name.
    assert!(gs.guild.is_none());
    assert!(gs.pets.is_none());
    assert!(gs.fortress.is_none());
}

#[test]
fn a_response_without_a_player_is_refused() {
    let resp = Response::parse("Success:".to_string(), 0).unwrap();
    match GameState::new(&resp) {
        Err(SFError::ParsingError(name, _)) => {
            assert_eq!(name, "response did not contain full player state")
        }
        other => panic!("unexpected {other:?}"),
    }
}

#[test]
fn a_lost_session_is_a_connection_error() {
    let resp = Response::parse("cryptoid not found:1".to_string(), 0).unwrap();
    let mut gs = GameState::default();
    match gs.update(&resp) {
        Err(SFError::ConnectionError) => {}
        other => panic!("unexpected {other:?}"),
    }
}

#[test]
fn a_bad_timestamp_is_refused() {
    let resp = Response::parse("timestamp:soon".to_string(), 0).unwrap();
    let mut gs = GameState::default();
    match gs.update(&resp) {
        Err(SFError::ParsingError(name, _)) => assert_eq!(name, "server time stamp"),
        other => panic!("unexpected {other:?}"),
    }
}

#[test]
fn short_user_settings_are_reported() {
    let resp = Response::parse("usersettings:en/0".to_string(), 0).unwrap();
    let mut gs = GameState::default();
    match gs.update(&resp) {
        Err(SFError::TooShortResponse { name, pos, array }) => {
            assert_eq!(name, "questing setting");
            assert_eq!(pos, 4);
            assert_eq!(array, "[\"en\", \"0\"]");
        }
        other => panic!("unexpected {other:?}"),
    }
}

#[test]
fn times_of_the_server() {
    let st = ServerTime(100);
    assert_eq!(st.convert_to_local(0, "x"), None);
    assert_eq!(st.convert_to_local(11, "x"), None);
    assert_eq!(st.convert_to_local(-1, "x"), None);
    assert_eq!(st.convert_to_local(5, "x"), None);
    assert_eq!(st.convert_to_local(1_700_000_000, "x"), Some(1_699_999_900));
    assert_eq!(ServerTime(0).next_midnight_at(0), 0);
    assert_eq!(ServerTime(0).next_midnight_at(86_399), 1);
    assert_eq!(ServerTime(3600).next_midnight_at(0), 82_800);
    assert!(ServerTime(0).next_midnight() < 86_400);
}

#[test]
fn better_ranks_get_better_rewards() {
    let mut h = Hellevator::default();
    h.brackets = vec![3, 5, 10];
    assert_eq!(h.rank_to_rewards_rank(1), Some(1));
    assert_eq!(h.rank_to_rewards_rank(3), Some(1));
    assert_eq!(h.rank_to_rewards_rank(4), Some(2));
    assert_eq!(h.rank_to_rewards_rank(9), Some(3));
    assert_eq!(h.rank_to_rewards_rank(18), Some(3));
    assert_eq!(h.rank_to_rewards_rank(19), None);
}

#[test]
fn single_keys_set_their_fields() {
    let body = format!(
        "{}&dragongoldbonus:77&unlockfeature:3/4/0/9/5&scrapbook:wA==",
        login_body()
    );
    let resp = Response::parse(body, 1_699_999_000).unwrap();
    let mut gs = GameState::new(&resp).unwrap();
    assert_eq!(gs.character.mount_dragon_refund, 77);
    assert_eq!(gs.pending_unlocks.len(), 1);
    assert_eq!(gs.pending_unlocks[0].main_ident, 3);
    assert_eq!(gs.pending_unlocks[0].sub_ident, 4);
    assert_eq!(gs.character.scrapbook.as_ref().unwrap().monster, vec![1, 2]);
    let later = Response::parse("dragongoldbonus:1&dragongoldbonus:2".to_string(), 0).unwrap();
    gs.update(&later).unwrap();
    assert_eq!(gs.character.mount_dragon_refund, 2);
    assert_eq!(gs.character.name, "Bob");
    let bad = Response::parse("dragongoldbonus:x".to_string(), 0).unwrap();
    assert!(gs.update(&bad).is_err());
}

#[test]
fn events_and_event_tasks_are_read() {
    let body = format!(
        "{}&tavernspecialsub:5&tavernspecialend:1700003600&eventtaskinfo:1700000100/1700000200/3",
        login_body()
    );
    let resp = Response::parse(body, 1_699_999_000).unwrap();
    let gs = GameState::new(&resp).unwrap();
    assert_eq!(
        gs.specials.events.active,
        vec![Event::ExceptionalXPEvent, Event::TidyToiletTime]
    );
    assert_eq!(gs.specials.events.ends, Some(1_700_002_600));
    assert_eq!(gs.specials.tasks.event.theme, EventTaskTheme::RankClimber);
    assert_eq!(gs.specials.tasks.event.start, Some(1_699_999_100));
    assert_eq!(gs.specials.tasks.event.end, Some(1_699_999_200));
}

#[test]
fn halls_of_fame_keep_the_entries_that_parse() {
    let resp = Response::parse(login_body(), 1_699_999_000).unwrap();
    let mut gs = GameState::new(&resp).unwrap();
    let page = Response::parse(
        "Ranklistplayer:;1,Bob,Knights,30,100,1,de;broken;2,Al,,20,50,2;&maxrankgroup:77\
         &ranklistgroup:3,Knights,Bob,12,400,1;x&RanklistPets:4,Cy,,80,9,0"
            .to_string(),
        0,
    )
    .unwrap();
    gs.update(&page).unwrap();
    let players = &gs.hall_of_fames.players;
    assert_eq!(players.len(), 2);
    assert_eq!(players[0].rank, 1);
    assert_eq!(players[0].name, "Bob");
    assert_eq!(players[0].guild.as_deref(), Some("Knights"));
    assert_eq!(players[0].class, Class::Warrior);
    assert_eq!(players[0].flag, Some(Flag::Germany));
    assert_eq!(players[1].name, "Al");
    assert_eq!(players[1].guild, None);
    assert_eq!(players[1].class, Class::Mage);
    assert_eq!(gs.hall_of_fames.guilds_total, Some(77));
    assert_eq!(gs.hall_of_fames.guilds.len(), 1);
    assert!(gs.hall_of_fames.guilds[0].is_attacked);
    assert_eq!(gs.hall_of_fames.guilds[0].member_count, 12);
    assert_eq!(gs.hall_of_fames.pets.len(), 1);
    assert_eq!(gs.hall_of_fames.pets[0].collected, 80);
    assert_eq!(gs.hall_of_fames.players_total, 5000);
    let mail = Response::parse("messagelist:;nothing;&combatloglist:,,,,;".to_string(), 0).unwrap();
    gs.update(&mail).unwrap();
    assert!(gs.mail.inbox.is_empty());
    assert!(gs.mail.combat_log.is_empty());
}

#[test]
fn lists_of_the_character_are_read() {
    let resp = Response::parse(login_body(), 1_699_999_000).unwrap();
    let mut gs = GameState::new(&resp).unwrap();
    let more = Response::parse(
        "dicestatus:1/2/0&friendlist:5,Al,Knights,12,1;6,Cy,,3,-1;bad;&calenderinfo:3/10/4\
         &eventtasklist:1/2/3/4/9&dailytasklist:0/7/1/5/6&gttime:1700000100/1700000200/0/1700000300"
            .to_string(),
        0,
    )
    .unwrap();
    gs.update(&more).unwrap();
    assert_eq!(
        gs.tavern.dice_game.current_dice,
        vec![DiceType::Silver, DiceType::Stone, DiceType::ReRoll]
    );
    let rel = &gs.character.relations;
    assert_eq!(rel.len(), 2);
    assert_eq!((rel[0].id, rel[0].name.as_str(), rel[0].level), (5, "Al", 12));
    assert_eq!(rel[0].relation, Relationship::Friend);
    assert_eq!(rel[1].relation, Relationship::Ignored);
    assert_eq!(gs.specials.calendar.rewards.len(), 1);
    assert_eq!(gs.specials.calendar.rewards[0].amount, 10);
    assert_eq!(gs.specials.tasks.event.tasks.len(), 1);
    assert_eq!(gs.specials.tasks.event.tasks[0].current, 2);
    assert_eq!(gs.specials.tasks.event.tasks[0].target, 3);
    assert_eq!(gs.specials.tasks.daily.tasks.len(), 1);
    assert_eq!(gs.specials.tasks.daily.tasks[0].point_reward, 6);
    assert_eq!(gs.hellevator.start, Some(1_699_999_100));
    assert_eq!(gs.hellevator.collect_time_end, Some(1_699_999_300));
    let bad_dice = Response::parse("dicestatus:1/300".to_string(), 0).unwrap();
    gs.update(&bad_dice).unwrap();
    assert!(gs.tavern.dice_game.current_dice.is_empty());
}

#[test]
fn fortress_halls_of_fame_and_other_guilds_are_read() {
    let resp = Response::parse(login_body(), 1_699_999_000).unwrap();
    let mut gs = GameState::new(&resp).unwrap();
    let page = Response::parse(
        "Ranklistfortress:1,Bob,,12,300;bad&unknownkey:whatever&othergroupname:Owls\
         &othergroupmember:Al,Bo&othergrouprank:7"
            .to_string(),
        0,
    )
    .unwrap();
    gs.update(&page).unwrap();
    assert_eq!(gs.hall_of_fames.fortresses.len(), 1);
    assert_eq!(gs.hall_of_fames.fortresses[0].upgrade, 12);
    let owls = gs.lookup.guilds.iter().find(|g| g.name == "Owls").unwrap();
    assert_eq!(owls.rank, 7);
    assert_eq!(owls.members.len(), 2);
    assert_eq!(owls.members[1].name, "Bo");
    let bad = Response::parse("othergrouprank:x".to_string(), 0).unwrap();
    assert!(gs.update(&bad).is_err());
}

#[test]
fn witch_progress_is_capped_at_full() {
    let mut w = Witch::default();
    let data = [0i64, 30, 20, 1, 0, 0, 0, 0, 0, 0];
    assert!(w.update(&data).is_ok());
    assert_eq!(w.required_item, Some(EquipmentSlot::Weapon));
    assert_eq!(w.progress, 100);
    let data = [0i64, 29, 100, 1, 0, 0, 0, 0, 0, 0];
    assert!(w.update(&data).is_ok());
    assert_eq!(w.progress, 29);
}

#[test]
fn a_guild_rank_alone_leaves_no_guild() {
    let resp = Response::parse("owngrouprank:3".to_string(), 0).unwrap();
    let mut gs = GameState::default();
    assert!(gs.update(&resp).is_ok());
    assert!(gs.guild.is_none());
    let named = Response::parse("owngrouprank:3&owngroupname:Knights".to_string(), 0).unwrap();
    assert!(gs.update(&named).is_ok());
    let guild = gs.guild.as_ref().unwrap();
    assert_eq!(guild.name, "Knights");
    assert_eq!(guild.rank, 3);
}

#[test]
fn an_unreadable_wage_names_its_value() {
    let resp = Response::parse("wagesperhour:abc".to_string(), 0).unwrap();
    let mut gs = GameState::default();
    match gs.update(&resp) {
        Err(SFError::ParsingError(name, raw)) => {
            assert_eq!(name, "tavern wage");
            assert_eq!(raw, "abc");
        }
        other => panic!("unexpected {other:?}"),
    }
}

#[test]
fn the_first_bad_entry_decides_the_error() {
    let resp = Response::parse("maxrank:x&cryptoid not found:1".to_string(), 0).unwrap();
    let mut gs = GameState::default();
    match gs.update(&resp) {
        Err(SFError::ParsingError(name, raw)) => {
            assert_eq!(name, "player count");
            assert_eq!(raw, "x");
        }
        other => panic!("unexpected {other:?}"),
    }
}

#[test]
fn a_login_without_a_level_is_refused() {
    let resp = Response::parse("ownplayername:Bob".to_string(), 0).unwrap();
    match GameState::new(&resp) {
        Err(SFError::ParsingError(name, raw)) => {
            assert_eq!(name, "response did not contain full player state");
            assert!(raw.is_empty());
        }
        other => panic!("unexpected {other:?}"),
    }
}

#[test]
fn a_fight_of_an_earlier_response_is_cleared() {
    let mut gs = GameState::default();
    let fight = Response::parse("fightgroups:1,2,3".to_string(), 0).unwrap();
    let _ = gs.update(&fight);
    let plain = Response::parse("maxrank:10".to_string(), 0).unwrap();
    assert!(gs.update(&plain).is_ok());
    assert!(gs.last_fight.is_none());
    assert_eq!(gs.hall_of_fames.players_total, 10);
}

#[test]
fn a_portal_fought_today_can_not_be_fought() {
    let today = chrono::Datelike::ordinal(&chrono::Local::now().naive_local()) as i64;
    let mut portal = Portal::default();
    assert!(portal.update(&[3, 50, today], ServerTime::default()).is_ok());
    assert_eq!(portal.finished, 3);
    assert_eq!(portal.enemy_hp_percentage, 50);
    assert!(!portal.can_fight);
    assert!(portal.update(&[3, 50, 400], ServerTime::default()).is_ok());
    assert!(portal.can_fight);
}

#[test]
fn the_next_enemy_follows_the_finished_stages() {
    let first = dungeon_enemy(
        Dungeon::Light(LightDungeon::DesecratedCatacombs),
        DungeonProgress::Open { finished: 0 },
    )
    .unwrap();
    assert_eq!(first.level, 10);
    assert_eq!(first.class, Class::Mage);
    assert_eq!(first.attributes, [48, 52, 104, 77, 47]);
    assert_eq!(first.hp, 1694);
    assert_eq!(first.xp, 1287);
    let second = dungeon_enemy(
        Dungeon::Light(LightDungeon::DesecratedCatacombs),
        DungeonProgress::Open { finished: 1 },
    )
    .unwrap();
    assert_eq!(second.level, 12);
    assert!(dungeon_enemy(
        Dungeon::Light(LightDungeon::DesecratedCatacombs),
        DungeonProgress::Open { finished: 10 },
    )
    .is_none());
    assert!(dungeon_enemy(Dungeon::Light(LightDungeon::Hell), DungeonProgress::Locked).is_none());
    assert!(dungeon_enemy(Dungeon::Light(LightDungeon::Hell), DungeonProgress::Finished).is_none());
    let mut d = sf_api::gamestate::dungeons::Dungeons::default();
    assert!(d.current_enemy(Dungeon::Light(LightDungeon::Tower)).is_none());
    d.update_progress(&[1, 0], sf_api::gamestate::dungeons::DungeonType::Light);
    let e = d.current_enemy(Dungeon::Light(LightDungeon::MinesOfGloria)).unwrap();
    assert_eq!(e.level, 20);
}

#[test]
fn achievements_and_the_smith_are_read_in_an_update() {
    let resp = Response::parse(
        "achievement:1/0/1/7/8/9&smith:4/1700000000&timestamp:1700000000".to_string(),
        1_700_000_000,
    )
    .unwrap();
    let mut gs = GameState::default();
    assert!(gs.update(&resp).is_ok());
    assert_eq!(gs.achievements.0.len(), 3);
    assert_eq!(gs.achievements.owned(), 2);
    assert_eq!(gs.achievements.0[2].progress, 9);
    let smith = gs.blacksmith.unwrap();
    assert_eq!(smith.dismantle_left, 4);
    assert!(smith.last_dismantled.is_some());
    assert!(gs.guild.is_none());
}

#[test]
fn readable_keys_of_every_part_succeed() {
    let body = "owngrouprank:3&fortresspricereroll:7&maxpetlevel:40&resources:0/1/2/3/4/5/6/7/8/9/10/11/12/13/14/15/16\
                &smith:2/0&expeditionevent:0/0&portalprogress:5/50/400&otherplayerfriendstatus:1\
                &othergrouprank:4&fightversion:2&winnerid1:9&fightgroups:x";
    let resp = Response::parse(body.to_string(), 0).unwrap();
    let mut gs = GameState::default();
    assert!(gs.update(&resp).is_ok());
    assert_eq!(gs.character.mushrooms, 1);
    assert_eq!(gs.blacksmith.unwrap().dismantle_left, 2);
    assert_eq!(gs.dungeons.portal.unwrap().finished, 5);
}

#[test]
fn unreadable_keys_of_other_parts_name_their_errors() {
    let mut gs = GameState::default();
    let short = Response::parse("resources:0/1/2".to_string(), 0).unwrap();
    match gs.update(&short) {
        Err(SFError::TooShortResponse { name, pos, array }) => {
            assert_eq!(name, "quicksand glass count");
            assert_eq!(pos, 4);
            assert_eq!(array, "[0, 1, 2]");
        }
        other => panic!("unexpected {other:?}"),
    }
    let bad = Response::parse("fortressprice:1/x".to_string(), 0).unwrap();
    match gs.update(&bad) {
        Err(SFError::ParsingError(name, raw)) => {
            assert_eq!(name, "fortress upgrade prices");
            assert_eq!(raw, "\"x\"");
        }
        other => panic!("unexpected {other:?}"),
    }
    let rank = Response::parse("othergrouprank:high".to_string(), 0).unwrap();
    match gs.update(&rank) {
        Err(SFError::ParsingError(name, raw)) => {
            assert_eq!(name, "other group rank");
            assert_eq!(raw, "high");
        }
        other => panic!("unexpected {other:?}"),
    }
}

#[test]
fn a_timestamp_beyond_the_calendar_is_refused() {
    let resp = Response::parse("timestamp:9000000000000".to_string(), 0).unwrap();
    let mut gs = GameState::default();
    match gs.update(&resp) {
        Err(SFError::ParsingError(name, _)) => assert_eq!(name, "server time stamp"),
        other => panic!("unexpected {other:?}"),
    }
    let ok = Response::parse("timestamp:8000000000000".to_string(), 0).unwrap();
    assert!(gs.update(&ok).is_ok());
}
