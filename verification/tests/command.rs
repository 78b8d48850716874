use sf_api::command::{Command, ExpeditionSetting, Flag, TimeSkip};
use sf_api::error::SFError;
use sf_api::gamestate::dungeons::{Dungeon, LightDungeon, ShadowDungeon};
use sf_api::gamestate::items::{ItemPlace, PlayerItemPlace};
use sf_api::gamestate::social::Relationship;
use sf_api::misc::sha1_hash;

fn req(c: Command) -> String {
    c.request_string().unwrap()
}

#[test]
fn simple_requests() {
    assert_eq!(req(Command::Update), "Poll:");
    assert_eq!(req(Command::BuyBeer), "PlayerBeerBuy:");
    assert_eq!(req(Command::GuildLoadMushrooms), "GroupIncreaseBuilding:0");
    assert_eq!(
        req(Command::HellevatorViewGuildRanking),
        "GroupTournamentRankingOwnGroup"
    );
    assert_eq!(req(Command::SwapManequin), "PlayerDummySwap:301/1");
}

#[test]
fn requests_with_numbers() {
    assert_eq!(
        req(Command::StartQuest { quest_pos: 0, overwrite_inv: true }),
        "PlayerAdventureStart:1/1"
    );
    assert_eq!(
        req(Command::HallOfFamePage { page: 2 }),
        "PlayerGetHallOfFame:128//25/25"
    );
    assert_eq!(
        req(Command::FinishQuest { skip: Some(TimeSkip::Glass) }),
        "PlayerAdventureFinished:2"
    );
    assert_eq!(req(Command::FinishQuest { skip: None }), "PlayerAdventureFinished:0");
    assert_eq!(req(Command::MessageDelete { pos: -1 }), "PlayerMessageDelete:-1");
    assert_eq!(req(Command::MessageDelete { pos: 3 }), "PlayerMessageDelete:4");
    assert_eq!(
        req(Command::UsePotion { from: ItemPlace::MainInventory, from_pos: 0 }),
        "PlayerItemMove:2/1/1/0/"
    );
    assert_eq!(
        req(Command::SetPlayerRelation { player_id: 5, relation: Relationship::Ignored }),
        "PlayerFriendSet:5/-1"
    );
    assert_eq!(
        req(Command::ShowTips { show_tips: false }),
        "PlayerTutorialStatus:268435455"
    );
    assert_eq!(
        req(Command::SetQuestsInsteadOfExpeditions { value: ExpeditionSetting::PreferExpeditions }),
        "UserSettingsUpdate:5/a"
    );
}

#[test]
fn requests_with_text() {
    assert_eq!(
        req(Command::Custom {
            cmd_name: "X".to_string(),
            arguments: vec!["a".to_string(), "b".to_string()]
        }),
        "X:a/b"
    );
    assert_eq!(
        req(Command::SetDescription { description: "a/b".to_string() }),
        "PlayerSetDescription:a$sb"
    );
    assert_eq!(req(Command::UpdateFlag { flag: Some(Flag::Germany) }), "PlayerSetFlag:de");
    assert_eq!(req(Command::UpdateFlag { flag: None }), "PlayerSetFlag:");
}

#[test]
fn login_hashes_the_password_hash_with_the_count() {
    let hash = sha1_hash("abc1");
    assert_eq!(
        req(Command::Login {
            username: "user".to_string(),
            pw_hash: "abc".to_string(),
            login_count: 1
        }),
        format!("AccountLogin:user/{hash}/1/unity3d_webglplayer//2100000000000///0/")
    );
}

#[test]
fn dungeon_fights() {
    assert_eq!(
        req(Command::FightDungeon {
            dungeon: Dungeon::Light(LightDungeon::MinesOfGloria),
            use_mushroom: false
        }),
        "PlayerDungeonBattle:2/0"
    );
    assert_eq!(
        req(Command::FightDungeon {
            dungeon: Dungeon::Shadow(ShadowDungeon::Twister),
            use_mushroom: true
        }),
        "PlayerDungeonBattle:15/1"
    );
    match (Command::FightDungeon {
        dungeon: Dungeon::Light(LightDungeon::Tower),
        use_mushroom: false,
    })
    .request_string()
    {
        Err(SFError::InvalidRequest(m)) => {
            assert_eq!(m, "The tower must be fought with the FightTower command")
        }
        other => panic!("unexpected {other:?}"),
    }
}

#[test]
fn selling_goes_to_the_chosen_shop() {
    let c = Command::SellShop { inventory: PlayerItemPlace::MainInventory, inventory_pos: 0 };
    assert_eq!(c.request_string_with(true, 2).unwrap(), "PlayerItemMove:2/1/4/3");
    assert_eq!(c.request_string_with(false, 0).unwrap(), "PlayerItemMove:2/1/3/1");
    let random = req(c);
    assert!(random.starts_with("PlayerItemMove:2/1/"));
}

#[test]
fn flag_codes_round_trip() {
    for f in [Flag::Argentina, Flag::Germany, Flag::Vietnam, Flag::UnitedStates] {
        assert_eq!(Flag::parse(f.code()), Some(f));
    }
    assert_eq!(Flag::parse(""), None);
    assert_eq!(Flag::parse("zz"), None);
}
