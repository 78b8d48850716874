use sf_api::gamestate::unlockables::Achievements;
use sf_api::gamestate::tavern::ExpeditionThing;

#[test]
fn a_thing_needs_the_bounty_that_lists_it() {
    for id in -2i64..300 {
        let Some(thing) = ExpeditionThing::from_i64(id) else { continue };
        for bid in -2i64..300 {
            let Some(bounty) = ExpeditionThing::from_i64(bid) else { continue };
            let lists = bounty.is_bounty_for().map_or(false, |v| v.contains(&thing));
            assert_eq!(thing.required_bounty() == Some(bounty), lists);
        }
    }
    assert_eq!(ExpeditionThing::Dragon.required_bounty(), Some(ExpeditionThing::DragonBounty));
    assert_eq!(
        ExpeditionThing::DummyBounty.is_bounty_for(),
        Some(vec![ExpeditionThing::Dummy1, ExpeditionThing::Dummy2, ExpeditionThing::Dumy3])
    );
    assert_eq!(ExpeditionThing::Unknown.required_bounty(), None);
}

#[test]
fn owned_achievements_count_the_ones() {
    let mut a = Achievements(Vec::new());
    let data = [1i64, 0, 1, 2, 5, 6, 7, 8];
    assert!(a.update(&data).is_ok());
    assert_eq!(a.0.len(), 4);
    assert_eq!(a.owned(), 2);
    assert_eq!(a.0[3].progress, 8);
}
