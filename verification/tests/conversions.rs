use sf_api::command::{AttributeType, ShopType};
use sf_api::gamestate::character::Class;
use sf_api::gamestate::dungeons::{CompanionClass, Dungeon, LightDungeon, ShadowDungeon};
use sf_api::gamestate::items::{
    BagPosition, EquipmentPosition, ItemPlace, ItemPosition, PlayerItemPlace, PlayerItemPosition,
    PotionSize, PotionType,
};
use sf_api::gamestate::unlockables::HabitatType;

#[test]
fn bag_positions_split_into_the_two_inventories() {
    let p: PlayerItemPosition = BagPosition(3).into();
    assert_eq!(p, PlayerItemPosition { place: PlayerItemPlace::MainInventory, position: 3 });
    let p: PlayerItemPosition = BagPosition(7).into();
    assert_eq!(p, PlayerItemPosition { place: PlayerItemPlace::ExtendedInventory, position: 2 });
    let i: ItemPosition = BagPosition(7).into();
    assert_eq!(i, ItemPosition { place: ItemPlace::FortressChest, position: 2 });
    let i: ItemPosition = BagPosition(0).into();
    assert_eq!(i, ItemPosition { place: ItemPlace::MainInventory, position: 0 });
}

#[test]
fn equipment_positions_become_item_positions() {
    let p: PlayerItemPosition = EquipmentPosition(4).into();
    assert_eq!(p, PlayerItemPosition { place: PlayerItemPlace::Equipment, position: 4 });
    let i: ItemPosition = EquipmentPosition(9).into();
    assert_eq!(i, ItemPosition { place: ItemPlace::Equipment, position: 9 });
    let i: ItemPosition = PlayerItemPosition { place: PlayerItemPlace::ExtendedInventory, position: 1 }.into();
    assert_eq!(i, ItemPosition { place: ItemPlace::FortressChest, position: 1 });
}

#[test]
fn shops_and_attributes_convert() {
    assert_eq!(ItemPlace::from(ShopType::Weapon), ItemPlace::WeaponShop);
    assert_eq!(ItemPlace::from(ShopType::Magic), ItemPlace::MageShop);
    assert_eq!(PotionType::from(AttributeType::Luck), PotionType::Luck);
    assert_eq!(PotionType::from(AttributeType::Strength), PotionType::Strength);
    assert_eq!(AttributeType::from(HabitatType::Water), AttributeType::Strength);
    assert_eq!(AttributeType::from(HabitatType::Shadow), AttributeType::Constitution);
    assert_eq!(AttributeType::from(HabitatType::Fire), AttributeType::Luck);
}

#[test]
fn dungeons_and_companions_convert() {
    assert_eq!(Dungeon::from(LightDungeon::MinesOfGloria), Dungeon::Light(LightDungeon::MinesOfGloria));
    assert_eq!(Dungeon::from(ShadowDungeon::RuinsOfGnark), Dungeon::Shadow(ShadowDungeon::RuinsOfGnark));
    assert_eq!(Class::from(CompanionClass::Warrior), Class::Warrior);
    assert_eq!(Class::from(CompanionClass::Mage), Class::Mage);
    assert_eq!(Class::from(CompanionClass::Scout), Class::Scout);
}

#[test]
fn potion_sizes_are_ordered_by_their_effect() {
    assert!(PotionSize::Small < PotionSize::Medium);
    assert!(PotionSize::Medium < PotionSize::Large);
    assert!(PotionSize::Large > PotionSize::Small);
    assert!(PotionSize::Medium <= PotionSize::Medium);
    assert_eq!(PotionSize::Large.partial_cmp(&PotionSize::Medium), Some(std::cmp::Ordering::Greater));
}
