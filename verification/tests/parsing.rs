use sf_api::gamestate::guild::ChatMessage;
use sf_api::gamestate::idle::BigNum;
use sf_api::gamestate::unlockables::ScrapBook;

#[test]
fn big_numbers_are_read_canonically() {
    assert_eq!(BigNum::parse("007").unwrap().text, "7");
    assert_eq!(BigNum::parse("-0012").unwrap().text, "-12");
    let huge = "123456789012345678901234567890";
    let b = BigNum::parse(huge).unwrap();
    assert_eq!(b.text, huge);
    assert_eq!(b.to_i64(), None);
    assert_eq!(BigNum::parse("42").unwrap().to_u32(), Some(42));
    assert!(BigNum::parse("1x").is_none());
    assert!(BigNum::parse("").is_none());
}

#[test]
fn chat_messages_are_read_with_their_time() {
    let msgs = ChatMessage::parse_messages("12:30 Bob:\u{a7} hi$sthere/bad/07:05 Al:ok");
    assert_eq!(msgs.len(), 2);
    assert_eq!(msgs[0].user, "Bob");
    assert_eq!(msgs[0].time, 12 * 3600 + 30 * 60);
    assert_eq!(msgs[0].message, "hi/there");
    assert_eq!(msgs[1].user, "Al");
    assert_eq!(msgs[1].time, 7 * 3600 + 5 * 60);
    assert_eq!(msgs[1].message, "ok");
    assert!(ChatMessage::parse_messages("25:00 Bob:x").is_empty());
}

#[test]
fn scrapbooks_are_decoded_bit_by_bit() {
    let book = ScrapBook::parse("wA==").unwrap();
    assert_eq!(book.monster, vec![1, 2]);
    assert!(book.items.is_empty());
    assert!(ScrapBook::parse("AA==").is_none());
    assert!(ScrapBook::parse("!!").is_none());
}

use sf_api::gamestate::character::Class;
use sf_api::gamestate::items::EquipmentSlot;
use sf_api::gamestate::unlockables::{parse_scrapbook_item, EquipmentIdent};

fn ident(class: Option<Class>, typ: EquipmentSlot, model_id: u16, color: u8) -> EquipmentIdent {
    EquipmentIdent { class, typ, model_id, color }
}

#[test]
fn scrapbook_indices_name_items() {
    assert_eq!(parse_scrapbook_item(801), Some(ident(None, EquipmentSlot::Amulet, 1, 1)));
    assert_eq!(parse_scrapbook_item(805), Some(ident(None, EquipmentSlot::Amulet, 1, 5)));
    assert_eq!(parse_scrapbook_item(806), Some(ident(None, EquipmentSlot::Amulet, 2, 1)));
    assert_eq!(parse_scrapbook_item(810), Some(ident(None, EquipmentSlot::Amulet, 2, 5)));
    assert_eq!(parse_scrapbook_item(1011), Some(ident(None, EquipmentSlot::Amulet, 50, 1)));
    assert_eq!(parse_scrapbook_item(1253), Some(ident(None, EquipmentSlot::Talisman, 3, 1)));
    assert_eq!(
        parse_scrapbook_item(1365),
        Some(ident(Some(Class::Warrior), EquipmentSlot::Weapon, 1, 1))
    );
    assert_eq!(
        parse_scrapbook_item(4224),
        Some(ident(Some(Class::Scout), EquipmentSlot::Belt, 89, 1))
    );
    assert_eq!(parse_scrapbook_item(1954), None);
    assert_eq!(parse_scrapbook_item(1955), None);
    assert_eq!(parse_scrapbook_item(800), None);
    assert_eq!(parse_scrapbook_item(4225), None);
}

use sf_api::gamestate::items::Inventory;

#[test]
fn the_backpack_splits_into_bag_and_chest() {
    let mut inv = Inventory { backpack: vec![None; 7] };
    let (bag, chest) = inv.as_split_mut();
    assert_eq!((bag.len(), chest.len()), (5, 2));
    let (bag, chest) = inv.as_split();
    assert_eq!((bag.len(), chest.len()), (5, 2));
    let mut small = Inventory { backpack: vec![None; 3] };
    let (bag, chest) = small.as_split_mut();
    assert_eq!((bag.len(), chest.len()), (0, 0));
    assert_eq!(small.backpack.len(), 3);
    assert_eq!(inv.count_free_slots(), 7);
    assert_eq!(inv.free_slot().map(|p| p.0), Some(0));
}
