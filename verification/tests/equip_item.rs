use shroom_proto95::inventory::InventoryOperation;
use shroom_proto95::item::{
    equip_item_info, item_stack_data, EquipItemRecord, EquipLevelInfo, EquipStats, Item,
    ItemFlags, ItemInfo, MetaItemFlags, StackItemRecord,
};

fn flags() -> MetaItemFlags {
    MetaItemFlags {
        protected: true,
        prevent_slipping: false,
        prevent_coldness: false,
        untradeable: true,
        scissors_applied: false,
        sandbox: true,
        pet_come: false,
        account_sharing: false,
        merge_untradeable: true,
    }
}

fn stats() -> EquipStats {
    EquipStats {
        str: 5,
        dex: 0,
        int: 0,
        luk: 0,
        hp: 0,
        mp: 0,
        pad: 17,
        mad: 0,
        pdd: 0,
        mdd: 0,
        acc: 0,
        eva: 0,
        craft: 0,
        speed: 0,
        jump: 0,
    }
}

#[test]
fn item_flags_from_meta() {
    assert_eq!(ItemFlags::from_meta(flags()).bits, 0x1 | 0x8 | 0x40 | 0x200);
}

#[test]
fn equip_item_info_copies_fields() {
    let rec = EquipItemRecord {
        item_id: 1302000,
        cash_id: None,
        sn: Some(77),
        expiration: None,
        equipped_at: None,
        upgrade_slots: 7,
        upgrades: 0,
        stats: stats(),
        owner: None,
        flags: flags(),
        level_info: None,
        durability: -1,
        hammers_used: 0,
        grade: 0,
        stars: 0,
        options: [0, 0, 0],
        sockets: [0, 0],
    };
    let r = equip_item_info(&rec, 1234);
    assert_eq!(r.info, ItemInfo { item_id: 1302000, cash_id: None, expiration: None });
    assert!(r.info.has_sn());
    assert_eq!(r.stats.remaining_upgrade_slots, 7);
    assert_eq!(r.stats.stats.pad, 17);
    assert_eq!(r.stats.title, "");
    assert_eq!(r.stats.flags.bits, 0x249);
    assert_eq!(r.lvl, 0);
    assert_eq!(r.sn, Some(77));
    assert_eq!(r.equipped_at, 1234);
    assert_eq!(r.prev_bonus_exp_rate, -1);

    let mut owned = rec.clone();
    owned.owner = Some("hero".to_string());
    owned.equipped_at = Some(99);
    owned.level_info = Some(EquipLevelInfo { item_level_ty: 1, level: 3, exp: 500 });
    let r = equip_item_info(&owned, 1234);
    assert_eq!(r.stats.title, "hero");
    assert_eq!(r.equipped_at, 99);
    assert_eq!((r.lvl_up_ty, r.lvl, r.exp), (1, 3, 500));
}

#[test]
fn item_stack_data_writes_sn_for_rechargeable() {
    let rec = StackItemRecord {
        item_id: 2070000,
        cash_id: None,
        sn: Some(5),
        expiration: Some(10),
        quantity: 800,
        owner: Some("me".to_string()),
        flags: flags(),
        rechargeable: true,
    };
    let r = item_stack_data(&rec);
    assert_eq!(r.quantity, 800);
    assert_eq!(r.title, "me");
    assert_eq!(r.sn, Some(5));
    assert_eq!(r.info.expiration, Some(10));
    let mut plain = rec.clone();
    plain.rechargeable = false;
    assert_eq!(item_stack_data(&plain).sn, None);
}

#[test]
fn inventory_operations() {
    match InventoryOperation::remove(2, 5) {
        InventoryOperation::Remove(o) => assert_eq!((o.inv_type, o.pos), (2, 5)),
        other => panic!("{other:?}"),
    }
    assert!(matches!(InventoryOperation::update_exp(1, 3), InventoryOperation::Remove(_)));
    match InventoryOperation::update_quantity(2, 5, 9) {
        InventoryOperation::UpdateQuantity(o) => assert_eq!(o.quantity, 9),
        other => panic!("{other:?}"),
    }
    match InventoryOperation::mov(1, -1i16 as u16, 4) {
        InventoryOperation::Move(o) => assert_eq!((o.pos, o.new_pos), (0xffff, 4)),
        other => panic!("{other:?}"),
    }
    match InventoryOperation::add(4, 1, Item::Equipped) {
        InventoryOperation::Add(o) => assert!(matches!(o.item, Item::Equipped)),
        other => panic!("{other:?}"),
    }
}
