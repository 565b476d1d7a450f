use std::collections::HashMap;
use std::time::Duration;

use shroom_proto95::schemas::item_data::{
    consumable_item, equip_item_flags, equip_req, item_info, state_change_item, CureSet,
    mastery_book_item, EquipInfoRecord, ItemInfoRecord, ItemRecord, ItemSpecRecord,
    MasteryBookRecord,
};
use shroom_proto95::schemas::scalar::{Bool, StrOrInt};

fn empty_spec() -> ItemSpecRecord {
    ItemSpecRecord {
        hp: None,
        mp: None,
        hp_r: None,
        mp_r: None,
        mhp_r: None,
        mmp_r: None,
        expinc: None,
        exp: None,
        acc: None,
        acc_rate: None,
        eva: None,
        eva_rate: None,
        speed: None,
        jump: None,
        speed_rate: None,
        move_to: None,
        ignore_continent: None,
        cp: None,
        buff_skill: None,
        seal: None,
        curse: None,
        poison: None,
        weakness: None,
        darkness: None,
        attack_index: None,
        barrier: None,
        berserk: None,
        bf_skill: None,
        dojangshield: None,
        mesoupbyitem: None,
        itemupbyitem: None,
        exp_buff: None,
        script: None,
        time: None,
        morph: None,
        pad: None,
        pdd: None,
        mad: None,
        mdd: None,
        thaw: None,
        inc_fatigue: None,
        booster: None,
        party: None,
    }
}

#[test]
fn state_change_item_reads_spec() {
    let mut s = empty_spec();
    s.hp = Some(70000);
    s.hp_r = Some(StrOrInt::parse("50").unwrap());
    s.acc = Some(StrOrInt::Variant1(5));
    s.exp = Some(10);
    s.expinc = Some(20);
    s.poison = Some(Bool::Int(1));
    s.darkness = Some(Bool::Int(0));
    s.time = Some(180000);
    s.booster = Some(-2);
    s.script = Some("run".to_string());
    s.party = Some(Bool::Int(1));
    s.pad = Some(12);
    let r = state_change_item(&ItemRecord { spec: Some(s) });
    assert_eq!(r.hp, 70000u32 as u16);
    assert_eq!(r.max_hp_ratio, 50);
    assert_eq!(r.max_mp_ratio, 0);
    assert_eq!(r.acc, 5);
    assert_eq!(r.exp, 20);
    assert_eq!(
        r.cure,
        CureSet { seal: false, curse: false, poison: true, weakness: false, darkness: false }
    );
    assert_eq!(r.time, Some(Duration::from_millis(180000)));
    assert_eq!(r.booster, Some(-2));
    assert_eq!(r.script.as_deref(), Some("run"));
    assert!(r.party);
    assert_eq!(r.pad, 12);
    assert_eq!(r.craft, 0);
    assert_eq!(r.move_to, None);
}

#[test]
fn consumable_item_reads_spec() {
    let mut s = empty_spec();
    s.mp = Some(300);
    s.mp_r = Some(StrOrInt::Variant1(100));
    s.exp = Some(7);
    s.mhp_r = Some(10);
    s.time = Some(60);
    s.move_to = Some(100000000);
    s.seal = Some(Bool::Int(1));
    let r = consumable_item(&ItemRecord { spec: Some(s) });
    assert_eq!(r.mp, 300);
    assert_eq!(r.mp_ratio, 100);
    assert_eq!(r.exp, 7);
    assert_eq!(r.max_hp_ratio, 10);
    assert_eq!(r.time, Some(Duration::from_secs(60)));
    assert_eq!(r.move_to, Some(100000000));
    assert!(r.cure.seal);
    assert!(!r.cure.curse);
}

#[test]
fn item_info_reads_flags_and_limits() {
    let mut req_map = HashMap::new();
    req_map.insert("0".to_string(), 100000000i64);
    let rec = ItemInfoRecord {
        account_sharable: None,
        cash: Some(Bool::Int(1)),
        expire_on_logout: None,
        not_extend: Some(Bool::Int(1)),
        not_sale: None,
        only: Some(Bool::Int(1)),
        pquest: None,
        quest: None,
        time_limited: None,
        trade_block: Some(Bool::Int(1)),
        inc_pad: Some(3),
        karma: None,
        req_level: Some(30),
        req_quest_on_progress: Some(2000),
        max: Some(StrOrInt::parse("5").unwrap()),
        price: Some(StrOrInt::Variant1(1200)),
        slot_max: None,
        req_map,
    };
    let r = item_info(&rec);
    assert_eq!(r.id, 0);
    assert!(r.flag.cash);
    assert!(r.flag.sell_able);
    assert!(!r.flag.extend_able);
    assert!(r.flag.unique);
    assert!(!r.flag.can_trade);
    assert!(!r.flag.quest_item);
    assert_eq!(r.slot_max, 1);
    assert_eq!(r.price, 1200);
    assert_eq!(r.req.level, Some(30));
    assert_eq!(r.req.fields, vec![100000000]);
    assert_eq!(r.pad, Some(3));
    assert_eq!(r.applyable_karma, None);
    assert_eq!(r.max, 5);
    assert_eq!(r.req_quest_on_progress, Some(2000));
}

fn equip_info() -> EquipInfoRecord {
    EquipInfoRecord {
        account_sharable: None,
        cash: None,
        drop_block: Some(Bool::Int(1)),
        equip_trade_block: None,
        expire_on_logout: None,
        hide: None,
        name_tag: None,
        not_extend: None,
        not_sale: None,
        only: None,
        only_equip: Some(Bool::Int(1)),
        quest: None,
        time_limited: None,
        trad_block: Some(Bool::Int(1)),
        trade_block: None,
        req_dex: Some(StrOrInt::parse("25").unwrap()),
        req_int: None,
        req_job: Some(-1),
        req_level: Some(35),
        req_luk: None,
        req_pop: Some(StrOrInt::Variant1(-5)),
        req_str: Some(StrOrInt::Variant1(300)),
    }
}

#[test]
fn equip_flags_and_requirements() {
    let v = equip_info();
    let f = equip_item_flags(&v);
    assert!(!f.can_drop);
    assert!(f.unique);
    assert!(f.can_trade);
    assert!(f.sell_able);
    assert!(f.extend_able);
    assert!(!f.cash);
    let r = equip_req(&v);
    assert_eq!(r.level, 35);
    assert_eq!(r.pop, -5);
    assert_eq!(r.str, 300);
    assert_eq!(r.dex, 25);
    assert_eq!(r.int, 0);
    assert_eq!(r.job, -1);
    assert_eq!(r.mob_level, 0);
}

#[test]
fn mastery_book_reads_skills() {
    let mut skill = HashMap::new();
    skill.insert("0".to_string(), 2121007i64);
    let r = mastery_book_item(&MasteryBookRecord {
        skill,
        master_level: Some(20),
        success: Some(StrOrInt::parse("70").unwrap()),
        req_skill_level: None,
    });
    assert_eq!(r.skills, vec![2121007]);
    assert_eq!(r.master_level, 20);
    assert_eq!(r.chance, 70);
    assert_eq!(r.required_skill_level, 0);
}
