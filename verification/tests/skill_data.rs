use shroom_proto95::schemas::records::Vec2;
use shroom_proto95::schemas::scalar::{SkillExpr, StrOrNum};
use shroom_proto95::schemas::skill_data::{skill_common_info, SkillLevelRecord};

fn empty_level() -> SkillLevelRecord {
    SkillLevelRecord {
        acc: None,
        attack_count: None,
        cooltime: None,
        criticaldamage_max: None,
        damage: None,
        dot: None,
        dot_interval: None,
        dot_time: None,
        eva: None,
        hp_con: None,
        item_con: None,
        item_con_no: None,
        jump: None,
        lt: None,
        mad: None,
        mastery: None,
        mdd: None,
        mob_count: None,
        mp_con: None,
        pad: None,
        pdd: None,
        prop: None,
        range: None,
        rb: None,
        speed: None,
        time: None,
        x: None,
        y: None,
        z: None,
    }
}

#[test]
fn skill_common_info_reads_level() {
    let mut v = empty_level();
    v.mp_con = Some(12);
    v.damage = Some(StrOrNum::parse("150").unwrap());
    v.item_con = Some(4006000);
    v.lt = Some(Vec2 { x: -100, y: -50 });
    let r = skill_common_info(&v);
    assert!(matches!(r.mp_con, Some(SkillExpr::Int(12))));
    assert!(matches!(r.damage, Some(SkillExpr::Int(150))));
    assert!(matches!(r.item_con, Some(StrOrNum::Int(4006000))));
    assert_eq!(r.lt.map(|p| (p.x, p.y)), Some((-100, -50)));
    assert!(r.rb.is_none());
    assert!(r.pad.is_none());
    assert!(r.hp.is_none());
    assert!(r.action.is_none());
    assert!(r.max_level.is_none());
}
