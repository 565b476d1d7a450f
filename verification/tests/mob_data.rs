use std::collections::HashMap;
use std::time::Duration;

use shroom_proto95::schemas::mob_data::{
    mob, mob_heal_skill, mob_skill, mob_skill_data, mob_skill_level, mob_summon_skill, MobBuffStat,
    MobCharStat, MobCounterStat, MobSkill, MobSkillKind, MobBanType, MobDataError, MobInfoRecord, MobMoveAbility,
    MobRecord, MobSkillEntryRecord, MobSkillLevelRecord, MobSkillRecord,
};
use shroom_proto95::schemas::records::{
    MobInfoBan, MobInfoBanBanMapValue, MobInfoLoseItemValue, Vec2,
};
use shroom_proto95::schemas::scalar::{Bool, StrOrNum};

fn empty_info() -> MobInfoRecord {
    MobInfoRecord {
        revive: HashMap::new(),
        max_hp: None,
        max_mp: None,
        acc: None,
        fixed_damage: None,
        exp: None,
        eva: None,
        hp_recovery: None,
        mp_recovery: None,
        speed: None,
        fly_speed: None,
        chase_speed: None,
        ma_damage: None,
        md_damage: None,
        md_rate: None,
        pa_damage: None,
        pd_damage: None,
        pd_rate: None,
        pushed: None,
        level: None,
        summon_type: None,
        rare_item_drop_level: None,
        point: None,
        link: None,
        hp_tag_color: None,
        hp_tag_bgcolor: None,
        elem_attr: None,
        damaged_by_mob: None,
        damaged_by_selected_skill: HashMap::new(),
        damaged_by_selected_mob: HashMap::new(),
        category: None,
        drop_item_period: None,
        buff: None,
        ban: None,
        lose_item: HashMap::new(),
        skill: HashMap::new(),
        anger_gauge: None,
        boss: None,
        body_attack: None,
        first_attack: None,
        explosive_reward: None,
        public_reward: None,
        cant_pass_by_teleport: None,
        do_not_remove: None,
        cannot_evade: None,
        not_attack: None,
        no_flip: None,
        no_doom: None,
        invincible: None,
        undead: None,
        remove_on_miss: None,
        remove_quest: None,
        upper_most_layer: None,
        h_pgauge_hide: None,
        ignore_field_out: None,
        escort: None,
    }
}

fn empty_level() -> MobSkillLevelRecord {
    MobSkillLevelRecord {
        summons: [None, None, None, None, None, None, None, None, None, None, None, None],
        count: None,
        elem_attr: None,
        hp: None,
        interval: None,
        limit: None,
        time: None,
        mob_count: None,
        mp_con: None,
        random_target: None,
        x: None,
        y: None,
        summon_effect: None,
        prop: None,
        lt: None,
        rb: None,
    }
}

fn record(info: MobInfoRecord, fly: bool, jump: bool, mv: bool) -> MobRecord {
    MobRecord { info: Some(info), has_fly: fly, has_jump: jump, has_move: mv, has_stop: true, has_stand: false }
}

#[test]
fn mob_skill_level_reads_numbers_and_summons() {
    let mut rec = empty_level();
    rec.summons[0] = Some(StrOrNum::Int(8500003));
    rec.summons[1] = Some(StrOrNum::Int(0));
    rec.summons[3] = Some(StrOrNum::parse("8500004").unwrap());
    rec.count = Some(StrOrNum::Int(3));
    rec.hp = Some(StrOrNum::parse("50").unwrap());
    rec.interval = Some(StrOrNum::Int(10));
    rec.limit = Some(StrOrNum::Int(1500));
    rec.time = Some(StrOrNum::Int(2000));
    rec.mp_con = Some(StrOrNum::Int(20));
    rec.random_target = Some(Bool::Int(1));
    rec.x = Some(StrOrNum::Int(-5));
    rec.elem_attr = Some("F".to_string());
    let r = mob_skill_level(&rec);
    assert_eq!(r.id, 0);
    assert_eq!(r.summon_mobs, vec![8500003, 8500004]);
    assert_eq!(r.count, Some(3));
    assert_eq!(r.hp, Some(50));
    assert_eq!(r.interval, Some(Duration::from_secs(10)));
    assert_eq!(r.limit, Some(Duration::from_millis(1500)));
    assert_eq!(r.time, Some(Duration::from_millis(2000)));
    assert_eq!(r.mob_count, None);
    assert_eq!(r.mp_con, 20);
    assert!(r.random_target);
    assert_eq!(r.x, Some(-5));
    assert_eq!(r.y, None);
    assert_eq!(r.summon_effect, None);
    assert_eq!(r.elem_attr.as_deref(), Some("F"));
}

#[test]
fn mob_skill_level_missing_fields() {
    let r = mob_skill_level(&empty_level());
    assert!(r.summon_mobs.is_empty());
    assert_eq!(r.mp_con, 0);
    assert!(!r.random_target);
    assert_eq!(r.interval, None);
}

#[test]
fn mob_skill_data_orders_levels() {
    let mut level = HashMap::new();
    let mut two = empty_level();
    two.mp_con = Some(StrOrNum::Int(30));
    let mut one = empty_level();
    one.mp_con = Some(StrOrNum::Int(10));
    level.insert("2".to_string(), two);
    level.insert("1".to_string(), one);
    let r = mob_skill_data(&MobSkillRecord { level });
    assert_eq!(r.levels.len(), 2);
    assert_eq!(r.levels[&1].mp_con, 10);
    assert_eq!(r.levels[&2].mp_con, 30);
}

#[test]
fn mob_reads_info() {
    let mut info = empty_info();
    info.max_hp = Some(StrOrNum::parse("1200").unwrap());
    info.exp = Some(StrOrNum::Int(45));
    info.eva = Some(7);
    info.level = Some(12);
    info.link = Some(StrOrNum::Int(100100));
    info.category = Some(258);
    info.drop_item_period = Some(30);
    info.buff = Some(StrOrNum::Int(2022123));
    info.elem_attr = Some("I2".to_string());
    info.boss = Some(Bool::Int(1));
    info.cant_pass_by_teleport = Some(Bool::parse("1").unwrap());
    info.undead = Some(Bool::parse("0").unwrap());
    info.damaged_by_mob = Some(Bool::Int(1));
    info.revive.insert("0".to_string(), StrOrNum::Int(100101));
    info.damaged_by_selected_skill.insert("0".to_string(), 2001004);
    info.lose_item.insert(
        "0".to_string(),
        MobInfoLoseItemValue {
            id: Some(4031000),
            lose_msg: Some("lost".to_string()),
            lose_msg_type: Some(2),
            not_drop: None,
            prop: None,
            x: None,
        },
    );
    info.skill.insert(
        "1".to_string(),
        MobSkillEntryRecord {
            action: Some(2),
            effect_after: Some(0),
            level: Some(StrOrNum::Int(3)),
            skill: Some(StrOrNum::Int(120)),
            skill_after: Some(500),
        },
    );
    info.skill.insert(
        "0".to_string(),
        MobSkillEntryRecord {
            action: Some(1),
            effect_after: Some(300),
            level: None,
            skill: Some(StrOrNum::Int(100)),
            skill_after: None,
        },
    );
    let m = mob(&record(info, false, true, false)).unwrap();
    assert_eq!(m.id, 0);
    assert_eq!(m.move_ability, MobMoveAbility::Jump);
    assert_eq!(m.max_hp, 1200);
    assert_eq!(m.max_mp, 0);
    assert_eq!(m.exp, 45);
    assert_eq!(m.eva, 7);
    assert_eq!(m.level, 12);
    assert_eq!(m.link, Some(100100));
    assert_eq!(m.category, 2);
    assert_eq!(m.drop_item_period, Some(Duration::from_secs(30)));
    assert_eq!(m.buff_reward, Some(2022123));
    assert_eq!(m.elem_attr, "I2");
    assert!(m.boss);
    assert!(!m.passable_by_teleport);
    assert!(!m.undead);
    assert!(m.damaged_by.mob);
    assert_eq!(m.damaged_by.selected_skill, vec![2001004]);
    assert!(m.damaged_by.selected_mob.is_empty());
    assert_eq!(m.revive, vec![100101]);
    assert_eq!(m.lose_items.len(), 1);
    assert_eq!(m.lose_items[0].id, 4031000);
    assert_eq!(m.lose_items[0].amount, 1);
    assert_eq!(m.lose_items[0].lose_msg, Some((2, "lost".to_string())));
    assert_eq!(m.skills.len(), 2);
    assert_eq!(m.skills[&0].skill, 100);
    assert_eq!(m.skills[&0].level, 0);
    assert_eq!(m.skills[&0].effect_after, Some(Duration::from_millis(300)));
    assert_eq!(m.skills[&1].action, 2);
    assert_eq!(m.skills[&1].effect_after, None);
    assert_eq!(m.skills[&1].skill_after, Some(Duration::from_millis(500)));
    assert!(m.ban_map.is_none());
    assert!(!m.can_fly);
    assert!(m.can_jump);
    assert!(m.has_stop);
    assert!(!m.has_stand);
}

#[test]
fn mob_move_ability_order() {
    let fly = mob(&record(empty_info(), true, true, true)).unwrap();
    assert_eq!(fly.move_ability, MobMoveAbility::Fly);
    let mv = mob(&record(empty_info(), false, true, true)).unwrap();
    assert_eq!(mv.move_ability, MobMoveAbility::Move);
    let stop = mob(&record(empty_info(), false, false, false)).unwrap();
    assert_eq!(stop.move_ability, MobMoveAbility::Stop);
    assert!(stop.passable_by_teleport);
}

#[test]
fn mob_ban_map() {
    let mut targets = HashMap::new();
    targets.insert(
        "0".to_string(),
        MobInfoBanBanMapValue { field: Some(100000000), portal: Some("sp".to_string()) },
    );
    let mut info = empty_info();
    info.ban = Some(MobInfoBan {
        ban_map: targets.clone(),
        ban_msg: Some("begone".to_string()),
        ban_msg_type: Some(1),
        ban_type: Some(-1),
    });
    let m = mob(&record(info, false, false, true)).unwrap();
    let ban = m.ban_map.unwrap();
    assert_eq!(ban.ban_type, MobBanType::MobSkill);
    assert_eq!(ban.target.field, 100000000);
    assert_eq!(ban.target.portal.as_deref(), Some("sp"));
    assert_eq!(ban.ban_msg.as_deref(), Some("begone"));
    assert_eq!(ban.msg_ty, Some(1));

    let mut bad = empty_info();
    bad.ban = Some(MobInfoBan { ban_map: targets, ban_msg: None, ban_msg_type: None, ban_type: Some(5) });
    assert_eq!(mob(&record(bad, false, false, true)).unwrap_err(), MobDataError::BanType(5));
    assert_eq!(MobBanType::from_code(0), Some(MobBanType::NoBan));
    assert_eq!(MobBanType::from_code(3), None);
}

#[test]
fn mob_summon_and_heal_skills() {
    let mut rec = empty_level();
    rec.summons[2] = Some(StrOrNum::Int(9300003));
    rec.limit = Some(StrOrNum::Int(6));
    rec.hp = Some(StrOrNum::Int(40));
    rec.mp_con = Some(StrOrNum::Int(15));
    rec.interval = Some(StrOrNum::Int(30));
    rec.x = Some(StrOrNum::Int(2000));
    let s = mob_summon_skill(&rec);
    assert_eq!(s.mobs, vec![9300003]);
    assert_eq!(s.limit, 6);
    assert_eq!(s.summon_effect, 0);
    assert_eq!(s.info.hp_threshold, Some(40));
    assert_eq!(s.info.mp_cost, 15);
    assert_eq!(s.info.interval, Some(Duration::from_secs(30)));
    let h = mob_heal_skill(&rec);
    assert_eq!(h.amount, 2000);
    assert_eq!(h.variance, 0);
}

#[test]
fn mob_skill_reads_by_kind() {
    let mut rec = empty_level();
    rec.x = Some(StrOrNum::Int(0));
    rec.y = Some(StrOrNum::Int(7));
    rec.time = Some(StrOrNum::Int(20));
    rec.prop = Some(StrOrNum::Int(60));
    rec.count = Some(StrOrNum::Int(3));
    rec.lt = Some(Vec2 { x: -100, y: -50 });
    rec.rb = Some(Vec2 { x: 100, y: 10 });
    match mob_skill(MobSkillKind::Buff(MobBuffStat::PowerUp), &rec) {
        MobSkill::Buff(MobBuffStat::PowerUp, b) => {
            assert_eq!(b.value, 0);
            assert_eq!(b.dur, Duration::from_secs(20));
        },
        other => panic!("{other:?}"),
    }
    match mob_skill(MobSkillKind::Counter(MobCounterStat::Magic), &rec) {
        MobSkill::Counter(MobCounterStat::Magic, c) => {
            assert_eq!(c.n, 0);
            assert_eq!(c.w, 7);
        },
        other => panic!("{other:?}"),
    }
    match mob_skill(MobSkillKind::CharBuff(MobCharStat::Seal), &rec) {
        MobSkill::CharBuff(MobCharStat::Seal, c) => {
            assert_eq!(c.value, 1);
            assert_eq!(c.skill_chance, Some(60));
            assert_eq!(c.range.unwrap().left, -100);
            assert_eq!(c.range.unwrap().bottom, 10);
        },
        other => panic!("{other:?}"),
    }
    match mob_skill(MobSkillKind::CharBuff(MobCharStat::Dispel), &rec) {
        MobSkill::CharBuff(MobCharStat::Dispel, c) => assert_eq!(c.value, 0),
        other => panic!("{other:?}"),
    }
    match mob_skill(MobSkillKind::AreaPoison, &rec) {
        MobSkill::AreaPoison(a) => {
            assert_eq!(a.prop, 60);
            assert_eq!(a.count, 3);
            assert_eq!(a.range.right, 100);
        },
        other => panic!("{other:?}"),
    }
    match mob_skill(MobSkillKind::SpreadFromUser, &rec) {
        MobSkill::SpreadFromUser(s) => {
            assert_eq!(s.count, 3);
            assert_eq!(s.spread_skill, 0);
        },
        other => panic!("{other:?}"),
    }
    assert!(matches!(mob_skill(MobSkillKind::Bind, &rec), MobSkill::Bind));
}
