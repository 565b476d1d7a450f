use std::collections::HashMap;
use std::time::Duration;

use shroom_proto95::schemas::mapping::{
    map_bool, map_interval, map_range, map_range_len, map_to_list, IntoBool, IntoNum, MetaCirc,
    MetaRect, MetaVec2, QuestRange, SchemaCirc, SchemaRect,
};
use shroom_proto95::schemas::pattern::{FieldLifeValueType, IntStr, NumStr, Str};
use shroom_proto95::schemas::quest_act::{
    map_quest_item, map_quest_items, quest_act_items, QuestItemAct, RewardItemAct, TakeItemAct,
};
use shroom_proto95::schemas::records::{IdCountProp, Vec2};
use shroom_proto95::schemas::scalar::{
    Bool, FieldInfoMode, MobInfoMobType, SkillExpr, StrOrInt, StrOrNum,
};
use shroom_proto95::schemas::text::{format_i64, parse_i64, parse_unsigned};

#[test]
fn parse_i64_reads_like_from_str() {
    assert_eq!(parse_i64("0"), Some(0));
    assert_eq!(parse_i64("+42"), Some(42));
    assert_eq!(parse_i64("-9223372036854775808"), Some(i64::MIN));
    assert_eq!(parse_i64("9223372036854775807"), Some(i64::MAX));
    assert_eq!(parse_i64("9223372036854775808"), None);
    assert_eq!(parse_i64(""), None);
    assert_eq!(parse_i64("-"), None);
    assert_eq!(parse_i64("1.5"), None);
    for s in ["12", "-7", "+3", "00", "x", "1 ", "99999999999999999999"] {
        assert_eq!(parse_i64(s), s.parse::<i64>().ok(), "{s}");
    }
}

#[test]
fn parse_unsigned_reads_like_from_str() {
    assert_eq!(parse_unsigned("4294967295", u32::MAX as u64), Some(4294967295));
    assert_eq!(parse_unsigned("4294967296", u32::MAX as u64), None);
    assert_eq!(parse_unsigned("-1", u64::MAX), None);
    assert_eq!(parse_unsigned("+17", u64::MAX), Some(17));
    for s in ["0", "18446744073709551615", "18446744073709551616", "a", ""] {
        assert_eq!(parse_unsigned(s, u64::MAX), s.parse::<u64>().ok(), "{s}");
    }
}

#[test]
fn format_i64_writes_like_display() {
    for v in [0i64, 7, -7, 10, 1234567890, i64::MIN, i64::MAX] {
        assert_eq!(format_i64(v), v.to_string());
        assert_eq!(parse_i64(&format_i64(v)), Some(v));
    }
}

#[test]
fn str_pattern() {
    assert_eq!(Str::parse("1").unwrap().as_str(), "1");
    assert_eq!(Str::parse("10").unwrap().as_str(), "10");
    assert_eq!(Str::parse("20").unwrap().as_str(), "20");
    let e = Str::parse("21").unwrap_err();
    assert_eq!(e.to_string(), "doesn't match pattern \"^1|0$\"");
    let s: Str = "0".parse().unwrap();
    assert_eq!(String::from(s), "0");
}

#[test]
fn int_and_num_patterns() {
    assert!(IntStr::parse("-12").is_ok());
    assert!(IntStr::parse("12").is_ok());
    assert_eq!(
        IntStr::parse("1a").unwrap_err().to_string(),
        "doesn't match pattern \"^(-)?\\d+$\""
    );
    assert!(NumStr::parse("1.5").is_ok());
    assert!(NumStr::parse("-1").is_err());
    assert!(FieldLifeValueType::parse("n").is_ok());
    assert!(FieldLifeValueType::parse("x").is_err());
}

#[test]
fn bool_parse_and_value() {
    match Bool::parse("1").unwrap() {
        Bool::Str(s) => assert_eq!(s.as_str(), "1"),
        Bool::Int(_) => panic!("expected the text variant"),
    }
    match Bool::parse("21").unwrap() {
        Bool::Int(v) => assert_eq!(v, 21),
        Bool::Str(_) => panic!("expected the number variant"),
    }
    assert_eq!(
        Bool::parse("x").unwrap_err().to_string(),
        "string conversion failed for all variants"
    );
    assert!(bool::from(Bool::parse("1").unwrap()));
    assert!(!bool::from(Bool::parse("0").unwrap()));
    assert!(!bool::from(Bool::parse("10").unwrap()));
    assert!(bool::from(Bool::Int(-3)));
    assert!(!bool::from(&Bool::Int(0)));
    assert_eq!(Bool::Int(-4).to_string(), "-4");
}

#[test]
fn str_or_num_variants() {
    match StrOrNum::parse("3.5").unwrap() {
        StrOrNum::NumStr(s) => assert_eq!(s.as_str(), "3.5"),
        StrOrNum::Int(_) => panic!("expected the text variant"),
    }
    match StrOrNum::parse("-3").unwrap() {
        StrOrNum::Int(v) => assert_eq!(v, -3),
        StrOrNum::NumStr(_) => panic!("expected the number variant"),
    }
    assert_eq!(StrOrNum::parse("17").unwrap().to_i64(), 17);
    assert_eq!(StrOrNum::parse("17").unwrap().to_u32(), 17);
    assert_eq!(StrOrNum::Int(-1).to_u32(), u32::MAX);
    assert_eq!(StrOrInt::parse("-8").unwrap().into_num(), -8);
    assert!(StrOrInt::parse("1a").is_err());
    assert_eq!(StrOrInt::from(5).to_string(), "5");
}

#[test]
fn text_variants_take_every_text() {
    match FieldInfoMode::parse("12").unwrap() {
        FieldInfoMode::Variant0(s) => assert_eq!(s, "12"),
        FieldInfoMode::Variant1(_) => panic!("expected the text variant"),
    }
    match MobInfoMobType::parse("boss").unwrap() {
        MobInfoMobType::Variant0(s) => assert_eq!(s, "boss"),
        MobInfoMobType::Variant1(_) => panic!("expected the text variant"),
    }
    assert_eq!(SkillExpr::Int(-2).to_string(), "-2");
    assert_eq!(SkillExpr::Expr("x+1".to_string()).to_string(), "x+1");
    let v: i64 = 9;
    match SkillExpr::from(&v) {
        SkillExpr::Int(x) => assert_eq!(x, 9),
        SkillExpr::Expr(_) => panic!("expected a number"),
    }
    match SkillExpr::from_str_or_num(&StrOrNum::parse("44").unwrap()) {
        SkillExpr::Int(x) => assert_eq!(x, 44),
        SkillExpr::Expr(_) => panic!("expected a number"),
    }
}

#[test]
fn into_num_defaults() {
    assert_eq!(None::<i64>.into_num(), 0);
    assert_eq!(Some(5i64).into_num(), 5);
    assert_eq!(None::<StrOrNum>.into_num(), 0);
    assert_eq!(Some(StrOrNum::Int(3)).into_num(), 3);
    assert_eq!(None::<StrOrInt>.into_num(), 0);
    assert_eq!(7i64.into_num(), 7);
    assert!(!None::<Bool>.into_bool());
    assert!(Some(Bool::Int(1)).into_bool());
    assert!(map_bool(&Some(Bool::parse("1").unwrap())));
    assert!(!map_bool(&None));
}

#[test]
fn positions_rects_circles() {
    let v = MetaVec2::from(Vec2 { x: 3, y: (1i64 << 32) + 5 });
    assert_eq!(v, MetaVec2 { x: 3, y: 5 });
    let r = MetaRect::from(SchemaRect(Vec2 { x: -1, y: -2 }, Vec2 { x: 1, y: 2 }));
    assert_eq!(r.lt, MetaVec2 { x: -1, y: -2 });
    assert_eq!(r.rb, MetaVec2 { x: 1, y: 2 });
    let c = MetaCirc::from(SchemaCirc(Vec2 { x: 0, y: 0 }, 9));
    assert_eq!(c.radius, 9);
}

#[test]
fn quest_ranges() {
    assert_eq!(map_range(Some(10), Some(300)), QuestRange::Range(10, 44));
    assert_eq!(map_range(Some(1), None), QuestRange::Min(1));
    assert_eq!(map_range(None, Some(2)), QuestRange::Max(2));
    assert_eq!(map_range(None, None), QuestRange::NoBound);
    assert_eq!(map_range_len(Some(3), None), QuestRange::Min(3usize));
}

#[test]
fn quest_intervals() {
    assert_eq!(map_interval(0), None);
    assert_eq!(map_interval(2), Some(Duration::from_secs(120)));
}

#[test]
fn list_of_index_map() {
    let mut m = HashMap::new();
    m.insert("2".to_string(), 'b');
    m.insert("0".to_string(), 'a');
    m.insert("10".to_string(), 'c');
    assert_eq!(map_to_list(&m), vec![(0, 'a'), (2, 'b'), (10, 'c')]);
    assert!(map_to_list(&HashMap::<String, u8>::new()).is_empty());
}

fn entry(count: Option<i64>, prop: Option<i64>, var: Option<i64>, id: i64) -> IdCountProp {
    IdCountProp {
        count,
        date_expire: None,
        gender: None,
        id: Some(id),
        job: None,
        job_ex: None,
        name: None,
        period: None,
        prop,
        resign_remove: None,
        var,
    }
}

#[test]
fn quest_item_kinds() {
    assert_eq!(
        map_quest_item(&entry(Some(-3), None, None, 100)),
        QuestItemAct::Take(TakeItemAct { item_id: 100, count: 3 })
    );
    let reward = |chance| RewardItemAct {
        item_id: 7,
        count: 2,
        interval: None,
        gender: None,
        chance,
        job: None,
    };
    assert_eq!(
        map_quest_item(&entry(Some(2), Some(-1), Some(1), 7)),
        QuestItemAct::Selection(reward(None))
    );
    assert_eq!(
        map_quest_item(&entry(Some(2), None, Some(1), 7)),
        QuestItemAct::Variance1(reward(None))
    );
    assert_eq!(
        map_quest_item(&entry(Some(2), None, Some(2), 7)),
        QuestItemAct::Variance2(reward(None))
    );
    assert_eq!(
        map_quest_item(&entry(Some(2), Some(30), Some(3), 7)),
        QuestItemAct::Reward(reward(Some(30)))
    );
    let mut with_period = entry(None, None, None, 5);
    with_period.period = Some(3);
    with_period.gender = Some(1);
    with_period.job = Some(300);
    assert_eq!(
        map_quest_item(&with_period),
        QuestItemAct::Reward(RewardItemAct {
            item_id: 5,
            count: 1,
            interval: Some(Duration::from_secs(180)),
            gender: Some(1),
            chance: Some(100),
            job: Some(300),
        })
    );
}

#[test]
fn quest_items_sorted_into_kinds() {
    let a = entry(Some(-1), None, None, 1);
    let b = entry(Some(1), None, None, 2);
    let c = entry(Some(1), Some(-1), None, 3);
    let d = entry(Some(-2), None, None, 4);
    let acts = map_quest_items(&[&a, &b, &c, &d]);
    assert_eq!(
        acts.take,
        vec![
            TakeItemAct { item_id: 1, count: 1 },
            TakeItemAct { item_id: 4, count: 2 }
        ]
    );
    assert_eq!(acts.reward.len(), 1);
    assert_eq!(acts.selection.len(), 1);
    assert!(acts.variance_items_1.is_empty());
    let mut m = HashMap::new();
    m.insert("0".to_string(), a);
    m.insert("1".to_string(), b);
    let acts = quest_act_items(&m);
    assert_eq!(acts.take.len(), 1);
    assert_eq!(acts.reward.len(), 1);
}



use shroom_proto95::ids::Vec2 as Pos;
use shroom_proto95::schemas::field_life::{
    field_life, field_reactor, foothold, FieldDataError, FieldLife,
};
use shroom_proto95::schemas::records::{Fh, FieldLifeValue, FieldReactorValue};

fn life(ty: &str, mob_time: Option<i64>) -> FieldLifeValue {
    FieldLifeValue {
        cy: Some(70000),
        f: Some(1),
        fh: Some(12),
        hide: Some(Bool::Int(1)),
        hold: None,
        id: Some(StrOrNum::parse("100100").unwrap()),
        limitedname: None,
        mob_time,
        nofoothold: None,
        rx0: Some(-50),
        rx1: Some(50),
        team: None,
        type_: Some(FieldLifeValueType::parse(ty).unwrap()),
        use_day: None,
        use_night: None,
        x: Some(10),
        y: Some(-20),
    }
}

#[test]
fn field_lives() {
    match field_life(&life("m", Some(30))).unwrap() {
        FieldLife::Mob(m) => {
            assert_eq!(m.id, 100100);
            assert_eq!(m.pos, Pos::new(10, -20));
            assert_eq!(m.fh, 12);
            assert!(m.hide);
            assert!(m.flip);
            assert_eq!(m.range_x, (-50, 50));
            assert_eq!(m.respawn_time, Some(Duration::from_secs(30)));
            assert_eq!(m.cy, Some(70000i64 as i16));
        }
        FieldLife::Npc(_) => panic!("expected a mob"),
    }
    match field_life(&life("m", Some(-1))).unwrap() {
        FieldLife::Mob(m) => assert_eq!(m.respawn_time, None),
        FieldLife::Npc(_) => panic!("expected a mob"),
    }
    match field_life(&life("n", None)).unwrap() {
        FieldLife::Npc(n) => assert_eq!(n.range_x, (-50, 50)),
        FieldLife::Mob(_) => panic!("expected an npc"),
    }
    assert_eq!(
        field_life(&life("mn", None)).unwrap_err(),
        FieldDataError::UnknownLifeType
    );
}

#[test]
fn footholds_and_reactors() {
    let fh = foothold(&Fh {
        cant_go: None,
        cant_through: Some(Bool::Int(1)),
        forbid_fall_down: None,
        force: Some(3),
        next: 5,
        piece: None,
        prev: 70000,
        x1: 1,
        x2: 2,
        y1: 3,
        y2: 4,
    });
    assert_eq!(fh.pt1, Pos::new(1, 3));
    assert_eq!(fh.pt2, Pos::new(2, 4));
    assert_eq!(fh.next, 5);
    assert_eq!(fh.prev, 70000u32 as u16);
    assert!(fh.cant_through);
    assert!(!fh.forbid_falldown);
    assert_eq!(fh.force, Some(3));
    let r = field_reactor(&FieldReactorValue {
        f: None,
        id: Some(StrOrNum::Int(2001)),
        name: Some("box".to_string()),
        reactor_time: Some(60),
        x: Some(1),
        y: Some(2),
    });
    assert_eq!(r.id, 2001);
    assert_eq!(r.name.as_deref(), Some("box"));
    assert_eq!(r.time, Some(60));
}

use shroom_proto95::schemas::quest_req::{quest_req, QuestCheckRecord};
use shroom_proto95::schemas::records::{
    IdCount, QuestCheckValueValueItemValue, QuestCheckValueValueMbcardValue,
    QuestCheckValueValueQuestValue,
};

#[test]
fn quest_requirements() {
    let mut item = HashMap::new();
    item.insert(
        "0".to_string(),
        QuestCheckValueValueItemValue { count: None, id: Some(4000000) },
    );
    let mut mbcard = HashMap::new();
    mbcard.insert(
        "0".to_string(),
        QuestCheckValueValueMbcardValue { id: Some(100100), min: Some(2) },
    );
    let mut quest = HashMap::new();
    quest.insert(
        "0".to_string(),
        QuestCheckValueValueQuestValue { id: Some(1000), state: None },
    );
    let mut mob = HashMap::new();
    mob.insert("1".to_string(), IdCount { count: Some(5), id: Some(20) });
    mob.insert("0".to_string(), IdCount { count: Some(3), id: Some(10) });
    let mut job = HashMap::new();
    job.insert("0".to_string(), 100i64);
    let mut days = HashMap::new();
    days.insert("3".to_string(), Bool::Int(1));
    let rec = QuestCheckRecord {
        item,
        equip_all_need: HashMap::new(),
        equip_select_need: HashMap::new(),
        mbmin: Some(4),
        mbcard,
        job,
        field_enter: HashMap::new(),
        lvmin: Some(10),
        lvmax: None,
        tamingmoblevelmin: None,
        pettamenessmin: Some(300),
        quest,
        pop: Some(-2),
        skill: HashMap::new(),
        mob,
        worldmin: Some(StrOrInt::Variant1(0)),
        worldmax: Some(StrOrInt::parse("5").unwrap()),
        day_of_week: days,
        day_by_day: Some(Bool::Int(1)),
        endmeso: Some(-500),
        normal_auto_start: None,
    };
    let r = quest_req(&rec);
    assert_eq!(r.items.items, vec![(4000000, 1)]);
    assert_eq!(r.mbook.min_total_cards, Some(4));
    assert_eq!(r.mbook.cards, vec![(100100, QuestRange::Min(2))]);
    assert_eq!(r.quest_states, vec![(1000, 0)]);
    assert_eq!(r.mobs, vec![(10, 3), (20, 5)]);
    assert_eq!(r.jobs, vec![100]);
    assert_eq!(r.days, vec![3]);
    assert_eq!(r.level_range, QuestRange::Min(10));
    assert_eq!(r.pet_tameness_range, QuestRange::Min(300i64 as u8));
    assert_eq!(r.taming_mob_level_range, QuestRange::NoBound);
    assert_eq!(r.worlds, QuestRange::Range(0, 5));
    assert_eq!(r.min_pop, Some(-2));
    assert!(r.repeat_per_day);
    assert!(!r.normal_auto_start);
    assert_eq!(r.end_money, Some(-500));
}
