use std::collections::HashMap;

use shroom_proto95::ids::Vec2;
use shroom_proto95::schemas::field_data::{field, FieldInfoRecord, FieldPortalRecord, FieldRecord};
use shroom_proto95::schemas::field_life::{FieldDataError, FieldLife};
use shroom_proto95::schemas::pattern::FieldLifeValueType;
use shroom_proto95::schemas::records::{Fh, FieldLifeValue, FieldReactorValue};
use shroom_proto95::schemas::scalar::{Bool, StrOrNum};

fn info() -> FieldInfoRecord {
    FieldInfoRecord {
        cloud: Some(Bool::Int(1)),
        scroll_disable: None,
        no_regen_map: Some(Bool::Int(0)),
        fly: None,
        zakum2_hack: None,
        return_map: Some(100000000),
        forced_return: None,
        vr_left: Some(-500),
        vr_right: Some(700),
        vr_top: Some(-300),
        vr_bottom: None,
    }
}

fn fh(x1: i64, next: i64) -> Fh {
    Fh {
        cant_go: None,
        cant_through: None,
        forbid_fall_down: Some(Bool::Int(1)),
        force: None,
        next,
        piece: Some(3),
        prev: 0,
        x1,
        x2: x1 + 10,
        y1: 5,
        y2: 5,
    }
}

fn portal(pn: &str) -> FieldPortalRecord {
    FieldPortalRecord {
        x: Some(15),
        y: Some(-40),
        only_once: None,
        hide_tooltip: Some(Bool::Int(1)),
        delay: None,
        teleport: None,
        reactor_name: None,
        script: Some("enter".to_string()),
        session_value: None,
        session_value_key: None,
        pn: Some(pn.to_string()),
        tn: Some("sp".to_string()),
        tm: Some(999999999),
        pt: Some(2),
    }
}

fn life(ty: &str) -> FieldLifeValue {
    FieldLifeValue {
        cy: None,
        f: None,
        fh: Some(1),
        hide: None,
        hold: None,
        id: Some(StrOrNum::Int(9000)),
        limitedname: None,
        mob_time: None,
        nofoothold: None,
        rx0: Some(-10),
        rx1: Some(10),
        team: None,
        type_: Some(FieldLifeValueType::parse(ty).unwrap()),
        use_day: None,
        use_night: None,
        x: Some(1),
        y: Some(2),
    }
}

fn record() -> FieldRecord {
    let mut group = HashMap::new();
    group.insert("2".to_string(), fh(20, 0));
    group.insert("1".to_string(), fh(10, 2));
    let mut layer = HashMap::new();
    layer.insert("4".to_string(), group);
    let mut foothold = HashMap::new();
    foothold.insert("0".to_string(), layer);
    let mut portals = HashMap::new();
    portals.insert("3".to_string(), portal("in00"));
    portals.insert("0".to_string(), portal("sp"));
    let mut lives = HashMap::new();
    lives.insert("7".to_string(), life("n"));
    let mut reactors = HashMap::new();
    reactors.insert(
        "1".to_string(),
        FieldReactorValue {
            f: None,
            id: Some(StrOrNum::Int(2001)),
            name: Some("box".to_string()),
            reactor_time: Some(30),
            x: Some(4),
            y: Some(6),
        },
    );
    FieldRecord { info: Some(info()), foothold, portal: portals, life: lives, reactor: reactors }
}

#[test]
fn field_reads_entry() {
    let f = field(&record()).unwrap();
    assert!(f.cloud);
    assert!(!f.no_regen);
    assert!(!f.fly);
    assert_eq!(f.return_field, Some(100000000));
    assert_eq!(f.forced_return_field, None);
    assert_eq!(f.rect.min, Vec2 { x: -500, y: 0 });
    assert_eq!(f.rect.max, Vec2 { x: 700, y: -300 });
    assert_eq!(f.portals.keys().copied().collect::<Vec<_>>(), vec![0, 3]);
    assert_eq!(f.portals[&0].pn.as_deref(), Some("sp"));
    assert_eq!(f.portals[&3].pos, Vec2 { x: 15, y: -40 });
    assert!(f.portals[&3].hide_tooltip);
    assert_eq!(f.portals[&3].tm, Some(999999999));
    assert_eq!(f.portals[&3].script.as_deref(), Some("enter"));
    assert_eq!(f.life.len(), 1);
    assert!(matches!(f.life[&7], FieldLife::Npc(_)));
    assert_eq!(f.footholds.len(), 1);
    assert_eq!(f.footholds[&0].keys().copied().collect::<Vec<_>>(), vec![4]);
    let group = &f.footholds[&0][&4];
    assert_eq!(group.keys().copied().collect::<Vec<_>>(), vec![1, 2]);
    assert_eq!(group[&1].pt1, Vec2 { x: 10, y: 5 });
    assert_eq!(group[&1].next, 2);
    assert!(group[&1].forbid_falldown);
    assert_eq!(f.reactors.len(), 1);
    assert_eq!(f.reactors[&1].id, 2001);
    assert_eq!(f.reactors[&1].time, Some(30));
}

#[test]
fn field_errors() {
    let mut no_info = record();
    no_info.info = None;
    assert_eq!(field(&no_info).unwrap_err(), FieldDataError::NoInfo);

    let mut bad_fh = record();
    bad_fh.foothold.get_mut("0").unwrap().get_mut("4").unwrap().insert("x".to_string(), fh(0, 0));
    assert_eq!(field(&bad_fh).unwrap_err(), FieldDataError::BadKey);

    let mut big_fh = record();
    big_fh.foothold.insert("65536".to_string(), HashMap::new());
    assert_eq!(field(&big_fh).unwrap_err(), FieldDataError::BadKey);

    let mut bad_portal = record();
    bad_portal.portal.insert("256".to_string(), portal("x"));
    assert_eq!(field(&bad_portal).unwrap_err(), FieldDataError::BadKey);

    let mut bad_life = record();
    bad_life.life.insert("8".to_string(), life("nm"));
    assert_eq!(field(&bad_life).unwrap_err(), FieldDataError::UnknownLifeType);

    let mut bad_reactor = record();
    bad_reactor.reactor.insert("-1".to_string(), bad_reactor.reactor["1"].clone());
    assert_eq!(field(&bad_reactor).unwrap_err(), FieldDataError::BadKey);
}

#[test]
fn field_keys_of_one_index_give_one_entry() {
    let mut rec = record();
    rec.portal.insert("03".to_string(), portal("again"));
    let f = field(&rec).unwrap();
    assert_eq!(f.portals.keys().copied().collect::<Vec<_>>(), vec![0, 3]);
    let pn = f.portals[&3].pn.as_deref().unwrap();
    assert!(pn == "in00" || pn == "again");
}
