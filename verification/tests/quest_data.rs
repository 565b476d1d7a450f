use std::collections::HashMap;

use shroom_proto95::schemas::quest_act::{quest_act, QuestActRecord};
use shroom_proto95::schemas::records::{IdCountProp, QuestActValueValueSpValue, QuestSkill};

fn item(count: i64, id: i64) -> IdCountProp {
    IdCountProp {
        count: Some(count),
        date_expire: None,
        gender: None,
        id: Some(id),
        job: None,
        job_ex: None,
        name: None,
        period: None,
        prop: None,
        resign_remove: None,
        var: None,
    }
}

#[test]
fn quest_act_reads_rewards() {
    let mut items = HashMap::new();
    items.insert("0".to_string(), item(-2, 4000000));
    let mut sp_jobs = HashMap::new();
    sp_jobs.insert("0".to_string(), 100i64);
    let mut sp = HashMap::new();
    sp.insert("0".to_string(), QuestActValueValueSpValue { job: sp_jobs.clone(), sp_value: Some(3) });
    let mut skill = HashMap::new();
    skill.insert(
        "0".to_string(),
        QuestSkill {
            acquire: None,
            id: Some(1000002),
            job: sp_jobs,
            master_level: Some(10),
            only_master_level: None,
            skill_level: None,
        },
    );
    let rec = QuestActRecord {
        item: items,
        exp: Some(1500),
        money: Some(-300),
        pop: Some(2),
        pettameness: None,
        petspeed: Some(257),
        petskill: None,
        next_quest: Some(2001),
        buff_item_id: Some(2022109),
        sp,
        skill,
    };
    let r = quest_act(&rec);
    assert_eq!(r.inc_exp, Some(1500));
    assert_eq!(r.inc_money, Some(-300));
    assert_eq!(r.inc_pop, Some(2));
    assert_eq!(r.inc_pet_tameness, None);
    assert_eq!(r.inc_pet_speed, Some(1));
    assert_eq!(r.pet_skill, None);
    assert_eq!(r.next_quest, Some(2001));
    assert_eq!(r.buff_item_id, Some(2022109));
    assert_eq!(r.skill_points.len(), 1);
    assert_eq!(r.skill_points[0].points, 3);
    assert_eq!(r.skill_points[0].job, vec![100]);
    assert_eq!(r.skills.len(), 1);
    assert_eq!(r.skills[0].id, 1000002);
    assert_eq!(r.skills[0].master_level, Some(10));
    assert_eq!(r.skills[0].skill_level, 0);
    assert_eq!(r.skills[0].jobs, vec![100]);
    assert_eq!(r.items.take.len(), 1);
    assert_eq!(r.items.take[0].count, 2);
    assert!(r.items.reward.is_empty());
}
