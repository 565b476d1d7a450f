//! The acts of a quest, read from the quest data: what it gives and takes.
use vstd::prelude::*;

use std::collections::HashMap;
use std::time::Duration;

use crate::schemas::mapping::{duration_of_secs, map_interval, map_pairs, IntoNum};
use crate::schemas::quest_req::{map_walk_values, walk_of};
use crate::schemas::records::{IdCountProp, QuestActValueValueSpValue, QuestSkill};

verus! {

/// Items a quest takes from the player.
#[derive(Debug, Clone, Copy, PartialEq, Eq, Structural)]
pub struct TakeItemAct {
    pub item_id: u32,
    pub count: usize,
}

/// Items a quest gives to the player, with the time they last, the gender
/// and job they are for, and the chance to get them.
#[derive(Debug, Clone, Copy, PartialEq, Eq)]
pub struct RewardItemAct {
    pub item_id: u32,
    pub count: usize,
    pub interval: Option<Duration>,
    pub gender: Option<u8>,
    pub chance: Option<u8>,
    pub job: Option<u32>,
}

/// The item acts of a quest, by kind.
#[derive(Debug, Clone)]
pub struct QuestActItem {
    pub take: Vec<TakeItemAct>,
    pub reward: Vec<RewardItemAct>,
    pub selection: Vec<RewardItemAct>,
    pub variance_items_1: Vec<RewardItemAct>,
    pub variance_items_2: Vec<RewardItemAct>,
}

/// The kind of act an item entry of a quest stands for.
#[derive(Debug, Clone, Copy, PartialEq, Eq, Structural)]
pub enum ActKind {
    Take,
    Selection,
    Variance1,
    Variance2,
    Reward,
}

/// The act of one item entry of a quest.
#[derive(Debug, Clone, Copy, PartialEq, Eq)]
pub enum QuestItemAct {
    Take(TakeItemAct),
    Selection(RewardItemAct),
    Variance1(RewardItemAct),
    Variance2(RewardItemAct),
    Reward(RewardItemAct),
}

/// The count of an entry: one where it is missing.
pub open spec fn entry_count(item: IdCountProp) -> i64 {
    match item.count {
        Some(c) => c,
        None => 1,
    }
}

/// The chance of an entry in percent: a hundred where it is missing.
pub open spec fn entry_prop(item: IdCountProp) -> i64 {
    match item.prop {
        Some(p) => p,
        None => 100,
    }
}

/// The variance group of an entry: none (zero) where it is missing.
pub open spec fn entry_var(item: IdCountProp) -> i64 {
    match item.var {
        Some(v) => v,
        None => 0,
    }
}

/// The period of an entry in minutes: zero where it is missing.
pub open spec fn entry_period(item: IdCountProp) -> i64 {
    match item.period {
        Some(v) => v,
        None => 0,
    }
}

/// Whether the period of an entry gives a duration without overflow.
pub open spec fn period_fits(item: IdCountProp) -> bool {
    entry_period(item) == 0 || (entry_period(item) as u64) * 60 <= u64::MAX
}

/// Whether an entry can be read: it names an item and its period fits.
pub open spec fn entry_readable(item: IdCountProp) -> bool {
    item.id is Some && period_fits(item)
}

/// The kind of act of an entry: a negative count takes items; else a
/// negative chance makes a selection; else the variance group 1 or 2; else
/// a reward.
pub open spec fn act_kind(item: IdCountProp) -> ActKind {
    if entry_count(item) < 0 {
        ActKind::Take
    } else if entry_prop(item) < 0 {
        ActKind::Selection
    } else if entry_var(item) == 1 {
        ActKind::Variance1
    } else if entry_var(item) == 2 {
        ActKind::Variance2
    } else {
        ActKind::Reward
    }
}

/// The items an entry takes: its item and the magnitude of its count.
pub open spec fn take_of(item: IdCountProp) -> TakeItemAct {
    TakeItemAct {
        item_id: item.id.unwrap() as u32,
        count: ((0 - entry_count(item)) as u64) as usize,
    }
}

/// The interval of an entry's period.
pub open spec fn interval_of(item: IdCountProp) -> Option<Duration> {
    if entry_period(item) == 0 {
        None
    } else {
        Some(duration_of_secs(((entry_period(item) as u64) * 60) as u64))
    }
}

/// The items an entry gives; only a plain reward has a chance.
pub open spec fn reward_of(item: IdCountProp) -> RewardItemAct {
    RewardItemAct {
        item_id: item.id.unwrap() as u32,
        count: entry_count(item) as usize,
        interval: interval_of(item),
        gender: match item.gender {
            Some(g) => Some(g as u8),
            None => None,
        },
        chance: if act_kind(item) == ActKind::Reward {
            Some(entry_prop(item) as u8)
        } else {
            None
        },
        job: match item.job {
            Some(j) => Some(j as u32),
            None => None,
        },
    }
}

/// The act of an entry.
pub open spec fn item_act_of(item: IdCountProp) -> QuestItemAct {
    match act_kind(item) {
        ActKind::Take => QuestItemAct::Take(take_of(item)),
        ActKind::Selection => QuestItemAct::Selection(reward_of(item)),
        ActKind::Variance1 => QuestItemAct::Variance1(reward_of(item)),
        ActKind::Variance2 => QuestItemAct::Variance2(reward_of(item)),
        ActKind::Reward => QuestItemAct::Reward(reward_of(item)),
    }
}

/// The items taken by the entries, in their order.
pub open spec fn takes_of(s: Seq<IdCountProp>) -> Seq<TakeItemAct>
    decreases s.len(),
{
    if s.len() == 0 {
        Seq::empty()
    } else if act_kind(s.last()) == ActKind::Take {
        takes_of(s.drop_last()).push(take_of(s.last()))
    } else {
        takes_of(s.drop_last())
    }
}

/// The items given by the entries of one kind, in their order.
pub open spec fn rewards_of(s: Seq<IdCountProp>, kind: ActKind) -> Seq<RewardItemAct>
    decreases s.len(),
{
    if s.len() == 0 {
        Seq::empty()
    } else if act_kind(s.last()) == kind {
        rewards_of(s.drop_last(), kind).push(reward_of(s.last()))
    } else {
        rewards_of(s.drop_last(), kind)
    }
}

/// Whether the item acts are those of the entries, kind by kind, in order.
pub open spec fn acts_of_entries(r: QuestActItem, s: Seq<IdCountProp>) -> bool {
    &&& r.take@ == takes_of(s)
    &&& r.selection@ == rewards_of(s, ActKind::Selection)
    &&& r.variance_items_1@ == rewards_of(s, ActKind::Variance1)
    &&& r.variance_items_2@ == rewards_of(s, ActKind::Variance2)
    &&& r.reward@ == rewards_of(s, ActKind::Reward)
}

/// The act of one item entry of a quest.
pub fn map_quest_item(item: &IdCountProp) -> (r: QuestItemAct)
    requires
        entry_readable(*item),
    ensures
        r == item_act_of(*item),
{
    let count: i64 = match item.count {
        Some(c) => c,
        None => 1,
    };
    let prop: i64 = match item.prop {
        Some(p) => p,
        None => 100,
    };
    let var: i64 = match item.var {
        Some(v) => v,
        None => 0,
    };
    let id = item.id.unwrap() as u32;
    let gender = match item.gender {
        Some(g) => Some(g as u8),
        None => None,
    };
    let job = match item.job {
        Some(j) => Some(j as u32),
        None => None,
    };
    let period: i64 = match item.period {
        Some(v) => v,
        None => 0,
    };
    let interval = map_interval(period);
    if count < 0 {
        let magnitude = (0i128 - count as i128) as u64;
        QuestItemAct::Take(TakeItemAct { item_id: id, count: magnitude as usize })
    } else if prop < 0 {
        QuestItemAct::Selection(
            RewardItemAct { item_id: id, count: count as usize, interval, gender, chance: None, job },
        )
    } else if var == 1 {
        QuestItemAct::Variance1(
            RewardItemAct { item_id: id, count: count as usize, interval, gender, chance: None, job },
        )
    } else if var == 2 {
        QuestItemAct::Variance2(
            RewardItemAct { item_id: id, count: count as usize, interval, gender, chance: None, job },
        )
    } else {
        QuestItemAct::Reward(
            RewardItemAct {
                item_id: id,
                count: count as usize,
                interval,
                gender,
                chance: Some(prop as u8),
                job,
            },
        )
    }
}

/// The item acts of a quest's item entries, taken in the given order.
pub fn map_quest_items(items: &[&IdCountProp]) -> (r: QuestActItem)
    requires
        forall|i: int| 0 <= i < items@.len() ==> entry_readable(*#[trigger] items@[i]),
    ensures
        acts_of_entries(r, items@.map_values(|p: &IdCountProp| *p)),
{
    let ghost s = items@.map_values(|p: &IdCountProp| *p);
    let mut r = QuestActItem {
        take: Vec::new(),
        reward: Vec::new(),
        selection: Vec::new(),
        variance_items_1: Vec::new(),
        variance_items_2: Vec::new(),
    };
    let mut i: usize = 0;
    assert(s.take(0) =~= Seq::<IdCountProp>::empty());
    while i < items.len()
        invariant
            i <= items@.len(),
            s == items@.map_values(|p: &IdCountProp| *p),
            forall|j: int| 0 <= j < items@.len() ==> entry_readable(*#[trigger] items@[j]),
            acts_of_entries(r, s.take(i as int)),
        decreases items@.len() - i,
    {
        let item = items[i];
        assert(s[i as int] == *item);
        let ghost prev = s.take(i as int);
        let ghost next = s.take(i as int + 1);
        assert(next.drop_last() =~= prev);
        assert(next.last() == *item);
        match map_quest_item(item) {
            QuestItemAct::Take(t) => r.take.push(t),
            QuestItemAct::Selection(a) => r.selection.push(a),
            QuestItemAct::Variance1(a) => r.variance_items_1.push(a),
            QuestItemAct::Variance2(a) => r.variance_items_2.push(a),
            QuestItemAct::Reward(a) => r.reward.push(a),
        }
        i = i + 1;
    }
    assert(s.take(items@.len() as int) =~= s);
    r
}

/// The item acts of a quest's item entries, in the order the map's walk
/// gives them.
pub fn quest_act_items(items: &HashMap<String, IdCountProp>) -> (r: QuestActItem)
    requires
        forall|k: String| #[trigger] items@.contains_key(k) ==> entry_readable(items@[k]),
    ensures
        exists|ks: Seq<String>|
            {
                &&& #[trigger] ks.len() == items@.len()
                &&& ks.no_duplicates()
                &&& forall|i: int| 0 <= i < ks.len() ==> items@.contains_key(#[trigger] ks[i])
                &&& acts_of_entries(r, ks.map_values(|k: String| items@[k]))
            },
{
    let pairs = map_pairs(items);
    let mut values: Vec<&IdCountProp> = Vec::new();
    let mut i: usize = 0;
    while i < pairs.len()
        invariant
            i <= pairs@.len(),
            values@.len() == i,
            forall|j: int| 0 <= j < i ==> values@[j] == pairs@[j].1,
        decreases pairs@.len() - i,
    {
        values.push(pairs[i].1);
        i = i + 1;
    }
    let ghost ks = pairs@.map_values(|p: (&String, &IdCountProp)| *p.0);
    assert forall|j: int| 0 <= j < values@.len() implies entry_readable(*#[trigger] values@[j]) by {
        assert(items@.contains_key(*pairs@[j].0));
    }
    let r = map_quest_items(values.as_slice());
    assert(values@.map_values(|p: &IdCountProp| *p) =~= ks.map_values(|k: String| items@[k]));
    assert(ks.no_duplicates()) by {
        assert forall|a: int, b: int| 0 <= a < ks.len() && 0 <= b < ks.len() && a != b implies ks[a]
            != ks[b] by {
            if a < b {
                assert(*pairs@[a].0 != *pairs@[b].0);
            } else {
                assert(*pairs@[b].0 != *pairs@[a].0);
            }
        }
    }
    assert(forall|j: int| 0 <= j < ks.len() ==> items@.contains_key(#[trigger] ks[j]));
    r
}

/// The fields of a quest act entry that the act reads.
#[derive(Clone, Debug)]
pub struct QuestActRecord {
    pub item: HashMap<String, IdCountProp>,
    pub exp: Option<i64>,
    pub money: Option<i64>,
    pub pop: Option<i64>,
    pub pettameness: Option<i64>,
    pub petspeed: Option<i64>,
    pub petskill: Option<i64>,
    pub next_quest: Option<i64>,
    pub buff_item_id: Option<i64>,
    pub sp: HashMap<String, QuestActValueValueSpValue>,
    pub skill: HashMap<String, QuestSkill>,
}

/// Skill points a quest gives to the jobs listed.
#[derive(Clone, Debug)]
pub struct QuestActSkillPoints {
    /// The job ids, as the data writes them.
    pub job: Vec<u16>,
    pub points: u8,
}

/// A skill a quest gives to the jobs listed.
#[derive(Clone, Debug)]
pub struct QuestActSkill {
    pub id: u32,
    pub master_level: Option<u8>,
    pub skill_level: u8,
    /// The job ids, as the data writes them.
    pub jobs: Vec<u16>,
}

/// What a quest act gives and takes.
#[derive(Clone, Debug)]
pub struct QuestAct {
    pub inc_exp: Option<u32>,
    pub inc_money: Option<i32>,
    pub inc_pop: Option<i16>,
    pub inc_pet_tameness: Option<u8>,
    pub inc_pet_speed: Option<u8>,
    pub pet_skill: Option<u8>,
    pub next_quest: Option<u16>,
    pub buff_item_id: Option<u32>,
    pub skill_points: Vec<QuestActSkillPoints>,
    pub skills: Vec<QuestActSkill>,
    pub items: QuestActItem,
}

/// Whether `r` holds the job ids of `m`, cut to 16 bits, in the order of
/// some walk of `m`.
pub open spec fn jobs_of(r: Seq<u16>, m: Map<String, i64>) -> bool {
    exists|ks: Seq<String>|
        #[trigger] walk_of(ks, m) && r.len() == ks.len() && forall|i: int|
            0 <= i < ks.len() ==> #[trigger] r[i] == m[ks[i]] as u16
}

/// Whether `r` is the skill points entry `v` gives: its points cut to 8
/// bits, zero where missing.
pub open spec fn skill_points_of(r: QuestActSkillPoints, v: QuestActValueValueSpValue) -> bool {
    &&& r.points == v.sp_value.num_value().unwrap() as u8
    &&& jobs_of(r.job@, v.job@)
}

/// Whether `r` is the skill the entry `v` gives: its levels cut to 8 bits,
/// the skill level zero where missing.
pub open spec fn act_skill_of(r: QuestActSkill, v: QuestSkill) -> bool {
    &&& r.id == v.id.unwrap() as u32
    &&& r.master_level == (match v.master_level {
        Some(l) => Some(l as u8),
        None => None,
    })
    &&& r.skill_level == v.skill_level.num_value().unwrap() as u8
    &&& jobs_of(r.jobs@, v.job@)
}

/// Whether the item acts `r` are those of the entries of `m`, in the order
/// of some walk of `m`.
pub open spec fn item_acts_of(r: QuestActItem, m: Map<String, IdCountProp>) -> bool {
    exists|ks: Seq<String>|
        {
            &&& #[trigger] ks.len() == m.len()
            &&& ks.no_duplicates()
            &&& forall|i: int| 0 <= i < ks.len() ==> m.contains_key(#[trigger] ks[i])
            &&& acts_of_entries(r, ks.map_values(|k: String| m[k]))
        }
}

/// A job id of the data files cut to 16 bits.
fn job_of(e: &i64) -> (o: u16)
    ensures
        o == *e as u16,
{
    *e as u16
}

/// The skill points an entry gives.
fn skill_points(v: &QuestActValueValueSpValue) -> (r: QuestActSkillPoints)
    ensures
        skill_points_of(r, *v),
{
    let job = map_walk_values(&v.job, job_of);
    QuestActSkillPoints { job, points: v.sp_value.into_num() as u8 }
}

/// The skill an entry gives.
fn act_skill(v: &QuestSkill) -> (r: QuestActSkill)
    requires
        v.id is Some,
    ensures
        act_skill_of(r, *v),
{
    let jobs = map_walk_values(&v.job, job_of);
    QuestActSkill {
        id: v.id.unwrap() as u32,
        master_level: match v.master_level {
            Some(l) => Some(l as u8),
            None => None,
        },
        skill_level: v.skill_level.into_num() as u8,
        jobs,
    }
}

/// What a quest act entry gives and takes: its amounts cut to the width of
/// their values, and its lists in the order of the walk of their maps.
pub fn quest_act(value: &QuestActRecord) -> (r: QuestAct)
    requires
        forall|k: String| #[trigger] value.item@.contains_key(k) ==> entry_readable(value.item@[k]),
        forall|k: String| #[trigger] value.skill@.contains_key(k) ==> value.skill@[k].id is Some,
    ensures
        r.inc_exp == (match value.exp {
            Some(v) => Some(v as u32),
            None => None,
        }),
        r.inc_money == (match value.money {
            Some(v) => Some(v as i32),
            None => None,
        }),
        r.inc_pop == (match value.pop {
            Some(v) => Some(v as i16),
            None => None,
        }),
        r.inc_pet_tameness == (match value.pettameness {
            Some(v) => Some(v as u8),
            None => None,
        }),
        r.inc_pet_speed == (match value.petspeed {
            Some(v) => Some(v as u8),
            None => None,
        }),
        r.pet_skill == (match value.petskill {
            Some(v) => Some(v as u8),
            None => None,
        }),
        r.next_quest == (match value.next_quest {
            Some(v) => Some(v as u16),
            None => None,
        }),
        r.buff_item_id == (match value.buff_item_id {
            Some(v) => Some(v as u32),
            None => None,
        }),
        exists|ks: Seq<String>|
            #[trigger] walk_of(ks, value.sp@) && r.skill_points@.len() == ks.len() && forall|i: int|
                0 <= i < ks.len() ==> skill_points_of(#[trigger] r.skill_points@[i], value.sp@[ks[i]]),
        exists|ks: Seq<String>|
            #[trigger] walk_of(ks, value.skill@) && r.skills@.len() == ks.len() && forall|i: int|
                0 <= i < ks.len() ==> act_skill_of(#[trigger] r.skills@[i], value.skill@[ks[i]]),
        item_acts_of(r.items, value.item@),
{
    let items = quest_act_items(&value.item);
    let skill_points = map_walk_values(&value.sp, skill_points);
    let skills = map_walk_values(&value.skill, act_skill);
    QuestAct {
        inc_exp: match value.exp {
            Some(v) => Some(v as u32),
            None => None,
        },
        inc_money: match value.money {
            Some(v) => Some(v as i32),
            None => None,
        },
        inc_pop: match value.pop {
            Some(v) => Some(v as i16),
            None => None,
        },
        inc_pet_tameness: match value.pettameness {
            Some(v) => Some(v as u8),
            None => None,
        },
        inc_pet_speed: match value.petspeed {
            Some(v) => Some(v as u8),
            None => None,
        },
        pet_skill: match value.petskill {
            Some(v) => Some(v as u8),
            None => None,
        },
        next_quest: match value.next_quest {
            Some(v) => Some(v as u16),
            None => None,
        },
        buff_item_id: match value.buff_item_id {
            Some(v) => Some(v as u32),
            None => None,
        },
        skill_points,
        skills,
        items,
    }
}

/// The act of an item entry: a negative count takes that many of the item;
/// else a negative chance offers the item as a selection; else variance
/// group 1 or 2 gives it in that group; else it is a reward with the
/// entry's chance (a hundred where missing). What is given carries the
/// entry's item, count (one where missing), gender, job, and period in
/// minutes.
pub proof fn lemma_item_act(item: IdCountProp)
    requires
        item.id is Some,
    ensures
        ({
            let count = match item.count {
                Some(c) => c,
                None => 1,
            };
            let prop = match item.prop {
                Some(p) => p,
                None => 100,
            };
            let var = match item.var {
                Some(v) => v,
                None => 0,
            };
            let id = item.id.unwrap() as u32;
            let act = item_act_of(item);
            &&& count < 0 ==> act == QuestItemAct::Take(
                TakeItemAct { item_id: id, count: ((0 - count) as u64) as usize },
            )
            &&& (count >= 0 && prop < 0) ==> act is Selection
            &&& (count >= 0 && prop >= 0 && var == 1) ==> act is Variance1
            &&& (count >= 0 && prop >= 0 && var == 2) ==> act is Variance2
            &&& (count >= 0 && prop >= 0 && var != 1 && var != 2) ==> act is Reward
            &&& count >= 0 ==> ({
                let g = match act {
                    QuestItemAct::Selection(g) => g,
                    QuestItemAct::Variance1(g) => g,
                    QuestItemAct::Variance2(g) => g,
                    QuestItemAct::Reward(g) => g,
                    QuestItemAct::Take(_) => reward_of(item),
                };
                &&& g.item_id == id
                &&& g.count == count as usize
                &&& g.gender == (match item.gender {
                    Some(x) => Some(x as u8),
                    None => None,
                })
                &&& g.job == (match item.job {
                    Some(x) => Some(x as u32),
                    None => None,
                })
                &&& (item.period is None || item.period == Some(0i64)) ==> g.interval is None
                &&& item.period matches Some(p) ==> (p != 0 ==> g.interval == Some(
                    duration_of_secs(((p as u64) * 60) as u64),
                ))
                &&& act is Reward ==> g.chance == Some(prop as u8)
                &&& !(act is Reward) ==> g.chance is None
            })
        }),
{
}

/// Each item entry of a quest lands in exactly one of the lists of its acts:
/// the lists together hold as many acts as there are entries.
pub proof fn lemma_item_acts_partition(s: Seq<IdCountProp>)
    ensures
        takes_of(s).len() + rewards_of(s, ActKind::Selection).len() + rewards_of(
            s,
            ActKind::Variance1,
        ).len() + rewards_of(s, ActKind::Variance2).len() + rewards_of(s, ActKind::Reward).len()
            == s.len(),
    decreases s.len(),
{
    if s.len() > 0 {
        lemma_item_acts_partition(s.drop_last());
    }
}

} // verus!
