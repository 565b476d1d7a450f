//! Mobs and the levels of mob skills, read from the mob data.
use vstd::prelude::*;

use std::collections::{BTreeMap, HashMap};
use std::time::Duration;

use crate::schemas::mapping::{
    bool_value,
    duration_from_millis, duration_from_secs, duration_of_millis, duration_of_secs, key_index,
    keyed_by, lemma_keyed, map_pairs, map_to_btree_with, IntoBool, IntoNum,
};
use crate::schemas::quest_req::{map_walk_values, walk_of};
use crate::schemas::records::{MobInfoBan, MobInfoBanBanMapValue, MobInfoLoseItemValue, Vec2};
use crate::schemas::scalar::{Bool, StrOrNum};

verus! {

/// The fields of a mob skill level entry that the level data reads.
#[derive(Clone, Debug)]
pub struct MobSkillLevelRecord {
    /// The fields `0` to `11`: the mobs a summon brings, zero for none.
    pub summons: [Option<StrOrNum>; 12],
    pub count: Option<StrOrNum>,
    pub elem_attr: Option<String>,
    pub hp: Option<StrOrNum>,
    pub interval: Option<StrOrNum>,
    pub limit: Option<StrOrNum>,
    pub time: Option<StrOrNum>,
    pub mob_count: Option<StrOrNum>,
    pub mp_con: Option<StrOrNum>,
    pub random_target: Option<Bool>,
    pub x: Option<StrOrNum>,
    pub y: Option<StrOrNum>,
    pub summon_effect: Option<StrOrNum>,
    pub prop: Option<StrOrNum>,
    /// The corners of the range the skill reaches.
    pub lt: Option<Vec2>,
    pub rb: Option<Vec2>,
}

/// The data of one level of a mob skill.
#[derive(Clone, Debug)]
pub struct MobSkillLevelData {
    pub id: u32,
    pub count: Option<i64>,
    /// The element attribute, as the data writes it.
    pub elem_attr: Option<String>,
    pub hp: Option<i64>,
    pub interval: Option<Duration>,
    pub limit: Option<Duration>,
    pub time: Option<Duration>,
    pub mob_count: Option<i64>,
    pub mp_con: i64,
    pub random_target: bool,
    pub x: Option<i64>,
    pub y: Option<i64>,
    pub summon_effect: Option<i64>,
    pub summon_mobs: Vec<u32>,
}

/// Whether a value, where present, reads as a number.
pub open spec fn num_readable(v: Option<StrOrNum>) -> bool {
    v.num_value() is Some
}

/// A present value read as a number.
pub open spec fn opt_value(v: Option<StrOrNum>) -> Option<i64> {
    match v {
        Some(x) => Some(x.i64_value().unwrap()),
        None => None,
    }
}

/// A present value read as a number of seconds.
pub open spec fn secs_value(v: Option<StrOrNum>) -> Option<Duration> {
    match v {
        Some(x) => Some(duration_of_secs(x.i64_value().unwrap() as u64)),
        None => None,
    }
}

/// A present value read as a number of milliseconds.
pub open spec fn millis_value(v: Option<StrOrNum>) -> Option<Duration> {
    match v {
        Some(x) => Some(duration_of_millis(x.i64_value().unwrap() as u64)),
        None => None,
    }
}

/// The ids among `s` that are not zero, in order, each cut to 32 bits.
pub open spec fn nonzero_ids(s: Seq<i64>) -> Seq<u32>
    decreases s.len(),
{
    if s.len() == 0 {
        Seq::empty()
    } else {
        let r = nonzero_ids(s.drop_last());
        if s.last() != 0 {
            r.push(s.last() as u32)
        } else {
            r
        }
    }
}

/// The summon fields read as numbers, a missing one as zero.
pub open spec fn summon_nums(v: MobSkillLevelRecord) -> Seq<i64> {
    v.summons@.map_values(|x: Option<StrOrNum>| x.num_value().unwrap())
}

/// Whether a mob skill level entry can be read: each number field, where
/// present, reads as a number.
pub open spec fn mob_skill_level_readable(v: MobSkillLevelRecord) -> bool {
    &&& forall|i: int| 0 <= i < 12 ==> num_readable(#[trigger] v.summons@[i])
    &&& num_readable(v.count)
    &&& num_readable(v.hp)
    &&& num_readable(v.interval)
    &&& num_readable(v.limit)
    &&& num_readable(v.time)
    &&& num_readable(v.mob_count)
    &&& num_readable(v.mp_con)
    &&& num_readable(v.x)
    &&& num_readable(v.y)
    &&& num_readable(v.summon_effect)
}

/// Whether `r` is the level data of the entry `v`.
pub open spec fn mob_skill_level_of(r: MobSkillLevelData, v: MobSkillLevelRecord) -> bool {
    &&& r.id == 0
    &&& r.count == opt_value(v.count)
    &&& r.elem_attr == v.elem_attr
    &&& r.hp == opt_value(v.hp)
    &&& r.interval == secs_value(v.interval)
    &&& r.limit == millis_value(v.limit)
    &&& r.time == millis_value(v.time)
    &&& r.mob_count == opt_value(v.mob_count)
    &&& r.mp_con == v.mp_con.num_value().unwrap()
    &&& r.random_target == v.random_target.bool_of()
    &&& r.x == opt_value(v.x)
    &&& r.y == opt_value(v.y)
    &&& r.summon_effect == opt_value(v.summon_effect)
    &&& r.summon_mobs@ == nonzero_ids(summon_nums(v))
}

/// A present value read as a number.
fn opt_num(v: &Option<StrOrNum>) -> (r: Option<i64>)
    requires
        num_readable(*v),
    ensures
        r == opt_value(*v),
{
    match v {
        Some(x) => Some(x.to_i64()),
        None => None,
    }
}

/// A present value read as a number of seconds.
fn opt_secs(v: &Option<StrOrNum>) -> (r: Option<Duration>)
    requires
        num_readable(*v),
    ensures
        r == secs_value(*v),
{
    match v {
        Some(x) => Some(duration_from_secs(x.to_i64() as u64)),
        None => None,
    }
}

/// A present value read as a number of milliseconds.
fn opt_millis(v: &Option<StrOrNum>) -> (r: Option<Duration>)
    requires
        num_readable(*v),
    ensures
        r == millis_value(*v),
{
    match v {
        Some(x) => Some(duration_from_millis(x.to_i64() as u64)),
        None => None,
    }
}

/// The mobs a summon brings: the summon fields that are not zero.
fn summon_mobs(summons: &[Option<StrOrNum>; 12]) -> (r: Vec<u32>)
    requires
        forall|i: int| 0 <= i < 12 ==> num_readable(#[trigger] summons@[i]),
    ensures
        r@ == nonzero_ids(summons@.map_values(|x: Option<StrOrNum>| x.num_value().unwrap())),
{
    let ghost nums = summons@.map_values(|x: Option<StrOrNum>| x.num_value().unwrap());
    let mut out: Vec<u32> = Vec::new();
    let mut i: usize = 0;
    while i < 12
        invariant
            i <= 12,
            nums.len() == 12,
            nums == summons@.map_values(|x: Option<StrOrNum>| x.num_value().unwrap()),
            forall|j: int| 0 <= j < 12 ==> num_readable(#[trigger] summons@[j]),
            out@ == nonzero_ids(nums.take(i as int)),
        decreases 12 - i,
    {
        let n = summons[i].into_num();
        assert(nums.take(i as int + 1).drop_last() =~= nums.take(i as int));
        if n != 0 {
            out.push(n as u32);
        }
        i = i + 1;
    }
    assert(nums.take(12) =~= nums);
    out
}

/// The data of one level of a mob skill.
pub fn mob_skill_level(value: &MobSkillLevelRecord) -> (r: MobSkillLevelData)
    requires
        mob_skill_level_readable(*value),
    ensures
        mob_skill_level_of(r, *value),
{
    let elem_attr = match &value.elem_attr {
        Some(s) => Some(s.clone()),
        None => None,
    };
    MobSkillLevelData {
        id: 0,
        count: opt_num(&value.count),
        elem_attr,
        hp: opt_num(&value.hp),
        interval: opt_secs(&value.interval),
        limit: opt_millis(&value.limit),
        time: opt_millis(&value.time),
        mob_count: opt_num(&value.mob_count),
        mp_con: value.mp_con.into_num(),
        random_target: value.random_target.into_bool(),
        x: opt_num(&value.x),
        y: opt_num(&value.y),
        summon_effect: opt_num(&value.summon_effect),
        summon_mobs: summon_mobs(&value.summons),
    }
}

/// The fields of a mob's skill entry that the mob data reads.
#[derive(Clone, Debug)]
pub struct MobSkillEntryRecord {
    pub action: Option<i64>,
    pub effect_after: Option<i64>,
    pub level: Option<StrOrNum>,
    pub skill: Option<StrOrNum>,
    pub skill_after: Option<i64>,
}

/// A skill a mob uses, with its action and delays.
#[derive(Clone, Copy, Debug)]
pub struct MobSkillEntry {
    pub action: i64,
    pub effect_after: Option<Duration>,
    pub level: i64,
    pub skill: i64,
    pub skill_after: Option<Duration>,
}

/// Whether a mob's skill entry can be read: it names its action, and its
/// level and skill read as numbers.
pub open spec fn skill_entry_readable(e: MobSkillEntryRecord) -> bool {
    &&& e.action is Some
    &&& e.level.num_value() is Some
    &&& e.skill.num_value() is Some
}

/// A mob's skill entry: the delay of its effect in milliseconds, none for
/// zero or missing.
pub open spec fn skill_entry_of(e: MobSkillEntryRecord) -> MobSkillEntry {
    let after = match e.effect_after {
        Some(a) => a,
        None => 0,
    };
    MobSkillEntry {
        action: e.action.unwrap(),
        effect_after: if after != 0 {
            Some(duration_of_millis(after as u64))
        } else {
            None
        },
        level: e.level.num_value().unwrap(),
        skill: e.skill.num_value().unwrap(),
        skill_after: match e.skill_after {
            Some(a) => Some(duration_of_millis(a as u64)),
            None => None,
        },
    }
}

/// A mob's skill entry.
fn skill_entry(e: &MobSkillEntryRecord) -> (r: MobSkillEntry)
    requires
        skill_entry_readable(*e),
    ensures
        r == skill_entry_of(*e),
{
    let after: i64 = match e.effect_after {
        Some(a) => a,
        None => 0,
    };
    let effect_after = if after != 0 {
        Some(duration_from_millis(after as u64))
    } else {
        None
    };
    let skill_after = match e.skill_after {
        Some(a) => Some(duration_from_millis(a as u64)),
        None => None,
    };
    MobSkillEntry {
        action: e.action.unwrap(),
        effect_after,
        level: e.level.into_num(),
        skill: e.skill.into_num(),
        skill_after,
    }
}

/// An item a mob loses when hit.
#[derive(Clone, Debug)]
pub struct MobLoseItem {
    pub id: u32,
    pub amount: i64,
    pub not_drop: bool,
    /// The message type and the message shown on losing it.
    pub lose_msg: Option<(i64, String)>,
}

/// Whether a lost item entry can be read: it names its item, and a message
/// comes with its type.
pub open spec fn lose_item_readable(v: MobInfoLoseItemValue) -> bool {
    &&& v.id is Some
    &&& v.lose_msg is Some ==> v.lose_msg_type is Some
}

/// A lost item: one where the amount is missing.
pub open spec fn lose_item_of(v: MobInfoLoseItemValue) -> MobLoseItem {
    MobLoseItem {
        id: v.id.unwrap() as u32,
        amount: match v.x {
            Some(x) => x,
            None => 1,
        },
        not_drop: v.not_drop.bool_of(),
        lose_msg: match v.lose_msg {
            Some(m) => Some((v.lose_msg_type.unwrap(), m)),
            None => None,
        },
    }
}

/// A lost item.
fn lose_item(v: &MobInfoLoseItemValue) -> (r: MobLoseItem)
    requires
        lose_item_readable(*v),
    ensures
        r == lose_item_of(*v),
{
    let lose_msg = match &v.lose_msg {
        Some(m) => Some((v.lose_msg_type.unwrap(), m.clone())),
        None => None,
    };
    MobLoseItem {
        id: v.id.unwrap() as u32,
        amount: match v.x {
            Some(x) => x,
            None => 1,
        },
        not_drop: v.not_drop.into_bool(),
        lose_msg,
    }
}

/// How a mob bans a character from the map.
#[derive(Clone, Copy, Debug, PartialEq, Eq, Structural)]
pub enum MobBanType {
    NoBan,
    Collision,
    UserAttack,
    MobSkill,
}

/// The ban type of a code: zero none, one on collision, two on a
/// character's attack, minus one by a mob skill.
pub open spec fn ban_type_of(code: i8) -> Option<MobBanType> {
    if code == 0 {
        Some(MobBanType::NoBan)
    } else if code == 1 {
        Some(MobBanType::Collision)
    } else if code == 2 {
        Some(MobBanType::UserAttack)
    } else if code == -1 {
        Some(MobBanType::MobSkill)
    } else {
        None
    }
}

impl MobBanType {
    /// The ban type of a code; `None` for an unknown code.
    pub fn from_code(code: i8) -> (r: Option<MobBanType>)
        ensures
            r == ban_type_of(code),
    {
        if code == 0 {
            Some(MobBanType::NoBan)
        } else if code == 1 {
            Some(MobBanType::Collision)
        } else if code == 2 {
            Some(MobBanType::UserAttack)
        } else if code == -1 {
            Some(MobBanType::MobSkill)
        } else {
            None
        }
    }
}

/// Where a banned character is sent.
#[derive(Clone, Debug)]
pub struct BanMapTarget {
    pub field: u32,
    pub portal: Option<String>,
}

/// A mob's ban of characters from the map.
#[derive(Clone, Debug)]
pub struct MobBanMap {
    pub ban_msg: Option<String>,
    pub msg_ty: Option<i64>,
    pub ban_type: MobBanType,
    pub target: BanMapTarget,
}

/// An error of the mob data.
#[derive(Clone, Copy, Debug, PartialEq, Eq, Structural)]
pub enum MobDataError {
    /// A ban type code that names no ban type.
    BanType(i8),
}

/// Whether a ban entry can be read: it has a target, and each target names
/// its map.
pub open spec fn ban_readable(b: MobInfoBan) -> bool {
    &&& b.ban_map@.len() > 0
    &&& forall|k: String| #[trigger] b.ban_map@.contains_key(k) ==> b.ban_map@[k].field is Some
}

/// The ban type code of a ban entry: zero where missing, cut to 8 bits.
pub open spec fn ban_code(b: MobInfoBan) -> i8 {
    (match b.ban_type {
        Some(t) => t,
        None => 0,
    }) as i8
}

/// The target a ban entry names.
pub open spec fn target_of(t: MobInfoBanBanMapValue) -> BanMapTarget {
    BanMapTarget { field: t.field.unwrap() as u32, portal: t.portal }
}

/// Whether `r` is the ban of the entry `b`, sending to the first target of
/// some walk of its targets.
pub open spec fn ban_map_of(r: MobBanMap, b: MobInfoBan) -> bool {
    &&& r.ban_msg == b.ban_msg
    &&& r.msg_ty == b.ban_msg_type
    &&& ban_type_of(ban_code(b)) == Some(r.ban_type)
    &&& exists|k: String| #[trigger] b.ban_map@.contains_key(k) && r.target == target_of(b.ban_map@[k])
}

/// The ban of a ban entry, sending to the first target the walk of its
/// targets gives; an error for an unknown ban type.
fn ban_map(b: &MobInfoBan) -> (r: Result<MobBanMap, MobDataError>)
    requires
        ban_readable(*b),
    ensures
        r is Ok <==> ban_type_of(ban_code(*b)) is Some,
        r matches Ok(m) ==> ban_map_of(m, *b),
        r matches Err(e) ==> e == MobDataError::BanType(ban_code(*b)),
{
    let pairs = map_pairs(&b.ban_map);
    let first = pairs[0].1;
    assert(b.ban_map@.contains_key(*pairs@[0].0));
    let target = BanMapTarget {
        field: first.field.unwrap() as u32,
        portal: match &first.portal {
            Some(p) => Some(p.clone()),
            None => None,
        },
    };
    let code: i8 = (match b.ban_type {
        Some(t) => t,
        None => 0,
    }) as i8;
    match MobBanType::from_code(code) {
        Some(ban_type) => {
            let ban_msg = match &b.ban_msg {
                Some(m) => Some(m.clone()),
                None => None,
            };
            Ok(MobBanMap { ban_msg, msg_ty: b.ban_msg_type, ban_type, target })
        },
        None => Err(MobDataError::BanType(code)),
    }
}

/// How a mob moves.
#[derive(Clone, Copy, Debug, PartialEq, Eq, Structural)]
pub enum MobMoveAbility {
    Fly,
    Jump,
    Move,
    Stop,
}

/// How a mob moves: it flies if it has flying frames, else jumps if it has
/// jumping but no moving frames, else moves if it has moving frames, else
/// stands.
pub open spec fn move_ability_of(fly: bool, jump: bool, mv: bool) -> MobMoveAbility {
    if fly {
        MobMoveAbility::Fly
    } else if jump && !mv {
        MobMoveAbility::Jump
    } else if mv {
        MobMoveAbility::Move
    } else {
        MobMoveAbility::Stop
    }
}

/// The fields of a mob's info entry that the mob reads.
#[derive(Clone, Debug)]
pub struct MobInfoRecord {
    /// The mobs it turns into on death, keyed by index.
    pub revive: HashMap<String, StrOrNum>,
    pub max_hp: Option<StrOrNum>,
    pub max_mp: Option<StrOrNum>,
    pub acc: Option<StrOrNum>,
    pub fixed_damage: Option<StrOrNum>,
    pub exp: Option<StrOrNum>,
    pub eva: Option<i64>,
    pub hp_recovery: Option<i64>,
    pub mp_recovery: Option<i64>,
    pub speed: Option<i64>,
    pub fly_speed: Option<i64>,
    pub chase_speed: Option<i64>,
    pub ma_damage: Option<i64>,
    pub md_damage: Option<i64>,
    pub md_rate: Option<i64>,
    pub pa_damage: Option<i64>,
    pub pd_damage: Option<i64>,
    pub pd_rate: Option<i64>,
    pub pushed: Option<i64>,
    pub level: Option<i64>,
    pub summon_type: Option<i64>,
    pub rare_item_drop_level: Option<i64>,
    pub point: Option<i64>,
    pub link: Option<StrOrNum>,
    pub hp_tag_color: Option<i64>,
    pub hp_tag_bgcolor: Option<i64>,
    pub elem_attr: Option<String>,
    pub damaged_by_mob: Option<Bool>,
    pub damaged_by_selected_skill: HashMap<String, i64>,
    pub damaged_by_selected_mob: HashMap<String, i64>,
    pub category: Option<i64>,
    pub drop_item_period: Option<i64>,
    pub buff: Option<StrOrNum>,
    pub ban: Option<MobInfoBan>,
    pub lose_item: HashMap<String, MobInfoLoseItemValue>,
    pub skill: HashMap<String, MobSkillEntryRecord>,
    pub anger_gauge: Option<i64>,
    pub boss: Option<Bool>,
    pub body_attack: Option<Bool>,
    pub first_attack: Option<Bool>,
    pub explosive_reward: Option<Bool>,
    pub public_reward: Option<Bool>,
    pub cant_pass_by_teleport: Option<Bool>,
    pub do_not_remove: Option<Bool>,
    pub cannot_evade: Option<Bool>,
    pub not_attack: Option<Bool>,
    pub no_flip: Option<Bool>,
    pub no_doom: Option<Bool>,
    pub invincible: Option<Bool>,
    pub undead: Option<Bool>,
    pub remove_on_miss: Option<Bool>,
    pub remove_quest: Option<Bool>,
    pub upper_most_layer: Option<Bool>,
    pub h_pgauge_hide: Option<Bool>,
    pub ignore_field_out: Option<Bool>,
    pub escort: Option<Bool>,
}

/// The fields of a mob entry that the mob reads: its info, and whether
/// each of its animations has frames.
#[derive(Clone, Debug)]
pub struct MobRecord {
    pub info: Option<MobInfoRecord>,
    pub has_fly: bool,
    pub has_jump: bool,
    pub has_move: bool,
    pub has_stop: bool,
    pub has_stand: bool,
}

/// What damages a mob.
#[derive(Clone, Debug)]
pub struct MobDamagedBy {
    pub mob: bool,
    pub selected_skill: Vec<u32>,
    pub selected_mob: Vec<u32>,
}

/// A mob.
#[derive(Clone, Debug)]
pub struct Mob {
    pub id: u32,
    pub revive: Vec<u32>,
    pub move_ability: MobMoveAbility,
    pub max_hp: i64,
    pub max_mp: i64,
    pub acc: i64,
    pub fixed_damage: i64,
    pub exp: i64,
    pub eva: i64,
    pub hp_recovery: i64,
    pub mp_recovery: i64,
    pub speed: i64,
    pub fly_speed: i64,
    pub chase_speed: i64,
    pub ma_dmg: i64,
    pub md_dmg: i64,
    pub md_rate: i64,
    pub pa_dmg: i64,
    pub pd_dmg: i64,
    pub pd_rate: i64,
    pub push_min_dmg: i64,
    pub level: i64,
    pub summon_type: i64,
    pub rate_item_drop_level: i64,
    pub point: i64,
    pub link: Option<u32>,
    pub hp_tag_color: Option<i64>,
    pub hp_tag_bg_color: Option<i64>,
    /// The element attributes, as the data writes them; empty where missing.
    pub elem_attr: String,
    pub damaged_by: MobDamagedBy,
    /// The category code, cut to 8 bits.
    pub category: u8,
    pub drop_item_period: Option<Duration>,
    pub buff_reward: Option<u32>,
    pub ban_map: Option<MobBanMap>,
    pub lose_items: Vec<MobLoseItem>,
    /// The skills, keyed by the index of their key.
    pub skills: BTreeMap<usize, MobSkillEntry>,
    pub anger_gauge: Option<i64>,
    pub boss: bool,
    pub body_attack: bool,
    pub first_attack: bool,
    pub explosive_reward: bool,
    pub public_reward: bool,
    pub passable_by_teleport: bool,
    pub no_remove: bool,
    pub cannot_evade: bool,
    pub not_attack: bool,
    pub no_flip: bool,
    pub no_doom: bool,
    pub invincible: bool,
    pub undead: bool,
    pub remove_on_miss: bool,
    pub remove_quest: bool,
    pub upper_most_layer: bool,
    pub hp_gauge_hide: bool,
    pub ignore_field_out: bool,
    pub escort: bool,
    pub can_fly: bool,
    pub can_jump: bool,
    pub has_stop: bool,
    pub has_stand: bool,
}

/// Whether a mob entry can be read: it has its info; each number of the
/// info reads as one; each lost item, skill and ban can be read, and each
/// skill's key reads as an index.
pub open spec fn mob_readable(v: MobRecord) -> bool {
    &&& v.info is Some
    &&& mob_info_readable(v.info.unwrap())
}

/// Whether a mob's info entry can be read.
pub open spec fn mob_info_readable(i: MobInfoRecord) -> bool {
    &&& i.max_hp.num_value() is Some
    &&& i.max_mp.num_value() is Some
    &&& i.acc.num_value() is Some
    &&& i.fixed_damage.num_value() is Some
    &&& i.exp.num_value() is Some
    &&& i.link matches Some(l) ==> l.i64_value() is Some
    &&& i.buff matches Some(b) ==> b.i64_value() is Some
    &&& forall|k: String| #[trigger] i.revive@.contains_key(k) ==> i.revive@[k].i64_value() is Some
    &&& forall|k: String|
        #[trigger] i.lose_item@.contains_key(k) ==> lose_item_readable(i.lose_item@[k])
    &&& forall|k: String|
        #[trigger] i.skill@.contains_key(k) ==> key_index(k) is Some && skill_entry_readable(
            i.skill@[k],
        )
    &&& i.ban matches Some(b) ==> ban_readable(b)
}

/// Whether the plain values of `r` are those of the mob entry `v`.
pub open spec fn mob_plain(r: Mob, v: MobRecord) -> bool {
    let i = v.info.unwrap();
    &&& r.id == 0
    &&& r.move_ability == move_ability_of(v.has_fly, v.has_jump, v.has_move)
    &&& r.max_hp == i.max_hp.num_value().unwrap()
    &&& r.max_mp == i.max_mp.num_value().unwrap()
    &&& r.acc == i.acc.num_value().unwrap()
    &&& r.fixed_damage == i.fixed_damage.num_value().unwrap()
    &&& r.exp == i.exp.num_value().unwrap()
    &&& r.eva == i.eva.num_value().unwrap()
    &&& r.hp_recovery == i.hp_recovery.num_value().unwrap()
    &&& r.mp_recovery == i.mp_recovery.num_value().unwrap()
    &&& r.speed == i.speed.num_value().unwrap()
    &&& r.fly_speed == i.fly_speed.num_value().unwrap()
    &&& r.chase_speed == i.chase_speed.num_value().unwrap()
    &&& r.ma_dmg == i.ma_damage.num_value().unwrap()
    &&& r.md_dmg == i.md_damage.num_value().unwrap()
    &&& r.md_rate == i.md_rate.num_value().unwrap()
    &&& r.pa_dmg == i.pa_damage.num_value().unwrap()
    &&& r.pd_dmg == i.pd_damage.num_value().unwrap()
    &&& r.pd_rate == i.pd_rate.num_value().unwrap()
    &&& r.push_min_dmg == i.pushed.num_value().unwrap()
    &&& r.level == i.level.num_value().unwrap()
    &&& r.summon_type == i.summon_type.num_value().unwrap()
    &&& r.rate_item_drop_level == i.rare_item_drop_level.num_value().unwrap()
    &&& r.point == i.point.num_value().unwrap()
    &&& r.boss == i.boss.bool_of()
    &&& r.body_attack == i.body_attack.bool_of()
    &&& r.first_attack == i.first_attack.bool_of()
    &&& r.explosive_reward == i.explosive_reward.bool_of()
    &&& r.public_reward == i.public_reward.bool_of()
    &&& r.passable_by_teleport == !i.cant_pass_by_teleport.bool_of()
    &&& r.no_remove == i.do_not_remove.bool_of()
    &&& r.cannot_evade == i.cannot_evade.bool_of()
    &&& r.not_attack == i.not_attack.bool_of()
    &&& r.no_flip == i.no_flip.bool_of()
    &&& r.no_doom == i.no_doom.bool_of()
    &&& r.invincible == i.invincible.bool_of()
    &&& r.undead == i.undead.bool_of()
    &&& r.remove_on_miss == i.remove_on_miss.bool_of()
    &&& r.remove_quest == i.remove_quest.bool_of()
    &&& r.upper_most_layer == i.upper_most_layer.bool_of()
    &&& r.hp_gauge_hide == i.h_pgauge_hide.bool_of()
    &&& r.ignore_field_out == i.ignore_field_out.bool_of()
    &&& r.escort == i.escort.bool_of()
    &&& r.link == (match i.link {
        Some(l) => Some(l.i64_value().unwrap() as u32),
        None => None,
    })
    &&& r.hp_tag_color == i.hp_tag_color
    &&& r.hp_tag_bg_color == i.hp_tag_bgcolor
    &&& r.elem_attr@ == (match i.elem_attr {
        Some(e) => e@,
        None => Seq::empty(),
    })
    &&& r.damaged_by.mob == i.damaged_by_mob.bool_of()
    &&& r.category == i.category.num_value().unwrap() as u8
    &&& r.drop_item_period == (match i.drop_item_period {
        Some(p) => Some(duration_of_secs(p as u64)),
        None => None,
    })
    &&& r.buff_reward == (match i.buff {
        Some(b) => Some(b.i64_value().unwrap() as u32),
        None => None,
    })
    &&& r.anger_gauge == i.anger_gauge
    &&& r.can_fly == v.has_fly
    &&& r.can_jump == v.has_jump
    &&& r.has_stop == v.has_stop
    &&& r.has_stand == v.has_stand
}

/// Whether the lists of `r` hold, in the order of some walk of each map of
/// the info entry `i`, what each entry gives, and the skills keyed by
/// their key's index.
pub open spec fn mob_lists(r: Mob, i: MobInfoRecord) -> bool {
    &&& exists|ks: Seq<String>|
        walk_of(ks, i.revive@) && #[trigger] r.revive@.len() == ks.len() && forall|j: int|
            0 <= j < ks.len() ==> #[trigger] r.revive@[j] == i.revive@[ks[j]].i64_value().unwrap()
                as u32
    &&& exists|ks: Seq<String>|
        walk_of(ks, i.damaged_by_selected_skill@) && #[trigger] r.damaged_by.selected_skill@.len()
            == ks.len() && forall|j: int|
            0 <= j < ks.len() ==> #[trigger] r.damaged_by.selected_skill@[j]
                == i.damaged_by_selected_skill@[ks[j]] as u32
    &&& exists|ks: Seq<String>|
        walk_of(ks, i.damaged_by_selected_mob@) && #[trigger] r.damaged_by.selected_mob@.len()
            == ks.len() && forall|j: int|
            0 <= j < ks.len() ==> #[trigger] r.damaged_by.selected_mob@[j]
                == i.damaged_by_selected_mob@[ks[j]] as u32
    &&& exists|ks: Seq<String>|
        walk_of(ks, i.lose_item@) && #[trigger] r.lose_items@.len() == ks.len() && forall|j: int|
            0 <= j < ks.len() ==> #[trigger] r.lose_items@[j] == lose_item_of(i.lose_item@[ks[j]])
    &&& keyed_by(r.skills@, i.skill@, |e: MobSkillEntryRecord, s: MobSkillEntry| s == skill_entry_of(e))
}

/// An id of the data files cut to 32 bits.
fn id_of(e: &i64) -> (o: u32)
    ensures
        o == *e as u32,
{
    *e as u32
}

/// A number of the data files read as an id cut to 32 bits.
fn num_id_of(e: &StrOrNum) -> (o: u32)
    requires
        e.i64_value() is Some,
    ensures
        o == e.i64_value().unwrap() as u32,
{
    e.to_i64() as u32
}

/// A mob, read from its entry; an error where its ban names an unknown ban
/// type. The element attributes and the category code are kept as the data
/// writes them.
pub fn mob(value: &MobRecord) -> (r: Result<Mob, MobDataError>)
    requires
        mob_readable(*value),
    ensures
        r is Ok <==> (value.info.unwrap().ban matches Some(b) ==> ban_type_of(ban_code(b)) is Some),
        r matches Err(e) ==> value.info.unwrap().ban matches Some(b) && e == MobDataError::BanType(
            ban_code(b),
        ),
        r matches Ok(m) ==> {
            &&& mob_plain(m, *value)
            &&& mob_lists(m, value.info.unwrap())
            &&& m.ban_map is Some <==> value.info.unwrap().ban is Some
            &&& m.ban_map matches Some(bm) ==> ban_map_of(bm, value.info.unwrap().ban.unwrap())
        },
{
    let i = value.info.as_ref().unwrap();
    let move_ability = if value.has_fly {
        MobMoveAbility::Fly
    } else if value.has_jump && !value.has_move {
        MobMoveAbility::Jump
    } else if value.has_move {
        MobMoveAbility::Move
    } else {
        MobMoveAbility::Stop
    };
    let ban = match &i.ban {
        Some(b) => match ban_map(b) {
            Ok(m) => Some(m),
            Err(e) => {
                return Err(e);
            },
        },
        None => None,
    };
    let revive = map_walk_values(&i.revive, num_id_of);
    let selected_skill = map_walk_values(&i.damaged_by_selected_skill, id_of);
    let selected_mob = map_walk_values(&i.damaged_by_selected_mob, id_of);
    let lose_items = map_walk_values(&i.lose_item, lose_item);
    let skills = map_to_btree_with(&i.skill, skill_entry);
    proof {
        lemma_keyed(
            skills@,
            i.skill@,
            skill_entry,
            |e: MobSkillEntryRecord, s: MobSkillEntry| s == skill_entry_of(e),
        );
    }
    let elem_attr = match &i.elem_attr {
        Some(e) => e.clone(),
        None => String::new(),
    };
    let link = match &i.link {
        Some(l) => Some(l.to_i64() as u32),
        None => None,
    };
    let buff_reward = match &i.buff {
        Some(b) => Some(b.to_i64() as u32),
        None => None,
    };
    let drop_item_period = match i.drop_item_period {
        Some(p) => Some(duration_from_secs(p as u64)),
        None => None,
    };
    Ok(Mob {
        id: 0,
        revive,
        move_ability,
        max_hp: i.max_hp.into_num(),
        max_mp: i.max_mp.into_num(),
        acc: i.acc.into_num(),
        fixed_damage: i.fixed_damage.into_num(),
        exp: i.exp.into_num(),
        eva: i.eva.into_num(),
        hp_recovery: i.hp_recovery.into_num(),
        mp_recovery: i.mp_recovery.into_num(),
        speed: i.speed.into_num(),
        fly_speed: i.fly_speed.into_num(),
        chase_speed: i.chase_speed.into_num(),
        ma_dmg: i.ma_damage.into_num(),
        md_dmg: i.md_damage.into_num(),
        md_rate: i.md_rate.into_num(),
        pa_dmg: i.pa_damage.into_num(),
        pd_dmg: i.pd_damage.into_num(),
        pd_rate: i.pd_rate.into_num(),
        push_min_dmg: i.pushed.into_num(),
        level: i.level.into_num(),
        summon_type: i.summon_type.into_num(),
        rate_item_drop_level: i.rare_item_drop_level.into_num(),
        point: i.point.into_num(),
        link,
        hp_tag_color: i.hp_tag_color,
        hp_tag_bg_color: i.hp_tag_bgcolor,
        elem_attr,
        damaged_by: MobDamagedBy { mob: i.damaged_by_mob.into_bool(), selected_skill, selected_mob },
        category: i.category.into_num() as u8,
        drop_item_period,
        buff_reward,
        ban_map: ban,
        lose_items,
        skills,
        anger_gauge: i.anger_gauge,
        boss: i.boss.into_bool(),
        body_attack: i.body_attack.into_bool(),
        first_attack: i.first_attack.into_bool(),
        explosive_reward: i.explosive_reward.into_bool(),
        public_reward: i.public_reward.into_bool(),
        passable_by_teleport: !i.cant_pass_by_teleport.into_bool(),
        no_remove: i.do_not_remove.into_bool(),
        cannot_evade: i.cannot_evade.into_bool(),
        not_attack: i.not_attack.into_bool(),
        no_flip: i.no_flip.into_bool(),
        no_doom: i.no_doom.into_bool(),
        invincible: i.invincible.into_bool(),
        undead: i.undead.into_bool(),
        remove_on_miss: i.remove_on_miss.into_bool(),
        remove_quest: i.remove_quest.into_bool(),
        upper_most_layer: i.upper_most_layer.into_bool(),
        hp_gauge_hide: i.h_pgauge_hide.into_bool(),
        ignore_field_out: i.ignore_field_out.into_bool(),
        escort: i.escort.into_bool(),
        can_fly: value.has_fly,
        can_jump: value.has_jump,
        has_stop: value.has_stop,
        has_stand: value.has_stand,
    })
}

/// The fields of a mob skill entry that the skill data reads: its levels,
/// keyed by level.
#[derive(Clone, Debug)]
pub struct MobSkillRecord {
    pub level: HashMap<String, MobSkillLevelRecord>,
}

/// The data of a mob skill: its levels, keyed by level.
#[derive(Clone, Debug)]
pub struct MobSkillData {
    pub id: u32,
    pub levels: BTreeMap<usize, MobSkillLevelData>,
}

/// Whether a mob skill entry can be read: each level key reads as a number
/// and each level entry can be read.
pub open spec fn mob_skill_readable(v: MobSkillRecord) -> bool {
    forall|k: String|
        #[trigger] v.level@.contains_key(k) ==> key_index(k) is Some && mob_skill_level_readable(
            v.level@[k],
        )
}

/// The data of a mob skill: its levels keyed by level, each the level data
/// of an entry whose key reads as that level.
pub fn mob_skill_data(value: &MobSkillRecord) -> (r: MobSkillData)
    requires
        mob_skill_readable(*value),
    ensures
        r.id == 0,
        keyed_by(
            r.levels@,
            value.level@,
            |v: MobSkillLevelRecord, d: MobSkillLevelData| mob_skill_level_of(d, v),
        ),
{
    let levels = map_to_btree_with(&value.level, mob_skill_level);
    proof {
        lemma_keyed(
            levels@,
            value.level@,
            mob_skill_level,
            |v: MobSkillLevelRecord, d: MobSkillLevelData| mob_skill_level_of(d, v),
        );
    }
    MobSkillData { id: 0, levels }
}

/// What any mob skill level has: the share of its hp below which the mob
/// uses it, its mp cost and its interval.
#[derive(Clone, Copy, Debug)]
pub struct MobSkillInfo {
    pub hp_threshold: Option<u8>,
    pub mp_cost: u16,
    pub interval: Option<Duration>,
}

/// A skill level that summons mobs.
#[derive(Clone, Debug)]
pub struct MobSummonSkill {
    pub info: MobSkillInfo,
    pub mobs: Vec<u32>,
    pub limit: usize,
    pub summon_effect: usize,
}

/// A skill level that heals the mobs around.
#[derive(Clone, Copy, Debug)]
pub struct MobHealSkill {
    pub info: MobSkillInfo,
    pub amount: u16,
    pub variance: u16,
}

/// The common part of a mob skill level entry: each number cut to its
/// width, the mp cost zero where missing, the interval in seconds.
pub open spec fn mob_skill_info_of(v: MobSkillLevelRecord) -> MobSkillInfo {
    MobSkillInfo {
        hp_threshold: match v.hp {
            Some(h) => Some(h.i64_value().unwrap() as u8),
            None => None,
        },
        mp_cost: v.mp_con.num_value().unwrap() as u16,
        interval: secs_value(v.interval),
    }
}

/// The common part of a mob skill level.
pub fn mob_skill_info(v: &MobSkillLevelRecord) -> (r: MobSkillInfo)
    requires
        mob_skill_level_readable(*v),
    ensures
        r == mob_skill_info_of(*v),
{
    MobSkillInfo {
        hp_threshold: match &v.hp {
            Some(h) => Some(h.to_i64() as u8),
            None => None,
        },
        mp_cost: v.mp_con.into_num() as u16,
        interval: opt_secs(&v.interval),
    }
}

/// A summoning skill level: the summon fields that are not zero, its limit
/// and effect zero where missing.
pub fn mob_summon_skill(v: &MobSkillLevelRecord) -> (r: MobSummonSkill)
    requires
        mob_skill_level_readable(*v),
    ensures
        r.info == mob_skill_info_of(*v),
        r.mobs@ == nonzero_ids(summon_nums(*v)),
        r.limit == v.limit.num_value().unwrap() as usize,
        r.summon_effect == v.summon_effect.num_value().unwrap() as usize,
{
    MobSummonSkill {
        info: mob_skill_info(v),
        mobs: summon_mobs(&v.summons),
        limit: v.limit.into_num() as usize,
        summon_effect: v.summon_effect.into_num() as usize,
    }
}

/// A healing skill level: its amount and variance zero where missing.
pub fn mob_heal_skill(v: &MobSkillLevelRecord) -> (r: MobHealSkill)
    requires
        mob_skill_level_readable(*v),
    ensures
        r.info == mob_skill_info_of(*v),
        r.amount == v.x.num_value().unwrap() as u16,
        r.variance == v.y.num_value().unwrap() as u16,
{
    MobHealSkill {
        info: mob_skill_info(v),
        amount: v.x.into_num() as u16,
        variance: v.y.into_num() as u16,
    }
}

/// A stat a mob raises on itself.
#[derive(Clone, Copy, Debug, PartialEq, Eq, Structural)]
pub enum MobBuffStat {
    PowerUp,
    MagicUp,
    PGuardUp,
    MGuardUp,
    Haste,
    PhysicalImmune,
    MagicImmune,
    HardSkin,
    Pad,
    Mad,
    Pdr,
    Mdr,
    Acc,
    Eva,
    Speed,
}

/// A counter a mob raises on itself.
#[derive(Clone, Copy, Debug, PartialEq, Eq, Structural)]
pub enum MobCounterStat {
    Physical,
    Magic,
}

/// A stat a mob raises on the mobs around it.
#[derive(Clone, Copy, Debug, PartialEq, Eq, Structural)]
pub enum MobPartizanStat {
    PowerUpM,
    MagicUpM,
    PGuardUpM,
    MGuardUpM,
    HasteM,
    HealM,
}

/// A state a mob casts on characters.
#[derive(Clone, Copy, Debug, PartialEq, Eq, Structural)]
pub enum MobCharStat {
    Seal,
    Darkness,
    Weakness,
    Stun,
    Curse,
    Poison,
    Slow,
    Dispel,
    Attract,
    BanMap,
    ReverseInput,
    Fear,
    Frozen,
}

/// The kind of a mob skill, as its id names it.
#[derive(Clone, Copy, Debug, PartialEq, Eq, Structural)]
pub enum MobSkillKind {
    Buff(MobBuffStat),
    Counter(MobCounterStat),
    PMCounter,
    Partizan(MobPartizanStat),
    CharBuff(MobCharStat),
    AreaPoison,
    AreaFire,
    Summon,
    SummonCube,
    SpreadFromUser,
    SealSkill,
    StopMotion,
    StopPortion,
    HealByDamage,
    BalrogCounter,
    Bind,
    Undead,
}

/// The range a mob skill reaches: its left top and right bottom corners,
/// cut to 16 bits.
#[derive(Clone, Copy, Debug, PartialEq, Eq, Structural)]
pub struct MobSkillRange {
    pub left: i16,
    pub top: i16,
    pub right: i16,
    pub bottom: i16,
}

/// A buff a mob skill gives: its value and how long it lasts.
#[derive(Clone, Copy, Debug)]
pub struct MobBuffSkill {
    pub info: MobSkillInfo,
    pub value: i16,
    pub dur: Duration,
}

/// A counter a mob skill raises: its strength and its weight, and how long
/// it lasts.
#[derive(Clone, Copy, Debug)]
pub struct MobCounterSkill {
    pub info: MobSkillInfo,
    pub n: i16,
    pub w: u32,
    pub dur: Duration,
}

/// A buff a mob skill gives to the mobs in its range.
#[derive(Clone, Copy, Debug)]
pub struct MobPartizanSkill {
    pub info: MobSkillInfo,
    pub value: i16,
    pub dur: Duration,
    pub range: Option<MobSkillRange>,
}

/// A state a mob skill casts on characters in its range, with the chance it
/// takes.
#[derive(Clone, Copy, Debug)]
pub struct MobCharBuffSkill {
    pub info: MobSkillInfo,
    pub value: i16,
    pub dur: Duration,
    pub skill_chance: Option<i16>,
    pub range: Option<MobSkillRange>,
}

/// An area a mob skill leaves behind.
#[derive(Debug)]
pub struct MobAffectedAreaSkill {
    pub info: MobSkillInfo,
    pub range: MobSkillRange,
    /// The element attribute, as the data writes it.
    pub elem_attr: Option<String>,
    pub dur: Duration,
    pub value: i16,
    pub prop: i16,
    pub count: usize,
}

/// A skill that spreads a character's skill to mobs.
#[derive(Clone, Copy, Debug)]
pub struct MobSpreadFromUserSkill {
    pub info: MobSkillInfo,
    pub count: usize,
    pub random_target: bool,
    pub range: MobSkillRange,
    /// The code of the skill spread, cut to 8 bits.
    pub spread_skill: u8,
}

/// A level of a mob skill, read as its kind says.
#[derive(Debug)]
pub enum MobSkill {
    Buff(MobBuffStat, MobBuffSkill),
    Counter(MobCounterStat, MobCounterSkill),
    PMCounter(MobCounterSkill, MobCounterSkill),
    Partizan(MobPartizanStat, MobPartizanSkill),
    CharBuff(MobCharStat, MobCharBuffSkill),
    AreaPoison(MobAffectedAreaSkill),
    AreaFire(MobAffectedAreaSkill),
    Summon(MobSummonSkill),
    SummonCube(MobSummonSkill),
    SpreadFromUser(MobSpreadFromUserSkill),
    SealSkill,
    StopMotion,
    StopPortion,
    HealByDamage,
    BalrogCounter,
    Bind,
    Undead,
}

/// Whether a level entry can be read as a skill of the kind `kind`: it can
/// be read as a level, its chance reads as a number where a state or an
/// area needs it, and an area or a spread has both corners of its range.
pub open spec fn mob_skill_readable_as(kind: MobSkillKind, v: MobSkillLevelRecord) -> bool {
    &&& mob_skill_level_readable(v)
    &&& (kind is CharBuff || kind is AreaPoison || kind is AreaFire) ==> num_readable(v.prop)
    &&& (kind is AreaPoison || kind is AreaFire || kind is SpreadFromUser) ==> (v.lt is Some
        && v.rb is Some)
}

/// The range of a level entry, where it has both corners.
pub open spec fn range_of(v: MobSkillLevelRecord) -> Option<MobSkillRange> {
    match (v.lt, v.rb) {
        (Some(lt), Some(rb)) => Some(
            MobSkillRange {
                left: lt.x as i16,
                top: lt.y as i16,
                right: rb.x as i16,
                bottom: rb.y as i16,
            },
        ),
        _ => None,
    }
}

/// A number field of a level entry, zero where missing.
pub open spec fn num_of(v: Option<StrOrNum>) -> i64 {
    v.num_value().unwrap()
}

/// How long a buff of a level entry lasts: its time in seconds.
pub open spec fn buff_dur(v: MobSkillLevelRecord) -> Duration {
    duration_of_secs(num_of(v.time) as u64)
}

/// The value a state casts: its `x`, one where that is zero.
pub open spec fn char_value(v: MobSkillLevelRecord) -> i16 {
    let x = num_of(v.x) as i16;
    if x == 0 {
        1
    } else {
        x
    }
}

/// The counter a level entry raises.
pub open spec fn counter_of(v: MobSkillLevelRecord) -> MobCounterSkill {
    MobCounterSkill {
        info: mob_skill_info_of(v),
        n: num_of(v.x) as i16,
        w: num_of(v.y) as u32,
        dur: buff_dur(v),
    }
}

/// The area a level entry leaves behind.
pub open spec fn area_of(v: MobSkillLevelRecord) -> MobAffectedAreaSkill {
    MobAffectedAreaSkill {
        info: mob_skill_info_of(v),
        range: range_of(v).unwrap(),
        elem_attr: v.elem_attr,
        dur: buff_dur(v),
        value: num_of(v.x) as i16,
        prop: num_of(v.prop) as i16,
        count: num_of(v.count) as usize,
    }
}

/// Whether `s` is the summon a level entry makes.
pub open spec fn summon_matches(s: MobSummonSkill, v: MobSkillLevelRecord) -> bool {
    &&& s.info == mob_skill_info_of(v)
    &&& s.mobs@ == nonzero_ids(summon_nums(v))
    &&& s.limit == num_of(v.limit) as usize
    &&& s.summon_effect == num_of(v.summon_effect) as usize
}

/// Whether `r` is the skill of kind `kind` that the level entry `v` stands
/// for: a buff of value `x` lasting `time` seconds; a counter of strength
/// `x` and weight `y`; a state of value `x` (one where zero, but for a
/// dispel) with the chance `prop`; an area, a summon or a spread as its
/// fields say; and the kinds without data as themselves.
pub open spec fn mob_skill_of(r: MobSkill, kind: MobSkillKind, v: MobSkillLevelRecord) -> bool {
    let info = mob_skill_info_of(v);
    match kind {
        MobSkillKind::Buff(stat) => r == MobSkill::Buff(
            stat,
            MobBuffSkill { info, value: num_of(v.x) as i16, dur: buff_dur(v) },
        ),
        MobSkillKind::Counter(stat) => r == MobSkill::Counter(stat, counter_of(v)),
        MobSkillKind::PMCounter => r == MobSkill::PMCounter(counter_of(v), counter_of(v)),
        MobSkillKind::Partizan(stat) => r == MobSkill::Partizan(
            stat,
            MobPartizanSkill { info, value: num_of(v.x) as i16, dur: buff_dur(v), range: range_of(v) },
        ),
        MobSkillKind::CharBuff(stat) => r == MobSkill::CharBuff(
            stat,
            MobCharBuffSkill {
                info,
                value: if stat == MobCharStat::Dispel {
                    num_of(v.x) as i16
                } else {
                    char_value(v)
                },
                dur: buff_dur(v),
                skill_chance: match v.prop {
                    Some(p) => Some(p.i64_value().unwrap() as i16),
                    None => None,
                },
                range: range_of(v),
            },
        ),
        MobSkillKind::AreaPoison => r == MobSkill::AreaPoison(area_of(v)),
        MobSkillKind::AreaFire => r == MobSkill::AreaFire(area_of(v)),
        MobSkillKind::Summon => r matches MobSkill::Summon(s) && summon_matches(s, v),
        MobSkillKind::SummonCube => r matches MobSkill::SummonCube(s) && summon_matches(s, v),
        MobSkillKind::SpreadFromUser => r == MobSkill::SpreadFromUser(
            MobSpreadFromUserSkill {
                info,
                count: num_of(v.count) as usize,
                random_target: v.random_target.bool_of(),
                range: range_of(v).unwrap(),
                spread_skill: num_of(v.x) as u8,
            },
        ),
        MobSkillKind::SealSkill => r == MobSkill::SealSkill,
        MobSkillKind::StopMotion => r == MobSkill::StopMotion,
        MobSkillKind::StopPortion => r == MobSkill::StopPortion,
        MobSkillKind::HealByDamage => r == MobSkill::HealByDamage,
        MobSkillKind::BalrogCounter => r == MobSkill::BalrogCounter,
        MobSkillKind::Bind => r == MobSkill::Bind,
        MobSkillKind::Undead => r == MobSkill::Undead,
    }
}

/// The range of a level entry, where it has both corners.
fn skill_range(v: &MobSkillLevelRecord) -> (r: Option<MobSkillRange>)
    ensures
        r == range_of(*v),
{
    match (v.lt, v.rb) {
        (Some(lt), Some(rb)) => Some(
            MobSkillRange {
                left: lt.x as i16,
                top: lt.y as i16,
                right: rb.x as i16,
                bottom: rb.y as i16,
            },
        ),
        _ => None,
    }
}

/// How long a buff of a level entry lasts.
fn skill_dur(v: &MobSkillLevelRecord) -> (r: Duration)
    requires
        mob_skill_level_readable(*v),
    ensures
        r == buff_dur(*v),
{
    duration_from_secs(v.time.into_num() as u64)
}

/// The counter a level entry raises.
fn counter_skill(v: &MobSkillLevelRecord) -> (r: MobCounterSkill)
    requires
        mob_skill_level_readable(*v),
    ensures
        r == counter_of(*v),
{
    MobCounterSkill {
        info: mob_skill_info(v),
        n: v.x.into_num() as i16,
        w: v.y.into_num() as u32,
        dur: skill_dur(v),
    }
}

/// The area a level entry leaves behind.
fn area_skill(v: &MobSkillLevelRecord) -> (r: MobAffectedAreaSkill)
    requires
        mob_skill_level_readable(*v),
        num_readable(v.prop),
        v.lt is Some && v.rb is Some,
    ensures
        r == area_of(*v),
{
    let elem_attr = match &v.elem_attr {
        Some(s) => Some(s.clone()),
        None => None,
    };
    MobAffectedAreaSkill {
        info: mob_skill_info(v),
        range: skill_range(v).unwrap(),
        elem_attr,
        dur: skill_dur(v),
        value: v.x.into_num() as i16,
        prop: v.prop.into_num() as i16,
        count: v.count.into_num() as usize,
    }
}

/// A level of a mob skill, read as its kind says.
pub fn mob_skill(kind: MobSkillKind, v: &MobSkillLevelRecord) -> (r: MobSkill)
    requires
        mob_skill_readable_as(kind, *v),
    ensures
        mob_skill_of(r, kind, *v),
{
    match kind {
        MobSkillKind::Buff(stat) => MobSkill::Buff(
            stat,
            MobBuffSkill { info: mob_skill_info(v), value: v.x.into_num() as i16, dur: skill_dur(v) },
        ),
        MobSkillKind::Counter(stat) => MobSkill::Counter(stat, counter_skill(v)),
        MobSkillKind::PMCounter => MobSkill::PMCounter(counter_skill(v), counter_skill(v)),
        MobSkillKind::Partizan(stat) => MobSkill::Partizan(
            stat,
            MobPartizanSkill {
                info: mob_skill_info(v),
                value: v.x.into_num() as i16,
                dur: skill_dur(v),
                range: skill_range(v),
            },
        ),
        MobSkillKind::CharBuff(stat) => {
            let x = v.x.into_num() as i16;
            let value = if stat == MobCharStat::Dispel {
                x
            } else if x == 0 {
                1
            } else {
                x
            };
            let skill_chance = match &v.prop {
                Some(p) => Some(p.to_i64() as i16),
                None => None,
            };
            MobSkill::CharBuff(
                stat,
                MobCharBuffSkill {
                    info: mob_skill_info(v),
                    value,
                    dur: skill_dur(v),
                    skill_chance,
                    range: skill_range(v),
                },
            )
        },
        MobSkillKind::AreaPoison => MobSkill::AreaPoison(area_skill(v)),
        MobSkillKind::AreaFire => MobSkill::AreaFire(area_skill(v)),
        MobSkillKind::Summon => MobSkill::Summon(mob_summon_skill(v)),
        MobSkillKind::SummonCube => MobSkill::SummonCube(mob_summon_skill(v)),
        MobSkillKind::SpreadFromUser => MobSkill::SpreadFromUser(
            MobSpreadFromUserSkill {
                info: mob_skill_info(v),
                count: v.count.into_num() as usize,
                random_target: v.random_target.into_bool(),
                range: skill_range(v).unwrap(),
                spread_skill: v.x.into_num() as u8,
            },
        ),
        MobSkillKind::SealSkill => MobSkill::SealSkill,
        MobSkillKind::StopMotion => MobSkill::StopMotion,
        MobSkillKind::StopPortion => MobSkill::StopPortion,
        MobSkillKind::HealByDamage => MobSkill::HealByDamage,
        MobSkillKind::BalrogCounter => MobSkill::BalrogCounter,
        MobSkillKind::Bind => MobSkill::Bind,
        MobSkillKind::Undead => MobSkill::Undead,
    }
}

/// How a mob moves follows from its animations alone: a mob with flying
/// frames flies; else one with moving frames moves, whether it has jumping
/// frames or not; else one with jumping frames jumps; else it stands. Its
/// animation flags are the record's.
pub proof fn lemma_mob_move_ability(r: Mob, v: MobRecord)
    requires
        v.info is Some,
        mob_plain(r, v),
    ensures
        v.has_fly ==> r.move_ability == MobMoveAbility::Fly,
        !v.has_fly && v.has_move ==> r.move_ability == MobMoveAbility::Move,
        !v.has_fly && !v.has_move && v.has_jump ==> r.move_ability == MobMoveAbility::Jump,
        !v.has_fly && !v.has_move && !v.has_jump ==> r.move_ability == MobMoveAbility::Stop,
        r.can_fly == v.has_fly,
        r.can_jump == v.has_jump,
        r.has_stop == v.has_stop,
        r.has_stand == v.has_stand,
{
}

/// Each stat of a mob is the value its info entry `i` gives under the same
/// name, zero where the entry has none.
pub proof fn lemma_mob_stats(r: Mob, v: MobRecord, i: MobInfoRecord)
    requires
        v.info == Some(i),
        mob_plain(r, v),
    ensures
        i.max_hp matches Some(n) ==> r.max_hp == n.i64_value().unwrap(),
        i.max_hp is None ==> r.max_hp == 0,
        i.max_mp matches Some(n) ==> r.max_mp == n.i64_value().unwrap(),
        i.max_mp is None ==> r.max_mp == 0,
        i.acc matches Some(n) ==> r.acc == n.i64_value().unwrap(),
        i.acc is None ==> r.acc == 0,
        i.fixed_damage matches Some(n) ==> r.fixed_damage == n.i64_value().unwrap(),
        i.fixed_damage is None ==> r.fixed_damage == 0,
        i.exp matches Some(n) ==> r.exp == n.i64_value().unwrap(),
        i.exp is None ==> r.exp == 0,
        i.eva matches Some(n) ==> r.eva == n,
        i.eva is None ==> r.eva == 0,
        i.hp_recovery matches Some(n) ==> r.hp_recovery == n,
        i.hp_recovery is None ==> r.hp_recovery == 0,
        i.mp_recovery matches Some(n) ==> r.mp_recovery == n,
        i.mp_recovery is None ==> r.mp_recovery == 0,
        i.speed matches Some(n) ==> r.speed == n,
        i.speed is None ==> r.speed == 0,
        i.fly_speed matches Some(n) ==> r.fly_speed == n,
        i.fly_speed is None ==> r.fly_speed == 0,
        i.chase_speed matches Some(n) ==> r.chase_speed == n,
        i.chase_speed is None ==> r.chase_speed == 0,
        i.ma_damage matches Some(n) ==> r.ma_dmg == n,
        i.ma_damage is None ==> r.ma_dmg == 0,
        i.md_damage matches Some(n) ==> r.md_dmg == n,
        i.md_damage is None ==> r.md_dmg == 0,
        i.md_rate matches Some(n) ==> r.md_rate == n,
        i.md_rate is None ==> r.md_rate == 0,
        i.pa_damage matches Some(n) ==> r.pa_dmg == n,
        i.pa_damage is None ==> r.pa_dmg == 0,
        i.pd_damage matches Some(n) ==> r.pd_dmg == n,
        i.pd_damage is None ==> r.pd_dmg == 0,
        i.pd_rate matches Some(n) ==> r.pd_rate == n,
        i.pd_rate is None ==> r.pd_rate == 0,
        i.pushed matches Some(n) ==> r.push_min_dmg == n,
        i.pushed is None ==> r.push_min_dmg == 0,
        i.level matches Some(n) ==> r.level == n,
        i.level is None ==> r.level == 0,
        i.summon_type matches Some(n) ==> r.summon_type == n,
        i.summon_type is None ==> r.summon_type == 0,
        i.rare_item_drop_level matches Some(n) ==> r.rate_item_drop_level == n,
        i.rare_item_drop_level is None ==> r.rate_item_drop_level == 0,
        i.point matches Some(n) ==> r.point == n,
        i.point is None ==> r.point == 0,
{
}

/// Each flag of a mob is the flag its info entry `i` gives under the same
/// name, unset where the entry has none; a mob passes by teleport unless
/// its entry forbids it.
pub proof fn lemma_mob_flags(r: Mob, v: MobRecord, i: MobInfoRecord)
    requires
        v.info == Some(i),
        mob_plain(r, v),
    ensures
        i.boss matches Some(b) ==> r.boss == bool_value(b),
        i.boss is None ==> !r.boss,
        i.body_attack matches Some(b) ==> r.body_attack == bool_value(b),
        i.body_attack is None ==> !r.body_attack,
        i.first_attack matches Some(b) ==> r.first_attack == bool_value(b),
        i.first_attack is None ==> !r.first_attack,
        i.explosive_reward matches Some(b) ==> r.explosive_reward == bool_value(b),
        i.explosive_reward is None ==> !r.explosive_reward,
        i.public_reward matches Some(b) ==> r.public_reward == bool_value(b),
        i.public_reward is None ==> !r.public_reward,
        i.do_not_remove matches Some(b) ==> r.no_remove == bool_value(b),
        i.do_not_remove is None ==> !r.no_remove,
        i.cannot_evade matches Some(b) ==> r.cannot_evade == bool_value(b),
        i.cannot_evade is None ==> !r.cannot_evade,
        i.not_attack matches Some(b) ==> r.not_attack == bool_value(b),
        i.not_attack is None ==> !r.not_attack,
        i.no_flip matches Some(b) ==> r.no_flip == bool_value(b),
        i.no_flip is None ==> !r.no_flip,
        i.no_doom matches Some(b) ==> r.no_doom == bool_value(b),
        i.no_doom is None ==> !r.no_doom,
        i.invincible matches Some(b) ==> r.invincible == bool_value(b),
        i.invincible is None ==> !r.invincible,
        i.undead matches Some(b) ==> r.undead == bool_value(b),
        i.undead is None ==> !r.undead,
        i.remove_on_miss matches Some(b) ==> r.remove_on_miss == bool_value(b),
        i.remove_on_miss is None ==> !r.remove_on_miss,
        i.remove_quest matches Some(b) ==> r.remove_quest == bool_value(b),
        i.remove_quest is None ==> !r.remove_quest,
        i.upper_most_layer matches Some(b) ==> r.upper_most_layer == bool_value(b),
        i.upper_most_layer is None ==> !r.upper_most_layer,
        i.h_pgauge_hide matches Some(b) ==> r.hp_gauge_hide == bool_value(b),
        i.h_pgauge_hide is None ==> !r.hp_gauge_hide,
        i.ignore_field_out matches Some(b) ==> r.ignore_field_out == bool_value(b),
        i.ignore_field_out is None ==> !r.ignore_field_out,
        i.escort matches Some(b) ==> r.escort == bool_value(b),
        i.escort is None ==> !r.escort,
        i.cant_pass_by_teleport matches Some(b) ==> r.passable_by_teleport == !bool_value(b),
        i.cant_pass_by_teleport is None ==> r.passable_by_teleport,
        i.damaged_by_mob matches Some(b) ==> r.damaged_by.mob == bool_value(b),
        i.damaged_by_mob is None ==> !r.damaged_by.mob,
        i.link matches Some(l) ==> r.link == Some(l.i64_value().unwrap() as u32),
        i.link is None ==> r.link is None,
        i.buff matches Some(b) ==> r.buff_reward == Some(b.i64_value().unwrap() as u32),
        i.buff is None ==> r.buff_reward is None,
        r.hp_tag_color == i.hp_tag_color,
        r.hp_tag_bg_color == i.hp_tag_bgcolor,
        r.anger_gauge == i.anger_gauge,
{
}

/// An item a mob loses is the entry's item, in the entry's amount (one
/// where missing), dropped unless the entry says otherwise, with the
/// entry's message under the entry's message type.
pub proof fn lemma_lose_item_fields(v: MobInfoLoseItemValue)
    requires
        lose_item_readable(v),
    ensures
        lose_item_of(v).id == v.id.unwrap() as u32,
        v.x matches Some(x) ==> lose_item_of(v).amount == x,
        v.x is None ==> lose_item_of(v).amount == 1,
        v.not_drop matches Some(b) ==> lose_item_of(v).not_drop == bool_value(b),
        v.not_drop is None ==> !lose_item_of(v).not_drop,
        v.lose_msg matches Some(m) ==> lose_item_of(v).lose_msg == Some((v.lose_msg_type.unwrap(), m)),
        v.lose_msg is None ==> lose_item_of(v).lose_msg is None,
{
}

/// A skill a mob uses is the entry's skill at the entry's level (zero where
/// missing) with the entry's action; its effect comes after the entry's
/// delay in milliseconds where that is not zero, and the skill after the
/// entry's delay where one is given.
pub proof fn lemma_skill_entry_fields(e: MobSkillEntryRecord)
    requires
        skill_entry_readable(e),
    ensures
        skill_entry_of(e).action == e.action.unwrap(),
        e.skill matches Some(n) ==> skill_entry_of(e).skill == n.i64_value().unwrap(),
        e.skill is None ==> skill_entry_of(e).skill == 0,
        e.level matches Some(n) ==> skill_entry_of(e).level == n.i64_value().unwrap(),
        e.level is None ==> skill_entry_of(e).level == 0,
        e.effect_after matches Some(a) ==> (a != 0 ==> skill_entry_of(e).effect_after == Some(
            duration_of_millis(a as u64),
        )),
        e.effect_after matches Some(a) ==> (a == 0 ==> skill_entry_of(e).effect_after is None),
        e.effect_after is None ==> skill_entry_of(e).effect_after is None,
        e.skill_after matches Some(a) ==> skill_entry_of(e).skill_after == Some(
            duration_of_millis(a as u64),
        ),
        e.skill_after is None ==> skill_entry_of(e).skill_after is None,
{
}

/// Each ban type has its own code, and the codes are zero, one, two and
/// minus one: reading a code gives a ban type exactly for these four, and
/// two codes that give a type give the same type only if they are equal.
pub proof fn lemma_ban_type_codes(a: i8, b: i8)
    ensures
        ban_type_of(a) is Some <==> (a == 0 || a == 1 || a == 2 || a == -1),
        ban_type_of(0i8) == Some(MobBanType::NoBan),
        ban_type_of(1i8) == Some(MobBanType::Collision),
        ban_type_of(2i8) == Some(MobBanType::UserAttack),
        ban_type_of(-1i8) == Some(MobBanType::MobSkill),
        (ban_type_of(a) is Some && ban_type_of(a) == ban_type_of(b)) ==> a == b,
{
}

/// A level of a mob skill keeps the entry's numbers under the same names
/// (its mp cost zero where missing), its interval in seconds and its limit
/// and time in milliseconds, and summons the mobs of its summon fields that
/// are not zero, in order.
pub proof fn lemma_mob_skill_level_fields(r: MobSkillLevelData, v: MobSkillLevelRecord)
    requires
        mob_skill_level_of(r, v),
    ensures
        r.id == 0,
        v.count matches Some(n) ==> r.count == Some(n.i64_value().unwrap()),
        v.count is None ==> r.count is None,
        v.hp matches Some(n) ==> r.hp == Some(n.i64_value().unwrap()),
        v.hp is None ==> r.hp is None,
        v.mob_count matches Some(n) ==> r.mob_count == Some(n.i64_value().unwrap()),
        v.mob_count is None ==> r.mob_count is None,
        v.x matches Some(n) ==> r.x == Some(n.i64_value().unwrap()),
        v.x is None ==> r.x is None,
        v.y matches Some(n) ==> r.y == Some(n.i64_value().unwrap()),
        v.y is None ==> r.y is None,
        v.summon_effect matches Some(n) ==> r.summon_effect == Some(n.i64_value().unwrap()),
        v.summon_effect is None ==> r.summon_effect is None,
        v.mp_con matches Some(n) ==> r.mp_con == n.i64_value().unwrap(),
        v.mp_con is None ==> r.mp_con == 0,
        v.interval matches Some(n) ==> r.interval == Some(duration_of_secs(n.i64_value().unwrap() as u64)),
        v.interval is None ==> r.interval is None,
        v.limit matches Some(n) ==> r.limit == Some(duration_of_millis(n.i64_value().unwrap() as u64)),
        v.limit is None ==> r.limit is None,
        v.time matches Some(n) ==> r.time == Some(duration_of_millis(n.i64_value().unwrap() as u64)),
        v.time is None ==> r.time is None,
        v.random_target matches Some(b) ==> r.random_target == bool_value(b),
        v.random_target is None ==> !r.random_target,
        r.elem_attr == v.elem_attr,
        r.summon_mobs@.len() <= 12,
        forall|i: int|
            0 <= i < r.summon_mobs@.len() ==> exists|j: int|
                0 <= j < 12 && v.summons@[j].num_value().unwrap() != 0 && #[trigger] r.summon_mobs@[i]
                    == v.summons@[j].num_value().unwrap() as u32,
{
    lemma_nonzero_ids_bound(summon_nums(v));
    assert forall|i: int| 0 <= i < r.summon_mobs@.len() implies exists|j: int|
        0 <= j < 12 && v.summons@[j].num_value().unwrap() != 0 && #[trigger] r.summon_mobs@[i]
            == v.summons@[j].num_value().unwrap() as u32 by {
        let j = choose|j: int|
            0 <= j < summon_nums(v).len() && summon_nums(v)[j] != 0 && #[trigger] nonzero_ids(
                summon_nums(v),
            )[i] == summon_nums(v)[j] as u32;
        assert(summon_nums(v)[j] == v.summons@[j].num_value().unwrap());
    }
}

/// The ids kept from a list are no more than the list holds, and each comes
/// from an id of the list that is not zero.
pub proof fn lemma_nonzero_ids_bound(s: Seq<i64>)
    ensures
        nonzero_ids(s).len() <= s.len(),
        forall|i: int| 0 <= i < nonzero_ids(s).len() ==> exists|j: int|
            0 <= j < s.len() && s[j] != 0 && #[trigger] nonzero_ids(s)[i] == s[j] as u32,
    decreases s.len(),
{
    if s.len() > 0 {
        lemma_nonzero_ids_bound(s.drop_last());
        assert forall|i: int| 0 <= i < nonzero_ids(s).len() implies exists|j: int|
            0 <= j < s.len() && s[j] != 0 && #[trigger] nonzero_ids(s)[i] == s[j] as u32 by {
            let p = s.drop_last();
            if i < nonzero_ids(p).len() {
                let j = choose|j: int| 0 <= j < p.len() && p[j] != 0 && #[trigger] nonzero_ids(p)[i] == p[j] as u32;
                assert(s[j] == p[j]);
            } else {
                assert(s[s.len() - 1] != 0);
            }
        }
    }
}

/// What every level of a mob skill has: the hp share below which it is
/// used, from the entry's `hp`; its mp cost from `mpCon` (zero where
/// missing); its interval from `interval`, in seconds.
pub proof fn lemma_mob_skill_info_fields(v: MobSkillLevelRecord)
    ensures
        v.hp matches Some(n) ==> mob_skill_info_of(v).hp_threshold == Some(n.i64_value().unwrap() as u8),
        v.hp is None ==> mob_skill_info_of(v).hp_threshold is None,
        v.mp_con matches Some(n) ==> mob_skill_info_of(v).mp_cost == n.i64_value().unwrap() as u16,
        v.mp_con is None ==> mob_skill_info_of(v).mp_cost == 0,
        v.interval matches Some(n) ==> mob_skill_info_of(v).interval == Some(duration_of_secs(n.i64_value().unwrap() as u64)),
        v.interval is None ==> mob_skill_info_of(v).interval is None,
{
}

/// A mob skill is of the variant its kind names and carries the stat its
/// kind names. A buff, a partizan buff and a state last the entry's `time`
/// in seconds; a buff's and a partizan buff's value is `x`; a state's value
/// is `x`, or one where `x` is zero unless the state is a dispel, and its
/// chance is `prop`; a counter's strength is `x` and weight `y`; an area's
/// value is `x`, chance `prop` and count `count`; a spread's skill is `x`
/// and its count `count`. Each has the entry's common info.
pub proof fn lemma_mob_skill_kinds(r: MobSkill, kind: MobSkillKind, v: MobSkillLevelRecord)
    requires
        mob_skill_of(r, kind, v),
    ensures
        ({
            let x = match v.x {
                Some(n) => n.i64_value().unwrap(),
                None => 0,
            };
            let time = match v.time {
                Some(n) => n.i64_value().unwrap(),
                None => 0,
            };
            let dur = duration_of_secs(time as u64);
            let info = mob_skill_info_of(v);
            &&& kind matches MobSkillKind::Buff(st) ==> (r matches MobSkill::Buff(st2, b) && st2 == st
                && b.value == x as i16 && b.dur == dur && b.info == info)
            &&& kind matches MobSkillKind::Partizan(st) ==> (r matches MobSkill::Partizan(st2, b)
                && st2 == st && b.value == x as i16 && b.dur == dur && b.info == info)
            &&& kind matches MobSkillKind::CharBuff(st) ==> (r matches MobSkill::CharBuff(st2, b)
                && st2 == st && b.dur == dur && b.info == info && (st == MobCharStat::Dispel
                ==> b.value == x as i16) && (st != MobCharStat::Dispel ==> b.value == (if x as i16
                == 0 {
                1i16
            } else {
                x as i16
            })) && (v.prop matches Some(p) ==> b.skill_chance == Some(p.i64_value().unwrap() as i16))
                && (v.prop is None ==> b.skill_chance is None))
            &&& kind matches MobSkillKind::Counter(st) ==> (r matches MobSkill::Counter(st2, c)
                && st2 == st && c.n == x as i16 && c.dur == dur && c.info == info)
            &&& kind is PMCounter ==> r is PMCounter
            &&& kind is AreaPoison ==> (r matches MobSkill::AreaPoison(a) && a.value == x as i16
                && a.dur == dur && a.info == info)
            &&& kind is AreaFire ==> (r matches MobSkill::AreaFire(a) && a.value == x as i16
                && a.dur == dur && a.info == info)
            &&& kind is Summon ==> r is Summon
            &&& kind is SummonCube ==> r is SummonCube
            &&& kind is SpreadFromUser ==> (r matches MobSkill::SpreadFromUser(sp) && sp.spread_skill
                == x as u8 && sp.info == info)
            &&& kind is SealSkill ==> r is SealSkill
            &&& kind is StopMotion ==> r is StopMotion
            &&& kind is StopPortion ==> r is StopPortion
            &&& kind is HealByDamage ==> r is HealByDamage
            &&& kind is BalrogCounter ==> r is BalrogCounter
            &&& kind is Bind ==> r is Bind
            &&& kind is Undead ==> r is Undead
        }),
{
}

} // verus!
