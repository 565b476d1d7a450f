//! The common info of a skill level, read from the skill data.
use vstd::prelude::*;

use crate::schemas::mapping::IntoNum;
use crate::schemas::records::{SkillCommonInfo, Vec2};
use crate::schemas::scalar::{SkillExpr, StrOrNum};

verus! {

/// A number, where present, as a skill value.
pub open spec fn expr_of(v: Option<i64>) -> Option<SkillExpr> {
    match v {
        Some(n) => Some(SkillExpr::Int(n)),
        None => None,
    }
}

/// A number of the data files, where present, as a skill value.
pub open spec fn expr_of_num(v: Option<StrOrNum>) -> Option<SkillExpr> {
    match v {
        Some(n) => Some(SkillExpr::Int(n.i64_value().unwrap())),
        None => None,
    }
}

/// A number, where present, as a number of the data files.
pub open spec fn num_of(v: Option<i64>) -> Option<StrOrNum> {
    match v {
        Some(n) => Some(StrOrNum::Int(n)),
        None => None,
    }
}

/// A number, where present, as a skill value.
fn skill_expr(v: Option<i64>) -> (r: Option<SkillExpr>)
    ensures
        r == expr_of(v),
{
    match v {
        Some(n) => Some(SkillExpr::Int(n)),
        None => None,
    }
}

/// A number of the data files, where present, as a skill value.
fn skill_expr_of_num(v: &Option<StrOrNum>) -> (r: Option<SkillExpr>)
    requires
        v.num_value() is Some,
    ensures
        r == expr_of_num(*v),
{
    match v {
        Some(n) => Some(SkillExpr::from_str_or_num(n)),
        None => None,
    }
}

/// A number, where present, as a number of the data files.
fn number(v: Option<i64>) -> (r: Option<StrOrNum>)
    ensures
        r == num_of(v),
{
    match v {
        Some(n) => Some(StrOrNum::Int(n)),
        None => None,
    }
}

/// The fields of a skill level entry that its common info reads.
#[derive(Clone, Debug)]
pub struct SkillLevelRecord {
    pub acc: Option<i64>,
    pub attack_count: Option<i64>,
    pub cooltime: Option<i64>,
    pub criticaldamage_max: Option<i64>,
    pub damage: Option<StrOrNum>,
    pub dot: Option<StrOrNum>,
    pub dot_interval: Option<StrOrNum>,
    pub dot_time: Option<StrOrNum>,
    pub eva: Option<i64>,
    pub hp_con: Option<i64>,
    pub item_con: Option<i64>,
    pub item_con_no: Option<i64>,
    pub jump: Option<i64>,
    pub lt: Option<Vec2>,
    pub mad: Option<i64>,
    pub mastery: Option<i64>,
    pub mdd: Option<i64>,
    pub mob_count: Option<i64>,
    pub mp_con: Option<i64>,
    pub pad: Option<i64>,
    pub pdd: Option<i64>,
    pub prop: Option<i64>,
    pub range: Option<i64>,
    pub rb: Option<Vec2>,
    pub speed: Option<i64>,
    pub time: Option<i64>,
    pub x: Option<i64>,
    pub y: Option<i64>,
    pub z: Option<i64>,
}

/// Whether a skill level entry can be read: its values written as text
/// read as numbers.
pub open spec fn skill_level_readable(v: SkillLevelRecord) -> bool {
    &&& v.damage.num_value() is Some
    &&& v.dot.num_value() is Some
    &&& v.dot_interval.num_value() is Some
    &&& v.dot_time.num_value() is Some
}

/// Whether `r` is the common info of the skill level entry `v`: each
/// number it has, as a skill value; its item costs as numbers; its range
/// corners as they are; every other value missing.
pub open spec fn skill_common_of(r: SkillCommonInfo, v: SkillLevelRecord) -> bool {
    &&& r.acc == expr_of(v.acc)
    &&& r.action is None
    &&& r.asr_r is None
    &&& r.attack_count == expr_of(v.attack_count)
    &&& r.bullet_consume is None
    &&& r.bullet_count is None
    &&& r.cooltime == expr_of(v.cooltime)
    &&& r.cr is None
    &&& r.criticaldamage_max == expr_of(v.criticaldamage_max)
    &&& r.criticaldamage_min is None
    &&& r.dam_r is None
    &&& r.damage == expr_of_num(v.damage)
    &&& r.dot == expr_of_num(v.dot)
    &&& r.dot_interval == expr_of_num(v.dot_interval)
    &&& r.dot_time == expr_of_num(v.dot_time)
    &&& r.emdd is None
    &&& r.emhp is None
    &&& r.emmp is None
    &&& r.epad is None
    &&& r.epdd is None
    &&& r.er is None
    &&& r.eva == expr_of(v.eva)
    &&& r.exp_r is None
    &&& r.hp is None
    &&& r.hp_con == expr_of(v.hp_con)
    &&& r.ignore_mobpdp_r is None
    &&& r.item_con == num_of(v.item_con)
    &&& r.item_con_no == num_of(v.item_con_no)
    &&& r.item_consume is None
    &&& r.jump == expr_of(v.jump)
    &&& r.lt == v.lt
    &&& r.mad == expr_of(v.mad)
    &&& r.mad_x is None
    &&& r.mastery == expr_of(v.mastery)
    &&& r.max_level is None
    &&& r.mdd == expr_of(v.mdd)
    &&& r.mdd_r is None
    &&& r.meso_r is None
    &&& r.mhp_r is None
    &&& r.mmp_r is None
    &&& r.mob_count == expr_of(v.mob_count)
    &&& r.money_con is None
    &&& r.morph is None
    &&& r.mp is None
    &&& r.mp_con == expr_of(v.mp_con)
    &&& r.pad == expr_of(v.pad)
    &&& r.pad_x is None
    &&& r.pdd == expr_of(v.pdd)
    &&& r.pdd_r is None
    &&& r.prop == expr_of(v.prop)
    &&& r.range == expr_of(v.range)
    &&& r.rb == v.rb
    &&& r.self_destruction is None
    &&& r.speed == expr_of(v.speed)
    &&& r.sub_prop is None
    &&& r.sub_time is None
    &&& r.t is None
    &&& r.ter_r is None
    &&& r.time == expr_of(v.time)
    &&& r.u is None
    &&& r.v is None
    &&& r.w is None
    &&& r.x == expr_of(v.x)
    &&& r.y == expr_of(v.y)
    &&& r.z == expr_of(v.z)
}

/// The common info of a skill level entry.
pub fn skill_common_info(v: &SkillLevelRecord) -> (r: SkillCommonInfo)
    requires
        skill_level_readable(*v),
    ensures
        skill_common_of(r, *v),
{
    SkillCommonInfo {
        acc: skill_expr(v.acc),
        action: None,
        asr_r: None,
        attack_count: skill_expr(v.attack_count),
        bullet_consume: None,
        bullet_count: None,
        cooltime: skill_expr(v.cooltime),
        cr: None,
        criticaldamage_max: skill_expr(v.criticaldamage_max),
        criticaldamage_min: None,
        dam_r: None,
        damage: skill_expr_of_num(&v.damage),
        dot: skill_expr_of_num(&v.dot),
        dot_interval: skill_expr_of_num(&v.dot_interval),
        dot_time: skill_expr_of_num(&v.dot_time),
        emdd: None,
        emhp: None,
        emmp: None,
        epad: None,
        epdd: None,
        er: None,
        eva: skill_expr(v.eva),
        exp_r: None,
        hp: None,
        hp_con: skill_expr(v.hp_con),
        ignore_mobpdp_r: None,
        item_con: number(v.item_con),
        item_con_no: number(v.item_con_no),
        item_consume: None,
        jump: skill_expr(v.jump),
        lt: v.lt,
        mad: skill_expr(v.mad),
        mad_x: None,
        mastery: skill_expr(v.mastery),
        max_level: None,
        mdd: skill_expr(v.mdd),
        mdd_r: None,
        meso_r: None,
        mhp_r: None,
        mmp_r: None,
        mob_count: skill_expr(v.mob_count),
        money_con: None,
        morph: None,
        mp: None,
        mp_con: skill_expr(v.mp_con),
        pad: skill_expr(v.pad),
        pad_x: None,
        pdd: skill_expr(v.pdd),
        pdd_r: None,
        prop: skill_expr(v.prop),
        range: skill_expr(v.range),
        rb: v.rb,
        self_destruction: None,
        speed: skill_expr(v.speed),
        sub_prop: None,
        sub_time: None,
        t: None,
        ter_r: None,
        time: skill_expr(v.time),
        u: None,
        v: None,
        w: None,
        x: skill_expr(v.x),
        y: skill_expr(v.y),
        z: skill_expr(v.z),
    }
}

/// The common info of a skill level holds each number of the level entry
/// under the same name as a skill value, its item costs as numbers and its
/// range corners as they are; every value the level entry has no field for
/// is missing.
pub proof fn lemma_skill_common_fields(r: SkillCommonInfo, v: SkillLevelRecord)
    requires
        skill_common_of(r, v),
    ensures
        v.acc matches Some(n) ==> r.acc == Some(SkillExpr::Int(n)),
        v.acc is None ==> r.acc is None,
        r.action is None,
        r.asr_r is None,
        v.attack_count matches Some(n) ==> r.attack_count == Some(SkillExpr::Int(n)),
        v.attack_count is None ==> r.attack_count is None,
        r.bullet_consume is None,
        r.bullet_count is None,
        v.cooltime matches Some(n) ==> r.cooltime == Some(SkillExpr::Int(n)),
        v.cooltime is None ==> r.cooltime is None,
        r.cr is None,
        v.criticaldamage_max matches Some(n) ==> r.criticaldamage_max == Some(SkillExpr::Int(n)),
        v.criticaldamage_max is None ==> r.criticaldamage_max is None,
        r.criticaldamage_min is None,
        r.dam_r is None,
        v.damage matches Some(n) ==> r.damage == Some(SkillExpr::Int(n.i64_value().unwrap())),
        v.damage is None ==> r.damage is None,
        v.dot matches Some(n) ==> r.dot == Some(SkillExpr::Int(n.i64_value().unwrap())),
        v.dot is None ==> r.dot is None,
        v.dot_interval matches Some(n) ==> r.dot_interval == Some(SkillExpr::Int(n.i64_value().unwrap())),
        v.dot_interval is None ==> r.dot_interval is None,
        v.dot_time matches Some(n) ==> r.dot_time == Some(SkillExpr::Int(n.i64_value().unwrap())),
        v.dot_time is None ==> r.dot_time is None,
        r.emdd is None,
        r.emhp is None,
        r.emmp is None,
        r.epad is None,
        r.epdd is None,
        r.er is None,
        v.eva matches Some(n) ==> r.eva == Some(SkillExpr::Int(n)),
        v.eva is None ==> r.eva is None,
        r.exp_r is None,
        r.hp is None,
        v.hp_con matches Some(n) ==> r.hp_con == Some(SkillExpr::Int(n)),
        v.hp_con is None ==> r.hp_con is None,
        r.ignore_mobpdp_r is None,
        v.item_con matches Some(n) ==> r.item_con == Some(StrOrNum::Int(n)),
        v.item_con is None ==> r.item_con is None,
        v.item_con_no matches Some(n) ==> r.item_con_no == Some(StrOrNum::Int(n)),
        v.item_con_no is None ==> r.item_con_no is None,
        r.item_consume is None,
        v.jump matches Some(n) ==> r.jump == Some(SkillExpr::Int(n)),
        v.jump is None ==> r.jump is None,
        r.lt == v.lt,
        v.mad matches Some(n) ==> r.mad == Some(SkillExpr::Int(n)),
        v.mad is None ==> r.mad is None,
        r.mad_x is None,
        v.mastery matches Some(n) ==> r.mastery == Some(SkillExpr::Int(n)),
        v.mastery is None ==> r.mastery is None,
        r.max_level is None,
        v.mdd matches Some(n) ==> r.mdd == Some(SkillExpr::Int(n)),
        v.mdd is None ==> r.mdd is None,
        r.mdd_r is None,
        r.meso_r is None,
        r.mhp_r is None,
        r.mmp_r is None,
        v.mob_count matches Some(n) ==> r.mob_count == Some(SkillExpr::Int(n)),
        v.mob_count is None ==> r.mob_count is None,
        r.money_con is None,
        r.morph is None,
        r.mp is None,
        v.mp_con matches Some(n) ==> r.mp_con == Some(SkillExpr::Int(n)),
        v.mp_con is None ==> r.mp_con is None,
        v.pad matches Some(n) ==> r.pad == Some(SkillExpr::Int(n)),
        v.pad is None ==> r.pad is None,
        r.pad_x is None,
        v.pdd matches Some(n) ==> r.pdd == Some(SkillExpr::Int(n)),
        v.pdd is None ==> r.pdd is None,
        r.pdd_r is None,
        v.prop matches Some(n) ==> r.prop == Some(SkillExpr::Int(n)),
        v.prop is None ==> r.prop is None,
        v.range matches Some(n) ==> r.range == Some(SkillExpr::Int(n)),
        v.range is None ==> r.range is None,
        r.rb == v.rb,
        r.self_destruction is None,
        v.speed matches Some(n) ==> r.speed == Some(SkillExpr::Int(n)),
        v.speed is None ==> r.speed is None,
        r.sub_prop is None,
        r.sub_time is None,
        r.t is None,
        r.ter_r is None,
        v.time matches Some(n) ==> r.time == Some(SkillExpr::Int(n)),
        v.time is None ==> r.time is None,
        r.u is None,
        r.v is None,
        r.w is None,
        v.x matches Some(n) ==> r.x == Some(SkillExpr::Int(n)),
        v.x is None ==> r.x is None,
        v.y matches Some(n) ==> r.y == Some(SkillExpr::Int(n)),
        v.y is None ==> r.y is None,
        v.z matches Some(n) ==> r.z == Some(SkillExpr::Int(n)),
        v.z is None ==> r.z is None,
{
}

} // verus!
