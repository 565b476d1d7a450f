//! The records of the game's JSON data files: what the data mappings read.
use vstd::prelude::*;
use vstd::std_specs::convert::FromSpecImpl;

use crate::schemas::scalar::{Bool, FieldInfoMode, MobInfoMobType, SkillExpr, StrOrInt, StrOrNum};
use crate::schemas::pattern::FieldLifeValueType;

verus! {

#[derive(Clone, Debug)]
pub struct CharItemInfoAddition {
    pub boss: Option<CharItemInfoAdditionBoss>,
    pub critical: Option<CharItemInfoAdditionCritical>,
    pub elem_boost: Option<CharItemInfoAdditionElemBoost>,
    pub elemboost: Option<CharItemInfoAdditionElemboost>,
    pub hpmpchange: Option<CharItemInfoAdditionHpmpchange>,
    pub mobcategory: Option<CharItemInfoAdditionMobcategory>,
    pub mobdie: Option<CharItemInfoAdditionMobdie>,
    pub skill: Option<CharItemInfoAdditionSkill>,
}

#[derive(Clone, Debug)]
pub struct CharItemInfoAdditionBoss {
    pub con: Option<CharItemInfoAdditionBossCon>,
    pub damage: Option<i64>,
    pub prob: Option<i64>,
}

#[derive(Clone, Copy, Debug)]
pub struct CharItemInfoAdditionBossCon {
    pub craft: Option<i64>,
}

#[derive(Clone, Debug)]
pub struct CharItemInfoAdditionCritical {
    pub con: Option<CharItemInfoAdditionCriticalCon>,
    pub damage: Option<StrOrInt>,
    pub prob: Option<i64>,
}

#[derive(Clone, Copy, Debug)]
pub struct CharItemInfoAdditionCriticalCon {
    pub job: Option<i64>,
    pub level: Option<i64>,
    pub lv: Option<i64>,
}

#[derive(Clone, Debug)]
pub struct CharItemInfoAdditionElemBoost {
    pub elem_vol: Option<String>,
}

#[derive(Clone, Debug)]
pub struct CharItemInfoAdditionElemboost {
    pub con: Option<CharItemInfoAdditionElemboostCon>,
    pub elem_vol: Option<String>,
}

#[derive(Clone, Copy, Debug)]
pub struct CharItemInfoAdditionElemboostCon {
    pub craft: Option<i64>,
}

#[derive(Clone, Copy, Debug)]
pub struct CharItemInfoAdditionHpmpchange {
    pub hp_change_per_time: Option<i64>,
    pub hp_changer_per_time: Option<i64>,
    pub mp_changer_per_time: Option<i64>,
}

#[derive(Clone, Copy, Debug)]
pub struct CharItemInfoAdditionMobcategory {
    pub category: Option<i64>,
    pub damage: Option<i64>,
}

#[derive(Clone, Debug)]
pub struct CharItemInfoAdditionMobdie {
    pub con: Option<CharItemInfoAdditionMobdieCon>,
    pub hp_inc_on_mob_die: Option<i64>,
    pub hp_inc_ratio_on_mob_die: Option<i64>,
    pub hp_ratio_prop: Option<i64>,
    pub mp_inc_on_mob_die: Option<i64>,
    pub mp_inc_ratio_on_mob_die: Option<i64>,
    pub mp_ratio_prop: Option<i64>,
}

#[derive(Clone, Copy, Debug)]
pub struct CharItemInfoAdditionMobdieCon {
    pub craft: Option<i64>,
    pub lv: Option<i64>,
}

#[derive(Clone, Debug)]
pub struct CharItemInfoAdditionSkill {
    pub con: Option<CharItemInfoAdditionSkillCon>,
    pub id: Option<i64>,
    pub level: Option<i64>,
}

#[derive(Clone, Copy, Debug)]
pub struct CharItemInfoAdditionSkillCon {
    pub craft: Option<i64>,
    pub lv: Option<i64>,
}

#[derive(Clone, Copy, Debug)]
pub struct CharItemInfoBonusExpValue {
    pub inc_exp_r: Option<i64>,
    pub term_start: Option<i64>,
}

#[derive(Clone, Debug)]
pub struct CharItemInfoEffect {
    pub animate: Option<Bool>,
    pub bottom: Option<StrOrInt>,
    pub delay: Option<StrOrInt>,
    pub dx: Option<StrOrInt>,
    pub dy: Option<StrOrInt>,
    pub emission: Option<StrOrInt>,
    pub fixed: Option<Bool>,
    pub follow: Option<Bool>,
    pub gen_on_move: Option<Bool>,
    pub gen_point: std::collections::HashMap<String, Vec2>,
    pub interval: Option<StrOrInt>,
    pub left: Option<StrOrInt>,
    pub path: Option<String>,
    pub pos: Option<Bool>,
    pub right: Option<StrOrInt>,
    pub theta: Option<StrOrInt>,
    pub top: Option<StrOrInt>,
    pub z: Option<StrOrInt>,
}

#[derive(Clone, Debug)]
pub struct CharItemInfoEpic {
    pub hs: Option<String>,
    pub item_skill: std::collections::HashMap<String, CharItemInfoEpicItemSkillValue>,
    pub skill: std::collections::HashMap<String, CharItemInfoEpicSkillValue>,
}

#[derive(Clone, Copy, Debug)]
pub struct CharItemInfoEpicItemSkillValue {
    pub id: Option<i64>,
    pub level: Option<i64>,
}

#[derive(Clone, Copy, Debug)]
pub struct CharItemInfoEpicSkillValue {
    pub id: Option<i64>,
    pub level: Option<i64>,
}

#[derive(Clone, Copy, Debug)]
pub struct CharItemInfoLevelInfoValue {
    pub exp: Option<i64>,
    pub inc_acc_max: Option<i64>,
    pub inc_acc_min: Option<i64>,
    pub inc_dex_max: Option<i64>,
    pub inc_dex_min: Option<i64>,
    pub inc_eva_max: Option<i64>,
    pub inc_eva_min: Option<i64>,
    pub inc_int_max: Option<i64>,
    pub inc_int_min: Option<i64>,
    pub inc_jump_max: Option<i64>,
    pub inc_jump_min: Option<i64>,
    pub inc_luk_max: Option<i64>,
    pub inc_luk_min: Option<i64>,
    pub inc_mad_max: Option<i64>,
    pub inc_mad_min: Option<i64>,
    pub inc_mdd_max: Option<i64>,
    pub inc_mdd_min: Option<i64>,
    pub inc_mhp_max: Option<i64>,
    pub inc_mhp_min: Option<i64>,
    pub inc_mmp_max: Option<i64>,
    pub inc_mmp_min: Option<i64>,
    pub inc_pad_max: Option<i64>,
    pub inc_pad_min: Option<i64>,
    pub inc_pdd_max: Option<i64>,
    pub inc_pdd_min: Option<i64>,
    pub inc_speed_max: Option<i64>,
    pub inc_speed_min: Option<i64>,
    pub inc_str_max: Option<i64>,
    pub inc_str_min: Option<i64>,
}

#[derive(Clone, Copy, Debug)]
pub struct CharItemInfoPotionDiscountValue {
    pub potion_disc_r: Option<i64>,
    pub term_start: Option<i64>,
}

#[derive(Clone, Debug)]
pub struct CharItemInfoReplace {
    pub itemid: Option<i64>,
    pub msg: Option<String>,
}

#[derive(Clone, Debug)]
pub struct CharItemInfoTransform {
    pub type_: Option<i64>,
    pub extra: std::collections::HashMap<String, CharItemInfoTransformExtraValue>,
}

#[derive(Clone, Copy, Debug)]
pub struct CharItemInfoTransformExtraValue {
    pub item_id: Option<i64>,
    pub req_dex: Option<i64>,
    pub req_int: Option<i64>,
    pub req_luk: Option<i64>,
    pub req_str: Option<i64>,
}

#[derive(Clone, Debug)]
pub struct Fh {
    pub cant_go: Option<Bool>,
    pub cant_through: Option<Bool>,
    pub forbid_fall_down: Option<Bool>,
    pub force: Option<i64>,
    pub next: i64,
    pub piece: Option<i64>,
    pub prev: i64,
    pub x1: i64,
    pub x2: i64,
    pub y1: i64,
    pub y2: i64,
}

#[derive(Clone, Copy, Debug)]
pub struct FieldAreaValue {
    pub x1: Option<i64>,
    pub x2: Option<i64>,
    pub y1: Option<i64>,
    pub y2: Option<i64>,
}

#[derive(Clone, Debug)]
pub struct FieldBattleField {
    pub effect_lose: Option<String>,
    pub effect_win: Option<String>,
    pub reward_map_lose_sheep: Option<i64>,
    pub reward_map_lose_wolf: Option<i64>,
    pub reward_map_win_sheep: Option<i64>,
    pub reward_map_win_wolf: Option<i64>,
    pub time_default: Option<i64>,
    pub time_finish: Option<i64>,
}

#[derive(Clone, Debug)]
pub struct FieldBuffZoneValue {
    pub duration: Option<i64>,
    pub interval: Option<i64>,
    pub item_id: Option<i64>,
    pub msg: Option<String>,
    pub x1: Option<i64>,
    pub x2: Option<i64>,
    pub y1: Option<i64>,
    pub y2: Option<i64>,
}

#[derive(Clone, Copy, Debug)]
pub struct FieldClock {
    pub height: Option<i64>,
    pub width: Option<i64>,
    pub x: Option<i64>,
    pub y: Option<i64>,
}

#[derive(Clone, Debug)]
pub struct FieldHealer {
    pub fall: Option<i64>,
    pub heal_max: Option<i64>,
    pub heal_min: Option<i64>,
    pub healer: Option<String>,
    pub rise: Option<i64>,
    pub x: Option<i64>,
    pub y_max: Option<i64>,
    pub y_min: Option<i64>,
}

#[derive(Clone, Copy, Debug)]
pub struct FieldInfoAutoLieDetector {
    pub end_hour: Option<i64>,
    pub interval: Option<i64>,
    pub prop: Option<i64>,
    pub start_hour: Option<i64>,
}

#[derive(Clone, Debug)]
pub struct FieldInfoEscort {
    pub check_distance: Option<Bool>,
    pub fail_message_on_die: Option<String>,
    pub fail_message_on_distance: Option<String>,
    pub mob_id: Option<i64>,
    pub time_out_limit: Option<i64>,
    pub time_out_warning_term: Option<i64>,
    pub warning_distance: Option<i64>,
    pub warning_message: Option<String>,
    pub weather_item_id: Option<i64>,
}

#[derive(Clone, Debug)]
pub struct FieldInfoTimeMob {
    pub end_hour: Option<i64>,
    pub id: Option<StrOrNum>,
    pub message: Option<String>,
    pub start_hour: Option<i64>,
}

#[derive(Clone, Debug)]
pub struct FieldLadderRopeValue {
    pub l: Option<Bool>,
    pub page: Option<i64>,
    pub piece: Option<i64>,
    pub uf: Option<Bool>,
    pub x: Option<i64>,
    pub y1: Option<i64>,
    pub y2: Option<i64>,
}

#[derive(Clone, Debug)]
pub struct FieldLifeValue {
    pub cy: Option<i64>,
    pub f: Option<i64>,
    pub fh: Option<i64>,
    pub hide: Option<Bool>,
    pub hold: Option<Bool>,
    pub id: Option<StrOrNum>,
    pub limitedname: Option<String>,
    pub mob_time: Option<i64>,
    pub nofoothold: Option<Bool>,
    pub rx0: Option<i64>,
    pub rx1: Option<i64>,
    pub team: Option<i64>,
    pub type_: Option<FieldLifeValueType>,
    pub use_day: Option<Bool>,
    pub use_night: Option<Bool>,
    pub x: Option<i64>,
    pub y: Option<i64>,
}

#[derive(Clone, Debug)]
pub struct FieldMobMassacre {
    pub count_effect: std::collections::HashMap<String, FieldMobMassacreCountEffectValue>,
    pub disable_skill: Option<Bool>,
    pub gauge: Option<FieldMobMassacreGauge>,
    pub map_distance: Option<i64>,
}

#[derive(Clone, Debug)]
pub struct FieldMobMassacreCountEffectValue {
    pub buff: Option<i64>,
    pub skill_use: Option<Bool>,
}

#[derive(Clone, Copy, Debug)]
pub struct FieldMobMassacreGauge {
    pub cool_add: Option<i64>,
    pub decrease: Option<i64>,
    pub hit_add: Option<i64>,
    pub miss_sub: Option<i64>,
    pub total: Option<i64>,
}

#[derive(Clone, Copy, Debug)]
pub struct FieldMonsterCarnivalGuardianGenPosValue {
    pub f: Option<i64>,
    pub team: Option<i64>,
    pub x: Option<i64>,
    pub y: Option<i64>,
}

#[derive(Clone, Copy, Debug)]
pub struct FieldMonsterCarnivalMobGenPosValue {
    pub cy: Option<i64>,
    pub fh: Option<i64>,
    pub team: Option<i64>,
    pub x: Option<i64>,
    pub y: Option<i64>,
}

#[derive(Clone, Debug)]
pub struct FieldMonsterCarnivalMobValue {
    pub id: Option<StrOrNum>,
    pub mob_time: Option<i64>,
    pub spend_cp: Option<i64>,
}

#[derive(Clone, Debug)]
pub struct FieldNoSkill {
    pub class: std::collections::HashMap<String, i64>,
    pub skill: std::collections::HashMap<String, i64>,
}

#[derive(Clone, Debug)]
pub enum FieldParticleValueValue {
    Variant0(Particle),
    Variant1(i64),
}

#[derive(Clone, Debug)]
pub struct FieldPulley {
    pub pulley: Option<String>,
    pub x: Option<i64>,
    pub y: Option<i64>,
}

#[derive(Clone, Debug)]
pub struct FieldReactorValue {
    pub f: Option<i64>,
    pub id: Option<StrOrNum>,
    pub name: Option<String>,
    pub reactor_time: Option<i64>,
    pub x: Option<i64>,
    pub y: Option<i64>,
}

#[derive(Clone, Debug)]
pub struct FieldSeatValue {
    pub type_: Option<String>,
    pub x: Option<i64>,
    pub y: Option<i64>,
}

#[derive(Clone, Debug)]
pub struct FieldShipObj {
    pub f: Option<i64>,
    pub ship_kind: Option<i64>,
    pub ship_obj: Option<String>,
    pub t_move: Option<i64>,
    pub x: Option<i64>,
    pub x0: Option<i64>,
    pub y: Option<i64>,
    pub z: Option<i64>,
}

#[derive(Clone, Debug)]
pub struct FieldSnowMan {
    pub path: Option<String>,
}

#[derive(Clone, Copy, Debug)]
pub struct FieldSwimAreaValue {
    pub x1: Option<i64>,
    pub x2: Option<i64>,
    pub y1: Option<i64>,
    pub y2: Option<i64>,
}

#[derive(Clone, Copy, Debug)]
pub struct FieldToolTipValue {
    pub x1: Option<i64>,
    pub x2: Option<i64>,
    pub y1: Option<i64>,
    pub y2: Option<i64>,
}

#[derive(Clone, Debug)]
pub struct FieldUserValue {
    pub cond: Option<FieldUserValueCond>,
    pub look: Option<FieldUserValueLook>,
    pub noitem: std::collections::HashMap<String, i64>,
    pub stat: Option<FieldUserValueStat>,
}

#[derive(Clone, Debug)]
pub struct FieldUserValueCond {
    pub battle_field_team: Option<StrOrNum>,
    pub compare: Option<Bool>,
    pub gender: Option<StrOrNum>,
    pub item_count: Option<StrOrNum>,
    pub item_id: Option<StrOrNum>,
    pub job: Option<StrOrNum>,
    pub job_category: Option<StrOrNum>,
    pub level: Option<StrOrNum>,
    pub target: Option<StrOrNum>,
}

#[derive(Clone, Debug)]
pub struct FieldUserValueLook {
    pub cap: Option<StrOrNum>,
    pub cape: Option<StrOrNum>,
    pub clothes: Option<StrOrNum>,
    pub ear_acc: Option<StrOrNum>,
    pub face_acc: Option<StrOrNum>,
    pub gloves: Option<StrOrNum>,
    pub pants: Option<StrOrNum>,
    pub shield: Option<StrOrNum>,
    pub shoes: Option<StrOrNum>,
    pub weapon: Option<StrOrNum>,
}

#[derive(Clone, Debug)]
pub struct FieldUserValueStat {
    pub acc: Option<StrOrNum>,
    pub dex: Option<StrOrNum>,
    pub eva: Option<StrOrNum>,
    pub int: Option<StrOrNum>,
    pub jump: Option<StrOrNum>,
    pub luk: Option<StrOrNum>,
    pub mad: Option<StrOrNum>,
    pub pad: Option<StrOrNum>,
    pub speed: Option<StrOrNum>,
    pub speedmax: Option<StrOrNum>,
    pub str: Option<StrOrNum>,
}

#[derive(Clone, Debug)]
pub struct FieldWeatherValue {
    pub item: Option<StrOrNum>,
    pub msg: Option<String>,
    pub option: Option<Bool>,
    pub time: Option<i64>,
}

#[derive(Clone, Copy, Debug)]
pub struct IdCount {
    pub count: Option<i64>,
    pub id: Option<i64>,
}

#[derive(Clone, Debug)]
pub struct IdCountProp {
    pub count: Option<i64>,
    pub date_expire: Option<String>,
    pub gender: Option<i64>,
    pub id: Option<i64>,
    pub job: Option<i64>,
    pub job_ex: Option<i64>,
    pub name: Option<Bool>,
    pub period: Option<i64>,
    pub prop: Option<i64>,
    pub resign_remove: Option<Bool>,
    pub var: Option<i64>,
}

#[derive(Clone, Debug)]
pub struct ItemOption {
    pub attack_type: Option<i64>,
    pub boss: Option<Bool>,
    pub da_mreflect: Option<i64>,
    pub face: Option<String>,
    pub hp: Option<i64>,
    pub ignore_da_mr: Option<i64>,
    pub ignore_dam: Option<i64>,
    pub ignore_target_def: Option<i64>,
    pub inc_ac_cr: Option<i64>,
    pub inc_acc: Option<i64>,
    pub inc_allskill: Option<i64>,
    pub inc_cr: Option<i64>,
    pub inc_da_mr: Option<i64>,
    pub inc_de_xr: Option<i64>,
    pub inc_dex: Option<i64>,
    pub inc_ev_ar: Option<i64>,
    pub inc_eva: Option<i64>,
    pub inc_in_tr: Option<i64>,
    pub inc_int: Option<i64>,
    pub inc_jump: Option<i64>,
    pub inc_lu_kr: Option<i64>,
    pub inc_luk: Option<i64>,
    pub inc_ma_dr: Option<i64>,
    pub inc_mad: Option<i64>,
    pub inc_md_dr: Option<i64>,
    pub inc_mdd: Option<i64>,
    pub inc_meso_prop: Option<i64>,
    pub inc_mh_pr: Option<i64>,
    pub inc_mhp: Option<i64>,
    pub inc_mm_pr: Option<i64>,
    pub inc_mmp: Option<i64>,
    pub inc_pa_dr: Option<i64>,
    pub inc_pad: Option<i64>,
    pub inc_pd_dr: Option<i64>,
    pub inc_pdd: Option<i64>,
    pub inc_reward_prop: Option<i64>,
    pub inc_speed: Option<i64>,
    pub inc_st_rr: Option<i64>,
    pub inc_str: Option<i64>,
    pub level: Option<i64>,
    pub mp: Option<i64>,
    pub mp_restore: Option<i64>,
    pub mpcon_reduce: Option<i64>,
    pub prop: Option<StrOrInt>,
    pub recovery_hp: Option<i64>,
    pub recovery_mp: Option<i64>,
    pub recovery_up: Option<i64>,
    pub time: Option<i64>,
}

#[derive(Clone, Debug)]
pub struct ItemOptions(pub std::collections::HashMap<String, ItemOptionsValue>);

#[derive(Clone, Debug)]
pub struct ItemOptionsValue {
    pub info: Option<ItemOptionsValueInfo>,
    pub level: std::collections::HashMap<String, ItemOption>,
}

#[derive(Clone, Copy, Debug)]
pub struct ItemOptionsValueInfo {
    pub option_type: Option<i64>,
    pub req_level: Option<i64>,
}

#[derive(Clone, Debug)]
pub enum ItemValueBookValueValue {
    Variant0(String),
    Variant1 {
        align: Option<StrOrNum>,
        text: Option<String>,
    },
}

#[derive(Clone, Debug)]
pub struct ItemValueInfoConsumeItem {
    pub consume_count: Option<i64>,
    pub consume_count_message: Option<String>,
    pub extra: std::collections::HashMap<String, ItemValueInfoConsumeItemExtraValue>,
}

#[derive(Clone, Copy, Debug)]
pub enum ItemValueInfoConsumeItemExtraValue {
    Variant0 {
        _0: Option<i64>,
        _1: Option<i64>,
    },
    Variant1(i64),
}

#[derive(Clone, Debug)]
pub struct ItemValueInfoReplace {
    pub itemid: Option<i64>,
    pub msg: Option<String>,
    pub period: Option<i64>,
}

#[derive(Clone, Debug)]
pub enum ItemValueInfoTime {
    Variant0(std::collections::HashMap<String, String>),
    Variant1(i64),
}

#[derive(Clone, Debug)]
pub struct ItemValueMobValue {
    pub id: Option<StrOrInt>,
    pub prob: Option<i64>,
}

#[derive(Clone, Debug)]
pub struct ItemValueRewardValue {
    pub count: Option<StrOrInt>,
    pub effect: Option<String>,
    pub item: Option<StrOrInt>,
    pub period: Option<StrOrInt>,
    pub prob: Option<StrOrNum>,
    pub world_msg: Option<String>,
}

#[derive(Clone, Debug)]
pub struct ItemValueSpecConValue {
    pub e_map: Option<i64>,
    pub in_party: Option<Bool>,
    pub s_map: Option<i64>,
    pub type_: Option<i64>,
}

#[derive(Clone, Debug)]
pub struct ItemValueSpecEx {
    pub _0: Option<ItemValueSpecEx0>,
    pub consume_on_pickup: Option<Bool>,
}

#[derive(Clone, Copy, Debug)]
pub struct ItemValueSpecEx0 {
    pub level: Option<i64>,
    pub mob_skill: Option<i64>,
    pub target: Option<i64>,
}

#[derive(Clone, Debug)]
pub struct MobInfoBan {
    pub ban_map: std::collections::HashMap<String, MobInfoBanBanMapValue>,
    pub ban_msg: Option<String>,
    pub ban_msg_type: Option<i64>,
    pub ban_type: Option<i64>,
}

#[derive(Clone, Debug)]
pub struct MobInfoBanBanMapValue {
    pub field: Option<i64>,
    pub portal: Option<String>,
}

#[derive(Clone, Copy, Debug)]
pub struct MobInfoCopyCharacter {
    pub hp_ratio: Option<i64>,
    pub mp_ratio: Option<i64>,
}

#[derive(Clone, Copy, Debug)]
pub struct MobInfoCreateInvincible {
    pub level: Option<i64>,
    pub skill_id: Option<i64>,
}

#[derive(Clone, Copy, Debug)]
pub struct MobInfoHealOnDestroy {
    pub amount: Option<i64>,
    pub type_: Option<i64>,
}

#[derive(Clone, Debug)]
pub struct MobInfoLoseItemValue {
    pub id: Option<i64>,
    pub lose_msg: Option<String>,
    pub lose_msg_type: Option<i64>,
    pub not_drop: Option<Bool>,
    pub prop: Option<i64>,
    pub x: Option<i64>,
}

#[derive(Clone, Copy, Debug)]
pub struct MobInfoMovePerHit {
    pub count: Option<i64>,
    pub distance: Option<i64>,
    pub speed_r: Option<i64>,
    pub way: Option<i64>,
}

#[derive(Clone, Debug)]
pub struct MobInfoSelfDestruction {
    pub action: Option<i64>,
    pub attack_index: Option<i64>,
    pub attackable_no_mob: Option<Bool>,
    pub hp: Option<i64>,
    pub remove_after: Option<i64>,
    pub server_type: Option<i64>,
}

#[derive(Clone, Debug)]
pub struct MobInfoSpeak {
    pub chat_balloon: Option<Bool>,
    pub chata_balloon: Option<Bool>,
    pub con: std::collections::HashMap<String, MobInfoSpeakConValue>,
    pub extra: std::collections::HashMap<String, MobInfoSpeakExtraValue>,
}

#[derive(Clone, Debug)]
pub struct MobInfoSpeakConValue {
    pub pet: Option<i64>,
    pub quest: Option<MobInfoSpeakConValueQuest>,
}

#[derive(Clone, Copy, Debug)]
pub struct MobInfoSpeakConValueQuest {
    pub quest_id: Option<i64>,
    pub state: Option<i64>,
}

#[derive(Clone, Debug)]
pub enum MobInfoSpeakExtraValue {
    ObjMsg {
        _0: Option<String>,
        _1: Option<String>,
        hp: Option<StrOrNum>,
        prob: Option<i64>,
    },
    Message(String),
}

#[derive(Clone, Copy, Debug)]
pub struct Particle {
    pub rx: Option<i64>,
    pub ry: Option<i64>,
    pub x: i64,
    pub y: i64,
    pub z: Option<i64>,
}

#[derive(Clone, Debug)]
pub struct PetItemRandActionValue {
    pub act: Option<String>,
    pub l0: Option<i64>,
    pub l1: Option<i64>,
}

#[derive(Clone, Debug)]
pub struct PetItemSlangValue {
    pub _0: Option<String>,
    pub act: Option<String>,
    pub l0: Option<i64>,
    pub l1: Option<i64>,
}

#[derive(Clone, Debug)]
pub struct QuestActValueValueSpValue {
    pub job: std::collections::HashMap<String, i64>,
    pub sp_value: Option<i64>,
}

#[derive(Clone, Copy, Debug)]
pub struct QuestCheckValueValueItemValue {
    pub count: Option<i64>,
    pub id: Option<i64>,
}

#[derive(Clone, Copy, Debug)]
pub struct QuestCheckValueValueMbcardValue {
    pub id: Option<i64>,
    pub min: Option<i64>,
}

#[derive(Clone, Copy, Debug)]
pub struct QuestCheckValueValuePetValue {
    pub id: Option<i64>,
}

#[derive(Clone, Copy, Debug)]
pub struct QuestCheckValueValueQuestValue {
    pub id: Option<i64>,
    pub state: Option<i64>,
}

#[derive(Clone, Debug)]
pub struct QuestInfo(pub std::collections::HashMap<String, QuestInfoValue>);

#[derive(Clone, Debug)]
pub struct QuestInfoValue {
    pub _0: Option<String>,
    pub _1: Option<String>,
    pub _2: Option<String>,
    pub area: Option<i64>,
    pub auto_accept: Option<Bool>,
    pub auto_cancel: Option<Bool>,
    pub auto_complete: Option<Bool>,
    pub auto_pre_complete: Option<Bool>,
    pub auto_start: Option<Bool>,
    pub blocked: Option<Bool>,
    pub daily_play_time: Option<i64>,
    pub demand_summary: Option<String>,
    pub medal_category: Option<i64>,
    pub name: Option<String>,
    pub one_shot: Option<Bool>,
    pub order: Option<i64>,
    pub parent: Option<String>,
    pub resigned_together_quest: std::collections::HashMap<String, i64>,
    pub reward_summary: Option<String>,
    pub selected_mob: Option<Bool>,
    pub selected_skill_id: Option<i64>,
    pub show_effect: Option<String>,
    pub show_layer_tag: Option<String>,
    pub sortkey: Option<String>,
    pub summary: Option<String>,
    pub time_limit: Option<i64>,
    pub time_limit2: Option<i64>,
    pub timer_ui: Option<String>,
    pub type_: Option<String>,
    pub view_medal_item: Option<i64>,
}

#[derive(Clone, Debug)]
pub struct QuestSkill {
    pub acquire: Option<Bool>,
    pub id: Option<i64>,
    pub job: std::collections::HashMap<String, i64>,
    pub master_level: Option<i64>,
    pub only_master_level: Option<Bool>,
    pub skill_level: Option<i64>,
}

#[derive(Clone, Debug)]
pub struct SkillCommonInfo {
    pub acc: Option<SkillExpr>,
    pub action: Option<String>,
    pub asr_r: Option<SkillExpr>,
    pub attack_count: Option<SkillExpr>,
    pub bullet_consume: Option<StrOrNum>,
    pub bullet_count: Option<StrOrNum>,
    pub cooltime: Option<SkillExpr>,
    pub cr: Option<SkillExpr>,
    pub criticaldamage_max: Option<SkillExpr>,
    pub criticaldamage_min: Option<SkillExpr>,
    pub dam_r: Option<SkillExpr>,
    pub damage: Option<SkillExpr>,
    pub dot: Option<SkillExpr>,
    pub dot_interval: Option<SkillExpr>,
    pub dot_time: Option<SkillExpr>,
    pub emdd: Option<SkillExpr>,
    pub emhp: Option<SkillExpr>,
    pub emmp: Option<SkillExpr>,
    pub epad: Option<SkillExpr>,
    pub epdd: Option<SkillExpr>,
    pub er: Option<SkillExpr>,
    pub eva: Option<SkillExpr>,
    pub exp_r: Option<SkillExpr>,
    pub hp: Option<SkillExpr>,
    pub hp_con: Option<SkillExpr>,
    pub ignore_mobpdp_r: Option<SkillExpr>,
    pub item_con: Option<StrOrNum>,
    pub item_con_no: Option<StrOrNum>,
    pub item_consume: Option<StrOrNum>,
    pub jump: Option<SkillExpr>,
    pub lt: Option<Vec2>,
    pub mad: Option<SkillExpr>,
    pub mad_x: Option<SkillExpr>,
    pub mastery: Option<SkillExpr>,
    pub max_level: Option<StrOrNum>,
    pub mdd: Option<SkillExpr>,
    pub mdd_r: Option<SkillExpr>,
    pub meso_r: Option<SkillExpr>,
    pub mhp_r: Option<SkillExpr>,
    pub mmp_r: Option<SkillExpr>,
    pub mob_count: Option<SkillExpr>,
    pub money_con: Option<SkillExpr>,
    pub morph: Option<StrOrNum>,
    pub mp: Option<SkillExpr>,
    pub mp_con: Option<SkillExpr>,
    pub pad: Option<SkillExpr>,
    pub pad_x: Option<SkillExpr>,
    pub pdd: Option<SkillExpr>,
    pub pdd_r: Option<SkillExpr>,
    pub prop: Option<SkillExpr>,
    pub range: Option<SkillExpr>,
    pub rb: Option<Vec2>,
    pub self_destruction: Option<SkillExpr>,
    pub speed: Option<SkillExpr>,
    pub sub_prop: Option<SkillExpr>,
    pub sub_time: Option<SkillExpr>,
    pub t: Option<SkillExpr>,
    pub ter_r: Option<SkillExpr>,
    pub time: Option<SkillExpr>,
    pub u: Option<SkillExpr>,
    pub v: Option<SkillExpr>,
    pub w: Option<SkillExpr>,
    pub x: Option<SkillExpr>,
    pub y: Option<SkillExpr>,
    pub z: Option<SkillExpr>,
}

#[derive(Clone, Debug)]
pub enum SkillSkillValueAction {
    Variant0(String),
    Variant1(std::collections::HashMap<String, String>),
}

#[derive(Clone, Copy, Debug)]
pub struct SkillSkillValueSpecialActionFrame {
    pub delay: Option<i64>,
}

#[derive(Clone, Debug)]
pub struct SkillSkillValueSummonDie {
    pub info: Option<SkillSkillValueSummonDieInfo>,
}

#[derive(Clone, Debug)]
pub struct SkillSkillValueSummonDieInfo {
    pub attack_after: Option<i64>,
    pub mob_count: Option<i64>,
    pub range: Option<SummonRange>,
}

#[derive(Clone, Debug)]
pub struct SummonRange {
    pub lt: Option<Vec2>,
    pub r: Option<i64>,
    pub rb: Option<Vec2>,
    pub sp: Option<Vec2>,
}

#[derive(Clone, Copy, Debug)]
pub struct Vec2 {
        pub x: i64,
        pub y: i64,
}

impl From<Particle> for FieldParticleValueValue {
    fn from(value: Particle) -> (r: FieldParticleValueValue) {
        FieldParticleValueValue::Variant0(value)
    }
}

impl FromSpecImpl<Particle> for FieldParticleValueValue {
    open spec fn obeys_from_spec() -> bool {
        true
    }

    open spec fn from_spec(value: Particle) -> FieldParticleValueValue {
        FieldParticleValueValue::Variant0(value)
    }
}

impl From<i64> for FieldParticleValueValue {
    fn from(value: i64) -> (r: FieldParticleValueValue) {
        FieldParticleValueValue::Variant1(value)
    }
}

impl FromSpecImpl<i64> for FieldParticleValueValue {
    open spec fn obeys_from_spec() -> bool {
        true
    }

    open spec fn from_spec(value: i64) -> FieldParticleValueValue {
        FieldParticleValueValue::Variant1(value)
    }
}

impl From<ItemOptions> for std::collections::HashMap<String, ItemOptionsValue> {
    fn from(value: ItemOptions) -> (r: std::collections::HashMap<String, ItemOptionsValue>) {
        value.0
    }
}

impl FromSpecImpl<ItemOptions> for std::collections::HashMap<String, ItemOptionsValue> {
    open spec fn obeys_from_spec() -> bool {
        true
    }

    open spec fn from_spec(value: ItemOptions) -> std::collections::HashMap<String, ItemOptionsValue> {
        value.0
    }
}

impl From<std::collections::HashMap<String, ItemOptionsValue>> for ItemOptions {
    fn from(value: std::collections::HashMap<String, ItemOptionsValue>) -> (r: ItemOptions) {
        ItemOptions(value)
    }
}

impl FromSpecImpl<std::collections::HashMap<String, ItemOptionsValue>> for ItemOptions {
    open spec fn obeys_from_spec() -> bool {
        true
    }

    open spec fn from_spec(value: std::collections::HashMap<String, ItemOptionsValue>) -> ItemOptions {
        ItemOptions(value)
    }
}

impl From<i64> for ItemValueInfoConsumeItemExtraValue {
    fn from(value: i64) -> (r: ItemValueInfoConsumeItemExtraValue) {
        ItemValueInfoConsumeItemExtraValue::Variant1(value)
    }
}

impl FromSpecImpl<i64> for ItemValueInfoConsumeItemExtraValue {
    open spec fn obeys_from_spec() -> bool {
        true
    }

    open spec fn from_spec(value: i64) -> ItemValueInfoConsumeItemExtraValue {
        ItemValueInfoConsumeItemExtraValue::Variant1(value)
    }
}

impl From<std::collections::HashMap<String, String>> for ItemValueInfoTime {
    fn from(value: std::collections::HashMap<String, String>) -> (r: ItemValueInfoTime) {
        ItemValueInfoTime::Variant0(value)
    }
}

impl FromSpecImpl<std::collections::HashMap<String, String>> for ItemValueInfoTime {
    open spec fn obeys_from_spec() -> bool {
        true
    }

    open spec fn from_spec(value: std::collections::HashMap<String, String>) -> ItemValueInfoTime {
        ItemValueInfoTime::Variant0(value)
    }
}

impl From<i64> for ItemValueInfoTime {
    fn from(value: i64) -> (r: ItemValueInfoTime) {
        ItemValueInfoTime::Variant1(value)
    }
}

impl FromSpecImpl<i64> for ItemValueInfoTime {
    open spec fn obeys_from_spec() -> bool {
        true
    }

    open spec fn from_spec(value: i64) -> ItemValueInfoTime {
        ItemValueInfoTime::Variant1(value)
    }
}

impl From<QuestInfo> for std::collections::HashMap<String, QuestInfoValue> {
    fn from(value: QuestInfo) -> (r: std::collections::HashMap<String, QuestInfoValue>) {
        value.0
    }
}

impl FromSpecImpl<QuestInfo> for std::collections::HashMap<String, QuestInfoValue> {
    open spec fn obeys_from_spec() -> bool {
        true
    }

    open spec fn from_spec(value: QuestInfo) -> std::collections::HashMap<String, QuestInfoValue> {
        value.0
    }
}

impl From<std::collections::HashMap<String, QuestInfoValue>> for QuestInfo {
    fn from(value: std::collections::HashMap<String, QuestInfoValue>) -> (r: QuestInfo) {
        QuestInfo(value)
    }
}

impl FromSpecImpl<std::collections::HashMap<String, QuestInfoValue>> for QuestInfo {
    open spec fn obeys_from_spec() -> bool {
        true
    }

    open spec fn from_spec(value: std::collections::HashMap<String, QuestInfoValue>) -> QuestInfo {
        QuestInfo(value)
    }
}

impl From<std::collections::HashMap<String, String>> for SkillSkillValueAction {
    fn from(value: std::collections::HashMap<String, String>) -> (r: SkillSkillValueAction) {
        SkillSkillValueAction::Variant1(value)
    }
}

impl FromSpecImpl<std::collections::HashMap<String, String>> for SkillSkillValueAction {
    open spec fn obeys_from_spec() -> bool {
        true
    }

    open spec fn from_spec(value: std::collections::HashMap<String, String>) -> SkillSkillValueAction {
        SkillSkillValueAction::Variant1(value)
    }
}

} // verus!
