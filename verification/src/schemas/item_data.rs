//! The info of items, the flags and requirements of equipment, and
//! consumable, state change and mastery book items, read from the item data.
use vstd::prelude::*;

use std::collections::HashMap;
use std::time::Duration;

use crate::schemas::mapping::{
    bool_value,
    duration_from_millis, duration_from_secs, duration_of_millis, duration_of_secs, IntoBool,
    IntoNum,
};
use crate::schemas::quest_req::{map_walk_values, walk_of};
use crate::schemas::scalar::{Bool, StrOrInt};

verus! {

/// The fields of an item entry that consumable and state change items read.
#[derive(Clone, Debug)]
pub struct ItemRecord {
    pub spec: Option<ItemSpecRecord>,
}

/// The abnormal states an item cures.
#[derive(Clone, Copy, Debug, PartialEq, Eq, Structural)]
pub struct CureSet {
    pub seal: bool,
    pub curse: bool,
    pub poison: bool,
    pub weakness: bool,
    pub darkness: bool,
}

/// Whether an item entry can be read: it has its spec entry, and the
/// numbers written as text read as numbers.
pub open spec fn item_spec_readable(v: ItemRecord) -> bool {
    &&& v.spec is Some
    &&& v.spec.unwrap().hp_r.num_value() is Some
    &&& v.spec.unwrap().mp_r.num_value() is Some
    &&& v.spec.unwrap().acc.num_value() is Some
}

/// The states a spec entry cures: those whose flag is set.
pub open spec fn cure_of(s: ItemSpecRecord) -> CureSet {
    CureSet {
        seal: s.seal.bool_of(),
        curse: s.curse.bool_of(),
        poison: s.poison.bool_of(),
        weakness: s.weakness.bool_of(),
        darkness: s.darkness.bool_of(),
    }
}

/// The states a spec entry cures.
fn cure_set(s: &ItemSpecRecord) -> (r: CureSet)
    ensures
        r == cure_of(*s),
{
    CureSet {
        seal: s.seal.into_bool(),
        curse: s.curse.into_bool(),
        poison: s.poison.into_bool(),
        weakness: s.weakness.into_bool(),
        darkness: s.darkness.into_bool(),
    }
}

/// The experience a spec entry gives: its `expinc`, else its `exp`, else
/// zero.
pub open spec fn exp_gain(s: ItemSpecRecord) -> i64 {
    match s.expinc {
        Some(v) => v,
        None => match s.exp {
            Some(v) => v,
            None => 0,
        },
    }
}

/// The experience a spec entry gives.
fn exp_gain_exec(s: &ItemSpecRecord) -> (r: i64)
    ensures
        r == exp_gain(*s),
{
    match s.expinc {
        Some(v) => v,
        None => s.exp.into_num(),
    }
}

/// A copy of a script name.
fn copy_script(t: &Option<String>) -> (r: Option<String>)
    ensures
        r == *t,
{
    match t {
        Some(s) => Some(s.clone()),
        None => None,
    }
}

/// The fields of an item's spec entry that consumable and state change
/// items read.
#[derive(Clone, Debug)]
pub struct ItemSpecRecord {
    pub hp: Option<i64>,
    pub mp: Option<i64>,
    pub hp_r: Option<StrOrInt>,
    pub mp_r: Option<StrOrInt>,
    pub mhp_r: Option<i64>,
    pub mmp_r: Option<i64>,
    pub expinc: Option<i64>,
    pub exp: Option<i64>,
    pub acc: Option<StrOrInt>,
    pub acc_rate: Option<i64>,
    pub eva: Option<i64>,
    pub eva_rate: Option<i64>,
    pub speed: Option<i64>,
    pub jump: Option<i64>,
    pub speed_rate: Option<i64>,
    pub move_to: Option<i64>,
    pub ignore_continent: Option<Bool>,
    pub cp: Option<i64>,
    pub buff_skill: Option<i64>,
    pub seal: Option<Bool>,
    pub curse: Option<Bool>,
    pub poison: Option<Bool>,
    pub weakness: Option<Bool>,
    pub darkness: Option<Bool>,
    pub attack_index: Option<i64>,
    pub barrier: Option<Bool>,
    pub berserk: Option<i64>,
    pub bf_skill: Option<i64>,
    pub dojangshield: Option<i64>,
    pub mesoupbyitem: Option<Bool>,
    pub itemupbyitem: Option<i64>,
    pub exp_buff: Option<i64>,
    pub script: Option<String>,
    pub time: Option<i64>,
    pub morph: Option<i64>,
    pub pad: Option<i64>,
    pub pdd: Option<i64>,
    pub mad: Option<i64>,
    pub mdd: Option<i64>,
    pub thaw: Option<i64>,
    pub inc_fatigue: Option<i64>,
    pub booster: Option<i64>,
    pub party: Option<Bool>,
}

/// An item that changes a character's state while it lasts.
#[derive(Clone, Debug)]
pub struct StateChangeItem {
    pub hp: u16,
    pub mp: u16,
    pub max_hp_ratio: u16,
    pub max_mp_ratio: u16,
    pub exp: u32,
    pub acc: u16,
    pub acc_ratio: u16,
    pub eva: u16,
    pub eva_ratio: u16,
    pub speed: u16,
    pub jump: u16,
    pub speed_ratio: u16,
    pub move_to: Option<u32>,
    pub ignore_continent: bool,
    pub cp: Option<u32>,
    pub cp_skill: Option<u32>,
    pub cure: CureSet,
    pub attack_ix: Option<u8>,
    pub barrier: bool,
    pub berserk: Option<u32>,
    pub bf_skill: Option<u8>,
    pub dojang_shield: Option<u8>,
    pub meso_up_by_item: bool,
    pub item_up_by_item: u8,
    pub exp_buff: u16,
    pub script: Option<String>,
    pub time: Option<Duration>,
    pub morph: Option<u8>,
    pub pad: u16,
    pub pdd: u16,
    pub mad: u16,
    pub mdd: u16,
    pub craft: u16,
    pub thaw: u16,
    pub tamed_mob_fatigue: Option<i16>,
    pub booster: Option<i16>,
    pub party: bool,
}

/// An item consumed for its effect.
#[derive(Clone, Debug)]
pub struct ConsumableItem {
    pub hp: u16,
    pub mp: u16,
    pub hp_ratio: u16,
    pub mp_ratio: u16,
    pub exp: u32,
    pub acc: u16,
    pub acc_ratio: u16,
    pub eva: u16,
    pub eva_ratio: u16,
    pub speed: u16,
    pub jump: u16,
    pub speed_ratio: u16,
    pub move_to: Option<u32>,
    pub ignore_continent: bool,
    pub cp: Option<u32>,
    pub cp_skill: Option<u32>,
    pub cure: CureSet,
    pub attack_ix: Option<u8>,
    pub barrier: bool,
    pub berserk: Option<u32>,
    pub bf_skill: Option<u8>,
    pub dojang_shield: Option<u8>,
    pub meso_up_by_item: bool,
    pub item_up_by_item: u8,
    pub exp_buff: u16,
    pub script: Option<String>,
    pub max_hp_ratio: u16,
    pub max_mp_ratio: u16,
    pub time: Option<Duration>,
    pub morph: Option<u8>,
}

/// Whether `r` is the state change item of the spec entry `s`: each number
/// cut to the width of its value, zero where missing; its time in
/// milliseconds.
pub open spec fn state_change_of(r: StateChangeItem, s: ItemSpecRecord) -> bool {
    &&& r.hp == s.hp.num_value().unwrap() as u16
    &&& r.mp == s.mp.num_value().unwrap() as u16
    &&& r.max_hp_ratio == s.hp_r.num_value().unwrap() as u16
    &&& r.max_mp_ratio == s.mp_r.num_value().unwrap() as u16
    &&& r.exp == exp_gain(s) as u32
    &&& r.acc == s.acc.num_value().unwrap() as u16
    &&& r.acc_ratio == s.acc_rate.num_value().unwrap() as u16
    &&& r.eva == s.eva.num_value().unwrap() as u16
    &&& r.eva_ratio == s.eva_rate.num_value().unwrap() as u16
    &&& r.speed == s.speed.num_value().unwrap() as u16
    &&& r.jump == s.jump.num_value().unwrap() as u16
    &&& r.speed_ratio == s.speed_rate.num_value().unwrap() as u16
    &&& r.move_to == (match s.move_to { Some(v) => Some(v as u32), None => None })
    &&& r.ignore_continent == s.ignore_continent.bool_of()
    &&& r.cp == (match s.cp { Some(v) => Some(v as u32), None => None })
    &&& r.cp_skill == (match s.buff_skill { Some(v) => Some(v as u32), None => None })
    &&& r.cure == cure_of(s)
    &&& r.attack_ix == (match s.attack_index { Some(v) => Some(v as u8), None => None })
    &&& r.barrier == s.barrier.bool_of()
    &&& r.berserk == (match s.berserk { Some(v) => Some(v as u32), None => None })
    &&& r.bf_skill == (match s.bf_skill { Some(v) => Some(v as u8), None => None })
    &&& r.dojang_shield == (match s.dojangshield { Some(v) => Some(v as u8), None => None })
    &&& r.meso_up_by_item == s.mesoupbyitem.bool_of()
    &&& r.item_up_by_item == s.itemupbyitem.num_value().unwrap() as u8
    &&& r.exp_buff == s.exp_buff.num_value().unwrap() as u16
    &&& r.script == s.script
    &&& r.time == (match s.time { Some(v) => Some(duration_of_millis(v as u64)), None => None })
    &&& r.morph == (match s.morph { Some(v) => Some(v as u8), None => None })
    &&& r.pad == s.pad.num_value().unwrap() as u16
    &&& r.pdd == s.pdd.num_value().unwrap() as u16
    &&& r.mad == s.mad.num_value().unwrap() as u16
    &&& r.mdd == s.mdd.num_value().unwrap() as u16
    &&& r.craft == 0u16
    &&& r.thaw == s.thaw.num_value().unwrap() as u16
    &&& r.tamed_mob_fatigue == (match s.inc_fatigue { Some(v) => Some(v as i16), None => None })
    &&& r.booster == (match s.booster { Some(v) => Some(v as i16), None => None })
    &&& r.party == s.party.bool_of()
}

/// Whether `r` is the consumable item of the spec entry `s`: each number
/// cut to the width of its value, zero where missing; its time in seconds.
pub open spec fn consumable_of(r: ConsumableItem, s: ItemSpecRecord) -> bool {
    &&& r.hp == s.hp.num_value().unwrap() as u16
    &&& r.mp == s.mp.num_value().unwrap() as u16
    &&& r.hp_ratio == s.hp_r.num_value().unwrap() as u16
    &&& r.mp_ratio == s.mp_r.num_value().unwrap() as u16
    &&& r.exp == exp_gain(s) as u32
    &&& r.acc == s.acc.num_value().unwrap() as u16
    &&& r.acc_ratio == s.acc_rate.num_value().unwrap() as u16
    &&& r.eva == s.eva.num_value().unwrap() as u16
    &&& r.eva_ratio == s.eva_rate.num_value().unwrap() as u16
    &&& r.speed == s.speed.num_value().unwrap() as u16
    &&& r.jump == s.jump.num_value().unwrap() as u16
    &&& r.speed_ratio == s.speed_rate.num_value().unwrap() as u16
    &&& r.move_to == (match s.move_to { Some(v) => Some(v as u32), None => None })
    &&& r.ignore_continent == s.ignore_continent.bool_of()
    &&& r.cp == (match s.cp { Some(v) => Some(v as u32), None => None })
    &&& r.cp_skill == (match s.buff_skill { Some(v) => Some(v as u32), None => None })
    &&& r.cure == cure_of(s)
    &&& r.attack_ix == (match s.attack_index { Some(v) => Some(v as u8), None => None })
    &&& r.barrier == s.barrier.bool_of()
    &&& r.berserk == (match s.berserk { Some(v) => Some(v as u32), None => None })
    &&& r.bf_skill == (match s.bf_skill { Some(v) => Some(v as u8), None => None })
    &&& r.dojang_shield == (match s.dojangshield { Some(v) => Some(v as u8), None => None })
    &&& r.meso_up_by_item == s.mesoupbyitem.bool_of()
    &&& r.item_up_by_item == s.itemupbyitem.num_value().unwrap() as u8
    &&& r.exp_buff == s.exp_buff.num_value().unwrap() as u16
    &&& r.script == s.script
    &&& r.max_hp_ratio == s.mhp_r.num_value().unwrap() as u16
    &&& r.max_mp_ratio == s.mmp_r.num_value().unwrap() as u16
    &&& r.time == (match s.time { Some(v) => Some(duration_of_secs(v as u64)), None => None })
    &&& r.morph == (match s.morph { Some(v) => Some(v as u8), None => None })
}

/// The state change item of an item entry.
pub fn state_change_item(value: &ItemRecord) -> (r: StateChangeItem)
    requires
        item_spec_readable(*value),
    ensures
        state_change_of(r, value.spec.unwrap()),
{
    let s = value.spec.as_ref().unwrap();
    StateChangeItem {
        hp: s.hp.into_num() as u16,
        mp: s.mp.into_num() as u16,
        max_hp_ratio: s.hp_r.into_num() as u16,
        max_mp_ratio: s.mp_r.into_num() as u16,
        exp: exp_gain_exec(s) as u32,
        acc: s.acc.into_num() as u16,
        acc_ratio: s.acc_rate.into_num() as u16,
        eva: s.eva.into_num() as u16,
        eva_ratio: s.eva_rate.into_num() as u16,
        speed: s.speed.into_num() as u16,
        jump: s.jump.into_num() as u16,
        speed_ratio: s.speed_rate.into_num() as u16,
        move_to: match s.move_to { Some(v) => Some(v as u32), None => None },
        ignore_continent: s.ignore_continent.into_bool(),
        cp: match s.cp { Some(v) => Some(v as u32), None => None },
        cp_skill: match s.buff_skill { Some(v) => Some(v as u32), None => None },
        cure: cure_set(s),
        attack_ix: match s.attack_index { Some(v) => Some(v as u8), None => None },
        barrier: s.barrier.into_bool(),
        berserk: match s.berserk { Some(v) => Some(v as u32), None => None },
        bf_skill: match s.bf_skill { Some(v) => Some(v as u8), None => None },
        dojang_shield: match s.dojangshield { Some(v) => Some(v as u8), None => None },
        meso_up_by_item: s.mesoupbyitem.into_bool(),
        item_up_by_item: s.itemupbyitem.into_num() as u8,
        exp_buff: s.exp_buff.into_num() as u16,
        script: copy_script(&s.script),
        time: match s.time { Some(v) => Some(duration_from_millis(v as u64)), None => None },
        morph: match s.morph { Some(v) => Some(v as u8), None => None },
        pad: s.pad.into_num() as u16,
        pdd: s.pdd.into_num() as u16,
        mad: s.mad.into_num() as u16,
        mdd: s.mdd.into_num() as u16,
        craft: 0u16,
        thaw: s.thaw.into_num() as u16,
        tamed_mob_fatigue: match s.inc_fatigue { Some(v) => Some(v as i16), None => None },
        booster: match s.booster { Some(v) => Some(v as i16), None => None },
        party: s.party.into_bool(),
    }
}

/// The consumable item of an item entry.
pub fn consumable_item(value: &ItemRecord) -> (r: ConsumableItem)
    requires
        item_spec_readable(*value),
    ensures
        consumable_of(r, value.spec.unwrap()),
{
    let s = value.spec.as_ref().unwrap();
    ConsumableItem {
        hp: s.hp.into_num() as u16,
        mp: s.mp.into_num() as u16,
        hp_ratio: s.hp_r.into_num() as u16,
        mp_ratio: s.mp_r.into_num() as u16,
        exp: exp_gain_exec(s) as u32,
        acc: s.acc.into_num() as u16,
        acc_ratio: s.acc_rate.into_num() as u16,
        eva: s.eva.into_num() as u16,
        eva_ratio: s.eva_rate.into_num() as u16,
        speed: s.speed.into_num() as u16,
        jump: s.jump.into_num() as u16,
        speed_ratio: s.speed_rate.into_num() as u16,
        move_to: match s.move_to { Some(v) => Some(v as u32), None => None },
        ignore_continent: s.ignore_continent.into_bool(),
        cp: match s.cp { Some(v) => Some(v as u32), None => None },
        cp_skill: match s.buff_skill { Some(v) => Some(v as u32), None => None },
        cure: cure_set(s),
        attack_ix: match s.attack_index { Some(v) => Some(v as u8), None => None },
        barrier: s.barrier.into_bool(),
        berserk: match s.berserk { Some(v) => Some(v as u32), None => None },
        bf_skill: match s.bf_skill { Some(v) => Some(v as u8), None => None },
        dojang_shield: match s.dojangshield { Some(v) => Some(v as u8), None => None },
        meso_up_by_item: s.mesoupbyitem.into_bool(),
        item_up_by_item: s.itemupbyitem.into_num() as u8,
        exp_buff: s.exp_buff.into_num() as u16,
        script: copy_script(&s.script),
        max_hp_ratio: s.mhp_r.into_num() as u16,
        max_mp_ratio: s.mmp_r.into_num() as u16,
        time: match s.time { Some(v) => Some(duration_from_secs(v as u64)), None => None },
        morph: match s.morph { Some(v) => Some(v as u8), None => None },
    }
}

/// The fields of an item's info entry that the item info reads.
#[derive(Clone, Debug)]
pub struct ItemInfoRecord {
    pub account_sharable: Option<Bool>,
    pub cash: Option<Bool>,
    pub expire_on_logout: Option<Bool>,
    pub not_extend: Option<Bool>,
    pub not_sale: Option<Bool>,
    pub only: Option<Bool>,
    pub pquest: Option<Bool>,
    pub quest: Option<Bool>,
    pub time_limited: Option<Bool>,
    pub trade_block: Option<Bool>,
    pub inc_pad: Option<i64>,
    pub karma: Option<i64>,
    pub req_level: Option<i64>,
    pub req_quest_on_progress: Option<i64>,
    pub max: Option<StrOrInt>,
    pub price: Option<StrOrInt>,
    pub slot_max: Option<StrOrInt>,
    /// The maps the item may be used in, each as the number the data writes.
    pub req_map: HashMap<String, i64>,
}

/// The properties of an item.
#[derive(Clone, Copy, Debug, PartialEq, Eq, Structural)]
pub struct ItemInfoFlags {
    pub cash: bool,
    pub account_sharable: bool,
    pub expire_on_logout: bool,
    pub sell_able: bool,
    pub unique: bool,
    pub extend_able: bool,
    pub quest_item: bool,
    pub party_quest_item: bool,
    pub can_trade: bool,
    pub is_time_limited: bool,
}

/// What using an item requires.
#[derive(Clone, Debug)]
pub struct ItemReqInfo {
    pub level: Option<u8>,
    pub fields: Vec<u32>,
}

/// The info of an item.
#[derive(Clone, Debug)]
pub struct ItemInfo {
    pub id: u32,
    pub flag: ItemInfoFlags,
    pub slot_max: u16,
    pub price: i32,
    pub req: ItemReqInfo,
    pub pad: Option<u16>,
    pub applyable_karma: Option<u8>,
    pub max: u16,
    pub req_quest_on_progress: Option<u16>,
}

/// Whether an item's info entry can be read: its numbers written as text
/// read as numbers.
pub open spec fn item_info_readable(v: ItemInfoRecord) -> bool {
    &&& v.max.num_value() is Some
    &&& v.price.num_value() is Some
    &&& v.slot_max matches Some(m) ==> m.num_value() is Some
}

/// The properties of an info entry: each set by its flag, and the ability
/// to sell, extend and trade unless a flag forbids it.
pub open spec fn item_flags_of(v: ItemInfoRecord) -> ItemInfoFlags {
    ItemInfoFlags {
        cash: v.cash.bool_of(),
        account_sharable: v.account_sharable.bool_of(),
        expire_on_logout: v.expire_on_logout.bool_of(),
        sell_able: !v.not_sale.bool_of(),
        unique: v.only.bool_of(),
        extend_able: !v.not_extend.bool_of(),
        quest_item: v.quest.bool_of(),
        party_quest_item: v.pquest.bool_of(),
        can_trade: !v.trade_block.bool_of(),
        is_time_limited: v.time_limited.bool_of(),
    }
}

/// Whether `r` is the item info of the entry `v`: a stack holds one item
/// where its size is missing, the other numbers are zero where missing,
/// each cut to the width of its value; the maps follow some walk of theirs.
pub open spec fn item_info_of(r: ItemInfo, v: ItemInfoRecord) -> bool {
    &&& r.id == 0
    &&& r.flag == item_flags_of(v)
    &&& r.slot_max == (match v.slot_max {
        Some(m) => m.num_value().unwrap() as u16,
        None => 1u16,
    })
    &&& r.price == v.price.num_value().unwrap() as i32
    &&& r.req.level == (match v.req_level {
        Some(l) => Some(l as u8),
        None => None,
    })
    &&& exists|ks: Seq<String>|
        #[trigger] walk_of(ks, v.req_map@) && r.req.fields@.len() == ks.len() && forall|i: int|
            0 <= i < ks.len() ==> #[trigger] r.req.fields@[i] == v.req_map@[ks[i]] as u32
    &&& r.pad == (match v.inc_pad {
        Some(p) => Some(p as u16),
        None => None,
    })
    &&& r.applyable_karma == (match v.karma {
        Some(k) => Some(k as u8),
        None => None,
    })
    &&& r.max == v.max.num_value().unwrap() as u16
    &&& r.req_quest_on_progress == (match v.req_quest_on_progress {
        Some(q) => Some(q as u16),
        None => None,
    })
}

/// A map id cut to 32 bits.
fn map_id_of(e: &i64) -> (o: u32)
    ensures
        o == *e as u32,
{
    *e as u32
}

/// The info of an item, read from its info entry.
pub fn item_info(value: &ItemInfoRecord) -> (r: ItemInfo)
    requires
        item_info_readable(*value),
    ensures
        item_info_of(r, *value),
{
    let flag = ItemInfoFlags {
        cash: value.cash.into_bool(),
        account_sharable: value.account_sharable.into_bool(),
        expire_on_logout: value.expire_on_logout.into_bool(),
        sell_able: !value.not_sale.into_bool(),
        unique: value.only.into_bool(),
        extend_able: !value.not_extend.into_bool(),
        quest_item: value.quest.into_bool(),
        party_quest_item: value.pquest.into_bool(),
        can_trade: !value.trade_block.into_bool(),
        is_time_limited: value.time_limited.into_bool(),
    };
    let fields = map_walk_values(&value.req_map, map_id_of);
    ItemInfo {
        id: 0,
        flag,
        slot_max: match &value.slot_max {
            Some(m) => m.into_num() as u16,
            None => 1,
        },
        price: value.price.into_num() as i32,
        req: ItemReqInfo {
            level: match value.req_level {
                Some(l) => Some(l as u8),
                None => None,
            },
            fields,
        },
        pad: match value.inc_pad {
            Some(p) => Some(p as u16),
            None => None,
        },
        applyable_karma: match value.karma {
            Some(k) => Some(k as u8),
            None => None,
        },
        max: value.max.into_num() as u16,
        req_quest_on_progress: match value.req_quest_on_progress {
            Some(q) => Some(q as u16),
            None => None,
        },
    }
}

/// The fields of an equipment's info entry that its flags and requirements
/// read.
#[derive(Clone, Debug)]
pub struct EquipInfoRecord {
    pub account_sharable: Option<Bool>,
    pub cash: Option<Bool>,
    pub drop_block: Option<Bool>,
    pub equip_trade_block: Option<Bool>,
    pub expire_on_logout: Option<Bool>,
    pub hide: Option<Bool>,
    pub name_tag: Option<Bool>,
    pub not_extend: Option<Bool>,
    pub not_sale: Option<Bool>,
    pub only: Option<Bool>,
    pub only_equip: Option<Bool>,
    pub quest: Option<Bool>,
    pub time_limited: Option<Bool>,
    pub trad_block: Option<Bool>,
    pub trade_block: Option<Bool>,
    pub req_dex: Option<StrOrInt>,
    pub req_int: Option<StrOrInt>,
    pub req_job: Option<i64>,
    pub req_level: Option<i64>,
    pub req_luk: Option<StrOrInt>,
    pub req_pop: Option<StrOrInt>,
    pub req_str: Option<StrOrInt>,
}

/// The properties of an equipment.
#[derive(Clone, Copy, Debug, PartialEq, Eq, Structural)]
pub struct EquipItemFlags {
    pub cash: bool,
    pub account_sharable: bool,
    pub can_drop: bool,
    pub on_equip_trade_block: bool,
    pub on_logout_expire: bool,
    pub hide: bool,
    pub name_tag_able: bool,
    pub sell_able: bool,
    pub unique: bool,
    pub quest_item: bool,
    pub can_trade: bool,
    pub extend_able: bool,
    pub is_time_limited: bool,
}

/// The properties of an equipment's info entry: each set by its flag, the
/// ability to drop, sell and extend unless a flag forbids it; it is unique
/// where either of its two unique flags is set, and tradable where either
/// of its two trade block flags is set, as the data mapping reads them.
pub open spec fn equip_flags_of(v: EquipInfoRecord) -> EquipItemFlags {
    EquipItemFlags {
        cash: v.cash.bool_of(),
        account_sharable: v.account_sharable.bool_of(),
        can_drop: !v.drop_block.bool_of(),
        on_equip_trade_block: v.equip_trade_block.bool_of(),
        on_logout_expire: v.expire_on_logout.bool_of(),
        hide: v.hide.bool_of(),
        name_tag_able: v.name_tag.bool_of(),
        sell_able: !v.not_sale.bool_of(),
        unique: v.only.bool_of() || v.only_equip.bool_of(),
        quest_item: v.quest.bool_of(),
        can_trade: v.trade_block.bool_of() || v.trad_block.bool_of(),
        extend_able: !v.not_extend.bool_of(),
        is_time_limited: v.time_limited.bool_of(),
    }
}

/// The properties of an equipment.
pub fn equip_item_flags(v: &EquipInfoRecord) -> (r: EquipItemFlags)
    ensures
        r == equip_flags_of(*v),
{
    EquipItemFlags {
        cash: v.cash.into_bool(),
        account_sharable: v.account_sharable.into_bool(),
        can_drop: !v.drop_block.into_bool(),
        on_equip_trade_block: v.equip_trade_block.into_bool(),
        on_logout_expire: v.expire_on_logout.into_bool(),
        hide: v.hide.into_bool(),
        name_tag_able: v.name_tag.into_bool(),
        sell_able: !v.not_sale.into_bool(),
        unique: v.only.into_bool() || v.only_equip.into_bool(),
        quest_item: v.quest.into_bool(),
        can_trade: v.trade_block.into_bool() || v.trad_block.into_bool(),
        extend_able: !v.not_extend.into_bool(),
        is_time_limited: v.time_limited.into_bool(),
    }
}

/// What wearing an equipment requires.
#[derive(Clone, Copy, Debug, PartialEq, Eq, Structural)]
pub struct EquipReq {
    pub level: u8,
    pub pop: i16,
    pub str: u16,
    pub dex: u16,
    pub int: u16,
    pub luk: u16,
    /// The job code, as the data writes it cut to 8 bits.
    pub job: i8,
    pub mob_level: u8,
}

/// Whether an equipment's requirements can be read: those written as text
/// read as numbers.
pub open spec fn equip_req_readable(v: EquipInfoRecord) -> bool {
    &&& v.req_dex.num_value() is Some
    &&& v.req_int.num_value() is Some
    &&& v.req_luk.num_value() is Some
    &&& v.req_pop.num_value() is Some
    &&& v.req_str.num_value() is Some
}

/// The requirements of an equipment's info entry: each zero where missing
/// and cut to the width of its value.
pub open spec fn equip_req_of(v: EquipInfoRecord) -> EquipReq {
    EquipReq {
        level: v.req_level.num_value().unwrap() as u8,
        pop: v.req_pop.num_value().unwrap() as i16,
        str: v.req_str.num_value().unwrap() as u16,
        dex: v.req_dex.num_value().unwrap() as u16,
        int: v.req_int.num_value().unwrap() as u16,
        luk: v.req_luk.num_value().unwrap() as u16,
        job: v.req_job.num_value().unwrap() as i8,
        mob_level: 0,
    }
}

/// The requirements of an equipment.
pub fn equip_req(v: &EquipInfoRecord) -> (r: EquipReq)
    requires
        equip_req_readable(*v),
    ensures
        r == equip_req_of(*v),
{
    EquipReq {
        level: v.req_level.into_num() as u8,
        pop: v.req_pop.into_num() as i16,
        str: v.req_str.into_num() as u16,
        dex: v.req_dex.into_num() as u16,
        int: v.req_int.into_num() as u16,
        luk: v.req_luk.into_num() as u16,
        job: v.req_job.into_num() as i8,
        mob_level: 0,
    }
}

/// The fields of an item's info entry that a mastery book reads.
#[derive(Clone, Debug)]
pub struct MasteryBookRecord {
    pub skill: HashMap<String, i64>,
    pub master_level: Option<i64>,
    pub success: Option<StrOrInt>,
    pub req_skill_level: Option<i64>,
}

/// A book that raises the master level of skills.
#[derive(Clone, Debug)]
pub struct MasteryBookItem {
    pub skills: Vec<u32>,
    pub master_level: u8,
    /// The chance of success, in percent.
    pub chance: u8,
    pub required_skill_level: u8,
}

/// The mastery book of an info entry: its skills in the order of some walk
/// of their map, each number zero where missing and cut to its width.
pub open spec fn mastery_book_of(r: MasteryBookItem, v: MasteryBookRecord) -> bool {
    &&& exists|ks: Seq<String>|
        #[trigger] walk_of(ks, v.skill@) && r.skills@.len() == ks.len() && forall|i: int|
            0 <= i < ks.len() ==> #[trigger] r.skills@[i] == v.skill@[ks[i]] as u32
    &&& r.master_level == v.master_level.num_value().unwrap() as u8
    &&& r.chance == v.success.num_value().unwrap() as u8
    &&& r.required_skill_level == v.req_skill_level.num_value().unwrap() as u8
}

/// A skill id cut to 32 bits.
fn skill_id_of(e: &i64) -> (o: u32)
    ensures
        o == *e as u32,
{
    *e as u32
}

/// The mastery book of an item's info entry.
pub fn mastery_book_item(v: &MasteryBookRecord) -> (r: MasteryBookItem)
    requires
        v.success.num_value() is Some,
    ensures
        mastery_book_of(r, *v),
{
    let skills = map_walk_values(&v.skill, skill_id_of);
    MasteryBookItem {
        skills,
        master_level: v.master_level.into_num() as u8,
        chance: v.success.into_num() as u8,
        required_skill_level: v.req_skill_level.into_num() as u8,
    }
}

/// Each requirement of an equipment is the value its entry gives for that
/// same stat, read as a number and zero where missing: its level from
/// `reqLevel`, fame from `reqPOP`, and STR, DEX, INT, LUK from `reqSTR`,
/// `reqDEX`, `reqINT`, `reqLUK`.
pub proof fn lemma_equip_req_fields(r: EquipReq, v: EquipInfoRecord)
    requires
        equip_req_readable(v),
        r == equip_req_of(v),
    ensures
        v.req_level matches Some(n) ==> r.level == n as u8,
        v.req_level is None ==> r.level == 0,
        v.req_pop matches Some(n) ==> r.pop == n.num_value().unwrap() as i16,
        v.req_pop is None ==> r.pop == 0,
        v.req_str matches Some(n) ==> r.str == n.num_value().unwrap() as u16,
        v.req_str is None ==> r.str == 0,
        v.req_dex matches Some(n) ==> r.dex == n.num_value().unwrap() as u16,
        v.req_dex is None ==> r.dex == 0,
        v.req_int matches Some(n) ==> r.int == n.num_value().unwrap() as u16,
        v.req_int is None ==> r.int == 0,
        v.req_luk matches Some(n) ==> r.luk == n.num_value().unwrap() as u16,
        v.req_luk is None ==> r.luk == 0,
        v.req_job matches Some(n) ==> r.job == n as i8,
        v.req_job is None ==> r.job == 0,
        r.mob_level == 0,
{
}

/// Each value of a state change item is the spec entry's value of the same
/// stat, cut to its width and zero or unset where missing; it gives the
/// entry's `expinc` experience, else its `exp`; it cures the states whose
/// flags are set; its time is in milliseconds.
pub proof fn lemma_state_change_fields(r: StateChangeItem, s: ItemSpecRecord)
    requires
        state_change_of(r, s),
    ensures
        s.hp matches Some(n) ==> r.hp == n.num_value().unwrap() as u16,
        s.hp is None ==> r.hp == 0,
        s.mp matches Some(n) ==> r.mp == n.num_value().unwrap() as u16,
        s.mp is None ==> r.mp == 0,
        s.hp_r matches Some(n) ==> r.max_hp_ratio == n.num_value().unwrap() as u16,
        s.hp_r is None ==> r.max_hp_ratio == 0,
        s.mp_r matches Some(n) ==> r.max_mp_ratio == n.num_value().unwrap() as u16,
        s.mp_r is None ==> r.max_mp_ratio == 0,
        s.acc matches Some(n) ==> r.acc == n.num_value().unwrap() as u16,
        s.acc is None ==> r.acc == 0,
        s.acc_rate matches Some(n) ==> r.acc_ratio == n.num_value().unwrap() as u16,
        s.acc_rate is None ==> r.acc_ratio == 0,
        s.eva matches Some(n) ==> r.eva == n.num_value().unwrap() as u16,
        s.eva is None ==> r.eva == 0,
        s.eva_rate matches Some(n) ==> r.eva_ratio == n.num_value().unwrap() as u16,
        s.eva_rate is None ==> r.eva_ratio == 0,
        s.speed matches Some(n) ==> r.speed == n.num_value().unwrap() as u16,
        s.speed is None ==> r.speed == 0,
        s.jump matches Some(n) ==> r.jump == n.num_value().unwrap() as u16,
        s.jump is None ==> r.jump == 0,
        s.speed_rate matches Some(n) ==> r.speed_ratio == n.num_value().unwrap() as u16,
        s.speed_rate is None ==> r.speed_ratio == 0,
        s.move_to matches Some(n) ==> r.move_to == Some(n as u32),
        s.move_to is None ==> r.move_to is None,
        s.ignore_continent matches Some(b) ==> r.ignore_continent == bool_value(b),
        s.ignore_continent is None ==> !r.ignore_continent,
        s.cp matches Some(n) ==> r.cp == Some(n as u32),
        s.cp is None ==> r.cp is None,
        s.buff_skill matches Some(n) ==> r.cp_skill == Some(n as u32),
        s.buff_skill is None ==> r.cp_skill is None,
        s.attack_index matches Some(n) ==> r.attack_ix == Some(n as u8),
        s.attack_index is None ==> r.attack_ix is None,
        s.barrier matches Some(b) ==> r.barrier == bool_value(b),
        s.barrier is None ==> !r.barrier,
        s.berserk matches Some(n) ==> r.berserk == Some(n as u32),
        s.berserk is None ==> r.berserk is None,
        s.bf_skill matches Some(n) ==> r.bf_skill == Some(n as u8),
        s.bf_skill is None ==> r.bf_skill is None,
        s.dojangshield matches Some(n) ==> r.dojang_shield == Some(n as u8),
        s.dojangshield is None ==> r.dojang_shield is None,
        s.mesoupbyitem matches Some(b) ==> r.meso_up_by_item == bool_value(b),
        s.mesoupbyitem is None ==> !r.meso_up_by_item,
        s.itemupbyitem matches Some(n) ==> r.item_up_by_item == n.num_value().unwrap() as u8,
        s.itemupbyitem is None ==> r.item_up_by_item == 0,
        s.exp_buff matches Some(n) ==> r.exp_buff == n.num_value().unwrap() as u16,
        s.exp_buff is None ==> r.exp_buff == 0,
        s.morph matches Some(n) ==> r.morph == Some(n as u8),
        s.morph is None ==> r.morph is None,
        s.pad matches Some(n) ==> r.pad == n.num_value().unwrap() as u16,
        s.pad is None ==> r.pad == 0,
        s.pdd matches Some(n) ==> r.pdd == n.num_value().unwrap() as u16,
        s.pdd is None ==> r.pdd == 0,
        s.mad matches Some(n) ==> r.mad == n.num_value().unwrap() as u16,
        s.mad is None ==> r.mad == 0,
        s.mdd matches Some(n) ==> r.mdd == n.num_value().unwrap() as u16,
        s.mdd is None ==> r.mdd == 0,
        s.thaw matches Some(n) ==> r.thaw == n.num_value().unwrap() as u16,
        s.thaw is None ==> r.thaw == 0,
        s.inc_fatigue matches Some(n) ==> r.tamed_mob_fatigue == Some(n as i16),
        s.inc_fatigue is None ==> r.tamed_mob_fatigue is None,
        s.booster matches Some(n) ==> r.booster == Some(n as i16),
        s.booster is None ==> r.booster is None,
        s.party matches Some(b) ==> r.party == bool_value(b),
        s.party is None ==> !r.party,
        s.seal matches Some(b) ==> r.cure.seal == bool_value(b),
        s.seal is None ==> !r.cure.seal,
        s.curse matches Some(b) ==> r.cure.curse == bool_value(b),
        s.curse is None ==> !r.cure.curse,
        s.poison matches Some(b) ==> r.cure.poison == bool_value(b),
        s.poison is None ==> !r.cure.poison,
        s.weakness matches Some(b) ==> r.cure.weakness == bool_value(b),
        s.weakness is None ==> !r.cure.weakness,
        s.darkness matches Some(b) ==> r.cure.darkness == bool_value(b),
        s.darkness is None ==> !r.cure.darkness,
        s.expinc matches Some(e) ==> r.exp == e as u32,
        s.expinc is None ==> (s.exp matches Some(e) ==> r.exp == e as u32),
        s.expinc is None && s.exp is None ==> r.exp == 0,
        r.script == s.script,
        s.time matches Some(t) ==> r.time == Some(duration_of_millis(t as u64)),
        s.time is None ==> r.time is None,
        r.craft == 0,
{
}

/// Each value of a consumable item is the spec entry's value of the same
/// stat, cut to its width and zero or unset where missing; it gives the
/// entry's `expinc` experience, else its `exp`; it cures the states whose
/// flags are set; its time is in seconds.
pub proof fn lemma_consumable_fields(r: ConsumableItem, s: ItemSpecRecord)
    requires
        consumable_of(r, s),
    ensures
        s.hp matches Some(n) ==> r.hp == n.num_value().unwrap() as u16,
        s.hp is None ==> r.hp == 0,
        s.mp matches Some(n) ==> r.mp == n.num_value().unwrap() as u16,
        s.mp is None ==> r.mp == 0,
        s.hp_r matches Some(n) ==> r.hp_ratio == n.num_value().unwrap() as u16,
        s.hp_r is None ==> r.hp_ratio == 0,
        s.mp_r matches Some(n) ==> r.mp_ratio == n.num_value().unwrap() as u16,
        s.mp_r is None ==> r.mp_ratio == 0,
        s.acc matches Some(n) ==> r.acc == n.num_value().unwrap() as u16,
        s.acc is None ==> r.acc == 0,
        s.acc_rate matches Some(n) ==> r.acc_ratio == n.num_value().unwrap() as u16,
        s.acc_rate is None ==> r.acc_ratio == 0,
        s.eva matches Some(n) ==> r.eva == n.num_value().unwrap() as u16,
        s.eva is None ==> r.eva == 0,
        s.eva_rate matches Some(n) ==> r.eva_ratio == n.num_value().unwrap() as u16,
        s.eva_rate is None ==> r.eva_ratio == 0,
        s.speed matches Some(n) ==> r.speed == n.num_value().unwrap() as u16,
        s.speed is None ==> r.speed == 0,
        s.jump matches Some(n) ==> r.jump == n.num_value().unwrap() as u16,
        s.jump is None ==> r.jump == 0,
        s.speed_rate matches Some(n) ==> r.speed_ratio == n.num_value().unwrap() as u16,
        s.speed_rate is None ==> r.speed_ratio == 0,
        s.move_to matches Some(n) ==> r.move_to == Some(n as u32),
        s.move_to is None ==> r.move_to is None,
        s.ignore_continent matches Some(b) ==> r.ignore_continent == bool_value(b),
        s.ignore_continent is None ==> !r.ignore_continent,
        s.cp matches Some(n) ==> r.cp == Some(n as u32),
        s.cp is None ==> r.cp is None,
        s.buff_skill matches Some(n) ==> r.cp_skill == Some(n as u32),
        s.buff_skill is None ==> r.cp_skill is None,
        s.attack_index matches Some(n) ==> r.attack_ix == Some(n as u8),
        s.attack_index is None ==> r.attack_ix is None,
        s.barrier matches Some(b) ==> r.barrier == bool_value(b),
        s.barrier is None ==> !r.barrier,
        s.berserk matches Some(n) ==> r.berserk == Some(n as u32),
        s.berserk is None ==> r.berserk is None,
        s.bf_skill matches Some(n) ==> r.bf_skill == Some(n as u8),
        s.bf_skill is None ==> r.bf_skill is None,
        s.dojangshield matches Some(n) ==> r.dojang_shield == Some(n as u8),
        s.dojangshield is None ==> r.dojang_shield is None,
        s.mesoupbyitem matches Some(b) ==> r.meso_up_by_item == bool_value(b),
        s.mesoupbyitem is None ==> !r.meso_up_by_item,
        s.itemupbyitem matches Some(n) ==> r.item_up_by_item == n.num_value().unwrap() as u8,
        s.itemupbyitem is None ==> r.item_up_by_item == 0,
        s.exp_buff matches Some(n) ==> r.exp_buff == n.num_value().unwrap() as u16,
        s.exp_buff is None ==> r.exp_buff == 0,
        s.mhp_r matches Some(n) ==> r.max_hp_ratio == n.num_value().unwrap() as u16,
        s.mhp_r is None ==> r.max_hp_ratio == 0,
        s.mmp_r matches Some(n) ==> r.max_mp_ratio == n.num_value().unwrap() as u16,
        s.mmp_r is None ==> r.max_mp_ratio == 0,
        s.morph matches Some(n) ==> r.morph == Some(n as u8),
        s.morph is None ==> r.morph is None,
        s.seal matches Some(b) ==> r.cure.seal == bool_value(b),
        s.seal is None ==> !r.cure.seal,
        s.curse matches Some(b) ==> r.cure.curse == bool_value(b),
        s.curse is None ==> !r.cure.curse,
        s.poison matches Some(b) ==> r.cure.poison == bool_value(b),
        s.poison is None ==> !r.cure.poison,
        s.weakness matches Some(b) ==> r.cure.weakness == bool_value(b),
        s.weakness is None ==> !r.cure.weakness,
        s.darkness matches Some(b) ==> r.cure.darkness == bool_value(b),
        s.darkness is None ==> !r.cure.darkness,
        s.expinc matches Some(e) ==> r.exp == e as u32,
        s.expinc is None ==> (s.exp matches Some(e) ==> r.exp == e as u32),
        s.expinc is None && s.exp is None ==> r.exp == 0,
        r.script == s.script,
        s.time matches Some(t) ==> r.time == Some(duration_of_secs(t as u64)),
        s.time is None ==> r.time is None,
{
}

/// The info of an item: each property set by the flag of the same name, an
/// item sellable, extendable and tradable unless a flag forbids it; a stack
/// of one item where its size is missing; the other values those of the
/// entry under the same name, cut to their width.
pub proof fn lemma_item_info_fields(r: ItemInfo, v: ItemInfoRecord)
    requires
        item_info_of(r, v),
    ensures
        r.id == 0,
        v.price matches Some(n) ==> r.price == n.num_value().unwrap() as i32,
        v.price is None ==> r.price == 0,
        v.max matches Some(n) ==> r.max == n.num_value().unwrap() as u16,
        v.max is None ==> r.max == 0,
        v.cash matches Some(b) ==> r.flag.cash == bool_value(b),
        v.cash is None ==> !r.flag.cash,
        v.account_sharable matches Some(b) ==> r.flag.account_sharable == bool_value(b),
        v.account_sharable is None ==> !r.flag.account_sharable,
        v.expire_on_logout matches Some(b) ==> r.flag.expire_on_logout == bool_value(b),
        v.expire_on_logout is None ==> !r.flag.expire_on_logout,
        v.not_sale matches Some(b) ==> r.flag.sell_able == !bool_value(b),
        v.not_sale is None ==> r.flag.sell_able,
        v.only matches Some(b) ==> r.flag.unique == bool_value(b),
        v.only is None ==> !r.flag.unique,
        v.not_extend matches Some(b) ==> r.flag.extend_able == !bool_value(b),
        v.not_extend is None ==> r.flag.extend_able,
        v.quest matches Some(b) ==> r.flag.quest_item == bool_value(b),
        v.quest is None ==> !r.flag.quest_item,
        v.pquest matches Some(b) ==> r.flag.party_quest_item == bool_value(b),
        v.pquest is None ==> !r.flag.party_quest_item,
        v.trade_block matches Some(b) ==> r.flag.can_trade == !bool_value(b),
        v.trade_block is None ==> r.flag.can_trade,
        v.time_limited matches Some(b) ==> r.flag.is_time_limited == bool_value(b),
        v.time_limited is None ==> !r.flag.is_time_limited,
        v.slot_max matches Some(m) ==> r.slot_max == m.num_value().unwrap() as u16,
        v.slot_max is None ==> r.slot_max == 1,
        v.req_level matches Some(l) ==> r.req.level == Some(l as u8),
        v.req_level is None ==> r.req.level is None,
        v.inc_pad matches Some(p) ==> r.pad == Some(p as u16),
        v.inc_pad is None ==> r.pad is None,
        v.karma matches Some(k) ==> r.applyable_karma == Some(k as u8),
        v.karma is None ==> r.applyable_karma is None,
        v.req_quest_on_progress matches Some(q) ==> r.req_quest_on_progress == Some(q as u16),
        v.req_quest_on_progress is None ==> r.req_quest_on_progress is None,
        r.req.fields@.len() == v.req_map@.len(),
{
}

/// The properties of an equipment: each set by the flag of the same name;
/// droppable, sellable and extendable unless a flag forbids it; unique
/// where either unique flag is set, and tradable where either trade block
/// flag is set.
pub proof fn lemma_equip_flags_fields(r: EquipItemFlags, v: EquipInfoRecord)
    requires
        r == equip_flags_of(v),
    ensures
        v.cash matches Some(b) ==> r.cash == bool_value(b),
        v.cash is None ==> !r.cash,
        v.account_sharable matches Some(b) ==> r.account_sharable == bool_value(b),
        v.account_sharable is None ==> !r.account_sharable,
        v.drop_block matches Some(b) ==> r.can_drop == !bool_value(b),
        v.drop_block is None ==> r.can_drop,
        v.equip_trade_block matches Some(b) ==> r.on_equip_trade_block == bool_value(b),
        v.equip_trade_block is None ==> !r.on_equip_trade_block,
        v.expire_on_logout matches Some(b) ==> r.on_logout_expire == bool_value(b),
        v.expire_on_logout is None ==> !r.on_logout_expire,
        v.hide matches Some(b) ==> r.hide == bool_value(b),
        v.hide is None ==> !r.hide,
        v.name_tag matches Some(b) ==> r.name_tag_able == bool_value(b),
        v.name_tag is None ==> !r.name_tag_able,
        v.not_sale matches Some(b) ==> r.sell_able == !bool_value(b),
        v.not_sale is None ==> r.sell_able,
        v.quest matches Some(b) ==> r.quest_item == bool_value(b),
        v.quest is None ==> !r.quest_item,
        v.not_extend matches Some(b) ==> r.extend_able == !bool_value(b),
        v.not_extend is None ==> r.extend_able,
        v.time_limited matches Some(b) ==> r.is_time_limited == bool_value(b),
        v.time_limited is None ==> !r.is_time_limited,
        r.unique == (v.only.bool_of() || v.only_equip.bool_of()),
        r.can_trade == (v.trade_block.bool_of() || v.trad_block.bool_of()),
{
}

/// A mastery book raises its skills to its master level with its chance of
/// success, for a skill at the required level, each zero where missing.
pub proof fn lemma_mastery_book_fields(r: MasteryBookItem, v: MasteryBookRecord)
    requires
        mastery_book_of(r, v),
    ensures
        v.master_level matches Some(n) ==> r.master_level == n.num_value().unwrap() as u8,
        v.master_level is None ==> r.master_level == 0,
        v.success matches Some(n) ==> r.chance == n.num_value().unwrap() as u8,
        v.success is None ==> r.chance == 0,
        v.req_skill_level matches Some(n) ==> r.required_skill_level == n.num_value().unwrap() as u8,
        v.req_skill_level is None ==> r.required_skill_level == 0,
        r.skills@.len() == v.skill@.len(),
{
}

} // verus!
