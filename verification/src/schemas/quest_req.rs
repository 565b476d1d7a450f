//! The requirements of a quest, read from the quest data.
use vstd::prelude::*;

use std::collections::HashMap;

use crate::schemas::mapping::{
    bool_value, key_index, map_pairs, map_range, map_range_len, map_to_list, IntoBool, IntoNum,
    QuestRange,
};
use crate::schemas::records::{
    IdCount, QuestCheckValueValueItemValue, QuestCheckValueValueMbcardValue,
    QuestCheckValueValueQuestValue, QuestSkill,
};
use crate::schemas::scalar::{Bool, StrOrInt};
use crate::schemas::text::{lemma_parse_unsigned_bounds, parse_unsigned, parse_unsigned_spec};

verus! {

/// The fields of a quest check entry that the requirements read.
#[derive(Clone, Debug)]
pub struct QuestCheckRecord {
    pub item: HashMap<String, QuestCheckValueValueItemValue>,
    pub equip_all_need: HashMap<String, i64>,
    pub equip_select_need: HashMap<String, i64>,
    pub mbmin: Option<i64>,
    pub mbcard: HashMap<String, QuestCheckValueValueMbcardValue>,
    pub job: HashMap<String, i64>,
    pub field_enter: HashMap<String, i64>,
    pub lvmin: Option<i64>,
    pub lvmax: Option<i64>,
    pub tamingmoblevelmin: Option<i64>,
    pub pettamenessmin: Option<i64>,
    pub quest: HashMap<String, QuestCheckValueValueQuestValue>,
    pub pop: Option<i64>,
    pub skill: HashMap<String, QuestSkill>,
    pub mob: HashMap<String, IdCount>,
    pub worldmin: Option<StrOrInt>,
    pub worldmax: Option<StrOrInt>,
    pub day_of_week: HashMap<String, Bool>,
    pub day_by_day: Option<Bool>,
    pub endmeso: Option<i64>,
    pub normal_auto_start: Option<Bool>,
}

/// The items a quest asks for: items with counts, and equipment of which all
/// or one must be worn.
#[derive(Clone, Debug)]
pub struct QuestItemReq {
    pub items: Vec<(u32, usize)>,
    pub equips_all: Vec<u32>,
    pub equips_select: Vec<u32>,
}

/// The monster book cards a quest asks for.
#[derive(Clone, Debug)]
pub struct QuestMonsterBookReq {
    pub min_total_cards: Option<usize>,
    pub cards: Vec<(u32, QuestRange<usize>)>,
}

/// The requirements of a quest.
#[derive(Clone, Debug)]
pub struct QuestReq {
    /// The job ids the quest is for, as the data writes them.
    pub jobs: Vec<u16>,
    pub field_enter: Vec<u32>,
    pub level_range: QuestRange<u8>,
    pub taming_mob_level_range: QuestRange<u8>,
    pub pet_tameness_range: QuestRange<u8>,
    pub quest_states: Vec<(u16, u32)>,
    pub min_pop: Option<i16>,
    pub items: QuestItemReq,
    pub skills: Vec<(u32, u8)>,
    pub mobs: Vec<(u32, usize)>,
    pub mbook: QuestMonsterBookReq,
    pub worlds: QuestRange<u8>,
    pub days: Vec<u8>,
    pub repeat_per_day: bool,
    pub end_money: Option<i32>,
    pub normal_auto_start: bool,
}

/// Whether `ks` lists every key of `m` once: an order of the map's walk.
pub open spec fn walk_of<T>(ks: Seq<String>, m: Map<String, T>) -> bool {
    &&& ks.len() == m.len()
    &&& ks.no_duplicates()
    &&& forall|i: int| 0 <= i < ks.len() ==> m.contains_key(#[trigger] ks[i])
}

/// A walk of a finite map lists each of its keys.
pub proof fn lemma_walk_covers<T>(ks: Seq<String>, m: Map<String, T>)
    requires
        walk_of(ks, m),
        m.dom().finite(),
    ensures
        forall|k: String| #[trigger] m.contains_key(k) ==> ks.contains(k),
{
    ks.unique_seq_to_set();
    vstd::seq_lib::seq_to_set_is_finite(ks);
    assert(ks.to_set().subset_of(m.dom()));
    vstd::set_lib::lemma_subset_equality(ks.to_set(), m.dom());
    assert forall|k: String| #[trigger] m.contains_key(k) implies ks.contains(k) by {
        assert(ks.to_set().contains(k));
    }
}

/// Whether `r` holds what `f` gives for the values of `m` taken in the order
/// of `ks`.
pub open spec fn mapped_in_order<T, U, F: Fn(&T) -> U>(
    ks: Seq<String>,
    m: Map<String, T>,
    f: F,
    r: Seq<U>,
) -> bool {
    &&& ks.len() == r.len()
    &&& forall|i: int| 0 <= i < ks.len() ==> f.ensures((&m[ks[i]],), #[trigger] r[i])
}

/// The values of a map, in the order of the map's walk, each given to `f`.
pub fn map_walk_values<T, U, F: Fn(&T) -> U>(m: &HashMap<String, T>, f: F) -> (r: Vec<U>)
    requires
        forall|k: String| #[trigger] m@.contains_key(k) ==> f.requires((&m@[k],)),
    ensures
        exists|ks: Seq<String>| #[trigger] walk_of(ks, m@) && mapped_in_order(ks, m@, f, r@),
{
    let pairs = map_pairs(m);
    let mut out: Vec<U> = Vec::new();
    let mut i: usize = 0;
    while i < pairs.len()
        invariant
            i <= pairs@.len(),
            pairs@.len() == m@.len(),
            forall|j: int|
                0 <= j < pairs@.len() ==> m@.contains_key(*#[trigger] pairs@[j].0) && *pairs@[j].1
                    == m@[*pairs@[j].0],
            forall|k: String| #[trigger] m@.contains_key(k) ==> f.requires((&m@[k],)),
            out@.len() == i,
            forall|j: int| 0 <= j < i ==> f.ensures((&m@[*pairs@[j].0],), #[trigger] out@[j]),
        decreases pairs@.len() - i,
    {
        assert(m@.contains_key(*pairs@[i as int].0));
        let v = f(pairs[i].1);
        out.push(v);
        i = i + 1;
    }
    let ghost ks = pairs@.map_values(|p: (&String, &T)| *p.0);
    assert(ks.no_duplicates()) by {
        assert forall|a: int, b: int| 0 <= a < ks.len() && 0 <= b < ks.len() && a != b implies ks[a]
            != ks[b] by {
            if a < b {
                assert(*pairs@[a].0 != *pairs@[b].0);
            } else {
                assert(*pairs@[b].0 != *pairs@[a].0);
            }
        }
    }
    assert(forall|j: int| 0 <= j < ks.len() ==> m@.contains_key(#[trigger] ks[j]));
    assert(mapped_in_order(ks, m@, f, out@));
    assert(walk_of(ks, m@));
    assert(exists|ks: Seq<String>| #[trigger] walk_of(ks, m@) && mapped_in_order(ks, m@, f, out@));
    out
}

/// An item a quest asks for: its id, and its count (one where missing).
pub open spec fn item_req_of(v: QuestCheckValueValueItemValue) -> (u32, usize) {
    (
        v.id.unwrap() as u32,
        (match v.count {
            Some(c) => c,
            None => 1,
        }) as usize,
    )
}

/// A monster book card a quest asks for: the mob, and the least count.
pub open spec fn card_req_of(v: QuestCheckValueValueMbcardValue) -> (u32, QuestRange<usize>) {
    (
        v.id.unwrap() as u32,
        match v.min {
            Some(m) => QuestRange::Min(m as usize),
            None => QuestRange::NoBound,
        },
    )
}

/// A quest state a quest asks for: the quest and the state, zero where
/// missing.
pub open spec fn quest_state_of(v: QuestCheckValueValueQuestValue) -> (u16, u32) {
    (v.id.num_value().unwrap() as u16, v.state.num_value().unwrap() as u32)
}

/// A skill a quest asks for, with the level one if it must be acquired.
pub open spec fn skill_req_of(v: QuestSkill) -> (u32, u8) {
    (v.id.unwrap() as u32, if v.acquire.bool_of() {
        1u8
    } else {
        0u8
    })
}

/// A mob a quest asks to hunt: the mob and the count.
pub open spec fn mob_req_of(v: IdCount) -> (u32, usize) {
    (v.id.unwrap() as u32, v.count.unwrap() as usize)
}

/// The range of worlds a quest is open in, each bound read as a number.
pub open spec fn world_bound(v: Option<StrOrInt>) -> Option<i64> {
    match v {
        Some(w) => Some(w.num_value().unwrap()),
        None => None,
    }
}

/// Whether a quest check entry can be read: every item, card, skill and
/// mob names its id, every hunted mob has a count, every world bound and
/// mob key reads as a number, and every day reads as a byte.
pub open spec fn quest_check_readable(v: QuestCheckRecord) -> bool {
    &&& forall|k: String| #[trigger] v.item@.contains_key(k) ==> v.item@[k].id is Some
    &&& forall|k: String| #[trigger] v.mbcard@.contains_key(k) ==> v.mbcard@[k].id is Some
    &&& forall|k: String| #[trigger] v.skill@.contains_key(k) ==> v.skill@[k].id is Some
    &&& forall|k: String|
        #[trigger] v.mob@.contains_key(k) ==> v.mob@[k].id is Some && v.mob@[k].count is Some
            && key_index(k) is Some
    &&& forall|k: String|
        #[trigger] v.day_of_week@.contains_key(k) ==> parse_unsigned_spec(k@, 255) is Some
    &&& v.worldmin matches Some(w) ==> w.num_value() is Some
    &&& v.worldmax matches Some(w) ==> w.num_value() is Some
}

/// The plain values of the requirements: ranges, least fame, money and
/// flags.
pub open spec fn quest_req_plain(r: QuestReq, v: QuestCheckRecord) -> bool {
    &&& r.level_range == map_range_spec(v.lvmin, v.lvmax)
    &&& r.taming_mob_level_range == map_range_spec(v.tamingmoblevelmin, None)
    &&& r.pet_tameness_range == map_range_spec(v.pettamenessmin, None)
    &&& r.worlds == map_range_spec(world_bound(v.worldmin), world_bound(v.worldmax))
    &&& r.min_pop == (match v.pop {
        Some(p) => Some(p as i16),
        None => None,
    })
    &&& r.mbook.min_total_cards == (match v.mbmin {
        Some(m) => Some(m as usize),
        None => None,
    })
    &&& r.repeat_per_day == v.day_by_day.bool_of()
    &&& r.end_money == (match v.endmeso {
        Some(m) => Some(m as i32),
        None => None,
    })
    &&& r.normal_auto_start == v.normal_auto_start.bool_of()
}

/// The quest range of optional bounds, each cut to its low 8 bits.
pub open spec fn map_range_spec(min: Option<i64>, max: Option<i64>) -> QuestRange<u8> {
    match (min, max) {
        (Some(a), Some(b)) => QuestRange::Range(a as u8, b as u8),
        (Some(a), None) => QuestRange::Min(a as u8),
        (None, Some(b)) => QuestRange::Max(b as u8),
        (None, None) => QuestRange::NoBound,
    }
}

/// Whether the lists of the requirements hold, in the order of some walk of
/// each map, what each entry asks for.
pub open spec fn quest_req_lists(r: QuestReq, v: QuestCheckRecord) -> bool {
    &&& exists|ks: Seq<String>|
        walk_of(ks, v.item@) && #[trigger] r.items.items@.len() == ks.len() && forall|i: int|
            0 <= i < ks.len() ==> #[trigger] r.items.items@[i] == item_req_of(v.item@[ks[i]])
    &&& exists|ks: Seq<String>|
        walk_of(ks, v.equip_all_need@) && #[trigger] r.items.equips_all@.len() == ks.len()
            && forall|i: int|
            0 <= i < ks.len() ==> #[trigger] r.items.equips_all@[i] == v.equip_all_need@[ks[i]] as u32
    &&& exists|ks: Seq<String>|
        walk_of(ks, v.equip_select_need@) && #[trigger] r.items.equips_select@.len() == ks.len()
            && forall|i: int|
            0 <= i < ks.len() ==> #[trigger] r.items.equips_select@[i]
                == v.equip_select_need@[ks[i]] as u32
    &&& exists|ks: Seq<String>|
        walk_of(ks, v.mbcard@) && #[trigger] r.mbook.cards@.len() == ks.len() && forall|i: int|
            0 <= i < ks.len() ==> #[trigger] r.mbook.cards@[i] == card_req_of(v.mbcard@[ks[i]])
    &&& exists|ks: Seq<String>|
        walk_of(ks, v.job@) && #[trigger] r.jobs@.len() == ks.len() && forall|i: int|
            0 <= i < ks.len() ==> #[trigger] r.jobs@[i] == v.job@[ks[i]] as u16
    &&& exists|ks: Seq<String>|
        walk_of(ks, v.field_enter@) && #[trigger] r.field_enter@.len() == ks.len() && forall|i: int|
            0 <= i < ks.len() ==> #[trigger] r.field_enter@[i] == v.field_enter@[ks[i]] as u32
    &&& exists|ks: Seq<String>|
        walk_of(ks, v.quest@) && #[trigger] r.quest_states@.len() == ks.len() && forall|i: int|
            0 <= i < ks.len() ==> #[trigger] r.quest_states@[i] == quest_state_of(v.quest@[ks[i]])
    &&& exists|ks: Seq<String>|
        walk_of(ks, v.skill@) && #[trigger] r.skills@.len() == ks.len() && forall|i: int|
            0 <= i < ks.len() ==> #[trigger] r.skills@[i] == skill_req_of(v.skill@[ks[i]])
    &&& exists|ks: Seq<String>|
        walk_of(ks, v.day_of_week@) && #[trigger] r.days@.len() == ks.len() && forall|i: int|
            0 <= i < ks.len() ==> #[trigger] r.days@[i] as int == parse_unsigned_spec(
                ks[i]@,
                255,
            ).unwrap()
}

/// Whether the hunted mobs are those of the entry, ordered by the index
/// their key reads as.
pub open spec fn quest_req_mobs(r: QuestReq, v: QuestCheckRecord) -> bool {
    exists|ks: Seq<String>|
        {
            &&& walk_of(ks, v.mob@)
            &&& #[trigger] r.mobs@.len() == ks.len()
            &&& forall|i: int, j: int|
                0 <= i <= j < ks.len() ==> key_index(#[trigger] ks[i]).unwrap() <= key_index(
                    #[trigger] ks[j],
                ).unwrap()
            &&& forall|i: int| 0 <= i < ks.len() ==> #[trigger] r.mobs@[i] == mob_req_of(v.mob@[ks[i]])
        }
}

/// An item a quest asks for.
fn item_req(e: &QuestCheckValueValueItemValue) -> (o: (u32, usize))
    requires
        e.id is Some,
    ensures
        o == item_req_of(*e),
{
    let count: i64 = match e.count {
        Some(c) => c,
        None => 1,
    };
    (e.id.unwrap() as u32, count as usize)
}

/// An id of the data files cut to 32 bits.
fn item_id_of(e: &i64) -> (o: u32)
    ensures
        o == *e as u32,
{
    *e as u32
}

/// A job id of the data files cut to 16 bits.
fn job_id_of(e: &i64) -> (o: u16)
    ensures
        o == *e as u16,
{
    *e as u16
}

/// A monster book card a quest asks for.
fn card_req(e: &QuestCheckValueValueMbcardValue) -> (o: (u32, QuestRange<usize>))
    requires
        e.id is Some,
    ensures
        o == card_req_of(*e),
{
    (e.id.unwrap() as u32, map_range_len(e.min, None))
}

/// A quest state a quest asks for.
fn quest_state(e: &QuestCheckValueValueQuestValue) -> (o: (u16, u32))
    ensures
        o == quest_state_of(*e),
{
    (e.id.into_num() as u16, e.state.into_num() as u32)
}

/// A skill a quest asks for.
fn skill_req(e: &QuestSkill) -> (o: (u32, u8))
    requires
        e.id is Some,
    ensures
        o == skill_req_of(*e),
{
    let level: u8 = if e.acquire.into_bool() {
        1
    } else {
        0
    };
    (e.id.unwrap() as u32, level)
}

/// The requirements of a quest check entry; each list follows the order of
/// the walk of its map, and the hunted mobs are ordered by their key.
pub fn quest_req(value: &QuestCheckRecord) -> (r: QuestReq)
    requires
        quest_check_readable(*value),
    ensures
        quest_req_plain(r, *value),
        quest_req_lists(r, *value),
        quest_req_mobs(r, *value),
{
    let items = map_walk_values(&value.item, item_req);
    let equips_all = map_walk_values(&value.equip_all_need, item_id_of);
    let equips_select = map_walk_values(&value.equip_select_need, item_id_of);
    let cards = map_walk_values(&value.mbcard, card_req);
    let jobs = map_walk_values(&value.job, job_id_of);
    let field_enter = map_walk_values(&value.field_enter, item_id_of);
    let quest_states = map_walk_values(&value.quest, quest_state);
    let skills = map_walk_values(&value.skill, skill_req);
    let listed = map_to_list(&value.mob);
    let mut mobs: Vec<(u32, usize)> = Vec::new();
    let mut i: usize = 0;
    while i < listed.len()
        invariant
            i <= listed@.len(),
            mobs@.len() == i,
            forall|k: String|
                #[trigger] value.mob@.contains_key(k) ==> value.mob@[k].id is Some
                    && value.mob@[k].count is Some,
            exists|ks: Seq<String>| crate::schemas::mapping::list_of_keys(ks, value.mob@, listed@),
            forall|j: int|
                0 <= j < i ==> #[trigger] mobs@[j] == mob_req_of(listed@[j].1),
        decreases listed@.len() - i,
    {
        let ghost ks = choose|ks: Seq<String>|
            crate::schemas::mapping::list_of_keys(ks, value.mob@, listed@);
        assert(value.mob@.contains_key(ks[i as int]));
        assert(listed@[i as int].1 == value.mob@[ks[i as int]]);
        let e = listed[i].1;
        mobs.push((e.id.unwrap() as u32, e.count.unwrap() as usize));
        i = i + 1;
    }
    proof {
        let ks = choose|ks: Seq<String>|
            crate::schemas::mapping::list_of_keys(ks, value.mob@, listed@);
        assert forall|a: int| 0 <= a < ks.len() implies #[trigger] mobs@[a] == mob_req_of(
            value.mob@[ks[a]],
        ) by {
            assert(listed@[a].1 == value.mob@[ks[a]]);
        }
        assert forall|a: int, b: int| 0 <= a <= b < ks.len() implies key_index(
            #[trigger] ks[a],
        ).unwrap() <= key_index(#[trigger] ks[b]).unwrap() by {
            assert(listed@[a].0 <= listed@[b].0);
        }
        assert(walk_of(ks, value.mob@));
    }
    let pairs = map_pairs(&value.day_of_week);
    let mut days: Vec<u8> = Vec::new();
    let mut d: usize = 0;
    while d < pairs.len()
        invariant
            d <= pairs@.len(),
            pairs@.len() == value.day_of_week@.len(),
            forall|j: int|
                0 <= j < pairs@.len() ==> value.day_of_week@.contains_key(*#[trigger] pairs@[j].0),
            forall|k: String|
                #[trigger] value.day_of_week@.contains_key(k) ==> parse_unsigned_spec(k@, 255) is Some,
            days@.len() == d,
            forall|j: int|
                0 <= j < d ==> #[trigger] days@[j] as int == parse_unsigned_spec(
                    pairs@[j].0@,
                    255,
                ).unwrap(),
        decreases pairs@.len() - d,
    {
        let key = pairs[d].0;
        assert(value.day_of_week@.contains_key(*key));
        proof {
            lemma_parse_unsigned_bounds(key@, 255);
        }
        let day = parse_unsigned(key.as_str(), 255).unwrap() as u8;
        days.push(day);
        d = d + 1;
    }
    proof {
        let ks = pairs@.map_values(|p: (&String, &Bool)| *p.0);
        assert(ks.no_duplicates()) by {
            assert forall|a: int, b: int| 0 <= a < ks.len() && 0 <= b < ks.len() && a != b implies ks[a]
                != ks[b] by {
                if a < b {
                    assert(*pairs@[a].0 != *pairs@[b].0);
                } else {
                    assert(*pairs@[b].0 != *pairs@[a].0);
                }
            }
        }
        assert(forall|j: int| 0 <= j < ks.len() ==> value.day_of_week@.contains_key(#[trigger] ks[j]));
        assert(walk_of(ks, value.day_of_week@));
        assert(forall|j: int| 0 <= j < ks.len() ==> #[trigger] days@[j] as int == parse_unsigned_spec(
            ks[j]@,
            255,
        ).unwrap());
    }
    let world_min = match &value.worldmin {
        Some(w) => Some(w.into_num()),
        None => None,
    };
    let world_max = match &value.worldmax {
        Some(w) => Some(w.into_num()),
        None => None,
    };
    QuestReq {
        jobs,
        field_enter,
        level_range: map_range(value.lvmin, value.lvmax),
        taming_mob_level_range: map_range(value.tamingmoblevelmin, None),
        pet_tameness_range: map_range(value.pettamenessmin, None),
        quest_states,
        min_pop: match value.pop {
            Some(p) => Some(p as i16),
            None => None,
        },
        items: QuestItemReq { items, equips_all, equips_select },
        skills,
        mobs,
        mbook: QuestMonsterBookReq {
            min_total_cards: match value.mbmin {
                Some(m) => Some(m as usize),
                None => None,
            },
            cards,
        },
        worlds: map_range(world_min, world_max),
        days,
        repeat_per_day: value.day_by_day.into_bool(),
        end_money: match value.endmeso {
            Some(m) => Some(m as i32),
            None => None,
        },
        normal_auto_start: value.normal_auto_start.into_bool(),
    }
}

/// An item a quest asks for is the entry's item with the entry's count, or
/// a single item where the entry gives no count.
pub proof fn lemma_item_req_count(e: QuestCheckValueValueItemValue)
    requires
        e.id is Some,
    ensures
        item_req_of(e).0 == e.id.unwrap() as u32,
        e.count matches Some(c) ==> item_req_of(e).1 == c as usize,
        e.count is None ==> item_req_of(e).1 == 1,
{
}

/// A monster book card a quest asks for is the entry's mob with the entry's
/// least count, no bound where it gives none; a quest state asked for is
/// the entry's quest and state (zero where missing); a skill asked for is
/// the entry's skill at level one if it must be acquired, else zero; a mob
/// to hunt is the entry's mob with the entry's count.
pub proof fn lemma_quest_check_entries(
    c: QuestCheckValueValueMbcardValue,
    q: QuestCheckValueValueQuestValue,
    k: QuestSkill,
    m: IdCount,
)
    requires
        c.id is Some,
        k.id is Some,
        m.id is Some,
        m.count is Some,
    ensures
        card_req_of(c).0 == c.id.unwrap() as u32,
        c.min matches Some(n) ==> card_req_of(c).1 == QuestRange::Min(n as usize),
        c.min is None ==> card_req_of(c).1 == QuestRange::<usize>::NoBound,
        q.id matches Some(i) ==> quest_state_of(q).0 == i.num_value().unwrap() as u16,
        q.id is None ==> quest_state_of(q).0 == 0,
        q.state matches Some(st) ==> quest_state_of(q).1 == st.num_value().unwrap() as u32,
        q.state is None ==> quest_state_of(q).1 == 0,
        skill_req_of(k).0 == k.id.unwrap() as u32,
        k.acquire matches Some(b) ==> skill_req_of(k).1 == (if bool_value(b) {
            1u8
        } else {
            0u8
        }),
        k.acquire is None ==> skill_req_of(k).1 == 0,
        mob_req_of(m) == (m.id.unwrap() as u32, m.count.unwrap() as usize),
{
}

/// The range of two optional bounds: both bounds give a range, one bound
/// a least or a most value, none no bound; each bound cut to 8 bits.
pub proof fn lemma_range_bounds(min: Option<i64>, max: Option<i64>)
    ensures
        (min is Some && max is Some) ==> map_range_spec(min, max) == QuestRange::Range(
            min.unwrap() as u8,
            max.unwrap() as u8,
        ),
        (min is Some && max is None) ==> map_range_spec(min, max) == QuestRange::Min(
            min.unwrap() as u8,
        ),
        (min is None && max is Some) ==> map_range_spec(min, max) == QuestRange::Max(
            max.unwrap() as u8,
        ),
        (min is None && max is None) ==> map_range_spec(min, max) == QuestRange::<u8>::NoBound,
{
}

} // verus!
