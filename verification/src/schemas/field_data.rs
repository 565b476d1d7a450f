//! A field read from the field data: its flags, bounds, footholds, portals,
//! lives and reactors.
use vstd::prelude::*;

use std::collections::{BTreeMap, HashMap};

use crate::ids::Vec2;
use crate::schemas::field_life::{
    entry_pos, field_life, field_life_of, field_reactor, foothold, foothold_of, life_readable,
    reactor_readable, FieldDataError, FieldLife, FieldReactor, Foothold,
};
use crate::schemas::mapping::{
    bool_value,
    key_index, keyed_by, lemma_keyed, map_bool, map_pairs, map_to_btree_with, IntoBool,
    IntoNum,
};
use crate::schemas::quest_req::{lemma_walk_covers, walk_of};
use crate::schemas::records::{Fh, FieldLifeValue, FieldReactorValue};
use crate::schemas::scalar::Bool;
use crate::schemas::text::{parse_unsigned, parse_unsigned_spec};

verus! {

/// The fields of a field's info entry that the field reads.
#[derive(Clone, Debug)]
pub struct FieldInfoRecord {
    pub cloud: Option<Bool>,
    pub scroll_disable: Option<Bool>,
    pub no_regen_map: Option<Bool>,
    pub fly: Option<Bool>,
    pub zakum2_hack: Option<Bool>,
    pub return_map: Option<i64>,
    pub forced_return: Option<i64>,
    pub vr_left: Option<i64>,
    pub vr_right: Option<i64>,
    pub vr_top: Option<i64>,
    pub vr_bottom: Option<i64>,
}

/// The fields of a portal entry that the field reads.
#[derive(Clone, Debug)]
pub struct FieldPortalRecord {
    pub x: Option<i64>,
    pub y: Option<i64>,
    pub only_once: Option<Bool>,
    pub hide_tooltip: Option<Bool>,
    pub delay: Option<Bool>,
    pub teleport: Option<Bool>,
    pub reactor_name: Option<String>,
    pub script: Option<String>,
    pub session_value: Option<String>,
    pub session_value_key: Option<String>,
    pub pn: Option<String>,
    pub tn: Option<String>,
    pub tm: Option<i64>,
    pub pt: Option<i64>,
}

/// The fields of a field entry that the field reads; the footholds are
/// keyed by layer, group and id.
#[derive(Clone, Debug)]
pub struct FieldRecord {
    pub info: Option<FieldInfoRecord>,
    pub foothold: HashMap<String, HashMap<String, HashMap<String, Fh>>>,
    pub portal: HashMap<String, FieldPortalRecord>,
    pub life: HashMap<String, FieldLifeValue>,
    pub reactor: HashMap<String, FieldReactorValue>,
}

/// A portal of a field.
#[derive(Clone, Debug)]
pub struct FieldPortal {
    pub pos: Vec2,
    pub only_once: bool,
    pub hide_tooltip: bool,
    pub has_delay: bool,
    pub teleport: bool,
    pub reactor_name: Option<String>,
    pub script: Option<String>,
    pub session_value: Option<String>,
    pub session_value_key: Option<String>,
    pub pn: Option<String>,
    pub tn: Option<String>,
    pub tm: Option<u32>,
    pub pt: Option<u32>,
}

/// The bounds of a field: the corner of least coordinates and the opposite
/// one, as the data's left, bottom, right and top give them.
#[derive(Clone, Copy, Debug, PartialEq, Eq)]
pub struct FieldRect {
    pub min: Vec2,
    pub max: Vec2,
}

/// The footholds of a field, by layer, group and id.
pub type FieldFootholds = BTreeMap<usize, BTreeMap<usize, BTreeMap<usize, Foothold>>>;

/// A field. Each map is keyed by id, which fits the id type of its entries:
/// 16 bits for footholds, 8 for portals, 32 for lives and reactors.
#[derive(Clone, Debug)]
pub struct Field {
    pub cloud: bool,
    pub scroll_disable: bool,
    pub no_regen: bool,
    pub fly: bool,
    pub zakum_hack: bool,
    pub return_field: Option<u32>,
    pub forced_return_field: Option<u32>,
    pub rect: FieldRect,
    pub portals: BTreeMap<usize, FieldPortal>,
    pub life: BTreeMap<usize, FieldLife>,
    pub footholds: FieldFootholds,
    pub reactors: BTreeMap<usize, FieldReactor>,
}

/// Whether every key of `m` reads as an id no larger than `max`.
pub open spec fn keys_fit<T>(m: Map<String, T>, max: int) -> bool {
    forall|k: String| #[trigger] m.contains_key(k) ==> parse_unsigned_spec(k@, max) is Some
}

/// Whether every key of `m` reads as an id no larger than `max`.
fn check_keys<T>(m: &HashMap<String, T>, max: u64) -> (r: bool)
    ensures
        r == keys_fit(m@, max as int),
{
    let pairs = map_pairs(m);
    let mut i: usize = 0;
    while i < pairs.len()
        invariant
            i <= pairs@.len(),
            pairs@.len() == m@.len(),
            forall|j: int| 0 <= j < pairs@.len() ==> m@.contains_key(*#[trigger] pairs@[j].0),
            forall|j: int| 0 <= j < i ==> parse_unsigned_spec(#[trigger] pairs@[j].0@, max as int) is Some,
        decreases pairs@.len() - i,
    {
        if parse_unsigned(pairs[i].0.as_str(), max).is_none() {
            assert(m@.contains_key(*pairs@[i as int].0));
            return false;
        }
        i = i + 1;
    }
    proof {
        let ks = pairs@.map_values(|p: (&String, &T)| *p.0);
        assert(ks.no_duplicates()) by {
            assert forall|a: int, b: int| 0 <= a < ks.len() && 0 <= b < ks.len() && a != b implies ks[a]
                != ks[b] by {
                if a < b {
                    assert(*pairs@[a].0 != *pairs@[b].0);
                } else {
                    assert(*pairs@[b].0 != *pairs@[a].0);
                }
            }
        }
        assert(forall|j: int| 0 <= j < ks.len() ==> m@.contains_key(#[trigger] ks[j]));
        assert(walk_of(ks, m@));
        vstd::std_specs::hash::axiom_hashmap_view_finite_dom(*m);
        lemma_walk_covers(ks, m@);
        assert forall|k: String| #[trigger] m@.contains_key(k) implies parse_unsigned_spec(
            k@,
            max as int,
        ) is Some by {
            assert(ks.contains(k));
            let j = choose|j: int| 0 <= j < ks.len() && ks[j] == k;
            assert(parse_unsigned_spec(pairs@[j].0@, max as int) is Some);
        }
    }
    true
}

/// Whether a text that reads as a number of at most `small` reads as the
/// same number of at most `big`.
proof fn lemma_fit_widens(s: Seq<char>, small: int, big: int)
    requires
        small <= big,
        parse_unsigned_spec(s, small) is Some,
    ensures
        parse_unsigned_spec(s, big) == parse_unsigned_spec(s, small),
{
}

/// Whether every key of `m` reads as an index, given that it reads as an
/// id of at most `max`.
proof fn lemma_keys_index<T>(m: Map<String, T>, max: int)
    requires
        keys_fit(m, max),
        max <= usize::MAX,
    ensures
        forall|k: String| #[trigger] m.contains_key(k) ==> key_index(k) is Some,
{
    assert forall|k: String| #[trigger] m.contains_key(k) implies key_index(k) is Some by {
        lemma_fit_widens(k@, max, usize::MAX as int);
    }
}

/// The largest foothold id.
pub const FOOTHOLD_ID_MAX: u64 = 0xffff;

/// Whether the keys of a foothold layer read as foothold ids, at both of
/// its levels.
pub open spec fn fh_layer_fits(m: Map<String, HashMap<String, Fh>>) -> bool {
    &&& keys_fit(m, FOOTHOLD_ID_MAX as int)
    &&& forall|k: String| #[trigger] m.contains_key(k) ==> keys_fit(m[k]@, FOOTHOLD_ID_MAX as int)
}

/// Whether the keys of the footholds read as foothold ids, at each level.
pub open spec fn footholds_fit(m: Map<String, HashMap<String, HashMap<String, Fh>>>) -> bool {
    &&& keys_fit(m, FOOTHOLD_ID_MAX as int)
    &&& forall|k: String| #[trigger] m.contains_key(k) ==> fh_layer_fits(m[k]@)
}

/// A foothold is the one its entry stands for.
pub open spec fn fh_rel() -> spec_fn(Fh, Foothold) -> bool {
    |v: Fh, f: Foothold| f == foothold_of(v)
}

/// A group of footholds lists those of its entries.
pub open spec fn fh_group_rel() -> spec_fn(HashMap<String, Fh>, BTreeMap<usize, Foothold>) -> bool {
    |v: HashMap<String, Fh>, l: BTreeMap<usize, Foothold>| keyed_by(l@, v@, fh_rel())
}

/// A layer of footholds lists the groups of its entries.
pub open spec fn fh_layer_rel() -> spec_fn(
    HashMap<String, HashMap<String, Fh>>,
    BTreeMap<usize, BTreeMap<usize, Foothold>>,
) -> bool {
    |v: HashMap<String, HashMap<String, Fh>>, l: BTreeMap<usize, BTreeMap<usize, Foothold>>|
        keyed_by(l@, v@, fh_group_rel())
}

/// Whether the keys of a foothold layer read as foothold ids.
fn check_fh_layer(m: &HashMap<String, HashMap<String, Fh>>) -> (r: bool)
    ensures
        r == fh_layer_fits(m@),
{
    if !check_keys(m, FOOTHOLD_ID_MAX) {
        return false;
    }
    let pairs = map_pairs(m);
    let mut i: usize = 0;
    while i < pairs.len()
        invariant
            i <= pairs@.len(),
            pairs@.len() == m@.len(),
            forall|j: int|
                0 <= j < pairs@.len() ==> m@.contains_key(*#[trigger] pairs@[j].0) && *pairs@[j].1
                    == m@[*pairs@[j].0],
            forall|j: int|
                0 <= j < i ==> keys_fit((#[trigger] pairs@[j]).1@, FOOTHOLD_ID_MAX as int),
        decreases pairs@.len() - i,
    {
        if !check_keys(pairs[i].1, FOOTHOLD_ID_MAX) {
            assert(m@.contains_key(*pairs@[i as int].0));
            return false;
        }
        i = i + 1;
    }
    proof {
        let ks = pairs@.map_values(|p: (&String, &HashMap<String, Fh>)| *p.0);
        assert(ks.no_duplicates()) by {
            assert forall|a: int, b: int| 0 <= a < ks.len() && 0 <= b < ks.len() && a != b implies ks[a]
                != ks[b] by {
                if a < b {
                    assert(*pairs@[a].0 != *pairs@[b].0);
                } else {
                    assert(*pairs@[b].0 != *pairs@[a].0);
                }
            }
        }
        assert(forall|j: int| 0 <= j < ks.len() ==> m@.contains_key(#[trigger] ks[j]));
        assert(walk_of(ks, m@));
        vstd::std_specs::hash::axiom_hashmap_view_finite_dom(*m);
        lemma_walk_covers(ks, m@);
        assert forall|k: String| #[trigger] m@.contains_key(k) implies keys_fit(
            m@[k]@,
            FOOTHOLD_ID_MAX as int,
        ) by {
            assert(ks.contains(k));
            let j = choose|j: int| 0 <= j < ks.len() && ks[j] == k;
            assert(keys_fit(pairs@[j].1@, FOOTHOLD_ID_MAX as int));
        }
    }
    true
}

/// Whether the keys of the footholds read as foothold ids.
fn check_footholds(m: &HashMap<String, HashMap<String, HashMap<String, Fh>>>) -> (r: bool)
    ensures
        r == footholds_fit(m@),
{
    if !check_keys(m, FOOTHOLD_ID_MAX) {
        return false;
    }
    let pairs = map_pairs(m);
    let mut i: usize = 0;
    while i < pairs.len()
        invariant
            i <= pairs@.len(),
            pairs@.len() == m@.len(),
            forall|j: int|
                0 <= j < pairs@.len() ==> m@.contains_key(*#[trigger] pairs@[j].0) && *pairs@[j].1
                    == m@[*pairs@[j].0],
            forall|j: int| 0 <= j < i ==> fh_layer_fits((#[trigger] pairs@[j]).1@),
        decreases pairs@.len() - i,
    {
        if !check_fh_layer(pairs[i].1) {
            assert(m@.contains_key(*pairs@[i as int].0));
            return false;
        }
        i = i + 1;
    }
    proof {
        let ks = pairs@.map_values(|p: (&String, &HashMap<String, HashMap<String, Fh>>)| *p.0);
        assert(ks.no_duplicates()) by {
            assert forall|a: int, b: int| 0 <= a < ks.len() && 0 <= b < ks.len() && a != b implies ks[a]
                != ks[b] by {
                if a < b {
                    assert(*pairs@[a].0 != *pairs@[b].0);
                } else {
                    assert(*pairs@[b].0 != *pairs@[a].0);
                }
            }
        }
        assert(forall|j: int| 0 <= j < ks.len() ==> m@.contains_key(#[trigger] ks[j]));
        assert(walk_of(ks, m@));
        vstd::std_specs::hash::axiom_hashmap_view_finite_dom(*m);
        lemma_walk_covers(ks, m@);
        assert forall|k: String| #[trigger] m@.contains_key(k) implies fh_layer_fits(m@[k]@) by {
            assert(ks.contains(k));
            let j = choose|j: int| 0 <= j < ks.len() && ks[j] == k;
            assert(fh_layer_fits(pairs@[j].1@));
        }
    }
    true
}

/// The footholds of a group, keyed by id.
fn foothold_group(m: &HashMap<String, Fh>) -> (r: BTreeMap<usize, Foothold>)
    requires
        keys_fit(m@, FOOTHOLD_ID_MAX as int),
    ensures
        keyed_by(r@, m@, fh_rel()),
{
    proof {
        lemma_keys_index(m@, FOOTHOLD_ID_MAX as int);
    }
    let r = map_to_btree_with(m, foothold);
    proof {
        lemma_keyed(r@, m@, foothold, fh_rel());
    }
    r
}

/// The groups of a foothold layer, keyed by id.
fn foothold_layer(m: &HashMap<String, HashMap<String, Fh>>) -> (r: BTreeMap<usize, BTreeMap<usize, Foothold>>)
    requires
        fh_layer_fits(m@),
    ensures
        keyed_by(r@, m@, fh_group_rel()),
{
    proof {
        lemma_keys_index(m@, FOOTHOLD_ID_MAX as int);
    }
    let r = map_to_btree_with(m, foothold_group);
    proof {
        lemma_keyed(r@, m@, foothold_group, fh_group_rel());
    }
    r
}

/// The footholds of a field, by layer, group and id.
fn field_footholds(m: &HashMap<String, HashMap<String, HashMap<String, Fh>>>) -> (r: FieldFootholds)
    requires
        footholds_fit(m@),
    ensures
        keyed_by(r@, m@, fh_layer_rel()),
{
    proof {
        lemma_keys_index(m@, FOOTHOLD_ID_MAX as int);
    }
    let r = map_to_btree_with(m, foothold_layer);
    proof {
        lemma_keyed(r@, m@, foothold_layer, fh_layer_rel());
    }
    r
}

/// The largest portal id.
pub const PORTAL_ID_MAX: u64 = 0xff;

/// The largest id of a life or a reactor.
pub const ENTRY_ID_MAX: u64 = 0xffff_ffff;

/// Whether a portal entry can be read: it has a position.
pub open spec fn portal_readable(v: FieldPortalRecord) -> bool {
    v.x is Some && v.y is Some
}

/// The portal of an entry: its flags unset where missing, its target map
/// ids cut to 32 bits.
pub open spec fn portal_of(v: FieldPortalRecord) -> FieldPortal {
    FieldPortal {
        pos: entry_pos(v.x.unwrap(), v.y.unwrap()),
        only_once: v.only_once.bool_of(),
        hide_tooltip: v.hide_tooltip.bool_of(),
        has_delay: v.delay.bool_of(),
        teleport: v.teleport.bool_of(),
        reactor_name: v.reactor_name,
        script: v.script,
        session_value: v.session_value,
        session_value_key: v.session_value_key,
        pn: v.pn,
        tn: v.tn,
        tm: match v.tm {
            Some(t) => Some(t as u32),
            None => None,
        },
        pt: match v.pt {
            Some(t) => Some(t as u32),
            None => None,
        },
    }
}

/// A copy of an optional text.
fn copy_text(t: &Option<String>) -> (r: Option<String>)
    ensures
        r == *t,
{
    match t {
        Some(s) => Some(s.clone()),
        None => None,
    }
}

/// The portal of an entry of the field data.
pub fn field_portal(v: &FieldPortalRecord) -> (r: FieldPortal)
    requires
        portal_readable(*v),
    ensures
        r == portal_of(*v),
{
    FieldPortal {
        pos: Vec2 { x: v.x.unwrap() as i16, y: v.y.unwrap() as i16 },
        only_once: map_bool(&v.only_once),
        hide_tooltip: map_bool(&v.hide_tooltip),
        has_delay: map_bool(&v.delay),
        teleport: map_bool(&v.teleport),
        reactor_name: copy_text(&v.reactor_name),
        script: copy_text(&v.script),
        session_value: copy_text(&v.session_value),
        session_value_key: copy_text(&v.session_value_key),
        pn: copy_text(&v.pn),
        tn: copy_text(&v.tn),
        tm: match v.tm {
            Some(t) => Some(t as u32),
            None => None,
        },
        pt: match v.pt {
            Some(t) => Some(t as u32),
            None => None,
        },
    }
}

/// A portal is the one its entry stands for.
pub open spec fn portal_rel() -> spec_fn(FieldPortalRecord, FieldPortal) -> bool {
    |v: FieldPortalRecord, p: FieldPortal| p == portal_of(v)
}

/// A life is the one its entry stands for.
pub open spec fn life_rel() -> spec_fn(FieldLifeValue, FieldLife) -> bool {
    |v: FieldLifeValue, l: FieldLife| field_life_of(v) == Ok::<FieldLife, FieldDataError>(l)
}

/// Whether a reactor is the one its entry stands for: its position and id,
/// its time cut to 32 bits, and its name.
pub open spec fn reactor_matches(r: FieldReactor, v: FieldReactorValue) -> bool {
    &&& r.pos == entry_pos(v.x.unwrap(), v.y.unwrap())
    &&& r.id == v.id.unwrap().u32_value().unwrap()
    &&& r.time == (match v.reactor_time {
        Some(t) => Some(t as u32),
        None => None,
    })
    &&& v.name is None ==> r.name is None
    &&& v.name matches Some(n) ==> (r.name matches Some(m) && m@ == n@)
}

/// A reactor is the one its entry stands for.
pub open spec fn reactor_rel() -> spec_fn(FieldReactorValue, FieldReactor) -> bool {
    |v: FieldReactorValue, x: FieldReactor| reactor_matches(x, v)
}

/// Whether the lives of a field read: their keys as ids, their types as a
/// mob or an npc.
pub open spec fn lives_fit(v: FieldRecord) -> bool {
    &&& keys_fit(v.life@, ENTRY_ID_MAX as int)
    &&& forall|k: String| #[trigger] v.life@.contains_key(k) ==> field_life_of(v.life@[k]) is Ok
}

/// Whether reading a field cannot fail on a missing value: its portals have
/// positions once its footholds read; its lives can be read once its
/// portals' keys read too; and its reactors once its lives read too.
pub open spec fn field_readable(v: FieldRecord) -> bool {
    (v.info is Some && footholds_fit(v.foothold@)) ==> {
        &&& forall|k: String| #[trigger] v.portal@.contains_key(k) ==> portal_readable(v.portal@[k])
        &&& keys_fit(v.portal@, PORTAL_ID_MAX as int) ==> {
            &&& forall|k: String| #[trigger] v.life@.contains_key(k) ==> life_readable(v.life@[k])
            &&& lives_fit(v) ==> forall|k: String|
                #[trigger] v.reactor@.contains_key(k) ==> reactor_readable(v.reactor@[k])
        }
    }
}

/// Whether a field reads: it has its info, and each key and life reads.
pub open spec fn field_ok(v: FieldRecord) -> bool {
    &&& v.info is Some
    &&& footholds_fit(v.foothold@)
    &&& keys_fit(v.portal@, PORTAL_ID_MAX as int)
    &&& lives_fit(v)
    &&& keys_fit(v.reactor@, ENTRY_ID_MAX as int)
}

/// Whether `e` is an error that reading the field `v` may give: the first
/// of its parts that does not read decides; among its lives, a key that
/// does not read and a life of unknown type may each come first.
pub open spec fn field_error_possible(v: FieldRecord, e: FieldDataError) -> bool {
    if v.info is None {
        e == FieldDataError::NoInfo
    } else if !footholds_fit(v.foothold@) || !keys_fit(v.portal@, PORTAL_ID_MAX as int) {
        e == FieldDataError::BadKey
    } else if !lives_fit(v) {
        ||| (e == FieldDataError::BadKey && !keys_fit(v.life@, ENTRY_ID_MAX as int))
        ||| (e == FieldDataError::UnknownLifeType && exists|k: String|
            #[trigger] v.life@.contains_key(k) && field_life_of(v.life@[k]) is Err)
    } else {
        e == FieldDataError::BadKey
    }
}

/// The bounds of a field: a missing bound is zero, each cut to 16 bits.
pub open spec fn field_rect_of(i: FieldInfoRecord) -> FieldRect {
    FieldRect {
        min: entry_pos(i.vr_left.num_value().unwrap(), i.vr_bottom.num_value().unwrap()),
        max: entry_pos(i.vr_right.num_value().unwrap(), i.vr_top.num_value().unwrap()),
    }
}

/// A map id cut to 32 bits.
pub open spec fn field_id_of(v: Option<i64>) -> Option<u32> {
    match v {
        Some(f) => Some(f as u32),
        None => None,
    }
}

/// Whether `f` is the field the entry `v` stands for.
pub open spec fn field_of(f: Field, v: FieldRecord) -> bool {
    let i = v.info.unwrap();
    &&& f.cloud == i.cloud.bool_of()
    &&& f.scroll_disable == i.scroll_disable.bool_of()
    &&& f.no_regen == i.no_regen_map.bool_of()
    &&& f.fly == i.fly.bool_of()
    &&& f.zakum_hack == i.zakum2_hack.bool_of()
    &&& f.return_field == field_id_of(i.return_map)
    &&& f.forced_return_field == field_id_of(i.forced_return)
    &&& f.rect == field_rect_of(i)
    &&& keyed_by(f.portals@, v.portal@, portal_rel())
    &&& keyed_by(f.life@, v.life@, life_rel())
    &&& keyed_by(f.footholds@, v.foothold@, fh_layer_rel())
    &&& keyed_by(f.reactors@, v.reactor@, reactor_rel())
}

/// Whether every life of a field is of a known type; an error for one that
/// is not.
fn check_lives(m: &HashMap<String, FieldLifeValue>) -> (r: Result<(), FieldDataError>)
    requires
        forall|k: String| #[trigger] m@.contains_key(k) ==> life_readable(m@[k]),
    ensures
        r is Ok <==> forall|k: String| #[trigger] m@.contains_key(k) ==> field_life_of(m@[k]) is Ok,
        r matches Err(e) ==> e == FieldDataError::UnknownLifeType && exists|k: String|
            #[trigger] m@.contains_key(k) && field_life_of(m@[k]) is Err,
{
    let pairs = map_pairs(m);
    let mut i: usize = 0;
    while i < pairs.len()
        invariant
            i <= pairs@.len(),
            pairs@.len() == m@.len(),
            forall|j: int|
                0 <= j < pairs@.len() ==> m@.contains_key(*#[trigger] pairs@[j].0) && *pairs@[j].1
                    == m@[*pairs@[j].0],
            forall|k: String| #[trigger] m@.contains_key(k) ==> life_readable(m@[k]),
            forall|j: int| 0 <= j < i ==> field_life_of(*(#[trigger] pairs@[j]).1) is Ok,
        decreases pairs@.len() - i,
    {
        assert(m@.contains_key(*pairs@[i as int].0));
        match field_life(pairs[i].1) {
            Ok(_) => {},
            Err(e) => {
                return Err(e);
            },
        }
        i = i + 1;
    }
    proof {
        let ks = pairs@.map_values(|p: (&String, &FieldLifeValue)| *p.0);
        assert(ks.no_duplicates()) by {
            assert forall|a: int, b: int| 0 <= a < ks.len() && 0 <= b < ks.len() && a != b implies ks[a]
                != ks[b] by {
                if a < b {
                    assert(*pairs@[a].0 != *pairs@[b].0);
                } else {
                    assert(*pairs@[b].0 != *pairs@[a].0);
                }
            }
        }
        assert(forall|j: int| 0 <= j < ks.len() ==> m@.contains_key(#[trigger] ks[j]));
        assert(walk_of(ks, m@));
        vstd::std_specs::hash::axiom_hashmap_view_finite_dom(*m);
        lemma_walk_covers(ks, m@);
        assert forall|k: String| #[trigger] m@.contains_key(k) implies field_life_of(m@[k]) is Ok by {
            assert(ks.contains(k));
            let j = choose|j: int| 0 <= j < ks.len() && ks[j] == k;
            assert(field_life_of(*pairs@[j].1) is Ok);
        }
    }
    Ok(())
}

/// The life of an entry known to be of a known type.
fn known_life(v: &FieldLifeValue) -> (r: FieldLife)
    requires
        life_readable(*v),
        field_life_of(*v) is Ok,
    ensures
        field_life_of(*v) == Ok::<FieldLife, FieldDataError>(r),
{
    field_life(v).unwrap()
}

/// The lives of a field, keyed by id; an error for a life of unknown type.
fn field_lives(m: &HashMap<String, FieldLifeValue>) -> (r: Result<BTreeMap<usize, FieldLife>, FieldDataError>)
    requires
        keys_fit(m@, ENTRY_ID_MAX as int),
        forall|k: String| #[trigger] m@.contains_key(k) ==> life_readable(m@[k]),
    ensures
        r is Ok <==> forall|k: String| #[trigger] m@.contains_key(k) ==> field_life_of(m@[k]) is Ok,
        r matches Ok(l) ==> keyed_by(l@, m@, life_rel()),
        r matches Err(e) ==> e == FieldDataError::UnknownLifeType && exists|k: String|
            #[trigger] m@.contains_key(k) && field_life_of(m@[k]) is Err,
{
    match check_lives(m) {
        Ok(()) => {},
        Err(e) => {
            return Err(e);
        },
    }
    proof {
        lemma_keys_index(m@, ENTRY_ID_MAX as int);
    }
    let out = map_to_btree_with(m, known_life);
    proof {
        lemma_keyed(out@, m@, known_life, life_rel());
    }
    Ok(out)
}

/// A field, read from its entry; an error where it has no info, where a key
/// of its footholds, portals, lives or reactors does not read as an id, or
/// where a life is of an unknown type. The tree of its footholds is not
/// built here.
pub fn field(value: &FieldRecord) -> (r: Result<Field, FieldDataError>)
    requires
        field_readable(*value),
    ensures
        r is Ok <==> field_ok(*value),
        r matches Err(e) ==> field_error_possible(*value, e),
        r matches Ok(f) ==> field_of(f, *value),
{
    let info = match &value.info {
        Some(i) => i,
        None => {
            return Err(FieldDataError::NoInfo);
        },
    };
    if !check_footholds(&value.foothold) {
        return Err(FieldDataError::BadKey);
    }
    let footholds = field_footholds(&value.foothold);
    let rect = FieldRect {
        min: Vec2 { x: info.vr_left.into_num() as i16, y: info.vr_bottom.into_num() as i16 },
        max: Vec2 { x: info.vr_right.into_num() as i16, y: info.vr_top.into_num() as i16 },
    };
    if !check_keys(&value.portal, PORTAL_ID_MAX) {
        return Err(FieldDataError::BadKey);
    }
    proof {
        lemma_keys_index(value.portal@, PORTAL_ID_MAX as int);
    }
    let portals = map_to_btree_with(&value.portal, field_portal);
    proof {
        lemma_keyed(portals@, value.portal@, field_portal, portal_rel());
    }
    if !check_keys(&value.life, ENTRY_ID_MAX) {
        return Err(FieldDataError::BadKey);
    }
    let life = match field_lives(&value.life) {
        Ok(l) => l,
        Err(e) => {
            return Err(e);
        },
    };
    if !check_keys(&value.reactor, ENTRY_ID_MAX) {
        return Err(FieldDataError::BadKey);
    }
    proof {
        lemma_keys_index(value.reactor@, ENTRY_ID_MAX as int);
    }
    let reactors = map_to_btree_with(&value.reactor, field_reactor);
    proof {
        lemma_keyed(reactors@, value.reactor@, field_reactor, reactor_rel());
    }
    Ok(Field {
        cloud: map_bool(&info.cloud),
        scroll_disable: map_bool(&info.scroll_disable),
        no_regen: map_bool(&info.no_regen_map),
        fly: map_bool(&info.fly),
        zakum_hack: map_bool(&info.zakum2_hack),
        return_field: match info.return_map {
            Some(f) => Some(f as u32),
            None => None,
        },
        forced_return_field: match info.forced_return {
            Some(f) => Some(f as u32),
            None => None,
        },
        rect,
        portals,
        life,
        footholds,
        reactors,
    })
}

/// A portal read from an entry sits where the entry says, carries the
/// entry's own name, target portal, target map and return map, and the
/// entry's texts and flags, each under the same name.
pub proof fn lemma_portal_fields(r: FieldPortal, v: FieldPortalRecord)
    requires
        portal_readable(v),
        r == portal_of(v),
    ensures
        r.pos.x == v.x.unwrap() as i16,
        r.pos.y == v.y.unwrap() as i16,
        r.pn == v.pn,
        r.tn == v.tn,
        v.tm matches Some(t) ==> r.tm == Some(t as u32),
        v.tm is None ==> r.tm is None,
        v.pt matches Some(t) ==> r.pt == Some(t as u32),
        v.pt is None ==> r.pt is None,
        r.script == v.script,
        r.reactor_name == v.reactor_name,
        r.session_value == v.session_value,
        r.session_value_key == v.session_value_key,
        v.only_once matches Some(b) ==> r.only_once == bool_value(b),
        v.only_once is None ==> !r.only_once,
        v.hide_tooltip matches Some(b) ==> r.hide_tooltip == bool_value(b),
        v.hide_tooltip is None ==> !r.hide_tooltip,
        v.delay matches Some(b) ==> r.has_delay == bool_value(b),
        v.delay is None ==> !r.has_delay,
        v.teleport matches Some(b) ==> r.teleport == bool_value(b),
        v.teleport is None ==> !r.teleport,
{
}

/// A field's flags are its info entry's flags of the same name, unset where
/// missing; its return maps are the entry's; its bounds run from the
/// entry's left and bottom to its right and top, each zero where missing.
pub proof fn lemma_field_info_fields(f: Field, v: FieldRecord, i: FieldInfoRecord)
    requires
        v.info == Some(i),
        field_of(f, v),
    ensures
        i.cloud matches Some(b) ==> f.cloud == bool_value(b),
        i.cloud is None ==> !f.cloud,
        i.scroll_disable matches Some(b) ==> f.scroll_disable == bool_value(b),
        i.scroll_disable is None ==> !f.scroll_disable,
        i.no_regen_map matches Some(b) ==> f.no_regen == bool_value(b),
        i.no_regen_map is None ==> !f.no_regen,
        i.fly matches Some(b) ==> f.fly == bool_value(b),
        i.fly is None ==> !f.fly,
        i.zakum2_hack matches Some(b) ==> f.zakum_hack == bool_value(b),
        i.zakum2_hack is None ==> !f.zakum_hack,
        i.return_map matches Some(m) ==> f.return_field == Some(m as u32),
        i.return_map is None ==> f.return_field is None,
        i.forced_return matches Some(m) ==> f.forced_return_field == Some(m as u32),
        i.forced_return is None ==> f.forced_return_field is None,
        f.rect.min.x == (match i.vr_left {
            Some(n) => n,
            None => 0,
        }) as i16,
        f.rect.min.y == (match i.vr_bottom {
            Some(n) => n,
            None => 0,
        }) as i16,
        f.rect.max.x == (match i.vr_right {
            Some(n) => n,
            None => 0,
        }) as i16,
        f.rect.max.y == (match i.vr_top {
            Some(n) => n,
            None => 0,
        }) as i16,
        forall|k: String| #[trigger] v.portal@.contains_key(k) ==> f.portals@.contains_key(
            key_index(k).unwrap() as usize,
        ),
        forall|k: String| #[trigger] v.reactor@.contains_key(k) ==> f.reactors@.contains_key(
            key_index(k).unwrap() as usize,
        ),
        forall|k: String| #[trigger] v.life@.contains_key(k) ==> f.life@.contains_key(
            key_index(k).unwrap() as usize,
        ),
{
}

} // verus!
