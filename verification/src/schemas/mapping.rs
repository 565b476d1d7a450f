//! How the values of the data files are read as the game's own values.
use vstd::prelude::*;
use vstd::std_specs::convert::FromSpecImpl;

use std::collections::{BTreeMap, HashMap};
use std::time::Duration;

use crate::schemas::records::Vec2;
use crate::schemas::scalar::{Bool, SkillExpr, StrOrInt, StrOrNum};
use crate::schemas::text::{
    lemma_parse_unsigned_bounds, parse_i64, parse_i64_spec, parse_unsigned, parse_unsigned_spec,
};

verus! {

/// Whether a text is exactly `1`.
pub open spec fn is_one(s: Seq<char>) -> bool {
    s == seq!['1']
}

/// Whether a text is exactly `1`.
fn text_is_one(s: &str) -> (r: bool)
    ensures
        r == is_one(s@),
{
    let r = s.unicode_len() == 1 && s.get_char(0) == '1';
    assert(r ==> s@ =~= seq!['1']);
    r
}

/// The truth a flag of the data files stands for: the text `1`, or a
/// number other than zero.
pub open spec fn bool_value(v: Bool) -> bool {
    match v {
        Bool::Str(s) => is_one(s@),
        Bool::Int(i) => i != 0,
    }
}

impl Bool {
    /// The truth the flag stands for.
    pub fn truth(&self) -> (r: bool)
        ensures
            r == bool_value(*self),
    {
        match self {
            Bool::Str(s) => text_is_one(s.as_str()),
            Bool::Int(i) => *i != 0,
        }
    }
}

impl From<Bool> for bool {
    fn from(v: Bool) -> (r: bool) {
        v.truth()
    }
}

impl FromSpecImpl<Bool> for bool {
    open spec fn obeys_from_spec() -> bool {
        true
    }

    open spec fn from_spec(v: Bool) -> bool {
        bool_value(v)
    }
}

impl<'a> From<&'a Bool> for bool {
    fn from(v: &'a Bool) -> (r: bool) {
        v.truth()
    }
}

impl<'a> FromSpecImpl<&'a Bool> for bool {
    open spec fn obeys_from_spec() -> bool {
        true
    }

    open spec fn from_spec(v: &'a Bool) -> bool {
        bool_value(*v)
    }
}

impl StrOrNum {
    /// The value as a signed 64-bit number; `None` where its text does not
    /// read as one (a fraction, or a number out of range).
    pub open spec fn i64_value(&self) -> Option<i64> {
        match self {
            StrOrNum::NumStr(s) => parse_i64_spec(s@),
            StrOrNum::Int(v) => Some(*v),
        }
    }

    /// The value as a signed 64-bit number.
    pub fn to_i64(&self) -> (r: i64)
        requires
            self.i64_value() is Some,
        ensures
            r == self.i64_value().unwrap(),
    {
        match self {
            StrOrNum::NumStr(s) => parse_i64(s.as_str()).unwrap(),
            StrOrNum::Int(v) => *v,
        }
    }

    /// The value as an unsigned 32-bit number: the text read as one, or the
    /// number cut to its low 32 bits; `None` where the text does not read.
    pub open spec fn u32_value(&self) -> Option<u32> {
        match self {
            StrOrNum::NumStr(s) => match parse_unsigned_spec(s@, u32::MAX as int) {
                Some(v) => Some(v as u32),
                None => None,
            },
            StrOrNum::Int(v) => Some(*v as u32),
        }
    }

    /// The value as an unsigned 32-bit number.
    pub fn to_u32(&self) -> (r: u32)
        requires
            self.u32_value() is Some,
        ensures
            r == self.u32_value().unwrap(),
    {
        match self {
            StrOrNum::NumStr(s) => {
                let v = parse_unsigned(s.as_str(), 0xffff_ffff).unwrap();
                proof {
                    lemma_parse_unsigned_bounds(s@, u32::MAX as int);
                }
                v as u32
            },
            StrOrNum::Int(v) => *v as u32,
        }
    }
}

impl<'a> From<&'a i64> for SkillExpr {
    fn from(value: &'a i64) -> (r: SkillExpr) {
        SkillExpr::Int(*value)
    }
}

impl<'a> FromSpecImpl<&'a i64> for SkillExpr {
    open spec fn obeys_from_spec() -> bool {
        true
    }

    open spec fn from_spec(value: &'a i64) -> SkillExpr {
        SkillExpr::Int(*value)
    }
}

impl<'a> From<&'a i64> for StrOrNum {
    fn from(value: &'a i64) -> (r: StrOrNum) {
        StrOrNum::Int(*value)
    }
}

impl<'a> FromSpecImpl<&'a i64> for StrOrNum {
    open spec fn obeys_from_spec() -> bool {
        true
    }

    open spec fn from_spec(value: &'a i64) -> StrOrNum {
        StrOrNum::Int(*value)
    }
}

impl SkillExpr {
    /// The skill value of a number of the data files.
    pub fn from_str_or_num(value: &StrOrNum) -> (r: SkillExpr)
        requires
            value.i64_value() is Some,
        ensures
            r == SkillExpr::Int(value.i64_value().unwrap()),
    {
        SkillExpr::Int(value.to_i64())
    }
}

/// A value of the data files read as a number, where it is missing as zero.
pub trait IntoNum {
    /// The number; `None` where the value does not read as one.
    spec fn num_value(&self) -> Option<i64>;

    /// The number.
    fn into_num(&self) -> (r: i64)
        requires
            self.num_value() is Some,
        ensures
            r == self.num_value().unwrap(),
    ;
}

impl IntoNum for i64 {
    open spec fn num_value(&self) -> Option<i64> {
        Some(*self)
    }

    fn into_num(&self) -> (r: i64) {
        *self
    }
}

impl IntoNum for Option<StrOrNum> {
    open spec fn num_value(&self) -> Option<i64> {
        match self {
            Some(v) => v.i64_value(),
            None => Some(0),
        }
    }

    fn into_num(&self) -> (r: i64) {
        match self {
            Some(v) => v.to_i64(),
            None => 0,
        }
    }
}

impl IntoNum for Option<StrOrInt> {
    open spec fn num_value(&self) -> Option<i64> {
        match self {
            Some(v) => v.num_value(),
            None => Some(0),
        }
    }

    fn into_num(&self) -> (r: i64) {
        match self {
            Some(v) => v.into_num(),
            None => 0,
        }
    }
}

impl IntoNum for StrOrInt {
    open spec fn num_value(&self) -> Option<i64> {
        match self {
            StrOrInt::Variant0(s) => parse_i64_spec(s@),
            StrOrInt::Variant1(v) => Some(*v),
        }
    }

    fn into_num(&self) -> (r: i64) {
        match self {
            StrOrInt::Variant0(s) => parse_i64(s.as_str()).unwrap(),
            StrOrInt::Variant1(v) => *v,
        }
    }
}

impl IntoNum for StrOrNum {
    open spec fn num_value(&self) -> Option<i64> {
        self.i64_value()
    }

    fn into_num(&self) -> (r: i64) {
        self.to_i64()
    }
}

impl IntoNum for Option<i64> {
    open spec fn num_value(&self) -> Option<i64> {
        match self {
            Some(v) => Some(*v),
            None => Some(0),
        }
    }

    fn into_num(&self) -> (r: i64) {
        match self {
            Some(v) => *v,
            None => 0,
        }
    }
}

/// A value of the data files read as a flag, where it is missing as unset.
pub trait IntoBool {
    /// The flag.
    spec fn bool_of(&self) -> bool;

    /// The flag.
    fn into_bool(&self) -> (r: bool)
        ensures
            r == self.bool_of(),
    ;
}

impl IntoBool for Option<Bool> {
    open spec fn bool_of(&self) -> bool {
        match self {
            Some(v) => bool_value(*v),
            None => false,
        }
    }

    fn into_bool(&self) -> (r: bool) {
        match self {
            Some(v) => v.truth(),
            None => false,
        }
    }
}

/// A flag of the data files, unset where it is missing.
pub fn map_bool(value: &Option<Bool>) -> (r: bool)
    ensures
        r == value.bool_of(),
{
    value.into_bool()
}

/// A position of the game's data, in pixels.
#[derive(Clone, Copy, Debug, PartialEq, Eq, Structural)]
pub struct MetaVec2 {
    pub x: i32,
    pub y: i32,
}

/// A position of the data files as a position of the game's data: each
/// coordinate cut to its low 32 bits.
pub open spec fn meta_vec2(v: Vec2) -> MetaVec2 {
    MetaVec2 { x: v.x as i32, y: v.y as i32 }
}

impl From<Vec2> for MetaVec2 {
    fn from(val: Vec2) -> (r: MetaVec2) {
        MetaVec2 { x: val.x as i32, y: val.y as i32 }
    }
}

impl FromSpecImpl<Vec2> for MetaVec2 {
    open spec fn obeys_from_spec() -> bool {
        true
    }

    open spec fn from_spec(val: Vec2) -> MetaVec2 {
        meta_vec2(val)
    }
}

/// A rectangle of the data files: its left-top and right-bottom corners.
#[derive(Clone, Debug)]
pub struct SchemaRect(pub Vec2, pub Vec2);

/// A rectangle of the game's data.
#[derive(Clone, Copy, Debug, PartialEq, Eq, Structural)]
pub struct MetaRect {
    pub lt: MetaVec2,
    pub rb: MetaVec2,
}

impl From<SchemaRect> for MetaRect {
    fn from(val: SchemaRect) -> (r: MetaRect) {
        MetaRect { lt: MetaVec2::from(val.0), rb: MetaVec2::from(val.1) }
    }
}

impl FromSpecImpl<SchemaRect> for MetaRect {
    open spec fn obeys_from_spec() -> bool {
        true
    }

    open spec fn from_spec(val: SchemaRect) -> MetaRect {
        MetaRect { lt: meta_vec2(val.0), rb: meta_vec2(val.1) }
    }
}

/// A circle of the data files: its centre and radius.
#[derive(Clone, Debug)]
pub struct SchemaCirc(pub Vec2, pub u32);

/// A circle of the game's data.
#[derive(Clone, Copy, Debug, PartialEq, Eq, Structural)]
pub struct MetaCirc {
    pub sp: MetaVec2,
    pub radius: u32,
}

impl From<SchemaCirc> for MetaCirc {
    fn from(val: SchemaCirc) -> (r: MetaCirc) {
        MetaCirc { sp: MetaVec2::from(val.0), radius: val.1 }
    }
}

impl FromSpecImpl<SchemaCirc> for MetaCirc {
    open spec fn obeys_from_spec() -> bool {
        true
    }

    open spec fn from_spec(val: SchemaCirc) -> MetaCirc {
        MetaCirc { sp: meta_vec2(val.0), radius: val.1 }
    }
}

/// A range that a quest asks for: both bounds (inclusive), only a lower or
/// an upper one, or none.
#[derive(Clone, Copy, Debug, PartialEq, Eq, Structural)]
pub enum QuestRange<T> {
    Range(T, T),
    Min(T),
    Max(T),
    NoBound,
}

/// The quest range of optional bounds, each cut to its low 8 bits.
pub fn map_range(min: Option<i64>, max: Option<i64>) -> (r: QuestRange<u8>)
    ensures
        r == (match (min, max) {
            (Some(a), Some(b)) => QuestRange::Range(a as u8, b as u8),
            (Some(a), None) => QuestRange::Min(a as u8),
            (None, Some(b)) => QuestRange::Max(b as u8),
            (None, None) => QuestRange::NoBound,
        }),
{
    match (min, max) {
        (Some(min), Some(max)) => QuestRange::Range(min as u8, max as u8),
        (Some(min), None) => QuestRange::Min(min as u8),
        (None, Some(max)) => QuestRange::Max(max as u8),
        (None, None) => QuestRange::NoBound,
    }
}

/// The quest range of optional counts, each taken as a `usize`.
pub fn map_range_len(min: Option<i64>, max: Option<i64>) -> (r: QuestRange<usize>)
    ensures
        r == (match (min, max) {
            (Some(a), Some(b)) => QuestRange::Range(a as usize, b as usize),
            (Some(a), None) => QuestRange::Min(a as usize),
            (None, Some(b)) => QuestRange::Max(b as usize),
            (None, None) => QuestRange::NoBound,
        }),
{
    match (min, max) {
        (Some(min), Some(max)) => QuestRange::Range(min as usize, max as usize),
        (Some(min), None) => QuestRange::Min(min as usize),
        (None, Some(max)) => QuestRange::Max(max as usize),
        (None, None) => QuestRange::NoBound,
    }
}

/// The duration of a number of whole seconds, as
/// `std::time::Duration::from_secs` makes it.
pub uninterp spec fn duration_of_secs(secs: u64) -> Duration;

/// Calls `std::time::Duration::from_secs`.
///
/// Trusted: the result is named as the duration of the given seconds; the
/// contract says no more of it.
#[verifier::external_body]
pub(crate) fn duration_from_secs(secs: u64) -> (r: Duration)
    ensures
        r == duration_of_secs(secs),
{
    Duration::from_secs(secs)
}

/// The duration of a number of milliseconds, as
/// `std::time::Duration::from_millis` makes it.
pub uninterp spec fn duration_of_millis(millis: u64) -> Duration;

/// Calls `std::time::Duration::from_millis`.
///
/// Trusted: the result is named as the duration of the given milliseconds;
/// the contract says no more of it.
#[verifier::external_body]
pub(crate) fn duration_from_millis(millis: u64) -> (r: Duration)
    ensures
        r == duration_of_millis(millis),
{
    Duration::from_millis(millis)
}

/// The repeat interval of a quest given in minutes: none for zero.
pub fn map_interval(v: i64) -> (r: Option<Duration>)
    requires
        v == 0 || (v as u64) * 60 <= u64::MAX,
    ensures
        v == 0 ==> r is None,
        v != 0 ==> r == Some(duration_of_secs(((v as u64) * 60) as u64)),
{
    if v == 0 {
        None
    } else {
        Some(duration_from_secs(v as u64 * 60))
    }
}

/// The entries of a map keyed by text, in the order the map's walk gives
/// them.
///
/// Trusted: calls `HashMap::iter`. The contract says what its documentation
/// gives: every entry once, in some order; it does not say which order.
#[verifier::external_body]
pub(crate) fn map_pairs<'a, T>(m: &'a HashMap<String, T>) -> (r: Vec<(&'a String, &'a T)>)
    ensures
        r@.len() == m@.len(),
        forall|i: int|
            0 <= i < r@.len() ==> m@.contains_key(*#[trigger] r@[i].0) && *r@[i].1 == m@[*r@[i].0],
        forall|i: int, j: int| 0 <= i < j < r@.len() ==> *r@[i].0 != *r@[j].0,
{
    m.iter().collect()
}

/// The index a key of a list map stands for: the key read as a `usize`.
pub open spec fn key_index(k: String) -> Option<int> {
    parse_unsigned_spec(k@, usize::MAX as int)
}

/// Whether `ks` lists keys of `m`, none twice, that give the entries of
/// `r`: the i-th key reads as the i-th index and maps to a value whose clone
/// is the i-th value.
pub open spec fn list_of_keys<T: Clone>(
    ks: Seq<String>,
    m: Map<String, T>,
    r: Seq<(usize, T)>,
) -> bool {
    &&& ks.len() == r.len()
    &&& ks.no_duplicates()
    &&& forall|i: int|
        0 <= i < ks.len() ==> {
            &&& m.contains_key(#[trigger] ks[i])
            &&& key_index(ks[i]) == Some(r[i].0 as int)
            &&& cloned(m[ks[i]], r[i].1)
        }
}

/// Whether the entries of a list are ordered by index.
pub open spec fn sorted_by_index<T>(r: Seq<(usize, T)>) -> bool {
    forall|i: int, j: int| 0 <= i <= j < r.len() ==> r[i].0 <= r[j].0
}

/// Whether `ks` lists keys of `m`, none twice, that give the entries of
/// `r`: the i-th key reads as the i-th index and maps to a value that `f`
/// turns into the i-th value.
pub open spec fn list_with_keys<T, U, F: Fn(&T) -> U>(
    ks: Seq<String>,
    m: Map<String, T>,
    f: F,
    r: Seq<(usize, U)>,
) -> bool {
    &&& ks.len() == r.len()
    &&& ks.no_duplicates()
    &&& forall|i: int|
        0 <= i < ks.len() ==> {
            &&& m.contains_key(#[trigger] ks[i])
            &&& key_index(ks[i]) == Some(r[i].0 as int)
            &&& f.ensures((&m[ks[i]],), r[i].1)
        }
}

/// The entries of a map whose keys are indexes, each value given to `f`, as
/// a list ordered by index; entries of equal index keep the order of the
/// map's walk.
pub fn map_to_list_with<T, U, F: Fn(&T) -> U>(v: &HashMap<String, T>, f: F) -> (r: Vec<(usize, U)>)
    requires
        forall|k: String| #[trigger] v@.contains_key(k) ==> key_index(k) is Some,
        forall|k: String| #[trigger] v@.contains_key(k) ==> f.requires((&v@[k],)),
    ensures
        r@.len() == v@.len(),
        sorted_by_index(r@),
        exists|ks: Seq<String>| list_with_keys(ks, v@, f, r@),
{
    let pairs = map_pairs(v);
    let total = pairs.len();
    let mut out: Vec<(usize, U)> = Vec::new();
    let ghost mut ks: Seq<String> = Seq::empty();
    let ghost mut pos: Seq<int> = Seq::empty();
    let mut n: usize = 0;
    while n < total
        invariant
            total == pairs@.len(),
            pairs@.len() == v@.len(),
            forall|i: int|
                0 <= i < pairs@.len() ==> v@.contains_key(*#[trigger] pairs@[i].0) && *pairs@[i].1
                    == v@[*pairs@[i].0],
            forall|i: int, j: int| 0 <= i < j < pairs@.len() ==> *pairs@[i].0 != *pairs@[j].0,
            forall|k: String| #[trigger] v@.contains_key(k) ==> key_index(k) is Some,
            forall|k: String| #[trigger] v@.contains_key(k) ==> f.requires((&v@[k],)),
            n <= total,
            out@.len() == n,
            pos.len() == n,
            sorted_by_index(out@),
            list_with_keys(ks, v@, f, out@),
            forall|i: int| 0 <= i < n ==> 0 <= #[trigger] pos[i] < n && ks[i] == *pairs@[pos[i]].0,
        decreases total - n,
    {
        let key_text = pairs[n].0;
        let val = f(pairs[n].1);
        assert(v@.contains_key(*key_text));
        proof {
            lemma_parse_unsigned_bounds(key_text@, usize::MAX as int);
        }
        let key = parse_unsigned(key_text.as_str(), usize::MAX as u64).unwrap() as usize;
        let mut p: usize = 0;
        while p < out.len() && out[p].0 <= key
            invariant
                p <= out@.len(),
                forall|i: int| 0 <= i < p ==> out@[i].0 <= key,
            decreases out@.len() - p,
        {
            p = p + 1;
        }
        assert(forall|i: int| p <= i < out@.len() ==> out@[i].0 > key) by {
            if p < out@.len() {
                assert(out@[p as int].0 > key);
            }
        }
        let ghost old_out = out@;
        out.insert(p, (key, val));
        proof {
            let old_ks = ks;
            let old_pos = pos;
            old_ks.insert_ensures(p as int, *key_text);
            old_pos.insert_ensures(p as int, n as int);
            old_out.insert_ensures(p as int, (key, val));
            assert forall|i: int| 0 <= i < old_ks.len() implies old_ks[i] != *key_text by {
                assert(old_pos[i] < n);
            }
            ks = old_ks.insert(p as int, *key_text);
            pos = old_pos.insert(p as int, n as int);
            assert forall|i: int, j: int| 0 <= i < j < ks.len() implies ks[i] != ks[j] by {
                if i < p && j < p {
                } else if i < p && j == p {
                } else if i < p && j > p {
                    assert(ks[j] == old_ks[j - 1]);
                } else if i == p {
                    assert(ks[j] == old_ks[j - 1]);
                } else {
                    assert(ks[i] == old_ks[i - 1]);
                    assert(ks[j] == old_ks[j - 1]);
                }
            }
            assert forall|i: int| 0 <= i < ks.len() implies {
                &&& v@.contains_key(#[trigger] ks[i])
                &&& key_index(ks[i]) == Some(out@[i].0 as int)
                &&& f.ensures((&v@[ks[i]],), out@[i].1)
            } by {
                if i < p {
                } else if i == p {
                } else {
                    assert(ks[i] == old_ks[i - 1]);
                    assert(out@[i] == old_out[i - 1]);
                }
            }
            assert forall|i: int, j: int| 0 <= i <= j < out@.len() implies out@[i].0
                <= out@[j].0 by {
                if j < p {
                } else if j == p {
                    if i < p {
                    }
                } else if i < p {
                    assert(out@[j] == old_out[j - 1]);
                } else if i == p {
                    assert(out@[j] == old_out[j - 1]);
                } else {
                    assert(out@[i] == old_out[i - 1]);
                    assert(out@[j] == old_out[j - 1]);
                }
            }
            assert forall|i: int| 0 <= i < n + 1 implies 0 <= #[trigger] pos[i] < n + 1 && ks[i]
                == *pairs@[pos[i]].0 by {
                if i > p {
                    assert(pos[i] == old_pos[i - 1]);
                    assert(ks[i] == old_ks[i - 1]);
                }
            }
        }
        n = n + 1;
    }
    assert(list_with_keys(ks, v@, f, out@));
    out
}

/// A clone of a value.
fn clone_of<T: Clone>(x: &T) -> (r: T)
    ensures
        cloned(*x, r),
{
    x.clone()
}

/// The entries of a map whose keys are indexes, as a list ordered by index;
/// entries of equal index keep the order of the map's walk.
pub fn map_to_list<T: Clone>(v: &HashMap<String, T>) -> (r: Vec<(usize, T)>)
    requires
        forall|k: String| #[trigger] v@.contains_key(k) ==> key_index(k) is Some,
    ensures
        r@.len() == v@.len(),
        sorted_by_index(r@),
        exists|ks: Seq<String>| list_of_keys(ks, v@, r@),
{
    let r = map_to_list_with(v, clone_of);
    proof {
        let ks = choose|ks: Seq<String>| list_with_keys(ks, v@, clone_of, r@);
        assert(list_of_keys(ks, v@, r@));
    }
    r
}

/// Whether the map `r`, keyed by index, holds the entries of `m`: an entry
/// for the index of each key of `m`, and no other; each entry's value is
/// what `f` gives for the value of some key of `m` that reads as its index.
pub open spec fn keyed_by_index<T, U, F: Fn(&T) -> U>(r: Map<usize, U>, m: Map<String, T>, f: F) -> bool {
    &&& forall|k: String| #[trigger] m.contains_key(k) ==> r.contains_key(key_index(k).unwrap() as usize)
    &&& forall|i: usize|
        #[trigger] r.contains_key(i) ==> exists|k: String|
            #[trigger] m.contains_key(k) && key_index(k) == Some(i as int) && f.ensures((&m[k],), r[i])
}

/// The entries of a map whose keys are indexes, each value given to `f`,
/// keyed by index: one entry for each index; of keys that read as the same
/// index, the one the map's walk gives last stays.
pub fn map_to_btree_with<T, U, F: Fn(&T) -> U>(v: &HashMap<String, T>, f: F) -> (r: BTreeMap<usize, U>)
    requires
        forall|k: String| #[trigger] v@.contains_key(k) ==> key_index(k) is Some,
        forall|k: String| #[trigger] v@.contains_key(k) ==> f.requires((&v@[k],)),
    ensures
        keyed_by_index(r@, v@, f),
{
    proof {
        crate::schemas::order::lemma_index_order();
    }
    let pairs = map_pairs(v);
    let total = pairs.len();
    let mut out: BTreeMap<usize, U> = BTreeMap::new();
    let mut n: usize = 0;
    while n < total
        invariant
            total == pairs@.len(),
            pairs@.len() == v@.len(),
            forall|i: int|
                0 <= i < pairs@.len() ==> v@.contains_key(*#[trigger] pairs@[i].0) && *pairs@[i].1
                    == v@[*pairs@[i].0],
            forall|i: int, j: int| 0 <= i < j < pairs@.len() ==> *pairs@[i].0 != *pairs@[j].0,
            forall|k: String| #[trigger] v@.contains_key(k) ==> key_index(k) is Some,
            forall|k: String| #[trigger] v@.contains_key(k) ==> f.requires((&v@[k],)),
            n <= total,
            forall|j: int|
                0 <= j < n ==> out@.contains_key(key_index(*#[trigger] pairs@[j].0).unwrap() as usize),
            forall|i: usize|
                #[trigger] out@.contains_key(i) ==> exists|j: int|
                    0 <= j < n && key_index(*#[trigger] pairs@[j].0) == Some(i as int) && f.ensures(
                        (&v@[*pairs@[j].0],),
                        out@[i],
                    ),
        decreases total - n,
    {
        let key_text = pairs[n].0;
        assert(v@.contains_key(*key_text));
        let val = f(pairs[n].1);
        proof {
            lemma_parse_unsigned_bounds(key_text@, usize::MAX as int);
        }
        let key = parse_unsigned(key_text.as_str(), usize::MAX as u64).unwrap() as usize;
        let ghost old_out = out@;
        out.insert(key, val);
        proof {
            assert forall|i: usize| #[trigger] out@.contains_key(i) implies exists|j: int|
                0 <= j < n + 1 && key_index(*#[trigger] pairs@[j].0) == Some(i as int) && f.ensures(
                    (&v@[*pairs@[j].0],),
                    out@[i],
                ) by {
                if i == key {
                    assert(key_index(*pairs@[n as int].0) == Some(i as int));
                } else {
                    assert(old_out.contains_key(i));
                    let j = choose|j: int|
                        0 <= j < n && key_index(*#[trigger] pairs@[j].0) == Some(i as int) && f.ensures(
                            (&v@[*pairs@[j].0],),
                            old_out[i],
                        );
                    assert(key_index(*pairs@[j].0) == Some(i as int));
                }
            }
        }
        n = n + 1;
    }
    proof {
        let ks = pairs@.map_values(|p: (&String, &T)| *p.0);
        assert(ks.no_duplicates()) by {
            assert forall|a: int, b: int| 0 <= a < ks.len() && 0 <= b < ks.len() && a != b implies ks[a]
                != ks[b] by {
                if a < b {
                    assert(*pairs@[a].0 != *pairs@[b].0);
                } else {
                    assert(*pairs@[b].0 != *pairs@[a].0);
                }
            }
        }
        assert(forall|j: int| 0 <= j < ks.len() ==> v@.contains_key(#[trigger] ks[j]));
        assert(crate::schemas::quest_req::walk_of(ks, v@));
        vstd::std_specs::hash::axiom_hashmap_view_finite_dom(*v);
        crate::schemas::quest_req::lemma_walk_covers(ks, v@);
        assert forall|k: String| #[trigger] v@.contains_key(k) implies out@.contains_key(
            key_index(k).unwrap() as usize,
        ) by {
            assert(ks.contains(k));
            let j = choose|j: int| 0 <= j < ks.len() && ks[j] == k;
            assert(out@.contains_key(key_index(*pairs@[j].0).unwrap() as usize));
        }
        assert forall|i: usize| #[trigger] out@.contains_key(i) implies exists|k: String|
            #[trigger] v@.contains_key(k) && key_index(k) == Some(i as int) && f.ensures(
                (&v@[k],),
                out@[i],
            ) by {
            let j = choose|j: int|
                0 <= j < total && key_index(*#[trigger] pairs@[j].0) == Some(i as int) && f.ensures(
                    (&v@[*pairs@[j].0],),
                    out@[i],
                );
            assert(v@.contains_key(*pairs@[j].0));
        }
    }
    out
}

/// Whether the map `r`, keyed by index, holds the entries of `m`: an entry
/// for the index of each key of `m` and no other, each value in relation
/// `rel` to the value of some key of `m` that reads as its index.
pub open spec fn keyed_by<T, U>(r: Map<usize, U>, m: Map<String, T>, rel: spec_fn(T, U) -> bool) -> bool {
    &&& forall|k: String| #[trigger] m.contains_key(k) ==> r.contains_key(key_index(k).unwrap() as usize)
    &&& forall|i: usize|
        #[trigger] r.contains_key(i) ==> exists|k: String|
            #[trigger] m.contains_key(k) && key_index(k) == Some(i as int) && rel(m[k], r[i])
}

/// A map built by a function whose results stand in relation `rel` to its
/// arguments holds its entries in that relation.
pub(crate) proof fn lemma_keyed<T, U, F: Fn(&T) -> U>(
    r: Map<usize, U>,
    m: Map<String, T>,
    f: F,
    rel: spec_fn(T, U) -> bool,
)
    requires
        keyed_by_index(r, m, f),
        forall|t: T, u: U| #[trigger] f.ensures((&t,), u) ==> rel(t, u),
    ensures
        keyed_by(r, m, rel),
{
    assert forall|i: usize| #[trigger] r.contains_key(i) implies exists|k: String|
        #[trigger] m.contains_key(k) && key_index(k) == Some(i as int) && rel(m[k], r[i]) by {
        let k = choose|k: String|
            #[trigger] m.contains_key(k) && key_index(k) == Some(i as int) && f.ensures((&m[k],), r[i]);
        assert(rel(m[k], r[i]));
    }
}

} // verus!
