//! The mobs, npcs, reactors and footholds of a field, read from the field
//! data.
use vstd::prelude::*;
use vstd::string::*;

use std::time::Duration;

use crate::ids::{FootholdId, MobId, NpcId, Vec2};
use crate::schemas::mapping::{duration_from_secs, duration_of_secs, map_bool, IntoBool};
use crate::schemas::records::{Fh, FieldLifeValue, FieldReactorValue};

verus! {

/// A mob placed on a field.
#[derive(Debug, Clone, Copy, PartialEq, Eq)]
pub struct FieldMob {
    pub id: MobId,
    pub pos: Vec2,
    pub fh: FootholdId,
    pub hide: bool,
    pub respawn_time: Option<Duration>,
    /// The range it moves in along x, both ends included.
    pub range_x: (i16, i16),
    pub flip: bool,
    pub cy: Option<i16>,
}

/// An npc placed on a field.
#[derive(Debug, Clone, Copy, PartialEq, Eq)]
pub struct FieldNpc {
    pub id: NpcId,
    pub pos: Vec2,
    pub fh: FootholdId,
    pub hide: bool,
    /// The range it moves in along x, both ends included.
    pub range_x: (i16, i16),
    pub flip: bool,
}

/// A life placed on a field.
#[derive(Debug, Clone, Copy, PartialEq, Eq)]
pub enum FieldLife {
    Mob(FieldMob),
    Npc(FieldNpc),
}

/// Why an entry of the field data could not be read.
#[derive(Debug, Clone, Copy, PartialEq, Eq, Structural)]
pub enum FieldDataError {
    /// The type of a life is neither `m` (mob) nor `n` (npc).
    UnknownLifeType,
    /// A field has no info entry.
    NoInfo,
    /// A key of a field's footholds, portals, lives or reactors does not
    /// read as an id.
    BadKey,
}

/// A foothold of a field.
#[derive(Debug, Clone, Copy, PartialEq, Eq)]
pub struct Foothold {
    pub pt1: Vec2,
    pub pt2: Vec2,
    pub next: FootholdId,
    pub prev: FootholdId,
    pub forbid_falldown: bool,
    pub cant_through: bool,
    pub force: Option<i32>,
    pub piece: Option<i32>,
}

/// A reactor placed on a field.
#[derive(Debug, Clone)]
pub struct FieldReactor {
    pub pos: Vec2,
    pub name: Option<String>,
    pub id: u32,
    pub time: Option<u32>,
}

/// Whether a life entry can be read: it has a position, a foothold, an id
/// that reads as a `u32` and a type, and for a mob or an npc the range it
/// moves in; a mob's respawn time, where not negative, fits in seconds.
pub open spec fn life_readable(v: FieldLifeValue) -> bool {
    &&& v.x is Some
    &&& v.y is Some
    &&& v.fh is Some
    &&& v.id matches Some(id) && id.u32_value() is Some
    &&& v.type_ is Some
    &&& (v.type_.unwrap()@ == seq!['m'] || v.type_.unwrap()@ == seq!['n']) ==> (v.rx0 is Some
        && v.rx1 is Some)
}

/// The position of an entry: its coordinates cut to 16 bits.
pub open spec fn entry_pos(x: i64, y: i64) -> Vec2 {
    Vec2 { x: x as i16, y: y as i16 }
}

/// The respawn time of a mob: its seconds where not negative.
pub open spec fn respawn_of(mob_time: Option<i64>) -> Option<Duration> {
    match mob_time {
        Some(t) => if t >= 0 {
            Some(duration_of_secs(t as u64))
        } else {
            None
        },
        None => None,
    }
}

/// The life a readable life entry stands for; `m` is a mob, `n` an npc,
/// any other type is refused.
pub open spec fn field_life_of(v: FieldLifeValue) -> Result<FieldLife, FieldDataError> {
    let pos = entry_pos(v.x.unwrap(), v.y.unwrap());
    let fh = v.fh.unwrap() as u16;
    let id = v.id.unwrap().u32_value().unwrap();
    let hide = v.hide.bool_of();
    let flip = match v.f {
        Some(f) => f == 1,
        None => false,
    };
    let range_x = (v.rx0.unwrap() as i16, v.rx1.unwrap() as i16);
    if v.type_.unwrap()@ == seq!['m'] {
        Ok(
            FieldLife::Mob(
                FieldMob {
                    id,
                    pos,
                    fh,
                    hide,
                    respawn_time: respawn_of(v.mob_time),
                    range_x,
                    flip,
                    cy: match v.cy {
                        Some(c) => Some(c as i16),
                        None => None,
                    },
                },
            ),
        )
    } else if v.type_.unwrap()@ == seq!['n'] {
        Ok(FieldLife::Npc(FieldNpc { id, pos, fh, hide, range_x, flip }))
    } else {
        Err(FieldDataError::UnknownLifeType)
    }
}

/// Whether a text is exactly one given character.
fn text_is_char(s: &str, c: char) -> (r: bool)
    ensures
        r == (s@ == seq![c]),
{
    let r = s.unicode_len() == 1 && s.get_char(0) == c;
    assert(r ==> s@ =~= seq![c]);
    r
}

/// The life of an entry of the field data.
pub fn field_life(value: &FieldLifeValue) -> (r: Result<FieldLife, FieldDataError>)
    requires
        life_readable(*value),
    ensures
        r == field_life_of(*value),
{
    let pos = Vec2 { x: value.x.unwrap() as i16, y: value.y.unwrap() as i16 };
    let hide = map_bool(&value.hide);
    let fh = value.fh.unwrap() as u16;
    let id = match &value.id {
        Some(v) => v.to_u32(),
        None => 0,
    };
    let ty = match &value.type_ {
        Some(t) => t.as_str(),
        None => "",
    };
    let flip = match value.f {
        Some(f) => f == 1,
        None => false,
    };
    if text_is_char(ty, 'm') {
        let respawn_time = match value.mob_time {
            Some(t) => if t >= 0 {
                Some(duration_from_secs(t as u64))
            } else {
                None
            },
            None => None,
        };
        Ok(
            FieldLife::Mob(
                FieldMob {
                    id,
                    pos,
                    fh,
                    hide,
                    respawn_time,
                    range_x: (value.rx0.unwrap() as i16, value.rx1.unwrap() as i16),
                    flip,
                    cy: match value.cy {
                        Some(c) => Some(c as i16),
                        None => None,
                    },
                },
            ),
        )
    } else if text_is_char(ty, 'n') {
        Ok(
            FieldLife::Npc(
                FieldNpc {
                    id,
                    pos,
                    fh,
                    hide,
                    range_x: (value.rx0.unwrap() as i16, value.rx1.unwrap() as i16),
                    flip,
                },
            ),
        )
    } else {
        Err(FieldDataError::UnknownLifeType)
    }
}

/// The foothold an entry of the field data stands for: its points and
/// neighbours cut to 16 bits, its flags unset where missing.
pub open spec fn foothold_of(v: Fh) -> Foothold {
    Foothold {
        pt1: entry_pos(v.x1, v.y1),
        pt2: entry_pos(v.x2, v.y2),
        next: v.next as u16,
        prev: v.prev as u16,
        forbid_falldown: v.forbid_fall_down.bool_of(),
        cant_through: v.cant_through.bool_of(),
        force: match v.force {
            Some(f) => Some(f as i32),
            None => None,
        },
        piece: match v.piece {
            Some(p) => Some(p as i32),
            None => None,
        },
    }
}

/// The foothold of an entry of the field data.
pub fn foothold(value: &Fh) -> (r: Foothold)
    ensures
        r == foothold_of(*value),
{
    Foothold {
        pt1: Vec2 { x: value.x1 as i16, y: value.y1 as i16 },
        pt2: Vec2 { x: value.x2 as i16, y: value.y2 as i16 },
        next: value.next as u16,
        prev: value.prev as u16,
        forbid_falldown: map_bool(&value.forbid_fall_down),
        cant_through: map_bool(&value.cant_through),
        force: match value.force {
            Some(f) => Some(f as i32),
            None => None,
        },
        piece: match value.piece {
            Some(p) => Some(p as i32),
            None => None,
        },
    }
}

/// Whether a reactor entry can be read: it has a position and an id that
/// reads as a `u32`.
pub open spec fn reactor_readable(v: FieldReactorValue) -> bool {
    &&& v.x is Some
    &&& v.y is Some
    &&& v.id matches Some(id) && id.u32_value() is Some
}

/// The reactor of an entry of the field data.
pub fn field_reactor(value: &FieldReactorValue) -> (r: FieldReactor)
    requires
        reactor_readable(*value),
    ensures
        r.pos == entry_pos(value.x.unwrap(), value.y.unwrap()),
        r.id == value.id.unwrap().u32_value().unwrap(),
        r.time == (match value.reactor_time {
            Some(t) => Some(t as u32),
            None => None,
        }),
        value.name is None ==> r.name is None,
        value.name matches Some(n) ==> (r.name matches Some(m) && m@ == n@),
{
    let id = match &value.id {
        Some(v) => v.to_u32(),
        None => 0,
    };
    FieldReactor {
        pos: Vec2 { x: value.x.unwrap() as i16, y: value.y.unwrap() as i16 },
        name: match &value.name {
            Some(n) => Some(n.clone()),
            None => None,
        },
        id,
        time: match value.reactor_time {
            Some(t) => Some(t as u32),
            None => None,
        },
    }
}

/// A life entry of type `m` is a mob and one of type `n` an npc, both with
/// the entry's id, position, foothold, hiding flag, range and facing (left
/// only where `f` is 1); a mob respawns after its time in seconds where that
/// is not negative, and keeps its `cy`; any other type is refused.
pub proof fn lemma_field_life_kinds(v: FieldLifeValue)
    requires
        life_readable(v),
    ensures
        ({
            let r = field_life_of(v);
            let id = v.id.unwrap().u32_value().unwrap();
            let flip = v.f == Some(1i64);
            &&& v.type_.unwrap()@ == seq!['m'] ==> (r matches Ok(FieldLife::Mob(m)) && m.id == id
                && m.pos.x == v.x.unwrap() as i16 && m.pos.y == v.y.unwrap() as i16 && m.fh
                == v.fh.unwrap() as u16 && m.hide == v.hide.bool_of() && m.flip == flip
                && m.range_x == (v.rx0.unwrap() as i16, v.rx1.unwrap() as i16) && (v.mob_time
                matches Some(t) ==> (t >= 0 ==> m.respawn_time == Some(duration_of_secs(t as u64))))
                && (v.mob_time matches Some(t) ==> (t < 0 ==> m.respawn_time is None)) && (
            v.mob_time is None ==> m.respawn_time is None) && (v.cy matches Some(c) ==> m.cy
                == Some(c as i16)) && (v.cy is None ==> m.cy is None))
            &&& v.type_.unwrap()@ == seq!['n'] ==> (r matches Ok(FieldLife::Npc(n)) && n.id == id
                && n.pos.x == v.x.unwrap() as i16 && n.pos.y == v.y.unwrap() as i16 && n.fh
                == v.fh.unwrap() as u16 && n.hide == v.hide.bool_of() && n.flip == flip
                && n.range_x == (v.rx0.unwrap() as i16, v.rx1.unwrap() as i16))
            &&& (v.type_.unwrap()@ != seq!['m'] && v.type_.unwrap()@ != seq!['n']) ==> r
                == Err::<FieldLife, FieldDataError>(FieldDataError::UnknownLifeType)
        }),
{
    assert(seq!['n'] != seq!['m']) by {
        assert(seq!['n'][0] != seq!['m'][0]);
    }
}

/// A foothold joins the entry's two points, links to the entry's next and
/// previous footholds, and keeps its flags, force and piece.
pub proof fn lemma_foothold_fields(v: Fh)
    ensures
        foothold_of(v).pt1 == (Vec2 { x: v.x1 as i16, y: v.y1 as i16 }),
        foothold_of(v).pt2 == (Vec2 { x: v.x2 as i16, y: v.y2 as i16 }),
        foothold_of(v).next == v.next as u16,
        foothold_of(v).prev == v.prev as u16,
        foothold_of(v).forbid_falldown == v.forbid_fall_down.bool_of(),
        foothold_of(v).cant_through == v.cant_through.bool_of(),
        v.force matches Some(f) ==> foothold_of(v).force == Some(f as i32),
        v.force is None ==> foothold_of(v).force is None,
        v.piece matches Some(p) ==> foothold_of(v).piece == Some(p as i32),
        v.piece is None ==> foothold_of(v).piece is None,
{
}

} // verus!
