use vstd::prelude::*;

verus! {

/// Identifier of a character.
pub type CharacterId = u32;

/// Identifier of an object placed in a field (mob, drop, npc, summon, ...).
pub type ObjectId = u32;

/// Identifier of an item template.
pub type ItemId = u32;

/// Identifier of a mob template.
pub type MobId = u32;

/// Identifier of a field.
pub type FieldId = u32;

/// Identifier of an npc template.
pub type NpcId = u32;

/// Identifier of a quest.
pub type QuestId = u16;

/// Identifier of a skill.
pub type SkillId = u32;

/// Identifier of a foothold.
pub type FootholdId = u16;

/// Identifier of a buff.
pub type BuffId = u32;

/// Serial number of a cash item.
pub type CashId = u64;

/// Identifier of a party.
pub type PartyId = u32;

/// A position of the field in pixels.
#[derive(Debug, Clone, Copy, PartialEq, Eq, Structural)]
pub struct Vec2 {
    pub x: i16,
    pub y: i16,
}

impl Vec2 {
    /// The position with the given coordinates.
    pub fn new(x: i16, y: i16) -> (r: Vec2)
        ensures
            r == (Vec2 { x, y }),
    {
        Vec2 { x, y }
    }
}

/// A rectangle given by its left-top and right-bottom corners.
#[derive(Debug, Clone, Copy, PartialEq, Eq, Structural)]
pub struct Rect {
    pub lt: Vec2,
    pub rb: Vec2,
}

} // verus!
