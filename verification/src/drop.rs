use vstd::prelude::*;
use vstd::std_specs::convert::{FromSpecImpl, TryFromSpecImpl};

use crate::error::PacketError;
use crate::ids::{CharacterId, ItemId, PartyId};

verus! {

/// How a drop enters the field.
#[derive(Debug, Clone, Copy, PartialEq, Eq, Structural)]
pub enum DropEnterType {
    Default,
    Create,
    OnFoothold,
    FadingOut,
    Unknown4,
}

impl DropEnterType {
    /// The wire code of a value.
    pub open spec fn code_of(self) -> u8 {
        match self {
            DropEnterType::Default => 0u8,
            DropEnterType::Create => 1u8,
            DropEnterType::OnFoothold => 2u8,
            DropEnterType::FadingOut => 3u8,
            DropEnterType::Unknown4 => 4u8,
        }
    }

    /// The value a wire code stands for, if any.
    pub open spec fn of_code(c: u8) -> Option<DropEnterType> {
        match c {
            0u8 => Some(DropEnterType::Default),
            1u8 => Some(DropEnterType::Create),
            2u8 => Some(DropEnterType::OnFoothold),
            3u8 => Some(DropEnterType::FadingOut),
            4u8 => Some(DropEnterType::Unknown4),
            _ => None,
        }
    }

    /// Decoding the code of a value gives that value back.
    pub proof fn lemma_code_roundtrip(self)
        ensures
            DropEnterType::of_code(self.code_of()) == Some(self),
    {
    }

    /// A code that decodes to a value is that value's code.
    pub proof fn lemma_decode_roundtrip(c: u8)
        ensures
            DropEnterType::of_code(c) matches Some(v) ==> v.code_of() == c,
    {
    }
}

impl From<DropEnterType> for u8 {
    fn from(v: DropEnterType) -> (r: u8) {
        match v {
            DropEnterType::Default => 0,
            DropEnterType::Create => 1,
            DropEnterType::OnFoothold => 2,
            DropEnterType::FadingOut => 3,
            DropEnterType::Unknown4 => 4,
        }
    }
}

impl FromSpecImpl<DropEnterType> for u8 {
    open spec fn obeys_from_spec() -> bool {
        true
    }

    open spec fn from_spec(v: DropEnterType) -> u8 {
        v.code_of()
    }
}

impl TryFrom<u8> for DropEnterType {
    type Error = PacketError;

    fn try_from(c: u8) -> (r: Result<DropEnterType, PacketError>) {
        match c {
            0 => Ok(DropEnterType::Default),
            1 => Ok(DropEnterType::Create),
            2 => Ok(DropEnterType::OnFoothold),
            3 => Ok(DropEnterType::FadingOut),
            4 => Ok(DropEnterType::Unknown4),
            _ => Err(PacketError::InvalidEnumPrimitive(c as u32)),
        }
    }
}

impl TryFromSpecImpl<u8> for DropEnterType {
    open spec fn obeys_try_from_spec() -> bool {
        true
    }

    open spec fn try_from_spec(c: u8) -> Result<DropEnterType, PacketError> {
        match DropEnterType::of_code(c) {
            Some(v) => Ok(v),
            None => Err(PacketError::InvalidEnumPrimitive(c as u32)),
        }
    }
}
/// How a drop leaves the field.
#[derive(Debug, Clone, Copy, PartialEq, Eq, Structural)]
pub enum DropLeaveType {
    TimeOut,
    ScreenScroll,
    UserPickup,
    MobPickup,
    Explode,
    PetPickup,
    PassConvex,
    PetSkill,
}

impl DropLeaveType {
    /// The wire code of a value.
    pub open spec fn code_of(self) -> u8 {
        match self {
            DropLeaveType::TimeOut => 0u8,
            DropLeaveType::ScreenScroll => 1u8,
            DropLeaveType::UserPickup => 2u8,
            DropLeaveType::MobPickup => 3u8,
            DropLeaveType::Explode => 4u8,
            DropLeaveType::PetPickup => 5u8,
            DropLeaveType::PassConvex => 6u8,
            DropLeaveType::PetSkill => 7u8,
        }
    }

    /// The value a wire code stands for, if any.
    pub open spec fn of_code(c: u8) -> Option<DropLeaveType> {
        match c {
            0u8 => Some(DropLeaveType::TimeOut),
            1u8 => Some(DropLeaveType::ScreenScroll),
            2u8 => Some(DropLeaveType::UserPickup),
            3u8 => Some(DropLeaveType::MobPickup),
            4u8 => Some(DropLeaveType::Explode),
            5u8 => Some(DropLeaveType::PetPickup),
            6u8 => Some(DropLeaveType::PassConvex),
            7u8 => Some(DropLeaveType::PetSkill),
            _ => None,
        }
    }

    /// Decoding the code of a value gives that value back.
    pub proof fn lemma_code_roundtrip(self)
        ensures
            DropLeaveType::of_code(self.code_of()) == Some(self),
    {
    }

    /// A code that decodes to a value is that value's code.
    pub proof fn lemma_decode_roundtrip(c: u8)
        ensures
            DropLeaveType::of_code(c) matches Some(v) ==> v.code_of() == c,
    {
    }
}

impl From<DropLeaveType> for u8 {
    fn from(v: DropLeaveType) -> (r: u8) {
        match v {
            DropLeaveType::TimeOut => 0,
            DropLeaveType::ScreenScroll => 1,
            DropLeaveType::UserPickup => 2,
            DropLeaveType::MobPickup => 3,
            DropLeaveType::Explode => 4,
            DropLeaveType::PetPickup => 5,
            DropLeaveType::PassConvex => 6,
            DropLeaveType::PetSkill => 7,
        }
    }
}

impl FromSpecImpl<DropLeaveType> for u8 {
    open spec fn obeys_from_spec() -> bool {
        true
    }

    open spec fn from_spec(v: DropLeaveType) -> u8 {
        v.code_of()
    }
}

impl TryFrom<u8> for DropLeaveType {
    type Error = PacketError;

    fn try_from(c: u8) -> (r: Result<DropLeaveType, PacketError>) {
        match c {
            0 => Ok(DropLeaveType::TimeOut),
            1 => Ok(DropLeaveType::ScreenScroll),
            2 => Ok(DropLeaveType::UserPickup),
            3 => Ok(DropLeaveType::MobPickup),
            4 => Ok(DropLeaveType::Explode),
            5 => Ok(DropLeaveType::PetPickup),
            6 => Ok(DropLeaveType::PassConvex),
            7 => Ok(DropLeaveType::PetSkill),
            _ => Err(PacketError::InvalidEnumPrimitive(c as u32)),
        }
    }
}

impl TryFromSpecImpl<u8> for DropLeaveType {
    open spec fn obeys_try_from_spec() -> bool {
        true
    }

    open spec fn try_from_spec(c: u8) -> Result<DropLeaveType, PacketError> {
        match DropLeaveType::of_code(c) {
            Some(v) => Ok(v),
            None => Err(PacketError::InvalidEnumPrimitive(c as u32)),
        }
    }
}

impl DropEnterType {
    /// Whether a drop entering this way carries its start position.
    pub fn has_start_pos(&self) -> (r: bool)
        ensures
            r == !(*self == DropEnterType::OnFoothold),
    {
        match self {
            DropEnterType::Default | DropEnterType::Create | DropEnterType::FadingOut
            | DropEnterType::Unknown4 => true,
            _ => false,
        }
    }
}

impl DropLeaveType {
    /// Whether a drop leaving this way carries the id of whoever picked it up.
    pub fn has_pickup_id(&self) -> (r: bool)
        ensures
            r == (*self == DropLeaveType::UserPickup || *self == DropLeaveType::MobPickup || *self
                == DropLeaveType::PetSkill),
    {
        match self {
            DropLeaveType::UserPickup | DropLeaveType::MobPickup | DropLeaveType::PetSkill => true,
            _ => false,
        }
    }
}

/// Who may pick up a drop.
#[derive(Debug, Clone, Copy, PartialEq, Eq, Structural)]
pub enum DropOwner {
    User(CharacterId),
    Party(PartyId),
    NoOwner,
    Explosive,
}

/// The id and kind byte an owner is written as.
pub open spec fn drop_owner_pair(val: DropOwner) -> (u32, u8) {
    match val {
        DropOwner::User(user) => (user, 0u8),
        DropOwner::Party(party) => (party, 1u8),
        DropOwner::NoOwner => (0u32, 2u8),
        DropOwner::Explosive => (0u32, 3u8),
    }
}

/// The owner an id and kind byte stand for.
pub open spec fn drop_owner_of_pair(v: (u32, u8)) -> Result<DropOwner, PacketError> {
    if v.1 == 0 {
        Ok(DropOwner::User(v.0))
    } else if v.1 == 1 {
        Ok(DropOwner::Party(v.0))
    } else if v.1 == 2 {
        Ok(DropOwner::NoOwner)
    } else if v.1 == 3 {
        Ok(DropOwner::Explosive)
    } else {
        Err(PacketError::InvalidEnumPrimitive(v.1 as u32))
    }
}

impl From<DropOwner> for (u32, u8) {
    fn from(val: DropOwner) -> (r: (u32, u8)) {
        match val {
            DropOwner::User(user) => (user, 0),
            DropOwner::Party(party) => (party, 1),
            DropOwner::NoOwner => (0, 2),
            DropOwner::Explosive => (0, 3),
        }
    }
}

impl FromSpecImpl<DropOwner> for (u32, u8) {
    open spec fn obeys_from_spec() -> bool {
        true
    }

    open spec fn from_spec(v: DropOwner) -> (u32, u8) {
        drop_owner_pair(v)
    }
}

impl TryFrom<(u32, u8)> for DropOwner {
    type Error = PacketError;

    fn try_from(v: (u32, u8)) -> (r: Result<DropOwner, PacketError>) {
        match v.1 {
            0 => Ok(DropOwner::User(v.0)),
            1 => Ok(DropOwner::Party(v.0)),
            2 => Ok(DropOwner::NoOwner),
            3 => Ok(DropOwner::Explosive),
            _ => Err(PacketError::InvalidEnumPrimitive(v.1 as u32)),
        }
    }
}

impl TryFromSpecImpl<(u32, u8)> for DropOwner {
    open spec fn obeys_try_from_spec() -> bool {
        true
    }

    open spec fn try_from_spec(v: (u32, u8)) -> Result<DropOwner, PacketError> {
        drop_owner_of_pair(v)
    }
}

/// Reading back the pair an owner is written as gives the owner.
pub proof fn lemma_drop_owner_roundtrip(o: DropOwner)
    ensures
        drop_owner_of_pair(drop_owner_pair(o)) == Ok::<DropOwner, PacketError>(o),
{
}

/// A pair that reads as an owner with an id is that owner's pair; for the two
/// owners without an id the id read is dropped, so only the kind byte survives.
pub proof fn lemma_drop_owner_pair_roundtrip(v: (u32, u8))
    ensures
        drop_owner_of_pair(v) matches Ok(o) ==> drop_owner_pair(o).1 == v.1,
        (v.1 == 0 || v.1 == 1) ==> (drop_owner_of_pair(v) matches Ok(o) && drop_owner_pair(o) == v),
{
}

/// What a drop is.
#[derive(Debug, Clone, Copy, PartialEq, Eq, Structural)]
pub enum DropType {
    Item(ItemId),
    Money(u32),
}

impl DropType {
    /// Whether the drop carries an expiration time: every drop but money does.
    pub fn has_expiration(&self) -> (r: bool)
        ensures
            r == !(*self is Money),
    {
        match self {
            DropType::Money(_) => false,
            _ => true,
        }
    }
}

} // verus!
