use vstd::prelude::*;
use vstd::std_specs::convert::{FromSpecImpl, TryFromSpecImpl};

use crate::error::PacketError;
use crate::ids::{CharacterId, FootholdId, ItemId, Vec2};

verus! {

/// A friend of a player.
#[derive(Debug, Clone)]
pub struct FriendRecord {
    pub id: CharacterId,
    pub name: String,
    pub flag: u8,
    pub channel_id: u32,
    pub friend_group: String,
}

/// The friends of a player; the count prefix is the length of both lists.
#[derive(Debug, Clone)]
pub struct FriendList {
    pub len: u8,
    pub friends: Vec<FriendRecord>,
    pub in_shop: Vec<u32>,
}

impl FriendList {
    /// Whether the count prefix is the length of both lists.
    pub open spec fn wf(&self) -> bool {
        self.friends@.len() == self.len && self.in_shop@.len() == self.len
    }

    /// The list without friends.
    pub fn empty() -> (r: FriendList)
        ensures
            r.wf(),
            r.len == 0,
    {
        FriendList { len: 0, friends: Vec::new(), in_shop: Vec::new() }
    }
}

/// A change of a friend's record.
#[derive(Debug, Clone)]
pub struct FriendUpdate {
    pub friend_id: CharacterId,
    pub record: FriendRecord,
    pub in_shop: bool,
}

/// A friend that changed channel.
#[derive(Debug, Clone, Copy, PartialEq, Eq, Structural)]
pub struct FriendChangeChannel {
    pub friend_id: CharacterId,
    pub in_shop: bool,
    pub channel: u32,
}

/// A request to become friends.
#[derive(Debug, Clone)]
pub struct FriendReq {
    pub friend_id: CharacterId,
    pub friend_name: String,
    pub level: u32,
    pub job_code: u32,
}

/// The result of a friend request.
#[derive(Debug, Clone)]
pub enum FriendResultResp {
    Reset(FriendList),
    Update(FriendUpdate),
    Req(FriendReq),
    Reset3(FriendList),
    Unknown4,
    Unknown5,
    Unknown6,
    Unknown7,
    Unknown8,
    Unknown9(Option<String>),
    UnknownA(Option<String>),
    ResetB(FriendList),
    UnknownC(Option<String>),
    ChangeChannel(FriendChangeChannel),
    MaxFriends(u8),
    UnknownF(Option<String>),
}

impl FriendResultResp {
    /// The tag of the variant on the wire.
    pub fn tag(&self) -> (r: u8)
        ensures
            r == (match *self {
                FriendResultResp::Reset(_) => 0u8,
                FriendResultResp::Update(_) => 1u8,
                FriendResultResp::Req(_) => 2u8,
                FriendResultResp::Reset3(_) => 3u8,
                FriendResultResp::Unknown4 => 4u8,
                FriendResultResp::Unknown5 => 5u8,
                FriendResultResp::Unknown6 => 6u8,
                FriendResultResp::Unknown7 => 7u8,
                FriendResultResp::Unknown8 => 8u8,
                FriendResultResp::Unknown9(_) => 9u8,
                FriendResultResp::UnknownA(_) => 10u8,
                FriendResultResp::ResetB(_) => 11u8,
                FriendResultResp::UnknownC(_) => 12u8,
                FriendResultResp::ChangeChannel(_) => 13u8,
                FriendResultResp::MaxFriends(_) => 14u8,
                FriendResultResp::UnknownF(_) => 15u8,
            }),
    {
        match self {
            FriendResultResp::Reset(_) => 0,
            FriendResultResp::Update(_) => 1,
            FriendResultResp::Req(_) => 2,
            FriendResultResp::Reset3(_) => 3,
            FriendResultResp::Unknown4 => 4,
            FriendResultResp::Unknown5 => 5,
            FriendResultResp::Unknown6 => 6,
            FriendResultResp::Unknown7 => 7,
            FriendResultResp::Unknown8 => 8,
            FriendResultResp::Unknown9(_) => 9,
            FriendResultResp::UnknownA(_) => 10,
            FriendResultResp::ResetB(_) => 11,
            FriendResultResp::UnknownC(_) => 12,
            FriendResultResp::ChangeChannel(_) => 13,
            FriendResultResp::MaxFriends(_) => 14,
            FriendResultResp::UnknownF(_) => 15,
        }
    }
}

/// A pet's new name.
#[derive(Debug, Clone)]
pub struct PetNameChangedResp {
    pub user: CharacterId,
    pub pet_id: u8,
    pub name: String,
    pub name_tag: bool,
}

/// An action of a pet, with what it says.
#[derive(Debug, Clone)]
pub struct PetActionResp {
    pub user: CharacterId,
    pub pet_id: u8,
    pub ty: u8,
    pub action: u8,
    pub chat: String,
    pub chat_balloon: bool,
}

/// The items a pet does not pick up.
#[derive(Debug, Clone)]
pub struct PetExceptionListResp {
    pub user: CharacterId,
    pub pet_id: u8,
    pub pet_sn: u64,
    pub exception_list: Vec<ItemId>,
}

/// Why a pet could not be activated.
#[derive(Debug, Clone, Copy, PartialEq, Eq, Structural)]
pub enum PetActivateError {
    NoError,
    PetWentHome,
    PetMagicalTimeExpired,
    UnableToUsePet,
    CannotSummon,
}

impl PetActivateError {
    /// The wire code of a value.
    pub open spec fn code_of(self) -> u8 {
        match self {
            PetActivateError::NoError => 0u8,
            PetActivateError::PetWentHome => 1u8,
            PetActivateError::PetMagicalTimeExpired => 2u8,
            PetActivateError::UnableToUsePet => 3u8,
            PetActivateError::CannotSummon => 4u8,
        }
    }

    /// The value a wire code stands for, if any.
    pub open spec fn of_code(c: u8) -> Option<PetActivateError> {
        match c {
            0u8 => Some(PetActivateError::NoError),
            1u8 => Some(PetActivateError::PetWentHome),
            2u8 => Some(PetActivateError::PetMagicalTimeExpired),
            3u8 => Some(PetActivateError::UnableToUsePet),
            4u8 => Some(PetActivateError::CannotSummon),
            _ => None,
        }
    }

    /// Decoding the code of a value gives that value back.
    pub proof fn lemma_code_roundtrip(self)
        ensures
            PetActivateError::of_code(self.code_of()) == Some(self),
    {
    }

    /// A code that decodes to a value is that value's code.
    pub proof fn lemma_decode_roundtrip(c: u8)
        ensures
            PetActivateError::of_code(c) matches Some(v) ==> v.code_of() == c,
    {
    }
}

impl From<PetActivateError> for u8 {
    fn from(v: PetActivateError) -> (r: u8) {
        match v {
            PetActivateError::NoError => 0,
            PetActivateError::PetWentHome => 1,
            PetActivateError::PetMagicalTimeExpired => 2,
            PetActivateError::UnableToUsePet => 3,
            PetActivateError::CannotSummon => 4,
        }
    }
}

impl FromSpecImpl<PetActivateError> for u8 {
    open spec fn obeys_from_spec() -> bool {
        true
    }

    open spec fn from_spec(v: PetActivateError) -> u8 {
        v.code_of()
    }
}

impl TryFrom<u8> for PetActivateError {
    type Error = PacketError;

    fn try_from(c: u8) -> (r: Result<PetActivateError, PacketError>) {
        match c {
            0 => Ok(PetActivateError::NoError),
            1 => Ok(PetActivateError::PetWentHome),
            2 => Ok(PetActivateError::PetMagicalTimeExpired),
            3 => Ok(PetActivateError::UnableToUsePet),
            4 => Ok(PetActivateError::CannotSummon),
            _ => Err(PacketError::InvalidEnumPrimitive(c as u32)),
        }
    }
}

impl TryFromSpecImpl<u8> for PetActivateError {
    open spec fn obeys_try_from_spec() -> bool {
        true
    }

    open spec fn try_from_spec(c: u8) -> Result<PetActivateError, PacketError> {
        match PetActivateError::of_code(c) {
            Some(v) => Ok(v),
            None => Err(PacketError::InvalidEnumPrimitive(c as u32)),
        }
    }
}
/// What a pet shows when it enters a field.
#[derive(Debug, Clone)]
pub struct PetInitData {
    pub reset_active: bool,
    pub pet_tmpl_id: u32,
    pub pet_name: String,
    pub pet_locker_sn: u64,
    pub pos: Vec2,
    pub move_action: u8,
    pub fh: FootholdId,
    pub name_tag: bool,
    pub chat_balloon: bool,
}

/// The activation of a player's own pet: its data, or why it failed.
#[derive(Debug, Clone)]
pub enum PetLocalActivateResult {
    Activated(PetInitData),
    Failed(PetActivateError),
}

impl PetLocalActivateResult {
    /// The tag of the variant on the wire.
    pub fn tag(&self) -> (r: u8)
        ensures
            r == (match *self {
                PetLocalActivateResult::Activated(_) => 1u8,
                PetLocalActivateResult::Failed(_) => 0u8,
            }),
    {
        match self {
            PetLocalActivateResult::Activated(_) => 1,
            PetLocalActivateResult::Failed(_) => 0,
        }
    }
}

} // verus!
