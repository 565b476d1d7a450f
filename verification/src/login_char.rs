use vstd::prelude::*;
use vstd::std_specs::convert::{FromSpecImpl, TryFromSpecImpl};

use crate::error::PacketError;
use crate::ids::CharacterId;
use crate::login::{AccountId, HardwareInfo, MachineId, StartMode, WorldId};

verus! {

/// Whether the client shows all characters of all worlds.
#[derive(Debug, Clone, Copy, PartialEq, Eq, Structural)]
pub struct ViewAllCharFlagSet {
    pub set: bool,
}

/// The result of a character selection.
#[derive(Debug, Clone, Copy, PartialEq, Eq, Structural)]
pub enum SelectCharResultCode {
    Success,
    DBFail,
    UnknownErr,
    Timeout,
    InvalidBirthday,
    InvalidPic,
    ErrGuildMaster,
    ErrPendingWedding,
    ErrPendingWorldTransfer,
    ErrHasFamily,
}

impl SelectCharResultCode {
    /// The wire code of a value.
    pub open spec fn code_of(self) -> u8 {
        match self {
            SelectCharResultCode::Success => 0u8,
            SelectCharResultCode::DBFail => 6u8,
            SelectCharResultCode::UnknownErr => 9u8,
            SelectCharResultCode::Timeout => 10u8,
            SelectCharResultCode::InvalidBirthday => 18u8,
            SelectCharResultCode::InvalidPic => 20u8,
            SelectCharResultCode::ErrGuildMaster => 22u8,
            SelectCharResultCode::ErrPendingWedding => 24u8,
            SelectCharResultCode::ErrPendingWorldTransfer => 26u8,
            SelectCharResultCode::ErrHasFamily => 29u8,
        }
    }

    /// The value a wire code stands for, if any.
    pub open spec fn of_code(c: u8) -> Option<SelectCharResultCode> {
        match c {
            0u8 => Some(SelectCharResultCode::Success),
            6u8 => Some(SelectCharResultCode::DBFail),
            9u8 => Some(SelectCharResultCode::UnknownErr),
            10u8 => Some(SelectCharResultCode::Timeout),
            18u8 => Some(SelectCharResultCode::InvalidBirthday),
            20u8 => Some(SelectCharResultCode::InvalidPic),
            22u8 => Some(SelectCharResultCode::ErrGuildMaster),
            24u8 => Some(SelectCharResultCode::ErrPendingWedding),
            26u8 => Some(SelectCharResultCode::ErrPendingWorldTransfer),
            29u8 => Some(SelectCharResultCode::ErrHasFamily),
            _ => None,
        }
    }

    /// Decoding the code of a value gives that value back.
    pub proof fn lemma_code_roundtrip(self)
        ensures
            SelectCharResultCode::of_code(self.code_of()) == Some(self),
    {
    }

    /// A code that decodes to a value is that value's code.
    pub proof fn lemma_decode_roundtrip(c: u8)
        ensures
            SelectCharResultCode::of_code(c) matches Some(v) ==> v.code_of() == c,
    {
    }
}

impl From<SelectCharResultCode> for u8 {
    fn from(v: SelectCharResultCode) -> (r: u8) {
        match v {
            SelectCharResultCode::Success => 0,
            SelectCharResultCode::DBFail => 6,
            SelectCharResultCode::UnknownErr => 9,
            SelectCharResultCode::Timeout => 10,
            SelectCharResultCode::InvalidBirthday => 18,
            SelectCharResultCode::InvalidPic => 20,
            SelectCharResultCode::ErrGuildMaster => 22,
            SelectCharResultCode::ErrPendingWedding => 24,
            SelectCharResultCode::ErrPendingWorldTransfer => 26,
            SelectCharResultCode::ErrHasFamily => 29,
        }
    }
}

impl FromSpecImpl<SelectCharResultCode> for u8 {
    open spec fn obeys_from_spec() -> bool {
        true
    }

    open spec fn from_spec(v: SelectCharResultCode) -> u8 {
        v.code_of()
    }
}

impl TryFrom<u8> for SelectCharResultCode {
    type Error = PacketError;

    fn try_from(c: u8) -> (r: Result<SelectCharResultCode, PacketError>) {
        match c {
            0 => Ok(SelectCharResultCode::Success),
            6 => Ok(SelectCharResultCode::DBFail),
            9 => Ok(SelectCharResultCode::UnknownErr),
            10 => Ok(SelectCharResultCode::Timeout),
            18 => Ok(SelectCharResultCode::InvalidBirthday),
            20 => Ok(SelectCharResultCode::InvalidPic),
            22 => Ok(SelectCharResultCode::ErrGuildMaster),
            24 => Ok(SelectCharResultCode::ErrPendingWedding),
            26 => Ok(SelectCharResultCode::ErrPendingWorldTransfer),
            29 => Ok(SelectCharResultCode::ErrHasFamily),
            _ => Err(PacketError::InvalidEnumPrimitive(c as u32)),
        }
    }
}

impl TryFromSpecImpl<u8> for SelectCharResultCode {
    open spec fn obeys_try_from_spec() -> bool {
        true
    }

    open spec fn try_from_spec(c: u8) -> Result<SelectCharResultCode, PacketError> {
        match SelectCharResultCode::of_code(c) {
            Some(v) => Ok(v),
            None => Err(PacketError::InvalidEnumPrimitive(c as u32)),
        }
    }
}
/// The result of a character deletion.
#[derive(Debug, Clone, Copy, PartialEq, Eq, Structural)]
pub enum DeleteCharResult {
    Success,
    DBFail,
    UnknownErr,
    Timeout,
    InvalidBirthday,
    InvalidPic,
    ErrGuildMaster,
    ErrPendingWedding,
    ErrPendingWorldTransfer,
    ErrHasFamily,
}

impl DeleteCharResult {
    /// The wire code of a value.
    pub open spec fn code_of(self) -> u8 {
        match self {
            DeleteCharResult::Success => 0u8,
            DeleteCharResult::DBFail => 6u8,
            DeleteCharResult::UnknownErr => 9u8,
            DeleteCharResult::Timeout => 10u8,
            DeleteCharResult::InvalidBirthday => 18u8,
            DeleteCharResult::InvalidPic => 20u8,
            DeleteCharResult::ErrGuildMaster => 22u8,
            DeleteCharResult::ErrPendingWedding => 24u8,
            DeleteCharResult::ErrPendingWorldTransfer => 26u8,
            DeleteCharResult::ErrHasFamily => 29u8,
        }
    }

    /// The value a wire code stands for, if any.
    pub open spec fn of_code(c: u8) -> Option<DeleteCharResult> {
        match c {
            0u8 => Some(DeleteCharResult::Success),
            6u8 => Some(DeleteCharResult::DBFail),
            9u8 => Some(DeleteCharResult::UnknownErr),
            10u8 => Some(DeleteCharResult::Timeout),
            18u8 => Some(DeleteCharResult::InvalidBirthday),
            20u8 => Some(DeleteCharResult::InvalidPic),
            22u8 => Some(DeleteCharResult::ErrGuildMaster),
            24u8 => Some(DeleteCharResult::ErrPendingWedding),
            26u8 => Some(DeleteCharResult::ErrPendingWorldTransfer),
            29u8 => Some(DeleteCharResult::ErrHasFamily),
            _ => None,
        }
    }

    /// Decoding the code of a value gives that value back.
    pub proof fn lemma_code_roundtrip(self)
        ensures
            DeleteCharResult::of_code(self.code_of()) == Some(self),
    {
    }

    /// A code that decodes to a value is that value's code.
    pub proof fn lemma_decode_roundtrip(c: u8)
        ensures
            DeleteCharResult::of_code(c) matches Some(v) ==> v.code_of() == c,
    {
    }
}

impl From<DeleteCharResult> for u8 {
    fn from(v: DeleteCharResult) -> (r: u8) {
        match v {
            DeleteCharResult::Success => 0,
            DeleteCharResult::DBFail => 6,
            DeleteCharResult::UnknownErr => 9,
            DeleteCharResult::Timeout => 10,
            DeleteCharResult::InvalidBirthday => 18,
            DeleteCharResult::InvalidPic => 20,
            DeleteCharResult::ErrGuildMaster => 22,
            DeleteCharResult::ErrPendingWedding => 24,
            DeleteCharResult::ErrPendingWorldTransfer => 26,
            DeleteCharResult::ErrHasFamily => 29,
        }
    }
}

impl FromSpecImpl<DeleteCharResult> for u8 {
    open spec fn obeys_from_spec() -> bool {
        true
    }

    open spec fn from_spec(v: DeleteCharResult) -> u8 {
        v.code_of()
    }
}

impl TryFrom<u8> for DeleteCharResult {
    type Error = PacketError;

    fn try_from(c: u8) -> (r: Result<DeleteCharResult, PacketError>) {
        match c {
            0 => Ok(DeleteCharResult::Success),
            6 => Ok(DeleteCharResult::DBFail),
            9 => Ok(DeleteCharResult::UnknownErr),
            10 => Ok(DeleteCharResult::Timeout),
            18 => Ok(DeleteCharResult::InvalidBirthday),
            20 => Ok(DeleteCharResult::InvalidPic),
            22 => Ok(DeleteCharResult::ErrGuildMaster),
            24 => Ok(DeleteCharResult::ErrPendingWedding),
            26 => Ok(DeleteCharResult::ErrPendingWorldTransfer),
            29 => Ok(DeleteCharResult::ErrHasFamily),
            _ => Err(PacketError::InvalidEnumPrimitive(c as u32)),
        }
    }
}

impl TryFromSpecImpl<u8> for DeleteCharResult {
    open spec fn obeys_try_from_spec() -> bool {
        true
    }

    open spec fn try_from_spec(c: u8) -> Result<DeleteCharResult, PacketError> {
        match DeleteCharResult::of_code(c) {
            Some(v) => Ok(v),
            None => Err(PacketError::InvalidEnumPrimitive(c as u32)),
        }
    }
}
/// The answer to a character deletion.
#[derive(Debug, Clone, Copy, PartialEq, Eq, Structural)]
pub struct DeleteCharResp {
    pub char_id: CharacterId,
    pub result: DeleteCharResult,
}

/// A request to delete a character, with the second password.
#[derive(Debug, Clone)]
pub struct DeleteCharReq {
    pub pic: String,
    pub char_id: CharacterId,
}

/// The answer to enabling the second password.
#[derive(Debug, Clone, Copy, PartialEq, Eq, Structural)]
pub struct EnableSecondPasswordResp {
    pub success: bool,
    pub result: u8,
}

/// The answer to a check of the second password.
#[derive(Debug, Clone, Copy, PartialEq, Eq, Structural)]
pub struct CheckSecondPasswordResp {
    pub u1: u8,
}

/// Whether an account may have an extra character.
#[derive(Debug, Clone, Copy, PartialEq, Eq, Structural)]
pub struct ExtraCharInfoResp {
    pub acc_id: AccountId,
    pub no_extra_char: bool,
}

/// The rank of a character in its world and in its job.
#[derive(Debug, Clone, Copy, PartialEq, Eq, Structural)]
pub struct CharRankInfo {
    pub world_rank: u32,
    pub rank_move: u32,
    pub job_rank: u32,
    pub job_rank_mode: u32,
}

/// The number of servers and characters before all characters are shown.
#[derive(Debug, Clone, Copy, PartialEq, Eq, Structural)]
pub struct ViewAllCharPrepare {
    pub count_related_servers: u32,
    pub count_chars: u32,
}

/// An error shown instead of all characters, with an optional message.
#[derive(Debug, Clone)]
pub struct ViewAllCharCustomError {
    pub msg: Option<String>,
}

/// The rank data of a character.
#[derive(Debug, Clone, Copy, PartialEq, Eq, Structural)]
pub struct CharacterRankData {
    pub world_rank: u32,
    pub world_rank_gap: u32,
    pub job_rank: u32,
    pub job_rank_gap: u32,
}

/// What the client says of itself when it asks for all characters.
#[derive(Debug, Clone)]
pub struct ViewExtraInfo {
    pub hardware_id: String,
    pub machine_id: MachineId,
    pub game_room_client: u32,
    pub start_mode: StartMode,
}

/// A request for all characters.
#[derive(Debug, Clone)]
pub struct ViewAllCharRequest {
    pub extra_info: Option<ViewExtraInfo>,
}

/// A selection of a character that enables the second password.
#[derive(Debug, Clone)]
pub struct SelectCharEnablePicReq {
    pub unknown1: u8,
    pub char_id: CharacterId,
    pub hw_info: HardwareInfo,
    pub pic: String,
}

/// A selection of a character with the second password.
#[derive(Debug, Clone)]
pub struct SelectCharCheckPicReq {
    pub pic: String,
    pub char_id: CharacterId,
    pub hw_info: HardwareInfo,
}

/// A selection of a character.
#[derive(Debug, Clone)]
pub struct SelectCharReq {
    pub char_id: CharacterId,
    pub hw_info: HardwareInfo,
}

/// A selection of a character of all worlds that enables the second
/// password.
#[derive(Debug, Clone)]
pub struct SelectCharEnablePicVac {
    pub unknown1: u8,
    pub char_id: CharacterId,
    pub world_id: WorldId,
    pub hw_info: HardwareInfo,
    pub pic: String,
}

/// A selection of a character of all worlds with the second password.
#[derive(Debug, Clone)]
pub struct SelectCharCheckPicVac {
    pub pic: String,
    pub char_id: CharacterId,
    pub world_id: WorldId,
    pub hw_info: HardwareInfo,
}

/// A selection of a character of all worlds.
#[derive(Debug, Clone)]
pub struct SelectCharReqVac {
    pub char_id: CharacterId,
    pub world_id: WorldId,
    pub hw_info: HardwareInfo,
}

/// A request whether a character name is taken.
#[derive(Debug, Clone)]
pub struct CheckDuplicateIDReq {
    pub name: String,
}

/// Whether a character name is free.
#[derive(Debug, Clone, Copy, PartialEq, Eq, Structural)]
pub enum CheckDuplicateIDResult {
    Success,
    Error1,
    Error2,
    Error3,
}

impl CheckDuplicateIDResult {
    /// The wire code of a value.
    pub open spec fn code_of(self) -> u8 {
        match self {
            CheckDuplicateIDResult::Success => 0u8,
            CheckDuplicateIDResult::Error1 => 1u8,
            CheckDuplicateIDResult::Error2 => 2u8,
            CheckDuplicateIDResult::Error3 => 3u8,
        }
    }

    /// The value a wire code stands for, if any.
    pub open spec fn of_code(c: u8) -> Option<CheckDuplicateIDResult> {
        match c {
            0u8 => Some(CheckDuplicateIDResult::Success),
            1u8 => Some(CheckDuplicateIDResult::Error1),
            2u8 => Some(CheckDuplicateIDResult::Error2),
            3u8 => Some(CheckDuplicateIDResult::Error3),
            _ => None,
        }
    }

    /// Decoding the code of a value gives that value back.
    pub proof fn lemma_code_roundtrip(self)
        ensures
            CheckDuplicateIDResult::of_code(self.code_of()) == Some(self),
    {
    }

    /// A code that decodes to a value is that value's code.
    pub proof fn lemma_decode_roundtrip(c: u8)
        ensures
            CheckDuplicateIDResult::of_code(c) matches Some(v) ==> v.code_of() == c,
    {
    }
}

impl From<CheckDuplicateIDResult> for u8 {
    fn from(v: CheckDuplicateIDResult) -> (r: u8) {
        match v {
            CheckDuplicateIDResult::Success => 0,
            CheckDuplicateIDResult::Error1 => 1,
            CheckDuplicateIDResult::Error2 => 2,
            CheckDuplicateIDResult::Error3 => 3,
        }
    }
}

impl FromSpecImpl<CheckDuplicateIDResult> for u8 {
    open spec fn obeys_from_spec() -> bool {
        true
    }

    open spec fn from_spec(v: CheckDuplicateIDResult) -> u8 {
        v.code_of()
    }
}

impl TryFrom<u8> for CheckDuplicateIDResult {
    type Error = PacketError;

    fn try_from(c: u8) -> (r: Result<CheckDuplicateIDResult, PacketError>) {
        match c {
            0 => Ok(CheckDuplicateIDResult::Success),
            1 => Ok(CheckDuplicateIDResult::Error1),
            2 => Ok(CheckDuplicateIDResult::Error2),
            3 => Ok(CheckDuplicateIDResult::Error3),
            _ => Err(PacketError::InvalidEnumPrimitive(c as u32)),
        }
    }
}

impl TryFromSpecImpl<u8> for CheckDuplicateIDResult {
    open spec fn obeys_try_from_spec() -> bool {
        true
    }

    open spec fn try_from_spec(c: u8) -> Result<CheckDuplicateIDResult, PacketError> {
        match CheckDuplicateIDResult::of_code(c) {
            Some(v) => Ok(v),
            None => Err(PacketError::InvalidEnumPrimitive(c as u32)),
        }
    }
}
/// The answer whether a character name is taken.
#[derive(Debug, Clone)]
pub struct CheckDuplicateIDResp {
    pub name: String,
    pub result: CheckDuplicateIDResult,
}

} // verus!
