use vstd::prelude::*;
use vstd::std_specs::convert::{FromSpecImpl, TryFromSpecImpl};

use crate::error::PacketError;
use crate::ids::{CharacterId, FootholdId, ItemId, NpcId, ObjectId, Vec2};

verus! {

/// The kind of an affected area.
#[derive(Debug, Clone, Copy, PartialEq, Eq, Structural)]
pub enum AffectedAreaType {
    MobSkill,
    UserSkill,
    Smoke,
    Buff,
    BlessedMist,
}

impl AffectedAreaType {
    /// The wire code of a value.
    pub open spec fn code_of(self) -> u32 {
        match self {
            AffectedAreaType::MobSkill => 0u32,
            AffectedAreaType::UserSkill => 1u32,
            AffectedAreaType::Smoke => 2u32,
            AffectedAreaType::Buff => 3u32,
            AffectedAreaType::BlessedMist => 4u32,
        }
    }

    /// The value a wire code stands for, if any.
    pub open spec fn of_code(c: u32) -> Option<AffectedAreaType> {
        match c {
            0u32 => Some(AffectedAreaType::MobSkill),
            1u32 => Some(AffectedAreaType::UserSkill),
            2u32 => Some(AffectedAreaType::Smoke),
            3u32 => Some(AffectedAreaType::Buff),
            4u32 => Some(AffectedAreaType::BlessedMist),
            _ => None,
        }
    }

    /// Decoding the code of a value gives that value back.
    pub proof fn lemma_code_roundtrip(self)
        ensures
            AffectedAreaType::of_code(self.code_of()) == Some(self),
    {
    }

    /// A code that decodes to a value is that value's code.
    pub proof fn lemma_decode_roundtrip(c: u32)
        ensures
            AffectedAreaType::of_code(c) matches Some(v) ==> v.code_of() == c,
    {
    }
}

impl From<AffectedAreaType> for u32 {
    fn from(v: AffectedAreaType) -> (r: u32) {
        match v {
            AffectedAreaType::MobSkill => 0,
            AffectedAreaType::UserSkill => 1,
            AffectedAreaType::Smoke => 2,
            AffectedAreaType::Buff => 3,
            AffectedAreaType::BlessedMist => 4,
        }
    }
}

impl FromSpecImpl<AffectedAreaType> for u32 {
    open spec fn obeys_from_spec() -> bool {
        true
    }

    open spec fn from_spec(v: AffectedAreaType) -> u32 {
        v.code_of()
    }
}

impl TryFrom<u32> for AffectedAreaType {
    type Error = PacketError;

    fn try_from(c: u32) -> (r: Result<AffectedAreaType, PacketError>) {
        match c {
            0 => Ok(AffectedAreaType::MobSkill),
            1 => Ok(AffectedAreaType::UserSkill),
            2 => Ok(AffectedAreaType::Smoke),
            3 => Ok(AffectedAreaType::Buff),
            4 => Ok(AffectedAreaType::BlessedMist),
            _ => Err(PacketError::InvalidEnumPrimitive(c as u32)),
        }
    }
}

impl TryFromSpecImpl<u32> for AffectedAreaType {
    open spec fn obeys_try_from_spec() -> bool {
        true
    }

    open spec fn try_from_spec(c: u32) -> Result<AffectedAreaType, PacketError> {
        match AffectedAreaType::of_code(c) {
            Some(v) => Ok(v),
            None => Err(PacketError::InvalidEnumPrimitive(c as u32)),
        }
    }
}
/// An affected area leaving the field.
#[derive(Debug, Clone, Copy, PartialEq, Eq, Structural)]
pub struct AffectedAreaRemoveResp {
    pub id: ObjectId,
}

/// A message box placed on the field.
#[derive(Debug, Clone)]
pub struct MessageBoxCreateResp {
    pub id: ObjectId,
    pub item_id: ItemId,
    pub message: String,
    pub char_name: String,
    pub host_pos: Vec2,
}

/// The answer that a message box could not be placed.
#[derive(Debug, Clone, Copy, PartialEq, Eq, Structural)]
pub struct MessageBoxCreateFailedResp;

/// A message box leaving the field.
#[derive(Debug, Clone, Copy, PartialEq, Eq, Structural)]
pub struct MessageBoxRemoveResp {
    pub no_fade_out: bool,
    pub id: ObjectId,
}

/// A packet of the npc pool: the npc's object id and the data.
#[derive(Debug, Clone)]
pub struct NpcPoolPacket<T> {
    pub id: ObjectId,
    pub data: T,
}

/// An npc leaving the field.
#[derive(Debug, Clone, Copy, PartialEq, Eq, Structural)]
pub struct NpcLeaveFieldResp {
    pub id: ObjectId,
}

/// The npcs whose limited info is disabled.
#[derive(Debug, Clone)]
pub struct NpcUpdateLimitedDisableInfoResp {
    pub data: Vec<ObjectId>,
}

/// A script of an npc, with the dates it runs between.
#[derive(Debug, Clone)]
pub struct ScriptInfo {
    pub script: String,
    pub start_date: u32,
    pub end_date: u32,
}

/// A script that replaces the one of an npc template.
#[derive(Debug, Clone)]
pub struct ModScript {
    pub template_id: u32,
    pub script: ScriptInfo,
}

/// The scripts that replace those of npc templates.
#[derive(Debug, Clone)]
pub struct NpcSetScriptResp {
    pub scripts: Vec<ModScript>,
}

/// Whether an npc is enabled.
#[derive(Debug, Clone, Copy, PartialEq, Eq, Structural)]
pub struct NpcUpdateLimitedInfo {
    pub enabled: bool,
}

/// A special action an npc performs.
#[derive(Debug, Clone)]
pub struct NpcSetSpecialAction {
    pub action: String,
}

/// A player selecting an npc.
#[derive(Debug, Clone, Copy, PartialEq, Eq, Structural)]
pub struct UserSelectNpcReq {
    pub id: NpcId,
    pub pos: Vec2,
}

/// The balloon over a hired merchant's mini room.
#[derive(Debug, Clone)]
pub struct EmployeeMiniRoomBalloon {
    pub sn: u32,
    pub text: String,
    pub spec: u8,
    pub cur_users: u8,
    pub max_users: u8,
}

/// A hired merchant entering the field.
#[derive(Debug, Clone)]
pub struct EmployeeCreateResp {
    pub id: ObjectId,
    pub employee_tmpl_id: u32,
    pub pos: Vec2,
    pub fh: FootholdId,
    pub char_name: String,
    pub balloon: Option<EmployeeMiniRoomBalloon>,
}

/// A change of a hired merchant's balloon.
#[derive(Debug, Clone)]
pub struct EmployeeMiniRoomBalloonResp {
    pub employee_id: ObjectId,
    pub balloon: Option<EmployeeMiniRoomBalloon>,
}

/// A hired merchant leaving the field.
#[derive(Debug, Clone, Copy, PartialEq, Eq, Structural)]
pub struct EmployeeRemoveResp {
    pub id: ObjectId,
}

/// A mystic door leaving the field.
#[derive(Debug, Clone, Copy, PartialEq, Eq, Structural)]
pub struct OpenGateRemoveResp {
    pub leave: u8,
    pub char_id: CharacterId,
    pub first: bool,
}

/// A player entering a mystic door.
#[derive(Debug, Clone, Copy, PartialEq, Eq, Structural)]
pub struct OpenGateEntryReq {
    pub char_id: CharacterId,
    pub pos: Vec2,
    pub first: bool,
}

} // verus!
