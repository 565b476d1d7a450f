use vstd::prelude::*;
use vstd::std_specs::convert::{FromSpecImpl, TryFromSpecImpl};

use crate::error::PacketError;
use crate::ids::{CharacterId, ObjectId};

verus! {

/// The identifier of a summon.
pub type SummonId = ObjectId;

/// How a summon enters the field.
#[derive(Debug, Clone, Copy, PartialEq, Eq, Structural)]
pub enum SummonEnterType {
    Default,
    CreateSummon,
    ReregisterSummon,
}

impl SummonEnterType {
    /// The wire code of a value.
    pub open spec fn code_of(self) -> u8 {
        match self {
            SummonEnterType::Default => 0u8,
            SummonEnterType::CreateSummon => 1u8,
            SummonEnterType::ReregisterSummon => 2u8,
        }
    }

    /// The value a wire code stands for, if any.
    pub open spec fn of_code(c: u8) -> Option<SummonEnterType> {
        match c {
            0u8 => Some(SummonEnterType::Default),
            1u8 => Some(SummonEnterType::CreateSummon),
            2u8 => Some(SummonEnterType::ReregisterSummon),
            _ => None,
        }
    }

    /// Decoding the code of a value gives that value back.
    pub proof fn lemma_code_roundtrip(self)
        ensures
            SummonEnterType::of_code(self.code_of()) == Some(self),
    {
    }

    /// A code that decodes to a value is that value's code.
    pub proof fn lemma_decode_roundtrip(c: u8)
        ensures
            SummonEnterType::of_code(c) matches Some(v) ==> v.code_of() == c,
    {
    }
}

impl From<SummonEnterType> for u8 {
    fn from(v: SummonEnterType) -> (r: u8) {
        match v {
            SummonEnterType::Default => 0,
            SummonEnterType::CreateSummon => 1,
            SummonEnterType::ReregisterSummon => 2,
        }
    }
}

impl FromSpecImpl<SummonEnterType> for u8 {
    open spec fn obeys_from_spec() -> bool {
        true
    }

    open spec fn from_spec(v: SummonEnterType) -> u8 {
        v.code_of()
    }
}

impl TryFrom<u8> for SummonEnterType {
    type Error = PacketError;

    fn try_from(c: u8) -> (r: Result<SummonEnterType, PacketError>) {
        match c {
            0 => Ok(SummonEnterType::Default),
            1 => Ok(SummonEnterType::CreateSummon),
            2 => Ok(SummonEnterType::ReregisterSummon),
            _ => Err(PacketError::InvalidEnumPrimitive(c as u32)),
        }
    }
}

impl TryFromSpecImpl<u8> for SummonEnterType {
    open spec fn obeys_try_from_spec() -> bool {
        true
    }

    open spec fn try_from_spec(c: u8) -> Result<SummonEnterType, PacketError> {
        match SummonEnterType::of_code(c) {
            Some(v) => Ok(v),
            None => Err(PacketError::InvalidEnumPrimitive(c as u32)),
        }
    }
}
/// Why a summon leaves the field.
#[derive(Debug, Clone, Copy, PartialEq, Eq, Structural)]
pub enum SummonLeaveType {
    Update,
    Die,
    Mystery,
    Default,
    LeaveField,
    SelfDestruct,
    Gabiota,
    EnterForbidenMap,
    EnterEventField,
    UserDead,
    OnRemove,
    TeslaCoilError,
    NotAbleMultiple,
    NotSelfDestruct,
    SummonCountOver,
}

impl SummonLeaveType {
    /// The wire code of a value.
    pub open spec fn code_of(self) -> u8 {
        match self {
            SummonLeaveType::Update => 0u8,
            SummonLeaveType::Die => 1u8,
            SummonLeaveType::Mystery => 2u8,
            SummonLeaveType::Default => 3u8,
            SummonLeaveType::LeaveField => 4u8,
            SummonLeaveType::SelfDestruct => 5u8,
            SummonLeaveType::Gabiota => 6u8,
            SummonLeaveType::EnterForbidenMap => 7u8,
            SummonLeaveType::EnterEventField => 8u8,
            SummonLeaveType::UserDead => 9u8,
            SummonLeaveType::OnRemove => 10u8,
            SummonLeaveType::TeslaCoilError => 11u8,
            SummonLeaveType::NotAbleMultiple => 12u8,
            SummonLeaveType::NotSelfDestruct => 13u8,
            SummonLeaveType::SummonCountOver => 14u8,
        }
    }

    /// The value a wire code stands for, if any.
    pub open spec fn of_code(c: u8) -> Option<SummonLeaveType> {
        match c {
            0u8 => Some(SummonLeaveType::Update),
            1u8 => Some(SummonLeaveType::Die),
            2u8 => Some(SummonLeaveType::Mystery),
            3u8 => Some(SummonLeaveType::Default),
            4u8 => Some(SummonLeaveType::LeaveField),
            5u8 => Some(SummonLeaveType::SelfDestruct),
            6u8 => Some(SummonLeaveType::Gabiota),
            7u8 => Some(SummonLeaveType::EnterForbidenMap),
            8u8 => Some(SummonLeaveType::EnterEventField),
            9u8 => Some(SummonLeaveType::UserDead),
            10u8 => Some(SummonLeaveType::OnRemove),
            11u8 => Some(SummonLeaveType::TeslaCoilError),
            12u8 => Some(SummonLeaveType::NotAbleMultiple),
            13u8 => Some(SummonLeaveType::NotSelfDestruct),
            14u8 => Some(SummonLeaveType::SummonCountOver),
            _ => None,
        }
    }

    /// Decoding the code of a value gives that value back.
    pub proof fn lemma_code_roundtrip(self)
        ensures
            SummonLeaveType::of_code(self.code_of()) == Some(self),
    {
    }

    /// A code that decodes to a value is that value's code.
    pub proof fn lemma_decode_roundtrip(c: u8)
        ensures
            SummonLeaveType::of_code(c) matches Some(v) ==> v.code_of() == c,
    {
    }
}

impl From<SummonLeaveType> for u8 {
    fn from(v: SummonLeaveType) -> (r: u8) {
        match v {
            SummonLeaveType::Update => 0,
            SummonLeaveType::Die => 1,
            SummonLeaveType::Mystery => 2,
            SummonLeaveType::Default => 3,
            SummonLeaveType::LeaveField => 4,
            SummonLeaveType::SelfDestruct => 5,
            SummonLeaveType::Gabiota => 6,
            SummonLeaveType::EnterForbidenMap => 7,
            SummonLeaveType::EnterEventField => 8,
            SummonLeaveType::UserDead => 9,
            SummonLeaveType::OnRemove => 10,
            SummonLeaveType::TeslaCoilError => 11,
            SummonLeaveType::NotAbleMultiple => 12,
            SummonLeaveType::NotSelfDestruct => 13,
            SummonLeaveType::SummonCountOver => 14,
        }
    }
}

impl FromSpecImpl<SummonLeaveType> for u8 {
    open spec fn obeys_from_spec() -> bool {
        true
    }

    open spec fn from_spec(v: SummonLeaveType) -> u8 {
        v.code_of()
    }
}

impl TryFrom<u8> for SummonLeaveType {
    type Error = PacketError;

    fn try_from(c: u8) -> (r: Result<SummonLeaveType, PacketError>) {
        match c {
            0 => Ok(SummonLeaveType::Update),
            1 => Ok(SummonLeaveType::Die),
            2 => Ok(SummonLeaveType::Mystery),
            3 => Ok(SummonLeaveType::Default),
            4 => Ok(SummonLeaveType::LeaveField),
            5 => Ok(SummonLeaveType::SelfDestruct),
            6 => Ok(SummonLeaveType::Gabiota),
            7 => Ok(SummonLeaveType::EnterForbidenMap),
            8 => Ok(SummonLeaveType::EnterEventField),
            9 => Ok(SummonLeaveType::UserDead),
            10 => Ok(SummonLeaveType::OnRemove),
            11 => Ok(SummonLeaveType::TeslaCoilError),
            12 => Ok(SummonLeaveType::NotAbleMultiple),
            13 => Ok(SummonLeaveType::NotSelfDestruct),
            14 => Ok(SummonLeaveType::SummonCountOver),
            _ => Err(PacketError::InvalidEnumPrimitive(c as u32)),
        }
    }
}

impl TryFromSpecImpl<u8> for SummonLeaveType {
    open spec fn obeys_try_from_spec() -> bool {
        true
    }

    open spec fn try_from_spec(c: u8) -> Result<SummonLeaveType, PacketError> {
        match SummonLeaveType::of_code(c) {
            Some(v) => Ok(v),
            None => Err(PacketError::InvalidEnumPrimitive(c as u32)),
        }
    }
}
/// How a summon assists its owner.
#[derive(Debug, Clone, Copy, PartialEq, Eq, Structural)]
pub enum SummonAssistType {
    NoAssist,
    Attack,
    Heal,
    AttackEx,
    AttackEx2,
    ManualAttack,
}

impl SummonAssistType {
    /// The wire code of a value.
    pub open spec fn code_of(self) -> u8 {
        match self {
            SummonAssistType::NoAssist => 0u8,
            SummonAssistType::Attack => 1u8,
            SummonAssistType::Heal => 2u8,
            SummonAssistType::AttackEx => 3u8,
            SummonAssistType::AttackEx2 => 4u8,
            SummonAssistType::ManualAttack => 5u8,
        }
    }

    /// The value a wire code stands for, if any.
    pub open spec fn of_code(c: u8) -> Option<SummonAssistType> {
        match c {
            0u8 => Some(SummonAssistType::NoAssist),
            1u8 => Some(SummonAssistType::Attack),
            2u8 => Some(SummonAssistType::Heal),
            3u8 => Some(SummonAssistType::AttackEx),
            4u8 => Some(SummonAssistType::AttackEx2),
            5u8 => Some(SummonAssistType::ManualAttack),
            _ => None,
        }
    }

    /// Decoding the code of a value gives that value back.
    pub proof fn lemma_code_roundtrip(self)
        ensures
            SummonAssistType::of_code(self.code_of()) == Some(self),
    {
    }

    /// A code that decodes to a value is that value's code.
    pub proof fn lemma_decode_roundtrip(c: u8)
        ensures
            SummonAssistType::of_code(c) matches Some(v) ==> v.code_of() == c,
    {
    }
}

impl From<SummonAssistType> for u8 {
    fn from(v: SummonAssistType) -> (r: u8) {
        match v {
            SummonAssistType::NoAssist => 0,
            SummonAssistType::Attack => 1,
            SummonAssistType::Heal => 2,
            SummonAssistType::AttackEx => 3,
            SummonAssistType::AttackEx2 => 4,
            SummonAssistType::ManualAttack => 5,
        }
    }
}

impl FromSpecImpl<SummonAssistType> for u8 {
    open spec fn obeys_from_spec() -> bool {
        true
    }

    open spec fn from_spec(v: SummonAssistType) -> u8 {
        v.code_of()
    }
}

impl TryFrom<u8> for SummonAssistType {
    type Error = PacketError;

    fn try_from(c: u8) -> (r: Result<SummonAssistType, PacketError>) {
        match c {
            0 => Ok(SummonAssistType::NoAssist),
            1 => Ok(SummonAssistType::Attack),
            2 => Ok(SummonAssistType::Heal),
            3 => Ok(SummonAssistType::AttackEx),
            4 => Ok(SummonAssistType::AttackEx2),
            5 => Ok(SummonAssistType::ManualAttack),
            _ => Err(PacketError::InvalidEnumPrimitive(c as u32)),
        }
    }
}

impl TryFromSpecImpl<u8> for SummonAssistType {
    open spec fn obeys_try_from_spec() -> bool {
        true
    }

    open spec fn try_from_spec(c: u8) -> Result<SummonAssistType, PacketError> {
        match SummonAssistType::of_code(c) {
            Some(v) => Ok(v),
            None => Err(PacketError::InvalidEnumPrimitive(c as u32)),
        }
    }
}
/// How a summon moves.
#[derive(Debug, Clone, Copy, PartialEq, Eq, Structural)]
pub enum SummonMoveAbility {
    NoMove,
    Follow,
    WalkRandom,
    Jump,
    CircleFollow,
    FlyRandom,
    Escort,
}

impl SummonMoveAbility {
    /// The wire code of a value.
    pub open spec fn code_of(self) -> u8 {
        match self {
            SummonMoveAbility::NoMove => 0u8,
            SummonMoveAbility::Follow => 1u8,
            SummonMoveAbility::WalkRandom => 2u8,
            SummonMoveAbility::Jump => 3u8,
            SummonMoveAbility::CircleFollow => 4u8,
            SummonMoveAbility::FlyRandom => 5u8,
            SummonMoveAbility::Escort => 6u8,
        }
    }

    /// The value a wire code stands for, if any.
    pub open spec fn of_code(c: u8) -> Option<SummonMoveAbility> {
        match c {
            0u8 => Some(SummonMoveAbility::NoMove),
            1u8 => Some(SummonMoveAbility::Follow),
            2u8 => Some(SummonMoveAbility::WalkRandom),
            3u8 => Some(SummonMoveAbility::Jump),
            4u8 => Some(SummonMoveAbility::CircleFollow),
            5u8 => Some(SummonMoveAbility::FlyRandom),
            6u8 => Some(SummonMoveAbility::Escort),
            _ => None,
        }
    }

    /// Decoding the code of a value gives that value back.
    pub proof fn lemma_code_roundtrip(self)
        ensures
            SummonMoveAbility::of_code(self.code_of()) == Some(self),
    {
    }

    /// A code that decodes to a value is that value's code.
    pub proof fn lemma_decode_roundtrip(c: u8)
        ensures
            SummonMoveAbility::of_code(c) matches Some(v) ==> v.code_of() == c,
    {
    }
}

impl From<SummonMoveAbility> for u8 {
    fn from(v: SummonMoveAbility) -> (r: u8) {
        match v {
            SummonMoveAbility::NoMove => 0,
            SummonMoveAbility::Follow => 1,
            SummonMoveAbility::WalkRandom => 2,
            SummonMoveAbility::Jump => 3,
            SummonMoveAbility::CircleFollow => 4,
            SummonMoveAbility::FlyRandom => 5,
            SummonMoveAbility::Escort => 6,
        }
    }
}

impl FromSpecImpl<SummonMoveAbility> for u8 {
    open spec fn obeys_from_spec() -> bool {
        true
    }

    open spec fn from_spec(v: SummonMoveAbility) -> u8 {
        v.code_of()
    }
}

impl TryFrom<u8> for SummonMoveAbility {
    type Error = PacketError;

    fn try_from(c: u8) -> (r: Result<SummonMoveAbility, PacketError>) {
        match c {
            0 => Ok(SummonMoveAbility::NoMove),
            1 => Ok(SummonMoveAbility::Follow),
            2 => Ok(SummonMoveAbility::WalkRandom),
            3 => Ok(SummonMoveAbility::Jump),
            4 => Ok(SummonMoveAbility::CircleFollow),
            5 => Ok(SummonMoveAbility::FlyRandom),
            6 => Ok(SummonMoveAbility::Escort),
            _ => Err(PacketError::InvalidEnumPrimitive(c as u32)),
        }
    }
}

impl TryFromSpecImpl<u8> for SummonMoveAbility {
    open spec fn obeys_try_from_spec() -> bool {
        true
    }

    open spec fn try_from_spec(c: u8) -> Result<SummonMoveAbility, PacketError> {
        match SummonMoveAbility::of_code(c) {
            Some(v) => Ok(v),
            None => Err(PacketError::InvalidEnumPrimitive(c as u32)),
        }
    }
}
/// The action a summon performs.
#[derive(Debug, Clone, Copy, PartialEq, Eq, Structural)]
pub enum SummonMoveAction {
    Walk,
    Move,
    Stand,
    Jump,
    Alert,
    Prone,
    Fly1,
    Ladder,
    Rope,
    Dead,
    Sit,
    Stand0,
    Hungry,
    Rest0,
    Rest1,
    Hang,
    Chase,
    Fly2,
    Fly2Move,
    Dash2,
    RocketBooster,
    TeslaCoilTriangle,
    NoMove,
}

impl SummonMoveAction {
    /// The wire code of a value.
    pub open spec fn code_of(self) -> u8 {
        match self {
            SummonMoveAction::Walk => 0u8,
            SummonMoveAction::Move => 1u8,
            SummonMoveAction::Stand => 2u8,
            SummonMoveAction::Jump => 3u8,
            SummonMoveAction::Alert => 4u8,
            SummonMoveAction::Prone => 5u8,
            SummonMoveAction::Fly1 => 6u8,
            SummonMoveAction::Ladder => 7u8,
            SummonMoveAction::Rope => 8u8,
            SummonMoveAction::Dead => 9u8,
            SummonMoveAction::Sit => 10u8,
            SummonMoveAction::Stand0 => 11u8,
            SummonMoveAction::Hungry => 12u8,
            SummonMoveAction::Rest0 => 13u8,
            SummonMoveAction::Rest1 => 14u8,
            SummonMoveAction::Hang => 15u8,
            SummonMoveAction::Chase => 16u8,
            SummonMoveAction::Fly2 => 17u8,
            SummonMoveAction::Fly2Move => 18u8,
            SummonMoveAction::Dash2 => 19u8,
            SummonMoveAction::RocketBooster => 20u8,
            SummonMoveAction::TeslaCoilTriangle => 21u8,
            SummonMoveAction::NoMove => 22u8,
        }
    }

    /// The value a wire code stands for, if any.
    pub open spec fn of_code(c: u8) -> Option<SummonMoveAction> {
        match c {
            0u8 => Some(SummonMoveAction::Walk),
            1u8 => Some(SummonMoveAction::Move),
            2u8 => Some(SummonMoveAction::Stand),
            3u8 => Some(SummonMoveAction::Jump),
            4u8 => Some(SummonMoveAction::Alert),
            5u8 => Some(SummonMoveAction::Prone),
            6u8 => Some(SummonMoveAction::Fly1),
            7u8 => Some(SummonMoveAction::Ladder),
            8u8 => Some(SummonMoveAction::Rope),
            9u8 => Some(SummonMoveAction::Dead),
            10u8 => Some(SummonMoveAction::Sit),
            11u8 => Some(SummonMoveAction::Stand0),
            12u8 => Some(SummonMoveAction::Hungry),
            13u8 => Some(SummonMoveAction::Rest0),
            14u8 => Some(SummonMoveAction::Rest1),
            15u8 => Some(SummonMoveAction::Hang),
            16u8 => Some(SummonMoveAction::Chase),
            17u8 => Some(SummonMoveAction::Fly2),
            18u8 => Some(SummonMoveAction::Fly2Move),
            19u8 => Some(SummonMoveAction::Dash2),
            20u8 => Some(SummonMoveAction::RocketBooster),
            21u8 => Some(SummonMoveAction::TeslaCoilTriangle),
            22u8 => Some(SummonMoveAction::NoMove),
            _ => None,
        }
    }

    /// Decoding the code of a value gives that value back.
    pub proof fn lemma_code_roundtrip(self)
        ensures
            SummonMoveAction::of_code(self.code_of()) == Some(self),
    {
    }

    /// A code that decodes to a value is that value's code.
    pub proof fn lemma_decode_roundtrip(c: u8)
        ensures
            SummonMoveAction::of_code(c) matches Some(v) ==> v.code_of() == c,
    {
    }
}

impl From<SummonMoveAction> for u8 {
    fn from(v: SummonMoveAction) -> (r: u8) {
        match v {
            SummonMoveAction::Walk => 0,
            SummonMoveAction::Move => 1,
            SummonMoveAction::Stand => 2,
            SummonMoveAction::Jump => 3,
            SummonMoveAction::Alert => 4,
            SummonMoveAction::Prone => 5,
            SummonMoveAction::Fly1 => 6,
            SummonMoveAction::Ladder => 7,
            SummonMoveAction::Rope => 8,
            SummonMoveAction::Dead => 9,
            SummonMoveAction::Sit => 10,
            SummonMoveAction::Stand0 => 11,
            SummonMoveAction::Hungry => 12,
            SummonMoveAction::Rest0 => 13,
            SummonMoveAction::Rest1 => 14,
            SummonMoveAction::Hang => 15,
            SummonMoveAction::Chase => 16,
            SummonMoveAction::Fly2 => 17,
            SummonMoveAction::Fly2Move => 18,
            SummonMoveAction::Dash2 => 19,
            SummonMoveAction::RocketBooster => 20,
            SummonMoveAction::TeslaCoilTriangle => 21,
            SummonMoveAction::NoMove => 22,
        }
    }
}

impl FromSpecImpl<SummonMoveAction> for u8 {
    open spec fn obeys_from_spec() -> bool {
        true
    }

    open spec fn from_spec(v: SummonMoveAction) -> u8 {
        v.code_of()
    }
}

impl TryFrom<u8> for SummonMoveAction {
    type Error = PacketError;

    fn try_from(c: u8) -> (r: Result<SummonMoveAction, PacketError>) {
        match c {
            0 => Ok(SummonMoveAction::Walk),
            1 => Ok(SummonMoveAction::Move),
            2 => Ok(SummonMoveAction::Stand),
            3 => Ok(SummonMoveAction::Jump),
            4 => Ok(SummonMoveAction::Alert),
            5 => Ok(SummonMoveAction::Prone),
            6 => Ok(SummonMoveAction::Fly1),
            7 => Ok(SummonMoveAction::Ladder),
            8 => Ok(SummonMoveAction::Rope),
            9 => Ok(SummonMoveAction::Dead),
            10 => Ok(SummonMoveAction::Sit),
            11 => Ok(SummonMoveAction::Stand0),
            12 => Ok(SummonMoveAction::Hungry),
            13 => Ok(SummonMoveAction::Rest0),
            14 => Ok(SummonMoveAction::Rest1),
            15 => Ok(SummonMoveAction::Hang),
            16 => Ok(SummonMoveAction::Chase),
            17 => Ok(SummonMoveAction::Fly2),
            18 => Ok(SummonMoveAction::Fly2Move),
            19 => Ok(SummonMoveAction::Dash2),
            20 => Ok(SummonMoveAction::RocketBooster),
            21 => Ok(SummonMoveAction::TeslaCoilTriangle),
            22 => Ok(SummonMoveAction::NoMove),
            _ => Err(PacketError::InvalidEnumPrimitive(c as u32)),
        }
    }
}

impl TryFromSpecImpl<u8> for SummonMoveAction {
    open spec fn obeys_try_from_spec() -> bool {
        true
    }

    open spec fn try_from_spec(c: u8) -> Result<SummonMoveAction, PacketError> {
        match SummonMoveAction::of_code(c) {
            Some(v) => Ok(v),
            None => Err(PacketError::InvalidEnumPrimitive(c as u32)),
        }
    }
}
/// The buff a beholder gives.
#[allow(non_camel_case_types)]
#[derive(Debug, Clone, Copy, PartialEq, Eq, Structural)]
pub enum BeholderBuffIx {
    EPDD,
    EMDD,
    ACC,
    EVA,
    EPAD,
}

impl BeholderBuffIx {
    /// The wire code of a value.
    pub open spec fn code_of(self) -> u8 {
        match self {
            BeholderBuffIx::EPDD => 0u8,
            BeholderBuffIx::EMDD => 1u8,
            BeholderBuffIx::ACC => 2u8,
            BeholderBuffIx::EVA => 3u8,
            BeholderBuffIx::EPAD => 4u8,
        }
    }

    /// The value a wire code stands for, if any.
    pub open spec fn of_code(c: u8) -> Option<BeholderBuffIx> {
        match c {
            0u8 => Some(BeholderBuffIx::EPDD),
            1u8 => Some(BeholderBuffIx::EMDD),
            2u8 => Some(BeholderBuffIx::ACC),
            3u8 => Some(BeholderBuffIx::EVA),
            4u8 => Some(BeholderBuffIx::EPAD),
            _ => None,
        }
    }

    /// Decoding the code of a value gives that value back.
    pub proof fn lemma_code_roundtrip(self)
        ensures
            BeholderBuffIx::of_code(self.code_of()) == Some(self),
    {
    }

    /// A code that decodes to a value is that value's code.
    pub proof fn lemma_decode_roundtrip(c: u8)
        ensures
            BeholderBuffIx::of_code(c) matches Some(v) ==> v.code_of() == c,
    {
    }
}

impl From<BeholderBuffIx> for u8 {
    fn from(v: BeholderBuffIx) -> (r: u8) {
        match v {
            BeholderBuffIx::EPDD => 0,
            BeholderBuffIx::EMDD => 1,
            BeholderBuffIx::ACC => 2,
            BeholderBuffIx::EVA => 3,
            BeholderBuffIx::EPAD => 4,
        }
    }
}

impl FromSpecImpl<BeholderBuffIx> for u8 {
    open spec fn obeys_from_spec() -> bool {
        true
    }

    open spec fn from_spec(v: BeholderBuffIx) -> u8 {
        v.code_of()
    }
}

impl TryFrom<u8> for BeholderBuffIx {
    type Error = PacketError;

    fn try_from(c: u8) -> (r: Result<BeholderBuffIx, PacketError>) {
        match c {
            0 => Ok(BeholderBuffIx::EPDD),
            1 => Ok(BeholderBuffIx::EMDD),
            2 => Ok(BeholderBuffIx::ACC),
            3 => Ok(BeholderBuffIx::EVA),
            4 => Ok(BeholderBuffIx::EPAD),
            _ => Err(PacketError::InvalidEnumPrimitive(c as u32)),
        }
    }
}

impl TryFromSpecImpl<u8> for BeholderBuffIx {
    open spec fn obeys_try_from_spec() -> bool {
        true
    }

    open spec fn try_from_spec(c: u8) -> Result<BeholderBuffIx, PacketError> {
        match BeholderBuffIx::of_code(c) {
            Some(v) => Ok(v),
            None => Err(PacketError::InvalidEnumPrimitive(c as u32)),
        }
    }
}
/// A summon leaving the field.
#[derive(Debug, Clone, Copy, PartialEq, Eq, Structural)]
pub struct SummonDeleteResp {
    pub char: CharacterId,
    pub summon_id: SummonId,
    pub leave: SummonLeaveType,
}

/// A summon's hit on a mob.
#[derive(Debug, Clone, Copy, PartialEq, Eq, Structural)]
pub struct SummonAttackInfo {
    pub target_mob: ObjectId,
    pub hit_action: u8,
    pub dmg: u32,
}

/// A summon using its skill.
#[derive(Debug, Clone, Copy, PartialEq, Eq, Structural)]
pub struct SummonSkillResp {
    pub char: CharacterId,
    pub summon_id: SummonId,
    pub attack_action: bool,
}

/// A summon being hit.
#[derive(Debug, Clone, Copy, PartialEq, Eq, Structural)]
pub struct SummonHitResp {
    pub char: CharacterId,
    pub summon_id: SummonId,
    pub atk_index: i8,
    pub damage: u32,
    pub mob_tmpl_id: u32,
    pub left: bool,
}

} // verus!
