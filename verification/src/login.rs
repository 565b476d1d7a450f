use vstd::prelude::*;
use vstd::std_specs::convert::{FromSpecImpl, TryFromSpecImpl};

use crate::error::PacketError;
use crate::ids::Vec2;
use crate::shared::Gender;

verus! {

/// The identifier of the client's machine.
#[derive(Debug, Clone, Copy, PartialEq, Eq)]
pub struct MachineId(pub [u8; 16]);

impl Default for MachineId {
    fn default() -> (r: MachineId)
        ensures
            r.0@ == seq![0u8; 16],
    {
        let r = MachineId([0u8; 16]);
        assert(r.0@ =~= seq![0u8; 16]);
        r
    }
}

/// The key the client uses after a login.
pub type ClientKey = [u8; 8];

/// The client's request for a security handle.
#[derive(Debug, Clone, Copy, PartialEq, Eq, Structural)]
pub struct CreateSecurityHandleReq;

/// How the client was started.
#[derive(Debug, Clone, Copy, PartialEq, Eq, Structural)]
pub enum StartMode {
    WebStart,
    Unknown1,
    GameLaunching,
}

impl StartMode {
    /// The wire code of a value.
    pub open spec fn code_of(self) -> u8 {
        match self {
            StartMode::WebStart => 0u8,
            StartMode::Unknown1 => 1u8,
            StartMode::GameLaunching => 2u8,
        }
    }

    /// The value a wire code stands for, if any.
    pub open spec fn of_code(c: u8) -> Option<StartMode> {
        match c {
            0u8 => Some(StartMode::WebStart),
            1u8 => Some(StartMode::Unknown1),
            2u8 => Some(StartMode::GameLaunching),
            _ => None,
        }
    }

    /// Decoding the code of a value gives that value back.
    pub proof fn lemma_code_roundtrip(self)
        ensures
            StartMode::of_code(self.code_of()) == Some(self),
    {
    }

    /// A code that decodes to a value is that value's code.
    pub proof fn lemma_decode_roundtrip(c: u8)
        ensures
            StartMode::of_code(c) matches Some(v) ==> v.code_of() == c,
    {
    }
}

impl From<StartMode> for u8 {
    fn from(v: StartMode) -> (r: u8) {
        match v {
            StartMode::WebStart => 0,
            StartMode::Unknown1 => 1,
            StartMode::GameLaunching => 2,
        }
    }
}

impl FromSpecImpl<StartMode> for u8 {
    open spec fn obeys_from_spec() -> bool {
        true
    }

    open spec fn from_spec(v: StartMode) -> u8 {
        v.code_of()
    }
}

impl TryFrom<u8> for StartMode {
    type Error = PacketError;

    fn try_from(c: u8) -> (r: Result<StartMode, PacketError>) {
        match c {
            0 => Ok(StartMode::WebStart),
            1 => Ok(StartMode::Unknown1),
            2 => Ok(StartMode::GameLaunching),
            _ => Err(PacketError::InvalidEnumPrimitive(c as u32)),
        }
    }
}

impl TryFromSpecImpl<u8> for StartMode {
    open spec fn obeys_try_from_spec() -> bool {
        true
    }

    open spec fn try_from_spec(c: u8) -> Result<StartMode, PacketError> {
        match StartMode::of_code(c) {
            Some(v) => Ok(v),
            None => Err(PacketError::InvalidEnumPrimitive(c as u32)),
        }
    }
}
impl StartMode {
    /// Whether the client sends its system info with this start mode.
    pub fn has_system_info(&self) -> (r: bool)
        ensures
            r == (*self == StartMode::Unknown1),
    {
        *self == StartMode::Unknown1
    }
}

/// What the client says of its system.
#[derive(Debug, Clone)]
pub struct SystemInfo {
    pub unknown: String,
    pub machine_id: MachineId,
    pub game_room_client: u32,
    pub start_mode: u8,
}

/// The start mode, with the system info where that mode has it.
#[derive(Debug, Clone)]
pub struct StartModeInfo {
    pub start_mode: StartMode,
    pub system_info: Option<SystemInfo>,
}

/// The registration state of an account.
#[derive(Debug, Clone, Copy, PartialEq, Eq, Structural)]
pub enum RegStateId {
    Registered0,
    Registered1,
    Verify2,
    Verify3,
}

impl RegStateId {
    /// The wire code of a value.
    pub open spec fn code_of(self) -> u8 {
        match self {
            RegStateId::Registered0 => 0u8,
            RegStateId::Registered1 => 1u8,
            RegStateId::Verify2 => 2u8,
            RegStateId::Verify3 => 3u8,
        }
    }

    /// The value a wire code stands for, if any.
    pub open spec fn of_code(c: u8) -> Option<RegStateId> {
        match c {
            0u8 => Some(RegStateId::Registered0),
            1u8 => Some(RegStateId::Registered1),
            2u8 => Some(RegStateId::Verify2),
            3u8 => Some(RegStateId::Verify3),
            _ => None,
        }
    }

    /// Decoding the code of a value gives that value back.
    pub proof fn lemma_code_roundtrip(self)
        ensures
            RegStateId::of_code(self.code_of()) == Some(self),
    {
    }

    /// A code that decodes to a value is that value's code.
    pub proof fn lemma_decode_roundtrip(c: u8)
        ensures
            RegStateId::of_code(c) matches Some(v) ==> v.code_of() == c,
    {
    }
}

impl From<RegStateId> for u8 {
    fn from(v: RegStateId) -> (r: u8) {
        match v {
            RegStateId::Registered0 => 0,
            RegStateId::Registered1 => 1,
            RegStateId::Verify2 => 2,
            RegStateId::Verify3 => 3,
        }
    }
}

impl FromSpecImpl<RegStateId> for u8 {
    open spec fn obeys_from_spec() -> bool {
        true
    }

    open spec fn from_spec(v: RegStateId) -> u8 {
        v.code_of()
    }
}

impl TryFrom<u8> for RegStateId {
    type Error = PacketError;

    fn try_from(c: u8) -> (r: Result<RegStateId, PacketError>) {
        match c {
            0 => Ok(RegStateId::Registered0),
            1 => Ok(RegStateId::Registered1),
            2 => Ok(RegStateId::Verify2),
            3 => Ok(RegStateId::Verify3),
            _ => Err(PacketError::InvalidEnumPrimitive(c as u32)),
        }
    }
}

impl TryFromSpecImpl<u8> for RegStateId {
    open spec fn obeys_try_from_spec() -> bool {
        true
    }

    open spec fn try_from_spec(c: u8) -> Result<RegStateId, PacketError> {
        match RegStateId::of_code(c) {
            Some(v) => Ok(v),
            None => Err(PacketError::InvalidEnumPrimitive(c as u32)),
        }
    }
}
impl Default for RegStateId {
    fn default() -> (r: RegStateId)
        ensures
            r == RegStateId::Registered0,
    {
        RegStateId::Registered0
    }
}

/// The header of a login result.
#[derive(Debug, Clone, Copy, PartialEq, Eq, Structural)]
pub struct LoginResultHeader {
    pub reg: RegStateId,
    pub unknown: u32,
}

impl Default for LoginResultHeader {
    fn default() -> (r: LoginResultHeader)
        ensures
            r == (LoginResultHeader { reg: RegStateId::Registered0, unknown: 0 }),
    {
        LoginResultHeader { reg: RegStateId::default(), unknown: 0 }
    }
}

/// How the second password is handled after a login.
#[derive(Debug, Clone, Copy, PartialEq, Eq, Structural)]
pub enum LoginOpt {
    EnableSecondPassword,
    CheckSecondPassword,
    NoSecondPassword1,
    NoSecondPassword2,
}

impl LoginOpt {
    /// The wire code of a value.
    pub open spec fn code_of(self) -> u8 {
        match self {
            LoginOpt::EnableSecondPassword => 0u8,
            LoginOpt::CheckSecondPassword => 1u8,
            LoginOpt::NoSecondPassword1 => 2u8,
            LoginOpt::NoSecondPassword2 => 3u8,
        }
    }

    /// The value a wire code stands for, if any.
    pub open spec fn of_code(c: u8) -> Option<LoginOpt> {
        match c {
            0u8 => Some(LoginOpt::EnableSecondPassword),
            1u8 => Some(LoginOpt::CheckSecondPassword),
            2u8 => Some(LoginOpt::NoSecondPassword1),
            3u8 => Some(LoginOpt::NoSecondPassword2),
            _ => None,
        }
    }

    /// Decoding the code of a value gives that value back.
    pub proof fn lemma_code_roundtrip(self)
        ensures
            LoginOpt::of_code(self.code_of()) == Some(self),
    {
    }

    /// A code that decodes to a value is that value's code.
    pub proof fn lemma_decode_roundtrip(c: u8)
        ensures
            LoginOpt::of_code(c) matches Some(v) ==> v.code_of() == c,
    {
    }
}

impl From<LoginOpt> for u8 {
    fn from(v: LoginOpt) -> (r: u8) {
        match v {
            LoginOpt::EnableSecondPassword => 0,
            LoginOpt::CheckSecondPassword => 1,
            LoginOpt::NoSecondPassword1 => 2,
            LoginOpt::NoSecondPassword2 => 3,
        }
    }
}

impl FromSpecImpl<LoginOpt> for u8 {
    open spec fn obeys_from_spec() -> bool {
        true
    }

    open spec fn from_spec(v: LoginOpt) -> u8 {
        v.code_of()
    }
}

impl TryFrom<u8> for LoginOpt {
    type Error = PacketError;

    fn try_from(c: u8) -> (r: Result<LoginOpt, PacketError>) {
        match c {
            0 => Ok(LoginOpt::EnableSecondPassword),
            1 => Ok(LoginOpt::CheckSecondPassword),
            2 => Ok(LoginOpt::NoSecondPassword1),
            3 => Ok(LoginOpt::NoSecondPassword2),
            _ => Err(PacketError::InvalidEnumPrimitive(c as u32)),
        }
    }
}

impl TryFromSpecImpl<u8> for LoginOpt {
    open spec fn obeys_try_from_spec() -> bool {
        true
    }

    open spec fn try_from_spec(c: u8) -> Result<LoginOpt, PacketError> {
        match LoginOpt::of_code(c) {
            Some(v) => Ok(v),
            None => Err(PacketError::InvalidEnumPrimitive(c as u32)),
        }
    }
}
/// The reason of a ban.
pub type BanReason = u8;

/// The hardware the client runs on.
#[derive(Debug, Clone)]
pub struct HardwareInfo {
    pub mac: String,
    pub hdd_serial_no: String,
}

/// An error of a single sign-on.
#[derive(Debug, Clone, Copy, PartialEq, Eq, Structural)]
pub struct SSOErrorLog {
    pub unknown1: u8,
    pub auth_reply_code: u32,
}

/// The answer to a pin check.
#[derive(Debug, Clone, Copy, PartialEq, Eq, Structural)]
pub enum CheckPinResp {
    Accepted,
    RegisterNewPin,
    InvalidPin,
    SystemError,
    EnterPin,
    ResetLogin,
}

impl CheckPinResp {
    /// The wire code of a value.
    pub open spec fn code_of(self) -> u8 {
        match self {
            CheckPinResp::Accepted => 0u8,
            CheckPinResp::RegisterNewPin => 1u8,
            CheckPinResp::InvalidPin => 2u8,
            CheckPinResp::SystemError => 3u8,
            CheckPinResp::EnterPin => 4u8,
            CheckPinResp::ResetLogin => 7u8,
        }
    }

    /// The value a wire code stands for, if any.
    pub open spec fn of_code(c: u8) -> Option<CheckPinResp> {
        match c {
            0u8 => Some(CheckPinResp::Accepted),
            1u8 => Some(CheckPinResp::RegisterNewPin),
            2u8 => Some(CheckPinResp::InvalidPin),
            3u8 => Some(CheckPinResp::SystemError),
            4u8 => Some(CheckPinResp::EnterPin),
            7u8 => Some(CheckPinResp::ResetLogin),
            _ => None,
        }
    }

    /// Decoding the code of a value gives that value back.
    pub proof fn lemma_code_roundtrip(self)
        ensures
            CheckPinResp::of_code(self.code_of()) == Some(self),
    {
    }

    /// A code that decodes to a value is that value's code.
    pub proof fn lemma_decode_roundtrip(c: u8)
        ensures
            CheckPinResp::of_code(c) matches Some(v) ==> v.code_of() == c,
    {
    }
}

impl From<CheckPinResp> for u8 {
    fn from(v: CheckPinResp) -> (r: u8) {
        match v {
            CheckPinResp::Accepted => 0,
            CheckPinResp::RegisterNewPin => 1,
            CheckPinResp::InvalidPin => 2,
            CheckPinResp::SystemError => 3,
            CheckPinResp::EnterPin => 4,
            CheckPinResp::ResetLogin => 7,
        }
    }
}

impl FromSpecImpl<CheckPinResp> for u8 {
    open spec fn obeys_from_spec() -> bool {
        true
    }

    open spec fn from_spec(v: CheckPinResp) -> u8 {
        v.code_of()
    }
}

impl TryFrom<u8> for CheckPinResp {
    type Error = PacketError;

    fn try_from(c: u8) -> (r: Result<CheckPinResp, PacketError>) {
        match c {
            0 => Ok(CheckPinResp::Accepted),
            1 => Ok(CheckPinResp::RegisterNewPin),
            2 => Ok(CheckPinResp::InvalidPin),
            3 => Ok(CheckPinResp::SystemError),
            4 => Ok(CheckPinResp::EnterPin),
            7 => Ok(CheckPinResp::ResetLogin),
            _ => Err(PacketError::InvalidEnumPrimitive(c as u32)),
        }
    }
}

impl TryFromSpecImpl<u8> for CheckPinResp {
    open spec fn obeys_try_from_spec() -> bool {
        true
    }

    open spec fn try_from_spec(c: u8) -> Result<CheckPinResp, PacketError> {
        match CheckPinResp::of_code(c) {
            Some(v) => Ok(v),
            None => Err(PacketError::InvalidEnumPrimitive(c as u32)),
        }
    }
}
/// Whether a pin was updated.
#[derive(Debug, Clone, Copy, PartialEq, Eq, Structural)]
pub struct UpdatePinResp {
    pub success: bool,
}

/// A pin the client sends.
#[derive(Debug, Clone)]
pub struct CheckPinData {
    pub is_on_select_world_result_request: bool,
    pub pin: String,
}

/// A request to check a pin, which may carry none.
#[derive(Debug, Clone)]
pub struct CheckPinReq {
    pub pin: Option<CheckPinData>,
}

/// A request to set a new pin, which may carry none.
#[derive(Debug, Clone)]
pub struct UpdatePinReq {
    pub pin: Option<String>,
}

/// The identifier of an account.
pub type AccountId = u32;

/// A login with name and password.
#[derive(Debug, Clone)]
pub struct CheckPasswordReq {
    pub id: String,
    pub pw: String,
    pub machine_id: MachineId,
    pub game_room_client: u32,
    pub start_mode: StartMode,
    pub u1: u8,
    pub u2: u8,
    pub partner_code: u32,
}

/// The grade of an account.
#[derive(Debug, Clone, Copy, PartialEq, Eq, Structural)]
pub struct GradeCode {
    pub bits: u8,
}

impl GradeCode {
    pub const NORMAL: u8 = 0x0;
    pub const ADMIN: u8 = 0x1;
    pub const FAKE_ADMIN: u8 = 0x20;

    /// The bits that name a flag.
    pub open spec fn known_bits() -> u8 {
        0x21
    }

    /// No flag set.
    pub fn empty() -> (r: GradeCode)
        ensures
            r.bits == 0,
    {
        GradeCode { bits: 0 }
    }

    /// The raw bits of the flags.
    pub fn bits(&self) -> (r: u8)
        ensures
            r == self.bits,
    {
        self.bits
    }

    /// The flags of the given bits, with the bits that name no flag dropped.
    pub fn from_bits_truncate(bits: u8) -> (r: GradeCode)
        ensures
            r.bits == bits & GradeCode::known_bits(),
    {
        GradeCode { bits: bits & 0x21 }
    }

    /// Whether every flag of `other` is set.
    pub fn contains(&self, other: u8) -> (r: bool)
        ensures
            r == (self.bits & other == other),
    {
        self.bits & other == other
    }

    /// Sets the flags of `other`; the others stay as they were.
    pub fn insert(&mut self, other: u8)
        ensures
            final(self).bits == old(self).bits | other,
            final(self).bits & other == other,
    {
        let old_bits = self.bits;
        self.bits = old_bits | other;
        assert((old_bits | other) & other == other) by (bit_vector);
    }
}

/// The sub grade of an account.
#[derive(Debug, Clone, Copy, PartialEq, Eq, Structural)]
pub struct SubGradeCode {
    pub bits: u16,
}

impl SubGradeCode {
    pub const NORMAL: u16 = 0x0;
    pub const PRIMARY_TRACE: u16 = 0x1;
    pub const SECONDARY_TRACE: u16 = 0x2;
    pub const ADMIN: u16 = 0x4;
    pub const MOB_MOVEMENT_OBSERVER: u16 = 0x8;
    pub const MANAGER: u16 = 0x10;
    pub const SUPER_GM: u16 = 0x20;
    pub const GM: u16 = 0x40;
    pub const USER_GM: u16 = 0x80;
    pub const TESTER: u16 = 0x100;

    /// The bits that name a flag.
    pub open spec fn known_bits() -> u16 {
        0x1ff
    }

    /// No flag set.
    pub fn empty() -> (r: SubGradeCode)
        ensures
            r.bits == 0,
    {
        SubGradeCode { bits: 0 }
    }

    /// The raw bits of the flags.
    pub fn bits(&self) -> (r: u16)
        ensures
            r == self.bits,
    {
        self.bits
    }

    /// The flags of the given bits, with the bits that name no flag dropped.
    pub fn from_bits_truncate(bits: u16) -> (r: SubGradeCode)
        ensures
            r.bits == bits & SubGradeCode::known_bits(),
    {
        SubGradeCode { bits: bits & 0x1ff }
    }

    /// Whether every flag of `other` is set.
    pub fn contains(&self, other: u16) -> (r: bool)
        ensures
            r == (self.bits & other == other),
    {
        self.bits & other == other
    }

    /// Sets the flags of `other`; the others stay as they were.
    pub fn insert(&mut self, other: u16)
        ensures
            final(self).bits == old(self).bits | other,
            final(self).bits & other == other,
    {
        let old_bits = self.bits;
        self.bits = old_bits | other;
        assert((old_bits | other) & other == other) by (bit_vector);
    }
}

/// The grade and sub grade of an account.
#[derive(Debug, Clone, Copy, PartialEq, Eq, Structural)]
pub struct AccountGrade {
    pub code: GradeCode,
    pub sub_code: SubGradeCode,
}

/// What the client needs after a login.
#[derive(Debug, Clone, Copy, PartialEq, Eq)]
pub struct LoginInfo {
    pub skip_pin: bool,
    pub login_opt: LoginOpt,
    pub client_key: ClientKey,
}

/// A request to choose the gender of an account, or to cancel the choice.
#[derive(Debug, Clone, Copy, PartialEq, Eq, Structural)]
pub struct SetGenderReq {
    pub gender: Option<Gender>,
}

impl SetGenderReq {
    /// The request to choose a gender.
    pub fn set(gender: Gender) -> (r: SetGenderReq)
        ensures
            r.gender == Some(gender),
    {
        SetGenderReq { gender: Some(gender) }
    }

    /// The request to cancel the choice.
    pub fn cancel() -> (r: SetGenderReq)
        ensures
            r.gender is None,
    {
        SetGenderReq { gender: None }
    }
}

/// The answer to a choice of gender.
#[derive(Debug, Clone, Copy, PartialEq, Eq, Structural)]
pub struct SetGenderResp {
    pub gender: Gender,
    pub success: bool,
}

/// Whether the client accepted the end user license agreement.
#[derive(Debug, Clone, Copy, PartialEq, Eq, Structural)]
pub struct ConfirmEULAReq {
    pub accepted: bool,
}

/// The answer to the license agreement.
#[derive(Debug, Clone, Copy, PartialEq, Eq, Structural)]
pub struct ConfirmEULAResp {
    pub success: bool,
}

/// The identifier of a world.
pub type WorldId = u32;

/// The identifier of a world on 16 bits.
pub type WorldId16 = u16;

/// The identifier of a channel.
pub type ChannelId = u16;

/// A request to leave the world.
#[derive(Debug, Clone, Copy, PartialEq, Eq, Structural)]
pub struct LogoutWorldReq;

/// A request for the worlds.
#[derive(Debug, Clone, Copy, PartialEq, Eq, Structural)]
pub struct WorldInfoReq;

/// A request for the worlds.
#[derive(Debug, Clone, Copy, PartialEq, Eq, Structural)]
pub struct WorldReq;

/// A request whether a world is full.
#[derive(Debug, Clone, Copy, PartialEq, Eq, Structural)]
pub struct WorldCheckUserLimitReq {
    pub world: WorldId16,
}

/// Whether a world is full, and how crowded.
#[derive(Debug, Clone, Copy, PartialEq, Eq, Structural)]
pub struct WorldCheckUserLimitResp {
    pub over_user_limit: bool,
    pub populate_level: u8,
}

/// A world that the server recommends, with why.
#[derive(Debug, Clone)]
pub struct RecommendWorldMessage {
    pub world_id: WorldId,
    pub message: String,
}

/// The worlds that the server recommends.
#[derive(Debug, Clone)]
pub struct RecommendWorldMessageResp {
    pub messages: Vec<RecommendWorldMessage>,
}

/// The world the account last connected to.
#[derive(Debug, Clone, Copy, PartialEq, Eq, Structural)]
pub struct LastConnectedWorldResp {
    pub last_world: WorldId,
}

/// A channel of a world.
#[derive(Debug, Clone)]
pub struct ChannelItem {
    pub name: String,
    pub user_number: u32,
    pub world_id: u8,
    pub id: u8,
    pub adult_channel: bool,
}

/// A balloon shown over the world selection.
#[derive(Debug, Clone)]
pub struct WorldBalloon {
    pub pos: Vec2,
    pub message: String,
}

/// The state a world is shown with.
#[derive(Debug, Clone, Copy, PartialEq, Eq, Structural)]
pub enum WorldState {
    Normal,
    Hot,
    New,
}

impl WorldState {
    /// The wire code of a value.
    pub open spec fn code_of(self) -> u8 {
        match self {
            WorldState::Normal => 0u8,
            WorldState::Hot => 1u8,
            WorldState::New => 2u8,
        }
    }

    /// The value a wire code stands for, if any.
    pub open spec fn of_code(c: u8) -> Option<WorldState> {
        match c {
            0u8 => Some(WorldState::Normal),
            1u8 => Some(WorldState::Hot),
            2u8 => Some(WorldState::New),
            _ => None,
        }
    }

    /// Decoding the code of a value gives that value back.
    pub proof fn lemma_code_roundtrip(self)
        ensures
            WorldState::of_code(self.code_of()) == Some(self),
    {
    }

    /// A code that decodes to a value is that value's code.
    pub proof fn lemma_decode_roundtrip(c: u8)
        ensures
            WorldState::of_code(c) matches Some(v) ==> v.code_of() == c,
    {
    }
}

impl From<WorldState> for u8 {
    fn from(v: WorldState) -> (r: u8) {
        match v {
            WorldState::Normal => 0,
            WorldState::Hot => 1,
            WorldState::New => 2,
        }
    }
}

impl FromSpecImpl<WorldState> for u8 {
    open spec fn obeys_from_spec() -> bool {
        true
    }

    open spec fn from_spec(v: WorldState) -> u8 {
        v.code_of()
    }
}

impl TryFrom<u8> for WorldState {
    type Error = PacketError;

    fn try_from(c: u8) -> (r: Result<WorldState, PacketError>) {
        match c {
            0 => Ok(WorldState::Normal),
            1 => Ok(WorldState::Hot),
            2 => Ok(WorldState::New),
            _ => Err(PacketError::InvalidEnumPrimitive(c as u32)),
        }
    }
}

impl TryFromSpecImpl<u8> for WorldState {
    open spec fn obeys_try_from_spec() -> bool {
        true
    }

    open spec fn try_from_spec(c: u8) -> Result<WorldState, PacketError> {
        match WorldState::of_code(c) {
            Some(v) => Ok(v),
            None => Err(PacketError::InvalidEnumPrimitive(c as u32)),
        }
    }
}
/// A world with its channels.
#[derive(Debug, Clone)]
pub struct WorldItem {
    pub name: String,
    pub state: WorldState,
    pub event_desc: String,
    pub event_exp: u16,
    pub event_drop_rate: u16,
    pub block_char_creation: bool,
    pub channels: Vec<ChannelItem>,
    pub balloons: Vec<WorldBalloon>,
}

/// Whether a world id announces a world: `0xff` ends the list.
pub fn has_world_info(world_id: &u8) -> (r: bool)
    ensures
        r == (*world_id != 0xff),
{
    *world_id != 0xff
}

/// One world of the world list, or the end of the list.
#[derive(Debug, Clone)]
pub struct WorldInfoResp {
    pub world_id: u8,
    pub world: Option<WorldItem>,
}

impl WorldInfoResp {
    /// The end of the world list: id `0xff` and no world.
    pub fn end() -> (r: WorldInfoResp)
        ensures
            r.world_id == 0xff,
            r.world is None,
    {
        WorldInfoResp { world_id: 0xff, world: None }
    }

    /// A world of the list.
    pub fn world(id: u8, world: WorldItem) -> (r: WorldInfoResp)
        ensures
            r.world_id == id,
            r.world == Some(world),
    {
        WorldInfoResp { world_id: id, world: Some(world) }
    }
}

/// A request to enter a channel of a world.
#[derive(Debug, Clone)]
pub struct SelectWorldReq {
    pub start_mode: StartModeInfo,
    pub world_id: u8,
    pub channel_id: u8,
    pub sa_data: u32,
}

} // verus!
