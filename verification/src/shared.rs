use vstd::prelude::*;
use vstd::std_specs::convert::{FromSpecImpl, TryFromSpecImpl};

use crate::error::PacketError;

verus! {

/// A request of the client to store a crash dump of its call stack.
#[derive(Debug, Clone, Copy, PartialEq, Eq, Structural)]
pub struct ClientDumpLogReq {
    pub call_type: u16,
    pub error_code: u32,
    pub unknown1: u16,
    pub unknown2: u32,
    pub clear_stack_log: u32,
    pub unknown3: u32,
}

/// A request of the client to log an exception.
#[derive(Debug, Clone)]
pub struct ExceptionLogReq {
    pub log: String,
}

/// The screen settings the client reports.
#[derive(Debug, Clone, Copy, PartialEq, Eq, Structural)]
pub struct UpdateScreenSettingReq {
    pub large_screen: bool,
    pub window_mode: bool,
}

/// The client's answer to a ping.
#[derive(Debug, Clone, Copy, PartialEq, Eq, Structural)]
pub struct PongReq;

/// A ping of the server.
#[derive(Debug, Clone, Copy, PartialEq, Eq, Structural)]
pub struct PingResp;

/// The gender of a character or an account.
#[derive(Debug, Clone, Copy, PartialEq, Eq, Structural)]
pub enum Gender {
    Male,
    Female,
}

impl Gender {
    /// The wire code of a value.
    pub open spec fn code_of(self) -> u8 {
        match self {
            Gender::Male => 0u8,
            Gender::Female => 1u8,
        }
    }

    /// The value a wire code stands for, if any.
    pub open spec fn of_code(c: u8) -> Option<Gender> {
        match c {
            0u8 => Some(Gender::Male),
            1u8 => Some(Gender::Female),
            _ => None,
        }
    }

    /// Decoding the code of a value gives that value back.
    pub proof fn lemma_code_roundtrip(self)
        ensures
            Gender::of_code(self.code_of()) == Some(self),
    {
    }

    /// A code that decodes to a value is that value's code.
    pub proof fn lemma_decode_roundtrip(c: u8)
        ensures
            Gender::of_code(c) matches Some(v) ==> v.code_of() == c,
    {
    }
}

impl From<Gender> for u8 {
    fn from(v: Gender) -> (r: u8) {
        match v {
            Gender::Male => 0,
            Gender::Female => 1,
        }
    }
}

impl FromSpecImpl<Gender> for u8 {
    open spec fn obeys_from_spec() -> bool {
        true
    }

    open spec fn from_spec(v: Gender) -> u8 {
        v.code_of()
    }
}

impl TryFrom<u8> for Gender {
    type Error = PacketError;

    fn try_from(c: u8) -> (r: Result<Gender, PacketError>) {
        match c {
            0 => Ok(Gender::Male),
            1 => Ok(Gender::Female),
            _ => Err(PacketError::InvalidEnumPrimitive(c as u32)),
        }
    }
}

impl TryFromSpecImpl<u8> for Gender {
    open spec fn obeys_try_from_spec() -> bool {
        true
    }

    open spec fn try_from_spec(c: u8) -> Result<Gender, PacketError> {
        match Gender::of_code(c) {
            Some(v) => Ok(v),
            None => Err(PacketError::InvalidEnumPrimitive(c as u32)),
        }
    }
}
impl Default for Gender {
    fn default() -> (r: Gender)
        ensures
            r == Gender::Male,
    {
        Gender::Male
    }
}

/// The gender of an account, which may not be chosen yet.
#[derive(Debug, Clone, Copy, PartialEq, Eq, Structural)]
pub enum OptionGender {
    Male,
    Female,
    Unset,
}

impl OptionGender {
    /// The wire code of a value.
    pub open spec fn code_of(self) -> u8 {
        match self {
            OptionGender::Male => 0u8,
            OptionGender::Female => 1u8,
            OptionGender::Unset => 10u8,
        }
    }

    /// The value a wire code stands for, if any.
    pub open spec fn of_code(c: u8) -> Option<OptionGender> {
        match c {
            0u8 => Some(OptionGender::Male),
            1u8 => Some(OptionGender::Female),
            10u8 => Some(OptionGender::Unset),
            _ => None,
        }
    }

    /// Decoding the code of a value gives that value back.
    pub proof fn lemma_code_roundtrip(self)
        ensures
            OptionGender::of_code(self.code_of()) == Some(self),
    {
    }

    /// A code that decodes to a value is that value's code.
    pub proof fn lemma_decode_roundtrip(c: u8)
        ensures
            OptionGender::of_code(c) matches Some(v) ==> v.code_of() == c,
    {
    }
}

impl From<OptionGender> for u8 {
    fn from(v: OptionGender) -> (r: u8) {
        match v {
            OptionGender::Male => 0,
            OptionGender::Female => 1,
            OptionGender::Unset => 10,
        }
    }
}

impl FromSpecImpl<OptionGender> for u8 {
    open spec fn obeys_from_spec() -> bool {
        true
    }

    open spec fn from_spec(v: OptionGender) -> u8 {
        v.code_of()
    }
}

impl TryFrom<u8> for OptionGender {
    type Error = PacketError;

    fn try_from(c: u8) -> (r: Result<OptionGender, PacketError>) {
        match c {
            0 => Ok(OptionGender::Male),
            1 => Ok(OptionGender::Female),
            10 => Ok(OptionGender::Unset),
            _ => Err(PacketError::InvalidEnumPrimitive(c as u32)),
        }
    }
}

impl TryFromSpecImpl<u8> for OptionGender {
    open spec fn obeys_try_from_spec() -> bool {
        true
    }

    open spec fn try_from_spec(c: u8) -> Result<OptionGender, PacketError> {
        match OptionGender::of_code(c) {
            Some(v) => Ok(v),
            None => Err(PacketError::InvalidEnumPrimitive(c as u32)),
        }
    }
}
impl Default for OptionGender {
    fn default() -> (r: OptionGender)
        ensures
            r == OptionGender::Male,
    {
        OptionGender::Male
    }
}

/// The gender an account's gender stands for, if it is chosen.
pub open spec fn gender_of(g: OptionGender) -> Option<Gender> {
    match g {
        OptionGender::Male => Some(Gender::Male),
        OptionGender::Female => Some(Gender::Female),
        OptionGender::Unset => None,
    }
}

/// The account gender of a chosen or missing gender.
pub open spec fn option_gender_of(g: Option<Gender>) -> OptionGender {
    match g {
        Some(Gender::Male) => OptionGender::Male,
        Some(Gender::Female) => OptionGender::Female,
        None => OptionGender::Unset,
    }
}

impl OptionGender {
    /// Whether the gender is chosen.
    pub fn is_set(&self) -> (r: bool)
        ensures
            r == !(*self is Unset),
    {
        !self.is_unset()
    }

    /// Whether the gender is not chosen yet.
    pub fn is_unset(&self) -> (r: bool)
        ensures
            r == (*self is Unset),
    {
        match self {
            OptionGender::Unset => true,
            _ => false,
        }
    }

    /// The chosen gender, if any.
    pub fn as_option(&self) -> (r: Option<Gender>)
        ensures
            r == gender_of(*self),
    {
        match self {
            OptionGender::Female => Some(Gender::Female),
            OptionGender::Male => Some(Gender::Male),
            OptionGender::Unset => None,
        }
    }

    /// Reading an account gender as an optional gender and back gives it
    /// again.
    pub proof fn lemma_option_roundtrip(self)
        ensures
            option_gender_of(gender_of(self)) == self,
    {
    }

    /// Making an account gender of an optional gender and reading it back
    /// gives the optional gender again.
    pub proof fn lemma_gender_roundtrip(g: Option<Gender>)
        ensures
            gender_of(option_gender_of(g)) == g,
    {
    }

    /// A gender is set exactly when it reads as some gender.
    pub proof fn lemma_set_iff_some(self)
        ensures
            !(self is Unset) <==> gender_of(self) is Some,
    {
    }
}

impl From<Option<Gender>> for OptionGender {
    fn from(value: Option<Gender>) -> (r: OptionGender) {
        match value {
            None => OptionGender::Unset,
            Some(Gender::Female) => OptionGender::Female,
            Some(Gender::Male) => OptionGender::Male,
        }
    }
}

impl FromSpecImpl<Option<Gender>> for OptionGender {
    open spec fn obeys_from_spec() -> bool {
        true
    }

    open spec fn from_spec(value: Option<Gender>) -> OptionGender {
        option_gender_of(value)
    }
}

impl From<OptionGender> for Option<Gender> {
    fn from(val: OptionGender) -> (r: Option<Gender>) {
        val.as_option()
    }
}

impl FromSpecImpl<OptionGender> for Option<Gender> {
    open spec fn obeys_from_spec() -> bool {
        true
    }

    open spec fn from_spec(val: OptionGender) -> Option<Gender> {
        gender_of(val)
    }
}

/// The IPv4 address of a server, by its four octets.
#[derive(Debug, Clone, Copy, PartialEq, Eq)]
pub struct ServerAddr(pub [u8; 4]);

impl From<[u8; 4]> for ServerAddr {
    fn from(value: [u8; 4]) -> (r: ServerAddr) {
        ServerAddr(value)
    }
}

impl FromSpecImpl<[u8; 4]> for ServerAddr {
    open spec fn obeys_from_spec() -> bool {
        true
    }

    open spec fn from_spec(value: [u8; 4]) -> ServerAddr {
        ServerAddr(value)
    }
}

impl From<ServerAddr> for [u8; 4] {
    fn from(value: ServerAddr) -> (r: [u8; 4]) {
        value.0
    }
}

impl FromSpecImpl<ServerAddr> for [u8; 4] {
    open spec fn obeys_from_spec() -> bool {
        true
    }

    open spec fn from_spec(value: ServerAddr) -> [u8; 4] {
        value.0
    }
}

/// The address and port of a server.
#[derive(Debug, Clone, Copy, PartialEq, Eq)]
pub struct ServerSocketAddr {
    pub addr: ServerAddr,
    pub port: u16,
}

} // verus!
