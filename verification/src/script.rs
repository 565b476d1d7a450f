use vstd::prelude::*;
use vstd::std_specs::convert::FromSpecImpl;

use crate::ids::CashId;

verus! {

/// The raw parameter byte of a script message.
#[derive(Debug, Clone, Copy, PartialEq, Eq, Structural)]
pub struct MsgParam(pub u8);

/// Flags of a script message.
#[derive(Debug, Clone, Copy, PartialEq, Eq, Structural)]
pub struct MsgParamFlags {
    pub bits: u8,
}

impl MsgParamFlags {
    /// The flag telling that the message names its own speaker.
    pub const SPEAKER_TEMPLATE: u8 = 4;

    /// The raw bits of the flags.
    pub open spec fn spec_bits(self) -> u8 {
        self.bits
    }

    /// No flag set.
    pub fn empty() -> (r: MsgParamFlags)
        ensures
            r.spec_bits() == 0,
    {
        MsgParamFlags { bits: 0 }
    }

    /// The raw bits of the flags.
    pub fn bits(&self) -> (r: u8)
        ensures
            r == self.spec_bits(),
    {
        self.bits
    }

    /// The flags of the given bits, with the unknown ones dropped.
    pub fn from_bits_truncate(bits: u8) -> (r: MsgParamFlags)
        ensures
            r.spec_bits() == bits & 4,
    {
        MsgParamFlags { bits: bits & 4 }
    }

    /// Whether the message names its own speaker.
    pub fn has_override_speaker(&self) -> (r: bool)
        ensures
            r == (self.spec_bits() & 4 == 4),
    {
        self.bits & Self::SPEAKER_TEMPLATE == Self::SPEAKER_TEMPLATE
    }
}

/// The header common to script messages.
#[derive(Debug, Clone, Copy, PartialEq, Eq, Structural)]
pub struct MsgHeader {
    pub param: MsgParamFlags,
    pub color: u8,
    pub override_speaker: Option<u32>,
}

/// A line an npc says.
#[derive(Debug, Clone)]
pub struct SayMsg {
    pub param: MsgParamFlags,
    pub speaker_tmpl_id: Option<u32>,
    pub txt: String,
    pub has_prev: bool,
    pub has_next: bool,
}

/// A message made of images.
#[derive(Debug, Clone)]
pub struct SayImageMsg {
    pub param: MsgParamFlags,
    pub images: Vec<String>,
}

/// A question answered with text.
#[derive(Debug, Clone)]
pub struct AskTextMsg {
    pub param: MsgParamFlags,
    pub msg: String,
    pub default_txt: String,
    pub min: u16,
    pub max: u16,
}

/// A question answered with a number.
#[derive(Debug, Clone)]
pub struct AskNumberMsg {
    pub param: MsgParamFlags,
    pub msg: String,
    pub default_number: u32,
    pub min: u32,
    pub max: u32,
}

/// A question answered by picking one of several options.
#[derive(Debug, Clone)]
pub struct AskSelectMsg {
    pub param: MsgParamFlags,
    pub dlg_ty: u32,
    pub default_select: u32,
    pub options: Vec<String>,
}

/// A plain question.
#[derive(Debug, Clone)]
pub struct AskMsg {
    pub param: MsgParamFlags,
    pub msg: String,
}

/// A question answered by picking an avatar.
#[derive(Debug, Clone)]
pub struct AskAvatarMsg {
    pub param: MsgParamFlags,
    pub msg: String,
    pub avatars: Vec<u32>,
}

/// A question answered by picking a pet.
#[derive(Debug, Clone)]
pub struct AskPetMsg {
    pub param: MsgParamFlags,
    pub msg: String,
    pub pets: Vec<(CashId, u8)>,
}

/// A question answered with a slider.
#[derive(Debug, Clone)]
pub struct AskSliderMsg {
    pub param: MsgParamFlags,
    pub mode: u32,
    pub value: u32,
    pub msg: String,
}

/// A message of an npc script.
#[derive(Debug, Clone)]
pub enum ScriptMessage {
    Say(SayMsg),
    SayImage(Vec<String>),
    AskYesNo(AskMsg),
    AskText(AskTextMsg),
    AskNumber(AskNumberMsg),
    AskMenu(AskMsg),
    AskAvatar(AskAvatarMsg),
    AskMembershopAvatar(AskAvatarMsg),
    AskPet(AskPetMsg),
    AskYesNoQuest(AskMsg),
    AskBoxText(AskTextMsg),
    AskSlider(AskSliderMsg),
}

impl ScriptMessage {
    /// The tag of the variant on the wire.
    pub fn tag(&self) -> (r: u8)
        ensures
            r == (match *self {
                ScriptMessage::Say(_) => 0u8,
                ScriptMessage::SayImage(_) => 1u8,
                ScriptMessage::AskYesNo(_) => 2u8,
                ScriptMessage::AskText(_) => 3u8,
                ScriptMessage::AskNumber(_) => 4u8,
                ScriptMessage::AskMenu(_) => 5u8,
                ScriptMessage::AskAvatar(_) => 8u8,
                ScriptMessage::AskMembershopAvatar(_) => 9u8,
                ScriptMessage::AskPet(_) => 10u8,
                ScriptMessage::AskYesNoQuest(_) => 13u8,
                ScriptMessage::AskBoxText(_) => 14u8,
                ScriptMessage::AskSlider(_) => 15u8,
            }),
    {
        match self {
            ScriptMessage::Say(_) => 0,
            ScriptMessage::SayImage(_) => 1,
            ScriptMessage::AskYesNo(_) => 2,
            ScriptMessage::AskText(_) => 3,
            ScriptMessage::AskNumber(_) => 4,
            ScriptMessage::AskMenu(_) => 5,
            ScriptMessage::AskAvatar(_) => 8,
            ScriptMessage::AskMembershopAvatar(_) => 9,
            ScriptMessage::AskPet(_) => 10,
            ScriptMessage::AskYesNoQuest(_) => 13,
            ScriptMessage::AskBoxText(_) => 14,
            ScriptMessage::AskSlider(_) => 15,
        }
    }
}

/// A script message as the server sends it.
#[derive(Debug, Clone)]
pub struct ScriptMessageResp {
    pub script_flag: u8,
    pub speaker_id: u32,
    pub msg: ScriptMessage,
}

/// An answer that may be yes, no, or a quit.
#[derive(Debug, Clone, Copy, PartialEq, Eq, Structural)]
pub struct OptionAnswer(pub Option<bool>);

impl OptionAnswer {
    /// Whether the player quit instead of answering.
    pub fn is_quit(&self) -> (r: bool)
        ensures
            r == (self.0 is None),
    {
        self.0.is_none()
    }
}

/// The answer a byte stands for: 0 is no, 1 is yes, anything else a quit.
pub open spec fn option_answer_of_byte(v: u8) -> OptionAnswer {
    OptionAnswer(
        if v == 0 {
            Some(false)
        } else if v == 1 {
            Some(true)
        } else {
            None
        },
    )
}

/// The byte an answer is written as: 0 for no, 1 for yes, 0xff for a quit.
pub open spec fn option_answer_byte(v: OptionAnswer) -> u8 {
    match v.0 {
        Some(b) => if b {
            1u8
        } else {
            0u8
        },
        None => 0xffu8,
    }
}

impl From<u8> for OptionAnswer {
    fn from(v: u8) -> (r: OptionAnswer) {
        OptionAnswer(
            match v {
                0 => Some(false),
                1 => Some(true),
                _ => None,
            },
        )
    }
}

impl FromSpecImpl<u8> for OptionAnswer {
    open spec fn obeys_from_spec() -> bool {
        true
    }

    open spec fn from_spec(v: u8) -> OptionAnswer {
        option_answer_of_byte(v)
    }
}

impl From<OptionAnswer> for u8 {
    fn from(v: OptionAnswer) -> (r: u8) {
        match v.0 {
            Some(b) => if b {
                1
            } else {
                0
            },
            None => 0xff,
        }
    }
}

impl FromSpecImpl<OptionAnswer> for u8 {
    open spec fn obeys_from_spec() -> bool {
        true
    }

    open spec fn from_spec(v: OptionAnswer) -> u8 {
        option_answer_byte(v)
    }
}

/// Reading back the byte of an answer gives the answer; the bytes 0, 1 and 0xff
/// survive the trip the other way, any other byte turns into 0xff.
pub proof fn lemma_option_answer_roundtrip(a: OptionAnswer, v: u8)
    ensures
        option_answer_of_byte(option_answer_byte(a)) == a,
        option_answer_byte(option_answer_of_byte(v)) == (if v <= 1 {
            v
        } else {
            0xffu8
        }),
{
}

/// The answer a player gives to a script message.
#[derive(Debug, Clone)]
pub enum ScriptAnswerReq {
    PrevNext(OptionAnswer),
    ImgNext(OptionAnswer),
    YesNo(OptionAnswer),
    InputText(Option<String>),
    InputNumber(Option<u32>),
    InputSelection(Option<u32>),
    AvatarSelection(Option<u8>),
    AvatarMembershipSelection(Option<u8>),
    PetSelection(Option<CashId>),
    InputBoxText(Option<String>),
    InputSliderValue(Option<u32>),
}

} // verus!
