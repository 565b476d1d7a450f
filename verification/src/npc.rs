use vstd::prelude::*;
use vstd::std_specs::convert::FromSpecImpl;

use vstd::utf8::encode_utf8;

use crate::script::{
    AskMsg, AskNumberMsg, AskTextMsg, MsgParamFlags, OptionAnswer, SayMsg, ScriptAnswerReq,
    ScriptMessage,
};

verus! {

/// What a player did in an npc conversation.
#[derive(Debug, PartialEq, Eq)]
pub enum NpcAction {
    Start,
    Next,
    Prev,
    Selection(usize),
    InputTxt(String),
    InputNum(u32),
    YesNo(bool),
    AvatarSelection(usize),
    PetSelection(usize),
    SliderValue(u32),
    End,
}

/// The action an answer to a script message stands for; a quit or an empty
/// answer ends the conversation.
pub open spec fn npc_action_of_answer(req: ScriptAnswerReq) -> NpcAction {
    match req {
        ScriptAnswerReq::PrevNext(OptionAnswer(Some(true))) => NpcAction::Next,
        ScriptAnswerReq::PrevNext(OptionAnswer(Some(false))) => NpcAction::Prev,
        ScriptAnswerReq::ImgNext(OptionAnswer(Some(true))) => NpcAction::Next,
        ScriptAnswerReq::YesNo(OptionAnswer(Some(v))) => NpcAction::YesNo(v),
        ScriptAnswerReq::InputText(Some(v)) => NpcAction::InputTxt(v),
        ScriptAnswerReq::InputNumber(Some(v)) => NpcAction::InputNum(v),
        ScriptAnswerReq::InputSelection(Some(v)) => NpcAction::Selection(v as usize),
        ScriptAnswerReq::AvatarSelection(Some(v)) => NpcAction::AvatarSelection(v as usize),
        ScriptAnswerReq::AvatarMembershipSelection(Some(v)) => NpcAction::AvatarSelection(
            v as usize,
        ),
        ScriptAnswerReq::PetSelection(Some(v)) => NpcAction::PetSelection(v as usize),
        ScriptAnswerReq::InputBoxText(Some(v)) => NpcAction::InputTxt(v),
        ScriptAnswerReq::InputSliderValue(Some(v)) => NpcAction::SliderValue(v),
        _ => NpcAction::End,
    }
}

impl From<ScriptAnswerReq> for NpcAction {
    fn from(req: ScriptAnswerReq) -> (r: NpcAction) {
        match req {
            ScriptAnswerReq::PrevNext(OptionAnswer(Some(true))) => NpcAction::Next,
            ScriptAnswerReq::PrevNext(OptionAnswer(Some(false))) => NpcAction::Prev,
            ScriptAnswerReq::ImgNext(OptionAnswer(Some(true))) => NpcAction::Next,
            ScriptAnswerReq::YesNo(OptionAnswer(Some(v))) => NpcAction::YesNo(v),
            ScriptAnswerReq::InputText(Some(v)) => NpcAction::InputTxt(v),
            ScriptAnswerReq::InputNumber(Some(v)) => NpcAction::InputNum(v),
            ScriptAnswerReq::InputSelection(Some(v)) => NpcAction::Selection(v as usize),
            ScriptAnswerReq::AvatarSelection(Some(v)) => NpcAction::AvatarSelection(v as usize),
            ScriptAnswerReq::AvatarMembershipSelection(Some(v)) => NpcAction::AvatarSelection(
                v as usize,
            ),
            ScriptAnswerReq::PetSelection(Some(v)) => NpcAction::PetSelection(v as usize),
            ScriptAnswerReq::InputBoxText(Some(v)) => NpcAction::InputTxt(v),
            ScriptAnswerReq::InputSliderValue(Some(v)) => NpcAction::SliderValue(v),
            _ => NpcAction::End,
        }
    }
}

impl FromSpecImpl<ScriptAnswerReq> for NpcAction {
    open spec fn obeys_from_spec() -> bool {
        true
    }

    open spec fn from_spec(req: ScriptAnswerReq) -> NpcAction {
        npc_action_of_answer(req)
    }
}

/// Why an answer in an npc conversation was refused.
#[derive(Debug, Clone, Copy, PartialEq, Eq, Structural)]
#[allow(inconsistent_fields)]
pub enum NpcAnswerError {
    /// The answer was of another kind than the question asked for.
    UnexpectedAction,
    /// The text answered is shorter than `min` or longer than `max` bytes.
    InvalidText { len: usize, min: u32, max: u32 },
    /// The number answered lies outside `min..=max`.
    InvalidNumber { value: u32, min: u32, max: u32 },
    /// The option picked is not below `max`.
    InvalidSelection { value: usize, max: usize },
}

/// The conversation was started.
pub fn check_start(action: NpcAction) -> (r: Result<(), NpcAnswerError>)
    ensures
        r is Ok <==> action is Start,
        r is Err ==> r == Err::<(), NpcAnswerError>(NpcAnswerError::UnexpectedAction),
{
    match action {
        NpcAction::Start => Ok(()),
        _ => Err(NpcAnswerError::UnexpectedAction),
    }
}

/// The player asked for the next line.
pub fn check_next(action: NpcAction) -> (r: Result<(), NpcAnswerError>)
    ensures
        r is Ok <==> action is Next,
        r is Err ==> r == Err::<(), NpcAnswerError>(NpcAnswerError::UnexpectedAction),
{
    match action {
        NpcAction::Next => Ok(()),
        _ => Err(NpcAnswerError::UnexpectedAction),
    }
}

/// The text answered to a text question, whose length in bytes (of its UTF-8
/// encoding) must lie within `min..=max`.
pub fn check_text_answer(action: NpcAction, min: u32, max: u32) -> (r: Result<
    String,
    NpcAnswerError,
>)
    ensures
        match action {
            NpcAction::InputTxt(v) => {
                let len = encode_utf8(v@).len() as usize;
                if len < min || len > max {
                    r == Err::<String, NpcAnswerError>(
                        NpcAnswerError::InvalidText { len, min, max },
                    )
                } else {
                    r matches Ok(s) && s@ == v@
                }
            },
            _ => r == Err::<String, NpcAnswerError>(NpcAnswerError::UnexpectedAction),
        },
{
    match action {
        NpcAction::InputTxt(v) => {
            let len = v.as_str().len();
            if len < min as usize || len > max as usize {
                Err(NpcAnswerError::InvalidText { len, min, max })
            } else {
                Ok(v)
            }
        },
        _ => Err(NpcAnswerError::UnexpectedAction),
    }
}

/// The number answered to a number question, which must lie within `min..=max`.
pub fn check_number_answer(action: NpcAction, min: u32, max: u32) -> (r: Result<
    u32,
    NpcAnswerError,
>)
    ensures
        match action {
            NpcAction::InputNum(v) => if v < min || v > max {
                r == Err::<u32, NpcAnswerError>(
                    NpcAnswerError::InvalidNumber { value: v, min, max },
                )
            } else {
                r == Ok::<u32, NpcAnswerError>(v)
            },
            _ => r == Err::<u32, NpcAnswerError>(NpcAnswerError::UnexpectedAction),
        },
{
    match action {
        NpcAction::InputNum(v) => {
            if v < min || v > max {
                Err(NpcAnswerError::InvalidNumber { value: v, min, max })
            } else {
                Ok(v)
            }
        },
        _ => Err(NpcAnswerError::UnexpectedAction),
    }
}

/// The option picked in a menu of `max` options, which must be below `max`.
pub fn check_selection_answer(action: NpcAction, max: usize) -> (r: Result<usize, NpcAnswerError>)
    ensures
        match action {
            NpcAction::Selection(v) => if v >= max {
                r == Err::<usize, NpcAnswerError>(NpcAnswerError::InvalidSelection { value: v, max })
            } else {
                r == Ok::<usize, NpcAnswerError>(v)
            },
            _ => r == Err::<usize, NpcAnswerError>(NpcAnswerError::UnexpectedAction),
        },
{
    match action {
        NpcAction::Selection(v) => {
            if v >= max {
                Err(NpcAnswerError::InvalidSelection { value: v, max })
            } else {
                Ok(v)
            }
        },
        _ => Err(NpcAnswerError::UnexpectedAction),
    }
}

/// The number of options of a grid menu, `rows * cols`.
pub fn grid_option_count(rows: usize, cols: usize) -> (r: usize)
    requires
        rows * cols <= usize::MAX,
    ensures
        r == rows * cols,
{
    rows * cols
}

/// The yes or no answered to a yes/no question.
pub fn check_yes_no_answer(action: NpcAction) -> (r: Result<bool, NpcAnswerError>)
    ensures
        match action {
            NpcAction::YesNo(b) => r == Ok::<bool, NpcAnswerError>(b),
            _ => r == Err::<bool, NpcAnswerError>(NpcAnswerError::UnexpectedAction),
        },
{
    match action {
        NpcAction::YesNo(b) => Ok(b),
        _ => Err(NpcAnswerError::UnexpectedAction),
    }
}

/// Why stored quest data could not be read.
#[derive(Debug, Clone, Copy, PartialEq, Eq, Structural)]
pub enum QuestDataError {
    /// The stored data is not four bytes long.
    WrongLength(usize),
}

/// The four little-endian bytes of a value.
pub open spec fn le_bytes_u32(v: u32) -> Seq<u8> {
    seq![(v % 256) as u8, ((v / 256) % 256) as u8, ((v / 65536) % 256) as u8, (v / 16777216) as u8]
}

/// The value of four little-endian bytes.
pub open spec fn u32_of_le_bytes(b: Seq<u8>) -> u32 {
    (b[0] + 256 * b[1] + 65536 * b[2] + 16777216 * b[3]) as u32
}

/// The data a quest-data value that is stored as a number is kept as: its four
/// little-endian bytes.
pub fn enum_quest_data_to_data(v: u32) -> (r: Vec<u8>)
    ensures
        r@ == le_bytes_u32(v),
{
    let b0 = (v & 0xff) as u8;
    let b1 = ((v >> 8u32) & 0xff) as u8;
    let b2 = ((v >> 16u32) & 0xff) as u8;
    let b3 = (v >> 24u32) as u8;
    assert((v & 0xffu32) == v % 256 && ((v >> 8u32) & 0xffu32) == (v / 256) % 256 && ((v
        >> 16u32) & 0xffu32) == (v / 65536) % 256 && (v >> 24u32) == v / 16777216) by (bit_vector);
    let r = vec![b0, b1, b2, b3];
    assert(r@ =~= le_bytes_u32(v));
    r
}

/// The number stored as quest data, which must be four little-endian bytes.
pub fn enum_quest_data_from_data(data: &[u8]) -> (r: Result<u32, QuestDataError>)
    ensures
        data@.len() == 4 ==> r == Ok::<u32, QuestDataError>(u32_of_le_bytes(data@)),
        data@.len() != 4 ==> r == Err::<u32, QuestDataError>(
            QuestDataError::WrongLength(data@.len() as usize),
        ),
{
    if data.len() != 4 {
        return Err(QuestDataError::WrongLength(data.len()));
    }
    let b0 = data[0] as u32;
    let b1 = data[1] as u32;
    let b2 = data[2] as u32;
    let b3 = data[3] as u32;
    assert(b0 < 256 && b1 < 256 && b2 < 256 && b3 < 256 ==> (b0 | (b1 << 8u32) | (b2 << 16u32) | (
    b3 << 24u32)) == b0 + 256 * b1 + 65536 * b2 + 16777216 * b3) by (bit_vector);
    Ok(b0 | (b1 << 8u32) | (b2 << 16u32) | (b3 << 24u32))
}

/// Reading stored quest data back gives the number stored.
pub proof fn lemma_quest_data_roundtrip(v: u32)
    ensures
        u32_of_le_bytes(le_bytes_u32(v)) == v,
        le_bytes_u32(v).len() == 4,
{
    let x = v as int;
    assert(x % 256 + 256 * ((x / 256) % 256) + 65536 * ((x / 65536) % 256) + 16777216 * (x
        / 16777216) == x) by (nonlinear_arith)
        requires
            0 <= x < 0x1_0000_0000,
    ;
}

/// The line an npc says: with a next button unless it is the last line, and
/// never with a previous button.
pub fn say_message(txt: String, last: bool) -> (r: ScriptMessage)
    ensures
        r matches ScriptMessage::Say(m) && m.param.bits == 0 && m.speaker_tmpl_id is None
            && m.txt == txt && !m.has_prev && m.has_next == !last,
{
    ScriptMessage::Say(
        SayMsg {
            param: MsgParamFlags::empty(),
            txt,
            has_prev: false,
            has_next: !last,
            speaker_tmpl_id: None,
        },
    )
}

/// A question answered with text whose length lies within `min..=max`; the
/// bounds are sent cut to 16 bits.
pub fn ask_text_message(msg: String, min: u32, max: u32, default_txt: String) -> (r: ScriptMessage)
    ensures
        r matches ScriptMessage::AskText(m) && m.param.bits == 0 && m.msg == msg && m.default_txt
            == default_txt && m.min == min as u16 && m.max == max as u16,
{
    ScriptMessage::AskText(
        AskTextMsg {
            param: MsgParamFlags::empty(),
            msg,
            default_txt,
            min: min as u16,
            max: max as u16,
        },
    )
}

/// A question answered with a number within `min..=max`.
pub fn ask_number_message(msg: String, min: u32, max: u32, default_number: u32) -> (r:
    ScriptMessage)
    ensures
        r matches ScriptMessage::AskNumber(m) && m.param.bits == 0 && m.msg == msg
            && m.default_number == default_number && m.min == min && m.max == max,
{
    ScriptMessage::AskNumber(
        AskNumberMsg { param: MsgParamFlags::empty(), msg, default_number, min, max },
    )
}

/// A menu the player picks an option of.
pub fn ask_menu_message(msg: String) -> (r: ScriptMessage)
    ensures
        r matches ScriptMessage::AskMenu(m) && m.param.bits == 0 && m.msg == msg,
{
    ScriptMessage::AskMenu(AskMsg { param: MsgParamFlags::empty(), msg })
}

/// A question answered with yes or no.
pub fn ask_yes_no_message(msg: String) -> (r: ScriptMessage)
    ensures
        r matches ScriptMessage::AskYesNo(m) && m.param.bits == 0 && m.msg == msg,
{
    ScriptMessage::AskYesNo(AskMsg { param: MsgParamFlags::empty(), msg })
}

/// An answer to a script message keeps what the player chose: a yes or no
/// its choice, a text, a number, a slider value or a picked option its
/// value, and the next and previous buttons their direction; an answer that
/// carries nothing ends the conversation.
pub proof fn lemma_answer_keeps_choice(req: ScriptAnswerReq)
    ensures
        req matches ScriptAnswerReq::YesNo(OptionAnswer(Some(b))) ==> npc_action_of_answer(req)
            == NpcAction::YesNo(b),
        npc_action_of_answer(req) matches NpcAction::YesNo(b) ==> req == ScriptAnswerReq::YesNo(
            OptionAnswer(Some(b)),
        ),
        npc_action_of_answer(req) == NpcAction::Next <==> (req == ScriptAnswerReq::PrevNext(
            OptionAnswer(Some(true)),
        ) || req == ScriptAnswerReq::ImgNext(OptionAnswer(Some(true)))),
        npc_action_of_answer(req) == NpcAction::Prev <==> req == ScriptAnswerReq::PrevNext(
            OptionAnswer(Some(false)),
        ),
        req matches ScriptAnswerReq::InputText(Some(t)) ==> npc_action_of_answer(req)
            == NpcAction::InputTxt(t),
        req matches ScriptAnswerReq::InputBoxText(Some(t)) ==> npc_action_of_answer(req)
            == NpcAction::InputTxt(t),
        npc_action_of_answer(req) matches NpcAction::InputTxt(t) ==> (req
            == ScriptAnswerReq::InputText(Some(t)) || req == ScriptAnswerReq::InputBoxText(Some(t))),
        req matches ScriptAnswerReq::InputNumber(Some(n)) ==> npc_action_of_answer(req)
            == NpcAction::InputNum(n),
        npc_action_of_answer(req) matches NpcAction::InputNum(n) ==> req
            == ScriptAnswerReq::InputNumber(Some(n)),
        req matches ScriptAnswerReq::InputSliderValue(Some(n)) ==> npc_action_of_answer(req)
            == NpcAction::SliderValue(n),
        npc_action_of_answer(req) matches NpcAction::SliderValue(n) ==> req
            == ScriptAnswerReq::InputSliderValue(Some(n)),
        req matches ScriptAnswerReq::InputSelection(Some(n)) ==> npc_action_of_answer(req)
            == NpcAction::Selection(n as usize),
        npc_action_of_answer(req) is Selection ==> req is InputSelection,
        req matches ScriptAnswerReq::AvatarSelection(Some(n)) ==> npc_action_of_answer(req)
            == NpcAction::AvatarSelection(n as usize),
        req matches ScriptAnswerReq::AvatarMembershipSelection(Some(n)) ==> npc_action_of_answer(req) == NpcAction::AvatarSelection(n as usize),
        npc_action_of_answer(req) is AvatarSelection ==> (req is AvatarSelection
            || req is AvatarMembershipSelection),
        req matches ScriptAnswerReq::PetSelection(Some(n)) ==> npc_action_of_answer(req)
            == NpcAction::PetSelection(n as usize),
        npc_action_of_answer(req) is PetSelection ==> req is PetSelection,
        !(npc_action_of_answer(req) is Start),
        (req matches ScriptAnswerReq::YesNo(OptionAnswer(None))) ==> npc_action_of_answer(req)
            == NpcAction::End,
{
}

} // verus!
