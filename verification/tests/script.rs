use shroom_proto95::ids::Vec2;
use shroom_proto95::movement::{
    AbsoluteMovement, ArrowKeyState, ArrowKeyStates, MovePath, Movement, MovementFooter,
};
use shroom_proto95::npc::{
    check_number_answer, check_selection_answer, check_start, check_text_answer,
    check_yes_no_answer, enum_quest_data_from_data, enum_quest_data_to_data, grid_option_count,
    NpcAction, NpcAnswerError, QuestDataError,
};
use shroom_proto95::poll_state::{PollOutcome, Shared, StateHandle, StepError};
use shroom_proto95::script::{OptionAnswer, ScriptAnswerReq};

#[test]
fn answers_map_to_actions() {
    assert_eq!(
        NpcAction::from(ScriptAnswerReq::PrevNext(OptionAnswer(Some(true)))),
        NpcAction::Next
    );
    assert_eq!(
        NpcAction::from(ScriptAnswerReq::PrevNext(OptionAnswer(None))),
        NpcAction::End
    );
    assert_eq!(
        NpcAction::from(ScriptAnswerReq::InputSelection(Some(4))),
        NpcAction::Selection(4)
    );
    assert_eq!(OptionAnswer::from(7u8), OptionAnswer(None));
    assert_eq!(u8::from(OptionAnswer(Some(true))), 1);
    assert!(OptionAnswer(None).is_quit());
}

#[test]
fn answer_checks() {
    assert_eq!(check_start(NpcAction::Start), Ok(()));
    assert_eq!(check_start(NpcAction::Next), Err(NpcAnswerError::UnexpectedAction));
    assert_eq!(
        check_text_answer(NpcAction::InputTxt("abc".to_string()), 1, 2),
        Err(NpcAnswerError::InvalidText { len: 3, min: 1, max: 2 })
    );
    assert_eq!(
        check_text_answer(NpcAction::InputTxt("ab".to_string()), 1, 2),
        Ok("ab".to_string())
    );
    assert_eq!(
        check_number_answer(NpcAction::InputNum(9), 1, 5),
        Err(NpcAnswerError::InvalidNumber { value: 9, min: 1, max: 5 })
    );
    assert_eq!(check_number_answer(NpcAction::InputNum(5), 1, 5), Ok(5));
    assert_eq!(
        check_selection_answer(NpcAction::Selection(3), 3),
        Err(NpcAnswerError::InvalidSelection { value: 3, max: 3 })
    );
    assert_eq!(check_selection_answer(NpcAction::Selection(2), 3), Ok(2));
    assert_eq!(check_yes_no_answer(NpcAction::YesNo(false)), Ok(false));
    assert_eq!(grid_option_count(3, 4), 12);
}

#[test]
fn quest_data_roundtrip() {
    let data = enum_quest_data_to_data(0x0403_0201);
    assert_eq!(data, vec![1, 2, 3, 4]);
    assert_eq!(enum_quest_data_from_data(&data), Ok(0x0403_0201));
    assert_eq!(
        enum_quest_data_from_data(&[1, 2]),
        Err(QuestDataError::WrongLength(2))
    );
}

#[test]
fn state_handle_steps() {
    let mut h: StateHandle<u32> = StateHandle::new();
    assert!(!h.is_finished());
    assert!(h.begin_transition(Some(1)).is_ok());
    // the script stopped without waiting for input
    assert!(matches!(
        h.end_poll::<()>(PollOutcome::Pending),
        Err(StepError::NotYielding)
    ));
    assert!(h.begin_transition(None).is_ok());
    h.state.set_waiting(true);
    assert!(h.end_poll::<()>(PollOutcome::Pending).is_ok());
    assert!(h.begin_transition(None).is_ok());
    assert!(matches!(
        h.end_poll::<&str>(PollOutcome::Ready(Err("boom"))),
        Err(StepError::Script("boom"))
    ));
    assert!(h.is_finished());
    assert!(matches!(
        h.begin_transition(Some(2)),
        Err(StepError::AlreadyFinished)
    ));
}

#[test]
fn arrow_keys_pack_two_per_byte() {
    let keys = ArrowKeyStates(vec![
        ArrowKeyState::try_from(1).unwrap(),
        ArrowKeyState::try_from(2).unwrap(),
        ArrowKeyState::try_from(15).unwrap(),
    ]);
    let bytes = keys.as_bytes();
    assert_eq!(bytes.len(), ArrowKeyStates::byte_len(3));
    let back = ArrowKeyStates::from_bytes(&bytes, 3);
    let raws: Vec<u8> = back.0.iter().map(|k| k.raw()).collect();
    assert_eq!(raws, vec![1, 2, 15]);
    assert!(ArrowKeyState::try_from(16).is_none());
}

#[test]
fn last_position_of_path() {
    let step = |x| {
        Movement::Normal(AbsoluteMovement {
            pos: Vec2::new(x, 0),
            velocity: Vec2::new(0, 0),
            fh: 7,
            offset: Vec2::new(0, 0),
            footer: MovementFooter { action: 0, dur: 10 },
        })
    };
    let path = MovePath {
        pos: Vec2::new(0, 0),
        velocity: Vec2::new(0, 0),
        moves: vec![step(1), step(2), Movement::StatChange(true)],
    };
    assert_eq!(path.get_last_pos_fh(), Some((Vec2::new(2, 0), Some(7))));
    let empty = MovePath {
        pos: Vec2::new(0, 0),
        velocity: Vec2::new(0, 0),
        moves: vec![],
    };
    assert_eq!(empty.get_last_pos_fh(), None);
}

use shroom_proto95::npc::{
    ask_menu_message, ask_number_message, ask_text_message, ask_yes_no_message, say_message,
};
use shroom_proto95::script::ScriptMessage;

#[test]
fn script_messages() {
    match say_message("hi".to_string(), false) {
        ScriptMessage::Say(m) => {
            assert!(m.has_next);
            assert!(!m.has_prev);
            assert_eq!(m.txt, "hi");
            assert_eq!(m.speaker_tmpl_id, None);
            assert_eq!(m.param.bits(), 0);
        }
        _ => panic!("expected a say message"),
    }
    match say_message("bye".to_string(), true) {
        ScriptMessage::Say(m) => assert!(!m.has_next),
        _ => panic!("expected a say message"),
    }
    match ask_text_message("name?".to_string(), 4, 70000, "x".to_string()) {
        ScriptMessage::AskText(m) => {
            assert_eq!(m.min, 4);
            assert_eq!(m.max, 70000u32 as u16);
            assert_eq!(m.default_txt, "x");
        }
        _ => panic!("expected a text question"),
    }
    match ask_number_message("n?".to_string(), 1, 9, 5) {
        ScriptMessage::AskNumber(m) => assert_eq!((m.min, m.max, m.default_number), (1, 9, 5)),
        _ => panic!("expected a number question"),
    }
    assert_eq!(ask_menu_message("m".to_string()).tag(), 5);
    assert_eq!(ask_yes_no_message("y?".to_string()).tag(), 2);
}

#[test]
fn shared_waiting_is_last_set() {
    let mut s: Shared<u32> = Shared::new();
    assert!(!s.is_waiting());
    s.set_waiting(true);
    s.set_ctx();
    s.set_input(Some(4));
    assert_eq!(s.take_input(), Some(4));
    s.clr_ctx();
    assert!(s.is_waiting());
    s.set_waiting(false);
    s.set_input(None);
    assert!(!s.is_waiting());
}
