use privsep::cli::{subsystem_arg, Cli, Subsystem};
use privsep::controller::{controller_step, CtrlAction, CtrlEvent, CtrlState, TIMER_PROBE_VALUE};
use privsep::msg::Msg;
use privsep::parser::{parser_ctrl_action, ParserAction};
use privsep::proc::{clear_cloexec, handoff_plan, remap_plan, HandoffPlan, CHILD_TARGET_FD};

#[test]
fn timer_probe_is_sent_exactly_once() {
    let mut st = CtrlState::new();
    assert_eq!(
        controller_step(&mut st, CtrlEvent::TimerFired),
        CtrlAction::SendToParser(Msg::IntegerMessage(TIMER_PROBE_VALUE))
    );
    assert_eq!(controller_step(&mut st, CtrlEvent::TimerFired), CtrlAction::Nothing);
}

#[test]
fn child_messages_need_no_action() {
    let mut st = CtrlState::new();
    assert_eq!(
        controller_step(&mut st, CtrlEvent::FromParser(Msg::TextMessage(b"hi".to_vec()))),
        CtrlAction::Nothing
    );
    assert_eq!(
        controller_step(&mut st, CtrlEvent::FromEngine(Msg::IntegerMessage(2))),
        CtrlAction::Nothing
    );
    assert!(!st.done);
}

#[test]
fn a_child_exit_kills_the_sibling() {
    let mut st = CtrlState::new();
    assert_eq!(controller_step(&mut st, CtrlEvent::ParserExited), CtrlAction::KillEngineAndStop);
    assert!(st.done);

    let mut st = CtrlState::new();
    assert_eq!(controller_step(&mut st, CtrlEvent::EngineExited), CtrlAction::KillParserAndStop);
    assert!(st.done);
}

#[test]
fn only_the_integer_probe_restricts_further() {
    assert_eq!(
        parser_ctrl_action(&Msg::IntegerMessage(24)),
        ParserAction::RestrictFurther(24)
    );
    assert_eq!(parser_ctrl_action(&Msg::TextMessage(b"t".to_vec())), ParserAction::Ignore);
    assert_eq!(parser_ctrl_action(&Msg::FileDescriptor(5)), ParserAction::Ignore);
}

#[test]
fn remap_closes_the_original_only_when_it_differs() {
    assert_eq!(
        remap_plan(17),
        HandoffPlan {
            dup_from: 17,
            dup_to: CHILD_TARGET_FD,
            close_parent: None,
            close_original: true
        }
    );
    assert_eq!(
        remap_plan(CHILD_TARGET_FD),
        HandoffPlan {
            dup_from: CHILD_TARGET_FD,
            dup_to: CHILD_TARGET_FD,
            close_parent: None,
            close_original: false
        }
    );
}

#[test]
fn handoff_takes_any_agreed_number_and_closes_the_parent_end() {
    // A topology that agrees on number 56 and leaves the parent's end of
    // the pair open in the child until the hand-off window closes it.
    assert_eq!(
        handoff_plan(7, 56, Some(5)),
        HandoffPlan { dup_from: 7, dup_to: 56, close_parent: Some(5), close_original: true }
    );
    assert_eq!(
        handoff_plan(56, 56, Some(5)),
        HandoffPlan { dup_from: 56, dup_to: 56, close_parent: Some(5), close_original: false }
    );
}

#[test]
fn cloexec_is_cleared_and_nothing_else() {
    assert_eq!(clear_cloexec(0b101), 0b100);
    assert_eq!(clear_cloexec(0), 0);
    assert_eq!(clear_cloexec(1), 0);
    assert_eq!(clear_cloexec(0b110), 0b110);
}

#[test]
fn subsystem_arguments() {
    assert_eq!(subsystem_arg(&Subsystem::Parser), "parser");
    assert_eq!(subsystem_arg(&Subsystem::Engine), "engine");
    let cli = Cli { subsystem: None };
    assert_eq!(cli.subsystem, None);
}
