//! The orchestrator's decisions.  The event loop itself — socket
//! readiness, the shutdown timer, child-exit notifications — is plain I/O
//! and lives with the driver; every choice it makes is taken here, as a
//! step function from state and event to action.

use vstd::prelude::*;

use crate::msg::Msg;

verus! {

/// What the orchestrator remembers between events: whether the one-shot
/// timer has already been answered, and whether the topology is coming
/// down.
#[derive(Debug, PartialEq, Eq, Structural, Clone, Copy)]
pub struct CtrlState {
    pub timer_handled: bool,
    pub done: bool,
}

/// One event the orchestrator's loop can wake on.
#[derive(Debug, PartialEq)]
pub enum CtrlEvent {
    /// The shutdown-probe timer fired.
    TimerFired,
    /// A message arrived from the parser child.
    FromParser(Msg),
    /// A message arrived from the engine child.
    FromEngine(Msg),
    /// The parser child exited.
    ParserExited,
    /// The engine child exited.
    EngineExited,
}

/// What the orchestrator's loop must do next.
#[derive(Debug, PartialEq)]
pub enum CtrlAction {
    /// Send this message down the parser channel.
    SendToParser(Msg),
    /// Kill the engine child, then leave the loop.
    KillEngineAndStop,
    /// Kill the parser child, then leave the loop.
    KillParserAndStop,
    /// Nothing to do for this event.
    Nothing,
}

/// The probe the controller sends the parser once, when the timer fires.
pub const TIMER_PROBE_VALUE: i64 = 24;

/// One step of the orchestrator: the timer is answered exactly once with a
/// probe to the parser; messages from children are received and carry no
/// further action here; and on any child's exit the remaining child is
/// killed before the loop ends — a child's failure never leaves a sibling
/// running.
pub fn controller_step(st: &mut CtrlState, ev: CtrlEvent) -> (a: CtrlAction)
    ensures
        (match ev {
            CtrlEvent::TimerFired => if !old(st).timer_handled {
                a == CtrlAction::SendToParser(Msg::IntegerMessage(TIMER_PROBE_VALUE)) && *final(st)
                    == (CtrlState { timer_handled: true, done: old(st).done })
            } else {
                a == CtrlAction::Nothing && *final(st) == *old(st)
            },
            CtrlEvent::FromParser(_) => a == CtrlAction::Nothing && *final(st) == *old(st),
            CtrlEvent::FromEngine(_) => a == CtrlAction::Nothing && *final(st) == *old(st),
            CtrlEvent::ParserExited => a == CtrlAction::KillEngineAndStop && *final(st)
                == (CtrlState { timer_handled: old(st).timer_handled, done: true }),
            CtrlEvent::EngineExited => a == CtrlAction::KillParserAndStop && *final(st)
                == (CtrlState { timer_handled: old(st).timer_handled, done: true }),
        }),
{
    match ev {
        CtrlEvent::TimerFired => {
            if !st.timer_handled {
                st.timer_handled = true;
                CtrlAction::SendToParser(Msg::IntegerMessage(TIMER_PROBE_VALUE))
            } else {
                CtrlAction::Nothing
            }
        },
        CtrlEvent::FromParser(_) => CtrlAction::Nothing,
        CtrlEvent::FromEngine(_) => CtrlAction::Nothing,
        CtrlEvent::ParserExited => {
            st.done = true;
            CtrlAction::KillEngineAndStop
        },
        CtrlEvent::EngineExited => {
            st.done = true;
            CtrlAction::KillParserAndStop
        },
    }
}

impl CtrlState {
    /// The orchestrator's state at start-up: timer unanswered, topology up.
    pub fn new() -> (r: CtrlState)
        ensures
            !r.timer_handled,
            !r.done,
    {
        CtrlState { timer_handled: false, done: false }
    }
}

} // verus!
