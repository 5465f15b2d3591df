//! The parser role's decisions.  Its bootstrap and event loop are I/O and
//! live with the driver; the choices — which control messages matter and
//! which trigger the role's further privilege restriction — are taken here.

use vstd::prelude::*;

use crate::msg::{Msg, MsgView};

verus! {

/// What the parser's loop must do with a control message.
#[derive(Debug, PartialEq)]
pub enum ParserAction {
    /// The integer probe arrived: note its value and narrow the role's
    /// allowed operations further, through the platform's
    /// privilege-restriction call.
    RestrictFurther(i64),
    /// Text, or a descriptor outside the bootstrap phase: nothing to do.
    Ignore,
}

/// One step of the parser's control-message handling: exactly the integer
/// probe answers with the further restriction, everything else is ignored.
pub fn parser_ctrl_action(m: &Msg) -> (a: ParserAction)
    ensures
        a == (match m@ {
            MsgView::Integer(n) => ParserAction::RestrictFurther(n),
            _ => ParserAction::Ignore,
        }),
{
    match m {
        Msg::IntegerMessage(n) => ParserAction::RestrictFurther(*n),
        _ => ParserAction::Ignore,
    }
}

} // verus!
