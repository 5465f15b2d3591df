//! The role selector: which subsystem a process of the shared binary
//! plays.  Argument parsing itself is the driver's; these are the values
//! it parses into, and the argument each role is spawned with.

use vstd::prelude::*;

verus! {

/// A worker role of the shared binary.
#[derive(Debug, PartialEq, Eq, Structural, Clone, Copy)]
pub enum Subsystem {
    Parser,
    Engine,
}

/// The parsed command line: a worker role, or none for the controller.
#[derive(Debug, PartialEq, Eq, Structural, Clone, Copy)]
pub struct Cli {
    pub subsystem: Option<Subsystem>,
}

/// The argument a child is spawned with to take the given role.
pub fn subsystem_arg(s: &Subsystem) -> (r: &'static str)
    ensures
        s matches Subsystem::Parser ==> r@ == "parser"@,
        s matches Subsystem::Engine ==> r@ == "engine"@,
{
    match s {
        Subsystem::Parser => "parser",
        Subsystem::Engine => "engine",
    }
}

} // verus!
