//! A privilege-separation toolkit built around one hard piece: a reliable,
//! length-framed, ordered message transport layered on a byte stream that
//! also moves operating-system descriptors out of band.
//!
//! The crate verifies the protocol itself: framing, fixed-budget buffering,
//! partial-read and partial-write bookkeeping, and the strict first-in
//! first-out association between received descriptors and the messages that
//! claim them.  The sockets, the event loop and the process spawning that
//! drive the protocol are ordinary I/O and live outside the library; they
//! feed bytes and descriptors in and carry chunks and actions out.

pub mod channel;
pub mod cli;
pub mod controller;
pub mod error;
pub mod messages;
pub mod msg;
pub mod parser;
pub mod proc;
pub mod serializefd;
pub mod wire;
