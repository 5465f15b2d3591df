//! The channel's error taxonomy.  Retryable transport conditions are told
//! apart from fatal framing, descriptor-association and decoding failures.

use vstd::prelude::*;

verus! {

/// The shape of a transport-level failure, as the protocol logic reads it.
/// The driving loop maps the platform's I/O error onto this before handing
/// it to the library; the library in turn decides which conditions are
/// retried and which are fatal.
#[derive(Debug, Clone, Copy, PartialEq, Eq, Structural)]
pub enum IoKind {
    /// The connection was not ready; wait for readiness and retry.
    WouldBlock,
    /// A signal interrupted the call; retry at once.
    Interrupted,
    /// A write moved zero bytes: the peer is gone, not merely slow.
    WriteZero,
    /// Any other transport failure; fatal.
    Other,
}

/// Everything that can go wrong on a framed channel.
#[derive(Debug, Clone, Copy, PartialEq, Eq, Structural)]
pub enum ChannelError {
    /// A transport failure, by kind.
    Io(IoKind),
    /// The payload bytes did not decode to any message.
    Decode,
    /// An encoded message of the given length exceeds the given transmit
    /// budget; nothing was written.
    MessageTooLargeForTxBuffer(usize, usize),
    /// An incoming frame of the given total length, prefix included,
    /// exceeds the given receive-buffer capacity; the channel is unusable
    /// afterwards.  A frame length beyond what the machine word can hold
    /// is reported as the word's maximum.
    MessageTooLargeForRxBuffer(usize, usize),
    /// The peer closed the connection in the middle of a frame.
    ConnectionClosedPrematurely,
    /// A descriptor-carrying message decoded while the pending-descriptor
    /// queue was empty: a protocol violation.
    MissingFdForMessage,
}

impl ChannelError {
    /// True exactly for the condition the driving loop answers by waiting
    /// for connection readiness and retrying the unsent or unread remainder.
    pub fn retry_after_ready(&self) -> (r: bool)
        ensures
            r == (self matches ChannelError::Io(IoKind::WouldBlock)),
    {
        matches!(self, ChannelError::Io(IoKind::WouldBlock))
    }

    /// True exactly for the condition the driving loop answers by retrying
    /// the same call at once, with no wait.
    pub fn retry_at_once(&self) -> (r: bool)
        ensures
            r == (self matches ChannelError::Io(IoKind::Interrupted)),
    {
        matches!(self, ChannelError::Io(IoKind::Interrupted))
    }
}

} // verus!
