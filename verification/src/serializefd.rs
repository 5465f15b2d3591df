//! The descriptor-carrying capability: every message type of the protocol
//! says whether a value of it carries exactly one operating-system
//! descriptor, hands that descriptor out at send time, and claims one back
//! from the pending queue at receive time.

use std::collections::VecDeque;

use vstd::prelude::*;

use crate::error::ChannelError;

verus! {

/// A message type whose variants carry zero or exactly one descriptor.
///
/// `extract_fd` reads the embedded descriptor at send time, so it can ride
/// as ancillary data beside the first chunk of the frame.  `compose_fd`
/// runs at receive time: a carrying variant claims the oldest pending
/// descriptor, every other variant passes through untouched.  Descriptors
/// are claimed strictly in arrival order.
pub trait SerializeFd: Sized {
    /// The descriptor embedded in this value, if its variant carries one.
    spec fn fd_spec(&self) -> Option<i32>;

    /// This value rebuilt around the descriptor `fd`; meaningful only for
    /// carrying variants.
    spec fn with_fd_spec(self, fd: i32) -> Self;

    /// Hands out the embedded descriptor without consuming the message.
    fn extract_fd(&self) -> (r: Option<i32>)
        ensures
            r == self.fd_spec(),
    ;

    /// Rebuilds a carrying variant around the oldest pending descriptor;
    /// fails with `MissingFdForMessage` when a carrying variant meets an
    /// empty queue; returns every other variant unchanged.
    fn compose_fd(self, received_fds: &mut VecDeque<i32>) -> (r: Result<Self, ChannelError>)
        ensures
            self.fd_spec() is None ==> r == Ok::<Self, ChannelError>(self) && final(received_fds)@
                == old(received_fds)@,
            self.fd_spec() is Some && old(received_fds)@.len() > 0 ==> r == Ok::<
                Self,
                ChannelError,
            >(self.with_fd_spec(old(received_fds)@[0])) && final(received_fds)@ == old(received_fds)@.drop_first(),
            self.fd_spec() is Some && old(received_fds)@.len() == 0 ==> r == Err::<
                Self,
                ChannelError,
            >(ChannelError::MissingFdForMessage) && final(received_fds)@ == old(received_fds)@,
    ;
}

/// Claims the oldest pending descriptor, failing when none is queued.
pub fn pop_fd(fds: &mut VecDeque<i32>) -> (r: Result<i32, ChannelError>)
    ensures
        old(fds)@.len() > 0 ==> r == Ok::<i32, ChannelError>(old(fds)@[0]) && final(fds)@ == old(fds)@.drop_first(),
        old(fds)@.len() == 0 ==> r == Err::<i32, ChannelError>(
            ChannelError::MissingFdForMessage,
        ) && final(fds)@ == old(fds)@,
{
    match fds.pop_front() {
        Some(fd) => {
            proof {
                assert(fds@ =~= old(fds)@.drop_first());
            }
            Ok(fd)
        },
        None => Err(ChannelError::MissingFdForMessage),
    }
}

} // verus!
