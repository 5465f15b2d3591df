//! Per-role message vocabularies for the three-process topology: each pair
//! of peers speaks its own small enum, and every variant carries zero or
//! exactly one descriptor under the descriptor-carrying contract.

use std::collections::VecDeque;

use vstd::prelude::*;

use crate::error::ChannelError;
use crate::serializefd::{pop_fd, SerializeFd};

verus! {

/// Parser to engine: nothing here carries a descriptor.
#[derive(Debug, PartialEq)]
pub enum EngineParseMsg {
    Failed,
}

impl SerializeFd for EngineParseMsg {
    open spec fn fd_spec(&self) -> Option<i32> {
        Option::None
    }

    open spec fn with_fd_spec(self, fd: i32) -> Self {
        self
    }

    fn extract_fd(&self) -> (r: Option<i32>) {
        None
    }

    fn compose_fd(self, received_fds: &mut VecDeque<i32>) -> (r: Result<Self, ChannelError>) {
        Ok(self)
    }
}

/// Controller to parser: the peer socket and a spare connection each carry
/// one descriptor; data and shutdown carry none.
#[derive(Debug, PartialEq)]
pub enum CtrlParseMsg {
    PeerSocket(i32),
    Connection(i32),
    Data(String),
    Stop,
}

impl SerializeFd for CtrlParseMsg {
    open spec fn fd_spec(&self) -> Option<i32> {
        match self {
            CtrlParseMsg::PeerSocket(fd) => Option::Some(*fd),
            CtrlParseMsg::Connection(fd) => Option::Some(*fd),
            _ => Option::None,
        }
    }

    open spec fn with_fd_spec(self, fd: i32) -> Self {
        match self {
            CtrlParseMsg::PeerSocket(_) => CtrlParseMsg::PeerSocket(fd),
            CtrlParseMsg::Connection(_) => CtrlParseMsg::Connection(fd),
            other => other,
        }
    }

    fn extract_fd(&self) -> (r: Option<i32>) {
        match self {
            CtrlParseMsg::PeerSocket(fd) => Some(*fd),
            CtrlParseMsg::Connection(fd) => Some(*fd),
            _ => None,
        }
    }

    fn compose_fd(self, received_fds: &mut VecDeque<i32>) -> (r: Result<Self, ChannelError>) {
        match self {
            CtrlParseMsg::PeerSocket(_) => match pop_fd(received_fds) {
                Ok(fd) => Ok(CtrlParseMsg::PeerSocket(fd)),
                Err(e) => Err(e),
            },
            CtrlParseMsg::Connection(_) => match pop_fd(received_fds) {
                Ok(fd) => Ok(CtrlParseMsg::Connection(fd)),
                Err(e) => Err(e),
            },
            other => Ok(other),
        }
    }
}

/// Parser to controller: nothing here carries a descriptor.
#[derive(Debug, PartialEq)]
pub enum ParseCtrlMsg {
    Foo,
}

impl SerializeFd for ParseCtrlMsg {
    open spec fn fd_spec(&self) -> Option<i32> {
        Option::None
    }

    open spec fn with_fd_spec(self, fd: i32) -> Self {
        self
    }

    fn extract_fd(&self) -> (r: Option<i32>) {
        None
    }

    fn compose_fd(self, received_fds: &mut VecDeque<i32>) -> (r: Result<Self, ChannelError>) {
        Ok(self)
    }
}

/// Controller to engine: the peer socket carries one descriptor.
#[derive(Debug, PartialEq)]
pub enum CtrlEngineMsg {
    PeerSocket(i32),
    Stop,
}

impl SerializeFd for CtrlEngineMsg {
    open spec fn fd_spec(&self) -> Option<i32> {
        match self {
            CtrlEngineMsg::PeerSocket(fd) => Option::Some(*fd),
            _ => Option::None,
        }
    }

    open spec fn with_fd_spec(self, fd: i32) -> Self {
        match self {
            CtrlEngineMsg::PeerSocket(_) => CtrlEngineMsg::PeerSocket(fd),
            other => other,
        }
    }

    fn extract_fd(&self) -> (r: Option<i32>) {
        match self {
            CtrlEngineMsg::PeerSocket(fd) => Some(*fd),
            _ => None,
        }
    }

    fn compose_fd(self, received_fds: &mut VecDeque<i32>) -> (r: Result<Self, ChannelError>) {
        match self {
            CtrlEngineMsg::PeerSocket(_) => match pop_fd(received_fds) {
                Ok(fd) => Ok(CtrlEngineMsg::PeerSocket(fd)),
                Err(e) => Err(e),
            },
            other => Ok(other),
        }
    }
}

/// Engine to controller: nothing here carries a descriptor.
#[derive(Debug, PartialEq)]
pub enum EngineCtrlMsg {
    Bar,
}

impl SerializeFd for EngineCtrlMsg {
    open spec fn fd_spec(&self) -> Option<i32> {
        Option::None
    }

    open spec fn with_fd_spec(self, fd: i32) -> Self {
        self
    }

    fn extract_fd(&self) -> (r: Option<i32>) {
        None
    }

    fn compose_fd(self, received_fds: &mut VecDeque<i32>) -> (r: Result<Self, ChannelError>) {
        Ok(self)
    }
}

} // verus!
