//! The application message vocabulary of the flagship topology, and the
//! payload codec that turns a message into the bytes a frame carries.
//!
//! The schema is fixed: a 32-bit little-endian variant tag, then the
//! variant's fields — a text payload as a 64-bit little-endian byte count
//! followed by the bytes, an integer as its 64-bit little-endian two's
//! complement.  A descriptor is never part of the payload: it rides as
//! ancillary data beside the frame, so its variant encodes as the bare tag
//! and decodes with a placeholder descriptor of zero until one is claimed
//! from the pending queue.

use std::collections::VecDeque;

use vstd::prelude::*;

use crate::error::ChannelError;
use crate::serializefd::SerializeFd;
use crate::wire::{
    lemma_u32_le_round_trip,
    lemma_u64_le_round_trip,
    push_u32_le,
    push_u64_le,
    read_u32_le,
    read_u64_le,
    u32_from_le,
    u32_le_bytes,
    u64_from_le,
    u64_le_bytes,
};

verus! {

/// One application message.  Each variant carries zero or exactly one
/// descriptor — never more.  The text payload is carried as its bytes.
#[derive(Debug, PartialEq)]
pub enum Msg {
    TextMessage(Vec<u8>),
    IntegerMessage(i64),
    FileDescriptor(i32),
}

/// The mathematical shape of a message, as the contracts speak of it.
pub enum MsgView {
    Text(Seq<u8>),
    Integer(i64),
    Fd(i32),
}

impl View for Msg {
    type V = MsgView;

    open spec fn view(&self) -> MsgView {
        match self {
            Msg::TextMessage(t) => MsgView::Text(t@),
            Msg::IntegerMessage(n) => MsgView::Integer(*n),
            Msg::FileDescriptor(fd) => MsgView::Fd(*fd),
        }
    }
}

/// Variant tag of a text message.
pub const TAG_TEXT: u32 = 0;

/// Variant tag of an integer message.
pub const TAG_INTEGER: u32 = 1;

/// Variant tag of a descriptor-carrying message.
pub const TAG_FD: u32 = 2;

/// The payload bytes that encode a message.  The embedded descriptor is
/// deliberately absent: encoding depends only on the variant and its
/// in-band fields.
pub open spec fn msg_encoding(m: MsgView) -> Seq<u8> {
    match m {
        MsgView::Text(t) => u32_le_bytes(TAG_TEXT) + u64_le_bytes(t.len() as u64) + t,
        MsgView::Integer(n) => u32_le_bytes(TAG_INTEGER) + u64_le_bytes(n as u64),
        MsgView::Fd(_) => u32_le_bytes(TAG_FD),
    }
}

/// A message as it stands right after decoding, before any descriptor is
/// claimed: a carrying variant holds the placeholder descriptor zero.
pub open spec fn wire_form(m: MsgView) -> MsgView {
    match m {
        MsgView::Fd(_) => MsgView::Fd(0),
        other => other,
    }
}

/// The one message a payload decodes to, or nothing when the bytes are
/// malformed: wrong length for the tag, a byte count that disagrees with
/// the bytes present, or an unknown tag.
pub open spec fn decode_msg_spec(b: Seq<u8>) -> Option<MsgView> {
    if b.len() < 4 {
        Option::None
    } else {
        let tag = u32_from_le(b[0], b[1], b[2], b[3]);
        if tag == TAG_TEXT {
            if b.len() < 12 {
                Option::None
            } else {
                let count = u64_from_le(b.subrange(4, 12));
                if b.len() - 12 == count {
                    Option::Some(MsgView::Text(b.skip(12)))
                } else {
                    Option::None
                }
            }
        } else if tag == TAG_INTEGER {
            if b.len() == 12 {
                Option::Some(MsgView::Integer(u64_from_le(b.subrange(4, 12)) as i64))
            } else {
                Option::None
            }
        } else if tag == TAG_FD {
            if b.len() == 4 {
                Option::Some(MsgView::Fd(0))
            } else {
                Option::None
            }
        } else {
            Option::None
        }
    }
}

/// Encodes a message into payload bytes.
pub fn encode_msg(m: &Msg) -> (r: Vec<u8>)
    ensures
        r@ == msg_encoding(m@),
{
    let mut v: Vec<u8> = Vec::new();
    match m {
        Msg::TextMessage(t) => {
            push_u32_le(&mut v, TAG_TEXT);
            push_u64_le(&mut v, t.len() as u64);
            let mut i: usize = 0;
            while i < t.len()
                invariant
                    i <= t@.len(),
                    v@ == u32_le_bytes(TAG_TEXT) + u64_le_bytes(t@.len() as u64) + t@.take(
                        i as int,
                    ),
                decreases t@.len() - i,
            {
                v.push(t[i]);
                proof {
                    assert(v@ =~= u32_le_bytes(TAG_TEXT) + u64_le_bytes(t@.len() as u64) + t@.take(
                        i + 1,
                    ));
                }
                i += 1;
            }
            proof {
                assert(t@.take(t@.len() as int) =~= t@);
            }
        },
        Msg::IntegerMessage(n) => {
            push_u32_le(&mut v, TAG_INTEGER);
            push_u64_le(&mut v, *n as u64);
        },
        Msg::FileDescriptor(_) => {
            push_u32_le(&mut v, TAG_FD);
        },
    }
    v
}

/// Decodes payload bytes into a message, or fails when they are malformed.
/// A carrying variant comes back with the placeholder descriptor zero; the
/// caller claims the real one from the pending queue afterwards.
pub fn decode_msg(b: &[u8]) -> (r: Result<Msg, ChannelError>)
    ensures
        match r {
            Ok(m) => decode_msg_spec(b@) == Option::Some(m@),
            Err(e) => e == ChannelError::Decode && decode_msg_spec(b@) is None,
        },
{
    if b.len() < 4 {
        return Err(ChannelError::Decode);
    }
    let tag = read_u32_le(b[0], b[1], b[2], b[3]);
    if tag == TAG_TEXT {
        if b.len() < 12 {
            return Err(ChannelError::Decode);
        }
        let count = read_u64_le(b[4], b[5], b[6], b[7], b[8], b[9], b[10], b[11]);
        proof {
            assert(b@.subrange(4, 12) =~= seq![
                b@[4],
                b@[5],
                b@[6],
                b@[7],
                b@[8],
                b@[9],
                b@[10],
                b@[11],
            ]);
        }
        if (b.len() - 12) as u64 != count {
            return Err(ChannelError::Decode);
        }
        let mut t: Vec<u8> = Vec::new();
        let mut i: usize = 12;
        while i < b.len()
            invariant
                12 <= i <= b@.len(),
                t@ == b@.subrange(12, i as int),
            decreases b@.len() - i,
        {
            t.push(b[i]);
            proof {
                assert(t@ =~= b@.subrange(12, i + 1));
            }
            i += 1;
        }
        proof {
            assert(b@.subrange(12, b@.len() as int) =~= b@.skip(12));
        }
        Ok(Msg::TextMessage(t))
    } else if tag == TAG_INTEGER {
        if b.len() != 12 {
            return Err(ChannelError::Decode);
        }
        let n = read_u64_le(b[4], b[5], b[6], b[7], b[8], b[9], b[10], b[11]);
        proof {
            assert(b@.subrange(4, 12) =~= seq![
                b@[4],
                b@[5],
                b@[6],
                b@[7],
                b@[8],
                b@[9],
                b@[10],
                b@[11],
            ]);
        }
        Ok(Msg::IntegerMessage(n as i64))
    } else if tag == TAG_FD {
        if b.len() != 4 {
            return Err(ChannelError::Decode);
        }
        Ok(Msg::FileDescriptor(0))
    } else {
        Err(ChannelError::Decode)
    }
}

/// Law: the codec round-trips.  Decoding the encoding of any message gives
/// back exactly that message in its wire form — the same variant and the
/// same in-band fields, with a carrying variant's descriptor reset to the
/// placeholder zero that the pending queue later replaces.
pub proof fn lemma_msg_codec_round_trip(m: MsgView)
    requires
        m matches MsgView::Text(t) ==> t.len() <= usize::MAX,
    ensures
        decode_msg_spec(msg_encoding(m)) == Option::Some(wire_form(m)),
        msg_encoding(wire_form(m)) == msg_encoding(m),
{
    match m {
        MsgView::Text(t) => {
            let b = msg_encoding(m);
            lemma_u32_le_round_trip(TAG_TEXT);
            assert(b[0] == u32_le_bytes(TAG_TEXT)[0] && b[1] == u32_le_bytes(TAG_TEXT)[1] && b[2]
                == u32_le_bytes(TAG_TEXT)[2] && b[3] == u32_le_bytes(TAG_TEXT)[3]);
            assert(u32_from_le(b[0], b[1], b[2], b[3]) == TAG_TEXT);
            assert(b.len() == 12 + t.len());
            assert(b.subrange(4, 12) =~= u64_le_bytes(t.len() as u64));
            lemma_u64_le_round_trip(t.len() as u64);
            assert(u64_from_le(b.subrange(4, 12)) == t.len() as u64);
            assert(t.len() as u64 == t.len());
            assert(b.skip(12) =~= t);
        },
        MsgView::Integer(n) => {
            let b = msg_encoding(m);
            lemma_u32_le_round_trip(TAG_INTEGER);
            assert(b[0] == u32_le_bytes(TAG_INTEGER)[0] && b[1] == u32_le_bytes(TAG_INTEGER)[1]
                && b[2] == u32_le_bytes(TAG_INTEGER)[2] && b[3] == u32_le_bytes(TAG_INTEGER)[3]);
            assert(u32_from_le(b[0], b[1], b[2], b[3]) == TAG_INTEGER);
            assert(b.len() == 12);
            assert(b.subrange(4, 12) =~= u64_le_bytes(n as u64));
            lemma_u64_le_round_trip(n as u64);
            assert(((n as u64) as i64) == n) by (bit_vector);
        },
        MsgView::Fd(fd) => {
            let b = msg_encoding(m);
            lemma_u32_le_round_trip(TAG_FD);
            assert(b[0] == u32_le_bytes(TAG_FD)[0] && b[1] == u32_le_bytes(TAG_FD)[1] && b[2]
                == u32_le_bytes(TAG_FD)[2] && b[3] == u32_le_bytes(TAG_FD)[3]);
            assert(u32_from_le(b[0], b[1], b[2], b[3]) == TAG_FD);
            assert(b.len() == 4);
        },
    }
}

/// The descriptor-carrying capability of a message, read off its view:
/// exactly the carrying variant holds a descriptor, and rebuilding around
/// a claimed descriptor changes nothing but that descriptor.
pub proof fn lemma_msg_fd_view(m: Msg)
    ensures
        m.fd_spec() == (match m@ {
            MsgView::Fd(fd) => Option::Some(fd),
            _ => Option::<i32>::None,
        }),
        forall|fd: i32|
            (#[trigger] m.with_fd_spec(fd))@ == (match m@ {
                MsgView::Fd(_) => MsgView::Fd(fd),
                other => other,
            }),
{
    match m {
        Msg::TextMessage(_) => {},
        Msg::IntegerMessage(_) => {},
        Msg::FileDescriptor(_) => {},
    }
}

impl SerializeFd for Msg {
    open spec fn fd_spec(&self) -> Option<i32> {
        match self {
            Msg::FileDescriptor(fd) => Option::Some(*fd),
            _ => Option::None,
        }
    }

    open spec fn with_fd_spec(self, fd: i32) -> Self {
        match self {
            Msg::FileDescriptor(_) => Msg::FileDescriptor(fd),
            other => other,
        }
    }

    fn extract_fd(&self) -> (r: Option<i32>) {
        match self {
            Msg::FileDescriptor(fd) => Some(*fd),
            _ => None,
        }
    }

    fn compose_fd(self, received_fds: &mut VecDeque<i32>) -> (r: Result<Self, ChannelError>) {
        match self {
            Msg::FileDescriptor(_) => {
                match received_fds.pop_front() {
                    Some(fd) => {
                        proof {
                            assert(received_fds@ =~= old(received_fds)@.drop_first());
                        }
                        Ok(Msg::FileDescriptor(fd))
                    },
                    None => Err(ChannelError::MissingFdForMessage),
                }
            },
            other => Ok(other),
        }
    }
}

/// The bootstrap decision of a worker role: a control message is accepted
/// as the expected descriptor hand-off exactly when it is the carrying
/// variant, and the descriptor it holds is handed on.
pub fn expect_fd_msg(m: &Msg) -> (r: Option<i32>)
    ensures
        r == (match m@ {
            MsgView::Fd(fd) => Option::<i32>::Some(fd),
            _ => Option::<i32>::None,
        }),
{
    match m {
        Msg::FileDescriptor(fd) => Some(*fd),
        _ => None,
    }
}

} // verus!
