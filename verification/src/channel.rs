//! The framed channel protocol.
//!
//! A frame is a 4-byte big-endian payload length followed by the payload.
//! Each direction works against a fixed budget of 4096 bytes, so a payload
//! never exceeds 4092 bytes.  The transmit half assembles one frame at a
//! time and hands out the unsent remainder chunk by chunk, attaching the
//! frame's descriptor — if its message carries one — to the first chunk
//! only.  The receive half buffers incoming bytes, cuts complete frames off
//! the front, keeps any bytes of the next frame as leftover, and queues
//! received descriptors first-in first-out until messages claim them.
//!
//! The two halves share no state, which is what lets a split channel send
//! and receive concurrently; the receive half owns the pending-descriptor
//! queue and closes whatever is still in it at teardown.

use std::collections::VecDeque;

use vstd::prelude::*;

use crate::error::{ChannelError, IoKind};
use crate::msg::{
    decode_msg,
    decode_msg_spec,
    encode_msg,
    lemma_msg_codec_round_trip,
    lemma_msg_fd_view,
    msg_encoding,
    wire_form,
    Msg,
    MsgView,
};
use crate::serializefd::SerializeFd;
use crate::wire::{lemma_u32_be_round_trip, push_u32_be, read_u32_be, u32_be_bytes, u32_from_be};

verus! {

/// Transmit budget: one frame is assembled here before it is written out.
pub const TX_BUFFER_SIZE: usize = 4096;

/// Receive budget: bytes not yet formed into a complete frame wait here.
pub const RX_BUFFER_SIZE: usize = 4096;

/// Wire size of the frame length prefix.
pub const PREFIX_BYTES: usize = 4;

/// The largest payload a frame can carry within the fixed budget.
pub const MAX_PAYLOAD_SIZE: usize = TX_BUFFER_SIZE - PREFIX_BYTES;

/// The frame that carries a payload: its length prefix, then its bytes.
pub open spec fn frame_of(payload: Seq<u8>) -> Seq<u8> {
    u32_be_bytes(payload.len() as u32) + payload
}

/// The transmit-only half: the frame in flight and how much of it has left.
pub struct ChannelTx {
    frame: Vec<u8>,
    sent: usize,
    fd: Option<i32>,
}

/// The receive-only half: buffered stream bytes and the pending-descriptor
/// queue.
pub struct ChannelRx {
    data: Vec<u8>,
    fds: VecDeque<i32>,
}

/// A framed channel over one byte-stream connection: a transmit half and a
/// receive half with no shared state.
pub struct Channel {
    pub tx: ChannelTx,
    pub rx: ChannelRx,
}

/// What the receive buffer holds, read off its front.
#[derive(Debug, PartialEq)]
pub enum RxPoll {
    /// No complete frame yet; more bytes must be read.
    NeedMore,
    /// One complete frame's payload, cut off the front of the buffer.
    Frame(Vec<u8>),
}

/// The outcome a poll of the receive buffer is bound to: it is a function
/// of the buffered bytes alone, which is why how those bytes arrived —
/// one read or many — cannot matter.
pub enum PollOutcome {
    /// Fewer bytes than a prefix, or fewer than the prefix announces.
    NeedMore,
    /// The frame's total length, prefix included, exceeds the buffer
    /// capacity; the channel is unusable from here on.
    TooLarge(int),
    /// The first frame's payload, and the leftover bytes after it.
    Frame(Seq<u8>, Seq<u8>),
}

/// The payload length announced by the prefix at the front of the buffer.
pub open spec fn announced_len(data: Seq<u8>) -> int
    recommends
        data.len() >= PREFIX_BYTES,
{
    u32_from_be(data[0], data[1], data[2], data[3]) as int
}

/// What polling a buffer holding `data` must yield.
pub open spec fn poll_outcome(data: Seq<u8>) -> PollOutcome {
    if data.len() < PREFIX_BYTES {
        PollOutcome::NeedMore
    } else if PREFIX_BYTES + announced_len(data) > RX_BUFFER_SIZE {
        PollOutcome::TooLarge(PREFIX_BYTES + announced_len(data))
    } else if data.len() < PREFIX_BYTES + announced_len(data) {
        PollOutcome::NeedMore
    } else {
        PollOutcome::Frame(
            data.subrange(PREFIX_BYTES as int, PREFIX_BYTES + announced_len(data)),
            data.skip(PREFIX_BYTES + announced_len(data)),
        )
    }
}

/// A length as one machine word can report it: itself where it fits, the
/// word's maximum where an announced frame length has no representation.
pub open spec fn reportable_len(n: int) -> usize {
    if n <= usize::MAX {
        n as usize
    } else {
        usize::MAX
    }
}

/// The descriptors of a read that are kept: every non-negative one, in
/// arrival order; invalid negative values are discarded.
pub open spec fn nonneg_fds(s: Seq<i32>) -> Seq<i32>
    decreases s.len(),
{
    if s.len() == 0 {
        Seq::empty()
    } else {
        nonneg_fds(s.drop_last()) + (if s.last() >= 0 {
            seq![s.last()]
        } else {
            Seq::empty()
        })
    }
}

impl ChannelTx {
    /// The frame being sent, prefix included.
    pub closed spec fn frame_seq(&self) -> Seq<u8> {
        self.frame@
    }

    /// How many of the frame's bytes the connection has accepted.
    pub closed spec fn sent_count(&self) -> int {
        self.sent as int
    }

    /// The descriptor still waiting to ride with the first chunk.
    pub closed spec fn attach_fd(&self) -> Option<i32> {
        self.fd
    }

    /// The half's invariant: the frame fits the budget, the sent count
    /// never passes the frame's end, and once bytes have left, no
    /// descriptor waits — it rode with the first chunk or was never there.
    pub open spec fn wf(&self) -> bool {
        &&& self.frame_seq().len() <= TX_BUFFER_SIZE
        &&& 0 <= self.sent_count() <= self.frame_seq().len()
        &&& (self.sent_count() > 0 ==> self.attach_fd() is None)
    }

    /// No send is in flight: the previous frame has fully left.
    pub open spec fn done(&self) -> bool {
        self.sent_count() == self.frame_seq().len()
    }

    /// A fresh transmit half with nothing in flight.
    pub fn new() -> (r: ChannelTx)
        ensures
            r.wf(),
            r.done(),
            r.attach_fd() is None,
    {
        ChannelTx { frame: Vec::new(), sent: 0, fd: None }
    }

    /// True when no send is in flight.
    pub fn is_done(&self) -> (r: bool)
        ensures
            r == self.done(),
    {
        self.sent == self.frame.len()
    }

    /// Starts sending a payload, with the descriptor its message carries,
    /// if any.  A payload over the budget is refused whole: the error names
    /// the length and the budget, and nothing is staged for the wire.  One
    /// send is in flight per half at a time.
    pub fn begin_send(&mut self, payload: &[u8], fd: Option<i32>) -> (r: Result<(), ChannelError>)
        requires
            old(self).wf(),
            old(self).done(),
        ensures
            final(self).wf(),
            payload@.len() > MAX_PAYLOAD_SIZE ==> r == Err::<(), ChannelError>(
                ChannelError::MessageTooLargeForTxBuffer(payload@.len() as usize, MAX_PAYLOAD_SIZE),
            ) && *final(self) == *old(self),
            payload@.len() <= MAX_PAYLOAD_SIZE ==> r == Ok::<(), ChannelError>(()) && final(self).frame_seq() == frame_of(payload@) && final(self).sent_count() == 0 && final(self).attach_fd() == fd,
    {
        if payload.len() > MAX_PAYLOAD_SIZE {
            return Err(ChannelError::MessageTooLargeForTxBuffer(payload.len(), MAX_PAYLOAD_SIZE));
        }
        let mut frame: Vec<u8> = Vec::new();
        push_u32_be(&mut frame, payload.len() as u32);
        let mut i: usize = 0;
        while i < payload.len()
            invariant
                i <= payload@.len(),
                payload@.len() <= MAX_PAYLOAD_SIZE,
                frame@ == u32_be_bytes(payload@.len() as u32) + payload@.take(i as int),
            decreases payload@.len() - i,
        {
            frame.push(payload[i]);
            proof {
                assert(frame@ =~= u32_be_bytes(payload@.len() as u32) + payload@.take(i + 1));
            }
            i += 1;
        }
        proof {
            assert(payload@.take(payload@.len() as int) =~= payload@);
        }
        self.frame = frame;
        self.sent = 0;
        self.fd = fd;
        Ok(())
    }

    /// The unsent remainder of the frame, to hand to the next write.
    pub fn next_chunk(&self) -> (r: Vec<u8>)
        requires
            self.wf(),
            !self.done(),
        ensures
            r@ == self.frame_seq().skip(self.sent_count()),
            r@.len() > 0,
    {
        let mut chunk: Vec<u8> = Vec::new();
        let mut i: usize = self.sent;
        while i < self.frame.len()
            invariant
                self.sent <= i <= self.frame@.len(),
                chunk@ == self.frame@.subrange(self.sent as int, i as int),
            decreases self.frame@.len() - i,
        {
            chunk.push(self.frame[i]);
            proof {
                assert(chunk@ =~= self.frame@.subrange(self.sent as int, i + 1));
            }
            i += 1;
        }
        proof {
            assert(self.frame@.subrange(self.sent as int, self.frame@.len() as int)
                =~= self.frame@.skip(self.sent as int));
        }
        chunk
    }

    /// The descriptor to attach to the coming write: the frame's descriptor
    /// rides with the first chunk only; later chunks of the same frame
    /// carry none.
    pub fn fd_to_attach(&self) -> (r: Option<i32>)
        ensures
            r == (if self.sent_count() == 0 {
                self.attach_fd()
            } else {
                Option::<i32>::None
            }),
    {
        if self.sent == 0 {
            self.fd
        } else {
            None
        }
    }

    /// Starts sending a whole message: encodes it and stages its frame,
    /// with the descriptor its variant carries riding along.  A message
    /// whose encoding is even one byte over the budget is refused with the
    /// exact lengths, and nothing is staged for the wire.
    pub fn begin_send_msg(&mut self, m: &Msg) -> (r: Result<(), ChannelError>)
        requires
            old(self).wf(),
            old(self).done(),
        ensures
            final(self).wf(),
            msg_encoding(m@).len() > MAX_PAYLOAD_SIZE ==> r == Err::<(), ChannelError>(
                ChannelError::MessageTooLargeForTxBuffer(
                    msg_encoding(m@).len() as usize,
                    MAX_PAYLOAD_SIZE,
                ),
            ) && *final(self) == *old(self),
            msg_encoding(m@).len() <= MAX_PAYLOAD_SIZE ==> r == Ok::<(), ChannelError>(()) && final(self).frame_seq() == frame_of(msg_encoding(m@)) && final(self).sent_count() == 0 && final(self).attach_fd() == m.fd_spec(),
    {
        let payload = encode_msg(m);
        self.begin_send(payload.as_slice(), m.extract_fd())
    }

    /// Records how many bytes the connection accepted.  A write that moved
    /// zero bytes is fatal — a closed peer, not backpressure; a write that
    /// moved any tells apart: the descriptor is spoken for from then on.
    pub fn advance(&mut self, n: usize) -> (r: Result<(), ChannelError>)
        requires
            old(self).wf(),
            old(self).sent_count() + n <= old(self).frame_seq().len(),
        ensures
            final(self).wf(),
            n == 0 ==> r == Err::<(), ChannelError>(ChannelError::Io(IoKind::WriteZero)) && *final(self) == *old(self),
            n > 0 ==> r == Ok::<(), ChannelError>(()) && final(self).frame_seq() == old(self).frame_seq() && final(self).sent_count() == old(self).sent_count() + n && final(self).attach_fd() is None,
    {
        if n == 0 {
            return Err(ChannelError::Io(IoKind::WriteZero));
        }
        self.sent = self.sent + n;
        self.fd = None;
        Ok(())
    }
}

impl ChannelRx {
    /// The stream bytes buffered and not yet cut into frames.
    pub closed spec fn buffered(&self) -> Seq<u8> {
        self.data@
    }

    /// The received descriptors no message has claimed yet, oldest first.
    pub closed spec fn pending_fds(&self) -> Seq<i32> {
        self.fds@
    }

    /// The half's invariant: the buffer respects its budget and the queue
    /// holds only valid descriptors.
    pub open spec fn wf(&self) -> bool {
        &&& self.buffered().len() <= RX_BUFFER_SIZE
        &&& forall|i: int|
            0 <= i < self.pending_fds().len() ==> #[trigger] self.pending_fds()[i] >= 0
    }

    /// A fresh receive half with an empty buffer and an empty queue.
    pub fn new() -> (r: ChannelRx)
        ensures
            r.wf(),
            r.buffered() == Seq::<u8>::empty(),
            r.pending_fds() == Seq::<i32>::empty(),
    {
        ChannelRx { data: Vec::new(), fds: VecDeque::new() }
    }

    /// How many more stream bytes the fixed buffer can take; the driving
    /// loop reads at most this much.
    pub fn free_space(&self) -> (r: usize)
        requires
            self.wf(),
        ensures
            r == RX_BUFFER_SIZE - self.buffered().len(),
    {
        RX_BUFFER_SIZE - self.data.len()
    }

    /// How many received descriptors wait unclaimed.
    pub fn pending_fd_count(&self) -> (r: usize)
        ensures
            r == self.pending_fds().len(),
    {
        self.fds.len()
    }

    /// Takes in the result of one read: the bytes and the descriptors it
    /// delivered.  A read of zero bytes is the peer shutting down mid-frame
    /// and fails with `ConnectionClosedPrematurely`; otherwise the bytes
    /// are appended to the buffer and every valid descriptor joins the back
    /// of the pending queue in arrival order.
    pub fn ingest(&mut self, chunk: &[u8], fds: &[i32]) -> (r: Result<(), ChannelError>)
        requires
            old(self).wf(),
            old(self).buffered().len() + chunk@.len() <= RX_BUFFER_SIZE,
        ensures
            final(self).wf(),
            chunk@.len() == 0 ==> r == Err::<(), ChannelError>(
                ChannelError::ConnectionClosedPrematurely,
            ) && *final(self) == *old(self),
            chunk@.len() > 0 ==> r == Ok::<(), ChannelError>(()) && final(self).buffered() == old(self).buffered() + chunk@ && final(self).pending_fds() == old(self).pending_fds()
                + nonneg_fds(fds@),
    {
        if chunk.len() == 0 {
            return Err(ChannelError::ConnectionClosedPrematurely);
        }
        let mut i: usize = 0;
        while i < chunk.len()
            invariant
                i <= chunk@.len(),
                old(self).buffered().len() + chunk@.len() <= RX_BUFFER_SIZE,
                self.data@ == old(self).buffered() + chunk@.take(i as int),
                self.fds@ == old(self).pending_fds(),
            decreases chunk@.len() - i,
        {
            self.data.push(chunk[i]);
            proof {
                assert(self.data@ =~= old(self).buffered() + chunk@.take(i + 1));
            }
            i += 1;
        }
        proof {
            assert(chunk@.take(chunk@.len() as int) =~= chunk@);
        }
        let mut j: usize = 0;
        while j < fds.len()
            invariant
                j <= fds@.len(),
                self.data@ == old(self).buffered() + chunk@,
                self.fds@ == old(self).pending_fds() + nonneg_fds(fds@.take(j as int)),
                forall|k: int|
                    0 <= k < old(self).pending_fds().len() ==> #[trigger] old(self).pending_fds()[k]
                        >= 0,
                forall|k: int| 0 <= k < self.pending_fds().len() ==> #[trigger] self.pending_fds()[k] >= 0,
            decreases fds@.len() - j,
        {
            let fd = fds[j];
            proof {
                assert(fds@.take(j + 1).drop_last() =~= fds@.take(j as int));
                assert(fds@.take(j + 1).last() == fds@[j as int]);
            }
            if fd >= 0 {
                let ghost before = self.pending_fds();
                self.fds.push_back(fd);
                proof {
                    assert(self.fds@ =~= old(self).pending_fds() + nonneg_fds(fds@.take(j + 1)));
                    assert forall|k: int|
                        0 <= k < self.pending_fds().len() implies #[trigger] self.pending_fds()[k]
                        >= 0 by {
                        if k < before.len() {
                            assert(self.pending_fds()[k] == before[k]);
                        } else {
                            assert(self.pending_fds()[k] == fd);
                        }
                    }
                }
            } else {
                proof {
                    assert(nonneg_fds(fds@.take(j + 1)) =~= nonneg_fds(fds@.take(j as int)));
                }
            }
            j += 1;
        }
        proof {
            assert(fds@.take(fds@.len() as int) =~= fds@);
        }
        Ok(())
    }

    /// Cuts one frame off the front of the buffer, if a complete one is
    /// there.  A prefix announcing a frame beyond the buffer capacity is
    /// fatal, reports that frame length against the capacity, and leaves
    /// the buffer untouched.  On success the bytes beyond the frame stay
    /// buffered as the start of the next one — this is what preserves a
    /// second frame that arrived packed together with the first.
    pub fn poll_frame(&mut self) -> (r: Result<RxPoll, ChannelError>)
        requires
            old(self).wf(),
        ensures
            final(self).wf(),
            final(self).pending_fds() == old(self).pending_fds(),
            match poll_outcome(old(self).buffered()) {
                PollOutcome::NeedMore => r == Ok::<RxPoll, ChannelError>(RxPoll::NeedMore) && final(self).buffered() == old(self).buffered(),
                PollOutcome::TooLarge(n) => r == Err::<RxPoll, ChannelError>(
                    ChannelError::MessageTooLargeForRxBuffer(reportable_len(n), RX_BUFFER_SIZE),
                ) && final(self).buffered() == old(self).buffered(),
                PollOutcome::Frame(payload, rest) => (r matches Ok(p) && p matches RxPoll::Frame(v)
                    && v@ == payload) && final(self).buffered() == rest,
            },
    {
        if self.data.len() < PREFIX_BYTES {
            return Ok(RxPoll::NeedMore);
        }
        let announced = read_u32_be(self.data[0], self.data[1], self.data[2], self.data[3]);
        let payload_len = announced as usize;
        if payload_len > MAX_PAYLOAD_SIZE {
            let reported: usize = if payload_len <= usize::MAX - PREFIX_BYTES {
                payload_len + PREFIX_BYTES
            } else {
                usize::MAX
            };
            return Err(ChannelError::MessageTooLargeForRxBuffer(reported, RX_BUFFER_SIZE));
        }
        let frame_len = PREFIX_BYTES + payload_len;
        if self.data.len() < frame_len {
            return Ok(RxPoll::NeedMore);
        }
        let mut payload: Vec<u8> = Vec::new();
        let mut i: usize = PREFIX_BYTES;
        while i < frame_len
            invariant
                PREFIX_BYTES <= i <= frame_len,
                frame_len <= self.data@.len(),
                self.data@ == old(self).buffered(),
                self.fds@ == old(self).pending_fds(),
                payload@ == self.data@.subrange(PREFIX_BYTES as int, i as int),
            decreases frame_len - i,
        {
            payload.push(self.data[i]);
            proof {
                assert(payload@ =~= self.data@.subrange(PREFIX_BYTES as int, i + 1));
            }
            i += 1;
        }
        let mut rest: Vec<u8> = Vec::new();
        let mut j: usize = frame_len;
        while j < self.data.len()
            invariant
                frame_len <= j <= self.data@.len(),
                self.data@ == old(self).buffered(),
                self.fds@ == old(self).pending_fds(),
                payload@ == self.data@.subrange(PREFIX_BYTES as int, frame_len as int),
                rest@ == self.data@.subrange(frame_len as int, j as int),
            decreases self.data@.len() - j,
        {
            rest.push(self.data[j]);
            proof {
                assert(rest@ =~= self.data@.subrange(frame_len as int, j + 1));
            }
            j += 1;
        }
        proof {
            assert(rest@ =~= self.data@.skip(frame_len as int));
            assert(payload@ =~= old(self).buffered().subrange(
                PREFIX_BYTES as int,
                PREFIX_BYTES + announced_len(old(self).buffered()),
            ));
        }
        self.data = rest;
        Ok(RxPoll::Frame(payload))
    }

    /// Claims the pending descriptor a freshly decoded message is owed, per
    /// the descriptor-carrying contract: carrying variants take the oldest
    /// queued descriptor, all others pass through and leave the queue as it
    /// was.
    pub fn compose<M: SerializeFd>(&mut self, m: M) -> (r: Result<M, ChannelError>)
        requires
            old(self).wf(),
        ensures
            final(self).wf(),
            final(self).buffered() == old(self).buffered(),
            m.fd_spec() is None ==> r == Ok::<M, ChannelError>(m) && final(self).pending_fds()
                == old(self).pending_fds(),
            m.fd_spec() is Some && old(self).pending_fds().len() > 0 ==> r == Ok::<M, ChannelError>(
                m.with_fd_spec(old(self).pending_fds()[0]),
            ) && final(self).pending_fds() == old(self).pending_fds().drop_first(),
            m.fd_spec() is Some && old(self).pending_fds().len() == 0 ==> r == Err::<
                M,
                ChannelError,
            >(ChannelError::MissingFdForMessage) && final(self).pending_fds() == old(self).pending_fds(),
    {
        m.compose_fd(&mut self.fds)
    }

    /// Turns one complete frame's payload into a message: decodes the
    /// bytes, then claims from the pending queue whatever descriptor the
    /// decoded variant is owed.  Malformed bytes fail with `Decode`; a
    /// carrying variant against an empty queue fails with
    /// `MissingFdForMessage`, the ordering violation spec'd as fatal.
    pub fn decode_frame(&mut self, payload: &[u8]) -> (r: Result<Msg, ChannelError>)
        requires
            old(self).wf(),
        ensures
            final(self).wf(),
            final(self).buffered() == old(self).buffered(),
            decode_msg_spec(payload@) is None ==> r == Err::<Msg, ChannelError>(
                ChannelError::Decode,
            ) && final(self).pending_fds() == old(self).pending_fds(),
            match decode_msg_spec(payload@) {
                Option::Some(mv) => match mv {
                    MsgView::Fd(_) => if old(self).pending_fds().len() > 0 {
                        (r matches Ok(m) && m@ == MsgView::Fd(old(self).pending_fds()[0])) && final(self).pending_fds() == old(self).pending_fds().drop_first()
                    } else {
                        r == Err::<Msg, ChannelError>(ChannelError::MissingFdForMessage) && final(self).pending_fds() == old(self).pending_fds()
                    },
                    _ => (r matches Ok(m) && m@ == mv) && final(self).pending_fds() == old(self).pending_fds(),
                },
                Option::None => true,
            },
    {
        match decode_msg(payload) {
            Ok(m) => {
                proof {
                    lemma_msg_fd_view(m);
                }
                self.compose(m)
            },
            Err(e) => Err(e),
        }
    }

    /// Empties the pending-descriptor queue, closing each descriptor in it
    /// exactly once, oldest first; returns the descriptors that were
    /// closed.  Run at teardown so that no received descriptor outlives the
    /// channel unclaimed.
    pub fn close_buffered_fds(&mut self) -> (closed: Vec<i32>)
        requires
            old(self).wf(),
        ensures
            final(self).wf(),
            final(self).buffered() == old(self).buffered(),
            final(self).pending_fds() == Seq::<i32>::empty(),
            closed@ == old(self).pending_fds(),
    {
        let mut closed: Vec<i32> = Vec::new();
        while self.fds.len() > 0
            invariant
                self.data@ == old(self).buffered(),
                closed@ + self.fds@ == old(self).pending_fds(),
                forall|k: int| 0 <= k < self.pending_fds().len() ==> #[trigger] self.pending_fds()[k] >= 0,
            decreases self.fds@.len(),
        {
            let ghost before = self.pending_fds();
            if let Some(fd) = self.fds.pop_front() {
                close_fd(fd);
                closed.push(fd);
                proof {
                    assert(closed@ + self.fds@ =~= old(self).pending_fds());
                    assert forall|k: int|
                        0 <= k < self.pending_fds().len() implies #[trigger] self.pending_fds()[k]
                        >= 0 by {
                        assert(self.pending_fds()[k] == before[k + 1]);
                    }
                }
            }
        }
        proof {
            assert(closed@ =~= closed@ + self.fds@);
        }
        closed
    }
}

/// Relies on `nix::unistd::close`, a direct wrapper of close(2): it
/// releases this process's handle and never panics; on a descriptor that
/// is already invalid it merely reports an error, which teardown ignores.
#[verifier::external_body]
fn close_fd(fd: i32) {
    let _ = nix::unistd::close(fd);
}

impl Channel {
    /// A fresh channel: nothing in flight, nothing buffered, no pending
    /// descriptors.  The connection itself lives with the driving loop;
    /// the channel owns the protocol state.
    pub fn new() -> (r: Channel)
        ensures
            r.tx.wf(),
            r.tx.done(),
            r.rx.wf(),
            r.rx.buffered() == Seq::<u8>::empty(),
            r.rx.pending_fds() == Seq::<i32>::empty(),
    {
        Channel { tx: ChannelTx::new(), rx: ChannelRx::new() }
    }

    /// Splits the channel into its independent transmit-only and
    /// receive-only halves.  They share nothing, so one task may drive a
    /// send while another drives a receive with no lock between them; the
    /// receive half carries the pending-descriptor queue and with it the
    /// duty to close leftovers at teardown.
    pub fn split(self) -> (r: (ChannelTx, ChannelRx))
        ensures
            r.0 == self.tx,
            r.1 == self.rx,
    {
        (self.tx, self.rx)
    }
}

/// Law (frame round trip): a buffer holding exactly one well-budgeted
/// frame followed by anything else yields that frame's payload, and keeps
/// the rest — byte for byte — as leftover.
#[verifier::rlimit(50)]
pub proof fn lemma_poll_of_frame(payload: Seq<u8>, rest: Seq<u8>)
    requires
        payload.len() <= MAX_PAYLOAD_SIZE,
    ensures
        poll_outcome(frame_of(payload) + rest) == PollOutcome::Frame(payload, rest),
{
    let f = frame_of(payload);
    let data = f + rest;
    let n = payload.len() as u32;
    lemma_u32_be_round_trip(n);
    assert(f.len() == PREFIX_BYTES + payload.len());
    assert(f[0] == u32_be_bytes(n)[0]);
    assert(f[1] == u32_be_bytes(n)[1]);
    assert(f[2] == u32_be_bytes(n)[2]);
    assert(f[3] == u32_be_bytes(n)[3]);
    assert(data[0] == f[0] && data[1] == f[1] && data[2] == f[2] && data[3] == f[3]);
    assert(u32_from_be(data[0], data[1], data[2], data[3]) == n);
    assert(announced_len(data) == payload.len());
    assert(data.len() == PREFIX_BYTES + payload.len() + rest.len());
    assert(data.subrange(PREFIX_BYTES as int, PREFIX_BYTES + payload.len()) =~= payload);
    assert(data.skip(PREFIX_BYTES + payload.len()) =~= rest);
}

/// The buffer contents after a run of reads lands, one after the other.
/// Mirrors what `ingest` does to the buffer on each successful read.
pub open spec fn after_ingests(buffered: Seq<u8>, chunks: Seq<Seq<u8>>) -> Seq<u8>
    decreases chunks.len(),
{
    if chunks.len() == 0 {
        buffered
    } else {
        after_ingests(buffered + chunks[0], chunks.drop_first())
    }
}

/// All the chunks of a run of reads, laid end to end.
pub open spec fn concat_all(chunks: Seq<Seq<u8>>) -> Seq<u8>
    decreases chunks.len(),
{
    if chunks.len() == 0 {
        Seq::empty()
    } else {
        chunks[0] + concat_all(chunks.drop_first())
    }
}

/// Law (fragmentation resilience, part one): however a byte stream is cut
/// into reads, ingesting the pieces in order buffers exactly their
/// concatenation.
pub proof fn lemma_ingest_fragments(buffered: Seq<u8>, chunks: Seq<Seq<u8>>)
    ensures
        after_ingests(buffered, chunks) == buffered + concat_all(chunks),
    decreases chunks.len(),
{
    if chunks.len() == 0 {
        assert(buffered + concat_all(chunks) =~= buffered);
    } else {
        lemma_ingest_fragments(buffered + chunks[0], chunks.drop_first());
        assert((buffered + chunks[0]) + concat_all(chunks.drop_first()) =~= buffered + (chunks[0]
            + concat_all(chunks.drop_first())));
    }
}

/// Law (fragmentation resilience): a frame delivered across any number of
/// reads — down to one byte each — leaves the receiver with the very bytes
/// of the frame, and the poll of those bytes yields the same payload a
/// single-read delivery yields, with nothing left over.
pub proof fn lemma_fragmented_frame(payload: Seq<u8>, chunks: Seq<Seq<u8>>)
    requires
        payload.len() <= MAX_PAYLOAD_SIZE,
        concat_all(chunks) == frame_of(payload),
    ensures
        poll_outcome(after_ingests(Seq::empty(), chunks)) == PollOutcome::Frame(
            payload,
            Seq::empty(),
        ),
{
    lemma_ingest_fragments(Seq::empty(), chunks);
    assert(after_ingests(Seq::empty(), chunks) =~= frame_of(payload));
    lemma_poll_of_frame(payload, Seq::empty());
    assert(frame_of(payload) + Seq::<u8>::empty() =~= frame_of(payload));
}

/// Law (no partial delivery): a poll that yields a payload yields a whole
/// frame's worth, never part of one — the buffered bytes were exactly that
/// payload's frame followed by the leftover the poll keeps.  With the
/// zero-byte-read rule of `ingest`, a peer that disappears mid-frame can
/// only produce `ConnectionClosedPrematurely`, never a truncated message.
#[verifier::rlimit(50)]
pub proof fn lemma_poll_yields_whole_frames(data: Seq<u8>)
    requires
        poll_outcome(data) matches PollOutcome::Frame(_, _),
    ensures
        poll_outcome(data) matches PollOutcome::Frame(payload, rest) ==> data == frame_of(payload)
            + rest && payload.len() <= MAX_PAYLOAD_SIZE,
{
    let alen = announced_len(data);
    let payload = data.subrange(PREFIX_BYTES as int, PREFIX_BYTES + alen);
    let rest = data.skip(PREFIX_BYTES + alen);
    crate::wire::lemma_u32_be_bytes_inverse(data[0], data[1], data[2], data[3]);
    assert(payload.len() == alen);
    assert(payload.len() as u32 == u32_from_be(data[0], data[1], data[2], data[3]));
    assert(u32_be_bytes(payload.len() as u32) =~= seq![data[0], data[1], data[2], data[3]]);
    assert(frame_of(payload) + rest =~= data);
}

/// Law (pipelining): two frames that arrive packed together decode as two
/// ordered payloads — the first poll cuts the first frame and keeps the
/// second, byte for byte, as leftover; the next poll yields the second.
pub proof fn lemma_pipelining(p1: Seq<u8>, p2: Seq<u8>)
    requires
        p1.len() <= MAX_PAYLOAD_SIZE,
        p2.len() <= MAX_PAYLOAD_SIZE,
    ensures
        poll_outcome(frame_of(p1) + frame_of(p2)) == PollOutcome::Frame(p1, frame_of(p2)),
        poll_outcome(frame_of(p2)) == PollOutcome::Frame(p2, Seq::<u8>::empty()),
{
    lemma_poll_of_frame(p1, frame_of(p2));
    lemma_poll_of_frame(p2, Seq::empty());
    assert(frame_of(p2) + Seq::<u8>::empty() =~= frame_of(p2));
}

/// Law (round trip): a message whose encoding fits the transmit budget,
/// framed, carried over the stream and decoded on the far side, comes back
/// equal to the original: the same variant and the same in-band fields.
/// For the carrying variant the receiver holds the wire form `w` and claims
/// the oldest pending descriptor, so the recovered message carries the
/// front of the queue — descriptors travel by duplication and compare by
/// what they reach, never by number.
pub proof fn lemma_message_round_trip(m: Msg, w: Msg, q: Seq<i32>, rest: Seq<u8>)
    requires
        msg_encoding(m@).len() <= MAX_PAYLOAD_SIZE,
        w@ == wire_form(m@),
        m@ matches MsgView::Fd(_) ==> q.len() > 0,
    ensures
        poll_outcome(frame_of(msg_encoding(m@)) + rest) == PollOutcome::Frame(
            msg_encoding(m@),
            rest,
        ),
        decode_msg_spec(msg_encoding(m@)) == Option::Some(wire_form(m@)),
        m@ matches MsgView::Fd(_) ==> w.fd_spec() is Some && (w.with_fd_spec(q[0]))@
            == MsgView::Fd(q[0]),
        !(m@ matches MsgView::Fd(_)) ==> w@ == m@ && w.fd_spec() is None,
{
    lemma_poll_of_frame(msg_encoding(m@), rest);
    match m {
        Msg::TextMessage(t) => {
            assert(msg_encoding(m@).len() == 12 + t@.len());
        },
        Msg::IntegerMessage(_) => {},
        Msg::FileDescriptor(_) => {},
    }
    lemma_msg_codec_round_trip(m@);
    match w {
        Msg::TextMessage(_) => {},
        Msg::IntegerMessage(_) => {},
        Msg::FileDescriptor(_) => {},
    }
}

} // verus!
