use privsep::channel::{Channel, ChannelRx, ChannelTx, RxPoll, MAX_PAYLOAD_SIZE, RX_BUFFER_SIZE};
use privsep::error::{ChannelError, IoKind};
use privsep::msg::Msg;

#[test]
fn frame_bytes_exact() {
    let mut tx = ChannelTx::new();
    tx.begin_send(&[0xAB, 0xCD, 0xEF], None).unwrap();
    assert_eq!(tx.next_chunk(), vec![0, 0, 0, 3, 0xAB, 0xCD, 0xEF]);
}

#[test]
fn oversize_payload_rejected() {
    // One byte over the budget: refused with the exact lengths, and
    // nothing staged for the wire.
    let mut tx = ChannelTx::new();
    let payload = vec![0u8; MAX_PAYLOAD_SIZE + 1];
    assert_eq!(
        tx.begin_send(&payload, None),
        Err(ChannelError::MessageTooLargeForTxBuffer(MAX_PAYLOAD_SIZE + 1, MAX_PAYLOAD_SIZE))
    );
    assert!(tx.is_done());
}

#[test]
fn oversize_message_rejected() {
    // A text message whose encoding lands one byte over the budget: the
    // twelve bytes of tag and count leave room for 4080 text bytes.
    let mut tx = ChannelTx::new();
    let m = Msg::TextMessage(vec![0u8; MAX_PAYLOAD_SIZE - 12 + 1]);
    assert_eq!(
        tx.begin_send_msg(&m),
        Err(ChannelError::MessageTooLargeForTxBuffer(MAX_PAYLOAD_SIZE + 1, MAX_PAYLOAD_SIZE))
    );
    assert!(tx.is_done());
    let fits = Msg::TextMessage(vec![0u8; MAX_PAYLOAD_SIZE - 12]);
    assert_eq!(tx.begin_send_msg(&fits), Ok(()));
}

#[test]
fn boundary_payload_accepted() {
    let mut tx = ChannelTx::new();
    let payload = vec![7u8; MAX_PAYLOAD_SIZE];
    assert_eq!(tx.begin_send(&payload, None), Ok(()));
    let chunk = tx.next_chunk();
    assert_eq!(chunk.len(), MAX_PAYLOAD_SIZE + 4);
    assert_eq!(&chunk[..4], &[0x00, 0x00, 0x0F, 0xFC]);
}

#[test]
fn descriptor_rides_first_chunk_only() {
    let mut tx = ChannelTx::new();
    tx.begin_send(&[1, 2, 3, 4, 5], Some(9)).unwrap();
    assert_eq!(tx.fd_to_attach(), Some(9));
    assert_eq!(tx.next_chunk().len(), 9);
    tx.advance(4).unwrap();
    assert_eq!(tx.fd_to_attach(), None);
    assert_eq!(tx.next_chunk(), vec![1, 2, 3, 4, 5]);
    tx.advance(5).unwrap();
    assert!(tx.is_done());
}

#[test]
fn zero_byte_write_is_fatal() {
    let mut tx = ChannelTx::new();
    tx.begin_send(&[1], None).unwrap();
    assert_eq!(tx.advance(0), Err(ChannelError::Io(IoKind::WriteZero)));
    // The frame is still in flight; ordinary progress is still possible.
    assert!(!tx.is_done());
    assert_eq!(tx.advance(5), Ok(()));
    assert!(tx.is_done());
}

fn frame(payload: &[u8]) -> Vec<u8> {
    let mut tx = ChannelTx::new();
    tx.begin_send(payload, None).unwrap();
    tx.next_chunk()
}

#[test]
fn single_read_decodes() {
    let mut rx = ChannelRx::new();
    rx.ingest(&frame(&[10, 20, 30]), &[]).unwrap();
    assert_eq!(rx.poll_frame(), Ok(RxPoll::Frame(vec![10, 20, 30])));
    assert_eq!(rx.poll_frame(), Ok(RxPoll::NeedMore));
}

#[test]
fn one_byte_reads_decode_identically() {
    // The same frame, delivered one byte per read, yields the same payload.
    let f = frame(&[10, 20, 30]);
    let mut rx = ChannelRx::new();
    for (i, b) in f.iter().enumerate() {
        if i + 1 < f.len() {
            rx.ingest(&[*b], &[]).unwrap();
            assert_eq!(rx.poll_frame(), Ok(RxPoll::NeedMore));
        } else {
            rx.ingest(&[*b], &[]).unwrap();
        }
    }
    assert_eq!(rx.poll_frame(), Ok(RxPoll::Frame(vec![10, 20, 30])));
}

#[test]
fn two_frames_in_one_read_stay_ordered() {
    // Both frames land in a single read; the second survives through the
    // leftover buffer and comes out second.
    let mut data = frame(&[1, 2, 3]);
    data.extend_from_slice(&frame(&[4, 5]));
    let mut rx = ChannelRx::new();
    rx.ingest(&data, &[]).unwrap();
    assert_eq!(rx.poll_frame(), Ok(RxPoll::Frame(vec![1, 2, 3])));
    assert_eq!(rx.poll_frame(), Ok(RxPoll::Frame(vec![4, 5])));
    assert_eq!(rx.poll_frame(), Ok(RxPoll::NeedMore));
}

#[test]
fn eof_mid_frame_is_fatal() {
    let mut rx = ChannelRx::new();
    let f = frame(&[1, 2, 3]);
    rx.ingest(&f[..3], &[]).unwrap();
    assert_eq!(rx.poll_frame(), Ok(RxPoll::NeedMore));
    // A zero-byte read is the peer shutting down mid-frame.
    assert_eq!(rx.ingest(&[], &[]), Err(ChannelError::ConnectionClosedPrematurely));
}

#[test]
fn announced_frame_over_budget_is_fatal() {
    // The error names the whole frame's length — prefix plus the payload
    // the prefix announces — against the buffer capacity.
    let mut rx = ChannelRx::new();
    rx.ingest(&[0xFF, 0xFF, 0xFF, 0xFF], &[]).unwrap();
    assert_eq!(
        rx.poll_frame(),
        Err(ChannelError::MessageTooLargeForRxBuffer(0xFFFF_FFFF + 4, RX_BUFFER_SIZE))
    );
    // The channel state is untouched; polling again reports the same.
    assert_eq!(
        rx.poll_frame(),
        Err(ChannelError::MessageTooLargeForRxBuffer(0xFFFF_FFFF + 4, RX_BUFFER_SIZE))
    );
}

#[test]
fn smallest_over_budget_frame_is_fatal() {
    // One byte over: a payload of 4093 makes a frame of 4097 against the
    // capacity of 4096.
    let mut rx = ChannelRx::new();
    rx.ingest(&[0x00, 0x00, 0x0F, 0xFD], &[]).unwrap();
    assert_eq!(
        rx.poll_frame(),
        Err(ChannelError::MessageTooLargeForRxBuffer(RX_BUFFER_SIZE + 1, RX_BUFFER_SIZE))
    );
}

#[test]
fn free_space_tracks_buffered_bytes() {
    let mut rx = ChannelRx::new();
    assert_eq!(rx.free_space(), RX_BUFFER_SIZE);
    rx.ingest(&[0, 0], &[]).unwrap();
    assert_eq!(rx.free_space(), RX_BUFFER_SIZE - 2);
}

#[test]
fn invalid_descriptors_are_discarded() {
    let mut rx = ChannelRx::new();
    rx.ingest(&[0], &[5, -3, 6]).unwrap();
    assert_eq!(rx.pending_fd_count(), 2);
    assert_eq!(rx.compose(Msg::FileDescriptor(0)), Ok(Msg::FileDescriptor(5)));
    assert_eq!(rx.compose(Msg::FileDescriptor(0)), Ok(Msg::FileDescriptor(6)));
    assert_eq!(rx.pending_fd_count(), 0);
}

#[test]
fn only_would_block_waits_and_only_interrupted_retries_at_once() {
    assert!(ChannelError::Io(IoKind::WouldBlock).retry_after_ready());
    assert!(!ChannelError::Io(IoKind::WouldBlock).retry_at_once());
    assert!(ChannelError::Io(IoKind::Interrupted).retry_at_once());
    assert!(!ChannelError::Io(IoKind::Interrupted).retry_after_ready());
    for fatal in [
        ChannelError::Io(IoKind::WriteZero),
        ChannelError::Io(IoKind::Other),
        ChannelError::Decode,
        ChannelError::ConnectionClosedPrematurely,
        ChannelError::MissingFdForMessage,
        ChannelError::MessageTooLargeForTxBuffer(5000, MAX_PAYLOAD_SIZE),
        ChannelError::MessageTooLargeForRxBuffer(5000, RX_BUFFER_SIZE),
    ] {
        assert!(!fatal.retry_after_ready());
        assert!(!fatal.retry_at_once());
    }
}

#[test]
fn split_halves_work_independently() {
    let ch = Channel::new();
    let (mut tx, mut rx) = ch.split();
    tx.begin_send(&[42], None).unwrap();
    let chunk = tx.next_chunk();
    tx.advance(chunk.len()).unwrap();
    rx.ingest(&chunk, &[]).unwrap();
    assert_eq!(rx.poll_frame(), Ok(RxPoll::Frame(vec![42])));
}
