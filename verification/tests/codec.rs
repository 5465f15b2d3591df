use privsep::error::ChannelError;
use privsep::msg::{decode_msg, encode_msg, Msg};

#[test]
fn encode_integer_exact() {
    let b = encode_msg(&Msg::IntegerMessage(24));
    assert_eq!(b, vec![1, 0, 0, 0, 24, 0, 0, 0, 0, 0, 0, 0]);
}

#[test]
fn encode_text_exact() {
    let b = encode_msg(&Msg::TextMessage(vec![0x68, 0x69]));
    assert_eq!(b, vec![0, 0, 0, 0, 2, 0, 0, 0, 0, 0, 0, 0, 0x68, 0x69]);
}

#[test]
fn encode_fd_is_bare_tag() {
    assert_eq!(encode_msg(&Msg::FileDescriptor(7)), vec![2, 0, 0, 0]);
}

#[test]
fn round_trip_text() {
    let m = Msg::TextMessage(b"hello parser from engine".to_vec());
    let b = encode_msg(&m);
    assert_eq!(decode_msg(&b), Ok(m));
}

#[test]
fn round_trip_empty_text() {
    let m = Msg::TextMessage(Vec::new());
    let b = encode_msg(&m);
    assert_eq!(decode_msg(&b), Ok(m));
}

#[test]
fn round_trip_negative_integer() {
    let m = Msg::IntegerMessage(-123456789);
    let b = encode_msg(&m);
    assert_eq!(decode_msg(&b), Ok(m));
}

#[test]
fn round_trip_extreme_integers() {
    for n in [i64::MIN, -1, 0, 1, i64::MAX] {
        let b = encode_msg(&Msg::IntegerMessage(n));
        assert_eq!(decode_msg(&b), Ok(Msg::IntegerMessage(n)));
    }
}

#[test]
fn fd_decodes_to_placeholder() {
    let b = encode_msg(&Msg::FileDescriptor(9));
    assert_eq!(decode_msg(&b), Ok(Msg::FileDescriptor(0)));
}

#[test]
fn decode_empty_fails() {
    assert_eq!(decode_msg(&[]), Err(ChannelError::Decode));
}

#[test]
fn decode_short_prefix_fails() {
    assert_eq!(decode_msg(&[1, 0]), Err(ChannelError::Decode));
}

#[test]
fn decode_unknown_tag_fails() {
    assert_eq!(decode_msg(&[9, 0, 0, 0]), Err(ChannelError::Decode));
}

#[test]
fn decode_text_count_mismatch_fails() {
    // The count says three bytes but only two follow.
    let b = vec![0, 0, 0, 0, 3, 0, 0, 0, 0, 0, 0, 0, 0x68, 0x69];
    assert_eq!(decode_msg(&b), Err(ChannelError::Decode));
}

#[test]
fn decode_trailing_bytes_fail() {
    let b = vec![2, 0, 0, 0, 1];
    assert_eq!(decode_msg(&b), Err(ChannelError::Decode));
    let b = vec![1, 0, 0, 0, 24, 0, 0, 0, 0, 0, 0, 0, 0];
    assert_eq!(decode_msg(&b), Err(ChannelError::Decode));
}
