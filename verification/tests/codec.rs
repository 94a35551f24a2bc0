use rsp_pipeline::codec::{decode_input, encode_input, ExecutionInput};
use rsp_pipeline::errors::DecodeError;

fn input(body: &[u8], witness: &[u8]) -> ExecutionInput {
    ExecutionInput { body: body.to_vec(), state_witness: witness.to_vec() }
}

#[test]
fn round_trip_preserves_input() {
    let x = input(b"block body bytes", b"state witness bytes");
    let frame = encode_input(&x);
    let y = decode_input(&frame).expect("frame must decode");
    assert_eq!(y.body, x.body);
    assert_eq!(y.state_witness, x.state_witness);
}

#[test]
fn round_trip_empty_parts() {
    let x = input(b"", b"");
    let frame = encode_input(&x);
    assert_eq!(frame.len(), 16);
    let y = decode_input(&frame).expect("frame must decode");
    assert_eq!(y.body, x.body);
    assert_eq!(y.state_witness, x.state_witness);
}

#[test]
fn encode_layout_exact() {
    let x = input(&[1, 2, 3], &[9]);
    let frame = encode_input(&x);
    assert_eq!(
        frame,
        vec![3, 0, 0, 0, 0, 0, 0, 0, 1, 2, 3, 1, 0, 0, 0, 0, 0, 0, 0, 9]
    );
}

#[test]
fn decode_rejects_short_frame() {
    assert_eq!(decode_input(&[]).err(), Some(DecodeError::Truncated));
    assert_eq!(decode_input(&[5, 0, 0]).err(), Some(DecodeError::Truncated));
}

#[test]
fn decode_rejects_truncated_body() {
    let mut frame = encode_input(&input(b"abcdef", b"w"));
    frame.truncate(10);
    assert_eq!(decode_input(&frame).err(), Some(DecodeError::Truncated));
}

#[test]
fn decode_rejects_truncated_witness() {
    let mut frame = encode_input(&input(b"abc", b"witness"));
    frame.pop();
    assert_eq!(decode_input(&frame).err(), Some(DecodeError::Truncated));
}

#[test]
fn decode_rejects_trailing_bytes() {
    let mut frame = encode_input(&input(b"abc", b"witness"));
    frame.push(0);
    assert_eq!(decode_input(&frame).err(), Some(DecodeError::TrailingBytes));
}

#[test]
fn decode_rejects_corrupted_length_field() {
    let mut frame = encode_input(&input(b"abc", b"w"));
    // Inflate the body length field far past the frame's end.
    frame[7] = 0xff;
    assert_eq!(decode_input(&frame).err(), Some(DecodeError::Truncated));
}
