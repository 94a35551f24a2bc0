use rsp_pipeline::codec::{encode_input, ExecutionInput};
use rsp_pipeline::digest::commit_for_header;
use rsp_pipeline::errors::{DecodeError, ExecutorError, PipelineError};
use rsp_pipeline::guest::{run_guest, OutputChannel};

const KECCAK_EMPTY: [u8; 32] = [
    0xc5, 0xd2, 0x46, 0x01, 0x86, 0xf7, 0x23, 0x3c, 0x92, 0x7e, 0x7d, 0xb2, 0xdc, 0xc7, 0x03,
    0xc0, 0xe5, 0x00, 0xb6, 0x53, 0xca, 0x82, 0x27, 0x3b, 0x7b, 0xfa, 0xd8, 0x04, 0x5d, 0x85,
    0xa4, 0x70,
];

#[test]
fn keccak_empty_known_vector() {
    let out = commit_for_header(b"");
    assert_eq!(out.as_bytes().as_slice(), &KECCAK_EMPTY);
}

#[test]
fn commit_differs_from_header() {
    let header = b"a header longer than thirty-two bytes, certainly";
    let out = commit_for_header(header);
    assert_eq!(out.as_bytes().len(), 32);
    assert_ne!(out.as_bytes().as_slice(), &header[..32]);
}

#[test]
fn commit_matches_external_digest() {
    let header = b"some block header bytes";
    let out = commit_for_header(header);
    let expected = alloy_primitives::keccak256(header);
    assert_eq!(out.as_bytes().as_slice(), expected.as_slice());
}

#[test]
fn guest_commits_digest_exactly_once() {
    let input = ExecutionInput { body: b"body".to_vec(), state_witness: b"wit".to_vec() };
    let frame = encode_input(&input);
    let header = b"computed header".to_vec();
    let mut channel = OutputChannel::new();
    let r = run_guest(&frame, Ok(header.clone()), &mut channel);
    assert!(r.is_ok());
    let committed = channel.into_committed().expect("a successful run commits");
    assert_eq!(committed.as_bytes(), commit_for_header(&header).as_bytes());
}

#[test]
fn guest_aborts_on_malformed_frame() {
    let mut channel = OutputChannel::new();
    let r = run_guest(&[1, 2, 3], Ok(b"header".to_vec()), &mut channel);
    assert_eq!(r, Err(PipelineError::Decode(DecodeError::Truncated)));
    assert!(channel.into_committed().is_none());
}

#[test]
fn guest_aborts_on_executor_rejection() {
    let input = ExecutionInput { body: b"body".to_vec(), state_witness: b"wit".to_vec() };
    let frame = encode_input(&input);
    let mut channel = OutputChannel::new();
    let r = run_guest(&frame, Err(ExecutorError::Rejected), &mut channel);
    assert_eq!(r, Err(PipelineError::Executor(ExecutorError::Rejected)));
    assert!(channel.into_committed().is_none());
}
