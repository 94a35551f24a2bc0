//! The binary frame codec between host and guest.
//!
//! An [`ExecutionInput`] travels from the host to the guest as a single
//! binary frame: the block body and the state witness, each preceded by its
//! length as eight little-endian bytes. The frame has no independent version
//! tag; [`parse_frame`] is the single definition of the format, and both the
//! executable encoder and decoder are proved against it.

use vstd::prelude::*;
use vstd::assert_seqs_equal;

use crate::errors::DecodeError;

verus! {

/// Everything the external block executor needs to re-execute a block: the
/// block body and the supporting state witness, both opaque byte strings.
#[derive(Clone, Debug)]
pub struct ExecutionInput {
    pub body: Vec<u8>,
    pub state_witness: Vec<u8>,
}

/// The mathematical model of an [`ExecutionInput`].
pub struct InputModel {
    pub body: Seq<u8>,
    pub state_witness: Seq<u8>,
}

impl View for ExecutionInput {
    type V = InputModel;

    open spec fn view(&self) -> InputModel {
        InputModel { body: self.body@, state_witness: self.state_witness@ }
    }
}

/// An input model whose parts are small enough to be length-framed.
pub open spec fn input_wf(m: InputModel) -> bool {
    &&& m.body.len() <= u64::MAX
    &&& m.state_witness.len() <= u64::MAX
}

/// The eight little-endian bytes of `n`.
pub open spec fn le_bytes_8(n: u64) -> Seq<u8> {
    seq![
        n as u8,
        (n >> 8) as u8,
        (n >> 16) as u8,
        (n >> 24) as u8,
        (n >> 32) as u8,
        (n >> 40) as u8,
        (n >> 48) as u8,
        (n >> 56) as u8,
    ]
}

/// The `u64` whose little-endian bytes are `b0 .. b7`.
pub open spec fn u64_of_le(b0: u8, b1: u8, b2: u8, b3: u8, b4: u8, b5: u8, b6: u8, b7: u8) -> u64 {
    (b0 as u64)
        | ((b1 as u64) << 8)
        | ((b2 as u64) << 16)
        | ((b3 as u64) << 24)
        | ((b4 as u64) << 32)
        | ((b5 as u64) << 40)
        | ((b6 as u64) << 48)
        | ((b7 as u64) << 56)
}

/// The `u64` whose little-endian bytes are the first eight elements of `b`.
pub open spec fn u64_of_le_seq(b: Seq<u8>) -> u64
    recommends
        b.len() >= 8,
{
    u64_of_le(b[0], b[1], b[2], b[3], b[4], b[5], b[6], b[7])
}

/// Reassembling the eight little-endian bytes of `n` yields `n` again.
pub proof fn lemma_le_reassemble(n: u64)
    by (bit_vector)
    ensures
        u64_of_le(
            n as u8,
            (n >> 8) as u8,
            (n >> 16) as u8,
            (n >> 24) as u8,
            (n >> 32) as u8,
            (n >> 40) as u8,
            (n >> 48) as u8,
            (n >> 56) as u8,
        ) == n,
{
}

/// Reassembling the eight little-endian bytes of `n` yields `n`, phrased over
/// the byte sequence.
pub proof fn lemma_le_bytes_8_reassemble(n: u64)
    ensures
        u64_of_le_seq(le_bytes_8(n)) == n,
{
    lemma_le_reassemble(n);
}

/// Projecting the little-endian bytes back out of a reassembled `u64`
/// yields the bytes that went in.
pub proof fn lemma_le_project(b0: u8, b1: u8, b2: u8, b3: u8, b4: u8, b5: u8, b6: u8, b7: u8)
    by (bit_vector)
    ensures
        u64_of_le(b0, b1, b2, b3, b4, b5, b6, b7) as u8 == b0,
        (u64_of_le(b0, b1, b2, b3, b4, b5, b6, b7) >> 8) as u8 == b1,
        (u64_of_le(b0, b1, b2, b3, b4, b5, b6, b7) >> 16) as u8 == b2,
        (u64_of_le(b0, b1, b2, b3, b4, b5, b6, b7) >> 24) as u8 == b3,
        (u64_of_le(b0, b1, b2, b3, b4, b5, b6, b7) >> 32) as u8 == b4,
        (u64_of_le(b0, b1, b2, b3, b4, b5, b6, b7) >> 40) as u8 == b5,
        (u64_of_le(b0, b1, b2, b3, b4, b5, b6, b7) >> 48) as u8 == b6,
        (u64_of_le(b0, b1, b2, b3, b4, b5, b6, b7) >> 56) as u8 == b7,
{
}

/// Taking apart an eight-byte string and re-serializing the `u64` it holds
/// yields the same eight bytes.
pub proof fn lemma_le_bytes_8_of_seq(b: Seq<u8>)
    requires
        b.len() == 8,
    ensures
        le_bytes_8(u64_of_le_seq(b)) == b,
{
    lemma_le_project(b[0], b[1], b[2], b[3], b[4], b[5], b[6], b[7]);
    assert_seqs_equal!(le_bytes_8(u64_of_le_seq(b)) == b);
}

/// The frame that carries `m`: each part preceded by its length as eight
/// little-endian bytes.
pub open spec fn frame_of(m: InputModel) -> Seq<u8> {
    le_bytes_8(m.body.len() as u64) + m.body + le_bytes_8(m.state_witness.len() as u64)
        + m.state_witness
}

/// The single definition of the frame format: which input model a byte string
/// denotes, or with which error it is rejected.
pub open spec fn parse_frame(bytes: Seq<u8>) -> Result<InputModel, DecodeError> {
    if bytes.len() < 8 {
        Err(DecodeError::Truncated)
    } else {
        let body_len = u64_of_le_seq(bytes) as int;
        if bytes.len() < 16 + body_len {
            Err(DecodeError::Truncated)
        } else {
            let wit_len = u64_of_le_seq(bytes.subrange(8 + body_len, 16 + body_len)) as int;
            if bytes.len() < 16 + body_len + wit_len {
                Err(DecodeError::Truncated)
            } else if bytes.len() > 16 + body_len + wit_len {
                Err(DecodeError::TrailingBytes)
            } else {
                Ok(
                    InputModel {
                        body: bytes.subrange(8, 8 + body_len),
                        state_witness: bytes.subrange(16 + body_len, 16 + body_len + wit_len),
                    },
                )
            }
        }
    }
}

/// Round trip: a frame built from a well-formed input model parses back to
/// exactly that model.
pub proof fn lemma_parse_frame_of(m: InputModel)
    requires
        input_wf(m),
    ensures
        parse_frame(frame_of(m)) == Ok::<InputModel, DecodeError>(m),
{
    let f = frame_of(m);
    let blen = m.body.len() as int;
    let wlen = m.state_witness.len() as int;
    assert(f.len() == 16 + blen + wlen);
    assert forall|k: int| 0 <= k < 8 implies f[k] == le_bytes_8(m.body.len() as u64)[k] by {}
    lemma_le_bytes_8_reassemble(m.body.len() as u64);
    assert(u64_of_le_seq(f) == u64_of_le_seq(le_bytes_8(m.body.len() as u64)));
    assert(u64_of_le_seq(f) as int == blen);
    let wfield = f.subrange(8 + blen, 16 + blen);
    assert_seqs_equal!(wfield == le_bytes_8(m.state_witness.len() as u64));
    lemma_le_bytes_8_reassemble(m.state_witness.len() as u64);
    assert(u64_of_le_seq(wfield) as int == wlen);
    assert_seqs_equal!(f.subrange(8, 8 + blen) == m.body);
    assert_seqs_equal!(f.subrange(16 + blen, 16 + blen + wlen) == m.state_witness);
}

/// Completeness of the format: every byte string the parser accepts is the
/// frame of the well-formed model it returns, so decoding followed by
/// encoding reproduces the bytes unchanged.
pub proof fn lemma_parse_complete(bytes: Seq<u8>)
    requires
        parse_frame(bytes) is Ok,
    ensures
        input_wf(parse_frame(bytes)->Ok_0),
        frame_of(parse_frame(bytes)->Ok_0) == bytes,
{
    let m = parse_frame(bytes)->Ok_0;
    let blen_u = u64_of_le_seq(bytes);
    let blen = blen_u as int;
    let wfield = bytes.subrange(8 + blen, 16 + blen);
    let wlen_u = u64_of_le_seq(wfield);
    let wlen = wlen_u as int;
    assert(bytes.len() == 16 + blen + wlen);
    assert(m.body == bytes.subrange(8, 8 + blen));
    assert(m.state_witness == bytes.subrange(16 + blen, 16 + blen + wlen));
    assert(u64_of_le_seq(bytes.take(8)) == blen_u);
    lemma_le_bytes_8_of_seq(bytes.take(8));
    assert(le_bytes_8(m.body.len() as u64) == bytes.take(8));
    lemma_le_bytes_8_of_seq(wfield);
    assert(le_bytes_8(m.state_witness.len() as u64) == wfield);
    assert_seqs_equal!(frame_of(m) == bytes, i => {
        if i < 8 {
            assert(frame_of(m)[i] == bytes.take(8)[i]);
        } else if i < 8 + blen {
            assert(frame_of(m)[i] == m.body[i - 8]);
        } else if i < 16 + blen {
            assert(frame_of(m)[i] == wfield[i - 8 - blen]);
        } else {
            assert(frame_of(m)[i] == m.state_witness[i - 16 - blen]);
        }
    });
}

/// The frame determines the input model: two well-formed models with the same
/// frame are the same model.
pub proof fn lemma_frame_injective(m1: InputModel, m2: InputModel)
    requires
        input_wf(m1),
        input_wf(m2),
        frame_of(m1) == frame_of(m2),
    ensures
        m1 == m2,
{
    lemma_parse_frame_of(m1);
    lemma_parse_frame_of(m2);
}

/// Appends the eight little-endian bytes of `n`.
fn push_u64_le(out: &mut Vec<u8>, n: u64)
    ensures
        final(out)@ == old(out)@ + le_bytes_8(n),
{
    out.push(#[verifier::truncate] (n as u8));
    out.push(#[verifier::truncate] ((n >> 8) as u8));
    out.push(#[verifier::truncate] ((n >> 16) as u8));
    out.push(#[verifier::truncate] ((n >> 24) as u8));
    out.push(#[verifier::truncate] ((n >> 32) as u8));
    out.push(#[verifier::truncate] ((n >> 40) as u8));
    out.push(#[verifier::truncate] ((n >> 48) as u8));
    out.push(#[verifier::truncate] ((n >> 56) as u8));
    proof {
        assert_seqs_equal!(out@ == old(out)@ + le_bytes_8(n));
    }
}

/// Appends all of `bytes`.
fn push_bytes(out: &mut Vec<u8>, bytes: &Vec<u8>)
    ensures
        final(out)@ == old(out)@ + bytes@,
{
    let n = bytes.len();
    for i in 0..n
        invariant
            n == bytes@.len(),
            out@ == old(out)@ + bytes@.take(i as int),
    {
        out.push(bytes[i]);
        proof {
            assert_seqs_equal!(out@ == old(out)@ + bytes@.take(i + 1));
        }
    }
    proof {
        assert_seqs_equal!(bytes@.take(n as int) == bytes@);
    }
}

/// Encodes an input into the frame the guest expects.
pub fn encode_input(input: &ExecutionInput) -> (frame: Vec<u8>)
    ensures
        frame@ == frame_of(input@),
{
    let mut out: Vec<u8> = Vec::new();
    push_u64_le(&mut out, input.body.len() as u64);
    push_bytes(&mut out, &input.body);
    push_u64_le(&mut out, input.state_witness.len() as u64);
    push_bytes(&mut out, &input.state_witness);
    proof {
        assert_seqs_equal!(out@ == frame_of(input@));
    }
    out
}

/// Reads the `u64` stored in little-endian order at `off`.
fn read_u64_le(s: &[u8], off: usize) -> (n: u64)
    requires
        off + 8 <= s@.len(),
    ensures
        n == u64_of_le(
            s@[off as int],
            s@[off + 1],
            s@[off + 2],
            s@[off + 3],
            s@[off + 4],
            s@[off + 5],
            s@[off + 6],
            s@[off + 7],
        ),
{
    (s[off] as u64)
        | ((s[off + 1] as u64) << 8)
        | ((s[off + 2] as u64) << 16)
        | ((s[off + 3] as u64) << 24)
        | ((s[off + 4] as u64) << 32)
        | ((s[off + 5] as u64) << 40)
        | ((s[off + 6] as u64) << 48)
        | ((s[off + 7] as u64) << 56)
}

/// Copies `len` bytes of `src` starting at `start` into a fresh vector.
fn copy_range(src: &[u8], start: usize, len: usize) -> (out: Vec<u8>)
    requires
        start + len <= src@.len(),
    ensures
        out@ == src@.subrange(start as int, start as int + len as int),
{
    let mut out: Vec<u8> = Vec::new();
    let src_len = src.len();
    for i in 0..len
        invariant
            start + len <= src_len,
            src_len == src@.len(),
            out@ == src@.subrange(start as int, start as int + i as int),
    {
        out.push(src[start + i]);
        proof {
            assert_seqs_equal!(out@ == src@.subrange(start as int, start as int + i + 1));
        }
    }
    out
}

/// Copies a byte string into a fresh vector.
pub fn copy_bytes(src: &[u8]) -> (out: Vec<u8>)
    ensures
        out@ == src@,
{
    let out = copy_range(src, 0, src.len());
    proof {
        assert_seqs_equal!(out@ == src@);
    }
    out
}

/// Decodes a frame, returning exactly what [`parse_frame`] says of it.
pub fn decode_input(frame: &[u8]) -> (r: Result<ExecutionInput, DecodeError>)
    ensures
        match parse_frame(frame@) {
            Ok(m) => r matches Ok(x) && x@ == m,
            Err(e) => r matches Err(e2) && e2 == e,
        },
{
    if frame.len() < 8 {
        return Err(DecodeError::Truncated);
    }
    let body_len_u = read_u64_le(frame, 0);
    let rem: usize = frame.len() - 8;
    if rem < 8 || body_len_u > (rem - 8) as u64 {
        return Err(DecodeError::Truncated);
    }
    let body_len: usize = body_len_u as usize;
    let body = copy_range(frame, 8, body_len);
    let wit_off: usize = 8 + body_len;
    let wit_len_u = read_u64_le(frame, wit_off);
    proof {
        assert(u64_of_le_seq(frame@.subrange(8 + body_len as int, 16 + body_len as int))
            == wit_len_u);
    }
    let rem2: usize = rem - 8 - body_len;
    if wit_len_u > rem2 as u64 {
        return Err(DecodeError::Truncated);
    }
    if (rem2 as u64) > wit_len_u {
        return Err(DecodeError::TrailingBytes);
    }
    let wit_len: usize = wit_len_u as usize;
    let state_witness = copy_range(frame, wit_off + 8, wit_len);
    Ok(ExecutionInput { body, state_witness })
}

} // verus!
