//! The guest's content digest.
//!
//! The committed public output of a run is the Keccak-256 digest of the
//! header the block executor produced. The digest itself is computed by an
//! outside crate; the library names its result and proves everything else
//! against that name.

use vstd::prelude::*;

verus! {

/// The Keccak-256 digest of `bytes`: a function of the input bytes alone.
pub uninterp spec fn keccak_of(bytes: Seq<u8>) -> Seq<u8>;

/// Relies on `alloy_primitives::keccak256`: the Keccak-256 digest of the
/// input bytes, 32 bytes long, depending on the input bytes alone.
#[verifier::external_body]
pub(crate) fn keccak256_bytes(data: &[u8]) -> (r: Vec<u8>)
    ensures
        r@ == keccak_of(data@),
        r@.len() == 32,
{
    alloy_primitives::keccak256(data).0.to_vec()
}

/// A fixed-size (32-byte) value the guest publishes exactly once per run:
/// the digest of the computed header.
#[derive(Clone, Debug)]
pub struct CommittedOutput {
    bytes: Vec<u8>,
}

impl View for CommittedOutput {
    type V = Seq<u8>;

    closed spec fn view(&self) -> Seq<u8> {
        self.bytes@
    }
}

impl CommittedOutput {
    /// A committed output always holds exactly 32 bytes.
    pub open spec fn wf(&self) -> bool {
        self@.len() == 32
    }

    /// The digest bytes, in order.
    pub fn as_bytes(&self) -> (r: &Vec<u8>)
        ensures
            r@ == self@,
    {
        &self.bytes
    }

    /// Wraps 32 digest bytes as a committed output.
    pub fn from_bytes(bytes: Vec<u8>) -> (r: CommittedOutput)
        requires
            bytes@.len() == 32,
        ensures
            r@ == bytes@,
            r.wf(),
    {
        CommittedOutput { bytes }
    }
}

/// Computes the output the guest commits for a header: its Keccak-256 digest.
pub fn commit_for_header(header: &[u8]) -> (out: CommittedOutput)
    ensures
        out@ == keccak_of(header@),
        out.wf(),
{
    let digest = keccak256_bytes(header);
    CommittedOutput { bytes: digest }
}

/// Compares two byte strings for equality.
pub fn bytes_eq(a: &[u8], b: &[u8]) -> (r: bool)
    ensures
        r == (a@ == b@),
{
    if a.len() != b.len() {
        proof {
            assert(a@ != b@);
        }
        return false;
    }
    let n = a.len();
    for i in 0..n
        invariant
            n == a@.len(),
            n == b@.len(),
            forall|k: int| 0 <= k < i ==> a@[k] == b@[k],
    {
        if a[i] != b[i] {
            proof {
                assert(a@ != b@);
            }
            return false;
        }
    }
    proof {
        assert(a@ =~= b@);
    }
    true
}

} // verus!
