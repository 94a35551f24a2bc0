//! The proving-backend capability set, and a local backend.
//!
//! A proving backend offers four capabilities — setup, execute, prove,
//! verify — with the same externally observable semantics whatever its
//! internal proof system. The session machine consumes each capability's
//! outcome as a plain value, so backends are interchangeable without
//! altering the stage machine: a remote or parallel prover delivers the same
//! outcome shapes from outside the library.
//!
//! [`LocalBackend`] is the in-process backend: its execute-only mode runs
//! the guest logic directly, and its keys and proofs model the binding the
//! pipeline relies on — a verification key is the digest of the program
//! image it was derived from, and a proof carries that digest together with
//! the committed output it attests.

use vstd::prelude::*;

use crate::digest::{keccak_of, keccak256_bytes, bytes_eq, CommittedOutput};
use crate::errors::{ExecutorError, KeySetupError, PipelineError, VerificationError};
use crate::guest::{guest_result, run_guest, verdict_model, OutputChannel};

verus! {

/// The compiled guest program image a proving session is bound to.
pub struct ProgramImage {
    pub elf: Vec<u8>,
}

impl View for ProgramImage {
    type V = Seq<u8>;

    open spec fn view(&self) -> Seq<u8> {
        self.elf@
    }
}

/// The key a backend proves with: it packages the program image it was
/// derived from.
pub struct ProvingKey {
    image: Vec<u8>,
}

impl View for ProvingKey {
    type V = Seq<u8>;

    closed spec fn view(&self) -> Seq<u8> {
        self.image@
    }
}

/// The key a proof is checked against: the digest of the program image it
/// was derived from.
pub struct VerificationKey {
    image_digest: Vec<u8>,
}

impl View for VerificationKey {
    type V = Seq<u8>;

    closed spec fn view(&self) -> Seq<u8> {
        self.image_digest@
    }
}

/// What setup derives as the proving key for an image.
pub open spec fn pk_of(image: Seq<u8>) -> Seq<u8> {
    image
}

/// What setup derives as the verification key for an image.
pub open spec fn vk_of(image: Seq<u8>) -> Seq<u8> {
    keccak_of(image)
}

/// Metadata of an execute-only run: the resource cost of the run.
#[derive(Clone, Copy, Debug, PartialEq, Eq, Structural)]
pub struct ExecutionReport {
    pub cycles: u64,
}

/// The cycles the local backend reports for a frame: one per frame byte.
pub open spec fn cycles_of(frame: Seq<u8>) -> u64 {
    frame.len() as u64
}

/// The mathematical model of a [`Proof`].
pub struct ProofModel {
    /// The verification key the proof was produced under.
    pub key_digest: Seq<u8>,
    /// The committed output the proof attests.
    pub output: Seq<u8>,
}

/// A proof artifact: binds the key pair it was produced under to the
/// committed output it attests. Immutable once produced.
pub struct Proof {
    key_digest: Vec<u8>,
    output: CommittedOutput,
}

impl View for Proof {
    type V = ProofModel;

    closed spec fn view(&self) -> ProofModel {
        ProofModel { key_digest: self.key_digest@, output: self.output@ }
    }
}

/// When a verifier holding `vk` accepts a proof for the output `expected`:
/// exactly when the proof was produced under the key pair `vk` belongs to
/// and attests exactly `expected`.
pub open spec fn proof_accepted(p: ProofModel, vk: Seq<u8>, expected: Seq<u8>) -> bool {
    &&& p.key_digest == vk
    &&& p.output == expected
}

/// The in-process proving backend.
pub struct LocalBackend;

impl LocalBackend {
    /// Setup: derive the key pair for a program image. A pure function of
    /// the image, so it may be memoized across sessions using the same
    /// image; the local backend owes success on every image.
    pub fn setup(image: &ProgramImage) -> (r: Result<
        (ProvingKey, VerificationKey),
        KeySetupError,
    >)
        ensures
            r matches Ok((pk, vk)) && pk@ == pk_of(image@) && vk@ == vk_of(image@),
    {
        let pk = ProvingKey { image: crate::codec::copy_bytes(image.elf.as_slice()) };
        let vk = VerificationKey { image_digest: keccak256_bytes(image.elf.as_slice()) };
        Ok((pk, vk))
    }

    /// Execute-only mode: run the guest over the frame and read back the
    /// committed output and the run's cycle count. Never produces a proof;
    /// it exists for fast feedback before paying the cost of proving. The
    /// run ends exactly as [`guest_result`] says, and both the output and
    /// the cycle count are functions of the frame and the executor's
    /// verdict alone. The local backend runs the library's own guest logic
    /// as its program, so the proving key only names the image the run is
    /// bound to.
    pub fn execute(
        pk: &ProvingKey,
        frame: &[u8],
        verdict: Result<Vec<u8>, ExecutorError>,
    ) -> (r: Result<(CommittedOutput, ExecutionReport), PipelineError>)
        ensures
            match guest_result(frame@, verdict_model(verdict)) {
                Ok(out_bytes) => r matches Ok((out, rep)) && out@ == out_bytes && out.wf()
                    && rep.cycles == cycles_of(frame@),
                Err(e) => r == Err::<(CommittedOutput, ExecutionReport), PipelineError>(e),
            },
    {
        let mut channel = OutputChannel::new();
        match run_guest(frame, verdict, &mut channel) {
            Ok(()) => {},
            Err(e) => {
                return Err(e);
            },
        }
        match channel.into_committed() {
            Some(out) => Ok((out, ExecutionReport { cycles: frame.len() as u64 })),
            None => {
                proof {
                    assert(false);
                }
                Err(PipelineError::Executor(ExecutorError::Faulted))
            },
        }
    }

    /// Prove: run the guest over the frame and produce a proof binding the
    /// proving key's image to the committed output. Fails exactly where the
    /// execute-only run fails.
    pub fn prove(
        pk: &ProvingKey,
        frame: &[u8],
        verdict: Result<Vec<u8>, ExecutorError>,
    ) -> (r: Result<Proof, PipelineError>)
        ensures
            match guest_result(frame@, verdict_model(verdict)) {
                Ok(out_bytes) => r matches Ok(p) && p@ == (ProofModel {
                    key_digest: vk_of(pk@),
                    output: out_bytes,
                }),
                Err(e) => r == Err::<Proof, PipelineError>(e),
            },
    {
        let mut channel = OutputChannel::new();
        match run_guest(frame, verdict, &mut channel) {
            Ok(()) => {},
            Err(e) => {
                return Err(e);
            },
        }
        match channel.into_committed() {
            Some(out) => Ok(Proof { key_digest: keccak256_bytes(pk.image.as_slice()), output: out }),
            None => {
                proof {
                    assert(false);
                }
                Err(PipelineError::Executor(ExecutorError::Faulted))
            },
        }
    }

    /// Verify: check a proof against a verification key and the expected
    /// committed output. Accepts exactly when [`proof_accepted`] holds, and
    /// says which side mismatched when it does not.
    pub fn verify(proof: &Proof, vk: &VerificationKey, expected: &CommittedOutput) -> (r: Result<
        (),
        VerificationError,
    >)
        ensures
            r is Ok <==> proof_accepted(proof@, vk@, expected@),
            r == Err::<(), VerificationError>(VerificationError::KeyMismatch) <==> proof@.key_digest
                != vk@,
            r == Err::<(), VerificationError>(VerificationError::OutputMismatch) <==> (
            proof@.key_digest == vk@ && proof@.output != expected@),
    {
        if !bytes_eq(proof.key_digest.as_slice(), vk.image_digest.as_slice()) {
            return Err(VerificationError::KeyMismatch);
        }
        if !bytes_eq(proof.output.as_bytes().as_slice(), expected.as_bytes().as_slice()) {
            return Err(VerificationError::OutputMismatch);
        }
        Ok(())
    }
}

/// Proof binding: a proof produced under the key pair of `image` for the
/// output `out` is accepted by the matching verification key with exactly
/// `out` expected; it is accepted by no other verification key and for no
/// other expected output, so altering any bit of the output before
/// verification makes verification fail.
pub proof fn lemma_proof_binding(image: Seq<u8>, out: Seq<u8>, vk: Seq<u8>, expected: Seq<u8>)
    ensures
        proof_accepted((ProofModel { key_digest: vk_of(image), output: out }), vk_of(image), out),
        proof_accepted((ProofModel { key_digest: vk_of(image), output: out }), vk, expected) ==> (vk
            == vk_of(image) && expected == out),
        expected != out ==> !proof_accepted(
            (ProofModel { key_digest: vk_of(image), output: out }),
            vk_of(image),
            expected,
        ),
{
}

/// Success is owed end to end: when the guest run over a frame commits an
/// output, the proof produced for that run under the keys of `image` is
/// accepted by the verification key of the same image against exactly that
/// output.
pub proof fn lemma_prove_then_verify_succeeds(
    image: Seq<u8>,
    frame: Seq<u8>,
    verdict: Result<Seq<u8>, ExecutorError>,
)
    requires
        guest_result(frame, verdict) is Ok,
    ensures
        proof_accepted(
            (ProofModel {
                key_digest: vk_of(image),
                output: guest_result(frame, verdict)->Ok_0,
            }),
            vk_of(image),
            guest_result(frame, verdict)->Ok_0,
        ),
{
}

/// Key determinism: setup derives the keys as a pure function of the
/// program image, so two derivations over the same image yield the same key
/// pair, and keys from either derivation verify proofs produced with the
/// other.
pub proof fn lemma_key_determinism(image1: Seq<u8>, image2: Seq<u8>, out: Seq<u8>)
    requires
        image1 == image2,
    ensures
        pk_of(image1) == pk_of(image2),
        vk_of(image1) == vk_of(image2),
        proof_accepted(
            (ProofModel { key_digest: vk_of(image1), output: out }),
            vk_of(image2),
            out,
        ),
{
}

/// Execute determinism: two execute-only runs over the same frame and the
/// same executor verdict end the same way, with the same committed output
/// and the same cycle count.
pub proof fn lemma_execute_deterministic(
    frame1: Seq<u8>,
    verdict1: Result<Seq<u8>, ExecutorError>,
    frame2: Seq<u8>,
    verdict2: Result<Seq<u8>, ExecutorError>,
)
    requires
        frame1 == frame2,
        verdict1 == verdict2,
    ensures
        guest_result(frame1, verdict1) == guest_result(frame2, verdict2),
        cycles_of(frame1) == cycles_of(frame2),
{
}

} // verus!
