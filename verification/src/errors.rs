//! The pipeline's error taxonomy.
//!
//! Every error is fatal to the session that raised it: the pipeline performs
//! no local recovery, no partial commit and no automatic retry. A failure is
//! surfaced to the caller and the session's stage machine lands in its
//! absorbing failed state.

use vstd::prelude::*;

verus! {

/// The input frame handed to the guest was malformed.
#[derive(Clone, Copy, Debug, PartialEq, Eq, Structural)]
pub enum DecodeError {
    /// The frame ends before the bytes its length fields announce.
    Truncated,
    /// The frame carries bytes beyond the end of the encoded input.
    TrailingBytes,
}

/// The external block executor refused to produce a header.
#[derive(Clone, Copy, Debug, PartialEq, Eq, Structural)]
pub enum ExecutorError {
    /// The input was rejected (for example, it references an invalid prior
    /// state).
    Rejected,
    /// The executor itself failed on valid-looking input.
    Faulted,
}

/// The proving backend failed to derive a key pair for the program image.
#[derive(Clone, Copy, Debug, PartialEq, Eq, Structural)]
pub struct KeySetupError;

/// The proving backend failed while producing a proof (resource exhaustion
/// or an internal backend failure).
#[derive(Clone, Copy, Debug, PartialEq, Eq, Structural)]
pub struct ProvingError;

/// A proof did not validate against the verification key and expected output.
#[derive(Clone, Copy, Debug, PartialEq, Eq, Structural)]
pub enum VerificationError {
    /// The proof was produced under a proving key that is not paired with the
    /// verification key used to check it.
    KeyMismatch,
    /// The proof does not attest the expected committed output.
    OutputMismatch,
}

/// Any failure a pipeline stage can raise.
#[derive(Clone, Copy, Debug, PartialEq, Eq, Structural)]
pub enum PipelineError {
    /// Raised while decoding the input frame inside the guest.
    Decode(DecodeError),
    /// Raised by the external block executor.
    Executor(ExecutorError),
    /// Raised by the setup stage.
    KeySetup(KeySetupError),
    /// Raised by the prove stage.
    Proving(ProvingError),
    /// Raised by the verify stage.
    Verification(VerificationError),
}

} // verus!
