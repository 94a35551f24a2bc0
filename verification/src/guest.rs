//! The guest entry point's logic.
//!
//! Inside the zkVM the guest reads exactly one input frame, decodes it,
//! hands the decoded input to the external block executor, and commits the
//! header's Keccak-256 digest as the single public output. On any failure it
//! aborts without committing: a failed run never publishes a partial or
//! default output. The zkVM's read and commit primitives stay outside this
//! library; the guest program calls [`run_guest`] between them with the frame
//! it read and the executor's verdict, and publishes whatever the channel
//! holds afterwards.

use vstd::prelude::*;

use crate::codec::parse_frame;
use crate::digest::{commit_for_header, keccak_of, CommittedOutput};
use crate::errors::{ExecutorError, PipelineError};

verus! {

/// The guest's single public-output channel: holds at most one committed
/// value per run, and never loses or rewrites a value once committed.
pub struct OutputChannel {
    committed: Option<CommittedOutput>,
}

impl View for OutputChannel {
    type V = Option<Seq<u8>>;

    closed spec fn view(&self) -> Option<Seq<u8>> {
        match self.committed {
            Some(out) => Some(out@),
            None => None,
        }
    }
}

impl OutputChannel {
    /// A fresh channel with nothing committed.
    pub fn new() -> (c: OutputChannel)
        ensures
            c@ is None,
    {
        OutputChannel { committed: None }
    }

    /// Publishes `out`. A run commits at most once: the channel must still be
    /// empty.
    pub fn commit(&mut self, out: CommittedOutput)
        requires
            old(self)@ is None,
        ensures
            final(self)@ == Some(out@),
    {
        self.committed = Some(out);
    }

    /// The committed value, if the run published one.
    pub fn committed(&self) -> (r: Option<&CommittedOutput>)
        ensures
            match r {
                Some(out) => self@ == Some(out@),
                None => self@ is None,
            },
    {
        self.committed.as_ref()
    }

    /// Consumes the channel and hands out whatever the run published.
    pub fn into_committed(self) -> (r: Option<CommittedOutput>)
        ensures
            match r {
                Some(out) => self@ == Some(out@),
                None => self@ is None,
            },
    {
        self.committed
    }
}

/// What a guest run commits for a given frame and executor answer — the
/// header's digest on success, nothing on any failure.
pub open spec fn guest_commit(
    frame: Seq<u8>,
    verdict: Result<Seq<u8>, ExecutorError>,
) -> Option<Seq<u8>> {
    if parse_frame(frame) is Ok && verdict is Ok {
        Some(keccak_of(verdict->Ok_0))
    } else {
        None
    }
}

/// How a guest run ends for a given frame and executor verdict.
pub open spec fn guest_result(
    frame: Seq<u8>,
    verdict: Result<Seq<u8>, ExecutorError>,
) -> Result<Seq<u8>, PipelineError> {
    match parse_frame(frame) {
        Err(e) => Err(PipelineError::Decode(e)),
        Ok(_) => match verdict {
            Err(e) => Err(PipelineError::Executor(e)),
            Ok(header) => Ok(keccak_of(header)),
        },
    }
}

/// One guest run.
///
/// `frame` is the single input frame read from the machine's input channel;
/// `verdict` is what the external block executor answered for the decoded
/// input: the computed header, or its refusal. The frame is decoded first: a
/// malformed frame aborts the run before the executor's verdict is even
/// looked at, and an executor failure aborts it before anything is
/// committed. Only a run that decoded its input and received a header
/// commits, and it commits exactly the header's digest, exactly once.
pub fn run_guest(
    frame: &[u8],
    verdict: Result<Vec<u8>, ExecutorError>,
    channel: &mut OutputChannel,
) -> (r: Result<(), PipelineError>)
    requires
        old(channel)@ is None,
    ensures
        final(channel)@ == guest_commit(frame@, verdict_model(verdict)),
        final(channel)@ matches Some(o) ==> o.len() == 32,
        r is Ok <==> guest_result(frame@, verdict_model(verdict)) is Ok,
        r matches Err(e) ==> guest_result(frame@, verdict_model(verdict)) == Err::<
            Seq<u8>,
            PipelineError,
        >(e),
{
    match crate::codec::decode_input(frame) {
        Ok(_) => {},
        Err(e) => {
            return Err(PipelineError::Decode(e));
        },
    }
    let header = match verdict {
        Ok(header) => header,
        Err(e) => {
            return Err(PipelineError::Executor(e));
        },
    };
    let out = commit_for_header(header.as_slice());
    channel.commit(out);
    Ok(())
}

/// The model of an executor answer — the header bytes it carries, or the
/// error.
pub open spec fn verdict_model(
    verdict: Result<Vec<u8>, ExecutorError>,
) -> Result<Seq<u8>, ExecutorError> {
    match verdict {
        Ok(header) => Ok(header@),
        Err(e) => Err(e),
    }
}

/// Determinism of the guest: a run is a function of the frame and the
/// executor's verdict alone, so two runs over the same frame and the same
/// verdict end the same way and commit the same output.
pub proof fn lemma_guest_deterministic(
    frame1: Seq<u8>,
    verdict1: Result<Seq<u8>, ExecutorError>,
    frame2: Seq<u8>,
    verdict2: Result<Seq<u8>, ExecutorError>,
)
    requires
        frame1 == frame2,
        verdict1 == verdict2,
    ensures
        guest_result(frame1, verdict1) == guest_result(frame2, verdict2),
        guest_commit(frame1, verdict1) == guest_commit(frame2, verdict2),
{
}

/// Fail-fast, no partial commit: a run over a malformed frame ends with
/// exactly the decode error the frame parses to, whatever the executor
/// answered, and a run that fails for any reason commits nothing.
pub proof fn lemma_guest_aborts_commit_nothing(
    frame: Seq<u8>,
    verdict: Result<Seq<u8>, ExecutorError>,
)
    ensures
        parse_frame(frame) matches Err(e) ==> guest_result(frame, verdict) == Err::<
            Seq<u8>,
            PipelineError,
        >(PipelineError::Decode(e)),
        guest_result(frame, verdict) is Err ==> guest_commit(frame, verdict) is None,
{
}

} // verus!
