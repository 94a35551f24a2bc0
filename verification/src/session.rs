//! The host orchestrator: a forward-only stage machine.
//!
//! A proving session moves through the stages load, setup, execute, prove,
//! verify, strictly in that order, each stage blocking until its backend
//! outcome arrives. Any stage failure moves the session unconditionally to
//! the absorbing failed stage: the orchestrator neither retries nor repairs
//! a failed session. The driver performs the backend work — in process
//! through [`crate::backend::LocalBackend`], or against a remote prover —
//! and hands each stage's outcome back to the session as a plain value.

use vstd::prelude::*;

use crate::backend::{ExecutionReport, Proof, ProofModel, ProvingKey, VerificationKey};
use crate::codec::{frame_of, parse_frame, encode_input, ExecutionInput, InputModel};
use crate::digest::CommittedOutput;
use crate::errors::{ExecutorError, KeySetupError, PipelineError, VerificationError};
use crate::guest::{guest_commit, guest_result};

verus! {

/// The stages of a proving session.
#[derive(Clone, Copy, Debug, PartialEq, Eq, Structural)]
pub enum Stage {
    /// The input is loaded; no keys are derived yet.
    Loaded,
    /// The key pair for the program image is derived.
    KeysReady,
    /// An execute-only run committed an output and reported its cost.
    Executed,
    /// A proof for the committed output is produced.
    Proved,
    /// The proof was checked against the verification key and the output.
    Verified,
    /// A stage failed; the session is over. Absorbing.
    Failed,
}

/// Which stage may follow which: each stage hands over either to its
/// successor or to the failed stage, and the two terminal stages hand over
/// to nothing.
pub open spec fn can_step(from: Stage, to: Stage) -> bool {
    match from {
        Stage::Loaded => to == Stage::KeysReady || to == Stage::Failed,
        Stage::KeysReady => to == Stage::Executed || to == Stage::Failed,
        Stage::Executed => to == Stage::Proved || to == Stage::Failed,
        Stage::Proved => to == Stage::Verified || to == Stage::Failed,
        Stage::Verified => false,
        Stage::Failed => false,
    }
}

/// How far along a session is; the failed stage counts as furthest because
/// nothing follows it.
pub open spec fn stage_rank(s: Stage) -> int {
    match s {
        Stage::Loaded => 0,
        Stage::KeysReady => 1,
        Stage::Executed => 2,
        Stage::Proved => 3,
        Stage::Verified => 4,
        Stage::Failed => 5,
    }
}

/// The mathematical model of a [`Session`].
pub struct SessionModel {
    pub stage: Stage,
    pub input: InputModel,
    pub keys: Option<(Seq<u8>, Seq<u8>)>,
    pub output: Option<Seq<u8>>,
    pub cycles: Option<u64>,
    pub proof: Option<ProofModel>,
    pub error: Option<PipelineError>,
}

/// Which artifacts a session holds at each stage: exactly those the stages
/// it went through produced, and an error exactly in the failed stage.
pub open spec fn session_inv(m: SessionModel) -> bool {
    &&& (m.stage == Stage::Loaded ==> m.keys is None)
    &&& (m.stage == Stage::KeysReady || m.stage == Stage::Executed || m.stage == Stage::Proved
        || m.stage == Stage::Verified ==> m.keys is Some)
    &&& (m.stage == Stage::Loaded || m.stage == Stage::KeysReady ==> m.output is None
        && m.cycles is None)
    &&& (m.stage == Stage::Executed || m.stage == Stage::Proved || m.stage == Stage::Verified
        ==> m.output is Some && m.cycles is Some)
    &&& (m.stage == Stage::Loaded || m.stage == Stage::KeysReady || m.stage == Stage::Executed
        ==> m.proof is None)
    &&& (m.stage == Stage::Proved || m.stage == Stage::Verified ==> m.proof is Some)
    &&& (m.error is Some <==> m.stage == Stage::Failed)
}

/// A proving session against one input and one program image.
pub struct Session {
    stage: Stage,
    input: ExecutionInput,
    keys: Option<(ProvingKey, VerificationKey)>,
    output: Option<CommittedOutput>,
    report: Option<ExecutionReport>,
    proof: Option<Proof>,
    error: Option<PipelineError>,
}

impl View for Session {
    type V = SessionModel;

    closed spec fn view(&self) -> SessionModel {
        SessionModel {
            stage: self.stage,
            input: self.input@,
            keys: match self.keys {
                Some((pk, vk)) => Some((pk@, vk@)),
                None => None,
            },
            output: match self.output {
                Some(out) => Some(out@),
                None => None,
            },
            cycles: match self.report {
                Some(rep) => Some(rep.cycles),
                None => None,
            },
            proof: match self.proof {
                Some(p) => Some(p@),
                None => None,
            },
            error: self.error,
        }
    }
}

impl Session {
    /// The session's well-formedness: its artifacts match its stage.
    pub open spec fn wf(&self) -> bool {
        session_inv(self@)
    }

    /// Load: open a session around an input. The session starts in the
    /// loaded stage with no artifacts; reading the input from its
    /// path-addressed store happens before this, outside the library, and a
    /// session only exists once that read succeeded.
    pub fn new(input: ExecutionInput) -> (s: Session)
        ensures
            s@ == (SessionModel {
                stage: Stage::Loaded,
                input: input@,
                keys: None,
                output: None,
                cycles: None,
                proof: None,
                error: None,
            }),
            s.wf(),
    {
        Session {
            stage: Stage::Loaded,
            input,
            keys: None,
            output: None,
            report: None,
            proof: None,
            error: None,
        }
    }

    /// The stage the session is in.
    pub fn stage(&self) -> (st: Stage)
        ensures
            st == self@.stage,
    {
        self.stage
    }

    /// The frame the session hands to the backend's execution channel: the
    /// loaded input, encoded.
    pub fn input_frame(&self) -> (f: Vec<u8>)
        ensures
            f@ == frame_of(self@.input),
    {
        encode_input(&self.input)
    }

    /// The committed output the execute stage read back, once one exists.
    pub fn output(&self) -> (r: Option<&CommittedOutput>)
        ensures
            match r {
                Some(out) => self@.output == Some(out@),
                None => self@.output is None,
            },
    {
        self.output.as_ref()
    }

    /// The cycle count the execute stage reported, once one exists.
    pub fn cycles(&self) -> (r: Option<u64>)
        ensures
            r == self@.cycles,
    {
        match &self.report {
            Some(rep) => Some(rep.cycles),
            None => None,
        }
    }

    /// The key pair the setup stage derived, once one exists.
    pub fn keys(&self) -> (r: Option<(&ProvingKey, &VerificationKey)>)
        ensures
            match r {
                Some((pk, vk)) => self@.keys == Some((pk@, vk@)),
                None => self@.keys is None,
            },
    {
        match &self.keys {
            Some((pk, vk)) => Some((pk, vk)),
            None => None,
        }
    }

    /// The proof the prove stage produced, once one exists.
    pub fn proof_artifact(&self) -> (r: Option<&Proof>)
        ensures
            match r {
                Some(p) => self@.proof == Some(p@),
                None => self@.proof is None,
            },
    {
        self.proof.as_ref()
    }

    /// The error that failed the session, if one did.
    pub fn error(&self) -> (r: Option<PipelineError>)
        ensures
            r == self@.error,
    {
        self.error
    }

    /// Setup: record the backend's key derivation for the program image.
    /// On success the session holds the key pair; on failure it is over.
    pub fn setup(&mut self, outcome: Result<(ProvingKey, VerificationKey), KeySetupError>)
        requires
            old(self).wf(),
            old(self)@.stage == Stage::Loaded,
        ensures
            final(self).wf(),
            can_step(old(self)@.stage, final(self)@.stage),
            match outcome {
                Ok((pk, vk)) => final(self)@ == (SessionModel {
                    stage: Stage::KeysReady,
                    keys: Some((pk@, vk@)),
                    ..old(self)@
                }),
                Err(e) => final(self)@ == (SessionModel {
                    stage: Stage::Failed,
                    error: Some(PipelineError::KeySetup(e)),
                    ..old(self)@
                }),
            },
    {
        match outcome {
            Ok(keys) => {
                self.keys = Some(keys);
                self.stage = Stage::KeysReady;
            },
            Err(e) => {
                self.error = Some(PipelineError::KeySetup(e));
                self.stage = Stage::Failed;
            },
        }
    }

    /// Execute: record the outcome of the backend's execute-only run over
    /// this session's frame. On success the session holds the committed
    /// output and the report; on failure it is over, and it holds no
    /// committed output — a failed run never published one.
    pub fn execute(&mut self, outcome: Result<(CommittedOutput, ExecutionReport), PipelineError>)
        requires
            old(self).wf(),
            old(self)@.stage == Stage::KeysReady,
        ensures
            final(self).wf(),
            can_step(old(self)@.stage, final(self)@.stage),
            match outcome {
                Ok((out, rep)) => final(self)@ == (SessionModel {
                    stage: Stage::Executed,
                    output: Some(out@),
                    cycles: Some(rep.cycles),
                    ..old(self)@
                }),
                Err(e) => final(self)@ == (SessionModel {
                    stage: Stage::Failed,
                    error: Some(e),
                    ..old(self)@
                }) && final(self)@.output is None,
            },
    {
        match outcome {
            Ok((out, rep)) => {
                self.output = Some(out);
                self.report = Some(rep);
                self.stage = Stage::Executed;
            },
            Err(e) => {
                self.error = Some(e);
                self.stage = Stage::Failed;
            },
        }
    }

    /// Prove: record the backend's proving outcome. On success the session
    /// holds the proof; on failure it is over.
    pub fn prove(&mut self, outcome: Result<Proof, PipelineError>)
        requires
            old(self).wf(),
            old(self)@.stage == Stage::Executed,
        ensures
            final(self).wf(),
            can_step(old(self)@.stage, final(self)@.stage),
            match outcome {
                Ok(p) => final(self)@ == (SessionModel {
                    stage: Stage::Proved,
                    proof: Some(p@),
                    ..old(self)@
                }),
                Err(e) => final(self)@ == (SessionModel {
                    stage: Stage::Failed,
                    error: Some(e),
                    ..old(self)@
                }),
            },
    {
        match outcome {
            Ok(p) => {
                self.proof = Some(p);
                self.stage = Stage::Proved;
            },
            Err(e) => {
                self.error = Some(e);
                self.stage = Stage::Failed;
            },
        }
    }

    /// Verify: record the verdict on the proof. Success completes the
    /// pipeline; failure is fatal to the session, as everywhere.
    pub fn verify(&mut self, outcome: Result<(), VerificationError>)
        requires
            old(self).wf(),
            old(self)@.stage == Stage::Proved,
        ensures
            final(self).wf(),
            can_step(old(self)@.stage, final(self)@.stage),
            match outcome {
                Ok(()) => final(self)@ == (SessionModel { stage: Stage::Verified, ..old(self)@ }),
                Err(e) => final(self)@ == (SessionModel {
                    stage: Stage::Failed,
                    error: Some(PipelineError::Verification(e)),
                    ..old(self)@
                }),
            },
    {
        match outcome {
            Ok(()) => {
                self.stage = Stage::Verified;
            },
            Err(e) => {
                self.error = Some(PipelineError::Verification(e));
                self.stage = Stage::Failed;
            },
        }
    }
}

/// The machine only moves forward: every allowed step strictly increases
/// the stage rank, so no stage repeats and nothing follows the verified or
/// failed stage.
pub proof fn lemma_forward_only(from: Stage, to: Stage)
    ensures
        can_step(from, to) ==> stage_rank(to) > stage_rank(from),
        !can_step(Stage::Verified, to),
        !can_step(Stage::Failed, to),
{
}

/// Fail-fast on a malformed frame: a guest run over a frame that does not
/// parse fails with exactly the frame's decode error before the executor's
/// verdict is looked at, commits nothing — so no prove stage can ever see a
/// committed output for it — and the failed stage it puts the session in
/// steps nowhere.
pub proof fn lemma_fail_fast_malformed(
    frame: Seq<u8>,
    verdict: Result<Seq<u8>, ExecutorError>,
    to: Stage,
)
    requires
        parse_frame(frame) is Err,
    ensures
        guest_result(frame, verdict) == Err::<Seq<u8>, PipelineError>(
            PipelineError::Decode(parse_frame(frame)->Err_0),
        ),
        guest_commit(frame, verdict) is None,
        !can_step(Stage::Failed, to),
{
}

} // verus!
