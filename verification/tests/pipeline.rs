use rsp_pipeline::backend::{LocalBackend, ProgramImage};
use rsp_pipeline::codec::{encode_input, ExecutionInput};
use rsp_pipeline::digest::CommittedOutput;
use rsp_pipeline::errors::{DecodeError, ExecutorError, PipelineError, VerificationError};
use rsp_pipeline::session::{Session, Stage};

fn image() -> ProgramImage {
    ProgramImage { elf: b"compiled guest program image".to_vec() }
}

fn sample_input() -> ExecutionInput {
    ExecutionInput {
        body: b"block body: one valid state transition".to_vec(),
        state_witness: b"supporting state witness".to_vec(),
    }
}

#[test]
fn execute_prove_verify_known_hash() {
    let header = b"the header the executor computed".to_vec();
    let expected = alloy_primitives::keccak256(&header);

    let mut session = Session::new(sample_input());
    assert_eq!(session.stage(), Stage::Loaded);

    session.setup(LocalBackend::setup(&image()));
    assert_eq!(session.stage(), Stage::KeysReady);

    let frame = session.input_frame();
    let exec_outcome = {
        let (pk, _) = session.keys().expect("keys are ready");
        LocalBackend::execute(pk, &frame, Ok(header.clone()))
    };
    session.execute(exec_outcome);
    assert_eq!(session.stage(), Stage::Executed);
    let committed = session.output().expect("an executed session holds an output");
    assert_eq!(committed.as_bytes().as_slice(), expected.as_slice());
    assert_eq!(session.cycles(), Some(frame.len() as u64));

    let prove_outcome = {
        let (pk, _) = session.keys().expect("keys are ready");
        LocalBackend::prove(pk, &frame, Ok(header.clone()))
    };
    session.prove(prove_outcome);
    assert_eq!(session.stage(), Stage::Proved);

    let verify_outcome = {
        let (_, vk) = session.keys().expect("keys are ready");
        let proof = session.proof_artifact().expect("a proved session holds a proof");
        let out = session.output().expect("a proved session holds an output");
        LocalBackend::verify(proof, vk, out)
    };
    session.verify(verify_outcome);
    assert_eq!(session.stage(), Stage::Verified);
    assert_eq!(session.error(), None);
}

#[test]
fn executor_rejection_fails_session() {
    let mut session = Session::new(sample_input());
    session.setup(LocalBackend::setup(&image()));
    let frame = session.input_frame();
    let exec_outcome = {
        let (pk, _) = session.keys().expect("keys are ready");
        LocalBackend::execute(pk, &frame, Err(ExecutorError::Rejected))
    };
    session.execute(exec_outcome);
    assert_eq!(session.stage(), Stage::Failed);
    assert!(session.output().is_none());
    assert_eq!(
        session.error(),
        Some(PipelineError::Executor(ExecutorError::Rejected))
    );
}

#[test]
fn truncated_frame_fails_before_prove() {
    let mut session = Session::new(sample_input());
    session.setup(LocalBackend::setup(&image()));
    let mut frame = session.input_frame();
    frame.truncate(frame.len() - 1);
    let exec_outcome = {
        let (pk, _) = session.keys().expect("keys are ready");
        LocalBackend::execute(pk, &frame, Ok(b"header".to_vec()))
    };
    assert_eq!(
        exec_outcome.as_ref().err(),
        Some(&PipelineError::Decode(DecodeError::Truncated))
    );
    session.execute(exec_outcome);
    assert_eq!(session.stage(), Stage::Failed);
    assert!(session.output().is_none());
    assert!(session.proof_artifact().is_none());
}

#[test]
fn corrupted_frame_fails_before_prove() {
    let mut session = Session::new(sample_input());
    session.setup(LocalBackend::setup(&image()));
    let mut frame = session.input_frame();
    frame.push(0xaa);
    let exec_outcome = {
        let (pk, _) = session.keys().expect("keys are ready");
        LocalBackend::execute(pk, &frame, Ok(b"header".to_vec()))
    };
    session.execute(exec_outcome);
    assert_eq!(session.stage(), Stage::Failed);
    assert_eq!(
        session.error(),
        Some(PipelineError::Decode(DecodeError::TrailingBytes))
    );
    assert!(session.output().is_none());
}

#[test]
fn execute_is_deterministic() {
    let input = sample_input();
    let frame = encode_input(&input);
    let header = b"the same header both times".to_vec();
    let (pk, _vk) = LocalBackend::setup(&image()).expect("setup succeeds");
    let (out1, rep1) =
        LocalBackend::execute(&pk, &frame, Ok(header.clone())).expect("run succeeds");
    let (out2, rep2) =
        LocalBackend::execute(&pk, &frame, Ok(header.clone())).expect("run succeeds");
    assert_eq!(out1.as_bytes(), out2.as_bytes());
    assert_eq!(rep1.cycles, rep2.cycles);
}

#[test]
fn setup_twice_keys_cross_verify() {
    let frame = encode_input(&sample_input());
    let header = b"header".to_vec();
    let (pk1, _vk1) = LocalBackend::setup(&image()).expect("setup succeeds");
    let (_pk2, vk2) = LocalBackend::setup(&image()).expect("setup succeeds");
    let (out, _rep) = LocalBackend::execute(&pk1, &frame, Ok(header.clone())).expect("run succeeds");
    let proof = LocalBackend::prove(&pk1, &frame, Ok(header)).expect("proving succeeds");
    // A proof produced with the first derivation's proving key verifies
    // against the second derivation's verification key.
    assert!(LocalBackend::verify(&proof, &vk2, &out).is_ok());
}

#[test]
fn tampered_output_fails_verification() {
    let frame = encode_input(&sample_input());
    let header = b"header".to_vec();
    let (pk, vk) = LocalBackend::setup(&image()).expect("setup succeeds");
    let (out, _rep) = LocalBackend::execute(&pk, &frame, Ok(header.clone())).expect("run succeeds");
    let proof = LocalBackend::prove(&pk, &frame, Ok(header)).expect("proving succeeds");
    assert!(LocalBackend::verify(&proof, &vk, &out).is_ok());

    // Flip one bit of the committed output: verification must fail.
    let mut tampered = out.as_bytes().clone();
    tampered[0] ^= 1;
    let tampered = CommittedOutput::from_bytes(tampered);
    assert_eq!(
        LocalBackend::verify(&proof, &vk, &tampered),
        Err(VerificationError::OutputMismatch)
    );
}

#[test]
fn unpaired_key_fails_verification() {
    let frame = encode_input(&sample_input());
    let header = b"header".to_vec();
    let (pk, _vk) = LocalBackend::setup(&image()).expect("setup succeeds");
    let other_image = ProgramImage { elf: b"a different program image".to_vec() };
    let (_pk2, other_vk) = LocalBackend::setup(&other_image).expect("setup succeeds");
    let (out, _rep) = LocalBackend::execute(&pk, &frame, Ok(header.clone())).expect("run succeeds");
    let proof = LocalBackend::prove(&pk, &frame, Ok(header)).expect("proving succeeds");
    assert_eq!(
        LocalBackend::verify(&proof, &other_vk, &out),
        Err(VerificationError::KeyMismatch)
    );
}
