use russet_trust::container::ElfContext;
use russet_trust::embed::embed;
use russet_trust::exec_flow::{
    classify_load, classify_read, classify_start, escalate, Disposition, ExecAction,
    ExecBinaryError, Execution, FsCause, HaltReason, ReadOutcome,
};
use russet_trust::status::{status_to_text, PlatformStatus};

#[test]
fn non_strict_success_finishes() {
    let payload = b"kernel image";
    let container = embed(payload, ElfContext::Kernel);

    let (mut exec, action) = Execution::begin(ElfContext::Kernel, false);
    assert!(matches!(action, ExecAction::DoRead));

    let action = exec.on_read(ReadOutcome::Data(container));
    match action {
        ExecAction::DoLoad(bytes) => assert_eq!(bytes, payload.to_vec()),
        _ => panic!("expected a load action"),
    }

    let action = exec.on_load(Ok(()));
    assert!(matches!(action, ExecAction::DoStart));

    let action = exec.on_start(Ok(()));
    assert!(matches!(
        action,
        ExecAction::Return(ExecBinaryError::Finished)
    ));
}

#[test]
fn non_strict_missing_file_returns_not_found() {
    let (mut exec, _) = Execution::begin(ElfContext::Kernel, false);
    let action = exec.on_read(ReadOutcome::Io(PlatformStatus::NotFound));
    assert!(matches!(
        action,
        ExecAction::Return(ExecBinaryError::NotFound)
    ));
}

#[test]
fn strict_missing_file_halts() {
    let (mut exec, _) = Execution::begin(ElfContext::Kernel, true);
    let action = exec.on_read(ReadOutcome::Io(PlatformStatus::NotFound));
    assert!(matches!(
        action,
        ExecAction::Halt(HaltReason::FileInitializationFailed)
    ));
}

#[test]
fn strict_clean_return_halts_too() {
    // A strict caller's image must never hand control back: even a clean
    // finish is escalated to a halt.
    let payload = b"init image";
    let container = embed(payload, ElfContext::Kernel);
    let (mut exec, _) = Execution::begin(ElfContext::Kernel, true);
    exec.on_read(ReadOutcome::Data(container));
    exec.on_load(Ok(()));
    let action = exec.on_start(Ok(()));
    assert!(matches!(
        action,
        ExecAction::Halt(HaltReason::CriticalProcessDied)
    ));
}

#[test]
fn untrusted_image_is_unsupported() {
    // A container built for the other context: the orchestrator does not
    // say why verification refused the container, only that the image
    // cannot run here.
    let container = embed(b"user program", ElfContext::User);
    let (mut exec, _) = Execution::begin(ElfContext::Kernel, false);
    let action = exec.on_read(ReadOutcome::Data(container));
    assert!(matches!(
        action,
        ExecAction::Return(ExecBinaryError::Unsupported)
    ));
}

#[test]
fn strict_untrusted_image_halts_as_unsupported() {
    let container = embed(b"user program", ElfContext::User);
    let (mut exec, _) = Execution::begin(ElfContext::Kernel, true);
    let action = exec.on_read(ReadOutcome::Data(container));
    assert!(matches!(
        action,
        ExecAction::Halt(HaltReason::BoundImageUnsupported)
    ));
}

#[test]
fn read_errors_are_classified() {
    let r = classify_read(ReadOutcome::Io(PlatformStatus::OutOfResources), ElfContext::User);
    assert_eq!(r.unwrap_err(), ExecBinaryError::OutOfMemory);

    let r = classify_read(ReadOutcome::Io(PlatformStatus::DeviceError), ElfContext::User);
    assert_eq!(
        r.unwrap_err(),
        ExecBinaryError::ReadIO(PlatformStatus::DeviceError)
    );

    let r = classify_read(ReadOutcome::Fs(FsCause::InvalidPath), ElfContext::User);
    assert_eq!(r.unwrap_err(), ExecBinaryError::ReadFS(FsCause::InvalidPath));

    let r = classify_read(ReadOutcome::Fs(FsCause::InvalidEncoding), ElfContext::User);
    assert_eq!(r.unwrap_err(), ExecBinaryError::ReadFS(FsCause::InvalidEncoding));
}

#[test]
fn load_errors_are_classified() {
    assert_eq!(classify_load(Ok(())), Ok(()));
    assert_eq!(
        classify_load(Err(PlatformStatus::Unsupported)),
        Err(ExecBinaryError::Unsupported)
    );
    assert_eq!(
        classify_load(Err(PlatformStatus::OutOfResources)),
        Err(ExecBinaryError::Load(PlatformStatus::OutOfResources))
    );
}

#[test]
fn start_errors_are_classified() {
    assert_eq!(classify_start(Ok(())), ExecBinaryError::Finished);
    assert_eq!(
        classify_start(Err(PlatformStatus::Unsupported)),
        ExecBinaryError::Unsupported
    );
    assert_eq!(
        classify_start(Err(PlatformStatus::Aborted)),
        ExecBinaryError::Runtime(PlatformStatus::Aborted)
    );
}

#[test]
fn escalation_policy() {
    assert_eq!(
        escalate(ExecBinaryError::Finished, false),
        Disposition::Return(ExecBinaryError::Finished)
    );
    assert_eq!(
        escalate(ExecBinaryError::Finished, true),
        Disposition::Halt(HaltReason::CriticalProcessDied)
    );
    assert_eq!(
        escalate(ExecBinaryError::OutOfMemory, true),
        Disposition::Halt(HaltReason::MemoryManagement)
    );
    assert_eq!(
        escalate(ExecBinaryError::Runtime(PlatformStatus::Aborted), true),
        Disposition::Halt(HaltReason::CriticalProcessDied)
    );
}

#[test]
fn load_failure_midway() {
    let container = embed(b"image", ElfContext::Kernel);
    let (mut exec, _) = Execution::begin(ElfContext::Kernel, false);
    exec.on_read(ReadOutcome::Data(container));
    let action = exec.on_load(Err(PlatformStatus::LoadError));
    assert!(matches!(
        action,
        ExecAction::Return(ExecBinaryError::Load(PlatformStatus::LoadError))
    ));
}

#[test]
fn start_failure_midway() {
    let container = embed(b"image", ElfContext::Kernel);
    let (mut exec, _) = Execution::begin(ElfContext::Kernel, false);
    exec.on_read(ReadOutcome::Data(container));
    exec.on_load(Ok(()));
    let action = exec.on_start(Err(PlatformStatus::InvalidParameter));
    assert!(matches!(
        action,
        ExecAction::Return(ExecBinaryError::Runtime(PlatformStatus::InvalidParameter))
    ));
}

#[test]
fn status_texts() {
    assert_eq!(
        status_to_text(PlatformStatus::Success),
        "The operation completed successfully."
    );
    assert_eq!(
        status_to_text(PlatformStatus::NotFound),
        "The requested resource could not be found."
    );
    assert_eq!(
        status_to_text(PlatformStatus::OutOfResources),
        "The system has run out of resources."
    );
    assert_eq!(
        status_to_text(PlatformStatus::Unknown),
        "An unknown system error has occurred."
    );
}
