//! The load-and-run orchestrator: the decisions of one image execution,
//! from the bytes read off storage through the trust gate to the platform's
//! image-loading and image-starting facilities, with the strict and
//! non-strict failure policies.
//!
//! The orchestrator itself performs no I/O. A platform-facing caller drives
//! an [`Execution`] by performing each returned action — read the file, load
//! the payload, start the image — and handing the outcome back as the next
//! event.

use vstd::prelude::*;
use crate::container::ElfContext;
use crate::gate::{elf_to_pe, spec_verify, ElfError};
use crate::status::PlatformStatus;

verus! {

/// How one execution attempt ended short of a running image, or that the
/// started image handed control back (`Finished`).
#[derive(Clone, Copy, Debug, PartialEq, Eq, Structural)]
pub enum ExecBinaryError {
    /// The image ran to completion and returned control.
    Finished,
    /// The bytes are not a valid program for the expected context, or the
    /// platform refused the image as unsupported.
    Unsupported,
    /// Storage signalled resource exhaustion while reading.
    OutOfMemory,
    /// No file exists at the requested path.
    NotFound,
    /// The started image failed with the carried platform status.
    Runtime(PlatformStatus),
    /// The platform failed to load the image with the carried status.
    Load(PlatformStatus),
    /// Reading failed with the carried platform status.
    ReadIO(PlatformStatus),
    /// Reading failed before any platform status was produced, for the
    /// carried cause.
    ReadFS(FsCause),
}

/// A filesystem failure that the storage collaborator reports without a
/// platform status.
#[derive(Clone, Copy, Debug, PartialEq, Eq, Structural)]
pub enum FsCause {
    /// The path could not be represented for the platform.
    InvalidPath,
    /// File content was not in the expected encoding.
    InvalidEncoding,
}

/// The diagnostic category under which a strict execution halts the system.
#[derive(Clone, Copy, Debug, PartialEq, Eq, Structural)]
pub enum HaltReason {
    /// A process that must never return has died or could not run.
    CriticalProcessDied,
    /// The image is not a valid program for the expected context.
    BoundImageUnsupported,
    /// The image file could not be found.
    FileInitializationFailed,
    /// Storage ran out of resources.
    MemoryManagement,
}

/// Whether a classified failure is returned to the caller or escalated to a
/// system halt.
#[derive(Clone, Copy, Debug, PartialEq, Eq, Structural)]
pub enum Disposition {
    Return(ExecBinaryError),
    Halt(HaltReason),
}

/// What the platform's storage collaborator reported for a read request.
pub enum ReadOutcome {
    /// The file's bytes.
    Data(Vec<u8>),
    /// An I/O failure with its platform status.
    Io(PlatformStatus),
    /// A filesystem failure that carries no platform status, with its cause.
    Fs(FsCause),
}

/// The classification of a read outcome: a read failure is mapped to its
/// typed error, and bytes that were read are passed through the trust gate,
/// whose every rejection collapses to `Unsupported`.
pub open spec fn spec_classify_read(
    outcome: ReadOutcome,
    expected: ElfContext,
) -> Result<Seq<u8>, ExecBinaryError> {
    match outcome {
        ReadOutcome::Data(data) => match spec_verify(data@, expected) {
            Ok(payload) => Ok(payload),
            Err(_) => Err(ExecBinaryError::Unsupported),
        },
        ReadOutcome::Io(status) => match status {
            PlatformStatus::NotFound => Err(ExecBinaryError::NotFound),
            PlatformStatus::OutOfResources => Err(ExecBinaryError::OutOfMemory),
            _ => Err(ExecBinaryError::ReadIO(status)),
        },
        ReadOutcome::Fs(cause) => Err(ExecBinaryError::ReadFS(cause)),
    }
}

/// The classification of a load outcome: an `Unsupported` status means the
/// platform refused the image format, any other failure is a load failure.
pub open spec fn spec_classify_load(
    outcome: Result<(), PlatformStatus>,
) -> Result<(), ExecBinaryError> {
    match outcome {
        Ok(_) => Ok(()),
        Err(status) => match status {
            PlatformStatus::Unsupported => Err(ExecBinaryError::Unsupported),
            _ => Err(ExecBinaryError::Load(status)),
        },
    }
}

/// The classification of a start outcome: a normal return means the image
/// finished, an `Unsupported` status means the platform refused to start it,
/// any other failure is a runtime failure.
pub open spec fn spec_classify_start(outcome: Result<(), PlatformStatus>) -> ExecBinaryError {
    match outcome {
        Ok(_) => ExecBinaryError::Finished,
        Err(status) => match status {
            PlatformStatus::Unsupported => ExecBinaryError::Unsupported,
            _ => ExecBinaryError::Runtime(status),
        },
    }
}

/// The halt category of each terminal error.
pub open spec fn spec_halt_reason(e: ExecBinaryError) -> HaltReason {
    match e {
        ExecBinaryError::NotFound => HaltReason::FileInitializationFailed,
        ExecBinaryError::OutOfMemory => HaltReason::MemoryManagement,
        ExecBinaryError::Unsupported => HaltReason::BoundImageUnsupported,
        _ => HaltReason::CriticalProcessDied,
    }
}

/// The strict/non-strict policy: a strict execution escalates every terminal
/// error — a clean `Finished` return included, since a strict caller's image
/// must never hand control back — to a system halt; a non-strict execution
/// returns it as a value.
pub open spec fn spec_escalate(e: ExecBinaryError, strict: bool) -> Disposition {
    if strict {
        Disposition::Halt(spec_halt_reason(e))
    } else {
        Disposition::Return(e)
    }
}

/// Classifies a read outcome and gates the bytes that were read, as
/// [`spec_classify_read`] states.
pub fn classify_read(outcome: ReadOutcome, expected: ElfContext) -> (r: Result<
    Vec<u8>,
    ExecBinaryError,
>)
    ensures
        ({
            let s = spec_classify_read(outcome, expected);
            &&& r is Ok <==> s is Ok
            &&& r is Ok ==> r->Ok_0@ == s->Ok_0
            &&& r is Err ==> r->Err_0 == s->Err_0
        }),
{
    match outcome {
        ReadOutcome::Data(data) => match elf_to_pe(data.as_slice(), expected) {
            Ok(payload) => Ok(payload),
            Err(_) => Err(ExecBinaryError::Unsupported),
        },
        ReadOutcome::Io(status) => match status {
            PlatformStatus::NotFound => Err(ExecBinaryError::NotFound),
            PlatformStatus::OutOfResources => Err(ExecBinaryError::OutOfMemory),
            _ => Err(ExecBinaryError::ReadIO(status)),
        },
        ReadOutcome::Fs(cause) => Err(ExecBinaryError::ReadFS(cause)),
    }
}

/// Classifies a load outcome, as [`spec_classify_load`] states.
pub fn classify_load(outcome: Result<(), PlatformStatus>) -> (r: Result<(), ExecBinaryError>)
    ensures
        r == spec_classify_load(outcome),
{
    match outcome {
        Ok(_) => Ok(()),
        Err(status) => match status {
            PlatformStatus::Unsupported => Err(ExecBinaryError::Unsupported),
            _ => Err(ExecBinaryError::Load(status)),
        },
    }
}

/// Classifies a start outcome, as [`spec_classify_start`] states.
pub fn classify_start(outcome: Result<(), PlatformStatus>) -> (r: ExecBinaryError)
    ensures
        r == spec_classify_start(outcome),
{
    match outcome {
        Ok(_) => ExecBinaryError::Finished,
        Err(status) => match status {
            PlatformStatus::Unsupported => ExecBinaryError::Unsupported,
            _ => ExecBinaryError::Runtime(status),
        },
    }
}

/// Applies the strict/non-strict policy to a terminal error, as
/// [`spec_escalate`] states.
pub fn escalate(e: ExecBinaryError, strict: bool) -> (r: Disposition)
    ensures
        r == spec_escalate(e, strict),
{
    if strict {
        let reason = match e {
            ExecBinaryError::NotFound => HaltReason::FileInitializationFailed,
            ExecBinaryError::OutOfMemory => HaltReason::MemoryManagement,
            ExecBinaryError::Unsupported => HaltReason::BoundImageUnsupported,
            _ => HaltReason::CriticalProcessDied,
        };
        Disposition::Halt(reason)
    } else {
        Disposition::Return(e)
    }
}

/// Where an execution stands: each phase names the event it waits for.
#[derive(Clone, Copy, Debug, PartialEq, Eq, Structural)]
pub enum ExecPhase {
    /// Waiting for the file's bytes.
    Reading,
    /// The payload verified; waiting for the platform to load it.
    Loading,
    /// The image is loaded; waiting for the platform to start it.
    Starting,
    /// A terminal action has been issued.
    Done,
}

/// What the platform-facing caller must do next.
pub enum ExecAction {
    /// Read the image file and report the outcome.
    DoRead,
    /// Hand these payload bytes to the platform's image loader and report
    /// the outcome.
    DoLoad(Vec<u8>),
    /// Start the loaded image and report the outcome.
    DoStart,
    /// Terminal, non-strict: hand this error to the caller.
    Return(ExecBinaryError),
    /// Terminal, strict: halt the system under this diagnostic category.
    Halt(HaltReason),
}

/// Whether a terminal action carries out a disposition.
pub open spec fn spec_action_for(a: ExecAction, d: Disposition) -> bool {
    match d {
        Disposition::Return(e) => a matches ExecAction::Return(e2) && e2 == e,
        Disposition::Halt(h) => a matches ExecAction::Halt(h2) && h2 == h,
    }
}

/// One image execution: `Start -> Reading -> {ReadFailed | Loading} ->
/// {LoadFailed | Starting} -> {StartFailed | Started}`, with every failure
/// state folded into `Done` through the strict/non-strict policy.
pub struct Execution {
    /// The context the image must have been built for.
    pub expected_context: ElfContext,
    /// Whether failures halt the system instead of being returned.
    pub strict: bool,
    /// The phase the execution is in.
    pub phase: ExecPhase,
}

impl Execution {
    /// Starts an execution attempt; the first action is to read the file.
    pub fn begin(expected_context: ElfContext, strict: bool) -> (r: (Execution, ExecAction))
        ensures
            r.0.expected_context == expected_context,
            r.0.strict == strict,
            r.0.phase is Reading,
            r.1 is DoRead,
    {
        (
            Execution { expected_context, strict, phase: ExecPhase::Reading },
            ExecAction::DoRead,
        )
    }

    /// Takes the outcome of the read: bytes that pass the trust gate move
    /// the execution on to loading, every failure is terminal.
    pub fn on_read(&mut self, outcome: ReadOutcome) -> (a: ExecAction)
        requires
            old(self).phase is Reading,
        ensures
            final(self).expected_context == old(self).expected_context,
            final(self).strict == old(self).strict,
            match spec_classify_read(outcome, old(self).expected_context) {
                Ok(payload) => {
                    &&& final(self).phase is Loading
                    &&& a matches ExecAction::DoLoad(v) && v@ == payload
                },
                Err(e) => {
                    &&& final(self).phase is Done
                    &&& spec_action_for(a, spec_escalate(e, old(self).strict))
                },
            },
    {
        match classify_read(outcome, self.expected_context) {
            Ok(payload) => {
                self.phase = ExecPhase::Loading;
                ExecAction::DoLoad(payload)
            },
            Err(e) => {
                self.phase = ExecPhase::Done;
                match escalate(e, self.strict) {
                    Disposition::Return(e2) => ExecAction::Return(e2),
                    Disposition::Halt(h) => ExecAction::Halt(h),
                }
            },
        }
    }

    /// Takes the outcome of the load: success moves the execution on to
    /// starting, every failure is terminal.
    pub fn on_load(&mut self, outcome: Result<(), PlatformStatus>) -> (a: ExecAction)
        requires
            old(self).phase is Loading,
        ensures
            final(self).expected_context == old(self).expected_context,
            final(self).strict == old(self).strict,
            match spec_classify_load(outcome) {
                Ok(_) => final(self).phase is Starting && a is DoStart,
                Err(e) => {
                    &&& final(self).phase is Done
                    &&& spec_action_for(a, spec_escalate(e, old(self).strict))
                },
            },
    {
        match classify_load(outcome) {
            Ok(_) => {
                self.phase = ExecPhase::Starting;
                ExecAction::DoStart
            },
            Err(e) => {
                self.phase = ExecPhase::Done;
                match escalate(e, self.strict) {
                    Disposition::Return(e2) => ExecAction::Return(e2),
                    Disposition::Halt(h) => ExecAction::Halt(h),
                }
            },
        }
    }

    /// Takes the outcome of the start. Every outcome is terminal — a normal
    /// return included, which classifies as `Finished` and which strict
    /// executions escalate like any failure.
    pub fn on_start(&mut self, outcome: Result<(), PlatformStatus>) -> (a: ExecAction)
        requires
            old(self).phase is Starting,
        ensures
            final(self).expected_context == old(self).expected_context,
            final(self).strict == old(self).strict,
            final(self).phase is Done,
            spec_action_for(a, spec_escalate(spec_classify_start(outcome), old(self).strict)),
    {
        let e = classify_start(outcome);
        self.phase = ExecPhase::Done;
        match escalate(e, self.strict) {
            Disposition::Return(e2) => ExecAction::Return(e2),
            Disposition::Halt(h) => ExecAction::Halt(h),
        }
    }
}

} // verus!
