//! Loop-level decisions and the lifecycle of the engine's OS-visible side
//! effects.
//!
//! The engine runs a single blocking read/distribute loop. Each iteration it
//! polls a cooperative cancellation flag, reads from the physical device, and
//! either exits, pauses briefly (zero-byte read or read error — both
//! recoverable by design), or forwards the chunk to both endpoints. The only
//! fatal condition is failing to open the physical device before the loop
//! starts; every error inside the loop is absorbed.
//!
//! `EngineLifecycle` tracks the side effects the process must undo: the two
//! filesystem aliases pointing at the consumer-facing endpoint paths. Its
//! well-formedness invariant guarantees that a finished engine — clean or
//! fatal — has no alias left behind, and that a fatal open failure happened
//! before any endpoint was allocated.

use vstd::prelude::*;

verus! {

/// The engine's terminal status, as surfaced through the process exit code.
#[derive(Clone, Copy, Debug, PartialEq, Eq, Structural)]
pub enum ExitStatus {
    /// The loop ran and was cancelled cooperatively.
    CleanShutdown,
    /// The physical device could not be opened; the loop never started.
    OpenFailed,
}

/// The process exit code for a terminal status: 0 for a clean shutdown, 1
/// when the device could not be opened. No other condition reaches the exit
/// code; everything else is internally recovered.
pub open spec fn spec_exit_code(status: ExitStatus) -> i32 {
    match status {
        ExitStatus::CleanShutdown => 0,
        ExitStatus::OpenFailed => 1,
    }
}

/// Translates the engine's terminal status into the process exit code.
pub fn exit_code(status: &ExitStatus) -> (r: i32)
    ensures
        r == spec_exit_code(*status),
{
    match status {
        ExitStatus::CleanShutdown => 0,
        ExitStatus::OpenFailed => 1,
    }
}

/// What one blocking read from the physical device came back with.
#[derive(Clone, Copy, Debug, PartialEq, Eq, Structural)]
pub enum ReadOutcome {
    /// The device returned bytes.
    Data { len: usize },
    /// Logical end-of-file: a transient condition, not success.
    Eof,
    /// The read failed; the device is assumed to recover.
    ReadError,
}

/// What the loop does next after one read.
#[derive(Clone, Copy, Debug, PartialEq, Eq, Structural)]
pub enum IterationAction {
    /// Leave the loop and report a clean shutdown.
    Exit,
    /// Sleep the anti-hotloop delay, then retry the read.
    SleepRetry,
    /// Offer the first `len` buffered bytes to both endpoints.
    Forward { len: usize },
}

/// The loop decision: cancellation wins over everything; a zero-byte read and
/// a read error both pause and retry, never terminate; data is forwarded.
pub open spec fn spec_iteration_action(cancelled: bool, outcome: ReadOutcome) -> IterationAction {
    if cancelled {
        IterationAction::Exit
    } else {
        match outcome {
            ReadOutcome::Data { len } => if len == 0 {
                IterationAction::SleepRetry
            } else {
                IterationAction::Forward { len }
            },
            ReadOutcome::Eof => IterationAction::SleepRetry,
            ReadOutcome::ReadError => IterationAction::SleepRetry,
        }
    }
}

/// Decides one loop iteration from the cancellation flag (as polled at the
/// iteration boundary) and the outcome of the blocking read.
pub fn iteration_action(cancelled: bool, outcome: &ReadOutcome) -> (a: IterationAction)
    ensures
        a == spec_iteration_action(cancelled, *outcome),
{
    if cancelled {
        IterationAction::Exit
    } else {
        match outcome {
            ReadOutcome::Data { len } => if *len == 0 {
                IterationAction::SleepRetry
            } else {
                IterationAction::Forward { len: *len }
            },
            ReadOutcome::Eof => IterationAction::SleepRetry,
            ReadOutcome::ReadError => IterationAction::SleepRetry,
        }
    }
}

/// Cancellation latency: once the flag is seen set at an iteration boundary,
/// the decision is to exit — whatever the read returned — and the run reports
/// the clean status, whose exit code is 0. The flag is polled once per
/// iteration and the only suspension is the blocking read, bounded by the
/// device read timeout, so the loop exits within one read-timeout interval of
/// the request.
pub proof fn lemma_cancellation_exits(outcome: ReadOutcome)
    ensures
        spec_iteration_action(true, outcome) == IterationAction::Exit,
        spec_exit_code(ExitStatus::CleanShutdown) == 0,
{
}

/// The state of one filesystem alias over the engine's life.
#[derive(Clone, Copy, Debug, PartialEq, Eq, Structural)]
pub enum AliasStatus {
    /// Never created — either not reached yet, or creation failed (which is
    /// logged and non-fatal: the engine proceeds with a missing alias).
    Absent,
    /// Created and currently present on the filesystem.
    Created,
    /// Created and then removed at teardown.
    Removed,
}

/// Where the engine stands in its life.
#[derive(Clone, Copy, Debug, PartialEq, Eq, Structural)]
pub enum EnginePhase {
    /// Opening the device, allocating endpoints, creating aliases.
    Starting,
    /// Inside the read/distribute loop.
    Running,
    /// Cancelled cooperatively, aliases torn down.
    FinishedClean,
    /// The device could not be opened; nothing was allocated.
    FinishedFatal,
}

/// The engine's lifecycle: which OS-visible side effects exist at each point,
/// and the obligation to undo them. The configuration surface is the plain
/// parameter set the excluded command-line layer hands over.
pub struct EngineLifecycle {
    pub phase: EnginePhase,
    /// Whether the two virtual endpoint pairs have been allocated.
    pub endpoints_allocated: bool,
    pub alias0: AliasStatus,
    pub alias1: AliasStatus,
}

impl EngineLifecycle {
    /// Well-formedness, established at start and preserved by every
    /// transition: a finished engine has no alias still on the filesystem,
    /// and a fatal open failure precedes any allocation or alias creation.
    pub open spec fn wf(self) -> bool {
        &&& (self.phase is Starting && !self.endpoints_allocated ==> self.alias0 is Absent
            && self.alias1 is Absent)
        &&& (self.phase is Running ==> self.endpoints_allocated)
        &&& (self.phase is FinishedClean ==> !(self.alias0 is Created) && !(self.alias1
            is Created))
        &&& (self.phase is FinishedFatal ==> !self.endpoints_allocated && self.alias0 is Absent
            && self.alias1 is Absent)
    }

    /// A fresh engine: nothing opened, nothing allocated, no alias.
    pub fn start() -> (e: EngineLifecycle)
        ensures
            e.phase is Starting,
            !e.endpoints_allocated,
            e.alias0 is Absent,
            e.alias1 is Absent,
            e.wf(),
    {
        EngineLifecycle {
            phase: EnginePhase::Starting,
            endpoints_allocated: false,
            alias0: AliasStatus::Absent,
            alias1: AliasStatus::Absent,
        }
    }

    /// The physical device could not be opened (or exclusive access or the
    /// read timeout could not be established): the engine never enters the
    /// loop and finishes with the fatal status, having allocated no endpoint
    /// and created no alias.
    pub fn fail_open(&mut self)
        requires
            old(self).phase is Starting,
            !old(self).endpoints_allocated,
            old(self).wf(),
        ensures
            final(self).phase is FinishedFatal,
            !final(self).endpoints_allocated,
            final(self).alias0 is Absent,
            final(self).alias1 is Absent,
            final(self).wf(),
    {
        self.phase = EnginePhase::FinishedFatal;
    }

    /// Both virtual endpoint pairs were allocated. Allocation failure is
    /// fatal to the whole process (without both endpoints the fan-out
    /// contract cannot be met) and panics before this is recorded, so it has
    /// no transition here.
    pub fn allocate_endpoints(&mut self)
        requires
            old(self).phase is Starting,
            !old(self).endpoints_allocated,
            old(self).wf(),
        ensures
            final(self).phase is Starting,
            final(self).endpoints_allocated,
            final(self).alias0 == old(self).alias0,
            final(self).alias1 == old(self).alias1,
            final(self).wf(),
    {
        self.endpoints_allocated = true;
    }

    /// The first alias was created at its configured path (after removing any
    /// pre-existing entry there, absence ignored) — or creation failed, which
    /// is logged and non-fatal: the engine proceeds with the alias absent.
    pub fn record_alias0_created(&mut self, success: bool)
        requires
            old(self).phase is Starting,
            old(self).endpoints_allocated,
            old(self).alias0 is Absent,
            old(self).wf(),
        ensures
            final(self).phase is Starting,
            final(self).endpoints_allocated,
            final(self).alias0 == (if success {
                AliasStatus::Created
            } else {
                AliasStatus::Absent
            }),
            final(self).alias1 == old(self).alias1,
            final(self).wf(),
    {
        if success {
            self.alias0 = AliasStatus::Created;
        }
    }

    /// The second alias was created, or its creation failed non-fatally.
    pub fn record_alias1_created(&mut self, success: bool)
        requires
            old(self).phase is Starting,
            old(self).endpoints_allocated,
            old(self).alias1 is Absent,
            old(self).wf(),
        ensures
            final(self).phase is Starting,
            final(self).endpoints_allocated,
            final(self).alias1 == (if success {
                AliasStatus::Created
            } else {
                AliasStatus::Absent
            }),
            final(self).alias0 == old(self).alias0,
            final(self).wf(),
    {
        if success {
            self.alias1 = AliasStatus::Created;
        }
    }

    /// The read/distribute loop begins. It needs both endpoints; a missing
    /// alias is an external concern and does not hold it back.
    pub fn begin_loop(&mut self)
        requires
            old(self).phase is Starting,
            old(self).endpoints_allocated,
            old(self).wf(),
        ensures
            final(self).phase is Running,
            final(self).endpoints_allocated,
            final(self).alias0 == old(self).alias0,
            final(self).alias1 == old(self).alias1,
            final(self).wf(),
    {
        self.phase = EnginePhase::Running;
    }

    /// Teardown of the first alias: removal is attempted unconditionally when
    /// the owning scope ends. Removing an alias that is unexpectedly already
    /// gone is an internal inconsistency the process treats as crash-worthy,
    /// so only a present alias can be removed here; the caller panics
    /// otherwise, as the cleanup contract demands.
    pub fn record_alias0_removed(&mut self)
        requires
            old(self).phase is Running,
            old(self).alias0 is Created,
            old(self).wf(),
        ensures
            final(self).phase is Running,
            final(self).alias0 is Removed,
            final(self).alias1 == old(self).alias1,
            final(self).endpoints_allocated == old(self).endpoints_allocated,
            final(self).wf(),
    {
        self.alias0 = AliasStatus::Removed;
    }

    /// Teardown of the second alias; see `record_alias0_removed`.
    pub fn record_alias1_removed(&mut self)
        requires
            old(self).phase is Running,
            old(self).alias1 is Created,
            old(self).wf(),
        ensures
            final(self).phase is Running,
            final(self).alias1 is Removed,
            final(self).alias0 == old(self).alias0,
            final(self).endpoints_allocated == old(self).endpoints_allocated,
            final(self).wf(),
    {
        self.alias1 = AliasStatus::Removed;
    }

    /// The loop was cancelled and both aliases are off the filesystem: the
    /// engine finishes clean. The virtual endpoints' OS resources are
    /// released with the owning scope; no explicit close is part of the
    /// contract.
    pub fn finish_clean(&mut self)
        requires
            old(self).phase is Running,
            !(old(self).alias0 is Created),
            !(old(self).alias1 is Created),
            old(self).wf(),
        ensures
            final(self).phase is FinishedClean,
            final(self).alias0 == old(self).alias0,
            final(self).alias1 == old(self).alias1,
            final(self).wf(),
    {
        self.phase = EnginePhase::FinishedClean;
    }

    /// The terminal status a finished engine reports.
    pub fn status(&self) -> (s: Option<ExitStatus>)
        ensures
            self.phase is FinishedClean ==> s == Some(ExitStatus::CleanShutdown),
            self.phase is FinishedFatal ==> s == Some(ExitStatus::OpenFailed),
            self.phase is Starting || self.phase is Running ==> s is None,
    {
        match self.phase {
            EnginePhase::FinishedClean => Some(ExitStatus::CleanShutdown),
            EnginePhase::FinishedFatal => Some(ExitStatus::OpenFailed),
            _ => None,
        }
    }
}

/// Alias lifecycle: however a run ends — clean shutdown after cancellation,
/// or a fatal open failure, with or without forwarding errors in between — a
/// finished, well-formed engine has no alias left on the filesystem.
pub proof fn lemma_no_alias_survives_shutdown(e: EngineLifecycle)
    requires
        e.wf(),
        e.phase is FinishedClean || e.phase is FinishedFatal,
    ensures
        !(e.alias0 is Created),
        !(e.alias1 is Created),
{
}

/// Fatal path: an engine that finished because the device could not be
/// opened allocated no endpoint and created no alias, and its exit code is 1.
pub proof fn lemma_fatal_open_allocates_nothing(e: EngineLifecycle)
    requires
        e.wf(),
        e.phase is FinishedFatal,
    ensures
        !e.endpoints_allocated,
        e.alias0 is Absent,
        e.alias1 is Absent,
        spec_exit_code(ExitStatus::OpenFailed) == 1,
{
}

} // verus!
