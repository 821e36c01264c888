//! The initializer's decisions: which plugins the builder gets, what the
//! one-shot setup callback returns, and how the bootstrap advances from an
//! assembled builder to a running event loop or a fatal abort.

use crate::level::LogLevel;
use vstd::prelude::*;

verus! {

/// What the initializer attaches to the application builder before handing
/// control to the host runtime.
#[derive(Clone, Copy, Debug)]
pub struct BootPlan {
    /// `Some(max)` when a logger capped at severity `max` is attached during
    /// the setup callback; `None` when no logger is attached by this shell.
    pub logger: Option<LogLevel>,
    /// Whether the deep-link handler is attached to the builder.
    pub deep_link: bool,
}

/// The plan for a given build mode: a logger at informational verbosity in
/// debug builds only, and the deep-link handler in every build.
pub open spec fn spec_plan(debug_build: bool) -> BootPlan {
    BootPlan {
        logger: if debug_build {
            Some(LogLevel::Info)
        } else {
            None
        },
        deep_link: true,
    }
}

/// Decide what to attach for the given build mode.
pub fn plan_for_build(debug_build: bool) -> (p: BootPlan)
    ensures
        p == spec_plan(debug_build),
{
    BootPlan {
        logger: if debug_build {
            Some(LogLevel::Info)
        } else {
            None
        },
        deep_link: true,
    }
}

/// Whether a record at `level` would be reported under `plan`: a logger must
/// have been attached, and the record must be no finer than its cap.
pub open spec fn spec_emitted(plan: BootPlan, level: LogLevel) -> bool {
    plan.logger matches Some(max) && crate::level::record_passes(level, max)
}

/// Whether a record at `level` is reported by the logger that `plan`
/// attaches, if any.
pub fn emits(plan: &BootPlan, level: LogLevel) -> (r: bool)
    ensures
        r == spec_emitted(*plan, level),
{
    match plan.logger {
        Some(max) => level.passes(max),
        None => false,
    }
}

/// Why the one-shot setup callback refused to let startup proceed.
#[derive(Clone, Copy, Debug, PartialEq, Eq, Structural)]
pub enum SetupError {
    /// The host runtime rejected the logger plugin.
    LoggerRejected,
}

/// The result the setup callback hands back to the host runtime, given the
/// outcome of the only fallible step it performs. `attached` is `None` when
/// no logger was planned, and otherwise records whether the runtime accepted
/// the logger plugin.
pub open spec fn spec_setup_outcome(attached: Option<bool>) -> Result<(), SetupError> {
    if attached == Some(false) {
        Err(SetupError::LoggerRejected)
    } else {
        Ok(())
    }
}

/// Decide the result of the setup callback: a rejected logger is propagated
/// out, aborting startup; otherwise setup succeeds.
pub fn setup_outcome(attached: Option<bool>) -> (r: Result<(), SetupError>)
    ensures
        r == spec_setup_outcome(attached),
        r is Err <==> attached == Some(false),
{
    match attached {
        Some(false) => Err(SetupError::LoggerRejected),
        _ => Ok(()),
    }
}

/// How far the bootstrap has advanced.
#[derive(Clone, Copy, Debug, PartialEq, Eq, Structural)]
pub enum Phase {
    /// The builder is assembled with the planned plugins; the runtime has
    /// not started dispatching yet.
    Configured,
    /// The event loop is dispatching.
    Running,
    /// The event loop ended normally.
    Exited,
    /// Startup failed; the process terminates with a fatal message.
    Aborted,
}

/// What the host runtime reports back while the launcher drives it.
#[derive(Clone, Copy, Debug, PartialEq, Eq, Structural)]
pub enum BootEvent {
    /// The setup callback returned successfully.
    SetupSucceeded,
    /// The setup callback propagated an error.
    SetupFailed,
    /// The declarative configuration could not be loaded, so no context
    /// could be generated.
    ContextMissing,
    /// The runtime's run step reported an error.
    RuntimeError,
    /// A deep-link activation was delivered to the running application.
    UrlDelivered,
    /// The event loop ended normally.
    MainLoopEnded,
}

/// How the bootstrap advances on each report from the runtime. The event
/// loop is entered only through a successful setup; a missing configuration,
/// a failed setup or a failing run step all abort startup; a delivered
/// deep link leaves the running application running; `Exited` and `Aborted`
/// are terminal.
pub open spec fn spec_step(phase: Phase, event: BootEvent) -> Phase {
    match phase {
        Phase::Configured => match event {
            BootEvent::SetupSucceeded => Phase::Running,
            BootEvent::SetupFailed => Phase::Aborted,
            BootEvent::ContextMissing => Phase::Aborted,
            BootEvent::RuntimeError => Phase::Aborted,
            _ => Phase::Configured,
        },
        Phase::Running => match event {
            BootEvent::UrlDelivered => Phase::Running,
            BootEvent::MainLoopEnded => Phase::Exited,
            BootEvent::RuntimeError => Phase::Aborted,
            _ => Phase::Running,
        },
        Phase::Exited => Phase::Exited,
        Phase::Aborted => Phase::Aborted,
    }
}

/// Advance the bootstrap on a report from the runtime.
pub fn step(phase: Phase, event: BootEvent) -> (next: Phase)
    ensures
        next == spec_step(phase, event),
{
    match phase {
        Phase::Configured => match event {
            BootEvent::SetupSucceeded => Phase::Running,
            BootEvent::SetupFailed => Phase::Aborted,
            BootEvent::ContextMissing => Phase::Aborted,
            BootEvent::RuntimeError => Phase::Aborted,
            _ => Phase::Configured,
        },
        Phase::Running => match event {
            BootEvent::UrlDelivered => Phase::Running,
            BootEvent::MainLoopEnded => Phase::Exited,
            BootEvent::RuntimeError => Phase::Aborted,
            _ => Phase::Running,
        },
        Phase::Exited => Phase::Exited,
        Phase::Aborted => Phase::Aborted,
    }
}

/// The event that corresponds to what the setup callback returned.
pub fn setup_event(outcome: &Result<(), SetupError>) -> (e: BootEvent)
    ensures
        e == (if outcome is Ok {
            BootEvent::SetupSucceeded
        } else {
            BootEvent::SetupFailed
        }),
{
    match outcome {
        Ok(_) => BootEvent::SetupSucceeded,
        Err(_) => BootEvent::SetupFailed,
    }
}

/// Whether the launcher must terminate the process with the fatal message.
pub fn must_abort(phase: Phase) -> (r: bool)
    ensures
        r == (phase is Aborted),
{
    match phase {
        Phase::Aborted => true,
        _ => false,
    }
}

/// The fatal message the launcher dies with when startup fails.
pub fn fatal_message() -> (m: &'static str)
    ensures
        m@ == "error while running tauri application"@,
{
    "error while running tauri application"
}

/// A release build attaches no logger, so no record at any level is
/// reported by this shell.
pub proof fn lemma_release_build_is_silent(debug_build: bool, level: LogLevel)
    requires
        !debug_build,
    ensures
        spec_plan(debug_build).logger is None,
        !spec_emitted(spec_plan(debug_build), level),
{
}

/// A debug build attaches a logger capped at the informational level, and
/// that logger reports exactly the records no finer than informational:
/// debug and trace records are dropped, warning and error records pass.
pub proof fn lemma_debug_logger_reports_info(level: LogLevel)
    ensures
        spec_plan(true).logger == Some(LogLevel::Info),
        spec_emitted(spec_plan(true), LogLevel::Info),
        spec_emitted(spec_plan(true), level) <==> level.rank() <= LogLevel::Info.rank(),
{
}

/// The deep-link handler is attached in every build mode, and a deep-link
/// activation delivered to the running application leaves it running.
pub proof fn lemma_deep_link_always_on(debug_build: bool)
    ensures
        spec_plan(debug_build).deep_link,
        spec_step(Phase::Running, BootEvent::UrlDelivered) is Running,
{
}

/// The event loop is entered only through a successful setup: from the
/// configured phase, no other event reaches the running phase.
pub proof fn lemma_main_loop_needs_setup(event: BootEvent)
    ensures
        spec_step(Phase::Configured, event) is Running <==> event is SetupSucceeded,
{
}

/// A missing declarative configuration aborts startup: no context can be
/// generated, and the bootstrap ends in the fatal phase, not the event loop.
pub proof fn lemma_missing_context_aborts()
    ensures
        spec_step(Phase::Configured, BootEvent::ContextMissing) is Aborted,
        !(spec_step(Phase::Configured, BootEvent::ContextMissing) is Running),
{
}

/// A rejected logger plugin fails the setup callback, and the failed setup
/// aborts startup, so the application never enters its main loop.
pub proof fn lemma_logger_failure_blocks_main_loop()
    ensures
        spec_setup_outcome(Some(false)) is Err,
        spec_step(Phase::Configured, BootEvent::SetupFailed) is Aborted,
        !(spec_step(Phase::Configured, BootEvent::SetupFailed) is Running),
{
}

/// The terminal phases absorb every event: once the bootstrap has exited or
/// aborted, no report from the runtime moves it.
pub proof fn lemma_terminal_phases_are_final(phase: Phase, event: BootEvent)
    requires
        phase is Exited || phase is Aborted,
    ensures
        spec_step(phase, event) == phase,
{
}

} // verus!
