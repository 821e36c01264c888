use izaj_desktop::bootstrap::{
    emits, fatal_message, must_abort, plan_for_build, setup_event, setup_outcome, step, BootEvent,
    Phase, SetupError,
};
use izaj_desktop::level::LogLevel;

fn all_levels() -> [LogLevel; 5] {
    [
        LogLevel::Error,
        LogLevel::Warn,
        LogLevel::Info,
        LogLevel::Debug,
        LogLevel::Trace,
    ]
}

fn all_events() -> [BootEvent; 6] {
    [
        BootEvent::SetupSucceeded,
        BootEvent::SetupFailed,
        BootEvent::ContextMissing,
        BootEvent::RuntimeError,
        BootEvent::UrlDelivered,
        BootEvent::MainLoopEnded,
    ]
}

#[test]
fn debug_build_attaches_info_logger() {
    let plan = plan_for_build(true);
    assert_eq!(plan.logger, Some(LogLevel::Info));
    assert!(plan.deep_link);
    assert!(emits(&plan, LogLevel::Info));
}

#[test]
fn release_build_attaches_no_logger() {
    let plan = plan_for_build(false);
    assert_eq!(plan.logger, None);
    assert!(plan.deep_link);
    for level in all_levels() {
        assert!(!emits(&plan, level));
    }
}

#[test]
fn info_cap_drops_finer_records_and_passes_coarser_ones() {
    let plan = plan_for_build(true);
    assert!(emits(&plan, LogLevel::Error));
    assert!(emits(&plan, LogLevel::Warn));
    assert!(emits(&plan, LogLevel::Info));
    assert!(!emits(&plan, LogLevel::Debug));
    assert!(!emits(&plan, LogLevel::Trace));
}

#[test]
fn level_ranks_are_ordered_coarsest_first() {
    for (i, level) in all_levels().iter().enumerate() {
        assert_eq!(level.as_rank() as usize, i);
        assert!(level.passes(*level));
    }
    assert!(LogLevel::Error.passes(LogLevel::Trace));
    assert!(!LogLevel::Trace.passes(LogLevel::Error));
}

#[test]
fn url_delivery_keeps_the_app_running() {
    assert_eq!(step(Phase::Running, BootEvent::UrlDelivered), Phase::Running);
}

#[test]
fn missing_configuration_aborts_startup() {
    let next = step(Phase::Configured, BootEvent::ContextMissing);
    assert_eq!(next, Phase::Aborted);
    assert!(must_abort(next));
}

#[test]
fn rejected_logger_fails_setup_and_blocks_the_main_loop() {
    let outcome = setup_outcome(Some(false));
    assert_eq!(outcome, Err(SetupError::LoggerRejected));
    let event = setup_event(&outcome);
    assert_eq!(event, BootEvent::SetupFailed);
    let next = step(Phase::Configured, event);
    assert_eq!(next, Phase::Aborted);
    assert_ne!(next, Phase::Running);
    assert!(must_abort(next));
}

#[test]
fn accepted_logger_lets_setup_succeed() {
    let outcome = setup_outcome(Some(true));
    assert_eq!(outcome, Ok(()));
    assert_eq!(setup_event(&outcome), BootEvent::SetupSucceeded);
}

#[test]
fn setup_without_a_logger_succeeds() {
    let outcome = setup_outcome(None);
    assert_eq!(outcome, Ok(()));
}

#[test]
fn only_a_successful_setup_enters_the_main_loop() {
    for event in all_events() {
        let next = step(Phase::Configured, event);
        if event == BootEvent::SetupSucceeded {
            assert_eq!(next, Phase::Running);
        } else {
            assert_ne!(next, Phase::Running);
        }
    }
}

#[test]
fn normal_exit_leaves_the_event_loop() {
    let next = step(Phase::Running, BootEvent::MainLoopEnded);
    assert_eq!(next, Phase::Exited);
    assert!(!must_abort(next));
}

#[test]
fn runtime_error_while_running_is_fatal() {
    let next = step(Phase::Running, BootEvent::RuntimeError);
    assert_eq!(next, Phase::Aborted);
    assert!(must_abort(next));
}

#[test]
fn terminal_phases_ignore_every_event() {
    for event in all_events() {
        assert_eq!(step(Phase::Exited, event), Phase::Exited);
        assert_eq!(step(Phase::Aborted, event), Phase::Aborted);
    }
}

#[test]
fn fatal_message_names_the_framework() {
    assert_eq!(fatal_message(), "error while running tauri application");
}
