use v8js::runtime::{
    heap_over_limit, monitor_limits, MemoryWatch, monitor_step, run_outcome, script_error_data,
    script_resource_name, thrown_outcome, Error, JsRuntimeState, MonitorAction, MonitorLimits,
    MonitorObservation, RunOutcome, ScriptExecutionErrorData, MONITOR_POLL_MILLIS,
};

fn observation(stop: bool, elapsed_ms: u128, terminating: bool, flagged: bool) -> MonitorObservation {
    MonitorObservation {
        stop_requested: stop,
        elapsed_nanos: elapsed_ms * 1_000_000,
        terminating,
        memory_limit_flagged: flagged,
    }
}

fn sample_error_data() -> ScriptExecutionErrorData {
    script_error_data(
        String::from("ReferenceError: foo is not defined"),
        String::from("test.js"),
        3,
        4,
        7,
        String::from("  foo();"),
    )
}

#[test]
fn runtime_execute_string() {
    // A script `true` that completes: its value comes back.
    let outcome = run_outcome(Some(true), false, false);
    assert!(matches!(outcome, RunOutcome::Completed(true)));
}

#[test]
fn completed_value_wins_over_limit_flags() {
    let outcome = run_outcome(Some(41), true, true);
    assert!(matches!(outcome, RunOutcome::Completed(41)));
}

#[test]
fn timeout_is_reported_before_memory_limit() {
    let outcome = run_outcome::<u8>(None, true, true);
    assert!(matches!(outcome, RunOutcome::Failed(Error::ExecutionTimeout)));
}

#[test]
fn memory_limit_is_reported() {
    let outcome = run_outcome::<u8>(None, false, true);
    assert!(matches!(outcome, RunOutcome::Failed(Error::MemoryLimitExceeded)));
}

#[test]
fn no_value_without_limit_is_a_throw() {
    let outcome = run_outcome::<u8>(None, false, false);
    assert!(matches!(outcome, RunOutcome::Threw));
}

#[test]
fn thrown_exception_with_text_is_a_script_error() {
    let data = sample_error_data();
    let result = thrown_outcome::<u8>(Some(data.clone()));
    assert_eq!(result, Err(Error::ScriptExecutionError(data)));
}

#[test]
fn thrown_exception_without_text_is_no_value() {
    let result = thrown_outcome::<u8>(None);
    assert_eq!(result, Ok(None));
}

#[test]
fn script_error_data_keeps_fields_and_empty_trace() {
    let data = sample_error_data();
    assert_eq!(data.message, "ReferenceError: foo is not defined");
    assert_eq!(data.file_name, "test.js");
    assert_eq!(data.line_number, 3);
    assert_eq!(data.start_column, 4);
    assert_eq!(data.end_column, 7);
    assert_eq!(data.source_line, "  foo();");
    assert_eq!(data.trace, "");
}

#[test]
fn resource_name_defaults() {
    assert_eq!(script_resource_name(None), "V8Js::executeString");
    assert_eq!(script_resource_name(Some(String::from("my.js"))), "my.js");
}

#[test]
fn monitor_only_with_a_limit() {
    assert_eq!(monitor_limits(None, None), None);
    assert_eq!(
        monitor_limits(Some(100), None),
        Some(MonitorLimits { time_limit_ms: 100, memory_limit_bytes: 0 })
    );
    assert_eq!(
        monitor_limits(None, Some(1 << 20)),
        Some(MonitorLimits { time_limit_ms: 0, memory_limit_bytes: 1 << 20 })
    );
    assert_eq!(
        monitor_limits(Some(0), Some(0)),
        Some(MonitorLimits { time_limit_ms: 0, memory_limit_bytes: 0 })
    );
}

#[test]
fn monitor_stops_when_asked() {
    let limits = MonitorLimits { time_limit_ms: 10, memory_limit_bytes: 10 };
    assert_eq!(monitor_step(&limits, &observation(true, 1000, false, true)), MonitorAction::Finish);
}

#[test]
fn monitor_terminates_after_time_limit() {
    let limits = MonitorLimits { time_limit_ms: 100, memory_limit_bytes: 0 };
    assert_eq!(
        monitor_step(&limits, &observation(false, 50, false, false)),
        MonitorAction::Wait { check_memory: false }
    );
    // exactly at the limit is not yet over it
    assert_eq!(
        monitor_step(&limits, &observation(false, 100, false, false)),
        MonitorAction::Wait { check_memory: false }
    );
    let over = MonitorObservation {
        stop_requested: false,
        elapsed_nanos: 100_000_001,
        terminating: false,
        memory_limit_flagged: false,
    };
    assert_eq!(monitor_step(&limits, &over), MonitorAction::TerminateForTime);
}

#[test]
fn monitor_does_not_terminate_twice() {
    let limits = MonitorLimits { time_limit_ms: 100, memory_limit_bytes: 0 };
    assert_eq!(
        monitor_step(&limits, &observation(false, 500, true, false)),
        MonitorAction::Wait { check_memory: false }
    );
}

#[test]
fn monitor_checks_memory() {
    let limits = MonitorLimits { time_limit_ms: 0, memory_limit_bytes: 1024 };
    assert_eq!(
        monitor_step(&limits, &observation(false, 5000, false, false)),
        MonitorAction::Wait { check_memory: true }
    );
    assert_eq!(
        monitor_step(&limits, &observation(false, 5000, false, true)),
        MonitorAction::TerminateForMemory
    );
}

#[test]
fn monitor_time_before_memory() {
    let limits = MonitorLimits { time_limit_ms: 1, memory_limit_bytes: 1024 };
    assert_eq!(
        monitor_step(&limits, &observation(false, 2, false, true)),
        MonitorAction::TerminateForTime
    );
}

#[test]
fn monitor_without_limits_only_waits() {
    let limits = MonitorLimits { time_limit_ms: 0, memory_limit_bytes: 0 };
    assert_eq!(
        monitor_step(&limits, &observation(false, 1_000_000, false, true)),
        MonitorAction::Wait { check_memory: false }
    );
    assert_eq!(MONITOR_POLL_MILLIS, 10);
}

#[test]
fn heap_check() {
    assert!(!heap_over_limit(1000, 1000));
    assert!(heap_over_limit(1001, 1000));
    assert!(!heap_over_limit(0, 0));
}

#[test]
fn runtime_state_bookkeeping() {
    let mut state: JsRuntimeState<u32, u64> = JsRuntimeState::new();
    assert!(state.commonjs_module_loader.is_none());
    state.add_callback(String::from("f"), 1);
    state.add_callback(String::from("f"), 2);
    assert_eq!(state.callbacks.get(&String::from("f")), Some(&2));
    assert_eq!(state.callbacks.len(), 1);
    state.set_module_loader(9);
    assert_eq!(state.commonjs_module_loader, Some(9));
    state.cache_module(String::from("m"), 77);
    assert_eq!(state.commonjs_modules.get(&String::from("m")), Some(&77));
}

#[test]
fn memory_watch_is_per_run() {
    let mut first = MemoryWatch::new(100);
    assert!(!first.flagged());
    first.record_heap_check(50);
    assert!(!first.flagged());
    first.record_heap_check(101);
    assert!(first.flagged());
    first.record_heap_check(10);
    assert!(first.flagged());
    let second = MemoryWatch::new(100);
    assert!(!second.flagged());
}
