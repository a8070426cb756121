//! The runner's divergence-reporting merge policy, exercised through the
//! public runner API with subprocess backends driven by synthetic events.

use pvm_harness::api::collection::{Backend, DivergenceRecord, Operation, PvmApiCollection};
use pvm_harness::api::common::{ExchangeEvent, ResponseFields, RunEvent};
use pvm_harness::api::stdin::JsonStdin;
use pvm_harness::api::{Error, Status};

fn response(token: &str, gas: i64, pc: u32, registers: Vec<u64>) -> RunEvent {
    RunEvent::Exchange(ExchangeEvent::Response(ResponseFields {
        status_token: token.to_string(),
        registers,
        pc,
        gas,
    }))
}

fn two_stdin_runner() -> PvmApiCollection {
    let backends = vec![
        Backend::JsonStdin(JsonStdin::new()),
        Backend::JsonStdin(JsonStdin::new()),
    ];
    PvmApiCollection::new(backends).unwrap()
}

#[test]
fn equal_successes_merge_without_divergence() {
    let mut runner = two_stdin_runner();
    let events = vec![
        response("halt", 7, 3, vec![0u64; 13]),
        response("halt", 7, 3, vec![0u64; 13]),
    ];
    let status = runner.complete_run(&events).unwrap();
    assert_eq!(status, Status::Halt);
    assert_eq!(runner.divergences().len(), 0);
    assert_eq!(runner.gas(), 7);
    assert_eq!(runner.divergences().len(), 0);
}

#[test]
fn unequal_statuses_keep_reference_and_record_both_values() {
    let mut runner = two_stdin_runner();
    let events = vec![
        response("trap", 0, 0, vec![0u64; 13]),
        response("halt", 0, 0, vec![0u64; 13]),
    ];
    let status = runner.complete_run(&events).unwrap();
    assert_eq!(status, Status::Trap);
    let log = runner.divergences();
    assert_eq!(log.len(), 1);
    assert!(matches!(
        log[0],
        DivergenceRecord::StatusMismatch {
            operation: Operation::Run,
            left: Status::Trap,
            right: Status::Halt,
        }
    ));
}

#[test]
fn error_dominates_success_on_the_right() {
    let mut runner = two_stdin_runner();
    let events = vec![
        response("halt", 0, 0, vec![0u64; 13]),
        RunEvent::Exchange(ExchangeEvent::TransportFailure("pipe closed".to_string())),
    ];
    let result = runner.complete_run(&events);
    match result {
        Err(Error::Wrap(d)) => assert_eq!(d, "pipe closed"),
        other => panic!("expected a wrapped transport failure, got {:?}", other),
    }
    let log = runner.divergences();
    assert_eq!(log.len(), 1);
    assert!(matches!(
        log[0],
        DivergenceRecord::DroppedSuccess { operation: Operation::Run }
    ));
}

#[test]
fn error_dominates_success_on_the_left() {
    let mut runner = two_stdin_runner();
    let events = vec![
        RunEvent::Exchange(ExchangeEvent::TransportFailure("pipe closed".to_string())),
        response("halt", 0, 0, vec![0u64; 13]),
    ];
    let result = runner.complete_run(&events);
    match result {
        Err(Error::Wrap(d)) => assert_eq!(d, "pipe closed"),
        other => panic!("expected a wrapped transport failure, got {:?}", other),
    }
    let log = runner.divergences();
    assert_eq!(log.len(), 1);
    assert!(matches!(
        log[0],
        DivergenceRecord::DroppedSuccess { operation: Operation::Run }
    ));
}

#[test]
fn left_error_wins_when_both_fail() {
    let mut runner = two_stdin_runner();
    let events = vec![
        RunEvent::Exchange(ExchangeEvent::TransportFailure("first".to_string())),
        RunEvent::Exchange(ExchangeEvent::TransportFailure("second".to_string())),
    ];
    let result = runner.complete_run(&events);
    match result {
        Err(Error::Wrap(d)) => assert_eq!(d, "first"),
        other => panic!("expected the left failure, got {:?}", other),
    }
    let log = runner.divergences();
    assert_eq!(log.len(), 1);
    assert!(matches!(
        log[0],
        DivergenceRecord::DroppedError { operation: Operation::Run }
    ));
}

#[test]
fn gas_divergence_reports_reference_value_and_both_sides() {
    let mut runner = two_stdin_runner();
    let events = vec![
        response("halt", 990, 0, vec![0u64; 13]),
        response("halt", 985, 0, vec![0u64; 13]),
    ];
    runner.complete_run(&events).unwrap();
    assert_eq!(runner.divergences().len(), 0);
    assert_eq!(runner.gas(), 990);
    let log = runner.divergences();
    assert_eq!(log.len(), 1);
    assert!(matches!(
        log[0],
        DivergenceRecord::GasMismatch { operation: Operation::Gas, left: 990, right: 985 }
    ));
}

#[test]
fn register_divergence_is_recorded_once_with_both_files() {
    let mut runner = two_stdin_runner();
    let mut other = vec![0u64; 13];
    other[4] = 99;
    let events = vec![
        response("halt", 0, 0, vec![0u64; 13]),
        response("halt", 0, 0, other),
    ];
    runner.complete_run(&events).unwrap();
    let regs = runner.registers();
    assert_eq!(regs, [0u64; 13]);
    let log = runner.divergences();
    assert_eq!(log.len(), 1);
    match log[0] {
        DivergenceRecord::RegistersMismatch { operation, left, right } => {
            assert!(matches!(operation, Operation::Registers));
            assert_eq!(left, [0u64; 13]);
            assert_eq!(right[4], 99);
        }
        ref other => panic!("expected a registers mismatch, got {:?}", other),
    }
}

#[test]
fn program_counter_divergence_is_recorded() {
    let mut runner = two_stdin_runner();
    let events = vec![
        response("halt", 0, 8, vec![0u64; 13]),
        response("halt", 0, 12, vec![0u64; 13]),
    ];
    runner.complete_run(&events).unwrap();
    assert_eq!(runner.program_counter(), Some(8));
    let log = runner.divergences();
    assert_eq!(log.len(), 1);
    assert!(matches!(
        log[0],
        DivergenceRecord::ProgramCounterMismatch {
            operation: Operation::ProgramCounter,
            left: Some(8),
            right: Some(12),
        }
    ));
}

#[test]
fn zero_backends_are_rejected_at_construction() {
    let result = PvmApiCollection::new(Vec::new());
    match result {
        Err(Error::Other(d)) => assert_eq!(d, "no backends configured"),
        Err(other) => panic!("an empty runner must be rejected with a configuration error, got {:?}", other),
        Ok(_) => panic!("an empty runner must be rejected at construction"),
    }
}

#[test]
fn mismatched_event_count_is_rejected() {
    let mut runner = two_stdin_runner();
    let events = vec![response("halt", 0, 0, vec![0u64; 13])];
    let result = runner.complete_run(&events);
    assert!(matches!(result, Err(Error::Other(_))));
    assert_eq!(runner.divergences().len(), 0);
}

#[test]
fn unsupported_memory_operations_fail_explicitly() {
    let mut runner = two_stdin_runner();
    match runner.read_memory(0, 4) {
        Err(Error::Other(d)) => assert_eq!(d, "not supported"),
        other => panic!("read_memory must be explicitly unsupported, got {:?}", other),
    }
    match runner.write_memory(0, &[1, 2, 3]) {
        Err(Error::Other(d)) => assert_eq!(d, "not supported"),
        other => panic!("write_memory must be explicitly unsupported, got {:?}", other),
    }
    // Both backends failed: the left error wins and the right one is noted.
    let log = runner.divergences();
    assert_eq!(log.len(), 1);
    assert!(matches!(
        log[0],
        DivergenceRecord::DroppedError { operation: Operation::WriteMemory }
    ));
}

#[test]
fn clearing_the_divergence_log_empties_it() {
    let mut runner = two_stdin_runner();
    let events = vec![
        response("trap", 1, 0, vec![0u64; 13]),
        response("halt", 2, 0, vec![0u64; 13]),
    ];
    runner.complete_run(&events).unwrap();
    assert!(runner.divergences().len() > 0);
    runner.clear_divergences();
    assert_eq!(runner.divergences().len(), 0);
}
