//! The external status-token vocabulary and the error taxonomy.

use pvm_harness::api::{Error, Status};

#[test]
fn terminal_statuses_round_trip_through_their_tokens() {
    let terminal = [
        (Status::Halt, "halt"),
        (Status::Trap, "trap"),
        (Status::Fault, "fault"),
        (Status::Host, "host"),
        (Status::OutOfGas, "out-of-gas"),
    ];
    for (status, token) in terminal {
        assert_eq!(status.token(), token);
        assert_eq!(Status::from_token(token), status);
    }
}

#[test]
fn terminal_tokens_are_pairwise_distinct() {
    let tokens = [
        Status::Halt.token(),
        Status::Trap.token(),
        Status::Fault.token(),
        Status::Host.token(),
        Status::OutOfGas.token(),
    ];
    for i in 0..tokens.len() {
        for j in 0..tokens.len() {
            if i != j {
                assert_ne!(tokens[i], tokens[j]);
            }
        }
    }
}

#[test]
fn unrecognized_tokens_map_to_trap() {
    assert_eq!(Status::from_token(""), Status::Trap);
    assert_eq!(Status::from_token("HALT"), Status::Trap);
    assert_eq!(Status::from_token("panic"), Status::Trap);
    assert_eq!(Status::from_token("out_of_gas"), Status::Trap);
    // The internal step sentinel is outside the external vocabulary.
    assert_eq!(Status::from_token("ok"), Status::Trap);
}

#[test]
fn step_sentinel_never_round_trips() {
    assert_eq!(Status::Step.token(), "ok");
    assert_ne!(Status::from_token(&Status::Step.token()), Status::Step);
}

#[test]
fn error_descriptions_name_each_variant() {
    assert_eq!(Error::InvalidProgram.describe(), "invalid program");
    assert_eq!(Error::UnsupportedContainer.describe(), "unsupported container");
    assert_eq!(
        Error::Other("zero backends".to_string()).describe(),
        "Other: zero backends"
    );
    let wrapped = Error::wrap("broken pipe".to_string());
    assert_eq!(wrapped.describe(), "broken pipe");
    assert!(matches!(wrapped, Error::Wrap(_)));
}
