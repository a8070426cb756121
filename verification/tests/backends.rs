//! The two backend variants, the container rules, and the end-to-end
//! driver flow over the runner; plus the backend descriptor mini-language.

use pvm_harness::api::collection::{Backend, PvmApiCollection};
use pvm_harness::api::common::{
    EngineEvent, EngineInterrupt, EngineMode, ExchangeEvent, ResponseFields, RunAction, RunEvent,
};
use pvm_harness::api::polkavm::PolkaVm;
use pvm_harness::api::stdin::JsonStdin;
use pvm_harness::api::{Error, ProgramContainer, PvmApi, Status};
use pvm_harness::config::{Config, Pvm};

fn engine_request(backend: &PolkaVm) -> (EngineMode, Vec<u8>, i64, u32, [u64; 13]) {
    match backend.prepare_run().unwrap() {
        RunAction::Engine(req) => (req.mode, req.program, req.gas, req.pc, req.registers),
        _ => panic!("the embedded backend must request an engine run"),
    }
}

#[test]
fn embedded_backend_prepares_a_raw_code_engine_run() {
    let mut backend = PolkaVm::new();
    backend.set_gas(77);
    backend.set_next_program_counter(4);
    backend.set_registers(&[5u64; 13]);
    backend
        .set_program(&[1, 2, 3], ProgramContainer::Generic)
        .unwrap();
    let (mode, program, gas, pc, registers) = engine_request(&backend);
    assert_eq!(mode, EngineMode::RawCode);
    assert_eq!(program, vec![1, 2, 3]);
    assert_eq!(gas, 77);
    assert_eq!(pc, 4);
    assert_eq!(registers, [5u64; 13]);
}

#[test]
fn embedded_backend_prepares_a_blob_engine_run() {
    let mut backend = PolkaVm::new();
    backend
        .set_program(&[80, 86, 77, 0], ProgramContainer::PolkaVM)
        .unwrap();
    let (mode, program, _, _, _) = engine_request(&backend);
    assert_eq!(mode, EngineMode::Blob);
    assert_eq!(program, vec![80, 86, 77, 0]);
}

#[test]
fn embedded_backend_without_a_program_cannot_run() {
    let mut backend = PolkaVm::new();
    assert!(matches!(
        backend.prepare_run(),
        Err(Error::UnsupportedContainer)
    ));
    assert!(matches!(
        backend.complete_run(&RunEvent::NotRun),
        Err(Error::UnsupportedContainer)
    ));
}

#[test]
fn embedded_backend_rejects_the_reserved_container_and_keeps_state() {
    let mut backend = PolkaVm::new();
    backend.set_gas(9);
    backend.set_next_program_counter(2);
    backend.set_registers(&[3u64; 13]);
    backend
        .set_program(&[1], ProgramContainer::Generic)
        .unwrap();
    let before = engine_request(&backend);
    let rejected = backend.set_program(&[9, 9, 9], ProgramContainer::SPI);
    assert!(matches!(rejected, Err(Error::UnsupportedContainer)));
    let after = engine_request(&backend);
    assert_eq!(before, after);
}

#[test]
fn subprocess_backend_rejects_every_container_but_generic() {
    let mut backend = JsonStdin::new();
    backend.set_gas(50);
    backend
        .set_program(&[4, 5], ProgramContainer::Generic)
        .unwrap();
    let frame_before = match backend.prepare_run().unwrap() {
        RunAction::Exchange(f) => f,
        _ => panic!("a subprocess backend must request an exchange"),
    };
    assert!(matches!(
        backend.set_program(&[6], ProgramContainer::PolkaVM),
        Err(Error::UnsupportedContainer)
    ));
    assert!(matches!(
        backend.set_program(&[6], ProgramContainer::SPI),
        Err(Error::UnsupportedContainer)
    ));
    let frame_after = match backend.prepare_run().unwrap() {
        RunAction::Exchange(f) => f,
        _ => panic!("a subprocess backend must request an exchange"),
    };
    assert_eq!(frame_before, frame_after);
}

#[test]
fn engine_interrupts_map_onto_the_status_vocabulary() {
    let cases = [
        (EngineInterrupt::Finished, Status::Halt),
        (EngineInterrupt::Trap, Status::Trap),
        (EngineInterrupt::Ecalli, Status::Host),
        (EngineInterrupt::Segfault, Status::Fault),
        (EngineInterrupt::NotEnoughGas, Status::OutOfGas),
        (EngineInterrupt::Step, Status::Step),
        // Any other engine failure is defensively downgraded to a trap.
        (EngineInterrupt::Failed, Status::Trap),
    ];
    for (interrupt, expected) in cases {
        let mut backend = PolkaVm::new();
        backend
            .set_program(&[0], ProgramContainer::Generic)
            .unwrap();
        let event = RunEvent::Engine(EngineEvent::Completed {
            interrupt,
            gas: 11,
            pc: Some(3),
            registers: [2u64; 13],
        });
        let status = backend.complete_run(&event).unwrap();
        assert_eq!(status, expected);
        assert_eq!(backend.gas(), 11);
        assert_eq!(backend.program_counter(), Some(3));
        assert_eq!(backend.registers(), [2u64; 13]);
    }
}

#[test]
fn failed_engine_construction_is_an_invalid_program() {
    let mut backend = PolkaVm::new();
    backend
        .set_program(&[1, 2], ProgramContainer::PolkaVM)
        .unwrap();
    let result = backend.complete_run(&RunEvent::Engine(EngineEvent::BuildFailed));
    assert!(matches!(result, Err(Error::InvalidProgram)));
    // Outputs stay untouched by a failed build.
    assert_eq!(backend.gas(), 0);
    assert_eq!(backend.program_counter(), None);
}

#[test]
fn subprocess_response_overlays_only_the_registers_it_carries() {
    let mut backend = JsonStdin::new();
    let full = RunEvent::Exchange(ExchangeEvent::Response(ResponseFields {
        status_token: "halt".to_string(),
        registers: vec![8u64; 13],
        pc: 1,
        gas: 5,
    }));
    assert_eq!(backend.complete_run(&full).unwrap(), Status::Halt);
    assert_eq!(backend.registers(), [8u64; 13]);
    // A shorter register list updates a prefix and keeps the rest.
    let partial = RunEvent::Exchange(ExchangeEvent::Response(ResponseFields {
        status_token: "halt".to_string(),
        registers: vec![1, 2, 3],
        pc: 2,
        gas: 4,
    }));
    assert_eq!(backend.complete_run(&partial).unwrap(), Status::Halt);
    let regs = backend.registers();
    assert_eq!(regs[0], 1);
    assert_eq!(regs[1], 2);
    assert_eq!(regs[2], 3);
    assert_eq!(&regs[3..], &[8u64; 10]);
}

#[test]
fn subprocess_response_with_an_unknown_token_is_a_trap_not_a_crash() {
    let mut backend = JsonStdin::new();
    let event = RunEvent::Exchange(ExchangeEvent::Response(ResponseFields {
        status_token: "exploded".to_string(),
        registers: vec![0u64; 13],
        pc: 0,
        gas: 0,
    }));
    assert_eq!(backend.complete_run(&event).unwrap(), Status::Trap);
}

#[test]
fn per_backend_memory_operations_fail_explicitly() {
    let mut backend = PolkaVm::new();
    assert!(matches!(backend.set_page(0, pvm_harness::api::MemoryAccess::Readable), Err(Error::Other(_))));
    assert!(matches!(backend.read_memory(0, 8), Err(Error::Other(_))));
    assert!(matches!(backend.write_memory(0, &[1]), Err(Error::Other(_))));
    let mut backend = JsonStdin::new();
    assert!(matches!(backend.set_page(0, pvm_harness::api::MemoryAccess::Writeable), Err(Error::Other(_))));
    assert!(matches!(backend.read_memory(0, 8), Err(Error::Other(_))));
    assert!(matches!(backend.write_memory(0, &[1]), Err(Error::Other(_))));
}

#[test]
fn two_agreeing_backends_run_a_trap_vector_end_to_end() {
    let mut runner = PvmApiCollection::new(vec![
        Backend::JsonStdin(JsonStdin::new()),
        Backend::JsonStdin(JsonStdin::new()),
    ])
    .unwrap();
    runner.set_gas(1000);
    runner.set_registers(&[0u64; 13]);
    runner.set_next_program_counter(0);
    runner
        .set_program(&[0], ProgramContainer::Generic)
        .unwrap();

    let actions = runner.prepare_run();
    assert_eq!(actions.len(), 2);
    let mut frames = Vec::new();
    for action in actions {
        match action.unwrap() {
            RunAction::Exchange(f) => frames.push(f),
            _ => panic!("both backends are subprocess backends"),
        }
    }
    assert_eq!(frames[0], frames[1]);
    let v: serde_json::Value = serde_json::from_str(&frames[0]).unwrap();
    assert_eq!(v.get("initial-gas").unwrap().as_i64().unwrap(), 1000);
    assert_eq!(v.get("initial-pc").unwrap().as_u64().unwrap(), 0);

    // Both children report an immediate trap with the gas untouched.
    let events = vec![
        RunEvent::Exchange(ExchangeEvent::Response(ResponseFields {
            status_token: "trap".to_string(),
            registers: vec![0u64; 13],
            pc: 0,
            gas: 1000,
        })),
        RunEvent::Exchange(ExchangeEvent::Response(ResponseFields {
            status_token: "trap".to_string(),
            registers: vec![0u64; 13],
            pc: 0,
            gas: 1000,
        })),
    ];
    let status = runner.complete_run(&events).unwrap();
    assert_eq!(status, Status::Trap);
    assert_eq!(runner.gas(), 1000);
    assert_eq!(runner.program_counter(), Some(0));
    assert_eq!(runner.registers(), [0u64; 13]);
    assert_eq!(runner.divergences().len(), 0);
}

#[test]
fn a_mixed_runner_broadcasts_the_program_to_every_backend() {
    let mut runner = PvmApiCollection::new(vec![
        Backend::PolkaVm(PolkaVm::new()),
        Backend::JsonStdin(JsonStdin::new()),
    ])
    .unwrap();
    // Generic is accepted by both variants.
    assert!(runner.set_program(&[1, 2], ProgramContainer::Generic).is_ok());
    assert_eq!(runner.divergences().len(), 0);
    // The blob container is only for the embedded engine: the subprocess
    // backend rejects it, the error propagates, and the reference backend's
    // success is noted as dropped.
    let result = runner.set_program(&[1, 2], ProgramContainer::PolkaVM);
    assert!(matches!(result, Err(Error::UnsupportedContainer)));
    assert_eq!(runner.divergences().len(), 1);
}

#[test]
fn descriptors_select_backends() {
    assert!(matches!(Pvm::parse("polkavm"), Ok(Pvm::PolkaVM)));
    match Pvm::parse("stdin=/usr/bin/other-pvm") {
        Ok(Pvm::Stdin { name, binary }) => {
            assert!(name.is_none());
            assert_eq!(binary, "/usr/bin/other-pvm");
        }
        other => panic!("expected a subprocess descriptor, got {:?}", other),
    }
    match Pvm::parse("jsonrpc=http://localhost:8000") {
        Ok(Pvm::JsonRpc { name, endpoint }) => {
            assert!(name.is_none());
            assert_eq!(endpoint, "http://localhost:8000");
        }
        other => panic!("expected a remote descriptor, got {:?}", other),
    }
    match Pvm::parse("fancy-vm") {
        Err(Error::Other(d)) => assert_eq!(d, "invalid PVM descriptor: fancy-vm"),
        other => panic!("an unknown descriptor must be rejected, got {:?}", other),
    }
    assert!(matches!(Pvm::parse("stdin"), Err(Error::Other(_))));
    assert!(matches!(Pvm::parse(""), Err(Error::Other(_))));
}

#[test]
fn a_configuration_lists_descriptors_in_order() {
    let config = Config {
        pvm: vec![
            Pvm::parse("polkavm").unwrap(),
            Pvm::parse("stdin=/usr/bin/other-pvm").unwrap(),
        ],
    };
    assert_eq!(config.pvm.len(), 2);
    assert!(matches!(config.pvm[0], Pvm::PolkaVM));
    assert!(matches!(config.pvm[1], Pvm::Stdin { .. }));
}
