//! State shared by the backend variants: the configured-input and
//! observable-output halves of an execution state, their mathematical
//! models, and the action/event types through which a run is driven.

use vstd::prelude::*;

use crate::api::{Error, ErrorModel, ProgramContainer, Status, NUMBER_OF_REGISTERS};

verus! {

broadcast use vstd::array::group_array_axioms;

/// Configurable inputs of one backend, written by the setters.
pub struct InitialState {
    pub registers: [u64; 13],
    pub gas: i64,
    pub pc: u32,
    pub program: Vec<u8>,
    pub container: Option<ProgramContainer>,
}

/// Observable outputs of one backend, populated by completing a run.
pub struct OutputState {
    pub registers: [u64; 13],
    pub gas: i64,
    pub pc: Option<u32>,
}

/// Model of the configured inputs of one backend.
#[verifier::ext_equal]
pub struct PendingState {
    pub registers: Seq<u64>,
    pub gas: i64,
    pub pc: u32,
    pub program: Seq<u8>,
    pub container: Option<ProgramContainer>,
}

/// Model of the observable outputs of one backend.
#[verifier::ext_equal]
pub struct OutputSnapshot {
    pub registers: Seq<u64>,
    pub gas: i64,
    pub pc: Option<u32>,
}

impl View for InitialState {
    type V = PendingState;

    open spec fn view(&self) -> PendingState {
        PendingState {
            registers: self.registers@,
            gas: self.gas,
            pc: self.pc,
            program: self.program@,
            container: self.container,
        }
    }
}

impl View for OutputState {
    type V = OutputSnapshot;

    open spec fn view(&self) -> OutputSnapshot {
        OutputSnapshot { registers: self.registers@, gas: self.gas, pc: self.pc }
    }
}

/// A register file with every register zeroed.
pub open spec fn zero_registers() -> Seq<u64> {
    Seq::new(NUMBER_OF_REGISTERS as nat, |i: int| 0u64)
}

impl PendingState {
    pub open spec fn with_gas(self, gas: i64) -> PendingState {
        PendingState { gas, ..self }
    }

    pub open spec fn with_registers(self, registers: Seq<u64>) -> PendingState {
        PendingState { registers, ..self }
    }

    pub open spec fn with_pc(self, pc: u32) -> PendingState {
        PendingState { pc, ..self }
    }

    pub open spec fn with_program(self, program: Seq<u8>, container: ProgramContainer) -> PendingState {
        PendingState { program, container: Some(container), ..self }
    }

    /// The state every backend starts from: zero registers, zero gas,
    /// zero program counter, no program, no container selected.
    pub open spec fn initial() -> PendingState {
        PendingState {
            registers: zero_registers(),
            gas: 0i64,
            pc: 0u32,
            program: Seq::empty(),
            container: None,
        }
    }
}

impl OutputSnapshot {
    /// The outputs before any run has completed.
    pub open spec fn initial() -> OutputSnapshot {
        OutputSnapshot { registers: zero_registers(), gas: 0i64, pc: None }
    }
}

impl InitialState {
    pub fn new() -> (r: InitialState)
        ensures
            r@ == PendingState::initial(),
    {
        let r = InitialState {
            registers: [0u64; 13],
            gas: 0i64,
            pc: 0u32,
            program: Vec::new(),
            container: None,
        };
        proof {
            assert(r@.registers =~= zero_registers());
            assert(r@.program =~= Seq::<u8>::empty());
            assert(r@ =~= PendingState::initial());
        }
        r
    }
}

impl OutputState {
    pub fn new() -> (r: OutputState)
        ensures
            r@ == OutputSnapshot::initial(),
    {
        let r = OutputState { registers: [0u64; 13], gas: 0i64, pc: None };
        proof {
            assert(r@.registers =~= zero_registers());
            assert(r@ =~= OutputSnapshot::initial());
        }
        r
    }
}

/// How the embedded engine should assemble the program representation.
#[derive(PartialEq, Eq, Structural, Copy, Clone, Debug)]
pub enum EngineMode {
    /// Treat the bytes as a raw code-and-jump-table region, wide registers.
    RawCode,
    /// Parse the bytes as a self-describing program blob.
    Blob,
}

/// Everything the host needs to build and drive the embedded engine once.
pub struct EngineRequest {
    pub mode: EngineMode,
    pub program: Vec<u8>,
    pub gas: i64,
    pub pc: u32,
    pub registers: [u64; 13],
}

/// Model of an `EngineRequest`.
#[verifier::ext_equal]
pub struct EngineRequestModel {
    pub mode: EngineMode,
    pub program: Seq<u8>,
    pub gas: i64,
    pub pc: u32,
    pub registers: Seq<u64>,
}

impl View for EngineRequest {
    type V = EngineRequestModel;

    open spec fn view(&self) -> EngineRequestModel {
        EngineRequestModel {
            mode: self.mode,
            program: self.program@,
            gas: self.gas,
            pc: self.pc,
            registers: self.registers@,
        }
    }
}

/// The embedded engine's interrupt vocabulary, as the library models it.
/// `Failed` stands for any engine failure during execution, which is
/// defensively downgraded to a `Trap` status.
#[derive(PartialEq, Eq, Structural, Copy, Clone, Debug)]
pub enum EngineInterrupt {
    Finished,
    Trap,
    Ecalli,
    Segfault,
    NotEnoughGas,
    Step,
    Failed,
}

/// What driving the embedded engine once produced.
#[derive(Copy, Clone, Debug)]
pub enum EngineEvent {
    /// The program representation could not be built from the stored bytes.
    BuildFailed,
    /// The engine ran to an interrupt; its outputs were drained.
    Completed { interrupt: EngineInterrupt, gas: i64, pc: Option<u32>, registers: [u64; 13] },
}

/// The terminal status that one engine interrupt denotes.
pub open spec fn status_of_interrupt(i: EngineInterrupt) -> Status {
    match i {
        EngineInterrupt::Finished => Status::Halt,
        EngineInterrupt::Trap => Status::Trap,
        EngineInterrupt::Ecalli => Status::Host,
        EngineInterrupt::Segfault => Status::Fault,
        EngineInterrupt::NotEnoughGas => Status::OutOfGas,
        EngineInterrupt::Step => Status::Step,
        EngineInterrupt::Failed => Status::Trap,
    }
}

/// Maps an engine interrupt onto the terminal status vocabulary.
pub fn interrupt_status(i: EngineInterrupt) -> (r: Status)
    ensures
        r == status_of_interrupt(i),
{
    match i {
        EngineInterrupt::Finished => Status::Halt,
        EngineInterrupt::Trap => Status::Trap,
        EngineInterrupt::Ecalli => Status::Host,
        EngineInterrupt::Segfault => Status::Fault,
        EngineInterrupt::NotEnoughGas => Status::OutOfGas,
        EngineInterrupt::Step => Status::Step,
        EngineInterrupt::Failed => Status::Trap,
    }
}

/// A register file overlaid with as many fresh values as the response
/// carried; positions past the end of `fresh` keep their previous values.
pub open spec fn overlay_registers(base: Seq<u64>, fresh: Seq<u64>) -> Seq<u64> {
    Seq::new(base.len(), |i: int| if i < fresh.len() { fresh[i] } else { base[i] })
}

/// The fields a subprocess backend reads out of a response document.
pub struct ResponseFields {
    pub status_token: String,
    pub registers: Vec<u64>,
    pub pc: u32,
    pub gas: i64,
}

/// Model of `ResponseFields`.
#[verifier::ext_equal]
pub struct ResponseFieldsModel {
    pub status_token: Seq<char>,
    pub registers: Seq<u64>,
    pub pc: u32,
    pub gas: i64,
}

impl View for ResponseFields {
    type V = ResponseFieldsModel;

    open spec fn view(&self) -> ResponseFieldsModel {
        ResponseFieldsModel {
            status_token: self.status_token@,
            registers: self.registers@,
            pc: self.pc,
            gas: self.gas,
        }
    }
}

/// What one request/response exchange with a subprocess produced.
pub enum ExchangeEvent {
    /// An I/O failure on write or read, or a malformed response document;
    /// the payload describes the underlying failure.
    TransportFailure(String),
    /// A well-formed response document's fields.
    Response(ResponseFields),
}

/// Model of an `ExchangeEvent`.
pub enum ExchangeEventModel {
    TransportFailure(Seq<char>),
    Response(ResponseFieldsModel),
}

impl View for ExchangeEvent {
    type V = ExchangeEventModel;

    open spec fn view(&self) -> ExchangeEventModel {
        match self {
            ExchangeEvent::TransportFailure(d) => ExchangeEventModel::TransportFailure(d@),
            ExchangeEvent::Response(f) => ExchangeEventModel::Response(f@),
        }
    }
}

/// The outward action a backend asks the host to perform for one run.
pub enum RunAction {
    /// Build the embedded engine from the request and drive it to completion.
    Engine(EngineRequest),
    /// Write this already-framed request to the subprocess and read one
    /// blank-line-terminated response.
    Exchange(String),
}

/// Model of a `RunAction`.
pub enum RunActionModel {
    Engine(EngineRequestModel),
    Exchange(Seq<char>),
}

impl View for RunAction {
    type V = RunActionModel;

    open spec fn view(&self) -> RunActionModel {
        match self {
            RunAction::Engine(e) => RunActionModel::Engine(e@),
            RunAction::Exchange(s) => RunActionModel::Exchange(s@),
        }
    }
}

/// What the host hands back after performing (or skipping) a run action.
pub enum RunEvent {
    /// The host did not perform an action for this backend.
    NotRun,
    Engine(EngineEvent),
    Exchange(ExchangeEvent),
}

/// Model of a `RunEvent`.
pub enum RunEventModel {
    NotRun,
    Engine(EngineEvent),
    Exchange(ExchangeEventModel),
}

impl View for RunEvent {
    type V = RunEventModel;

    open spec fn view(&self) -> RunEventModel {
        match self {
            RunEvent::NotRun => RunEventModel::NotRun,
            RunEvent::Engine(e) => RunEventModel::Engine(*e),
            RunEvent::Exchange(e) => RunEventModel::Exchange(e@),
        }
    }
}

/// Whether an executable action result agrees with its model.
pub open spec fn action_result_matches(
    r: Result<RunAction, Error>,
    m: Result<RunActionModel, ErrorModel>,
) -> bool {
    match (r, m) {
        (Ok(a), Ok(b)) => a@ == b,
        (Err(e), Err(f)) => e@ == f,
        _ => false,
    }
}

/// Whether an executable status result agrees with its model.
pub open spec fn status_result_matches(
    r: Result<Status, Error>,
    m: Result<Status, ErrorModel>,
) -> bool {
    match (r, m) {
        (Ok(a), Ok(b)) => a == b,
        (Err(e), Err(f)) => e@ == f,
        _ => false,
    }
}

/// Whether an executable unit result agrees with its model.
pub open spec fn unit_result_matches(
    r: Result<(), Error>,
    m: Result<(), ErrorModel>,
) -> bool {
    match (r, m) {
        (Ok(_), Ok(_)) => true,
        (Err(e), Err(f)) => e@ == f,
        _ => false,
    }
}

} // verus!
