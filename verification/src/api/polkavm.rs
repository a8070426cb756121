//! The embedded-engine backend. It stores configured inputs, asks the host
//! to build a fresh engine from them for every run, and interprets the
//! engine's interrupt as a terminal status.

use vstd::prelude::*;
use vstd::string::StringExecFns;

use crate::api::common::{
    status_of_interrupt, EngineEvent, EngineMode, EngineRequest, EngineRequestModel, InitialState,
    OutputSnapshot, OutputState, PendingState, RunAction, RunActionModel, RunEvent, RunEventModel,
};
use crate::api::common::interrupt_status;
use crate::api::{Error, ErrorModel, MemoryAccess, ProgramContainer, PvmApi, Status};
use vstd::slice::slice_to_vec;

verus! {

/// Backend variant that runs programs on the embedded native engine. The
/// engine itself is disposable: the host builds a fresh instance from the
/// stored inputs for every run and drains its outputs back into `output`.
pub struct PolkaVm {
    pub initial: InitialState,
    pub output: OutputState,
}

impl PolkaVm {
    /// A backend with all-zero inputs, no program and no outputs yet.
    pub fn new() -> (r: PolkaVm)
        ensures
            r.wf(),
            r.pending() == PendingState::initial(),
            r.output() == OutputSnapshot::initial(),
    {
        PolkaVm { initial: InitialState::new(), output: OutputState::new() }
    }
}

impl Default for PolkaVm {
    fn default() -> (r: PolkaVm)
        ensures
            r.wf(),
            r.pending() == PendingState::initial(),
            r.output() == OutputSnapshot::initial(),
    {
        PolkaVm::new()
    }
}

impl PvmApi for PolkaVm {
    open spec fn wf(&self) -> bool {
        true
    }

    open spec fn pending(&self) -> PendingState {
        self.initial@
    }

    open spec fn output(&self) -> OutputSnapshot {
        self.output@
    }

    /// The embedded engine handles the generic layout and its own
    /// self-describing blob layout; the reserved layout is rejected.
    open spec fn accepts_container(&self, container: ProgramContainer) -> bool {
        container != ProgramContainer::SPI
    }

    open spec fn prepare(&self) -> Result<RunActionModel, ErrorModel> {
        match self.initial.container {
            Some(ProgramContainer::Generic) => Ok(
                RunActionModel::Engine(
                    EngineRequestModel {
                        mode: EngineMode::RawCode,
                        program: self.initial.program@,
                        gas: self.initial.gas,
                        pc: self.initial.pc,
                        registers: self.initial.registers@,
                    },
                ),
            ),
            Some(ProgramContainer::PolkaVM) => Ok(
                RunActionModel::Engine(
                    EngineRequestModel {
                        mode: EngineMode::Blob,
                        program: self.initial.program@,
                        gas: self.initial.gas,
                        pc: self.initial.pc,
                        registers: self.initial.registers@,
                    },
                ),
            ),
            _ => Err(ErrorModel::UnsupportedContainer),
        }
    }

    open spec fn interpretation(&self, event: RunEventModel) -> Result<Status, ErrorModel> {
        match self.initial.container {
            Some(ProgramContainer::Generic) | Some(ProgramContainer::PolkaVM) => match event {
                RunEventModel::Engine(EngineEvent::BuildFailed) => Err(ErrorModel::InvalidProgram),
                RunEventModel::Engine(EngineEvent::Completed { interrupt, .. }) => Ok(
                    status_of_interrupt(interrupt),
                ),
                _ => Err(ErrorModel::Other("the embedded backend expects an engine event"@)),
            },
            _ => Err(ErrorModel::UnsupportedContainer),
        }
    }

    open spec fn output_after(&self, event: RunEventModel) -> OutputSnapshot {
        match self.initial.container {
            Some(ProgramContainer::Generic) | Some(ProgramContainer::PolkaVM) => match event {
                RunEventModel::Engine(EngineEvent::Completed { interrupt, gas, pc, registers }) => (
                OutputSnapshot { registers: registers@, gas: gas, pc: pc }),
                _ => self.output@,
            },
            _ => self.output@,
        }
    }

    fn gas(&self) -> (r: i64) {
        self.output.gas
    }

    fn set_gas(&mut self, gas: i64) {
        self.initial.gas = gas;
    }

    fn registers(&self) -> (r: [u64; 13]) {
        self.output.registers
    }

    fn set_registers(&mut self, registers: &[u64; 13]) {
        self.initial.registers = *registers;
    }

    fn program_counter(&self) -> (r: Option<u32>) {
        self.output.pc
    }

    fn set_next_program_counter(&mut self, pc: u32) {
        self.initial.pc = pc;
    }

    fn set_program(&mut self, code: &[u8], container: ProgramContainer) -> (r: Result<(), Error>) {
        match container {
            ProgramContainer::SPI => Err(Error::UnsupportedContainer),
            _ => {
                self.initial.program = slice_to_vec(code);
                self.initial.container = Some(container);
                Ok(())
            },
        }
    }

    fn set_page(&mut self, page: u32, access: MemoryAccess) -> (r: Result<(), Error>) {
        Err(Error::Other(String::from_str("not supported")))
    }

    fn read_memory(&self, address: u32, length: u32) -> (r: Result<Vec<u8>, Error>) {
        Err(Error::Other(String::from_str("not supported")))
    }

    fn write_memory(&mut self, address: u32, data: &[u8]) -> (r: Result<(), Error>) {
        Err(Error::Other(String::from_str("not supported")))
    }

    fn prepare_run(&self) -> (r: Result<RunAction, Error>) {
        match self.initial.container {
            Some(ProgramContainer::Generic) => Ok(
                RunAction::Engine(
                    EngineRequest {
                        mode: EngineMode::RawCode,
                        program: self.initial.program.clone(),
                        gas: self.initial.gas,
                        pc: self.initial.pc,
                        registers: self.initial.registers,
                    },
                ),
            ),
            Some(ProgramContainer::PolkaVM) => Ok(
                RunAction::Engine(
                    EngineRequest {
                        mode: EngineMode::Blob,
                        program: self.initial.program.clone(),
                        gas: self.initial.gas,
                        pc: self.initial.pc,
                        registers: self.initial.registers,
                    },
                ),
            ),
            _ => Err(Error::UnsupportedContainer),
        }
    }

    fn complete_run(&mut self, event: &RunEvent) -> (r: Result<Status, Error>) {
        let supported = match self.initial.container {
            Some(ProgramContainer::Generic) | Some(ProgramContainer::PolkaVM) => true,
            _ => false,
        };
        if !supported {
            return Err(Error::UnsupportedContainer);
        }
        match event {
            RunEvent::Engine(EngineEvent::BuildFailed) => Err(Error::InvalidProgram),
            RunEvent::Engine(EngineEvent::Completed { interrupt, gas, pc, registers }) => {
                self.output.gas = *gas;
                self.output.pc = *pc;
                self.output.registers = *registers;
                Ok(interrupt_status(*interrupt))
            },
            _ => Err(
                Error::Other(String::from_str("the embedded backend expects an engine event")),
            ),
        }
    }
}

} // verus!
