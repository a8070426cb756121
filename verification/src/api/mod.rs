//! The backend-agnostic execution interface: status vocabulary, error
//! taxonomy, and the `PvmApi` trait that every backend variant implements.

use vstd::prelude::*;
use vstd::string::StringExecFns;

pub mod collection;
pub mod common;
pub mod polkavm;
pub mod stdin;

verus! {

broadcast use vstd::string::group_string_axioms;

/// Every execution state carries exactly this many general-purpose registers.
pub const NUMBER_OF_REGISTERS: usize = 13;

/// Terminal outcome of one execution run.
///
/// `Step` is an internal sentinel for single-step execution; it never appears
/// in the external status-token vocabulary.
#[derive(PartialEq, Eq, Structural, Copy, Clone, Debug)]
pub enum Status {
    Step,
    Halt,
    Trap,
    Fault,
    Host,
    OutOfGas,
}

/// Tag describing how raw program bytes are parsed into an executable
/// program representation.
#[derive(PartialEq, Eq, Structural, Copy, Clone, Debug)]
pub enum ProgramContainer {
    /// Raw code plus implicit jump table, wide-register mode.
    Generic,
    /// Reserved self-describing layout that no backend here handles.
    SPI,
    /// Self-describing blob layout parsed by the embedded engine.
    PolkaVM,
}

/// Requested access mode for one memory page.
#[derive(PartialEq, Eq, Structural, Copy, Clone, Debug)]
pub enum MemoryAccess {
    Readable,
    Writeable,
}

/// Error taxonomy of the execution interface.
#[derive(Debug)]
pub enum Error {
    /// Malformed program bytes for the selected container.
    InvalidProgram,
    /// A container tag this backend cannot handle.
    UnsupportedContainer,
    /// Open-ended category for configuration-time failures.
    Other(String),
    /// A wrapped transport failure (I/O or malformed response document).
    Wrap(String),
}

/// Mathematical model of an `Error` value.
pub enum ErrorModel {
    InvalidProgram,
    UnsupportedContainer,
    Other(Seq<char>),
    Wrap(Seq<char>),
}

impl View for Error {
    type V = ErrorModel;

    open spec fn view(&self) -> ErrorModel {
        match self {
            Error::InvalidProgram => ErrorModel::InvalidProgram,
            Error::UnsupportedContainer => ErrorModel::UnsupportedContainer,
            Error::Other(s) => ErrorModel::Other(s@),
            Error::Wrap(s) => ErrorModel::Wrap(s@),
        }
    }
}

/// The text of an error, as a sequence of characters.
pub open spec fn error_text(e: ErrorModel) -> Seq<char> {
    match e {
        ErrorModel::InvalidProgram => "invalid program"@,
        ErrorModel::UnsupportedContainer => "unsupported container"@,
        ErrorModel::Other(s) => "Other: "@ + s,
        ErrorModel::Wrap(s) => s,
    }
}

impl Error {
    /// Wraps the description of an underlying transport failure.
    pub fn wrap(description: String) -> (r: Error)
        ensures
            r@ == ErrorModel::Wrap(description@),
    {
        Error::Wrap(description)
    }

    /// Human-readable description of the error.
    pub fn describe(&self) -> (r: String)
        ensures
            r@ == error_text(self@),
    {
        match self {
            Error::InvalidProgram => String::from_str("invalid program"),
            Error::UnsupportedContainer => String::from_str("unsupported container"),
            Error::Other(s) => {
                let mut r = String::from_str("Other: ");
                r.append(s.as_str());
                r
            },
            Error::Wrap(s) => s.clone(),
        }
    }
}

/// The external token of a status, as used in the wire vocabulary.
pub open spec fn token_of(s: Status) -> Seq<char> {
    match s {
        Status::Step => "ok"@,
        Status::Halt => "halt"@,
        Status::Trap => "trap"@,
        Status::Fault => "fault"@,
        Status::Host => "host"@,
        Status::OutOfGas => "out-of-gas"@,
    }
}

/// The status that an external token denotes. Any token outside the
/// five-element terminal vocabulary maps to `Trap`.
pub open spec fn status_of_token(t: Seq<char>) -> Status {
    if t == "halt"@ {
        Status::Halt
    } else if t == "trap"@ {
        Status::Trap
    } else if t == "fault"@ {
        Status::Fault
    } else if t == "host"@ {
        Status::Host
    } else if t == "out-of-gas"@ {
        Status::OutOfGas
    } else {
        Status::Trap
    }
}

impl Status {
    /// The external token of this status.
    pub fn token(&self) -> (r: String)
        ensures
            r@ == token_of(*self),
    {
        match self {
            Status::Step => String::from_str("ok"),
            Status::Halt => String::from_str("halt"),
            Status::Trap => String::from_str("trap"),
            Status::Fault => String::from_str("fault"),
            Status::Host => String::from_str("host"),
            Status::OutOfGas => String::from_str("out-of-gas"),
        }
    }

    /// Maps an external token back to a status; unrecognized tokens map to
    /// `Trap`, never to a failure.
    pub fn from_token(t: &str) -> (r: Status)
        ensures
            r == status_of_token(t@),
    {
        let s = t.to_owned();
        if s == String::from_str("halt") {
            Status::Halt
        } else if s == String::from_str("trap") {
            Status::Trap
        } else if s == String::from_str("fault") {
            Status::Fault
        } else if s == String::from_str("host") {
            Status::Host
        } else if s == String::from_str("out-of-gas") {
            Status::OutOfGas
        } else {
            Status::Trap
        }
    }
}

/// Law: the five terminal statuses round-trip through the external
/// vocabulary: decoding the token of a terminal status yields that status.
pub proof fn lemma_status_token_round_trip(s: Status)
    requires
        s != Status::Step,
    ensures
        status_of_token(token_of(s)) == s,
{
    reveal_strlit("ok");
    reveal_strlit("halt");
    reveal_strlit("trap");
    reveal_strlit("fault");
    reveal_strlit("host");
    reveal_strlit("out-of-gas");
    assert("trap"@ != "halt"@) by {
        assert("trap"@[0] == 't');
        assert("halt"@[0] == 'h');
    }
    assert("fault"@ != "halt"@) by {
        assert("fault"@.len() == 5);
        assert("halt"@.len() == 4);
    }
    assert("fault"@ != "trap"@) by {
        assert("fault"@.len() == 5);
        assert("trap"@.len() == 4);
    }
    assert("host"@ != "halt"@) by {
        assert("host"@[1] == 'o');
        assert("halt"@[1] == 'a');
    }
    assert("host"@ != "trap"@) by {
        assert("host"@[0] == 'h');
        assert("trap"@[0] == 't');
    }
    assert("host"@ != "fault"@) by {
        assert("host"@.len() == 4);
        assert("fault"@.len() == 5);
    }
    assert("out-of-gas"@.len() == 10);
    assert("out-of-gas"@ != "halt"@);
    assert("out-of-gas"@ != "trap"@);
    assert("out-of-gas"@ != "fault"@);
    assert("out-of-gas"@ != "host"@);
}

/// Law: the terminal status tokens are pairwise distinct, so the encoding
/// side of the round trip is injective.
pub proof fn lemma_status_tokens_distinct(a: Status, b: Status)
    requires
        a != b,
        a != Status::Step,
        b != Status::Step,
    ensures
        token_of(a) != token_of(b),
{
    lemma_status_token_round_trip(a);
    lemma_status_token_round_trip(b);
}

/// Low-level PVM interface: the capability set every backend variant
/// implements. A run is split in two: `prepare_run` names the outward
/// action the host must perform (build and drive the embedded engine, or
/// exchange one framed request with a subprocess), and `complete_run`
/// interprets what the host hands back, updating the output half of the
/// state and reporting the terminal status.
pub trait PvmApi: Sized {
    /// Structural invariant of the backend's state.
    spec fn wf(&self) -> bool;

    /// Model of the configured inputs.
    spec fn pending(&self) -> crate::api::common::PendingState;

    /// Model of the outputs of the last completed run.
    spec fn output(&self) -> crate::api::common::OutputSnapshot;

    /// The container tags this backend accepts in `set_program`.
    spec fn accepts_container(&self, container: ProgramContainer) -> bool;

    /// The action this backend asks the host to perform for a run.
    spec fn prepare(&self) -> Result<crate::api::common::RunActionModel, ErrorModel>;

    /// The status this backend reports when a run completes with `event`.
    spec fn interpretation(&self, event: crate::api::common::RunEventModel) -> Result<
        Status,
        ErrorModel,
    >;

    /// The outputs this backend holds after completing a run with `event`.
    spec fn output_after(&self, event: crate::api::common::RunEventModel) -> crate::api::common::OutputSnapshot;

    /// Reads the gas left after the last completed run.
    fn gas(&self) -> (r: i64)
        requires
            self.wf(),
        ensures
            r == self.output().gas,
    ;

    /// Configures the initial gas for the next run.
    fn set_gas(&mut self, gas: i64)
        requires
            old(self).wf(),
        ensures
            final(self).wf(),
            final(self).pending() == old(self).pending().with_gas(gas),
            final(self).output() == old(self).output(),
    ;

    /// Reads the register file after the last completed run.
    fn registers(&self) -> (r: [u64; 13])
        requires
            self.wf(),
        ensures
            r@ == self.output().registers,
    ;

    /// Configures the initial register file for the next run.
    fn set_registers(&mut self, registers: &[u64; 13])
        requires
            old(self).wf(),
        ensures
            final(self).wf(),
            final(self).pending() == old(self).pending().with_registers(registers@),
            final(self).output() == old(self).output(),
    ;

    /// Reads the resumable position of the last completed run, if any.
    fn program_counter(&self) -> (r: Option<u32>)
        requires
            self.wf(),
        ensures
            r == self.output().pc,
    ;

    /// Configures where the next run starts.
    fn set_next_program_counter(&mut self, pc: u32)
        requires
            old(self).wf(),
        ensures
            final(self).wf(),
            final(self).pending() == old(self).pending().with_pc(pc),
            final(self).output() == old(self).output(),
    ;

    /// Stores the program bytes and container tag, or rejects a container
    /// this backend cannot handle; rejection leaves all stored state
    /// untouched.
    fn set_program(&mut self, code: &[u8], container: ProgramContainer) -> (r: Result<(), Error>)
        requires
            old(self).wf(),
        ensures
            final(self).wf(),
            final(self).output() == old(self).output(),
            r is Ok <==> old(self).accepts_container(container),
            r is Ok ==> final(self).pending() == old(self).pending().with_program(code@, container),
            r is Err ==> final(self).pending() == old(self).pending(),
            r matches Err(e) ==> e@ == ErrorModel::UnsupportedContainer,
            forall|c: ProgramContainer| #[trigger]
                final(self).accepts_container(c) == old(self).accepts_container(c),
    ;

    /// Memory page configuration is not supported by the variants here; the
    /// caller is told so explicitly and no state changes.
    fn set_page(&mut self, page: u32, access: MemoryAccess) -> (r: Result<(), Error>)
        requires
            old(self).wf(),
        ensures
            *final(self) == *old(self),
            r matches Err(e) && e@ == ErrorModel::Other("not supported"@),
    ;

    /// Memory reads are not supported by the variants here; the caller is
    /// told so explicitly.
    fn read_memory(&self, address: u32, length: u32) -> (r: Result<Vec<u8>, Error>)
        requires
            self.wf(),
        ensures
            r matches Err(e) && e@ == ErrorModel::Other("not supported"@),
    ;

    /// Memory writes are not supported by the variants here; the caller is
    /// told so explicitly and no state changes.
    fn write_memory(&mut self, address: u32, data: &[u8]) -> (r: Result<(), Error>)
        requires
            old(self).wf(),
        ensures
            *final(self) == *old(self),
            r matches Err(e) && e@ == ErrorModel::Other("not supported"@),
    ;

    /// Names the outward action the host must perform for one run, or the
    /// error this backend already knows the run must fail with.
    fn prepare_run(&self) -> (r: Result<crate::api::common::RunAction, Error>)
        requires
            self.wf(),
        ensures
            crate::api::common::action_result_matches(r, self.prepare()),
    ;

    /// Interprets what the host handed back for one run: updates the output
    /// half of the state and reports the terminal status or the failure.
    fn complete_run(&mut self, event: &crate::api::common::RunEvent) -> (r: Result<Status, Error>)
        requires
            old(self).wf(),
        ensures
            final(self).wf(),
            final(self).pending() == old(self).pending(),
            crate::api::common::status_result_matches(r, old(self).interpretation(event@)),
            final(self).output() == old(self).output_after(event@),
            forall|c: ProgramContainer| #[trigger]
                final(self).accepts_container(c) == old(self).accepts_container(c),
    ;
}

/// Law: any token outside the terminal vocabulary decodes to `Trap`.
pub proof fn lemma_unknown_token_is_trap(t: Seq<char>)
    requires
        t != "halt"@,
        t != "trap"@,
        t != "fault"@,
        t != "host"@,
        t != "out-of-gas"@,
    ensures
        status_of_token(t) == Status::Trap,
{
}

} // verus!
