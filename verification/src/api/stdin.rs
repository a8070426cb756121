//! The subprocess backend and its line-delimited JSON protocol. One full
//! test-vector document is framed as JSON followed by a blank line; the
//! response is accumulated line by line and surrendered for parsing only
//! once a blank line has been read.

use vstd::prelude::*;
use vstd::string::StringExecFns;

use crate::api::common::{
    overlay_registers, ExchangeEvent, ExchangeEventModel, OutputSnapshot, OutputState,
    PendingState, RunAction, RunActionModel, RunEvent, RunEventModel,
};
use crate::api::{status_of_token, Error, ErrorModel, MemoryAccess, ProgramContainer, PvmApi,
    Status};
use crate::json::{encode_testcase, json_of_testcase, TestcaseJson, TestcaseJsonModel};
use vstd::slice::slice_to_vec;

verus! {

broadcast use vstd::array::group_array_axioms;

/// The complete request frame for one run: the JSON document of the stored
/// test-vector description, terminated by one blank line.
pub open spec fn request_frame(t: TestcaseJsonModel) -> Seq<char> {
    json_of_testcase(t) + "\n\n"@
}

/// Backend variant that drives an external process over its standard
/// streams. The backend owns the protocol state; the host owns the process
/// and its pipes, performs the exchange, and hands the parsed response back.
pub struct JsonStdin {
    pub doc: TestcaseJson,
    pub output: OutputState,
}

impl JsonStdin {
    /// A subprocess backend with an empty document and no outputs yet.
    pub fn new() -> (r: JsonStdin)
        ensures
            r.wf(),
            r.pending() == (PendingState {
                container: Some(ProgramContainer::Generic),
                ..PendingState::initial()
            }),
            r.output() == OutputSnapshot::initial(),
            r.doc@ == TestcaseJsonModel::initial(),
    {
        JsonStdin { doc: TestcaseJson::default(), output: OutputState::new() }
    }
}

impl PvmApi for JsonStdin {
    open spec fn wf(&self) -> bool {
        true
    }

    /// The subprocess protocol always describes its program with the
    /// generic container, so the pending container is constantly `Generic`.
    open spec fn pending(&self) -> PendingState {
        PendingState {
            registers: self.doc.initial_regs@,
            gas: self.doc.initial_gas,
            pc: self.doc.initial_pc,
            program: self.doc.program@,
            container: Some(ProgramContainer::Generic),
        }
    }

    open spec fn output(&self) -> OutputSnapshot {
        self.output@
    }

    /// Only the generic container can be described on the wire.
    open spec fn accepts_container(&self, container: ProgramContainer) -> bool {
        container == ProgramContainer::Generic
    }

    open spec fn prepare(&self) -> Result<RunActionModel, ErrorModel> {
        Ok(RunActionModel::Exchange(request_frame(self.doc@)))
    }

    open spec fn interpretation(&self, event: RunEventModel) -> Result<Status, ErrorModel> {
        match event {
            RunEventModel::Exchange(ExchangeEventModel::TransportFailure(d)) => Err(
                ErrorModel::Wrap(d),
            ),
            RunEventModel::Exchange(ExchangeEventModel::Response(f)) => Ok(
                status_of_token(f.status_token),
            ),
            _ => Err(ErrorModel::Other("the subprocess backend expects an exchange event"@)),
        }
    }

    open spec fn output_after(&self, event: RunEventModel) -> OutputSnapshot {
        match event {
            RunEventModel::Exchange(ExchangeEventModel::Response(f)) => OutputSnapshot {
                registers: overlay_registers(self.output.registers@, f.registers),
                gas: f.gas,
                pc: Some(f.pc),
            },
            _ => self.output@,
        }
    }

    fn gas(&self) -> (r: i64) {
        self.output.gas
    }

    fn set_gas(&mut self, gas: i64) {
        self.doc.initial_gas = gas;
    }

    fn registers(&self) -> (r: [u64; 13]) {
        self.output.registers
    }

    fn set_registers(&mut self, registers: &[u64; 13]) {
        self.doc.initial_regs = *registers;
    }

    fn program_counter(&self) -> (r: Option<u32>) {
        self.output.pc
    }

    fn set_next_program_counter(&mut self, pc: u32) {
        self.doc.initial_pc = pc;
    }

    fn set_program(&mut self, code: &[u8], container: ProgramContainer) -> (r: Result<(), Error>) {
        match container {
            ProgramContainer::Generic => {
                self.doc.program = slice_to_vec(code);
                Ok(())
            },
            _ => Err(Error::UnsupportedContainer),
        }
    }

    fn set_page(&mut self, page: u32, access: MemoryAccess) -> (r: Result<(), Error>) {
        Err(Error::Other(String::from_str("not supported")))
    }

    fn read_memory(&self, address: u32, length: u32) -> (r: Result<Vec<u8>, Error>) {
        Err(Error::Other(String::from_str("not supported")))
    }

    fn write_memory(&mut self, address: u32, data: &[u8]) -> (r: Result<(), Error>) {
        Err(Error::Other(String::from_str("not supported")))
    }

    fn prepare_run(&self) -> (r: Result<RunAction, Error>) {
        let mut frame = encode_testcase(&self.doc);
        frame.append("\n\n");
        Ok(RunAction::Exchange(frame))
    }

    fn complete_run(&mut self, event: &RunEvent) -> (r: Result<Status, Error>) {
        match event {
            RunEvent::Exchange(ExchangeEvent::TransportFailure(d)) => Err(Error::Wrap(d.clone())),
            RunEvent::Exchange(ExchangeEvent::Response(f)) => {
                self.output.gas = f.gas;
                self.output.pc = Some(f.pc);
                let mut i: usize = 0;
                while i < 13 && i < f.registers.len()
                    invariant
                        i <= 13,
                        i <= f.registers@.len(),
                        self.output.registers@.len() == 13,
                        self.output.gas == f.gas,
                        self.output.pc == Some(f.pc),
                        self.doc == old(self).doc,
                        forall|j: int|
                            0 <= j < i ==> self.output.registers@[j] == f.registers@[j],
                        forall|j: int|
                            i <= j < 13 ==> self.output.registers@[j]
                                == old(self).output.registers@[j],
                    decreases 13 - i,
                {
                    let v = f.registers[i];
                    self.output.registers[i] = v;
                    i = i + 1;
                }
                proof {
                    assert(self.output.registers@ =~= overlay_registers(
                        old(self).output.registers@,
                        f.registers@,
                    ));
                }
                Ok(Status::from_token(f.status_token.as_str()))
            },
            _ => Err(
                Error::Other(String::from_str("the subprocess backend expects an exchange event")),
            ),
        }
    }
}

/// Whether some line of `lines` is blank.
pub open spec fn saw_blank(lines: Seq<Seq<char>>) -> bool {
    exists|i: int| 0 <= i < lines.len() && lines[i].len() == 0
}

/// The concatenation of the lines before the first blank line.
pub open spec fn joined(lines: Seq<Seq<char>>) -> Seq<char>
    decreases lines.len(),
{
    if lines.len() == 0 {
        Seq::empty()
    } else if lines[0].len() == 0 {
        Seq::empty()
    } else {
        lines[0] + joined(lines.drop_first())
    }
}

proof fn lemma_joined_push(l: Seq<Seq<char>>, x: Seq<char>)
    ensures
        joined(l.push(x)) == if saw_blank(l) {
            joined(l)
        } else if x.len() == 0 {
            joined(l)
        } else {
            joined(l) + x
        },
        saw_blank(l.push(x)) == (saw_blank(l) || x.len() == 0),
    decreases l.len(),
{
    if l.len() == 0 {
        assert(l.push(x)[0] == x);
        if x.len() == 0 {
            assert(joined(l.push(x)) =~= joined(l));
        } else {
            assert(l.push(x).drop_first() =~= Seq::<Seq<char>>::empty());
            assert(joined(l.push(x)) == x + joined(l.push(x).drop_first()));
            assert(joined(l.push(x).drop_first()) =~= Seq::<char>::empty());
            assert(joined(l.push(x)) =~= joined(l) + x);
        }
        assert(saw_blank(l.push(x)) == (saw_blank(l) || x.len() == 0)) by {
            if x.len() == 0 {
                assert(l.push(x)[0].len() == 0);
            }
        }
    } else {
        lemma_joined_push(l.drop_first(), x);
        assert(l.push(x).drop_first() =~= l.drop_first().push(x));
        assert(l.push(x)[0] == l[0]);
        if l[0].len() == 0 {
            assert(saw_blank(l)) by {
                assert(l[0].len() == 0);
            }
            assert(joined(l.push(x)) =~= Seq::empty());
            assert(saw_blank(l.push(x))) by {
                assert(l.push(x)[0].len() == 0);
            }
        } else {
            assert(saw_blank(l) == saw_blank(l.drop_first())) by {
                if saw_blank(l) {
                    let i = choose|i: int| 0 <= i < l.len() && l[i].len() == 0;
                    assert(i != 0);
                    assert(l.drop_first()[i - 1].len() == 0);
                }
                if saw_blank(l.drop_first()) {
                    let i = choose|i: int|
                        0 <= i < l.drop_first().len() && l.drop_first()[i].len() == 0;
                    assert(l[i + 1].len() == 0);
                }
            }
            assert(saw_blank(l.push(x)) == saw_blank(l.drop_first().push(x)) || l.push(x)[0].len()
                == 0) by {
                if saw_blank(l.push(x)) {
                    let i = choose|i: int|
                        0 <= i < l.push(x).len() && l.push(x)[i].len() == 0;
                    if i != 0 {
                        assert(l.push(x).drop_first()[i - 1].len() == 0);
                    }
                }
                if saw_blank(l.drop_first().push(x)) {
                    let i = choose|i: int|
                        #![auto]
                        0 <= i < l.drop_first().push(x).len() && l.drop_first().push(x)[i].len()
                            == 0;
                    assert(l.push(x)[i + 1].len() == 0);
                }
            }
            if saw_blank(l.drop_first()) || x.len() == 0 {
                assert(joined(l.push(x)) =~= joined(l));
            } else {
                assert(joined(l.push(x)) == l[0] + (joined(l.drop_first()) + x));
                assert(l[0] + (joined(l.drop_first()) + x) =~= (l[0] + joined(l.drop_first()))
                    + x);
            }
        }
    }
}

/// Accumulates response lines until a blank line is read. The buffer can be
/// surrendered for parsing only once the blank-line terminator has been
/// seen: before that, `payload` yields nothing, so no caller can parse a
/// partial response, however plausible the bytes so far may look.
pub struct LineAccumulator {
    buffer: String,
    complete: bool,
    lines: Ghost<Seq<Seq<char>>>,
}

impl LineAccumulator {
    /// The lines pushed so far, in order.
    pub closed spec fn lines(&self) -> Seq<Seq<char>> {
        self.lines@
    }

    /// Whether the blank-line terminator has been read.
    pub closed spec fn is_complete(&self) -> bool {
        self.complete
    }

    /// Ties the buffer and the completion flag to the pushed lines.
    pub closed spec fn wf(&self) -> bool {
        &&& self.complete == saw_blank(self.lines@)
        &&& self.buffer@ == joined(self.lines@)
    }

    /// An empty accumulator: nothing read, not complete.
    pub fn new() -> (r: LineAccumulator)
        ensures
            r.wf(),
            r.lines() == Seq::<Seq<char>>::empty(),
            !r.is_complete(),
    {
        LineAccumulator { buffer: String::new(), complete: false, lines: Ghost(Seq::empty()) }
    }

    /// Feeds one line (without its newline terminator). A blank line marks
    /// the accumulated buffer complete; any line after that is ignored.
    pub fn push_line(&mut self, line: &str)
        requires
            old(self).wf(),
        ensures
            final(self).wf(),
            final(self).lines() == old(self).lines().push(line@),
            final(self).is_complete() == (old(self).is_complete() || line@.len() == 0),
    {
        proof {
            lemma_joined_push(self.lines@, line@);
        }
        self.lines = Ghost(self.lines@.push(line@));
        if !self.complete {
            if line.is_empty() {
                self.complete = true;
            } else {
                self.buffer.append(line);
            }
        }
    }

    /// Whether the blank-line terminator has been read.
    pub fn complete(&self) -> (r: bool)
        ensures
            r == self.is_complete(),
    {
        self.complete
    }

    /// The accumulated buffer, surrendered only once complete.
    pub fn payload(&self) -> (r: Option<&String>)
        requires
            self.wf(),
        ensures
            r is Some <==> self.is_complete(),
            r matches Some(b) ==> b@ == joined(self.lines()),
    {
        if self.complete {
            Some(&self.buffer)
        } else {
            None
        }
    }
}

/// Law: the accumulated buffer is never surrendered for parsing before an
/// empty line has been read, even if the buffer so far would parse: as long
/// as no pushed line was blank, the accumulator is not complete, and
/// `payload` therefore yields nothing.
pub proof fn lemma_no_payload_before_blank(acc: LineAccumulator)
    requires
        acc.wf(),
        !saw_blank(acc.lines()),
    ensures
        !acc.is_complete(),
{
}

} // verus!
