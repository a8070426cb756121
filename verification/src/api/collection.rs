//! The multi-backend runner: an ordered, non-empty collection of backends,
//! every operation broadcast to all of them in index order, and the results
//! folded left-to-right with a divergence-reporting merge policy. Backend 0
//! is the reference: its value is what the runner reports; every
//! disagreement along the fold is recorded, never silently dropped.

use vstd::prelude::*;
use vstd::string::StringExecFns;

use crate::api::common::{
    action_result_matches, OutputSnapshot,
    PendingState, RunAction, RunActionModel, RunEvent, RunEventModel,
};
use crate::api::polkavm::PolkaVm;
use crate::api::stdin::JsonStdin;
use crate::api::{Error, ErrorModel, MemoryAccess, ProgramContainer, PvmApi, Status};

verus! {

/// One concrete backend. The set of variants is closed, so the runner holds
/// them as an enumeration and dispatches by variant.
pub enum Backend {
    PolkaVm(PolkaVm),
    JsonStdin(JsonStdin),
}

impl PvmApi for Backend {
    open spec fn wf(&self) -> bool {
        match self {
            Backend::PolkaVm(b) => b.wf(),
            Backend::JsonStdin(b) => b.wf(),
        }
    }

    open spec fn pending(&self) -> PendingState {
        match self {
            Backend::PolkaVm(b) => b.pending(),
            Backend::JsonStdin(b) => b.pending(),
        }
    }

    open spec fn output(&self) -> OutputSnapshot {
        match self {
            Backend::PolkaVm(b) => b.output(),
            Backend::JsonStdin(b) => b.output(),
        }
    }

    open spec fn accepts_container(&self, container: ProgramContainer) -> bool {
        match self {
            Backend::PolkaVm(b) => b.accepts_container(container),
            Backend::JsonStdin(b) => b.accepts_container(container),
        }
    }

    open spec fn prepare(&self) -> Result<RunActionModel, ErrorModel> {
        match self {
            Backend::PolkaVm(b) => b.prepare(),
            Backend::JsonStdin(b) => b.prepare(),
        }
    }

    open spec fn interpretation(&self, event: RunEventModel) -> Result<Status, ErrorModel> {
        match self {
            Backend::PolkaVm(b) => b.interpretation(event),
            Backend::JsonStdin(b) => b.interpretation(event),
        }
    }

    open spec fn output_after(&self, event: RunEventModel) -> OutputSnapshot {
        match self {
            Backend::PolkaVm(b) => b.output_after(event),
            Backend::JsonStdin(b) => b.output_after(event),
        }
    }

    fn gas(&self) -> (r: i64) {
        match self {
            Backend::PolkaVm(b) => b.gas(),
            Backend::JsonStdin(b) => b.gas(),
        }
    }

    fn set_gas(&mut self, gas: i64) {
        match self {
            Backend::PolkaVm(b) => b.set_gas(gas),
            Backend::JsonStdin(b) => b.set_gas(gas),
        }
    }

    fn registers(&self) -> (r: [u64; 13]) {
        match self {
            Backend::PolkaVm(b) => b.registers(),
            Backend::JsonStdin(b) => b.registers(),
        }
    }

    fn set_registers(&mut self, registers: &[u64; 13]) {
        match self {
            Backend::PolkaVm(b) => b.set_registers(registers),
            Backend::JsonStdin(b) => b.set_registers(registers),
        }
    }

    fn program_counter(&self) -> (r: Option<u32>) {
        match self {
            Backend::PolkaVm(b) => b.program_counter(),
            Backend::JsonStdin(b) => b.program_counter(),
        }
    }

    fn set_next_program_counter(&mut self, pc: u32) {
        match self {
            Backend::PolkaVm(b) => b.set_next_program_counter(pc),
            Backend::JsonStdin(b) => b.set_next_program_counter(pc),
        }
    }

    fn set_program(&mut self, code: &[u8], container: ProgramContainer) -> (r: Result<(), Error>) {
        match self {
            Backend::PolkaVm(b) => b.set_program(code, container),
            Backend::JsonStdin(b) => b.set_program(code, container),
        }
    }

    fn set_page(&mut self, page: u32, access: MemoryAccess) -> (r: Result<(), Error>) {
        match self {
            Backend::PolkaVm(b) => b.set_page(page, access),
            Backend::JsonStdin(b) => b.set_page(page, access),
        }
    }

    fn read_memory(&self, address: u32, length: u32) -> (r: Result<Vec<u8>, Error>) {
        match self {
            Backend::PolkaVm(b) => b.read_memory(address, length),
            Backend::JsonStdin(b) => b.read_memory(address, length),
        }
    }

    fn write_memory(&mut self, address: u32, data: &[u8]) -> (r: Result<(), Error>) {
        match self {
            Backend::PolkaVm(b) => b.write_memory(address, data),
            Backend::JsonStdin(b) => b.write_memory(address, data),
        }
    }

    fn prepare_run(&self) -> (r: Result<RunAction, Error>) {
        match self {
            Backend::PolkaVm(b) => b.prepare_run(),
            Backend::JsonStdin(b) => b.prepare_run(),
        }
    }

    fn complete_run(&mut self, event: &RunEvent) -> (r: Result<Status, Error>) {
        match self {
            Backend::PolkaVm(b) => b.complete_run(event),
            Backend::JsonStdin(b) => b.complete_run(event),
        }
    }
}

/// The operation a divergence record is tagged with.
#[derive(PartialEq, Eq, Structural, Copy, Clone, Debug)]
pub enum Operation {
    Run,
    Gas,
    Registers,
    ProgramCounter,
    SetProgram,
    SetPage,
    WriteMemory,
}

/// One entry of the divergence log: a disagreement between the running
/// (more-reference) value and one backend's value for the same operation,
/// or a result discarded because a sibling backend failed.
#[derive(Copy, Clone, Debug)]
pub enum DivergenceRecord {
    StatusMismatch { operation: Operation, left: Status, right: Status },
    GasMismatch { operation: Operation, left: i64, right: i64 },
    RegistersMismatch { operation: Operation, left: [u64; 13], right: [u64; 13] },
    ProgramCounterMismatch { operation: Operation, left: Option<u32>, right: Option<u32> },
    DroppedSuccess { operation: Operation },
    DroppedError { operation: Operation },
}

/// The model of a fallible status result.
pub open spec fn status_result_model(r: Result<Status, Error>) -> Result<Status, ErrorModel> {
    match r {
        Ok(s) => Ok(s),
        Err(e) => Err(e@),
    }
}

/// The model of a fallible unit result.
pub open spec fn unit_result_model(r: Result<(), Error>) -> Result<(), ErrorModel> {
    match r {
        Ok(_) => Ok(()),
        Err(e) => Err(e@),
    }
}

/// The error-dominant merge of two fallible results: an error on either
/// side is returned (the left error when both fail); two successes merge to
/// the left success.
pub open spec fn merged_status(
    a: Result<Status, ErrorModel>,
    b: Result<Status, ErrorModel>,
) -> Result<Status, ErrorModel> {
    match (a, b) {
        (Err(e), _) => Err(e),
        (Ok(_), Err(e)) => Err(e),
        (Ok(x), Ok(_)) => Ok(x),
    }
}

/// The divergence records one fallible merge step produces: one entry for a
/// discarded success or a discarded error, one mismatch entry for two
/// unequal successes, and nothing for two equal successes.
pub open spec fn status_merge_records(
    a: Result<Status, ErrorModel>,
    b: Result<Status, ErrorModel>,
    operation: Operation,
) -> Seq<DivergenceRecord> {
    match (a, b) {
        (Err(_), Ok(_)) => seq![DivergenceRecord::DroppedSuccess { operation }],
        (Err(_), Err(_)) => seq![DivergenceRecord::DroppedError { operation }],
        (Ok(_), Err(_)) => seq![DivergenceRecord::DroppedSuccess { operation }],
        (Ok(x), Ok(y)) => if x == y {
            Seq::empty()
        } else {
            seq![DivergenceRecord::StatusMismatch { operation, left: x, right: y }]
        },
    }
}

/// The left fold of `merged_status` over the first `i` results.
pub open spec fn folded_status(s: Seq<Result<Status, ErrorModel>>, i: int) -> Result<
    Status,
    ErrorModel,
>
    decreases i,
{
    if i <= 1 {
        s[0]
    } else {
        merged_status(folded_status(s, i - 1), s[i - 1])
    }
}

/// The divergence records the left fold over the first `i` results produces.
pub open spec fn folded_status_records(
    s: Seq<Result<Status, ErrorModel>>,
    i: int,
    operation: Operation,
) -> Seq<DivergenceRecord>
    decreases i,
{
    if i <= 1 {
        Seq::empty()
    } else {
        folded_status_records(s, i - 1, operation) + status_merge_records(
            folded_status(s, i - 1),
            s[i - 1],
            operation,
        )
    }
}

/// The error-dominant merge of two fallible unit results.
pub open spec fn merged_unit(a: Result<(), ErrorModel>, b: Result<(), ErrorModel>) -> Result<
    (),
    ErrorModel,
> {
    match (a, b) {
        (Err(e), _) => Err(e),
        (Ok(_), Err(e)) => Err(e),
        (Ok(_), Ok(_)) => Ok(()),
    }
}

/// The records one fallible unit merge step produces: unit successes are
/// always equal, so only discarded results are recorded.
pub open spec fn unit_merge_records(
    a: Result<(), ErrorModel>,
    b: Result<(), ErrorModel>,
    operation: Operation,
) -> Seq<DivergenceRecord> {
    match (a, b) {
        (Err(_), Ok(_)) => seq![DivergenceRecord::DroppedSuccess { operation }],
        (Err(_), Err(_)) => seq![DivergenceRecord::DroppedError { operation }],
        (Ok(_), Err(_)) => seq![DivergenceRecord::DroppedSuccess { operation }],
        (Ok(_), Ok(_)) => Seq::empty(),
    }
}

/// The left fold of `merged_unit` over the first `i` results.
pub open spec fn folded_unit(s: Seq<Result<(), ErrorModel>>, i: int) -> Result<(), ErrorModel>
    decreases i,
{
    if i <= 1 {
        s[0]
    } else {
        merged_unit(folded_unit(s, i - 1), s[i - 1])
    }
}

/// The records the left fold of unit results over the first `i` produces.
pub open spec fn folded_unit_records(
    s: Seq<Result<(), ErrorModel>>,
    i: int,
    operation: Operation,
) -> Seq<DivergenceRecord>
    decreases i,
{
    if i <= 1 {
        Seq::empty()
    } else {
        folded_unit_records(s, i - 1, operation) + unit_merge_records(
            folded_unit(s, i - 1),
            s[i - 1],
            operation,
        )
    }
}

/// Law: merging two equal successes yields that success and no records.
pub proof fn lemma_merge_equal_successes(v: Status, operation: Operation)
    ensures
        merged_status(Ok(v), Ok(v)) == Ok::<Status, ErrorModel>(v),
        status_merge_records(Ok(v), Ok(v), operation) == Seq::<DivergenceRecord>::empty(),
{
}

/// Law: merging two unequal successes yields the left success and exactly
/// one mismatch record tagged with the operation and carrying both values.
pub proof fn lemma_merge_unequal_successes(a: Status, b: Status, operation: Operation)
    requires
        a != b,
    ensures
        merged_status(Ok(a), Ok(b)) == Ok::<Status, ErrorModel>(a),
        status_merge_records(Ok(a), Ok(b), operation) =~= seq![
            DivergenceRecord::StatusMismatch { operation, left: a, right: b },
        ],
{
}

/// Law: an error on either side dominates the merge, and the discarded
/// success is noted in exactly one record.
pub proof fn lemma_merge_error_dominates(e: ErrorModel, s: Status, operation: Operation)
    ensures
        merged_status(Err(e), Ok(s)) == Err::<Status, ErrorModel>(e),
        merged_status(Ok(s), Err(e)) == Err::<Status, ErrorModel>(e),
        status_merge_records(Err(e), Ok(s), operation) =~= seq![
            DivergenceRecord::DroppedSuccess { operation },
        ],
        status_merge_records(Ok(s), Err(e), operation) =~= seq![
            DivergenceRecord::DroppedSuccess { operation },
        ],
{
}

/// Law: a single backend's hard failure always propagates as the runner's
/// failure: if any of the first `n` results is an error, so is their fold.
pub proof fn lemma_any_error_propagates(s: Seq<Result<Status, ErrorModel>>, n: int, j: int)
    requires
        0 <= j < n,
        n <= s.len(),
        s[j] is Err,
    ensures
        folded_status(s, n) is Err,
    decreases n,
{
    if n > 1 && j < n - 1 {
        lemma_any_error_propagates(s, n - 1, j);
    }
}

/// Law: when every backend succeeds, the merged result is the reference
/// backend's (index 0's) success, whatever the others reported.
pub proof fn lemma_all_successes_keep_reference(s: Seq<Result<Status, ErrorModel>>, n: int)
    requires
        1 <= n <= s.len(),
        forall|i: int| 0 <= i < n ==> s[i] is Ok,
    ensures
        folded_status(s, n) == s[0],
    decreases n,
{
    if n > 1 {
        lemma_all_successes_keep_reference(s, n - 1);
    }
}

/// The gas values all backends report.
pub open spec fn gas_outputs(backends: Seq<Backend>) -> Seq<i64> {
    backends.map_values(|b: Backend| b.output().gas)
}

/// The program counters all backends report.
pub open spec fn pc_outputs(backends: Seq<Backend>) -> Seq<Option<u32>> {
    backends.map_values(|b: Backend| b.output().pc)
}

/// The stored output register file of one backend, as the array it holds.
pub open spec fn output_register_file(b: Backend) -> [u64; 13] {
    match b {
        Backend::PolkaVm(p) => p.output.registers,
        Backend::JsonStdin(j) => j.output.registers,
    }
}

/// The register files all backends report.
pub open spec fn register_outputs(backends: Seq<Backend>) -> Seq<[u64; 13]> {
    backends.map_values(|b: Backend| output_register_file(b))
}

/// The mismatch records comparing the reference value with each of the
/// first `i` gas values.
pub open spec fn gas_divergences_upto(s: Seq<i64>, i: int) -> Seq<DivergenceRecord>
    decreases i,
{
    if i <= 1 {
        Seq::empty()
    } else {
        gas_divergences_upto(s, i - 1) + (if s[i - 1] == s[0] {
            Seq::empty()
        } else {
            seq![
                DivergenceRecord::GasMismatch {
                    operation: Operation::Gas,
                    left: s[0],
                    right: s[i - 1],
                },
            ]
        })
    }
}

/// The mismatch records of a whole gas read.
pub open spec fn gas_divergences(s: Seq<i64>) -> Seq<DivergenceRecord> {
    gas_divergences_upto(s, s.len() as int)
}

/// The mismatch records comparing the reference register file with each of
/// the first `i` register files, by contents.
pub open spec fn register_divergences_upto(s: Seq<[u64; 13]>, i: int) -> Seq<DivergenceRecord>
    decreases i,
{
    if i <= 1 {
        Seq::empty()
    } else {
        register_divergences_upto(s, i - 1) + (if s[i - 1]@ == s[0]@ {
            Seq::empty()
        } else {
            seq![
                DivergenceRecord::RegistersMismatch {
                    operation: Operation::Registers,
                    left: s[0],
                    right: s[i - 1],
                },
            ]
        })
    }
}

/// The mismatch records of a whole register read.
pub open spec fn register_divergences(s: Seq<[u64; 13]>) -> Seq<DivergenceRecord> {
    register_divergences_upto(s, s.len() as int)
}

/// The mismatch records comparing the reference program counter with each
/// of the first `i` program counters.
pub open spec fn pc_divergences_upto(s: Seq<Option<u32>>, i: int) -> Seq<DivergenceRecord>
    decreases i,
{
    if i <= 1 {
        Seq::empty()
    } else {
        pc_divergences_upto(s, i - 1) + (if s[i - 1] == s[0] {
            Seq::empty()
        } else {
            seq![
                DivergenceRecord::ProgramCounterMismatch {
                    operation: Operation::ProgramCounter,
                    left: s[0],
                    right: s[i - 1],
                },
            ]
        })
    }
}

/// The mismatch records of a whole program-counter read.
pub open spec fn pc_divergences(s: Seq<Option<u32>>) -> Seq<DivergenceRecord> {
    pc_divergences_upto(s, s.len() as int)
}

/// The outcome `set_program` has on one backend: acceptance decides it.
pub open spec fn set_program_outcome(b: Backend, container: ProgramContainer) -> Result<
    (),
    ErrorModel,
> {
    if b.accepts_container(container) {
        Ok(())
    } else {
        Err(ErrorModel::UnsupportedContainer)
    }
}

/// The per-backend outcomes of a `set_program` broadcast.
pub open spec fn set_program_outcomes(backends: Seq<Backend>, container: ProgramContainer) -> Seq<
    Result<(), ErrorModel>,
> {
    backends.map_values(|b: Backend| set_program_outcome(b, container))
}

/// The per-backend outcomes of an unsupported broadcast: every backend
/// reports the same explicit failure.
pub open spec fn unsupported_outcomes(n: nat) -> Seq<Result<(), ErrorModel>> {
    Seq::new(n, |i: int| Err(ErrorModel::Other("not supported"@)))
}

/// The per-backend statuses a run broadcast produces from the given events.
pub open spec fn run_interpretations(backends: Seq<Backend>, events: Seq<RunEvent>) -> Seq<
    Result<Status, ErrorModel>,
> {
    Seq::new(backends.len(), |i: int| backends[i].interpretation(events[i]@))
}

/// Keeps the left gas value; records a disagreement, which is otherwise
/// non-fatal.
fn propagate_gas(a: i64, b: i64, log: &mut Vec<DivergenceRecord>) -> (r: i64)
    ensures
        r == a,
        a == b ==> final(log)@ == old(log)@,
        a != b ==> final(log)@ == old(log)@ + seq![
            DivergenceRecord::GasMismatch { operation: Operation::Gas, left: a, right: b },
        ],
{
    if a != b {
        log.push(DivergenceRecord::GasMismatch { operation: Operation::Gas, left: a, right: b });
        proof {
            assert(final(log)@ =~= old(log)@ + seq![
                DivergenceRecord::GasMismatch { operation: Operation::Gas, left: a, right: b },
            ]);
        }
    }
    a
}

/// Whether two register files hold the same values.
fn registers_eq(a: &[u64; 13], b: &[u64; 13]) -> (r: bool)
    ensures
        r == (a@ == b@),
{
    let mut i: usize = 0;
    while i < 13
        invariant
            i <= 13,
            forall|j: int| 0 <= j < i ==> a@[j] == b@[j],
        decreases 13 - i,
    {
        if a[i] != b[i] {
            return false;
        }
        i = i + 1;
    }
    proof {
        assert(a@ =~= b@);
    }
    true
}

/// Keeps the left register file; records a disagreement.
fn propagate_registers(a: [u64; 13], b: [u64; 13], log: &mut Vec<DivergenceRecord>) -> (r: [u64;
    13])
    ensures
        r == a,
        a@ == b@ ==> final(log)@ == old(log)@,
        a@ != b@ ==> final(log)@ == old(log)@ + seq![
            DivergenceRecord::RegistersMismatch {
                operation: Operation::Registers,
                left: a,
                right: b,
            },
        ],
{
    if !registers_eq(&a, &b) {
        log.push(
            DivergenceRecord::RegistersMismatch {
                operation: Operation::Registers,
                left: a,
                right: b,
            },
        );
        proof {
            assert(final(log)@ =~= old(log)@ + seq![
                DivergenceRecord::RegistersMismatch {
                    operation: Operation::Registers,
                    left: a,
                    right: b,
                },
            ]);
        }
    }
    a
}

/// Whether two optional program counters are equal.
fn pc_eq(a: Option<u32>, b: Option<u32>) -> (r: bool)
    ensures
        r == (a == b),
{
    match (a, b) {
        (None, None) => true,
        (Some(x), Some(y)) => x == y,
        _ => false,
    }
}

/// Keeps the left program counter; records a disagreement.
fn propagate_pc(a: Option<u32>, b: Option<u32>, log: &mut Vec<DivergenceRecord>) -> (r: Option<
    u32,
>)
    ensures
        r == a,
        a == b ==> final(log)@ == old(log)@,
        a != b ==> final(log)@ == old(log)@ + seq![
            DivergenceRecord::ProgramCounterMismatch {
                operation: Operation::ProgramCounter,
                left: a,
                right: b,
            },
        ],
{
    if !pc_eq(a, b) {
        log.push(
            DivergenceRecord::ProgramCounterMismatch {
                operation: Operation::ProgramCounter,
                left: a,
                right: b,
            },
        );
        proof {
            assert(final(log)@ =~= old(log)@ + seq![
                DivergenceRecord::ProgramCounterMismatch {
                    operation: Operation::ProgramCounter,
                    left: a,
                    right: b,
                },
            ]);
        }
    }
    a
}

/// One step of the fallible merge: an error on either side dominates (the
/// left error when both fail) and the discarded result is recorded; two
/// equal successes merge silently; two unequal successes keep the left one
/// and record the mismatch.
fn propagate_status_result(
    a: Result<Status, Error>,
    b: Result<Status, Error>,
    operation: Operation,
    log: &mut Vec<DivergenceRecord>,
) -> (r: Result<Status, Error>)
    ensures
        status_result_model(r) == merged_status(status_result_model(a), status_result_model(b)),
        final(log)@ == old(log)@ + status_merge_records(
            status_result_model(a),
            status_result_model(b),
            operation,
        ),
{
    let ghost ma = status_result_model(a);
    let ghost mb = status_result_model(b);
    match (a, b) {
        (Err(e), Ok(_)) => {
            log.push(DivergenceRecord::DroppedSuccess { operation });
            proof {
                assert(final(log)@ =~= old(log)@ + status_merge_records(ma, mb, operation));
            }
            Err(e)
        },
        (Err(e), Err(_)) => {
            log.push(DivergenceRecord::DroppedError { operation });
            proof {
                assert(final(log)@ =~= old(log)@ + status_merge_records(ma, mb, operation));
            }
            Err(e)
        },
        (Ok(_), Err(e)) => {
            log.push(DivergenceRecord::DroppedSuccess { operation });
            proof {
                assert(final(log)@ =~= old(log)@ + status_merge_records(ma, mb, operation));
            }
            Err(e)
        },
        (Ok(x), Ok(y)) => {
            if x != y {
                log.push(DivergenceRecord::StatusMismatch { operation, left: x, right: y });
                proof {
                    assert(final(log)@ =~= old(log)@ + status_merge_records(ma, mb, operation));
                }
            } else {
                proof {
                    assert(final(log)@ =~= old(log)@ + status_merge_records(ma, mb, operation));
                }
            }
            Ok(x)
        },
    }
}

/// One step of the fallible merge for unit results.
fn propagate_unit_result(
    a: Result<(), Error>,
    b: Result<(), Error>,
    operation: Operation,
    log: &mut Vec<DivergenceRecord>,
) -> (r: Result<(), Error>)
    ensures
        unit_result_model(r) == merged_unit(unit_result_model(a), unit_result_model(b)),
        final(log)@ == old(log)@ + unit_merge_records(
            unit_result_model(a),
            unit_result_model(b),
            operation,
        ),
{
    let ghost ma = unit_result_model(a);
    let ghost mb = unit_result_model(b);
    match (a, b) {
        (Err(e), Ok(_)) => {
            log.push(DivergenceRecord::DroppedSuccess { operation });
            proof {
                assert(final(log)@ =~= old(log)@ + unit_merge_records(ma, mb, operation));
            }
            Err(e)
        },
        (Err(e), Err(_)) => {
            log.push(DivergenceRecord::DroppedError { operation });
            proof {
                assert(final(log)@ =~= old(log)@ + unit_merge_records(ma, mb, operation));
            }
            Err(e)
        },
        (Ok(_), Err(e)) => {
            log.push(DivergenceRecord::DroppedSuccess { operation });
            proof {
                assert(final(log)@ =~= old(log)@ + unit_merge_records(ma, mb, operation));
            }
            Err(e)
        },
        (Ok(_), Ok(_)) => {
            proof {
                assert(final(log)@ =~= old(log)@ + unit_merge_records(ma, mb, operation));
            }
            Ok(())
        },
    }
}

/// The multi-backend runner. It owns an ordered, non-empty collection of
/// backends; every operation is broadcast to all of them in index order and
/// the results are folded left-to-right, so backend 0 (the reference) is
/// the value reported, with every disagreement kept in the divergence log.
pub struct PvmApiCollection {
    backends: Vec<Backend>,
    divergences: Vec<DivergenceRecord>,
}

impl PvmApiCollection {
    /// The backends, in index order.
    pub closed spec fn backends(&self) -> Seq<Backend> {
        self.backends@
    }

    /// Every divergence recorded so far, oldest first.
    pub closed spec fn divergence_log(&self) -> Seq<DivergenceRecord> {
        self.divergences@
    }

    /// The runner is never empty, and every backend is well-formed.
    pub open spec fn wf(&self) -> bool {
        &&& self.backends().len() > 0
        &&& forall|i: int| 0 <= i < self.backends().len() ==> self.backends()[i].wf()
    }

    /// Builds a runner over the given backends. A runner over zero backends
    /// is rejected here, before any operation can be attempted: there is no
    /// meaningful way to compare zero backends.
    pub fn new(backends: Vec<Backend>) -> (r: Result<PvmApiCollection, Error>)
        requires
            forall|i: int| 0 <= i < backends@.len() ==> backends@[i].wf(),
        ensures
            backends@.len() == 0 <==> r is Err,
            r matches Ok(c) ==> c.wf() && c.backends() == backends@ && c.divergence_log()
                == Seq::<DivergenceRecord>::empty(),
            r matches Err(e) ==> e@ == ErrorModel::Other("no backends configured"@),
    {
        if backends.is_empty() {
            Err(Error::Other(String::from_str("no backends configured")))
        } else {
            Ok(PvmApiCollection { backends, divergences: Vec::new() })
        }
    }

    /// How many backends the runner drives.
    pub fn len(&self) -> (r: usize)
        ensures
            r == self.backends().len(),
    {
        self.backends.len()
    }

    /// The divergence log accumulated so far.
    pub fn divergences(&self) -> (r: &Vec<DivergenceRecord>)
        ensures
            r@ == self.divergence_log(),
    {
        &self.divergences
    }

    /// Forgets the recorded divergences, e.g. between test vectors.
    pub fn clear_divergences(&mut self)
        requires
            old(self).wf(),
        ensures
            final(self).wf(),
            final(self).backends() == old(self).backends(),
            final(self).divergence_log() == Seq::<DivergenceRecord>::empty(),
    {
        self.divergences.clear();
    }

    /// Reads the merged gas: backend 0's value, with one record per
    /// disagreeing backend.
    pub fn gas(&mut self) -> (r: i64)
        requires
            old(self).wf(),
        ensures
            final(self).wf(),
            final(self).backends() == old(self).backends(),
            r == old(self).backends()[0].output().gas,
            final(self).divergence_log() == old(self).divergence_log() + gas_divergences(
                gas_outputs(old(self).backends()),
            ),
    {
        let ghost s = gas_outputs(self.backends@);
        let mut result = self.backends[0].gas();
        let mut i: usize = 1;
        while i < self.backends.len()
            invariant
                1 <= i <= self.backends@.len(),
                self.backends@ == old(self).backends@,
                old(self).wf(),
                s == gas_outputs(self.backends@),
                result == s[0],
                self.divergences@ == old(self).divergences@ + gas_divergences_upto(s, i as int),
            decreases self.backends@.len() - i,
        {
            proof {
                assert(s[i as int] == self.backends@[i as int].output().gas);
            }
            let g = self.backends[i].gas();
            result = propagate_gas(result, g, &mut self.divergences);
            i = i + 1;
        }
        result
    }

    /// Configures the initial gas on every backend, in index order.
    pub fn set_gas(&mut self, gas: i64)
        requires
            old(self).wf(),
        ensures
            final(self).wf(),
            final(self).backends().len() == old(self).backends().len(),
            forall|j: int|
                0 <= j < final(self).backends().len() ==> final(self).backends()[j].pending()
                    == old(self).backends()[j].pending().with_gas(gas) && final(self).backends()[j].output() == old(self).backends()[j].output(),
            final(self).divergence_log() == old(self).divergence_log(),
    {
        let mut i: usize = 0;
        while i < self.backends.len()
            invariant
                i <= self.backends@.len(),
                self.backends@.len() == old(self).backends@.len(),
                old(self).wf(),
                forall|j: int|
                    0 <= j < i ==> self.backends@[j].wf() && self.backends@[j].pending() == old(self).backends@[j].pending().with_gas(gas) && self.backends@[j].output() == old(self).backends@[j].output(),
                forall|j: int|
                    i <= j < self.backends@.len() ==> self.backends@[j] == old(self).backends@[j],
                self.divergences@ == old(self).divergences@,
            decreases self.backends@.len() - i,
        {
            self.backends[i].set_gas(gas);
            i = i + 1;
        }
    }

    /// Reads the merged register file: backend 0's values, with one record
    /// per disagreeing backend.
    pub fn registers(&mut self) -> (r: [u64; 13])
        requires
            old(self).wf(),
        ensures
            final(self).wf(),
            final(self).backends() == old(self).backends(),
            r@ == old(self).backends()[0].output().registers,
            final(self).divergence_log() == old(self).divergence_log() + register_divergences(
                register_outputs(old(self).backends()),
            ),
    {
        let ghost s = register_outputs(self.backends@);
        let mut result = self.backends[0].registers();
        proof {
            assert(s[0] == output_register_file(self.backends@[0]));
            lemma_register_file_view(self.backends@[0]);
            assert(result =~= s[0]);
        }
        let mut i: usize = 1;
        while i < self.backends.len()
            invariant
                1 <= i <= self.backends@.len(),
                self.backends@ == old(self).backends@,
                old(self).wf(),
                s == register_outputs(self.backends@),
                result == s[0],
                self.divergences@ == old(self).divergences@ + register_divergences_upto(
                    s,
                    i as int,
                ),
            decreases self.backends@.len() - i,
        {
            let g = self.backends[i].registers();
            proof {
                assert(s[i as int] == output_register_file(self.backends@[i as int]));
                lemma_register_file_view(self.backends@[i as int]);
                assert(g =~= s[i as int]);
            }
            result = propagate_registers(result, g, &mut self.divergences);
            i = i + 1;
        }
        result
    }

    /// Configures the initial register file on every backend, in index
    /// order.
    pub fn set_registers(&mut self, registers: &[u64; 13])
        requires
            old(self).wf(),
        ensures
            final(self).wf(),
            final(self).backends().len() == old(self).backends().len(),
            forall|j: int|
                0 <= j < final(self).backends().len() ==> final(self).backends()[j].pending()
                    == old(self).backends()[j].pending().with_registers(registers@) && final(self).backends()[j].output() == old(self).backends()[j].output(),
            final(self).divergence_log() == old(self).divergence_log(),
    {
        let mut i: usize = 0;
        while i < self.backends.len()
            invariant
                i <= self.backends@.len(),
                self.backends@.len() == old(self).backends@.len(),
                old(self).wf(),
                forall|j: int|
                    0 <= j < i ==> self.backends@[j].wf() && self.backends@[j].pending() == old(self).backends@[j].pending().with_registers(registers@) && self.backends@[j].output()
                        == old(self).backends@[j].output(),
                forall|j: int|
                    i <= j < self.backends@.len() ==> self.backends@[j] == old(self).backends@[j],
                self.divergences@ == old(self).divergences@,
            decreases self.backends@.len() - i,
        {
            self.backends[i].set_registers(registers);
            i = i + 1;
        }
    }

    /// Reads the merged program counter: backend 0's value, with one record
    /// per disagreeing backend.
    pub fn program_counter(&mut self) -> (r: Option<u32>)
        requires
            old(self).wf(),
        ensures
            final(self).wf(),
            final(self).backends() == old(self).backends(),
            r == old(self).backends()[0].output().pc,
            final(self).divergence_log() == old(self).divergence_log() + pc_divergences(
                pc_outputs(old(self).backends()),
            ),
    {
        let ghost s = pc_outputs(self.backends@);
        let mut result = self.backends[0].program_counter();
        let mut i: usize = 1;
        while i < self.backends.len()
            invariant
                1 <= i <= self.backends@.len(),
                self.backends@ == old(self).backends@,
                old(self).wf(),
                s == pc_outputs(self.backends@),
                result == s[0],
                self.divergences@ == old(self).divergences@ + pc_divergences_upto(s, i as int),
            decreases self.backends@.len() - i,
        {
            proof {
                assert(s[i as int] == self.backends@[i as int].output().pc);
            }
            let g = self.backends[i].program_counter();
            result = propagate_pc(result, g, &mut self.divergences);
            i = i + 1;
        }
        result
    }

    /// Configures where the next run starts, on every backend in index
    /// order.
    pub fn set_next_program_counter(&mut self, pc: u32)
        requires
            old(self).wf(),
        ensures
            final(self).wf(),
            final(self).backends().len() == old(self).backends().len(),
            forall|j: int|
                0 <= j < final(self).backends().len() ==> final(self).backends()[j].pending()
                    == old(self).backends()[j].pending().with_pc(pc) && final(self).backends()[j].output() == old(self).backends()[j].output(),
            final(self).divergence_log() == old(self).divergence_log(),
    {
        let mut i: usize = 0;
        while i < self.backends.len()
            invariant
                i <= self.backends@.len(),
                self.backends@.len() == old(self).backends@.len(),
                old(self).wf(),
                forall|j: int|
                    0 <= j < i ==> self.backends@[j].wf() && self.backends@[j].pending() == old(self).backends@[j].pending().with_pc(pc) && self.backends@[j].output() == old(self).backends@[j].output(),
                forall|j: int|
                    i <= j < self.backends@.len() ==> self.backends@[j] == old(self).backends@[j],
                self.divergences@ == old(self).divergences@,
            decreases self.backends@.len() - i,
        {
            self.backends[i].set_next_program_counter(pc);
            i = i + 1;
        }
    }

    /// Stores the program on every backend, in index order and
    /// unconditionally, so sibling state stays synchronized even when one
    /// backend rejects the container; the per-backend results are folded
    /// with the error-dominant merge. A backend that rejects the container
    /// keeps all its previously stored state.
    pub fn set_program(&mut self, code: &[u8], container: ProgramContainer) -> (r: Result<
        (),
        Error,
    >)
        requires
            old(self).wf(),
        ensures
            final(self).wf(),
            final(self).backends().len() == old(self).backends().len(),
            forall|j: int|
                0 <= j < final(self).backends().len() ==> if old(self).backends()[j].accepts_container(container) {
                    final(self).backends()[j].pending() == old(self).backends()[j].pending().with_program(code@, container)
                } else {
                    final(self).backends()[j].pending() == old(self).backends()[j].pending()
                },
            forall|j: int|
                0 <= j < final(self).backends().len() ==> final(self).backends()[j].output()
                    == old(self).backends()[j].output(),
            unit_result_model(r) == folded_unit(
                set_program_outcomes(old(self).backends(), container),
                old(self).backends().len() as int,
            ),
            final(self).divergence_log() == old(self).divergence_log() + folded_unit_records(
                set_program_outcomes(old(self).backends(), container),
                old(self).backends().len() as int,
                Operation::SetProgram,
            ),
    {
        let ghost s = set_program_outcomes(self.backends@, container);
        let first = self.backends[0].set_program(code, container);
        proof {
            assert(s[0] == set_program_outcome(old(self).backends@[0], container));
        }
        let mut acc = first;
        let mut i: usize = 1;
        while i < self.backends.len()
            invariant
                1 <= i <= self.backends@.len(),
                self.backends@.len() == old(self).backends@.len(),
                old(self).wf(),
                s == set_program_outcomes(old(self).backends@, container),
                forall|j: int|
                    0 <= j < i ==> self.backends@[j].wf() && (if old(self).backends@[j].accepts_container(container) {
                        self.backends@[j].pending() == old(self).backends@[j].pending().with_program(code@, container)
                    } else {
                        self.backends@[j].pending() == old(self).backends@[j].pending()
                    }) && self.backends@[j].output() == old(self).backends@[j].output(),
                forall|j: int|
                    i <= j < self.backends@.len() ==> self.backends@[j] == old(self).backends@[j],
                unit_result_model(acc) == folded_unit(s, i as int),
                self.divergences@ == old(self).divergences@ + folded_unit_records(
                    s,
                    i as int,
                    Operation::SetProgram,
                ),
            decreases self.backends@.len() - i,
        {
            proof {
                assert(s[i as int] == set_program_outcome(old(self).backends@[i as int], container));
            }
            let next = self.backends[i].set_program(code, container);
            acc = propagate_unit_result(acc, next, Operation::SetProgram, &mut self.divergences);
            i = i + 1;
        }
        acc
    }

    /// Memory page configuration is not supported by any backend here; the
    /// broadcast still reaches every backend, each tells the runner so
    /// explicitly, and the merged result is the explicit failure.
    pub fn set_page(&mut self, page: u32, access: MemoryAccess) -> (r: Result<(), Error>)
        requires
            old(self).wf(),
        ensures
            final(self).wf(),
            final(self).backends() == old(self).backends(),
            r matches Err(e) && e@ == ErrorModel::Other("not supported"@),
            final(self).divergence_log() == old(self).divergence_log() + folded_unit_records(
                unsupported_outcomes(old(self).backends().len()),
                old(self).backends().len() as int,
                Operation::SetPage,
            ),
    {
        let ghost s = unsupported_outcomes(self.backends@.len());
        let first = self.backends[0].set_page(page, access);
        let mut acc = first;
        let mut i: usize = 1;
        while i < self.backends.len()
            invariant
                1 <= i <= self.backends@.len(),
                self.backends@ == old(self).backends@,
                old(self).wf(),
                s == unsupported_outcomes(self.backends@.len()),
                unit_result_model(acc) == folded_unit(s, i as int),
                acc matches Err(e) && e@ == ErrorModel::Other("not supported"@),
                self.divergences@ == old(self).divergences@ + folded_unit_records(
                    s,
                    i as int,
                    Operation::SetPage,
                ),
            decreases self.backends@.len() - i,
        {
            let next = self.backends[i].set_page(page, access);
            acc = propagate_unit_result(acc, next, Operation::SetPage, &mut self.divergences);
            i = i + 1;
        }
        acc
    }

    /// Memory reads have no merge policy in this runner: the caller is told
    /// "not supported" outright, before any backend is asked.
    pub fn read_memory(&self, address: u32, length: u32) -> (r: Result<Vec<u8>, Error>)
        requires
            self.wf(),
        ensures
            r matches Err(e) && e@ == ErrorModel::Other("not supported"@),
    {
        Err(Error::Other(String::from_str("not supported")))
    }

    /// Memory writes are not supported by any backend here; as with
    /// `set_page`, the broadcast reaches every backend and the merged
    /// result is the explicit failure.
    pub fn write_memory(&mut self, address: u32, data: &[u8]) -> (r: Result<(), Error>)
        requires
            old(self).wf(),
        ensures
            final(self).wf(),
            final(self).backends() == old(self).backends(),
            r matches Err(e) && e@ == ErrorModel::Other("not supported"@),
            final(self).divergence_log() == old(self).divergence_log() + folded_unit_records(
                unsupported_outcomes(old(self).backends().len()),
                old(self).backends().len() as int,
                Operation::WriteMemory,
            ),
    {
        let ghost s = unsupported_outcomes(self.backends@.len());
        let first = self.backends[0].write_memory(address, data);
        let mut acc = first;
        let mut i: usize = 1;
        while i < self.backends.len()
            invariant
                1 <= i <= self.backends@.len(),
                self.backends@ == old(self).backends@,
                old(self).wf(),
                s == unsupported_outcomes(self.backends@.len()),
                unit_result_model(acc) == folded_unit(s, i as int),
                acc matches Err(e) && e@ == ErrorModel::Other("not supported"@),
                self.divergences@ == old(self).divergences@ + folded_unit_records(
                    s,
                    i as int,
                    Operation::WriteMemory,
                ),
            decreases self.backends@.len() - i,
        {
            let next = self.backends[i].write_memory(address, data);
            acc = propagate_unit_result(acc, next, Operation::WriteMemory, &mut self.divergences);
            i = i + 1;
        }
        acc
    }

    /// Names, for every backend in index order, the outward action the host
    /// must perform for one run, or the error that backend already knows
    /// the run must fail with.
    pub fn prepare_run(&self) -> (r: Vec<Result<RunAction, Error>>)
        requires
            self.wf(),
        ensures
            r@.len() == self.backends().len(),
            forall|j: int|
                0 <= j < r@.len() ==> action_result_matches(r@[j], self.backends()[j].prepare()),
    {
        let mut actions: Vec<Result<RunAction, Error>> = Vec::new();
        let mut i: usize = 0;
        while i < self.backends.len()
            invariant
                i <= self.backends@.len(),
                self.wf(),
                actions@.len() == i,
                forall|j: int|
                    0 <= j < i ==> action_result_matches(
                        actions@[j],
                        self.backends@[j].prepare(),
                    ),
            decreases self.backends@.len() - i,
        {
            let a = self.backends[i].prepare_run();
            actions.push(a);
            i = i + 1;
        }
        actions
    }

    /// Interprets, on every backend in index order, what the host handed
    /// back for one run, and folds the per-backend statuses with the
    /// error-dominant merge: a single backend's hard failure propagates as
    /// the runner's failure, while a mismatch between successes is recorded
    /// and backend 0's status is reported. Every backend interprets its
    /// event even if an earlier one failed, so test state stays
    /// synchronized. The events must be handed back one per backend.
    pub fn complete_run(&mut self, events: &Vec<RunEvent>) -> (r: Result<Status, Error>)
        requires
            old(self).wf(),
        ensures
            final(self).wf(),
            final(self).backends().len() == old(self).backends().len(),
            events@.len() != old(self).backends().len() ==> *final(self) == *old(self) && (
            r matches Err(e) && e@ == ErrorModel::Other("one event per backend is required"@)),
            events@.len() == old(self).backends().len() ==> {
                &&& forall|j: int|
                    0 <= j < final(self).backends().len() ==> final(self).backends()[j].pending()
                        == old(self).backends()[j].pending() && final(self).backends()[j].output()
                        == old(self).backends()[j].output_after(events@[j]@)
                &&& status_result_model(r) == folded_status(
                    run_interpretations(old(self).backends(), events@),
                    old(self).backends().len() as int,
                )
                &&& final(self).divergence_log() == old(self).divergence_log()
                    + folded_status_records(
                    run_interpretations(old(self).backends(), events@),
                    old(self).backends().len() as int,
                    Operation::Run,
                )
            },
    {
        if events.len() != self.backends.len() {
            return Err(Error::Other(String::from_str("one event per backend is required")));
        }
        let ghost s = run_interpretations(self.backends@, events@);
        let first = self.backends[0].complete_run(&events[0]);
        proof {
            assert(s[0] == old(self).backends@[0].interpretation(events@[0]@));
        }
        let mut acc = first;
        let mut i: usize = 1;
        while i < self.backends.len()
            invariant
                1 <= i <= self.backends@.len(),
                self.backends@.len() == old(self).backends@.len(),
                events@.len() == old(self).backends@.len(),
                old(self).wf(),
                s == run_interpretations(old(self).backends@, events@),
                forall|j: int|
                    0 <= j < i ==> self.backends@[j].wf() && self.backends@[j].pending() == old(self).backends@[j].pending() && self.backends@[j].output() == old(self).backends@[j].output_after(events@[j]@),
                forall|j: int|
                    i <= j < self.backends@.len() ==> self.backends@[j] == old(self).backends@[j],
                status_result_model(acc) == folded_status(s, i as int),
                self.divergences@ == old(self).divergences@ + folded_status_records(
                    s,
                    i as int,
                    Operation::Run,
                ),
            decreases self.backends@.len() - i,
        {
            proof {
                assert(s[i as int] == old(self).backends@[i as int].interpretation(
                    events@[i as int]@,
                ));
            }
            let next = self.backends[i].complete_run(&events[i]);
            acc = propagate_status_result(acc, next, Operation::Run, &mut self.divergences);
            i = i + 1;
        }
        acc
    }
}

/// The view of a backend's stored output register file is exactly the
/// output model's register sequence.
proof fn lemma_register_file_view(b: Backend)
    ensures
        output_register_file(b)@ == b.output().registers,
{
}

} // verus!
