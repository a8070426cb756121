//! The test-vector document: the schema shared by the test driver and the
//! subprocess wire protocol, and its verified JSON encoding. The request
//! sent to a subprocess backend is exactly `json_of_testcase` of the stored
//! document.

use vstd::prelude::*;
use vstd::string::StringExecFns;

verus! {

broadcast use vstd::array::group_array_axioms;

/// Relies on alloc's `String::push`: appends exactly one character.
pub assume_specification[ String::push ](s: &mut String, c: char)
    ensures
        final(s)@ == old(s)@.push(c),
;

/// One entry of the initial page map.
#[derive(PartialEq, Eq, Structural, Copy, Clone, Debug)]
pub struct Page {
    pub address: u32,
    pub length: u32,
    pub is_writable: bool,
}

/// One contiguous span of initial or expected memory contents.
#[derive(Debug)]
pub struct MemoryChunk {
    pub address: u32,
    pub contents: Vec<u8>,
}

/// Model of a `MemoryChunk`.
#[verifier::ext_equal]
pub struct MemoryChunkModel {
    pub address: u32,
    pub contents: Seq<u8>,
}

impl View for MemoryChunk {
    type V = MemoryChunkModel;

    open spec fn view(&self) -> MemoryChunkModel {
        MemoryChunkModel { address: self.address, contents: self.contents@ }
    }
}

/// One full test-vector description. The same schema serves as the
/// subprocess protocol's request body, and as its response body with the
/// `expected_*` fields carrying the backend's actual results.
#[derive(Debug)]
pub struct TestcaseJson {
    pub name: String,
    pub initial_regs: [u64; 13],
    pub initial_pc: u32,
    pub initial_page_map: Vec<Page>,
    pub initial_memory: Vec<MemoryChunk>,
    pub initial_gas: i64,
    pub program: Vec<u8>,
    pub expected_status: String,
    pub expected_regs: Vec<u64>,
    pub expected_pc: u32,
    pub expected_memory: Vec<MemoryChunk>,
    pub expected_gas: i64,
}

/// Model of a `TestcaseJson`.
#[verifier::ext_equal]
pub struct TestcaseJsonModel {
    pub name: Seq<char>,
    pub initial_regs: Seq<u64>,
    pub initial_pc: u32,
    pub initial_page_map: Seq<Page>,
    pub initial_memory: Seq<MemoryChunkModel>,
    pub initial_gas: i64,
    pub program: Seq<u8>,
    pub expected_status: Seq<char>,
    pub expected_regs: Seq<u64>,
    pub expected_pc: u32,
    pub expected_memory: Seq<MemoryChunkModel>,
    pub expected_gas: i64,
}

impl View for TestcaseJson {
    type V = TestcaseJsonModel;

    open spec fn view(&self) -> TestcaseJsonModel {
        TestcaseJsonModel {
            name: self.name@,
            initial_regs: self.initial_regs@,
            initial_pc: self.initial_pc,
            initial_page_map: self.initial_page_map@,
            initial_memory: self.initial_memory@.map_values(|c: MemoryChunk| c@),
            initial_gas: self.initial_gas,
            program: self.program@,
            expected_status: self.expected_status@,
            expected_regs: self.expected_regs@,
            expected_pc: self.expected_pc,
            expected_memory: self.expected_memory@.map_values(|c: MemoryChunk| c@),
            expected_gas: self.expected_gas,
        }
    }
}

impl TestcaseJsonModel {
    /// The empty document: empty strings, zero registers, empty collections.
    pub open spec fn initial() -> TestcaseJsonModel {
        TestcaseJsonModel {
            name: Seq::empty(),
            initial_regs: crate::api::common::zero_registers(),
            initial_pc: 0u32,
            initial_page_map: Seq::empty(),
            initial_memory: Seq::empty(),
            initial_gas: 0i64,
            program: Seq::empty(),
            expected_status: Seq::empty(),
            expected_regs: Seq::empty(),
            expected_pc: 0u32,
            expected_memory: Seq::empty(),
            expected_gas: 0i64,
        }
    }
}

impl Default for TestcaseJson {
    fn default() -> (r: TestcaseJson)
        ensures
            r@ == TestcaseJsonModel::initial(),
    {
        let r = TestcaseJson {
            name: String::new(),
            initial_regs: [0u64; 13],
            initial_pc: 0u32,
            initial_page_map: Vec::new(),
            initial_memory: Vec::new(),
            initial_gas: 0i64,
            program: Vec::new(),
            expected_status: String::new(),
            expected_regs: Vec::new(),
            expected_pc: 0u32,
            expected_memory: Vec::new(),
            expected_gas: 0i64,
        };
        proof {
            assert(r@.initial_regs =~= crate::api::common::zero_registers());
            assert(r@.initial_memory =~= Seq::<MemoryChunkModel>::empty());
            assert(r@.expected_memory =~= Seq::<MemoryChunkModel>::empty());
            assert(r@ =~= TestcaseJsonModel::initial());
        }
        r
    }
}

/// The decimal digit character of one value below ten.
pub open spec fn dec_digit(d: nat) -> char {
    if d == 0 {
        '0'
    } else if d == 1 {
        '1'
    } else if d == 2 {
        '2'
    } else if d == 3 {
        '3'
    } else if d == 4 {
        '4'
    } else if d == 5 {
        '5'
    } else if d == 6 {
        '6'
    } else if d == 7 {
        '7'
    } else if d == 8 {
        '8'
    } else {
        '9'
    }
}

/// The decimal rendering of a natural number, most significant digit first,
/// with no leading zeroes (except for zero itself).
pub open spec fn dec_nat(n: nat) -> Seq<char>
    decreases n,
{
    if n < 10 {
        seq![dec_digit(n)]
    } else {
        dec_nat(n / 10) + seq![dec_digit(n % 10)]
    }
}

/// The decimal rendering of a signed value: a minus sign and the rendering
/// of the magnitude, or just the magnitude when non-negative.
pub open spec fn dec_i64(n: i64) -> Seq<char> {
    if n < 0 {
        seq!['-'] + dec_nat((-(n as int)) as nat)
    } else {
        dec_nat(n as nat)
    }
}

/// The lower-case hexadecimal digit character of one value below sixteen.
pub open spec fn hex_digit(d: nat) -> char {
    if d < 10 {
        dec_digit(d)
    } else if d == 10 {
        'a'
    } else if d == 11 {
        'b'
    } else if d == 12 {
        'c'
    } else if d == 13 {
        'd'
    } else if d == 14 {
        'e'
    } else {
        'f'
    }
}

/// The JSON escape of one character: quote and backslash get a backslash
/// escape, control characters a `\u00..` escape, everything else passes
/// through unchanged.
pub open spec fn escaped_char(c: char) -> Seq<char> {
    if c == '"' {
        seq!['\\', '"']
    } else if c == '\\' {
        seq!['\\', '\\']
    } else if (c as nat) < 32 {
        seq!['\\', 'u', '0', '0', hex_digit((c as nat) / 16), hex_digit((c as nat) % 16)]
    } else {
        seq![c]
    }
}

/// The JSON escape of the first `i` characters of a string.
pub open spec fn escaped_upto(s: Seq<char>, i: int) -> Seq<char>
    decreases i,
{
    if i <= 0 {
        Seq::empty()
    } else {
        escaped_upto(s, i - 1) + escaped_char(s[i - 1])
    }
}

/// The JSON escape of a whole string, without the surrounding quotes.
pub open spec fn escaped(s: Seq<char>) -> Seq<char> {
    escaped_upto(s, s.len() as int)
}

/// A JSON string literal: quotes around the escaped contents.
pub open spec fn json_string(s: Seq<char>) -> Seq<char> {
    seq!['"'] + escaped(s) + seq!['"']
}

/// A JSON boolean literal.
pub open spec fn json_bool(b: bool) -> Seq<char> {
    if b {
        "true"@
    } else {
        "false"@
    }
}

/// The comma-separated renderings of the first `i` values of a sequence of
/// unsigned numbers.
pub open spec fn u64_items_upto(s: Seq<u64>, i: int) -> Seq<char>
    decreases i,
{
    if i <= 0 {
        Seq::empty()
    } else if i == 1 {
        dec_nat(s[0] as nat)
    } else {
        u64_items_upto(s, i - 1) + seq![','] + dec_nat(s[i - 1] as nat)
    }
}

/// A JSON array of unsigned numbers.
pub open spec fn json_u64_array(s: Seq<u64>) -> Seq<char> {
    seq!['['] + u64_items_upto(s, s.len() as int) + seq![']']
}

/// The comma-separated renderings of the first `i` values of a byte sequence.
pub open spec fn byte_items_upto(s: Seq<u8>, i: int) -> Seq<char>
    decreases i,
{
    if i <= 0 {
        Seq::empty()
    } else if i == 1 {
        dec_nat(s[0] as nat)
    } else {
        byte_items_upto(s, i - 1) + seq![','] + dec_nat(s[i - 1] as nat)
    }
}

/// A JSON array of byte values, rendered as numbers.
pub open spec fn json_byte_array(s: Seq<u8>) -> Seq<char> {
    seq!['['] + byte_items_upto(s, s.len() as int) + seq![']']
}

/// The JSON object describing one page-map entry.
pub open spec fn json_page(p: Page) -> Seq<char> {
    "{\"address\":"@ + dec_nat(p.address as nat) + ",\"length\":"@ + dec_nat(p.length as nat)
        + ",\"is-writable\":"@ + json_bool(p.is_writable) + "}"@
}

/// The comma-separated renderings of the first `i` page-map entries.
pub open spec fn page_items_upto(s: Seq<Page>, i: int) -> Seq<char>
    decreases i,
{
    if i <= 0 {
        Seq::empty()
    } else if i == 1 {
        json_page(s[0])
    } else {
        page_items_upto(s, i - 1) + seq![','] + json_page(s[i - 1])
    }
}

/// A JSON array of page-map entries.
pub open spec fn json_page_array(s: Seq<Page>) -> Seq<char> {
    seq!['['] + page_items_upto(s, s.len() as int) + seq![']']
}

/// The JSON object describing one memory chunk.
pub open spec fn json_chunk(c: MemoryChunkModel) -> Seq<char> {
    "{\"address\":"@ + dec_nat(c.address as nat) + ",\"contents\":"@ + json_byte_array(c.contents)
        + "}"@
}

/// The comma-separated renderings of the first `i` memory chunks.
pub open spec fn chunk_items_upto(s: Seq<MemoryChunkModel>, i: int) -> Seq<char>
    decreases i,
{
    if i <= 0 {
        Seq::empty()
    } else if i == 1 {
        json_chunk(s[0])
    } else {
        chunk_items_upto(s, i - 1) + seq![','] + json_chunk(s[i - 1])
    }
}

/// A JSON array of memory chunks.
pub open spec fn json_chunk_array(s: Seq<MemoryChunkModel>) -> Seq<char> {
    seq!['['] + chunk_items_upto(s, s.len() as int) + seq![']']
}

/// The complete JSON document of a test-vector description, with the exact
/// field order and kebab-case field names of the wire schema.
pub open spec fn json_of_testcase(t: TestcaseJsonModel) -> Seq<char> {
    "{\"name\":"@ + json_string(t.name) + ",\"initial-regs\":"@ + json_u64_array(t.initial_regs)
        + ",\"initial-pc\":"@ + dec_nat(t.initial_pc as nat) + ",\"initial-page-map\":"@
        + json_page_array(t.initial_page_map) + ",\"initial-memory\":"@
        + json_chunk_array(t.initial_memory) + ",\"initial-gas\":"@ + dec_i64(t.initial_gas)
        + ",\"program\":"@ + json_byte_array(t.program) + ",\"expected-status\":"@
        + json_string(t.expected_status) + ",\"expected-regs\":"@
        + json_u64_array(t.expected_regs) + ",\"expected-pc\":"@ + dec_nat(t.expected_pc as nat)
        + ",\"expected-memory\":"@ + json_chunk_array(t.expected_memory) + ",\"expected-gas\":"@
        + dec_i64(t.expected_gas) + "}"@
}

/// The decimal digit character of a value below ten.
fn digit_char(d: u8) -> (c: char)
    requires
        d < 10,
    ensures
        c == dec_digit(d as nat),
{
    match d {
        0 => '0',
        1 => '1',
        2 => '2',
        3 => '3',
        4 => '4',
        5 => '5',
        6 => '6',
        7 => '7',
        8 => '8',
        _ => '9',
    }
}

/// The lower-case hexadecimal digit character of a value below sixteen.
fn hex_char(d: u8) -> (c: char)
    requires
        d < 16,
    ensures
        c == hex_digit(d as nat),
{
    match d {
        0 => '0',
        1 => '1',
        2 => '2',
        3 => '3',
        4 => '4',
        5 => '5',
        6 => '6',
        7 => '7',
        8 => '8',
        9 => '9',
        10 => 'a',
        11 => 'b',
        12 => 'c',
        13 => 'd',
        14 => 'e',
        _ => 'f',
    }
}

/// The digit characters of `digits` in reverse order, each below ten.
spec fn rev_digits(digits: Seq<u8>) -> Seq<char> {
    Seq::new(digits.len(), |i: int| dec_digit(digits[digits.len() - 1 - i] as nat))
}

/// Appends the decimal rendering of an unsigned number.
fn append_dec_u64(out: &mut String, n: u64)
    ensures
        final(out)@ == old(out)@ + dec_nat(n as nat),
{
    if n == 0 {
        out.push('0');
        proof {
            assert(old(out)@.push('0') =~= old(out)@ + dec_nat(0nat));
        }
        return ;
    }
    let mut digits: Vec<u8> = Vec::new();
    let mut m: u64 = n;
    while m > 0
        invariant
            m > 0 ==> dec_nat(n as nat) == dec_nat(m as nat) + rev_digits(digits@),
            m == 0 ==> dec_nat(n as nat) == rev_digits(digits@),
            forall|i: int| 0 <= i < digits@.len() ==> digits@[i] < 10,
        decreases m,
    {
        let d: u8 = (m % 10) as u8;
        let ghost prior = digits@;
        digits.push(d);
        proof {
            assert(rev_digits(prior.push(d)) =~= seq![dec_digit(d as nat)] + rev_digits(prior));
        }
        m = m / 10;
    }
    let mut i: usize = digits.len();
    while i > 0
        invariant
            i <= digits@.len(),
            dec_nat(n as nat) == rev_digits(digits@),
            forall|j: int| 0 <= j < digits@.len() ==> digits@[j] < 10,
            out@ == old(out)@ + rev_digits(digits@).subrange(
                0,
                digits@.len() - i,
            ),
        decreases i,
    {
        let d = digits[i - 1];
        out.push(digit_char(d));
        proof {
            assert(rev_digits(digits@).subrange(0, digits@.len() - (i - 1)) =~= rev_digits(
                digits@,
            ).subrange(0, digits@.len() - i).push(dec_digit(digits@[i - 1] as nat)));
        }
        i = i - 1;
    }
    proof {
        assert(rev_digits(digits@).subrange(0, digits@.len() as int) =~= rev_digits(digits@));
    }
}

/// Appends the decimal rendering of a signed number.
fn append_dec_i64(out: &mut String, n: i64)
    ensures
        final(out)@ == old(out)@ + dec_i64(n),
{
    if n >= 0 {
        append_dec_u64(out, n as u64);
    } else {
        let magnitude: u64 = if n == i64::MIN {
            9223372036854775808u64
        } else {
            (-n) as u64
        };
        out.push('-');
        append_dec_u64(out, magnitude);
        proof {
            assert(magnitude as nat == (-(n as int)) as nat);
            assert(old(out)@.push('-') =~= old(out)@ + seq!['-']);
            assert(old(out)@ + seq!['-'] + dec_nat(magnitude as nat) =~= old(out)@ + (seq!['-']
                + dec_nat((-(n as int)) as nat)));
        }
    }
}

/// Appends the JSON escape of one character.
fn append_escaped_char(out: &mut String, c: char)
    ensures
        final(out)@ == old(out)@ + escaped_char(c),
{
    if c == '"' {
        out.push('\\');
        out.push('"');
        proof {
            assert(old(out)@.push('\\').push('"') =~= old(out)@ + escaped_char(c));
        }
    } else if c == '\\' {
        out.push('\\');
        out.push('\\');
        proof {
            assert(old(out)@.push('\\').push('\\') =~= old(out)@ + escaped_char(c));
        }
    } else {
        let v = c as u32;
        if v < 32 {
            out.push('\\');
            out.push('u');
            out.push('0');
            out.push('0');
            out.push(hex_char((v / 16) as u8));
            out.push(hex_char((v % 16) as u8));
            proof {
                assert(final(out)@ =~= old(out)@ + escaped_char(c));
            }
        } else {
            out.push(c);
            proof {
                assert(old(out)@.push(c) =~= old(out)@ + escaped_char(c));
            }
        }
    }
}

/// Appends the JSON escape of a whole string, without quotes.
fn append_escaped(out: &mut String, s: &str)
    ensures
        final(out)@ == old(out)@ + escaped(s@),
{
    let n = s.unicode_len();
    let mut i: usize = 0;
    while i < n
        invariant
            n == s@.len(),
            i <= n,
            out@ == old(out)@ + escaped_upto(s@, i as int),
        decreases n - i,
    {
        let c = s.get_char(i);
        append_escaped_char(out, c);
        i = i + 1;
    }
}

/// Appends a JSON string literal.
fn append_json_string(out: &mut String, s: &str)
    ensures
        final(out)@ == old(out)@ + json_string(s@),
{
    out.push('"');
    append_escaped(out, s);
    out.push('"');
    proof {
        assert(final(out)@ =~= old(out)@ + json_string(s@));
    }
}

/// Appends a JSON array of the first `len` values read through `items`.
fn append_u64_items(out: &mut String, items: &Vec<u64>)
    ensures
        final(out)@ == old(out)@ + json_u64_array(items@),
{
    out.push('[');
    let mut i: usize = 0;
    while i < items.len()
        invariant
            i <= items@.len(),
            out@ == old(out)@ + seq!['['] + u64_items_upto(items@, i as int),
        decreases items@.len() - i,
    {
        if i > 0 {
            out.push(',');
        }
        append_dec_u64(out, items[i]);
        i = i + 1;
    }
    out.push(']');
    proof {
        assert(final(out)@ =~= old(out)@ + json_u64_array(items@));
    }
}

/// Appends a JSON array of the register file's values.
fn append_registers(out: &mut String, registers: &[u64; 13])
    ensures
        final(out)@ == old(out)@ + json_u64_array(registers@),
{
    out.push('[');
    let mut i: usize = 0;
    while i < 13
        invariant
            i <= 13,
            registers@.len() == 13,
            out@ == old(out)@ + seq!['['] + u64_items_upto(registers@, i as int),
        decreases 13 - i,
    {
        if i > 0 {
            out.push(',');
        }
        append_dec_u64(out, registers[i]);
        i = i + 1;
    }
    out.push(']');
    proof {
        assert(final(out)@ =~= old(out)@ + json_u64_array(registers@));
    }
}

/// Appends a JSON array of byte values.
fn append_byte_items(out: &mut String, items: &Vec<u8>)
    ensures
        final(out)@ == old(out)@ + json_byte_array(items@),
{
    out.push('[');
    let mut i: usize = 0;
    while i < items.len()
        invariant
            i <= items@.len(),
            out@ == old(out)@ + seq!['['] + byte_items_upto(items@, i as int),
        decreases items@.len() - i,
    {
        if i > 0 {
            out.push(',');
        }
        append_dec_u64(out, items[i] as u64);
        i = i + 1;
    }
    out.push(']');
    proof {
        assert(final(out)@ =~= old(out)@ + json_byte_array(items@));
    }
}

/// Appends the JSON object of one page-map entry.
fn append_page(out: &mut String, p: &Page)
    ensures
        final(out)@ == old(out)@ + json_page(*p),
{
    out.append("{\"address\":");
    append_dec_u64(out, p.address as u64);
    out.append(",\"length\":");
    append_dec_u64(out, p.length as u64);
    out.append(",\"is-writable\":");
    if p.is_writable {
        out.append("true");
    } else {
        out.append("false");
    }
    out.append("}");
    proof {
        assert(final(out)@ =~= old(out)@ + json_page(*p));
    }
}

/// Appends a JSON array of page-map entries.
fn append_page_items(out: &mut String, items: &Vec<Page>)
    ensures
        final(out)@ == old(out)@ + json_page_array(items@),
{
    out.push('[');
    let mut i: usize = 0;
    while i < items.len()
        invariant
            i <= items@.len(),
            out@ == old(out)@ + seq!['['] + page_items_upto(items@, i as int),
        decreases items@.len() - i,
    {
        if i > 0 {
            out.push(',');
        }
        let p = items[i];
        append_page(out, &p);
        i = i + 1;
    }
    out.push(']');
    proof {
        assert(final(out)@ =~= old(out)@ + json_page_array(items@));
    }
}

/// Appends the JSON object of one memory chunk.
fn append_chunk(out: &mut String, c: &MemoryChunk)
    ensures
        final(out)@ == old(out)@ + json_chunk(c@),
{
    out.append("{\"address\":");
    append_dec_u64(out, c.address as u64);
    out.append(",\"contents\":");
    append_byte_items(out, &c.contents);
    out.append("}");
    proof {
        assert(final(out)@ =~= old(out)@ + json_chunk(c@));
    }
}

/// Appends a JSON array of memory chunks.
fn append_chunk_items(out: &mut String, items: &Vec<MemoryChunk>)
    ensures
        final(out)@ == old(out)@ + json_chunk_array(items@.map_values(|c: MemoryChunk| c@)),
{
    let ghost model = items@.map_values(|c: MemoryChunk| c@);
    out.push('[');
    let mut i: usize = 0;
    while i < items.len()
        invariant
            i <= items@.len(),
            model == items@.map_values(|c: MemoryChunk| c@),
            out@ == old(out)@ + seq!['['] + chunk_items_upto(model, i as int),
        decreases items@.len() - i,
    {
        if i > 0 {
            out.push(',');
        }
        append_chunk(out, &items[i]);
        proof {
            assert(model[i as int] == items@[i as int]@);
        }
        i = i + 1;
    }
    out.push(']');
    proof {
        assert(final(out)@ =~= old(out)@ + json_chunk_array(model));
    }
}

/// Encodes one test-vector description as its JSON document, with the exact
/// field order and kebab-case field names of the wire schema.
pub fn encode_testcase(t: &TestcaseJson) -> (r: String)
    ensures
        r@ == json_of_testcase(t@),
{
    let mut out = String::new();
    out.append("{\"name\":");
    append_json_string(&mut out, t.name.as_str());
    out.append(",\"initial-regs\":");
    append_registers(&mut out, &t.initial_regs);
    out.append(",\"initial-pc\":");
    append_dec_u64(&mut out, t.initial_pc as u64);
    out.append(",\"initial-page-map\":");
    append_page_items(&mut out, &t.initial_page_map);
    out.append(",\"initial-memory\":");
    append_chunk_items(&mut out, &t.initial_memory);
    out.append(",\"initial-gas\":");
    append_dec_i64(&mut out, t.initial_gas);
    out.append(",\"program\":");
    append_byte_items(&mut out, &t.program);
    out.append(",\"expected-status\":");
    append_json_string(&mut out, t.expected_status.as_str());
    out.append(",\"expected-regs\":");
    append_u64_items(&mut out, &t.expected_regs);
    out.append(",\"expected-pc\":");
    append_dec_u64(&mut out, t.expected_pc as u64);
    out.append(",\"expected-memory\":");
    append_chunk_items(&mut out, &t.expected_memory);
    out.append(",\"expected-gas\":");
    append_dec_i64(&mut out, t.expected_gas);
    out.append("}");
    proof {
        assert(out@ =~= json_of_testcase(t@));
    }
    out
}

} // verus!
