//! The subprocess wire protocol: the verified request encoder against an
//! independent JSON parser, and the blank-line response accumulator.

use pvm_harness::api::common::RunAction;
use pvm_harness::api::stdin::{JsonStdin, LineAccumulator};
use pvm_harness::api::{ProgramContainer, PvmApi};
use pvm_harness::json::{encode_testcase, MemoryChunk, Page, TestcaseJson};

#[test]
fn empty_document_encodes_exactly() {
    let doc = TestcaseJson::default();
    let encoded = encode_testcase(&doc);
    let expected = "{\"name\":\"\",\"initial-regs\":[0,0,0,0,0,0,0,0,0,0,0,0,0],\"initial-pc\":0,\"initial-page-map\":[],\"initial-memory\":[],\"initial-gas\":0,\"program\":[],\"expected-status\":\"\",\"expected-regs\":[],\"expected-pc\":0,\"expected-memory\":[],\"expected-gas\":0}";
    assert_eq!(encoded, expected);
}

#[test]
fn encoded_document_is_read_back_by_an_independent_parser() {
    let mut doc = TestcaseJson::default();
    doc.name = "inst_add_64".to_string();
    doc.initial_regs = [
        1, 2, 3, 4, 5, 6, 7, 8, 9, 10, 11, 12, 4294967296,
    ];
    doc.initial_pc = 16;
    doc.initial_page_map = vec![Page { address: 4096, length: 4096, is_writable: true }];
    doc.initial_memory = vec![MemoryChunk { address: 4096, contents: vec![0xde, 0xad] }];
    doc.initial_gas = -7;
    doc.program = vec![0, 1, 255];
    doc.expected_status = "halt".to_string();
    doc.expected_regs = vec![9, 9, 9];
    doc.expected_pc = 24;
    doc.expected_gas = i64::MIN;

    let encoded = encode_testcase(&doc);
    let v: serde_json::Value = serde_json::from_str(&encoded).unwrap();
    assert_eq!(v.get("name").unwrap().as_str().unwrap(), "inst_add_64");
    let regs: Vec<u64> = v
        .get("initial-regs")
        .unwrap()
        .as_array()
        .unwrap()
        .iter()
        .map(|x| x.as_u64().unwrap())
        .collect();
    assert_eq!(regs, doc.initial_regs.to_vec());
    assert_eq!(v.get("initial-pc").unwrap().as_u64().unwrap(), 16);
    let page = &v.get("initial-page-map").unwrap().as_array().unwrap()[0];
    assert_eq!(page.get("address").unwrap().as_u64().unwrap(), 4096);
    assert_eq!(page.get("length").unwrap().as_u64().unwrap(), 4096);
    assert_eq!(page.get("is-writable").unwrap().as_bool().unwrap(), true);
    let chunk = &v.get("initial-memory").unwrap().as_array().unwrap()[0];
    assert_eq!(chunk.get("address").unwrap().as_u64().unwrap(), 4096);
    let contents: Vec<u64> = chunk
        .get("contents")
        .unwrap()
        .as_array()
        .unwrap()
        .iter()
        .map(|x| x.as_u64().unwrap())
        .collect();
    assert_eq!(contents, vec![0xde, 0xad]);
    assert_eq!(v.get("initial-gas").unwrap().as_i64().unwrap(), -7);
    let program: Vec<u64> = v
        .get("program")
        .unwrap()
        .as_array()
        .unwrap()
        .iter()
        .map(|x| x.as_u64().unwrap())
        .collect();
    assert_eq!(program, vec![0, 1, 255]);
    assert_eq!(v.get("expected-status").unwrap().as_str().unwrap(), "halt");
    assert_eq!(v.get("expected-pc").unwrap().as_u64().unwrap(), 24);
    assert_eq!(v.get("expected-gas").unwrap().as_i64().unwrap(), i64::MIN);
}

#[test]
fn numeric_boundaries_encode_exactly() {
    let mut doc = TestcaseJson::default();
    doc.initial_regs[0] = u64::MAX;
    doc.initial_gas = -1;
    doc.expected_gas = i64::MAX;
    let encoded = encode_testcase(&doc);
    assert!(encoded.contains("\"initial-regs\":[18446744073709551615,0,"));
    assert!(encoded.contains("\"initial-gas\":-1,"));
    assert!(encoded.contains("\"expected-gas\":9223372036854775807}"));
    let v: serde_json::Value = serde_json::from_str(&encoded).unwrap();
    assert_eq!(
        v.get("initial-regs").unwrap().as_array().unwrap()[0]
            .as_u64()
            .unwrap(),
        u64::MAX
    );
    assert_eq!(v.get("initial-gas").unwrap().as_i64().unwrap(), -1);
    assert_eq!(v.get("expected-gas").unwrap().as_i64().unwrap(), i64::MAX);
}

#[test]
fn string_escaping_survives_an_independent_parser() {
    let mut doc = TestcaseJson::default();
    doc.name = "a\"b\\c\nd\te".to_string();
    let encoded = encode_testcase(&doc);
    let v: serde_json::Value = serde_json::from_str(&encoded).unwrap();
    assert_eq!(v.get("name").unwrap().as_str().unwrap(), "a\"b\\c\nd\te");
}

#[test]
fn request_frame_is_the_document_plus_one_blank_line() {
    let mut backend = JsonStdin::new();
    backend.set_gas(1000);
    backend
        .set_program(&[7, 8, 9], ProgramContainer::Generic)
        .unwrap();
    let action = backend.prepare_run().unwrap();
    let frame = match action {
        RunAction::Exchange(f) => f,
        _ => panic!("a subprocess backend must request an exchange"),
    };
    assert!(frame.ends_with("\n\n"));
    let body = &frame[..frame.len() - 2];
    assert!(!body.contains('\n'));
    let v: serde_json::Value = serde_json::from_str(body).unwrap();
    assert_eq!(v.get("initial-gas").unwrap().as_i64().unwrap(), 1000);
    let program: Vec<u64> = v
        .get("program")
        .unwrap()
        .as_array()
        .unwrap()
        .iter()
        .map(|x| x.as_u64().unwrap())
        .collect();
    assert_eq!(program, vec![7, 8, 9]);
}

#[test]
fn accumulator_withholds_payload_before_a_blank_line() {
    let mut acc = LineAccumulator::new();
    // The buffer so far is syntactically valid JSON, but the terminator has
    // not been read: nothing may be surrendered for parsing yet.
    acc.push_line("{\"expected-gas\":0}");
    assert!(!acc.complete());
    assert!(acc.payload().is_none());
    acc.push_line("");
    assert!(acc.complete());
    assert_eq!(acc.payload().unwrap(), "{\"expected-gas\":0}");
}

#[test]
fn accumulator_joins_multi_line_documents() {
    let mut acc = LineAccumulator::new();
    acc.push_line("{\"expected-gas\":");
    assert!(acc.payload().is_none());
    acc.push_line("  42}");
    assert!(acc.payload().is_none());
    acc.push_line("");
    assert_eq!(acc.payload().unwrap(), "{\"expected-gas\":  42}");
}

#[test]
fn accumulator_ignores_lines_after_the_terminator() {
    let mut acc = LineAccumulator::new();
    acc.push_line("payload");
    acc.push_line("");
    acc.push_line("trailing noise");
    assert_eq!(acc.payload().unwrap(), "payload");
}
