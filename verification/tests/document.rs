use std::collections::HashMap;

use cpt_bridge::convert::convert_meta;
use cpt_bridge::document::{
    document_outcome, measure_document, meta_document, record_is_short, SIZE_LIMIT,
};
use cpt_bridge::error::WriteError;
use cpt_bridge::model::{CCResponse, CPTProblemMeta, CPTProblemMetaTest, TestCase};
use serde::ser::SerializeStruct;
use serde::{Serialize, Serializer};
use serde_yaml::Value;

struct Names<'a>(&'a CPTProblemMetaTest);

struct Record<'a>(&'a CPTProblemMeta);

impl Serialize for Names<'_> {
    fn serialize<S: Serializer>(&self, serializer: S) -> Result<S::Ok, S::Error> {
        let mut fields = serializer.serialize_struct("CPTProblemMetaTest", 2)?;
        fields.serialize_field("input", &self.0.input)?;
        fields.serialize_field("output", &self.0.output)?;
        fields.end()
    }
}

impl Serialize for Record<'_> {
    fn serialize<S: Serializer>(&self, serializer: S) -> Result<S::Ok, S::Error> {
        let mut fields = serializer.serialize_struct("CPTProblemMeta", 3)?;
        fields.serialize_field("memoryLimit", &self.0.memory_limit)?;
        fields.serialize_field("timeLimit", &self.0.time_limit)?;
        fields.serialize_field("test", &Names(&self.0.test))?;
        fields.end()
    }
}

fn meta(memory_limit: &str, time_limit: &str, input: &[&str], output: &[&str]) -> CPTProblemMeta {
    CPTProblemMeta {
        memory_limit: memory_limit.to_string(),
        time_limit: time_limit.to_string(),
        test: CPTProblemMetaTest {
            input: input.iter().map(|s| s.to_string()).collect(),
            output: output.iter().map(|s| s.to_string()).collect(),
        },
    }
}

fn strings(value: &Value) -> Vec<String> {
    value
        .as_sequence()
        .expect("a sequence")
        .iter()
        .map(|item| item.as_str().expect("a string").to_string())
        .collect()
}

fn read_back(text: &str) -> CPTProblemMeta {
    let document: Value = serde_yaml::from_str(text).expect("valid YAML");
    let top = document.as_mapping().expect("a mapping at the top");
    assert_eq!(top.len(), 1);
    let record = top.get("problem").expect("the key problem");
    let fields = record.as_mapping().expect("a mapping under problem");
    assert_eq!(fields.len(), 3);
    let test = record.get("test").expect("the key test");
    assert_eq!(test.as_mapping().expect("a mapping under test").len(), 2);
    CPTProblemMeta {
        memory_limit: record.get("memoryLimit").and_then(Value::as_str).expect("memoryLimit").to_string(),
        time_limit: record.get("timeLimit").and_then(Value::as_str).expect("timeLimit").to_string(),
        test: CPTProblemMetaTest {
            input: strings(test.get("input").expect("input")),
            output: strings(test.get("output").expect("output")),
        },
    }
}

fn assert_same(a: &CPTProblemMeta, b: &CPTProblemMeta) {
    assert_eq!(a.memory_limit, b.memory_limit);
    assert_eq!(a.time_limit, b.time_limit);
    assert_eq!(a.test.input, b.test.input);
    assert_eq!(a.test.output, b.test.output);
}

#[test]
fn document_of_two_tests() {
    let record = meta("256 megabytes", "2 seconds", &["1.in", "2.in"], &["1.ans", "2.ans"]);
    let text = meta_document(&record).expect("the document renders");
    assert_eq!(
        text,
        "problem:\n  memoryLimit: 256 megabytes\n  timeLimit: 2 seconds\n  test:\n    input:\n    - 1.in\n    - 2.in\n    output:\n    - 1.ans\n    - 2.ans\n"
    );
}

#[test]
fn document_without_tests_has_empty_lists() {
    let record = meta("64 megabytes", "1 seconds", &[], &[]);
    let text = meta_document(&record).expect("the document renders");
    assert_eq!(
        text,
        "problem:\n  memoryLimit: 64 megabytes\n  timeLimit: 1 seconds\n  test:\n    input: []\n    output: []\n"
    );
    let back = read_back(&text);
    assert!(back.test.input.is_empty());
    assert!(back.test.output.is_empty());
}

#[test]
fn document_is_not_the_record_text_itself() {
    let record = meta("256 megabytes", "2 seconds", &["1.in"], &["1.ans"]);
    let text = meta_document(&record).expect("the document renders");
    assert_ne!(text, record.memory_limit);
    assert!(text.starts_with("problem:\n"));
    assert!(text.contains("memoryLimit: 256 megabytes\n"));
}

#[test]
fn document_keys_come_in_declaration_order() {
    let record = meta("1 megabytes", "1 seconds", &["1.in"], &["1.ans"]);
    let text = meta_document(&record).expect("the document renders");
    let memory = text.find("memoryLimit").expect("memoryLimit");
    let time = text.find("timeLimit").expect("timeLimit");
    let test = text.find("test:").expect("test");
    let input = text.find("input:").expect("input");
    let output = text.find("output:").expect("output");
    assert!(memory < time && time < test && test < input && input < output);
}

#[test]
fn document_matches_the_record_serialized_as_a_struct() {
    let records = [
        meta("256 megabytes", "2 seconds", &["1.in", "2.in"], &["1.ans", "2.ans"]),
        meta("0 megabytes", "-1 seconds", &[], &[]),
        meta("12", "true", &["null", "~", "1.5"], &["a: b", "- c", "#d"]),
        meta("", " padded ", &["two\nlines", "tab\there"], &["quote'd", "double\"d"]),
        meta("ünïcödé", "日本語", &["{i}.in"], &["!tag"]),
        meta("1 megabytes", "1 seconds", &["1.in"], &["1.ans", "2.ans", "3.ans"]),
    ];
    for record in records.iter() {
        let text = meta_document(record).expect("the document renders");
        let expected = serde_yaml::to_string(&HashMap::from([("problem", Record(record))]))
            .expect("serde_yaml renders the struct");
        assert_eq!(text, expected);
    }
}

#[test]
fn document_reads_back_as_the_same_record() {
    let records = [
        meta("256 megabytes", "2 seconds", &["1.in", "2.in"], &["1.ans", "2.ans"]),
        meta("0 megabytes", "0 seconds", &[], &[]),
        meta("12", "true", &["null", "~", "1.5", "0x10"], &["a: b", "- c", "#d", "yes"]),
        meta("", " padded ", &["two\nlines", "tab\there", ""], &["quote'd", "double\"d", " "]),
        meta("ünïcödé", "日本語", &["{i}.in"], &["!tag"]),
        meta("-5 megabytes", "-5 seconds", &["1.in"], &[]),
    ];
    for record in records.iter() {
        let text = meta_document(record).expect("the document renders");
        assert_same(&read_back(&text), record);
    }
}

#[test]
fn document_of_a_converted_problem_reads_back() {
    let resp = CCResponse {
        name: "A".to_string(),
        group: "G".to_string(),
        url: "http://x".to_string(),
        memory_limit: 256,
        time_limit: 2,
        tests: vec![
            TestCase { input: "1 2\n".to_string(), output: "3\n".to_string() },
            TestCase { input: "5 5\n".to_string(), output: "10\n".to_string() },
        ],
    };
    let record = convert_meta(&resp);
    let text = meta_document(&record).expect("the document renders");
    let back = read_back(&text);
    assert_eq!(back.memory_limit, "256 megabytes");
    assert_eq!(back.time_limit, "2 seconds");
    assert_eq!(back.test.input, vec!["1.in".to_string(), "2.in".to_string()]);
    assert_eq!(back.test.output, vec!["1.ans".to_string(), "2.ans".to_string()]);
}

#[test]
fn rendering_twice_gives_the_same_text() {
    let record = meta("256 megabytes", "2 seconds", &["1.in", "2.in"], &["1.ans", "2.ans"]);
    let first = meta_document(&record).expect("the document renders");
    let second = meta_document(&record).expect("the document renders");
    assert_eq!(first, second);
}

#[test]
fn a_rendered_text_is_passed_on() {
    match document_outcome(Ok("problem: {}\n".to_string())) {
        Ok(text) => assert_eq!(text, "problem: {}\n"),
        Err(error) => panic!("unexpected error: {}", error.message()),
    }
}

#[test]
fn a_failed_rendering_names_the_document() {
    match document_outcome(Err("no space left".to_string())) {
        Err(WriteError::Io { path, detail }) => {
            assert_eq!(path, "meta.yaml");
            assert_eq!(detail, "no space left");
        }
        Err(other) => panic!("unexpected error: {}", other.message()),
        Ok(text) => panic!("unexpected text: {}", text),
    }
}

#[test]
fn ordinary_records_are_short() {
    assert_eq!(SIZE_LIMIT, 0x0800_0000);
    assert!(record_is_short(&meta("256 megabytes", "2 seconds", &["1.in"], &["1.ans"])));
    assert!(record_is_short(&meta("", "", &[], &[])));
    let resp = CCResponse {
        name: "A".to_string(),
        group: "G".to_string(),
        url: "http://x".to_string(),
        memory_limit: i64::MIN,
        time_limit: i64::MAX,
        tests: vec![TestCase { input: "1".to_string(), output: "2".to_string() }],
    };
    assert!(record_is_short(&convert_meta(&resp)));
}

#[test]
fn document_sizes_count_strings_and_characters() {
    assert_eq!(measure_document(&meta("", "", &[], &[])), Some(55));
    assert_eq!(
        measure_document(&meta("256 megabytes", "2 seconds", &["1.in", "2.in"], &["1.ans", "2.ans"])),
        Some(55 + 13 + 9 + 2 * 5 + 2 * 6)
    );
    assert_eq!(measure_document(&meta("\u{e9}\u{fffe}", "", &[""], &[])), Some(55 + 2 + 1));
}

#[test]
fn a_document_at_the_limit_is_refused() {
    let record = meta(&"a".repeat(SIZE_LIMIT - 55), "", &[], &[]);
    assert_eq!(measure_document(&record), None);
    assert!(!record_is_short(&record));
    match meta_document(&record) {
        Err(WriteError::Io { path, detail }) => {
            assert_eq!(path, "meta.yaml");
            assert_eq!(detail, "the record is too large to render");
        }
        Err(other) => panic!("unexpected error: {}", other.message()),
        Ok(_) => panic!("a document too large for the emitter was rendered"),
    }
}

#[test]
fn a_document_just_below_the_limit_is_short() {
    let record = meta(&"a".repeat(SIZE_LIMIT - 56), "", &[], &[]);
    assert_eq!(measure_document(&record), Some(SIZE_LIMIT - 1));
    assert!(record_is_short(&record));
}

#[test]
fn the_limit_is_on_the_whole_document() {
    let quarter = "\u{7f}".repeat(SIZE_LIMIT / 4);
    let one = meta(&quarter, "", &[], &[]);
    assert!(record_is_short(&one));
    let four = meta(&quarter, &quarter, &[&quarter], &[&quarter]);
    assert!(!record_is_short(&four));
    assert_eq!(measure_document(&four), None);
}

#[test]
fn the_limit_counts_characters() {
    let wide = "\u{e9}".repeat(SIZE_LIMIT - 56);
    assert!(record_is_short(&meta("", &wide, &[], &[])));
}

#[test]
fn characters_that_need_escapes_are_rendered() {
    let escapes = "\u{7f}\u{fffe}\u{feff}\u{0}\u{85}".repeat(20_000);
    let breaks = "\n".repeat(50_000);
    let record = meta(&escapes, &breaks, &[&escapes, "\r\u{2028}"], &[&breaks]);
    let text = meta_document(&record).expect("the document renders");
    assert_same(&read_back(&text), &record);
}
