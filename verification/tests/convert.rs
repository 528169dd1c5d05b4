use cpt_bridge::convert::{
    convert_meta, format_memory_limit, format_time_limit, input_file_name, input_template,
    output_file_name, output_template, PORT,
};
use cpt_bridge::decimal::{decimal_string, push_decimal, signed_decimal_string};
use cpt_bridge::model::{CCResponse, CPTProblemMetaTest, TestCase};

fn response(memory_limit: i64, time_limit: i64, count: usize) -> CCResponse {
    let mut tests = Vec::new();
    for i in 0..count {
        tests.push(TestCase { input: format!("in {}\n", i), output: format!("out {}\n", i) });
    }
    CCResponse {
        name: "A".to_string(),
        group: "G".to_string(),
        url: "http://x".to_string(),
        memory_limit,
        time_limit,
        tests,
    }
}

#[test]
fn names_follow_positions_counted_from_one() {
    for count in [0usize, 1, 2, 9, 10, 11, 100, 123] {
        let meta = convert_meta(&response(256, 2, count));
        assert_eq!(meta.test.input.len(), count);
        assert_eq!(meta.test.output.len(), count);
        for i in 0..count {
            assert_eq!(meta.test.input[i], format!("{}.in", i + 1));
            assert_eq!(meta.test.output[i], format!("{}.ans", i + 1));
        }
    }
}

#[test]
fn two_tests_give_two_pairs_of_names() {
    let meta = convert_meta(&response(256, 2, 2));
    assert_eq!(meta.test.input, vec!["1.in".to_string(), "2.in".to_string()]);
    assert_eq!(meta.test.output, vec!["1.ans".to_string(), "2.ans".to_string()]);
}

#[test]
fn no_tests_give_empty_name_lists() {
    let meta = convert_meta(&response(64, 1, 0));
    assert!(meta.test.input.is_empty());
    assert!(meta.test.output.is_empty());
    assert_eq!(meta.memory_limit, "64 megabytes");
    assert_eq!(meta.time_limit, "1 seconds");
}

#[test]
fn names_are_not_padded() {
    let meta = convert_meta(&response(1, 1, 12));
    assert_eq!(meta.test.input[8], "9.in");
    assert_eq!(meta.test.input[9], "10.in");
    assert_eq!(meta.test.output[11], "12.ans");
}

#[test]
fn converting_twice_gives_equal_records() {
    let first = response(256, 2, 5);
    let second = response(256, 2, 5);
    let a = convert_meta(&first);
    let b = convert_meta(&second);
    let c = convert_meta(&first);
    assert_eq!(a.memory_limit, b.memory_limit);
    assert_eq!(a.time_limit, b.time_limit);
    assert_eq!(a.test.input, b.test.input);
    assert_eq!(a.test.output, b.test.output);
    assert_eq!(a.memory_limit, c.memory_limit);
    assert_eq!(a.time_limit, c.time_limit);
    assert_eq!(a.test.input, c.test.input);
    assert_eq!(a.test.output, c.test.output);
}

#[test]
fn conversion_leaves_the_description_alone() {
    let resp = response(256, 2, 3);
    let _ = convert_meta(&resp);
    assert_eq!(resp.name, "A");
    assert_eq!(resp.group, "G");
    assert_eq!(resp.url, "http://x");
    assert_eq!(resp.memory_limit, 256);
    assert_eq!(resp.time_limit, 2);
    assert_eq!(resp.tests.len(), 3);
    assert_eq!(resp.tests[2].input, "in 2\n");
    assert_eq!(resp.tests[2].output, "out 2\n");
}

#[test]
fn provenance_and_test_texts_do_not_enter_the_record() {
    let first = response(256, 2, 2);
    let mut second = response(256, 2, 2);
    second.name = "another".to_string();
    second.group = "elsewhere".to_string();
    second.url = "https://example.org/p/2".to_string();
    second.tests[0].input = "something else".to_string();
    let a = convert_meta(&first);
    let b = convert_meta(&second);
    assert_eq!(a.memory_limit, b.memory_limit);
    assert_eq!(a.time_limit, b.time_limit);
    assert_eq!(a.test.input, b.test.input);
    assert_eq!(a.test.output, b.test.output);
}

#[test]
fn limits_are_worded_with_their_units() {
    let meta = convert_meta(&response(256, 2, 0));
    assert_eq!(meta.memory_limit, "256 megabytes");
    assert_eq!(meta.time_limit, "2 seconds");
    assert_eq!(format_memory_limit(256), "256 megabytes");
    assert_eq!(format_time_limit(2), "2 seconds");
}

#[test]
fn zero_and_negative_limits_pass_through() {
    assert_eq!(format_memory_limit(0), "0 megabytes");
    assert_eq!(format_time_limit(0), "0 seconds");
    assert_eq!(format_memory_limit(-1), "-1 megabytes");
    assert_eq!(format_time_limit(-30), "-30 seconds");
    let meta = convert_meta(&response(0, -7, 1));
    assert_eq!(meta.memory_limit, "0 megabytes");
    assert_eq!(meta.time_limit, "-7 seconds");
}

#[test]
fn extreme_limits_are_rendered_in_full() {
    assert_eq!(format_memory_limit(i64::MAX), "9223372036854775807 megabytes");
    assert_eq!(format_memory_limit(i64::MIN), "-9223372036854775808 megabytes");
    assert_eq!(format_time_limit(i64::MAX), "9223372036854775807 seconds");
    assert_eq!(format_time_limit(i64::MIN), "-9223372036854775808 seconds");
}

#[test]
fn limits_agree_with_the_standard_rendering() {
    for v in [0i64, 1, 9, 10, 99, 100, 1000, 65536, -1, -9, -10, -100, 4096, 1_000_000_007] {
        assert_eq!(format_memory_limit(v), format!("{} megabytes", v));
        assert_eq!(format_time_limit(v), format!("{} seconds", v));
    }
}

#[test]
fn decimal_numerals() {
    assert_eq!(decimal_string(0), "0");
    assert_eq!(decimal_string(7), "7");
    assert_eq!(decimal_string(10), "10");
    assert_eq!(decimal_string(109), "109");
    assert_eq!(decimal_string(1234567890), "1234567890");
    assert_eq!(decimal_string(u64::MAX), "18446744073709551615");
    assert_eq!(signed_decimal_string(0), "0");
    assert_eq!(signed_decimal_string(-45), "-45");
    assert_eq!(signed_decimal_string(45), "45");
    assert_eq!(signed_decimal_string(i64::MIN), "-9223372036854775808");
}

#[test]
fn decimal_numerals_are_appended() {
    let mut text = "n=".to_string();
    push_decimal(&mut text, 305);
    assert_eq!(text, "n=305");
    push_decimal(&mut text, 0);
    assert_eq!(text, "n=3050");
}

#[test]
fn file_names_come_from_the_templates() {
    assert_eq!(input_template(), "{i}.in");
    assert_eq!(output_template(), "{i}.ans");
    assert_eq!(input_file_name(3), "3.in");
    assert_eq!(output_file_name(3), "3.ans");
    assert_eq!(input_file_name(0), "0.in");
    assert_eq!(input_file_name(1000), "1000.in");
    assert_eq!(output_file_name(usize::MAX), format!("{}.ans", usize::MAX));
}

#[test]
fn default_name_lists_are_empty() {
    let empty = CPTProblemMetaTest::default();
    assert!(empty.input.is_empty());
    assert!(empty.output.is_empty());
}

#[test]
fn the_port_is_fixed() {
    assert_eq!(PORT, 10043);
}
