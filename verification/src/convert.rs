//! From a problem description to its metadata record: the formatted limits
//! and the file names of the tests.

use vstd::prelude::*;
use vstd::string::StringExecFns;

use crate::decimal::{decimal, signed_decimal, signed_decimal_string};
use crate::model::{CCResponse, CPTProblemMeta, CPTProblemMetaTest, MetaView, ResponseView};
use crate::template::fill_template;

verus! {

/// The port on which problem descriptions are received.
pub const PORT: i32 = 10043;

/// The name of the input file of test number `number`, counted from one.
pub open spec fn input_name(number: nat) -> Seq<char> {
    decimal(number) + seq!['.', 'i', 'n']
}

/// The name of the answer file of test number `number`, counted from one.
pub open spec fn output_name(number: nat) -> Seq<char> {
    decimal(number) + seq!['.', 'a', 'n', 's']
}

/// A memory limit in megabytes, as the record words it.
pub open spec fn memory_limit_text(megabytes: int) -> Seq<char> {
    signed_decimal(megabytes) + seq![' ', 'm', 'e', 'g', 'a', 'b', 'y', 't', 'e', 's']
}

/// A time limit in seconds, as the record words it.
pub open spec fn time_limit_text(seconds: int) -> Seq<char> {
    signed_decimal(seconds) + seq![' ', 's', 'e', 'c', 'o', 'n', 'd', 's']
}

/// The metadata record of a problem description: the two limits with their
/// units, and for the test at position `i` the names made from `i + 1`.
pub open spec fn converted(response: ResponseView) -> MetaView {
    MetaView {
        memory_limit: memory_limit_text(response.memory_limit),
        time_limit: time_limit_text(response.time_limit),
        input: Seq::new(response.tests.len(), |i: int| input_name((i + 1) as nat)),
        output: Seq::new(response.tests.len(), |i: int| output_name((i + 1) as nat)),
    }
}

/// Equal descriptions have equal records: the record is a function of the
/// description.
pub proof fn lemma_convert_deterministic(first: ResponseView, second: ResponseView)
    requires
        first == second,
    ensures
        converted(first) == converted(second),
{
}

/// The record depends on the two limits and on the number of tests only:
/// neither the provenance of the problem nor the texts of its tests enter it.
pub proof fn lemma_convert_reads_limits_and_count(first: ResponseView, second: ResponseView)
    requires
        first.memory_limit == second.memory_limit,
        first.time_limit == second.time_limit,
        first.tests.len() == second.tests.len(),
    ensures
        converted(first) == converted(second),
{
    assert(converted(first).input =~= converted(second).input);
    assert(converted(first).output =~= converted(second).output);
}

/// The record of a description names one input and one answer file per test,
/// each after the position of its test, counted from one. A description
/// without tests has a record without names.
pub proof fn lemma_converted_names(response: ResponseView)
    ensures
        converted(response).wf(),
        converted(response).fits(response.tests.len()),
        forall|i: int|
            0 <= i < response.tests.len() ==> #[trigger] converted(response).input[i] == input_name(
                (i + 1) as nat,
            ),
        forall|i: int|
            0 <= i < response.tests.len() ==> #[trigger] converted(response).output[i]
                == output_name((i + 1) as nat),
{
}

/// The template of input file names.
pub fn input_template() -> (template: &'static str)
    ensures
        template@ == seq!['{', 'i', '}', '.', 'i', 'n'],
{
    proof {
        reveal_strlit("{i}.in");
    }
    let template = "{i}.in";
    assert(template@ =~= seq!['{', 'i', '}', '.', 'i', 'n']);
    template
}

/// The template of answer file names.
pub fn output_template() -> (template: &'static str)
    ensures
        template@ == seq!['{', 'i', '}', '.', 'a', 'n', 's'],
{
    proof {
        reveal_strlit("{i}.ans");
    }
    let template = "{i}.ans";
    assert(template@ =~= seq!['{', 'i', '}', '.', 'a', 'n', 's']);
    template
}

/// The key of the placeholder in both templates.
fn index_key() -> (key: &'static str)
    ensures
        key@ == seq!['i'],
{
    proof {
        reveal_strlit("i");
    }
    let key = "i";
    assert(key@ =~= seq!['i']);
    key
}

/// The name of the input file of test number `number`.
pub fn input_file_name(number: usize) -> (name: String)
    ensures
        name@ == input_name(number as nat),
{
    let template = input_template();
    let key = index_key();
    assert(template@.subrange(1, 2) =~= key@);
    let name = fill_template(template, key, number);
    assert(template@.subrange(3, 6) =~= seq!['.', 'i', 'n']);
    name
}

/// The name of the answer file of test number `number`.
pub fn output_file_name(number: usize) -> (name: String)
    ensures
        name@ == output_name(number as nat),
{
    let template = output_template();
    let key = index_key();
    assert(template@.subrange(1, 2) =~= key@);
    let name = fill_template(template, key, number);
    assert(template@.subrange(3, 7) =~= seq!['.', 'a', 'n', 's']);
    name
}

/// A memory limit with its unit.
pub fn format_memory_limit(megabytes: i64) -> (text: String)
    ensures
        text@ == memory_limit_text(megabytes as int),
{
    proof {
        reveal_strlit(" megabytes");
    }
    let unit = " megabytes";
    assert(unit@ =~= seq![' ', 'm', 'e', 'g', 'a', 'b', 'y', 't', 'e', 's']);
    signed_decimal_string(megabytes).concat(unit)
}

/// A time limit with its unit.
pub fn format_time_limit(seconds: i64) -> (text: String)
    ensures
        text@ == time_limit_text(seconds as int),
{
    proof {
        reveal_strlit(" seconds");
    }
    let unit = " seconds";
    assert(unit@ =~= seq![' ', 's', 'e', 'c', 'o', 'n', 'd', 's']);
    signed_decimal_string(seconds).concat(unit)
}

/// Derives the metadata record of a problem description. Every description
/// is accepted: limits are not validated, and an empty test list gives empty
/// name lists.
pub fn convert_meta(resp: &CCResponse) -> (meta: CPTProblemMeta)
    ensures
        meta@ == converted(resp@),
        meta@.wf(),
        meta.memory_limit@ == memory_limit_text(resp.memory_limit as int),
        meta.time_limit@ == time_limit_text(resp.time_limit as int),
        meta.test.input@.len() == resp.tests@.len(),
        meta.test.output@.len() == resp.tests@.len(),
        forall|i: int|
            0 <= i < resp.tests@.len() ==> (#[trigger] meta.test.input@[i])@ == input_name(
                (i + 1) as nat,
            ),
        forall|i: int|
            0 <= i < resp.tests@.len() ==> (#[trigger] meta.test.output@[i])@ == output_name(
                (i + 1) as nat,
            ),
{
    let count = resp.tests.len();
    let mut tests = CPTProblemMetaTest::default();
    let mut done: usize = 0;
    while done < count
        invariant
            done <= count,
            count == resp.tests@.len(),
            tests.input@.len() == done,
            tests.output@.len() == done,
            forall|k: int| 0 <= k < done ==> (#[trigger] tests.input@[k])@ == input_name((k + 1) as nat),
            forall|k: int|
                0 <= k < done ==> (#[trigger] tests.output@[k])@ == output_name((k + 1) as nat),
        decreases count - done,
    {
        let number = done + 1;
        tests.input.push(input_file_name(number));
        tests.output.push(output_file_name(number));
        done = number;
    }
    let meta = CPTProblemMeta {
        memory_limit: format_memory_limit(resp.memory_limit),
        time_limit: format_time_limit(resp.time_limit),
        test: tests,
    };
    assert(meta@.input =~= converted(resp@).input);
    assert(meta@.output =~= converted(resp@).output);
    meta
}

} // verus!
