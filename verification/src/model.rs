//! The problem as it arrives, the metadata record derived from it, and the
//! mathematical view of each.

use vstd::prelude::*;

verus! {

/// One sample: the text fed to a solution and the text expected back.
#[derive(Debug)]
pub struct TestCase {
    pub input: String,
    pub output: String,
}

/// A decoded problem description. The position of a test in `tests` decides
/// the names of its two files; `name`, `group` and `url` say where the problem
/// came from and take no part in naming.
#[derive(Debug)]
pub struct CCResponse {
    pub name: String,
    pub group: String,
    pub url: String,
    pub memory_limit: i64,
    pub time_limit: i64,
    pub tests: Vec<TestCase>,
}

/// The file names of the tests: entry `i` of `input` and of `output` name the
/// files of test `i`.
#[derive(Debug)]
pub struct CPTProblemMetaTest {
    pub input: Vec<String>,
    pub output: Vec<String>,
}

/// The record that is persisted as the metadata document.
#[derive(Debug)]
pub struct CPTProblemMeta {
    pub memory_limit: String,
    pub time_limit: String,
    pub test: CPTProblemMetaTest,
}

/// A test case as two character sequences.
pub struct TestCaseView {
    pub input: Seq<char>,
    pub output: Seq<char>,
}

/// A problem description as plain mathematical values.
pub struct ResponseView {
    pub name: Seq<char>,
    pub group: Seq<char>,
    pub url: Seq<char>,
    pub memory_limit: int,
    pub time_limit: int,
    pub tests: Seq<TestCaseView>,
}

/// A metadata record as plain mathematical values.
pub struct MetaView {
    pub memory_limit: Seq<char>,
    pub time_limit: Seq<char>,
    pub input: Seq<Seq<char>>,
    pub output: Seq<Seq<char>>,
}

/// The character sequences of a list of strings, in order.
pub open spec fn texts(strings: Seq<String>) -> Seq<Seq<char>> {
    Seq::new(strings.len(), |i: int| strings[i]@)
}

/// The views of a list of test cases, in order.
pub open spec fn test_views(tests: Seq<TestCase>) -> Seq<TestCaseView> {
    Seq::new(tests.len(), |i: int| tests[i]@)
}

impl View for TestCase {
    type V = TestCaseView;

    open spec fn view(&self) -> TestCaseView {
        TestCaseView { input: self.input@, output: self.output@ }
    }
}

impl View for CCResponse {
    type V = ResponseView;

    open spec fn view(&self) -> ResponseView {
        ResponseView {
            name: self.name@,
            group: self.group@,
            url: self.url@,
            memory_limit: self.memory_limit as int,
            time_limit: self.time_limit as int,
            tests: test_views(self.tests@),
        }
    }
}

impl View for CPTProblemMeta {
    type V = MetaView;

    open spec fn view(&self) -> MetaView {
        MetaView {
            memory_limit: self.memory_limit@,
            time_limit: self.time_limit@,
            input: texts(self.test.input@),
            output: texts(self.test.output@),
        }
    }
}

impl MetaView {
    /// A record is well formed when it names as many input files as answer
    /// files.
    pub open spec fn wf(self) -> bool {
        self.input.len() == self.output.len()
    }

    /// Whether the record names exactly one input and one answer file for
    /// each of `count` tests.
    pub open spec fn fits(self, count: nat) -> bool {
        self.input.len() == count && self.output.len() == count
    }
}

impl Default for CPTProblemMetaTest {
    /// No tests: both lists are empty.
    fn default() -> (empty: CPTProblemMetaTest)
        ensures
            empty.input@ == Seq::<String>::empty(),
            empty.output@ == Seq::<String>::empty(),
    {
        CPTProblemMetaTest { input: Vec::new(), output: Vec::new() }
    }
}

} // verus!
