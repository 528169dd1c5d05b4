//! The files of a problem, in the order in which they are written: the
//! metadata document first, then for each test its input and its answer.

use vstd::prelude::*;
use vstd::string::StringExecFns;

use crate::document::document_name;
use crate::error::{WriteError, WriteErrorView};
use crate::model::{CPTProblemMeta, MetaView, TestCase, TestCaseView, test_views};

verus! {

/// What a file of the problem directory holds.
#[derive(Debug, Clone, Copy, PartialEq, Eq, Structural)]
pub enum FileKind {
    Metadata,
    Input,
    Output,
}

/// One file to write: its name inside the problem directory and its whole
/// content. Writing replaces whatever the file held before.
#[derive(Debug)]
pub struct FileWrite {
    pub kind: FileKind,
    pub name: String,
    pub content: String,
}

/// A file to write as plain mathematical values.
pub struct FileWriteView {
    pub kind: FileKind,
    pub name: Seq<char>,
    pub content: Seq<char>,
}

impl View for FileWrite {
    type V = FileWriteView;

    open spec fn view(&self) -> FileWriteView {
        FileWriteView { kind: self.kind, name: self.name@, content: self.content@ }
    }
}

/// The views of a list of writes, in order.
pub open spec fn write_views(writes: Seq<FileWrite>) -> Seq<FileWriteView> {
    Seq::new(writes.len(), |i: int| writes[i]@)
}

/// The write at `position` of the plan: the document at position zero, the
/// input of test `i` at position `2i + 1` and its answer at position `2i + 2`,
/// each under the name that the record gives it and with its text unchanged.
pub open spec fn planned_write(
    document: Seq<char>,
    meta: MetaView,
    tests: Seq<TestCaseView>,
    position: int,
) -> FileWriteView {
    if position == 0 {
        FileWriteView { kind: FileKind::Metadata, name: document_name(), content: document }
    } else if position % 2 == 1 {
        FileWriteView {
            kind: FileKind::Input,
            name: meta.input[(position - 1) / 2],
            content: tests[(position - 1) / 2].input,
        }
    } else {
        FileWriteView {
            kind: FileKind::Output,
            name: meta.output[(position - 2) / 2],
            content: tests[(position - 2) / 2].output,
        }
    }
}

/// The whole plan for a record and its tests.
pub open spec fn planned(document: Seq<char>, meta: MetaView, tests: Seq<TestCaseView>) -> Seq<FileWriteView> {
    Seq::new(
        (1 + 2 * tests.len()) as nat,
        |position: int| planned_write(document, meta, tests, position),
    )
}

/// The error for a record that does not fit its tests.
pub open spec fn mismatch(meta: MetaView, tests: nat) -> WriteErrorView {
    WriteErrorView::Precondition { inputs: meta.input.len(), outputs: meta.output.len(), tests }
}

/// Checks that the record names one input and one answer file per test.
pub fn check_lengths(meta: &CPTProblemMeta, tests: &[TestCase]) -> (checked: Result<(), WriteError>)
    ensures
        meta@.fits(tests@.len()) ==> checked is Ok,
        !meta@.fits(tests@.len()) ==> checked is Err && checked->Err_0@ == mismatch(
            meta@,
            tests@.len(),
        ),
{
    let inputs = meta.test.input.len();
    let outputs = meta.test.output.len();
    if inputs == tests.len() && outputs == tests.len() {
        Ok(())
    } else {
        Err(WriteError::Precondition { inputs, outputs, tests: tests.len() })
    }
}

/// Lays out the writes for a record, its rendered document and its tests.
///
/// A record that does not fit the tests is refused, and then there is no
/// plan, so that no file of a mismatched set is ever written.
pub fn plan_writes(document: String, meta: &CPTProblemMeta, tests: &[TestCase]) -> (plan: Result<Vec<FileWrite>, WriteError>)
    ensures
        meta@.fits(tests@.len()) ==> plan is Ok && write_views(plan->Ok_0@) == planned(
            document@,
            meta@,
            test_views(tests@),
        ),
        !meta@.fits(tests@.len()) ==> plan is Err && plan->Err_0@ == mismatch(meta@, tests@.len()),
{
    match check_lengths(meta, tests) {
        Err(error) => Err(error),
        Ok(()) => {
            let ghost wanted = planned(document@, meta@, test_views(tests@));
            let mut writes: Vec<FileWrite> = Vec::new();
            writes.push(
                FileWrite {
                    kind: FileKind::Metadata,
                    name: String::from_str("meta.yaml"),
                    content: document,
                },
            );
            let mut i: usize = 0;
            while i < tests.len()
                invariant
                    i <= tests@.len(),
                    meta@.fits(tests@.len()),
                    wanted == planned(document@, meta@, test_views(tests@)),
                    writes@.len() == 1 + 2 * i,
                    forall|k: int| 0 <= k < writes@.len() ==> (#[trigger] writes@[k])@ == wanted[k],
                decreases tests@.len() - i,
            {
                writes.push(
                    FileWrite {
                        kind: FileKind::Input,
                        name: meta.test.input[i].clone(),
                        content: tests[i].input.clone(),
                    },
                );
                writes.push(
                    FileWrite {
                        kind: FileKind::Output,
                        name: meta.test.output[i].clone(),
                        content: tests[i].output.clone(),
                    },
                );
                i = i + 1;
            }
            assert(write_views(writes@) =~= wanted);
            Ok(writes)
        },
    }
}

} // verus!
