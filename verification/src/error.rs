//! How writing a problem can fail.

use vstd::prelude::*;
use vstd::string::StringExecFns;

use crate::decimal::{decimal, push_decimal};

verus! {

/// The reason a problem could not be written.
#[derive(Debug)]
pub enum WriteError {
    /// The metadata record does not name one input and one answer file for
    /// each test. Nothing is written in this case.
    Precondition { inputs: usize, outputs: usize, tests: usize },
    /// A file could not be produced: `path` is the file, `detail` the
    /// underlying failure.
    Io { path: String, detail: String },
}

/// A write error as plain mathematical values.
pub enum WriteErrorView {
    Precondition { inputs: nat, outputs: nat, tests: nat },
    Io { path: Seq<char>, detail: Seq<char> },
}

impl View for WriteError {
    type V = WriteErrorView;

    open spec fn view(&self) -> WriteErrorView {
        match self {
            WriteError::Precondition { inputs, outputs, tests } => WriteErrorView::Precondition {
                inputs: *inputs as nat,
                outputs: *outputs as nat,
                tests: *tests as nat,
            },
            WriteError::Io { path, detail } => WriteErrorView::Io {
                path: path@,
                detail: detail@,
            },
        }
    }
}

/// The view of the result of writing a problem.
pub open spec fn result_view(result: Result<(), WriteError>) -> Result<(), WriteErrorView> {
    match result {
        Ok(()) => Ok(()),
        Err(error) => Err(error@),
    }
}

/// The sentence that reports an error: for a mismatch the three counts, for
/// a failed write the file and the underlying failure.
pub open spec fn message_text(error: WriteErrorView) -> Seq<char> {
    match error {
        WriteErrorView::Precondition { inputs, outputs, tests } => "the record names "@ + decimal(
            inputs,
        ) + " input and "@ + decimal(outputs) + " answer files for "@ + decimal(tests) + " tests"@,
        WriteErrorView::Io { path, detail } => "cannot write "@ + path + ": "@ + detail,
    }
}

impl WriteError {
    /// The sentence that reports this error.
    pub fn message(&self) -> (text: String)
        ensures
            text@ == message_text(self@),
    {
        match self {
            WriteError::Precondition { inputs, outputs, tests } => {
                let mut text = String::from_str("the record names ");
                push_decimal(&mut text, *inputs as u64);
                text.append(" input and ");
                push_decimal(&mut text, *outputs as u64);
                text.append(" answer files for ");
                push_decimal(&mut text, *tests as u64);
                text.append(" tests");
                text
            },
            WriteError::Io { path, detail } => {
                let mut text = String::from_str("cannot write ");
                text.append(path.as_str());
                text.append(": ");
                text.append(detail.as_str());
                text
            },
        }
    }

    /// A copy of this error.
    pub fn duplicate(&self) -> (copy: WriteError)
        ensures
            copy@ == self@,
    {
        match self {
            WriteError::Precondition { inputs, outputs, tests } => WriteError::Precondition {
                inputs: *inputs,
                outputs: *outputs,
                tests: *tests,
            },
            WriteError::Io { path, detail } => WriteError::Io {
                path: path.clone(),
                detail: detail.clone(),
            },
        }
    }
}

} // verus!
