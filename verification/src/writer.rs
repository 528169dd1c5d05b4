//! The writer: it hands out the writes of a plan one at a time, in order, and
//! stops at the first one that fails. It touches no file itself. The caller
//! performs the pending write and reports how it went.

use vstd::prelude::*;

use crate::convert::{convert_meta, converted};
use crate::document::{document_of, meta_document};
use crate::error::{result_view, WriteError, WriteErrorView};
use crate::model::{test_views, CCResponse, CPTProblemMeta, TestCase};
use crate::plan::{check_lengths, mismatch, plan_writes, planned, write_views, FileWrite, FileWriteView};

verus! {

/// The progress of writing one problem.
pub struct ProblemWriter {
    plan: Vec<FileWrite>,
    done: usize,
    failure: Option<WriteError>,
}

/// What the caller of a writer does next.
pub enum WriterStep<'a> {
    /// Write this file, then report the outcome.
    Write(&'a FileWrite),
    /// Nothing is left to do: every file was written, or one failed.
    Finished(Result<(), WriteError>),
}

impl ProblemWriter {
    #[verifier::type_invariant]
    spec fn within_plan(self) -> bool {
        self.done <= self.plan@.len()
    }

    /// The writes to perform, in order.
    pub closed spec fn plan(self) -> Seq<FileWriteView> {
        write_views(self.plan@)
    }

    /// How many writes of the plan have succeeded.
    pub closed spec fn done(self) -> nat {
        self.done as nat
    }

    /// The failure that ended the writing, if there was one.
    pub closed spec fn failure(self) -> Option<WriteErrorView> {
        match self.failure {
            Some(error) => Some(error@),
            None => None,
        }
    }

    /// The write that is due: the first one that has not succeeded, unless a
    /// failure ended the writing.
    pub open spec fn pending(self) -> Option<FileWriteView> {
        if self.failure() is None && self.done() < self.plan().len() {
            Some(self.plan()[self.done() as int])
        } else {
            None
        }
    }

    /// How the writing ended, once no write is due.
    pub open spec fn outcome(self) -> Option<Result<(), WriteErrorView>> {
        match self.failure() {
            Some(error) => Some(Err(error)),
            None => if self.done() < self.plan().len() {
                None
            } else {
                Some(Ok(()))
            },
        }
    }

    /// A writer at the start of `plan`.
    pub fn new(plan: Vec<FileWrite>) -> (writer: ProblemWriter)
        ensures
            writer.plan() == write_views(plan@),
            writer.done() == 0,
            writer.failure() is None,
    {
        ProblemWriter { plan, done: 0, failure: None }
    }

    /// A writer for a record and its tests.
    ///
    /// A record that does not fit the tests is refused before anything else
    /// happens. Otherwise the document of the record decides: where there is
    /// one, the writer stands at the start of the plan for it, and where
    /// there is an error in its place, that error is returned.
    pub fn start(meta: &CPTProblemMeta, tests: &[TestCase]) -> (started: Result<ProblemWriter, WriteError>)
        ensures
            !meta@.fits(tests@.len()) ==> started is Err && started->Err_0@ == mismatch(
                meta@,
                tests@.len(),
            ),
            meta@.fits(tests@.len()) ==> match document_of(meta@) {
                Ok(document) => {
                    &&& started is Ok
                    &&& started->Ok_0.plan() == planned(document, meta@, test_views(tests@))
                    &&& started->Ok_0.done() == 0
                    &&& started->Ok_0.failure() is None
                },
                Err(error) => started is Err && started->Err_0@ == error,
            },
    {
        if let Err(error) = check_lengths(meta, tests) {
            return Err(error);
        }
        match meta_document(meta) {
            Err(error) => Err(error),
            Ok(document) => match plan_writes(document, meta, tests) {
                Ok(plan) => Ok(ProblemWriter::new(plan)),
                Err(error) => Err(error),
            },
        }
    }

    /// The next thing to do: the pending write, or the final result.
    pub fn step(&self) -> (step: WriterStep<'_>)
        ensures
            self.done() <= self.plan().len(),
            match step {
                WriterStep::Write(file) => self.pending() == Some(file@),
                WriterStep::Finished(result) => self.pending() is None && self.outcome() == Some(
                    result_view(result),
                ),
            },
    {
        proof {
            use_type_invariant(self);
        }
        match &self.failure {
            Some(error) => WriterStep::Finished(Err(error.duplicate())),
            None => if self.done < self.plan.len() {
                WriterStep::Write(&self.plan[self.done])
            } else {
                WriterStep::Finished(Ok(()))
            },
        }
    }

    /// Records that the pending write succeeded: the writer moves on to the
    /// next one. Without a pending write nothing changes.
    pub fn written(&mut self)
        ensures
            final(self).plan() == old(self).plan(),
            final(self).failure() == old(self).failure(),
            final(self).done() == if old(self).pending() is Some {
                old(self).done() + 1
            } else {
                old(self).done()
            },
    {
        proof {
            use_type_invariant(&*self);
        }
        if self.failure.is_none() && self.done < self.plan.len() {
            self.done = self.done + 1;
        }
    }

    /// Records that the pending write failed at `path` for the reason in
    /// `detail`: the writing ends with that error, and no further write is
    /// handed out. Without a pending write nothing changes.
    pub fn failed(&mut self, path: String, detail: String)
        ensures
            final(self).plan() == old(self).plan(),
            final(self).done() == old(self).done(),
            final(self).failure() == if old(self).pending() is Some {
                Some(WriteErrorView::Io { path: path@, detail: detail@ })
            } else {
                old(self).failure()
            },
    {
        proof {
            use_type_invariant(&*self);
        }
        if self.failure.is_none() && self.done < self.plan.len() {
            self.failure = Some(WriteError::Io { path, detail });
        }
    }
}

/// A writer for a problem description: its record is derived, its document
/// rendered and its files planned. The derived record always fits the tests,
/// so whether there is a writer is up to the document alone.
pub fn prepare(resp: &CCResponse) -> (prepared: Result<ProblemWriter, WriteError>)
    ensures
        match document_of(converted(resp@)) {
            Ok(document) => {
                &&& prepared is Ok
                &&& prepared->Ok_0.plan() == planned(document, converted(resp@), resp@.tests)
                &&& prepared->Ok_0.done() == 0
                &&& prepared->Ok_0.failure() is None
            },
            Err(error) => prepared is Err && prepared->Err_0@ == error,
        },
{
    let meta = convert_meta(resp);
    ProblemWriter::start(&meta, resp.tests.as_slice())
}

} // verus!
