//! A model of the problem directory, and what writing a plan does to it.
//!
//! The directory is a map from file names to file contents. A write sets the
//! content of its file, whether or not the file was there before, and leaves
//! every other file alone.

use vstd::prelude::*;

use crate::convert::{converted, input_name, output_name};
use crate::decimal::{lemma_decimal_digits, lemma_decimal_injective, decimal};
use crate::document::document_name;
use crate::model::{MetaView, ResponseView, TestCaseView};
use crate::plan::{planned, FileWriteView};

verus! {

/// The directory after the first `count` writes of `plan` have been performed
/// on `before`, in order.
pub open spec fn directory_after(
    before: Map<Seq<char>, Seq<char>>,
    plan: Seq<FileWriteView>,
    count: nat,
) -> Map<Seq<char>, Seq<char>>
    recommends
        count <= plan.len(),
    decreases count,
{
    if count == 0 {
        before
    } else {
        directory_after(before, plan, (count - 1) as nat).insert(
            plan[count - 1].name,
            plan[count - 1].content,
        )
    }
}

/// The content that the last of the first `count` writes to `name` carries,
/// if any of them writes to `name`.
pub open spec fn last_write(plan: Seq<FileWriteView>, count: nat, name: Seq<char>) -> Option<Seq<char>>
    recommends
        count <= plan.len(),
    decreases count,
{
    if count == 0 {
        None
    } else if plan[count - 1].name == name {
        Some(plan[count - 1].content)
    } else {
        last_write(plan, (count - 1) as nat, name)
    }
}

/// Whether the first `count` writes of `plan` go to different files.
pub open spec fn distinct_names(plan: Seq<FileWriteView>, count: nat) -> bool {
    forall|i: int, j: int| 0 <= i < j < count ==> plan[i].name != plan[j].name
}

/// After some writes, a file exists if it existed before or was written, and
/// it holds what the last write to it carried, or what it held before if
/// there was none.
pub proof fn lemma_last_write_wins(
    before: Map<Seq<char>, Seq<char>>,
    plan: Seq<FileWriteView>,
    count: nat,
    name: Seq<char>,
)
    ensures
        directory_after(before, plan, count).dom().contains(name) <==> (before.dom().contains(name)
            || last_write(plan, count, name) is Some),
        directory_after(before, plan, count)[name] == match last_write(plan, count, name) {
            Some(content) => content,
            None => before[name],
        },
    decreases count,
{
    if count > 0 {
        lemma_last_write_wins(before, plan, (count - 1) as nat, name);
    }
}

/// Writing a plan a second time changes nothing: files are replaced, not
/// appended to, so the directory is the same as after the first time.
pub proof fn lemma_writing_twice(before: Map<Seq<char>, Seq<char>>, plan: Seq<FileWriteView>)
    ensures
        directory_after(directory_after(before, plan, plan.len()), plan, plan.len())
            == directory_after(before, plan, plan.len()),
{
    let once = directory_after(before, plan, plan.len());
    let twice = directory_after(once, plan, plan.len());
    assert forall|name: Seq<char>|
        (#[trigger] twice.dom().contains(name) <==> once.dom().contains(name)) && (
        once.dom().contains(name) ==> twice[name] == once[name]) by {
        lemma_last_write_wins(before, plan, plan.len(), name);
        lemma_last_write_wins(once, plan, plan.len(), name);
    }
    assert(twice =~= once);
}

/// Among writes to different files, each is the last write to its file.
pub proof fn lemma_distinct_last_write(plan: Seq<FileWriteView>, count: nat, position: int)
    requires
        count <= plan.len(),
        distinct_names(plan, count),
        0 <= position < count,
    ensures
        last_write(plan, count, plan[position].name) == Some(plan[position].content),
    decreases count,
{
    if position < count - 1 {
        lemma_distinct_last_write(plan, (count - 1) as nat, position);
    }
}

/// When a plan whose writes go to different files has been performed, every
/// one of its files holds the content planned for it.
pub proof fn lemma_each_file_written(
    before: Map<Seq<char>, Seq<char>>,
    plan: Seq<FileWriteView>,
    position: int,
)
    requires
        distinct_names(plan, plan.len()),
        0 <= position < plan.len(),
    ensures
        directory_after(before, plan, plan.len()).dom().contains(plan[position].name),
        directory_after(before, plan, plan.len())[plan[position].name] == plan[position].content,
{
    lemma_distinct_last_write(plan, plan.len(), position);
    lemma_last_write_wins(before, plan, plan.len(), plan[position].name);
}

/// A file that no write of the plan names is left as it was.
pub proof fn lemma_other_files_untouched(
    before: Map<Seq<char>, Seq<char>>,
    plan: Seq<FileWriteView>,
    count: nat,
    name: Seq<char>,
)
    requires
        count <= plan.len(),
        forall|i: int| 0 <= i < count ==> (#[trigger] plan[i]).name != name,
    ensures
        directory_after(before, plan, count).dom().contains(name) == before.dom().contains(name),
        directory_after(before, plan, count)[name] == before[name],
    decreases count,
{
    if count > 0 {
        lemma_other_files_untouched(before, plan, (count - 1) as nat, name);
    }
}

/// Two input files have the same name only if they belong to the same test,
/// and so have two answer files; an input file and an answer file never
/// share a name, and neither is ever named like the document.
pub proof fn lemma_names_distinct(a: nat, b: nat)
    ensures
        input_name(a) == input_name(b) ==> a == b,
        output_name(a) == output_name(b) ==> a == b,
        input_name(a) != output_name(b),
        input_name(a) != document_name(),
        output_name(a) != document_name(),
{
    reveal_strlit("meta.yaml");
    lemma_decimal_digits(a);
    lemma_decimal_digits(b);
    assert(input_name(a).last() == 'n');
    assert(output_name(b).last() == 's');
    assert(output_name(a).last() == 's');
    assert(document_name().last() == 'l');
    if input_name(a) == input_name(b) {
        assert(decimal(a).len() == decimal(b).len()) by {
            assert(input_name(a).len() == decimal(a).len() + 3);
            assert(input_name(b).len() == decimal(b).len() + 3);
        }
        assert(decimal(a) =~= input_name(a).subrange(0, decimal(a).len() as int));
        assert(decimal(b) =~= input_name(b).subrange(0, decimal(b).len() as int));
        lemma_decimal_injective(a, b);
    }
    if output_name(a) == output_name(b) {
        assert(decimal(a).len() == decimal(b).len()) by {
            assert(output_name(a).len() == decimal(a).len() + 4);
            assert(output_name(b).len() == decimal(b).len() + 4);
        }
        assert(decimal(a) =~= output_name(a).subrange(0, decimal(a).len() as int));
        assert(decimal(b) =~= output_name(b).subrange(0, decimal(b).len() as int));
        lemma_decimal_injective(a, b);
    }
}

/// The plan of a converted problem writes every file once.
pub proof fn lemma_converted_plan_distinct(document: Seq<char>, response: ResponseView)
    ensures
        distinct_names(
            planned(document, converted(response), response.tests),
            planned(document, converted(response), response.tests).len(),
        ),
{
    let plan = planned(document, converted(response), response.tests);
    assert forall|i: int, j: int| 0 <= i < j < plan.len() implies plan[i].name != plan[j].name by {
        let a = if j % 2 == 1 {
            (j - 1) / 2 + 1
        } else {
            (j - 2) / 2 + 1
        };
        let b = if i % 2 == 1 {
            (i - 1) / 2 + 1
        } else {
            (i - 2) / 2 + 1
        };
        if i == 0 {
            lemma_names_distinct(a as nat, a as nat);
        } else {
            lemma_names_distinct(a as nat, b as nat);
            lemma_names_distinct(b as nat, a as nat);
        }
    }
}

/// Writing a converted problem in full leaves the document under its name
/// and, for the test at position `i`, its input under the input name of
/// `i + 1` and its expected output under the answer name of `i + 1`, each
/// text unchanged.
pub proof fn lemma_problem_written(
    before: Map<Seq<char>, Seq<char>>,
    document: Seq<char>,
    response: ResponseView,
    i: int,
)
    requires
        0 <= i < response.tests.len(),
    ensures
        ({
            let plan = planned(document, converted(response), response.tests);
            let after = directory_after(before, plan, plan.len());
            &&& after[document_name()] == document
            &&& after[input_name((i + 1) as nat)] == response.tests[i].input
            &&& after[output_name((i + 1) as nat)] == response.tests[i].output
        }),
{
    let plan = planned(document, converted(response), response.tests);
    lemma_converted_plan_distinct(document, response);
    lemma_each_file_written(before, plan, 0);
    lemma_each_file_written(before, plan, 2 * i + 1);
    lemma_each_file_written(before, plan, 2 * i + 2);
}

/// Writing a problem without tests leaves the document under its name and
/// touches no other file.
pub proof fn lemma_empty_problem_written(
    before: Map<Seq<char>, Seq<char>>,
    document: Seq<char>,
    meta: MetaView,
)
    ensures
        ({
            let plan = planned(document, meta, Seq::<TestCaseView>::empty());
            directory_after(before, plan, plan.len()) == before.insert(document_name(), document)
        }),
{
    let plan = planned(document, meta, Seq::<TestCaseView>::empty());
    assert(plan.len() == 1);
    assert(directory_after(before, plan, 0) == before);
    assert(directory_after(before, plan, 1) == directory_after(before, plan, 0).insert(
        plan[0].name,
        plan[0].content,
    ));
}

} // verus!
