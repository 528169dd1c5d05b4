//! The metadata document: the record as a tree of tables, lists and texts,
//! and its YAML text as `serde_yaml` emits it.

use vstd::prelude::*;
use vstd::string::{StrSliceExecFns, StringExecFns};

use crate::error::{WriteError, WriteErrorView};
use crate::convert::converted;
use crate::decimal::lemma_decimal_length_64;
use crate::model::{texts, CPTProblemMeta, MetaView, ResponseView};

verus! {

#[verifier::external_type_specification]
#[verifier::external_body]
pub struct ExYamlValue(serde_yaml::Value);

/// A document tree: a text, a list of trees, or a table whose keys are texts
/// and whose entries keep the order they were given in.
pub enum Node {
    Text(Seq<char>),
    List(Seq<Node>),
    Table(Seq<(Seq<char>, Node)>),
}

/// The size from which on a document is not handed to the emitter.
///
/// The emitter counts the lines and the columns it has written in signed
/// 32-bit integers, and keeps the length of a text in bytes in another. It
/// writes at most six columns for one character (an escape of the form
/// `\uXXXX`) and at most two line breaks, and a character takes at most four
/// bytes. A document below this size stays sixteen times below what those
/// integers hold.
pub const SIZE_LIMIT: usize = 0x0800_0000;

/// The tree that a `serde_yaml::Value` holds, for values made of strings,
/// sequences and mappings with string keys.
pub uninterp spec fn yaml_node(value: serde_yaml::Value) -> Node;

/// The size of a `serde_yaml::Value` made of strings, sequences and mappings
/// with string keys: one for each string, sequence and mapping in it, keys
/// included, and one for each character of its strings. A value that holds
/// anything else counts as `SIZE_LIMIT` for each such part, so that it is
/// never below the limit.
pub uninterp spec fn yaml_size(value: serde_yaml::Value) -> nat;

/// What `serde_yaml::to_string` gives for a value that holds the tree `node`:
/// the YAML text, or the message of the error it fails with.
pub uninterp spec fn yaml_rendering(node: Node) -> Result<Seq<char>, Seq<char>>;

/// The size of a list of texts: for each text one, and one for each of its
/// characters.
pub open spec fn text_sizes(items: Seq<Seq<char>>) -> nat
    decreases items.len(),
{
    if items.len() == 0 {
        0
    } else {
        text_sizes(items.drop_last()) + items.last().len() + 1
    }
}

/// The sizes of a list of values, added up.
pub open spec fn yaml_sizes(values: Seq<serde_yaml::Value>) -> nat
    decreases values.len(),
{
    if values.len() == 0 {
        0
    } else {
        yaml_sizes(values.drop_last()) + yaml_size(values.last())
    }
}

/// The size of what surrounds the texts of a record in its document: three
/// tables, two lists, two texts and six keys with their 42 characters.
pub open spec fn frame_size() -> nat {
    55
}

/// The size of the document of a record.
pub open spec fn document_size(meta: MetaView) -> nat {
    frame_size() + meta.memory_limit.len() + meta.time_limit.len() + text_sizes(meta.input)
        + text_sizes(meta.output)
}

/// Whether the document of a record is small enough for the emitter.
pub open spec fn short_record(meta: MetaView) -> bool {
    document_size(meta) < SIZE_LIMIT
}

/// The trees of a list of values, in order.
pub open spec fn yaml_nodes(values: Seq<serde_yaml::Value>) -> Seq<Node> {
    Seq::new(values.len(), |i: int| yaml_node(values[i]))
}

/// The entries of a table with the given keys and values, pair by pair.
pub open spec fn entries(keys: Seq<Seq<char>>, values: Seq<Node>) -> Seq<(Seq<char>, Node)> {
    Seq::new(keys.len(), |i: int| (keys[i], values[i]))
}

/// Whether no text occurs twice in `keys`.
pub open spec fn distinct(keys: Seq<Seq<char>>) -> bool {
    forall|i: int, j: int| 0 <= i < j < keys.len() ==> keys[i] != keys[j]
}

/// The list of text nodes of a list of texts.
pub open spec fn text_nodes(items: Seq<Seq<char>>) -> Seq<Node> {
    Seq::new(items.len(), |i: int| Node::Text(items[i]))
}

/// The outcome of a rendering as plain values: the text, or the message.
pub open spec fn rendering_view(rendered: Result<String, String>) -> Result<Seq<char>, Seq<char>> {
    match rendered {
        Ok(text) => Ok(text@),
        Err(message) => Err(message@),
    }
}

/// Builds `serde_yaml::Value::String`.
///
/// Trusted: the value holds the given text, and its size is that of the
/// text.
#[verifier::external_body]
fn text_value(text: &str) -> (value: serde_yaml::Value)
    ensures
        yaml_node(value) == Node::Text(text@),
        yaml_size(value) == text@.len() + 1,
{
    serde_yaml::Value::String(text.to_owned())
}

/// Builds `serde_yaml::Value::Sequence`.
///
/// Trusted: the value holds the given values, in order, and nothing else.
#[verifier::external_body]
fn list_value(items: Vec<serde_yaml::Value>) -> (value: serde_yaml::Value)
    ensures
        yaml_node(value) == Node::List(yaml_nodes(items@)),
        yaml_size(value) == 1 + yaml_sizes(items@),
{
    serde_yaml::Value::Sequence(items)
}

/// Collects string keys and values into a `serde_yaml::Mapping` and builds
/// `serde_yaml::Value::Mapping` from it.
///
/// Trusted: a mapping collected from pairs with distinct keys holds those
/// pairs in the order they came, and nothing else.
#[verifier::external_body]
fn table_value(keys: Vec<String>, values: Vec<serde_yaml::Value>) -> (value: serde_yaml::Value)
    requires
        keys@.len() == values@.len(),
        distinct(texts(keys@)),
    ensures
        yaml_node(value) == Node::Table(entries(texts(keys@), yaml_nodes(values@))),
        yaml_size(value) == 1 + text_sizes(texts(keys@)) + yaml_sizes(values@),
{
    serde_yaml::Value::Mapping(keys.into_iter().map(serde_yaml::Value::String).zip(values).collect())
}

/// Calls `serde_yaml::to_string` and, where it fails, takes the message of
/// the error as its `Display` gives it.
///
/// Trusted: for a value below `SIZE_LIMIT`, whether the call succeeds, the
/// text it gives and the message it fails with depend on the tree that the
/// value holds and on nothing else. Larger values are left out: the
/// emitter's counters of lines, columns and bytes may not hold them.
#[verifier::external_body]
fn render(value: &serde_yaml::Value) -> (rendered: Result<String, String>)
    requires
        yaml_size(*value) < SIZE_LIMIT,
    ensures
        rendering_view(rendered) == yaml_rendering(yaml_node(*value)),
{
    match serde_yaml::to_string(value) {
        Ok(text) => Ok(text),
        Err(error) => Err(error.to_string()),
    }
}

/// The name of the metadata document inside the problem directory.
pub open spec fn document_name() -> Seq<char> {
    "meta.yaml"@
}

/// The tree of the `test` table: the input names, then the answer names.
pub open spec fn test_node(meta: MetaView) -> Node {
    Node::Table(
        seq![
            ("input"@, Node::List(text_nodes(meta.input))),
            ("output"@, Node::List(text_nodes(meta.output))),
        ],
    )
}

/// The tree of the record itself, its fields in the order they are declared.
pub open spec fn record_node(meta: MetaView) -> Node {
    Node::Table(
        seq![
            ("memoryLimit"@, Node::Text(meta.memory_limit)),
            ("timeLimit"@, Node::Text(meta.time_limit)),
            ("test"@, test_node(meta)),
        ],
    )
}

/// The tree of the whole document: one table with the single key `problem`,
/// whose value is the record.
pub open spec fn document_node(meta: MetaView) -> Node {
    Node::Table(seq![("problem"@, record_node(meta))])
}

/// The detail of the error for a record whose document would be too large.
pub open spec fn too_long_detail() -> Seq<char> {
    "the record is too large to render"@
}

/// The error for a document that could not be produced for the reason in
/// `detail`.
pub open spec fn document_error(detail: Seq<char>) -> WriteErrorView {
    WriteErrorView::Io { path: document_name(), detail }
}

/// What becomes of a rendering: the text when it succeeded, and otherwise
/// the error for the document with the message as its detail.
pub open spec fn outcome_of(rendering: Result<Seq<char>, Seq<char>>) -> Result<Seq<char>, WriteErrorView> {
    match rendering {
        Ok(text) => Ok(text),
        Err(message) => Err(document_error(message)),
    }
}

/// The document of a record: the rendering of its tree, or the error for the
/// document where it would be too large for the emitter or the rendering
/// fails.
pub open spec fn document_of(meta: MetaView) -> Result<Seq<char>, WriteErrorView> {
    if short_record(meta) {
        outcome_of(yaml_rendering(document_node(meta)))
    } else {
        Err(document_error(too_long_detail()))
    }
}

/// A document, or the error in its place, as plain values.
pub open spec fn document_view(document: Result<String, WriteError>) -> Result<Seq<char>, WriteErrorView> {
    match document {
        Ok(text) => Ok(text@),
        Err(error) => Err(error@),
    }
}

/// The tree of a document fixes the record: two records with the same tree
/// are the same record, field by field and name by name.
pub proof fn lemma_document_fixes_record(first: MetaView, second: MetaView)
    requires
        document_node(first) == document_node(second),
    ensures
        first == second,
{
    let a = seq![("problem"@, record_node(first))];
    let b = seq![("problem"@, record_node(second))];
    assert(a[0] == b[0]);
    let ra = seq![
        ("memoryLimit"@, Node::Text(first.memory_limit)),
        ("timeLimit"@, Node::Text(first.time_limit)),
        ("test"@, test_node(first)),
    ];
    let rb = seq![
        ("memoryLimit"@, Node::Text(second.memory_limit)),
        ("timeLimit"@, Node::Text(second.time_limit)),
        ("test"@, test_node(second)),
    ];
    assert(ra[0] == rb[0] && ra[1] == rb[1] && ra[2] == rb[2]);
    let ta = seq![
        ("input"@, Node::List(text_nodes(first.input))),
        ("output"@, Node::List(text_nodes(first.output))),
    ];
    let tb = seq![
        ("input"@, Node::List(text_nodes(second.input))),
        ("output"@, Node::List(text_nodes(second.output))),
    ];
    assert(ta[0] == tb[0] && ta[1] == tb[1]);
    assert(first.input =~= second.input) by {
        assert(text_nodes(first.input).len() == text_nodes(second.input).len());
        assert forall|i: int| 0 <= i < first.input.len() implies first.input[i]
            == second.input[i] by {
            assert(text_nodes(first.input)[i] == text_nodes(second.input)[i]);
        }
    }
    assert(first.output =~= second.output) by {
        assert(text_nodes(first.output).len() == text_nodes(second.output).len());
        assert forall|i: int| 0 <= i < first.output.len() implies first.output[i]
            == second.output[i] by {
            assert(text_nodes(first.output)[i] == text_nodes(second.output)[i]);
        }
    }
}

/// Adding a text to a list adds its size.
pub proof fn lemma_text_sizes_push(items: Seq<Seq<char>>, text: Seq<char>)
    ensures
        text_sizes(items.push(text)) == text_sizes(items) + text.len() + 1,
{
    assert(items.push(text).drop_last() =~= items);
}

/// Adding a value to a list adds its size.
pub proof fn lemma_yaml_sizes_push(values: Seq<serde_yaml::Value>, value: serde_yaml::Value)
    ensures
        yaml_sizes(values.push(value)) == yaml_sizes(values) + yaml_size(value),
{
    assert(values.push(value).drop_last() =~= values);
}

/// The first texts of a list are no larger than the whole list.
pub proof fn lemma_text_sizes_prefix(items: Seq<Seq<char>>, count: int)
    requires
        0 <= count <= items.len(),
    ensures
        text_sizes(items.take(count)) <= text_sizes(items),
    decreases items.len(),
{
    if count == items.len() {
        assert(items.take(count) =~= items);
    } else {
        assert(items.drop_last().take(count) =~= items.take(count));
        lemma_text_sizes_prefix(items.drop_last(), count);
    }
}

/// A list of texts that are all shorter than `bound` is no larger than
/// `bound` for each of them.
pub proof fn lemma_text_sizes_bound(items: Seq<Seq<char>>, bound: nat)
    requires
        forall|i: int| 0 <= i < items.len() ==> (#[trigger] items[i]).len() < bound,
    ensures
        text_sizes(items) <= items.len() * bound,
    decreases items.len(),
{
    if items.len() > 0 {
        lemma_text_sizes_bound(items.drop_last(), bound);
        assert((items.len() - 1) * bound + bound == items.len() * bound) by (nonlinear_arith);
    }
}

/// The record of a description with 64-bit limits and at most two million
/// tests has a document below the limit, so that its document is whatever
/// the rendering of its tree gives.
pub proof fn lemma_converted_record_short(response: ResponseView)
    requires
        i64::MIN <= response.memory_limit <= i64::MAX,
        i64::MIN <= response.time_limit <= i64::MAX,
        response.tests.len() <= 2_000_000,
    ensures
        short_record(converted(response)),
        document_of(converted(response)) == outcome_of(
            yaml_rendering(document_node(converted(response))),
        ),
{
    let meta = converted(response);
    lemma_decimal_length_64(0, response.memory_limit);
    lemma_decimal_length_64(0, response.time_limit);
    assert forall|i: int| 0 <= i < meta.input.len() implies (#[trigger] meta.input[i]).len()
        < 24 by {
        lemma_decimal_length_64((i + 1) as nat, 0);
    }
    assert forall|i: int| 0 <= i < meta.output.len() implies (#[trigger] meta.output[i]).len()
        < 25 by {
        lemma_decimal_length_64((i + 1) as nat, 0);
    }
    lemma_text_sizes_bound(meta.input, 24);
    lemma_text_sizes_bound(meta.output, 25);
}

/// The size of `names` added to `total`, as long as the sum stays below the
/// limit.
fn add_texts(total: usize, names: &Vec<String>) -> (sum: Option<usize>)
    requires
        total < SIZE_LIMIT,
    ensures
        sum matches Some(n) ==> n == total + text_sizes(texts(names@)) && n < SIZE_LIMIT,
        sum is None ==> total + text_sizes(texts(names@)) >= SIZE_LIMIT,
{
    let ghost all = texts(names@);
    let mut sum: usize = total;
    let mut i: usize = 0;
    assert(all.take(0) =~= Seq::<Seq<char>>::empty());
    while i < names.len()
        invariant
            i <= names.len(),
            all == texts(names@),
            sum == total + text_sizes(all.take(i as int)),
            sum < SIZE_LIMIT,
        decreases names.len() - i,
    {
        let length = names[i].as_str().unicode_len();
        proof {
            assert(all.take(i as int + 1) =~= all.take(i as int).push(all[i as int]));
            lemma_text_sizes_push(all.take(i as int), all[i as int]);
            lemma_text_sizes_prefix(all, i as int + 1);
        }
        if length >= SIZE_LIMIT - sum - 1 {
            return None;
        }
        sum = sum + length + 1;
        i = i + 1;
    }
    assert(all.take(names.len() as int) =~= all);
    Some(sum)
}

/// The size of the document of a record, where it is below the limit.
pub fn measure_document(meta: &CPTProblemMeta) -> (size: Option<usize>)
    ensures
        size matches Some(n) ==> n == document_size(meta@) && short_record(meta@),
        size is None ==> !short_record(meta@),
{
    let frame: usize = 55;
    let memory = meta.memory_limit.as_str().unicode_len();
    if memory >= SIZE_LIMIT - frame {
        return None;
    }
    let time = meta.time_limit.as_str().unicode_len();
    if time >= SIZE_LIMIT - frame - memory {
        return None;
    }
    match add_texts(frame + memory + time, &meta.test.input) {
        None => None,
        Some(with_input) => add_texts(with_input, &meta.test.output),
    }
}

/// Whether the document of a record is small enough for the emitter.
pub fn record_is_short(meta: &CPTProblemMeta) -> (short: bool)
    ensures
        short == short_record(meta@),
{
    measure_document(meta).is_some()
}

/// The value that holds a list of texts.
fn names_value(names: &Vec<String>) -> (value: serde_yaml::Value)
    ensures
        yaml_node(value) == Node::List(text_nodes(texts(names@))),
        yaml_size(value) == 1 + text_sizes(texts(names@)),
{
    let ghost all = texts(names@);
    let mut items: Vec<serde_yaml::Value> = Vec::new();
    let mut i: usize = 0;
    assert(all.take(0) =~= Seq::<Seq<char>>::empty());
    while i < names.len()
        invariant
            i <= names.len(),
            all == texts(names@),
            items@.len() == i,
            yaml_sizes(items@) == text_sizes(all.take(i as int)),
            forall|k: int| 0 <= k < i ==> yaml_node(#[trigger] items@[k]) == Node::Text(names@[k]@),
        decreases names.len() - i,
    {
        let item = text_value(names[i].as_str());
        proof {
            assert(all.take(i as int + 1) =~= all.take(i as int).push(all[i as int]));
            lemma_text_sizes_push(all.take(i as int), all[i as int]);
            lemma_yaml_sizes_push(items@, item);
        }
        items.push(item);
        i = i + 1;
    }
    assert(all.take(names.len() as int) =~= all);
    assert(yaml_nodes(items@) =~= text_nodes(texts(names@)));
    list_value(items)
}

/// The value that holds the `test` table of a record.
fn test_value(meta: &CPTProblemMeta) -> (value: serde_yaml::Value)
    ensures
        yaml_node(value) == test_node(meta@),
        yaml_size(value) == 16 + text_sizes(meta@.input) + text_sizes(meta@.output),
{
    let mut keys: Vec<String> = Vec::new();
    keys.push(String::from_str("input"));
    keys.push(String::from_str("output"));
    let input = names_value(&meta.test.input);
    let output = names_value(&meta.test.output);
    let mut values: Vec<serde_yaml::Value> = Vec::new();
    values.push(input);
    values.push(output);
    proof {
        reveal_strlit("input");
        reveal_strlit("output");
        assert("input"@.len() == 5);
        assert("output"@.len() == 6);
        assert(entries(texts(keys@), yaml_nodes(values@)) =~= seq![
            ("input"@, Node::List(text_nodes(meta@.input))),
            ("output"@, Node::List(text_nodes(meta@.output))),
        ]);
        let none = Seq::<Seq<char>>::empty();
        assert(texts(keys@) =~= none.push("input"@).push("output"@));
        lemma_text_sizes_push(none, "input"@);
        lemma_text_sizes_push(none.push("input"@), "output"@);
        let no_values = Seq::<serde_yaml::Value>::empty();
        assert(values@ =~= no_values.push(input).push(output));
        lemma_yaml_sizes_push(no_values, input);
        lemma_yaml_sizes_push(no_values.push(input), output);
    }
    table_value(keys, values)
}

/// The value that holds a record.
fn record_value(meta: &CPTProblemMeta) -> (value: serde_yaml::Value)
    ensures
        yaml_node(value) == record_node(meta@),
        yaml_size(value) == 46 + meta@.memory_limit.len() + meta@.time_limit.len() + text_sizes(
            meta@.input,
        ) + text_sizes(meta@.output),
{
    let mut keys: Vec<String> = Vec::new();
    keys.push(String::from_str("memoryLimit"));
    keys.push(String::from_str("timeLimit"));
    keys.push(String::from_str("test"));
    let memory = text_value(meta.memory_limit.as_str());
    let time = text_value(meta.time_limit.as_str());
    let test = test_value(meta);
    let mut values: Vec<serde_yaml::Value> = Vec::new();
    values.push(memory);
    values.push(time);
    values.push(test);
    proof {
        reveal_strlit("memoryLimit");
        reveal_strlit("timeLimit");
        reveal_strlit("test");
        assert("memoryLimit"@.len() == 11);
        assert("timeLimit"@.len() == 9);
        assert("test"@.len() == 4);
        assert(entries(texts(keys@), yaml_nodes(values@)) =~= seq![
            ("memoryLimit"@, Node::Text(meta@.memory_limit)),
            ("timeLimit"@, Node::Text(meta@.time_limit)),
            ("test"@, test_node(meta@)),
        ]);
        let none = Seq::<Seq<char>>::empty();
        assert(texts(keys@) =~= none.push("memoryLimit"@).push("timeLimit"@).push("test"@));
        lemma_text_sizes_push(none, "memoryLimit"@);
        lemma_text_sizes_push(none.push("memoryLimit"@), "timeLimit"@);
        lemma_text_sizes_push(none.push("memoryLimit"@).push("timeLimit"@), "test"@);
        let no_values = Seq::<serde_yaml::Value>::empty();
        assert(values@ =~= no_values.push(memory).push(time).push(test));
        lemma_yaml_sizes_push(no_values, memory);
        lemma_yaml_sizes_push(no_values.push(memory), time);
        lemma_yaml_sizes_push(no_values.push(memory).push(time), test);
    }
    table_value(keys, values)
}

/// The value that holds the whole document of a record.
fn document_value(meta: &CPTProblemMeta) -> (value: serde_yaml::Value)
    ensures
        yaml_node(value) == document_node(meta@),
        yaml_size(value) == document_size(meta@),
{
    let mut keys: Vec<String> = Vec::new();
    keys.push(String::from_str("problem"));
    let record = record_value(meta);
    let mut values: Vec<serde_yaml::Value> = Vec::new();
    values.push(record);
    proof {
        reveal_strlit("problem");
        assert("problem"@.len() == 7);
        assert(entries(texts(keys@), yaml_nodes(values@)) =~= seq![
            ("problem"@, record_node(meta@)),
        ]);
        let none = Seq::<Seq<char>>::empty();
        assert(texts(keys@) =~= none.push("problem"@));
        lemma_text_sizes_push(none, "problem"@);
        let no_values = Seq::<serde_yaml::Value>::empty();
        assert(values@ =~= no_values.push(record));
        lemma_yaml_sizes_push(no_values, record);
    }
    table_value(keys, values)
}

/// What becomes of an attempt to render the document: the text when it
/// succeeded, and otherwise an error that names the document and carries the
/// given message.
pub fn document_outcome(rendered: Result<String, String>) -> (document: Result<String, WriteError>)
    ensures
        document_view(document) == outcome_of(rendering_view(rendered)),
{
    match rendered {
        Ok(text) => Ok(text),
        Err(message) => Err(WriteError::Io { path: String::from_str("meta.yaml"), detail: message }),
    }
}

/// The YAML text of the metadata document of `meta`.
///
/// A record whose document would reach `SIZE_LIMIT` is refused with an error
/// that names the document. For any other record the result is what
/// `serde_yaml` gives for the document tree of the record: its text, or an
/// error that names the document and carries its message.
pub fn meta_document(meta: &CPTProblemMeta) -> (document: Result<String, WriteError>)
    ensures
        document_view(document) == document_of(meta@),
{
    if !record_is_short(meta) {
        return document_outcome(Err(String::from_str("the record is too large to render")));
    }
    let value = document_value(meta);
    document_outcome(render(&value))
}

} // verus!
