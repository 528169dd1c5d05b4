//! File-name templates: a named placeholder in braces followed by plain text,
//! filled in by the `strfmt` crate.

use std::collections::HashMap;
use strfmt::Format;
use vstd::prelude::*;

use crate::decimal::decimal;

verus! {

#[verifier::external_type_specification]
#[verifier::external_body]
pub struct ExFmtError(strfmt::FmtError);

/// Whether `c` has a meaning of its own inside a template.
pub open spec fn is_brace(c: char) -> bool {
    c == '{' || c == '}'
}

/// Whether `template` is the placeholder `{key}` followed by text without
/// braces. The key is not empty and holds no brace and no colon, so the
/// placeholder carries no format options.
pub open spec fn placeholder_then_text(template: Seq<char>, key: Seq<char>) -> bool {
    &&& key.len() > 0
    &&& forall|k: int| 0 <= k < key.len() ==> !is_brace(#[trigger] key[k]) && key[k] != ':'
    &&& template.len() >= key.len() + 2
    &&& template[0] == '{'
    &&& template.subrange(1, key.len() as int + 1) == key
    &&& template[key.len() as int + 1] == '}'
    &&& forall|k: int|
        key.len() + 2 <= k < template.len() ==> !is_brace(#[trigger] template[k])
}

/// The text that follows the placeholder of such a template.
pub open spec fn text_after_placeholder(template: Seq<char>, key: Seq<char>) -> Seq<char> {
    template.subrange(key.len() as int + 2, template.len() as int)
}

/// Calls `strfmt::Format::format` on `template` with a map that holds the one
/// entry `key -> value`.
///
/// Trusted: for a template that is `{key}` followed by text without braces,
/// `strfmt` looks the key up, finds no format options, writes the value as
/// Rust displays an unsigned integer (its decimal numeral) and copies the rest
/// of the template, and it does not fail.
#[verifier::external_body]
fn format_numbered(template: &str, key: &str, value: usize) -> (formatted: Result<String, strfmt::FmtError>)
    requires
        placeholder_then_text(template@, key@),
    ensures
        formatted is Ok,
        formatted->Ok_0@ == decimal(value as nat) + text_after_placeholder(template@, key@),
{
    template.format(&HashMap::from([(key.to_string(), value)]))
}

/// Fills the placeholder of `template` with the decimal numeral of `value`.
pub(crate) fn fill_template(template: &str, key: &str, value: usize) -> (name: String)
    requires
        placeholder_then_text(template@, key@),
    ensures
        name@ == decimal(value as nat) + text_after_placeholder(template@, key@),
{
    let formatted = format_numbered(template, key, value);
    formatted.unwrap()
}

} // verus!
