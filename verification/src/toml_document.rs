//! TOML documents, which the crate `toml_edit` parses, changes and writes.
//!
//! Verus does not look inside a document of `toml_edit`. The contracts
//! below speak of a document through the TOML text that it is written as,
//! and of an array through the texts of its values: two documents that are
//! written the same are taken to hold the same.

use vstd::prelude::*;

verus! {

/// A TOML document of the crate `toml_edit` that can be changed.
#[verifier::external_type_specification]
#[verifier::external_body]
pub struct ExDocumentMut(toml_edit::DocumentMut);

/// A TOML array of the crate `toml_edit`.
#[verifier::external_type_specification]
#[verifier::external_body]
pub struct ExArray(toml_edit::Array);

/// The error of the parser of the crate `toml_edit`.
#[verifier::external_type_specification]
#[verifier::external_body]
pub struct ExTomlError(toml_edit::TomlError);

/// What a document holds: the TOML text that `toml_edit` writes for it.
pub uninterp spec fn document_text(document: toml_edit::DocumentMut) -> Seq<char>;

/// What an array holds: its values in order, each as TOML text.
pub uninterp spec fn array_items(array: toml_edit::Array) -> Seq<Seq<char>>;

/// What an error of the parser holds: the message that it shows.
pub uninterp spec fn toml_error_text(error: toml_edit::TomlError) -> Seq<char>;

/// What `DocumentMut::from_str` makes of `text`: the document that it
/// reads, given by its text, or the message of the error that it finds.
pub uninterp spec fn toml_parsed(text: Seq<char>) -> Result<Seq<char>, Seq<char>>;

/// The values of the array that the document with the text `document`
/// holds under `key` at its top level; `None` where it holds nothing
/// there, or something other than an array.
pub uninterp spec fn toml_array(document: Seq<char>, key: Seq<char>) -> Option<Seq<Seq<char>>>;

/// The values of the array that the document with the text `document`
/// holds under `key` in its table `table`; `None` where it holds no such
/// table, nothing under `key` in it, or something other than an array.
pub uninterp spec fn toml_member_array(
    document: Seq<char>,
    table: Seq<char>,
    key: Seq<char>,
) -> Option<Seq<Seq<char>>>;

/// The text of the document with the text `document` after the array under
/// `key` in its table `table` has been extended by `items` with
/// `Array::extend`.
pub uninterp spec fn toml_extended(
    document: Seq<char>,
    table: Seq<char>,
    key: Seq<char>,
    items: Seq<Seq<char>>,
) -> Seq<char>;

/// `DocumentMut::from_str`. What it returns depends on the text alone and
/// goes by the name `toml_parsed`.
#[verifier::external_body]
pub(crate) fn document_from_str(text: &str) -> (r: Result<
    toml_edit::DocumentMut,
    toml_edit::TomlError,
>)
    ensures
        match r {
            Ok(document) => toml_parsed(text@) == Ok::<Seq<char>, Seq<char>>(
                document_text(document),
            ),
            Err(error) => toml_parsed(text@) == Err::<Seq<char>, Seq<char>>(
                toml_error_text(error),
            ),
        },
{
    text.parse::<toml_edit::DocumentMut>()
}

/// The `Display` of `DocumentMut`: the text of the document.
#[verifier::external_body]
pub(crate) fn document_to_string(document: &toml_edit::DocumentMut) -> (r: String)
    ensures
        r@ == document_text(*document),
{
    document.to_string()
}

/// The `Display` of `TomlError`: the message of the error.
#[verifier::external_body]
pub(crate) fn error_to_string(error: &toml_edit::TomlError) -> (r: String)
    ensures
        r@ == toml_error_text(*error),
{
    error.to_string()
}

/// `Table::get` on the top level of a document, then `Item::as_array`: a
/// copy of the array under `key`, if there is one.
#[verifier::external_body]
pub(crate) fn top_level_array(document: &toml_edit::DocumentMut, key: &str) -> (r: Option<
    toml_edit::Array,
>)
    ensures
        match r {
            Some(array) => toml_array(document_text(*document), key@) == Some(array_items(array)),
            None => toml_array(document_text(*document), key@) is None,
        },
{
    document.get(key).and_then(|item| item.as_array()).cloned()
}

/// `Table::get` on the top level of a document, `Item::get` on what is
/// found, then `Item::as_array`: a copy of the array under `key` in the
/// table `table`, if there is one.
#[verifier::external_body]
pub(crate) fn member_array(document: &toml_edit::DocumentMut, table: &str, key: &str) -> (r: Option<
    toml_edit::Array,
>)
    ensures
        match r {
            Some(array) => toml_member_array(document_text(*document), table@, key@) == Some(
                array_items(array),
            ),
            None => toml_member_array(document_text(*document), table@, key@) is None,
        },
{
    let member = document.get(table).and_then(|found| found.get(key));
    member.and_then(|found| found.as_array()).cloned()
}

/// `Table::get_mut`, `Item::get_mut` and `Item::as_array_mut` to reach the
/// array under `key` in the table `table`, then `Array::extend` with the
/// values of `items`, which appends them in their order. The text of the
/// document afterwards goes by the name `toml_extended`; the array in it
/// holds the values it held, followed by those of `items`.
#[verifier::external_body]
pub(crate) fn extend_member_array(
    document: &mut toml_edit::DocumentMut,
    table: &str,
    key: &str,
    items: toml_edit::Array,
)
    requires
        toml_member_array(document_text(*old(document)), table@, key@) is Some,
    ensures
        document_text(*final(document)) == toml_extended(
            document_text(*old(document)),
            table@,
            key@,
            array_items(items),
        ),
        toml_member_array(document_text(*final(document)), table@, key@) == Some(
            toml_member_array(document_text(*old(document)), table@, key@)->0 + array_items(
                items,
            ),
        ),
{
    let member = document.get_mut(table).and_then(|found| found.get_mut(key));
    if let Some(array) = member.and_then(|found| found.as_array_mut()) {
        array.extend(items);
    }
}

} // verus!
