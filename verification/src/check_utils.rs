//! Error messages as they are shown to a caller.

use vstd::prelude::*;
use crate::file_name_utils::{normalized_path, spec_normalized_path};
use crate::text::search::{replace_text, replaced};

verus! {

/// The prefix with which the interpreter writes the location of a file.
pub const FILE_URI_PREFIX: &'static str = "file:///";

/// What stands for the code folder in a message.
pub const RELATIVE_PREFIX: &'static str = "./";

/// `message` as a caller sees it: without any `file:///`, and then with
/// `./` for every mention of the code folder `code_folder` followed by a
/// slash. The code folder is taken in its forward-slash form.
pub open spec fn spec_normalize_error_message(message: Seq<char>, code_folder: Seq<char>) -> Seq<
    char,
> {
    replaced(
        replaced(message, FILE_URI_PREFIX@, Seq::empty()),
        spec_normalized_path(code_folder) + seq!['/'],
        RELATIVE_PREFIX@,
    )
}

/// Strips the `file:///` prefixes from `error_message` and shortens every
/// path into the code folder to one that starts with `./`.
pub fn normalize_error_message(error_message: String, code_folder_path: &str) -> (r: String)
    ensures
        r@ == spec_normalize_error_message(error_message@, code_folder_path@),
{
    let mut folder_prefix = normalized_path(code_folder_path);
    folder_prefix.push('/');
    assert(folder_prefix@ == spec_normalized_path(code_folder_path@) + seq!['/']);
    let empty = String::new();
    let without_uri = replace_text(error_message.as_str(), FILE_URI_PREFIX, empty.as_str());
    replace_text(without_uri.as_str(), folder_prefix.as_str(), RELATIVE_PREFIX)
}

} // verus!
