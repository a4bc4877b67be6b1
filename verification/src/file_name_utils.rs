//! Names of files and paths in the forms that other programs accept.

use vstd::prelude::*;
use crate::text::chars::{from_chars, to_chars};
use crate::text::lines::slice_chars;
use crate::text::search::{contains, lemma_replaced_without_match, replace_text, replaced};

verus! {

/// The pattern of a drive letter at the start of a path: a letter from A
/// to Z, in upper or lower case, a colon and a slash.
pub const DRIVE_PREFIX_PATTERN: &'static str = "^([A-Za-z]):/";

/// Whether `c`, a character beyond ASCII, is alphabetic or numeric in the
/// sense of Unicode: what `char::is_alphanumeric` of the standard library
/// answers for `c`.
pub uninterp spec fn unicode_alphanumeric(c: char) -> bool;

/// Whether `c` is one of the letters and digits of ASCII.
pub open spec fn is_ascii_alphanumeric(c: char) -> bool {
    ||| '0' <= c <= '9'
    ||| 'A' <= c <= 'Z'
    ||| 'a' <= c <= 'z'
}

/// Whether `c` is alphabetic or numeric in the sense of Unicode. Of the
/// characters of ASCII these are the letters and the digits, and no other.
pub open spec fn is_alphanumeric(c: char) -> bool {
    if c <= '\u{7f}' {
        is_ascii_alphanumeric(c)
    } else {
        unicode_alphanumeric(c)
    }
}

/// `char::is_alphanumeric` of the standard library: whether the character
/// has the property Alphabetic or one of the number categories of Unicode.
/// Among the characters of ASCII, Unicode gives these to the letters and
/// the digits alone. Beyond ASCII the answer depends on the character
/// alone and is given the name `unicode_alphanumeric`.
pub assume_specification[ char::is_alphanumeric ](c: char) -> (r: bool)
    ensures
        r == (if c <= '\u{7f}' {
            is_ascii_alphanumeric(c)
        } else {
            unicode_alphanumeric(c)
        }),
;

/// Whether a file name may hold `c`: letters, digits, `-` and `_`.
pub open spec fn allowed_in_file_name(c: char) -> bool {
    is_alphanumeric(c) || c == '-' || c == '_'
}

/// `file_name` without the characters that a file name may not hold.
pub open spec fn spec_sanitize_for_file_name(file_name: Seq<char>) -> Seq<char> {
    file_name.filter(|c: char| allowed_in_file_name(c))
}

/// `path` with a slash for every backslash.
pub open spec fn spec_normalized_path(path: Seq<char>) -> Seq<char> {
    replaced(path, seq!['\\'], seq!['/'])
}

/// Whether `c` can name a drive: a letter from A to Z, in upper or lower
/// case.
pub open spec fn is_drive_letter(c: char) -> bool {
    'A' <= c <= 'Z' || 'a' <= c <= 'z'
}

/// Whether `path` starts with a drive letter, a colon and a slash.
pub open spec fn has_drive_prefix(path: Seq<char>) -> bool {
    &&& path.len() >= 3
    &&& is_drive_letter(path[0])
    &&& path[1] == ':'
    &&& path[2] == '/'
}

/// The letter `c` in lower case: the lower-case letter for an upper-case
/// letter from A to Z, and any other character as it is.
pub open spec fn lower_case(c: char) -> char {
    if 'A' <= c <= 'Z' {
        ((c as u8) + 32) as char
    } else {
        c
    }
}

/// `path`, an absolute path, as a bind mount takes it: in forward-slash
/// form, and with `//c/` in place of a drive prefix `C:/` or `c:/`.
pub open spec fn spec_normalize_for_docker_path(path: Seq<char>) -> Seq<char> {
    let forward = spec_normalized_path(path);
    if has_drive_prefix(forward) {
        seq!['/', '/', lower_case(forward[0]), '/'] + forward.skip(3)
    } else {
        forward
    }
}

/// `Regex::new` and `Regex::captures` of the crate `regex`, for the
/// pattern of a drive prefix. That pattern matches at the start of the
/// text only, and there one letter from A to Z, in upper or lower case, a
/// colon and a slash. The result is the matched text and the text of its
/// one group, the letter; it is `None` where the pattern does not match.
#[verifier::external_body]
fn drive_prefix_captures(pattern: &str, path: &str) -> (r: Option<(String, String)>)
    requires
        pattern@ == DRIVE_PREFIX_PATTERN@,
    ensures
        r is Some == has_drive_prefix(path@),
        r matches Some((whole, letter)) ==> whole@ == path@.subrange(0, 3) && letter@
            == path@.subrange(0, 1),
{
    let regex = regex::Regex::new(pattern).unwrap();
    regex.captures(path).map(|found| (found[0].to_string(), found[1].to_string()))
}

/// Removes from `file_name` every character but letters, digits, `-` and
/// `_`.
pub fn sanitize_for_file_name(file_name: String) -> (r: String)
    ensures
        r@ == spec_sanitize_for_file_name(file_name@),
{
    let chars = to_chars(file_name.as_str());
    let ghost allowed = |c: char| allowed_in_file_name(c);
    let mut out: Vec<char> = Vec::new();
    let mut i: usize = 0;
    proof {
        reveal(Seq::filter);
        assert(chars@.take(0) == Seq::<char>::empty());
    }
    while i < chars.len()
        invariant
            i <= chars.len(),
            allowed == |c: char| allowed_in_file_name(c),
            out@ == chars@.take(i as int).filter(allowed),
        decreases chars.len() - i,
    {
        let c = chars[i];
        proof {
            reveal(Seq::filter);
            assert(chars@.take(i + 1).drop_last() == chars@.take(i as int));
        }
        if c.is_alphanumeric() || c == '-' || c == '_' {
            out.push(c);
        }
        i += 1;
    }
    assert(chars@.take(chars@.len() as int) == chars@);
    from_chars(&out)
}

/// The text of a path with a slash for every backslash.
pub fn normalized_path(path: &str) -> (r: String)
    ensures
        r@ == spec_normalized_path(path@),
{
    let mut backslash = String::new();
    backslash.push('\\');
    let mut slash = String::new();
    slash.push('/');
    assert(backslash@ == seq!['\\']);
    assert(slash@ == seq!['/']);
    replace_text(path, backslash.as_str(), slash.as_str())
}

/// Writes the absolute path `path` as a bind mount takes it.
pub fn normalize_for_docker_path(path: &str) -> (r: String)
    ensures
        r@ == spec_normalize_for_docker_path(path@),
{
    let forward = normalized_path(path);
    match drive_prefix_captures(DRIVE_PREFIX_PATTERN, forward.as_str()) {
        Some((whole, letter)) => {
            let chars = to_chars(forward.as_str());
            let letters = to_chars(letter.as_str());
            let matched = to_chars(whole.as_str());
            assert(letters@[0] == forward@[0]);
            let letter: char = letters[0];
            let lower: char = if 'A' <= letter && letter <= 'Z' {
                ((letter as u8) + 32) as char
            } else {
                letter
            };
            let mut out: Vec<char> = Vec::new();
            out.push('/');
            out.push('/');
            out.push(lower);
            out.push('/');
            let rest = slice_chars(&chars, matched.len(), chars.len());
            let mut tail = rest;
            out.append(&mut tail);
            assert(out@ == seq!['/', '/', lower_case(forward@[0]), '/'] + forward@.skip(3));
            from_chars(&out)
        },
        None => forward,
    }
}

/// A path without a drive prefix is changed in no way but that its
/// backslashes become slashes.
pub proof fn lemma_path_without_drive_prefix(path: Seq<char>)
    requires
        !has_drive_prefix(spec_normalized_path(path)),
    ensures
        spec_normalize_for_docker_path(path) == spec_normalized_path(path),
{
}

/// A path with neither a backslash nor a drive prefix stays as it is.
pub proof fn lemma_plain_path_is_unchanged(path: Seq<char>)
    requires
        !contains(path, seq!['\\']),
        !has_drive_prefix(path),
    ensures
        spec_normalize_for_docker_path(path) == path,
{
    lemma_replaced_without_match(path, seq!['\\'], seq!['/']);
}

/// The letter of a drive comes out in lower case, whichever case it came
/// in: a lower-case letter stays, an upper-case letter gives way to its
/// lower-case form.
pub proof fn lemma_drive_letter_in_lower_case(c: char)
    requires
        is_drive_letter(c),
    ensures
        'a' <= lower_case(c) <= 'z',
        'a' <= c <= 'z' ==> lower_case(c) == c,
        lower_case(lower_case(c)) == lower_case(c),
{
}

/// Only the prefix is rewritten, and once. Where the forward-slash form of
/// a path is a drive letter `letter`, in either case, a colon, a slash and
/// then `rest`, the path comes out as two slashes, the letter in lower
/// case, a slash and `rest` as it is, whatever `rest` holds.
pub proof fn lemma_drive_prefix_is_rewritten_once(path: Seq<char>, letter: char, rest: Seq<char>)
    requires
        is_drive_letter(letter),
        spec_normalized_path(path) == seq![letter, ':', '/'] + rest,
    ensures
        spec_normalize_for_docker_path(path) == seq!['/', '/', lower_case(letter), '/'] + rest,
{
    let forward = spec_normalized_path(path);
    assert(forward.skip(3) =~= rest);
}

/// A drive prefix becomes two slashes, the letter in lower case and a
/// slash; what follows it stays.
pub proof fn lemma_path_with_drive_prefix(path: Seq<char>)
    requires
        has_drive_prefix(spec_normalized_path(path)),
    ensures
        spec_normalize_for_docker_path(path).len() == spec_normalized_path(path).len() + 1,
        spec_normalize_for_docker_path(path).subrange(0, 4) == seq![
            '/',
            '/',
            lower_case(spec_normalized_path(path)[0]),
            '/',
        ],
        spec_normalize_for_docker_path(path).skip(4) == spec_normalized_path(path).skip(3),
{
    let forward = spec_normalized_path(path);
    let out = spec_normalize_for_docker_path(path);
    assert(out.subrange(0, 4) =~= seq!['/', '/', lower_case(forward[0]), '/']);
    assert(out.skip(4) =~= forward.skip(3));
}

/// Every character of a sanitized name may stand in a file name, and
/// those of ASCII among them are letters, digits, `-` or `_`. So no
/// slash, backslash, dot, colon or space is left, and a sanitized name
/// cannot lead out of the folder it is put in.
pub proof fn lemma_sanitized_name_is_plain(file_name: Seq<char>)
    ensures
        forall|i: int|
            0 <= i < spec_sanitize_for_file_name(file_name).len() ==> allowed_in_file_name(
                #[trigger] spec_sanitize_for_file_name(file_name)[i],
            ),
        forall|i: int|
            0 <= i < spec_sanitize_for_file_name(file_name).len() && #[trigger] spec_sanitize_for_file_name(
                file_name,
            )[i] <= '\u{7f}' ==> is_ascii_alphanumeric(spec_sanitize_for_file_name(file_name)[i])
                || spec_sanitize_for_file_name(file_name)[i] == '-' || spec_sanitize_for_file_name(
                file_name,
            )[i] == '_',
        !spec_sanitize_for_file_name(file_name).contains('/'),
        !spec_sanitize_for_file_name(file_name).contains('\\'),
        !spec_sanitize_for_file_name(file_name).contains('.'),
        !spec_sanitize_for_file_name(file_name).contains(':'),
        !spec_sanitize_for_file_name(file_name).contains(' '),
{
    let allowed = |c: char| allowed_in_file_name(c);
    let out = file_name.filter(allowed);
    assert forall|i: int| 0 <= i < out.len() implies allowed_in_file_name(#[trigger] out[i]) by {
        file_name.lemma_filter_pred(allowed, i);
    }
}

/// The letters and digits of ASCII, `-` and `_` all stay in a sanitized
/// name that holds nothing else.
pub proof fn lemma_plain_name_is_unchanged(file_name: Seq<char>)
    requires
        forall|i: int| 0 <= i < file_name.len() ==> allowed_in_file_name(#[trigger] file_name[i]),
    ensures
        spec_sanitize_for_file_name(file_name) == file_name,
    decreases file_name.len(),
{
    reveal(Seq::filter);
    if file_name.len() > 0 {
        lemma_plain_name_is_unchanged(file_name.drop_last());
        assert(file_name.drop_last().push(file_name.last()) =~= file_name);
    }
}

} // verus!
