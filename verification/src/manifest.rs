//! The manifest of a job: the fixed baseline, extended by the dependencies
//! that the entry file declares in a block of inline metadata. The block
//! leaves the entry file.

use vstd::prelude::*;
use crate::code_files::{CodeBundle, CodeFiles};
use crate::text::chars::{chars_eq, from_chars, to_chars};
use crate::text::lines::{
    join_rows, joined, lines, rows, slice_chars, split_lines, trim_chars, trimmed,
};
use crate::text::search::{replace_chars, replaced};
use crate::toml_document::{
    document_from_str, document_to_string, error_to_string, extend_member_array, member_array,
    toml_array, toml_extended, toml_member_array, toml_parsed, top_level_array,
};

verus! {

/// The line that opens a block of inline metadata.
pub const SCRIPT_START: &'static str = "# /// script";

/// The line that closes a block of inline metadata.
pub const SCRIPT_END: &'static str = "# ///";

/// The name of the manifest among the files of a job.
pub const PYPROJECT_TOML_FILE_NAME: &'static str = "pyproject.toml";

/// The manifest of a job that declares nothing.
pub const BASELINE_MANIFEST: &'static str =
    "\n[project]\nname = \"shinkai-tool\"\nversion = \"0.0.1\"\ndependencies = [\n    \"jsonpickle~=4.0.0\",\n]\nrequires-python = \">=3.13\"\n        ";

/// The table of the manifest that holds the dependencies.
pub const PROJECT_TABLE: &'static str = "project";

/// The key of the dependencies, in the manifest and in the inline metadata.
pub const DEPENDENCIES_KEY: &'static str = "dependencies";

/// The message of a job without its entry file.
pub const MISSING_ENTRYPOINT_MESSAGE: &'static str = "Code entrypoint file is empty";

/// Why no manifest could be made.
#[derive(Debug)]
pub enum ManifestError {
    /// The entry file is not among the files.
    MissingEntrypoint,
    /// The baseline is no TOML document; the parser's message.
    InvalidBaseline(String),
    /// The inline metadata is no TOML document; the parser's message.
    InvalidInlineMetadata(String),
}

/// A `ManifestError` without the strings that carry it.
pub enum ManifestFailure {
    MissingEntrypoint,
    InvalidBaseline(Seq<char>),
    InvalidInlineMetadata(Seq<char>),
}

impl View for ManifestError {
    type V = ManifestFailure;

    open spec fn view(&self) -> ManifestFailure {
        match self {
            ManifestError::MissingEntrypoint => ManifestFailure::MissingEntrypoint,
            ManifestError::InvalidBaseline(message) => ManifestFailure::InvalidBaseline(message@),
            ManifestError::InvalidInlineMetadata(message) => ManifestFailure::InvalidInlineMetadata(
                message@,
            ),
        }
    }
}

/// The message of a failure.
pub open spec fn spec_failure_message(failure: ManifestFailure) -> Seq<char> {
    match failure {
        ManifestFailure::MissingEntrypoint => MISSING_ENTRYPOINT_MESSAGE@,
        ManifestFailure::InvalidBaseline(message) => message,
        ManifestFailure::InvalidInlineMetadata(message) => message,
    }
}

impl ManifestError {
    /// The message of the error.
    pub fn message(&self) -> (r: String)
        ensures
            r@ == spec_failure_message(self@),
    {
        match self {
            ManifestError::MissingEntrypoint => String::from_str(MISSING_ENTRYPOINT_MESSAGE),
            ManifestError::InvalidBaseline(message) => message.clone(),
            ManifestError::InvalidInlineMetadata(message) => message.clone(),
        }
    }
}

/// The place of the first of `lines`, from the place `from` on, that is
/// `marker` once the white space at its ends is gone; the number of lines
/// where there is none.
pub open spec fn first_marker(lines: Seq<Seq<char>>, marker: Seq<char>, from: int) -> int
    decreases lines.len() - from,
{
    if from < 0 || from >= lines.len() {
        lines.len() as int
    } else if trimmed(lines[from]) == marker {
        from
    } else {
        first_marker(lines, marker, from + 1)
    }
}

/// The place of the line that opens the block: the first start marker.
pub open spec fn block_start(lines: Seq<Seq<char>>) -> int {
    first_marker(lines, SCRIPT_START@, 0)
}

/// The place of the line that closes the block: the first end marker after
/// the line that opens it.
pub open spec fn block_end(lines: Seq<Seq<char>>) -> int {
    first_marker(lines, SCRIPT_END@, block_start(lines) + 1)
}

/// Whether `lines` hold a block: a start marker, and an end marker after
/// it.
pub open spec fn has_block(lines: Seq<Seq<char>>) -> bool {
    block_end(lines) < lines.len()
}

/// What a line of the block declares: the line without the white space at
/// its ends, without any `#`, and again without white space at its ends.
pub open spec fn script_line(line: Seq<char>) -> Seq<char> {
    trimmed(replaced(trimmed(line), seq!['#'], Seq::empty()))
}

/// What the lines strictly inside the block declare, line by line; nothing
/// where there is no block.
pub open spec fn script_lines(lines: Seq<Seq<char>>) -> Seq<Seq<char>> {
    if has_block(lines) {
        Seq::new(
            (block_end(lines) - block_start(lines) - 1) as nat,
            |i: int| script_line(lines[block_start(lines) + 1 + i]),
        )
    } else {
        Seq::empty()
    }
}

/// The `lines` without the block and its two markers, in their order.
pub open spec fn kept_lines(lines: Seq<Seq<char>>) -> Seq<Seq<char>> {
    if has_block(lines) {
        lines.subrange(0, block_start(lines)) + lines.skip(block_end(lines) + 1)
    } else {
        lines
    }
}

/// The inline metadata of the entry file `entry`: what its block declares,
/// line below line; empty where it has no block.
pub open spec fn spec_inline_metadata(entry: Seq<char>) -> Seq<char> {
    joined(script_lines(lines(entry)), seq!['\n'])
}

/// The entry file `entry` without its block: its other lines, line below
/// line; the file as it is where it has no block.
pub open spec fn spec_stripped_entry(entry: Seq<char>) -> Seq<char> {
    if has_block(lines(entry)) {
        joined(kept_lines(lines(entry)), seq!['\n'])
    } else {
        entry
    }
}

/// The dependencies that a manifest with the text `manifest` lists, if it
/// lists any.
pub open spec fn spec_listed_dependencies(manifest: Seq<char>) -> Option<Seq<Seq<char>>> {
    toml_member_array(manifest, PROJECT_TABLE@, DEPENDENCIES_KEY@)
}

/// The dependencies that the inline metadata with the text `metadata`
/// declares, if it declares any: the array under the key of the
/// dependencies.
pub open spec fn spec_declared_dependencies(metadata: Seq<char>) -> Option<Seq<Seq<char>>> {
    toml_array(metadata, DEPENDENCIES_KEY@)
}

/// The manifest for a baseline with the text `baseline` and inline
/// metadata with the text `metadata`: the baseline, with the dependencies
/// that it lists extended by those that the metadata declares; the
/// baseline as it is where either has none.
pub open spec fn spec_merged(baseline: Seq<char>, metadata: Seq<char>) -> Seq<char> {
    match (spec_declared_dependencies(metadata), spec_listed_dependencies(baseline)) {
        (Some(declared), Some(_)) => toml_extended(
            baseline,
            PROJECT_TABLE@,
            DEPENDENCIES_KEY@,
            declared,
        ),
        _ => baseline,
    }
}

/// The dependencies that the manifest for `baseline` and `metadata` lists:
/// those of the baseline, followed by exactly those that the metadata
/// declares, each as often as it is declared.
pub open spec fn spec_merged_dependencies(baseline: Seq<char>, metadata: Seq<char>) -> Option<
    Seq<Seq<char>>,
> {
    match (spec_declared_dependencies(metadata), spec_listed_dependencies(baseline)) {
        (Some(declared), Some(listed)) => Some(listed + declared),
        _ => spec_listed_dependencies(baseline),
    }
}

/// The manifest for the inline metadata `inline`, which is read as a TOML
/// document and merged into the baseline. It fails where the baseline or
/// the metadata is no TOML document.
pub open spec fn spec_manifest(inline: Seq<char>) -> Result<Seq<char>, ManifestFailure> {
    match toml_parsed(BASELINE_MANIFEST@) {
        Err(message) => Err(ManifestFailure::InvalidBaseline(message)),
        Ok(baseline) => match toml_parsed(inline) {
            Err(message) => Err(ManifestFailure::InvalidInlineMetadata(message)),
            Ok(metadata) => Ok(spec_merged(baseline, metadata)),
        },
    }
}

/// The dependencies that the manifest for the inline metadata `inline`
/// lists, where there is a manifest for it.
pub open spec fn spec_manifest_dependencies(inline: Seq<char>) -> Option<Seq<Seq<char>>> {
    match (toml_parsed(BASELINE_MANIFEST@), toml_parsed(inline)) {
        (Ok(baseline), Ok(metadata)) => spec_merged_dependencies(baseline, metadata),
        _ => None,
    }
}

/// The files `bundle` with the entry file `entry` and the manifest
/// `manifest`.
pub open spec fn spec_with_manifest(
    bundle: CodeBundle,
    entry: Seq<char>,
    manifest: Seq<char>,
) -> CodeBundle {
    CodeBundle {
        files: bundle.files.insert(bundle.entrypoint, entry).insert(
            PYPROJECT_TOML_FILE_NAME@,
            manifest,
        ),
        entrypoint: bundle.entrypoint,
    }
}

/// The files of a job with its manifest: the entry file loses its block of
/// inline metadata, and the manifest for that metadata joins the files. It
/// fails where the entry file is not among the files, or no manifest can
/// be made.
pub open spec fn spec_extend_with_pyproject_toml(bundle: CodeBundle) -> Result<
    CodeBundle,
    ManifestFailure,
> {
    if !bundle.files.contains_key(bundle.entrypoint) {
        Err(ManifestFailure::MissingEntrypoint)
    } else {
        let entry = bundle.files[bundle.entrypoint];
        match spec_manifest(spec_inline_metadata(entry)) {
            Err(failure) => Err(failure),
            Ok(manifest) => Ok(spec_with_manifest(bundle, spec_stripped_entry(entry), manifest)),
        }
    }
}

/// What an extension ends with, without the strings that carry it.
pub open spec fn extension_view(r: Result<CodeFiles, ManifestError>) -> Result<
    CodeBundle,
    ManifestFailure,
> {
    match r {
        Ok(files) => Ok(files@),
        Err(error) => Err(error@),
    }
}

/// The inline metadata of an entry file, and the entry file without it.
#[derive(Debug)]
pub struct InlineBlock {
    pub metadata: String,
    pub entry: String,
}

/// The place of the first of `all`, from the place `from` on, that is
/// `marker` once the white space at its ends is gone.
fn find_marker(all: &Vec<Vec<char>>, marker: &Vec<char>, from: usize) -> (r: usize)
    requires
        from <= all.len(),
    ensures
        r == first_marker(rows(all@), marker@, from as int),
        from <= r <= all.len(),
{
    let mut i: usize = from;
    while i < all.len()
        invariant
            from <= i <= all.len(),
            first_marker(rows(all@), marker@, from as int) == first_marker(
                rows(all@),
                marker@,
                i as int,
            ),
        decreases all.len() - i,
    {
        let line = trim_chars(&all[i]);
        assert(rows(all@)[i as int] == all@[i as int]@);
        if chars_eq(&line, marker) {
            return i;
        }
        i += 1;
    }
    i
}

/// What a line of the block declares.
fn script_line_chars(line: &Vec<char>) -> (r: Vec<char>)
    ensures
        r@ == script_line(line@),
{
    let mut hash: Vec<char> = Vec::new();
    hash.push('#');
    assert(hash@ == seq!['#']);
    let nothing: Vec<char> = Vec::new();
    let bare = replace_chars(&trim_chars(line), &hash, &nothing);
    trim_chars(&bare)
}

/// Parts the entry file `entry` into its inline metadata and the rest.
pub fn split_inline_block(entry: &str) -> (r: InlineBlock)
    ensures
        r.metadata@ == spec_inline_metadata(entry@),
        r.entry@ == spec_stripped_entry(entry@),
{
    let chars = to_chars(entry);
    let all = split_lines(&chars);
    let ghost all_rows = rows(all@);
    let start_marker = to_chars(SCRIPT_START);
    let end_marker = to_chars(SCRIPT_END);
    let start = find_marker(&all, &start_marker, 0);
    if start >= all.len() {
        assert(!has_block(all_rows));
        assert(script_lines(all_rows) =~= Seq::<Seq<char>>::empty());
        return InlineBlock { metadata: String::new(), entry: String::from_str(entry) };
    }
    let end = find_marker(&all, &end_marker, start + 1);
    if end >= all.len() {
        assert(!has_block(all_rows));
        assert(script_lines(all_rows) =~= Seq::<Seq<char>>::empty());
        return InlineBlock { metadata: String::new(), entry: String::from_str(entry) };
    }
    assert(has_block(all_rows));
    let mut declared: Vec<Vec<char>> = Vec::new();
    let mut i: usize = start + 1;
    while i < end
        invariant
            start < i <= end < all.len(),
            all_rows == rows(all@),
            declared.len() == i - start - 1,
            forall|k: int|
                0 <= k < declared.len() ==> declared@[k]@ == script_line(all_rows[start + 1 + k]),
        decreases end - i,
    {
        assert(all_rows[i as int] == all@[i as int]@);
        declared.push(script_line_chars(&all[i]));
        i += 1;
    }
    assert(rows(declared@) =~= script_lines(all_rows));
    let mut kept: Vec<Vec<char>> = Vec::new();
    let mut j: usize = 0;
    while j < start
        invariant
            j <= start < all.len(),
            all_rows == rows(all@),
            rows(kept@) == all_rows.subrange(0, j as int),
        decreases start - j,
    {
        let ghost before = rows(kept@);
        assert(all_rows[j as int] == all@[j as int]@);
        kept.push(slice_chars(&all[j], 0, all[j].len()));
        assert(all@[j as int]@.subrange(0, all@[j as int]@.len() as int) == all@[j as int]@);
        assert(rows(kept@) =~= before.push(all_rows[j as int]));
        assert(before.push(all_rows[j as int]) =~= all_rows.subrange(0, j + 1));
        j += 1;
    }
    let mut k: usize = end + 1;
    assert(all_rows.subrange(end + 1, end + 1) =~= Seq::<Seq<char>>::empty());
    assert(rows(kept@) =~= all_rows.subrange(0, start as int) + all_rows.subrange(
        end + 1,
        k as int,
    ));
    while k < all.len()
        invariant
            end < k <= all.len(),
            start <= end,
            all_rows == rows(all@),
            rows(kept@) == all_rows.subrange(0, start as int) + all_rows.subrange(
                end + 1,
                k as int,
            ),
        decreases all.len() - k,
    {
        let ghost before = rows(kept@);
        assert(all_rows[k as int] == all@[k as int]@);
        kept.push(slice_chars(&all[k], 0, all[k].len()));
        assert(all@[k as int]@.subrange(0, all@[k as int]@.len() as int) == all@[k as int]@);
        assert(rows(kept@) =~= before.push(all_rows[k as int]));
        assert(before.push(all_rows[k as int]) =~= all_rows.subrange(0, start as int)
            + all_rows.subrange(end + 1, k + 1));
        k += 1;
    }
    assert(all_rows.subrange(end + 1, all_rows.len() as int) =~= all_rows.skip(end + 1));
    assert(rows(kept@) == kept_lines(all_rows));
    let mut newline: Vec<char> = Vec::new();
    newline.push('\n');
    assert(newline@ == seq!['\n']);
    let metadata = join_rows(&declared, &newline);
    let stripped = join_rows(&kept, &newline);
    InlineBlock { metadata: from_chars(&metadata), entry: from_chars(&stripped) }
}

/// Makes the manifest for the inline metadata `inline`. The manifest lists
/// the dependencies of the baseline, followed by exactly those that the
/// metadata declares.
pub fn compose_manifest(inline: &str) -> (r: Result<String, ManifestError>)
    ensures
        match r {
            Ok(manifest) => spec_manifest(inline@) == Ok::<Seq<char>, ManifestFailure>(manifest@),
            Err(error) => spec_manifest(inline@) == Err::<Seq<char>, ManifestFailure>(error@),
        },
        r matches Ok(manifest) ==> spec_listed_dependencies(manifest@)
            == spec_manifest_dependencies(inline@),
{
    let mut baseline = match document_from_str(BASELINE_MANIFEST) {
        Ok(document) => document,
        Err(error) => {
            return Err(ManifestError::InvalidBaseline(error_to_string(&error)));
        },
    };
    let metadata = match document_from_str(inline) {
        Ok(document) => document,
        Err(error) => {
            return Err(ManifestError::InvalidInlineMetadata(error_to_string(&error)));
        },
    };
    match top_level_array(&metadata, DEPENDENCIES_KEY) {
        Some(declared) => {
            if member_array(&baseline, PROJECT_TABLE, DEPENDENCIES_KEY).is_some() {
                extend_member_array(&mut baseline, PROJECT_TABLE, DEPENDENCIES_KEY, declared);
            }
        },
        None => {},
    }
    Ok(document_to_string(&baseline))
}

/// The files `code_files` with the entry file `entry` and the manifest
/// `manifest`.
pub fn with_manifest(code_files: CodeFiles, entry: String, manifest: String) -> (r: CodeFiles)
    ensures
        r@ == spec_with_manifest(code_files@, entry@, manifest@),
{
    let name = code_files.entrypoint().clone();
    let with_entry = code_files.with_file(name, entry);
    with_entry.with_file(String::from_str(PYPROJECT_TOML_FILE_NAME), manifest)
}

/// Takes the block of inline metadata out of the entry file and adds the
/// manifest for it to the files. The manifest lists the dependencies of
/// the baseline, followed by exactly those that the block declares.
pub fn extend_with_pyproject_toml(code_files: CodeFiles) -> (r: Result<CodeFiles, ManifestError>)
    ensures
        extension_view(r) == spec_extend_with_pyproject_toml(code_files@),
        r matches Ok(files) ==> spec_listed_dependencies(files@.files[PYPROJECT_TOML_FILE_NAME@])
            == spec_manifest_dependencies(
            spec_inline_metadata(code_files@.files[code_files@.entrypoint]),
        ),
{
    let block = match code_files.get(code_files.entrypoint().as_str()) {
        Some(entry) => split_inline_block(entry.as_str()),
        None => {
            return Err(ManifestError::MissingEntrypoint);
        },
    };
    match compose_manifest(block.metadata.as_str()) {
        Ok(manifest) => Ok(with_manifest(code_files, block.entry, manifest)),
        Err(error) => Err(error),
    }
}

/// Where the first marker is, given a place before which, from `from` on,
/// no line is the marker, and at which the line is.
pub proof fn lemma_first_marker_at(
    lines: Seq<Seq<char>>,
    marker: Seq<char>,
    from: int,
    at: int,
)
    requires
        0 <= from <= at < lines.len(),
        forall|k: int| from <= k < at ==> trimmed(#[trigger] lines[k]) != marker,
        trimmed(lines[at]) == marker,
    ensures
        first_marker(lines, marker, from) == at,
    decreases at - from,
{
    if from < at {
        lemma_first_marker_at(lines, marker, from + 1, at);
    }
}

/// The first marker from `from` on is not before `from`.
pub proof fn lemma_first_marker_bounds(lines: Seq<Seq<char>>, marker: Seq<char>, from: int)
    requires
        0 <= from,
    ensures
        from <= first_marker(lines, marker, from) || first_marker(lines, marker, from)
            == lines.len(),
        0 <= first_marker(lines, marker, from) <= lines.len(),
    decreases lines.len() - from,
{
    if from < lines.len() && trimmed(lines[from]) != marker {
        lemma_first_marker_bounds(lines, marker, from + 1);
    }
}

/// There is no marker from `from` on where no line from there on is one.
pub proof fn lemma_first_marker_missing(lines: Seq<Seq<char>>, marker: Seq<char>, from: int)
    requires
        0 <= from,
        forall|k: int| from <= k < lines.len() ==> trimmed(#[trigger] lines[k]) != marker,
    ensures
        first_marker(lines, marker, from) == lines.len(),
    decreases lines.len() - from,
{
    if from < lines.len() {
        lemma_first_marker_missing(lines, marker, from + 1);
    }
}

/// A well-formed block is found and taken out whole. Where the lines of an
/// entry file are the lines `before`, none of them a start marker, then a
/// start marker, the lines `inside`, none of them an end marker, an end
/// marker, and the lines `after`, the lines that are kept are `before`
/// and `after`, and what the block declares is what the lines `inside`
/// declare, one for one.
pub proof fn lemma_well_formed_block(
    before: Seq<Seq<char>>,
    start: Seq<char>,
    inside: Seq<Seq<char>>,
    end: Seq<char>,
    after: Seq<Seq<char>>,
)
    requires
        forall|i: int| 0 <= i < before.len() ==> trimmed(#[trigger] before[i]) != SCRIPT_START@,
        trimmed(start) == SCRIPT_START@,
        forall|i: int| 0 <= i < inside.len() ==> trimmed(#[trigger] inside[i]) != SCRIPT_END@,
        trimmed(end) == SCRIPT_END@,
    ensures
        has_block(before + seq![start] + inside + seq![end] + after),
        kept_lines(before + seq![start] + inside + seq![end] + after) == before + after,
        script_lines(before + seq![start] + inside + seq![end] + after) == Seq::new(
            inside.len(),
            |i: int| script_line(inside[i]),
        ),
{
    let all = before + seq![start] + inside + seq![end] + after;
    let s = before.len() as int;
    let e = s + 1 + inside.len();
    assert forall|k: int| 0 <= k < s implies trimmed(#[trigger] all[k]) != SCRIPT_START@ by {
        assert(all[k] == before[k]);
    }
    assert(all[s] == start);
    lemma_first_marker_at(all, SCRIPT_START@, 0, s);
    assert forall|k: int| s + 1 <= k < e implies trimmed(#[trigger] all[k]) != SCRIPT_END@ by {
        assert(all[k] == inside[k - s - 1]);
    }
    assert(all[e] == end);
    lemma_first_marker_at(all, SCRIPT_END@, s + 1, e);
    assert(all.subrange(0, s) + all.skip(e + 1) =~= before + after);
    assert(script_lines(all) =~= Seq::new(inside.len(), |i: int| script_line(inside[i]))) by {
        assert forall|i: int| 0 <= i < inside.len() implies all[s + 1 + i] == inside[i] by {}
    }
}

/// For every job whose entry file holds a well-formed block of inline
/// metadata, the entry file comes out without the block, and the manifest
/// is the baseline with its dependencies extended by exactly those that
/// the block declares: it lists those of the baseline, then those of the
/// block, none left out and none added. The block is well formed where the
/// lines of the entry file are as in `lemma_well_formed_block`, what the
/// lines inside declare is a TOML document, and that document holds an
/// array of dependencies. Only an entry file that has the name of the
/// manifest does not come out: the manifest takes its place.
pub proof fn lemma_block_becomes_manifest(
    bundle: CodeBundle,
    before: Seq<Seq<char>>,
    start: Seq<char>,
    inside: Seq<Seq<char>>,
    end: Seq<char>,
    after: Seq<Seq<char>>,
    baseline: Seq<char>,
    metadata: Seq<char>,
    declared: Seq<Seq<char>>,
)
    requires
        bundle.files.contains_key(bundle.entrypoint),
        lines(bundle.files[bundle.entrypoint]) == before + seq![start] + inside + seq![end]
            + after,
        forall|i: int| 0 <= i < before.len() ==> trimmed(#[trigger] before[i]) != SCRIPT_START@,
        trimmed(start) == SCRIPT_START@,
        forall|i: int| 0 <= i < inside.len() ==> trimmed(#[trigger] inside[i]) != SCRIPT_END@,
        trimmed(end) == SCRIPT_END@,
        toml_parsed(BASELINE_MANIFEST@) == Ok::<Seq<char>, Seq<char>>(baseline),
        toml_parsed(joined(Seq::new(inside.len(), |i: int| script_line(inside[i])), seq!['\n']))
            == Ok::<Seq<char>, Seq<char>>(metadata),
        spec_declared_dependencies(metadata) == Some(declared),
    ensures
        spec_extend_with_pyproject_toml(bundle) == Ok::<CodeBundle, ManifestFailure>(
            spec_with_manifest(
                bundle,
                joined(before + after, seq!['\n']),
                spec_merged(baseline, metadata),
            ),
        ),
        bundle.entrypoint != PYPROJECT_TOML_FILE_NAME@ ==> spec_extend_with_pyproject_toml(
            bundle,
        )->Ok_0.files[bundle.entrypoint] == joined(before + after, seq!['\n']),
        spec_manifest_dependencies(
            spec_inline_metadata(bundle.files[bundle.entrypoint]),
        ) == match spec_listed_dependencies(baseline) {
            Some(listed) => Some(listed + declared),
            None => None,
        },
{
    lemma_well_formed_block(before, start, inside, end, after);
}

/// For every job whose entry file holds a start marker with no end marker
/// after it, the entry file stays as it is and nothing is declared: the
/// manifest is the one for no metadata at all. Only an entry file that has
/// the name of the manifest does not stay: the manifest takes its place.
pub proof fn lemma_unterminated_block_changes_nothing(bundle: CodeBundle)
    requires
        bundle.files.contains_key(bundle.entrypoint),
        block_start(lines(bundle.files[bundle.entrypoint])) < lines(
            bundle.files[bundle.entrypoint],
        ).len(),
        forall|k: int|
            block_start(lines(bundle.files[bundle.entrypoint])) < k < lines(
                bundle.files[bundle.entrypoint],
            ).len() ==> trimmed(#[trigger] lines(bundle.files[bundle.entrypoint])[k])
                != SCRIPT_END@,
    ensures
        spec_stripped_entry(bundle.files[bundle.entrypoint]) == bundle.files[bundle.entrypoint],
        spec_inline_metadata(bundle.files[bundle.entrypoint]) == Seq::<char>::empty(),
        spec_extend_with_pyproject_toml(bundle) == match spec_manifest(Seq::empty()) {
            Ok(manifest) => Ok::<CodeBundle, ManifestFailure>(
                spec_with_manifest(bundle, bundle.files[bundle.entrypoint], manifest),
            ),
            Err(failure) => Err(failure),
        },
        bundle.entrypoint != PYPROJECT_TOML_FILE_NAME@ ==> (spec_extend_with_pyproject_toml(
            bundle,
        ) matches Ok(extended) ==> extended.files[bundle.entrypoint]
            == bundle.files[bundle.entrypoint]),
{
    let all = lines(bundle.files[bundle.entrypoint]);
    lemma_first_marker_bounds(all, SCRIPT_START@, 0);
    lemma_first_marker_missing(all, SCRIPT_END@, block_start(all) + 1);
    assert(script_lines(all) =~= Seq::<Seq<char>>::empty());
}

} // verus!
