//! The result of a job inside the output of its process: the lines between
//! the two sentinel lines, read as one JSON value.

use vstd::prelude::*;
use crate::execution_error::{ErrorKind, ExecutionError};
use crate::json_value::{error_to_string, json_parsed, value_from_str};
use crate::run_result::RunResult;
use crate::text::chars::{to_chars, views};
use crate::text::lines::{join_rows, joined, lemma_lines_joined, lines, rows};
use crate::text::search::{contains, contains_chars, matches_at};

verus! {

/// The line before the result.
pub const RESULT_START: &'static str = "<shinkai-code-result>";

/// The line after the result.
pub const RESULT_END: &'static str = "</shinkai-code-result>";

/// What the message of an unreadable result starts with.
pub const PARSE_FAILURE_PREFIX: &'static str = "failed to parse result: ";

/// The `lines` after the first one that holds the start sentinel; none
/// where no line holds it.
pub open spec fn after_start(lines: Seq<Seq<char>>) -> Seq<Seq<char>>
    decreases lines.len(),
{
    if lines.len() == 0 {
        lines
    } else if contains(lines[0], RESULT_START@) {
        lines.skip(1)
    } else {
        after_start(lines.skip(1))
    }
}

/// The `lines` before the first one that holds the end sentinel; all of
/// them where no line holds it.
pub open spec fn before_end(lines: Seq<Seq<char>>) -> Seq<Seq<char>>
    decreases lines.len(),
{
    if lines.len() == 0 {
        lines
    } else if contains(lines[0], RESULT_END@) {
        Seq::empty()
    } else {
        seq![lines[0]] + before_end(lines.skip(1))
    }
}

/// The text of the result in the output `lines`: the lines strictly
/// between the first line that holds the start sentinel and the next line
/// that holds the end sentinel, one below the other.
pub open spec fn spec_result_payload(lines: Seq<Seq<char>>) -> Seq<char> {
    joined(before_end(after_start(lines)), seq!['\n'])
}

/// What the text `payload` is read as: the compact text of its JSON value,
/// or the message of the failure.
pub open spec fn spec_decode_result(payload: Seq<char>) -> Result<Seq<char>, Seq<char>> {
    match json_parsed(payload) {
        Ok(value) => Ok(value),
        Err(diagnostic) => Err(PARSE_FAILURE_PREFIX@ + diagnostic),
    }
}

/// What the output `lines` of a process yield: the compact text of the
/// result, or the message of the failure.
pub open spec fn spec_extract_result(lines: Seq<Seq<char>>) -> Result<Seq<char>, Seq<char>> {
    spec_decode_result(spec_result_payload(lines))
}

/// What the end of an extraction says: the compact text of the result, or
/// the message of the failure.
pub open spec fn extraction_view(r: Result<RunResult, ExecutionError>) -> Result<
    Seq<char>,
    Seq<char>,
> {
    match r {
        Ok(result) => Ok(result@),
        Err(error) => Err(error.message@),
    }
}

/// The text of the result in the output `stdout` of a process.
pub fn result_payload(stdout: &Vec<String>) -> (r: String)
    ensures
        r@ == spec_result_payload(views(stdout@)),
{
    let start = to_chars(RESULT_START);
    let end = to_chars(RESULT_END);
    let ghost all = views(stdout@);
    let mut i: usize = 0;
    let mut found = false;
    assert(all.skip(0) == all);
    while i < stdout.len() && !found
        invariant
            i <= stdout.len(),
            all == views(stdout@),
            start@ == RESULT_START@,
            !found ==> after_start(all) == after_start(all.skip(i as int)),
            found ==> after_start(all) == all.skip(i as int),
        decreases stdout.len() - i,
    {
        let line = to_chars(stdout[i].as_str());
        assert(all.skip(i as int)[0] == line@);
        assert(all.skip(i as int).skip(1) == all.skip(i + 1));
        if contains_chars(&line, &start) {
            found = true;
        }
        i += 1;
    }
    let ghost rest = all.skip(i as int);
    assert(after_start(all) == rest) by {
        if !found {
            assert(rest.len() == 0);
        }
    }
    let first: usize = i;
    let mut taken: Vec<Vec<char>> = Vec::new();
    let mut done = false;
    assert(rest.skip(0) == rest);
    assert(rows(taken@) + before_end(rest.skip(0)) =~= before_end(rest));
    while i < stdout.len() && !done
        invariant
            first <= i <= stdout.len(),
            all == views(stdout@),
            rest == all.skip(first as int),
            end@ == RESULT_END@,
            !done ==> rows(taken@) + before_end(rest.skip(i - first)) == before_end(rest),
            done ==> rows(taken@) == before_end(rest),
        decreases stdout.len() - i,
    {
        let line = to_chars(stdout[i].as_str());
        let ghost tail = rest.skip(i - first);
        let ghost before = rows(taken@);
        assert(tail[0] == line@);
        assert(tail.skip(1) == rest.skip(i + 1 - first));
        if contains_chars(&line, &end) {
            done = true;
            assert(before + Seq::<Seq<char>>::empty() =~= before);
        } else {
            taken.push(line);
            assert(rows(taken@) =~= before + seq![tail[0]]);
            assert(rows(taken@) + before_end(tail.skip(1)) =~= before + before_end(tail));
        }
        i += 1;
    }
    assert(rows(taken@) == before_end(rest)) by {
        if !done {
            assert(rest.skip(i - first).len() == 0);
            assert(rows(taken@) + Seq::<Seq<char>>::empty() =~= rows(taken@));
        }
    }
    let mut newline: Vec<char> = Vec::new();
    newline.push('\n');
    assert(newline@ == seq!['\n']);
    let text = join_rows(&taken, &newline);
    crate::text::chars::from_chars(&text)
}

/// The end of a run from what the parser made of the text of its result:
/// the value it read, or a failure with the parser's own message.
pub fn result_from_parse(parsed: Result<serde_json::Value, String>) -> (r: Result<
    RunResult,
    ExecutionError,
>)
    ensures
        match parsed {
            Ok(value) => r matches Ok(result) && result.data == value,
            Err(diagnostic) => r matches Err(error) && error.kind == ErrorKind::ResultFormat
                && error.message@ == PARSE_FAILURE_PREFIX@ + diagnostic@ && error.code is None,
        },
{
    match parsed {
        Ok(value) => Ok(RunResult { data: value }),
        Err(diagnostic) => {
            let mut message = String::from_str(PARSE_FAILURE_PREFIX);
            message.append(diagnostic.as_str());
            Err(ExecutionError::new(ErrorKind::ResultFormat, message, None))
        },
    }
}

/// Reads the text `payload` as the JSON value of a result.
pub fn decode_result(payload: &str) -> (r: Result<RunResult, ExecutionError>)
    ensures
        extraction_view(r) == spec_decode_result(payload@),
        r matches Err(error) ==> error.kind == ErrorKind::ResultFormat && error.code is None,
{
    let parsed = match value_from_str(payload) {
        Ok(value) => Ok(value),
        Err(error) => Err(error_to_string(&error)),
    };
    result_from_parse(parsed)
}

/// Finds the result of a job in the output `stdout` of its process and
/// reads it.
pub fn extract_result(stdout: &Vec<String>) -> (r: Result<RunResult, ExecutionError>)
    ensures
        extraction_view(r) == spec_extract_result(views(stdout@)),
        r matches Err(error) ==> error.kind == ErrorKind::ResultFormat && error.code is None,
{
    let payload = result_payload(stdout);
    decode_result(payload.as_str())
}

/// The lines before a line that holds the start sentinel do not count, as
/// long as none of them holds it.
pub proof fn lemma_after_start(before: Seq<Seq<char>>, start: Seq<char>, rest: Seq<Seq<char>>)
    requires
        forall|i: int| 0 <= i < before.len() ==> !contains(#[trigger] before[i], RESULT_START@),
        contains(start, RESULT_START@),
    ensures
        after_start(before + seq![start] + rest) == rest,
    decreases before.len(),
{
    let all = before + seq![start] + rest;
    if before.len() == 0 {
        assert(all[0] == start);
        assert(all.skip(1) =~= rest);
    } else {
        assert(all[0] == before[0]);
        assert(all.skip(1) =~= before.skip(1) + seq![start] + rest);
        lemma_after_start(before.skip(1), start, rest);
    }
}

/// The lines up to a line that holds the end sentinel are taken whole, as
/// long as none of them holds it; what follows that line does not count.
pub proof fn lemma_before_end(payload: Seq<Seq<char>>, end: Seq<char>, rest: Seq<Seq<char>>)
    requires
        forall|i: int| 0 <= i < payload.len() ==> !contains(#[trigger] payload[i], RESULT_END@),
        contains(end, RESULT_END@),
    ensures
        before_end(payload + seq![end] + rest) == payload,
    decreases payload.len(),
{
    let all = payload + seq![end] + rest;
    if payload.len() == 0 {
        assert(all[0] == end);
        assert(before_end(all) =~= payload);
    } else {
        assert(all[0] == payload[0]);
        assert(all.skip(1) =~= payload.skip(1) + seq![end] + rest);
        lemma_before_end(payload.skip(1), end, rest);
        assert(seq![payload[0]] + payload.skip(1) =~= payload);
    }
}

/// A result goes through the output unchanged: where the lines `payload`
/// stand between a line with the start sentinel and a line with the end
/// sentinel, no earlier line holds the start sentinel and no line of the
/// payload holds the end sentinel, the text that is extracted is the
/// payload, line below line, and so the value that is read from the output
/// is the value that is read from the payload alone.
pub proof fn lemma_result_round_trip(
    before: Seq<Seq<char>>,
    start: Seq<char>,
    payload: Seq<Seq<char>>,
    end: Seq<char>,
    after: Seq<Seq<char>>,
)
    requires
        forall|i: int| 0 <= i < before.len() ==> !contains(#[trigger] before[i], RESULT_START@),
        contains(start, RESULT_START@),
        forall|i: int| 0 <= i < payload.len() ==> !contains(#[trigger] payload[i], RESULT_END@),
        contains(end, RESULT_END@),
    ensures
        spec_result_payload(before + seq![start] + payload + seq![end] + after) == joined(
            payload,
            seq!['\n'],
        ),
        spec_extract_result(before + seq![start] + payload + seq![end] + after)
            == spec_decode_result(joined(payload, seq!['\n'])),
{
    let rest = payload + seq![end] + after;
    assert(before + seq![start] + payload + seq![end] + after =~= before + seq![start] + rest);
    lemma_after_start(before, start, rest);
    lemma_before_end(payload, end, after);
}

/// A text is found in itself.
pub proof fn lemma_contains_itself(s: Seq<char>)
    ensures
        contains(s, s),
{
    assert(s.subrange(0, s.len() as int) =~= s);
    assert(matches_at(s, s, 0));
}

/// What a job prints is what is read. Where a process prints the start
/// sentinel on a line of its own, then the text `printed` of a result, then
/// the end sentinel on a line of its own, the value that is read from its
/// output is the value that is read from `printed` alone. This holds of
/// every text without a carriage return that does not end with a line
/// feed and has no line with the end sentinel in it, whatever the process
/// writes after the result, and whatever it writes before it as long as
/// no line of that holds the start sentinel.
pub proof fn lemma_printed_result_is_read(
    before: Seq<Seq<char>>,
    printed: Seq<char>,
    after: Seq<Seq<char>>,
)
    requires
        forall|i: int| 0 <= i < before.len() ==> !contains(#[trigger] before[i], RESULT_START@),
        forall|k: int| 0 <= k < printed.len() ==> printed[k] != '\r',
        printed.len() > 0 ==> printed.last() != '\n',
        forall|i: int|
            0 <= i < lines(printed).len() ==> !contains(
                #[trigger] lines(printed)[i],
                RESULT_END@,
            ),
    ensures
        spec_result_payload(
            before + seq![RESULT_START@] + lines(printed) + seq![RESULT_END@] + after,
        ) == printed,
        spec_extract_result(
            before + seq![RESULT_START@] + lines(printed) + seq![RESULT_END@] + after,
        ) == spec_decode_result(printed),
{
    lemma_contains_itself(RESULT_START@);
    lemma_contains_itself(RESULT_END@);
    lemma_result_round_trip(before, RESULT_START@, lines(printed), RESULT_END@, after);
    lemma_lines_joined(printed);
}

/// Extraction is repeatable: two extractions from the same output end the
/// same way, with the same value or with the same message.
pub proof fn lemma_extraction_is_repeatable(
    stdout: Seq<Seq<char>>,
    first: Result<RunResult, ExecutionError>,
    second: Result<RunResult, ExecutionError>,
)
    requires
        extraction_view(first) == spec_extract_result(stdout),
        extraction_view(second) == spec_extract_result(stdout),
    ensures
        first is Ok == second is Ok,
        first matches Ok(a) ==> second matches Ok(b) && a@ == b@,
        first matches Err(a) ==> second matches Err(b) && a.message@ == b.message@,
{
}

} // verus!
