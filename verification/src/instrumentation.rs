//! The program that a job runs: the caller's code, wrapped so that it takes
//! its configuration and parameters from literals in the text and prints
//! its result between two sentinel lines.

use vstd::prelude::*;
use crate::json_value::{
    is_object_text, json_text, json_with_member, set_string_member, value_clone, value_is_object,
    value_to_string,
};
use crate::result_protocol::{RESULT_END, RESULT_START};
use crate::text::chars::{from_chars, to_chars};
use crate::text::search::{
    contains, lemma_replaced_char, lemma_replaced_char_concat, matches_at, replace_chars,
    replaced,
};

verus! {

/// The member that names the class as which the job decodes an object.
pub const TARGET_KEY: &'static str = "py/object";

/// The class of the configuration inside the job.
pub const CONFIG_TARGET: &'static str = "__main__.CONFIG";

/// The class of the parameters inside the job.
pub const INPUTS_TARGET: &'static str = "__main__.INPUTS";

/// What the program starts with, before the caller's code.
pub const PROGRAM_HEAD: &'static str = "\n";

/// The part after the caller's code: the imports, the encoder of the
/// result, and the start of the literal of the configuration.
pub const PROGRAM_ENCODER: &'static str = "\nimport asyncio\nimport jsonpickle\nimport json\n\nclass TrickyJsonEncoder(json.JSONEncoder):\n    def default(self, obj):\n        if isinstance(obj, (list, tuple)):\n            return [self.default(item) for item in obj]\n        elif isinstance(obj, dict):\n            return {key: self.default(value) for key, value in obj.items()}\n        elif isinstance(obj, set):\n            return list(obj)\n        elif isinstance(obj, bytes):\n            return obj.decode('utf-8')  # Convert bytes to string\n        elif isinstance(obj, object) and hasattr(obj, '__dict__'):\n            return {key: self.default(value) for key, value in obj.__dict__.items() if not key.startswith('__')}\n        elif isinstance(obj, str):\n            return obj  # Return string as is\n        elif obj is None:\n            return None\n        elif hasattr(obj,'__iter__'):\n            return list(obj)  # Convert list_iterator to a list\n        else:\n            print(\"warning: trying to serialize an unknown type\", type(obj), obj)\n            return str(obj)  # Fallback for unknown types\n\ndef tricky_json_dump(obj):\n    jsonpickle_encoded = jsonpickle.encode(obj, unpicklable=False, make_refs=False, indent=4)\n    jsonpickle_decoded = jsonpickle.decode(jsonpickle_encoded, reset=True)\n    custom_json_dump = json.dumps(jsonpickle_decoded, indent=4, cls=TrickyJsonEncoder)\n    return custom_json_dump\n\nconfigurations = jsonpickle.decode('";

/// The part between the two literals.
pub const PROGRAM_PARAMETERS: &'static str = "')\nparameters = jsonpickle.decode('";

/// The part after the literal of the parameters: the call of the entry
/// function, which is awaited where it is asynchronous, and the encoding
/// of its result.
pub const PROGRAM_INVOKE: &'static str = "')\n\nresult = run(configurations, parameters)\nif asyncio.iscoroutine(result):\n    result = asyncio.run(result)\n\nserialized_result = tricky_json_dump(result)\n\n";

/// What a statement that prints a text on a line of its own starts with.
pub const PRINT_OPEN: &'static str = "print(\"";

/// What a statement that prints a text on a line of its own ends with.
pub const PRINT_CLOSE: &'static str = "\")\n";

/// The statement that prints the encoded result.
pub const PROGRAM_PRINT_RESULT: &'static str = "print(serialized_result)\n";

/// What the program ends with, after the last statement.
pub const PROGRAM_TAIL: &'static str = "        ";

/// The statement that prints `text` on a line of its own.
pub open spec fn spec_print_line(text: Seq<char>) -> Seq<char> {
    PRINT_OPEN@ + text + PRINT_CLOSE@
}

/// The statements at the end of the program, which print the start
/// sentinel, the encoded result and the end sentinel, each on lines of
/// their own.
pub open spec fn spec_print_statements() -> Seq<char> {
    spec_print_line(RESULT_START@) + PROGRAM_PRINT_RESULT@ + spec_print_line(RESULT_END@)
}

/// The compact text `json` of a JSON value as it stands between single
/// quotes in the program: with a backslash before every backslash, then
/// before every single quote, then before every double quote.
pub open spec fn spec_escape_literal(json: Seq<char>) -> Seq<char> {
    replaced(
        replaced(replaced(json, seq!['\\'], seq!['\\', '\\']), seq!['\''], seq!['\\', '\'']),
        seq!['"'],
        seq!['\\', '"'],
    )
}

/// What the interpreter reads in a literal with the text `literal`, in
/// which a backslash stands before nothing but a backslash or a quote: the
/// character after each such backslash, and every other character as it
/// is.
pub open spec fn spec_read_literal(literal: Seq<char>) -> Seq<char>
    decreases literal.len(),
{
    if literal.len() == 0 {
        literal
    } else if literal[0] == '\\' && literal.len() >= 2 {
        seq![literal[1]] + spec_read_literal(literal.skip(2))
    } else {
        seq![literal[0]] + spec_read_literal(literal.skip(1))
    }
}

/// The compact text of a value with the text `json` once it is tagged for
/// the class `target`: an object gets the member that names the class, any
/// other value stays as it is.
pub open spec fn spec_tagged_text(json: Seq<char>, target: Seq<char>) -> Seq<char> {
    if is_object_text(json) {
        json_with_member(json, TARGET_KEY@, target)
    } else {
        json
    }
}

/// The literal in the program for a value with the compact text `json`
/// that the job decodes as the class `target`.
pub open spec fn spec_literal(json: Seq<char>, target: Seq<char>) -> Seq<char> {
    spec_escape_literal(spec_tagged_text(json, target))
}

/// The program around the caller's code `entry`, with `configurations` and
/// `parameters` as the two literals.
pub open spec fn spec_program_text(
    entry: Seq<char>,
    configurations: Seq<char>,
    parameters: Seq<char>,
) -> Seq<char> {
    PROGRAM_HEAD@ + entry + PROGRAM_ENCODER@ + configurations + PROGRAM_PARAMETERS@ + parameters
        + PROGRAM_INVOKE@ + spec_print_statements() + PROGRAM_TAIL@
}

/// The program for the caller's code `entry`, a configuration with the
/// compact text `configurations` and parameters with the compact text
/// `parameters`.
pub open spec fn spec_instrument(
    entry: Seq<char>,
    configurations: Seq<char>,
    parameters: Seq<char>,
) -> Seq<char> {
    spec_program_text(
        entry,
        spec_literal(configurations, CONFIG_TARGET@),
        spec_literal(parameters, INPUTS_TARGET@),
    )
}

/// The compact text `json` of a JSON value as it stands between single
/// quotes in the program.
pub fn escape_literal(json: &str) -> (r: String)
    ensures
        r@ == spec_escape_literal(json@),
{
    let text = to_chars(json);
    let mut backslash: Vec<char> = Vec::new();
    backslash.push('\\');
    let mut single: Vec<char> = Vec::new();
    single.push('\'');
    let mut double: Vec<char> = Vec::new();
    double.push('"');
    let mut escaped_backslash: Vec<char> = Vec::new();
    escaped_backslash.push('\\');
    escaped_backslash.push('\\');
    let mut escaped_single: Vec<char> = Vec::new();
    escaped_single.push('\\');
    escaped_single.push('\'');
    let mut escaped_double: Vec<char> = Vec::new();
    escaped_double.push('\\');
    escaped_double.push('"');
    assert(backslash@ == seq!['\\'] && escaped_backslash@ == seq!['\\', '\\']);
    assert(single@ == seq!['\''] && escaped_single@ == seq!['\\', '\'']);
    assert(double@ == seq!['"'] && escaped_double@ == seq!['\\', '"']);
    let first = replace_chars(&text, &backslash, &escaped_backslash);
    let second = replace_chars(&first, &single, &escaped_single);
    let third = replace_chars(&second, &double, &escaped_double);
    from_chars(&third)
}

/// A copy of `value` that is tagged for the class `target`.
pub fn tagged(value: &serde_json::Value, target: &str) -> (r: serde_json::Value)
    ensures
        json_text(r) == spec_tagged_text(json_text(*value), target@),
{
    let mut copy = value_clone(value);
    if value_is_object(&copy) {
        set_string_member(&mut copy, TARGET_KEY, target);
    }
    copy
}

/// The literal in the program for `value`, which the job decodes as the
/// class `target`.
pub fn literal(value: &serde_json::Value, target: &str) -> (r: String)
    ensures
        r@ == spec_literal(json_text(*value), target@),
{
    let adapted = tagged(value, target);
    let json = value_to_string(&adapted);
    escape_literal(json.as_str())
}

/// The program around the caller's code `entry`, with `configurations` and
/// `parameters` as the two literals.
pub fn program_text(entry: &str, configurations: &str, parameters: &str) -> (r: String)
    ensures
        r@ == spec_program_text(entry@, configurations@, parameters@),
{
    let mut out = String::from_str(PROGRAM_HEAD);
    out.append(entry);
    out.append(PROGRAM_ENCODER);
    out.append(configurations);
    out.append(PROGRAM_PARAMETERS);
    out.append(parameters);
    out.append(PROGRAM_INVOKE);
    let mut statements = String::from_str(PRINT_OPEN);
    statements.append(RESULT_START);
    statements.append(PRINT_CLOSE);
    statements.append(PROGRAM_PRINT_RESULT);
    statements.append(PRINT_OPEN);
    statements.append(RESULT_END);
    statements.append(PRINT_CLOSE);
    assert(statements@ =~= spec_print_statements());
    out.append(statements.as_str());
    out.append(PROGRAM_TAIL);
    out
}

/// Wraps the caller's code `entry` into the program that a job runs, with
/// `configurations` and `parameters` as literals in its text.
pub fn instrument(
    entry: &str,
    configurations: &serde_json::Value,
    parameters: &serde_json::Value,
) -> (r: String)
    ensures
        r@ == spec_instrument(entry@, json_text(*configurations), json_text(*parameters)),
{
    let configurations_literal = literal(configurations, CONFIG_TARGET);
    let parameters_literal = literal(parameters, INPUTS_TARGET);
    program_text(entry, configurations_literal.as_str(), parameters_literal.as_str())
}

/// Escaping goes character by character: the escaped form of a character
/// followed by a text is the escaped character followed by the escaped
/// text, and only a backslash and the two quotes change, each to itself
/// after a backslash.
pub proof fn lemma_escape_first(json: Seq<char>)
    requires
        json.len() > 0,
    ensures
        spec_escape_literal(json) == (if json[0] == '\\' || json[0] == '\'' || json[0] == '"' {
            seq!['\\', json[0]]
        } else {
            seq![json[0]]
        }) + spec_escape_literal(json.skip(1)),
{
    let c = json[0];
    let rest = json.skip(1);
    let nothing = Seq::<char>::empty();
    let first = |s: Seq<char>| replaced(s, seq!['\\'], seq!['\\', '\\']);
    let second = |s: Seq<char>| replaced(s, seq!['\''], seq!['\\', '\'']);
    let third = |s: Seq<char>| replaced(s, seq!['"'], seq!['\\', '"']);
    assert(seq![c] + rest =~= json);
    lemma_replaced_char_concat(seq![c], rest, '\\', seq!['\\', '\\']);
    lemma_replaced_char_concat(first(seq![c]), first(rest), '\'', seq!['\\', '\'']);
    lemma_replaced_char_concat(
        second(first(seq![c])),
        second(first(rest)),
        '"',
        seq!['\\', '"'],
    );
    assert(seq![c].skip(1) =~= nothing);
    lemma_replaced_char(seq![c], '\\', seq!['\\', '\\']);
    assert(first(nothing) =~= nothing);
    assert(second(nothing) =~= nothing);
    assert(third(nothing) =~= nothing);
    if c == '\\' {
        let pair = seq!['\\', '\\'];
        assert(first(seq![c]) =~= pair);
        assert(pair.skip(1) =~= seq!['\\']);
        assert(seq!['\\'].skip(1) =~= nothing);
        lemma_replaced_char(pair, '\'', seq!['\\', '\'']);
        lemma_replaced_char(seq!['\\'], '\'', seq!['\\', '\'']);
        assert(second(pair) =~= pair);
        lemma_replaced_char(pair, '"', seq!['\\', '"']);
        lemma_replaced_char(seq!['\\'], '"', seq!['\\', '"']);
        assert(third(pair) =~= pair);
    } else {
        assert(first(seq![c]) =~= seq![c]);
        lemma_replaced_char(seq![c], '\'', seq!['\\', '\'']);
        if c == '\'' {
            let pair = seq!['\\', '\''];
            assert(second(seq![c]) =~= pair);
            assert(pair.skip(1) =~= seq!['\'']);
            assert(seq!['\''].skip(1) =~= nothing);
            lemma_replaced_char(pair, '"', seq!['\\', '"']);
            lemma_replaced_char(seq!['\''], '"', seq!['\\', '"']);
            assert(third(pair) =~= pair);
        } else {
            assert(second(seq![c]) =~= seq![c]);
            lemma_replaced_char(seq![c], '"', seq!['\\', '"']);
            if c == '"' {
                assert(third(seq![c]) =~= seq!['\\', '"']);
            } else {
                assert(third(seq![c]) =~= seq![c]);
            }
        }
    }
}

/// A literal is read back as the text it was made from: whatever the
/// compact text of a value holds, the interpreter reads that very text in
/// the escaped literal.
pub proof fn lemma_literal_reads_back(json: Seq<char>)
    ensures
        spec_read_literal(spec_escape_literal(json)) == json,
    decreases json.len(),
{
    if json.len() == 0 {
        assert(spec_escape_literal(json) =~= json);
    } else {
        lemma_escape_first(json);
        lemma_literal_reads_back(json.skip(1));
        let c = json[0];
        let tail = spec_escape_literal(json.skip(1));
        if c == '\\' || c == '\'' || c == '"' {
            let literal = seq!['\\', c] + tail;
            assert(literal.skip(2) =~= tail);
            assert(literal[1] == c);
        } else {
            let literal = seq![c] + tail;
            assert(literal.skip(1) =~= tail);
        }
        assert(seq![c] + json.skip(1) =~= json);
    }
}

/// Escaping adds nothing but backslashes: a character of the literal that
/// is no backslash is a character of the text. So the literal of a text
/// on one line is on one line.
pub proof fn lemma_escape_adds_only_backslashes(json: Seq<char>, c: char)
    requires
        c != '\\',
        spec_escape_literal(json).contains(c),
    ensures
        json.contains(c),
    decreases json.len(),
{
    if json.len() == 0 {
        assert(spec_escape_literal(json) =~= json);
    } else {
        lemma_escape_first(json);
        let literal = spec_escape_literal(json);
        let tail = spec_escape_literal(json.skip(1));
        let i = choose|i: int| 0 <= i < literal.len() && literal[i] == c;
        let head_len = literal.len() - tail.len();
        if i < head_len {
            assert(literal[i] == json[0]);
        } else {
            assert(tail[i - head_len] == c);
            lemma_escape_adds_only_backslashes(json.skip(1), c);
            let j = choose|j: int| 0 <= j < json.skip(1).len() && json.skip(1)[j] == c;
            assert(json[j + 1] == c);
        }
    }
}

/// A text holds each of the parts that it is put together from.
pub proof fn lemma_contains_part(before: Seq<char>, part: Seq<char>, after: Seq<char>)
    ensures
        contains(before + part + after, part),
{
    let whole = before + part + after;
    assert(whole.subrange(before.len() as int, (before.len() + part.len()) as int) =~= part);
    assert(matches_at(whole, part, before.len() as int));
}

/// What a text holds, a longer text around it holds too.
pub proof fn lemma_contains_inside(
    before: Seq<char>,
    middle: Seq<char>,
    after: Seq<char>,
    part: Seq<char>,
)
    requires
        contains(middle, part),
    ensures
        contains(before + middle + after, part),
{
    let whole = before + middle + after;
    let i = choose|i: int| matches_at(middle, part, i);
    assert(whole.subrange(before.len() + i, before.len() + i + part.len()) =~= middle.subrange(
        i,
        i + part.len(),
    ));
    assert(matches_at(whole, part, before.len() + i));
}

/// The statements that print the result hold the statement for each
/// sentinel, and so each sentinel.
pub proof fn lemma_print_statements_hold_the_sentinels()
    ensures
        contains(spec_print_statements(), spec_print_line(RESULT_START@)),
        contains(spec_print_statements(), spec_print_line(RESULT_END@)),
        contains(spec_print_statements(), RESULT_START@),
        contains(spec_print_statements(), RESULT_END@),
{
    let first = spec_print_line(RESULT_START@);
    let second = spec_print_line(RESULT_END@);
    let nothing = Seq::<char>::empty();
    assert(spec_print_statements() =~= nothing + first + (PROGRAM_PRINT_RESULT@ + second));
    lemma_contains_part(nothing, first, PROGRAM_PRINT_RESULT@ + second);
    assert(spec_print_statements() =~= (first + PROGRAM_PRINT_RESULT@) + second + nothing);
    lemma_contains_part(first + PROGRAM_PRINT_RESULT@, second, nothing);
    lemma_contains_part(PRINT_OPEN@, RESULT_START@, PRINT_CLOSE@);
    lemma_contains_inside(nothing, first, PROGRAM_PRINT_RESULT@ + second, RESULT_START@);
    lemma_contains_part(PRINT_OPEN@, RESULT_END@, PRINT_CLOSE@);
    lemma_contains_inside(first + PROGRAM_PRINT_RESULT@, second, nothing, RESULT_END@);
}

/// The program holds the caller's code and the two literals as they were
/// escaped, each letter for letter.
pub proof fn lemma_program_holds_its_parts(
    entry: Seq<char>,
    configurations: Seq<char>,
    parameters: Seq<char>,
)
    ensures
        contains(spec_program_text(entry, configurations, parameters), entry),
        contains(spec_program_text(entry, configurations, parameters), configurations),
        contains(spec_program_text(entry, configurations, parameters), parameters),
{
    let program = spec_program_text(entry, configurations, parameters);
    let end = PROGRAM_INVOKE@ + spec_print_statements() + PROGRAM_TAIL@;
    let after_entry = PROGRAM_ENCODER@ + configurations + PROGRAM_PARAMETERS@ + parameters + end;
    assert(program =~= PROGRAM_HEAD@ + entry + after_entry);
    lemma_contains_part(PROGRAM_HEAD@, entry, after_entry);
    let before_configurations = PROGRAM_HEAD@ + entry + PROGRAM_ENCODER@;
    let after_configurations = PROGRAM_PARAMETERS@ + parameters + end;
    assert(program =~= before_configurations + configurations + after_configurations);
    lemma_contains_part(before_configurations, configurations, after_configurations);
    let before_parameters = before_configurations + configurations + PROGRAM_PARAMETERS@;
    assert(program =~= before_parameters + parameters + end);
    lemma_contains_part(before_parameters, parameters, end);
}

/// The program holds the statements that print the start sentinel, the
/// result and the end sentinel, one after the other and letter for
/// letter.
pub proof fn lemma_program_prints_the_sentinels(
    entry: Seq<char>,
    configurations: Seq<char>,
    parameters: Seq<char>,
)
    ensures
        contains(spec_program_text(entry, configurations, parameters), spec_print_statements()),
        contains(
            spec_program_text(entry, configurations, parameters),
            spec_print_line(RESULT_START@),
        ),
        contains(
            spec_program_text(entry, configurations, parameters),
            spec_print_line(RESULT_END@),
        ),
        contains(spec_program_text(entry, configurations, parameters), RESULT_START@),
        contains(spec_program_text(entry, configurations, parameters), RESULT_END@),
{
    let front = PROGRAM_HEAD@ + entry + PROGRAM_ENCODER@ + configurations + PROGRAM_PARAMETERS@
        + parameters + PROGRAM_INVOKE@;
    let statements = spec_print_statements();
    lemma_contains_part(front, statements, PROGRAM_TAIL@);
    lemma_print_statements_hold_the_sentinels();
    lemma_contains_inside(front, statements, PROGRAM_TAIL@, spec_print_line(RESULT_START@));
    lemma_contains_inside(front, statements, PROGRAM_TAIL@, spec_print_line(RESULT_END@));
    lemma_contains_inside(front, statements, PROGRAM_TAIL@, RESULT_START@);
    lemma_contains_inside(front, statements, PROGRAM_TAIL@, RESULT_END@);
}

/// For every configuration and every parameters, the program that
/// `instrument` writes holds the escaped literal of each, and the
/// statements that print the start sentinel, the result and the end
/// sentinel, one after the other.
pub proof fn lemma_instrumented_program_holds_literals(
    entry: Seq<char>,
    configurations: Seq<char>,
    parameters: Seq<char>,
)
    ensures
        contains(
            spec_instrument(entry, configurations, parameters),
            spec_literal(configurations, CONFIG_TARGET@),
        ),
        contains(
            spec_instrument(entry, configurations, parameters),
            spec_literal(parameters, INPUTS_TARGET@),
        ),
        contains(spec_instrument(entry, configurations, parameters), spec_print_statements()),
        contains(spec_instrument(entry, configurations, parameters), RESULT_START@),
        contains(spec_instrument(entry, configurations, parameters), RESULT_END@),
{
    lemma_program_holds_its_parts(
        entry,
        spec_literal(configurations, CONFIG_TARGET@),
        spec_literal(parameters, INPUTS_TARGET@),
    );
    lemma_program_prints_the_sentinels(
        entry,
        spec_literal(configurations, CONFIG_TARGET@),
        spec_literal(parameters, INPUTS_TARGET@),
    );
}

} // verus!
