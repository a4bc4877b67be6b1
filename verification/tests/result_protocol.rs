use shinkai_tools_runner::execution_error::ErrorKind;
use shinkai_tools_runner::python_runner::PythonRunner;
use shinkai_tools_runner::execution_error::ExecutionError;
use shinkai_tools_runner::result_protocol::{
    decode_result, extract_result, result_from_parse, result_payload,
};

fn lines(items: &[&str]) -> Vec<String> {
    items.iter().map(|s| s.to_string()).collect()
}

fn object(pairs: &[(&str, serde_json::Value)]) -> serde_json::Value {
    let mut map = serde_json::Map::new();
    for (key, value) in pairs {
        map.insert(key.to_string(), value.clone());
    }
    serde_json::Value::Object(map)
}

#[test]
fn payload_lies_strictly_between_the_sentinels() {
    let stdout = lines(&[
        "log before",
        "<shinkai-code-result>",
        "{",
        "    \"foo\": 1",
        "}",
        "</shinkai-code-result>",
        "log after",
    ]);
    assert_eq!(result_payload(&stdout), "{\n    \"foo\": 1\n}");
}

#[test]
fn payload_is_empty_without_a_start_sentinel() {
    assert_eq!(result_payload(&lines(&["a", "b", "</shinkai-code-result>"])), "");
    assert_eq!(result_payload(&Vec::new()), "");
    assert_eq!(result_payload(&lines(&["<shinkai-code-result>"])), "");
}

#[test]
fn payload_runs_to_the_end_without_an_end_sentinel() {
    assert_eq!(result_payload(&lines(&["x", "<shinkai-code-result>", "1", "2"])), "1\n2");
}

#[test]
fn sentinels_count_anywhere_in_a_line() {
    let stdout = lines(&[
        "</shinkai-code-result> too early",
        "prefix <shinkai-code-result> suffix",
        "<shinkai-code-result>",
        "42",
        "done </shinkai-code-result>!",
        "<shinkai-code-result>",
        "43",
        "</shinkai-code-result>",
    ]);
    assert_eq!(result_payload(&stdout), "<shinkai-code-result>\n42");
}

#[test]
fn result_is_the_value_between_the_sentinels() {
    let expected = object(&[
        ("name", serde_json::Value::String("x \"quoted\"".to_string())),
        ("list", serde_json::Value::Array(vec![serde_json::Value::from(1), serde_json::Value::Null])),
        ("ok", serde_json::Value::Bool(true)),
    ]);
    let pretty = serde_json::to_string_pretty(&expected).unwrap();
    let mut stdout = lines(&["warming up", "<shinkai-code-result>"]);
    stdout.extend(pretty.lines().map(|l| l.to_string()));
    stdout.extend(lines(&["</shinkai-code-result>", "bye"]));
    let result = extract_result(&stdout).unwrap();
    assert_eq!(result.data, expected);
}

#[test]
fn extraction_twice_yields_the_same_result() {
    let stdout = lines(&["<shinkai-code-result>", "[1, 2.5, \"three\"]", "</shinkai-code-result>"]);
    let first = extract_result(&stdout).unwrap();
    let second = extract_result(&stdout).unwrap();
    assert_eq!(first.data, second.data);
    let broken = lines(&["<shinkai-code-result>", "[1, 2", "</shinkai-code-result>"]);
    let first = extract_result(&broken).unwrap_err();
    let second = extract_result(&broken).unwrap_err();
    assert_eq!(first.message, second.message);
}

#[test]
fn missing_start_sentinel_is_a_parse_failure() {
    let error = extract_result(&lines(&["{\"foo\": 1}"])).unwrap_err();
    assert_eq!(error.kind, ErrorKind::ResultFormat);
    assert_eq!(
        error.message,
        "failed to parse result: EOF while parsing a value at line 1 column 0"
    );
    assert_eq!(error.code, None);
}

#[test]
fn unreadable_payload_carries_the_diagnostic_of_the_parser() {
    let error = decode_result("{\"foo\": }").unwrap_err();
    let expected = serde_json::from_str::<serde_json::Value>("{\"foo\": }").unwrap_err();
    assert_eq!(error.kind, ErrorKind::ResultFormat);
    assert_eq!(error.message, format!("failed to parse result: {expected}"));
}

#[test]
fn decoded_result_is_what_the_text_says() {
    assert_eq!(decode_result("null").unwrap().data, serde_json::Value::Null);
    assert_eq!(decode_result(" 12 ").unwrap().data, serde_json::Value::from(12));
    assert_eq!(
        decode_result("{\"b\":[],\"a\":{}}").unwrap().data,
        object(&[("a", object(&[])), ("b", serde_json::Value::Array(Vec::new()))])
    );
}

#[test]
fn result_from_parse_keeps_value_and_diagnostic() {
    let value = serde_json::Value::String("v".to_string());
    assert_eq!(result_from_parse(Ok(value.clone())).unwrap().data, value);
    let error = result_from_parse(Err("expected value".to_string())).unwrap_err();
    assert_eq!(error.kind, ErrorKind::ResultFormat);
    assert_eq!(error.message, "failed to parse result: expected value");
}

#[test]
fn finished_run_reads_the_output_or_keeps_the_failure() {
    let stdout = lines(&["<shinkai-code-result>", "{\"foo\": 1}", "</shinkai-code-result>"]);
    let result = PythonRunner::finish(Ok(stdout)).unwrap();
    assert_eq!(result.data, object(&[("foo", serde_json::Value::from(1))]));
    let failure = ExecutionError::new(ErrorKind::Timeout, "process timed out after 1[s]".to_string(), None);
    let error = PythonRunner::finish(Err(failure)).unwrap_err();
    assert_eq!(error.kind, ErrorKind::Timeout);
    assert_eq!(error.message, "process timed out after 1[s]");
}
