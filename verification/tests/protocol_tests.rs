//! The sentinel result channel and the JSON gate behind it.

use shinkai_tools_runner::run_result::parse_run_output;
use shinkai_tools_runner::sentinel::extract_result_text;
use shinkai_tools_runner::sentinel::extract_result_text_str;

fn lines(v: &[&str]) -> Vec<String> {
    v.iter().map(|s| s.to_string()).collect()
}

#[test]
fn extracts_framed_payload() {
    let out = lines(&[
        "some log noise",
        "<shinkai-code-result>",
        "{\"message\":\"hello\"}",
        "</shinkai-code-result>",
        "trailing noise",
    ]);
    let text = extract_result_text(&out, "<shinkai-code-result>", "</shinkai-code-result>");
    assert_eq!(text, "{\"message\":\"hello\"}");
}

#[test]
fn extracts_multi_line_payload() {
    let out = lines(&["<shinkai-code-result>", "{", "  \"foo\": 3", "}", "</shinkai-code-result>"]);
    let text = extract_result_text(&out, "<shinkai-code-result>", "</shinkai-code-result>");
    assert_eq!(text, "{\n  \"foo\": 3\n}");
}

#[test]
fn first_frame_wins() {
    let out = lines(&[
        "<shinkai-code-result>",
        "1",
        "</shinkai-code-result>",
        "<shinkai-code-result>",
        "2",
        "</shinkai-code-result>",
    ]);
    let text = extract_result_text(&out, "<shinkai-code-result>", "</shinkai-code-result>");
    assert_eq!(text, "1");
}

#[test]
fn no_open_sentinel_yields_empty() {
    let out = lines(&["no markers here", "at all"]);
    let text = extract_result_text(&out, "<shinkai-code-result>", "</shinkai-code-result>");
    assert_eq!(text, "");
}

#[test]
fn missing_close_collects_to_end() {
    let out = lines(&["<shinkai-code-result>", "42"]);
    let text = extract_result_text(&out, "<shinkai-code-result>", "</shinkai-code-result>");
    assert_eq!(text, "42");
}

#[test]
fn extraction_from_flat_text() {
    let out = "noise\n<shinkai-tool-result>\n\"hello world!\"\n</shinkai-tool-result>\n";
    let text = extract_result_text_str(out, "<shinkai-tool-result>", "</shinkai-tool-result>");
    assert_eq!(text, "\"hello world!\"");
}

#[test]
fn run_output_parses_valid_json() {
    let out = lines(&["<shinkai-code-result>", "{\"foo\": 3}", "</shinkai-code-result>"]);
    let r = parse_run_output(&out, "<shinkai-code-result>", "</shinkai-code-result>").unwrap();
    assert_eq!(r.data, "{\"foo\": 3}");
}

#[test]
fn run_output_without_sentinels_is_protocol_error() {
    // A child that prints plain text produces no frame: the empty payload
    // is not JSON, so the run ends in the protocol error.
    let out = lines(&["{\"message\":\"hello world\"}"]);
    let r = parse_run_output(&out, "<shinkai-tool-result>", "</shinkai-tool-result>");
    let e = r.err().unwrap();
    assert!(matches!(
        e.kind,
        shinkai_tools_runner::execution_error::ErrorKind::Protocol
    ));
}

#[test]
fn run_output_with_malformed_json_is_protocol_error() {
    let out = lines(&["<shinkai-code-result>", "{not json", "</shinkai-code-result>"]);
    let r = parse_run_output(&out, "<shinkai-code-result>", "</shinkai-code-result>");
    assert!(r.is_err());
}

#[test]
fn protocol_error_attaches_the_raw_text() {
    let out = lines(&["<shinkai-code-result>", "{broken", "</shinkai-code-result>"]);
    let e = parse_run_output(&out, "<shinkai-code-result>", "</shinkai-code-result>")
        .err()
        .unwrap();
    assert_eq!(e.message, "failed to parse result: {broken");
}
