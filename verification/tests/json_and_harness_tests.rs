//! The JSON surface, the tagging, the embedding, and the harness text.

use shinkai_tools_runner::json::check_json_text;
use shinkai_tools_runner::json::tagged_json_string;
use shinkai_tools_runner::json::to_json_string;
use shinkai_tools_runner::json::JsonValue;
use shinkai_tools_runner::code_files::CodeFiles;
use shinkai_tools_runner::harness::build_python_harness;
use shinkai_tools_runner::python_runner::PythonRunner;
use shinkai_tools_runner::shinkai_tools_backend_options::ShinkaiToolsBackendOptions;
use shinkai_tools_runner::tool::Tool;

fn obj(members: Vec<(&str, JsonValue)>) -> JsonValue {
    JsonValue::Obj(members.into_iter().map(|(k, v)| (k.to_string(), v)).collect())
}

#[test]
fn serializes_every_kind() {
    let v = obj(vec![
        ("n", JsonValue::Null),
        ("b", JsonValue::Bool(true)),
        ("num", JsonValue::Num("3.5".to_string())),
        ("s", JsonValue::Str("hi".to_string())),
        (
            "a",
            JsonValue::Arr(vec![JsonValue::Num("1".to_string()), JsonValue::Bool(false)]),
        ),
    ]);
    assert_eq!(
        to_json_string(&v),
        "{\"n\":null,\"b\":true,\"num\":3.5,\"s\":\"hi\",\"a\":[1,false]}"
    );
}

#[test]
fn escapes_strings() {
    let v = JsonValue::Str("a\"b\\c\nd\te".to_string());
    assert_eq!(to_json_string(&v), "\"a\\\"b\\\\c\\nd\\te\"");
}

#[test]
fn serialized_text_is_json() {
    let v = obj(vec![("s", JsonValue::Str("line\nbreak \"q\"".to_string()))]);
    let text = to_json_string(&v);
    assert!(check_json_text(&text));
}

#[test]
fn json_gate_rejects_malformed_text() {
    assert!(check_json_text("{\"x\": 2}"));
    assert!(check_json_text("\"hello world!\""));
    assert!(!check_json_text(""));
    assert!(!check_json_text("{broken"));
}

#[test]
fn tagging_appends_the_discriminator() {
    let v = obj(vec![("x", JsonValue::Num("2".to_string()))]);
    let t = tagged_json_string(&v, "py/object", "__main__.INPUTS");
    assert_eq!(t, "{\"x\":2,\"py/object\":\"__main__.INPUTS\"}");
}

#[test]
fn tagging_replaces_an_existing_member() {
    let v = obj(vec![
        ("py/object", JsonValue::Str("old".to_string())),
        ("x", JsonValue::Num("1".to_string())),
    ]);
    let t = tagged_json_string(&v, "py/object", "__main__.CONFIG");
    assert_eq!(t, "{\"py/object\":\"__main__.CONFIG\",\"x\":1}");
}

#[test]
fn tagging_leaves_non_objects_alone() {
    let v = JsonValue::Arr(vec![JsonValue::Num("1".to_string())]);
    let t = tagged_json_string(&v, "py/object", "__main__.CONFIG");
    assert_eq!(t, "[1]");
}

#[test]
fn python_harness_embeds_escaped_payloads() {
    let cfg: Vec<char> = "{\"a\":\"q'uote\"}".chars().collect();
    let params: Vec<char> = "{\"x\":2}".chars().collect();
    let h = build_python_harness("def run(c, p):\n    return p", &cfg, &params);
    assert!(h.starts_with("\ndef run(c, p):\n    return p\nimport asyncio"));
    assert!(h.contains("configurations = jsonpickle.decode('{\\\"a\\\":\\\"q\\'uote\\\"}')"));
    assert!(h.contains("parameters = jsonpickle.decode('{\\\"x\\\":2}')"));
    assert!(h.contains("print(\"<shinkai-code-result>\")"));
    assert!(h.contains("print(\"</shinkai-code-result>\")"));
    // the harness prints each marker exactly once
    assert_eq!(h.matches("<shinkai-code-result>").count(), 1);
    assert_eq!(h.matches("</shinkai-code-result>").count(), 1);
}

#[test]
fn python_run_prepares_the_wrapped_entrypoint() {
    let mut code = CodeFiles::new("main.py".to_string());
    code.set_file(
        "main.py".to_string(),
        "def run(c, p):\n    return {\"foo\": p[\"x\"] + 1}\n".to_string(),
    );
    let cfg = JsonValue::Obj(Vec::new());
    let runner = PythonRunner::new(code, cfg, None);
    let params = obj(vec![("x", JsonValue::Num("2".to_string()))]);
    let prepared = runner.prepare_run(&params).unwrap();
    let entry = prepared.get_file("main.py").unwrap();
    assert!(entry.contains("def run(c, p):"));
    assert!(entry.contains("configurations = jsonpickle.decode('{\\\"py/object\\\":\\\"__main__.CONFIG\\\"}')"));
    assert!(entry.contains("parameters = jsonpickle.decode('{\\\"x\\\":2,\\\"py/object\\\":\\\"__main__.INPUTS\\\"}')"));
    let manifest = prepared.get_file("pyproject.toml").unwrap();
    assert!(manifest.contains("jsonpickle~=4.0.0"));
}

#[test]
fn tool_harnesses_frame_the_result() {
    let cfg = obj(vec![("name", JsonValue::Str("world".to_string()))]);
    let tool = Tool::new(
        "function run(c, p) { return { foo: p.name }; }".to_string(),
        cfg,
        Some(ShinkaiToolsBackendOptions { binary_path: "/opt/homebrew/bin/deno".to_string() }),
    );
    let params = obj(vec![("name", JsonValue::Str("world".to_string()))]);
    let run_code = tool.run_code(&params);
    assert!(run_code.contains("const configurations = JSON.parse({\"name\":\"world\"});"));
    assert!(run_code.contains(
        "const parameters = JSON.parse(\"{\\\"name\\\":\\\"world\\\"}\");"
    ));
    assert!(run_code.contains("console.log(\"<shinkai-tool-result>\");"));
    let def_code = tool.definition_code();
    assert!(def_code.contains("console.log(\"<shinkai-tool-definition>\");"));
    assert!(def_code.contains("JSON.stringify(definition)"));
}

#[test]
fn tool_extracts_its_framed_result() {
    let tool = Tool::new("code".to_string(), JsonValue::Null, None);
    let output = "log\n<shinkai-tool-result>\n{\"message\":\"hello world\"}\n</shinkai-tool-result>\n";
    let r = tool.extract_result(output).unwrap();
    assert_eq!(r.data, "{\"message\":\"hello world\"}");
    let d = tool
        .extract_definition("<shinkai-tool-definition>\n{\"name\":\"shinkai-tool-echo\"}\n</shinkai-tool-definition>")
        .unwrap();
    assert_eq!(d, "{\"name\":\"shinkai-tool-echo\"}");
    assert!(tool.extract_result("no frame").is_err());
}
