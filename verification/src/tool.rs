//! A tool: a piece of TypeScript code with a configuration, run through
//! the helper backend, whose result and exported definition come back
//! through sentinel frames.

use vstd::prelude::*;
use vstd::string::StringExecFns;
use crate::execution_error::{ErrorKind, ExecutionError};
use crate::harness::{build_tool_definition_harness, build_tool_run_harness,
    tool_definition_harness, tool_run_harness};
use crate::json::{json_ok, json_text_of, to_json_chars, JsonValue};
use crate::run_result::RunResult;
use crate::sentinel::extracted_text;
use crate::shinkai_tools_backend_options::ShinkaiToolsBackendOptions;
use crate::text::spec_lines;

verus! {

/// One tool: its code, its configuration, and how to reach the backend.
pub struct Tool {
    pub code: String,
    pub configurations: JsonValue,
    pub shinkai_tools_backend_options: ShinkaiToolsBackendOptions,
}

impl Tool {
    pub fn new(
        code: String,
        configurations: JsonValue,
        shinkai_tools_backend_options: Option<ShinkaiToolsBackendOptions>,
    ) -> (r: Tool)
        ensures
            r.code == code,
            r.configurations == configurations,
            shinkai_tools_backend_options matches Option::Some(o)
                ==> r.shinkai_tools_backend_options == o,
    {
        let options = match shinkai_tools_backend_options {
            Option::Some(o) => o,
            Option::None => ShinkaiToolsBackendOptions::default(),
        };
        Tool { code, configurations, shinkai_tools_backend_options: options }
    }

    /// The code the backend runs to print the tool's exported definition
    /// between the definition sentinels.
    pub fn definition_code(&self) -> (r: String)
        ensures
            r@ == tool_definition_harness(self.code@),
    {
        build_tool_definition_harness(self.code.as_str())
    }

    /// The code the backend runs to invoke the tool with this
    /// configuration and the given parameters, printing the result
    /// between the result sentinels.
    pub fn run_code(&self, parameters: &JsonValue) -> (r: String)
        ensures
            r@ == tool_run_harness(
                self.code@,
                json_text_of(self.configurations),
                json_text_of(*parameters),
            ),
    {
        let cfg = to_json_chars(&self.configurations);
        let params = to_json_chars(parameters);
        build_tool_run_harness(self.code.as_str(), &cfg, &params)
    }

    /// The definition payload framed in the backend's output: the JSON
    /// text between the definition sentinels. Succeeds exactly when that
    /// text is well-formed JSON.
    pub fn extract_definition(&self, output: &str) -> (r: Result<String, ExecutionError>)
        ensures
            r is Ok <==> json_ok(
                extracted_text(
                    spec_lines(output@),
                    "<shinkai-tool-definition>"@,
                    "</shinkai-tool-definition>"@,
                ),
            ),
            r is Ok ==> r->Ok_0@ == extracted_text(
                spec_lines(output@),
                "<shinkai-tool-definition>"@,
                "</shinkai-tool-definition>"@,
            ),
            r is Err ==> r->Err_0.kind == ErrorKind::Protocol && r->Err_0.message@
                == "failed to parse tool definition: "@ + extracted_text(
                spec_lines(output@),
                "<shinkai-tool-definition>"@,
                "</shinkai-tool-definition>"@,
            ),
    {
        let text = crate::sentinel::extract_result_text_str(
            output,
            "<shinkai-tool-definition>",
            "</shinkai-tool-definition>",
        );
        if crate::json::check_json_text(text.as_str()) {
            Result::Ok(text)
        } else {
            let mut msg: Vec<char> = Vec::new();
            crate::text::push_str_chars(&mut msg, "failed to parse tool definition: ");
            crate::text::push_str_chars(&mut msg, text.as_str());
            Result::Err(
                ExecutionError::new(
                    ErrorKind::Protocol,
                    crate::text::string_from_chars(&msg),
                    Option::None,
                ),
            )
        }
    }

    /// The run result framed in the backend's output: the JSON text
    /// between the result sentinels. Succeeds exactly when that text is
    /// well-formed JSON.
    pub fn extract_result(&self, output: &str) -> (r: Result<RunResult, ExecutionError>)
        ensures
            r is Ok <==> json_ok(
                extracted_text(
                    spec_lines(output@),
                    "<shinkai-tool-result>"@,
                    "</shinkai-tool-result>"@,
                ),
            ),
            r is Ok ==> r->Ok_0.data@ == extracted_text(
                spec_lines(output@),
                "<shinkai-tool-result>"@,
                "</shinkai-tool-result>"@,
            ),
            r is Err ==> r->Err_0.kind == ErrorKind::Protocol && r->Err_0.message@
                == "failed to parse result: "@ + extracted_text(
                spec_lines(output@),
                "<shinkai-tool-result>"@,
                "</shinkai-tool-result>"@,
            ),
    {
        let text = crate::sentinel::extract_result_text_str(
            output,
            "<shinkai-tool-result>",
            "</shinkai-tool-result>",
        );
        if crate::json::check_json_text(text.as_str()) {
            Result::Ok(RunResult { data: text })
        } else {
            let mut msg: Vec<char> = Vec::new();
            crate::text::push_str_chars(&mut msg, "failed to parse result: ");
            crate::text::push_str_chars(&mut msg, text.as_str());
            Result::Err(
                ExecutionError::new(
                    ErrorKind::Protocol,
                    crate::text::string_from_chars(&msg),
                    Option::None,
                ),
            )
        }
    }
}

} // verus!
