//! The result envelope of a run, and the protocol step that produces it.

use vstd::prelude::*;
use vstd::string::StringExecFns;
use crate::execution_error::{ErrorKind, ExecutionError};
use crate::json::json_ok;
use crate::sentinel::{extract_result_text, extracted_text};

verus! {

/// What a successful run returns: the JSON text the wrapped user code
/// produced, exactly as the sentinel frame carried it.
#[derive(Debug)]
pub struct RunResult {
    pub data: String,
}

impl RunResult {
    pub fn new(data: String) -> (r: RunResult)
        ensures
            r.data == data,
    {
        RunResult { data }
    }
}

/// Recover the run result from captured stdout lines: the payload framed
/// by the given sentinels, joined with newlines, succeeds exactly when it
/// is well-formed JSON; anything else is the protocol error, with the raw
/// text attached to its message.
pub fn parse_run_output(lines: &Vec<String>, open: &str, close: &str) -> (r: Result<
    RunResult,
    ExecutionError,
>)
    ensures
        r is Ok <==> json_ok(extracted_text(lines.deep_view(), open@, close@)),
        r is Ok ==> r->Ok_0.data@ == extracted_text(lines.deep_view(), open@, close@),
        r is Err ==> r->Err_0.kind == ErrorKind::Protocol && r->Err_0.message@
            == "failed to parse result: "@ + extracted_text(lines.deep_view(), open@, close@),
{
    let text = extract_result_text(lines, open, close);
    if crate::json::check_json_text(text.as_str()) {
        Result::Ok(RunResult { data: text })
    } else {
        let mut msg: Vec<char> = Vec::new();
        crate::text::push_str_chars(&mut msg, "failed to parse result: ");
        crate::text::push_str_chars(&mut msg, text.as_str());
        Result::Err(
            ExecutionError::new(
                ErrorKind::Protocol,
                crate::text::string_from_chars(&msg),
                Option::None,
            ),
        )
    }
}

} // verus!
