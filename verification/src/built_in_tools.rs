//! The registry of tools bundled with the runner.
//!
//! The registry is empty in this build: new entries are added by listing
//! them in [`get_tools`], and everything else works uniformly over
//! whatever that list holds.

use vstd::prelude::*;
use crate::text::str_eq_str;

verus! {

/// The metadata of one bundled tool, as its consumers read it: the
/// schemas travel as JSON text.
pub struct ToolDefinition {
    pub name: String,
    pub description: String,
    pub configurations: String,
    pub parameters: String,
    pub result: String,
    pub code: Option<String>,
}

/// Every bundled tool, each under its registry name.
pub fn get_tools() -> (r: Vec<(String, ToolDefinition)>)
    ensures
        r@.len() == 0,
{
    Vec::new()
}

/// The bundled tool registered under `name`, if any. With the registry
/// empty, no name finds one.
pub fn get_tool(name: &str) -> (r: Option<ToolDefinition>)
    ensures
        r is None,
{
    let mut tools = get_tools();
    let mut i: usize = 0;
    while i < tools.len()
        invariant
            tools@.len() == 0,
            i <= tools@.len(),
        decreases tools@.len() - i,
    {
        if str_eq_str(tools[i].0.as_str(), name) {
            let found = tools.remove(i);
            return Option::Some(found.1);
        }
        i = i + 1;
    }
    Option::None
}

} // verus!
