//! Configuration of the helper backend.

use vstd::prelude::*;
use vstd::string::StringExecFns;

verus! {

/// Where the helper backend's interpreter binary lives.
#[derive(Clone)]
pub struct ShinkaiToolsBackendOptions {
    pub binary_path: String,
}

impl Default for ShinkaiToolsBackendOptions {
    fn default() -> (r: ShinkaiToolsBackendOptions)
        ensures
            r.binary_path@ == "./shinkai-tools-runner-resources/shinkai-tools-backend"@,
    {
        ShinkaiToolsBackendOptions {
            binary_path: String::from_str("./shinkai-tools-runner-resources/shinkai-tools-backend"),
        }
    }
}

} // verus!
