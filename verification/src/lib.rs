//! Sandboxed code execution core.
//!
//! Given a bundle of source files, a configuration value, and runner options,
//! this library plans an isolated working tree, assembles the command line for
//! a host or container backend, wraps the user's entrypoint with a harness
//! that prints a sentinel-framed JSON result, and recovers that result from
//! the captured output. Everything that touches the operating system (process
//! spawning, directory creation, the container probe) is left to the
//! surrounding application; this crate computes what to do and interprets
//! what came back.

pub mod built_in_tools;
pub mod code_files;
pub mod command_plan;
pub mod deno_execution_storage;
pub mod deno_runner;
pub mod deno_runner_options;
pub mod execution_context;
pub mod execution_error;
pub mod execution_storage;
pub mod harness;
pub mod json;
pub mod manifest;
pub mod path_utils;
pub mod python_runner;
pub mod run_result;
pub mod sentinel;
pub mod shinkai_tools_backend;
pub mod shinkai_tools_backend_options;
pub mod text;
pub mod tool;
