//! The bundled tool registry and path utilities.

use shinkai_tools_runner::built_in_tools::get_tool;
use shinkai_tools_runner::built_in_tools::get_tools;
use shinkai_tools_runner::path_utils::file_name;
use shinkai_tools_runner::path_utils::is_valid_rel_path;
use shinkai_tools_runner::path_utils::normalize_for_docker_path;
use shinkai_tools_runner::path_utils::path_join;

#[test]
fn get_tool_unexisting() {
    let tool = get_tool("unexisting");
    assert!(tool.is_none());
}

#[test]
fn registry_is_empty_in_this_build() {
    assert_eq!(get_tools().len(), 0);
    assert!(get_tool("shinkai-tool-echo").is_none());
}

#[test]
fn rel_path_validity() {
    assert!(is_valid_rel_path("main.ts"));
    assert!(is_valid_rel_path("lib/util/mod.py"));
    assert!(!is_valid_rel_path(""));
    assert!(!is_valid_rel_path("/abs/path"));
    assert!(!is_valid_rel_path("a//b"));
    assert!(!is_valid_rel_path("../escape"));
    assert!(!is_valid_rel_path("a/./b"));
    assert!(!is_valid_rel_path("a/../b"));
    assert!(!is_valid_rel_path("a\\b"));
}

#[test]
fn joining_and_file_names() {
    assert_eq!(path_join(&"a".to_string(), "b"), "a/b");
    assert_eq!(file_name(&"/srv/assets/logo.png".to_string()), "logo.png");
    assert_eq!(file_name(&"bare".to_string()), "bare");
    assert_eq!(
        normalize_for_docker_path(&"C:\\Users\\t\\f.txt".to_string()),
        "C:/Users/t/f.txt"
    );
}
