//! Character-level utilities: splitting, joining, trimming, removal.

use shinkai_tools_runner::path_utils::file_name;
use shinkai_tools_runner::text::chars_of_str;
use shinkai_tools_runner::text::join_with;
use shinkai_tools_runner::text::remove_sub;
use shinkai_tools_runner::text::split_lines;
use shinkai_tools_runner::text::string_from_chars;
use shinkai_tools_runner::text::trim_chars;

fn chars(s: &str) -> Vec<char> {
    s.chars().collect()
}

fn strs(lines: &[Vec<char>]) -> Vec<String> {
    lines.iter().map(|l| l.iter().collect()).collect()
}

#[test]
fn lines_split_like_the_standard_library() {
    for text in [
        "a\nb\nc",
        "a\nb\n",
        "a\r\nb",
        "a\r",
        "\n\n",
        "",
        "one line",
        "trailing\r\n",
    ] {
        let got = strs(&split_lines(&chars(text)));
        let want: Vec<String> = text.lines().map(str::to_string).collect();
        assert_eq!(got, want);
    }
}

#[test]
fn joining_lines_restores_separators() {
    let pieces = vec![chars("a"), chars(""), chars("c")];
    let joined: String = string_from_chars(&join_with(&pieces, '\n'));
    assert_eq!(joined, "a\n\nc");
}

#[test]
fn trimming_strips_both_ends() {
    assert_eq!(string_from_chars(&trim_chars(&chars("  x y\t\r\n"))), "x y");
    assert_eq!(string_from_chars(&trim_chars(&chars("\t \n"))), "");
    assert_eq!(string_from_chars(&trim_chars(&chars("solid"))), "solid");
}

#[test]
fn removing_a_pattern_removes_every_occurrence() {
    let hay = chars("/tmp/x/a.py /tmp/x/b.py done");
    let out = string_from_chars(&remove_sub(&hay, &chars("/tmp/x/")));
    assert_eq!(out, "a.py b.py done");
    let none = string_from_chars(&remove_sub(&chars("clean"), &chars("/tmp/")));
    assert_eq!(none, "clean");
}

#[test]
fn file_name_of_a_directory_like_path_is_empty() {
    assert_eq!(file_name(&"a/b/".to_string()), "");
    assert_eq!(file_name(&"/".to_string()), "");
}
