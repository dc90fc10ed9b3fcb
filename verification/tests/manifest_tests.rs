//! Manifest synthesis: the inline block, the merge, and idempotence.

use shinkai_tools_runner::code_files::CodeFiles;
use shinkai_tools_runner::execution_error::ErrorKind;
use shinkai_tools_runner::manifest::extend_with_pyproject_toml;

fn bundle_with(entry: &str) -> CodeFiles {
    let mut c = CodeFiles::new("main.py".to_string());
    c.set_file("main.py".to_string(), entry.to_string());
    c
}

#[test]
fn inline_manifest_merges_and_block_is_removed() {
    let entry = "# /// script\n# dependencies = [\"requests~=2.31\"]\n# ///\ndef run(c, p):\n    return {\"ok\": True}\n";
    let out = extend_with_pyproject_toml(bundle_with(entry)).unwrap();
    let manifest = out.get_file("pyproject.toml").unwrap();
    assert!(manifest.contains("requests~=2.31"));
    assert!(manifest.contains("jsonpickle~=4.0.0"));
    assert!(manifest.contains("requires-python = \">=3.10\""));
    let new_entry = out.get_file("main.py").unwrap();
    assert!(!new_entry.contains("/// script"));
    assert!(!new_entry.contains("requests~=2.31"));
    assert!(new_entry.contains("def run(c, p):"));
}

#[test]
fn rendered_manifest_is_exact() {
    let entry = "# /// script\n# dependencies = [\"requests~=2.31\"]\n# ///\nx = 1\n";
    let out = extend_with_pyproject_toml(bundle_with(entry)).unwrap();
    let manifest = out.get_file("pyproject.toml").unwrap();
    let expected = "[project]\nname = \"shinkai-tool\"\nversion = \"0.0.1\"\ndependencies = [\n    \"jsonpickle~=4.0.0\",\n    \"requests~=2.31\",\n]\nrequires-python = \">=3.10\"\n";
    assert_eq!(manifest, expected);
}

#[test]
fn requires_python_overrides_the_default() {
    let entry = "# /// script\n# requires-python = \">=3.12\"\n# ///\nx = 1\n";
    let out = extend_with_pyproject_toml(bundle_with(entry)).unwrap();
    let manifest = out.get_file("pyproject.toml").unwrap();
    assert!(manifest.contains("requires-python = \">=3.12\""));
    assert!(!manifest.contains(">=3.10"));
}

#[test]
fn no_block_yields_the_baseline_manifest() {
    let entry = "def run(c, p):\n    return p[\"x\"] + 1\n";
    let out = extend_with_pyproject_toml(bundle_with(entry)).unwrap();
    let manifest = out.get_file("pyproject.toml").unwrap();
    assert_eq!(
        manifest,
        "[project]\nname = \"shinkai-tool\"\nversion = \"0.0.1\"\ndependencies = [\n    \"jsonpickle~=4.0.0\",\n]\nrequires-python = \">=3.10\"\n"
    );
    assert_eq!(out.get_file("main.py").unwrap(), entry);
}

#[test]
fn synthesis_is_idempotent_without_a_block() {
    let entry = "import os\n\ndef run(c, p):\n    return 1\n";
    let once = extend_with_pyproject_toml(bundle_with(entry)).unwrap();
    let twice = extend_with_pyproject_toml(once).unwrap();
    let again = extend_with_pyproject_toml(bundle_with(entry)).unwrap();
    assert_eq!(twice.get_file("pyproject.toml"), again.get_file("pyproject.toml"));
    assert_eq!(twice.get_file("main.py").unwrap(), entry);
}

#[test]
fn missing_entrypoint_is_a_synthesis_error() {
    let c = CodeFiles::new("main.py".to_string());
    let e = extend_with_pyproject_toml(c).err().unwrap();
    assert!(matches!(e.kind, ErrorKind::ManifestSynthesis));
}

#[test]
fn unterminated_block_is_a_synthesis_error() {
    let entry = "# /// script\n# dependencies = [\"a\"]\ndef run(c, p):\n    return 1\n";
    let e = extend_with_pyproject_toml(bundle_with(entry)).err().unwrap();
    assert!(matches!(e.kind, ErrorKind::ManifestSynthesis));
}

#[test]
fn malformed_block_line_is_a_synthesis_error() {
    let entry = "# /// script\n# this is not an assignment\n# ///\nx = 1\n";
    let e = extend_with_pyproject_toml(bundle_with(entry)).err().unwrap();
    assert!(matches!(e.kind, ErrorKind::ManifestSynthesis));
}

#[test]
fn empty_and_unknown_block_lines_are_tolerated() {
    let entry = "# /// script\n#\n# tool = \"none\"\n# dependencies = [\"a~=1.0\", \"b~=2.0\",]\n# ///\nx = 1\n";
    let out = extend_with_pyproject_toml(bundle_with(entry)).unwrap();
    let manifest = out.get_file("pyproject.toml").unwrap();
    assert!(manifest.contains("\"a~=1.0\",\n    \"b~=2.0\","));
}
