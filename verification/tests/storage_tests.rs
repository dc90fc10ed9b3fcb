//! The storage layout and its initialization plans, checked by running
//! the plans against an in-memory tree.

use std::collections::HashMap;
use std::collections::HashSet;

use shinkai_tools_runner::code_files::CodeFiles;
use shinkai_tools_runner::deno_execution_storage::DenoExecutionStorage;
use shinkai_tools_runner::execution_context::ExecutionContext;
use shinkai_tools_runner::execution_storage::ExecutionStorage;
use shinkai_tools_runner::execution_storage::StorageAction;

/// A toy filesystem: directories and file contents.
struct Tree {
    dirs: HashSet<String>,
    files: HashMap<String, String>,
}

impl Tree {
    fn new() -> Tree {
        Tree { dirs: HashSet::new(), files: HashMap::new() }
    }

    fn apply(&mut self, actions: &[StorageAction]) {
        for a in actions {
            match a {
                StorageAction::MakeDirs(p) => {
                    self.dirs.insert(p.clone());
                }
                StorageAction::WriteFile(p, c) => {
                    self.files.insert(p.clone(), c.clone());
                }
                StorageAction::RemoveTree(p) => {
                    let prefix = format!("{}/", p);
                    self.dirs.retain(|d| d != p && !d.starts_with(&prefix));
                    self.files.retain(|f, _| !f.starts_with(&prefix));
                }
            }
        }
    }
}

fn context() -> ExecutionContext {
    ExecutionContext {
        storage_root: "./shinkai-tools-runner-execution-storage/test-execution-storage".to_string(),
        context_id: "ctx".to_string(),
        execution_id: "exec".to_string(),
        code_id: "code1".to_string(),
        mount_files: Vec::new(),
        assets_files: Vec::new(),
    }
}

fn bundle() -> CodeFiles {
    let mut c = CodeFiles::new("main.py".to_string());
    c.set_file("main.py".to_string(), "def run(c, p):\n    return 1\n".to_string());
    c.set_file("lib/util.py".to_string(), "X = 1\n".to_string());
    c
}

#[test]
fn storage_paths_follow_the_layout() {
    let s = ExecutionStorage::new(bundle(), context());
    let root = "./shinkai-tools-runner-execution-storage/test-execution-storage";
    assert_eq!(s.root_folder_path(), format!("{root}/ctx/exec/code1"));
    assert_eq!(s.code_folder_path(), format!("{root}/ctx/exec/code1/code"));
    assert_eq!(s.home_folder_path(), format!("{root}/ctx/exec/code1/home"));
    assert_eq!(s.logs_folder_path(), format!("{root}/ctx/exec/code1/logs"));
    assert_eq!(s.assets_folder_path(), format!("{root}/ctx/exec/code1/assets"));
    assert_eq!(s.cache_folder_path(), format!("{root}/ctx/cache"));
    assert_eq!(s.deno_cache_folder_path(), format!("{root}/ctx/cache/deno-cache"));
    assert_eq!(s.python_cache_folder_path(), format!("{root}/ctx/cache/python-venv"));
    assert_eq!(
        s.python_check_venv_folder_path(),
        format!("{root}/ctx/cache/python-check-venv")
    );
    assert_eq!(
        s.code_entrypoint_file_path(),
        format!("{root}/ctx/exec/code1/code/main.py")
    );
}

#[test]
fn relative_to_root_strips_the_run_root() {
    let s = ExecutionStorage::new(bundle(), context());
    let rel = s.relative_to_root(&s.code_folder_path()).unwrap();
    assert_eq!(rel, "code");
    let rel2 = s.relative_to_root(&s.home_folder_path()).unwrap();
    assert_eq!(rel2, "home");
    assert!(s.relative_to_root(&"/elsewhere/file".to_string()).is_none());
}

#[test]
fn init_then_read_back_yields_the_bundle() {
    let s = ExecutionStorage::new(bundle(), context());
    let mut t = Tree::new();
    t.apply(&s.init_plan(false));
    let code = s.code_folder_path();
    assert_eq!(
        t.files.get(&format!("{code}/main.py")).unwrap(),
        "def run(c, p):\n    return 1\n"
    );
    assert_eq!(t.files.get(&format!("{code}/lib/util.py")).unwrap(), "X = 1\n");
    assert_eq!(t.files.len(), 2);
    assert!(t.dirs.contains(&s.home_folder_path()));
    assert!(t.dirs.contains(&s.logs_folder_path()));
    assert!(t.dirs.contains(&s.deno_cache_folder_path()));
}

#[test]
fn init_twice_is_a_no_op_without_pristine_cache() {
    let s = ExecutionStorage::new(bundle(), context());
    let mut t = Tree::new();
    t.apply(&s.init_plan(false));
    let dirs_before = t.dirs.clone();
    let files_before = t.files.clone();
    t.apply(&s.init_plan(false));
    assert_eq!(t.dirs, dirs_before);
    assert_eq!(t.files, files_before);
}

#[test]
fn pristine_cache_clears_only_the_cache() {
    let s = ExecutionStorage::new(bundle(), context());
    let mut t = Tree::new();
    t.apply(&s.init_for_python_plan(false));
    // something accumulates in the cache and in home
    let cached = format!("{}/pkg.whl", s.python_cache_folder_path());
    t.files.insert(cached.clone(), "bytes".to_string());
    let kept = format!("{}/note.txt", s.home_folder_path());
    t.files.insert(kept.clone(), "keep me".to_string());
    t.apply(&s.init_for_python_plan(true));
    assert!(!t.files.contains_key(&cached));
    assert!(t.files.contains_key(&kept));
    assert!(t.dirs.contains(&s.python_cache_folder_path()));
}

#[test]
fn concurrent_runs_with_distinct_code_ids_use_disjoint_trees() {
    let mut ctx2 = context();
    ctx2.code_id = "code2".to_string();
    let s1 = ExecutionStorage::new(bundle(), context());
    let s2 = ExecutionStorage::new(bundle(), ctx2);
    let mut t = Tree::new();
    t.apply(&s1.init_plan(false));
    let files_of_one = t.files.clone();
    t.apply(&s2.init_plan(false));
    // the second run rewrote nothing of the first
    for (p, c) in &files_of_one {
        assert_eq!(t.files.get(p).unwrap(), c);
    }
    let c1 = s1.code_folder_path();
    let c2 = s2.code_folder_path();
    assert_ne!(c1, c2);
    assert!(!c1.starts_with(&format!("{c2}/")));
    assert!(!c2.starts_with(&format!("{c1}/")));
}

#[test]
fn test_execution_storage_init() {
    let test_dir = "./shinkai-tools-runner-execution-storage/test-execution-storage";
    let storage = DenoExecutionStorage::new(test_dir.to_string(), "run-a");
    let test_code = "console.log('test');";
    let mut t = Tree::new();
    t.apply(&storage.init_plan(test_code, None));
    assert!(t.dirs.contains(&storage.root));
    assert!(t.dirs.contains(&storage.code));
    assert!(t.dirs.contains(&storage.deno_cache));
    assert!(t.dirs.contains(&storage.logs));
    assert!(t.dirs.contains(&storage.home));
    assert_eq!(t.files.get(&storage.code_entrypoint).unwrap(), test_code);
}

#[test]
fn test_execution_storage_clean_cache() {
    let test_dir = "./shinkai-tools-runner-execution-storage/test-clean-cache";
    let storage = DenoExecutionStorage::new(test_dir.to_string(), "run-b");
    let test_code = "console.log('test');";
    let mut t = Tree::new();
    t.apply(&storage.init_plan(test_code, None));
    let cache_file = format!("{}/test_cache.txt", storage.deno_cache);
    t.files.insert(cache_file.clone(), "test cache content".to_string());
    t.apply(&storage.init_plan(test_code, Some(true)));
    assert!(!t.files.contains_key(&cache_file));
    assert!(t.dirs.contains(&storage.deno_cache));
}

#[test]
fn deno_storage_relative_paths() {
    let storage = DenoExecutionStorage::new("/srv/runs".to_string(), "abc123");
    assert_eq!(storage.get_relative_code_entrypoint(), "code/abc123/index.ts");
    assert_eq!(storage.get_relative_deno_cache(), "deno-cache");
    assert_eq!(storage.code_entrypoint, "/srv/runs/code/abc123/index.ts");
    assert_eq!(
        storage.log_file_path("20240101_120000"),
        "/srv/runs/logs/output_20240101_120000.log"
    );
}
