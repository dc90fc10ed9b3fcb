//! The TypeScript backend's storage layout, keyed by a per-run identifier
//! under one shared root: `code/<id>/index.ts` for the materialized
//! entrypoint, beside the shared `deno-cache`, `logs` and `home`
//! directories.

use vstd::prelude::*;
use vstd::string::StringExecFns;
use crate::execution_storage::StorageAction;
use crate::path_utils::{joined, lemma_segment_paths_disjoint, path_join, paths_disjoint,
    slash_free};

verus! {

/// The directories of one TypeScript run. All of them are functions of the
/// root directory and the run identifier.
pub struct DenoExecutionStorage {
    pub id: String,
    pub root: String,
    pub root_code: String,
    pub code: String,
    pub code_entrypoint: String,
    pub deno_cache: String,
    pub logs: String,
    pub home: String,
}

pub open spec fn spec_code_dir(root: Seq<char>, id: Seq<char>) -> Seq<char> {
    joined(joined(root, "code"@), id)
}

/// The storage layout is well-formed: every field is the path the layout
/// assigns to it.
pub open spec fn deno_storage_wf(s: DenoExecutionStorage) -> bool {
    &&& s.root_code@ == joined(s.root@, "code"@)
    &&& s.code@ == spec_code_dir(s.root@, s.id@)
    &&& s.code_entrypoint@ == joined(s.code@, "index.ts"@)
    &&& s.deno_cache@ == joined(s.root@, "deno-cache"@)
    &&& s.logs@ == joined(s.root@, "logs"@)
    &&& s.home@ == joined(s.root@, "home"@)
}

impl DenoExecutionStorage {
    /// The layout under `root` for the run identified by `id`.
    pub fn new(root: String, id: &str) -> (r: DenoExecutionStorage)
        ensures
            r.root@ == root@,
            r.id@ == id@,
            deno_storage_wf(r),
    {
        let root_code = path_join(&root, "code");
        let code = path_join(&root_code, id);
        let code_entrypoint = path_join(&code, "index.ts");
        let deno_cache = path_join(&root, "deno-cache");
        let logs = path_join(&root, "logs");
        let home = path_join(&root, "home");
        DenoExecutionStorage {
            id: String::from_str(id),
            root,
            root_code,
            code,
            code_entrypoint,
            deno_cache,
            logs,
            home,
        }
    }

    /// The initialization plan: create every directory of the layout,
    /// write `code` to the entrypoint file, and, when `pristine_cache`
    /// asks for it, clear and recreate the cache directory. Without a
    /// pristine cache the plan holds no destructive action, so running it
    /// twice leaves the same tree, and reading the entrypoint back after
    /// it ran yields exactly `code`.
    pub fn init_plan(&self, code: &str, pristine_cache: Option<bool>) -> (r: Vec<StorageAction>)
        ensures
            r@.len() == (if pristine_cache == Option::Some(true) {
                9int
            } else {
                7int
            }),
            r@[0] is MakeDirs && r@[0]->MakeDirs_0@ == self.root@,
            r@[1] is MakeDirs && r@[1]->MakeDirs_0@ == self.root_code@,
            r@[2] is MakeDirs && r@[2]->MakeDirs_0@ == self.code@,
            r@[3] is MakeDirs && r@[3]->MakeDirs_0@ == self.deno_cache@,
            r@[4] is MakeDirs && r@[4]->MakeDirs_0@ == self.logs@,
            r@[5] is MakeDirs && r@[5]->MakeDirs_0@ == self.home@,
            r@[6] is WriteFile && r@[6]->WriteFile_0@ == self.code_entrypoint@
                && r@[6]->WriteFile_1@ == code@,
            pristine_cache == Option::Some(true) ==> r@[7] is RemoveTree
                && r@[7]->RemoveTree_0@ == self.deno_cache@ && r@[8] is MakeDirs
                && r@[8]->MakeDirs_0@ == self.deno_cache@,
            pristine_cache != Option::Some(true) ==> forall|k: int|
                0 <= k < r@.len() ==> !((#[trigger] r@[k]) is RemoveTree),
    {
        let mut r: Vec<StorageAction> = Vec::new();
        r.push(StorageAction::MakeDirs(self.root.clone()));
        r.push(StorageAction::MakeDirs(self.root_code.clone()));
        r.push(StorageAction::MakeDirs(self.code.clone()));
        r.push(StorageAction::MakeDirs(self.deno_cache.clone()));
        r.push(StorageAction::MakeDirs(self.logs.clone()));
        r.push(StorageAction::MakeDirs(self.home.clone()));
        r.push(StorageAction::WriteFile(self.code_entrypoint.clone(), String::from_str(code)));
        let pristine = match pristine_cache {
            Option::Some(b) => b,
            Option::None => false,
        };
        if pristine {
            r.push(StorageAction::RemoveTree(self.deno_cache.clone()));
            r.push(StorageAction::MakeDirs(self.deno_cache.clone()));
        }
        r
    }

    /// The entrypoint file, relative to the root: `code/<id>/index.ts`.
    pub fn get_relative_code_entrypoint(&self) -> (r: String)
        requires
            deno_storage_wf(*self),
        ensures
            r@ == joined(joined("code"@, self.id@), "index.ts"@),
            self.code_entrypoint@ == joined(self.root@, r@),
    {
        let a = path_join(&String::from_str("code"), self.id.as_str());
        let r = path_join(&a, "index.ts");
        proof {
            reveal_strlit("code");
            assert(self.code_entrypoint@ =~= joined(self.root@, r@));
        }
        r
    }

    /// The cache directory, relative to the root: `deno-cache`.
    pub fn get_relative_deno_cache(&self) -> (r: String)
        requires
            deno_storage_wf(*self),
        ensures
            r@ == "deno-cache"@,
            self.deno_cache@ == joined(self.root@, r@),
    {
        String::from_str("deno-cache")
    }

    /// The log file for a run stamped `timestamp`:
    /// `<logs>/output_<timestamp>.log`.
    pub fn log_file_path(&self, timestamp: &str) -> (r: String)
        ensures
            r@ == joined(self.logs@, "output_"@ + timestamp@ + ".log"@),
    {
        let mut name: Vec<char> = Vec::new();
        crate::text::push_str_chars(&mut name, "output_");
        crate::text::push_str_chars(&mut name, timestamp);
        crate::text::push_str_chars(&mut name, ".log");
        let name_str = crate::text::string_from_chars(&name);
        path_join(&self.logs, name_str.as_str())
    }
}

/// Two runs under one root with distinct slash-free identifiers use
/// disjoint `code/<id>` subtrees: neither run can observe the other's
/// materialized code.
pub proof fn lemma_distinct_ids_disjoint(root: Seq<char>, id1: Seq<char>, id2: Seq<char>)
    requires
        slash_free(id1),
        slash_free(id2),
        id1 != id2,
    ensures
        paths_disjoint(spec_code_dir(root, id1), spec_code_dir(root, id2)),
{
    let base = root + seq!['/'] + "code"@ + seq!['/'];
    assert(spec_code_dir(root, id1) =~= base + id1 + Seq::<char>::empty());
    assert(spec_code_dir(root, id2) =~= base + id2 + Seq::<char>::empty());
    lemma_segment_paths_disjoint(base, id1, id2, Seq::empty());
}

} // verus!
