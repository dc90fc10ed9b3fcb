//! The per-run storage layout, and the plan that materializes it.
//!
//! Every path of the layout is a pure function of the execution context.
//! `init_plan` and `init_for_python_plan` return the ordered list of
//! filesystem actions that initialization performs: directory creation
//! first, then one write per bundle file under `code/`. Directory creation
//! is idempotent and contents are replaced, so running a plan twice leaves
//! the same tree; only a pristine-cache plan holds a destructive action,
//! and that one aims at the cache subtree alone.

use vstd::prelude::*;
use crate::code_files::{keys_unique, lookup, CodeFiles};
use crate::execution_context::ExecutionContext;
use crate::path_utils::{joined, lemma_segment_paths_disjoint, path_join, paths_disjoint,
    slash_free, strip_root};

verus! {

/// One filesystem action of an initialization plan, in execution order.
/// `MakeDirs` creates a directory and any missing parents and is a no-op
/// on an existing one; `WriteFile` creates or replaces one file with the
/// given contents, creating missing parents; `RemoveTree` removes a
/// directory tree.
pub enum StorageAction {
    MakeDirs(String),
    WriteFile(String, String),
    RemoveTree(String),
}

/// The root of one run's tree: `<storage_root>/<context_id>/<execution_id>/<code_id>`.
pub open spec fn spec_run_root(ctx: ExecutionContext) -> Seq<char> {
    joined(joined(joined(ctx.storage_root@, ctx.context_id@), ctx.execution_id@), ctx.code_id@)
}

pub open spec fn spec_code_folder(ctx: ExecutionContext) -> Seq<char> {
    joined(spec_run_root(ctx), "code"@)
}

pub open spec fn spec_home_folder(ctx: ExecutionContext) -> Seq<char> {
    joined(spec_run_root(ctx), "home"@)
}

pub open spec fn spec_logs_folder(ctx: ExecutionContext) -> Seq<char> {
    joined(spec_run_root(ctx), "logs"@)
}

pub open spec fn spec_assets_folder(ctx: ExecutionContext) -> Seq<char> {
    joined(spec_run_root(ctx), "assets"@)
}

/// The cache shared by every execution of one context:
/// `<storage_root>/<context_id>/cache`.
pub open spec fn spec_cache_folder(ctx: ExecutionContext) -> Seq<char> {
    joined(joined(ctx.storage_root@, ctx.context_id@), "cache"@)
}

pub open spec fn spec_deno_cache_folder(ctx: ExecutionContext) -> Seq<char> {
    joined(spec_cache_folder(ctx), "deno-cache"@)
}

pub open spec fn spec_python_cache_folder(ctx: ExecutionContext) -> Seq<char> {
    joined(spec_cache_folder(ctx), "python-venv"@)
}

pub open spec fn spec_python_check_venv_folder(ctx: ExecutionContext) -> Seq<char> {
    joined(spec_cache_folder(ctx), "python-check-venv"@)
}

/// The storage of one run: the bundle it materializes and the context that
/// addresses its tree.
pub struct ExecutionStorage {
    pub code: CodeFiles,
    pub context: ExecutionContext,
}

impl ExecutionStorage {
    pub fn new(code: CodeFiles, context: ExecutionContext) -> (r: ExecutionStorage)
        ensures
            r.code == code,
            r.context == context,
    {
        ExecutionStorage { code, context }
    }

    pub fn root_folder_path(&self) -> (r: String)
        ensures
            r@ == spec_run_root(self.context),
    {
        let a = path_join(&self.context.storage_root, self.context.context_id.as_str());
        let b = path_join(&a, self.context.execution_id.as_str());
        path_join(&b, self.context.code_id.as_str())
    }

    pub fn code_folder_path(&self) -> (r: String)
        ensures
            r@ == spec_code_folder(self.context),
    {
        let root = self.root_folder_path();
        path_join(&root, "code")
    }

    pub fn home_folder_path(&self) -> (r: String)
        ensures
            r@ == spec_home_folder(self.context),
    {
        let root = self.root_folder_path();
        path_join(&root, "home")
    }

    pub fn logs_folder_path(&self) -> (r: String)
        ensures
            r@ == spec_logs_folder(self.context),
    {
        let root = self.root_folder_path();
        path_join(&root, "logs")
    }

    pub fn assets_folder_path(&self) -> (r: String)
        ensures
            r@ == spec_assets_folder(self.context),
    {
        let root = self.root_folder_path();
        path_join(&root, "assets")
    }

    pub fn cache_folder_path(&self) -> (r: String)
        ensures
            r@ == spec_cache_folder(self.context),
    {
        let a = path_join(&self.context.storage_root, self.context.context_id.as_str());
        path_join(&a, "cache")
    }

    pub fn deno_cache_folder_path(&self) -> (r: String)
        ensures
            r@ == spec_deno_cache_folder(self.context),
    {
        let c = self.cache_folder_path();
        path_join(&c, "deno-cache")
    }

    pub fn python_cache_folder_path(&self) -> (r: String)
        ensures
            r@ == spec_python_cache_folder(self.context),
    {
        let c = self.cache_folder_path();
        path_join(&c, "python-venv")
    }

    pub fn python_check_venv_folder_path(&self) -> (r: String)
        ensures
            r@ == spec_python_check_venv_folder(self.context),
    {
        let c = self.cache_folder_path();
        path_join(&c, "python-check-venv")
    }

    /// The materialized entrypoint: `<run root>/code/<entrypoint>`.
    pub fn code_entrypoint_file_path(&self) -> (r: String)
        ensures
            r@ == joined(spec_code_folder(self.context), self.code.entrypoint@),
    {
        let c = self.code_folder_path();
        path_join(&c, self.code.entrypoint.as_str())
    }

    /// `path` expressed relative to this run's root folder, when it lies
    /// under it.
    pub fn relative_to_root(&self, path: &String) -> (r: Option<String>)
        ensures
            match r {
                Option::Some(rest) => path@ == joined(spec_run_root(self.context), rest@),
                Option::None => !crate::text::starts_with(
                    path@,
                    spec_run_root(self.context) + seq!['/'],
                ),
            },
    {
        let root = self.root_folder_path();
        strip_root(path, &root)
    }

    /// The write actions that materialize the bundle: one per file, in
    /// bundle order, each replacing `code/<path>` with the bundle contents.
    fn write_files_plan(&self) -> (r: Vec<StorageAction>)
        ensures
            r@.len() == self.code.files@.len(),
            forall|k: int|
                0 <= k < r@.len() ==> (#[trigger] r@[k]) is WriteFile && r@[k]->WriteFile_0@
                    == joined(spec_code_folder(self.context), self.code.files@[k].0@)
                    && r@[k]->WriteFile_1@ == self.code.files@[k].1@,
    {
        let code_folder = self.code_folder_path();
        let mut r: Vec<StorageAction> = Vec::new();
        let mut i: usize = 0;
        while i < self.code.files.len()
            invariant
                i <= self.code.files@.len(),
                code_folder@ == spec_code_folder(self.context),
                r@.len() == i,
                forall|k: int|
                    0 <= k < i ==> (#[trigger] r@[k]) is WriteFile && r@[k]->WriteFile_0@
                        == joined(spec_code_folder(self.context), self.code.files@[k].0@)
                        && r@[k]->WriteFile_1@ == self.code.files@[k].1@,
            decreases self.code.files@.len() - i,
        {
            let path = path_join(&code_folder, self.code.files[i].0.as_str());
            let content = self.code.files[i].1.clone();
            r.push(StorageAction::WriteFile(path, content));
            i = i + 1;
        }
        r
    }

    /// The initialization plan of the TypeScript backend: create the run's
    /// directories and the shared `deno-cache`, reset that cache when
    /// `pristine_cache` asks for it, then write every bundle file under
    /// `code/`. A plan without `pristine_cache` holds no destructive
    /// action, so running it twice leaves the same tree; and for every
    /// bundle entry the plan holds a write of exactly its contents, which
    /// is what read-back after initialization returns.
    pub fn init_plan(&self, pristine_cache: bool) -> (r: Vec<StorageAction>)
        ensures
            plan_shape(
                r@,
                self.context,
                self.code,
                pristine_cache,
                spec_deno_cache_folder(self.context),
                spec_python_cache_folder(self.context),
                false,
            ),
            !pristine_cache ==> forall|k: int| 0 <= k < r@.len() ==> !((#[trigger] r@[k])
                is RemoveTree),
            forall|n: Seq<char>, c: Seq<char>|
                lookup(self.code.files@, n) == Option::Some(c) ==> exists|k: int|
                    0 <= k < r@.len() && (#[trigger] r@[k]) is WriteFile && r@[k]->WriteFile_0@
                        == joined(spec_code_folder(self.context), n) && r@[k]->WriteFile_1@ == c,
    {
        self.plan_with_cache(pristine_cache, false)
    }

    /// The initialization plan of the Python backend: as `init_plan`, but
    /// the cache subdirectories are `python-venv` and `python-check-venv`,
    /// and a pristine cache resets `python-venv`.
    pub fn init_for_python_plan(&self, pristine_cache: bool) -> (r: Vec<StorageAction>)
        ensures
            plan_shape(
                r@,
                self.context,
                self.code,
                pristine_cache,
                spec_deno_cache_folder(self.context),
                spec_python_cache_folder(self.context),
                true,
            ),
            !pristine_cache ==> forall|k: int| 0 <= k < r@.len() ==> !((#[trigger] r@[k])
                is RemoveTree),
            forall|n: Seq<char>, c: Seq<char>|
                lookup(self.code.files@, n) == Option::Some(c) ==> exists|k: int|
                    0 <= k < r@.len() && (#[trigger] r@[k]) is WriteFile && r@[k]->WriteFile_0@
                        == joined(spec_code_folder(self.context), n) && r@[k]->WriteFile_1@ == c,
    {
        self.plan_with_cache(pristine_cache, true)
    }

    fn plan_with_cache(&self, pristine_cache: bool, python: bool) -> (r: Vec<StorageAction>)
        ensures
            plan_shape(
                r@,
                self.context,
                self.code,
                pristine_cache,
                spec_deno_cache_folder(self.context),
                spec_python_cache_folder(self.context),
                python,
            ),
            !pristine_cache ==> forall|k: int| 0 <= k < r@.len() ==> !((#[trigger] r@[k])
                is RemoveTree),
            forall|n: Seq<char>, c: Seq<char>|
                lookup(self.code.files@, n) == Option::Some(c) ==> exists|k: int|
                    0 <= k < r@.len() && (#[trigger] r@[k]) is WriteFile && r@[k]->WriteFile_0@
                        == joined(spec_code_folder(self.context), n) && r@[k]->WriteFile_1@ == c,
    {
        let mut r: Vec<StorageAction> = Vec::new();
        r.push(StorageAction::MakeDirs(self.root_folder_path()));
        r.push(StorageAction::MakeDirs(self.code_folder_path()));
        r.push(StorageAction::MakeDirs(self.home_folder_path()));
        r.push(StorageAction::MakeDirs(self.logs_folder_path()));
        r.push(StorageAction::MakeDirs(self.assets_folder_path()));
        r.push(StorageAction::MakeDirs(self.cache_folder_path()));
        let main_cache = if python {
            self.python_cache_folder_path()
        } else {
            self.deno_cache_folder_path()
        };
        let ghost main_cache_view = main_cache@;
        r.push(StorageAction::MakeDirs(main_cache));
        if python {
            r.push(StorageAction::MakeDirs(self.python_check_venv_folder_path()));
        }
        if pristine_cache {
            let main_cache_again = if python {
                self.python_cache_folder_path()
            } else {
                self.deno_cache_folder_path()
            };
            let main_cache_again2 = main_cache_again.clone();
            r.push(StorageAction::RemoveTree(main_cache_again));
            r.push(StorageAction::MakeDirs(main_cache_again2));
        }
        let ghost nb = r@.len();
        let mut writes = self.write_files_plan();
        let ghost writes_view = writes@;
        r.append(&mut writes);
        proof {
            assert(r@.subrange(nb as int, r@.len() as int) =~= writes_view);
            assert forall|n: Seq<char>, c: Seq<char>|
                lookup(self.code.files@, n) == Option::Some(c) implies exists|k: int|
                0 <= k < r@.len() && (#[trigger] r@[k]) is WriteFile && r@[k]->WriteFile_0@
                    == joined(spec_code_folder(self.context), n) && r@[k]->WriteFile_1@ == c by {
                lemma_lookup_index(self.code.files@, n, c);
                let e = choose|e: int|
                    0 <= e < self.code.files@.len() && self.code.files@[e].0@ == n
                        && self.code.files@[e].1@ == c;
                assert(r@[nb + e] == writes_view[e]);
                assert(r@[nb + e] is WriteFile && r@[nb + e]->WriteFile_0@ == joined(
                    spec_code_folder(self.context),
                    n,
                ) && r@[nb + e]->WriteFile_1@ == c);
            }
        }
        r
    }
}

/// The shape of an initialization plan: directory creation for the run
/// root, `code/`, `home/`, `logs/`, `assets/` and the shared cache with
/// its backend subdirectories, then the cache reset when asked for, then
/// exactly the bundle writes.
pub open spec fn plan_shape(
    r: Seq<StorageAction>,
    ctx: ExecutionContext,
    code: CodeFiles,
    pristine_cache: bool,
    deno_cache: Seq<char>,
    python_cache: Seq<char>,
    python: bool,
) -> bool {
    let main_cache = if python {
        python_cache
    } else {
        deno_cache
    };
    let ndirs: int = if python {
        8
    } else {
        7
    };
    let nb: int = ndirs + if pristine_cache {
        2int
    } else {
        0int
    };
    &&& r.len() == nb + code.files@.len()
    &&& r[0] is MakeDirs && r[0]->MakeDirs_0@ == spec_run_root(ctx)
    &&& r[1] is MakeDirs && r[1]->MakeDirs_0@ == spec_code_folder(ctx)
    &&& r[2] is MakeDirs && r[2]->MakeDirs_0@ == spec_home_folder(ctx)
    &&& r[3] is MakeDirs && r[3]->MakeDirs_0@ == spec_logs_folder(ctx)
    &&& r[4] is MakeDirs && r[4]->MakeDirs_0@ == spec_assets_folder(ctx)
    &&& r[5] is MakeDirs && r[5]->MakeDirs_0@ == spec_cache_folder(ctx)
    &&& r[6] is MakeDirs && r[6]->MakeDirs_0@ == main_cache
    &&& python ==> r[7] is MakeDirs && r[7]->MakeDirs_0@ == spec_python_check_venv_folder(ctx)
    &&& pristine_cache ==> r[ndirs] is RemoveTree && r[ndirs]->RemoveTree_0@ == main_cache && r[
        ndirs + 1
    ] is MakeDirs && r[ndirs + 1]->MakeDirs_0@ == main_cache
    &&& forall|k: int|
        nb <= k < r.len() ==> (#[trigger] r[k]) is WriteFile && r[k]->WriteFile_0@ == joined(
            spec_code_folder(ctx),
            code.files@[k - nb].0@,
        ) && r[k]->WriteFile_1@ == code.files@[k - nb].1@
    &&& forall|k: int| 0 <= k < nb ==> !((#[trigger] r[k]) is WriteFile)
}

/// A successful lookup names some entry of the bundle.
proof fn lemma_lookup_index(s: Seq<(String, String)>, n: Seq<char>, c: Seq<char>)
    requires
        lookup(s, n) == Option::<Seq<char>>::Some(c),
    ensures
        exists|e: int| 0 <= e < s.len() && s[e].0@ == n && s[e].1@ == c,
    decreases s.len(),
{
    if s.len() == 0 {
    } else if s[0].0@ == n {
        assert(0 <= 0 < s.len() && s[0].0@ == n && s[0].1@ == c);
    } else {
        lemma_lookup_index(s.drop_first(), n, c);
        let e = choose|e: int|
            0 <= e < s.drop_first().len() && s.drop_first()[e].0@ == n && s.drop_first()[e].1@
                == c;
        assert(s[e + 1].0@ == n && s[e + 1].1@ == c);
    }
}

/// Runs under one context whose code identifiers differ name disjoint
/// `code/` subtrees — and disjoint run roots altogether: neither run's
/// initialization writes below the other's directories, since every write
/// of a plan lands under its own run's `code/` folder.
pub proof fn lemma_distinct_code_ids_disjoint(a: ExecutionContext, b: ExecutionContext)
    requires
        a.storage_root@ == b.storage_root@,
        a.context_id@ == b.context_id@,
        a.execution_id@ == b.execution_id@,
        slash_free(a.code_id@),
        slash_free(b.code_id@),
        a.code_id@ != b.code_id@,
    ensures
        paths_disjoint(spec_run_root(a), spec_run_root(b)),
        paths_disjoint(spec_code_folder(a), spec_code_folder(b)),
{
    let base = a.storage_root@ + seq!['/'] + a.context_id@ + seq!['/'] + a.execution_id@ + seq![
        '/',
    ];
    assert(spec_run_root(a) =~= base + a.code_id@ + Seq::<char>::empty());
    assert(spec_run_root(b) =~= base + b.code_id@ + Seq::<char>::empty());
    lemma_segment_paths_disjoint(base, a.code_id@, b.code_id@, Seq::empty());
    let suf = seq!['/'] + "code"@;
    assert(spec_code_folder(a) =~= base + a.code_id@ + suf);
    assert(spec_code_folder(b) =~= base + b.code_id@ + suf);
    lemma_segment_paths_disjoint(base, a.code_id@, b.code_id@, suf);
}

/// With unique bundle paths, no two write actions of a plan aim at the
/// same file: after the plan runs, reading any `code/<path>` back yields
/// exactly the contents the bundle binds to `path`.
pub proof fn lemma_plan_writes_distinct(
    r: Seq<StorageAction>,
    ctx: ExecutionContext,
    code: CodeFiles,
    pristine_cache: bool,
    python: bool,
)
    requires
        plan_shape(
            r,
            ctx,
            code,
            pristine_cache,
            spec_deno_cache_folder(ctx),
            spec_python_cache_folder(ctx),
            python,
        ),
        keys_unique(code.files@),
    ensures
        forall|k1: int, k2: int|
            0 <= k1 < k2 < r.len() && #[trigger] r[k1] is WriteFile && #[trigger] r[k2]
                is WriteFile ==> r[k1]->WriteFile_0@ != r[k2]->WriteFile_0@,
{
    let ndirs: int = if python {
        8
    } else {
        7
    };
    let nb: int = ndirs + if pristine_cache {
        2int
    } else {
        0int
    };
    assert forall|k1: int, k2: int|
        0 <= k1 < k2 < r.len() && #[trigger] r[k1] is WriteFile && #[trigger] r[k2]
            is WriteFile implies r[k1]->WriteFile_0@ != r[k2]->WriteFile_0@ by {
        assert(nb <= k1 && nb <= k2);
        assert(code.files@[k1 - nb].0@ != code.files@[k2 - nb].0@);
        crate::path_utils::lemma_joined_injective(
            spec_code_folder(ctx),
            code.files@[k1 - nb].0@,
            code.files@[k2 - nb].0@,
        );
    }
}

} // verus!
