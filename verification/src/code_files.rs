//! The code bundle: relative paths mapped to file contents, with one
//! distinguished entrypoint.

use vstd::prelude::*;
use crate::path_utils::valid_rel_path;

verus! {

/// A bundle of source files. `files` associates each relative path with its
/// contents; the first entry for a path is the binding. `entrypoint` names
/// the file execution starts from.
pub struct CodeFiles {
    pub files: Vec<(String, String)>,
    pub entrypoint: String,
}

/// The contents bound to `name`, if any: the first matching entry counts.
pub open spec fn lookup(s: Seq<(String, String)>, name: Seq<char>) -> Option<Seq<char>>
    decreases s.len(),
{
    if s.len() == 0 {
        Option::None
    } else if s[0].0@ == name {
        Option::Some(s[0].1@)
    } else {
        lookup(s.drop_first(), name)
    }
}

/// `s` with `k` bound to `v`: the first entry for `k` is replaced, or the
/// pair appended when `k` is absent.
pub open spec fn store(s: Seq<(String, String)>, k: String, v: String) -> Seq<(String, String)>
    decreases s.len(),
{
    if s.len() == 0 {
        seq![(k, v)]
    } else if s[0].0@ == k@ {
        seq![(k, v)] + s.drop_first()
    } else {
        seq![s[0]] + store(s.drop_first(), k, v)
    }
}

/// No two entries bind the same path.
pub open spec fn keys_unique(s: Seq<(String, String)>) -> bool {
    forall|i: int, j: int| 0 <= i < j < s.len() ==> s[i].0@ != s[j].0@
}

/// Every path of the bundle is a well-formed relative path.
pub open spec fn paths_valid(s: Seq<(String, String)>) -> bool {
    forall|i: int| 0 <= i < s.len() ==> valid_rel_path(#[trigger] s[i].0@)
}

/// A well-formed bundle: unique, well-formed relative paths.
pub open spec fn bundle_wf(c: CodeFiles) -> bool {
    keys_unique(c.files@) && paths_valid(c.files@)
}

/// Looking a name up after a store finds the stored contents for that name
/// and leaves every other name unchanged.
pub proof fn lemma_lookup_store(s: Seq<(String, String)>, k: String, v: String, n: Seq<char>)
    ensures
        lookup(store(s, k, v), n) == if n == k@ {
            Option::Some(v@)
        } else {
            lookup(s, n)
        },
    decreases s.len(),
{
    if s.len() == 0 {
        let t = store(s, k, v);
        assert(t[0] == (k, v));
        assert(t.drop_first() =~= Seq::<(String, String)>::empty());
        assert(lookup(Seq::<(String, String)>::empty(), n) is None);
        assert(lookup(s, n) is None);
    } else if s[0].0@ == k@ {
        let t = store(s, k, v);
        assert(t[0] == (k, v));
        assert(t.drop_first() =~= s.drop_first());
    } else {
        lemma_lookup_store(s.drop_first(), k, v, n);
        let t = store(s, k, v);
        assert(t[0] == s[0]);
        assert(t.drop_first() =~= store(s.drop_first(), k, v));
    }
}

/// A store with a fresh key appends the pair.
pub proof fn lemma_store_absent(s: Seq<(String, String)>, k: String, v: String)
    requires
        forall|j: int| 0 <= j < s.len() ==> s[j].0@ != k@,
    ensures
        store(s, k, v) == s.push((k, v)),
    decreases s.len(),
{
    if s.len() == 0 {
        assert(store(s, k, v) =~= s.push((k, v)));
    } else {
        assert(s[0].0@ != k@);
        lemma_store_absent(s.drop_first(), k, v);
        assert(store(s, k, v) =~= s.push((k, v)));
    }
}

/// A store over the first entry bound to `k` updates it in place.
pub proof fn lemma_store_first(s: Seq<(String, String)>, k: String, v: String, fi: int)
    requires
        0 <= fi < s.len(),
        s[fi].0@ == k@,
        forall|j: int| 0 <= j < fi ==> s[j].0@ != k@,
    ensures
        store(s, k, v) == s.update(fi, (k, v)),
    decreases s.len(),
{
    if fi == 0 {
        assert(store(s, k, v) =~= s.update(0, (k, v)));
    } else {
        lemma_store_first(s.drop_first(), k, v, fi - 1);
        assert(s.drop_first().update(fi - 1, (k, v)) =~= s.update(fi, (k, v)).drop_first());
        assert(store(s, k, v) =~= s.update(fi, (k, v)));
    }
}

/// A store keeps keys unique and paths valid.
pub proof fn lemma_store_wf(s: Seq<(String, String)>, k: String, v: String)
    ensures
        keys_unique(s) ==> keys_unique(store(s, k, v)),
        paths_valid(s) && valid_rel_path(k@) ==> paths_valid(store(s, k, v)),
{
    if exists|i: int| 0 <= i < s.len() && s[i].0@ == k@ {
        let fi = first_key_index(s, k@);
        lemma_first_key_index(s, k@);
        lemma_store_first(s, k, v, fi);
        let t = s.update(fi, (k, v));
        if keys_unique(s) {
            assert forall|i: int, j: int| 0 <= i < j < t.len() implies t[i].0@ != t[j].0@ by {
                if i != fi && j != fi {
                    assert(t[i] == s[i] && t[j] == s[j]);
                } else if i == fi {
                    assert(t[j] == s[j] && s[fi].0@ == k@);
                } else {
                    assert(t[i] == s[i] && s[fi].0@ == k@);
                }
            }
        }
        if paths_valid(s) && valid_rel_path(k@) {
            assert forall|i: int| 0 <= i < t.len() implies valid_rel_path(#[trigger] t[i].0@) by {
                if i != fi {
                    assert(t[i] == s[i]);
                }
            }
        }
    } else {
        assert(forall|j: int| 0 <= j < s.len() ==> s[j].0@ != k@);
        lemma_store_absent(s, k, v);
        let t = s.push((k, v));
        if keys_unique(s) {
            assert forall|i: int, j: int| 0 <= i < j < t.len() implies t[i].0@ != t[j].0@ by {
                if j < s.len() {
                    assert(t[i] == s[i] && t[j] == s[j]);
                } else {
                    assert(t[i] == s[i] && t[j] == (k, v));
                }
            }
        }
        if paths_valid(s) && valid_rel_path(k@) {
            assert forall|i: int| 0 <= i < t.len() implies valid_rel_path(#[trigger] t[i].0@) by {
                if i < s.len() {
                    assert(t[i] == s[i]);
                }
            }
        }
    }
}

/// Index of the first entry bound to `name`, assuming one exists.
pub open spec fn first_key_index(s: Seq<(String, String)>, name: Seq<char>) -> int {
    choose|i: int|
        0 <= i < s.len() && s[i].0@ == name && forall|j: int| 0 <= j < i ==> s[j].0@ != name
}

/// When some entry is bound to `name`, `first_key_index` is in range, bound
/// to `name`, and nothing before it is.
pub proof fn lemma_first_key_index(s: Seq<(String, String)>, name: Seq<char>)
    requires
        exists|i: int| 0 <= i < s.len() && s[i].0@ == name,
    ensures
        0 <= first_key_index(s, name) < s.len(),
        s[first_key_index(s, name)].0@ == name,
        forall|j: int| 0 <= j < first_key_index(s, name) ==> s[j].0@ != name,
    decreases s.len(),
{
    let w = choose|i: int| 0 <= i < s.len() && s[i].0@ == name;
    if s[0].0@ == name {
        assert(0 <= 0 < s.len() && s[0].0@ == name && forall|j: int|
            0 <= j < 0 ==> s[j].0@ != name);
    } else {
        assert(s.drop_first()[w - 1].0@ == name);
        lemma_first_key_index(s.drop_first(), name);
        let fi = first_key_index(s.drop_first(), name);
        assert(s[fi + 1].0@ == name);
        assert forall|j: int| 0 <= j < fi + 1 implies s[j].0@ != name by {
            if j > 0 {
                assert(s.drop_first()[j - 1].0@ != name);
            }
        }
        assert(0 <= fi + 1 < s.len() && s[fi + 1].0@ == name && forall|j: int|
            0 <= j < fi + 1 ==> s[j].0@ != name);
    }
}

impl CodeFiles {
    /// An empty bundle whose entrypoint is `entrypoint`.
    pub fn new(entrypoint: String) -> (r: CodeFiles)
        ensures
            r.files@ == Seq::<(String, String)>::empty(),
            r.entrypoint == entrypoint,
            bundle_wf(r),
    {
        let r = CodeFiles { files: Vec::new(), entrypoint };
        proof {
            assert(bundle_wf(r));
        }
        r
    }

    /// The contents bound to `name`, if any.
    pub fn get_file(&self, name: &str) -> (r: Option<String>)
        ensures
            match r {
                Option::Some(c) => lookup(self.files@, name@) == Option::Some(c@),
                Option::None => lookup(self.files@, name@) is None,
            },
    {
        let ghost s = self.files@;
        proof {
            assert(s.skip(0) =~= s);
        }
        let mut i: usize = 0;
        while i < self.files.len()
            invariant
                s == self.files@,
                i <= s.len(),
                lookup(s, name@) == lookup(s.skip(i as int), name@),
            decreases s.len() - i,
        {
            proof {
                assert(s.skip(i as int)[0] == s[i as int]);
                assert(s.skip(i as int).drop_first() =~= s.skip(i + 1));
            }
            if crate::text::str_eq_str(self.files[i].0.as_str(), name) {
                let c = self.files[i].1.clone();
                return Option::Some(c);
            }
            i = i + 1;
        }
        proof {
            assert(s.skip(s.len() as int) =~= Seq::<(String, String)>::empty());
        }
        Option::None
    }

    /// Bind `name` to `content`, replacing any earlier binding.
    pub fn set_file(&mut self, name: String, content: String)
        ensures
            final(self).files@ == store(old(self).files@, name, content),
            final(self).entrypoint == old(self).entrypoint,
    {
        let ghost s = self.files@;
        let mut found: bool = false;
        let mut fi: usize = 0;
        let mut i: usize = 0;
        while i < self.files.len()
            invariant
                s == self.files@,
                i <= s.len(),
                !found ==> (forall|j: int| 0 <= j < i ==> s[j].0@ != name@),
                found ==> fi < i && s[fi as int].0@ == name@ && (forall|j: int|
                    0 <= j < fi ==> s[j].0@ != name@),
            decreases s.len() - i,
        {
            if !found && self.files[i].0 == name {
                found = true;
                fi = i;
            }
            i = i + 1;
        }
        if found {
            self.files.remove(fi);
            self.files.insert(fi, (name, content));
            proof {
                lemma_store_first(s, name, content, fi as int);
                assert(self.files@ =~= s.update(fi as int, (name, content)));
            }
        } else {
            self.files.push((name, content));
            proof {
                lemma_store_absent(s, name, content);
            }
        }
    }

    /// A copy of the bundle holding equal paths and contents.
    pub fn duplicate(&self) -> (r: CodeFiles)
        ensures
            r.files@ == self.files@,
            r.entrypoint == self.entrypoint,
    {
        let mut files: Vec<(String, String)> = Vec::new();
        let mut i: usize = 0;
        while i < self.files.len()
            invariant
                i <= self.files@.len(),
                files@ == self.files@.subrange(0, i as int),
            decreases self.files@.len() - i,
        {
            let k = self.files[i].0.clone();
            let v = self.files[i].1.clone();
            proof {
                assert((k, v) == self.files@[i as int]);
            }
            files.push((k, v));
            proof {
                assert(files@ =~= self.files@.subrange(0, i + 1));
            }
            i = i + 1;
        }
        proof {
            assert(files@ =~= self.files@);
        }
        CodeFiles { files, entrypoint: self.entrypoint.clone() }
    }

    /// Whether every path of the bundle is a well-formed relative path.
    pub fn paths_are_valid(&self) -> (r: bool)
        ensures
            r == paths_valid(self.files@),
    {
        let ghost s = self.files@;
        let mut i: usize = 0;
        while i < self.files.len()
            invariant
                s == self.files@,
                i <= s.len(),
                forall|k: int| 0 <= k < i ==> valid_rel_path(#[trigger] s[k].0@),
            decreases s.len() - i,
        {
            if !crate::path_utils::is_valid_rel_path(self.files[i].0.as_str()) {
                return false;
            }
            i = i + 1;
        }
        true
    }
}

} // verus!
