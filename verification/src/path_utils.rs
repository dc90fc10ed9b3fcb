//! Path text utilities.
//!
//! Paths are plain forward-slashed strings. The storage layout is pure text
//! concatenation over them, so every property of the layout is a property of
//! these functions.

use vstd::prelude::*;
use vstd::string::StringExecFns;
use crate::text::{chars_of_str, first_at, lemma_first_at_unique, starts_with,
    string_from_chars, sub_chars};

verus! {

/// The view of `a` joined to `b` with one separating slash.
pub open spec fn joined(a: Seq<char>, b: Seq<char>) -> Seq<char> {
    a + seq!['/'] + b
}

/// `a` and `b` joined with one separating slash.
pub fn path_join(a: &String, b: &str) -> (r: String)
    ensures
        r@ == joined(a@, b@),
{
    let mut r = a.clone();
    r.append("/");
    r.append(b);
    proof {
        reveal_strlit("/");
        assert(r@ =~= joined(a@, b@));
    }
    r
}

/// `s` holds no `/` and no `\` and is not empty, `.` or `..`: it can stand
/// as one path segment of its own.
pub open spec fn plain_segment(s: Seq<char>) -> bool {
    s.len() > 0 && (forall|k: int| 0 <= k < s.len() ==> s[k] != '/' && s[k] != '\\') && s
        != seq!['.'] && s != seq!['.', '.']
}

/// Whether `s` can stand as one path segment of its own.
pub fn is_plain_segment(s: &str) -> (r: bool)
    ensures
        r == plain_segment(s@),
{
    let cs = chars_of_str(s);
    if cs.len() == 0 {
        return false;
    }
    if cs.len() == 1 && cs[0] == '.' {
        proof {
            assert(cs@ =~= seq!['.']);
        }
        return false;
    }
    if cs.len() == 2 && cs[0] == '.' && cs[1] == '.' {
        proof {
            assert(cs@ =~= seq!['.', '.']);
        }
        return false;
    }
    let mut i: usize = 0;
    while i < cs.len()
        invariant
            cs@ == s@,
            i <= cs@.len(),
            forall|k: int| 0 <= k < i ==> cs@[k] != '/' && cs@[k] != '\\',
        decreases cs@.len() - i,
    {
        if cs[i] == '/' || cs[i] == '\\' {
            return false;
        }
        i = i + 1;
    }
    proof {
        if s@ == seq!['.'] {
            assert(cs@.len() == 1 && cs@[0] == '.');
        }
        if s@ == seq!['.', '.'] {
            assert(cs@.len() == 2 && cs@[0] == '.' && cs@[1] == '.');
        }
    }
    true
}

/// The segments of `p`, split at `/`.
pub open spec fn path_segments(p: Seq<char>) -> Seq<Seq<char>>
    decreases p.len(),
{
    if p.len() == 0 {
        seq![p]
    } else {
        let i = first_at(p, '/');
        if 0 <= i && i < p.len() {
            seq![p.subrange(0, i)] + path_segments(p.subrange(i + 1, p.len() as int))
        } else {
            seq![p]
        }
    }
}

/// A well-formed relative path of a code bundle: non-empty, forward-slashed,
/// and made of plain segments only, so it has no `..` and cannot leave the
/// directory it is resolved against.
pub open spec fn valid_rel_path(p: Seq<char>) -> bool {
    p.len() > 0 && forall|k: int|
        0 <= k < path_segments(p).len() ==> plain_segment(#[trigger] path_segments(p)[k])
}

/// Whether `p` is a well-formed relative path of a code bundle.
pub fn is_valid_rel_path(p: &str) -> (r: bool)
    ensures
        r == valid_rel_path(p@),
{
    let cs = chars_of_str(p);
    if cs.len() == 0 {
        return false;
    }
    let r = valid_segments_from(&cs, 0);
    proof {
        assert(cs@.subrange(0, cs@.len() as int) =~= cs@);
    }
    r
}

/// Whether every `/`-separated segment of `v[from..]` is plain.
fn valid_segments_from(v: &Vec<char>, from: usize) -> (r: bool)
    requires
        from <= v@.len(),
    ensures
        r == (forall|k: int|
            0 <= k < path_segments(v@.subrange(from as int, v@.len() as int)).len()
                ==> plain_segment(
                #[trigger] path_segments(v@.subrange(from as int, v@.len() as int))[k],
            )),
    decreases v@.len() - from,
{
    let ghost p = v@.subrange(from as int, v@.len() as int);
    let mut i: usize = from;
    while i < v.len() && v[i] != '/'
        invariant
            from <= i <= v@.len(),
            forall|k: int| from <= k < i ==> v@[k] != '/',
        decreases v@.len() - i,
    {
        i = i + 1;
    }
    proof {
        lemma_first_at_unique(p, '/', i - from);
        assert(forall|k: int| from <= k < i ==> p[k - from] == v@[k]);
    }
    let seg = sub_chars(v, from, i);
    let seg_str = string_from_chars(&seg);
    let seg_ok = is_plain_segment(seg_str.as_str());
    if i == v.len() {
        proof {
            assert(path_segments(p) =~= seq![p]);
            assert(seg@ =~= p);
            assert(path_segments(p)[0] == p);
            if seg_ok {
                assert(forall|k: int|
                    0 <= k < path_segments(p).len() ==> plain_segment(
                        #[trigger] path_segments(p)[k],
                    ));
            } else {
                assert(!plain_segment(path_segments(p)[0]));
            }
        }
        seg_ok
    } else {
        proof {
            assert(p.len() > 0);
            assert(path_segments(p) =~= seq![p.subrange(0, i - from)] + path_segments(
                p.subrange(i - from + 1, p.len() as int),
            ));
            assert(seg@ =~= p.subrange(0, i - from));
            assert(v@.subrange(i + 1 as int, v@.len() as int) =~= p.subrange(
                i - from + 1,
                p.len() as int,
            ));
        }
        let rest_ok = valid_segments_from(v, i + 1);
        proof {
            let segs = path_segments(p);
            let rest = path_segments(v@.subrange(i + 1 as int, v@.len() as int));
            assert(segs[0] == seg@);
            assert(forall|k: int| 1 <= k < segs.len() ==> segs[k] == rest[k - 1]);
            if seg_ok && rest_ok {
                assert forall|k: int| 0 <= k < segs.len() implies plain_segment(
                    #[trigger] segs[k],
                ) by {
                    if k >= 1 {
                        assert(segs[k] == rest[k - 1]);
                        assert(plain_segment(rest[k - 1]));
                    }
                }
            }
            if !seg_ok {
                assert(!plain_segment(segs[0]));
            }
            if seg_ok && !rest_ok {
                assert(exists|k: int| 0 <= k < rest.len() && !plain_segment(rest[k]));
                let bad = choose|k: int| 0 <= k < rest.len() && !plain_segment(rest[k]);
                assert(segs[bad + 1] == rest[bad]);
                assert(!plain_segment(segs[bad + 1]));
            }
        }
        seg_ok && rest_ok
    }
}

/// When `p` lies under the directory `root`, the remainder of `p` after
/// `root` and its separating slash.
pub fn strip_root(p: &String, root: &String) -> (r: Option<String>)
    ensures
        match r {
            Option::Some(rest) => p@ == joined(root@, rest@),
            Option::None => !starts_with(p@, root@ + seq!['/']),
        },
{
    let pc = chars_of_str(p.as_str());
    let rc = chars_of_str(root.as_str());
    let ghost pre = root@ + seq!['/'];
    if pc.len() <= rc.len() {
        proof {
            assert(!starts_with(p@, pre));
        }
        return Option::None;
    }
    let mut i: usize = 0;
    while i < rc.len()
        invariant
            pc@ == p@,
            rc@ == root@,
            rc@.len() + 1 <= pc@.len(),
            i <= rc@.len(),
            pre == root@ + seq!['/'],
            forall|k: int| 0 <= k < i ==> pc@[k] == rc@[k],
        decreases rc@.len() - i,
    {
        if pc[i] != rc[i] {
            proof {
                assert(pre[i as int] == rc@[i as int]);
                assert(p@.subrange(0, pre.len() as int)[i as int] == pc@[i as int]);
            }
            return Option::None;
        }
        i = i + 1;
    }
    if pc[rc.len()] != '/' {
        proof {
            assert(pre[rc@.len() as int] == '/');
            assert(p@.subrange(0, pre.len() as int)[rc@.len() as int] == pc@[rc@.len() as int]);
        }
        return Option::None;
    }
    let rest = sub_chars(&pc, rc.len() + 1, pc.len());
    let rest_str = string_from_chars(&rest);
    proof {
        assert(p@ =~= joined(root@, rest_str@));
    }
    Option::Some(rest_str)
}

/// The view of `p` with every backslash turned into a forward slash.
pub open spec fn slashes_of(p: Seq<char>) -> Seq<char> {
    p.map_values(|c: char| if c == '\\' { '/' } else { c })
}

/// `p` written with forward slashes only, the form a container mount
/// argument needs on every host.
pub fn normalize_for_docker_path(p: &String) -> (r: String)
    ensures
        r@ == slashes_of(p@),
{
    let cs = chars_of_str(p.as_str());
    let mut out: Vec<char> = Vec::new();
    let mut i: usize = 0;
    while i < cs.len()
        invariant
            cs@ == p@,
            i <= cs@.len(),
            out@ == slashes_of(p@.subrange(0, i as int)),
        decreases cs@.len() - i,
    {
        if cs[i] == '\\' {
            out.push('/');
        } else {
            out.push(cs[i]);
        }
        proof {
            assert(out@ =~= slashes_of(p@.subrange(0, i + 1)));
        }
        i = i + 1;
    }
    proof {
        assert(p@.subrange(0, p@.len() as int) =~= p@);
        assert(out@ =~= slashes_of(p@));
    }
    string_from_chars(&out)
}

/// `s` holds no forward slash.
pub open spec fn slash_free(s: Seq<char>) -> bool {
    forall|k: int| 0 <= k < s.len() ==> s[k] != '/'
}

/// `p` and `q` name disjoint subtrees: they differ and neither lies under
/// the other.
pub open spec fn paths_disjoint(p: Seq<char>, q: Seq<char>) -> bool {
    p != q && !starts_with(p, q + seq!['/']) && !starts_with(q, p + seq!['/'])
}

proof fn lemma_seg_not_under(base: Seq<char>, a: Seq<char>, b: Seq<char>, suf: Seq<char>)
    requires
        slash_free(a),
        slash_free(b),
        a != b,
        suf.len() == 0 || suf[0] == '/',
    ensures
        !starts_with(base + a + suf, (base + b + suf) + seq!['/']),
{
    let p = base + a + suf;
    let q = base + b + suf;
    let qs = q + seq!['/'];
    if starts_with(p, qs) {
        assert(p.len() >= qs.len());
        assert(p.subrange(0, qs.len() as int) == qs);
        assert(forall|t: int|
            0 <= t < qs.len() ==> p.subrange(0, qs.len() as int)[t] == p[t]);
        if a.len() == b.len() {
            assert(p.len() == q.len());
            assert(p.len() < qs.len());
            assert(false);
        } else if a.len() < b.len() {
            let t = base.len() + a.len();
            if suf.len() == 0 {
                assert(p.len() == base.len() + a.len());
                assert(qs.len() == base.len() + b.len() + 1);
                assert(false);
            } else {
                assert(p[t as int] == suf[0]);
                assert(t < q.len());
                assert(qs[t as int] == q[t as int]);
                assert(q[t as int] == b[a.len() as int]);
                assert(b[a.len() as int] != '/');
                assert(p[t as int] == qs[t as int]);
                assert(false);
            }
        } else {
            let t = base.len() + b.len();
            assert(t < qs.len());
            if suf.len() == 0 {
                assert(t == q.len());
                assert(qs[t as int] == '/');
            } else {
                assert(qs[t as int] == q[t as int]);
                assert(q[t as int] == suf[0]);
            }
            assert(p[t as int] == a[b.len() as int]);
            assert(a[b.len() as int] != '/');
            assert(p[t as int] == qs[t as int]);
            assert(false);
        }
    }
}

/// Two paths that differ only in one slash-free segment name disjoint
/// subtrees.
pub proof fn lemma_segment_paths_disjoint(
    base: Seq<char>,
    a: Seq<char>,
    b: Seq<char>,
    suf: Seq<char>,
)
    requires
        slash_free(a),
        slash_free(b),
        a != b,
        suf.len() == 0 || suf[0] == '/',
    ensures
        paths_disjoint(base + a + suf, base + b + suf),
{
    let p = base + a + suf;
    let q = base + b + suf;
    if p == q {
        assert(p.len() == base.len() + a.len() + suf.len());
        assert(q.len() == base.len() + b.len() + suf.len());
        assert(a.len() == b.len());
        assert(forall|k: int| 0 <= k < a.len() ==> p[base.len() + k] == a[k]);
        assert(forall|k: int| 0 <= k < b.len() ==> q[base.len() + k] == b[k]);
        assert(a =~= b);
        assert(false);
    }
    lemma_seg_not_under(base, a, b, suf);
    lemma_seg_not_under(base, b, a, suf);
}

/// Index of the last `c` in `s`, or `-1` when `c` does not occur.
pub open spec fn last_at(s: Seq<char>, c: char) -> int
    decreases s.len(),
{
    if s.len() == 0 {
        -1
    } else if s[s.len() - 1] == c {
        s.len() - 1
    } else {
        last_at(s.drop_last(), c)
    }
}

pub proof fn lemma_last_at_unique(s: Seq<char>, c: char, i: int)
    requires
        -1 <= i < s.len(),
        i >= 0 ==> s[i] == c,
        forall|k: int| i < k < s.len() ==> s[k] != c,
    ensures
        last_at(s, c) == i,
    decreases s.len(),
{
    if s.len() == 0 {
    } else if s[s.len() - 1] == c {
        assert(i == s.len() - 1);
    } else {
        assert(i < s.len() - 1);
        lemma_last_at_unique(s.drop_last(), c, i);
    }
}

/// The text after the last slash of `p`: its file name.
pub open spec fn file_name_of(p: Seq<char>) -> Seq<char> {
    p.subrange(last_at(p, '/') + 1, p.len() as int)
}

/// The file name of `p`: everything after its last slash.
pub fn file_name(p: &String) -> (r: String)
    ensures
        r@ == file_name_of(p@),
{
    let cs = chars_of_str(p.as_str());
    let n = cs.len();
    let mut i: usize = n;
    while i > 0 && cs[i - 1] != '/'
        invariant
            n == cs@.len(),
            cs@ == p@,
            i <= n,
            forall|k: int| i <= k < n ==> cs@[k] != '/',
        decreases i,
    {
        i = i - 1;
    }
    proof {
        lemma_last_at_unique(p@, '/', i - 1);
    }
    let rest = sub_chars(&cs, i, n);
    string_from_chars(&rest)
}

/// Joining distinct names under one directory yields distinct paths.
pub proof fn lemma_joined_injective(c: Seq<char>, a: Seq<char>, b: Seq<char>)
    requires
        a != b,
    ensures
        joined(c, a) != joined(c, b),
{
    if joined(c, a) == joined(c, b) {
        assert(joined(c, a).len() == c.len() + 1 + a.len());
        assert(joined(c, b).len() == c.len() + 1 + b.len());
        assert(a.len() == b.len());
        assert(forall|k: int| 0 <= k < a.len() ==> joined(c, a)[c.len() + 1 + k] == a[k]);
        assert(forall|k: int| 0 <= k < b.len() ==> joined(c, b)[c.len() + 1 + k] == b[k]);
        assert(a =~= b);
    }
}

} // verus!
