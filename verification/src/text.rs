//! Character-level text utilities.
//!
//! All string logic in this crate works over `Vec<char>`, whose view is the
//! same `Seq<char>` as the view of the `String` it came from, so contracts
//! carry over unchanged between the two representations.

use vstd::prelude::*;
use vstd::string::StrSliceExecFns;

verus! {

/// The characters of `s`, as a vector.
pub fn chars_of_str(s: &str) -> (r: Vec<char>)
    ensures
        r@ == s@,
{
    let n = s.unicode_len();
    let mut r: Vec<char> = Vec::new();
    let mut i: usize = 0;
    while i < n
        invariant
            n == s@.len(),
            i <= n,
            r@ == s@.subrange(0, i as int),
        decreases n - i,
    {
        r.push(s.get_char(i));
        i = i + 1;
        proof {
            assert(r@ =~= s@.subrange(0, i as int));
        }
    }
    proof {
        assert(r@ =~= s@);
    }
    r
}

/// Relies on `String`'s `FromIterator<char>` impl: collecting chars yields
/// the string with exactly those chars.
#[verifier::external_body]
pub fn string_from_chars(v: &Vec<char>) -> (r: String)
    ensures
        r@ == v@,
{
    v.iter().collect()
}

/// `needle` occurs in `hay` starting at position `i`.
pub open spec fn occurs_at(hay: Seq<char>, needle: Seq<char>, i: int) -> bool {
    0 <= i && i + needle.len() <= hay.len() && hay.subrange(i, i + needle.len()) == needle
}

/// `needle` occurs somewhere in `hay`.
pub open spec fn has_sub(hay: Seq<char>, needle: Seq<char>) -> bool {
    exists|i: int| occurs_at(hay, needle, i)
}

/// Whether `needle` occurs in `hay` as a contiguous run.
pub fn contains_sub(hay: &Vec<char>, needle: &Vec<char>) -> (r: bool)
    ensures
        r == has_sub(hay@, needle@),
{
    let nlen = needle.len();
    let hlen = hay.len();
    if nlen > hlen {
        proof {
            assert forall|i: int| !occurs_at(hay@, needle@, i) by {}
        }
        return false;
    }
    if nlen == 0 {
        proof {
            assert(hay@.subrange(0, 0) =~= needle@);
            assert(occurs_at(hay@, needle@, 0));
        }
        return true;
    }
    let mut i: usize = 0;
    while i <= hlen - nlen
        invariant
            nlen == needle@.len(),
            hlen == hay@.len(),
            nlen <= hlen,
            1 <= nlen <= hlen,
            i <= hlen - nlen + 1,
            forall|k: int| 0 <= k < i ==> !occurs_at(hay@, needle@, k),
        decreases hlen - nlen - i + 1,
    {
        let mut j: usize = 0;
        let mut matches: bool = true;
        proof {
            assert(hay@.subrange(i as int, i as int) =~= needle@.subrange(0, 0));
        }
        while j < nlen
            invariant
                nlen == needle@.len(),
                hlen == hay@.len(),
                i + nlen <= hlen,
                j <= nlen,
                matches == (hay@.subrange(i as int, i + j) == needle@.subrange(0, j as int)),
            decreases nlen - j,
        {
            proof {
                assert(hay@.subrange(i as int, i + j + 1).drop_last() =~= hay@.subrange(
                    i as int,
                    i + j,
                ));
                assert(needle@.subrange(0, j + 1 as int).drop_last() =~= needle@.subrange(
                    0,
                    j as int,
                ));
            }
            if hay[i + j] != needle[j] {
                matches = false;
                proof {
                    assert(hay@.subrange(i as int, i + j + 1).last() == hay@[i + j]);
                    assert(needle@.subrange(0, j + 1 as int).last() == needle@[j as int]);
                }
            } else {
                proof {
                    if matches {
                        assert(hay@.subrange(i as int, i + j + 1) =~= hay@.subrange(i as int, i + j)
                            .push(hay@[i + j]));
                        assert(needle@.subrange(0, j + 1 as int) =~= needle@.subrange(0, j as int)
                            .push(needle@[j as int]));
                    } else {
                        assert(hay@.subrange(i as int, i + j + 1).drop_last() != needle@.subrange(
                            0,
                            j + 1 as int,
                        ).drop_last());
                    }
                }
            }
            j = j + 1;
        }
        if matches {
            proof {
                assert(needle@.subrange(0, nlen as int) =~= needle@);
                assert(occurs_at(hay@, needle@, i as int));
            }
            return true;
        }
        proof {
            assert(needle@.subrange(0, nlen as int) =~= needle@);
        }
        i = i + 1;
    }
    proof {
        assert forall|k: int| !occurs_at(hay@, needle@, k) by {
            if 0 <= k <= hlen - nlen {
                assert(!occurs_at(hay@, needle@, k));
            }
        }
    }
    false
}

/// Copy of `v[a..b]`.
pub fn sub_chars(v: &Vec<char>, a: usize, b: usize) -> (r: Vec<char>)
    requires
        a <= b <= v@.len(),
    ensures
        r@ == v@.subrange(a as int, b as int),
{
    let mut r: Vec<char> = Vec::new();
    let mut i: usize = a;
    while i < b
        invariant
            a <= i <= b <= v@.len(),
            r@ == v@.subrange(a as int, i as int),
        decreases b - i,
    {
        r.push(v[i]);
        i = i + 1;
        proof {
            assert(r@ =~= v@.subrange(a as int, i as int));
        }
    }
    r
}

/// Append all of `src` to `dst`.
pub fn push_chars(dst: &mut Vec<char>, src: &Vec<char>)
    ensures
        final(dst)@ == old(dst)@ + src@,
{
    let mut i: usize = 0;
    while i < src.len()
        invariant
            i <= src@.len(),
            dst@ == old(dst)@ + src@.subrange(0, i as int),
        decreases src@.len() - i,
    {
        dst.push(src[i]);
        i = i + 1;
        proof {
            assert(dst@ =~= old(dst)@ + src@.subrange(0, i as int));
        }
    }
    proof {
        assert(old(dst)@ + src@.subrange(0, src@.len() as int) =~= old(dst)@ + src@);
    }
}

/// Append the characters of a string slice to `dst`.
pub fn push_str_chars(dst: &mut Vec<char>, src: &str)
    ensures
        final(dst)@ == old(dst)@ + src@,
{
    let cs = chars_of_str(src);
    push_chars(dst, &cs);
}

/// Whether two char vectors hold the same text.
pub fn chars_eq(a: &Vec<char>, b: &Vec<char>) -> (r: bool)
    ensures
        r == (a@ == b@),
{
    if a.len() != b.len() {
        return false;
    }
    let mut i: usize = 0;
    while i < a.len()
        invariant
            a@.len() == b@.len(),
            i <= a@.len(),
            forall|k: int| 0 <= k < i ==> a@[k] == b@[k],
        decreases a@.len() - i,
    {
        if a[i] != b[i] {
            return false;
        }
        i = i + 1;
    }
    proof {
        assert(a@ =~= b@);
    }
    true
}

/// Whether `v` holds exactly the text of `s`.
pub fn chars_eq_str(v: &Vec<char>, s: &str) -> (r: bool)
    ensures
        r == (v@ == s@),
{
    let cs = chars_of_str(s);
    chars_eq(v, &cs)
}

/// Whether two string slices hold the same text.
pub fn str_eq_str(a: &str, b: &str) -> (r: bool)
    ensures
        r == (a@ == b@),
{
    let ac = chars_of_str(a);
    chars_eq_str(&ac, b)
}

/// Whether `v` begins with `prefix`.
pub open spec fn starts_with(v: Seq<char>, prefix: Seq<char>) -> bool {
    v.len() >= prefix.len() && v.subrange(0, prefix.len() as int) == prefix
}

pub fn chars_starts_with(v: &Vec<char>, prefix: &Vec<char>) -> (r: bool)
    ensures
        r == starts_with(v@, prefix@),
{
    if prefix.len() > v.len() {
        return false;
    }
    let mut i: usize = 0;
    while i < prefix.len()
        invariant
            prefix@.len() <= v@.len(),
            i <= prefix@.len(),
            forall|k: int| 0 <= k < i ==> v@[k] == prefix@[k],
        decreases prefix@.len() - i,
    {
        if v[i] != prefix[i] {
            proof {
                assert(v@.subrange(0, prefix@.len() as int)[i as int] == v@[i as int]);
            }
            return false;
        }
        i = i + 1;
    }
    proof {
        assert(v@.subrange(0, prefix@.len() as int) =~= prefix@);
    }
    true
}

/// First position at or after `from` holding `c`, or the length when absent.
pub fn find_char_from(v: &Vec<char>, c: char, from: usize) -> (r: usize)
    requires
        from <= v@.len(),
    ensures
        from <= r <= v@.len(),
        forall|k: int| from <= k < r ==> v@[k] != c,
        r < v@.len() ==> v@[r as int] == c,
{
    let mut i: usize = from;
    while i < v.len()
        invariant
            from <= i <= v@.len(),
            forall|k: int| from <= k < i ==> v@[k] != c,
        decreases v@.len() - i,
    {
        if v[i] == c {
            return i;
        }
        i = i + 1;
    }
    i
}

/// Index of the first `c` in `s`, or `s.len()` when `c` does not occur.
pub open spec fn first_at(s: Seq<char>, c: char) -> int
    decreases s.len(),
{
    if s.len() == 0 {
        0
    } else if s[0] == c {
        0
    } else {
        1 + first_at(s.drop_first(), c)
    }
}

/// `first_at` is the unique index with nothing equal to `c` before it and
/// `c` at it unless it is the length.
pub proof fn lemma_first_at_unique(s: Seq<char>, c: char, i: int)
    requires
        0 <= i <= s.len(),
        forall|k: int| 0 <= k < i ==> s[k] != c,
        i < s.len() ==> s[i] == c,
    ensures
        first_at(s, c) == i,
    decreases s.len(),
{
    if s.len() == 0 {
    } else if s[0] == c {
        assert(i == 0);
    } else {
        assert(i >= 1) by {
            assert(i < s.len() ==> s[i] == c);
        }
        lemma_first_at_unique(s.drop_first(), c, i - 1);
    }
}

/// `p` with one trailing carriage return removed, as the line splitter does
/// for a line that a newline terminated.
pub open spec fn strip_cr(p: Seq<char>) -> Seq<char> {
    if p.len() > 0 && p[p.len() - 1] == '\r' {
        p.drop_last()
    } else {
        p
    }
}

/// The lines of `s`: split at `'\n'`, a carriage return directly before a
/// split point removed, the final piece kept verbatim when nothing
/// terminates it, and no final empty piece for trailing newlines.
pub open spec fn spec_lines(s: Seq<char>) -> Seq<Seq<char>>
    decreases s.len(),
{
    if s.len() == 0 {
        Seq::empty()
    } else {
        let i = first_at(s, '\n');
        if 0 <= i && i < s.len() {
            seq![strip_cr(s.subrange(0, i))] + spec_lines(s.subrange(i + 1, s.len() as int))
        } else {
            seq![s]
        }
    }
}

/// Split `v` into its lines.
pub fn split_lines(v: &Vec<char>) -> (r: Vec<Vec<char>>)
    ensures
        r@.len() == spec_lines(v@).len(),
        forall|k: int| 0 <= k < r@.len() ==> r@[k]@ == spec_lines(v@)[k],
    decreases v@.len(),
{
    let mut r: Vec<Vec<char>> = Vec::new();
    if v.len() == 0 {
        return r;
    }
    let fi = find_char_from(v, '\n', 0);
    proof {
        lemma_first_at_unique(v@, '\n', fi as int);
    }
    if fi == v.len() {
        let whole = sub_chars(v, 0, v.len());
        proof {
            assert(whole@ =~= v@);
        }
        r.push(whole);
        return r;
    }
    let mut piece = sub_chars(v, 0, fi);
    if piece.len() > 0 && piece[piece.len() - 1] == '\r' {
        piece.pop();
        proof {
            assert(piece@ =~= strip_cr(v@.subrange(0, fi as int)));
        }
    }
    proof {
        assert(piece@ =~= strip_cr(v@.subrange(0, fi as int)));
    }
    let rest = sub_chars(v, fi + 1, v.len());
    let mut tail_lines = split_lines(&rest);
    r.push(piece);
    r.append(&mut tail_lines);
    proof {
        let sl = spec_lines(v@);
        assert(sl == seq![strip_cr(v@.subrange(0, fi as int))] + spec_lines(
            v@.subrange(fi + 1, v@.len() as int),
        ));
        assert(forall|k: int| 0 <= k < r@.len() ==> r@[k]@ == sl[k]);
    }
    r
}

/// The pieces of `ls` joined with the single character `sep` between them.
pub open spec fn join_sep(ls: Seq<Seq<char>>, sep: char) -> Seq<char>
    decreases ls.len(),
{
    if ls.len() == 0 {
        Seq::empty()
    } else if ls.len() == 1 {
        ls[0]
    } else {
        ls[0] + seq![sep] + join_sep(ls.drop_first(), sep)
    }
}

pub proof fn lemma_join_sep_snoc(ls: Seq<Seq<char>>, z: Seq<char>, sep: char)
    ensures
        ls.len() == 0 ==> join_sep(ls.push(z), sep) == z,
        ls.len() > 0 ==> join_sep(ls.push(z), sep) == join_sep(ls, sep) + seq![sep] + z,
    decreases ls.len(),
{
    if ls.len() == 0 {
        assert(ls.push(z)[0] == z);
    } else {
        lemma_join_sep_snoc(ls.drop_first(), z, sep);
        assert(ls.push(z).drop_first() =~= ls.drop_first().push(z));
        if ls.len() == 1 {
            assert(join_sep(ls.push(z), sep) =~= join_sep(ls, sep) + seq![sep] + z);
        } else {
            assert(join_sep(ls.push(z), sep) =~= join_sep(ls, sep) + seq![sep] + z);
        }
    }
}

/// Join `ls` with `sep` between the pieces.
pub fn join_with(ls: &Vec<Vec<char>>, sep: char) -> (r: Vec<char>)
    ensures
        r@ == join_sep(ls.deep_view(), sep),
{
    let mut r: Vec<char> = Vec::new();
    let mut i: usize = 0;
    while i < ls.len()
        invariant
            i <= ls@.len(),
            ls.deep_view().len() == ls@.len(),
            forall|k: int| 0 <= k < ls@.len() ==> ls.deep_view()[k] == ls@[k]@,
            r@ == join_sep(ls.deep_view().subrange(0, i as int), sep),
        decreases ls@.len() - i,
    {
        if i > 0 {
            r.push(sep);
        }
        push_chars(&mut r, &ls[i]);
        proof {
            lemma_join_sep_snoc(ls.deep_view().subrange(0, i as int), ls.deep_view()[i as int], sep);
            assert(ls.deep_view().subrange(0, i as int).push(ls.deep_view()[i as int])
                =~= ls.deep_view().subrange(0, i + 1));
            assert(r@ =~= join_sep(ls.deep_view().subrange(0, i + 1), sep));
        }
        i = i + 1;
    }
    proof {
        assert(ls.deep_view().subrange(0, ls@.len() as int) =~= ls.deep_view());
    }
    r
}

/// An ASCII whitespace character, as the trimmer understands it.
pub open spec fn is_space(c: char) -> bool {
    c == ' ' || c == '\t' || c == '\r' || c == '\n'
}

/// `s` without leading whitespace.
pub open spec fn trim_front(s: Seq<char>) -> Seq<char>
    decreases s.len(),
{
    if s.len() > 0 && is_space(s[0]) {
        trim_front(s.drop_first())
    } else {
        s
    }
}

/// `s` without trailing whitespace.
pub open spec fn trim_back(s: Seq<char>) -> Seq<char>
    decreases s.len(),
{
    if s.len() > 0 && is_space(s[s.len() - 1]) {
        trim_back(s.drop_last())
    } else {
        s
    }
}

/// `s` without leading and trailing whitespace.
pub open spec fn spec_trim(s: Seq<char>) -> Seq<char> {
    trim_back(trim_front(s))
}

proof fn lemma_trim_front_range(s: Seq<char>, a: int)
    requires
        0 <= a <= s.len(),
        forall|k: int| 0 <= k < a ==> is_space(s[k]),
        a < s.len() ==> !is_space(s[a]),
    ensures
        trim_front(s) == s.subrange(a, s.len() as int),
    decreases s.len(),
{
    if s.len() > 0 && is_space(s[0]) {
        assert(a >= 1);
        lemma_trim_front_range(s.drop_first(), a - 1);
        assert(s.drop_first().subrange(a - 1, s.drop_first().len() as int) =~= s.subrange(
            a,
            s.len() as int,
        ));
    } else {
        assert(a == 0);
        assert(s.subrange(0, s.len() as int) =~= s);
    }
}

proof fn lemma_trim_back_range(s: Seq<char>, b: int)
    requires
        0 <= b <= s.len(),
        forall|k: int| b <= k < s.len() ==> is_space(s[k]),
        b > 0 ==> !is_space(s[b - 1]),
    ensures
        trim_back(s) == s.subrange(0, b),
    decreases s.len(),
{
    if s.len() > 0 && is_space(s[s.len() - 1]) {
        assert(b <= s.len() - 1);
        lemma_trim_back_range(s.drop_last(), b);
        assert(s.drop_last().subrange(0, b) =~= s.subrange(0, b));
    } else {
        assert(b == s.len());
        assert(s.subrange(0, s.len() as int) =~= s);
    }
}

/// Copy of `v` without leading and trailing whitespace.
pub fn trim_chars(v: &Vec<char>) -> (r: Vec<char>)
    ensures
        r@ == spec_trim(v@),
{
    let n = v.len();
    let mut a: usize = 0;
    while a < n && (v[a] == ' ' || v[a] == '\t' || v[a] == '\r' || v[a] == '\n')
        invariant
            n == v@.len(),
            a <= n,
            forall|k: int| 0 <= k < a ==> is_space(v@[k]),
        decreases n - a,
    {
        a = a + 1;
    }
    let mut b: usize = n;
    while b > a && (v[b - 1] == ' ' || v[b - 1] == '\t' || v[b - 1] == '\r' || v[b - 1] == '\n')
        invariant
            n == v@.len(),
            a <= b <= n,
            forall|k: int| 0 <= k < a ==> is_space(v@[k]),
            a < n ==> !is_space(v@[a as int]),
            forall|k: int| b <= k < n ==> is_space(v@[k]),
        decreases b,
    {
        b = b - 1;
    }
    let r = sub_chars(v, a, b);
    proof {
        lemma_trim_front_range(v@, a as int);
        let t = v@.subrange(a as int, n as int);
        if a == b {
            lemma_trim_back_range(t, 0);
            assert(r@ =~= t.subrange(0, 0));
        } else {
            assert(!is_space(t[b - a - 1]));
            assert(forall|k: int| b - a <= k < t.len() ==> is_space(t[k]));
            lemma_trim_back_range(t, b - a);
            assert(r@ =~= t.subrange(0, b - a));
        }
    }
    r
}

/// `s` without any occurrence of `c`.
pub open spec fn remove_all(s: Seq<char>, c: char) -> Seq<char>
    decreases s.len(),
{
    if s.len() == 0 {
        Seq::empty()
    } else if s[0] == c {
        remove_all(s.drop_first(), c)
    } else {
        seq![s[0]] + remove_all(s.drop_first(), c)
    }
}

proof fn lemma_remove_all_snoc(s: Seq<char>, z: char, c: char)
    ensures
        z == c ==> remove_all(s.push(z), c) == remove_all(s, c),
        z != c ==> remove_all(s.push(z), c) == remove_all(s, c).push(z),
    decreases s.len(),
{
    if s.len() == 0 {
        assert(s.push(z)[0] == z);
        assert(s.push(z).drop_first() =~= Seq::<char>::empty());
        assert(remove_all(Seq::<char>::empty(), c) =~= Seq::<char>::empty());
        if z != c {
            assert(remove_all(s.push(z), c) =~= remove_all(s, c).push(z));
        }
    } else {
        lemma_remove_all_snoc(s.drop_first(), z, c);
        assert(s.push(z).drop_first() =~= s.drop_first().push(z));
        if z == c {
            assert(remove_all(s.push(z), c) =~= remove_all(s, c));
        } else {
            assert(remove_all(s.push(z), c) =~= remove_all(s, c).push(z));
        }
    }
}

/// Copy of `v` without any occurrence of `c`.
pub fn remove_char(v: &Vec<char>, c: char) -> (r: Vec<char>)
    ensures
        r@ == remove_all(v@, c),
{
    let mut r: Vec<char> = Vec::new();
    let mut i: usize = 0;
    while i < v.len()
        invariant
            i <= v@.len(),
            r@ == remove_all(v@.subrange(0, i as int), c),
        decreases v@.len() - i,
    {
        proof {
            lemma_remove_all_snoc(v@.subrange(0, i as int), v@[i as int], c);
            assert(v@.subrange(0, i as int).push(v@[i as int]) =~= v@.subrange(0, i + 1));
        }
        if v[i] != c {
            r.push(v[i]);
        }
        i = i + 1;
    }
    proof {
        assert(v@.subrange(0, v@.len() as int) =~= v@);
    }
    r
}

/// The views of a vector of strings, each as a vector of chars.
pub fn lines_to_chars(lines: &Vec<String>) -> (r: Vec<Vec<char>>)
    ensures
        r@.len() == lines@.len(),
        forall|k: int| 0 <= k < lines@.len() ==> r@[k]@ == lines@[k]@,
{
    let mut r: Vec<Vec<char>> = Vec::new();
    let mut i: usize = 0;
    while i < lines.len()
        invariant
            i <= lines@.len(),
            r@.len() == i,
            forall|k: int| 0 <= k < i ==> r@[k]@ == lines@[k]@,
        decreases lines@.len() - i,
    {
        r.push(chars_of_str(lines[i].as_str()));
        i = i + 1;
    }
    r
}

/// The decimal digit character for `n`.
pub open spec fn dec_digit(n: int) -> char {
    if n == 0 {
        '0'
    } else if n == 1 {
        '1'
    } else if n == 2 {
        '2'
    } else if n == 3 {
        '3'
    } else if n == 4 {
        '4'
    } else if n == 5 {
        '5'
    } else if n == 6 {
        '6'
    } else if n == 7 {
        '7'
    } else if n == 8 {
        '8'
    } else {
        '9'
    }
}

/// The decimal digits of `n`, most significant first.
pub open spec fn dec_digits(n: int) -> Seq<char>
    decreases n,
{
    if n < 10 {
        seq![dec_digit(n)]
    } else {
        dec_digits(n / 10).push(dec_digit(n % 10))
    }
}

/// Append the decimal rendering of `n` to `out`.
pub fn push_dec(out: &mut Vec<char>, n: u64)
    ensures
        final(out)@ == old(out)@ + dec_digits(n as int),
    decreases n,
{
    if n < 10 {
        let d: u64 = n;
        let c: char = if d == 0 {
            '0'
        } else if d == 1 {
            '1'
        } else if d == 2 {
            '2'
        } else if d == 3 {
            '3'
        } else if d == 4 {
            '4'
        } else if d == 5 {
            '5'
        } else if d == 6 {
            '6'
        } else if d == 7 {
            '7'
        } else if d == 8 {
            '8'
        } else {
            '9'
        };
        out.push(c);
        proof {
            assert(out@ =~= old(out)@ + dec_digits(n as int));
        }
    } else {
        push_dec(out, n / 10);
        let d: u64 = n % 10;
        let c: char = if d == 0 {
            '0'
        } else if d == 1 {
            '1'
        } else if d == 2 {
            '2'
        } else if d == 3 {
            '3'
        } else if d == 4 {
            '4'
        } else if d == 5 {
            '5'
        } else if d == 6 {
            '6'
        } else if d == 7 {
            '7'
        } else if d == 8 {
            '8'
        } else {
            '9'
        };
        out.push(c);
        proof {
            assert(out@ =~= old(out)@ + dec_digits(n as int));
        }
    }
}

/// Every piece of a joined text is at most as long as the joined text.
pub proof fn lemma_join_sep_piece_len(ls: Seq<Seq<char>>, sep: char, k: int)
    requires
        0 <= k < ls.len(),
    ensures
        join_sep(ls, sep).len() >= ls[k].len(),
    decreases ls.len(),
{
    if ls.len() == 1 {
    } else {
        if k == 0 {
        } else {
            lemma_join_sep_piece_len(ls.drop_first(), sep, k - 1);
        }
    }
}

/// Every piece of `ls`, each followed by one `sep`: the shape of a list
/// that is built by appending `piece + sep` per element, trailing
/// separator included.
pub open spec fn join_trailing(ls: Seq<Seq<char>>, sep: char) -> Seq<char>
    decreases ls.len(),
{
    if ls.len() == 0 {
        Seq::empty()
    } else {
        ls[0] + seq![sep] + join_trailing(ls.drop_first(), sep)
    }
}

pub proof fn lemma_join_trailing_snoc(ls: Seq<Seq<char>>, z: Seq<char>, sep: char)
    ensures
        join_trailing(ls.push(z), sep) == join_trailing(ls, sep) + z + seq![sep],
    decreases ls.len(),
{
    if ls.len() == 0 {
        assert(ls.push(z)[0] == z);
        assert(ls.push(z).drop_first() =~= Seq::<Seq<char>>::empty());
        assert(join_trailing(Seq::<Seq<char>>::empty(), sep) =~= Seq::<char>::empty());
        assert(join_trailing(ls.push(z), sep) =~= join_trailing(ls, sep) + z + seq![sep]);
    } else {
        lemma_join_trailing_snoc(ls.drop_first(), z, sep);
        assert(ls.push(z).drop_first() =~= ls.drop_first().push(z));
        assert(join_trailing(ls.push(z), sep) =~= join_trailing(ls, sep) + z + seq![sep]);
    }
}

/// Join `ls` with one `sep` after every piece.
pub fn join_with_trailing(ls: &Vec<String>, sep: char) -> (r: Vec<char>)
    ensures
        r@ == join_trailing(ls.deep_view(), sep),
{
    let mut r: Vec<char> = Vec::new();
    let mut i: usize = 0;
    while i < ls.len()
        invariant
            i <= ls@.len(),
            ls.deep_view().len() == ls@.len(),
            forall|k: int| 0 <= k < ls@.len() ==> ls.deep_view()[k] == ls@[k]@,
            r@ == join_trailing(ls.deep_view().subrange(0, i as int), sep),
        decreases ls@.len() - i,
    {
        push_str_chars(&mut r, ls[i].as_str());
        r.push(sep);
        proof {
            lemma_join_trailing_snoc(
                ls.deep_view().subrange(0, i as int),
                ls.deep_view()[i as int],
                sep,
            );
            assert(ls.deep_view().subrange(0, i as int).push(ls.deep_view()[i as int])
                =~= ls.deep_view().subrange(0, i + 1));
            assert(r@ =~= join_trailing(ls.deep_view().subrange(0, i + 1), sep));
        }
        i = i + 1;
    }
    proof {
        assert(ls.deep_view().subrange(0, ls@.len() as int) =~= ls.deep_view());
    }
    r
}

/// Join `ls` with `sep` between the pieces, as a string.
pub fn join_strings(ls: &Vec<String>, sep: char) -> (r: String)
    ensures
        r@ == join_sep(ls.deep_view(), sep),
{
    let cs = lines_to_chars(ls);
    proof {
        assert(cs.deep_view() =~~= ls.deep_view());
    }
    let joined = join_with(&cs, sep);
    string_from_chars(&joined)
}

/// The pieces of `s`, split at every `c`; always at least one piece.
pub open spec fn split_char(s: Seq<char>, c: char) -> Seq<Seq<char>>
    decreases s.len(),
{
    let i = first_at(s, c);
    if 0 <= i && i < s.len() {
        seq![s.subrange(0, i)] + split_char(s.subrange(i + 1, s.len() as int), c)
    } else {
        seq![s]
    }
}

/// Split `v` at every `c`.
pub fn split_chars_at(v: &Vec<char>, c: char) -> (r: Vec<Vec<char>>)
    ensures
        r@.len() == split_char(v@, c).len(),
        forall|k: int| 0 <= k < r@.len() ==> r@[k]@ == split_char(v@, c)[k],
    decreases v@.len(),
{
    let mut r: Vec<Vec<char>> = Vec::new();
    let fi = find_char_from(v, c, 0);
    proof {
        lemma_first_at_unique(v@, c, fi as int);
    }
    if fi == v.len() {
        let whole = sub_chars(v, 0, v.len());
        proof {
            assert(whole@ =~= v@);
        }
        r.push(whole);
        return r;
    }
    let piece = sub_chars(v, 0, fi);
    let rest = sub_chars(v, fi + 1, v.len());
    let mut tail_pieces = split_chars_at(&rest, c);
    r.push(piece);
    r.append(&mut tail_pieces);
    proof {
        let sl = split_char(v@, c);
        assert(sl == seq![v@.subrange(0, fi as int)] + split_char(
            v@.subrange(fi + 1, v@.len() as int),
            c,
        ));
        assert(forall|k: int| 0 <= k < r@.len() ==> r@[k]@ == sl[k]);
    }
    r
}

/// `s` with every occurrence of the non-empty `pat` removed, scanning
/// left to right.
pub open spec fn removed_all(s: Seq<char>, pat: Seq<char>) -> Seq<char>
    decreases s.len(),
        when pat.len() > 0
{
    if s.len() == 0 {
        Seq::empty()
    } else if starts_with(s, pat) {
        removed_all(s.skip(pat.len() as int), pat)
    } else {
        seq![s[0]] + removed_all(s.drop_first(), pat)
    }
}

/// Whether `pat` occurs in `v` at position `i`.
fn matches_at(v: &Vec<char>, i: usize, pat: &Vec<char>) -> (r: bool)
    requires
        i <= v@.len(),
    ensures
        r == occurs_at(v@, pat@, i as int),
{
    if pat.len() > v.len() - i {
        proof {
            assert(!occurs_at(v@, pat@, i as int));
        }
        return false;
    }
    let mut j: usize = 0;
    while j < pat.len()
        invariant
            i + pat@.len() <= v@.len(),
            v@.len() <= usize::MAX,
            j <= pat@.len(),
            forall|k: int| 0 <= k < j ==> v@[i + k] == pat@[k],
        decreases pat@.len() - j,
    {
        if v[i + j] != pat[j] {
            proof {
                assert(v@.subrange(i as int, i + pat@.len())[j as int] == v@[i + j]);
            }
            return false;
        }
        j = j + 1;
    }
    proof {
        assert(v@.subrange(i as int, i + pat@.len()) =~= pat@);
    }
    true
}

/// Copy of `v` with every occurrence of the non-empty `pat` removed.
pub fn remove_sub(v: &Vec<char>, pat: &Vec<char>) -> (r: Vec<char>)
    requires
        pat@.len() > 0,
    ensures
        r@ == removed_all(v@, pat@),
{
    let mut out: Vec<char> = Vec::new();
    let mut i: usize = 0;
    proof {
        assert(v@.skip(0) =~= v@);
    }
    while i < v.len()
        invariant
            pat@.len() > 0,
            i <= v@.len(),
            removed_all(v@, pat@) == out@ + removed_all(v@.skip(i as int), pat@),
        decreases v@.len() - i,
    {
        let ghost suf = v@.skip(i as int);
        if matches_at(v, i, pat) {
            proof {
                assert(suf.subrange(0, pat@.len() as int) =~= v@.subrange(
                    i as int,
                    i + pat@.len(),
                ));
                assert(starts_with(suf, pat@));
                assert(suf.skip(pat@.len() as int) =~= v@.skip(i + pat@.len()));
            }
            i = i + pat.len();
        } else {
            proof {
                if suf.len() >= pat@.len() {
                    assert(suf.subrange(0, pat@.len() as int) =~= v@.subrange(
                        i as int,
                        i + pat@.len(),
                    ));
                }
                assert(!starts_with(suf, pat@));
                assert(suf[0] == v@[i as int]);
                assert(suf.drop_first() =~= v@.skip(i + 1));
            }
            out.push(v[i]);
            i = i + 1;
        }
    }
    proof {
        assert(v@.skip(v@.len() as int) =~= Seq::<char>::empty());
        assert(removed_all(Seq::<char>::empty(), pat@) =~= Seq::<char>::empty());
        assert(out@ + Seq::<char>::empty() =~= out@);
    }
    out
}

} // verus!
