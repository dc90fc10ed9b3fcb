//! The sentinel-framed result channel.
//!
//! A child process embeds its JSON result between two marker lines in
//! otherwise free-form output. Extraction walks the captured lines in
//! order, skips to the first line holding the opening marker, and collects
//! every following line up to but not including the first line holding the
//! closing marker. When no opening marker occurs the payload is empty;
//! when several frames occur only the first is read.

use vstd::prelude::*;
use crate::text::{chars_of_str, contains_sub, has_sub, join_sep, join_with, lines_to_chars,
    string_from_chars, sub_chars};

verus! {

/// The marker lines of the Python result channel.
pub open spec fn spec_code_result_open() -> Seq<char> {
    "<shinkai-code-result>"@
}

pub open spec fn spec_code_result_close() -> Seq<char> {
    "</shinkai-code-result>"@
}

/// The first index at or after `from` of a line that holds `m`, or the
/// number of lines when no line from there on holds it.
pub open spec fn find_from(lines: Seq<Seq<char>>, m: Seq<char>, from: int) -> int
    decreases lines.len() - from,
{
    if !(0 <= from < lines.len()) {
        lines.len() as int
    } else if has_sub(lines[from], m) {
        from
    } else {
        find_from(lines, m, from + 1)
    }
}

/// `find_from` is the unique index at or after `from` with no marked line
/// before it, holding the marker unless it is the line count.
pub proof fn lemma_find_from_unique(lines: Seq<Seq<char>>, m: Seq<char>, from: int, i: int)
    requires
        0 <= from <= i <= lines.len(),
        forall|k: int| from <= k < i ==> !has_sub(#[trigger] lines[k], m),
        i < lines.len() ==> has_sub(lines[i], m),
    ensures
        find_from(lines, m, from) == i,
    decreases i - from,
{
    if from == i {
    } else {
        assert(!has_sub(lines[from], m));
        lemma_find_from_unique(lines, m, from + 1, i);
    }
}

/// The payload lines framed by the first `open` marker line and the next
/// `close` marker line.
pub open spec fn extract_between(lines: Seq<Seq<char>>, open: Seq<char>, close: Seq<char>) -> Seq<
    Seq<char>,
> {
    let i = find_from(lines, open, 0);
    if i == lines.len() {
        Seq::empty()
    } else {
        lines.subrange(i + 1, find_from(lines, close, i + 1))
    }
}

/// The extracted payload of a captured output, joined with newlines: the
/// text the result protocol parses as JSON.
pub open spec fn extracted_text(lines: Seq<Seq<char>>, open: Seq<char>, close: Seq<char>) -> Seq<
    char,
> {
    join_sep(extract_between(lines, open, close), '\n')
}

/// Extract the framed payload of pre-split lines and join it with
/// newlines.
fn extract_core(
    lc: &Vec<Vec<char>>,
    oc: &Vec<char>,
    cc: &Vec<char>,
    Ghost(lv): Ghost<Seq<Seq<char>>>,
) -> (r: String)
    requires
        lv.len() == lc@.len(),
        forall|k: int| 0 <= k < lv.len() ==> lv[k] == (#[trigger] lc@[k])@,
    ensures
        r@ == extracted_text(lv, oc@, cc@),
{
    let n = lc.len();
    let mut i: usize = 0;
    while i < n && !contains_sub(&lc[i], oc)
        invariant
            n == lv.len(),
            lc@.len() == lv.len(),
            forall|k: int| 0 <= k < lv.len() ==> lv[k] == (#[trigger] lc@[k])@,
            i <= n,
            forall|k: int| 0 <= k < i ==> !has_sub(#[trigger] lv[k], oc@),
        decreases n - i,
    {
        i = i + 1;
    }
    proof {
        lemma_find_from_unique(lv, oc@, 0, i as int);
    }
    if i == n {
        let r = String::new();
        proof {
            assert(extract_between(lv, oc@, cc@) =~= Seq::<Seq<char>>::empty());
        }
        return r;
    }
    let mut j: usize = i + 1;
    let mut payload: Vec<Vec<char>> = Vec::new();
    while j < n && !contains_sub(&lc[j], cc)
        invariant
            n == lv.len(),
            lc@.len() == lv.len(),
            forall|k: int| 0 <= k < lv.len() ==> lv[k] == (#[trigger] lc@[k])@,
            i < j <= n,
            i < n,
            has_sub(lv[i as int], oc@),
            forall|k: int| 0 <= k < i ==> !has_sub(#[trigger] lv[k], oc@),
            forall|k: int| i + 1 <= k < j ==> !has_sub(#[trigger] lv[k], cc@),
            payload@.len() == j - i - 1,
            forall|k: int| 0 <= k < payload@.len() ==> payload@[k]@ == lv[i + 1 + k],
        decreases n - j,
    {
        let line = sub_chars(&lc[j], 0, lc[j].len());
        proof {
            assert(line@ =~= lc@[j as int]@);
        }
        payload.push(line);
        j = j + 1;
    }
    proof {
        lemma_find_from_unique(lv, oc@, 0, i as int);
        lemma_find_from_unique(lv, cc@, i + 1, j as int);
        assert(payload.deep_view() =~= extract_between(lv, oc@, cc@)) by {
            assert(payload.deep_view().len() == payload@.len());
            assert(forall|k: int|
                0 <= k < payload@.len() ==> payload.deep_view()[k] == payload@[k]@);
            assert(extract_between(lv, oc@, cc@) =~= lv.subrange(i + 1, j as int));
        }
    }
    let joined = join_with(&payload, '\n');
    string_from_chars(&joined)
}

/// Extract the sentinel-framed payload of captured output lines and join
/// it with newlines.
pub fn extract_result_text(lines: &Vec<String>, open: &str, close: &str) -> (r: String)
    ensures
        r@ == extracted_text(lines.deep_view(), open@, close@),
{
    let lc = lines_to_chars(lines);
    let oc = chars_of_str(open);
    let cc = chars_of_str(close);
    let ghost lv = lines.deep_view();
    proof {
        assert(lv.len() == lc@.len());
        assert(forall|k: int| 0 <= k < lv.len() ==> lv[k] == (#[trigger] lc@[k])@);
    }
    extract_core(&lc, &oc, &cc, Ghost(lv))
}

/// Extract the sentinel-framed payload of one captured output text,
/// splitting it into lines first.
pub fn extract_result_text_str(output: &str, open: &str, close: &str) -> (r: String)
    ensures
        r@ == extracted_text(crate::text::spec_lines(output@), open@, close@),
{
    let cs = chars_of_str(output);
    let lc = crate::text::split_lines(&cs);
    let oc = chars_of_str(open);
    let cc = chars_of_str(close);
    let ghost lv = crate::text::spec_lines(output@);
    proof {
        assert(lv.len() == lc@.len());
        assert(forall|k: int| 0 <= k < lv.len() ==> lv[k] == (#[trigger] lc@[k])@);
    }
    extract_core(&lc, &oc, &cc, Ghost(lv))
}

/// The law of the result channel: for output framed as the harness frames
/// it — any noise, then a line holding the opening marker, then the payload,
/// then a line holding the closing marker, then anything at all — extraction
/// recovers exactly the payload. The lines before the frame must not hold
/// the opening marker and the payload must not hold the closing marker;
/// everything after the closing line is ignored, so a second frame there
/// changes nothing.
pub proof fn lemma_extract_framed(
    pre: Seq<Seq<char>>,
    open_line: Seq<char>,
    payload: Seq<Seq<char>>,
    close_line: Seq<char>,
    post: Seq<Seq<char>>,
    open: Seq<char>,
    close: Seq<char>,
)
    requires
        forall|k: int| 0 <= k < pre.len() ==> !has_sub(#[trigger] pre[k], open),
        has_sub(open_line, open),
        forall|k: int| 0 <= k < payload.len() ==> !has_sub(#[trigger] payload[k], close),
        has_sub(close_line, close),
    ensures
        extract_between(
            pre + seq![open_line] + payload + seq![close_line] + post,
            open,
            close,
        ) == payload,
{
    let lines = pre + seq![open_line] + payload + seq![close_line] + post;
    let i = pre.len() as int;
    assert(lines[i] == open_line);
    assert forall|k: int| 0 <= k < i implies !has_sub(#[trigger] lines[k], open) by {
        assert(lines[k] == pre[k]);
    }
    lemma_find_from_unique(lines, open, 0, i);
    let j = i + 1 + payload.len();
    assert(lines[j] == close_line);
    assert forall|k: int| i + 1 <= k < j implies !has_sub(#[trigger] lines[k], close) by {
        assert(lines[k] == payload[k - i - 1]);
    }
    lemma_find_from_unique(lines, close, i + 1, j);
    assert(lines.subrange(i + 1, j) =~= payload);
}

} // verus!
