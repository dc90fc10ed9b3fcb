//! Project manifest synthesis for the Python backend.
//!
//! The entrypoint may carry an inline metadata block between a line
//! reading `# /// script` and a line reading `# ///`. Its lines are
//! unprefixed of `#` and read as manifest assignments; the dependencies
//! they declare are appended to the baseline manifest (which pins the
//! serialization shim's own dependency), and an inline `requires-python`
//! overrides the baseline's interpreter bound. The merged manifest is
//! written to `pyproject.toml` in the bundle and the block is removed
//! from the entrypoint.
//!
//! The assignments understood are one-line forms: `dependencies = [...]`
//! with quoted items, and `requires-python = "..."`. Any other assignment
//! is carried without effect; anything else in the block is malformed.

use vstd::prelude::*;
use crate::code_files::{lookup, store, CodeFiles};
use crate::execution_error::{ErrorKind, ExecutionError};
use crate::text::{chars_eq_str, chars_of_str, find_char_from, first_at, join_sep, join_with,
    lemma_first_at_unique, push_str_chars, remove_all, remove_char, spec_lines,
    spec_trim, split_char, split_chars_at, split_lines, string_from_chars, sub_chars, trim_chars};
use vstd::string::StringExecFns;

verus! {

/// First line at or after `from` whose trimmed text is `m`, or the line
/// count when none is.
pub open spec fn find_trim_eq(lines: Seq<Seq<char>>, m: Seq<char>, from: int) -> int
    decreases lines.len() - from,
{
    if !(0 <= from < lines.len()) {
        lines.len() as int
    } else if spec_trim(lines[from]) == m {
        from
    } else {
        find_trim_eq(lines, m, from + 1)
    }
}

pub proof fn lemma_find_trim_eq_unique(lines: Seq<Seq<char>>, m: Seq<char>, from: int, i: int)
    requires
        0 <= from <= i <= lines.len(),
        forall|k: int| from <= k < i ==> spec_trim(#[trigger] lines[k]) != m,
        i < lines.len() ==> spec_trim(lines[i]) == m,
    ensures
        find_trim_eq(lines, m, from) == i,
    decreases i - from,
{
    if from == i {
    } else {
        assert(spec_trim(lines[from]) != m);
        lemma_find_trim_eq_unique(lines, m, from + 1, i);
    }
}

/// A block line as the parser sees it: trimmed, unprefixed of every `#`,
/// trimmed again.
pub open spec fn unprefixed(l: Seq<char>) -> Seq<char> {
    spec_trim(remove_all(spec_trim(l), '#'))
}

/// `s` is one complete quoted string, with no inner quote.
pub open spec fn quoted(s: Seq<char>) -> bool {
    s.len() >= 2 && s[0] == '"' && s[s.len() - 1] == '"' && forall|k: int|
        1 <= k < s.len() - 1 ==> s[k] != '"'
}

/// The text inside the quotes.
pub open spec fn unquoted(s: Seq<char>) -> Seq<char> {
    s.subrange(1, s.len() - 1)
}

/// The comma-separated pieces of a list body, each trimmed, a trailing
/// comma allowed.
pub open spec fn list_items(inner: Seq<char>) -> Seq<Seq<char>> {
    let raw = split_char(inner, ',').map_values(|p: Seq<char>| spec_trim(p));
    if raw.len() > 0 && raw[raw.len() - 1].len() == 0 {
        raw.drop_last()
    } else {
        raw
    }
}

/// The position of the assignment's `=`, at the line's length when there
/// is none.
pub open spec fn eq_pos(t: Seq<char>) -> int {
    first_at(t, '=')
}

pub open spec fn line_key(t: Seq<char>) -> Seq<char> {
    if 0 <= eq_pos(t) <= t.len() {
        spec_trim(t.subrange(0, eq_pos(t)))
    } else {
        t
    }
}

pub open spec fn line_val(t: Seq<char>) -> Seq<char> {
    if 0 <= eq_pos(t) < t.len() {
        spec_trim(t.subrange(eq_pos(t) + 1, t.len() as int))
    } else {
        Seq::empty()
    }
}

/// A well-formed one-line dependencies assignment.
pub open spec fn dep_line(t: Seq<char>) -> bool {
    let v = line_val(t);
    &&& 0 <= eq_pos(t) < t.len()
    &&& line_key(t) == "dependencies"@
    &&& v.len() >= 2
    &&& v[0] == '['
    &&& v[v.len() - 1] == ']'
    &&& forall|k: int| 0 <= k < list_items(v.subrange(1, v.len() - 1)).len() ==> quoted(
        #[trigger] list_items(v.subrange(1, v.len() - 1))[k],
    )
}

/// The dependencies such a line declares.
pub open spec fn dep_line_items(t: Seq<char>) -> Seq<Seq<char>> {
    let v = line_val(t);
    list_items(v.subrange(1, v.len() - 1)).map_values(|s: Seq<char>| unquoted(s))
}

/// A well-formed interpreter-bound assignment.
pub open spec fn req_line(t: Seq<char>) -> bool {
    0 <= eq_pos(t) < t.len() && line_key(t) == "requires-python"@ && quoted(line_val(t))
}

pub open spec fn req_line_value(t: Seq<char>) -> Seq<char> {
    unquoted(line_val(t))
}

/// An assignment the synthesis carries without effect.
pub open spec fn other_line(t: Seq<char>) -> bool {
    0 <= eq_pos(t) < t.len() && line_key(t) != "dependencies"@ && line_key(t)
        != "requires-python"@
}

/// A block line the synthesis accepts.
pub open spec fn line_ok(t: Seq<char>) -> bool {
    t.len() == 0 || dep_line(t) || req_line(t) || other_line(t)
}

/// Every line of the block is acceptable.
pub open spec fn blk_ok(ls: Seq<Seq<char>>) -> bool {
    forall|k: int| 0 <= k < ls.len() ==> line_ok(#[trigger] ls[k])
}

/// All dependencies the block declares, in order.
pub open spec fn blk_deps(ls: Seq<Seq<char>>) -> Seq<Seq<char>>
    decreases ls.len(),
{
    if ls.len() == 0 {
        Seq::empty()
    } else {
        (if dep_line(ls[0]) {
            dep_line_items(ls[0])
        } else {
            Seq::empty()
        }) + blk_deps(ls.drop_first())
    }
}

/// The last interpreter bound the block declares, if any.
pub open spec fn blk_req(ls: Seq<Seq<char>>) -> Option<Seq<char>>
    decreases ls.len(),
{
    if ls.len() == 0 {
        Option::None
    } else if req_line(ls.last()) {
        Option::Some(req_line_value(ls.last()))
    } else {
        blk_req(ls.drop_last())
    }
}

pub proof fn lemma_blk_deps_snoc(ls: Seq<Seq<char>>, z: Seq<char>)
    ensures
        blk_deps(ls.push(z)) == blk_deps(ls) + (if dep_line(z) {
            dep_line_items(z)
        } else {
            Seq::<Seq<char>>::empty()
        }),
    decreases ls.len(),
{
    if ls.len() == 0 {
        assert(ls.push(z)[0] == z);
        assert(ls.push(z).drop_first() =~= Seq::<Seq<char>>::empty());
        assert(blk_deps(Seq::<Seq<char>>::empty()) =~= Seq::<Seq<char>>::empty());
        assert(blk_deps(ls.push(z)) =~= blk_deps(ls) + (if dep_line(z) {
            dep_line_items(z)
        } else {
            Seq::<Seq<char>>::empty()
        }));
    } else {
        lemma_blk_deps_snoc(ls.drop_first(), z);
        assert(ls.push(z)[0] == ls[0]);
        assert(ls.push(z).drop_first() =~= ls.drop_first().push(z));
        assert(blk_deps(ls.push(z)) =~= blk_deps(ls) + (if dep_line(z) {
            dep_line_items(z)
        } else {
            Seq::<Seq<char>>::empty()
        }));
    }
}

/// One parsed block line.
pub enum LineParse {
    EmptyLine,
    DepLine(Vec<String>),
    ReqLine(String),
    OtherLine,
    BadLine,
}

/// Whether `item` is one complete quoted string with no inner quote.
fn check_quoted(item: &Vec<char>) -> (r: bool)
    ensures
        r == quoted(item@),
{
    if item.len() < 2 || item[0] != '"' || item[item.len() - 1] != '"' {
        return false;
    }
    let n = item.len();
    let mut q: usize = 1;
    while q < n - 1
        invariant
            n == item@.len(),
            n >= 2,
            1 <= q <= n - 1,
            item@[0] == '"' && item@[n - 1] == '"',
            forall|k: int| 1 <= k < q ==> item@[k] != '"',
        decreases n - q,
    {
        if item[q] == '"' {
            return false;
        }
        q = q + 1;
    }
    true
}

/// Classify one processed block line and extract what it declares.
pub fn classify_line(t: &Vec<char>) -> (r: LineParse)
    ensures
        t@.len() == 0 ==> r is EmptyLine,
        dep_line(t@) ==> r is DepLine && r->DepLine_0@.len() == dep_line_items(t@).len() && (
        forall|k: int|
            0 <= k < dep_line_items(t@).len() ==> (#[trigger] r->DepLine_0@[k])@ == dep_line_items(
                t@,
            )[k]),
        req_line(t@) ==> r is ReqLine && r->ReqLine_0@ == req_line_value(t@),
        t@.len() > 0 && other_line(t@) ==> r is OtherLine,
        !line_ok(t@) ==> r is BadLine,
{
    if t.len() == 0 {
        return LineParse::EmptyLine;
    }
    let eq = find_char_from(t, '=', 0);
    proof {
        lemma_first_at_unique(t@, '=', eq as int);
        reveal_strlit("dependencies");
        reveal_strlit("requires-python");
    }
    if eq == t.len() {
        return LineParse::BadLine;
    }
    let key_raw = sub_chars(t, 0, eq);
    let key = trim_chars(&key_raw);
    let val_raw = sub_chars(t, eq + 1, t.len());
    let val = trim_chars(&val_raw);
    proof {
        assert(key@ == line_key(t@));
        assert(val@ == line_val(t@));
    }
    if chars_eq_str(&key, "dependencies") {
        if val.len() < 2 || val[0] != '[' || val[val.len() - 1] != ']' {
            return LineParse::BadLine;
        }
        let inner = sub_chars(&val, 1, val.len() - 1);
        let ghost spec_items = list_items(inner@);
        let pieces = split_chars_at(&inner, ',');
        let mut trimmed: Vec<Vec<char>> = Vec::new();
        let mut i: usize = 0;
        while i < pieces.len()
            invariant
                i <= pieces@.len(),
                pieces@.len() == split_char(inner@, ',').len(),
                forall|k: int| 0 <= k < pieces@.len() ==> pieces@[k]@ == split_char(inner@, ',')[k],
                trimmed@.len() == i,
                forall|k: int|
                    0 <= k < i ==> (#[trigger] trimmed@[k])@ == spec_trim(
                        split_char(inner@, ',')[k],
                    ),
            decreases pieces@.len() - i,
        {
            trimmed.push(trim_chars(&pieces[i]));
            i = i + 1;
        }
        proof {
            let raw = split_char(inner@, ',').map_values(|p: Seq<char>| spec_trim(p));
            assert(trimmed@.len() == raw.len());
            assert(forall|k: int| 0 <= k < raw.len() ==> (#[trigger] trimmed@[k])@ == raw[k]);
        }
        if trimmed.len() > 0 && trimmed[trimmed.len() - 1].len() == 0 {
            trimmed.pop();
        }
        proof {
            assert(trimmed@.len() == spec_items.len());
            assert(forall|k: int|
                0 <= k < spec_items.len() ==> (#[trigger] trimmed@[k])@ == spec_items[k]);
        }
        let mut out: Vec<String> = Vec::new();
        let mut j: usize = 0;
        while j < trimmed.len()
            invariant
                t@.len() > 0,
                j <= trimmed@.len(),
                trimmed@.len() == spec_items.len(),
                spec_items == list_items(
                    line_val(t@).subrange(1, line_val(t@).len() - 1),
                ),
                line_key(t@) == "dependencies"@,
                0 <= eq_pos(t@) < t@.len(),
                line_val(t@).len() >= 2 && line_val(t@)[0] == '[' && line_val(t@)[line_val(
                    t@,
                ).len() - 1] == ']',
                forall|k: int|
                    0 <= k < spec_items.len() ==> (#[trigger] trimmed@[k])@ == spec_items[k],
                forall|k: int| 0 <= k < j ==> quoted(#[trigger] spec_items[k]),
                out@.len() == j,
                forall|k: int| 0 <= k < j ==> (#[trigger] out@[k])@ == unquoted(spec_items[k]),
            decreases trimmed@.len() - j,
        {
            let ok = check_quoted(&trimmed[j]);
            if !ok {
                proof {
                    assert(!quoted(spec_items[j as int]));
                    assert(!dep_line(t@));
                    assert(!req_line(t@) && !other_line(t@));
                }
                return LineParse::BadLine;
            }
            let item_len = trimmed[j].len();
            let body = sub_chars(&trimmed[j], 1, item_len - 1);
            out.push(string_from_chars(&body));
            j = j + 1;
        }
        proof {
            assert(dep_line(t@));
            assert(dep_line_items(t@).len() == spec_items.len());
            assert(forall|k: int|
                0 <= k < spec_items.len() ==> dep_line_items(t@)[k] == unquoted(
                    #[trigger] spec_items[k],
                ));
        }
        return LineParse::DepLine(out);
    }
    if chars_eq_str(&key, "requires-python") {
        let ok = check_quoted(&val);
        if !ok {
            return LineParse::BadLine;
        }
        let body = sub_chars(&val, 1, val.len() - 1);
        proof {
            assert(req_line(t@));
        }
        return LineParse::ReqLine(string_from_chars(&body));
    }
    proof {
        assert(other_line(t@));
    }
    LineParse::OtherLine
}

/// The baseline dependency: the serialization shim the harness imports.
pub open spec fn baseline_dep() -> Seq<char> {
    "jsonpickle~=4.0.0"@
}

/// The baseline interpreter bound.
pub open spec fn default_requires() -> Seq<char> {
    ">=3.10"@
}

/// One rendered dependency line per entry.
pub open spec fn dep_lines_text(deps: Seq<Seq<char>>) -> Seq<char>
    decreases deps.len(),
{
    if deps.len() == 0 {
        Seq::empty()
    } else {
        "    \""@ + deps[0] + "\",\n"@ + dep_lines_text(deps.drop_first())
    }
}

pub proof fn lemma_dep_lines_snoc(deps: Seq<Seq<char>>, z: Seq<char>)
    ensures
        dep_lines_text(deps.push(z)) == dep_lines_text(deps) + "    \""@ + z + "\",\n"@,
    decreases deps.len(),
{
    if deps.len() == 0 {
        assert(deps.push(z)[0] == z);
        assert(deps.push(z).drop_first() =~= Seq::<Seq<char>>::empty());
        assert(dep_lines_text(Seq::<Seq<char>>::empty()) =~= Seq::<char>::empty());
        assert(dep_lines_text(deps.push(z)) =~= dep_lines_text(deps) + "    \""@ + z + "\",\n"@);
    } else {
        lemma_dep_lines_snoc(deps.drop_first(), z);
        assert(deps.push(z)[0] == deps[0]);
        assert(deps.push(z).drop_first() =~= deps.drop_first().push(z));
        assert(dep_lines_text(deps.push(z)) =~= dep_lines_text(deps) + "    \""@ + z + "\",\n"@);
    }
}

/// The text of the merged project manifest.
pub open spec fn rendered_manifest(deps: Seq<Seq<char>>, req: Seq<char>) -> Seq<char> {
    "[project]\nname = \"shinkai-tool\"\nversion = \"0.0.1\"\ndependencies = [\n"@
        + dep_lines_text(deps) + "]\nrequires-python = \""@ + req + "\"\n"@
}

/// Render the merged manifest.
fn render_manifest(deps: &Vec<String>, req: &String) -> (r: String)
    ensures
        r@ == rendered_manifest(deps.deep_view(), req@),
{
    let mut out: Vec<char> = Vec::new();
    push_str_chars(
        &mut out,
        "[project]\nname = \"shinkai-tool\"\nversion = \"0.0.1\"\ndependencies = [\n",
    );
    let ghost head = out@;
    let mut i: usize = 0;
    while i < deps.len()
        invariant
            i <= deps@.len(),
            deps.deep_view().len() == deps@.len(),
            forall|k: int| 0 <= k < deps@.len() ==> deps.deep_view()[k] == deps@[k]@,
            out@ == head + dep_lines_text(deps.deep_view().subrange(0, i as int)),
        decreases deps@.len() - i,
    {
        push_str_chars(&mut out, "    \"");
        push_str_chars(&mut out, deps[i].as_str());
        push_str_chars(&mut out, "\",\n");
        proof {
            lemma_dep_lines_snoc(deps.deep_view().subrange(0, i as int), deps.deep_view()[i as int]);
            assert(deps.deep_view().subrange(0, i as int).push(deps.deep_view()[i as int])
                =~= deps.deep_view().subrange(0, i + 1));
            assert(out@ =~= head + dep_lines_text(deps.deep_view().subrange(0, i + 1)));
        }
        i = i + 1;
    }
    proof {
        assert(deps.deep_view().subrange(0, deps@.len() as int) =~= deps.deep_view());
    }
    push_str_chars(&mut out, "]\nrequires-python = \"");
    push_str_chars(&mut out, req.as_str());
    push_str_chars(&mut out, "\"\n");
    proof {
        assert(out@ =~= rendered_manifest(deps.deep_view(), req@));
    }
    string_from_chars(&out)
}

/// Where the inline block starts: the first line reading `# /// script`.
pub open spec fn block_start(lines: Seq<Seq<char>>) -> int {
    find_trim_eq(lines, "# /// script"@, 0)
}

/// Where it ends: the first later line reading `# ///`.
pub open spec fn block_end(lines: Seq<Seq<char>>) -> int {
    find_trim_eq(lines, "# ///"@, block_start(lines) + 1)
}

/// The processed lines of the block.
pub open spec fn processed_block(lines: Seq<Seq<char>>) -> Seq<Seq<char>> {
    lines.subrange(block_start(lines) + 1, block_end(lines)).map_values(
        |l: Seq<char>| unprefixed(l),
    )
}

/// Synthesis succeeds on this text: either there is no block, or the
/// block is terminated and every line of it is acceptable.
pub open spec fn synthesis_ok(lines: Seq<Seq<char>>) -> bool {
    block_start(lines) == lines.len() || (block_end(lines) < lines.len() && blk_ok(
        processed_block(lines),
    ))
}

/// The merged dependency list: the baseline first, then what the block
/// declares.
pub open spec fn merged_deps(lines: Seq<Seq<char>>) -> Seq<Seq<char>> {
    seq![baseline_dep()] + (if block_start(lines) < lines.len() {
        blk_deps(processed_block(lines))
    } else {
        Seq::<Seq<char>>::empty()
    })
}

/// The merged interpreter bound: the block's, or the baseline's.
pub open spec fn merged_req(lines: Seq<Seq<char>>) -> Seq<char> {
    if block_start(lines) < lines.len() && blk_req(processed_block(lines)) is Some {
        blk_req(processed_block(lines)).unwrap()
    } else {
        default_requires()
    }
}

/// The entrypoint's lines with the block removed.
pub open spec fn stripped_entry(lines: Seq<Seq<char>>) -> Seq<Seq<char>> {
    if block_start(lines) < lines.len() && block_end(lines) < lines.len() {
        lines.subrange(0, block_start(lines)) + lines.subrange(
            block_end(lines) + 1,
            lines.len() as int,
        )
    } else {
        lines
    }
}

/// Synthesis succeeds on this bundle: the entrypoint exists and its text
/// admits synthesis.
pub open spec fn synthesis_succeeds(c: CodeFiles) -> bool {
    match lookup(c.files@, c.entrypoint@) {
        Option::Some(content) => synthesis_ok(spec_lines(content)),
        Option::None => false,
    }
}

/// The entrypoint's lines, assuming it exists.
pub open spec fn entry_lines(c: CodeFiles) -> Seq<Seq<char>> {
    spec_lines(lookup(c.files@, c.entrypoint@).unwrap())
}

/// Append clones of `items` to `deps`.
fn append_deps(deps: &mut Vec<String>, items: &Vec<String>)
    ensures
        final(deps).deep_view() == old(deps).deep_view() + items.deep_view(),
{
    let mut m: usize = 0;
    while m < items.len()
        invariant
            m <= items@.len(),
            deps@.len() == old(deps)@.len() + m,
            forall|k: int| 0 <= k < old(deps)@.len() ==> deps@[k] == old(deps)@[k],
            forall|k: int| 0 <= k < m ==> (#[trigger] deps@[old(deps)@.len() + k])@ == items@[k]@,
        decreases items@.len() - m,
    {
        deps.push(items[m].clone());
        m = m + 1;
    }
    proof {
        assert forall|i: int| 0 <= i < deps@.len() implies deps.deep_view()[i] == (old(
            deps,
        ).deep_view() + items.deep_view())[i] by {
            if i >= old(deps)@.len() {
                assert(deps@[old(deps)@.len() + (i - old(deps)@.len())]@ == items@[i - old(
                    deps,
                )@.len()]@);
            }
        }
        assert(deps.deep_view() =~= old(deps).deep_view() + items.deep_view());
    }
}

/// Synthesize the project manifest. The entrypoint's inline block, when
/// present and terminated, is parsed and removed; the dependencies it
/// declares are appended to the baseline, its interpreter bound overrides
/// the baseline's, and the merged manifest is bound to `pyproject.toml`
/// in the bundle. Without a block, the bundle merely gains the baseline
/// manifest and the entrypoint stays untouched. A missing entrypoint, an
/// unterminated block, or a malformed block line is the manifest
/// synthesis error, and nothing else is.
pub fn extend_with_pyproject_toml(code_files: CodeFiles) -> (r: Result<CodeFiles, ExecutionError>)
    ensures
        r is Ok <==> synthesis_succeeds(code_files),
        r is Err ==> r->Err_0.kind == ErrorKind::ManifestSynthesis,
        r is Ok ==> r->Ok_0.entrypoint == code_files.entrypoint,
        r is Ok ==> lookup(r->Ok_0.files@, "pyproject.toml"@) == Option::Some(
            rendered_manifest(
                merged_deps(entry_lines(code_files)),
                merged_req(entry_lines(code_files)),
            ),
        ),
        r is Ok && code_files.entrypoint@ != "pyproject.toml"@ ==> lookup(
            r->Ok_0.files@,
            code_files.entrypoint@,
        ) == (if block_start(entry_lines(code_files)) < entry_lines(code_files).len() {
            Option::Some(join_sep(stripped_entry(entry_lines(code_files)), '\n'))
        } else {
            lookup(code_files.files@, code_files.entrypoint@)
        }),
        r is Ok ==> forall|n: Seq<char>|
            n != "pyproject.toml"@ && n != code_files.entrypoint@ ==> lookup(
                r->Ok_0.files@,
                n,
            ) == lookup(code_files.files@, n),
        r is Ok ==> forall|n: Seq<char>| #[trigger] lookup(r->Ok_0.files@, n)
            == synth_result_lookup(code_files, n),
{
    let ep = code_files.entrypoint.clone();
    let content = match code_files.get_file(ep.as_str()) {
        Option::Some(c) => c,
        Option::None => {
            return Result::Err(
                ExecutionError::new(
                    ErrorKind::ManifestSynthesis,
                    String::from_str("no entrypoint found in the code bundle"),
                    Option::None,
                ),
            );
        },
    };
    let cs = chars_of_str(content.as_str());
    let lines = split_lines(&cs);
    let ghost lv = spec_lines(content@);
    proof {
        assert(lv == entry_lines(code_files));
    }
    let n = lines.len();
    // the block's opening line
    let mut si: usize = 0;
    while si < n && !chars_eq_str(&trim_chars(&lines[si]), "# /// script")
        invariant
            n == lines@.len(),
            lv.len() == n,
            forall|k: int| 0 <= k < n ==> lines@[k]@ == lv[k],
            si <= n,
            forall|k: int| 0 <= k < si ==> spec_trim(#[trigger] lv[k]) != "# /// script"@,
        decreases n - si,
    {
        si = si + 1;
    }
    proof {
        lemma_find_trim_eq_unique(lv, "# /// script"@, 0, si as int);
    }
    if si == n {
        // no block: bind the baseline manifest and leave the rest alone
        let mut deps: Vec<String> = Vec::new();
        deps.push(String::from_str("jsonpickle~=4.0.0"));
        let req = String::from_str(">=3.10");
        proof {
            assert(deps.deep_view() =~= merged_deps(lv));
            assert(req@ == merged_req(lv));
        }
        let rendered = render_manifest(&deps, &req);
        let mut cf = code_files;
        let ghost files0 = cf.files@;
        let pyk = String::from_str("pyproject.toml");
        cf.set_file(pyk, rendered);
        proof {
            lemma_lookup_store_all(files0, "pyproject.toml"@, rendered@);
        }
        return Result::Ok(cf);
    }
    // the block's closing line
    let mut ei: usize = si + 1;
    while ei < n && !chars_eq_str(&trim_chars(&lines[ei]), "# ///")
        invariant
            n == lines@.len(),
            lv.len() == n,
            forall|k: int| 0 <= k < n ==> lines@[k]@ == lv[k],
            si < ei <= n,
            forall|k: int| si + 1 <= k < ei ==> spec_trim(#[trigger] lv[k]) != "# ///"@,
        decreases n - ei,
    {
        ei = ei + 1;
    }
    proof {
        lemma_find_trim_eq_unique(lv, "# ///"@, si + 1, ei as int);
    }
    if ei == n {
        return Result::Err(
            ExecutionError::new(
                ErrorKind::ManifestSynthesis,
                String::from_str("inline metadata block is not terminated"),
                Option::None,
            ),
        );
    }
    // parse the block
    let ghost pb = processed_block(lv);
    proof {
        assert(pb.len() == ei - si - 1);
        assert(forall|j: int|
            0 <= j < pb.len() ==> #[trigger] pb[j] == unprefixed(lv[si + 1 + j]));
    }
    let mut deps: Vec<String> = Vec::new();
    deps.push(String::from_str("jsonpickle~=4.0.0"));
    let mut req: Option<String> = Option::None;
    let mut k: usize = si + 1;
    while k < ei
        invariant
            n == lines@.len(),
            lv.len() == n,
            forall|kk: int| 0 <= kk < n ==> lines@[kk]@ == lv[kk],
            si < ei < n,
            si + 1 <= k <= ei,
            lv == entry_lines(code_files),
            lookup(code_files.files@, code_files.entrypoint@) is Some,
            block_start(lv) == si as int,
            block_end(lv) == ei as int,
            pb == processed_block(lv),
            pb.len() == ei - si - 1,
            forall|j: int| 0 <= j < pb.len() ==> #[trigger] pb[j] == unprefixed(lv[si + 1 + j]),
            forall|j: int| 0 <= j < k - si - 1 ==> line_ok(#[trigger] pb[j]),
            deps.deep_view() == seq![baseline_dep()] + blk_deps(pb.subrange(0, k - si - 1)),
            req is Some <==> blk_req(pb.subrange(0, k - si - 1)) is Some,
            req is Some ==> blk_req(pb.subrange(0, k - si - 1)) == Option::Some(req->0@),
        decreases ei - k,
    {
        let ghost idx = k - si - 1;
        let ghost pre = pb.subrange(0, idx);
        let t1 = trim_chars(&lines[k]);
        let t2 = remove_char(&t1, '#');
        let t3 = trim_chars(&t2);
        proof {
            assert(t3@ == unprefixed(lv[k as int]));
            assert(pb[idx] == unprefixed(lv[k as int]));
            assert(pre.push(pb[idx]) =~= pb.subrange(0, idx + 1));
            assert(pre.push(pb[idx]).drop_last() =~= pre);
        }
        match classify_line(&t3) {
            LineParse::BadLine => {
                proof {
                    assert(!line_ok(pb[idx]));
                    assert(!blk_ok(pb));
                }
                return Result::Err(
                    ExecutionError::new(
                        ErrorKind::ManifestSynthesis,
                        String::from_str("malformed line in the inline metadata block"),
                        Option::None,
                    ),
                );
            },
            LineParse::DepLine(items) => {
                proof {
                    lemma_blk_deps_snoc(pre, pb[idx]);
                    assert(dep_line(pb[idx]));
                    assert(items.deep_view() =~= dep_line_items(pb[idx]));
                    assert(!req_line(pb[idx]));
                }
                append_deps(&mut deps, &items);
                proof {
                    assert(deps.deep_view() =~= seq![baseline_dep()] + blk_deps(
                        pb.subrange(0, idx + 1),
                    ));
                }
            },
            LineParse::ReqLine(v) => {
                proof {
                    assert(req_line(pb[idx]));
                    assert(!dep_line(pb[idx]));
                    lemma_blk_deps_snoc(pre, pb[idx]);
                    assert(deps.deep_view() =~= seq![baseline_dep()] + blk_deps(
                        pb.subrange(0, idx + 1),
                    ));
                }
                req = Option::Some(v);
            },
            LineParse::EmptyLine => {
                proof {
                    assert(!dep_line(pb[idx]) && !req_line(pb[idx]));
                    lemma_blk_deps_snoc(pre, pb[idx]);
                    assert(deps.deep_view() =~= seq![baseline_dep()] + blk_deps(
                        pb.subrange(0, idx + 1),
                    ));
                }
            },
            LineParse::OtherLine => {
                proof {
                    assert(!dep_line(pb[idx]) && !req_line(pb[idx]));
                    lemma_blk_deps_snoc(pre, pb[idx]);
                    assert(deps.deep_view() =~= seq![baseline_dep()] + blk_deps(
                        pb.subrange(0, idx + 1),
                    ));
                }
            },
        }
        k = k + 1;
    }
    proof {
        assert(pb.subrange(0, pb.len() as int) =~= pb);
        assert(blk_ok(pb));
        assert(deps.deep_view() == merged_deps(lv));
    }
    let req_final = match req {
        Option::Some(v) => v,
        Option::None => String::from_str(">=3.10"),
    };
    proof {
        assert(req_final@ == merged_req(lv));
    }
    let rendered = render_manifest(&deps, &req_final);
    // the entrypoint without the block
    let mut kept: Vec<Vec<char>> = Vec::new();
    let mut a: usize = 0;
    while a < si
        invariant
            n == lines@.len(),
            lv.len() == n,
            forall|kk: int| 0 <= kk < n ==> lines@[kk]@ == lv[kk],
            si < n,
            a <= si,
            lv == entry_lines(code_files),
            lookup(code_files.files@, code_files.entrypoint@) is Some,
            block_start(lv) == si as int,
            block_end(lv) == ei as int,
            si < ei < n,
            kept@.len() == a,
            forall|j: int| 0 <= j < a ==> (#[trigger] kept@[j])@ == lv[j],
        decreases si - a,
    {
        let line_copy = sub_chars(&lines[a], 0, lines[a].len());
        proof {
            assert(line_copy@ =~= lv[a as int]);
        }
        kept.push(line_copy);
        a = a + 1;
    }
    let mut b: usize = ei + 1;
    while b < n
        invariant
            n == lines@.len(),
            lv.len() == n,
            forall|kk: int| 0 <= kk < n ==> lines@[kk]@ == lv[kk],
            si < ei < n,
            ei + 1 <= b <= n,
            lv == entry_lines(code_files),
            lookup(code_files.files@, code_files.entrypoint@) is Some,
            block_start(lv) == si as int,
            block_end(lv) == ei as int,
            kept@.len() == si + (b - ei - 1),
            forall|j: int| 0 <= j < si ==> (#[trigger] kept@[j])@ == lv[j],
            forall|j: int|
                si <= j < kept@.len() ==> (#[trigger] kept@[j])@ == lv[ei + 1 + (j - si)],
        decreases n - b,
    {
        let line_copy = sub_chars(&lines[b], 0, lines[b].len());
        proof {
            assert(line_copy@ =~= lv[b as int]);
        }
        kept.push(line_copy);
        b = b + 1;
    }
    proof {
        let se = stripped_entry(lv);
        assert(se.len() == kept@.len());
        assert forall|j: int| 0 <= j < kept@.len() implies kept.deep_view()[j] == se[j] by {
            assert(kept.deep_view()[j] =~= kept@[j]@);
            if j < si {
                assert(se[j] == lv[j]);
            } else {
                assert(se[j] == lv[ei + 1 + (j - si)]);
            }
        }
        assert(kept.deep_view() =~= stripped_entry(lv));
    }
    let joined = join_with(&kept, '\n');
    let new_entry = string_from_chars(&joined);
    let mut cf = code_files;
    let ghost files0 = cf.files@;
    cf.set_file(ep.clone(), new_entry);
    let ghost files1 = cf.files@;
    proof {
        lemma_lookup_store_all(files0, ep@, join_sep(stripped_entry(lv), '\n'));
    }
    let pyk = String::from_str("pyproject.toml");
    cf.set_file(pyk, rendered);
    proof {
        lemma_lookup_store_all(files1, "pyproject.toml"@, rendered@);
    }
    Result::Ok(cf)
}

/// Looking up any name after a store either finds the stored contents or
/// passes through.
pub proof fn lemma_lookup_store_all(s: Seq<(String, String)>, kv: Seq<char>, vv: Seq<char>)
    ensures
        forall|k: String, v: String, n: Seq<char>|
            k@ == kv && v@ == vv ==> #[trigger] lookup(store(s, k, v), n) == (if n == kv {
                Option::Some(vv)
            } else {
                lookup(s, n)
            }),
{
    assert forall|k: String, v: String, n: Seq<char>| k@ == kv && v@ == vv implies #[trigger] lookup(
        store(s, k, v),
        n,
    ) == (if n == kv {
        Option::Some(vv)
    } else {
        lookup(s, n)
    }) by {
        crate::code_files::lemma_lookup_store(s, k, v, n);
    }
}

/// What synthesis binds each name to: the merged manifest under
/// `pyproject.toml`, the stripped text under the entrypoint's name when a
/// block was removed, and every other binding untouched.
pub open spec fn synth_result_lookup(c: CodeFiles, n: Seq<char>) -> Option<Seq<char>> {
    if n == "pyproject.toml"@ {
        Option::Some(
            rendered_manifest(merged_deps(entry_lines(c)), merged_req(entry_lines(c))),
        )
    } else if n == c.entrypoint@ {
        if block_start(entry_lines(c)) < entry_lines(c).len() {
            Option::Some(join_sep(stripped_entry(entry_lines(c)), '\n'))
        } else {
            lookup(c.files@, n)
        }
    } else {
        lookup(c.files@, n)
    }
}

/// Manifest synthesis is idempotent: a bundle that already carries its
/// own synthesized manifest, and whose entrypoint holds no inline block,
/// is a fixed point — synthesizing it again binds every name to what it
/// already holds.
pub proof fn lemma_synthesis_idempotent(c1: CodeFiles)
    requires
        lookup(c1.files@, c1.entrypoint@) is Some,
        c1.entrypoint@ != "pyproject.toml"@,
        block_start(entry_lines(c1)) == entry_lines(c1).len(),
        lookup(c1.files@, "pyproject.toml"@) == Option::Some(
            rendered_manifest(merged_deps(entry_lines(c1)), merged_req(entry_lines(c1))),
        ),
    ensures
        synthesis_succeeds(c1),
        forall|n: Seq<char>| #[trigger] synth_result_lookup(c1, n) == lookup(c1.files@, n),
{
    assert(synthesis_ok(entry_lines(c1)));
    assert forall|n: Seq<char>| #[trigger] synth_result_lookup(c1, n) == lookup(
        c1.files@,
        n,
    ) by {
        if n == "pyproject.toml"@ {
        } else if n == c1.entrypoint@ {
        } else {
        }
    }
}

} // verus!
