//! The JSON surface of the result protocol.
//!
//! Values are modelled by [`JsonValue`]; numbers keep their source text so
//! that every numeric payload stays exact. [`to_json_string`] renders one
//! canonical text form (no added whitespace, members in stored order), and
//! that rendering is the specification the harness contracts build on.

use vstd::prelude::*;
use crate::text::{chars_of_str, push_chars, push_str_chars, string_from_chars};

verus! {

/// A JSON value. `Num` holds the number's source text.
pub enum JsonValue {
    Null,
    Bool(bool),
    Num(String),
    Str(String),
    Arr(Vec<JsonValue>),
    Obj(Vec<(String, JsonValue)>),
}

/// Hexadecimal digit for `n`, lower case.
pub open spec fn hex_digit(n: int) -> char {
    if n == 0 {
        '0'
    } else if n == 1 {
        '1'
    } else if n == 2 {
        '2'
    } else if n == 3 {
        '3'
    } else if n == 4 {
        '4'
    } else if n == 5 {
        '5'
    } else if n == 6 {
        '6'
    } else if n == 7 {
        '7'
    } else if n == 8 {
        '8'
    } else if n == 9 {
        '9'
    } else if n == 10 {
        'a'
    } else if n == 11 {
        'b'
    } else if n == 12 {
        'c'
    } else if n == 13 {
        'd'
    } else if n == 14 {
        'e'
    } else {
        'f'
    }
}

/// How one character is written inside a JSON string literal.
pub open spec fn json_escape_char(c: char) -> Seq<char> {
    if c == '"' {
        seq!['\\', '"']
    } else if c == '\\' {
        seq!['\\', '\\']
    } else if c == '\n' {
        seq!['\\', 'n']
    } else if c == '\r' {
        seq!['\\', 'r']
    } else if c == '\t' {
        seq!['\\', 't']
    } else if (c as u32) < 0x20 {
        seq!['\\', 'u', '0', '0', hex_digit((c as u32) as int / 16), hex_digit((c as u32) as int % 16)]
    } else {
        seq![c]
    }
}

/// The body of a JSON string literal for `s`.
pub open spec fn json_escaped(s: Seq<char>) -> Seq<char>
    decreases s.len(),
{
    if s.len() == 0 {
        Seq::empty()
    } else {
        json_escape_char(s[0]) + json_escaped(s.drop_first())
    }
}

/// The canonical serialized text of a JSON value.
pub open spec fn json_text_of(v: JsonValue) -> Seq<char>
    decreases v,
{
    match v {
        JsonValue::Null => seq!['n', 'u', 'l', 'l'],
        JsonValue::Bool(b) => if b {
            seq!['t', 'r', 'u', 'e']
        } else {
            seq!['f', 'a', 'l', 's', 'e']
        },
        JsonValue::Num(n) => n@,
        JsonValue::Str(s) => seq!['"'] + json_escaped(s@) + seq!['"'],
        JsonValue::Arr(items) => seq!['['] + json_items_text(items@) + seq![']'],
        JsonValue::Obj(members) => seq!['{'] + json_members_text(members@) + seq!['}'],
    }
}

pub open spec fn json_items_text(items: Seq<JsonValue>) -> Seq<char>
    decreases items,
{
    if items.len() == 0 {
        Seq::empty()
    } else if items.len() == 1 {
        json_text_of(items[0])
    } else {
        json_text_of(items[0]) + seq![','] + json_items_text(items.drop_first())
    }
}

pub open spec fn json_members_text(members: Seq<(String, JsonValue)>) -> Seq<char>
    decreases members,
{
    if members.len() == 0 {
        Seq::empty()
    } else if members.len() == 1 {
        json_member_text(members[0])
    } else {
        json_member_text(members[0]) + seq![','] + json_members_text(members.drop_first())
    }
}

pub open spec fn json_member_text(m: (String, JsonValue)) -> Seq<char>
    decreases m,
{
    seq!['"'] + json_escaped(m.0@) + seq!['"', ':'] + json_text_of(m.1)
}

proof fn lemma_escaped_concat(a: Seq<char>, b: Seq<char>)
    ensures
        json_escaped(a + b) == json_escaped(a) + json_escaped(b),
    decreases a.len(),
{
    if a.len() == 0 {
        assert(a + b =~= b);
        assert(json_escaped(a) + json_escaped(b) =~= json_escaped(b));
    } else {
        assert((a + b).drop_first() =~= a.drop_first() + b);
        lemma_escaped_concat(a.drop_first(), b);
        assert(json_escaped(a + b) =~= json_escaped(a) + json_escaped(b));
    }
}

proof fn lemma_escaped_snoc(s: Seq<char>, c: char)
    ensures
        json_escaped(s.push(c)) == json_escaped(s) + json_escape_char(c),
{
    lemma_escaped_concat(s, seq![c]);
    assert(s.push(c) =~= s + seq![c]);
    assert(seq![c].drop_first() =~= Seq::<char>::empty());
    assert(json_escaped(Seq::<char>::empty()) =~= Seq::<char>::empty());
    assert(json_escaped(seq![c]) =~= json_escape_char(c));
}

proof fn lemma_items_snoc(s: Seq<JsonValue>, z: JsonValue)
    ensures
        s.len() == 0 ==> json_items_text(s.push(z)) == json_text_of(z),
        s.len() > 0 ==> json_items_text(s.push(z)) == json_items_text(s) + seq![',']
            + json_text_of(z),
    decreases s.len(),
{
    if s.len() == 0 {
        assert(s.push(z)[0] == z);
    } else {
        lemma_items_snoc(s.drop_first(), z);
        assert(s.push(z).drop_first() =~= s.drop_first().push(z));
        if s.len() == 1 {
            assert(json_items_text(s.push(z)) =~= json_items_text(s) + seq![','] + json_text_of(
                z,
            ));
        } else {
            assert(json_items_text(s.push(z)) =~= json_items_text(s) + seq![','] + json_text_of(
                z,
            ));
        }
    }
}

proof fn lemma_members_snoc(s: Seq<(String, JsonValue)>, z: (String, JsonValue))
    ensures
        s.len() == 0 ==> json_members_text(s.push(z)) == json_member_text(z),
        s.len() > 0 ==> json_members_text(s.push(z)) == json_members_text(s) + seq![',']
            + json_member_text(z),
    decreases s.len(),
{
    if s.len() == 0 {
        assert(s.push(z)[0] == z);
    } else {
        lemma_members_snoc(s.drop_first(), z);
        assert(s.push(z).drop_first() =~= s.drop_first().push(z));
        if s.len() == 1 {
            assert(json_members_text(s.push(z)) =~= json_members_text(s) + seq![',']
                + json_member_text(z));
        } else {
            assert(json_members_text(s.push(z)) =~= json_members_text(s) + seq![',']
                + json_member_text(z));
        }
    }
}

fn hex_digit_char(n: u32) -> (c: char)
    requires
        n < 16,
    ensures
        c == hex_digit(n as int),
{
    if n == 0 {
        '0'
    } else if n == 1 {
        '1'
    } else if n == 2 {
        '2'
    } else if n == 3 {
        '3'
    } else if n == 4 {
        '4'
    } else if n == 5 {
        '5'
    } else if n == 6 {
        '6'
    } else if n == 7 {
        '7'
    } else if n == 8 {
        '8'
    } else if n == 9 {
        '9'
    } else if n == 10 {
        'a'
    } else if n == 11 {
        'b'
    } else if n == 12 {
        'c'
    } else if n == 13 {
        'd'
    } else if n == 14 {
        'e'
    } else {
        'f'
    }
}

/// Append the JSON string-literal escape of `c` to `out`.
fn push_escape_char(out: &mut Vec<char>, c: char)
    ensures
        final(out)@ == old(out)@ + json_escape_char(c),
{
    if c == '"' {
        out.push('\\');
        out.push('"');
    } else if c == '\\' {
        out.push('\\');
        out.push('\\');
    } else if c == '\n' {
        out.push('\\');
        out.push('n');
    } else if c == '\r' {
        out.push('\\');
        out.push('r');
    } else if c == '\t' {
        out.push('\\');
        out.push('t');
    } else if (c as u32) < 0x20 {
        let n = c as u32;
        out.push('\\');
        out.push('u');
        out.push('0');
        out.push('0');
        out.push(hex_digit_char(n / 16));
        out.push(hex_digit_char(n % 16));
    } else {
        out.push(c);
    }
    proof {
        assert(out@ =~= old(out)@ + json_escape_char(c));
    }
}

/// Append the JSON string-literal body for `s` to `out`.
pub fn push_json_escaped(out: &mut Vec<char>, s: &Vec<char>)
    ensures
        final(out)@ == old(out)@ + json_escaped(s@),
{
    let mut i: usize = 0;
    while i < s.len()
        invariant
            i <= s@.len(),
            out@ == old(out)@ + json_escaped(s@.subrange(0, i as int)),
        decreases s@.len() - i,
    {
        push_escape_char(out, s[i]);
        proof {
            lemma_escaped_snoc(s@.subrange(0, i as int), s@[i as int]);
            assert(s@.subrange(0, i as int).push(s@[i as int]) =~= s@.subrange(0, i + 1));
        }
        i = i + 1;
    }
    proof {
        assert(s@.subrange(0, s@.len() as int) =~= s@);
    }
}

/// Append the JSON string-literal body for the chars of `s` to `out`.
fn push_escaped_str(out: &mut Vec<char>, s: &String)
    ensures
        final(out)@ == old(out)@ + json_escaped(s@),
{
    let cs = chars_of_str(s.as_str());
    push_json_escaped(out, &cs);
}

/// Append the canonical serialized text of `v` to `out`.
fn push_json_text(out: &mut Vec<char>, v: &JsonValue)
    ensures
        final(out)@ == old(out)@ + json_text_of(*v),
    decreases *v,
{
    match v {
        JsonValue::Null => {
            push_str_chars(out, "null");
            proof {
                reveal_strlit("null");
                assert(out@ =~= old(out)@ + json_text_of(*v));
            }
        },
        JsonValue::Bool(b) => {
            if *b {
                push_str_chars(out, "true");
                proof {
                    reveal_strlit("true");
                    assert(out@ =~= old(out)@ + json_text_of(*v));
                }
            } else {
                push_str_chars(out, "false");
                proof {
                    reveal_strlit("false");
                    assert(out@ =~= old(out)@ + json_text_of(*v));
                }
            }
        },
        JsonValue::Num(n) => {
            let cs = chars_of_str(n.as_str());
            push_chars(out, &cs);
        },
        JsonValue::Str(s) => {
            out.push('"');
            push_escaped_str(out, s);
            out.push('"');
            proof {
                assert(out@ =~= old(out)@ + json_text_of(*v));
            }
        },
        JsonValue::Arr(items) => {
            out.push('[');
            let mut i: usize = 0;
            while i < items.len()
                invariant
                    i <= items@.len(),
                    *v is Arr,
                    items@ == v->Arr_0@,
                    out@ == old(out)@ + seq!['['] + json_items_text(items@.subrange(0, i as int)),
                decreases items@.len() - i,
            {
                if i > 0 {
                    out.push(',');
                }
                proof {
                    assert(decreases_to!(*v => v->Arr_0));
                    assert(decreases_to!(v->Arr_0 => v->Arr_0@[i as int]));
                    assert(v->Arr_0@[i as int] == items@[i as int]);
                    assert(decreases_to!(*v => items@[i as int]));
                }
                push_json_text(out, &items[i]);
                proof {
                    lemma_items_snoc(items@.subrange(0, i as int), items@[i as int]);
                    assert(items@.subrange(0, i as int).push(items@[i as int]) =~= items@.subrange(
                        0,
                        i + 1,
                    ));
                    assert(out@ =~= old(out)@ + seq!['['] + json_items_text(
                        items@.subrange(0, i + 1),
                    ));
                }
                i = i + 1;
            }
            out.push(']');
            proof {
                assert(items@.subrange(0, items@.len() as int) =~= items@);
                assert(out@ =~= old(out)@ + json_text_of(*v));
            }
        },
        JsonValue::Obj(members) => {
            out.push('{');
            let mut i: usize = 0;
            while i < members.len()
                invariant
                    i <= members@.len(),
                    *v is Obj,
                    members@ == v->Obj_0@,
                    out@ == old(out)@ + seq!['{'] + json_members_text(
                        members@.subrange(0, i as int),
                    ),
                decreases members@.len() - i,
            {
                if i > 0 {
                    out.push(',');
                }
                out.push('"');
                push_escaped_str(out, &members[i].0);
                out.push('"');
                out.push(':');
                proof {
                    assert(decreases_to!(*v => v->Obj_0));
                    assert(decreases_to!(v->Obj_0 => v->Obj_0@[i as int]));
                    assert(v->Obj_0@[i as int] == members@[i as int]);
                    assert(decreases_to!(*v => members@[i as int].1));
                }
                push_json_text(out, &members[i].1);
                proof {
                    lemma_members_snoc(members@.subrange(0, i as int), members@[i as int]);
                    assert(members@.subrange(0, i as int).push(members@[i as int])
                        =~= members@.subrange(0, i + 1));
                    assert(out@ =~= old(out)@ + seq!['{'] + json_members_text(
                        members@.subrange(0, i + 1),
                    ));
                }
                i = i + 1;
            }
            out.push('}');
            proof {
                assert(members@.subrange(0, members@.len() as int) =~= members@);
                assert(out@ =~= old(out)@ + json_text_of(*v));
            }
        },
    }
}

/// The canonical serialized text of `v`, as characters.
pub fn to_json_chars(v: &JsonValue) -> (r: Vec<char>)
    ensures
        r@ == json_text_of(*v),
{
    let mut out: Vec<char> = Vec::new();
    push_json_text(&mut out, v);
    out
}

/// The canonical serialized text of `v`.
pub fn to_json_string(v: &JsonValue) -> (r: String)
    ensures
        r@ == json_text_of(*v),
{
    let cs = to_json_chars(v);
    string_from_chars(&cs)
}

/// `s` with member `k` bound to `v`: the first member named `k` is replaced,
/// or the pair is appended when no member has that name.
pub open spec fn obj_set(s: Seq<(String, JsonValue)>, k: String, v: JsonValue) -> Seq<
    (String, JsonValue),
>
    decreases s.len(),
{
    if s.len() == 0 {
        seq![(k, v)]
    } else if s[0].0@ == k@ {
        seq![(k, v)] + s.drop_first()
    } else {
        seq![s[0]] + obj_set(s.drop_first(), k, v)
    }
}

/// Binding over the first member named `k` updates it in place.
pub proof fn lemma_obj_set_first(s: Seq<(String, JsonValue)>, k: String, v: JsonValue, fi: int)
    requires
        0 <= fi < s.len(),
        s[fi].0@ == k@,
        forall|j: int| 0 <= j < fi ==> s[j].0@ != k@,
    ensures
        obj_set(s, k, v) == s.update(fi, (k, v)),
    decreases s.len(),
{
    if fi == 0 {
        assert(obj_set(s, k, v) =~= s.update(0, (k, v)));
    } else {
        lemma_obj_set_first(s.drop_first(), k, v, fi - 1);
        assert(s.drop_first().update(fi - 1, (k, v)) =~= s.update(fi, (k, v)).drop_first());
        assert(obj_set(s, k, v) =~= s.update(fi, (k, v)));
    }
}

/// Binding a fresh name appends the pair.
pub proof fn lemma_obj_set_absent(s: Seq<(String, JsonValue)>, k: String, v: JsonValue)
    requires
        forall|j: int| 0 <= j < s.len() ==> s[j].0@ != k@,
    ensures
        obj_set(s, k, v) == s.push((k, v)),
    decreases s.len(),
{
    if s.len() == 0 {
        assert(obj_set(s, k, v) =~= s.push((k, v)));
    } else {
        lemma_obj_set_absent(s.drop_first(), k, v);
        assert(obj_set(s, k, v) =~= s.push((k, v)));
    }
}

proof fn lemma_obj_set_nonempty(s: Seq<(String, JsonValue)>, k: String, v: JsonValue)
    ensures
        obj_set(s, k, v).len() >= 1,
    decreases s.len(),
{
    if s.len() == 0 {
    } else if s[0].0@ == k@ {
    } else {
        lemma_obj_set_nonempty(s.drop_first(), k, v);
    }
}

/// The serialized text of `v` after binding member `key` to the string
/// `tag`, when `v` is an object; any other value is serialized unchanged.
/// This is how a configuration or parameter object receives its `py/object`
/// discriminator before being embedded in the harness.
pub fn tagged_json_text(v: &JsonValue, key: &String, tag: &String) -> (r: Vec<char>)
    ensures
        *v is Obj ==> r@ == seq!['{'] + json_members_text(
            obj_set(v->Obj_0@, *key, JsonValue::Str(*tag)),
        ) + seq!['}'],
        !(*v is Obj) ==> r@ == json_text_of(*v),
{
    match v {
        JsonValue::Obj(members) => {
            let ghost s = members@;
            let mut found: bool = false;
            let mut fi: usize = 0;
            let mut i: usize = 0;
            while i < members.len()
                invariant
                    i <= s.len(),
                    s == members@,
                    !found ==> (forall|j: int| 0 <= j < i ==> s[j].0@ != key@),
                    found ==> fi < i && s[fi as int].0@ == key@ && (forall|j: int|
                        0 <= j < fi ==> s[j].0@ != key@),
                decreases s.len() - i,
            {
                if !found && members[i].0 == *key {
                    found = true;
                    fi = i;
                }
                i = i + 1;
            }
            let ghost pair = ((*key), JsonValue::Str(*tag));
            let ghost target: Seq<(String, JsonValue)> = if found {
                s.update(fi as int, pair)
            } else {
                s
            };
            proof {
                if found {
                    lemma_obj_set_first(s, *key, JsonValue::Str(*tag), fi as int);
                    assert(obj_set(s, *key, JsonValue::Str(*tag)) == target);
                } else {
                    assert(forall|j: int| 0 <= j < s.len() ==> s[j].0@ != key@);
                    lemma_obj_set_absent(s, *key, JsonValue::Str(*tag));
                    assert(obj_set(s, *key, JsonValue::Str(*tag)) == s.push(pair));
                }
            }
            let mut out: Vec<char> = Vec::new();
            out.push('{');
            let mut k: usize = 0;
            while k < members.len()
                invariant
                    k <= s.len(),
                    s == members@,
                    *v is Obj,
                    members@ == v->Obj_0@,
                    found ==> fi < s.len(),
                    pair == ((*key), JsonValue::Str(*tag)),
                    target == (if found {
                        s.update(fi as int, pair)
                    } else {
                        s
                    }),
                    target.len() == s.len(),
                    out@ == seq!['{'] + json_members_text(target.subrange(0, k as int)),
                decreases s.len() - k,
            {
                if k > 0 {
                    out.push(',');
                }
                if found && k == fi {
                    out.push('"');
                    push_escaped_str(&mut out, key);
                    out.push('"');
                    out.push(':');
                    out.push('"');
                    push_escaped_str(&mut out, tag);
                    out.push('"');
                    proof {
                        assert(target[k as int] == pair);
                        assert(json_member_text(pair) =~= seq!['"'] + json_escaped(key@) + seq![
                            '"',
                            ':',
                        ] + json_text_of(JsonValue::Str(*tag)));
                    }
                } else {
                    out.push('"');
                    push_escaped_str(&mut out, &members[k].0);
                    out.push('"');
                    out.push(':');
                    push_json_text(&mut out, &members[k].1);
                    proof {
                        assert(target[k as int] == s[k as int]);
                    }
                }
                proof {
                    lemma_members_snoc(target.subrange(0, k as int), target[k as int]);
                    assert(target.subrange(0, k as int).push(target[k as int]) =~= target.subrange(
                        0,
                        k + 1,
                    ));
                    assert(out@ =~= seq!['{'] + json_members_text(target.subrange(0, k + 1)));
                }
                k = k + 1;
            }
            proof {
                assert(target.subrange(0, s.len() as int) =~= target);
            }
            if !found {
                if members.len() > 0 {
                    out.push(',');
                }
                out.push('"');
                push_escaped_str(&mut out, key);
                out.push('"');
                out.push(':');
                out.push('"');
                push_escaped_str(&mut out, tag);
                out.push('"');
                proof {
                    lemma_members_snoc(s, pair);
                    assert(json_member_text(pair) =~= seq!['"'] + json_escaped(key@) + seq![
                        '"',
                        ':',
                    ] + json_text_of(JsonValue::Str(*tag)));
                    assert(out@ =~= seq!['{'] + json_members_text(s.push(pair)));
                }
            }
            out.push('}');
            proof {
                assert(out@ =~= seq!['{'] + json_members_text(
                    obj_set(v->Obj_0@, *key, JsonValue::Str(*tag)),
                ) + seq!['}']);
            }
            out
        },
        _ => to_json_chars(v),
    }
}

/// The rendered member list of an object after binding `key` to the
/// string `tag`: the first member named `key` is rendered with the new
/// value, every other member as it was, and the pair is appended when no
/// member has that name.
pub open spec fn members_text_tagged(
    ms: Seq<(String, JsonValue)>,
    key: Seq<char>,
    tag: Seq<char>,
) -> Seq<char>
    decreases ms.len(),
{
    if ms.len() == 0 {
        seq!['"'] + json_escaped(key) + seq!['"', ':', '"'] + json_escaped(tag) + seq!['"']
    } else if ms[0].0@ == key {
        seq!['"'] + json_escaped(key) + seq!['"', ':', '"'] + json_escaped(tag) + seq!['"'] + (
        if ms.len() == 1 {
            Seq::<char>::empty()
        } else {
            seq![','] + json_members_text(ms.drop_first())
        })
    } else {
        json_member_text(ms[0]) + seq![','] + members_text_tagged(ms.drop_first(), key, tag)
    }
}

/// The serialized text of `v` after binding member `key` to the string
/// `tag`, when `v` is an object; any other value serializes unchanged.
pub open spec fn spec_tagged_text(v: JsonValue, key: Seq<char>, tag: Seq<char>) -> Seq<char> {
    if v is Obj {
        seq!['{'] + members_text_tagged(v->Obj_0@, key, tag) + seq!['}']
    } else {
        json_text_of(v)
    }
}

/// Binding through `obj_set` renders exactly as `members_text_tagged`.
/// Binding through `obj_set` renders exactly as `members_text_tagged`.
proof fn lemma_members_text_tagged(ms: Seq<(String, JsonValue)>, k: String, t: String)
    ensures
        members_text_tagged(ms, k@, t@) == json_members_text(obj_set(ms, k, JsonValue::Str(t))),
    decreases ms.len(),
{
    let pair = (k, JsonValue::Str(t));
    assert(json_member_text(pair) =~= seq!['"'] + json_escaped(k@) + seq!['"', ':', '"']
        + json_escaped(t@) + seq!['"']);
    if ms.len() == 0 {
        assert(obj_set(ms, k, JsonValue::Str(t)) == seq![pair]);
        assert(json_members_text(seq![pair]) == json_member_text(pair));
    } else if ms[0].0@ == k@ {
        let u = obj_set(ms, k, JsonValue::Str(t));
        assert(u == seq![pair] + ms.drop_first());
        assert(u[0] == pair);
        assert(u.drop_first() =~= ms.drop_first());
        if ms.len() == 1 {
            assert(u.len() == 1);
            assert(json_members_text(u) == json_member_text(pair));
        } else {
            assert(json_members_text(u) == json_member_text(pair) + seq![',']
                + json_members_text(ms.drop_first()));
        }
    } else {
        lemma_members_text_tagged(ms.drop_first(), k, t);
        lemma_obj_set_nonempty(ms.drop_first(), k, JsonValue::Str(t));
        let u = obj_set(ms, k, JsonValue::Str(t));
        assert(u == seq![ms[0]] + obj_set(ms.drop_first(), k, JsonValue::Str(t)));
        assert(u[0] == ms[0]);
        assert(u.drop_first() =~= obj_set(ms.drop_first(), k, JsonValue::Str(t)));
        assert(u.len() >= 2);
        assert(json_members_text(u) == json_member_text(ms[0]) + seq![','] + json_members_text(
            u.drop_first(),
        ));
    }
}

/// The serialized text of `v` after binding `key` to the string `tag`.
pub fn tagged_json_string(v: &JsonValue, key: &str, tag: &str) -> (r: String)
    ensures
        r@ == spec_tagged_text(*v, key@, tag@),
{
    let key_s = crate::text::string_from_chars(&crate::text::chars_of_str(key));
    let tag_s = crate::text::string_from_chars(&crate::text::chars_of_str(tag));
    let cs = tagged_json_text(v, &key_s, &tag_s);
    proof {
        if *v is Obj {
            lemma_members_text_tagged(v->Obj_0@, key_s, tag_s);
        }
    }
    string_from_chars(&cs)
}

/// Whether `s` is one well-formed JSON document. This names what the JSON
/// parser of the `serde_json` crate accepts; the result depends on the
/// text alone.
pub uninterp spec fn json_ok(s: Seq<char>) -> bool;

/// Relies on `serde_json::from_str::<serde_json::Value>`: parsing either
/// yields a value or an error, as a function of the text alone, and
/// `json_ok` names the texts on which it yields a value.
#[verifier::external_body]
pub fn check_json_text(s: &str) -> (r: bool)
    ensures
        r == json_ok(s@),
{
    serde_json::from_str::<serde_json::Value>(s).is_ok()
}

} // verus!
