//! Harness assembly: the prologue and epilogue wrapped around user code
//! so that its return value reaches the sentinel-framed result channel.
//!
//! The Python harness embeds the configuration and parameter JSON inside
//! single-quoted Python strings; [`py_escaped`] is the escaping that makes
//! that embedding safe, and it is proved injective, so two different
//! payloads can never embed to the same text.

use vstd::prelude::*;
use crate::json::json_escaped;
use crate::text::{push_str_chars, string_from_chars};

verus! {

/// How one character is written inside the harness's single-quoted
/// embedded strings: backslashes are doubled and both quote kinds gain a
/// backslash.
pub open spec fn py_escape_char(c: char) -> Seq<char> {
    if c == '\\' {
        seq!['\\', '\\']
    } else if c == '\'' {
        seq!['\\', '\'']
    } else if c == '"' {
        seq!['\\', '"']
    } else {
        seq![c]
    }
}

/// The embedded form of `s`.
pub open spec fn py_escaped(s: Seq<char>) -> Seq<char>
    decreases s.len(),
{
    if s.len() == 0 {
        Seq::empty()
    } else {
        py_escape_char(s[0]) + py_escaped(s.drop_first())
    }
}

proof fn lemma_py_escaped_snoc(s: Seq<char>, c: char)
    ensures
        py_escaped(s.push(c)) == py_escaped(s) + py_escape_char(c),
    decreases s.len(),
{
    if s.len() == 0 {
        assert(s.push(c)[0] == c);
        assert(s.push(c).drop_first() =~= Seq::<char>::empty());
        assert(py_escaped(Seq::<char>::empty()) =~= Seq::<char>::empty());
        assert(py_escaped(s.push(c)) =~= py_escaped(s) + py_escape_char(c));
    } else {
        lemma_py_escaped_snoc(s.drop_first(), c);
        assert(s.push(c).drop_first() =~= s.drop_first().push(c));
        assert(py_escaped(s.push(c)) =~= py_escaped(s) + py_escape_char(c));
    }
}

/// The embedding is injective: different texts never escape to the same
/// embedded form, so nothing a caller passes can collide with or break
/// out of the quoting.
pub proof fn lemma_py_escaped_injective(a: Seq<char>, b: Seq<char>)
    requires
        py_escaped(a) == py_escaped(b),
    ensures
        a == b,
    decreases a.len(),
{
    if a.len() == 0 {
        if b.len() > 0 {
            assert(py_escaped(b).len() >= py_escape_char(b[0]).len()) by {
                assert(py_escaped(b) == py_escape_char(b[0]) + py_escaped(b.drop_first()));
            }
            assert(false);
        }
        assert(a =~= b);
    } else if b.len() == 0 {
        assert(py_escaped(a).len() >= py_escape_char(a[0]).len());
        assert(false);
    } else {
        let ea = py_escape_char(a[0]);
        let eb = py_escape_char(b[0]);
        assert(py_escaped(a) == ea + py_escaped(a.drop_first()));
        assert(py_escaped(b) == eb + py_escaped(b.drop_first()));
        let escaped_a = a[0] == '\\' || a[0] == '\'' || a[0] == '"';
        let escaped_b = b[0] == '\\' || b[0] == '\'' || b[0] == '"';
        assert(py_escaped(a)[0] == ea[0]);
        assert(py_escaped(b)[0] == eb[0]);
        if escaped_a != escaped_b {
            if escaped_a {
                assert(ea[0] == '\\' && eb[0] == b[0] && b[0] != '\\');
            } else {
                assert(eb[0] == '\\' && ea[0] == a[0] && a[0] != '\\');
            }
            assert(false);
        }
        if escaped_a && escaped_b {
            assert(py_escaped(a)[1] == ea[1]);
            assert(py_escaped(b)[1] == eb[1]);
            assert(ea[1] == eb[1]);
            assert(a[0] == b[0]);
        } else {
            assert(ea[0] == a[0] && eb[0] == b[0]);
            assert(a[0] == b[0]);
        }
        assert(ea == eb);
        let ta = py_escaped(a.drop_first());
        let tb = py_escaped(b.drop_first());
        assert(ta =~= (ea + ta).subrange(ea.len() as int, (ea + ta).len() as int));
        assert(tb =~= (eb + tb).subrange(eb.len() as int, (eb + tb).len() as int));
        assert(ta == tb);
        lemma_py_escaped_injective(a.drop_first(), b.drop_first());
        assert(a.len() == b.len());
        assert forall|k: int| 0 <= k < a.len() implies a[k] == b[k] by {
            if k >= 1 {
                assert(a.drop_first()[k - 1] == b.drop_first()[k - 1]);
            }
        }
        assert(a =~= b);
    }
}

/// Append the embedded form of `s` to `out`.
pub fn push_py_escaped(out: &mut Vec<char>, s: &Vec<char>)
    ensures
        final(out)@ == old(out)@ + py_escaped(s@),
{
    let mut i: usize = 0;
    while i < s.len()
        invariant
            i <= s@.len(),
            out@ == old(out)@ + py_escaped(s@.subrange(0, i as int)),
        decreases s@.len() - i,
    {
        let c = s[i];
        if c == '\\' {
            out.push('\\');
            out.push('\\');
        } else if c == '\'' {
            out.push('\\');
            out.push('\'');
        } else if c == '"' {
            out.push('\\');
            out.push('"');
        } else {
            out.push(c);
        }
        proof {
            lemma_py_escaped_snoc(s@.subrange(0, i as int), s@[i as int]);
            assert(s@.subrange(0, i as int).push(s@[i as int]) =~= s@.subrange(0, i + 1));
            assert(out@ =~= old(out)@ + py_escaped(s@.subrange(0, i + 1)));
        }
        i = i + 1;
    }
    proof {
        assert(s@.subrange(0, s@.len() as int) =~= s@);
    }
}

/// The fixed middle of the Python harness: the imports, the fallback JSON
/// encoder, the dump helper, and the opening of the configuration decode.
pub open spec fn py_part_imports() -> Seq<char> {
    "\nimport asyncio\nimport jsonpickle\nimport json\n\nclass TrickyJsonEncoder(json.JSONEncoder):\n    def default(self, obj):\n        if isinstance(obj, (list, tuple)):\n            return [self.default(item) for item in obj]\n        elif isinstance(obj, dict):\n            return {key: self.default(value) for key, value in obj.items()}\n        elif isinstance(obj, set):\n            return list(obj)\n        elif isinstance(obj, bytes):\n            return obj.decode('utf-8')\n        elif isinstance(obj, object) and hasattr(obj, '__dict__'):\n            return {key: self.default(value) for key, value in obj.__dict__.items() if not key.startswith('__')}\n        elif isinstance(obj, str):\n            return obj\n        elif obj is None:\n            return None\n        elif hasattr(obj,'__iter__'):\n            return list(obj)\n        else:\n            print(\"warning: trying to serialize an unknown type\", type(obj), obj)\n            return str(obj)\n\ndef tricky_json_dump(obj):\n    jsonpickle_encoded = jsonpickle.encode(obj, unpicklable=False, make_refs=False, indent=4)\n    jsonpickle_decoded = jsonpickle.decode(jsonpickle_encoded, reset=True)\n    custom_json_dump = json.dumps(jsonpickle_decoded, indent=4, cls=TrickyJsonEncoder)\n    return custom_json_dump\n\nconfigurations = jsonpickle.decode('"@
}

/// Between the two embedded strings.
pub open spec fn py_part_between() -> Seq<char> {
    "')\nparameters = jsonpickle.decode('"@
}

/// The fixed tail: run the user function, drive a coroutine to
/// completion, and print the sentinel-framed result.
pub open spec fn py_part_tail() -> Seq<char> {
    "')\n\nresult = run(configurations, parameters)\nif asyncio.iscoroutine(result):\n    result = asyncio.run(result)\n\nserialized_result = tricky_json_dump(result)\n\nprint(\"<shinkai-code-result>\")\nprint(serialized_result)\nprint(\"</shinkai-code-result>\")\n"@
}

/// The wrapped Python entrypoint: the user code, the fixed epilogue, and
/// the two embedded JSON payloads in their escaped form.
pub open spec fn python_harness(code: Seq<char>, cfg: Seq<char>, params: Seq<char>) -> Seq<char> {
    seq!['\n'] + code + py_part_imports() + py_escaped(cfg) + py_part_between() + py_escaped(
        params,
    ) + py_part_tail()
}

/// Assemble the wrapped Python entrypoint for the given user code and the
/// serialized, tagged configuration and parameter payloads.
pub fn build_python_harness(code: &str, cfg: &Vec<char>, params: &Vec<char>) -> (r: String)
    ensures
        r@ == python_harness(code@, cfg@, params@),
{
    let mut out: Vec<char> = Vec::new();
    out.push('\n');
    push_str_chars(&mut out, code);
    push_str_chars(
        &mut out,
        "\nimport asyncio\nimport jsonpickle\nimport json\n\nclass TrickyJsonEncoder(json.JSONEncoder):\n    def default(self, obj):\n        if isinstance(obj, (list, tuple)):\n            return [self.default(item) for item in obj]\n        elif isinstance(obj, dict):\n            return {key: self.default(value) for key, value in obj.items()}\n        elif isinstance(obj, set):\n            return list(obj)\n        elif isinstance(obj, bytes):\n            return obj.decode('utf-8')\n        elif isinstance(obj, object) and hasattr(obj, '__dict__'):\n            return {key: self.default(value) for key, value in obj.__dict__.items() if not key.startswith('__')}\n        elif isinstance(obj, str):\n            return obj\n        elif obj is None:\n            return None\n        elif hasattr(obj,'__iter__'):\n            return list(obj)\n        else:\n            print(\"warning: trying to serialize an unknown type\", type(obj), obj)\n            return str(obj)\n\ndef tricky_json_dump(obj):\n    jsonpickle_encoded = jsonpickle.encode(obj, unpicklable=False, make_refs=False, indent=4)\n    jsonpickle_decoded = jsonpickle.decode(jsonpickle_encoded, reset=True)\n    custom_json_dump = json.dumps(jsonpickle_decoded, indent=4, cls=TrickyJsonEncoder)\n    return custom_json_dump\n\nconfigurations = jsonpickle.decode('",
    );
    push_py_escaped(&mut out, cfg);
    push_str_chars(&mut out, "')\nparameters = jsonpickle.decode('");
    push_py_escaped(&mut out, params);
    push_str_chars(
        &mut out,
        "')\n\nresult = run(configurations, parameters)\nif asyncio.iscoroutine(result):\n    result = asyncio.run(result)\n\nserialized_result = tricky_json_dump(result)\n\nprint(\"<shinkai-code-result>\")\nprint(serialized_result)\nprint(\"</shinkai-code-result>\")\n",
    );
    proof {
        assert(out@ =~= python_harness(code@, cfg@, params@));
    }
    string_from_chars(&out)
}

/// The wrapper that prints a tool's exported definition between the
/// definition sentinels.
pub open spec fn tool_definition_harness(code: Seq<char>) -> Seq<char> {
    seq!['\n'] + code
        + "\nconsole.log(\"<shinkai-tool-definition>\");\nconsole.log(JSON.stringify(definition));\nconsole.log(\"</shinkai-tool-definition>\");\n"@
}

pub fn build_tool_definition_harness(code: &str) -> (r: String)
    ensures
        r@ == tool_definition_harness(code@),
{
    let mut out: Vec<char> = Vec::new();
    out.push('\n');
    push_str_chars(&mut out, code);
    push_str_chars(
        &mut out,
        "\nconsole.log(\"<shinkai-tool-definition>\");\nconsole.log(JSON.stringify(definition));\nconsole.log(\"</shinkai-tool-definition>\");\n",
    );
    proof {
        assert(out@ =~= tool_definition_harness(code@));
    }
    string_from_chars(&out)
}

/// The wrapper that invokes a tool's `run` with the configuration JSON
/// and the parameter JSON (handed over as one JSON string literal) and
/// prints the result between the result sentinels.
pub open spec fn tool_run_harness(code: Seq<char>, cfg: Seq<char>, params: Seq<char>) -> Seq<
    char,
> {
    seq!['\n'] + code + "\nconst configurations = JSON.parse("@ + cfg
        + ");\nconst parameters = JSON.parse("@ + (seq!['"'] + json_escaped(params) + seq!['"'])
        + ");\n\nconst result = await run(configurations, parameters);\nconsole.log(\"<shinkai-tool-result>\");\nconsole.log(JSON.stringify(result));\nconsole.log(\"</shinkai-tool-result>\");\n"@
}

pub fn build_tool_run_harness(code: &str, cfg: &Vec<char>, params: &Vec<char>) -> (r: String)
    ensures
        r@ == tool_run_harness(code@, cfg@, params@),
{
    let mut out: Vec<char> = Vec::new();
    out.push('\n');
    push_str_chars(&mut out, code);
    push_str_chars(&mut out, "\nconst configurations = JSON.parse(");
    crate::text::push_chars(&mut out, cfg);
    push_str_chars(&mut out, ");\nconst parameters = JSON.parse(");
    out.push('"');
    crate::json::push_json_escaped(&mut out, params);
    out.push('"');
    push_str_chars(
        &mut out,
        ");\n\nconst result = await run(configurations, parameters);\nconsole.log(\"<shinkai-tool-result>\");\nconsole.log(JSON.stringify(result));\nconsole.log(\"</shinkai-tool-result>\");\n",
    );
    proof {
        assert(out@ =~= tool_run_harness(code@, cfg@, params@));
    }
    string_from_chars(&out)
}

} // verus!
