//! The JSON text form of the model in [`crate::json`].
//!
//! Requests are published to the broker as JSON bytes; [`json_text`] defines
//! the exact text a document serializes to, and [`json_to_string`] produces
//! it. Strings are quoted with `"`, backslash and the double quote escaped
//! with a backslash, and control characters written as `\n`, `\r`, `\t` or a
//! `\u00XX` escape.

use crate::json::{json_view, json_views, lemma_json_views, lemma_member_views, member_views,
    JsonValue, JsonView};
use vstd::prelude::*;

verus! {

broadcast use vstd::std_specs::vec::group_vec_axioms, vstd::seq::group_seq_axioms;

/// The hexadecimal digit for a value below sixteen.
pub open spec fn hex_digit(n: int) -> char {
    if n == 0 {
        '0'
    } else if n == 1 {
        '1'
    } else if n == 2 {
        '2'
    } else if n == 3 {
        '3'
    } else if n == 4 {
        '4'
    } else if n == 5 {
        '5'
    } else if n == 6 {
        '6'
    } else if n == 7 {
        '7'
    } else if n == 8 {
        '8'
    } else if n == 9 {
        '9'
    } else if n == 10 {
        'a'
    } else if n == 11 {
        'b'
    } else if n == 12 {
        'c'
    } else if n == 13 {
        'd'
    } else if n == 14 {
        'e'
    } else {
        'f'
    }
}

/// The text a single character contributes inside a JSON string literal.
pub open spec fn escaped_char(c: char) -> Seq<char> {
    if c == '"' {
        seq!['\\', '"']
    } else if c == '\\' {
        seq!['\\', '\\']
    } else if c == '\n' {
        seq!['\\', 'n']
    } else if c == '\r' {
        seq!['\\', 'r']
    } else if c == '\t' {
        seq!['\\', 't']
    } else if (c as int) < 0x20 {
        seq!['\\', 'u', '0', '0', hex_digit(c as int / 16), hex_digit(c as int % 16)]
    } else {
        seq![c]
    }
}

/// The escaped body of a JSON string literal.
pub open spec fn escaped(s: Seq<char>) -> Seq<char>
    decreases s.len(),
{
    if s.len() == 0 {
        Seq::empty()
    } else {
        escaped(s.drop_last()) + escaped_char(s.last())
    }
}

/// A complete JSON string literal: quotes around the escaped body.
pub open spec fn quoted(s: Seq<char>) -> Seq<char> {
    seq!['"'] + escaped(s) + seq!['"']
}

/// The text of a JSON document.
pub open spec fn json_text(v: JsonView) -> Seq<char>
    decreases v,
{
    match v {
        JsonView::Null => "null"@,
        JsonView::Bool(b) => if b {
            "true"@
        } else {
            "false"@
        },
        JsonView::Num(s) => s,
        JsonView::Str(s) => quoted(s),
        JsonView::Arr(xs) => seq!['['] + arr_text(xs) + seq![']'],
        JsonView::Obj(ms) => seq!['{'] + obj_text(ms) + seq!['}'],
    }
}

/// The comma-separated element list of a JSON array.
pub open spec fn arr_text(xs: Seq<JsonView>) -> Seq<char>
    decreases xs,
{
    if xs.len() == 0 {
        Seq::empty()
    } else if xs.len() == 1 {
        json_text(xs[0])
    } else {
        arr_text(xs.drop_last()) + seq![','] + json_text(xs.last())
    }
}

/// The comma-separated member list of a JSON object.
pub open spec fn obj_text(ms: Seq<(Seq<char>, JsonView)>) -> Seq<char>
    decreases ms,
{
    if ms.len() == 0 {
        Seq::empty()
    } else if ms.len() == 1 {
        quoted(ms[0].0) + seq![':'] + json_text(ms[0].1)
    } else {
        obj_text(ms.drop_last()) + seq![','] + quoted(ms.last().0) + seq![':'] + json_text(
            ms.last().1,
        )
    }
}

/// Relies on String::push: appends the given character to the string.
pub assume_specification[ String::push ](s: &mut String, c: char)
    ensures
        final(s)@ == old(s)@ + seq![c],
;

/// The hexadecimal digit character for a value below sixteen.
fn hex_digit_char(n: u32) -> (r: char)
    requires
        n < 16,
    ensures
        r == hex_digit(n as int),
{
    if n < 10 {
        (48u8 + n as u8) as char
    } else {
        (97u8 + (n - 10) as u8) as char
    }
}

/// Appends the escaped body of the given string to `out`.
fn write_escaped(s: &str, out: &mut String)
    ensures
        final(out)@ == old(out)@ + escaped(s@),
{
    let n = s.unicode_len();
    let mut i: usize = 0;
    while i < n
        invariant
            n == s@.len(),
            i <= n,
            out@ == old(out)@ + escaped(s@.take(i as int)),
        decreases n - i,
    {
        let c = s.get_char(i);
        if c == '"' {
            out.push('\\');
            out.push('"');
        } else if c == '\\' {
            out.push('\\');
            out.push('\\');
        } else if c == '\n' {
            out.push('\\');
            out.push('n');
        } else if c == '\r' {
            out.push('\\');
            out.push('r');
        } else if c == '\t' {
            out.push('\\');
            out.push('t');
        } else if (c as u32) < 0x20 {
            let code = c as u32;
            out.push('\\');
            out.push('u');
            out.push('0');
            out.push('0');
            out.push(hex_digit_char(code / 16));
            out.push(hex_digit_char(code % 16));
        } else {
            out.push(c);
        }
        proof {
            assert(s@.take(i + 1).drop_last() =~= s@.take(i as int));
            assert(s@.take(i + 1).last() == s@[i as int]);
            assert(out@ =~= old(out)@ + escaped(s@.take(i + 1)));
        }
        i = i + 1;
    }
    proof {
        assert(s@.take(n as int) =~= s@);
    }
}

/// Appends a complete JSON string literal for `s` to `out`.
fn write_quoted(s: &str, out: &mut String)
    ensures
        final(out)@ == old(out)@ + quoted(s@),
{
    out.push('"');
    write_escaped(s, out);
    out.push('"');
    proof {
        assert(out@ =~= old(out)@ + quoted(s@));
    }
}

/// Appends the text of the document to `out`.
fn write_json(v: &JsonValue, out: &mut String)
    ensures
        final(out)@ == old(out)@ + json_text(v@),
    decreases *v,
{
    match v {
        JsonValue::Null => {
            out.append("null");
        }
        JsonValue::Bool(b) => {
            if *b {
                out.append("true");
            } else {
                out.append("false");
            }
        }
        JsonValue::Num(s) => {
            out.append(s.as_str());
        }
        JsonValue::Str(s) => {
            write_quoted(s.as_str(), out);
        }
        JsonValue::Arr(xs) => {
            proof {
                lemma_json_views(xs@);
            }
            let ghost w = json_views(xs@);
            out.push('[');
            let n = xs.len();
            let mut i: usize = 0;
            while i < n
                invariant
                    *v == JsonValue::Arr(*xs),
                    n == xs@.len(),
                    i <= n,
                    w == json_views(xs@),
                    w.len() == n,
                    forall|j: int| 0 <= j < n ==> w[j] == json_view(xs@[j]),
                    out@ == old(out)@ + seq!['['] + arr_text(w.take(i as int)),
                decreases n - i,
            {
                if i > 0 {
                    out.push(',');
                }
                proof {
                    assert(decreases_to!(*v => (*v)->Arr_0));
                    assert((*v)->Arr_0 == *xs);
                    assert(decreases_to!(*xs => xs@));
                    assert(decreases_to!(xs@ => xs@[i as int]));
                    assert(decreases_to!(*v => xs@[i as int]));
                }
                write_json(&xs[i], out);
                proof {
                    assert(w.take(i + 1).drop_last() =~= w.take(i as int));
                    assert(w.take(i + 1).last() == w[i as int]);
                    assert(out@ =~= old(out)@ + seq!['['] + arr_text(w.take(i + 1)));
                }
                i = i + 1;
            }
            out.push(']');
            proof {
                assert(w.take(n as int) =~= w);
                assert(out@ =~= old(out)@ + json_text(v@));
            }
        }
        JsonValue::Obj(ps) => {
            proof {
                lemma_member_views(ps@);
            }
            let ghost w = member_views(ps@);
            out.push('{');
            let n = ps.len();
            let mut i: usize = 0;
            while i < n
                invariant
                    *v == JsonValue::Obj(*ps),
                    n == ps@.len(),
                    i <= n,
                    w == member_views(ps@),
                    w.len() == n,
                    forall|j: int| 0 <= j < n ==> w[j] == (ps@[j].0@, json_view(ps@[j].1)),
                    out@ == old(out)@ + seq!['{'] + obj_text(w.take(i as int)),
                decreases n - i,
            {
                if i > 0 {
                    out.push(',');
                }
                write_quoted(ps[i].0.as_str(), out);
                out.push(':');
                proof {
                    assert(decreases_to!(*v => (*v)->Obj_0));
                    assert((*v)->Obj_0 == *ps);
                    assert(decreases_to!(*ps => ps@));
                    assert(decreases_to!(ps@ => ps@[i as int]));
                    assert(decreases_to!(ps@[i as int] => ps@[i as int].1));
                    assert(decreases_to!(*v => ps@[i as int].1));
                }
                write_json(&ps[i].1, out);
                proof {
                    assert(w.take(i + 1).drop_last() =~= w.take(i as int));
                    assert(w.take(i + 1).last() == w[i as int]);
                    assert(out@ =~= old(out)@ + seq!['{'] + obj_text(w.take(i + 1)));
                }
                i = i + 1;
            }
            out.push('}');
            proof {
                assert(w.take(n as int) =~= w);
                assert(out@ =~= old(out)@ + json_text(v@));
            }
        }
    }
}

/// The JSON text of the given document.
pub fn json_to_string(v: &JsonValue) -> (r: String)
    ensures
        r@ == json_text(v@),
{
    let mut out = String::new();
    write_json(v, &mut out);
    out
}

} // verus!
