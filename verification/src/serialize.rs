//! Serializing a request to the JSON text handed to the evaluation engine
//! as its first positional argument.
//!
//! The wire shape is `{"method","pathname","query","headers"}` with
//! lower-camel-case field names; a single-valued parameter serializes as a
//! string, a multi-valued one as an array of strings.  String characters are
//! escaped as JSON requires: quote, backslash, and control characters.

use vstd::prelude::*;

use crate::messages::{params_rep, ParamRep, ParamValue, RequestRep, RouterRequest};
use crate::text::{emit_lit, string_from_chars};

verus! {

/// The lower-case hex digit of a nibble.
pub open spec fn spec_hex_digit(d: int) -> char {
    if d == 0 {
        '0'
    } else if d == 1 {
        '1'
    } else if d == 2 {
        '2'
    } else if d == 3 {
        '3'
    } else if d == 4 {
        '4'
    } else if d == 5 {
        '5'
    } else if d == 6 {
        '6'
    } else if d == 7 {
        '7'
    } else if d == 8 {
        '8'
    } else if d == 9 {
        '9'
    } else if d == 10 {
        'a'
    } else if d == 11 {
        'b'
    } else if d == 12 {
        'c'
    } else if d == 13 {
        'd'
    } else if d == 14 {
        'e'
    } else {
        'f'
    }
}

/// How one character appears inside a JSON string literal: quotes and
/// backslashes are escaped, control characters take the `\u00XX` form, and
/// every other character stands for itself.
pub open spec fn escaped_char(c: char) -> Seq<char> {
    if c == '"' {
        seq!['\\', '"']
    } else if c == '\\' {
        seq!['\\', '\\']
    } else if (c as u32) < 32 {
        seq!['\\', 'u', '0', '0', spec_hex_digit(c as u32 as int / 16), spec_hex_digit(
            c as u32 as int % 16,
        )]
    } else {
        seq![c]
    }
}

/// The escaped body of a JSON string literal.
pub open spec fn escaped(s: Seq<char>) -> Seq<char>
    decreases s.len(),
{
    if s.len() == 0 {
        Seq::empty()
    } else {
        escaped(s.drop_last()) + escaped_char(s.last())
    }
}

/// A JSON string literal holding `s`.
pub open spec fn json_string(s: Seq<char>) -> Seq<char> {
    seq!['"'] + escaped(s) + seq!['"']
}

/// The parts joined by commas, in order.
pub open spec fn joined(parts: Seq<Seq<char>>) -> Seq<char>
    decreases parts.len(),
{
    if parts.len() == 0 {
        Seq::empty()
    } else if parts.len() == 1 {
        parts[0]
    } else {
        joined(parts.drop_last()) + seq![','] + parts.last()
    }
}

/// The JSON text of one parameter value.
pub open spec fn param_json(p: ParamRep) -> Seq<char> {
    match p {
        ParamRep::Single(s) => json_string(s),
        ParamRep::Multiple(ss) => seq!['['] + joined(
            ss.map_values(|s: Seq<char>| json_string(s)),
        ) + seq![']'],
    }
}

/// The JSON text of one `"key":value` object member.
pub open spec fn entry_json(e: (Seq<char>, ParamRep)) -> Seq<char> {
    json_string(e.0) + seq![':'] + param_json(e.1)
}

/// The JSON object text of an ordered parameter mapping.
pub open spec fn params_json(ps: Seq<(Seq<char>, ParamRep)>) -> Seq<char> {
    seq!['{'] + joined(ps.map_values(|e: (Seq<char>, ParamRep)| entry_json(e))) + seq!['}']
}

/// The serialized form of a request: the first positional JSON argument of
/// the evaluation call.
pub open spec fn json_of_request(r: RequestRep) -> Seq<char> {
    "{\"method\":"@ + json_string(r.method) + ",\"pathname\":"@ + json_string(r.pathname)
        + ",\"query\":"@ + params_json(r.query) + ",\"headers\":"@ + params_json(r.headers) + "}"@
}

/// The lower-case hex digit of `d`.
fn hex_digit(d: u32) -> (r: char)
    requires
        d < 16,
    ensures
        r == spec_hex_digit(d as int),
{
    if d == 0 {
        '0'
    } else if d == 1 {
        '1'
    } else if d == 2 {
        '2'
    } else if d == 3 {
        '3'
    } else if d == 4 {
        '4'
    } else if d == 5 {
        '5'
    } else if d == 6 {
        '6'
    } else if d == 7 {
        '7'
    } else if d == 8 {
        '8'
    } else if d == 9 {
        '9'
    } else if d == 10 {
        'a'
    } else if d == 11 {
        'b'
    } else if d == 12 {
        'c'
    } else if d == 13 {
        'd'
    } else if d == 14 {
        'e'
    } else {
        'f'
    }
}

/// Appends the escaped form of one character.
fn emit_escaped_char(out: &mut Vec<char>, c: char)
    ensures
        final(out)@ == old(out)@ + escaped_char(c),
{
    if c == '"' {
        out.push('\\');
        out.push('"');
        proof {
            assert(out@ =~= old(out)@ + escaped_char(c));
        }
    } else if c == '\\' {
        out.push('\\');
        out.push('\\');
        proof {
            assert(out@ =~= old(out)@ + escaped_char(c));
        }
    } else if (c as u32) < 32 {
        out.push('\\');
        out.push('u');
        out.push('0');
        out.push('0');
        out.push(hex_digit((c as u32) / 16));
        out.push(hex_digit((c as u32) % 16));
        proof {
            assert(out@ =~= old(out)@ + escaped_char(c));
        }
    } else {
        out.push(c);
        proof {
            assert(out@ =~= old(out)@ + escaped_char(c));
        }
    }
}

/// Appends the JSON string literal holding `s`.
fn emit_json_string(out: &mut Vec<char>, s: &str)
    ensures
        final(out)@ == old(out)@ + json_string(s@),
{
    out.push('"');
    let n = s.unicode_len();
    let mut i: usize = 0;
    while i < n
        invariant
            n == s@.len(),
            i <= n,
            out@ == old(out)@ + seq!['"'] + escaped(s@.take(i as int)),
        decreases n - i,
    {
        let c = s.get_char(i);
        emit_escaped_char(out, c);
        proof {
            assert(s@.take(i + 1).drop_last() =~= s@.take(i as int));
            assert(s@.take(i + 1).last() == s@[i as int]);
            assert(escaped(s@.take(i + 1)) == escaped(s@.take(i as int)) + escaped_char(
                s@[i as int],
            ));
        }
        i = i + 1;
    }
    out.push('"');
    proof {
        assert(s@.take(n as int) =~= s@);
        assert(out@ =~= old(out)@ + json_string(s@));
    }
}

/// Appends the comma-joined JSON string literals of `ss`, without brackets.
fn emit_joined_strings(out: &mut Vec<char>, ss: &Vec<String>)
    ensures
        final(out)@ == old(out)@ + joined(
            ss@.map_values(|s: String| s@).map_values(|s: Seq<char>| json_string(s)),
        ),
{
    let ghost parts = ss@.map_values(|s: String| s@).map_values(|s: Seq<char>| json_string(s));
    let n = ss.len();
    let mut j: usize = 0;
    while j < n
        invariant
            n == ss@.len(),
            j <= n,
            parts == ss@.map_values(|s: String| s@).map_values(|s: Seq<char>| json_string(s)),
            parts.len() == n,
            out@ == old(out)@ + joined(parts.take(j as int)),
        decreases n - j,
    {
        if j > 0 {
            out.push(',');
        }
        emit_json_string(out, ss[j].as_str());
        proof {
            assert(parts.take(j + 1).drop_last() =~= parts.take(j as int));
            assert(parts.take(j + 1).last() == parts[j as int]);
            assert(parts[j as int] == json_string(ss@[j as int]@));
            if j == 0 {
                assert(joined(parts.take(j + 1)) == parts[j as int]);
                assert(out@ =~= old(out)@ + joined(parts.take(j + 1)));
            } else {
                assert(joined(parts.take(j + 1)) == joined(parts.take(j as int)) + seq![',']
                    + parts[j as int]);
                assert(out@ =~= old(out)@ + joined(parts.take(j + 1)));
            }
        }
        j = j + 1;
    }
    proof {
        assert(parts.take(n as int) =~= parts);
    }
}

/// Appends the JSON text of one parameter value.
fn emit_param(out: &mut Vec<char>, p: &ParamValue)
    ensures
        final(out)@ == old(out)@ + param_json(p@),
{
    match p {
        ParamValue::Single(s) => {
            emit_json_string(out, s.as_str());
        },
        ParamValue::Multiple(ss) => {
            out.push('[');
            emit_joined_strings(out, ss);
            out.push(']');
            proof {
                assert(out@ =~= old(out)@ + param_json(p@));
            }
        },
    }
}

/// Appends the JSON object text of an ordered parameter mapping.
fn emit_params(out: &mut Vec<char>, ps: &Vec<(String, ParamValue)>)
    ensures
        final(out)@ == old(out)@ + params_json(params_rep(ps@)),
{
    let ghost parts = params_rep(ps@).map_values(|e: (Seq<char>, ParamRep)| entry_json(e));
    out.push('{');
    let n = ps.len();
    let mut j: usize = 0;
    while j < n
        invariant
            n == ps@.len(),
            j <= n,
            parts == params_rep(ps@).map_values(|e: (Seq<char>, ParamRep)| entry_json(e)),
            parts.len() == n,
            out@ == old(out)@ + seq!['{'] + joined(parts.take(j as int)),
        decreases n - j,
    {
        if j > 0 {
            out.push(',');
        }
        emit_json_string(out, ps[j].0.as_str());
        out.push(':');
        emit_param(out, &ps[j].1);
        proof {
            assert(parts.take(j + 1).drop_last() =~= parts.take(j as int));
            assert(parts.take(j + 1).last() == parts[j as int]);
            assert(parts[j as int] == entry_json((ps@[j as int].0@, ps@[j as int].1@)));
            if j == 0 {
                assert(joined(parts.take(j + 1)) == parts[j as int]);
            } else {
                assert(joined(parts.take(j + 1)) == joined(parts.take(j as int)) + seq![',']
                    + parts[j as int]);
            }
            assert(out@ =~= old(out)@ + seq!['{'] + joined(parts.take(j + 1)));
        }
        j = j + 1;
    }
    out.push('}');
    proof {
        assert(parts.take(n as int) =~= parts);
        assert(out@ =~= old(out)@ + params_json(params_rep(ps@)));
    }
}

/// Serializes a request to the JSON text handed to the evaluation engine.
pub fn serialize_request(req: &RouterRequest) -> (r: String)
    ensures
        r@ == json_of_request(req@),
{
    let mut out: Vec<char> = Vec::new();
    emit_lit(&mut out, "{\"method\":");
    emit_json_string(&mut out, req.method.as_str());
    emit_lit(&mut out, ",\"pathname\":");
    emit_json_string(&mut out, req.pathname.as_str());
    emit_lit(&mut out, ",\"query\":");
    emit_params(&mut out, &req.query.0);
    emit_lit(&mut out, ",\"headers\":");
    emit_params(&mut out, &req.headers.0);
    out.push('}');
    proof {
        reveal_strlit("}");
        assert("}"@ =~= seq!['}']);
        assert(out@ =~= json_of_request(req@));
    }
    string_from_chars(out)
}

} // verus!
