//! Compact JSON text of a `JsonValue`, as `serde_json::to_string` writes it:
//! no white space, fields in order, and strings escaped with `\"`, `\\`,
//! the short escapes `\b \f \n \r \t`, and `\u00XX` (lowercase hex) for the
//! other control characters.

use vstd::prelude::*;
use crate::json::{Json, JsonNum, JsonNumber, JsonValue, models_of, field_models_of, lemma_models_of_index, lemma_field_models_of_index};
use crate::text::{chars_of, spec_decimal, string_of, u64_to_string};

verus! {

pub open spec fn hex_digit(d: u32) -> char {
    if d < 10 { ((48 + d) as u32) as char } else { ((87 + d) as u32) as char }
}

/// The JSON text of one character inside a string literal.
pub open spec fn escape_char(c: char) -> Seq<char> {
    if c == '"' {
        seq!['\\', '"']
    } else if c == '\\' {
        seq!['\\', '\\']
    } else if c == '\n' {
        seq!['\\', 'n']
    } else if c == '\r' {
        seq!['\\', 'r']
    } else if c == '\t' {
        seq!['\\', 't']
    } else if (c as u32) == 8 {
        seq!['\\', 'b']
    } else if (c as u32) == 12 {
        seq!['\\', 'f']
    } else if (c as u32) < 32 {
        seq!['\\', 'u', '0', '0', hex_digit((c as u32) / 16), hex_digit((c as u32) % 16)]
    } else {
        seq![c]
    }
}

pub open spec fn escape_str(s: Seq<char>) -> Seq<char>
    decreases s.len(),
{
    if s.len() == 0 {
        Seq::empty()
    } else {
        escape_str(s.drop_last()) + escape_char(s.last())
    }
}

/// A JSON string literal.
pub open spec fn quoted(s: Seq<char>) -> Seq<char> {
    seq!['"'] + escape_str(s) + seq!['"']
}

/// Decimal text of a JSON number.
pub open spec fn number_text(n: JsonNum) -> Seq<char> {
    match n {
        JsonNum::PosInt(u) => spec_decimal(u as nat),
        JsonNum::NegInt(i) => if i < 0 { seq!['-'] + spec_decimal((-(i as int)) as nat) } else { spec_decimal(i as nat) },
        JsonNum::Float(t) => t,
    }
}

/// Compact JSON text of a value.
pub open spec fn json_text(j: Json) -> Seq<char>
    decreases j,
{
    match j {
        Json::Null => "null"@,
        Json::Bool(b) => if b { "true"@ } else { "false"@ },
        Json::Number(n) => number_text(n),
        Json::Str(s) => quoted(s),
        Json::Array(a) => seq!['['] + join_values(a) + seq![']'],
        Json::Object(f) => seq!['{'] + join_fields(f) + seq!['}'],
    }
}

/// Values separated by commas.
pub open spec fn join_values(a: Seq<Json>) -> Seq<char>
    decreases a,
{
    if a.len() == 0 {
        Seq::empty()
    } else if a.len() == 1 {
        json_text(a[0])
    } else {
        join_values(a.drop_last()) + seq![','] + json_text(a.last())
    }
}

/// `"name":value` pairs separated by commas.
pub open spec fn join_fields(f: Seq<(Seq<char>, Json)>) -> Seq<char>
    decreases f,
{
    if f.len() == 0 {
        Seq::empty()
    } else if f.len() == 1 {
        proof { assert(decreases_to!(f => f[0])); }
        quoted(f[0].0) + seq![':'] + json_text(f[0].1)
    } else {
        proof { assert(decreases_to!(f => f.last())); }
        join_fields(f.drop_last()) + seq![','] + quoted(f.last().0) + seq![':'] + json_text(f.last().1)
    }
}

fn push_hex(out: &mut Vec<char>, d: u32)
    requires
        d < 16,
    ensures
        final(out)@ == old(out)@.push(hex_digit(d)),
{
    let c: char = if d < 10 { ((48 + d) as u8) as char } else { ((87 + d) as u8) as char };
    assert(c == hex_digit(d)) by {
        assert(d < 10 ==> ((48 + d) as u8) as char == ((48 + d) as u32) as char);
        assert(d >= 10 ==> ((87 + d) as u8) as char == ((87 + d) as u32) as char);
    }
    out.push(c);
}

/// Appends the escaped text of `c`.
fn push_escaped(out: &mut Vec<char>, c: char)
    ensures
        final(out)@ == old(out)@ + escape_char(c),
{
    let u = c as u32;
    if c == '"' {
        out.push('\\');
        out.push('"');
    } else if c == '\\' {
        out.push('\\');
        out.push('\\');
    } else if c == '\n' {
        out.push('\\');
        out.push('n');
    } else if c == '\r' {
        out.push('\\');
        out.push('r');
    } else if c == '\t' {
        out.push('\\');
        out.push('t');
    } else if u == 8 {
        out.push('\\');
        out.push('b');
    } else if u == 12 {
        out.push('\\');
        out.push('f');
    } else if u < 32 {
        out.push('\\');
        out.push('u');
        out.push('0');
        out.push('0');
        push_hex(out, u / 16);
        push_hex(out, u % 16);
    } else {
        out.push(c);
    }
    assert(out@ =~= old(out)@ + escape_char(c));
}

/// Appends the JSON string literal of `s`.
pub fn push_quoted(out: &mut Vec<char>, s: &str)
    ensures
        final(out)@ == old(out)@ + quoted(s@),
{
    let cs = chars_of(s);
    let ghost start = out@;
    out.push('"');
    let mut i: usize = 0;
    while i < cs.len()
        invariant
            0 <= i <= cs.len(),
            cs@ == s@,
            out@ == start + seq!['"'] + escape_str(cs@.take(i as int)),
        decreases cs.len() - i,
    {
        push_escaped(out, cs[i]);
        assert(cs@.take(i + 1).drop_last() =~= cs@.take(i as int));
        i = i + 1;
    }
    assert(cs@.take(cs@.len() as int) =~= cs@);
    out.push('"');
    assert(out@ =~= start + quoted(s@));
}

fn push_str(out: &mut Vec<char>, s: &str)
    ensures
        final(out)@ == old(out)@ + s@,
{
    let mut cs = chars_of(s);
    out.append(&mut cs);
}

fn push_number(out: &mut Vec<char>, n: &JsonNumber)
    ensures
        final(out)@ == old(out)@ + number_text(n.model()),
{
    match n {
        JsonNumber::PosInt(u) => {
            let t = u64_to_string(*u);
            push_str(out, t.as_str());
        },
        JsonNumber::NegInt(i) => {
            if *i < 0 {
                out.push('-');
                let m: u64 = if *i == i64::MIN { 9223372036854775808u64 } else { (-*i) as u64 };
                let t = u64_to_string(m);
                let ghost mid = out@;
                push_str(out, t.as_str());
                assert(out@ =~= old(out)@ + (seq!['-'] + spec_decimal((-(*i as int)) as nat)));
            } else {
                let t = u64_to_string(*i as u64);
                push_str(out, t.as_str());
            }
        },
        JsonNumber::Float(t) => push_str(out, t.as_str()),
    }
}

/// Appends the compact JSON text of `v`.
#[verifier::loop_isolation(false)]
pub fn write_json(out: &mut Vec<char>, v: &JsonValue)
    ensures
        final(out)@ == old(out)@ + json_text(v@),
    decreases v,
{
    let ghost start = out@;
    match v {
        JsonValue::Null => push_str(out, "null"),
        JsonValue::Bool(b) => if *b { push_str(out, "true") } else { push_str(out, "false") },
        JsonValue::Number(n) => push_number(out, n),
        JsonValue::String(s) => push_quoted(out, s.as_str()),
        JsonValue::Array(a) => {
            proof { lemma_models_of_index(a@); }
            let ghost m = models_of(a@);
            out.push('[');
            let mut i: usize = 0;
            while i < a.len()
                invariant
                    0 <= i <= a.len(),
                    m == models_of(a@),
                    m.len() == a@.len(),
                    out@ == start + seq!['['] + join_values(m.take(i as int)),
                decreases a.len() - i,
            {
                assert(decreases_to!(v => a@[i as int]));
                let ghost before = out@;
                if i > 0 {
                    out.push(',');
                }
                write_json(out, &a[i]);
                assert(m.take(i + 1).drop_last() =~= m.take(i as int));
                if i == 0 {
                    assert(before =~= start + seq!['[']);
                }
                i = i + 1;
            }
            assert(m.take(m.len() as int) =~= m);
            out.push(']');
            assert(out@ =~= start + json_text(v@));
        },
        JsonValue::Object(f) => {
            proof { lemma_field_models_of_index(f@); }
            let ghost m = field_models_of(f@);
            out.push('{');
            let mut i: usize = 0;
            while i < f.len()
                invariant
                    0 <= i <= f.len(),
                    m == field_models_of(f@),
                    m.len() == f@.len(),
                    out@ == start + seq!['{'] + join_fields(m.take(i as int)),
                decreases f.len() - i,
            {
                assert(decreases_to!(v => f@[i as int].1));
                let ghost before = out@;
                if i > 0 {
                    out.push(',');
                }
                push_quoted(out, f[i].0.as_str());
                out.push(':');
                write_json(out, &f[i].1);
                assert(m.take(i + 1).drop_last() =~= m.take(i as int));
                if i == 0 {
                    assert(before =~= start + seq!['{']);
                }
                i = i + 1;
            }
            assert(m.take(m.len() as int) =~= m);
            out.push('}');
            assert(out@ =~= start + json_text(v@));
        },
    }
}

/// `serde_json::to_string` of a value.
pub fn to_json_string(v: &JsonValue) -> (r: String)
    ensures
        r@ == json_text(v@),
{
    let mut out: Vec<char> = Vec::new();
    write_json(&mut out, v);
    assert(out@ =~= json_text(v@));
    string_of(out.as_slice())
}


/// The fields' text starts with the first field's quoted name.
pub proof fn lemma_fields_start(f: Seq<(Seq<char>, Json)>)
    requires
        f.len() >= 1,
    ensures
        quoted(f[0].0).is_prefix_of(join_fields(f)),
    decreases f.len(),
{
    let q = quoted(f[0].0);
    if f.len() == 1 {
        assert((q + seq![':'] + json_text(f[0].1)).subrange(0, q.len() as int) =~= q);
    } else {
        let g = f.drop_last();
        lemma_fields_start(g);
        assert(g[0] == f[0]);
        let rest = seq![','] + quoted(f.last().0) + seq![':'] + json_text(f.last().1);
        assert(join_fields(f) =~= join_fields(g) + rest);
        assert((join_fields(g) + rest).subrange(0, q.len() as int) =~= join_fields(g).subrange(0, q.len() as int));
    }
}

/// The text of an object with at least one field starts with `{` and the
/// first field's quoted name.
pub proof fn lemma_object_starts_with_first_key(f: Seq<(Seq<char>, Json)>)
    requires
        f.len() >= 1,
    ensures
        (seq!['{'] + quoted(f[0].0)).is_prefix_of(json_text(Json::Object(f))),
{
    lemma_fields_start(f);
    let q = quoted(f[0].0);
    let t = json_text(Json::Object(f));
    assert(t =~= seq!['{'] + join_fields(f) + seq!['}']);
    assert(t.subrange(0, 1 + q.len() as int) =~= seq!['{'] + join_fields(f).subrange(0, q.len() as int));
}

} // verus!
