//! Rendering a structured document as JSON text, for the body of a write
//! request. The text of a document is pinned down by the spec function
//! `json_text`; the executable writer is proved to produce exactly that.

use vstd::prelude::*;
use vstd::string::StrSliceExecFns;
use vstd::string::StringExecFns;

use crate::value::Json;
use crate::value::JsonValue;

verus! {

broadcast use vstd::seq::axiom_seq_index_decreases, vstd::std_specs::vec::axiom_vec_index_decreases;

/// The hexadecimal digit for `n`, lower case.
pub open spec fn hex_digit(n: int) -> char {
    if n == 0 { '0' } else if n == 1 { '1' } else if n == 2 { '2' } else if n == 3 { '3' }
    else if n == 4 { '4' } else if n == 5 { '5' } else if n == 6 { '6' } else if n == 7 { '7' }
    else if n == 8 { '8' } else if n == 9 { '9' } else if n == 10 { 'a' } else if n == 11 { 'b' }
    else if n == 12 { 'c' } else if n == 13 { 'd' } else if n == 14 { 'e' } else { 'f' }
}

/// How one character appears inside a JSON string literal: quote and
/// backslash get a backslash escape, control characters a `\u00..` escape,
/// every other character stands as itself.
pub open spec fn escape_char(c: char) -> Seq<char> {
    if c == '"' {
        seq!['\\', '"']
    } else if c == '\\' {
        seq!['\\', '\\']
    } else if (c as int) < 32 {
        seq!['\\', 'u', '0', '0', hex_digit((c as int) / 16), hex_digit((c as int) % 16)]
    } else {
        seq![c]
    }
}

pub open spec fn escape_string(s: Seq<char>) -> Seq<char>
    decreases s.len(),
{
    if s.len() == 0 {
        Seq::empty()
    } else {
        escape_string(s.drop_last()) + escape_char(s.last())
    }
}

/// A JSON string literal: the escaped characters between double quotes.
pub open spec fn quoted(s: Seq<char>) -> Seq<char> {
    seq!['"'] + escape_string(s) + seq!['"']
}

pub open spec fn dec_digit(n: int) -> char {
    if n == 0 { '0' } else if n == 1 { '1' } else if n == 2 { '2' } else if n == 3 { '3' }
    else if n == 4 { '4' } else if n == 5 { '5' } else if n == 6 { '6' } else if n == 7 { '7' }
    else if n == 8 { '8' } else { '9' }
}

/// The decimal digits of `n`, most significant first, no sign and no
/// leading zero (except for `n == 0` itself).
pub open spec fn dec_digits(n: nat) -> Seq<char>
    decreases n,
{
    if n < 10 {
        seq![dec_digit(n as int)]
    } else {
        dec_digits(n / 10) + seq![dec_digit((n % 10) as int)]
    }
}

/// A JSON number: an optional minus sign and the decimal digits.
pub open spec fn int_text(i: int) -> Seq<char> {
    if i < 0 {
        seq!['-'] + dec_digits((-i) as nat)
    } else {
        dec_digits(i as nat)
    }
}

/// The JSON text of a document. Mappings and sequences keep their order;
/// no whitespace is emitted.
pub open spec fn json_text(j: Json) -> Seq<char>
    decreases j, 0int,
{
    match j {
        Json::Null => seq!['n', 'u', 'l', 'l'],
        Json::Bool(b) => if b {
            seq!['t', 'r', 'u', 'e']
        } else {
            seq!['f', 'a', 'l', 's', 'e']
        },
        Json::Int(i) => int_text(i),
        Json::Str(s) => quoted(s),
        Json::Arr(elems) => seq!['['] + arr_text(elems, 0) + seq![']'],
        Json::Obj(fields) => seq!['{'] + obj_text(fields, 0) + seq!['}'],
    }
}

/// The comma-separated texts of the sequence elements from `i` on.
pub open spec fn arr_text(elems: Seq<Json>, i: int) -> Seq<char>
    decreases elems, elems.len() - i,
{
    if i < 0 || i >= elems.len() {
        Seq::empty()
    } else if i == elems.len() - 1 {
        json_text(elems[i])
    } else {
        json_text(elems[i]) + seq![','] + arr_text(elems, i + 1)
    }
}

/// The comma-separated `"key":value` texts of the mapping fields from `i` on.
pub open spec fn obj_text(fields: Seq<(Seq<char>, Json)>, i: int) -> Seq<char>
    decreases fields, fields.len() - i,
{
    if i < 0 || i >= fields.len() {
        Seq::empty()
    } else if i == fields.len() - 1 {
        quoted(fields[i].0) + seq![':'] + json_text(fields[i].1)
    } else {
        quoted(fields[i].0) + seq![':'] + json_text(fields[i].1) + seq![','] + obj_text(fields, i + 1)
    }
}

/// Relies on std's String::push: appends the one character.
#[verifier::external_body]
fn push_char(out: &mut String, c: char)
    ensures
        final(out)@ == old(out)@.push(c),
{
    out.push(c);
}

fn push_hex_digit(out: &mut String, n: u32)
    requires
        n < 16,
    ensures
        final(out)@ == old(out)@.push(hex_digit(n as int)),
{
    let c: char = match n {
        0 => '0', 1 => '1', 2 => '2', 3 => '3', 4 => '4', 5 => '5', 6 => '6', 7 => '7',
        8 => '8', 9 => '9', 10 => 'a', 11 => 'b', 12 => 'c', 13 => 'd', 14 => 'e', _ => 'f',
    };
    push_char(out, c);
}

/// Writes the JSON string literal for `s`.
fn write_quoted(s: &str, out: &mut String)
    ensures
        final(out)@ == old(out)@ + quoted(s@),
{
    let ghost base = out@;
    push_char(out, '"');
    let len = s.unicode_len();
    let mut i: usize = 0;
    while i < len
        invariant
            len == s@.len(),
            0 <= i <= len,
            out@ == base.push('"') + escape_string(s@.subrange(0, i as int)),
        decreases len - i,
    {
        let c = s.get_char(i);
        if c == '"' {
            push_char(out, '\\');
            push_char(out, '"');
        } else if c == '\\' {
            push_char(out, '\\');
            push_char(out, '\\');
        } else if (c as u32) < 32 {
            push_char(out, '\\');
            push_char(out, 'u');
            push_char(out, '0');
            push_char(out, '0');
            push_hex_digit(out, (c as u32) / 16);
            push_hex_digit(out, (c as u32) % 16);
        } else {
            push_char(out, c);
        }
        proof {
            let pre = s@.subrange(0, i as int);
            let post = s@.subrange(0, i as int + 1);
            assert(post.drop_last() =~= pre);
            assert(post.last() == s@[i as int]);
            assert(out@ =~= base.push('"') + escape_string(post));
        }
        i = i + 1;
    }
    push_char(out, '"');
    proof {
        assert(s@.subrange(0, len as int) =~= s@);
        assert(out@ =~= base + quoted(s@));
    }
}

/// Writes the decimal digits of `n`.
pub(crate) fn write_u64(n: u64, out: &mut String)
    ensures
        final(out)@ == old(out)@ + dec_digits(n as nat),
{
    let ghost base = out@;
    let mut low: Vec<char> = Vec::new();
    let mut m: u64 = n;
    while m >= 10
        invariant
            dec_digits(n as nat) =~= dec_digits(m as nat) + low@.reverse(),
        decreases m,
    {
        let d = m % 10;
        let dc: char = match d {
            0 => '0', 1 => '1', 2 => '2', 3 => '3', 4 => '4', 5 => '5', 6 => '6', 7 => '7',
            8 => '8', _ => '9',
        };
        proof {
            assert(dc == dec_digit((m % 10) as int));
            assert(low@.push(dc).reverse() =~= seq![dc] + low@.reverse());
            assert(dec_digits((m / 10) as nat) + seq![dc] + low@.reverse()
                =~= dec_digits((m / 10) as nat) + low@.push(dc).reverse());
        }
        low.push(dc);
        m = m / 10;
    }
    let dc: char = match m {
        0 => '0', 1 => '1', 2 => '2', 3 => '3', 4 => '4', 5 => '5', 6 => '6', 7 => '7',
        8 => '8', _ => '9',
    };
    proof {
        assert(dc == dec_digit(m as int));
    }
    push_char(out, dc);
    let mut k: usize = low.len();
    proof {
        assert(low@.reverse().subrange(0, 0) =~= Seq::<char>::empty());
        assert(out@ =~= base + seq![dec_digit(m as int)] + low@.reverse().subrange(0, 0));
    }
    while k > 0
        invariant
            0 <= k <= low@.len(),
            dec_digits(n as nat) =~= seq![dec_digit(m as int)] + low@.reverse(),
            out@ =~= base + seq![dec_digit(m as int)] + low@.reverse().subrange(
                0,
                low@.len() - k,
            ),
        decreases k,
    {
        let c = low[k - 1];
        push_char(out, c);
        proof {
            let r = low@.reverse();
            assert(c == r[low@.len() - k]);
            assert(r.subrange(0, low@.len() - (k - 1)) =~= r.subrange(0, low@.len() - k).push(c));
        }
        k = k - 1;
    }
    proof {
        assert(low@.reverse().subrange(0, low@.len() as int) =~= low@.reverse());
        assert(out@ =~= base + dec_digits(n as nat));
    }
}

/// Writes the JSON number for `i`.
fn write_i64(i: i64, out: &mut String)
    ensures
        final(out)@ == old(out)@ + int_text(i as int),
{
    if i >= 0 {
        write_u64(i as u64, out);
    } else {
        push_char(out, '-');
        let magnitude: u64 = if i == i64::MIN {
            9223372036854775808
        } else {
            (-i) as u64
        };
        proof {
            assert(magnitude as nat == (-(i as int)) as nat);
        }
        write_u64(magnitude, out);
        proof {
            assert(old(out)@.push('-') =~= old(out)@ + seq!['-']);
            assert(out@ =~= old(out)@ + int_text(i as int));
        }
    }
}

/// Writes the JSON text of `v` after what `out` already holds.
fn write_json(v: &JsonValue, out: &mut String)
    ensures
        final(out)@ == old(out)@ + json_text(v@),
    decreases v, 1int, 0int,
{
    match v {
        JsonValue::Null => {
            out.append("null");
            proof {
                reveal_strlit("null");
                assert("null"@ =~= seq!['n', 'u', 'l', 'l']);
            }
        },
        JsonValue::Bool(b) => {
            if *b {
                out.append("true");
                proof {
                    reveal_strlit("true");
                    assert("true"@ =~= seq!['t', 'r', 'u', 'e']);
                }
            } else {
                out.append("false");
                proof {
                    reveal_strlit("false");
                    assert("false"@ =~= seq!['f', 'a', 'l', 's', 'e']);
                }
            }
        },
        JsonValue::Int(n) => {
            write_i64(*n, out);
        },
        JsonValue::Str(s) => {
            write_quoted(s.as_str(), out);
        },
        JsonValue::Arr(items) => {
            write_arr(items, out);
        },
        JsonValue::Obj(fields) => {
            write_obj(fields, out);
        },
    }
}

/// Writes a JSON sequence: the elements' texts between brackets.
fn write_arr(items: &Vec<JsonValue>, out: &mut String)
    ensures
        final(out)@ == old(out)@ + json_text(Json::Arr(crate::value::arr_view(*items, 0))),
    decreases items, 0int, 1int,
{
    let ghost base = out@;
    let ghost elems = crate::value::arr_view(*items, 0);
    push_char(out, '[');
    proof {
        crate::value::lemma_arr_view_len(*items, 0);
        assert(out@ =~= base.push('[') + arr_text(elems, 0).subrange(0, 0));
    }
    let mut i: usize = 0;
    while i < items.len()
        invariant
            0 <= i <= items.len(),
            elems == crate::value::arr_view(*items, 0),
            elems.len() == items.len(),
            out@ + arr_text(elems, i as int) =~= base.push('[') + arr_text(elems, 0),
        decreases items.len() - i,
    {
        proof {
            crate::value::lemma_arr_view_index(*items, 0, i as int);
        }
        write_json(&items[i], out);
        if i + 1 < items.len() {
            push_char(out, ',');
            proof {
                assert(arr_text(elems, i as int) =~= json_text(elems[i as int]) + seq![',']
                    + arr_text(elems, i as int + 1));
            }
        } else {
            proof {
                assert(arr_text(elems, i as int) =~= json_text(elems[i as int]));
                assert(arr_text(elems, i as int + 1) =~= Seq::<char>::empty());
            }
        }
        i = i + 1;
    }
    push_char(out, ']');
    proof {
        assert(arr_text(elems, items.len() as int) =~= Seq::<char>::empty());
        assert(out@ =~= base + json_text(Json::Arr(elems)));
    }
}

/// Writes a JSON mapping: the fields' `"key":value` texts between braces.
fn write_obj(fields: &Vec<(String, JsonValue)>, out: &mut String)
    ensures
        final(out)@ == old(out)@ + json_text(Json::Obj(crate::value::obj_view(*fields, 0))),
    decreases fields, 0int, 1int,
{
    let ghost base = out@;
    let ghost model = crate::value::obj_view(*fields, 0);
    push_char(out, '{');
    proof {
        crate::value::lemma_obj_view_len(*fields, 0);
        assert(out@ =~= base.push('{') + obj_text(model, 0).subrange(0, 0));
    }
    let mut i: usize = 0;
    while i < fields.len()
        invariant
            0 <= i <= fields.len(),
            model == crate::value::obj_view(*fields, 0),
            model.len() == fields.len(),
            out@ + obj_text(model, i as int) =~= base.push('{') + obj_text(model, 0),
        decreases fields.len() - i,
    {
        proof {
            crate::value::lemma_obj_view_index(*fields, 0, i as int);
        }
        write_quoted(fields[i].0.as_str(), out);
        push_char(out, ':');
        write_json(&fields[i].1, out);
        if i + 1 < fields.len() {
            push_char(out, ',');
            proof {
                assert(obj_text(model, i as int) =~= quoted(model[i as int].0) + seq![':']
                    + json_text(model[i as int].1) + seq![','] + obj_text(model, i as int + 1));
            }
        } else {
            proof {
                assert(obj_text(model, i as int) =~= quoted(model[i as int].0) + seq![':']
                    + json_text(model[i as int].1));
                assert(obj_text(model, i as int + 1) =~= Seq::<char>::empty());
            }
        }
        i = i + 1;
    }
    push_char(out, '}');
    proof {
        assert(obj_text(model, fields.len() as int) =~= Seq::<char>::empty());
        assert(out@ =~= base + json_text(Json::Obj(model)));
    }
}

/// The JSON text of `v`, exactly as `json_text` states it.
pub fn to_json_string(v: &JsonValue) -> (r: String)
    ensures
        r@ == json_text(v@),
{
    let mut out = String::new();
    write_json(v, &mut out);
    out
}

} // verus!
