//! The nested value tree that request and response bodies are decoded from
//! and encoded to, with an exact serializer.

use vstd::prelude::*;
use crate::text::{
    bool_text, bool_to_text, hex_digit, hex_digit_str, i64_to_dec, int_to_dec, push_char,
};

verus! {

broadcast use vstd::std_specs::vec::group_vec_axioms, vstd::seq::axiom_seq_index_decreases;

/// Mathematical model of a JSON document.
#[verifier::ext_equal]
pub enum JsonSpec {
    Null,
    Bool(bool),
    Int(int),
    Text(Seq<char>),
    Arr(Seq<JsonSpec>),
    Obj(Seq<JsonMemberSpec>),
}

/// Mathematical model of one object member.
#[verifier::ext_equal]
pub struct JsonMemberSpec {
    pub key: Seq<char>,
    pub value: JsonSpec,
}

/// A decoded JSON document. Numbers are restricted to integers, which is all
/// the API's payloads carry.
#[derive(Debug)]
pub enum JsonValue {
    Null,
    Bool(bool),
    Int(i64),
    Text(String),
    Arr(Vec<JsonValue>),
    Obj(Vec<JsonMember>),
}

/// One `key: value` member of a decoded JSON object.
#[derive(Debug)]
pub struct JsonMember {
    pub key: String,
    pub value: JsonValue,
}

impl View for JsonMember {
    type V = JsonMemberSpec;

    open spec fn view(&self) -> JsonMemberSpec
        decreases self,
    {
        JsonMemberSpec { key: self.key@, value: self.value@ }
    }
}

impl View for JsonValue {
    type V = JsonSpec;

    open spec fn view(&self) -> JsonSpec
        decreases self,
    {
        match self {
            JsonValue::Null => JsonSpec::Null,
            JsonValue::Bool(b) => JsonSpec::Bool(*b),
            JsonValue::Int(n) => JsonSpec::Int(*n as int),
            JsonValue::Text(s) => JsonSpec::Text(s@),
            JsonValue::Arr(elems) => JsonSpec::Arr(
                Seq::new(elems@.len(), |i: int| if 0 <= i < elems@.len() {
                    elems@[i].view()
                } else {
                    JsonSpec::Null
                }),
            ),
            JsonValue::Obj(fields) => JsonSpec::Obj(
                Seq::new(fields@.len(), |i: int| if 0 <= i < fields@.len() {
                    fields@[i].view()
                } else {
                    JsonMemberSpec { key: Seq::empty(), value: JsonSpec::Null }
                }),
            ),
        }
    }
}

/// The element-wise view of an array's contents.
pub open spec fn arr_view(elems: Seq<JsonValue>) -> Seq<JsonSpec> {
    Seq::new(elems.len(), |i: int| if 0 <= i < elems.len() {
        elems[i]@
    } else {
        JsonSpec::Null
    })
}

/// The member-wise view of an object's contents.
pub open spec fn obj_view(fields: Seq<JsonMember>) -> Seq<JsonMemberSpec> {
    Seq::new(fields.len(), |i: int| if 0 <= i < fields.len() {
        fields[i]@
    } else {
        JsonMemberSpec { key: Seq::empty(), value: JsonSpec::Null }
    })
}

/// How one character appears inside a serialized JSON string: quote,
/// backslash and control characters are escaped, all else stands as itself.
pub open spec fn esc_char(c: char) -> Seq<char> {
    if c == '"' {
        seq!['\\', '"']
    } else if c == '\\' {
        seq!['\\', '\\']
    } else if c == '\n' {
        seq!['\\', 'n']
    } else if c == '\r' {
        seq!['\\', 'r']
    } else if c == '\t' {
        seq!['\\', 't']
    } else if (c as u32) < 0x20 {
        seq!['\\', 'u', '0', '0', hex_digit(((c as u32) / 16) as nat), hex_digit(
            ((c as u32) % 16) as nat,
        )]
    } else {
        seq![c]
    }
}

/// The escaped form of the first `n` characters of `s`.
pub open spec fn esc_prefix(s: Seq<char>, n: int) -> Seq<char>
    decreases n,
{
    if n <= 0 {
        Seq::empty()
    } else {
        esc_prefix(s, n - 1) + esc_char(s[n - 1])
    }
}

/// The escaped form of a whole string.
pub open spec fn esc_string(s: Seq<char>) -> Seq<char> {
    esc_prefix(s, s.len() as int)
}

/// The serialized form of a document: no insignificant whitespace, object
/// fields in the order held.
pub open spec fn spec_write(j: JsonSpec) -> Seq<char>
    decreases j, 1int, 0int,
{
    match j {
        JsonSpec::Null => "null"@,
        JsonSpec::Bool(b) => bool_text(b),
        JsonSpec::Int(n) => int_to_dec(n),
        JsonSpec::Text(s) => seq!['"'] + esc_string(s) + seq!['"'],
        JsonSpec::Arr(elems) => seq!['['] + spec_write_elems(elems, elems.len() as int)
            + seq![']'],
        JsonSpec::Obj(fields) => seq!['{'] + spec_write_fields(fields, fields.len() as int)
            + seq!['}'],
    }
}

/// The comma-separated serialization of the first `n` array elements.
pub open spec fn spec_write_elems(elems: Seq<JsonSpec>, n: int) -> Seq<char>
    recommends
        n <= elems.len(),
    decreases elems, 0int, n,
{
    if n <= 0 || n > elems.len() {
        Seq::empty()
    } else if n == 1 {
        spec_write(elems[0])
    } else {
        spec_write_elems(elems, n - 1) + seq![','] + spec_write(elems[n - 1])
    }
}

/// The serialization of one object member.
pub open spec fn spec_write_field(f: JsonMemberSpec) -> Seq<char>
    decreases f.value, 2int, 0int,
{
    seq!['"'] + esc_string(f.key) + seq!['"', ':'] + spec_write(f.value)
}

/// The comma-separated serialization of the first `n` object members.
pub open spec fn spec_write_fields(fields: Seq<JsonMemberSpec>, n: int) -> Seq<char>
    recommends
        n <= fields.len(),
    decreases fields, 0int, n,
{
    if n <= 0 || n > fields.len() {
        Seq::empty()
    } else if n == 1 {
        spec_write_field(fields[0])
    } else {
        spec_write_fields(fields, n - 1) + seq![','] + spec_write_field(fields[n - 1])
    }
}

/// Appends the escaped form of `c`.
fn push_escaped(out: &mut String, c: char)
    ensures
        final(out)@ == old(out)@ + esc_char(c),
{
    if c == '"' {
        proof {
            reveal_strlit("\\\"");
        }
        out.append("\\\"");
    } else if c == '\\' {
        proof {
            reveal_strlit("\\\\");
        }
        out.append("\\\\");
    } else if c == '\n' {
        proof {
            reveal_strlit("\\n");
        }
        out.append("\\n");
    } else if c == '\r' {
        proof {
            reveal_strlit("\\r");
        }
        out.append("\\r");
    } else if c == '\t' {
        proof {
            reveal_strlit("\\t");
        }
        out.append("\\t");
    } else if (c as u32) < 0x20 {
        proof {
            reveal_strlit("\\u00");
        }
        out.append("\\u00");
        out.append(hex_digit_str((c as u32) / 16));
        out.append(hex_digit_str((c as u32) % 16));
        proof {
            assert(out@ =~= old(out)@ + esc_char(c));
        }
    } else {
        push_char(out, c);
    }
}

/// Appends the escaped form of a whole string.
fn push_escaped_str(out: &mut String, s: &str)
    ensures
        final(out)@ == old(out)@ + esc_string(s@),
{
    let n = s.unicode_len();
    let mut i: usize = 0;
    while i < n
        invariant
            n == s@.len(),
            i <= n,
            out@ == old(out)@ + esc_prefix(s@, i as int),
        decreases n - i,
    {
        push_escaped(out, s.get_char(i));
        i = i + 1;
    }
}

/// Appends the serialized form of `v`.
#[verifier::loop_isolation(false)]
fn write_into(v: &JsonValue, out: &mut String)
    ensures
        final(out)@ == old(out)@ + spec_write(v@),
    decreases v,
{
    match v {
        JsonValue::Null => {
            out.append("null");
        },
        JsonValue::Bool(b) => {
            let t = bool_to_text(*b);
            out.append(t.as_str());
        },
        JsonValue::Int(n) => {
            let t = i64_to_dec(*n);
            out.append(t.as_str());
        },
        JsonValue::Text(s) => {
            push_char(out, '"');
            push_escaped_str(out, s.as_str());
            push_char(out, '"');
            proof {
                assert(out@ =~= old(out)@ + spec_write(v@));
            }
        },
        JsonValue::Arr(elems) => {
            let ghost es = arr_view(elems@);
            push_char(out, '[');
            let n = elems.len();
            let mut i: usize = 0;
            while i < n
                invariant
                    n == elems@.len(),
                    i <= n,
                    es == arr_view(elems@),
                    out@ == old(out)@ + seq!['['] + spec_write_elems(es, i as int),
                decreases n - i,
            {
                if i > 0 {
                    push_char(out, ',');
                }
                proof {
                    assert(*v == JsonValue::Arr(*elems));
                    assert(decreases_to!(JsonValue::Arr(*elems) => *elems));
                    assert(decreases_to!(*elems => elems@));
                    assert(decreases_to!(elems@ => elems@[i as int]));
                }
                write_into(&elems[i], out);
                proof {
                    assert(es[i as int] == elems@[i as int]@);
                    assert(out@ =~= old(out)@ + seq!['['] + spec_write_elems(es, i + 1));
                }
                i = i + 1;
            }
            push_char(out, ']');
            proof {
                assert(v@ is Arr);
                assert(v@->Arr_0 =~= es);
                assert(v@ =~~= JsonSpec::Arr(es));
                assert(out@ =~= old(out)@ + spec_write(v@));
            }
        },
        JsonValue::Obj(fields) => {
            let ghost fs = obj_view(fields@);
            push_char(out, '{');
            let n = fields.len();
            let mut i: usize = 0;
            while i < n
                invariant
                    n == fields@.len(),
                    i <= n,
                    fs == obj_view(fields@),
                    out@ == old(out)@ + seq!['{'] + spec_write_fields(fs, i as int),
                decreases n - i,
            {
                if i > 0 {
                    push_char(out, ',');
                }
                push_char(out, '"');
                push_escaped_str(out, fields[i].key.as_str());
                push_char(out, '"');
                push_char(out, ':');
                proof {
                    assert(*v == JsonValue::Obj(*fields));
                    assert(decreases_to!(JsonValue::Obj(*fields) => *fields));
                    assert(decreases_to!(*fields => fields@));
                    assert(decreases_to!(fields@ => fields@[i as int]));
                    assert(decreases_to!(fields@[i as int] => fields@[i as int].value));
                }
                write_into(&fields[i].value, out);
                proof {
                    assert(fs[i as int] == fields@[i as int]@);
                    assert(fs[i as int].key == fields@[i as int].key@);
                    assert(fs[i as int].value == fields@[i as int].value@);
                    assert(spec_write_field(fs[i as int]) =~= seq!['"'] + esc_string(
                        fields@[i as int].key@,
                    ) + seq!['"', ':'] + spec_write(fields@[i as int].value@));
                    if i == 0 {
                        assert(spec_write_fields(fs, 1) == spec_write_field(fs[0]));
                    } else {
                        assert(spec_write_fields(fs, i + 1) == spec_write_fields(fs, i as int)
                            + seq![','] + spec_write_field(fs[i as int]));
                    }
                    assert(out@ =~= old(out)@ + seq!['{'] + spec_write_fields(fs, i + 1));
                }
                i = i + 1;
            }
            push_char(out, '}');
            proof {
                assert(v@ is Obj);
                assert(v@->Obj_0 =~~= fs);
                assert(v@ =~~= JsonSpec::Obj(fs));
                assert(out@ =~= old(out)@ + spec_write(v@));
            }
        },
    }
}

/// Serializes a document. The result is exactly `spec_write` of the tree.
pub fn write_json(v: &JsonValue) -> (out: String)
    ensures
        out@ == spec_write(v@),
{
    let mut out = String::new();
    write_into(v, &mut out);
    out
}

} // verus!
