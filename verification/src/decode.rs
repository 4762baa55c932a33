//! Decoding JSON text into the value tree, proven equal to a reference
//! grammar given as specification functions.
//!
//! The grammar accepts the serializer's output plus insignificant whitespace
//! and the simple string escapes; numbers are restricted to integers that fit
//! an `i64`, which is all the API's payloads carry.

use vstd::prelude::*;
use crate::json::{arr_view, obj_view, JsonMember, JsonMemberSpec, JsonSpec, JsonValue};
use crate::text::{is_dec_digit, parse_i64_range, push_char, spec_parse_i64, str_to_chars};

verus! {

pub open spec fn is_ws(c: char) -> bool {
    c == ' ' || c == '\t' || c == '\n' || c == '\r'
}

/// The first position at or after `i` that does not hold whitespace.
pub open spec fn skip_ws(s: Seq<char>, i: int) -> int
    decreases s.len() - i,
{
    if 0 <= i < s.len() && is_ws(s[i]) {
        skip_ws(s, i + 1)
    } else {
        i
    }
}

/// The first position at or after `i` that does not hold a decimal digit.
pub open spec fn digit_run_end(s: Seq<char>, i: int) -> int
    decreases s.len() - i,
{
    if 0 <= i < s.len() && is_dec_digit(s[i]) {
        digit_run_end(s, i + 1)
    } else {
        i
    }
}

/// Whether the literal `lit` occurs in `s` starting at `i`.
pub open spec fn lit_at(s: Seq<char>, i: int, lit: Seq<char>) -> bool {
    i + lit.len() <= s.len() && s.subrange(i, i + lit.len()) == lit
}

/// The contents and end position of a string body started after an opening
/// quote at `i - 1`, given the characters `acc` read so far; `None` for an
/// unterminated string, an unsupported escape, or a raw control character.
pub open spec fn sp_string(s: Seq<char>, i: int, acc: Seq<char>) -> Option<(Seq<char>, int)>
    decreases s.len() - i,
{
    if i < 0 || i >= s.len() {
        None
    } else if s[i] == '"' {
        Some((acc, i + 1))
    } else if s[i] == '\\' {
        if i + 1 < s.len() {
            let e = s[i + 1];
            if e == '"' {
                sp_string(s, i + 2, acc.push('"'))
            } else if e == '\\' {
                sp_string(s, i + 2, acc.push('\\'))
            } else if e == '/' {
                sp_string(s, i + 2, acc.push('/'))
            } else if e == 'n' {
                sp_string(s, i + 2, acc.push('\n'))
            } else if e == 'r' {
                sp_string(s, i + 2, acc.push('\r'))
            } else if e == 't' {
                sp_string(s, i + 2, acc.push('\t'))
            } else if e == 'b' {
                sp_string(s, i + 2, acc.push('\u{0008}'))
            } else if e == 'f' {
                sp_string(s, i + 2, acc.push('\u{000C}'))
            } else {
                None
            }
        } else {
            None
        }
    } else if (s[i] as u32) < 0x20 {
        None
    } else {
        sp_string(s, i + 1, acc.push(s[i]))
    }
}

/// An integer literal at `i`: optional minus, digits without a leading zero,
/// not followed by a fraction or exponent, fitting an `i64`.
pub open spec fn sp_number(s: Seq<char>, i: int) -> Option<(JsonSpec, int)> {
    let start = if 0 <= i < s.len() && s[i] == '-' {
        i + 1
    } else {
        i
    };
    let e = digit_run_end(s, start);
    if e == start {
        None
    } else if e < s.len() && (s[e] == '.' || s[e] == 'e' || s[e] == 'E') {
        None
    } else if s[start] == '0' && e > start + 1 {
        None
    } else {
        match spec_parse_i64(s.subrange(i, e)) {
            Some(n) => Some((JsonSpec::Int(n as int), e)),
            None => None,
        }
    }
}

/// A value starting exactly at `i` (no leading whitespace), with the position
/// after it. `fuel` bounds the recursion; the parser entry point supplies
/// more than any input can consume.
pub open spec fn sp_value(s: Seq<char>, i: int, fuel: nat) -> Option<(JsonSpec, int)>
    decreases fuel, 0int,
{
    if fuel == 0 {
        None
    } else if i < 0 || i >= s.len() {
        None
    } else {
        let c = s[i];
        if c == 'n' {
            if lit_at(s, i, "null"@) {
                Some((JsonSpec::Null, i + "null"@.len()))
            } else {
                None
            }
        } else if c == 't' {
            if lit_at(s, i, "true"@) {
                Some((JsonSpec::Bool(true), i + "true"@.len()))
            } else {
                None
            }
        } else if c == 'f' {
            if lit_at(s, i, "false"@) {
                Some((JsonSpec::Bool(false), i + "false"@.len()))
            } else {
                None
            }
        } else if c == '"' {
            match sp_string(s, i + 1, Seq::empty()) {
                Some((t, j)) => Some((JsonSpec::Text(t), j)),
                None => None,
            }
        } else if c == '[' {
            let j = skip_ws(s, i + 1);
            if j < s.len() && s[j] == ']' {
                Some((JsonSpec::Arr(Seq::empty()), j + 1))
            } else {
                sp_arr_items(s, j, Seq::empty(), (fuel - 1) as nat)
            }
        } else if c == '{' {
            let j = skip_ws(s, i + 1);
            if j < s.len() && s[j] == '}' {
                Some((JsonSpec::Obj(Seq::empty()), j + 1))
            } else {
                sp_obj_items(s, j, Seq::empty(), (fuel - 1) as nat)
            }
        } else if c == '-' || is_dec_digit(c) {
            sp_number(s, i)
        } else {
            None
        }
    }
}

/// The remaining elements of a nonempty array, the first starting at `i`,
/// with the elements `acc` already read.
pub open spec fn sp_arr_items(s: Seq<char>, i: int, acc: Seq<JsonSpec>, fuel: nat) -> Option<
    (JsonSpec, int),
>
    decreases fuel, 1int,
{
    if fuel == 0 {
        None
    } else {
        match sp_value(s, i, fuel) {
            None => None,
            Some((v, j)) => {
                let k = skip_ws(s, j);
                if k < s.len() && s[k] == ',' {
                    sp_arr_items(s, skip_ws(s, k + 1), acc.push(v), (fuel - 1) as nat)
                } else if k < s.len() && s[k] == ']' {
                    Some((JsonSpec::Arr(acc.push(v)), k + 1))
                } else {
                    None
                }
            },
        }
    }
}

/// The remaining members of a nonempty object, the first key starting at `i`,
/// with the members `acc` already read.
pub open spec fn sp_obj_items(s: Seq<char>, i: int, acc: Seq<JsonMemberSpec>, fuel: nat) -> Option<
    (JsonSpec, int),
>
    decreases fuel, 1int,
{
    if fuel == 0 {
        None
    } else if !(0 <= i < s.len() && s[i] == '"') {
        None
    } else {
        match sp_string(s, i + 1, Seq::empty()) {
            None => None,
            Some((key, j)) => {
                let c = skip_ws(s, j);
                if c < s.len() && s[c] == ':' {
                    match sp_value(s, skip_ws(s, c + 1), fuel) {
                        None => None,
                        Some((v, k)) => {
                            let m = skip_ws(s, k);
                            if m < s.len() && s[m] == ',' {
                                sp_obj_items(
                                    s,
                                    skip_ws(s, m + 1),
                                    acc.push(JsonMemberSpec { key, value: v }),
                                    (fuel - 1) as nat,
                                )
                            } else if m < s.len() && s[m] == '}' {
                                Some(
                                    (
                                        JsonSpec::Obj(acc.push(JsonMemberSpec { key, value: v })),
                                        m + 1,
                                    ),
                                )
                            } else {
                                None
                            }
                        },
                    }
                } else {
                    None
                }
            },
        }
    }
}

/// A whole document: one value surrounded by optional whitespace.
pub open spec fn spec_parse_json(s: Seq<char>) -> Option<JsonSpec> {
    let i = skip_ws(s, 0);
    match sp_value(s, i, (s.len() + 1) as nat) {
        None => None,
        Some((v, j)) => if skip_ws(s, j) == s.len() {
            Some(v)
        } else {
            None
        },
    }
}

fn p_skip_ws(v: &Vec<char>, i: usize) -> (j: usize)
    requires
        i <= v@.len(),
    ensures
        j as int == skip_ws(v@, i as int),
        i <= j <= v@.len(),
{
    let mut j: usize = i;
    while j < v.len() && (v[j] == ' ' || v[j] == '\t' || v[j] == '\n' || v[j] == '\r')
        invariant
            i <= j <= v@.len(),
            skip_ws(v@, i as int) == skip_ws(v@, j as int),
        decreases v@.len() - j,
    {
        j = j + 1;
    }
    j
}

fn p_digit_run_end(v: &Vec<char>, i: usize) -> (j: usize)
    requires
        i <= v@.len(),
    ensures
        j as int == digit_run_end(v@, i as int),
        i <= j <= v@.len(),
{
    let mut j: usize = i;
    while j < v.len() && ((v[j] as u32) >= ('0' as u32)) && ((v[j] as u32) <= ('9' as u32))
        invariant
            i <= j <= v@.len(),
            digit_run_end(v@, i as int) == digit_run_end(v@, j as int),
        decreases v@.len() - j,
    {
        j = j + 1;
    }
    j
}

fn lit_match(v: &Vec<char>, i: usize, lit: &str) -> (r: bool)
    requires
        i <= v@.len(),
    ensures
        r == lit_at(v@, i as int, lit@),
{
    let n = lit.unicode_len();
    if n > v.len() - i {
        return false;
    }
    let mut k: usize = 0;
    while k < n
        invariant
            i + n <= v@.len(),
            v@.len() <= usize::MAX,
            k <= n,
            n == lit@.len(),
            forall|m: int| 0 <= m < k ==> v@[i + m] == lit@[m],
        decreases n - k,
    {
        proof {
            assert(i + k < v@.len());
        }
        if v[i + k] != lit.get_char(k) {
            proof {
                assert(v@.subrange(i as int, i + n)[k as int] == v@[i + k]);
            }
            return false;
        }
        k = k + 1;
    }
    proof {
        assert(v@.subrange(i as int, i + n) =~= lit@);
    }
    true
}

fn p_string(v: &Vec<char>, i: usize) -> (r: Option<(String, usize)>)
    requires
        i <= v@.len(),
    ensures
        match r {
            Some((t, j)) => {
                &&& sp_string(v@, i as int, Seq::empty()) == Some((t@, j as int))
                &&& i < j <= v@.len()
            },
            None => sp_string(v@, i as int, Seq::empty()) is None,
        },
{
    let mut acc = String::new();
    let mut cur: usize = i;
    loop
        invariant
            i <= cur <= v@.len(),
            sp_string(v@, i as int, Seq::empty()) == sp_string(v@, cur as int, acc@),
        decreases v@.len() - cur,
    {
        if cur >= v.len() {
            return None;
        }
        let c = v[cur];
        if c == '"' {
            return Some((acc, cur + 1));
        }
        if c == '\\' {
            if cur + 1 >= v.len() {
                return None;
            }
            let e = v[cur + 1];
            let d: char;
            if e == '"' {
                d = '"';
            } else if e == '\\' {
                d = '\\';
            } else if e == '/' {
                d = '/';
            } else if e == 'n' {
                d = '\n';
            } else if e == 'r' {
                d = '\r';
            } else if e == 't' {
                d = '\t';
            } else if e == 'b' {
                d = '\u{0008}';
            } else if e == 'f' {
                d = '\u{000C}';
            } else {
                return None;
            }
            let ghost acc_old = acc@;
            push_char(&mut acc, d);
            proof {
                assert(acc@ =~= acc_old.push(d));
            }
            cur = cur + 2;
        } else if (c as u32) < 0x20 {
            return None;
        } else {
            let ghost acc_old = acc@;
            push_char(&mut acc, c);
            proof {
                assert(acc@ =~= acc_old.push(c));
            }
            cur = cur + 1;
        }
    }
}

fn p_number(v: &Vec<char>, i: usize) -> (r: Option<(JsonValue, usize)>)
    requires
        i < v@.len(),
    ensures
        match r {
            Some((jv, j)) => {
                &&& sp_number(v@, i as int) == Some((jv@, j as int))
                &&& i < j <= v@.len()
            },
            None => sp_number(v@, i as int) is None,
        },
{
    let vlen = v.len();
    let start: usize = if v[i] == '-' {
        i + 1
    } else {
        i
    };
    let e = p_digit_run_end(v, start);
    if e == start {
        return None;
    }
    if e < v.len() {
        let c = v[e];
        if c == '.' || c == 'e' || c == 'E' {
            return None;
        }
    }
    if v[start] == '0' && e > start + 1 {
        return None;
    }
    match parse_i64_range(v, i, e) {
        Some(n) => Some((JsonValue::Int(n), e)),
        None => None,
    }
}

fn p_value(v: &Vec<char>, i: usize, Ghost(fuel): Ghost<nat>) -> (r: Option<(JsonValue, usize)>)
    requires
        i <= v@.len(),
        fuel >= v@.len() - i + 1,
    ensures
        match r {
            Some((jv, j)) => {
                &&& sp_value(v@, i as int, fuel) == Some((jv@, j as int))
                &&& i < j <= v@.len()
            },
            None => sp_value(v@, i as int, fuel) is None,
        },
    decreases fuel, 0int,
{
    if i >= v.len() {
        return None;
    }
    let c = v[i];
    if c == 'n' {
        if lit_match(v, i, "null") {
            proof {
                reveal_strlit("null");
            }
            Some((JsonValue::Null, i + 4))
        } else {
            None
        }
    } else if c == 't' {
        if lit_match(v, i, "true") {
            proof {
                reveal_strlit("true");
            }
            Some((JsonValue::Bool(true), i + 4))
        } else {
            None
        }
    } else if c == 'f' {
        if lit_match(v, i, "false") {
            proof {
                reveal_strlit("false");
            }
            Some((JsonValue::Bool(false), i + 5))
        } else {
            None
        }
    } else if c == '"' {
        match p_string(v, i + 1) {
            Some((t, j)) => Some((JsonValue::Text(t), j)),
            None => None,
        }
    } else if c == '[' {
        let j = p_skip_ws(v, i + 1);
        if j < v.len() && v[j] == ']' {
            let out = JsonValue::Arr(Vec::new());
            proof {
                assert(out@ is Arr);
                assert(out@->Arr_0 =~= Seq::<JsonSpec>::empty());
                assert(out@ =~~= JsonSpec::Arr(Seq::<JsonSpec>::empty()));
            }
            Some((out, j + 1))
        } else {
            p_arr_items(v, j, Ghost((fuel - 1) as nat))
        }
    } else if c == '{' {
        let j = p_skip_ws(v, i + 1);
        if j < v.len() && v[j] == '}' {
            let out = JsonValue::Obj(Vec::new());
            proof {
                assert(out@ is Obj);
                assert(out@->Obj_0 =~= Seq::<JsonMemberSpec>::empty());
                assert(out@ =~~= JsonSpec::Obj(Seq::<JsonMemberSpec>::empty()));
            }
            Some((out, j + 1))
        } else {
            p_obj_items(v, j, Ghost((fuel - 1) as nat))
        }
    } else if c == '-' || ((c as u32) >= ('0' as u32) && (c as u32) <= ('9' as u32)) {
        p_number(v, i)
    } else {
        None
    }
}

fn p_arr_items(v: &Vec<char>, i: usize, Ghost(fuel): Ghost<nat>) -> (r: Option<(JsonValue, usize)>)
    requires
        i <= v@.len(),
        fuel >= v@.len() - i + 1,
    ensures
        match r {
            Some((jv, j)) => {
                &&& sp_arr_items(v@, i as int, Seq::empty(), fuel) == Some((jv@, j as int))
                &&& i < j <= v@.len()
            },
            None => sp_arr_items(v@, i as int, Seq::empty(), fuel) is None,
        },
    decreases fuel, 1int,
{
    let mut acc: Vec<JsonValue> = Vec::new();
    let mut cur: usize = i;
    let ghost mut f: nat = fuel;
    proof {
        assert(arr_view(acc@) =~= Seq::<JsonSpec>::empty());
    }
    loop
        invariant
            i <= cur <= v@.len(),
            f >= v@.len() - cur + 1,
            f <= fuel,
            sp_arr_items(v@, i as int, Seq::empty(), fuel) == sp_arr_items(
                v@,
                cur as int,
                arr_view(acc@),
                f,
            ),
        decreases f,
    {
        let val_res = p_value(v, cur, Ghost(f));
        match val_res {
            None => {
                return None;
            },
            Some((val, j)) => {
                let k = p_skip_ws(v, j);
                if k < v.len() && v[k] == ',' {
                    let n2 = p_skip_ws(v, k + 1);
                    let ghost acc_old = arr_view(acc@);
                    acc.push(val);
                    proof {
                        assert(arr_view(acc@) =~= acc_old.push(val@));
                        f = (f - 1) as nat;
                    }
                    cur = n2;
                } else if k < v.len() && v[k] == ']' {
                    let ghost acc_old = arr_view(acc@);
                    acc.push(val);
                    proof {
                        assert(arr_view(acc@) =~= acc_old.push(val@));
                    }
                    let out = JsonValue::Arr(acc);
                    proof {
                        assert(out@ is Arr);
                        assert(out@->Arr_0 =~= acc_old.push(val@));
                        assert(out@ =~~= JsonSpec::Arr(acc_old.push(val@)));
                    }
                    return Some((out, k + 1));
                } else {
                    return None;
                }
            },
        }
    }
}

fn p_obj_items(v: &Vec<char>, i: usize, Ghost(fuel): Ghost<nat>) -> (r: Option<(JsonValue, usize)>)
    requires
        i <= v@.len(),
        fuel >= v@.len() - i + 1,
    ensures
        match r {
            Some((jv, j)) => {
                &&& sp_obj_items(v@, i as int, Seq::empty(), fuel) == Some((jv@, j as int))
                &&& i < j <= v@.len()
            },
            None => sp_obj_items(v@, i as int, Seq::empty(), fuel) is None,
        },
    decreases fuel, 1int,
{
    let mut acc: Vec<JsonMember> = Vec::new();
    let mut cur: usize = i;
    let ghost mut f: nat = fuel;
    proof {
        assert(obj_view(acc@) =~= Seq::<JsonMemberSpec>::empty());
    }
    loop
        invariant
            i <= cur <= v@.len(),
            f >= v@.len() - cur + 1,
            f <= fuel,
            sp_obj_items(v@, i as int, Seq::empty(), fuel) == sp_obj_items(
                v@,
                cur as int,
                obj_view(acc@),
                f,
            ),
        decreases f,
    {
        if !(cur < v.len() && v[cur] == '"') {
            return None;
        }
        let key_res = p_string(v, cur + 1);
        match key_res {
            None => {
                return None;
            },
            Some((key, j)) => {
                let c = p_skip_ws(v, j);
                if !(c < v.len() && v[c] == ':') {
                    return None;
                }
                let vstart = p_skip_ws(v, c + 1);
                let val_res = p_value(v, vstart, Ghost(f));
                match val_res {
                    None => {
                        return None;
                    },
                    Some((val, k)) => {
                        let m = p_skip_ws(v, k);
                        if m < v.len() && v[m] == ',' {
                            let n2 = p_skip_ws(v, m + 1);
                            let ghost acc_old = obj_view(acc@);
                            let ghost key_view = key@;
                            acc.push(JsonMember { key, value: val });
                            proof {
                                assert(obj_view(acc@) =~= acc_old.push(
                                    JsonMemberSpec { key: key_view, value: val@ },
                                ));
                                f = (f - 1) as nat;
                            }
                            cur = n2;
                        } else if m < v.len() && v[m] == '}' {
                            let ghost acc_old = obj_view(acc@);
                            let ghost key_view = key@;
                            acc.push(JsonMember { key, value: val });
                            proof {
                                assert(obj_view(acc@) =~= acc_old.push(
                                    JsonMemberSpec { key: key_view, value: val@ },
                                ));
                            }
                            let out = JsonValue::Obj(acc);
                            proof {
                                assert(out@ is Obj);
                                assert(out@->Obj_0 =~= acc_old.push(
                                    JsonMemberSpec { key: key_view, value: val@ },
                                ));
                                assert(out@ =~~= JsonSpec::Obj(acc_old.push(
                                    JsonMemberSpec { key: key_view, value: val@ },
                                )));
                            }
                            return Some((out, m + 1));
                        } else {
                            return None;
                        }
                    },
                }
            },
        }
    }
}

/// Parses a whole JSON document; the result is exactly what the reference
/// grammar `spec_parse_json` accepts.
pub fn parse_json(s: &str) -> (r: Option<JsonValue>)
    ensures
        match r {
            Some(jv) => spec_parse_json(s@) == Some(jv@),
            None => spec_parse_json(s@) is None,
        },
{
    let v = str_to_chars(s);
    let i = p_skip_ws(&v, 0);
    let res = p_value(&v, i, Ghost((v@.len() + 1) as nat));
    match res {
        None => None,
        Some((jv, j)) => {
            let t = p_skip_ws(&v, j);
            if t == v.len() {
                Some(jv)
            } else {
                None
            }
        },
    }
}

} // verus!
