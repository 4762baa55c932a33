//! The form-style text codec of the models: `key,value,key,value` pairs as
//! used for query-parameter and header carriage of a whole model.
//!
//! Encoding writes the scalar fields in declaration order, an absent
//! optional field omitted and a string list joined by commas. Decoding
//! scans the comma-separated tokens pairwise against a field schema: of a
//! repeated key the first occurrence counts, an unknown key is an error,
//! and a list or nested field cannot be carried in this style at all.

use vstd::prelude::*;
use crate::models::DateTime;
use crate::models::chrono_utc_accepts;
use crate::text::{
    bool_text, parse_bool_str, parse_i32_str, spec_parse_i32, str_eq, str_to_chars,
};

verus! {

/// What a schema slot holds.
pub enum FieldKind {
    KString,
    KI32,
    KBool,
    KDateTime,
    KList,
    KNested,
}

/// One slot of a model's form schema.
pub struct FormField {
    pub key: String,
    pub kind: FieldKind,
}

/// A scanned scalar value.
pub enum FormVal {
    VText(String),
    VNum(i32),
    VFlag(bool),
    VStamp(DateTime),
}

/// Mathematical model of a scanned scalar value.
pub enum FormValSpec {
    VText(Seq<char>),
    VNum(i32),
    VFlag(bool),
    VStamp(Seq<char>),
}

impl View for FormVal {
    type V = FormValSpec;

    open spec fn view(&self) -> FormValSpec {
        match self {
            FormVal::VText(s) => FormValSpec::VText(s@),
            FormVal::VNum(n) => FormValSpec::VNum(*n),
            FormVal::VFlag(b) => FormValSpec::VFlag(*b),
            FormVal::VStamp(d) => FormValSpec::VStamp(d.text@),
        }
    }
}

/// The slot-wise view of a scan result.
pub open spec fn slots_view(slots: Seq<Option<FormVal>>) -> Seq<Option<FormValSpec>> {
    Seq::new(slots.len(), |i: int| match slots[i] {
        Some(v) => Some(v@),
        None => None,
    })
}

/// The first position at or after `i` holding `','`, else the length.
pub open spec fn comma_end(s: Seq<char>, i: int) -> int
    decreases s.len() - i,
{
    if 0 <= i < s.len() && s[i] != ',' {
        comma_end(s, i + 1)
    } else {
        i
    }
}

/// The comma-separated tokens of `s` from position `i` on; an empty text is
/// one empty token, as `str::split` yields it.
pub open spec fn split_commas_from(s: Seq<char>, i: int) -> Seq<Seq<char>>
    decreases s.len() - i,
{
    if !(0 <= i <= s.len()) {
        Seq::empty()
    } else {
        let e = comma_end(s, i);
        if !(i <= e <= s.len()) {
            Seq::empty()
        } else if e >= s.len() {
            seq![s.subrange(i, s.len() as int)]
        } else {
            seq![s.subrange(i, e)] + split_commas_from(s, e + 1)
        }
    }
}

pub open spec fn split_commas(s: Seq<char>) -> Seq<Seq<char>> {
    split_commas_from(s, 0)
}

fn p_comma_end(v: &Vec<char>, i: usize) -> (j: usize)
    requires
        i <= v@.len(),
    ensures
        j as int == comma_end(v@, i as int),
        i <= j <= v@.len(),
{
    let mut j: usize = i;
    while j < v.len() && v[j] != ','
        invariant
            i <= j <= v@.len(),
            comma_end(v@, i as int) == comma_end(v@, j as int),
        decreases v@.len() - j,
    {
        j = j + 1;
    }
    j
}

fn chars_to_string(v: &Vec<char>, from: usize, to: usize) -> (r: String)
    requires
        from <= to <= v@.len(),
    ensures
        r@ == v@.subrange(from as int, to as int),
{
    let mut out = String::new();
    let mut i: usize = from;
    while i < to
        invariant
            from <= i <= to <= v@.len(),
            out@ =~= v@.subrange(from as int, i as int),
        decreases to - i,
    {
        crate::text::push_char(&mut out, v[i]);
        proof {
            assert(out@ =~= v@.subrange(from as int, i + 1));
        }
        i = i + 1;
    }
    out
}

/// Splits a text into its comma-separated tokens.
pub fn split_commas_exec(s: &str) -> (r: Vec<String>)
    ensures
        strs_view(r@) == split_commas(s@),
{
    let v = str_to_chars(s);
    let mut out: Vec<String> = Vec::new();
    let mut i: usize = 0;
    proof {
        assert(strs_view(out@) =~= Seq::<Seq<char>>::empty());
    }
    loop
        invariant
            i <= v@.len(),
            v@ == s@,
            split_commas(s@) =~= strs_view(out@) + split_commas_from(s@, i as int),
        decreases v@.len() - i,
    {
        let e = p_comma_end(&v, i);
        let tok = chars_to_string(&v, i, e);
        let ghost out_old = strs_view(out@);
        let ghost tokv = tok@;
        out.push(tok);
        proof {
            assert(strs_view(out@) =~= out_old.push(tokv));
        }
        if e >= v.len() {
            proof {
                assert(split_commas_from(s@, i as int) =~= seq![tokv]);
                assert(split_commas(s@) =~= strs_view(out@));
            }
            return out;
        }
        proof {
            assert(split_commas_from(s@, i as int) =~= seq![tokv] + split_commas_from(
                s@,
                e + 1,
            ));
        }
        i = e + 1;
    }
}

/// The element-wise view of a token list.
pub open spec fn strs_view(ss: Seq<String>) -> Seq<Seq<char>> {
    Seq::new(ss.len(), |i: int| ss[i]@)
}

/// The schema slot whose key matches, if any.
pub open spec fn spec_field_index(schema: Seq<FormField>, k: Seq<char>) -> Option<int>
    decreases schema.len(),
{
    if schema.len() == 0 {
        None
    } else if schema[0].key@ == k {
        Some(0)
    } else {
        match spec_field_index(schema.drop_first(), k) {
            Some(i) => Some(i + 1),
            None => None,
        }
    }
}

/// A scalar token read under a field kind; `None` when the token does not
/// parse. List and nested kinds never parse in this style.
pub open spec fn spec_parse_kind(kind: FieldKind, tok: Seq<char>) -> Option<FormValSpec> {
    match kind {
        FieldKind::KString => Some(FormValSpec::VText(tok)),
        FieldKind::KI32 => match spec_parse_i32(tok) {
            Some(n) => Some(FormValSpec::VNum(n)),
            None => None,
        },
        FieldKind::KBool => if tok == bool_text(true) {
            Some(FormValSpec::VFlag(true))
        } else if tok == bool_text(false) {
            Some(FormValSpec::VFlag(false))
        } else {
            None
        },
        FieldKind::KDateTime => if chrono_utc_accepts(tok) {
            Some(FormValSpec::VStamp(tok))
        } else {
            None
        },
        FieldKind::KList => None,
        FieldKind::KNested => None,
    }
}

pub open spec fn is_scalar_kind(kind: FieldKind) -> bool {
    !(kind is KList || kind is KNested)
}

/// The pairwise scan of the tokens from index `i`, with the slots read so
/// far. The first occurrence of a key wins; every token still has to parse.
pub open spec fn spec_scan(
    toks: Seq<Seq<char>>,
    schema: Seq<FormField>,
    name: Seq<char>,
    i: int,
    acc: Seq<Option<FormValSpec>>,
) -> Result<Seq<Option<FormValSpec>>, Seq<char>>
    decreases toks.len() - i,
{
    if i < 0 || i >= toks.len() {
        Ok(acc)
    } else if i + 1 >= toks.len() {
        Err("Missing value while parsing "@ + name)
    } else {
        let k = toks[i];
        match spec_field_index(schema, k) {
            None => Err("Unexpected key while parsing "@ + name),
            Some(fi) => if !is_scalar_kind(schema[fi].kind) {
                Err("Parsing a container in this style is not supported in "@ + name)
            } else {
                match spec_parse_kind(schema[fi].kind, toks[i + 1]) {
                    None => Err("invalid value for "@ + k + " in "@ + name),
                    Some(val) => spec_scan(
                        toks,
                        schema,
                        name,
                        i + 2,
                        if acc[fi] is None {
                            acc.update(fi, Some(val))
                        } else {
                            acc
                        },
                    ),
                }
            },
        }
    }
}

/// What scanning a whole form text yields.
pub open spec fn spec_scan_form(s: Seq<char>, schema: Seq<FormField>, name: Seq<char>) -> Result<
    Seq<Option<FormValSpec>>,
    Seq<char>,
> {
    spec_scan(split_commas(s), schema, name, 0, Seq::new(schema.len(), |i: int| None))
}

fn field_index(schema: &Vec<FormField>, k: &str) -> (r: Option<usize>)
    ensures
        match r {
            Some(i) => spec_field_index(schema@, k@) == Some(i as int) && i < schema@.len(),
            None => spec_field_index(schema@, k@) is None,
        },
{
    let n = schema.len();
    let mut i: usize = 0;
    while i < n
        invariant
            i <= n,
            n == schema@.len(),
            forall|j: int| 0 <= j < i ==> (#[trigger] schema@[j]).key@ != k@,
        decreases n - i,
    {
        if str_eq(schema[i].key.as_str(), k) {
            proof {
                lemma_field_index_at(schema@, k@, i as int);
            }
            return Some(i);
        }
        i = i + 1;
    }
    proof {
        lemma_field_index_none(schema@, k@);
    }
    None
}

proof fn lemma_field_index_at(schema: Seq<FormField>, k: Seq<char>, i: int)
    requires
        0 <= i < schema.len(),
        schema[i].key@ == k,
        forall|j: int| 0 <= j < i ==> (#[trigger] schema[j]).key@ != k,
    ensures
        spec_field_index(schema, k) == Some(i),
    decreases i,
{
    if i > 0 {
        lemma_field_index_at(schema.drop_first(), k, i - 1);
    }
}

proof fn lemma_field_index_none(schema: Seq<FormField>, k: Seq<char>)
    requires
        forall|j: int| 0 <= j < schema.len() ==> (#[trigger] schema[j]).key@ != k,
    ensures
        spec_field_index(schema, k) is None,
    decreases schema.len(),
{
    if schema.len() > 0 {
        lemma_field_index_none(schema.drop_first(), k);
    }
}

fn scan_err(prefix: &str, name: &str) -> (r: String)
    ensures
        r@ == prefix@ + name@,
{
    let mut m = prefix.to_owned();
    m.append(name);
    m
}

/// Scans a form text against a schema; exact against `spec_scan_form`.
pub fn scan_form(s: &str, schema: &Vec<FormField>, name: &str) -> (r: Result<
    Vec<Option<FormVal>>,
    String,
>)
    ensures
        match r {
            Ok(slots) => {
                &&& spec_scan_form(s@, schema@, name@) == Ok::<_, Seq<char>>(slots_view(slots@))
                &&& slots@.len() == schema@.len()
            },
            Err(e) => spec_scan_form(s@, schema@, name@) == Err::<Seq<Option<FormValSpec>>, _>(
                e@,
            ),
        },
{
    let toks = split_commas_exec(s);
    let ghost tv = strs_view(toks@);
    let mut slots: Vec<Option<FormVal>> = Vec::new();
    let mut j: usize = 0;
    while j < schema.len()
        invariant
            j <= schema@.len(),
            slots@.len() == j,
            forall|m: int| 0 <= m < j ==> (#[trigger] slots@[m]) is None,
        decreases schema@.len() - j,
    {
        slots.push(None);
        j = j + 1;
    }
    proof {
        assert(slots_view(slots@) =~= Seq::new(schema@.len(), |i: int| None::<FormValSpec>));
    }
    let mut i: usize = 0;
    loop
        invariant
            i <= toks@.len(),
            tv == strs_view(toks@),
            tv.len() == toks@.len(),
            slots@.len() == schema@.len(),
            spec_scan_form(s@, schema@, name@) == spec_scan(
                tv,
                schema@,
                name@,
                i as int,
                slots_view(slots@),
            ),
        decreases toks@.len() - i,
    {
        if i >= toks.len() {
            return Ok(slots);
        }
        if i + 1 >= toks.len() {
            return Err(scan_err("Missing value while parsing ", name));
        }
        proof {
            assert(tv[i as int] == toks@[i as int]@);
            assert(tv[i + 1] == toks@[i + 1]@);
        }
        let fi = match field_index(schema, toks[i].as_str()) {
            Some(fi) => fi,
            None => {
                return Err(scan_err("Unexpected key while parsing ", name));
            },
        };
        let val: FormVal = match &schema[fi].kind {
            FieldKind::KString => FormVal::VText(toks[i + 1].clone()),
            FieldKind::KI32 => match parse_i32_str(toks[i + 1].as_str()) {
                Some(n) => FormVal::VNum(n),
                None => {
                    let mut m = "invalid value for ".to_owned();
                    m.append(toks[i].as_str());
                    m.append(" in ");
                    m.append(name);
                    proof {
                        assert(m@ =~= "invalid value for "@ + tv[i as int] + " in "@ + name@);
                    }
                    return Err(m);
                },
            },
            FieldKind::KBool => match parse_bool_str(toks[i + 1].as_str()) {
                Some(b) => FormVal::VFlag(b),
                None => {
                    let mut m = "invalid value for ".to_owned();
                    m.append(toks[i].as_str());
                    m.append(" in ");
                    m.append(name);
                    proof {
                        assert(m@ =~= "invalid value for "@ + tv[i as int] + " in "@ + name@);
                    }
                    return Err(m);
                },
            },
            FieldKind::KDateTime => match DateTime::parse(toks[i + 1].as_str()) {
                Some(d) => FormVal::VStamp(d),
                None => {
                    let mut m = "invalid value for ".to_owned();
                    m.append(toks[i].as_str());
                    m.append(" in ");
                    m.append(name);
                    proof {
                        assert(m@ =~= "invalid value for "@ + tv[i as int] + " in "@ + name@);
                    }
                    return Err(m);
                },
            },
            FieldKind::KList => {
                return Err(
                    scan_err("Parsing a container in this style is not supported in ", name),
                );
            },
            FieldKind::KNested => {
                return Err(
                    scan_err("Parsing a container in this style is not supported in ", name),
                );
            },
        };
        let ghost slots_old = slots_view(slots@);
        let mut occupied = false;
        match &slots[fi] {
            Some(_) => {
                occupied = true;
            },
            None => {},
        }
        if !occupied {
            slots.set(fi, Some(val));
            proof {
                assert(slots_view(slots@) =~= slots_old.update(fi as int, Some(
                    spec_parse_kind(schema@[fi as int].kind, tv[i + 1])->Some_0,
                )));
            }
        }
        i = i + 2;
    }
}

/// The comma-join of the first `n` items.
pub open spec fn join_commas(items: Seq<Seq<char>>, n: int) -> Seq<char>
    decreases n,
{
    if n <= 0 || n > items.len() {
        Seq::empty()
    } else if n == 1 {
        items[0]
    } else {
        join_commas(items, n - 1) + ","@ + items[n - 1]
    }
}

pub open spec fn join_all(items: Seq<Seq<char>>) -> Seq<char> {
    join_commas(items, items.len() as int)
}

/// Joins items with commas, as the form encoding writes entries and a
/// string list's elements.
pub fn join_items(items: &Vec<String>) -> (r: String)
    ensures
        r@ == join_all(strs_view(items@)),
{
    let mut out = String::new();
    let n = items.len();
    let mut i: usize = 0;
    while i < n
        invariant
            i <= n,
            n == items@.len(),
            out@ == join_commas(strs_view(items@), i as int),
        decreases n - i,
    {
        if i > 0 {
            out.append(",");
        }
        out.append(items[i].as_str());
        proof {
            assert(strs_view(items@)[i as int] == items@[i as int]@);
            assert(out@ =~= join_commas(strs_view(items@), i + 1));
        }
        i = i + 1;
    }
    out
}

/// One `key,value` entry of the form encoding.
pub fn mk_item(k: &str, v: &str) -> (r: String)
    ensures
        r@ == k@ + ","@ + v@,
{
    let mut t = k.to_owned();
    t.append(",");
    t.append(v);
    proof {
        assert(t@ =~= k@ + ","@ + v@);
    }
    t
}

/// The error for a required field that the scanned text never gave.
pub fn missing_msg(key: &str, name: &str) -> (r: String)
    ensures
        r@ == key@ + " missing in "@ + name@,
{
    let mut t = key.to_owned();
    t.append(" missing in ");
    t.append(name);
    proof {
        assert(t@ =~= key@ + " missing in "@ + name@);
    }
    t
}

/// One form-encoding item per field shape.
pub open spec fn item_str(k: Seq<char>, v: Seq<char>) -> Seq<Seq<char>> {
    seq![k + ","@ + v]
}

pub open spec fn item_opt_str(k: Seq<char>, o: Option<String>) -> Seq<Seq<char>> {
    match o {
        Some(s) => seq![k + ","@ + s@],
        None => Seq::empty(),
    }
}

pub open spec fn item_bool(k: Seq<char>, b: bool) -> Seq<Seq<char>> {
    seq![k + ","@ + bool_text(b)]
}

pub open spec fn item_i32(k: Seq<char>, n: i32) -> Seq<Seq<char>> {
    seq![k + ","@ + crate::text::int_to_dec(n as int)]
}

pub open spec fn item_list(k: Seq<char>, ts: Seq<String>) -> Seq<Seq<char>> {
    seq![k + ","@ + join_all(strs_view(ts))]
}

pub open spec fn item_opt_list(k: Seq<char>, o: Option<Vec<String>>) -> Seq<Seq<char>> {
    match o {
        Some(ts) => seq![k + ","@ + join_all(strs_view(ts@))],
        None => Seq::empty(),
    }
}

} // verus!
