//! Decoding a raw query string into the typed query parameter sets.
//!
//! The grammar: segments separated by `&`, each `key=value` (or a bare key,
//! read as an empty value), both sides percent-decoded with `+` for space.
//! Escapes are limited to ASCII. An empty segment is skipped; of a repeated
//! key the first occurrence counts. Unknown keys are ignored; numeric fields
//! must parse as integers. Range constraints are left to the validation
//! layer, so that all violations are reported together.

use vstd::prelude::*;
use crate::models::{GetArticlesFeedQueryParams, GetArticlesQueryParams};
use crate::text::{spec_parse_i32, parse_i32_str, str_eq, str_to_chars, push_char};

verus! {

/// One decoded `key=value` parameter.
pub struct QueryPair {
    pub key: String,
    pub value: String,
}

/// Mathematical model of one decoded parameter.
pub struct QueryPairSpec {
    pub key: Seq<char>,
    pub value: Seq<char>,
}

impl View for QueryPair {
    type V = QueryPairSpec;

    open spec fn view(&self) -> QueryPairSpec {
        QueryPairSpec { key: self.key@, value: self.value@ }
    }
}

/// The member-wise view of a decoded parameter list.
pub open spec fn pairs_view(ps: Seq<QueryPair>) -> Seq<QueryPairSpec> {
    Seq::new(ps.len(), |i: int| ps[i]@)
}

pub open spec fn is_hex_digit(c: char) -> bool {
    ||| (('0' as u32) <= (c as u32) && (c as u32) <= ('9' as u32))
    ||| (('a' as u32) <= (c as u32) && (c as u32) <= ('f' as u32))
    ||| (('A' as u32) <= (c as u32) && (c as u32) <= ('F' as u32))
}

pub open spec fn hex_val(c: char) -> nat {
    if ('0' as u32) <= (c as u32) && (c as u32) <= ('9' as u32) {
        ((c as u32) - ('0' as u32)) as nat
    } else if ('a' as u32) <= (c as u32) && (c as u32) <= ('f' as u32) {
        ((c as u32) - ('a' as u32) + 10) as nat
    } else {
        ((c as u32) - ('A' as u32) + 10) as nat
    }
}

pub open spec fn opt_cons(c: char, o: Option<Seq<char>>) -> Option<Seq<char>> {
    match o {
        Some(t) => Some(seq![c] + t),
        None => None,
    }
}

/// Percent-decoding of one key or value; `None` for a malformed or
/// non-ASCII escape.
pub open spec fn pct_decode(s: Seq<char>) -> Option<Seq<char>>
    decreases s.len(),
{
    if s.len() == 0 {
        Some(Seq::empty())
    } else if s[0] == '+' {
        opt_cons(' ', pct_decode(s.drop_first()))
    } else if s[0] == '%' {
        if s.len() >= 3 && is_hex_digit(s[1]) && is_hex_digit(s[2]) {
            let b = hex_val(s[1]) * 16 + hex_val(s[2]);
            if b < 0x80 {
                opt_cons(((b as u8) as char), pct_decode(s.subrange(3, s.len() as int)))
            } else {
                None
            }
        } else {
            None
        }
    } else {
        opt_cons(s[0], pct_decode(s.drop_first()))
    }
}

/// The first position at or after `i` holding `'&'`, else the length.
pub open spec fn amp_end(s: Seq<char>, i: int) -> int
    decreases s.len() - i,
{
    if 0 <= i < s.len() && s[i] != '&' {
        amp_end(s, i + 1)
    } else {
        i
    }
}

/// The first position at or after `i` holding `'='`, else the length.
pub open spec fn eq_end(s: Seq<char>, i: int) -> int
    decreases s.len() - i,
{
    if 0 <= i < s.len() && s[i] != '=' {
        eq_end(s, i + 1)
    } else {
        i
    }
}

/// The parameters of one nonempty segment; an empty segment gives none.
pub open spec fn seg_pairs(seg: Seq<char>) -> Option<Seq<QueryPairSpec>> {
    if seg.len() == 0 {
        Some(Seq::empty())
    } else {
        let q = eq_end(seg, 0);
        let kd = pct_decode(seg.subrange(0, q));
        let vd = if q < seg.len() {
            pct_decode(seg.subrange(q + 1, seg.len() as int))
        } else {
            Some(Seq::empty())
        };
        match (kd, vd) {
            (Some(k), Some(v)) => Some(seq![QueryPairSpec { key: k, value: v }]),
            _ => None,
        }
    }
}

/// All parameters of the query string from position `i` on.
pub open spec fn sq_pairs(s: Seq<char>, i: int) -> Option<Seq<QueryPairSpec>>
    decreases s.len() - i,
{
    if !(0 <= i <= s.len()) {
        None
    } else if i == s.len() {
        Some(Seq::empty())
    } else {
        let e = amp_end(s, i);
        if !(i <= e <= s.len()) {
            None
        } else {
            let head = seg_pairs(s.subrange(i, e));
            if e == s.len() {
                head
            } else {
                match (head, sq_pairs(s, e + 1)) {
                    (Some(h), Some(t)) => Some(h + t),
                    _ => None,
                }
            }
        }
    }
}

/// The first value given for a key.
pub open spec fn q_first(ps: Seq<QueryPairSpec>, key: Seq<char>) -> Option<Seq<char>>
    decreases ps.len(),
{
    if ps.len() == 0 {
        None
    } else if ps[0].key == key {
        Some(ps[0].value)
    } else {
        q_first(ps.drop_first(), key)
    }
}

fn p_amp_end(v: &Vec<char>, i: usize) -> (j: usize)
    requires
        i <= v@.len(),
    ensures
        j as int == amp_end(v@, i as int),
        i <= j <= v@.len(),
{
    let mut j: usize = i;
    while j < v.len() && v[j] != '&'
        invariant
            i <= j <= v@.len(),
            amp_end(v@, i as int) == amp_end(v@, j as int),
        decreases v@.len() - j,
    {
        j = j + 1;
    }
    j
}

fn p_eq_end(v: &Vec<char>, i: usize, to: usize) -> (j: usize)
    requires
        i <= to <= v@.len(),
    ensures
        i <= j <= to,
        j as int == eq_end(v@.subrange(i as int, to as int), 0) + i,
{
    let ghost seg = v@.subrange(i as int, to as int);
    let mut j: usize = i;
    while j < to && v[j] != '='
        invariant
            i <= j <= to <= v@.len(),
            seg == v@.subrange(i as int, to as int),
            eq_end(seg, 0) == eq_end(seg, j - i),
        decreases to - j,
    {
        proof {
            assert(seg[j - i] == v@[j as int]);
        }
        j = j + 1;
    }
    proof {
        if j < to {
            assert(seg[j - i] == v@[j as int]);
        }
    }
    j
}

pub open spec fn opt_concat_chars(a: Seq<char>, o: Option<Seq<char>>) -> Option<Seq<char>> {
    match o {
        Some(t) => Some(a + t),
        None => None,
    }
}

/// Percent-decodes the span `[from, to)`; exact against `pct_decode`.
fn p_pct_decode(v: &Vec<char>, from: usize, to: usize) -> (r: Option<String>)
    requires
        from <= to <= v@.len(),
    ensures
        match r {
            Some(t) => pct_decode(v@.subrange(from as int, to as int)) == Some(t@),
            None => pct_decode(v@.subrange(from as int, to as int)) is None,
        },
{
    let ghost whole = v@.subrange(from as int, to as int);
    let mut out = String::new();
    let mut cur: usize = from;
    loop
        invariant
            from <= cur <= to <= v@.len(),
            whole == v@.subrange(from as int, to as int),
            pct_decode(whole) == opt_concat_chars(out@, pct_decode(
                v@.subrange(cur as int, to as int),
            )),
        decreases to - cur,
    {
        let ghost rest = v@.subrange(cur as int, to as int);
        if cur >= to {
            proof {
                assert(rest.len() == 0);
            }
            return Some(out);
        }
        let c = v[cur];
        proof {
            assert(rest[0] == v@[cur as int]);
            assert(rest.drop_first() =~= v@.subrange(cur + 1, to as int));
        }
        if c == '+' {
            let ghost out_old = out@;
            push_char(&mut out, ' ');
            proof {
                assert(out@ =~= out_old.push(' '));
                assert(forall|t: Seq<char>| out_old + (seq![' '] + t) =~= out@ + t);
            }
            cur = cur + 1;
        } else if c == '%' {
            if to - cur >= 3 {
                let h1 = v[cur + 1];
                let h2 = v[cur + 2];
                let d1 = hex_digit_value(h1);
                let d2 = hex_digit_value(h2);
                match (d1, d2) {
                    (Some(a), Some(b)) => {
                        let code: u32 = a * 16 + b;
                        if code < 0x80 {
                            let ghost out_old = out@;
                            push_char(&mut out, (code as u8) as char);
                            proof {
                                assert(rest[1] == v@[cur + 1]);
                                assert(rest[2] == v@[cur + 2]);
                                assert(rest.subrange(3, rest.len() as int) =~= v@.subrange(
                                    cur + 3,
                                    to as int,
                                ));
                                assert(out@ =~= out_old.push(((code as u8) as char)));
                                assert(forall|t: Seq<char>|
                                    out_old + (seq![((code as u8) as char)] + t) =~= out@ + t);
                            }
                            cur = cur + 3;
                        } else {
                            proof {
                                assert(rest[1] == v@[cur + 1]);
                                assert(rest[2] == v@[cur + 2]);
                            }
                            return None;
                        }
                    },
                    _ => {
                        proof {
                            assert(rest[1] == v@[cur + 1]);
                            assert(rest[2] == v@[cur + 2]);
                        }
                        return None;
                    },
                }
            } else {
                return None;
            }
        } else {
            let ghost out_old = out@;
            push_char(&mut out, c);
            proof {
                assert(out@ =~= out_old.push(c));
                assert(forall|t: Seq<char>| out_old + (seq![c] + t) =~= out@ + t);
            }
            cur = cur + 1;
        }
    }
}

/// The hexadecimal value of one digit character, either case.
fn hex_digit_value(c: char) -> (r: Option<u32>)
    ensures
        match r {
            Some(n) => is_hex_digit(c) && n == hex_val(c) && n < 16,
            None => !is_hex_digit(c),
        },
{
    let u = c as u32;
    if '0' as u32 <= u && u <= '9' as u32 {
        Some(u - '0' as u32)
    } else if 'a' as u32 <= u && u <= 'f' as u32 {
        Some(u - 'a' as u32 + 10)
    } else if 'A' as u32 <= u && u <= 'F' as u32 {
        Some(u - 'A' as u32 + 10)
    } else {
        None
    }
}

/// Splits and decodes a whole query string; exact against `sq_pairs`.
pub fn parse_query_pairs(q: &str) -> (r: Option<Vec<QueryPair>>)
    ensures
        match r {
            Some(ps) => sq_pairs(q@, 0) == Some(pairs_view(ps@)),
            None => sq_pairs(q@, 0) is None,
        },
{
    let v = str_to_chars(q);
    let n = v.len();
    let mut acc: Vec<QueryPair> = Vec::new();
    let mut i: usize = 0;
    proof {
        assert(pairs_view(acc@) =~= Seq::<QueryPairSpec>::empty());
    }
    loop
        invariant
            i <= n,
            n == v@.len(),
            v@ == q@,
            match sq_pairs(q@, 0) {
                Some(all) => sq_pairs(q@, i as int) matches Some(t) && all == pairs_view(acc@)
                    + t,
                None => sq_pairs(q@, i as int) is None,
            },
        decreases n - i,
    {
        if i >= n {
            proof {
                assert(sq_pairs(q@, i as int) == Some(Seq::<QueryPairSpec>::empty()));
                if sq_pairs(q@, 0) is Some {
                    assert(sq_pairs(q@, 0)->Some_0 =~= pairs_view(acc@));
                }
            }
            return Some(acc);
        }
        let e = p_amp_end(&v, i);
        let ghost seg = q@.subrange(i as int, e as int);
        if e == i {
            // empty segment: skip it and the separator
            proof {
                assert(seg.len() == 0);
                assert(seg_pairs(seg) == Some(Seq::<QueryPairSpec>::empty()));
            }
            if e < n {
                i = e + 1;
            } else {
                proof {
                    if sq_pairs(q@, 0) is Some {
                        assert(sq_pairs(q@, 0)->Some_0 =~= pairs_view(acc@));
                    }
                }
                return Some(acc);
            }
        } else {
            let qpos = p_eq_end(&v, i, e);
            let key = match p_pct_decode(&v, i, qpos) {
                Some(k) => k,
                None => {
                    proof {
                        assert(seg.subrange(0, eq_end(seg, 0)) =~= q@.subrange(
                            i as int,
                            qpos as int,
                        ));
                    }
                    return None;
                },
            };
            let value = if qpos < e {
                match p_pct_decode(&v, qpos + 1, e) {
                    Some(x) => x,
                    None => {
                        proof {
                            assert(seg.subrange(eq_end(seg, 0) + 1, seg.len() as int)
                                =~= q@.subrange(qpos + 1, e as int));
                            assert(seg.subrange(0, eq_end(seg, 0)) =~= q@.subrange(
                                i as int,
                                qpos as int,
                            ));
                        }
                        return None;
                    },
                }
            } else {
                String::new()
            };
            let ghost acc_old = pairs_view(acc@);
            let ghost kv = key@;
            let ghost vv = value@;
            acc.push(QueryPair { key, value });
            proof {
                assert(seg.subrange(0, eq_end(seg, 0)) =~= q@.subrange(i as int, qpos as int));
                if qpos < e {
                    assert(seg.subrange(eq_end(seg, 0) + 1, seg.len() as int) =~= q@.subrange(
                        qpos + 1,
                        e as int,
                    ));
                }
                assert(seg_pairs(seg) == Some(seq![QueryPairSpec { key: kv, value: vv }]));
                assert(pairs_view(acc@) =~= acc_old.push(QueryPairSpec { key: kv, value: vv }));
                assert(pairs_view(acc@) =~= acc_old + seq![QueryPairSpec { key: kv, value: vv }]);
            }
            if e < n {
                i = e + 1;
            } else {
                proof {
                    if sq_pairs(q@, 0) is Some {
                        assert(sq_pairs(q@, 0)->Some_0 =~= pairs_view(acc@));
                    }
                }
                return Some(acc);
            }
        }
    }
}

/// The first value for a key among decoded parameters.
fn pairs_first<'a>(ps: &'a Vec<QueryPair>, key: &str) -> (r: Option<&'a String>)
    ensures
        match r {
            Some(s) => q_first(pairs_view(ps@), key@) == Some(s@),
            None => q_first(pairs_view(ps@), key@) is None,
        },
{
    let ghost pv = pairs_view(ps@);
    let n = ps.len();
    proof {
        assert(pv.subrange(0, n as int) =~= pv);
    }
    let mut i: usize = 0;
    while i < n
        invariant
            i <= n,
            n == ps@.len(),
            pv == pairs_view(ps@),
            pv.len() == n,
            q_first(pv, key@) == q_first(pv.subrange(i as int, n as int), key@),
        decreases n - i,
    {
        proof {
            assert(pv.subrange(i as int, n as int)[0] == pv[i as int]);
            assert(pv[i as int] == ps@[i as int]@);
            assert(pv.subrange(i as int, n as int).drop_first() =~= pv.subrange(i + 1, n as int));
        }
        if str_eq(ps[i].key.as_str(), key) {
            return Some(&ps[i].value);
        }
        i = i + 1;
    }
    proof {
        assert(pv.subrange(n as int, n as int).len() == 0);
    }
    None
}

/// The integer value a query string gives for a key, if a well-formed one.
pub open spec fn spec_q_i32(s: Seq<char>, key: Seq<char>) -> Option<i32> {
    match sq_pairs(s, 0) {
        None => None,
        Some(ps) => match q_first(ps, key) {
            None => None,
            Some(v) => spec_parse_i32(v),
        },
    }
}

/// The error, if any, of an integer-valued parameter.
pub open spec fn int_q_err(ps: Seq<QueryPairSpec>, key: Seq<char>) -> Option<Seq<char>> {
    match q_first(ps, key) {
        None => None,
        Some(v) => if spec_parse_i32(v) is Some {
            None
        } else {
            Some(key + " must be an integer"@)
        },
    }
}

fn get_int_param(ps: &Vec<QueryPair>, key: &str) -> (r: Result<Option<i32>, String>)
    ensures
        match r {
            Ok(o) => {
                &&& int_q_err(pairs_view(ps@), key@) is None
                &&& match o {
                    Some(n) => q_first(pairs_view(ps@), key@) matches Some(v) && spec_parse_i32(v)
                        == Some(n),
                    None => q_first(pairs_view(ps@), key@) is None,
                }
            },
            Err(e) => int_q_err(pairs_view(ps@), key@) == Some(e@),
        },
{
    match pairs_first(ps, key) {
        None => Ok(None),
        Some(s) => match parse_i32_str(s.as_str()) {
            Some(n) => Ok(Some(n)),
            None => {
                let mut m = key.to_owned();
                m.append(" must be an integer");
                Err(m)
            },
        },
    }
}

fn get_str_param(ps: &Vec<QueryPair>, key: &str) -> (r: Option<String>)
    ensures
        match r {
            Some(s) => q_first(pairs_view(ps@), key@) == Some(s@),
            None => q_first(pairs_view(ps@), key@) is None,
        },
{
    match pairs_first(ps, key) {
        None => None,
        Some(s) => Some(s.clone()),
    }
}

/// Extraction errors for `GET /api/articles` query parameters, first in
/// declaration order of the numeric fields.
pub open spec fn get_articles_query_err(s: Seq<char>) -> Option<Seq<char>> {
    match sq_pairs(s, 0) {
        None => Some("invalid query string"@),
        Some(ps) => if int_q_err(ps, "offset"@) is Some {
            int_q_err(ps, "offset"@)
        } else {
            int_q_err(ps, "limit"@)
        },
    }
}

pub open spec fn opt_i32_matches(ps: Seq<QueryPairSpec>, key: Seq<char>, o: Option<i32>) -> bool {
    match o {
        Some(n) => q_first(ps, key) matches Some(v) && spec_parse_i32(v) == Some(n),
        None => q_first(ps, key) is None,
    }
}

pub open spec fn opt_str_matches(ps: Seq<QueryPairSpec>, key: Seq<char>, o: Option<String>)
    -> bool {
    match o {
        Some(s) => q_first(ps, key) == Some(s@),
        None => q_first(ps, key) is None,
    }
}

pub open spec fn get_articles_query_ok(s: Seq<char>, q: GetArticlesQueryParams) -> bool {
    &&& sq_pairs(s, 0) is Some
    &&& opt_str_matches(sq_pairs(s, 0)->Some_0, "tag"@, q.tag)
    &&& opt_str_matches(sq_pairs(s, 0)->Some_0, "author"@, q.author)
    &&& opt_str_matches(sq_pairs(s, 0)->Some_0, "favorited"@, q.favorited)
    &&& opt_i32_matches(sq_pairs(s, 0)->Some_0, "offset"@, q.offset)
    &&& opt_i32_matches(sq_pairs(s, 0)->Some_0, "limit"@, q.limit)
}

/// Decodes the query string of `GET /api/articles`.
pub fn extract_get_articles_query(raw: &str) -> (r: Result<GetArticlesQueryParams, String>)
    ensures
        match r {
            Ok(q) => get_articles_query_err(raw@) is None && get_articles_query_ok(raw@, q),
            Err(e) => get_articles_query_err(raw@) == Some(e@),
        },
{
    match parse_query_pairs(raw) {
        None => Err("invalid query string".to_owned()),
        Some(ps) => {
            let offset = match get_int_param(&ps, "offset") {
                Ok(o) => o,
                Err(e) => return Err(e),
            };
            let limit = match get_int_param(&ps, "limit") {
                Ok(o) => o,
                Err(e) => return Err(e),
            };
            let tag = get_str_param(&ps, "tag");
            let author = get_str_param(&ps, "author");
            let favorited = get_str_param(&ps, "favorited");
            Ok(GetArticlesQueryParams { tag, author, favorited, offset, limit })
        },
    }
}

/// Extraction errors for `GET /api/articles/feed` query parameters.
pub open spec fn get_articles_feed_query_err(s: Seq<char>) -> Option<Seq<char>> {
    match sq_pairs(s, 0) {
        None => Some("invalid query string"@),
        Some(ps) => if int_q_err(ps, "offset"@) is Some {
            int_q_err(ps, "offset"@)
        } else {
            int_q_err(ps, "limit"@)
        },
    }
}

pub open spec fn get_articles_feed_query_ok(s: Seq<char>, q: GetArticlesFeedQueryParams) -> bool {
    &&& sq_pairs(s, 0) is Some
    &&& opt_i32_matches(sq_pairs(s, 0)->Some_0, "offset"@, q.offset)
    &&& opt_i32_matches(sq_pairs(s, 0)->Some_0, "limit"@, q.limit)
}

/// Decodes the query string of `GET /api/articles/feed`.
pub fn extract_get_articles_feed_query(raw: &str) -> (r: Result<
    GetArticlesFeedQueryParams,
    String,
>)
    ensures
        match r {
            Ok(q) => get_articles_feed_query_err(raw@) is None && get_articles_feed_query_ok(
                raw@,
                q,
            ),
            Err(e) => get_articles_feed_query_err(raw@) == Some(e@),
        },
{
    match parse_query_pairs(raw) {
        None => Err("invalid query string".to_owned()),
        Some(ps) => {
            let offset = match get_int_param(&ps, "offset") {
                Ok(o) => o,
                Err(e) => return Err(e),
            };
            let limit = match get_int_param(&ps, "limit") {
                Ok(o) => o,
                Err(e) => return Err(e),
            };
            Ok(GetArticlesFeedQueryParams { offset, limit })
        },
    }
}

} // verus!
