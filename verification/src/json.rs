//! JSON documents, as `serde_json` reads them, and the lookups the checks
//! make in them: an object's member, a number's value in hundredths.

use vstd::prelude::*;

use crate::text::{all_digits, copy_range, digit_value, digits_value, is_digit, str_eq};

verus! {

#[verifier::external_type_specification]
#[verifier::external_body]
pub struct ExJsonValue(serde_json::Value);

/// A JSON value. A number keeps the text `serde_json` prints for it; an
/// object keeps its members in the order `serde_json` holds them.
pub enum Json {
    Null,
    Bool(bool),
    Number(String),
    Str(String),
    Array(Vec<Json>),
    Object(Vec<(String, Json)>),
}

/// The document `serde_json::from_str` reads from a text, or `None` when it
/// refuses the text.
pub uninterp spec fn json_of(text: Seq<char>) -> Option<Json>;

/// `serde_json::Value` as a [`Json`], member for member (numbers by their
/// `Display` text).
#[verifier::external_body]
fn json_from(v: serde_json::Value) -> Json {
    match v {
        serde_json::Value::Null => Json::Null,
        serde_json::Value::Bool(b) => Json::Bool(b),
        serde_json::Value::Number(n) => Json::Number(n.to_string()),
        serde_json::Value::String(s) => Json::Str(s),
        serde_json::Value::Array(items) => Json::Array(items.into_iter().map(json_from).collect()),
        serde_json::Value::Object(members) => Json::Object(
            members.into_iter().map(|(k, x)| (k, json_from(x))).collect(),
        ),
    }
}

/// Reads a JSON document (`serde_json::from_str` into a `serde_json::Value`,
/// then [`Json`] member for member). Trusted: the contract claims only that
/// the result is a function of the text, named `json_of`; what the parser
/// accepts and how it reads numbers and duplicate keys is left to
/// `serde_json`.
#[verifier::external_body]
pub(crate) fn parse_json(text: &str) -> (r: Option<Json>)
    ensures
        r == json_of(text@),
{
    match serde_json::from_str::<serde_json::Value>(text) {
        Ok(v) => Some(json_from(v)),
        Err(_) => None,
    }
}

/// The first member of `members` named `key`.
pub open spec fn member_of(members: Seq<(String, Json)>, key: Seq<char>) -> Option<Json>
    decreases members.len(),
{
    if members.len() == 0 {
        None
    } else if members[0].0@ == key {
        Some(members[0].1)
    } else {
        member_of(members.drop_first(), key)
    }
}

/// `v.get(key)`: the member `key` of an object; `None` for anything else.
pub open spec fn member(v: Json, key: Seq<char>) -> Option<Json> {
    match v {
        Json::Object(members) => member_of(members@, key),
        _ => None,
    }
}

/// `member` through an optional value.
pub open spec fn at(v: Option<Json>, key: Seq<char>) -> Option<Json> {
    match v {
        Some(x) => member(x, key),
        None => None,
    }
}

pub fn member_ref<'a>(v: &'a Json, key: &str) -> (r: Option<&'a Json>)
    ensures
        match r {
            Some(x) => member(*v, key@) == Some(*x),
            None => member(*v, key@) is None,
        },
{
    match v {
        Json::Object(members) => {
            let ghost ms = members@;
            let mut i: usize = 0;
            assert(ms.skip(0) =~= ms);
            assert(member(*v, key@) == member_of(ms, key@));
            while i < members.len()
                invariant
                    i <= members.len(),
                    ms == members@,
                    member(*v, key@) == member_of(ms, key@),
                    member_of(ms, key@) == member_of(ms.skip(i as int), key@),
                decreases members.len() - i,
            {
                assert(ms.skip(i as int)[0] == ms[i as int]);
                assert(ms.skip(i as int).drop_first() =~= ms.skip(i + 1));
                if str_eq(members[i].0.as_str(), key) {
                    assert(member_of(ms.skip(i as int), key@) == Some(ms[i as int].1));
                    return Some(&members[i].1);
                }
                i = i + 1;
            }
            None
        },
        _ => None,
    }
}

/// `member_ref` through an optional value.
pub fn at_ref<'a>(v: Option<&'a Json>, key: &str) -> (r: Option<&'a Json>)
    ensures
        match r {
            Some(x) => at(
                match v {
                    Some(y) => Some(*y),
                    None => None,
                },
                key@,
            ) == Some(*x),
            None => at(
                match v {
                    Some(y) => Some(*y),
                    None => None,
                },
                key@,
            ) is None,
        },
{
    match v {
        Some(x) => member_ref(x, key),
        None => None,
    }
}

// ---------------------------------------------------------------------------
// Numbers
// ---------------------------------------------------------------------------
//
// A number's text is read the way Rust reads an `f64` (`[+-]? digits [.
// digits] [e [+-] digits]`, with digits on at least one side of the point),
// then held in hundredths: rounded to the nearest hundredth, halves away
// from zero, a whole part from `10^16` up read as `10^16` (past any limit a
// percentage is clamped to), and an exponent beyond `±2^62` read as `±2^62`
// (which changes nothing: the value is then capped, or below a hundredth).
// `inf`, `infinity` and `nan` have no value in hundredths and give none.

/// Whole parts from `10^16` up are read as `10^16`.
pub open spec fn capped(n: nat) -> nat {
    if n > 10000000000000000 {
        10000000000000000
    } else {
        n
    }
}

/// The largest exponent kept: `2^62`.
pub open spec fn exponent_limit() -> nat {
    4611686018427387904
}

/// The leading run of ASCII digits of `s`, as a length.
pub open spec fn digit_run(s: Seq<char>) -> nat
    decreases s.len(),
{
    if s.len() > 0 && is_digit(s[0]) {
        1 + digit_run(s.drop_first())
    } else {
        0
    }
}

/// A leading sign: whether it is `-`, and the text after it.
pub open spec fn sign_split(t: Seq<char>) -> (bool, Seq<char>) {
    if t.len() > 0 && t[0] == '-' {
        (true, t.drop_first())
    } else if t.len() > 0 && t[0] == '+' {
        (false, t.drop_first())
    } else {
        (false, t)
    }
}

/// The mantissa of an unsigned number: all its digits, where the point
/// stands among them, and the text after it.
pub open spec fn mantissa(u: Seq<char>) -> Option<(Seq<char>, nat, Seq<char>)> {
    let k1 = digit_run(u);
    let r1 = u.skip(k1 as int);
    if r1.len() > 0 && r1[0] == '.' {
        let f = r1.drop_first();
        let k2 = digit_run(f);
        if k1 + k2 == 0 {
            None
        } else {
            Some((u.take(k1 as int) + f.take(k2 as int), k1, f.skip(k2 as int)))
        }
    } else if k1 == 0 {
        None
    } else {
        Some((u.take(k1 as int), k1, r1))
    }
}

/// The exponent that ends a number: none (`0`), or `e`/`E`, a sign, and
/// digits, the last thing in the text.
pub open spec fn exponent(r: Seq<char>) -> Option<int> {
    if r.len() == 0 {
        Some(0)
    } else if r[0] != 'e' && r[0] != 'E' {
        None
    } else {
        let (neg, d) = sign_split(r.drop_first());
        if d.len() == 0 || !all_digits(d) {
            None
        } else {
            let v: int = if digits_value(d) > exponent_limit() {
                exponent_limit() as int
            } else {
                digits_value(d) as int
            };
            Some(
                if neg {
                    -v
                } else {
                    v
                },
            )
        }
    }
}

/// `v · 10^n`.
pub open spec fn shifted(v: nat, n: nat) -> nat
    decreases n,
{
    if n == 0 {
        v
    } else {
        10 * shifted(v, (n - 1) as nat)
    }
}

/// The digit `j` places after the start of `g`, `0` outside it.
pub open spec fn digit_at(g: Seq<char>, j: int) -> nat {
    if 0 <= j < g.len() {
        digit_value(g[j])
    } else {
        0
    }
}

/// The whole part of the digits `g` with the point `p` places in.
pub open spec fn whole_value(g: Seq<char>, p: int) -> nat {
    if p <= 0 {
        0
    } else if p <= g.len() {
        digits_value(g.take(p))
    } else {
        shifted(digits_value(g), (p - g.len()) as nat)
    }
}

/// The magnitude, in hundredths, of an unsigned number.
pub open spec fn decimal_hundredths(u: Seq<char>) -> Option<nat> {
    match mantissa(u) {
        Some((g, k, r)) => match exponent(r) {
            Some(e) => {
                let p = k + e;
                let up: nat = if digit_at(g, p + 2) >= 5 {
                    1
                } else {
                    0
                };
                Some(capped(whole_value(g, p)) * 100 + digit_at(g, p) * 10 + digit_at(g, p + 1) + up)
            },
            None => None,
        },
        None => None,
    }
}

/// The value, in hundredths, of a number's text (see above for the form).
pub open spec fn number_hundredths(t: Seq<char>) -> Option<i64> {
    let (neg, u) = sign_split(t);
    match decimal_hundredths(u) {
        Some(m) => Some(
            if neg {
                (-m) as i64
            } else {
                m as i64
            },
        ),
        None => None,
    }
}

proof fn lemma_digit_run(s: Seq<char>)
    ensures
        digit_run(s) <= s.len(),
        forall|i: int| 0 <= i < digit_run(s) ==> is_digit(#[trigger] s[i]),
        digit_run(s) < s.len() ==> !is_digit(s[digit_run(s) as int]),
    decreases s.len(),
{
    if s.len() > 0 && is_digit(s[0]) {
        lemma_digit_run(s.drop_first());
        assert forall|i: int| 0 <= i < digit_run(s) implies is_digit(#[trigger] s[i]) by {
            if i > 0 {
                assert(s[i] == s.drop_first()[i - 1]);
            }
        }
        if digit_run(s) < s.len() {
            assert(s[digit_run(s) as int] == s.drop_first()[digit_run(s) - 1]);
        }
    }
}

/// The length of the run of digits of `v` from `from` on.
fn digit_run_of(v: &Vec<char>, from: usize) -> (n: usize)
    requires
        from <= v.len(),
    ensures
        n == digit_run(v@.skip(from as int)),
        from + n <= v.len(),
{
    proof {
        lemma_digit_run(v@.skip(from as int));
    }
    let ghost k = digit_run(v@.skip(from as int)) as int;
    let mut j: usize = from;
    while j < v.len() && '0' <= v[j] && v[j] <= '9'
        invariant
            from <= j <= v.len(),
            j - from <= k,
            k == digit_run(v@.skip(from as int)),
            k <= v@.len() - from,
            k < v@.len() - from ==> !is_digit(v@.skip(from as int)[k]),
        decreases v.len() - j,
    {
        assert(v@.skip(from as int)[j - from] == v@[j as int]);
        j = j + 1;
    }
    proof {
        if ((j - from) as int) < k {
            assert(v@.skip(from as int)[j - from] == v@[j as int]);
            assert(is_digit(v@.skip(from as int)[j - from]));
        }
    }
    j - from
}

/// `digits_value` of the first `n` digits of `g`, capped.
fn capped_value(g: &Vec<char>, n: usize) -> (r: u64)
    requires
        n <= g.len(),
        all_digits(g@),
    ensures
        r == capped(digits_value(g@.take(n as int))),
{
    let mut j: usize = 0;
    let mut acc: u64 = 0;
    assert(g@.take(0) =~= Seq::<char>::empty());
    while j < n
        invariant
            j <= n <= g.len(),
            all_digits(g@),
            acc == capped(digits_value(g@.take(j as int))),
        decreases n - j,
    {
        assert(is_digit(g@[j as int]));
        let d = (g[j] as u32 - 48) as u64;
        assert(g@.take(j + 1).drop_last() =~= g@.take(j as int));
        assert(digit_value(g@[j as int]) == d);
        if acc >= 1000000000000000 {
            acc = 10000000000000000;
        } else {
            acc = acc * 10 + d;
            if acc > 10000000000000000 {
                acc = 10000000000000000;
            }
        }
        j = j + 1;
    }
    acc
}

proof fn lemma_shifted_zero(n: nat)
    ensures
        shifted(0, n) == 0,
    decreases n,
{
    if n > 0 {
        lemma_shifted_zero((n - 1) as nat);
    }
}

proof fn lemma_shifted_grows(v: nat, i: nat, n: nat)
    requires
        i <= n,
    ensures
        shifted(v, i) <= shifted(v, n),
    decreases n,
{
    if i < n {
        lemma_shifted_grows(v, i, (n - 1) as nat);
    }
}

/// `capped(shifted(v, n))` from `capped(v)`.
fn shift_capped(c: u64, n: u128, Ghost(v): Ghost<nat>) -> (r: u64)
    requires
        c == capped(v),
    ensures
        r == capped(shifted(v, n as nat)),
{
    let mut acc = c;
    let mut i: u128 = 0;
    while i < n && acc != 0 && acc != 10000000000000000
        invariant
            i <= n,
            acc == capped(shifted(v, i as nat)),
        decreases n - i,
    {
        acc = if acc >= 1000000000000000 {
            10000000000000000
        } else {
            acc * 10
        };
        i = i + 1;
    }
    proof {
        if i < n {
            if acc == 0 {
                assert(v == 0) by {
                    lemma_shifted_grows(v, 0, i as nat);
                }
                lemma_shifted_zero(n as nat);
            } else {
                lemma_shifted_grows(v, i as nat, n as nat);
            }
        }
    }
    acc
}

fn digit_at_of(g: &Vec<char>, j: i128) -> (r: u64)
    requires
        all_digits(g@),
    ensures
        r == digit_at(g@, j as int),
{
    if 0 <= j && j < g.len() as i128 {
        let i = j as usize;
        assert(is_digit(g@[i as int]));
        (g[i] as u32 - 48) as u64
    } else {
        0
    }
}

/// The mantissa's digits, the point's place, and where the rest begins.
fn mantissa_of(u: &Vec<char>) -> (r: Option<(Vec<char>, usize, usize)>)
    ensures
        match mantissa(u@) {
            Some((g, k, rest)) => r matches Some((gv, kv, at)) && gv@ == g && kv == k && at
                <= u.len() && rest == u@.skip(at as int) && all_digits(g),
            None => r is None,
        },
{
    let k1 = digit_run_of(u, 0);
    assert(u@.skip(0) =~= u@);
    proof {
        lemma_digit_run(u@);
    }
    let mut g = copy_range(u, 0, k1);
    assert(all_digits(g@));
    if k1 < u.len() && u[k1] == '.' {
        assert(u@.skip(k1 as int)[0] == u@[k1 as int]);
        let ghost f = u@.skip(k1 as int).drop_first();
        assert(f =~= u@.skip(k1 + 1));
        let k2 = digit_run_of(u, k1 + 1);
        proof {
            lemma_digit_run(f);
        }
        if k1 + k2 == 0 {
            return None;
        }
        let frac = copy_range(u, k1 + 1, k1 + 1 + k2);
        assert(frac@ =~= f.take(k2 as int));
        let ghost g0 = g@;
        crate::text::push_chars(&mut g, &frac);
        assert(all_digits(g@)) by {
            assert forall|i: int| 0 <= i < g@.len() implies is_digit(#[trigger] g@[i]) by {
                if i >= g0.len() {
                    assert(g@[i] == f[i - g0.len()]);
                }
            }
        }
        assert(f.skip(k2 as int) =~= u@.skip(k1 + 1 + k2));
        Some((g, k1, k1 + 1 + k2))
    } else {
        if k1 < u.len() {
            assert(u@.skip(k1 as int)[0] == u@[k1 as int]);
        }
        if k1 == 0 {
            return None;
        }
        Some((g, k1, k1))
    }
}

/// The exponent ending `u` from `at` on.
fn exponent_of(u: &Vec<char>, at: usize) -> (r: Option<i128>)
    requires
        at <= u.len(),
    ensures
        match exponent(u@.skip(at as int)) {
            Some(e) => r == Some(e as i128),
            None => r is None,
        },
{
    let ghost r = u@.skip(at as int);
    if at == u.len() {
        return Some(0);
    }
    assert(r[0] == u@[at as int]);
    if u[at] != 'e' && u[at] != 'E' {
        return None;
    }
    assert(r[0] == 'e' || r[0] == 'E');
    let mut i = at + 1;
    let mut neg = false;
    assert(r.drop_first() =~= u@.skip(i as int));
    if i < u.len() && (u[i] == '-' || u[i] == '+') {
        neg = u[i] == '-';
        i = i + 1;
    }
    let ghost d = u@.skip(i as int);
    assert(sign_split(r.drop_first()) == (neg, d));
    if i == u.len() {
        return None;
    }
    let mut j = i;
    let mut acc: u64 = 0;
    assert(d.take(0) =~= Seq::<char>::empty());
    while j < u.len()
        invariant
            i <= j <= u.len(),
            i < u.len(),
            at < u.len(),
            d == u@.skip(i as int),
            r == u@.skip(at as int),
            r[0] == 'e' || r[0] == 'E',
            sign_split(r.drop_first()) == (neg, d),
            all_digits(d.take(j - i)),
            acc == (if digits_value(d.take(j - i)) > exponent_limit() {
                exponent_limit()
            } else {
                digits_value(d.take(j - i))
            }),
        decreases u.len() - j,
    {
        assert(d[j - i] == u@[j as int]);
        if !('0' <= u[j] && u[j] <= '9') {
            assert(!all_digits(d));
            return None;
        }
        let dv = (u[j] as u32 - 48) as u64;
        assert(d.take(j - i + 1).drop_last() =~= d.take(j - i));
        assert(digit_value(u@[j as int]) == dv);
        if acc >= 461168601842738791 {
            acc = 4611686018427387904;
        } else {
            acc = acc * 10 + dv;
            if acc > 4611686018427387904 {
                acc = 4611686018427387904;
            }
        }
        j = j + 1;
        assert(all_digits(d.take(j - i))) by {
            assert forall|x: int| 0 <= x < j - i implies is_digit(#[trigger] d.take(j - i)[x]) by {
                if x < j - i - 1 {
                    assert(d.take(j - i)[x] == d.take(j - i - 1)[x]);
                }
            }
        }
    }
    assert(d.take(j - i) =~= d);
    let v = acc as i128;
    if neg {
        Some(-v)
    } else {
        Some(v)
    }
}

/// The value of a number's text, in hundredths.
pub fn hundredths_of(text: &str) -> (r: Option<i64>)
    ensures
        r == number_hundredths(text@),
{
    let t = crate::text::chars_of(text);
    let neg = t.len() > 0 && t[0] == '-';
    let start: usize = if t.len() > 0 && (t[0] == '-' || t[0] == '+') {
        1
    } else {
        0
    };
    let u = copy_range(&t, start, t.len());
    assert(sign_split(t@) == (neg, u@));
    let (g, k, at) = match mantissa_of(&u) {
        Some(m) => m,
        None => {
            return None;
        },
    };
    let e = match exponent_of(&u, at) {
        Some(e) => e,
        None => {
            return None;
        },
    };
    let p: i128 = k as i128 + e;
    let whole: u64 = if p <= 0 {
        0
    } else if p <= g.len() as i128 {
        capped_value(&g, p as usize)
    } else {
        let c = capped_value(&g, g.len());
        assert(g@.take(g.len() as int) =~= g@);
        shift_capped(c, (p - g.len() as i128) as u128, Ghost(digits_value(g@)))
    };
    let d1 = digit_at_of(&g, p);
    let d2 = digit_at_of(&g, p + 1);
    let d3 = digit_at_of(&g, p + 2);
    let up: u64 = if d3 >= 5 {
        1
    } else {
        0
    };
    let m = whole * 100 + d1 * 10 + d2 + up;
    if neg {
        Some(-(m as i64))
    } else {
        Some(m as i64)
    }
}

} // verus!
