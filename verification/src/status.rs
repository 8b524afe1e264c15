//! The `status` view: the worst severity across checks (which the caller maps
//! to the process exit code), the compact one-liner for status bars, the
//! table's rows and its footer.

use vstd::prelude::*;

use crate::check::{
    lemma_results_severity_is_max, max_of, rank, result_severity, results_severity, CheckResult,
    Severity,
};
use crate::fixed::{dp2, push_dp2};
use crate::i18n::{t, tr, Lang};
use crate::json::{hundredths_of, number_hundredths};
use crate::style::{check_label, glyph, label, oneline_glyph, value_of, value_text};
use crate::text::{
    chars_of, decimal, owned, push_decimal, push_str, split_words, string_of, words,
};

verus! {

/// The single worst severity across every check (`Info` when there are
/// none) — the value `status` maps to its exit code (ok = 0, attention = 1,
/// critical = 2).
pub fn worst_severity(results: &[CheckResult]) -> (s: Severity)
    ensures
        s == results_severity(results@),
{
    let mut worst = Severity::Info;
    let mut i: usize = 0;
    while i < results.len()
        invariant
            i <= results.len(),
            worst == results_severity(results@.take(i as int)),
        decreases results.len() - i,
    {
        assert(results@.take(i + 1).drop_last() =~= results@.take(i as int));
        worst = max_of(worst, results[i].worst_severity());
        i = i + 1;
    }
    assert(results@.take(results.len() as int) =~= results@);
    worst
}

/// The worst severity is reached by some check and no check exceeds it; with
/// no check at all, all is well.
pub proof fn lemma_worst_is_the_max(results: Seq<CheckResult>)
    ensures
        forall|i: int|
            0 <= i < results.len() ==> rank(#[trigger] result_severity(results[i])) <= rank(
                results_severity(results),
            ),
        results.len() == 0 ==> results_severity(results) == Severity::Info,
        results.len() > 0 ==> exists|i: int|
            0 <= i < results.len() && #[trigger] result_severity(results[i]) == results_severity(
                results,
            ),
{
    lemma_results_severity_is_max(results);
}

/// The index of the first result at severity `s`, or `results.len()`.
pub open spec fn first_at(results: Seq<CheckResult>, s: Severity) -> int
    decreases results.len(),
{
    if results.len() == 0 {
        0
    } else if result_severity(results[0]) == s {
        0
    } else {
        1 + first_at(results.drop_first(), s)
    }
}

/// The one-line status (with the terminal's marks or the ASCII tags): the
/// worst glyph, then the most pressing check (the
/// first at the worst severity, in run order) and its value; just the glyph
/// and "ok" when all is well.
pub open spec fn oneline_text(lang: Lang, results: Seq<CheckResult>, on_terminal: bool) -> Seq<
    char,
> {
    let worst = results_severity(results);
    let k = first_at(results, worst);
    if worst == Severity::Info || k >= results.len() {
        glyph(worst, on_terminal) + " "@ + tr(lang, "ok"@, "ok"@)
    } else {
        glyph(worst, on_terminal) + " "@ + label(lang, results[k].check_name@) + " "@ + value_text(results[k])
    }
}

proof fn lemma_first_at_bounds(results: Seq<CheckResult>, s: Severity)
    ensures
        0 <= first_at(results, s) <= results.len(),
        first_at(results, s) < results.len() ==> result_severity(results[first_at(results, s)])
            == s,
        forall|j: int| 0 <= j < first_at(results, s) ==> result_severity(#[trigger] results[j]) != s,
    decreases results.len(),
{
    if results.len() > 0 && result_severity(results[0]) != s {
        let rest = results.drop_first();
        lemma_first_at_bounds(rest, s);
        assert forall|j: int| 0 <= j < first_at(results, s) implies result_severity(
            #[trigger] results[j],
        ) != s by {
            if j > 0 {
                assert(results[j] == rest[j - 1]);
            }
        }
    }
}

/// The one-liner names the most pressing check: when something is in
/// default, it shows the worst glyph, then the label and value of the first
/// check, in run order, at the worst severity — one exists, and every check
/// before it is at another severity. When all is well, the glyph and "ok".
pub proof fn lemma_oneline_names_the_first_worst(
    lang: Lang,
    results: Seq<CheckResult>,
    on_terminal: bool,
)
    ensures
        results_severity(results) == Severity::Info ==> oneline_text(lang, results, on_terminal)
            == glyph(Severity::Info, on_terminal) + " "@ + tr(lang, "ok"@, "ok"@),
        results_severity(results) != Severity::Info ==> {
            let w = results_severity(results);
            let k = first_at(results, w);
            &&& 0 <= k < results.len()
            &&& result_severity(results[k]) == w
            &&& forall|j: int| 0 <= j < k ==> result_severity(#[trigger] results[j]) != w
            &&& oneline_text(lang, results, on_terminal) == glyph(w, on_terminal) + " "@ + label(
                lang,
                results[k].check_name@,
            ) + " "@ + value_text(results[k])
        },
{
    let w = results_severity(results);
    lemma_first_at_bounds(results, w);
    lemma_results_severity_is_max(results);
    if w != Severity::Info {
        let i = choose|i: int| 0 <= i < results.len() && #[trigger] result_severity(results[i]) == w;
        assert(first_at(results, w) <= i);
    }
}

/// Build the one-line status.
pub fn oneline(lang: Lang, results: &[CheckResult], on_terminal: bool) -> (r: String)
    ensures
        r@ == oneline_text(lang, results@, on_terminal),
{
    let worst = worst_severity(results);
    let mut v: Vec<char> = Vec::new();
    push_str(&mut v, oneline_glyph(worst, on_terminal));
    push_str(&mut v, " ");
    let ghost k = first_at(results@, worst);
    proof {
        lemma_first_at_bounds(results@, worst);
    }
    if worst == Severity::Info {
        push_str(&mut v, t(lang, "ok", "ok"));
        return string_of(&v);
    }
    let mut i: usize = 0;
    while i < results.len()
        invariant
            i <= results.len(),
            worst == results_severity(results@),
            worst != Severity::Info,
            v@ == glyph(worst, on_terminal) + " "@,
            k == first_at(results@, worst),
            0 <= k <= results.len(),
            k < results.len() ==> result_severity(results@[k]) == worst,
            forall|j: int| 0 <= j < k ==> result_severity(#[trigger] results@[j]) != worst,
            forall|j: int| 0 <= j < i ==> result_severity(#[trigger] results@[j]) != worst,
        decreases results.len() - i,
    {
        if results[i].worst_severity() == worst {
            assert(i == k);
            let l = check_label(lang, results[i].check_name.as_str());
            push_str(&mut v, l.as_str());
            push_str(&mut v, " ");
            let value = value_of(&results[i]);
            push_str(&mut v, value.as_str());
            return string_of(&v);
        }
        i = i + 1;
    }
    push_str(&mut v, t(lang, "ok", "ok"));
    string_of(&v)
}

// ---------------------------------------------------------------------------
// Rows
// ---------------------------------------------------------------------------

/// One row of the status table.
pub struct Row {
    pub label: String,
    pub value: String,
    pub severity: Severity,
}

pub open spec fn row_view(r: Row) -> (Seq<char>, Seq<char>, Severity) {
    (r.label@, r.value@, r.severity)
}

pub open spec fn row_views(v: Seq<Row>) -> Seq<(Seq<char>, Seq<char>, Severity)> {
    Seq::new(v.len(), |i: int| row_view(v[i]))
}

proof fn lemma_row_views_push(v: Seq<Row>, x: Row)
    ensures
        row_views(v.push(x)) == row_views(v).push(row_view(x)),
{
    assert(row_views(v.push(x)) =~= row_views(v).push(row_view(x)));
}

/// The row of one check: its label, its value, its severity.
pub open spec fn check_row_view(lang: Lang, r: CheckResult) -> (Seq<char>, Seq<char>, Severity) {
    (label(lang, r.check_name@), value_text(r), result_severity(r))
}

pub fn check_row(lang: Lang, result: &CheckResult) -> (r: Row)
    ensures
        row_view(r) == check_row_view(lang, *result),
{
    Row {
        label: check_label(lang, result.check_name.as_str()),
        value: value_of(result),
        severity: result.worst_severity(),
    }
}

/// The load averages (hundredths) and the core count, as `/proc/loadavg`
/// and the machine report them.
pub struct Load {
    pub one: i64,
    pub five: i64,
    pub fifteen: i64,
    pub cores: usize,
}

/// The system load row: critical from twice the core count on the
/// one-minute average, attention from once (at least one core is assumed).
pub open spec fn load_row_view(lang: Lang, l: Load) -> (Seq<char>, Seq<char>, Severity) {
    let cores: int = if l.cores == 0 {
        1
    } else {
        l.cores as int
    };
    (
        tr(lang, "Load"@, "Charge"@),
        dp2(l.one as int) + " · "@ + dp2(l.five as int) + " · "@ + dp2(l.fifteen as int),
        if l.one >= 200 * cores {
            Severity::Critique
        } else if l.one >= 100 * cores {
            Severity::Attention
        } else {
            Severity::Info
        },
    )
}

pub fn load_row(lang: Lang, load: &Load) -> (r: Row)
    ensures
        row_view(r) == load_row_view(lang, *load),
{
    let cores: i128 = if load.cores == 0 {
        1
    } else {
        load.cores as i128
    };
    let one = load.one as i128;
    let severity = if one >= 200 * cores {
        Severity::Critique
    } else if one >= 100 * cores {
        Severity::Attention
    } else {
        Severity::Info
    };
    let mut v: Vec<char> = Vec::new();
    push_dp2(&mut v, load.one);
    push_str(&mut v, " · ");
    push_dp2(&mut v, load.five);
    push_str(&mut v, " · ");
    push_dp2(&mut v, load.fifteen);
    Row { label: owned(t(lang, "Load", "Charge")), value: string_of(&v), severity }
}

/// The three load averages of `/proc/loadavg` (its first three fields), as
/// text for the caller to read as numbers; `None` when there are fewer.
pub open spec fn loadavg_text(content: Seq<char>) -> Option<(Seq<char>, Seq<char>, Seq<char>)> {
    let w = words(content);
    if w.len() >= 3 {
        Some((w[0], w[1], w[2]))
    } else {
        None
    }
}

pub fn loadavg_fields(content: &str) -> (r: Option<(String, String, String)>)
    ensures
        match r {
            Some((one, five, fifteen)) => loadavg_text(content@) == Some((one@, five@, fifteen@)),
            None => loadavg_text(content@) is None,
        },
{
    let chars = chars_of(content);
    let w = split_words(&chars);
    if w.len() < 3 {
        return None;
    }
    Some((string_of(&w[0]), string_of(&w[1]), string_of(&w[2])))
}

/// The three load averages of `/proc/loadavg`, in hundredths, when each
/// reads as a number.
pub open spec fn loadavg_of(content: Seq<char>) -> Option<(i64, i64, i64)> {
    match loadavg_text(content) {
        Some((a, b, c)) => match (number_hundredths(a), number_hundredths(b), number_hundredths(c)) {
            (Some(x), Some(y), Some(z)) => Some((x, y, z)),
            _ => None,
        },
        None => None,
    }
}

pub fn parse_loadavg(content: &str) -> (r: Option<(i64, i64, i64)>)
    ensures
        r == loadavg_of(content@),
{
    let (a, b, c) = match loadavg_fields(content) {
        Some(f) => f,
        None => {
            return None;
        },
    };
    match (hundredths_of(a.as_str()), hundredths_of(b.as_str()), hundredths_of(c.as_str())) {
        (Some(x), Some(y), Some(z)) => Some((x, y, z)),
        _ => None,
    }
}

/// The rows of the status table: one per check, in run order, with the
/// system load on its own row right after the CPU check when it was read.
pub open spec fn rows_of(lang: Lang, results: Seq<CheckResult>, load: Option<Load>) -> Seq<
    (Seq<char>, Seq<char>, Severity),
>
    decreases results.len(),
{
    if results.len() == 0 {
        seq![]
    } else {
        let before = rows_of(lang, results.drop_last(), load);
        let r = results.last();
        let with_check = before.push(check_row_view(lang, r));
        match load {
            Some(l) if r.check_name@ == "cpu"@ => with_check.push(load_row_view(lang, l)),
            _ => with_check,
        }
    }
}

pub fn build_rows(lang: Lang, results: &[CheckResult], load: Option<&Load>) -> (r: Vec<Row>)
    ensures
        row_views(r@) == rows_of(
            lang,
            results@,
            match load {
                Some(l) => Some(*l),
                None => None,
            },
        ),
{
    let ghost lv = match load {
        Some(l) => Some(*l),
        None => None,
    };
    let mut rows: Vec<Row> = Vec::new();
    let mut i: usize = 0;
    while i < results.len()
        invariant
            i <= results.len(),
            lv == (match load {
                Some(l) => Some(*l),
                None => None::<Load>,
            }),
            row_views(rows@) == rows_of(lang, results@.take(i as int), lv),
        decreases results.len() - i,
    {
        assert(results@.take(i + 1).drop_last() =~= results@.take(i as int));
        assert(results@.take(i + 1).last() == results@[i as int]);
        let row = check_row(lang, &results[i]);
        proof {
            lemma_row_views_push(rows@, row);
        }
        rows.push(row);
        let name = chars_of(results[i].check_name.as_str());
        match load {
            Some(l) => {
                if crate::text::chars_eq_str(&name, "cpu") {
                    let lr = load_row(lang, l);
                    proof {
                        lemma_row_views_push(rows@, lr);
                    }
                    rows.push(lr);
                }
            },
            None => {},
        }
        i = i + 1;
    }
    assert(results@.take(results.len() as int) =~= results@);
    rows
}

/// The widest label (in characters), plus two columns of gap.
pub open spec fn label_width_of(rows: Seq<(Seq<char>, Seq<char>, Severity)>) -> nat
    decreases rows.len(),
{
    if rows.len() == 0 {
        2
    } else {
        let w = label_width_of(rows.drop_last());
        let l = rows.last().0.len() + 2;
        if l > w {
            l
        } else {
            w
        }
    }
}

pub fn label_width(rows: &Vec<Row>) -> (w: usize)
    requires
        forall|i: int| 0 <= i < rows@.len() ==> (#[trigger] rows@[i]).label@.len() + 2 <= usize::MAX,
    ensures
        w == label_width_of(row_views(rows@)),
{
    let ghost rv = row_views(rows@);
    let mut w: usize = 2;
    let mut i: usize = 0;
    while i < rows.len()
        invariant
            i <= rows.len(),
            rv == row_views(rows@),
            forall|j: int| 0 <= j < rows@.len() ==> (#[trigger] rows@[j]).label@.len() + 2 <= usize::MAX,
            w == label_width_of(rv.take(i as int)),
        decreases rows.len() - i,
    {
        assert(rv.take(i + 1).drop_last() =~= rv.take(i as int));
        assert(rv.take(i + 1).last() == row_view(rows@[i as int]));
        let n = chars_of(rows[i].label.as_str()).len() + 2;
        if n > w {
            w = n;
        }
        i = i + 1;
    }
    assert(rv.take(rows.len() as int) =~= rv);
    w
}

// ---------------------------------------------------------------------------
// Footer
// ---------------------------------------------------------------------------

/// How many checks call for attention.
pub open spec fn in_default(results: Seq<CheckResult>) -> nat
    decreases results.len(),
{
    if results.len() == 0 {
        0
    } else {
        in_default(results.drop_last()) + if result_severity(results.last()) != Severity::Info {
            1nat
        } else {
            0nat
        }
    }
}

pub fn count_in_default(results: &[CheckResult]) -> (n: usize)
    ensures
        n == in_default(results@),
{
    let mut n: usize = 0;
    let mut i: usize = 0;
    while i < results.len()
        invariant
            i <= results.len(),
            n <= i,
            n == in_default(results@.take(i as int)),
        decreases results.len() - i,
    {
        assert(results@.take(i + 1).drop_last() =~= results@.take(i as int));
        if results[i].worst_severity() != Severity::Info {
            n = n + 1;
        }
        i = i + 1;
    }
    assert(results@.take(results.len() as int) =~= results@);
    n
}

/// The footer: the all-clear line when nothing is in default, else a count
/// of what to look at, pluralized.
pub open spec fn footer_text(lang: Lang, count: nat, all_clear: Seq<char>) -> Seq<char> {
    if count == 0 {
        all_clear
    } else {
        let s = if count > 1 {
            "s"@
        } else {
            seq![]
        };
        match lang {
            Lang::En => decimal(count) + " thing"@ + s + " to look at → josephine doctor"@,
            Lang::Fr => decimal(count) + " point"@ + s + " à regarder → josephine doctor"@,
        }
    }
}

/// The footer line for `count` checks in default; `all_clear` is the line
/// spoken when there are none.
pub fn footer_message(lang: Lang, count: usize, all_clear: &str) -> (r: String)
    ensures
        r@ == footer_text(lang, count as nat, all_clear@),
{
    if count == 0 {
        return owned(all_clear);
    }
    let mut v: Vec<char> = Vec::new();
    push_decimal(&mut v, count as u64);
    match lang {
        Lang::En => push_str(&mut v, " thing"),
        Lang::Fr => push_str(&mut v, " point"),
    }
    if count > 1 {
        push_str(&mut v, "s");
    } else {
        assert(v@ + seq![] =~= v@);
    }
    match lang {
        Lang::En => push_str(&mut v, " to look at → josephine doctor"),
        Lang::Fr => push_str(&mut v, " à regarder → josephine doctor"),
    }
    string_of(&v)
}

/// Pad `s` with spaces to `width` characters (a longer `s` is kept whole).
pub open spec fn padded(s: Seq<char>, width: nat) -> Seq<char> {
    if s.len() >= width {
        s
    } else {
        s + Seq::new((width - s.len()) as nat, |i: int| ' ')
    }
}

pub fn pad(s: &str, width: usize) -> (r: String)
    ensures
        r@ == padded(s@, width as nat),
{
    let mut v = chars_of(s);
    if v.len() >= width {
        return string_of(&v);
    }
    let ghost start = v@;
    let target = width;
    while v.len() < target
        invariant
            start.len() < target,
            start.len() <= v@.len() <= target,
            v@ == start + Seq::new((v@.len() - start.len()) as nat, |i: int| ' '),
        decreases target - v.len(),
    {
        v.push(' ');
        assert(v@ =~= start + Seq::new((v@.len() - start.len()) as nat, |i: int| ' '));
    }
    string_of(&v)
}

} // verus!
