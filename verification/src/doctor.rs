//! `josephine doctor`'s closing sections: what's left to do, gathered from
//! the checks in default; and foresight, which stored metrics are projected
//! toward a limit (a full disk, a worn-out SSD) and how a projection that
//! crosses its horizon is worded.
//!
//! Values are fixed-point hundredths, as in [`crate::check`].

use vstd::prelude::*;

use crate::check::{
    lemma_results_severity_is_max, rank, result_severity, results_severity, CheckResult,
    Severity,
};
use crate::fixed::{dp0, dp1, dp2, int_text, push_dp0, push_dp1, push_dp2, push_int};
use crate::remedy::{for_result, remedies_for, remedy_views, Remedy};
use crate::i18n::{t, Lang};
use crate::style::{check_label, label};
use crate::text::{push_str, str_eq, string_of};

verus! {

// ---------------------------------------------------------------------------
// What's left to do
// ---------------------------------------------------------------------------

/// The remedies of the checks at severity `s`, in run order.
pub open spec fn remedies_at(lang: Lang, results: Seq<CheckResult>, s: Severity) -> Seq<
    (Seq<char>, Option<Seq<char>>),
>
    decreases results.len(),
{
    if results.len() == 0 {
        seq![]
    } else {
        remedies_at(lang, results.drop_last(), s) + if result_severity(results.last()) == s {
            remedies_for(lang, results.last())
        } else {
            seq![]
        }
    }
}

/// The "what's left to do" section: the critical checks' remedies first,
/// then those of the checks calling for attention, each band in run order.
pub open spec fn pending_text(lang: Lang, results: Seq<CheckResult>) -> Seq<
    (Seq<char>, Option<Seq<char>>),
> {
    remedies_at(lang, results, Severity::Critique) + remedies_at(lang, results, Severity::Attention)
}

proof fn lemma_remedy_views_append(a: Seq<Remedy>, b: Seq<Remedy>)
    ensures
        remedy_views(a + b) == remedy_views(a) + remedy_views(b),
{
    assert(remedy_views(a + b) =~= remedy_views(a) + remedy_views(b));
}

fn append_band(lang: Lang, results: &[CheckResult], s: Severity, out: &mut Vec<Remedy>)
    ensures
        remedy_views(final(out)@) == remedy_views(old(out)@) + remedies_at(lang, results@, s),
{
    let ghost start = remedy_views(out@);
    let mut i: usize = 0;
    assert(results@.take(0) =~= Seq::<CheckResult>::empty());
    assert(start + remedies_at(lang, results@.take(0), s) =~= start);
    while i < results.len()
        invariant
            i <= results.len(),
            remedy_views(out@) == start + remedies_at(lang, results@.take(i as int), s),
        decreases results.len() - i,
    {
        assert(results@.take(i + 1).drop_last() =~= results@.take(i as int));
        assert(results@.take(i + 1).last() == results@[i as int]);
        let ghost before = remedy_views(out@);
        if results[i].worst_severity() == s {
            let mut more = for_result(lang, &results[i]);
            let ghost added = more@;
            proof {
                lemma_remedy_views_append(out@, added);
            }
            out.append(&mut more);
        } else {
            assert(before + seq![] =~= before);
        }
        i = i + 1;
        assert(remedy_views(out@) =~= start + remedies_at(lang, results@.take(i as int), s));
    }
    assert(results@.take(results.len() as int) =~= results@);
}

/// The remedies `doctor` closes on, critical checks first.
pub fn pending_remedies(lang: Lang, results: &[CheckResult]) -> (r: Vec<Remedy>)
    ensures
        remedy_views(r@) == pending_text(lang, results@),
{
    let mut out: Vec<Remedy> = Vec::new();
    assert(remedy_views(out@) =~= Seq::<(Seq<char>, Option<Seq<char>>)>::empty());
    append_band(lang, results, Severity::Critique, &mut out);
    append_band(lang, results, Severity::Attention, &mut out);
    assert(remedy_views(out@) =~= pending_text(lang, results@));
    out
}

proof fn lemma_no_band_when_healthy(lang: Lang, results: Seq<CheckResult>, s: Severity)
    requires
        s != Severity::Info,
        forall|i: int| 0 <= i < results.len() ==> #[trigger] result_severity(results[i])
            == Severity::Info,
    ensures
        remedies_at(lang, results, s).len() == 0,
    decreases results.len(),
{
    if results.len() > 0 {
        let init = results.drop_last();
        assert forall|i: int| 0 <= i < init.len() implies #[trigger] result_severity(init[i])
            == Severity::Info by {
            assert(init[i] == results[i]);
        }
        lemma_no_band_when_healthy(lang, init, s);
        assert(result_severity(results[results.len() - 1]) == Severity::Info);
    }
}

/// On a healthy machine there is nothing left to do, so the section is not
/// printed: Joséphine does not manufacture work.
pub proof fn lemma_healthy_machine_has_nothing_left_to_do(lang: Lang, results: Seq<CheckResult>)
    requires
        results_severity(results) == Severity::Info,
    ensures
        pending_text(lang, results).len() == 0,
{
    lemma_results_severity_is_max(results);
    assert forall|i: int| 0 <= i < results.len() implies #[trigger] result_severity(results[i])
        == Severity::Info by {
        assert(rank(result_severity(results[i])) <= rank(results_severity(results)));
    }
    lemma_no_band_when_healthy(lang, results, Severity::Critique);
    lemma_no_band_when_healthy(lang, results, Severity::Attention);
}

// ---------------------------------------------------------------------------
// Foresight
// ---------------------------------------------------------------------------

/// What a projection heads toward.
#[derive(Debug, Clone, Copy, PartialEq, Eq, Structural)]
pub enum Kind {
    /// A resource filling up.
    Fill,
    /// A device wearing out.
    Wear,
}

/// One stored metric projected toward a limit.
#[derive(Clone, Copy)]
pub struct Target {
    pub check: &'static str,
    pub metric: &'static str,
    /// The limit, in hundredths of a percent.
    pub goal: i64,
    pub kind: Kind,
}

/// Everything foresight can watch, in the order it is reported.
pub open spec fn target_table() -> Seq<Target> {
    seq![
        Target { check: "disk", metric: "usage_percent_worst", goal: 10000, kind: Kind::Fill },
        Target {
            check: "inode",
            metric: "inode_usage_percent_worst",
            goal: 10000,
            kind: Kind::Fill,
        },
        Target { check: "memory", metric: "usage_percent", goal: 10000, kind: Kind::Fill },
        Target { check: "smart", metric: "smart_wear_percent", goal: 10000, kind: Kind::Wear },
    ]
}

/// Whether a target is watched: SMART, and so its wear metric, is opt-in.
pub open spec fn watched(target: Target, smart_enabled: bool) -> bool {
    smart_enabled || target.check@ != "smart"@
}

/// The targets to project: none when forecasting is off, else every target
/// of the table that is watched, in table order.
pub open spec fn targets_for(forecast_enabled: bool, smart_enabled: bool) -> Seq<Target> {
    if forecast_enabled {
        target_table().filter(|target: Target| watched(target, smart_enabled))
    } else {
        seq![]
    }
}

pub fn targets(forecast_enabled: bool, smart_enabled: bool) -> (r: Vec<Target>)
    ensures
        r@ == targets_for(forecast_enabled, smart_enabled),
{
    let mut out: Vec<Target> = Vec::new();
    if !forecast_enabled {
        assert(out@ =~= targets_for(forecast_enabled, smart_enabled));
        return out;
    }
    let table: Vec<Target> = vec![
        Target { check: "disk", metric: "usage_percent_worst", goal: 10000, kind: Kind::Fill },
        Target {
            check: "inode",
            metric: "inode_usage_percent_worst",
            goal: 10000,
            kind: Kind::Fill,
        },
        Target { check: "memory", metric: "usage_percent", goal: 10000, kind: Kind::Fill },
        Target { check: "smart", metric: "smart_wear_percent", goal: 10000, kind: Kind::Wear },
    ];
    assert(table@ =~= target_table());
    let ghost keep = |target: Target| watched(target, smart_enabled);
    let mut i: usize = 0;
    assert(table@.take(0) =~= Seq::<Target>::empty());
    while i < table.len()
        invariant
            i <= table.len(),
            table@ == target_table(),
            keep == (|target: Target| watched(target, smart_enabled)),
            out@ == table@.take(i as int).filter(keep),
        decreases table.len() - i,
    {
        let target = table[i];
        assert(table@.take(i + 1).drop_last() =~= table@.take(i as int));
        reveal(Seq::filter);
        if smart_enabled || !str_eq(target.check, "smart") {
            out.push(target);
        }
        i = i + 1;
    }
    assert(table@.take(table.len() as int) =~= table@);
    out
}

/// "day" or "days", "jour" or "jours".
pub open spec fn days_text(lang: Lang, eta: int) -> Seq<char> {
    match lang {
        Lang::En => if eta == 1 { "day"@ } else { "days"@ },
        Lang::Fr => if eta == 1 { "jour"@ } else { "jours"@ },
    }
}

pub fn days_word(lang: Lang, eta: i64) -> (r: &'static str)
    ensures
        r@ == days_text(lang, eta as int),
{
    if eta == 1 {
        t(lang, "day", "jour")
    } else {
        t(lang, "days", "jours")
    }
}

/// A rate with its sign always shown (`{:+.N}`).
pub open spec fn plus(v: int) -> Seq<char> {
    if v >= 0 {
        "+"@
    } else {
        seq![]
    }
}

/// A projection in words: the limit reached in about `eta` days, the value
/// now (hundredths of a percent) and the daily slope (hundredths of a percent
/// per day).
pub open spec fn forecast_text(
    lang: Lang,
    kind: Kind,
    check: Seq<char>,
    eta: int,
    now: int,
    slope: int,
) -> Seq<char> {
    let l = label(lang, check);
    let days = days_text(lang, eta);
    match (kind, lang) {
        (Kind::Fill, Lang::En) => l + ": full in ~"@ + int_text(eta) + " "@ + days + " ("@ + dp0(
            now,
        ) + "% now, "@ + plus(slope) + dp1(slope) + "%/day)"@,
        (Kind::Fill, Lang::Fr) => l + " : plein dans ~"@ + int_text(eta) + " "@ + days + " ("@
            + dp0(now) + " % aujourd'hui, "@ + plus(slope) + dp1(slope) + " %/j)"@,
        (Kind::Wear, Lang::En) => l + ": worn out in ~"@ + int_text(eta) + " "@ + days + " ("@
            + dp0(now) + "% used, "@ + plus(slope) + dp2(slope) + "%/day)"@,
        (Kind::Wear, Lang::Fr) => l + " : usé dans ~"@ + int_text(eta) + " "@ + days + " ("@ + dp0(
            now,
        ) + " % utilisé, "@ + plus(slope) + dp2(slope) + " %/j)"@,
    }
}

pub fn render_forecast(
    lang: Lang,
    kind: Kind,
    check: &str,
    eta: i64,
    now: i64,
    slope: i64,
) -> (r: String)
    ensures
        r@ == forecast_text(lang, kind, check@, eta as int, now as int, slope as int),
{
    let mut v: Vec<char> = Vec::new();
    let l = check_label(lang, check);
    push_str(&mut v, l.as_str());
    match (kind, lang) {
        (Kind::Fill, Lang::En) => push_str(&mut v, ": full in ~"),
        (Kind::Fill, Lang::Fr) => push_str(&mut v, " : plein dans ~"),
        (Kind::Wear, Lang::En) => push_str(&mut v, ": worn out in ~"),
        (Kind::Wear, Lang::Fr) => push_str(&mut v, " : usé dans ~"),
    }
    push_int(&mut v, eta);
    push_str(&mut v, " ");
    push_str(&mut v, days_word(lang, eta));
    push_str(&mut v, " (");
    push_dp0(&mut v, now);
    match (kind, lang) {
        (Kind::Fill, Lang::En) => push_str(&mut v, "% now, "),
        (Kind::Fill, Lang::Fr) => push_str(&mut v, " % aujourd'hui, "),
        (Kind::Wear, Lang::En) => push_str(&mut v, "% used, "),
        (Kind::Wear, Lang::Fr) => push_str(&mut v, " % utilisé, "),
    }
    if slope >= 0 {
        push_str(&mut v, "+");
    } else {
        assert(v@ + plus(slope as int) =~= v@);
    }
    match kind {
        Kind::Fill => push_dp1(&mut v, slope),
        Kind::Wear => push_dp2(&mut v, slope),
    }
    match lang {
        Lang::En => push_str(&mut v, "%/day)"),
        Lang::Fr => push_str(&mut v, " %/j)"),
    }
    assert(v@ =~= forecast_text(lang, kind, check@, eta as int, now as int, slope as int));
    string_of(&v)
}

} // verus!
