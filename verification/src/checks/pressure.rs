//! Pressure Stall Information (PSI) — the signal that the machine is
//! *struggling*, well before a raw usage percentage looks alarming. The
//! caller reads `/proc/pressure/{memory,cpu,io}`, which report two figures per
//! resource: `some`, the share of the window in which *at least one* task was
//! stalled, and `full`, the share in which *every* runnable task was.
//!
//! Only memory `full avg60` carries a threshold. `some` memory pressure is a
//! normal by-product of healthy work — a kernel build or a large file copy
//! pushes it to 20–30 % on a machine in no trouble at all — so alerting on it
//! would interrupt you for doing exactly what the computer is for. `full`
//! only climbs when nothing can make progress.
//!
//! Pressure figures are hundredths of a percent (the files give two decimals).

use vstd::prelude::*;

use crate::check::{
    details_view, metric_is, metric_severity, metrics_severity, result_severity, status_view,
    CheckResult, Metric, Severity,
};
use crate::config::PressureCheckConfig;
use crate::fixed::{dp0, dp1, push_dp0, push_dp1};
use crate::i18n::{t, tr, Lang};
use crate::json::{hundredths_of, number_hundredths};
use crate::text::{
    chars_of, copy_range, lemma_string_views_push, owned, prefixed, push_str, split_chars,
    split_on, split_words, starts_with, string_of, string_views, trim, trim_chars, views, words,
};

verus! {

// ---------------------------------------------------------------------------
// Parsing a PSI file
// ---------------------------------------------------------------------------

/// The text after `avg60=` in the first field that starts with it.
pub open spec fn avg60_of_fields(fields: Seq<Seq<char>>) -> Option<Seq<char>>
    decreases fields.len(),
{
    if fields.len() == 0 {
        None
    } else if prefixed(fields[0], "avg60="@) {
        Some(fields[0].skip("avg60="@.len() as int))
    } else {
        avg60_of_fields(fields.drop_first())
    }
}

/// The `avg60` text of a line that (once trimmed) starts with `kind` and a
/// space.
pub open spec fn avg60_of_line(line: Seq<char>, kind: Seq<char>) -> Option<Seq<char>> {
    let l = trim(line);
    if !prefixed(l, kind) {
        None
    } else {
        let rest = l.skip(kind.len() as int);
        if rest.len() > 0 && rest[0] == ' ' {
            avg60_of_fields(words(rest.skip(1)))
        } else {
            None
        }
    }
}

/// The `avg60` text of the first line of the named kind that has one.
pub open spec fn avg60_of_lines(lines: Seq<Seq<char>>, kind: Seq<char>) -> Option<Seq<char>>
    decreases lines.len(),
{
    if lines.len() == 0 {
        None
    } else {
        match avg60_of_line(lines[0], kind) {
            Some(v) => Some(v),
            None => avg60_of_lines(lines.drop_first(), kind),
        }
    }
}

/// The text of the `avg60` field of the named PSI line (`some` or `full`).
pub open spec fn avg60_in(content: Seq<char>, kind: Seq<char>) -> Option<Seq<char>> {
    avg60_of_lines(split_on(content, '\n'), kind)
}

fn avg60_in_fields(fields: &Vec<Vec<char>>) -> (r: Option<Vec<char>>)
    ensures
        match r {
            Some(v) => avg60_of_fields(views(fields@)) == Some(v@),
            None => avg60_of_fields(views(fields@)) is None,
        },
{
    let key = chars_of("avg60=");
    let ghost fs = views(fields@);
    let mut i: usize = 0;
    assert(fs.skip(0) =~= fs);
    while i < fields.len()
        invariant
            i <= fields.len(),
            fs == views(fields@),
            key@ == "avg60="@,
            avg60_of_fields(fs) == avg60_of_fields(fs.skip(i as int)),
        decreases fields.len() - i,
    {
        assert(fs.skip(i as int)[0] == fields@[i as int]@);
        assert(fs.skip(i as int).drop_first() =~= fs.skip(i + 1));
        if starts_with(&fields[i], &key) {
            return Some(copy_range(&fields[i], key.len(), fields[i].len()));
        }
        i = i + 1;
    }
    None
}

fn avg60_in_line(line: &Vec<char>, kind: &Vec<char>) -> (r: Option<Vec<char>>)
    ensures
        match r {
            Some(v) => avg60_of_line(line@, kind@) == Some(v@),
            None => avg60_of_line(line@, kind@) is None,
        },
{
    let l = trim_chars(line);
    if !starts_with(&l, kind) {
        return None;
    }
    let rest = copy_range(&l, kind.len(), l.len());
    assert(rest@ =~= l@.skip(kind.len() as int));
    if rest.len() > 0 && rest[0] == ' ' {
        let tail = copy_range(&rest, 1, rest.len());
        assert(tail@ =~= rest@.skip(1));
        let fields = split_words(&tail);
        avg60_in_fields(&fields)
    } else {
        None
    }
}

/// The text of the `avg60` field of the first PSI line of the given kind
/// (`some` or `full`) that carries one. The caller parses it as a number;
/// a line of that kind without an `avg60` field is skipped.
pub fn avg60_text(content: &str, kind: &str) -> (r: Option<String>)
    ensures
        match r {
            Some(v) => avg60_in(content@, kind@) == Some(v@),
            None => avg60_in(content@, kind@) is None,
        },
{
    let chars = chars_of(content);
    let k = chars_of(kind);
    let lines = split_chars(&chars, '\n');
    let ghost ls = views(lines@);
    let mut i: usize = 0;
    assert(ls.skip(0) =~= ls);
    while i < lines.len()
        invariant
            i <= lines.len(),
            ls == views(lines@),
            ls == split_on(content@, '\n'),
            k@ == kind@,
            avg60_of_lines(ls, kind@) == avg60_of_lines(ls.skip(i as int), kind@),
        decreases lines.len() - i,
    {
        assert(ls.skip(i as int)[0] == lines@[i as int]@);
        assert(ls.skip(i as int).drop_first() =~= ls.skip(i + 1));
        match avg60_in_line(&lines[i], &k) {
            Some(v) => {
                return Some(string_of(&v));
            },
            None => {},
        }
        i = i + 1;
    }
    None
}

/// The `avg60` texts of a PSI file: `some` is required (a file without it
/// isn't PSI output), `full` is optional.
pub fn psi_fields(content: &str) -> (r: Option<(String, Option<String>)>)
    ensures
        match r {
            Some((some, full)) => {
                &&& avg60_in(content@, "some"@) == Some(some@)
                &&& match full {
                    Some(f) => avg60_in(content@, "full"@) == Some(f@),
                    None => avg60_in(content@, "full"@) is None,
                }
            },
            None => avg60_in(content@, "some"@) is None,
        },
{
    let some = match avg60_text(content, "some") {
        Some(s) => s,
        None => {
            return None;
        },
    };
    Some((some, avg60_text(content, "full")))
}

// ---------------------------------------------------------------------------
// The check's result
// ---------------------------------------------------------------------------



/// One PSI resource's 60-second averages, in hundredths of a percent.
pub struct Psi {
    /// Share of the window with *at least one* task stalled.
    pub some: i64,
    /// Share of the window with *every* runnable task stalled. Absent on some
    /// resources and older kernels (notably `cpu` before 5.13).
    pub full: Option<i64>,
}

/// A PSI file read as figures: `some` is required and must read as a
/// number; `full` is kept when it does.
pub open spec fn psi_of(content: Seq<char>) -> Option<(i64, Option<i64>)> {
    match avg60_in(content, "some"@) {
        Some(some) => match number_hundredths(some) {
            Some(s) => Some(
                (
                    s,
                    match avg60_in(content, "full"@) {
                        Some(full) => number_hundredths(full),
                        None => None,
                    },
                ),
            ),
            None => None,
        },
        None => None,
    }
}

/// Parse a PSI file into its 60-second averages, in hundredths of a percent.
pub fn parse_psi(content: &str) -> (r: Option<Psi>)
    ensures
        match r {
            Some(p) => psi_of(content@) == Some((p.some, p.full)),
            None => psi_of(content@) is None,
        },
{
    let (some, full) = match psi_fields(content) {
        Some(f) => f,
        None => {
            return None;
        },
    };
    let some = match hundredths_of(some.as_str()) {
        Some(v) => v,
        None => {
            return None;
        },
    };
    let full = match full {
        Some(f) => hundredths_of(f.as_str()),
        None => None,
    };
    Some(Psi { some, full })
}


pub open spec fn pressure_status(lang: Lang, full: i64) -> Seq<char> {
    match lang {
        Lang::En => dp0(full as int) + "% stalled (60s)"@,
        Lang::Fr => dp0(full as int) + "% à l'arrêt (60s)"@,
    }
}

pub open spec fn memory_line(lang: Lang, full: i64, some: i64) -> Seq<char> {
    match lang {
        Lang::En => "Memory stall: "@ + dp1(full as int)
            + "% of the last minute with everything waiting ("@ + dp1(some as int)
            + "% with something waiting)."@,
        Lang::Fr => "Blocage mémoire : "@ + dp1(full as int)
            + "% de la dernière minute tout à l'arrêt ("@ + dp1(some as int)
            + "% avec au moins une tâche en attente)."@,
    }
}

pub open spec fn cpu_line(lang: Lang, cpu: i64) -> Seq<char> {
    match lang {
        Lang::En => "CPU stall: "@ + dp1(cpu as int) + "%."@,
        Lang::Fr => "Blocage CPU : "@ + dp1(cpu as int) + "%."@,
    }
}

pub open spec fn io_line(lang: Lang, io: i64) -> Seq<char> {
    match lang {
        Lang::En => "IO stall: "@ + dp1(io as int) + "%."@,
        Lang::Fr => "Blocage E/S : "@ + dp1(io as int) + "%."@,
    }
}

/// The optional extra lines for CPU and IO.
pub open spec fn extra_lines(lang: Lang, cpu: Option<i64>, io: Option<i64>) -> Seq<Seq<char>> {
    let c = match cpu {
        Some(x) => seq![cpu_line(lang, x)],
        None => seq![],
    };
    let i = match io {
        Some(y) => seq![io_line(lang, y)],
        None => seq![],
    };
    c + i
}

/// `r` is the pressure check's report on these figures.
pub open spec fn is_pressure_report(
    r: CheckResult,
    lang: Lang,
    full: i64,
    some: i64,
    cpu: Option<i64>,
    io: Option<i64>,
    config: PressureCheckConfig,
) -> bool {
    let n_cpu: int = if cpu is Some {
        1
    } else {
        0
    };
    let n_io: int = if io is Some {
        1
    } else {
        0
    };
    &&& r.check_name@ == "pressure"@
    &&& r.metrics@.len() == 2 + n_cpu + n_io
    &&& metric_is(
        r.metrics@[0],
        "memory_pressure_full_avg60"@,
        full,
        "%"@,
        Some(config.warning),
        Some(config.critical),
    )
    &&& metric_is(r.metrics@[1], "memory_pressure_avg60"@, some, "%"@, None, None)
    &&& (cpu matches Some(x) ==> metric_is(r.metrics@[2], "cpu_pressure_avg60"@, x, "%"@, None, None))
    &&& (io matches Some(y) ==> metric_is(
        r.metrics@[2 + n_cpu],
        "io_pressure_avg60"@,
        y,
        "%"@,
        None,
        None,
    ))
    &&& details_view(r) == seq![memory_line(lang, full, some)] + extra_lines(lang, cpu, io)
    &&& r.top_processes@.len() == 0
    &&& status_view(r) == Some(pressure_status(lang, full))
}

/// `r` reports that PSI isn't exposed.
pub open spec fn is_pressure_unavailable(r: CheckResult, lang: Lang) -> bool {
    &&& r.check_name@ == "pressure"@
    &&& r.metrics@.len() == 0
    &&& details_view(r) == seq![
        tr(
            lang,
            "Pressure stall info unavailable (`/proc/pressure` — kernel without PSI)."@,
            "Info de pression indisponible (`/proc/pressure` — noyau sans PSI)."@,
        ),
    ]
    &&& r.top_processes@.len() == 0
    &&& status_view(r) == Some(tr(lang, "Unavailable"@, "Indisponible"@))
}

fn percent_metric(name: &str, value: i64, warning: Option<i64>, critical: Option<i64>) -> (r:
    Metric)
    ensures
        metric_is(r, name@, value, "%"@, warning, critical),
{
    Metric {
        name: owned(name),
        value,
        unit: owned("%"),
        threshold_warning: warning,
        threshold_critical: critical,
    }
}

fn line_with(lang: Lang, en: &str, fr: &str, v: i64, en_end: &str, fr_end: &str) -> (r: String)
    ensures
        r@ == (match lang {
            Lang::En => en@ + dp1(v as int) + en_end@,
            Lang::Fr => fr@ + dp1(v as int) + fr_end@,
        }),
{
    let mut s: Vec<char> = Vec::new();
    match lang {
        Lang::En => {
            push_str(&mut s, en);
            push_dp1(&mut s, v);
            push_str(&mut s, en_end);
        },
        Lang::Fr => {
            push_str(&mut s, fr);
            push_dp1(&mut s, v);
            push_str(&mut s, fr_end);
        },
    }
    string_of(&s)
}

/// The result for memory `full` and `some` and, when read, CPU and IO
/// `some`: only memory `full` carries the configured thresholds; the rest
/// is recorded for history and never alerts.
pub fn build_result(
    lang: Lang,
    memory_full: i64,
    memory_some: i64,
    cpu: Option<i64>,
    io: Option<i64>,
    config: &PressureCheckConfig,
) -> (r: CheckResult)
    ensures
        is_pressure_report(r, lang, memory_full, memory_some, cpu, io, *config),
{
    let mut status: Vec<char> = Vec::new();
    push_dp0(&mut status, memory_full);
    match lang {
        Lang::En => push_str(&mut status, "% stalled (60s)"),
        Lang::Fr => push_str(&mut status, "% à l'arrêt (60s)"),
    }

    let mut memory: Vec<char> = Vec::new();
    match lang {
        Lang::En => {
            push_str(&mut memory, "Memory stall: ");
            push_dp1(&mut memory, memory_full);
            push_str(&mut memory, "% of the last minute with everything waiting (");
            push_dp1(&mut memory, memory_some);
            push_str(&mut memory, "% with something waiting).");
        },
        Lang::Fr => {
            push_str(&mut memory, "Blocage mémoire : ");
            push_dp1(&mut memory, memory_full);
            push_str(&mut memory, "% de la dernière minute tout à l'arrêt (");
            push_dp1(&mut memory, memory_some);
            push_str(&mut memory, "% avec au moins une tâche en attente).");
        },
    }
    let mut details: Vec<String> = Vec::new();
    let first = string_of(&memory);
    proof {
        lemma_string_views_push(details@, first);
    }
    details.push(first);
    assert(string_views(details@) =~= seq![memory_line(lang, memory_full, memory_some)]);

    let mut metrics: Vec<Metric> = Vec::new();
    metrics.push(
        percent_metric(
            "memory_pressure_full_avg60",
            memory_full,
            Some(config.warning),
            Some(config.critical),
        ),
    );
    metrics.push(percent_metric("memory_pressure_avg60", memory_some, None, None));

    match cpu {
        Some(x) => {
            let line = line_with(lang, "CPU stall: ", "Blocage CPU : ", x, "%.", "%.");
            proof {
                lemma_string_views_push(details@, line);
            }
            details.push(line);
            metrics.push(percent_metric("cpu_pressure_avg60", x, None, None));
        },
        None => {},
    }
    let ghost after_cpu = string_views(details@);
    assert(after_cpu =~= seq![memory_line(lang, memory_full, memory_some)] + extra_lines(
        lang,
        cpu,
        None,
    ));
    match io {
        Some(y) => {
            let line = line_with(lang, "IO stall: ", "Blocage E/S : ", y, "%.", "%.");
            proof {
                lemma_string_views_push(details@, line);
            }
            details.push(line);
            metrics.push(percent_metric("io_pressure_avg60", y, None, None));
        },
        None => {},
    }
    assert(string_views(details@) =~= seq![memory_line(lang, memory_full, memory_some)]
        + extra_lines(lang, cpu, io));

    CheckResult {
        check_name: owned("pressure"),
        metrics,
        details,
        top_processes: Vec::new(),
        status_value: Some(string_of(&status)),
    }
}

/// The result where PSI isn't exposed (older kernels, or `CONFIG_PSI` off).
pub fn unavailable(lang: Lang) -> (r: CheckResult)
    ensures
        is_pressure_unavailable(r, lang),
{
    let mut details = Vec::new();
    details.push(
        owned(
            t(
                lang,
                "Pressure stall info unavailable (`/proc/pressure` — kernel without PSI).",
                "Info de pression indisponible (`/proc/pressure` — noyau sans PSI).",
            ),
        ),
    );
    assert(string_views(details@) =~= seq![
        tr(
            lang,
            "Pressure stall info unavailable (`/proc/pressure` — kernel without PSI)."@,
            "Info de pression indisponible (`/proc/pressure` — noyau sans PSI)."@,
        ),
    ]);
    CheckResult {
        check_name: owned("pressure"),
        metrics: Vec::new(),
        details,
        top_processes: Vec::new(),
        status_value: Some(owned(t(lang, "Unavailable", "Indisponible"))),
    }
}

/// The pressure check.
pub struct PressureCheck {
    config: PressureCheckConfig,
}

impl PressureCheck {
    /// This check's settings.
    pub closed spec fn config(self) -> PressureCheckConfig {
        self.config
    }

    pub fn new(config: PressureCheckConfig) -> (r: Self)
        ensures
            r.config() == config,
    {
        PressureCheck { config }
    }

    /// The check's internal name.
    pub fn name(&self) -> (r: &'static str)
        ensures
            r@ == "pressure"@,
    {
        "pressure"
    }

    /// The verdict on the PSI figures read: `full` memory is what the check
    /// judges on, so without it there is nothing to say; CPU and IO
    /// contribute their `some` figure.
    pub fn evaluate(
        &self,
        lang: Lang,
        memory: Option<Psi>,
        cpu: Option<Psi>,
        io: Option<Psi>,
    ) -> (r: CheckResult)
        ensures
            match memory {
                Some(Psi { some, full: Some(full) }) => is_pressure_report(
                    r,
                    lang,
                    full,
                    some,
                    match cpu {
                        Some(p) => Some(p.some),
                        None => None,
                    },
                    match io {
                        Some(p) => Some(p.some),
                        None => None,
                    },
                    self.config(),
                ),
                _ => is_pressure_unavailable(r, lang),
            },
    {
        let memory = match memory {
            Some(m) => m,
            None => {
                return unavailable(lang);
            },
        };
        let full = match memory.full {
            Some(f) => f,
            None => {
                return unavailable(lang);
            },
        };
        let cpu_some = match cpu {
            Some(p) => Some(p.some),
            None => None,
        };
        let io_some = match io {
            Some(p) => Some(p.some),
            None => None,
        };
        build_result(lang, full, memory.some, cpu_some, io_some, &self.config)
    }
}

/// When every metric after the first carries no threshold, the severity is
/// the first metric's.
proof fn lemma_only_first_counts(ms: Seq<Metric>)
    requires
        ms.len() > 0,
        forall|i: int|
            1 <= i < ms.len() ==> (#[trigger] ms[i]).threshold_warning is None
                && ms[i].threshold_critical is None,
    ensures
        metrics_severity(ms) == metric_severity(ms[0]),
    decreases ms.len(),
{
    let init = ms.drop_last();
    if ms.len() > 1 {
        assert forall|i: int| 1 <= i < init.len() implies (#[trigger] init[i]).threshold_warning is None
            && init[i].threshold_critical is None by {
            assert(init[i] == ms[i]);
        }
        lemma_only_first_counts(init);
        assert(init[0] == ms[0]);
        assert(metric_severity(ms[ms.len() - 1]) == Severity::Info);
    } else {
        assert(metrics_severity(init) == Severity::Info);
    }
}

/// Only `full` memory pressure can raise an alert: the report's severity is
/// that of the `full` figure against the thresholds, whatever `some`, CPU
/// and IO read — a busy build stays quiet while `full` stays low.
pub proof fn lemma_only_full_memory_alerts(
    r: CheckResult,
    lang: Lang,
    full: i64,
    some: i64,
    cpu: Option<i64>,
    io: Option<i64>,
    config: PressureCheckConfig,
)
    requires
        is_pressure_report(r, lang, full, some, cpu, io, config),
    ensures
        result_severity(r) == (if full >= config.critical {
            Severity::Critique
        } else if full >= config.warning {
            Severity::Attention
        } else {
            Severity::Info
        }),
        forall|i: int|
            1 <= i < r.metrics@.len() ==> (#[trigger] r.metrics@[i]).threshold_warning is None
                && r.metrics@[i].threshold_critical is None,
{
    lemma_only_first_counts(r.metrics@);
}

} // verus!
