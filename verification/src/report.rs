//! The plain-text, dated snapshot of the machine's health (`josephine
//! report`), and the `--since` window that appends a digest of what happened
//! over it.

use vstd::prelude::*;

use crate::check::{
    details_view, lemma_metrics_severity_is_max, metric_severity, rank, result_severity,
    results_severity, CheckResult, Metric, Severity,
};
use crate::fixed::{int_text, push_int};
use crate::i18n::{t, tr, Lang};
use crate::status::{pad, padded, worst_severity};
use crate::style::{check_label, label, value_of, value_text};
use crate::text::{
    all_digits, lemma_digits_value_mono, lemma_trim_push, chars_of, copy_range, decimal, digit_value, digits_value, is_digit, push_chars,
    prefixed, push_decimal, push_str, str_eq, string_of, trim, trim_chars, trim_start,
};

verus! {

// ---------------------------------------------------------------------------
// The `--since` window
// ---------------------------------------------------------------------------

/// Why a `--since` window was refused.
#[derive(Debug, Clone, Copy, PartialEq, Eq, Structural)]
pub enum SinceError {
    /// It does not end in `d` or `h`.
    NotAWindow,
    /// What comes before the unit is not a positive whole number.
    NotPositive,
}

impl SinceError {
    /// What the user is told.
    pub fn message(&self, lang: Lang) -> (r: &'static str)
        ensures
            r@ == since_message(lang, *self),
    {
        match self {
            SinceError::NotAWindow => t(
                lang,
                "--since expects a window like `7d` or `24h`.",
                "--since attend une fenêtre comme `7d` ou `24h`.",
            ),
            SinceError::NotPositive => t(
                lang,
                "--since must be a positive number followed by `d` or `h`.",
                "--since doit être un nombre positif suivi de `d` ou `h`.",
            ),
        }
    }
}

pub open spec fn since_message(lang: Lang, e: SinceError) -> Seq<char> {
    match e {
        SinceError::NotAWindow => tr(
            lang,
            "--since expects a window like `7d` or `24h`."@,
            "--since attend une fenêtre comme `7d` ou `24h`."@,
        ),
        SinceError::NotPositive => tr(
            lang,
            "--since must be a positive number followed by `d` or `h`."@,
            "--since doit être un nombre positif suivi de `d` ou `h`."@,
        ),
    }
}

/// Hours per unit of a trimmed window: 24 for a `d`/`D` suffix, 1 for
/// `h`/`H`, 0 when there is no unit.
pub open spec fn hours_per_unit(t: Seq<char>) -> int {
    if t.len() > 0 && (t.last() == 'd' || t.last() == 'D') {
        24
    } else if t.len() > 0 && (t.last() == 'h' || t.last() == 'H') {
        1
    } else {
        0
    }
}

/// A number's text without its optional leading `+`.
pub open spec fn unsigned_part(v: Seq<char>) -> Seq<char> {
    if v.len() > 0 && v[0] == '+' {
        v.drop_first()
    } else {
        v
    }
}

/// The value of `v` when it reads as an `i64` greater than zero.
pub open spec fn positive_count(v: Seq<char>) -> Option<nat> {
    let d = unsigned_part(v);
    if d.len() > 0 && all_digits(d) && 0 < digits_value(d) <= i64::MAX {
        Some(digits_value(d))
    } else {
        None
    }
}

/// A window read as (count, hours per unit), or why it was refused.
pub open spec fn since_parts(spec: Seq<char>) -> Result<(nat, int), SinceError> {
    let t = trim(spec);
    let per = hours_per_unit(t);
    if per == 0 {
        Err(SinceError::NotAWindow)
    } else {
        match positive_count(trim(t.drop_last())) {
            Some(n) => Ok((n, per)),
            None => Err(SinceError::NotPositive),
        }
    }
}

/// A window like `7d` or `24h` as a count of hours, or why it was refused.
pub open spec fn since_hours(spec: Seq<char>) -> Result<int, SinceError> {
    match since_parts(spec) {
        Ok((n, per)) => Ok(n * per),
        Err(e) => Err(e),
    }
}

/// Whether the hours of a window fit in an `i64` (a count of days past
/// `i64::MAX / 24` does not).
pub open spec fn since_fits(spec: Seq<char>) -> bool {
    match since_hours(spec) {
        Ok(h) => h <= i64::MAX,
        Err(_) => true,
    }
}

fn positive_of(v: &Vec<char>) -> (r: Option<u64>)
    ensures
        match positive_count(v@) {
            Some(n) => r == Some(n as u64),
            None => r is None,
        },
{
    let mut i: usize = 0;
    if v.len() > 0 && v[0] == '+' {
        i = 1;
    }
    let ghost d = unsigned_part(v@);
    assert(d =~= v@.skip(i as int));
    if i >= v.len() {
        return None;
    }
    let mut acc: u64 = 0;
    let mut j: usize = i;
    assert(d.take(0) =~= Seq::<char>::empty());
    while j < v.len()
        invariant
            i <= j <= v.len(),
            i < v.len(),
            d == v@.skip(i as int),
            d == unsigned_part(v@),
            acc == digits_value(d.take(j - i)),
            all_digits(d.take(j - i)),
            acc <= i64::MAX,
        decreases v.len() - j,
    {
        let c = v[j];
        if !('0' <= c && c <= '9') {
            assert(d[j - i] == c);
            assert(!is_digit(d[j - i]));
            assert(!all_digits(d));
            return None;
        }
        let dv: u64 = (c as u32 - 48) as u64;
        assert(d.take(j - i + 1).drop_last() =~= d.take(j - i));
        assert(d.take(j - i + 1).last() == c);
        assert(digit_value(c) == dv);
        assert(digits_value(d.take(j - i + 1)) == acc * 10 + dv);
        if acc > (9223372036854775807u64 - dv) / 10 {
            proof {
                assert(acc * 10 + dv > i64::MAX) by (nonlinear_arith)
                    requires
                        acc > (9223372036854775807u64 - dv) / 10,
                        dv <= 9,
                ;
                lemma_digits_value_mono(d, j - i + 1);
            }
            return None;
        }
        assert(acc * 10 + dv <= i64::MAX) by (nonlinear_arith)
            requires
                acc <= (9223372036854775807u64 - dv) / 10,
                dv <= 9,
        ;
        acc = acc * 10 + dv;
        j = j + 1;
        assert(all_digits(d.take(j - i))) by {
            assert forall|k: int| 0 <= k < d.take(j - i).len() implies is_digit(
                #[trigger] d.take(j - i)[k],
            ) by {
                if k < j - i - 1 {
                    assert(d.take(j - i)[k] == d.take(j - i - 1)[k]);
                }
            }
        }
    }
    assert(d.take(j - i) =~= d);
    if acc == 0 {
        return None;
    }
    Some(acc)
}

fn since_parts_of(spec: &str) -> (r: Result<(u64, i64), SinceError>)
    ensures
        match since_parts(spec@) {
            Ok((n, per)) => r == Ok::<(u64, i64), SinceError>((n as u64, per as i64)),
            Err(e) => r == Err::<(u64, i64), SinceError>(e),
        },
{
    let raw = chars_of(spec);
    let t = trim_chars(&raw);
    let n = t.len();
    let per: i64 = if n > 0 && (t[n - 1] == 'd' || t[n - 1] == 'D') {
        24
    } else if n > 0 && (t[n - 1] == 'h' || t[n - 1] == 'H') {
        1
    } else {
        return Err(SinceError::NotAWindow);
    };
    let body = copy_range(&t, 0, n - 1);
    assert(body@ =~= t@.drop_last());
    let value = trim_chars(&body);
    match positive_of(&value) {
        Some(count) => Ok((count, per)),
        None => Err(SinceError::NotPositive),
    }
}

/// Whether the window's hours fit in an `i64`; `parse_since` asks it of its
/// argument.
pub fn since_in_range(spec: &str) -> (r: bool)
    ensures
        r == since_fits(spec@),
{
    match since_parts_of(spec) {
        Ok((n, per)) => {
            let q = 9223372036854775807u64 / (per as u64);
            assert(n <= q <==> n * per <= i64::MAX) by (nonlinear_arith)
                requires
                    per == 1 || per == 24,
                    q == 9223372036854775807u64 / (per as u64),
            ;
            n <= q
        },
        Err(_) => true,
    }
}

/// Parse a `--since` window like `7d` or `24h` into a count of hours.
pub fn parse_since(spec: &str) -> (r: Result<i64, SinceError>)
    requires
        since_fits(spec@),
    ensures
        match since_hours(spec@) {
            Ok(h) => r == Ok::<i64, SinceError>(h as i64),
            Err(e) => r == Err::<i64, SinceError>(e),
        },
{
    match since_parts_of(spec) {
        Ok((n, per)) => {
            assert(n * per <= i64::MAX);
            Ok((n as i64) * per)
        },
        Err(e) => Err(e),
    }
}

/// A day is 24 hours and the unit's case doesn't matter: `Nd` and `ND` read
/// as 24 times `Nh` and `NH`, and each is refused, for the same reason,
/// exactly when the others are.
pub proof fn lemma_a_day_is_24_hours(count: Seq<char>)
    ensures
        since_hours(count.push('d')) == since_hours(count.push('D')),
        since_hours(count.push('h')) == since_hours(count.push('H')),
        match since_hours(count.push('h')) {
            Ok(h) => since_hours(count.push('d')) == Ok::<int, SinceError>(24 * h),
            Err(e) => since_hours(count.push('d')) == Err::<int, SinceError>(e),
        },
{
    let n = trim(trim_start(count));
    let base = trim_start(count);
    lemma_trim_push(count, 'd');
    lemma_trim_push(count, 'D');
    lemma_trim_push(count, 'h');
    lemma_trim_push(count, 'H');
    assert(base.push('d').drop_last() =~= base);
    assert(base.push('D').drop_last() =~= base);
    assert(base.push('h').drop_last() =~= base);
    assert(base.push('H').drop_last() =~= base);
    assert(since_parts(count.push('d')) == since_parts(count.push('D')));
    assert(since_parts(count.push('h')) == since_parts(count.push('H')));
    match positive_count(n) {
        Some(k) => {
            assert(since_parts(count.push('h')) == Ok::<(nat, int), SinceError>((k, 1)));
            assert(since_parts(count.push('d')) == Ok::<(nat, int), SinceError>((k, 24)));
        },
        None => {
            assert(since_parts(count.push('h')) == Err::<(nat, int), SinceError>(
                SinceError::NotPositive,
            ));
            assert(since_parts(count.push('d')) == Err::<(nat, int), SinceError>(
                SinceError::NotPositive,
            ));
        },
    }
}

/// The window in words: whole days when the hours are a multiple of a day.
pub open spec fn window_text(lang: Lang, hours: int) -> Seq<char> {
    if hours % 24 == 0 {
        let days = hours / 24;
        int_text(days) + match lang {
            Lang::En => if days == 1 { " day"@ } else { " days"@ },
            Lang::Fr => if days == 1 { " jour"@ } else { " jours"@ },
        }
    } else {
        int_text(hours) + match lang {
            Lang::En => if hours == 1 { " hour"@ } else { " hours"@ },
            Lang::Fr => if hours == 1 { " heure"@ } else { " heures"@ },
        }
    }
}

/// A window of whole days is labelled in days.
pub proof fn lemma_days_are_labelled_in_days(lang: Lang, days: int)
    requires
        days >= 1,
    ensures
        window_text(lang, 24 * days) == int_text(days) + match lang {
            Lang::En => if days == 1 {
                " day"@
            } else {
                " days"@
            },
            Lang::Fr => if days == 1 {
                " jour"@
            } else {
                " jours"@
            },
        },
{
    assert((24 * days) % 24 == 0 && (24 * days) / 24 == days) by (nonlinear_arith)
        requires
            days >= 1,
    ;
}

pub fn window_label(lang: Lang, hours: i64) -> (r: String)
    ensures
        r@ == window_text(lang, hours as int),
{
    let mut v: Vec<char> = Vec::new();
    let (count, unit, units): (i64, &str, &str) = if hours % 24 == 0 {
        (hours / 24, t(lang, " day", " jour"), t(lang, " days", " jours"))
    } else {
        (hours, t(lang, " hour", " heure"), t(lang, " hours", " heures"))
    };
    assert(hours % 24 == 0 ==> count == hours / 24);
    push_int(&mut v, count);
    if count == 1 {
        push_str(&mut v, unit);
    } else {
        push_str(&mut v, units);
    }
    string_of(&v)
}

// ---------------------------------------------------------------------------
// Labels
// ---------------------------------------------------------------------------

/// A severity as the report prints it, in a fixed-width column.
pub open spec fn state_text(lang: Lang, s: Severity) -> Seq<char> {
    match s {
        Severity::Info => "OK      "@,
        Severity::Attention => tr(lang, "WARNING "@, "ATTENTION"@),
        Severity::Critique => tr(lang, "CRITICAL"@, "CRITIQUE "@),
    }
}

pub fn state_label(lang: Lang, s: Severity) -> (r: &'static str)
    ensures
        r@ == state_text(lang, s),
{
    match s {
        Severity::Info => "OK      ",
        Severity::Attention => t(lang, "WARNING ", "ATTENTION"),
        Severity::Critique => t(lang, "CRITICAL", "CRITIQUE "),
    }
}

/// The state a transition went to, in warm, non-alarmist words.
pub open spec fn transition_text(lang: Lang, to_state: Seq<char>) -> Seq<char> {
    if to_state == "RECOVERED"@ {
        tr(lang, "resolved"@, "résolu"@)
    } else if to_state == "CRITICAL"@ {
        tr(lang, "critical"@, "critique"@)
    } else if to_state == "WARNING"@ {
        tr(lang, "attention"@, "attention"@)
    } else {
        tr(lang, "note"@, "note"@)
    }
}

pub fn transition_label(lang: Lang, to_state: &str) -> (r: &'static str)
    ensures
        r@ == transition_text(lang, to_state@),
{
    if str_eq(to_state, "RECOVERED") {
        t(lang, "resolved", "résolu")
    } else if str_eq(to_state, "CRITICAL") {
        t(lang, "critical", "critique")
    } else if str_eq(to_state, "WARNING") {
        t(lang, "attention", "attention")
    } else {
        t(lang, "note", "note")
    }
}

/// The machine's name from the kernel's hostname file, trimmed; `machine`
/// when the file could not be read or holds only blanks.
pub open spec fn host_text(content: Option<Seq<char>>) -> Seq<char> {
    match content {
        Some(c) => if trim(c).len() > 0 {
            trim(c)
        } else {
            "machine"@
        },
        None => "machine"@,
    }
}

pub fn host_label(content: Option<&str>) -> (r: String)
    ensures
        r@ == host_text(
            match content {
                Some(c) => Some(c@),
                None => None,
            },
        ),
{
    match content {
        Some(c) => {
            let raw = chars_of(c);
            let trimmed = trim_chars(&raw);
            if trimmed.len() > 0 {
                string_of(&trimmed)
            } else {
                crate::text::owned("machine")
            }
        },
        None => crate::text::owned("machine"),
    }
}

// ---------------------------------------------------------------------------
// The digest
// ---------------------------------------------------------------------------

/// One state change recorded in the window.
pub struct DigestEvent {
    pub check_name: String,
    /// The state the check went to (`RECOVERED`, `WARNING`, `CRITICAL`, ...).
    pub to_state: String,
    /// When it happened, in local time.
    pub when: String,
}

/// The digest of events over a window: how far back, and what happened.
pub struct Digest {
    /// The window in words (`7 days`).
    pub window: String,
    pub events: Vec<DigestEvent>,
}

/// A line of dashes or equal signs, sixty wide.
pub open spec fn rule(c: char) -> Seq<char> {
    Seq::new(60, |i: int| c)
}

fn push_rule(out: &mut Vec<char>, c: char)
    ensures
        final(out)@ == old(out)@ + rule(c),
{
    let ghost start = out@;
    let mut k: usize = 0;
    while k < 60
        invariant
            k <= 60,
            out@ == start + Seq::new(k as nat, |i: int| c),
        decreases 60 - k,
    {
        out.push(c);
        k = k + 1;
        assert(out@ =~= start + Seq::new(k as nat, |i: int| c));
    }
    assert(Seq::new(60, |i: int| c) =~= rule(c));
}

pub open spec fn event_line(lang: Lang, e: DigestEvent) -> Seq<char> {
    "    • ["@ + transition_text(lang, e.to_state@) + "] "@ + label(lang, e.check_name@)
        + " — "@ + e.when@ + "\n"@
}

pub open spec fn events_text(lang: Lang, events: Seq<DigestEvent>) -> Seq<char>
    decreases events.len(),
{
    if events.len() == 0 {
        seq![]
    } else {
        events_text(lang, events.drop_last()) + event_line(lang, events.last())
    }
}

/// How many events, pluralized.
pub open spec fn count_line(lang: Lang, n: nat) -> Seq<char> {
    "    "@ + decimal(n) + tr(lang, " event"@, " événement"@) + (if n == 1 {
        seq![]
    } else {
        "s"@
    }) + "\n"@
}

pub open spec fn digest_text(lang: Lang, d: Digest) -> Seq<char> {
    rule('=') + "\n"@ + match lang {
        Lang::En => "Over the last "@ + d.window@ + "\n"@,
        Lang::Fr => "Sur les "@ + d.window@ + " écoulés\n"@,
    } + if d.events@.len() == 0 {
        tr(
            lang,
            "    A quiet stretch — nothing to report.\n"@,
            "    Une période calme — rien à signaler.\n"@,
        )
    } else {
        count_line(lang, d.events@.len()) + events_text(lang, d.events@)
    }
}

pub fn render_digest(lang: Lang, digest: &Digest) -> (r: String)
    ensures
        r@ == digest_text(lang, *digest),
{
    let mut out: Vec<char> = Vec::new();
    push_rule(&mut out, '=');
    push_str(&mut out, "\n");
    match lang {
        Lang::En => {
            push_str(&mut out, "Over the last ");
            push_str(&mut out, digest.window.as_str());
            push_str(&mut out, "\n");
        },
        Lang::Fr => {
            push_str(&mut out, "Sur les ");
            push_str(&mut out, digest.window.as_str());
            push_str(&mut out, " écoulés\n");
        },
    }
    if digest.events.len() == 0 {
        push_str(
            &mut out,
            t(
                lang,
                "    A quiet stretch — nothing to report.\n",
                "    Une période calme — rien à signaler.\n",
            ),
        );
        assert(out@ =~= digest_text(lang, *digest));
        return string_of(&out);
    }
    let ghost head = out@;
    push_str(&mut out, "    ");
    push_decimal(&mut out, digest.events.len() as u64);
    push_str(&mut out, t(lang, " event", " événement"));
    if digest.events.len() != 1 {
        push_str(&mut out, "s");
    }
    push_str(&mut out, "\n");
    assert(out@ =~= head + count_line(lang, digest.events@.len()));
    let ghost counted = out@;
    let mut i: usize = 0;
    assert(digest.events@.take(0) =~= Seq::<DigestEvent>::empty());
    while i < digest.events.len()
        invariant
            i <= digest.events.len(),
            out@ == counted + events_text(lang, digest.events@.take(i as int)),
        decreases digest.events.len() - i,
    {
        let e = &digest.events[i];
        let ghost before = out@;
        push_str(&mut out, "    • [");
        push_str(&mut out, transition_label(lang, e.to_state.as_str()));
        push_str(&mut out, "] ");
        let name = check_label(lang, e.check_name.as_str());
        push_str(&mut out, name.as_str());
        push_str(&mut out, " — ");
        push_str(&mut out, e.when.as_str());
        push_str(&mut out, "\n");
        assert(out@ =~= before + event_line(lang, *e));
        assert(digest.events@.take(i + 1).drop_last() =~= digest.events@.take(i as int));
        i = i + 1;
    }
    assert(digest.events@.take(digest.events.len() as int) =~= digest.events@);
    assert(out@ =~= digest_text(lang, *digest));
    string_of(&out)
}

// ---------------------------------------------------------------------------
// The report
// ---------------------------------------------------------------------------

/// A labelled header line, the label padded to twelve characters.
pub open spec fn field_line(name: Seq<char>, value: Seq<char>) -> Seq<char> {
    padded(name, 12) + ": "@ + value + "\n"@
}

pub open spec fn report_head(
    lang: Lang,
    generated: Seq<char>,
    host: Seq<char>,
    global: Severity,
) -> Seq<char> {
    tr(lang, "Joséphine — system report\n"@, "Joséphine — rapport système\n"@) + field_line(
        "Date"@,
        generated,
    ) + field_line("Machine"@, host) + field_line(
        tr(lang, "Global state"@, "État global"@),
        state_text(lang, global),
    ) + rule('=') + "\n"@
}

/// A check's details, one per line, trimmed and indented.
pub open spec fn details_text(details: Seq<Seq<char>>) -> Seq<char>
    decreases details.len(),
{
    if details.len() == 0 {
        seq![]
    } else {
        details_text(details.drop_last()) + "    "@ + trim(details.last()) + "\n"@
    }
}

/// One check's section: its state, label and value, then its details.
pub open spec fn section_text(lang: Lang, r: CheckResult) -> Seq<char> {
    "\n["@ + state_text(lang, result_severity(r)) + "] "@ + label(lang, r.check_name@) + " — "@
        + value_text(r) + "\n"@ + details_text(details_view(r))
}

/// A metric has reached its critical threshold.
pub open spec fn reaches_critical(m: Metric) -> bool {
    m.threshold_critical matches Some(c) && m.value >= c
}

/// A metric has reached its warning or its critical threshold.
pub open spec fn reaches_a_threshold(m: Metric) -> bool {
    reaches_critical(m) || (m.threshold_warning matches Some(w) && m.value >= w)
}

/// Each check's section opens with that check's state over all its metrics:
/// critical exactly when some metric reaches its critical threshold, OK
/// exactly when no metric reaches any threshold, and calling for attention
/// otherwise — whichever metric it is, first or not.
pub proof fn lemma_section_shows_the_check_state(lang: Lang, r: CheckResult)
    ensures
        exists|s: Severity|
            #![trigger state_text(lang, s)]
            {
                &&& prefixed(section_text(lang, r), "\n["@ + state_text(lang, s) + "] "@)
                &&& (s == Severity::Critique <==> exists|i: int|
                    0 <= i < r.metrics@.len() && reaches_critical(#[trigger] r.metrics@[i]))
                &&& (s == Severity::Info <==> forall|i: int|
                    0 <= i < r.metrics@.len() ==> !reaches_a_threshold(#[trigger] r.metrics@[i]))
            },
{
    let ms = r.metrics@;
    let s = result_severity(r);
    lemma_metrics_severity_is_max(ms);
    let head = "\n["@ + state_text(lang, s) + "] "@;
    let rest = label(lang, r.check_name@) + " — "@ + value_text(r) + "\n"@ + details_text(
        details_view(r),
    );
    assert(section_text(lang, r) =~= head + rest);
    assert((head + rest).take(head.len() as int) =~= head);
    if s == Severity::Critique {
        let i = choose|i: int| 0 <= i < ms.len() && #[trigger] metric_severity(ms[i]) == s;
        assert(reaches_critical(ms[i]));
    }
    assert forall|i: int| 0 <= i < ms.len() && reaches_critical(#[trigger] ms[i]) implies s
        == Severity::Critique by {
        assert(rank(metric_severity(ms[i])) <= rank(s));
    }
    if s != Severity::Info {
        let i = choose|i: int| 0 <= i < ms.len() && #[trigger] metric_severity(ms[i]) == s;
        assert(reaches_a_threshold(ms[i]));
    }
    assert forall|i: int| 0 <= i < ms.len() && reaches_a_threshold(#[trigger] ms[i]) implies s
        != Severity::Info by {
        assert(rank(metric_severity(ms[i])) <= rank(s));
    }
    assert(state_text(lang, s) == state_text(lang, s));
}

pub open spec fn sections_text(lang: Lang, results: Seq<CheckResult>) -> Seq<char>
    decreases results.len(),
{
    if results.len() == 0 {
        seq![]
    } else {
        sections_text(lang, results.drop_last()) + section_text(lang, results.last())
    }
}

pub open spec fn report_foot(lang: Lang) -> Seq<char> {
    "\n"@ + rule('-') + "\n"@ + tr(
        lang,
        "Generated by Joséphine · 100% local\n"@,
        "Généré par Joséphine · 100 % local\n"@,
    )
}

/// The whole report: header, one section per check in order, the digest when
/// there is one, and the footer.
pub open spec fn report_text(
    lang: Lang,
    results: Seq<CheckResult>,
    generated: Seq<char>,
    host: Seq<char>,
    digest: Option<Digest>,
) -> Seq<char> {
    report_head(lang, generated, host, results_severity(results)) + sections_text(lang, results)
        + match digest {
        Some(d) => "\n"@ + digest_text(lang, d),
        None => seq![],
    } + report_foot(lang)
}

fn push_field(out: &mut Vec<char>, name: &str, value: &str)
    ensures
        final(out)@ == old(out)@ + field_line(name@, value@),
{
    let p = pad(name, 12);
    push_str(out, p.as_str());
    push_str(out, ": ");
    push_str(out, value);
    push_str(out, "\n");
    assert(final(out)@ =~= old(out)@ + field_line(name@, value@));
}

fn push_section(out: &mut Vec<char>, lang: Lang, result: &CheckResult)
    ensures
        final(out)@ == old(out)@ + section_text(lang, *result),
{
    let ghost start = out@;
    push_str(out, "\n[");
    push_str(out, state_label(lang, result.worst_severity()));
    push_str(out, "] ");
    let name = check_label(lang, result.check_name.as_str());
    push_str(out, name.as_str());
    push_str(out, " — ");
    let value = value_of(result);
    push_str(out, value.as_str());
    push_str(out, "\n");
    let ghost lead = out@;
    let ghost details = details_view(*result);
    let mut i: usize = 0;
    assert(details.take(0) =~= Seq::<Seq<char>>::empty());
    while i < result.details.len()
        invariant
            i <= result.details.len(),
            details == details_view(*result),
            details.len() == result.details.len(),
            out@ == lead + details_text(details.take(i as int)),
        decreases result.details.len() - i,
    {
        let raw = chars_of(result.details[i].as_str());
        let trimmed = trim_chars(&raw);
        push_str(out, "    ");
        push_chars(out, &trimmed);
        push_str(out, "\n");
        assert(details.take(i + 1).drop_last() =~= details.take(i as int));
        assert(details.take(i + 1).last() == result.details@[i as int]@);
        i = i + 1;
        assert(out@ =~= lead + details_text(details.take(i as int)));
    }
    assert(details.take(result.details.len() as int) =~= details);
    assert(out@ =~= start + section_text(lang, *result));
}

/// Render the plain-text report of `results`, dated `generated`, for the
/// machine `host`, with the digest when there is one.
pub fn render_report(
    lang: Lang,
    results: &[CheckResult],
    generated: &str,
    host: &str,
    digest: Option<&Digest>,
) -> (r: String)
    ensures
        r@ == report_text(
            lang,
            results@,
            generated@,
            host@,
            match digest {
                Some(d) => Some(*d),
                None => None,
            },
        ),
{
    let global = worst_severity(results);
    let mut out: Vec<char> = Vec::new();
    push_str(&mut out, t(lang, "Joséphine — system report\n", "Joséphine — rapport système\n"));
    push_field(&mut out, "Date", generated);
    push_field(&mut out, "Machine", host);
    push_field(&mut out, t(lang, "Global state", "État global"), state_label(lang, global));
    push_rule(&mut out, '=');
    push_str(&mut out, "\n");
    let ghost head = out@;
    assert(head =~= report_head(lang, generated@, host@, results_severity(results@)));
    let mut i: usize = 0;
    assert(results@.take(0) =~= Seq::<CheckResult>::empty());
    while i < results.len()
        invariant
            i <= results.len(),
            out@ == head + sections_text(lang, results@.take(i as int)),
        decreases results.len() - i,
    {
        push_section(&mut out, lang, &results[i]);
        assert(results@.take(i + 1).drop_last() =~= results@.take(i as int));
        i = i + 1;
    }
    assert(results@.take(results.len() as int) =~= results@);
    let ghost body = out@;
    match digest {
        Some(d) => {
            push_str(&mut out, "\n");
            let text = render_digest(lang, d);
            push_str(&mut out, text.as_str());
        },
        None => {},
    }
    let ghost with_digest = out@;
    push_str(&mut out, "\n");
    push_rule(&mut out, '-');
    push_str(&mut out, "\n");
    push_str(
        &mut out,
        t(lang, "Generated by Joséphine · 100% local\n", "Généré par Joséphine · 100 % local\n"),
    );
    assert(out@ =~= with_digest + report_foot(lang));
    string_of(&out)
}

} // verus!
