//! Reboot-required check — a kernel or core-library update only takes effect
//! after a restart, security fixes included.
//!
//! Detection is best-effort and layered, so it works across distros and
//! degrades to an informational "unavailable" rather than a false alarm. The
//! caller asks the probes in order (a Debian/Ubuntu flag file, Fedora/RHEL's
//! `needs-restarting -r`, NixOS's booted vs current system, then the running
//! kernel against the newest one installed) and hands each answer to
//! [`combine_step`], which says when to stop asking.

use vstd::prelude::*;

use crate::check::{details_view, metric_is, status_view, CheckResult, Metric};
use crate::config::RebootCheckConfig;
use crate::i18n::{t, tr, Lang};
use crate::text::{
    chars_eq, chars_of, digits_value, is_digit, owned, split_chars,
    split_on, string_views, trim, trim_chars, views,
};

verus! {

// ---------------------------------------------------------------------------
// Folding the layered signals
// ---------------------------------------------------------------------------

/// The folded verdict of `signals`: the first "yes" wins; "no" only when some
/// signal could actually tell; otherwise no answer.
pub open spec fn combined(signals: Seq<Option<bool>>) -> Option<bool> {
    if signals.contains(Some(true)) {
        Some(true)
    } else if signals.contains(Some(false)) {
        Some(false)
    } else {
        None
    }
}

/// What to do after one more signal.
#[derive(Debug, Clone, Copy, PartialEq, Eq, Structural)]
pub enum Step {
    /// A signal said "yes": stop asking, a restart is due.
    Stop,
    /// Ask the next probe; `true` once some signal has answered "no".
    Continue(bool),
}

/// One step of the fold: `answered` is whether a "no" has been seen so far.
/// A "yes" stops the walk at once, so the probes after it never run.
pub fn combine_step(answered: bool, signal: Option<bool>) -> (r: Step)
    ensures
        signal == Some(true) ==> r == Step::Stop,
        signal == Some(false) ==> r == Step::Continue(true),
        signal is None ==> r == Step::Continue(answered),
{
    match signal {
        Some(true) => Step::Stop,
        Some(false) => Step::Continue(true),
        None => Step::Continue(answered),
    }
}

/// The verdict once every probe has been asked without a "yes".
pub fn combine_finish(answered: bool) -> (r: Option<bool>)
    ensures
        r == (if answered {
            Some(false)
        } else {
            None
        }),
{
    if answered {
        Some(false)
    } else {
        None
    }
}

/// Fold the layered signals: the first "yes" wins, and "no" is only answered
/// when something could actually tell — otherwise `None`, and the check
/// reports "unavailable" rather than guessing.
pub fn combine(signals: &[Option<bool>]) -> (r: Option<bool>)
    ensures
        r == combined(signals@),
{
    let mut answered = false;
    let mut i: usize = 0;
    while i < signals.len()
        invariant
            i <= signals.len(),
            forall|j: int| 0 <= j < i ==> signals@[j] != Some(true),
            answered <==> exists|j: int| 0 <= j < i && signals@[j] == Some(false),
        decreases signals.len() - i,
    {
        match combine_step(answered, signals[i]) {
            Step::Stop => {
                assert(signals@.contains(Some(true))) by {
                    assert(signals@[i as int] == Some(true));
                }
                return Some(true);
            },
            Step::Continue(a) => {
                if a && !answered {
                    assert(signals@[i as int] == Some(false));
                }
                answered = a;
            },
        }
        i = i + 1;
    }
    assert(!signals@.contains(Some(true)));
    proof {
        if answered {
            let j = choose|j: int| 0 <= j < signals.len() && signals@[j] == Some(false);
            assert(signals@[j] == Some(false));
            assert(signals@.contains(Some(false)));
        }
    }
    combine_finish(answered)
}

/// Once a "yes" has been seen, nothing that follows changes the verdict.
pub proof fn lemma_yes_is_final(seen: Seq<Option<bool>>, rest: Seq<Option<bool>>)
    requires
        seen.contains(Some(true)),
    ensures
        combined(seen + rest) == Some(true),
{
    let j = choose|j: int| 0 <= j < seen.len() && seen[j] == Some(true);
    assert((seen + rest)[j] == Some(true));
}

/// Without a "yes", the verdict is "no" exactly when some probe answered.
pub proof fn lemma_no_needs_an_answer(signals: Seq<Option<bool>>)
    requires
        !signals.contains(Some(true)),
    ensures
        combined(signals) == Some(false) <==> signals.contains(Some(false)),
        combined(signals) is None <==> (forall|j: int|
            0 <= j < signals.len() ==> #[trigger] signals[j] is None),
{
    if !signals.contains(Some(false)) {
        assert forall|j: int| 0 <= j < signals.len() implies #[trigger] signals[j] is None by {
            if signals[j] is Some {
                assert(signals[j] == Some(true) || signals[j] == Some(false));
                assert(signals.contains(signals[j]));
            }
        }
    } else {
        let j = choose|j: int| 0 <= j < signals.len() && signals[j] == Some(false);
        assert(signals[j] is Some);
    }
}

// ---------------------------------------------------------------------------
// The probes' verdicts
// ---------------------------------------------------------------------------

/// The Debian/Ubuntu flag file: "yes" when present; no answer when absent
/// (absence alone doesn't prove "no reboot" on a non-Debian system).
pub fn flag_file_signal(present: bool) -> (r: Option<bool>)
    ensures
        r == (if present {
            Some(true)
        } else {
            None
        }),
{
    if present {
        Some(true)
    } else {
        None
    }
}

/// `needs-restarting -r`'s exit status, reading *only* the two codes it
/// documents: 1 means a reboot is needed, 0 that it isn't. Anything else —
/// the RPM database locked by another dnf, a permission error, 127, a
/// signal — means the tool could not answer.
pub fn interpret_needs_restarting(code: Option<i32>) -> (r: Option<bool>)
    ensures
        r == (match code {
            Some(0) => Some(false),
            Some(1) => Some(true),
            _ => None,
        }),
{
    match code {
        Some(0) => Some(false),
        Some(1) => Some(true),
        _ => None,
    }
}

/// NixOS: a reboot is due when the kernel, initrd or kernel modules that the
/// booted system points at differ from the activated one's. No answer when
/// either set of links couldn't be read (a non-NixOS system).
pub fn nixos_signal(booted: Option<Vec<String>>, current: Option<Vec<String>>) -> (r: Option<
    bool,
>)
    ensures
        r == (match (booted, current) {
            (Some(b), Some(c)) => Some(string_views(b@) != string_views(c@)),
            _ => None,
        }),
{
    match (booted, current) {
        (Some(b), Some(c)) => {
            let ghost bv = string_views(b@);
            let ghost cv = string_views(c@);
            if b.len() != c.len() {
                assert(bv.len() != cv.len());
                return Some(true);
            }
            let mut i: usize = 0;
            while i < b.len()
                invariant
                    b.len() == c.len(),
                    booted == Some(b),
                    current == Some(c),
                    i <= b.len(),
                    bv == string_views(b@),
                    cv == string_views(c@),
                    forall|j: int| 0 <= j < i ==> bv[j] == cv[j],
                decreases b.len() - i,
            {
                let x = chars_of(b[i].as_str());
                let y = chars_of(c[i].as_str());
                assert(bv[i as int] == x@ && cv[i as int] == y@);
                if !chars_eq(&x, &y) {
                    assert(bv[i as int] != cv[i as int]);
                    return Some(true);
                }
                i = i + 1;
            }
            assert(bv =~= cv);
            Some(false)
        },
        _ => None,
    }
}

// ---------------------------------------------------------------------------
// Kernel versions
// ---------------------------------------------------------------------------

/// The leading run of ASCII digits of `s`.
pub open spec fn leading_digits(s: Seq<char>) -> Seq<char>
    decreases s.len(),
{
    if s.len() > 0 && is_digit(s[0]) {
        seq![s[0]] + leading_digits(s.drop_first())
    } else {
        seq![]
    }
}

/// The leading dotted-numeric part of `parts`: each part's leading digits
/// parsed as a `u64`, stopping at the first part without any (or whose
/// digits overflow a `u64`).
pub open spec fn key_of_parts(parts: Seq<Seq<char>>) -> Seq<u64>
    decreases parts.len(),
{
    if parts.len() == 0 {
        seq![]
    } else {
        let d = leading_digits(parts[0]);
        if d.len() == 0 || digits_value(d) > u64::MAX {
            seq![]
        } else {
            seq![digits_value(d) as u64] + key_of_parts(parts.drop_first())
        }
    }
}

/// The comparable version of a kernel release: "6.9.4-arch1-1" gives
/// `[6, 9, 4]`.
pub open spec fn version_key_of(release: Seq<char>) -> Seq<u64> {
    key_of_parts(split_on(release, '.'))
}

/// `a < b` in the lexicographic order of `Vec<u64>` (a proper prefix is
/// smaller).
pub open spec fn lex_lt(a: Seq<u64>, b: Seq<u64>) -> bool
    decreases a.len(),
{
    if a.len() == 0 {
        b.len() > 0
    } else if b.len() == 0 {
        false
    } else if a[0] != b[0] {
        a[0] < b[0]
    } else {
        lex_lt(a.drop_first(), b.drop_first())
    }
}

/// Whether some installed kernel's version is strictly newer than the
/// running one's.
pub open spec fn newer_installed(running: Seq<char>, installed: Seq<Seq<char>>) -> bool {
    exists|i: int|
        0 <= i < installed.len() && lex_lt(
            version_key_of(running),
            #[trigger] version_key_of(installed[i]),
        )
}

/// A restart is due exactly when some installed kernel, wherever it stands
/// in the list, has a version key greater than the running kernel's: any one
/// such kernel is enough, and the answer doesn't depend on the list's order.
pub proof fn lemma_any_newer_kernel_counts(
    running: Seq<char>,
    installed: Seq<Seq<char>>,
    other: Seq<Seq<char>>,
)
    ensures
        forall|i: int|
            0 <= i < installed.len() && lex_lt(
                version_key_of(running),
                version_key_of(#[trigger] installed[i]),
            ) ==> newer_installed(running, installed),
        newer_installed(running, installed) ==> exists|i: int|
            0 <= i < installed.len() && lex_lt(
                version_key_of(running),
                version_key_of(#[trigger] installed[i]),
            ),
        installed.to_multiset() == other.to_multiset() ==> newer_installed(running, installed)
            == newer_installed(running, other),
{
    if installed.to_multiset() == other.to_multiset() {
        installed.to_multiset_ensures();
        other.to_multiset_ensures();
        if newer_installed(running, installed) {
            let i = choose|i: int|
                0 <= i < installed.len() && lex_lt(
                    version_key_of(running),
                    #[trigger] version_key_of(installed[i]),
                );
            assert(installed.contains(installed[i]));
            assert(installed.to_multiset().count(installed[i]) > 0);
            assert(other.to_multiset().count(installed[i]) > 0);
            assert(other.contains(installed[i]));
            let j = choose|j: int| 0 <= j < other.len() && other[j] == installed[i];
            assert(lex_lt(version_key_of(running), version_key_of(other[j])));
        }
        if newer_installed(running, other) {
            let j = choose|j: int|
                0 <= j < other.len() && lex_lt(
                    version_key_of(running),
                    #[trigger] version_key_of(other[j]),
                );
            assert(other.contains(other[j]));
            assert(other.to_multiset().count(other[j]) > 0);
            assert(installed.to_multiset().count(other[j]) > 0);
            assert(installed.contains(other[j]));
            let i = choose|i: int| 0 <= i < installed.len() && installed[i] == other[j];
            assert(lex_lt(version_key_of(running), version_key_of(installed[i])));
        }
    }
}

proof fn lemma_lex_lt_irreflexive(a: Seq<u64>)
    ensures
        !lex_lt(a, a),
    decreases a.len(),
{
    if a.len() > 0 {
        lemma_lex_lt_irreflexive(a.drop_first());
    }
}

/// Only the numeric version counts: when every installed kernel shares the
/// running one's numeric version (a packaging-suffix bump, or just the
/// running kernel itself), no restart is asked for.
pub proof fn lemma_same_version_is_quiet(running: Seq<char>, installed: Seq<Seq<char>>)
    requires
        forall|i: int|
            0 <= i < installed.len() ==> version_key_of(#[trigger] installed[i]) == version_key_of(
                running,
            ),
    ensures
        !newer_installed(running, installed),
{
    lemma_lex_lt_irreflexive(version_key_of(running));
}

/// The leading digits of `part` and their value as a `u64`, when there are
/// some and they fit.
fn leading_number(part: &Vec<char>) -> (r: Option<u64>)
    ensures
        match r {
            Some(n) => {
                &&& leading_digits(part@).len() > 0
                &&& digits_value(leading_digits(part@)) == n
            },
            None => leading_digits(part@).len() == 0 || digits_value(leading_digits(part@))
                > u64::MAX,
        },
{
    let ghost d = leading_digits(part@);
    let mut j: usize = 0;
    let mut acc: u64 = 0;
    let mut overflow = false;
    assert(part@.skip(0) =~= part@);
    assert(part@.take(0) =~= seq![]);
    while j < part.len() && '0' <= part[j] && part[j] <= '9'
        invariant
            j <= part.len(),
            d == part@.take(j as int) + leading_digits(part@.skip(j as int)),
            !overflow ==> acc == digits_value(part@.take(j as int)),
            overflow ==> digits_value(part@.take(j as int)) > u64::MAX,
        decreases part.len() - j,
    {
        assert(part@.skip(j as int)[0] == part@[j as int]);
        assert(part@.skip(j as int).drop_first() =~= part@.skip(j + 1));
        assert(part@.take(j + 1) =~= part@.take(j as int) + seq![part@[j as int]]);
        assert(part@.take(j + 1).drop_last() =~= part@.take(j as int));
        let dv = (part[j] as u32 - 48) as u64;
        if overflow {
            assert(digits_value(part@.take(j + 1)) >= digits_value(part@.take(j as int))) by (
            nonlinear_arith)
                requires
                    digits_value(part@.take(j + 1)) == digits_value(part@.take(j as int)) * 10
                        + digit_val(part@[j as int]),
            ;
        } else {
            let next: u128 = acc as u128 * 10 + dv as u128;
            if next > u64::MAX as u128 {
                overflow = true;
            } else {
                acc = next as u64;
            }
        }
        j = j + 1;
    }
    assert(leading_digits(part@.skip(j as int)) == Seq::<char>::empty());
    assert(d =~= part@.take(j as int));
    if j == 0 {
        return None;
    }
    if overflow {
        return None;
    }
    Some(acc)
}

spec fn digit_val(c: char) -> nat {
    crate::text::digit_value(c)
}

/// The leading dotted-numeric part of a kernel release, as a comparable
/// tuple. Stops at the first segment without a leading digit, so
/// "6.9.4-arch1-1" yields `[6, 9, 4]`.
pub fn version_key(release: &str) -> (r: Vec<u64>)
    ensures
        r@ == version_key_of(release@),
{
    let chars = chars_of(release);
    let parts = split_chars(&chars, '.');
    let ghost ps = views(parts@);
    let mut key: Vec<u64> = Vec::new();
    let mut i: usize = 0;
    assert(ps.skip(0) =~= ps);
    while i < parts.len()
        invariant
            i <= parts.len(),
            ps == views(parts@),
            ps == split_on(release@, '.'),
            key@ + key_of_parts(ps.skip(i as int)) == key_of_parts(ps),
        decreases parts.len() - i,
    {
        assert(ps.skip(i as int)[0] == parts@[i as int]@);
        assert(ps.skip(i as int).drop_first() =~= ps.skip(i + 1));
        match leading_number(&parts[i]) {
            Some(n) => {
                assert(key@.push(n) + key_of_parts(ps.skip(i + 1)) =~= key@ + key_of_parts(
                    ps.skip(i as int),
                ));
                key.push(n);
            },
            None => {
                assert(key@ =~= key@ + key_of_parts(ps.skip(i as int)));
                return key;
            },
        }
        i = i + 1;
    }
    assert(key@ =~= key@ + key_of_parts(ps.skip(i as int)));
    key
}

/// Whether `a < b` lexicographically.
fn key_less(a: &Vec<u64>, b: &Vec<u64>) -> (r: bool)
    ensures
        r == lex_lt(a@, b@),
{
    let mut i: usize = 0;
    assert(a@.skip(0) =~= a@);
    assert(b@.skip(0) =~= b@);
    while i < a.len() && i < b.len()
        invariant
            i <= a.len(),
            i <= b.len(),
            lex_lt(a@, b@) == lex_lt(a@.skip(i as int), b@.skip(i as int)),
        decreases a.len() - i,
    {
        assert(a@.skip(i as int)[0] == a@[i as int]);
        assert(b@.skip(i as int)[0] == b@[i as int]);
        if a[i] != b[i] {
            return a[i] < b[i];
        }
        assert(a@.skip(i as int).drop_first() =~= a@.skip(i + 1));
        assert(b@.skip(i as int).drop_first() =~= b@.skip(i + 1));
        i = i + 1;
    }
    i == a.len() && i < b.len()
}

/// Is any installed kernel strictly newer than the running one? Compares the
/// leading numeric version tuple only, so a bare packaging-suffix change never
/// raises a false alarm.
pub fn newer_kernel_installed(running: &str, installed: &[String]) -> (r: bool)
    ensures
        r == newer_installed(running@, string_views(installed@)),
{
    let running_key = version_key(running);
    let ghost names = string_views(installed@);
    let mut i: usize = 0;
    while i < installed.len()
        invariant
            i <= installed.len(),
            names == string_views(installed@),
            running_key@ == version_key_of(running@),
            forall|j: int|
                0 <= j < i ==> !lex_lt(version_key_of(running@), #[trigger] version_key_of(names[j])),
        decreases installed.len() - i,
    {
        let k = version_key(installed[i].as_str());
        assert(names[i as int] == installed@[i as int]@);
        if key_less(&running_key, &k) {
            return true;
        }
        i = i + 1;
    }
    false
}

/// The running kernel against the installed ones: no answer when no kernel
/// is installed (the module directories couldn't be read); the running
/// release is trimmed first.
pub fn kernel_signal(running: &str, installed: &[String]) -> (r: Option<bool>)
    ensures
        r == (if installed@.len() == 0 {
            None
        } else {
            Some(newer_installed(trim(running@), string_views(installed@)))
        }),
{
    if installed.len() == 0 {
        return None;
    }
    let chars = chars_of(running);
    let trimmed = trim_chars(&chars);
    let s = crate::text::string_of(&trimmed);
    Some(newer_kernel_installed(s.as_str(), installed))
}

// ---------------------------------------------------------------------------
// The check's result
// ---------------------------------------------------------------------------

pub open spec fn reboot_status(lang: Lang, required: bool) -> Seq<char> {
    if required {
        tr(lang, "restart needed"@, "redémarrage requis"@)
    } else {
        tr(lang, "no restart needed"@, "aucun redémarrage requis"@)
    }
}

pub open spec fn reboot_detail(lang: Lang, required: bool) -> Seq<char> {
    if required {
        tr(
            lang,
            "A restart is needed to finish applying updates (kernel or libraries)."@,
            "Un redémarrage est nécessaire pour finir d'appliquer des mises à jour (noyau ou bibliothèques)."@,
        )
    } else {
        tr(lang, "No restart is pending."@, "Aucun redémarrage en attente."@)
    }
}

/// `r` is the reboot check's report for `required`.
pub open spec fn is_reboot_report(
    r: CheckResult,
    lang: Lang,
    required: bool,
    config: RebootCheckConfig,
) -> bool {
    &&& r.check_name@ == "reboot"@
    &&& r.metrics@.len() == 1
    &&& metric_is(
        r.metrics@[0],
        "reboot_required"@,
        if required {
            100
        } else {
            0
        },
        "flag"@,
        Some(config.warning),
        Some(config.critical),
    )
    &&& details_view(r) == seq![reboot_detail(lang, required)]
    &&& r.top_processes@.len() == 0
    &&& status_view(r) == Some(reboot_status(lang, required))
}

/// `r` reports that no probe could tell.
pub open spec fn is_reboot_unavailable(r: CheckResult, lang: Lang) -> bool {
    &&& r.check_name@ == "reboot"@
    &&& r.metrics@.len() == 0
    &&& details_view(r) == seq![
        tr(
            lang,
            "Reboot status unavailable (no distro flag, `needs-restarting`, or kernel info)."@,
            "État de redémarrage indisponible (ni indicateur distro, ni `needs-restarting`, ni info noyau)."@,
        ),
    ]
    &&& r.top_processes@.len() == 0
    &&& status_view(r) == Some(tr(lang, "Unavailable"@, "Indisponible"@))
}

/// The result for a known answer: a `reboot_required` flag (`100` when a
/// restart is due) against the configured thresholds.
pub fn build_result(lang: Lang, required: bool, config: &RebootCheckConfig) -> (r: CheckResult)
    ensures
        is_reboot_report(r, lang, required, *config),
{
    let status = if required {
        t(lang, "restart needed", "redémarrage requis")
    } else {
        t(lang, "no restart needed", "aucun redémarrage requis")
    };
    let detail = if required {
        t(
            lang,
            "A restart is needed to finish applying updates (kernel or libraries).",
            "Un redémarrage est nécessaire pour finir d'appliquer des mises à jour (noyau ou bibliothèques).",
        )
    } else {
        t(lang, "No restart is pending.", "Aucun redémarrage en attente.")
    };
    let mut details = Vec::new();
    details.push(owned(detail));
    assert(string_views(details@) =~= seq![reboot_detail(lang, required)]);
    let mut metrics = Vec::new();
    metrics.push(
        Metric {
            name: owned("reboot_required"),
            value: if required {
                100
            } else {
                0
            },
            unit: owned("flag"),
            threshold_warning: Some(config.warning),
            threshold_critical: Some(config.critical),
        },
    );
    CheckResult {
        check_name: owned("reboot"),
        metrics,
        details,
        top_processes: Vec::new(),
        status_value: Some(owned(status)),
    }
}

/// The result when no probe could tell.
pub fn unavailable(lang: Lang) -> (r: CheckResult)
    ensures
        is_reboot_unavailable(r, lang),
{
    let mut details = Vec::new();
    details.push(
        owned(
            t(
                lang,
                "Reboot status unavailable (no distro flag, `needs-restarting`, or kernel info).",
                "État de redémarrage indisponible (ni indicateur distro, ni `needs-restarting`, ni info noyau).",
            ),
        ),
    );
    assert(string_views(details@) =~= seq![
        tr(
            lang,
            "Reboot status unavailable (no distro flag, `needs-restarting`, or kernel info)."@,
            "État de redémarrage indisponible (ni indicateur distro, ni `needs-restarting`, ni info noyau)."@,
        ),
    ]);
    CheckResult {
        check_name: owned("reboot"),
        metrics: Vec::new(),
        details,
        top_processes: Vec::new(),
        status_value: Some(owned(t(lang, "Unavailable", "Indisponible"))),
    }
}

/// The reboot-required check.
pub struct RebootCheck {
    config: RebootCheckConfig,
}

impl RebootCheck {
    /// This check's settings.
    pub closed spec fn config(self) -> RebootCheckConfig {
        self.config
    }

    pub fn new(config: RebootCheckConfig) -> (r: Self)
        ensures
            r.config() == config,
    {
        RebootCheck { config }
    }

    /// The check's internal name.
    pub fn name(&self) -> (r: &'static str)
        ensures
            r@ == "reboot"@,
    {
        "reboot"
    }

    /// The result for the folded verdict of the probes.
    pub fn evaluate(&self, lang: Lang, required: Option<bool>) -> (r: CheckResult)
        ensures
            match required {
                Some(b) => is_reboot_report(r, lang, b, self.config()),
                None => is_reboot_unavailable(r, lang),
            },
    {
        match required {
            Some(b) => build_result(lang, b, &self.config),
            None => unavailable(lang),
        }
    }
}

} // verus!
