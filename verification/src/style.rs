//! Shared presentation: a check's human label, the severity glyphs of the
//! one-line status, and how a metric's value reads.

use vstd::prelude::*;

use crate::check::{CheckResult, Metric, Severity};
use crate::fixed::{dp1, push_dp1};
use crate::i18n::{t, tr, Lang};
use crate::text::{chars_eq_str, chars_of, owned, push_str, string_of};

verus! {

/// The human label of a known check.
pub open spec fn known_label(lang: Lang, name: Seq<char>) -> Option<Seq<char>> {
    if name == "cpu"@ {
        Some(tr(lang, "CPU"@, "CPU"@))
    } else if name == "memory"@ {
        Some(tr(lang, "Memory"@, "Mémoire"@))
    } else if name == "disk"@ {
        Some(tr(lang, "Disk"@, "Disque"@))
    } else if name == "temperature"@ {
        Some(tr(lang, "Temperature"@, "Température"@))
    } else if name == "systemd"@ {
        Some(tr(lang, "Services"@, "Services"@))
    } else if name == "updates"@ {
        Some(tr(lang, "Updates"@, "Mises à jour"@))
    } else if name == "network"@ {
        Some(tr(lang, "Network"@, "Réseau"@))
    } else if name == "battery"@ {
        Some(tr(lang, "Battery"@, "Batterie"@))
    } else if name == "inode"@ {
        Some(tr(lang, "Inodes"@, "Inodes"@))
    } else if name == "smart"@ {
        Some(tr(lang, "SMART"@, "SMART"@))
    } else if name == "kernel"@ {
        Some(tr(lang, "Kernel"@, "Noyau"@))
    } else if name == "filesystem"@ {
        Some(tr(lang, "Filesystems"@, "Systèmes de fichiers"@))
    } else if name == "timesync"@ {
        Some(tr(lang, "Clock"@, "Horloge"@))
    } else if name == "security"@ {
        Some(tr(lang, "Security"@, "Sécurité"@))
    } else if name == "reboot"@ {
        Some(tr(lang, "Restart"@, "Redémarrage"@))
    } else if name == "pressure"@ {
        Some(tr(lang, "Pressure"@, "Pression"@))
    } else {
        None
    }
}

/// The human label of a check: its known label, or its internal name.
pub open spec fn label(lang: Lang, name: Seq<char>) -> Seq<char> {
    match known_label(lang, name) {
        Some(l) => l,
        None => name,
    }
}

fn known_label_of(lang: Lang, name: &str) -> (r: Option<&'static str>)
    ensures
        match r {
            Some(l) => known_label(lang, name@) == Some(l@),
            None => known_label(lang, name@) is None,
        },
{
    let n = chars_of(name);
    if chars_eq_str(&n, "cpu") {
        Some(t(lang, "CPU", "CPU"))
    } else if chars_eq_str(&n, "memory") {
        Some(t(lang, "Memory", "Mémoire"))
    } else if chars_eq_str(&n, "disk") {
        Some(t(lang, "Disk", "Disque"))
    } else if chars_eq_str(&n, "temperature") {
        Some(t(lang, "Temperature", "Température"))
    } else if chars_eq_str(&n, "systemd") {
        Some(t(lang, "Services", "Services"))
    } else if chars_eq_str(&n, "updates") {
        Some(t(lang, "Updates", "Mises à jour"))
    } else if chars_eq_str(&n, "network") {
        Some(t(lang, "Network", "Réseau"))
    } else if chars_eq_str(&n, "battery") {
        Some(t(lang, "Battery", "Batterie"))
    } else if chars_eq_str(&n, "inode") {
        Some(t(lang, "Inodes", "Inodes"))
    } else if chars_eq_str(&n, "smart") {
        Some(t(lang, "SMART", "SMART"))
    } else if chars_eq_str(&n, "kernel") {
        Some(t(lang, "Kernel", "Noyau"))
    } else if chars_eq_str(&n, "filesystem") {
        Some(t(lang, "Filesystems", "Systèmes de fichiers"))
    } else if chars_eq_str(&n, "timesync") {
        Some(t(lang, "Clock", "Horloge"))
    } else if chars_eq_str(&n, "security") {
        Some(t(lang, "Security", "Sécurité"))
    } else if chars_eq_str(&n, "reboot") {
        Some(t(lang, "Restart", "Redémarrage"))
    } else if chars_eq_str(&n, "pressure") {
        Some(t(lang, "Pressure", "Pression"))
    } else {
        None
    }
}

/// The human label of a check (`disk` → "Disk").
pub fn check_label(lang: Lang, name: &str) -> (r: String)
    ensures
        r@ == label(lang, name@),
{
    match known_label_of(lang, name) {
        Some(l) => owned(l),
        None => owned(name),
    }
}

/// The mark of a severity: a symbol on a terminal, a bracketed ASCII tag
/// anywhere else (a status bar, a pipe, a file).
pub open spec fn glyph(s: Severity, on_terminal: bool) -> Seq<char> {
    if on_terminal {
        match s {
            Severity::Info => "●"@,
            Severity::Attention => "▲"@,
            Severity::Critique => "✕"@,
        }
    } else {
        match s {
            Severity::Info => "[ok]"@,
            Severity::Attention => "[!]"@,
            Severity::Critique => "[x]"@,
        }
    }
}

pub fn oneline_glyph(s: Severity, on_terminal: bool) -> (r: &'static str)
    ensures
        r@ == glyph(s, on_terminal),
{
    if on_terminal {
        match s {
            Severity::Info => "●",
            Severity::Attention => "▲",
            Severity::Critique => "✕",
        }
    } else {
        match s {
            Severity::Info => "[ok]",
            Severity::Attention => "[!]",
            Severity::Critique => "[x]",
        }
    }
}

/// A metric's value with one decimal, then its unit ("90.0 %").
pub open spec fn metric_text(m: Metric) -> Seq<char> {
    dp1(m.value as int) + " "@ + m.unit@
}

pub fn format_metric_value(m: &Metric) -> (r: String)
    ensures
        r@ == metric_text(*m),
{
    let mut v: Vec<char> = Vec::new();
    push_dp1(&mut v, m.value);
    push_str(&mut v, " ");
    push_str(&mut v, m.unit.as_str());
    string_of(&v)
}

/// What a check's row shows: its own one-liner, else its first metric, else
/// a dash.
pub open spec fn value_text(r: CheckResult) -> Seq<char> {
    match r.status_value {
        Some(s) => s@,
        None => if r.metrics@.len() > 0 {
            metric_text(r.metrics@[0])
        } else {
            "—"@
        },
    }
}

pub fn value_of(r: &CheckResult) -> (s: String)
    ensures
        s@ == value_text(*r),
{
    match &r.status_value {
        Some(s) => owned(s.as_str()),
        None => if r.metrics.len() > 0 {
            format_metric_value(&r.metrics[0])
        } else {
            owned("—")
        },
    }
}

} // verus!
