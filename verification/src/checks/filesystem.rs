//! Filesystem check — a writable filesystem silently remounted **read-only**
//! is a classic early sign of a failing disk or corruption. The mount table
//! (`/proc/mounts`) is read by the caller; when it can't be read the check
//! degrades to "unavailable" rather than a false alarm.
//!
//! Immutable systems mount some paths read-only *by design* — NixOS keeps
//! `/nix/store` read-only, so it shows up as a read-only bind mount of a
//! normally-writable filesystem. Those mount points are skipped via the
//! configurable `ignore_mounts` allowlist.

use vstd::prelude::*;

use crate::check::{count_value, details_view, fixed_count, metric_is, status_view, CheckResult, Metric};
use crate::config::FilesystemCheckConfig;
use crate::i18n::{t, tr, Lang};
use crate::text::{
    chars_eq, chars_eq_str, chars_of, copy_range, lemma_string_views_push, split_chars, split_on,
    split_words, string_of, string_views, views, words, decimal, owned, push_decimal, push_str,
};

verus! {

// ---------------------------------------------------------------------------
// Parsing the mount table
// ---------------------------------------------------------------------------

/// Filesystem types that are normally mounted read-write. A mount of one of
/// these with the `ro` option is almost certainly a remount forced by the
/// kernel after corruption or I/O errors — unlike `squashfs`/`iso9660`/`erofs`
/// image mounts, which are deliberately read-only.
pub open spec fn writable_fstype(t: Seq<char>) -> bool {
    ||| t == "ext2"@
    ||| t == "ext3"@
    ||| t == "ext4"@
    ||| t == "btrfs"@
    ||| t == "xfs"@
    ||| t == "f2fs"@
    ||| t == "vfat"@
    ||| t == "exfat"@
    ||| t == "jfs"@
    ||| t == "reiserfs"@
    ||| t == "ntfs3"@
}

/// Whole-word `ro` among the comma-separated options — so `norecovery` or a
/// hypothetical `rowhatever` never count.
pub open spec fn has_ro(options: Seq<char>) -> bool {
    split_on(options, ',').contains("ro"@)
}

/// The mount point a mount-table line flags: fields are device, mount point,
/// fstype, options, …; a line with fewer than four fields flags nothing.
pub open spec fn flagged_mount(line: Seq<char>, ignore: Seq<Seq<char>>) -> Option<Seq<char>> {
    let f = words(line);
    if f.len() < 4 {
        None
    } else if !writable_fstype(f[2]) {
        None
    } else if ignore.contains(f[1]) {
        None
    } else if has_ro(f[3]) {
        Some(f[1])
    } else {
        None
    }
}

/// The mount points that `lines` flag, in order.
pub open spec fn flagged_mounts(lines: Seq<Seq<char>>, ignore: Seq<Seq<char>>) -> Seq<Seq<char>>
    decreases lines.len(),
{
    if lines.len() == 0 {
        seq![]
    } else {
        let before = flagged_mounts(lines.drop_last(), ignore);
        match flagged_mount(lines.last(), ignore) {
            Some(m) => before.push(m),
            None => before,
        }
    }
}

/// The mount points of a mount table that are unexpectedly read-only.
/// Lines end at `\n`; a `\r` before it is whitespace, so it never reaches a
/// field.
pub open spec fn readonly_mounts(content: Seq<char>, ignore: Seq<Seq<char>>) -> Seq<Seq<char>> {
    flagged_mounts(split_on(content, '\n'), ignore)
}

/// Whether the allowlist `ignore` lets the mount point `m` through.
pub open spec fn not_ignored(ignore: Seq<Seq<char>>) -> spec_fn(Seq<char>) -> bool {
    |m: Seq<char>| !ignore.contains(m)
}

proof fn lemma_flagged_then_filtered(lines: Seq<Seq<char>>, ignore: Seq<Seq<char>>)
    ensures
        flagged_mounts(lines, ignore) == flagged_mounts(lines, seq![]).filter(not_ignored(ignore)),
    decreases lines.len(),
{
    reveal(Seq::filter);
    let keep = not_ignored(ignore);
    let none: Seq<Seq<char>> = seq![];
    if lines.len() == 0 {
        assert(flagged_mounts(lines, none).filter(keep) =~= flagged_mounts(lines, none));
    } else {
        lemma_flagged_then_filtered(lines.drop_last(), ignore);
        let before = flagged_mounts(lines.drop_last(), none);
        match flagged_mount(lines.last(), none) {
            Some(m) => {
                assert(before.push(m).drop_last() =~= before);
                assert(before.push(m).last() == m);
            },
            None => {},
        }
    }
}

/// The allowlist only ever silences its own mount points: the mounts
/// flagged with it are exactly those flagged without it that it doesn't
/// list, in the same order.
pub proof fn lemma_allowlist_only_silences_its_own(content: Seq<char>, ignore: Seq<Seq<char>>)
    ensures
        readonly_mounts(content, ignore) == readonly_mounts(content, seq![]).filter(
            not_ignored(ignore),
        ),
{
    lemma_flagged_then_filtered(split_on(content, '\n'), ignore);
}

proof fn lemma_flagged_line_is_kept(lines: Seq<Seq<char>>, ignore: Seq<Seq<char>>, i: int)
    requires
        0 <= i < lines.len(),
        flagged_mount(lines[i], ignore) is Some,
    ensures
        flagged_mounts(lines, ignore).contains(flagged_mount(lines[i], ignore)->0),
    decreases lines.len(),
{
    let init = lines.drop_last();
    let m = flagged_mount(lines[i], ignore)->0;
    if i < lines.len() - 1 {
        assert(init[i] == lines[i]);
        lemma_flagged_line_is_kept(init, ignore, i);
        let before = flagged_mounts(init, ignore);
        let k = choose|k: int| 0 <= k < before.len() && before[k] == m;
        match flagged_mount(lines.last(), ignore) {
            Some(x) => {
                assert(before.push(x)[k] == m);
            },
            None => {},
        }
    } else {
        let before = flagged_mounts(init, ignore);
        assert(before.push(m)[before.len() as int] == m);
    }
}

/// Every normally-writable filesystem type — ext2, ext3, ext4, btrfs, xfs,
/// f2fs, vfat, exfat, jfs, reiserfs, ntfs3 — is watched: a line of the mount
/// table with such a type, the whole-word `ro` option and a mount point
/// outside the allowlist always has its mount point flagged.
pub proof fn lemma_writable_types_are_flagged(content: Seq<char>, ignore: Seq<Seq<char>>, i: int)
    requires
        0 <= i < split_on(content, '\n').len(),
        words(split_on(content, '\n')[i]).len() >= 4,
        ({
            let t = words(split_on(content, '\n')[i])[2];
            ||| t == "ext2"@
            ||| t == "ext3"@
            ||| t == "ext4"@
            ||| t == "btrfs"@
            ||| t == "xfs"@
            ||| t == "f2fs"@
            ||| t == "vfat"@
            ||| t == "exfat"@
            ||| t == "jfs"@
            ||| t == "reiserfs"@
            ||| t == "ntfs3"@
        }),
        split_on(words(split_on(content, '\n')[i])[3], ',').contains("ro"@),
        !ignore.contains(words(split_on(content, '\n')[i])[1]),
    ensures
        readonly_mounts(content, ignore).contains(words(split_on(content, '\n')[i])[1]),
{
    let lines = split_on(content, '\n');
    lemma_flagged_line_is_kept(lines, ignore, i);
}

fn is_writable_fstype(t: &Vec<char>) -> (r: bool)
    ensures
        r == writable_fstype(t@),
{
    chars_eq_str(t, "ext2") || chars_eq_str(t, "ext3") || chars_eq_str(t, "ext4")
        || chars_eq_str(t, "btrfs") || chars_eq_str(t, "xfs") || chars_eq_str(t, "f2fs")
        || chars_eq_str(t, "vfat") || chars_eq_str(t, "exfat") || chars_eq_str(t, "jfs")
        || chars_eq_str(t, "reiserfs") || chars_eq_str(t, "ntfs3")
}

/// Whole-word match on the comma-separated options field.
pub fn has_ro_option(options: &str) -> (r: bool)
    ensures
        r == has_ro(options@),
{
    let v = chars_of(options);
    has_ro_chars(&v)
}

fn has_ro_chars(options: &Vec<char>) -> (r: bool)
    ensures
        r == has_ro(options@),
{
    let parts = split_chars(options, ',');
    let ghost pieces = views(parts@);
    let mut i: usize = 0;
    while i < parts.len()
        invariant
            i <= parts.len(),
            pieces == views(parts@),
            pieces == split_on(options@, ','),
            forall|j: int| 0 <= j < i ==> pieces[j] != "ro"@,
        decreases parts.len() - i,
    {
        if chars_eq_str(&parts[i], "ro") {
            assert(pieces[i as int] == "ro"@);
            return true;
        }
        i = i + 1;
    }
    assert(!pieces.contains("ro"@));
    false
}

fn is_ignored(mount: &Vec<char>, ignore: &[String]) -> (r: bool)
    ensures
        r == string_views(ignore@).contains(mount@),
{
    let ghost names = string_views(ignore@);
    let mut i: usize = 0;
    while i < ignore.len()
        invariant
            i <= ignore.len(),
            names == string_views(ignore@),
            forall|j: int| 0 <= j < i ==> names[j] != mount@,
        decreases ignore.len() - i,
    {
        let other = chars_of(ignore[i].as_str());
        if chars_eq(&other, mount) {
            assert(names[i as int] == mount@);
            return true;
        }
        i = i + 1;
    }
    assert(!names.contains(mount@));
    false
}

fn flag_line(line: &Vec<char>, ignore: &[String]) -> (r: Option<Vec<char>>)
    ensures
        match r {
            Some(m) => flagged_mount(line@, string_views(ignore@)) == Some(m@),
            None => flagged_mount(line@, string_views(ignore@)) is None,
        },
{
    let fields = split_words(line);
    let ghost f = views(fields@);
    if fields.len() < 4 {
        return None;
    }
    assert(f[1] == fields@[1]@ && f[2] == fields@[2]@ && f[3] == fields@[3]@);
    if !is_writable_fstype(&fields[2]) {
        return None;
    }
    if is_ignored(&fields[1], ignore) {
        return None;
    }
    if has_ro_chars(&fields[3]) {
        Some(copy_range(&fields[1], 0, fields[1].len()))
    } else {
        None
    }
}

/// The mount points of a mount table (`/proc/mounts`: device, mount point,
/// fstype, options, …) that are unexpectedly read-only: a read-write-class
/// filesystem whose options hold the whole-word `ro` flag, and whose mount
/// point isn't listed in `ignore_mounts`.
///
/// Filtering is by fstype, not by path: pseudo filesystems never appear among
/// the writable types, and a USB stick under `/run/media/…` still counts.
pub fn find_readonly_mounts(content: &str, ignore_mounts: &[String]) -> (r: Vec<String>)
    ensures
        string_views(r@) == readonly_mounts(content@, string_views(ignore_mounts@)),
{
    let chars = chars_of(content);
    let lines = split_chars(&chars, '\n');
    let ghost all = views(lines@);
    let ghost ignore = string_views(ignore_mounts@);
    let mut out: Vec<String> = Vec::new();
    let mut i: usize = 0;
    while i < lines.len()
        invariant
            i <= lines.len(),
            all == views(lines@),
            all == split_on(content@, '\n'),
            ignore == string_views(ignore_mounts@),
            string_views(out@) == flagged_mounts(all.take(i as int), ignore),
        decreases lines.len() - i,
    {
        assert(all.take(i + 1).drop_last() =~= all.take(i as int));
        assert(all.take(i + 1).last() == lines@[i as int]@);
        match flag_line(&lines[i], ignore_mounts) {
            Some(m) => {
                let s = string_of(&m);
                proof {
                    lemma_string_views_push(out@, s);
                }
                out.push(s);
            },
            None => {},
        }
        i = i + 1;
    }
    assert(all.take(lines.len() as int) =~= all);
    out
}

// ---------------------------------------------------------------------------
// The check's result
// ---------------------------------------------------------------------------

/// The one-line summary: how many mounts are read-only, naming the first.
pub open spec fn fs_status(lang: Lang, flagged: Seq<Seq<char>>) -> Seq<char> {
    if flagged.len() == 0 {
        tr(lang, "all read-write"@, "tout est accessible en écriture"@)
    } else {
        match lang {
            Lang::En => decimal(flagged.len()) + " read-only: “"@ + flagged[0] + "”"@,
            Lang::Fr => decimal(flagged.len()) + " en lecture seule : « "@ + flagged[0] + " »"@,
        }
    }
}

/// The detail line for one read-only mount.
pub open spec fn fs_detail(lang: Lang, mount: Seq<char>) -> Seq<char> {
    match lang {
        Lang::En => "“"@ + mount + "” is mounted read-only."@,
        Lang::Fr => "« "@ + mount + " » est monté en lecture seule."@,
    }
}

/// One line per read-only mount, or a reassuring line when there is none.
pub open spec fn fs_details(lang: Lang, flagged: Seq<Seq<char>>) -> Seq<Seq<char>> {
    if flagged.len() == 0 {
        seq![
            tr(
                lang,
                "All normally-writable filesystems are mounted read-write."@,
                "Tous les systèmes de fichiers habituellement accessibles en écriture le sont bien."@,
            ),
        ]
    } else {
        Seq::new(flagged.len(), |i: int| fs_detail(lang, flagged[i]))
    }
}

/// `r` is the filesystem check's report on the read-only mounts `flagged`.
pub open spec fn is_fs_report(
    r: CheckResult,
    lang: Lang,
    flagged: Seq<Seq<char>>,
    config: FilesystemCheckConfig,
) -> bool {
    &&& r.check_name@ == "filesystem"@
    &&& r.metrics@.len() == 1
    &&& metric_is(
        r.metrics@[0],
        "readonly_mounts"@,
        count_value(flagged.len()),
        "mounts"@,
        Some(config.warning),
        Some(config.critical),
    )
    &&& details_view(r) == fs_details(lang, flagged)
    &&& r.top_processes@.len() == 0
    &&& status_view(r) == Some(fs_status(lang, flagged))
}

/// `r` reports that the mount table could not be read.
pub open spec fn is_fs_unavailable(r: CheckResult, lang: Lang) -> bool {
    &&& r.check_name@ == "filesystem"@
    &&& r.metrics@.len() == 0
    &&& details_view(r) == seq![
        tr(
            lang,
            "Mount list unreadable (`/proc/mounts`)."@,
            "Liste des montages illisible (`/proc/mounts`)."@,
        ),
    ]
    &&& r.top_processes@.len() == 0
    &&& status_view(r) == Some(tr(lang, "Unavailable"@, "Indisponible"@))
}

fn fs_status_text(lang: Lang, flagged: &[String]) -> (r: String)
    ensures
        r@ == fs_status(lang, string_views(flagged@)),
{
    if flagged.len() == 0 {
        return owned(t(lang, "all read-write", "tout est accessible en écriture"));
    }
    let ghost f = string_views(flagged@);
    assert(f[0] == flagged@[0]@);
    let mut v: Vec<char> = Vec::new();
    push_decimal(&mut v, flagged.len() as u64);
    match lang {
        Lang::En => {
            push_str(&mut v, " read-only: “");
            push_str(&mut v, flagged[0].as_str());
            push_str(&mut v, "”");
        },
        Lang::Fr => {
            push_str(&mut v, " en lecture seule : « ");
            push_str(&mut v, flagged[0].as_str());
            push_str(&mut v, " »");
        },
    }
    string_of(&v)
}

fn fs_detail_text(lang: Lang, mount: &str) -> (r: String)
    ensures
        r@ == fs_detail(lang, mount@),
{
    let mut v: Vec<char> = Vec::new();
    match lang {
        Lang::En => {
            push_str(&mut v, "“");
            push_str(&mut v, mount);
            push_str(&mut v, "” is mounted read-only.");
        },
        Lang::Fr => {
            push_str(&mut v, "« ");
            push_str(&mut v, mount);
            push_str(&mut v, " » est monté en lecture seule.");
        },
    }
    string_of(&v)
}

fn fs_details_text(lang: Lang, flagged: &[String]) -> (r: Vec<String>)
    ensures
        string_views(r@) == fs_details(lang, string_views(flagged@)),
{
    let ghost f = string_views(flagged@);
    let mut details: Vec<String> = Vec::new();
    if flagged.len() == 0 {
        details.push(
            owned(
                t(
                    lang,
                    "All normally-writable filesystems are mounted read-write.",
                    "Tous les systèmes de fichiers habituellement accessibles en écriture le sont bien.",
                ),
            ),
        );
        assert(string_views(details@) =~= fs_details(lang, f));
        return details;
    }
    let mut i: usize = 0;
    while i < flagged.len()
        invariant
            i <= flagged.len(),
            f == string_views(flagged@),
            string_views(details@) =~= Seq::new(i as nat, |k: int| fs_detail(lang, f[k])),
        decreases flagged.len() - i,
    {
        let line = fs_detail_text(lang, flagged[i].as_str());
        proof {
            lemma_string_views_push(details@, line);
        }
        details.push(line);
        i = i + 1;
    }
    details
}

/// The result for a list of read-only mounts: a `readonly_mounts` metric
/// against the configured thresholds, a line per mount, and a summary.
pub fn build_result(lang: Lang, flagged: &[String], config: &FilesystemCheckConfig) -> (r:
    CheckResult)
    ensures
        is_fs_report(r, lang, string_views(flagged@), *config),
{
    let metric = Metric {
        name: owned("readonly_mounts"),
        value: fixed_count(flagged.len()),
        unit: owned("mounts"),
        threshold_warning: Some(config.warning),
        threshold_critical: Some(config.critical),
    };
    let mut metrics = Vec::new();
    metrics.push(metric);
    CheckResult {
        check_name: owned("filesystem"),
        metrics,
        details: fs_details_text(lang, flagged),
        top_processes: Vec::new(),
        status_value: Some(fs_status_text(lang, flagged)),
    }
}

/// The result when the mount table can't be read.
pub fn unavailable(lang: Lang) -> (r: CheckResult)
    ensures
        is_fs_unavailable(r, lang),
{
    let mut details = Vec::new();
    details.push(
        owned(
            t(
                lang,
                "Mount list unreadable (`/proc/mounts`).",
                "Liste des montages illisible (`/proc/mounts`).",
            ),
        ),
    );
    assert(string_views(details@) =~= seq![
        tr(
            lang,
            "Mount list unreadable (`/proc/mounts`)."@,
            "Liste des montages illisible (`/proc/mounts`)."@,
        ),
    ]);
    CheckResult {
        check_name: owned("filesystem"),
        metrics: Vec::new(),
        details,
        top_processes: Vec::new(),
        status_value: Some(owned(t(lang, "Unavailable", "Indisponible"))),
    }
}

/// The filesystem check.
pub struct FilesystemCheck {
    config: FilesystemCheckConfig,
}

impl FilesystemCheck {
    /// This check's settings.
    pub closed spec fn config(self) -> FilesystemCheckConfig {
        self.config
    }

    pub fn new(config: FilesystemCheckConfig) -> (r: Self)
        ensures
            r.config() == config,
    {
        FilesystemCheck { config }
    }

    /// The check's internal name.
    pub fn name(&self) -> (r: &'static str)
        ensures
            r@ == "filesystem"@,
    {
        "filesystem"
    }

    /// The verdict on a mount table, or "unavailable" when it couldn't be read.
    pub fn evaluate(&self, lang: Lang, mounts: Option<&str>) -> (r: CheckResult)
        ensures
            match mounts {
                Some(content) => is_fs_report(
                    r,
                    lang,
                    readonly_mounts(content@, string_views(self.config().ignore_mounts@)),
                    self.config(),
                ),
                None => is_fs_unavailable(r, lang),
            },
    {
        match mounts {
            Some(content) => {
                let flagged = find_readonly_mounts(content, self.config.ignore_mounts.as_slice());
                build_result(lang, flagged.as_slice(), &self.config)
            },
            None => unavailable(lang),
        }
    }
}

} // verus!
