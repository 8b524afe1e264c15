//! SMART disk health — the caller asks `smartctl -j -a` once per block
//! device; this module reads each answer's verdict and wear figure, flags any
//! drive whose self-assessment isn't passing, and reports how worn the
//! most-used SSD is.
//!
//! `smartctl` usually needs root, so the check is opt-in and degrades
//! gracefully: missing tool or no read access → an informational
//! "unavailable", never a false alarm.
//!
//! Wear figures are hundredths of a percent.

use vstd::prelude::*;

use crate::check::{
    count_value, details_view, fixed_count, metric_is, status_view, CheckResult, Metric,
};
use crate::config::SmartCheckConfig;
use crate::fixed::{dp0, push_dp0};
use crate::i18n::{t, tr, Lang};
use crate::json::{
    at, at_ref, hundredths_of, json_of, member, member_ref, number_hundredths, parse_json, Json,
};
use crate::text::{
    chars_of, decimal, lemma_lex_total, lemma_lex_trans, lemma_string_views_push, lex_le,
    lex_le_chars, owned, prefixed, push_chars, push_decimal, push_str, starts_with, string_of,
    string_views, views,
};

verus! {

/// A drive's SMART self-assessment.
#[derive(Debug, Clone, Copy, PartialEq, Eq, Structural)]
pub enum Health {
    Passed,
    Failing,
    Unknown,
}

/// The verdict `smart_status.passed` gives: unknown when absent.
pub open spec fn health_spec(passed: Option<bool>) -> Health {
    match passed {
        Some(true) => Health::Passed,
        Some(false) => Health::Failing,
        None => Health::Unknown,
    }
}

/// The overall-health verdict from `smart_status.passed` (which covers both
/// ATA and NVMe): unknown when absent — never a verdict that wasn't given.
pub fn health_of(passed: Option<bool>) -> (r: Health)
    ensures
        r == health_spec(passed),
{
    match passed {
        Some(true) => Health::Passed,
        Some(false) => Health::Failing,
        None => Health::Unknown,
    }
}

// ---------------------------------------------------------------------------
// Wear
// ---------------------------------------------------------------------------

/// One row of the ATA attribute table: its resolved name, when smartmontools
/// knows it, and its normalized value (hundredths), when it has one.
pub struct AtaAttribute {
    pub name: Option<String>,
    pub value: Option<i64>,
}

pub open spec fn attribute_view(a: AtaAttribute) -> (Option<Seq<char>>, Option<i64>) {
    (
        match a.name {
            Some(n) => Some(n@),
            None => None,
        },
        a.value,
    )
}

pub open spec fn attribute_views(v: Seq<AtaAttribute>) -> Seq<(Option<Seq<char>>, Option<i64>)> {
    Seq::new(v.len(), |i: int| attribute_view(v[i]))
}

/// Normalized SMART attributes that count *down* from 100 (new) to 0
/// (exhausted), most specific first.
///
/// Matched by **name**, never by id alone: vendors reuse the same id for
/// unrelated things — 231 is `SSD_Life_Left` on some drives and
/// `Temperature_Celsius` on others — and reading it blindly turns a disk
/// running at 70 °C into "30 % worn".
pub open spec fn life_left_names() -> Seq<Seq<char>> {
    seq![
        "ssd_life_left"@,
        "media_wearout_indicator"@,
        "wear_leveling_count"@,
        "percent_lifetime_remain"@,
        "remaining_lifetime_perc"@,
    ]
}

pub open spec fn ascii_lower(c: char) -> char {
    if 'A' <= c <= 'Z' {
        ((c as u32) + 32) as char
    } else {
        c
    }
}

/// `a.eq_ignore_ascii_case(b)`.
pub open spec fn same_ignoring_ascii_case(a: Seq<char>, b: Seq<char>) -> bool {
    a.len() == b.len() && forall|i: int| 0 <= i < a.len() ==> ascii_lower(a[i]) == ascii_lower(b[i])
}

/// `v` clamped to `0 ..= 100 %`.
pub open spec fn clamp_percent(v: int) -> i64 {
    if v < 0 {
        0
    } else if v > 10000 {
        10000
    } else {
        v as i64
    }
}

/// The value of the first attribute named `wanted` (ignoring ASCII case)
/// that has a value.
pub open spec fn value_named(table: Seq<(Option<Seq<char>>, Option<i64>)>, wanted: Seq<char>) -> Option<
    i64,
>
    decreases table.len(),
{
    if table.len() == 0 {
        None
    } else {
        match table[0] {
            (Some(name), Some(v)) if same_ignoring_ascii_case(name, wanted) => Some(v),
            _ => value_named(table.drop_first(), wanted),
        }
    }
}

/// The value of the most specific life-left attribute present.
pub open spec fn life_left(table: Seq<(Option<Seq<char>>, Option<i64>)>, wanted: Seq<Seq<char>>) -> Option<
    i64,
>
    decreases wanted.len(),
{
    if wanted.len() == 0 {
        None
    } else {
        match value_named(table, wanted[0]) {
            Some(v) => Some(v),
            None => life_left(table, wanted.drop_first()),
        }
    }
}

/// The wear of one drive: NVMe exposes `percentage_used` directly; SATA SSDs
/// a life-left attribute counting down from 100, so wear = 100 − value.
/// Both are clamped to 0–100 %.
pub open spec fn wear_of(nvme_percentage_used: Option<i64>, table: Option<
    Seq<(Option<Seq<char>>, Option<i64>)>,
>) -> Option<i64> {
    match nvme_percentage_used {
        Some(p) => Some(clamp_percent(p as int)),
        None => match table {
            None => None,
            Some(t) => match life_left(t, life_left_names()) {
                Some(v) => Some(clamp_percent(10000 - v)),
                None => None,
            },
        },
    }
}

/// Row `row` names `wanted` (ignoring ASCII case) and carries the value `v`.
pub open spec fn row_is(row: (Option<Seq<char>>, Option<i64>), wanted: Seq<char>, v: i64) -> bool {
    &&& row.0 is Some
    &&& same_ignoring_ascii_case(row.0->0, wanted)
    &&& row.1 == Some(v)
}

proof fn lemma_value_named_found(table: Seq<(Option<Seq<char>>, Option<i64>)>, wanted: Seq<char>)
    ensures
        value_named(table, wanted) matches Some(v) ==> exists|i: int|
            0 <= i < table.len() && row_is(#[trigger] table[i], wanted, v),
    decreases table.len(),
{
    if table.len() > 0 {
        lemma_value_named_found(table.drop_first(), wanted);
        if let Some(v) = value_named(table, wanted) {
            match table[0] {
                (Some(name), Some(x)) if same_ignoring_ascii_case(name, wanted) => {
                    assert(row_is(table[0], wanted, v));
                },
                _ => {
                    let i = choose|i: int|
                        0 <= i < table.drop_first().len() && row_is(
                            #[trigger] table.drop_first()[i],
                            wanted,
                            v,
                        );
                    assert(table[i + 1] == table.drop_first()[i]);
                },
            }
        }
    }
}

proof fn lemma_life_left_found(
    table: Seq<(Option<Seq<char>>, Option<i64>)>,
    wanted: Seq<Seq<char>>,
)
    ensures
        life_left(table, wanted) matches Some(v) ==> exists|i: int, k: int|
            #![trigger table[i], wanted[k]]
            0 <= i < table.len() && 0 <= k < wanted.len() && row_is(table[i], wanted[k], v),
    decreases wanted.len(),
{
    if wanted.len() > 0 {
        lemma_value_named_found(table, wanted[0]);
        lemma_life_left_found(table, wanted.drop_first());
        if let Some(v) = life_left(table, wanted) {
            if let Some(x) = value_named(table, wanted[0]) {
                let i = choose|i: int| 0 <= i < table.len() && row_is(#[trigger] table[i], wanted[0], x);
                assert(row_is(table[i], wanted[0], v));
            } else {
                let (i, k) = choose|i: int, k: int|
                    #![trigger table[i], wanted.drop_first()[k]]
                    0 <= i < table.len() && 0 <= k < wanted.drop_first().len() && row_is(
                        table[i],
                        wanted.drop_first()[k],
                        v,
                    );
                assert(wanted[k + 1] == wanted.drop_first()[k]);
                assert(row_is(table[i], wanted[k + 1], v));
            }
        }
    }
}

/// Wear is never guessed at: without an NVMe figure, a wear reading always
/// comes from a row of the attribute table that names one of the life-left
/// attributes and carries a value, and it is 100 % minus that value,
/// clamped. A table without such a row (an unnamed attribute, or id 231 as
/// a temperature) gives no wear at all.
pub proof fn lemma_wear_only_from_a_named_attribute(table: Seq<(Option<Seq<char>>, Option<i64>)>)
    ensures
        wear_of(None, Some(table)) matches Some(w) ==> exists|i: int, k: int, v: i64|
            #![trigger table[i], life_left_names()[k], clamp_percent(10000 - v)]
            0 <= i < table.len() && 0 <= k < life_left_names().len() && row_is(
                table[i],
                life_left_names()[k],
                v,
            ) && w == clamp_percent(10000 - v),
{
    lemma_life_left_found(table, life_left_names());
    if let Some(v) = life_left(table, life_left_names()) {
        let (i, k) = choose|i: int, k: int|
            #![trigger table[i], life_left_names()[k]]
            0 <= i < table.len() && 0 <= k < life_left_names().len() && row_is(
                table[i],
                life_left_names()[k],
                v,
            );
        assert(row_is(table[i], life_left_names()[k], v) && wear_of(None, Some(table)) == Some(
            clamp_percent(10000 - v),
        ));
    }
}

fn clamp_of(v: i128) -> (r: i64)
    ensures
        r == clamp_percent(v as int),
{
    if v < 0 {
        0
    } else if v > 10000 {
        10000
    } else {
        v as i64
    }
}

fn lower_of(c: char) -> (r: char)
    ensures
        r == ascii_lower(c),
{
    if 'A' <= c && c <= 'Z' {
        let u = (c as u32) + 32;
        let b = u as u8;
        assert(b as char == ((c as u32) + 32) as char);
        b as char
    } else {
        c
    }
}

fn eq_ignore_case(a: &Vec<char>, b: &Vec<char>) -> (r: bool)
    ensures
        r == same_ignoring_ascii_case(a@, b@),
{
    if a.len() != b.len() {
        return false;
    }
    let mut i: usize = 0;
    while i < a.len()
        invariant
            a.len() == b.len(),
            i <= a.len(),
            forall|j: int| 0 <= j < i ==> ascii_lower(a@[j]) == ascii_lower(b@[j]),
        decreases a.len() - i,
    {
        if lower_of(a[i]) != lower_of(b[i]) {
            return false;
        }
        i = i + 1;
    }
    true
}

fn value_named_in(table: &[AtaAttribute], wanted: &Vec<char>) -> (r: Option<i64>)
    ensures
        r == value_named(attribute_views(table@), wanted@),
{
    let ghost tv = attribute_views(table@);
    let mut i: usize = 0;
    assert(tv.skip(0) =~= tv);
    while i < table.len()
        invariant
            i <= table.len(),
            tv == attribute_views(table@),
            value_named(tv, wanted@) == value_named(tv.skip(i as int), wanted@),
        decreases table.len() - i,
    {
        assert(tv.skip(i as int)[0] == attribute_view(table@[i as int]));
        assert(tv.skip(i as int).drop_first() =~= tv.skip(i + 1));
        match (&table[i].name, table[i].value) {
            (Some(name), Some(v)) => {
                let n = chars_of(name.as_str());
                if eq_ignore_case(&n, wanted) {
                    return Some(v);
                }
            },
            _ => {},
        }
        i = i + 1;
    }
    None
}

/// The wear of one drive, from its NVMe `percentage_used` and its ATA
/// attribute table (each when the report has one).
pub fn wear_percent(nvme_percentage_used: Option<i64>, table: Option<&[AtaAttribute]>) -> (r:
    Option<i64>)
    ensures
        r == wear_of(
            nvme_percentage_used,
            match table {
                Some(t) => Some(attribute_views(t@)),
                None => None,
            },
        ),
{
    match nvme_percentage_used {
        Some(p) => {
            return Some(clamp_of(p as i128));
        },
        None => {},
    }
    let rows = match table {
        Some(t) => t,
        None => {
            return None;
        },
    };
    let ghost tv = attribute_views(rows@);
    let mut wanted: Vec<Vec<char>> = Vec::new();
    wanted.push(chars_of("ssd_life_left"));
    wanted.push(chars_of("media_wearout_indicator"));
    wanted.push(chars_of("wear_leveling_count"));
    wanted.push(chars_of("percent_lifetime_remain"));
    wanted.push(chars_of("remaining_lifetime_perc"));
    let ghost names = crate::text::views(wanted@);
    assert(names =~= life_left_names());
    let mut k: usize = 0;
    assert(names.skip(0) =~= names);
    while k < wanted.len()
        invariant
            k <= wanted.len(),
            names == crate::text::views(wanted@),
            tv == attribute_views(rows@),
            nvme_percentage_used is None,
            table == Some(rows),
            life_left(tv, life_left_names()) == life_left(tv, names.skip(k as int)),
        decreases wanted.len() - k,
    {
        assert(names.skip(k as int)[0] == wanted@[k as int]@);
        assert(names.skip(k as int).drop_first() =~= names.skip(k + 1));
        match value_named_in(rows, &wanted[k]) {
            Some(v) => {
                return Some(clamp_of(10000 - v as i128));
            },
            None => {},
        }
        k = k + 1;
    }
    None
}

// ---------------------------------------------------------------------------
// Reading one `smartctl -j -a` answer
// ---------------------------------------------------------------------------

/// `smart_status.passed`, when it is a boolean.
pub open spec fn passed_of(root: Option<Json>) -> Option<bool> {
    match at(at(root, "smart_status"@), "passed"@) {
        Some(Json::Bool(b)) => Some(b),
        _ => None,
    }
}

/// A number's value in hundredths, when the value is a readable number.
pub open spec fn number_of(v: Option<Json>) -> Option<i64> {
    match v {
        Some(Json::Number(t)) => number_hundredths(t@),
        _ => None,
    }
}

/// A string's text, when the value is a string.
pub open spec fn text_of(v: Option<Json>) -> Option<Seq<char>> {
    match v {
        Some(Json::Str(s)) => Some(s@),
        _ => None,
    }
}

/// NVMe's `nvme_smart_health_information_log.percentage_used`.
pub open spec fn nvme_of(root: Option<Json>) -> Option<i64> {
    number_of(at(at(root, "nvme_smart_health_information_log"@), "percentage_used"@))
}

/// One row of the ATA attribute table: its `name` and its `value`.
pub open spec fn row_of(item: Json) -> (Option<Seq<char>>, Option<i64>) {
    (text_of(member(item, "name"@)), number_of(member(item, "value"@)))
}

/// The rows of `ata_smart_attributes.table`, when it is an array.
pub open spec fn table_of(root: Option<Json>) -> Option<Seq<(Option<Seq<char>>, Option<i64>)>> {
    match at(at(root, "ata_smart_attributes"@), "table"@) {
        Some(Json::Array(items)) => Some(Seq::new(items@.len(), |i: int| row_of(items@[i]))),
        _ => None,
    }
}

fn number_in(v: Option<&Json>) -> (r: Option<i64>)
    ensures
        r == number_of(
            match v {
                Some(x) => Some(*x),
                None => None,
            },
        ),
{
    match v {
        Some(Json::Number(t)) => hundredths_of(t.as_str()),
        _ => None,
    }
}

fn row_in(item: &Json) -> (r: AtaAttribute)
    ensures
        attribute_view(r) == row_of(*item),
{
    let name = match member_ref(item, "name") {
        Some(Json::Str(s)) => Some(owned(s.as_str())),
        _ => None,
    };
    AtaAttribute { name, value: number_in(member_ref(item, "value")) }
}

/// One device's report from its parsed `smartctl -j -a` answer: the health
/// verdict and the wear, each only from what the answer actually says.
pub fn report_of_json(device: &str, root: &Option<Json>) -> (r: DeviceReport)
    ensures
        r.device@ == device@,
        r.health == health_spec(passed_of(*root)),
        r.wear == wear_of(nvme_of(*root), table_of(*root)),
{
    let top: Option<&Json> = match root {
        Some(v) => Some(v),
        None => None,
    };
    let passed = match at_ref(at_ref(top, "smart_status"), "passed") {
        Some(Json::Bool(b)) => Some(*b),
        _ => None,
    };
    let nvme = number_in(at_ref(at_ref(top, "nvme_smart_health_information_log"), "percentage_used"));
    let rows: Option<Vec<AtaAttribute>> = match at_ref(at_ref(top, "ata_smart_attributes"), "table") {
        Some(Json::Array(items)) => {
            let mut rows: Vec<AtaAttribute> = Vec::new();
            let mut i: usize = 0;
            while i < items.len()
                invariant
                    i <= items.len(),
                    rows@.len() == i,
                    forall|k: int| 0 <= k < i ==> #[trigger] attribute_view(rows@[k]) == row_of(items@[k]),
                decreases items.len() - i,
            {
                let row = row_in(&items[i]);
                rows.push(row);
                i = i + 1;
            }
            assert(attribute_views(rows@) =~= Seq::new(items@.len(), |k: int| row_of(items@[k])));
            Some(rows)
        },
        _ => None,
    };
    let wear = match &rows {
        Some(v) => wear_percent(nvme, Some(v.as_slice())),
        None => wear_percent(nvme, None),
    };
    DeviceReport { device: owned(device), health: health_of(passed), wear }
}

/// One device's report from its `smartctl -j -a` output. Anything that
/// can't be read stays unknown or absent — never a verdict it didn't give.
pub fn parse_report(device: &str, stdout: &str) -> (r: DeviceReport)
    ensures
        r.device@ == device@,
        r.health == health_spec(passed_of(json_of(stdout@))),
        r.wear == wear_of(nvme_of(json_of(stdout@)), table_of(json_of(stdout@))),
{
    let root = parse_json(stdout);
    report_of_json(device, &root)
}

// ---------------------------------------------------------------------------
// The devices to ask
// ---------------------------------------------------------------------------

/// A block device that is a disk: SCSI/SATA, NVMe, virtio or IDE.
pub open spec fn is_disk_name(name: Seq<char>) -> bool {
    prefixed(name, "sd"@) || prefixed(name, "nvme"@) || prefixed(name, "vd"@) || prefixed(
        name,
        "hd"@,
    )
}

/// The device paths of the disks among `names`, in listing order.
pub open spec fn device_paths(names: Seq<Seq<char>>) -> Seq<Seq<char>>
    decreases names.len(),
{
    if names.len() == 0 {
        seq![]
    } else if is_disk_name(names.last()) {
        device_paths(names.drop_last()).push("/dev/"@ + names.last())
    } else {
        device_paths(names.drop_last())
    }
}

/// Whether `s` is in ascending order.
pub open spec fn ascending(s: Seq<Seq<char>>) -> bool {
    forall|i: int, j: int| 0 <= i < j < s.len() ==> lex_le(#[trigger] s[i], #[trigger] s[j])
}

fn is_disk(name: &Vec<char>) -> (r: bool)
    ensures
        r == is_disk_name(name@),
{
    starts_with(name, &chars_of("sd")) || starts_with(name, &chars_of("nvme")) || starts_with(
        name,
        &chars_of("vd"),
    ) || starts_with(name, &chars_of("hd"))
}

/// Insert `x` into the ascending `v`, after every entry that sorts before it
/// or equals it.
fn insert_sorted(v: &mut Vec<Vec<char>>, x: Vec<char>)
    requires
        ascending(views(old(v)@)),
    ensures
        ascending(views(final(v)@)),
        views(final(v)@).to_multiset() == views(old(v)@).to_multiset().insert(x@),
{
    let ghost xv = x@;
    let mut k: usize = 0;
    while k < v.len() && lex_le_chars(&v[k], &x)
        invariant
            k <= v.len(),
            forall|i: int| 0 <= i < k ==> lex_le(#[trigger] views(v@)[i], xv),
            xv == x@,
        decreases v.len() - k,
    {
        k = k + 1;
    }
    let ghost before = views(v@);
    proof {
        if k < v.len() {
            lemma_lex_total(before[k as int], xv);
        }
    }
    v.insert(k, x);
    let ghost after = views(v@);
    assert(after =~= before.insert(k as int, xv));
    assert forall|i: int, j: int| 0 <= i < j < after.len() implies lex_le(
        #[trigger] after[i],
        #[trigger] after[j],
    ) by {
        if j < k {
            assert(after[i] == before[i] && after[j] == before[j]);
        } else if j == k {
            assert(after[i] == before[i]);
        } else if i < k {
            assert(after[i] == before[i] && after[j] == before[j - 1]);
            assert(lex_le(before[i], before[j - 1]));
        } else if i == k {
            assert(after[j] == before[j - 1]);
            if j - 1 > k {
                assert(lex_le(before[k as int], before[j - 1]));
                lemma_lex_trans(xv, before[k as int], before[j - 1]);
            }
        } else {
            assert(after[i] == before[i - 1] && after[j] == before[j - 1]);
        }
    }
    proof {
        assert(after.remove(k as int) =~= before);
        after.to_multiset_ensures();
        assert(after.to_multiset().remove(xv) =~= before.to_multiset());
        assert(after.to_multiset().count(xv) > 0);
        assert(after.to_multiset() =~= before.to_multiset().insert(xv));
    }
}

/// The disks among the block devices named `names` (the entries of
/// `/sys/block`), as device paths in ascending order.
pub fn disk_devices(names: &[String]) -> (r: Vec<String>)
    ensures
        string_views(r@).to_multiset() == device_paths(string_views(names@)).to_multiset(),
        ascending(string_views(r@)),
{
    let ghost all = string_views(names@);
    let mut sorted: Vec<Vec<char>> = Vec::new();
    let mut i: usize = 0;
    assert(views(sorted@) =~= Seq::<Seq<char>>::empty());
    assert(all.take(0) =~= Seq::<Seq<char>>::empty());
    while i < names.len()
        invariant
            i <= names.len(),
            all == string_views(names@),
            ascending(views(sorted@)),
            views(sorted@).to_multiset() == device_paths(all.take(i as int)).to_multiset(),
        decreases names.len() - i,
    {
        let name = chars_of(names[i].as_str());
        assert(all.take(i + 1).drop_last() =~= all.take(i as int));
        assert(all.take(i + 1).last() == name@);
        let ghost prev = device_paths(all.take(i as int));
        if is_disk(&name) {
            let mut path = chars_of("/dev/");
            push_chars(&mut path, &name);
            proof {
                assert(device_paths(all.take(i + 1)) == prev.push(path@));
                prev.to_multiset_ensures();
            }
            insert_sorted(&mut sorted, path);
        } else {
            assert(device_paths(all.take(i + 1)) == prev);
        }
        i = i + 1;
    }
    assert(all.take(names.len() as int) =~= all);
    let mut out: Vec<String> = Vec::new();
    let mut j: usize = 0;
    while j < sorted.len()
        invariant
            j <= sorted.len(),
            string_views(out@) == views(sorted@).take(j as int),
        decreases sorted.len() - j,
    {
        let s = string_of(&sorted[j]);
        proof {
            lemma_string_views_push(out@, s);
        }
        out.push(s);
        j = j + 1;
        assert(string_views(out@) =~= views(sorted@).take(j as int));
    }
    assert(views(sorted@).take(sorted.len() as int) =~= views(sorted@));
    out
}

// ---------------------------------------------------------------------------
// The check's result
// ---------------------------------------------------------------------------

/// What one device's `smartctl -j -a` answered.
pub struct DeviceReport {
    pub device: String,
    pub health: Health,
    /// In hundredths of a percent.
    pub wear: Option<i64>,
}

/// The compact one-liner for the `status` view: health first, wear appended
/// when a device reports it.
pub open spec fn smart_status(lang: Lang, readable: nat, failing: nat, worst_wear: Option<i64>) -> Seq<
    char,
> {
    if failing > 0 {
        match lang {
            Lang::En => "⚠ "@ + decimal(failing) + " disk(s) at risk"@,
            Lang::Fr => "⚠ "@ + decimal(failing) + " disque(s) en alerte"@,
        }
    } else {
        match (lang, worst_wear) {
            (Lang::En, Some(w)) => decimal(readable) + " healthy, "@ + dp0(w as int) + "% worn"@,
            (Lang::En, None) => decimal(readable) + " healthy disk(s)"@,
            (Lang::Fr, Some(w)) => decimal(readable) + " sain(s), "@ + dp0(w as int) + "% d'usure"@,
            (Lang::Fr, None) => decimal(readable) + " disque(s) sain(s)"@,
        }
    }
}

pub fn smart_status_value(lang: Lang, readable: usize, failing: usize, worst_wear: Option<i64>) -> (r:
    String)
    ensures
        r@ == smart_status(lang, readable as nat, failing as nat, worst_wear),
{
    let mut v: Vec<char> = Vec::new();
    if failing > 0 {
        push_str(&mut v, "⚠ ");
        push_decimal(&mut v, failing as u64);
        match lang {
            Lang::En => push_str(&mut v, " disk(s) at risk"),
            Lang::Fr => push_str(&mut v, " disque(s) en alerte"),
        }
        return string_of(&v);
    }
    push_decimal(&mut v, readable as u64);
    match (lang, worst_wear) {
        (Lang::En, Some(w)) => {
            push_str(&mut v, " healthy, ");
            push_dp0(&mut v, w);
            push_str(&mut v, "% worn");
        },
        (Lang::En, None) => push_str(&mut v, " healthy disk(s)"),
        (Lang::Fr, Some(w)) => {
            push_str(&mut v, " sain(s), ");
            push_dp0(&mut v, w);
            push_str(&mut v, "% d'usure");
        },
        (Lang::Fr, None) => push_str(&mut v, " disque(s) sain(s)"),
    }
    string_of(&v)
}

/// The detail line for a device with a verdict.
pub open spec fn device_line(lang: Lang, device: Seq<char>, failing: bool) -> Seq<char> {
    match (lang, failing) {
        (Lang::En, false) => device + ": healthy (SMART OK)"@,
        (Lang::Fr, false) => device + " : sain (SMART OK)"@,
        (Lang::En, true) => device + ": ⚠ SMART failing — back up!"@,
        (Lang::Fr, true) => device + " : ⚠ SMART en échec — sauvegardez !"@,
    }
}

/// The higher of two optional wear figures.
pub open spec fn worse_wear(worst: Option<i64>, wear: Option<i64>) -> Option<i64> {
    match (worst, wear) {
        (Some(a), Some(b)) => Some(
            if a >= b {
                a
            } else {
                b
            },
        ),
        (None, w) => w,
        (w, None) => w,
    }
}

/// Over `reports`: drives with a verdict, failing drives, one line per drive
/// with a verdict, and the worst wear reported.
pub open spec fn tally(lang: Lang, reports: Seq<DeviceReport>) -> (nat, nat, Seq<Seq<char>>, Option<
    i64,
>)
    decreases reports.len(),
{
    if reports.len() == 0 {
        (0, 0, seq![], None)
    } else {
        let (readable, failing, lines, worst) = tally(lang, reports.drop_last());
        let r = reports.last();
        let worst2 = worse_wear(worst, r.wear);
        match r.health {
            Health::Passed => (readable + 1, failing, lines.push(device_line(lang, r.device@, false)), worst2),
            Health::Failing => (
                readable + 1,
                failing + 1,
                lines.push(device_line(lang, r.device@, true)),
                worst2,
            ),
            Health::Unknown => (readable, failing, lines, worst2),
        }
    }
}

/// The wear the check reports is the worst one: with no drive reporting a
/// wear figure there is none; otherwise it is at least every drive's figure
/// and it is one of them.
pub proof fn lemma_worst_wear_is_the_max(lang: Lang, reports: Seq<DeviceReport>)
    ensures
        tally(lang, reports).3 is None <==> forall|i: int|
            0 <= i < reports.len() ==> (#[trigger] reports[i]).wear is None,
        tally(lang, reports).3 matches Some(w) ==> {
            &&& forall|i: int|
                0 <= i < reports.len() && (#[trigger] reports[i]).wear is Some ==> reports[i].wear->0
                    <= w
            &&& exists|i: int| 0 <= i < reports.len() && (#[trigger] reports[i]).wear == Some(w)
        },
    decreases reports.len(),
{
    if reports.len() > 0 {
        let init = reports.drop_last();
        lemma_worst_wear_is_the_max(lang, init);
        let last = reports.last();
        assert forall|i: int| 0 <= i < init.len() implies init[i] == reports[i] by {}
        assert(reports[reports.len() - 1] == last);
        let w0 = tally(lang, init).3;
        if w0 is Some && last.wear is None {
            let j = choose|j: int| 0 <= j < init.len() && (#[trigger] init[j]).wear == w0;
            assert(reports[j] == init[j]);
        } else if w0 is Some && last.wear is Some {
            if w0->0 >= last.wear->0 {
                let j = choose|j: int| 0 <= j < init.len() && (#[trigger] init[j]).wear == w0;
                assert(reports[j] == init[j]);
            }
        }
        if w0 is None && last.wear is None {
            assert forall|i: int| 0 <= i < reports.len() implies (#[trigger] reports[i]).wear is None by {
                if i < init.len() {
                    assert(reports[i] == init[i]);
                }
            }
        }
        if tally(lang, reports).3 is None {
            assert(reports[reports.len() - 1].wear is None);
        }
        if let Some(w) = tally(lang, reports).3 {
            assert forall|i: int|
                0 <= i < reports.len() && (#[trigger] reports[i]).wear is Some implies reports[i].wear->0
                <= w by {
                if i < init.len() {
                    assert(reports[i] == init[i]);
                }
            }
        }
        if exists|i: int| 0 <= i < reports.len() && (#[trigger] reports[i]).wear is Some {
            let i = choose|i: int| 0 <= i < reports.len() && (#[trigger] reports[i]).wear is Some;
            if i < init.len() {
                assert(reports[i] == init[i]);
            }
        }
    }
}

pub open spec fn wear_line(lang: Lang, wear: i64) -> Seq<char> {
    match lang {
        Lang::En => "Most-worn disk: "@ + dp0(wear as int) + "% of rated writes used."@,
        Lang::Fr => "Disque le plus usé : "@ + dp0(wear as int) + "% des écritures prévues."@,
    }
}

/// `r` reports "unavailable" for the given reason.
pub open spec fn is_smart_unavailable(r: CheckResult, lang: Lang, reason: Seq<char>) -> bool {
    &&& r.check_name@ == "smart"@
    &&& r.metrics@.len() == 0
    &&& details_view(r) == seq![reason]
    &&& r.top_processes@.len() == 0
    &&& status_view(r) == Some(tr(lang, "Unavailable"@, "Indisponible"@))
}

/// `r` is the SMART check's report on the given tally.
pub open spec fn is_smart_report(
    r: CheckResult,
    lang: Lang,
    readable: nat,
    failing: nat,
    lines: Seq<Seq<char>>,
    worst: Option<i64>,
    config: SmartCheckConfig,
) -> bool {
    &&& r.check_name@ == "smart"@
    &&& metric_is(r.metrics@[0], "smart_failing"@, count_value(failing), "disks"@, Some(100), Some(100))
    &&& match worst {
        Some(w) => {
            &&& r.metrics@.len() == 2
            &&& metric_is(
                r.metrics@[1],
                "smart_wear_percent"@,
                w,
                "%"@,
                Some(config.wear_warning),
                Some(config.wear_critical),
            )
            &&& details_view(r) == lines.push(wear_line(lang, w))
        },
        None => {
            &&& r.metrics@.len() == 1
            &&& details_view(r) == lines
        },
    }
    &&& r.top_processes@.len() == 0
    &&& status_view(r) == Some(smart_status(lang, readable, failing, worst))
}

/// The result when SMART can't be read.
pub fn unavailable(lang: Lang, reason: &str) -> (r: CheckResult)
    ensures
        is_smart_unavailable(r, lang, reason@),
{
    let mut details = Vec::new();
    details.push(owned(reason));
    assert(string_views(details@) =~= seq![reason@]);
    CheckResult {
        check_name: owned("smart"),
        metrics: Vec::new(),
        details,
        top_processes: Vec::new(),
        status_value: Some(owned(t(lang, "Unavailable", "Indisponible"))),
    }
}

fn device_text(lang: Lang, device: &str, failing: bool) -> (r: String)
    ensures
        r@ == device_line(lang, device@, failing),
{
    let mut v: Vec<char> = Vec::new();
    push_str(&mut v, device);
    match (lang, failing) {
        (Lang::En, false) => push_str(&mut v, ": healthy (SMART OK)"),
        (Lang::Fr, false) => push_str(&mut v, " : sain (SMART OK)"),
        (Lang::En, true) => push_str(&mut v, ": ⚠ SMART failing — back up!"),
        (Lang::Fr, true) => push_str(&mut v, " : ⚠ SMART en échec — sauvegardez !"),
    }
    string_of(&v)
}

/// The SMART check.
pub struct SmartCheck {
    config: SmartCheckConfig,
}

impl SmartCheck {
    /// This check's settings.
    pub closed spec fn config(self) -> SmartCheckConfig {
        self.config
    }

    pub fn new(config: SmartCheckConfig) -> (r: Self)
        ensures
            r.config() == config,
    {
        SmartCheck { config }
    }

    /// The check's internal name.
    pub fn name(&self) -> (r: &'static str)
        ensures
            r@ == "smart"@,
    {
        "smart"
    }

    /// The verdict over every device's report: "unavailable" without
    /// `smartctl` or when no device gave a verdict; otherwise a count of
    /// failing drives (critical from one) and the worst wear, when any
    /// device reports it, against the configured thresholds.
    pub fn evaluate(&self, lang: Lang, tool_available: bool, reports: &[DeviceReport]) -> (r:
        CheckResult)
        ensures
            !tool_available ==> is_smart_unavailable(
                r,
                lang,
                tr(
                    lang,
                    "smartmontools not installed (`smartmontools` package)"@,
                    "smartmontools non installé (paquet `smartmontools`)"@,
                ),
            ),
            tool_available ==> ({
                let (readable, failing, lines, worst) = tally(lang, reports@);
                if readable == 0 {
                    is_smart_unavailable(
                        r,
                        lang,
                        tr(
                            lang,
                            "SMART status unreadable (root required, or disks without SMART)"@,
                            "état SMART illisible (droits root requis, ou disques sans SMART)"@,
                        ),
                    )
                } else {
                    is_smart_report(r, lang, readable, failing, lines, worst, self.config())
                }
            }),
    {
        if !tool_available {
            return unavailable(
                lang,
                t(
                    lang,
                    "smartmontools not installed (`smartmontools` package)",
                    "smartmontools non installé (paquet `smartmontools`)",
                ),
            );
        }
        let mut readable: usize = 0;
        let mut failing: usize = 0;
        let mut details: Vec<String> = Vec::new();
        let mut worst_wear: Option<i64> = None;
        let mut i: usize = 0;
        while i < reports.len()
            invariant
                i <= reports.len(),
                readable <= i,
                failing <= i,
                (readable as nat, failing as nat, string_views(details@), worst_wear) == tally(
                    lang,
                    reports@.take(i as int),
                ),
            decreases reports.len() - i,
        {
            assert(reports@.take(i + 1).drop_last() =~= reports@.take(i as int));
            assert(reports@.take(i + 1).last() == reports@[i as int]);
            let report = &reports[i];
            match report.wear {
                Some(w) => {
                    worst_wear = match worst_wear {
                        Some(x) => Some(
                            if x >= w {
                                x
                            } else {
                                w
                            },
                        ),
                        None => Some(w),
                    };
                },
                None => {},
            }
            match report.health {
                Health::Passed => {
                    readable = readable + 1;
                    let line = device_text(lang, report.device.as_str(), false);
                    proof {
                        lemma_string_views_push(details@, line);
                    }
                    details.push(line);
                },
                Health::Failing => {
                    readable = readable + 1;
                    failing = failing + 1;
                    let line = device_text(lang, report.device.as_str(), true);
                    proof {
                        lemma_string_views_push(details@, line);
                    }
                    details.push(line);
                },
                Health::Unknown => {},
            }
            i = i + 1;
        }
        assert(reports@.take(reports.len() as int) =~= reports@);
        if readable == 0 {
            return unavailable(
                lang,
                t(
                    lang,
                    "SMART status unreadable (root required, or disks without SMART)",
                    "état SMART illisible (droits root requis, ou disques sans SMART)",
                ),
            );
        }
        let mut metrics: Vec<Metric> = Vec::new();
        metrics.push(
            Metric {
                name: owned("smart_failing"),
                value: fixed_count(failing),
                unit: owned("disks"),
                threshold_warning: Some(100),
                threshold_critical: Some(100),
            },
        );
        match worst_wear {
            Some(w) => {
                let mut line: Vec<char> = Vec::new();
                match lang {
                    Lang::En => {
                        push_str(&mut line, "Most-worn disk: ");
                        push_dp0(&mut line, w);
                        push_str(&mut line, "% of rated writes used.");
                    },
                    Lang::Fr => {
                        push_str(&mut line, "Disque le plus usé : ");
                        push_dp0(&mut line, w);
                        push_str(&mut line, "% des écritures prévues.");
                    },
                }
                let s = string_of(&line);
                proof {
                    lemma_string_views_push(details@, s);
                }
                details.push(s);
                metrics.push(
                    Metric {
                        name: owned("smart_wear_percent"),
                        value: w,
                        unit: owned("%"),
                        threshold_warning: Some(self.config.wear_warning),
                        threshold_critical: Some(self.config.wear_critical),
                    },
                );
            },
            None => {},
        }
        CheckResult {
            check_name: owned("smart"),
            metrics,
            details,
            top_processes: Vec::new(),
            status_value: Some(smart_status_value(lang, readable, failing, worst_wear)),
        }
    }
}

} // verus!
