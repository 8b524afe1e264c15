use josephine::check::{CheckResult, Metric, Severity};
use josephine::i18n::Lang;
use josephine::status::{
    build_rows, check_row, count_in_default, footer_message, label_width, load_row,
    loadavg_fields, oneline, pad, parse_loadavg, worst_severity, Load,
};
use josephine::style::{check_label, format_metric_value, oneline_glyph, value_of};

fn disk_result(value: i64) -> CheckResult {
    CheckResult {
        check_name: "disk".into(),
        metrics: vec![Metric {
            name: "usage_percent_worst".into(),
            value,
            unit: "%".into(),
            threshold_warning: Some(8500),
            threshold_critical: Some(9500),
        }],
        details: vec![],
        top_processes: vec![],
        status_value: None,
    }
}

#[test]
fn worst_severity_takes_the_max() {
    assert_eq!(worst_severity(&[]), Severity::Info);
    assert_eq!(worst_severity(&[disk_result(1000)]), Severity::Info);
    assert_eq!(worst_severity(&[disk_result(9000)]), Severity::Attention);
    assert_eq!(worst_severity(&[disk_result(1000), disk_result(9900)]), Severity::Critique);
}

#[test]
fn oneline_reports_the_worst_check() {
    assert_eq!(oneline(Lang::En, &[disk_result(1000)], false), "[ok] ok");
    let line = oneline(Lang::En, &[disk_result(9000)], false);
    assert!(line.starts_with("[!] "), "line: {line}");
    assert!(line.contains("Disk"), "line: {line}");
    assert!(line.contains("90.0 %"), "line: {line}");
    let mut with_value = disk_result(9900);
    with_value.status_value = Some("full soon".to_string());
    let line = oneline(Lang::En, &[with_value], false);
    assert!(line.starts_with("[x] "), "line: {line}");
    assert!(line.contains("full soon"), "line: {line}");
}

#[test]
fn footer_message_pluralizes() {
    let all_clear = "All is well.";
    assert!(!footer_message(Lang::En, 0, all_clear).is_empty());
    assert!(footer_message(Lang::En, 1, all_clear).starts_with("1 thing to look at"));
    assert!(footer_message(Lang::En, 3, all_clear).starts_with("3 things to look at"));
}

// ---------------------------------------------------------------------------

#[test]
fn oneline_names_the_first_check_at_the_worst_severity() {
    let mut a = disk_result(9000);
    a.check_name = "memory".into();
    let b = disk_result(9100);
    assert_eq!(oneline(Lang::En, &[disk_result(0), a, b], false), "[!] Memory 90.0 %");
    assert_eq!(oneline(Lang::En, &[], false), "[ok] ok");
}

#[test]
fn footer_in_french_and_all_clear() {
    assert_eq!(footer_message(Lang::Fr, 2, "x"), "2 points à regarder → josephine doctor");
    assert_eq!(footer_message(Lang::En, 0, "Tout va bien."), "Tout va bien.");
}

#[test]
fn rows_put_the_load_after_the_cpu_check() {
    let mut cpu = disk_result(1000);
    cpu.check_name = "cpu".into();
    let load = Load { one: 150, five: 75, fifteen: 5, cores: 1 };
    let rows = build_rows(Lang::En, &[cpu, disk_result(9000)], Some(&load));
    assert_eq!(rows.len(), 3);
    assert_eq!(rows[1].label, "Load");
    assert_eq!(rows[1].value, "1.50 · 0.75 · 0.05");
    assert_eq!(rows[1].severity, Severity::Attention);
    assert_eq!(rows[2].label, "Disk");
    assert_eq!(label_width(&rows), 6);
    let without = build_rows(Lang::En, &[disk_result(0)], Some(&load));
    assert_eq!(without.len(), 1);
}

#[test]
fn load_severity_follows_the_per_core_ratio() {
    let row = |one: i64, cores: usize| load_row(Lang::En, &Load { one, five: 0, fifteen: 0, cores }).severity;
    assert_eq!(row(99, 1), Severity::Info);
    assert_eq!(row(100, 1), Severity::Attention);
    assert_eq!(row(399, 2), Severity::Attention);
    assert_eq!(row(400, 2), Severity::Critique);
    assert_eq!(row(50, 0), Severity::Info);
    assert_eq!(load_row(Lang::Fr, &Load { one: 0, five: 0, fifteen: 0, cores: 4 }).label, "Charge");
}

#[test]
fn check_rows_and_values() {
    let r = check_row(Lang::En, &disk_result(9000));
    assert_eq!(r.label, "Disk");
    assert_eq!(r.value, "90.0 %");
    assert_eq!(r.severity, Severity::Attention);
    let empty = CheckResult {
        check_name: "mystery".into(),
        metrics: vec![],
        details: vec![],
        top_processes: vec![],
        status_value: None,
    };
    assert_eq!(value_of(&empty), "—");
    assert_eq!(check_label(Lang::En, "mystery"), "mystery");
    assert_eq!(format_metric_value(&disk_result(1234).metrics[0]), "12.3 %");
}

#[test]
fn counts_checks_in_default() {
    assert_eq!(count_in_default(&[disk_result(0), disk_result(9000), disk_result(9900)]), 2);
    assert_eq!(count_in_default(&[]), 0);
}

#[test]
fn pad_counts_characters() {
    assert_eq!(pad("État", 6), "État  ");
    assert_eq!(pad("longer", 3), "longer");
    assert_eq!(oneline_glyph(Severity::Critique, false), "[x]");
    assert_eq!(oneline_glyph(Severity::Critique, true), "✕");
}

#[test]
fn loadavg_takes_its_first_three_fields() {
    assert_eq!(
        loadavg_fields("0.52 0.58 0.59 1/873 12345\n"),
        Some(("0.52".to_string(), "0.58".to_string(), "0.59".to_string()))
    );
    assert_eq!(loadavg_fields("0.52 0.58"), None);
    assert_eq!(loadavg_fields(""), None);
}

#[test]
fn on_a_terminal_the_one_liner_uses_symbols() {
    assert_eq!(oneline(Lang::En, &[disk_result(1000)], true), "● ok");
    assert_eq!(oneline(Lang::Fr, &[disk_result(9000)], true), "▲ Disque 90.0 %");
}

#[test]
fn decimal_ties_go_the_way_the_double_lies() {
    let m = |v: i64| format_metric_value(&disk_result(v).metrics[0]);
    // 90.35 and 0.35 are stored just below the tie, 0.45 just above it,
    // and 0.25 exactly on it.
    assert_eq!(m(9035), "90.3 %");
    assert_eq!(m(35), "0.3 %");
    assert_eq!(m(45), "0.5 %");
    assert_eq!(m(25), "0.2 %");
    assert_eq!(m(-35), "-0.3 %");
    for v in (0..20000).chain([123_456_789, 987_654_321_012]) {
        assert_eq!(m(v), format!("{:.1} %", v as f64 / 100.0), "{v}");
    }
}

#[test]
fn loadavg_reads_its_three_averages() {
    assert_eq!(parse_loadavg("0.52 1.58 10.59 1/873 12345\n"), Some((52, 158, 1059)));
    assert_eq!(parse_loadavg("0.52 x 0.59"), None);
}
