use josephine::check::{CheckResult, Metric, Severity};
use josephine::i18n::Lang;
use josephine::report::{
    host_label, parse_since, render_digest, render_report, since_in_range, state_label,
    transition_label, window_label, Digest, DigestEvent, SinceError,
};

#[test]
fn parse_since_accepts_days_and_hours() {
    assert_eq!(parse_since("7d").unwrap(), 168);
    assert_eq!(parse_since("24h").unwrap(), 24);
    assert_eq!(parse_since(" 3D ").unwrap(), 72);
}

#[test]
fn parse_since_rejects_garbage() {
    assert!(parse_since("7").is_err());
    assert!(parse_since("d").is_err());
    assert!(parse_since("0d").is_err());
    assert!(parse_since("-2h").is_err());
    assert!(parse_since("week").is_err());
}

// ---------------------------------------------------------------------------

#[test]
fn parse_since_says_why() {
    assert_eq!(parse_since("7"), Err(SinceError::NotAWindow));
    assert_eq!(parse_since("week"), Err(SinceError::NotAWindow));
    assert_eq!(parse_since(""), Err(SinceError::NotAWindow));
    assert_eq!(parse_since("d"), Err(SinceError::NotPositive));
    assert_eq!(parse_since("0d"), Err(SinceError::NotPositive));
    assert_eq!(parse_since("-2h"), Err(SinceError::NotPositive));
    assert_eq!(parse_since("2.5h"), Err(SinceError::NotPositive));
    assert_eq!(parse_since("99999999999999999999h"), Err(SinceError::NotPositive));
    assert_eq!(parse_since("+5H"), Ok(5));
    assert_eq!(parse_since(" 2 d"), Ok(48));
    assert_eq!(
        SinceError::NotAWindow.message(Lang::En),
        "--since expects a window like `7d` or `24h`."
    );
    assert_eq!(
        SinceError::NotPositive.message(Lang::Fr),
        "--since doit être un nombre positif suivi de `d` ou `h`."
    );
}

#[test]
fn a_window_too_long_for_hours_is_out_of_range() {
    assert!(since_in_range("7d"));
    assert!(since_in_range("garbage"));
    assert!(since_in_range("9223372036854775807h"));
    assert_eq!(parse_since("9223372036854775807h"), Ok(i64::MAX));
    assert!(since_in_range("384307168202282325d"));
    assert!(!since_in_range("384307168202282326d"));
}

#[test]
fn window_label_prefers_whole_days() {
    assert_eq!(window_label(Lang::En, 24), "1 day");
    assert_eq!(window_label(Lang::En, 168), "7 days");
    assert_eq!(window_label(Lang::En, 1), "1 hour");
    assert_eq!(window_label(Lang::En, 30), "30 hours");
    assert_eq!(window_label(Lang::Fr, 48), "2 jours");
    assert_eq!(window_label(Lang::Fr, 1), "1 heure");
    assert_eq!(window_label(Lang::Fr, 5), "5 heures");
    assert_eq!(window_label(Lang::Fr, 24), "1 jour");
}

#[test]
fn labels_for_states_and_transitions() {
    assert_eq!(state_label(Lang::En, Severity::Info), "OK      ");
    assert_eq!(state_label(Lang::Fr, Severity::Attention), "ATTENTION");
    assert_eq!(state_label(Lang::En, Severity::Critique), "CRITICAL");
    assert_eq!(transition_label(Lang::En, "RECOVERED"), "resolved");
    assert_eq!(transition_label(Lang::Fr, "CRITICAL"), "critique");
    assert_eq!(transition_label(Lang::En, "WARNING"), "attention");
    assert_eq!(transition_label(Lang::En, "OTHER"), "note");
}

#[test]
fn host_falls_back_to_machine() {
    assert_eq!(host_label(Some("  atlas\n")), "atlas");
    assert_eq!(host_label(Some(" \n")), "machine");
    assert_eq!(host_label(None), "machine");
}

fn disk(value: i64, details: Vec<String>) -> CheckResult {
    CheckResult {
        check_name: "disk".into(),
        metrics: vec![Metric {
            name: "usage_percent_worst".into(),
            value,
            unit: "%".into(),
            threshold_warning: Some(8500),
            threshold_critical: Some(9500),
        }],
        details,
        top_processes: vec![],
        status_value: None,
    }
}

#[test]
fn report_lists_each_check_under_the_global_state() {
    let results = vec![disk(9000, vec!["  / is 90% full  ".to_string()])];
    let report = render_report(Lang::En, &results, "2026-01-02 03:04:05", "atlas", None);
    let rule = "=".repeat(60);
    let dashes = "-".repeat(60);
    let expected = format!(
        "Joséphine — system report\n\
         Date        : 2026-01-02 03:04:05\n\
         Machine     : atlas\n\
         Global state: WARNING \n\
         {rule}\n\
         \n[WARNING ] Disk — 90.0 %\n    / is 90% full\n\
         \n{dashes}\nGenerated by Joséphine · 100% local\n"
    );
    assert_eq!(report, expected);
}

#[test]
fn french_report_without_checks_is_ok() {
    let report = render_report(Lang::Fr, &[], "d", "h", None);
    assert!(report.starts_with("Joséphine — rapport système\nDate        : d\nMachine     : h\nÉtat global : OK      \n"));
    assert!(report.ends_with("Généré par Joséphine · 100 % local\n"));
}

#[test]
fn digest_lists_events_or_calls_the_stretch_quiet() {
    let quiet = Digest { window: "7 days".into(), events: vec![] };
    let rule = "=".repeat(60);
    assert_eq!(
        render_digest(Lang::En, &quiet),
        format!("{rule}\nOver the last 7 days\n    A quiet stretch — nothing to report.\n")
    );
    let busy = Digest {
        window: "1 jour".into(),
        events: vec![DigestEvent {
            check_name: "disk".into(),
            to_state: "RECOVERED".into(),
            when: "2026-01-02 03:04".into(),
        }],
    };
    assert_eq!(
        render_digest(Lang::Fr, &busy),
        format!("{rule}\nSur les 1 jour écoulés\n    1 événement\n    • [résolu] Disque — 2026-01-02 03:04\n")
    );
    let two = Digest {
        window: "2 days".into(),
        events: vec![
            DigestEvent { check_name: "cpu".into(), to_state: "WARNING".into(), when: "a".into() },
            DigestEvent { check_name: "x".into(), to_state: "CRITICAL".into(), when: "b".into() },
        ],
    };
    let text = render_digest(Lang::En, &two);
    assert!(text.contains("    2 events\n    • [attention] CPU — a\n    • [critical] x — b\n"));
    let report = render_report(Lang::En, &[], "d", "h", Some(&two));
    assert!(report.contains(&format!("\n\n{text}\n{}", "-".repeat(60))));
}

#[test]
fn a_day_is_twenty_four_hours_in_either_case() {
    for count in ["1", " 3", "12 ", "+2"] {
        let h = parse_since(&format!("{count}h")).unwrap();
        assert_eq!(parse_since(&format!("{count}d")), Ok(24 * h));
        assert_eq!(parse_since(&format!("{count}D")), Ok(24 * h));
        assert_eq!(parse_since(&format!("{count}H")), Ok(h));
    }
    for bad in ["0", "x", "", "-1"] {
        assert_eq!(parse_since(&format!("{bad}d")), parse_since(&format!("{bad}h")));
    }
}
