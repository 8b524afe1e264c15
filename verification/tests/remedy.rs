use josephine::check::{CheckResult, Metric, Severity};
use josephine::checks::filesystem::FilesystemCheck;
use josephine::checks::pressure::PressureCheck;
use josephine::checks::reboot::RebootCheck;
use josephine::checks::smart::SmartCheck;
use josephine::config::{
    FilesystemCheckConfig, PressureCheckConfig, RebootCheckConfig, SmartCheckConfig,
};
use josephine::i18n::Lang;
use josephine::remedy::{advice, all, for_result, MAX_ENTRIES_PER_CHECK};

/// A `CheckResult` whose single metric lands on the given severity.
fn result(name: &str, severity: Severity, top: &[&str]) -> CheckResult {
    let value = match severity {
        Severity::Info => 0,
        Severity::Attention => 8000,
        Severity::Critique => 9500,
    };
    CheckResult {
        check_name: name.into(),
        metrics: vec![Metric {
            name: "usage_percent".into(),
            value,
            unit: "%".into(),
            threshold_warning: Some(7500),
            threshold_critical: Some(9000),
        }],
        details: Vec::new(),
        top_processes: top.iter().map(|s| s.to_string()).collect(),
        status_value: None,
    }
}

#[test]
fn all_checks_have_advice() {
    // Every check the advice table knows is listed once; the checks built
    // here each find their entry.
    assert_eq!(all().len(), 16, "expected sixteen checks to be built");
    let names = [
        FilesystemCheck::new(FilesystemCheckConfig::default()).name(),
        PressureCheck::new(PressureCheckConfig::default()).name(),
        RebootCheck::new(RebootCheckConfig::default()).name(),
        SmartCheck::new(SmartCheckConfig::default()).name(),
    ];
    for name in names {
        assert!(advice(name).is_some(), "check `{name}` has no advice entry");
    }
}

#[test]
fn advice_is_bilingual_and_non_empty() {
    for entry in all() {
        for (en, fr) in [entry.what, entry.why, entry.remedy] {
            assert!(!en.trim().is_empty(), "{} has an empty EN string", entry.name);
            assert!(!fr.trim().is_empty(), "{} has an empty FR string", entry.name);
            assert_ne!(en, fr, "{} looks untranslated", entry.name);
        }
    }
}

#[test]
fn no_remedy_is_circular() {
    for entry in all() {
        for text in [entry.remedy.0, entry.remedy.1] {
            assert!(
                !text.contains("josephine doctor"),
                "{} sends the reader back to doctor: {text}",
                entry.name
            );
            assert!(
                !text.contains("josephine fix"),
                "{} references the removed fix command: {text}",
                entry.name
            );
        }
    }
}

#[test]
fn remedies_fit_a_terminal_line() {
    for entry in all() {
        for text in [entry.remedy.0, entry.remedy.1] {
            let width = text.chars().count();
            assert!(
                width <= 73,
                "{} remedy is {width} chars, over the 73 budget: {text}",
                entry.name
            );
        }
    }
}

#[test]
fn advice_is_found_by_name() {
    assert_eq!(advice("cpu").unwrap().name, "cpu");
    assert!(advice("nope").is_none());
}

#[test]
fn healthy_check_yields_no_remedy() {
    assert!(for_result(Lang::En, &result("disk", Severity::Info, &[])).is_empty());
}

#[test]
fn systemd_yields_one_entry_per_failed_unit() {
    let r = result("systemd", Severity::Critique, &["nginx.service", "backup.timer"]);
    let remedies = for_result(Lang::En, &r);
    assert_eq!(remedies.len(), 2);
    assert_eq!(remedies[0].action, "sudo systemctl restart nginx.service");
    assert_eq!(remedies[1].action, "sudo systemctl restart backup.timer");
    assert!(remedies[0]
        .hint
        .as_ref()
        .unwrap()
        .contains("systemctl status nginx.service"));
}

#[test]
fn systemd_caps_the_list_and_counts_the_overflow() {
    let units = [
        "a.service", "b.service", "c.service", "d.service", "e.service", "f.service", "g.service",
    ];
    let remedies = for_result(Lang::En, &result("systemd", Severity::Critique, &units));
    assert_eq!(remedies.len(), MAX_ENTRIES_PER_CHECK + 1);
    let overflow = &remedies[MAX_ENTRIES_PER_CHECK].action;
    assert!(overflow.contains('2'), "overflow must count the rest: {overflow}");
    assert!(remedies[MAX_ENTRIES_PER_CHECK].hint.is_none());
}

#[test]
fn systemd_at_the_cap_has_no_overflow_line() {
    let units = ["a.service", "b.service", "c.service", "d.service", "e.service"];
    let remedies = for_result(Lang::En, &result("systemd", Severity::Critique, &units));
    assert_eq!(remedies.len(), MAX_ENTRIES_PER_CHECK);
    assert!(remedies.iter().all(|r| r.hint.is_some()));
}

#[test]
fn systemd_one_past_the_cap_overflows_by_one() {
    let units = ["a.service", "b.service", "c.service", "d.service", "e.service", "f.service"];
    let remedies = for_result(Lang::En, &result("systemd", Severity::Critique, &units));
    assert_eq!(remedies.len(), MAX_ENTRIES_PER_CHECK + 1);
    let overflow = &remedies[MAX_ENTRIES_PER_CHECK].action;
    assert!(overflow.contains('1'), "overflow must count the rest: {overflow}");
    assert!(remedies[MAX_ENTRIES_PER_CHECK].hint.is_none());
}

#[test]
fn systemd_without_failed_units_falls_back_to_static_advice() {
    let remedies = for_result(Lang::En, &result("systemd", Severity::Critique, &[]));
    assert_eq!(remedies.len(), 1);
    assert_eq!(remedies[0].action, advice("systemd").unwrap().remedy.0);
}

#[test]
fn cpu_quotes_the_top_process_verbatim() {
    let r = result("cpu", Severity::Attention, &["firefox (PID 1234) — 87.3 %"]);
    let remedies = for_result(Lang::En, &r);
    assert_eq!(remedies.len(), 1);
    assert!(
        remedies[0].action.contains("firefox (PID 1234) — 87.3 %"),
        "got: {}",
        remedies[0].action
    );
    assert!(remedies[0].hint.is_some());
}

#[test]
fn cpu_without_process_list_falls_back_to_static_advice() {
    let remedies = for_result(Lang::En, &result("cpu", Severity::Attention, &[]));
    assert_eq!(remedies.len(), 1);
    assert_eq!(remedies[0].action, advice("cpu").unwrap().remedy.0);
}

#[test]
fn memory_without_process_list_falls_back_to_static_advice() {
    let remedies = for_result(Lang::En, &result("memory", Severity::Attention, &[]));
    assert_eq!(remedies.len(), 1);
    assert_eq!(remedies[0].action, advice("memory").unwrap().remedy.0);
}

#[test]
fn check_without_contextual_rule_falls_back_to_static_advice() {
    let remedies = for_result(Lang::En, &result("timesync", Severity::Attention, &[]));
    assert_eq!(remedies.len(), 1);
    assert_eq!(remedies[0].action, advice("timesync").unwrap().remedy.0);
    assert!(remedies[0].hint.is_none());
}

#[test]
fn unknown_check_yields_no_remedy() {
    assert!(for_result(Lang::En, &result("nope", Severity::Critique, &[])).is_empty());
}

// ---------------------------------------------------------------------------

#[test]
fn advice_speaks_the_chosen_language() {
    let cpu = advice("cpu").unwrap();
    assert_eq!(cpu.what(Lang::En), cpu.what.0);
    assert_eq!(cpu.what(Lang::Fr), cpu.what.1);
    assert_eq!(cpu.why(Lang::Fr), cpu.why.1);
    assert_eq!(cpu.remedy(Lang::En), cpu.remedy.0);
}

#[test]
fn systemd_hints_and_overflow_in_french() {
    let units = ["a.service", "b.service", "c.service", "d.service", "e.service", "f.service", "g.service"];
    let remedies = for_result(Lang::Fr, &result("systemd", Severity::Attention, &units));
    assert_eq!(
        remedies[0].hint.as_deref(),
        Some("(comprendre pourquoi : systemctl status a.service)")
    );
    assert!(remedies[MAX_ENTRIES_PER_CHECK].action.contains('2'));
}

#[test]
fn a_check_in_default_with_advice_always_gets_a_remedy() {
    for entry in all() {
        let r = result(entry.name, Severity::Critique, &[]);
        assert!(!for_result(Lang::En, &r).is_empty(), "{}", entry.name);
    }
}
