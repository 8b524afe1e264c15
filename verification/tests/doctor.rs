use josephine::doctor::{days_word, render_forecast, targets, Kind};
use josephine::i18n::Lang;

#[test]
fn days_word_pluralizes() {
    assert_eq!(days_word(Lang::En, 1), "day");
    assert_eq!(days_word(Lang::En, 3), "days");
    assert_eq!(days_word(Lang::Fr, 1), "jour");
    assert_eq!(days_word(Lang::Fr, 0), "jours");
}

#[test]
fn smart_wear_is_only_projected_when_smart_is_on() {
    let on: Vec<&str> = targets(true, true).iter().map(|t| t.check).collect();
    assert_eq!(on, vec!["disk", "inode", "memory", "smart"]);
    let off: Vec<&str> = targets(true, false).iter().map(|t| t.check).collect();
    assert_eq!(off, vec!["disk", "inode", "memory"]);
    assert!(targets(false, true).is_empty());
    assert_eq!(targets(true, true)[3].metric, "smart_wear_percent");
    assert_eq!(targets(true, true)[0].goal, 10000);
    assert_eq!(targets(true, true)[3].kind, Kind::Wear);
}

#[test]
fn forecasts_read_naturally() {
    assert_eq!(
        render_forecast(Lang::En, Kind::Fill, "disk", 12, 8740, 150),
        "Disk: full in ~12 days (87% now, +1.5%/day)"
    );
    assert_eq!(
        render_forecast(Lang::Fr, Kind::Fill, "memory", 1, 9000, -25),
        "Mémoire : plein dans ~1 jour (90 % aujourd'hui, -0.2 %/j)"
    );
    assert_eq!(
        render_forecast(Lang::En, Kind::Wear, "smart", 400, 1200, 3),
        "SMART: worn out in ~400 days (12% used, +0.03%/day)"
    );
    assert_eq!(
        render_forecast(Lang::Fr, Kind::Wear, "smart", 2, 9950, 0),
        "SMART : usé dans ~2 jours (100 % utilisé, +0.00 %/j)"
    );
}

use josephine::check::{CheckResult, Metric};
use josephine::doctor::pending_remedies;
use josephine::remedy::advice;

fn result(name: &str, value: i64, top: &[&str]) -> CheckResult {
    CheckResult {
        check_name: name.into(),
        metrics: vec![Metric {
            name: "usage_percent".into(),
            value,
            unit: "%".into(),
            threshold_warning: Some(7500),
            threshold_critical: Some(9000),
        }],
        details: vec![],
        top_processes: top.iter().map(|s| s.to_string()).collect(),
        status_value: None,
    }
}

#[test]
fn a_healthy_machine_has_nothing_left_to_do() {
    let results = [result("disk", 1000, &[]), result("systemd", 0, &["a.service"])];
    assert!(pending_remedies(Lang::En, &results).is_empty());
    assert!(pending_remedies(Lang::En, &[]).is_empty());
}

#[test]
fn critical_remedies_come_first_then_run_order() {
    let results = [
        result("disk", 8000, &[]),
        result("systemd", 9500, &["nginx.service"]),
        result("cpu", 8000, &[]),
        result("memory", 100, &[]),
    ];
    let remedies = pending_remedies(Lang::En, &results);
    assert_eq!(remedies.len(), 3);
    assert_eq!(remedies[0].action, "sudo systemctl restart nginx.service");
    assert_eq!(remedies[1].action, advice("disk").unwrap().remedy.0);
    assert_eq!(remedies[2].action, advice("cpu").unwrap().remedy.0);
}
