use josephine::check::Severity;
use josephine::checks::pressure::{
    avg60_text, build_result, unavailable, PressureCheck, Psi,
};
use josephine::config::PressureCheckConfig;
use josephine::i18n::Lang;

const SAMPLE: &str = "\
some avg10=0.12 avg60=3.40 avg300=0.27 total=5866198773
full avg10=0.00 avg60=0.00 avg300=0.00 total=0
";

fn config() -> PressureCheckConfig {
    PressureCheckConfig::default()
}

/// The figures of a PSI file, as percentages.
fn parse_psi(content: &str) -> Option<(f64, Option<f64>)> {
    let psi = josephine::checks::pressure::parse_psi(content)?;
    Some((psi.some as f64 / 100.0, psi.full.map(|f| f as f64 / 100.0)))
}

#[test]
fn parses_both_lines() {
    let psi = parse_psi(SAMPLE).expect("psi");
    assert_eq!(psi.0, 3.40);
    assert_eq!(psi.1, Some(0.00));
}

#[test]
fn missing_some_line_is_none() {
    assert!(parse_psi("full avg60=1.0 total=0\n").is_none());
}

#[test]
fn a_missing_full_line_is_tolerated() {
    let psi = parse_psi("some avg10=0.03 avg60=0.04 avg300=0.85 total=8675\n").expect("psi");
    assert_eq!(psi.0, 0.04);
    assert_eq!(psi.1, None);
}

#[test]
fn calm_memory_is_info() {
    let result = build_result(Lang::En, 0, 50, Some(10), Some(0), &config());
    assert_eq!(result.worst_severity(), Severity::Info);
}

#[test]
fn sustained_full_stall_is_critical() {
    let result = build_result(Lang::En, 3000, 8000, Some(100), None, &config());
    assert_eq!(result.worst_severity(), Severity::Critique);
}

#[test]
fn a_busy_build_does_not_raise_an_alert() {
    for some in [2000, 3000, 4500] {
        let result = build_result(Lang::En, 0, some, Some(3500), Some(2500), &config());
        assert_eq!(
            result.worst_severity(),
            Severity::Info,
            "some={some} must stay quiet while full is 0"
        );
    }
}

#[test]
fn only_the_full_memory_metric_carries_thresholds() {
    let result = build_result(Lang::En, 100, 200, Some(300), Some(400), &config());
    for m in &result.metrics {
        if m.name == "memory_pressure_full_avg60" {
            assert!(m.threshold_warning.is_some() && m.threshold_critical.is_some());
        } else {
            assert!(
                m.threshold_warning.is_none() && m.threshold_critical.is_none(),
                "{} must not alert",
                m.name
            );
        }
    }
}

// ---------------------------------------------------------------------------

#[test]
fn avg60_is_read_from_the_named_line_only() {
    assert_eq!(avg60_text(SAMPLE, "some").as_deref(), Some("3.40"));
    assert_eq!(avg60_text(SAMPLE, "full").as_deref(), Some("0.00"));
    assert_eq!(avg60_text("somewhere avg60=9.9\n", "some"), None);
    assert_eq!(avg60_text("some avg10=1.0\nsome avg60=2.5\n", "some").as_deref(), Some("2.5"));
    assert_eq!(avg60_text("", "some"), None);
}

#[test]
fn status_and_details_render_the_figures() {
    let result = build_result(Lang::En, 1250, 3340, Some(4), None, &config());
    assert_eq!(result.status_value.as_deref(), Some("12% stalled (60s)"));
    assert_eq!(
        result.details[0],
        "Memory stall: 12.5% of the last minute with everything waiting (33.4% with something waiting)."
    );
    assert_eq!(result.details[1], "CPU stall: 0.0%.");
    assert_eq!(result.details.len(), 2);
    assert_eq!(result.worst_severity(), Severity::Attention);
    assert_eq!(result.metrics.len(), 3);
    assert_eq!(result.metrics[2].name, "cpu_pressure_avg60");
}

#[test]
fn thresholds_are_inclusive() {
    assert_eq!(build_result(Lang::En, 999, 0, None, None, &config()).worst_severity(), Severity::Info);
    assert_eq!(build_result(Lang::En, 1000, 0, None, None, &config()).worst_severity(), Severity::Attention);
    assert_eq!(build_result(Lang::En, 2500, 0, None, None, &config()).worst_severity(), Severity::Critique);
}

#[test]
fn without_a_full_memory_line_the_check_is_unavailable() {
    let check = PressureCheck::new(config());
    assert_eq!(check.name(), "pressure");
    let r = check.evaluate(Lang::En, Some(Psi { some: 100, full: None }), None, None);
    assert_eq!(r.status_value.as_deref(), Some("Unavailable"));
    assert!(r.metrics.is_empty());
    let r = check.evaluate(Lang::Fr, None, None, None);
    assert_eq!(r.status_value.as_deref(), Some("Indisponible"));
    assert_eq!(unavailable(Lang::En).details.len(), 1);
}

#[test]
fn evaluate_takes_cpu_and_io_some_figures() {
    let check = PressureCheck::new(config());
    let r = check.evaluate(
        Lang::En,
        Some(Psi { some: 500, full: Some(300) }),
        Some(Psi { some: 150, full: None }),
        Some(Psi { some: 250, full: Some(100) }),
    );
    assert_eq!(r.metrics.len(), 4);
    assert_eq!(r.metrics[0].value, 300);
    assert_eq!(r.metrics[1].value, 500);
    assert_eq!(r.metrics[2].value, 150);
    assert_eq!(r.metrics[3].value, 250);
    assert_eq!(r.worst_severity(), Severity::Info);
}

#[test]
fn unreadable_figures_are_dropped() {
    assert!(josephine::checks::pressure::parse_psi("some avg60=abc\nfull avg60=1.00\n").is_none());
    let psi = josephine::checks::pressure::parse_psi("some avg60=1.25\nfull avg60=x\n").unwrap();
    assert_eq!(psi.some, 125);
    assert_eq!(psi.full, None);
}
