use josephine::check::Severity;
use josephine::checks::smart::{
    disk_devices, smart_status_value, unavailable, wear_percent, AtaAttribute,
    DeviceReport, Health, SmartCheck,
};
use josephine::json::hundredths_of;
use josephine::config::SmartCheckConfig;
use josephine::i18n::Lang;

/// Health and wear of one `smartctl -j -a` payload.
fn parse_report(json: &str) -> (Health, Option<f64>) {
    let r = josephine::checks::smart::parse_report("/dev/sda", json);
    assert_eq!(r.device, "/dev/sda");
    (r.health, r.wear.map(|w| w as f64 / 100.0))
}

fn wear(json: &str) -> Option<f64> {
    parse_report(json).1
}

#[test]
fn parses_passed() {
    let json = r#"{"smart_status": {"passed": true}}"#;
    assert_eq!(parse_report(json).0, Health::Passed);
}

#[test]
fn parses_failed() {
    let json = r#"{"smart_status": {"passed": false}}"#;
    assert_eq!(parse_report(json).0, Health::Failing);
}

#[test]
fn unknown_when_absent_or_unreadable() {
    assert_eq!(parse_report(r#"{"device": {}}"#).0, Health::Unknown);
    assert_eq!(parse_report("no verdict here"), (Health::Unknown, None));
    assert_eq!(parse_report(""), (Health::Unknown, None));
}

#[test]
fn parses_nvme_percentage_used() {
    let json = r#"{"nvme_smart_health_information_log": {"percentage_used": 7}}"#;
    assert_eq!(wear(json), Some(7.0));
}

#[test]
fn parses_sata_life_left_as_wear() {
    let json = r#"{"ata_smart_attributes": {"table": [
        {"id": 5, "name": "Reallocated_Sector_Ct", "value": 100},
        {"id": 231, "name": "SSD_Life_Left", "value": 82}
    ]}}"#;
    assert_eq!(wear(json), Some(18.0));
}

#[test]
fn id_231_as_temperature_is_not_read_as_wear() {
    let json = r#"{"ata_smart_attributes": {"table": [
        {"id": 231, "name": "Temperature_Celsius", "value": 70}
    ]}}"#;
    assert_eq!(wear(json), None);
}

#[test]
fn an_unnamed_attribute_is_never_guessed_at() {
    let json = r#"{"ata_smart_attributes": {"table": [{"id": 231, "value": 70}]}}"#;
    assert_eq!(wear(json), None);
}

#[test]
fn recognises_the_other_life_left_attributes() {
    for name in ["Media_Wearout_Indicator", "Wear_Leveling_Count"] {
        let json = format!(
            r#"{{"ata_smart_attributes": {{"table": [
                {{"id": 1, "name": "{name}", "value": 95}}
            ]}}}}"#
        );
        assert_eq!(wear(&json), Some(5.0), "{name}");
    }
}

#[test]
fn no_wear_attribute_is_none() {
    let json = r#"{"ata_smart_attributes": {"table": [
        {"id": 5, "name": "Reallocated_Sector_Ct", "value": 100}
    ]}}"#;
    assert_eq!(wear(json), None);
    assert_eq!(wear("not json"), None);
}

#[test]
fn status_value_appends_wear_when_present() {
    assert_eq!(smart_status_value(Lang::En, 2, 0, None), "2 healthy disk(s)");
    assert_eq!(smart_status_value(Lang::En, 2, 0, Some(8500)), "2 healthy, 85% worn");
    assert_eq!(smart_status_value(Lang::En, 2, 1, Some(8500)), "⚠ 1 disk(s) at risk");
}

// ---------------------------------------------------------------------------

#[test]
fn wear_is_clamped_to_a_percentage() {
    assert_eq!(wear_percent(Some(12000), None), Some(10000));
    assert_eq!(wear_percent(Some(-300), None), Some(0));
    let table = [AtaAttribute { name: Some("ssd_life_left".into()), value: Some(10500) }];
    assert_eq!(wear_percent(None, Some(&table)), Some(0));
}

#[test]
fn nvme_wins_over_the_ata_table() {
    let table = [AtaAttribute { name: Some("SSD_Life_Left".into()), value: Some(8200) }];
    assert_eq!(wear_percent(Some(700), Some(&table)), Some(700));
    assert_eq!(wear_percent(None, Some(&table)), Some(1800));
}

#[test]
fn the_most_specific_life_left_attribute_wins() {
    let table = [
        AtaAttribute { name: Some("Wear_Leveling_Count".into()), value: Some(9000) },
        AtaAttribute { name: Some("SSD_Life_Left".into()), value: Some(6000) },
    ];
    assert_eq!(wear_percent(None, Some(&table)), Some(4000));
}

#[test]
fn status_value_in_french() {
    assert_eq!(smart_status_value(Lang::Fr, 3, 0, None), "3 disque(s) sain(s)");
    assert_eq!(smart_status_value(Lang::Fr, 3, 0, Some(1249)), "3 sain(s), 12% d'usure");
    assert_eq!(smart_status_value(Lang::Fr, 3, 2, None), "⚠ 2 disque(s) en alerte");
}

#[test]
fn disks_are_chosen_by_prefix_and_sorted() {
    let names: Vec<String> = ["nvme0n1", "loop0", "sdb", "sda", "dm-0", "vda", "hdc", "zram0"]
        .iter()
        .map(|s| s.to_string())
        .collect();
    assert_eq!(
        disk_devices(&names),
        vec!["/dev/hdc", "/dev/nvme0n1", "/dev/sda", "/dev/sdb", "/dev/vda"]
    );
    assert!(disk_devices(&[]).is_empty());
}

fn report(device: &str, health: Health, wear: Option<i64>) -> DeviceReport {
    DeviceReport { device: device.to_string(), health, wear }
}

#[test]
fn without_the_tool_the_check_is_unavailable() {
    let check = SmartCheck::new(SmartCheckConfig::default());
    assert_eq!(check.name(), "smart");
    let r = check.evaluate(Lang::En, false, &[report("/dev/sda", Health::Passed, None)]);
    assert_eq!(r.status_value.as_deref(), Some("Unavailable"));
    assert_eq!(r.details, vec!["smartmontools not installed (`smartmontools` package)"]);
}

#[test]
fn without_any_verdict_the_check_is_unavailable() {
    let check = SmartCheck::new(SmartCheckConfig::default());
    let r = check.evaluate(Lang::En, true, &[report("/dev/sda", Health::Unknown, Some(500))]);
    assert_eq!(r.status_value.as_deref(), Some("Unavailable"));
    assert!(r.metrics.is_empty());
    assert_eq!(
        r.details,
        vec!["SMART status unreadable (root required, or disks without SMART)"]
    );
    let u = unavailable(Lang::Fr, "raison");
    assert_eq!(u.details, vec!["raison"]);
    assert_eq!(u.status_value.as_deref(), Some("Indisponible"));
}

#[test]
fn a_failing_disk_is_critical_and_the_worst_wear_is_kept() {
    let check = SmartCheck::new(SmartCheckConfig::default());
    let reports = [
        report("/dev/nvme0n1", Health::Passed, Some(1200)),
        report("/dev/sda", Health::Failing, None),
        report("/dev/sdb", Health::Unknown, Some(8100)),
    ];
    let r = check.evaluate(Lang::En, true, &reports);
    assert_eq!(r.worst_severity(), Severity::Critique);
    assert_eq!(r.metrics[0].name, "smart_failing");
    assert_eq!(r.metrics[0].value, 100);
    assert_eq!(r.metrics[1].name, "smart_wear_percent");
    assert_eq!(r.metrics[1].value, 8100);
    assert_eq!(
        r.details,
        vec![
            "/dev/nvme0n1: healthy (SMART OK)",
            "/dev/sda: ⚠ SMART failing — back up!",
            "Most-worn disk: 81% of rated writes used.",
        ]
    );
    assert_eq!(r.status_value.as_deref(), Some("⚠ 1 disk(s) at risk"));
}

#[test]
fn healthy_disks_with_some_wear_call_for_attention_past_the_threshold() {
    let check = SmartCheck::new(SmartCheckConfig::default());
    let r = check.evaluate(Lang::En, true, &[report("/dev/sda", Health::Passed, Some(8000))]);
    assert_eq!(r.worst_severity(), Severity::Attention);
    assert_eq!(r.status_value.as_deref(), Some("1 healthy, 80% worn"));
    let r = check.evaluate(Lang::En, true, &[report("/dev/sda", Health::Passed, None)]);
    assert_eq!(r.worst_severity(), Severity::Info);
    assert_eq!(r.metrics.len(), 1);
}

#[test]
fn numbers_are_read_in_hundredths() {
    assert_eq!(hundredths_of("7"), Some(700));
    assert_eq!(hundredths_of("82.0"), Some(8200));
    assert_eq!(hundredths_of("-5"), Some(-500));
    assert_eq!(hundredths_of("12.345"), Some(1235));
    assert_eq!(hundredths_of("12.344"), Some(1234));
    assert_eq!(hundredths_of("0.5"), Some(50));
    assert_eq!(hundredths_of("99999999999999999999"), Some(1_000_000_000_000_000_000));
    assert_eq!(hundredths_of("1e5"), Some(10_000_000));
    assert_eq!(hundredths_of("7E-1"), Some(70));
    assert_eq!(hundredths_of("1.5e-2"), Some(2));
    assert_eq!(hundredths_of("1e400"), Some(1_000_000_000_000_000_000));
    assert_eq!(hundredths_of("1e-400"), Some(0));
    assert_eq!(hundredths_of("+2.5"), Some(250));
    assert_eq!(hundredths_of("1."), Some(100));
    assert_eq!(hundredths_of(".5"), Some(50));
    assert_eq!(hundredths_of("."), None);
    assert_eq!(hundredths_of("1e"), None);
    assert_eq!(hundredths_of("1e+"), None);
    assert_eq!(hundredths_of("1.2.3"), None);
    assert_eq!(hundredths_of("inf"), None);
    assert_eq!(hundredths_of(""), None);
    assert_eq!(hundredths_of("-"), None);
}

#[test]
fn a_fractional_percentage_and_a_string_value() {
    let json = r#"{"nvme_smart_health_information_log": {"percentage_used": 7.5}}"#;
    assert_eq!(wear(json), Some(7.5));
    let json = r#"{"ata_smart_attributes": {"table": [
        {"name": "SSD_Life_Left", "value": "82"},
        {"name": "Media_Wearout_Indicator", "value": 90}
    ]}}"#;
    assert_eq!(wear(json), Some(10.0));
    let json = r#"{"smart_status": {"passed": "yes"}}"#;
    assert_eq!(parse_report(json).0, Health::Unknown);
}

#[test]
fn health_follows_the_passed_flag_only() {
    assert_eq!(josephine::checks::smart::health_of(Some(true)), Health::Passed);
    assert_eq!(josephine::checks::smart::health_of(None), Health::Unknown);
}

#[test]
fn an_exponent_form_is_read_as_wear() {
    let json = r#"{"nvme_smart_health_information_log": {"percentage_used": 1.5e1}}"#;
    assert_eq!(wear(json), Some(15.0));
}
