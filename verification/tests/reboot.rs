use josephine::check::Severity;
use josephine::checks::reboot::{
    build_result, combine, combine_finish, combine_step, flag_file_signal,
    interpret_needs_restarting, kernel_signal, newer_kernel_installed, nixos_signal, version_key,
    RebootCheck, Step,
};
use josephine::config::RebootCheckConfig;
use josephine::i18n::Lang;

fn config() -> RebootCheckConfig {
    RebootCheckConfig::default()
}

#[test]
fn version_key_takes_leading_numeric_tuple() {
    assert_eq!(version_key("6.9.4-arch1-1"), vec![6, 9, 4]);
    assert_eq!(version_key("6.10.0-1-generic"), vec![6, 10, 0]);
    assert_eq!(version_key("5.15.0"), vec![5, 15, 0]);
}

#[test]
fn newer_kernel_detected_by_numeric_version() {
    let running = "6.9.4-arch1-1";
    assert!(newer_kernel_installed(
        running,
        &["6.9.4-arch1-1".into(), "6.10.0-arch1-1".into()]
    ));
    assert!(newer_kernel_installed(running, &["6.9.10-arch1-1".into()]));
}

#[test]
fn same_kernel_with_suffix_change_is_not_flagged() {
    assert!(!newer_kernel_installed(
        "6.9.4-arch1-1",
        &["6.9.4-arch1-1".into(), "6.9.4-arch1-2".into()]
    ));
}

#[test]
fn only_the_running_kernel_installed_is_not_flagged() {
    assert!(!newer_kernel_installed("6.9.4-arch1-1", &["6.9.4-arch1-1".into()]));
}

#[test]
fn needs_restarting_only_trusts_its_two_documented_codes() {
    assert_eq!(interpret_needs_restarting(Some(0)), Some(false));
    assert_eq!(interpret_needs_restarting(Some(1)), Some(true));
    for code in [2, 13, 100, 127, 255] {
        assert_eq!(
            interpret_needs_restarting(Some(code)),
            None,
            "exit code {code} must not be read as an answer"
        );
    }
    assert_eq!(interpret_needs_restarting(None), None);
}

#[test]
fn combine_prefers_yes_then_no_then_unknown() {
    assert_eq!(combine(&[None, Some(false), Some(true)]), Some(true));
    assert_eq!(combine(&[None, Some(false)]), Some(false));
    assert_eq!(combine(&[None, None]), None);
    assert_eq!(combine(&[]), None);
}

#[test]
fn a_yes_stops_the_remaining_probes() {
    let signals = [Some(true), Some(false), None];
    let mut asked = 0;
    let mut answered = false;
    let mut verdict = None;
    let mut stopped = false;
    for signal in signals {
        asked += 1;
        match combine_step(answered, signal) {
            Step::Stop => {
                verdict = Some(true);
                stopped = true;
                break;
            }
            Step::Continue(a) => answered = a,
        }
    }
    if !stopped {
        verdict = combine_finish(answered);
    }
    assert_eq!(verdict, Some(true));
    assert_eq!(asked, 1, "probes after the first yes must not run");
}

#[test]
fn required_is_attention_not_critical() {
    let result = build_result(Lang::En, true, &config());
    assert_eq!(result.worst_severity(), Severity::Attention);
    assert_eq!(result.status_value.as_deref(), Some("restart needed"));
}

#[test]
fn not_required_is_info() {
    let result = build_result(Lang::En, false, &config());
    assert_eq!(result.worst_severity(), Severity::Info);
    assert_eq!(result.status_value.as_deref(), Some("no restart needed"));
}

// ---------------------------------------------------------------------------

#[test]
fn the_flag_file_only_ever_says_yes() {
    assert_eq!(flag_file_signal(true), Some(true));
    assert_eq!(flag_file_signal(false), None);
}

#[test]
fn nixos_compares_the_booted_and_current_system() {
    let a = vec!["/nix/store/aaa-linux/bzImage".to_string(), "/nix/store/aaa-initrd".to_string()];
    let b = vec!["/nix/store/bbb-linux/bzImage".to_string(), "/nix/store/aaa-initrd".to_string()];
    assert_eq!(nixos_signal(Some(a.clone()), Some(a.clone())), Some(false));
    assert_eq!(nixos_signal(Some(a.clone()), Some(b)), Some(true));
    assert_eq!(nixos_signal(None, Some(a.clone())), None);
    assert_eq!(nixos_signal(Some(a), None), None);
}

#[test]
fn kernel_signal_needs_an_installed_list() {
    assert_eq!(kernel_signal("6.9.4-arch1-1", &[]), None);
    assert_eq!(kernel_signal("6.9.4-arch1-1", &["6.9.4-arch1-1".to_string()]), Some(false));
    assert_eq!(kernel_signal("6.9.4-arch1-1", &["6.10.1".to_string()]), Some(true));
}

#[test]
fn version_key_stops_at_the_first_non_numeric_part() {
    assert_eq!(version_key("6.9-rc1"), vec![6, 9]);
    assert_eq!(version_key("6.x.1"), vec![6]);
    assert_eq!(version_key("99999999999999999999.1"), Vec::<u64>::new());
    assert_eq!(version_key("abc"), Vec::<u64>::new());
    assert_eq!(version_key("10"), vec![10]);
}

#[test]
fn unknown_is_unavailable_and_evaluate_follows_the_verdict() {
    let check = RebootCheck::new(config());
    assert_eq!(check.name(), "reboot");
    let r = check.evaluate(Lang::En, None);
    assert_eq!(r.status_value.as_deref(), Some("Unavailable"));
    assert!(r.metrics.is_empty());
    let r = check.evaluate(Lang::En, Some(true));
    assert_eq!(r.worst_severity(), Severity::Attention);
    let r = check.evaluate(Lang::En, Some(false));
    assert_eq!(r.worst_severity(), Severity::Info);
}
