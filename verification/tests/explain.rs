use josephine::explain::{detail_lines, list_lines, run, unknown_lines};
use josephine::i18n::Lang;
use josephine::remedy::{advice, all};

#[test]
fn the_list_has_one_line_per_check() {
    let lines = list_lines(Lang::En);
    assert_eq!(lines.len(), all().len() + 2);
    assert!(lines[0].starts_with("What Joséphine watches"));
    assert_eq!(lines[1], "");
    assert_eq!(
        lines[2],
        format!("  CPU (cpu) — {}", advice("cpu").unwrap().what.0)
    );
    assert_eq!(run(Lang::En, None), lines);
}

#[test]
fn the_detail_names_what_why_and_remedy() {
    let cpu = advice("cpu").unwrap();
    let lines = detail_lines(Lang::Fr, &cpu);
    assert_eq!(lines.len(), 5);
    assert_eq!(lines[0], "CPU (cpu)");
    assert_eq!(lines[1], "");
    assert_eq!(lines[2], format!("Quoi : {}", cpu.what.1));
    assert_eq!(lines[3], format!("Pourquoi : {}", cpu.why.1));
    assert_eq!(lines[4], format!("Remède : {}", cpu.remedy.1));
    assert_eq!(run(Lang::Fr, Some("cpu")), lines);
}

#[test]
fn an_unknown_check_lists_the_known_ones() {
    let lines = unknown_lines(Lang::En, "nope");
    assert_eq!(lines[0], "Unknown check \"nope\". Known checks:");
    assert_eq!(lines.len(), all().len() + 1);
    assert_eq!(lines[1], "  cpu");
    assert_eq!(run(Lang::En, Some("nope")), lines);
    assert_eq!(unknown_lines(Lang::Fr, "x")[0], "Check inconnu « x ». Checks connus :");
}

#[test]
fn every_listed_check_is_explained() {
    for entry in all() {
        let lines = run(Lang::En, Some(entry.name));
        assert_eq!(lines.len(), 5, "{}", entry.name);
        assert!(lines[0].ends_with(&format!("({})", entry.name)));
    }
}
