use josephine::i18n::{t, Lang};

#[test]
fn defaults_to_english() {
    let lang = Lang::default();
    assert_eq!(lang, Lang::En);
    assert_eq!(t(lang, "hello", "bonjour"), "hello");
}

#[test]
fn french_picks_the_second_string() {
    assert_eq!(t(Lang::Fr, "hello", "bonjour"), "bonjour");
}
