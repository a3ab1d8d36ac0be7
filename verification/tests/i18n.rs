use d1v_cli::i18n::{resolve_locale, Locale, LocaleResolver};

fn catalog() -> Vec<String> {
    vec!["en".to_string(), "zh-Hans".to_string()]
}

fn strings(v: &[&str]) -> Vec<String> {
    v.iter().map(|s| s.to_string()).collect()
}

#[test]
fn resolve_default() {
    let resolver = LocaleResolver::new(&catalog());
    assert_eq!(
        resolver.resolve(&vec![]),
        Locale { language: "en".to_string(), tag: "en".to_string() }
    );
}

#[test]
fn resolve_override() {
    let resolver = LocaleResolver::new(&catalog());
    assert_eq!(resolver.resolve(&strings(&["zh-Hans"])).language, "zh");
}

#[test]
fn resolve_priority() {
    let resolver = LocaleResolver::new(&catalog());
    assert_eq!(resolver.resolve(&strings(&["en", "zh-Hans"])).language, "en");
}

#[test]
fn resolve_by_language_and_skips_unparsable() {
    assert_eq!(resolve_locale(&strings(&["zh-CN"]), &catalog()).tag, "zh-Hans");
    assert_eq!(resolve_locale(&strings(&["en_US"]), &catalog()).tag, "en");
    assert_eq!(resolve_locale(&strings(&["!!", "fr", "ZH-hans"]), &catalog()).tag, "zh-Hans");
    assert_eq!(resolve_locale(&strings(&["fr"]), &catalog()).tag, "en");
    let r = LocaleResolver::new(&strings(&["en", "not a tag", "zh-Hans"]));
    assert_eq!(r.available.len(), 2);
}
