use session_bridge::language::{get_system_language, language_or_default, DEFAULT_LANGUAGE};

#[test]
fn unnamed_locale_falls_back_to_english() {
    assert_eq!(language_or_default(None), "en");
    assert_eq!(DEFAULT_LANGUAGE, "en");
}

#[test]
fn named_locale_is_kept() {
    assert_eq!(language_or_default(Some(String::from("fr-FR"))), "fr-FR");
    assert_eq!(language_or_default(Some(String::from("zh-Hans-CN"))), "zh-Hans-CN");
}

#[test]
fn system_language_answers() {
    let first = get_system_language();
    let second = get_system_language();
    assert_eq!(first, second);
}
