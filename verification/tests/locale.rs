use sftpman_ui::detect_locale_by_lang_value;

#[test]
fn test_detect_locale() {
    assert_eq!(detect_locale_by_lang_value("en"), "en");
    assert_eq!(detect_locale_by_lang_value(""), "en");
    assert_eq!(detect_locale_by_lang_value("en_US.UTF-8"), "en-US");

    assert_eq!(detect_locale_by_lang_value("bg"), "bg");
    assert_eq!(detect_locale_by_lang_value("bg_BG.UTF-8"), "bg-BG");
}

#[test]
fn detect_locale_without_encoding_suffix() {
    assert_eq!(detect_locale_by_lang_value("de_DE"), "de-DE");
    assert_eq!(detect_locale_by_lang_value("C"), "C");
}

#[test]
fn detect_locale_with_leading_dot() {
    assert_eq!(detect_locale_by_lang_value(".UTF-8"), "");
}
