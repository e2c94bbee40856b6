use mpe_plugin_mongo::i18n::pick;
use mpe_plugin_mongo::i18n::t;
use mpe_plugin_mongo::i18n::Locale;

/// Without a language, English.
#[test]
fn defaults_to_english() {
    assert_eq!(t("中文", "English", &Locale { name: None }), "English");
}

/// `zh-CN` is Chinese.
#[test]
fn zh_locale_selects_chinese() {
    assert_eq!(pick("中文", "English", Some("zh-CN")), "中文");
}

/// Any other language is English.
#[test]
fn non_matching_locale_falls_back_to_english() {
    assert_eq!(pick("中文", "English", Some("en-US")), "English");
    assert_eq!(pick("中文", "English", Some("fr-FR")), "English");
    assert_eq!(pick("中文", "English", None), "English");
}
