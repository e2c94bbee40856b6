use mpe_plugin_mongo::double::is_finite;
use mpe_plugin_mongo::fields::Fields;
use mpe_plugin_mongo::i18n::message;
use mpe_plugin_mongo::i18n::message_naming;
use mpe_plugin_mongo::i18n::message_naming_cause;
use mpe_plugin_mongo::i18n::message_of;
use mpe_plugin_mongo::i18n::Locale;
use mpe_plugin_mongo::text::decimal_text;
use mpe_plugin_mongo::text::is_blank;
use mpe_plugin_mongo::text::replace;
use mpe_plugin_mongo::text::same;

#[test]
fn texts_are_compared() {
    assert!(same("", ""));
    assert!(same("连接", "连接"));
    assert!(!same("a", "ab"));
    assert!(!same("a", "b"));
}

#[test]
fn blank_texts() {
    for text in ["", " ", "\t\n\r ", "\u{a0}\u{3000}\u{2003}"] {
        assert!(is_blank(text));
        assert!(text.trim().is_empty());
    }
    for text in ["a", " a ", "\u{200b}"] {
        assert!(!is_blank(text));
        assert!(!text.trim().is_empty());
    }
}

#[test]
fn parts_are_replaced() {
    for (text, part, by) in [
        ("a{key}b{key}", "{key}", "x"),
        ("{key", "{key}", "x"),
        ("aaa", "aa", "b"),
        ("字段 {key} 值", "{key}", "{key}"),
        ("", "a", "b"),
    ] {
        assert_eq!(replace(text, part, by), text.replace(part, by));
    }
}

#[test]
fn numbers_in_decimal() {
    for n in [0, 9, 10, 100, 1234567890, u64::MAX] {
        assert_eq!(decimal_text(n), n.to_string());
    }
}

#[test]
fn finite_doubles() {
    for double in [0.0, -0.0, 1.5, f64::MAX, f64::MIN_POSITIVE, f64::NAN, f64::INFINITY] {
        assert_eq!(is_finite(double.to_bits()), double.is_finite());
        assert_eq!(is_finite((-double).to_bits()), double.is_finite());
    }
}

#[test]
fn messages() {
    let english = Locale { name: Some("en-US".to_string()) };
    let chinese = Locale { name: Some("zh-CN".to_string()) };
    assert_eq!(message("甲", "a", &english), "a");
    assert_eq!(message("甲", "a", &chinese), "甲");
    assert_eq!(message_of("甲", "a", "why", &english), "a: why");
    assert_eq!(message_naming("甲 {key}", "a {key}", "f", &chinese), "甲 f");
    assert_eq!(
        message_naming_cause("甲", "a {key}: {err}", "f", "why {key}", &english),
        "a f: why {key}"
    );
    assert_eq!(
        message_naming_cause("甲", "a {key}: {err}", "{err}", "why", &english),
        "a why: why"
    );
}

#[test]
fn fields_keep_their_order() {
    let mut fields: Fields<u8> = Fields::new();
    fields.insert("z".to_string(), 1);
    fields.insert("a".to_string(), 2);
    fields.insert("z".to_string(), 3);
    assert_eq!(fields.len(), 2);
    assert_eq!(fields.key_at(0), "z");
    assert_eq!(fields.value_at(0), &3);
    assert_eq!(fields.get("a"), Some(&2));
    assert_eq!(fields.get("b"), None);
    assert_eq!(fields.key_at(1), "a");
}
