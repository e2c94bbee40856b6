//! The language of what the plugin says.
//!
//! The host gives the language in the environment when it starts the process, and it stays the
//! same for the life of the process: Chinese for `zh-CN`, English for anything else.
use vstd::prelude::*;

use crate::text::replace;
use crate::text::replaced;
use crate::text::same;

verus! {

/// The language that the host gave, if it gave one.
#[derive(Debug, PartialEq)]
pub struct Locale {
    pub name: Option<String>,
}

/// The locale that selects Chinese.
pub open spec fn is_chinese(name: Seq<char>) -> bool {
    name == "zh-CN"@
}

impl Locale {
    /// Whether the plugin speaks Chinese.
    pub open spec fn chinese(&self) -> bool {
        match self.name {
            Some(name) => is_chinese(name@),
            None => false,
        }
    }
}

/// One of two texts: the first in Chinese, else the second.
pub open spec fn said(zh: Seq<char>, en: Seq<char>, chinese: bool) -> Seq<char> {
    if chinese {
        zh
    } else {
        en
    }
}

/// Picks `zh` when `locale` is `zh-CN`, else `en`.
pub fn pick(zh: &'static str, en: &'static str, locale: Option<&str>) -> (r: &'static str)
    ensures
        r == match locale {
            Some(name) => if is_chinese(name@) {
                zh
            } else {
                en
            },
            None => en,
        },
{
    match locale {
        Some(name) => if same(name, "zh-CN") {
            zh
        } else {
            en
        },
        None => en,
    }
}

/// The Chinese or the English text, by the language that the host gave.
pub fn t(zh: &'static str, en: &'static str, locale: &Locale) -> (r: &'static str)
    ensures
        r == if locale.chinese() {
            zh
        } else {
            en
        },
{
    match &locale.name {
        Some(name) => pick(zh, en, Some(name.as_str())),
        None => pick(zh, en, None),
    }
}

/// A message in the language that the host gave.
pub fn message(zh: &'static str, en: &'static str, locale: &Locale) -> (r: String)
    ensures
        r@ == said(zh@, en@, locale.chinese()),
{
    t(zh, en, locale).to_owned()
}

/// A message and its cause.
pub open spec fn caused(message: Seq<char>, cause: Seq<char>) -> Seq<char> {
    message + ": "@ + cause
}

/// A message in the language that the host gave, and its cause.
pub fn message_of(zh: &'static str, en: &'static str, cause: &str, locale: &Locale) -> (r: String)
    ensures
        r@ == caused(said(zh@, en@, locale.chinese()), cause@),
{
    let mut r: String = message(zh, en, locale);
    r.append(": ");
    r.append(cause);
    r
}

/// A message with the name of a field set in for `{key}`.
pub open spec fn naming(template: Seq<char>, key: Seq<char>) -> Seq<char> {
    replaced(template, "{key}"@, key)
}

/// A message with the name of a field set in for `{key}`, and after that a cause for `{err}`.
pub open spec fn naming_cause(template: Seq<char>, key: Seq<char>, cause: Seq<char>) -> Seq<char> {
    replaced(naming(template, key), "{err}"@, cause)
}

/// A message that names a field.
pub fn message_naming(zh: &'static str, en: &'static str, key: &str, locale: &Locale) -> (r: String)
    ensures
        r@ == naming(said(zh@, en@, locale.chinese()), key@),
{
    replace(t(zh, en, locale), "{key}", key)
}

/// A message that names a field and gives a cause.
pub fn message_naming_cause(
    zh: &'static str,
    en: &'static str,
    key: &str,
    cause: &str,
    locale: &Locale,
) -> (r: String)
    ensures
        r@ == naming_cause(said(zh@, en@, locale.chinese()), key@, cause@),
{
    let named: String = message_naming(zh, en, key, locale);
    replace(named.as_str(), "{err}", cause)
}

} // verus!
