//! User-facing messages in English and Chinese.
use vstd::prelude::*;
use crate::text::{ascii_lower, starts_with_ci};

pub mod api;
pub mod auth;
pub mod echo;
pub mod limits;
pub mod port;
pub mod tunnel;

verus! {

/// The languages of the messages.
#[derive(Clone, Copy, Debug, Eq, PartialEq, Structural)]
pub enum Lang {
    Zh,
    En,
}

/// The message of a language: `zh` for Chinese, `en` otherwise.
pub open spec fn pick(lang: Lang, en: Seq<char>, zh: Seq<char>) -> Seq<char> {
    if lang == Lang::Zh {
        zh
    } else {
        en
    }
}

/// A value starts with `a` then `b`, in any ASCII case.
pub open spec fn starts_ci(v: Seq<char>, a: char, b: char) -> bool {
    v.len() >= 2 && ascii_lower(v[0]) == a && ascii_lower(v[1]) == b
}

/// The language that `DEVBRIDGE_LANG` selects: Chinese when it starts with
/// `zh`, English otherwise or when unset.
pub open spec fn current_lang_spec(devbridge_lang: Option<Seq<char>>) -> Lang {
    match devbridge_lang {
        Some(v) if starts_ci(v, 'z', 'h') => Lang::Zh,
        _ => Lang::En,
    }
}

/// One locale variable decides when it starts with `zh` or `en`; otherwise
/// the next one is asked.
pub open spec fn locale_step(value: Option<Seq<char>>, rest: Lang) -> Lang {
    match value {
        Some(v) if starts_ci(v, 'z', 'h') => Lang::Zh,
        Some(v) if starts_ci(v, 'e', 'n') => Lang::En,
        _ => rest,
    }
}

/// The system language from `LC_ALL`, `LC_MESSAGES` and `LANG`, in that
/// order; English when none decides.
pub open spec fn system_lang_spec(
    lc_all: Option<Seq<char>>,
    lc_messages: Option<Seq<char>>,
    lang: Option<Seq<char>>,
) -> Lang {
    locale_step(lc_all, locale_step(lc_messages, locale_step(lang, Lang::En)))
}

/// Law: the locale variables are asked in order: an `LC_ALL` that starts
/// with `zh` or `en` (any ASCII case) decides whatever the others hold, and
/// one that does not is passed over as if unset; the same holds of
/// `LC_MESSAGES` before `LANG`; with none deciding the language is English.
pub proof fn lemma_locale_priority(
    lc_all: Option<Seq<char>>,
    lc_messages: Option<Seq<char>>,
    lang: Option<Seq<char>>,
)
    ensures
        (lc_all is Some && starts_ci(lc_all.unwrap(), 'z', 'h')) ==> system_lang_spec(
            lc_all,
            lc_messages,
            lang,
        ) == Lang::Zh,
        (lc_all is Some && starts_ci(lc_all.unwrap(), 'e', 'n')) ==> system_lang_spec(
            lc_all,
            lc_messages,
            lang,
        ) == Lang::En,
        (lc_all is None || !(starts_ci(lc_all.unwrap(), 'z', 'h') || starts_ci(
            lc_all.unwrap(),
            'e',
            'n',
        ))) ==> system_lang_spec(lc_all, lc_messages, lang) == system_lang_spec(
            None,
            lc_messages,
            lang,
        ),
        (lc_messages is Some && starts_ci(lc_messages.unwrap(), 'z', 'h')) ==> system_lang_spec(
            None,
            lc_messages,
            lang,
        ) == Lang::Zh,
        (lc_messages is Some && starts_ci(lc_messages.unwrap(), 'e', 'n')) ==> system_lang_spec(
            None,
            lc_messages,
            lang,
        ) == Lang::En,
        (lc_messages is None || !(starts_ci(lc_messages.unwrap(), 'z', 'h') || starts_ci(
            lc_messages.unwrap(),
            'e',
            'n',
        ))) ==> system_lang_spec(None, lc_messages, lang) == system_lang_spec(None, None, lang),
        system_lang_spec(None, None, lang) == (if lang is Some && starts_ci(lang.unwrap(), 'z', 'h') {
            Lang::Zh
        } else {
            Lang::En
        }),
{
}

/// Law: `DEVBRIDGE_LANG` selects Chinese exactly when it starts with `zh`
/// in any ASCII case; unset, it selects English.
pub proof fn lemma_current_lang(v: Seq<char>)
    ensures
        current_lang_spec(Some(v)) == Lang::Zh <==> (v.len() >= 2 && ascii_lower(v[0]) == 'z'
            && ascii_lower(v[1]) == 'h'),
        current_lang_spec(None) == Lang::En,
{
}

/// The spec view of an optional string slice.
pub open spec fn opt_view(s: Option<&str>) -> Option<Seq<char>> {
    match s {
        Some(v) => Some(v@),
        None => None,
    }
}

/// The message language for a `DEVBRIDGE_LANG` value.
pub fn current_lang(devbridge_lang: Option<&str>) -> (r: Lang)
    ensures
        r == current_lang_spec(opt_view(devbridge_lang)),
{
    match devbridge_lang {
        Some(v) => {
            if starts_with_ci(v, 'z', 'h') {
                Lang::Zh
            } else {
                Lang::En
            }
        },
        None => Lang::En,
    }
}

fn locale_decides(value: Option<&str>) -> (r: Option<Lang>)
    ensures
        match r {
            Some(l) => locale_step(opt_view(value), Lang::En) == l && locale_step(
                opt_view(value),
                Lang::Zh,
            ) == l,
            None => forall|rest: Lang| locale_step(opt_view(value), rest) == rest,
        },
{
    match value {
        Some(v) => {
            if starts_with_ci(v, 'z', 'h') {
                Some(Lang::Zh)
            } else if starts_with_ci(v, 'e', 'n') {
                Some(Lang::En)
            } else {
                None
            }
        },
        None => None,
    }
}

/// The system language from the values of `LC_ALL`, `LC_MESSAGES` and
/// `LANG`.
pub fn system_lang(lc_all: Option<&str>, lc_messages: Option<&str>, lang: Option<&str>) -> (r: Lang)
    ensures
        r == system_lang_spec(opt_view(lc_all), opt_view(lc_messages), opt_view(lang)),
{
    if let Some(l) = locale_decides(lc_all) {
        return l;
    }
    if let Some(l) = locale_decides(lc_messages) {
        return l;
    }
    if let Some(l) = locale_decides(lang) {
        return l;
    }
    Lang::En
}

/// The Chinese text in Chinese, the English text otherwise.
pub fn t(lang: Lang, en: &'static str, zh: &'static str) -> (r: &'static str)
    ensures
        r == (if lang == Lang::Zh {
            zh
        } else {
            en
        }),
{
    if lang == Lang::Zh {
        zh
    } else {
        en
    }
}

/// `DevBridge remote tunnel port forwarding tool`
pub fn version_info(lang: Lang) -> (r: &'static str)
    ensures
        r@ == pick(lang, "DevBridge remote tunnel port forwarding tool"@, "DevBridge 远程隧道端口转发工具"@),
{
    t(lang, "DevBridge remote tunnel port forwarding tool", "DevBridge 远程隧道端口转发工具")
}

/// `days`
pub fn days(lang: Lang) -> (r: &'static str)
    ensures
        r@ == pick(lang, "days"@, "天"@),
{
    t(lang, "days", "天")
}

/// `hours`
pub fn hours(lang: Lang) -> (r: &'static str)
    ensures
        r@ == pick(lang, "hours"@, "小时"@),
{
    t(lang, "hours", "小时")
}

/// `expired`
pub fn expired(lang: Lang) -> (r: &'static str)
    ensures
        r@ == pick(lang, "expired"@, "已过期"@),
{
    t(lang, "expired", "已过期")
}

} // verus!
