//! Translation of UI strings. English is the source-of-truth key; the other
//! languages look their string up in their locale file.
use crate::text::{chars_of, seq_eq};
use vstd::prelude::*;

verus! {

/// The UI language.
#[derive(Debug, Clone, Copy, PartialEq, Eq, Default, Structural)]
pub enum UiLanguage {
    #[default]
    English,
    Japanese,
    Korean,
}

pub open spec fn locale_spec(lang: UiLanguage) -> Seq<char> {
    match lang {
        UiLanguage::English => "en_US"@,
        UiLanguage::Japanese => "ja_JP"@,
        UiLanguage::Korean => "ko_KR"@,
    }
}

impl UiLanguage {
    /// The locale file name of the language.
    pub fn locale(self) -> (r: &'static str)
        ensures
            r@ == locale_spec(self),
    {
        match self {
            UiLanguage::English => "en_US",
            UiLanguage::Japanese => "ja_JP",
            UiLanguage::Korean => "ko_KR",
        }
    }
}

/// The entries of one locale file: English text → translation.
#[derive(Debug, Clone)]
pub struct LangFile {
    pub entries: Vec<(String, String)>,
}

/// The loaded locale files, by locale name.
#[derive(Debug, Clone)]
pub struct LangCatalog {
    pub locales: Vec<(String, LangFile)>,
}

/// The translation of `key` among `entries` (the first entry for it).
pub open spec fn entry_lookup(entries: Seq<(String, String)>, key: Seq<char>) -> Option<Seq<char>>
    decreases entries.len(),
{
    if entries.len() == 0 {
        None
    } else if entries[0].0@ == key {
        Some(entries[0].1@)
    } else {
        entry_lookup(entries.drop_first(), key)
    }
}

/// The locale file named `locale` (the first one with that name).
pub open spec fn locale_lookup(locales: Seq<(String, LangFile)>, locale: Seq<char>) -> Option<LangFile>
    decreases locales.len(),
{
    if locales.len() == 0 {
        None
    } else if locales[0].0@ == locale {
        Some(locales[0].1)
    } else {
        locale_lookup(locales.drop_first(), locale)
    }
}

/// The text shown for the English string `en`: itself in English; otherwise
/// its translation in the language's locale file, or itself when there is
/// none.
pub open spec fn translate(catalog: LangCatalog, lang: UiLanguage, en: Seq<char>) -> Seq<char> {
    if lang == UiLanguage::English {
        en
    } else {
        match locale_lookup(catalog.locales@, locale_spec(lang)) {
            Some(file) => match entry_lookup(file.entries@, en) {
                Some(tr) => tr,
                None => en,
            },
            None => en,
        }
    }
}

fn find_locale<'a>(catalog: &'a LangCatalog, locale: &str) -> (r: Option<&'a LangFile>)
    ensures
        r matches Some(f) ==> locale_lookup(catalog.locales@, locale@) == Some(*f),
        r is None ==> locale_lookup(catalog.locales@, locale@) is None,
{
    let lv = chars_of(locale);
    let mut i: usize = 0;
    assert(catalog.locales@.skip(0) =~= catalog.locales@);
    while i < catalog.locales.len()
        invariant
            i <= catalog.locales@.len(),
            lv@ == locale@,
            locale_lookup(catalog.locales@, locale@) == locale_lookup(
                catalog.locales@.skip(i as int),
                locale@,
            ),
        decreases catalog.locales@.len() - i,
    {
        assert(catalog.locales@.skip(i as int)[0] == catalog.locales@[i as int]);
        assert(catalog.locales@.skip(i as int).drop_first() =~= catalog.locales@.skip(i + 1));
        let nv = chars_of(catalog.locales[i].0.as_str());
        if seq_eq(nv.as_slice(), lv.as_slice()) {
            return Some(&catalog.locales[i].1);
        }
        i = i + 1;
    }
    None
}

fn find_entry<'a>(file: &'a LangFile, key: &str) -> (r: Option<&'a str>)
    ensures
        r matches Some(t) ==> entry_lookup(file.entries@, key@) == Some(t@),
        r is None ==> entry_lookup(file.entries@, key@) is None,
{
    let kv = chars_of(key);
    let mut i: usize = 0;
    assert(file.entries@.skip(0) =~= file.entries@);
    while i < file.entries.len()
        invariant
            i <= file.entries@.len(),
            kv@ == key@,
            entry_lookup(file.entries@, key@) == entry_lookup(file.entries@.skip(i as int), key@),
        decreases file.entries@.len() - i,
    {
        assert(file.entries@.skip(i as int)[0] == file.entries@[i as int]);
        assert(file.entries@.skip(i as int).drop_first() =~= file.entries@.skip(i + 1));
        let ev = chars_of(file.entries[i].0.as_str());
        if seq_eq(ev.as_slice(), kv.as_slice()) {
            return Some(file.entries[i].1.as_str());
        }
        i = i + 1;
    }
    None
}

/// Translate a UI string based on the current language.
pub fn t<'a>(lang: UiLanguage, en: &'a str, catalog: &'a LangCatalog) -> (r: &'a str)
    ensures
        r@ == translate(*catalog, lang, en@),
{
    if lang == UiLanguage::English {
        return en;
    }
    match find_locale(catalog, lang.locale()) {
        Some(file) => match find_entry(file, en) {
            Some(tr) => tr,
            None => en,
        },
        None => en,
    }
}


/// English text is shown as written, and a string without a translation in
/// the chosen language (no catalog for the language, or no entry for the
/// string) falls back to the English text.
pub proof fn lemma_translation_falls_back(catalog: LangCatalog, lang: UiLanguage, en: Seq<char>)
    ensures
        lang == UiLanguage::English ==> translate(catalog, lang, en) == en,
        locale_lookup(catalog.locales@, locale_spec(lang)) is None ==> translate(catalog, lang, en) == en,
        (locale_lookup(catalog.locales@, locale_spec(lang)) matches Some(f) && entry_lookup(f.entries@, en)
            is None) ==> translate(catalog, lang, en) == en,
{
}

} // verus!
