//! The texts of the About window.
use vstd::prelude::*;

use crate::settings::UiLanguage;
use crate::text::{chars_of, push_char};

verus! {

/// The version of the viewer.
pub const APP_VERSION: &'static str = "0.2.0";

pub open spec fn about_title_text(language: UiLanguage) -> Seq<char> {
    match language {
        UiLanguage::English => "About j3Pic"@,
        UiLanguage::Korean => "j3Pic 정보"@,
    }
}

pub fn about_title(language: UiLanguage) -> (title: &'static str)
    ensures
        title@ == about_title_text(language),
{
    match language {
        UiLanguage::English => "About j3Pic",
        UiLanguage::Korean => "j3Pic 정보",
    }
}

pub open spec fn licenses_label_text(language: UiLanguage) -> Seq<char> {
    match language {
        UiLanguage::English => "Licenses"@,
        UiLanguage::Korean => "라이선스"@,
    }
}

pub fn licenses_label(language: UiLanguage) -> (label: &'static str)
    ensures
        label@ == licenses_label_text(language),
{
    match language {
        UiLanguage::English => "Licenses",
        UiLanguage::Korean => "라이선스",
    }
}

pub open spec fn source_code_label_text(language: UiLanguage) -> Seq<char> {
    match language {
        UiLanguage::English => "Source code:"@,
        UiLanguage::Korean => "소스 코드:"@,
    }
}

pub fn source_code_label(language: UiLanguage) -> (label: &'static str)
    ensures
        label@ == source_code_label_text(language),
{
    match language {
        UiLanguage::English => "Source code:",
        UiLanguage::Korean => "소스 코드:",
    }
}

/// The viewer's name and version.
pub fn version_label() -> (label: String)
    ensures
        label@ == "j3Pic "@ + APP_VERSION@,
{
    let mut label = "j3Pic ".to_owned();
    label.append(APP_VERSION);
    label
}

/// What the character at `i` of `text` becomes with Unix line endings: a
/// carriage return before a line feed is dropped, any other carriage return
/// becomes a line feed, and every other character stays.
pub open spec fn lf_char(text: Seq<char>, i: int) -> Seq<char> {
    if text[i] == '\r' {
        if i + 1 < text.len() && text[i + 1] == '\n' {
            Seq::empty()
        } else {
            seq!['\n']
        }
    } else {
        seq![text[i]]
    }
}

/// The first `k` characters of `text` with Unix line endings.
pub open spec fn lf_prefix(text: Seq<char>, k: int) -> Seq<char>
    decreases k,
{
    if k <= 0 {
        Seq::empty()
    } else {
        lf_prefix(text, k - 1) + lf_char(text, k - 1)
    }
}

/// `text` with Unix line endings.
pub open spec fn lf_text(text: Seq<char>) -> Seq<char> {
    lf_prefix(text, text.len() as int)
}

/// `text` with `\r\n` and lone `\r` line endings turned into `\n`.
pub fn normalize_line_endings(text: &str) -> (normalized: String)
    ensures
        normalized@ == lf_text(text@),
{
    let chars = chars_of(text);
    let mut normalized = String::new();
    let mut i: usize = 0;
    while i < chars.len()
        invariant
            chars@ == text@,
            i <= chars@.len(),
            normalized@ == lf_prefix(text@, i as int),
        decreases chars@.len() - i,
    {
        let c = chars[i];
        if c == '\r' {
            if i + 1 < chars.len() && chars[i + 1] == '\n' {
                assert(lf_char(text@, i as int) == Seq::<char>::empty());
                assert(normalized@ + Seq::<char>::empty() == normalized@);
            } else {
                push_char(&mut normalized, '\n');
            }
        } else {
            push_char(&mut normalized, c);
        }
        i = i + 1;
    }
    normalized
}

} // verus!
