//! The three display languages of the launcher and the choice of a text by
//! language.
use vstd::prelude::*;

verus! {

/// A display language.
#[derive(Debug, Clone, Copy, PartialEq, Eq, Structural)]
pub enum GuiLanguage {
    Korean,
    English,
    SimplifiedChinese,
}

impl Default for GuiLanguage {
    /// Korean, the language of settings saved before the choice existed.
    fn default() -> (res: GuiLanguage)
        ensures
            res == GuiLanguage::Korean,
    {
        GuiLanguage::Korean
    }
}

/// The text of a language among its three translations.
pub open spec fn tr_spec(
    language: GuiLanguage,
    korean: Seq<char>,
    english: Seq<char>,
    chinese: Seq<char>,
) -> Seq<char> {
    match language {
        GuiLanguage::Korean => korean,
        GuiLanguage::English => english,
        GuiLanguage::SimplifiedChinese => chinese,
    }
}

/// Picks the translation of a language.
pub fn tr(language: GuiLanguage, korean: &'static str, english: &'static str, chinese: &'static str) -> (res:
    &'static str)
    ensures
        res@ == tr_spec(language, korean@, english@, chinese@),
{
    match language {
        GuiLanguage::Korean => korean,
        GuiLanguage::English => english,
        GuiLanguage::SimplifiedChinese => chinese,
    }
}

/// Picks the translation of a language, as an owned string.
pub fn tr_owned(
    language: GuiLanguage,
    korean: &'static str,
    english: &'static str,
    chinese: &'static str,
) -> (res: String)
    ensures
        res@ == tr_spec(language, korean@, english@, chinese@),
{
    tr(language, korean, english, chinese).to_owned()
}

} // verus!
