//! The two languages Joséphine speaks, and the choice between an English and
//! a French string.
//!
//! English is the default; French is opt-in. The active language is handed to
//! each rendering function by its caller.

use vstd::prelude::*;

verus! {

/// The languages Joséphine can speak.
#[derive(Debug, Clone, Copy, PartialEq, Eq, Structural)]
pub enum Lang {
    En,
    Fr,
}

impl Default for Lang {
    /// English, the default language.
    fn default() -> (r: Lang)
        ensures
            r == Lang::En,
    {
        Lang::En
    }
}

/// `en` or `fr`, whichever `lang` speaks.
pub open spec fn tr(lang: Lang, en: Seq<char>, fr: Seq<char>) -> Seq<char> {
    match lang {
        Lang::En => en,
        Lang::Fr => fr,
    }
}

/// Choose between an English and a French string literal for `lang`.
pub fn t(lang: Lang, en: &'static str, fr: &'static str) -> (r: &'static str)
    ensures
        r == (match lang {
            Lang::En => en,
            Lang::Fr => fr,
        }),
        r@ == tr(lang, en@, fr@),
{
    match lang {
        Lang::En => en,
        Lang::Fr => fr,
    }
}

} // verus!
