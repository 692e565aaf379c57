//! Wrapping plain text as feed alert text.

use vstd::prelude::*;

use crate::feed::{TranslatedString, TranslatedStringV, Translation, TranslationV};

verus! {

/// The translated string holding just this text, with no language tag.
pub open spec fn translation_of(text: Seq<char>) -> TranslatedStringV {
    TranslatedStringV { translation: seq![TranslationV { text, language: None }] }
}

/// Texts that can stand as a feed alert text.
pub trait Translate {
    fn into_translation(self) -> (r: TranslatedString);
}

impl Translate for String {
    fn into_translation(self) -> (r: TranslatedString)
        ensures
            r@ == translation_of(self@),
    {
        let mut translation: Vec<Translation> = Vec::new();
        translation.push(Translation { text: self, language: None });
        let r = TranslatedString { translation };
        proof {
            assert(r@.translation =~= translation_of(r.translation@[0].text@).translation);
        }
        r
    }
}

} // verus!
