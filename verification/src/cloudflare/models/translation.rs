use vstd::prelude::*;

verus! {

/// Model that translates between languages.
pub const M2M100_1_2B: &'static str = "@cf/meta/m2m100-1.2b";

/// A request to translate a text.
pub struct TranslationRequest {
    pub text: String,
    pub source_lang: String,
    pub target_lang: String,
}

/// The body of a translation response.
pub struct TranslationResponse {
    pub result: TranslationResult,
}

/// A translated text.
pub struct TranslationResult {
    pub translated_text: String,
}

} // verus!
