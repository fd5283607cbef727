use vstd::prelude::*;

verus! {

/// The body of a translation response.
pub struct TranslationResponse {
    pub result: TranslationResult,
    pub success: bool,
    pub errors: Vec<String>,
    pub messages: Vec<String>,
}

/// A translated text.
pub struct TranslationResult {
    pub translated_text: String,
}

/// The body of a text-generation response.
pub struct GenerateTextResponse {
    pub result: GenerateTextResult,
}

/// A generated text.
pub struct GenerateTextResult {
    pub response: String,
}

} // verus!
