use vstd::prelude::*;

verus! {

/// A request to translate a text.
pub struct TranslationRequest {
    pub source_lang: String,
    pub target_lang: String,
    pub text: String,
}

/// A request to generate text from messages.
pub struct GenerateTextRequest {
    pub stream: bool,
    pub messages: Vec<GenerateTextMessage>,
}

/// One message of a text-generation request.
pub struct GenerateTextMessage {
    pub role: String,
    pub content: String,
}

/// A request to generate an image from a prompt.
pub struct GenerateImageRequest {
    pub prompt: String,
}

/// A request to generate an image from a text.
pub struct GenerateImageFromText {
    pub text: String,
}

/// A request to summarize a text in at most `max_length` tokens.
pub struct SummarizationRequest {
    pub input_text: String,
    pub max_length: u32,
}

} // verus!
