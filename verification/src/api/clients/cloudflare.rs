use vstd::prelude::*;
use vstd::string::*;

use crate::cloudflare::models::header_text;
use crate::text::{cat, copy_text};

verus! {

/// A client of the Cloudflare account API: where it is, which account, and
/// the headers every request carries.
pub struct Client {
    base_url: String,
    id: String,
    headers: Vec<(String, String)>,
}

impl Client {
    /// The base URL of the API.
    pub closed spec fn base_url_view(&self) -> Seq<char> {
        self.base_url@
    }

    /// The account id.
    pub closed spec fn id_view(&self) -> Seq<char> {
        self.id@
    }

    /// The number of default headers.
    pub closed spec fn header_count(&self) -> nat {
        self.headers@.len()
    }

    /// The name and value of the `i`-th default header.
    pub closed spec fn header_at(&self, i: int) -> (Seq<char>, Seq<char>) {
        (self.headers@[i].0@, self.headers@[i].1@)
    }

    /// A client of an account, authorized by a bearer token that must be
    /// usable in a header value.
    pub fn new(token: String, id: String, base_url: String) -> (c: Self)
        requires
            header_text(token@),
        ensures
            c.base_url_view() == base_url@,
            c.id_view() == id@,
            c.header_count() == 2,
            c.header_at(0) == ("Accept"@, "*/*"@),
            c.header_at(1) == ("Authorization"@, "Bearer "@ + token@),
    {
        let mut headers: Vec<(String, String)> = Vec::new();
        headers.push((String::from_str("Accept"), String::from_str("*/*")));
        headers.push((String::from_str("Authorization"), cat("Bearer ", token.as_str())));
        Client { base_url, id, headers }
    }

    /// The address of a path of the account.
    pub fn url(&self, path: &str) -> (u: String)
        ensures
            u@ == self.base_url_view() + "/client/v4/accounts/"@ + self.id_view() + "/"@ + path@,
    {
        let mut u = cat(self.base_url.as_str(), "/client/v4/accounts/");
        u.append(self.id.as_str());
        u.append("/");
        u.append(path);
        u
    }

    /// The default headers, as names and values.
    pub fn headers(&self) -> (hs: Vec<(String, String)>)
        ensures
            hs@.len() == self.header_count(),
            forall|i: int| 0 <= i < hs@.len() ==> (#[trigger] hs@[i].0@, hs@[i].1@) == self.header_at(i),
    {
        let mut hs: Vec<(String, String)> = Vec::new();
        for i in 0..self.headers.len()
            invariant
                hs@.len() == i,
                forall|j: int| 0 <= j < i ==> (#[trigger] hs@[j].0@, hs@[j].1@) == self.header_at(j),
        {
            hs.push((copy_text(&self.headers[i].0), copy_text(&self.headers[i].1)));
        }
        hs
    }
}

/// A request to translate a text.
pub struct TranslationRequest {
    pub source_lang: String,
    pub target_lang: String,
    pub text: String,
}

/// A request to generate text from messages.
pub struct GenerateTextRequest {
    pub stream: bool,
    pub messages: Vec<GenerateTextMessage>,
}

/// One message of a text-generation request.
pub struct GenerateTextMessage {
    pub role: String,
    pub content: String,
}

/// A request to generate an image from a prompt.
pub struct GenerateImageRequest {
    pub prompt: String,
}

/// A request to generate an image from a text.
pub struct GenerateImageFromText {
    pub text: String,
}

/// A request to summarize a text in at most `max_length` tokens.
pub struct SummarizationRequest {
    pub input_text: String,
    pub max_length: u32,
}

/// The body of a translation response.
pub struct TranslationResponse {
    pub result: TranslationResult,
    pub success: bool,
    pub errors: Vec<String>,
    pub messages: Vec<String>,
}

/// A translated text.
pub struct TranslationResult {
    pub translated_text: String,
}

/// The body of a text-generation response.
pub struct GenerateTextResponse {
    pub result: GenerateTextResult,
}

/// A generated text.
pub struct GenerateTextResult {
    pub response: String,
}

} // verus!
