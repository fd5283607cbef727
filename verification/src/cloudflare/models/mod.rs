use vstd::prelude::*;
use vstd::string::*;

use crate::text::{cat, chars_of, copy_text};

pub mod text_embeddings;
pub mod text_generation;
pub mod translation;

verus! {

/// Whether a character may stand in an HTTP header value: a visible
/// character, a space, a tab, or any character beyond ASCII.
pub open spec fn header_char(c: char) -> bool {
    (c as u32 >= 32 && c as u32 != 127) || c == '\t'
}

/// Whether every character of `s` may stand in an HTTP header value.
pub open spec fn header_text(s: Seq<char>) -> bool {
    forall|i: int| 0 <= i < s.len() ==> header_char(#[trigger] s[i])
}

/// Whether a string may stand in an HTTP header value.
pub fn is_header_text(s: &str) -> (ok: bool)
    ensures
        ok == header_text(s@),
{
    let v = chars_of(s);
    for i in 0..v.len()
        invariant
            v@ == s@,
            forall|j: int| 0 <= j < i ==> header_char(#[trigger] v@[j]),
    {
        let c = v[i];
        if !(((c as u32) >= 32 && (c as u32) != 127) || c == '\t') {
            assert(!header_char(v@[i as int]));
            return false;
        }
    }
    true
}

/// The endpoint of the models of one account, and the headers that every
/// request to it carries.
pub struct Models {
    base_url: String,
    headers: Vec<(String, String)>,
}

impl Models {
    /// The base URL of the model endpoint.
    pub closed spec fn base_url_view(&self) -> Seq<char> {
        self.base_url@
    }

    /// The number of default headers.
    pub closed spec fn header_count(&self) -> nat {
        self.headers@.len()
    }

    /// The name and value of the `i`-th default header.
    pub closed spec fn header_at(&self, i: int) -> (Seq<char>, Seq<char>) {
        (self.headers@[i].0@, self.headers@[i].1@)
    }

    /// The models of an account, authorized by a bearer token.
    /// The token must be usable in a header value.
    pub fn new(account_id: &str, token: &str) -> (m: Self)
        requires
            header_text(token@),
        ensures
            m.base_url_view() == "https://api.cloudflare.com/client/v4/accounts/"@ + account_id@
                + "/ai/run"@,
            m.header_count() == 2,
            m.header_at(0) == ("Accept"@, "*/*"@),
            m.header_at(1) == ("Authorization"@, "Bearer "@ + token@),
    {
        let prefix = cat("https://api.cloudflare.com/client/v4/accounts/", account_id);
        let base_url = cat(prefix.as_str(), "/ai/run");
        let mut headers: Vec<(String, String)> = Vec::new();
        headers.push((String::from_str("Accept"), String::from_str("*/*")));
        headers.push((String::from_str("Authorization"), cat("Bearer ", token)));
        Models { base_url, headers }
    }

    /// The base URL of the model endpoint.
    pub fn base_url(&self) -> (s: String)
        ensures
            s@ == self.base_url_view(),
    {
        copy_text(&self.base_url)
    }

    /// The default headers, as names and values.
    pub fn headers(&self) -> (hs: Vec<(String, String)>)
        ensures
            hs@.len() == self.header_count(),
            forall|i: int| 0 <= i < hs@.len() ==> (#[trigger] hs@[i].0@, hs@[i].1@) == self.header_at(i),
    {
        let mut hs: Vec<(String, String)> = Vec::new();
        for i in 0..self.headers.len()
            invariant
                hs@.len() == i,
                forall|j: int| 0 <= j < i ==> (#[trigger] hs@[j].0@, hs@[j].1@) == self.header_at(j),
        {
            hs.push((copy_text(&self.headers[i].0), copy_text(&self.headers[i].1)));
        }
        hs
    }

    /// The URL that runs `model`.
    pub fn model_url(&self, model: &str) -> (url: String)
        ensures
            url@ == self.base_url_view() + "/"@ + model@,
    {
        let with_slash = cat(self.base_url.as_str(), "/");
        cat(with_slash.as_str(), model)
    }
}

impl Clone for Models {
    fn clone(&self) -> (m: Self)
        ensures
            m.base_url_view() == self.base_url_view(),
            m.header_count() == self.header_count(),
            forall|i: int| 0 <= i < self.header_count() ==> m.header_at(i) == self.header_at(i),
    {
        Models { base_url: copy_text(&self.base_url), headers: self.headers() }
    }
}

/// Whether an HTTP status counts as success (200 to 299).
pub open spec fn success_status(status: u16) -> bool {
    200 <= status <= 299
}

/// Whether an HTTP status counts as success (200 to 299).
pub fn is_success(status: u16) -> (ok: bool)
    ensures
        ok == success_status(status),
{
    200 <= status && status <= 299
}

} // verus!
