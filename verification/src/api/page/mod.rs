use vstd::prelude::*;
use vstd::string::*;

use crate::api::agent::{role_system, role_user, system_role, user_role};
use crate::cloudflare::models::text_generation::{messages_view, Message, MessageView};
use crate::text::{cat, decimal, decimal_text, texts};

pub mod request;
pub mod response;

use self::response::{GetPageResp, GetPagesResp, PageResp};

verus! {

/// The instruction that asks the model for a summary.
pub const SUMMARY_INSTRUCTION: &'static str = "You will summarize texts. You must reply only the summary. You can't add any other contexts.";

/// The text before the text to summarize.
pub const SUMMARY_PREFIX: &'static str = "\n            Please summarize the following text.\n            \"";

/// The text after the text to summarize.
pub const SUMMARY_SUFFIX: &'static str = "\"\n            summary:\n            ";

/// The listing of pages: one page per row, with its contents.
pub fn pages_response(rows: Vec<String>) -> (r: GetPagesResp)
    ensures
        r.pages@.len() == rows@.len(),
        forall|i: int| 0 <= i < rows@.len() ==> (#[trigger] r.pages@[i]).contents@ == rows@[i]@,
{
    let mut pages: Vec<PageResp> = Vec::new();
    let mut rows = rows;
    let ghost all = rows@;
    let mut taken: usize = 0;
    let n = rows.len();
    while taken < n
        invariant
            n == all.len(),
            taken <= n,
            rows@ == all.skip(taken as int),
            pages@.len() == taken,
            forall|i: int| 0 <= i < taken ==> (#[trigger] pages@[i]).contents@ == all[i]@,
        decreases n - taken,
    {
        let contents = rows.remove(0);
        assert(contents == all[taken as int]);
        assert(rows@ =~= all.skip(taken + 1));
        pages.push(PageResp { contents });
        taken = taken + 1;
    }
    GetPagesResp { pages }
}

/// The answer about one page: its contents, or nothing when there is no such
/// page.
pub fn page_response(row: Option<String>) -> (r: GetPageResp)
    ensures
        match row {
            Some(c) => r.page matches Some(p) && p.contents@ == c@,
            None => r.page is None,
        },
{
    match row {
        Some(contents) => GetPageResp { page: Some(PageResp { contents }) },
        None => GetPageResp { page: None },
    }
}

/// The name of the cover image of a page.
pub fn cover_file_name(id: &str) -> (name: String)
    ensures
        name@ == id@ + ".png"@,
{
    cat(id, ".png")
}

/// The address of a cover image, made unique by the time of its upload.
pub fn cover_image_url(s3_url: &str, file_name: &str, timestamp: i64) -> (url: String)
    ensures
        url@ == s3_url@ + "/"@ + file_name@ + "?t="@ + decimal(timestamp as int),
{
    let mut url = cat(s3_url, "/");
    url.append(file_name);
    url.append("?t=");
    let t = decimal_text(timestamp);
    url.append(t.as_str());
    url
}

/// The messages that ask the model to summarize a text: the instruction,
/// then the text quoted between the request and the answer's label.
pub fn summarize_messages(text: &str) -> (ms: Vec<Message>)
    ensures
        messages_view(ms@) == seq![
            MessageView { role: role_system(), content: SUMMARY_INSTRUCTION@ },
            MessageView { role: role_user(), content: SUMMARY_PREFIX@ + text@ + SUMMARY_SUFFIX@ },
        ],
{
    let mut content = cat(SUMMARY_PREFIX, text);
    content.append(SUMMARY_SUFFIX);
    let mut ms: Vec<Message> = Vec::new();
    ms.push(Message { role: system_role(), content: String::from_str(SUMMARY_INSTRUCTION) });
    ms.push(Message { role: user_role(), content });
    assert(messages_view(ms@) =~= seq![
        MessageView { role: role_system(), content: SUMMARY_INSTRUCTION@ },
        MessageView { role: role_user(), content: SUMMARY_PREFIX@ + text@ + SUMMARY_SUFFIX@ },
    ]);
    ms
}

} // verus!
