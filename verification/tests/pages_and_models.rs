use api::api::block::{blocks_response, get_block_response, BlockRow};
use api::api::clients::cloudflare::Client;
use api::api::event::{event_response, events_response};
use api::api::page::{
    cover_file_name, cover_image_url, page_response, pages_response, summarize_messages,
};
use api::cloudflare::models::text_embeddings::StringOrArray;
use api::cloudflare::models::text_generation::{stream_payloads, LLAMA_3_8B_INSTRUCT};
use api::cloudflare::models::{is_header_text, is_success, Models};

fn v(xs: &[&str]) -> Vec<String> {
    xs.iter().map(|x| x.to_string()).collect()
}

#[test]
fn pages_keep_their_contents() {
    let r = pages_response(v(&["a", "b"]));
    let got: Vec<String> = r.pages.iter().map(|p| p.contents.clone()).collect();
    assert_eq!(got, v(&["a", "b"]));
    assert_eq!(page_response(Some("c".to_string())).page.unwrap().contents, "c");
    assert!(page_response(None).page.is_none());
}

#[test]
fn blocks_cite_their_pages() {
    let r = blocks_response(vec![BlockRow { notion_page_id: "p".to_string(), contents: "c".to_string() }]);
    assert_eq!(r.blocks[0].parent_id, "p");
    assert_eq!(r.blocks[0].contents, "c");
    assert!(get_block_response(None).block.is_none());
}

#[test]
fn events_keep_their_contents() {
    let r = events_response(v(&["e1"]));
    assert_eq!(r.events[0].contents, "e1");
    assert_eq!(event_response(Some("e".to_string())).event.unwrap().contents, "e");
    assert!(event_response(None).event.is_none());
}

#[test]
fn cover_image_addresses() {
    let name = cover_file_name("abc");
    assert_eq!(name, "abc.png");
    assert_eq!(cover_image_url("https://s3", &name, 1700000000), "https://s3/abc.png?t=1700000000");
    assert_eq!(cover_image_url("u", "f", 0), "u/f?t=0");
    assert_eq!(cover_image_url("u", "f", -42), "u/f?t=-42");
    assert_eq!(cover_image_url("u", "f", i64::MIN), "u/f?t=-9223372036854775808");
}

#[test]
fn summary_request_quotes_the_text() {
    let ms = summarize_messages("hello");
    assert_eq!(ms[0].role, "system");
    assert_eq!(
        ms[0].content,
        "You will summarize texts. You must reply only the summary. You can't add any other contexts."
    );
    assert_eq!(ms[1].role, "user");
    assert_eq!(
        ms[1].content,
        "\n            Please summarize the following text.\n            \"hello\"\n            summary:\n            "
    );
}

#[test]
fn models_address_and_headers() {
    let m = Models::new("acc", "tok");
    assert_eq!(m.base_url(), "https://api.cloudflare.com/client/v4/accounts/acc/ai/run");
    assert_eq!(
        m.model_url(LLAMA_3_8B_INSTRUCT),
        "https://api.cloudflare.com/client/v4/accounts/acc/ai/run/@cf/meta/llama-3-8b-instruct-awq"
    );
    assert_eq!(
        m.headers(),
        vec![
            ("Accept".to_string(), "*/*".to_string()),
            ("Authorization".to_string(), "Bearer tok".to_string())
        ]
    );
}

#[test]
fn client_address_and_headers() {
    let c = Client::new("tok".to_string(), "id".to_string(), "https://x".to_string());
    assert_eq!(c.url("ai/run/m"), "https://x/client/v4/accounts/id/ai/run/m");
    assert_eq!(c.headers()[1].1, "Bearer tok");
}

#[test]
fn header_text_and_status() {
    assert!(is_header_text("abc\tdef é"));
    assert!(!is_header_text("a\nb"));
    assert!(!is_header_text("a\u{7f}"));
    assert!(is_success(200));
    assert!(is_success(299));
    assert!(!is_success(300));
    assert!(!is_success(199));
}

#[test]
fn stream_chunks_split_on_data_markers() {
    assert_eq!(
        stream_payloads("data: {\"response\":\"a\"}\n\ndata: [DONE]"),
        v(&["", "{\"response\":\"a\"}\n\n", "[DONE]"])
    );
}

#[test]
fn embedding_text_from_str() {
    match StringOrArray::from_text("hi") {
        StringOrArray::String(s) => assert_eq!(s, "hi"),
        _ => panic!("expected one text"),
    }
}
