use api::api::search::calls::{
    blocks_text, is_observable, observations, observations_checked, observe, pieces_text,
    RpcOutcome, StoredBlock, StoredPage,
};
use api::api::search::observation::available_tools;
use api::cloudflare::models::text_embeddings::StringOrArray;
use api::cloudflare::models::text_generation::{PropertyType, ToolCall};

fn s(x: &str) -> String {
    x.to_string()
}

fn call(name: &str, args: &[(&str, Option<&str>)]) -> ToolCall {
    ToolCall {
        name: s(name),
        arguments: Some(args.iter().map(|(k, v)| (s(k), v.map(s))).collect()),
    }
}

const PAGE: &str = r#"{
  "id": "p1",
  "created_time": "2024-01-01T00:00:00Z",
  "created_by": {"object": "user", "id": "u"},
  "last_edited_time": "2024-01-02T00:00:00Z",
  "last_edited_by": {"object": "user", "id": "u"},
  "in_trash": false,
  "properties": {
    "summary": {"type": "rich_text", "id": "s", "rich_text": [
      {"type": "text", "text": {"content": "Rust ", "link": null}, "plain_text": "Rust "},
      {"type": "text", "text": {"content": "tips", "link": null}, "plain_text": "tips"}
    ]}
  },
  "parent": {"type": "database_id", "database_id": "d"},
  "url": "https://example.com/p1"
}"#;

const BLOCKS: &str = r#"[
  {"type": "paragraph", "paragraph": {"rich_text": [
    {"type": "text", "text": {"content": "one", "link": null}, "plain_text": "one"}
  ]}},
  {"type": "divider", "divider": {}},
  {"type": "paragraph", "paragraph": {"rich_text": [
    {"type": "text", "text": {"content": "two", "link": null}, "plain_text": "two"}
  ]}}
]"#;

#[test]
fn summary_found_reads_the_summary_property() {
    let c = call("get_article_summary", &[("query", Some("rust"))]);
    let page = StoredPage { page_id: s("p1"), title: s("Rust"), contents: s(PAGE) };
    let (o, id) = observe(&c, &RpcOutcome::Summary(Some(page)));
    assert_eq!(
        o.unwrap(),
        "## Article summary search results with \"rust\"\n### title\nRust\n### summary\nRust tips"
    );
    assert_eq!(id, Some(s("p1")));
}

#[test]
fn summary_not_found_and_unreadable_page() {
    let c = call("get_article_summary", &[("query", Some("go"))]);
    let (o, id) = observe(&c, &RpcOutcome::Summary(None));
    assert_eq!(o.unwrap(), "## Article summary search results with \"go\"\nNot found");
    assert_eq!(id, None);
    let page = StoredPage { page_id: s("p1"), title: s("Go"), contents: s("not json") };
    assert_eq!(observe(&c, &RpcOutcome::Summary(Some(page))), (None, None));
}

#[test]
fn detail_reads_the_blocks_plain_texts() {
    let c = call("get_article_detail", &[("query", Some("rust"))]);
    let block = StoredBlock { page_id: s("p2"), contents: s(BLOCKS) };
    let (o, id) = observe(&c, &RpcOutcome::Detail(Some(block)));
    assert_eq!(o.unwrap(), "## Article detail search results with \"rust\"\n### full texts\nonetwo");
    assert_eq!(id, Some(s("p2")));
    let (o, id) = observe(&c, &RpcOutcome::Detail(None));
    assert_eq!(o.unwrap(), "## Article detail search results with \"rust\"\nNot found");
    assert_eq!(id, None);
    let broken = StoredBlock { page_id: s("p2"), contents: s("{") };
    assert_eq!(observe(&c, &RpcOutcome::Detail(Some(broken))), (None, None));
}

#[test]
fn datetime_title_list_and_unknown_methods() {
    let c = call("get_current_datetime", &[("timezone", Some("UTC"))]);
    let (o, _) = observe(&c, &RpcOutcome::Datetime(s("\"2024-01-01T00:00:00Z\"")));
    assert_eq!(o.unwrap(), "## Current datetime\n\"2024-01-01T00:00:00Z\"");
    let c = call("get_article_title_list", &[("offset", Some("0")), ("limit", Some("2"))]);
    let entries = vec![(s("A"), s("2024-01-01T00:00:00+00:00")), (s("B"), s("2024-02-01T00:00:00+00:00"))];
    let (o, id) = observe(&c, &RpcOutcome::TitleList(entries));
    assert_eq!(
        o.unwrap(),
        "## Article title list with offset = \"0\", limit = \"2\"\n- A, created at 2024-01-01T00:00:00+00:00\n- B, created at 2024-02-01T00:00:00+00:00"
    );
    assert_eq!(id, None);
    let c = call("get_weather", &[]);
    assert_eq!(observe(&c, &RpcOutcome::Datetime(s("x"))), (None, None));
    let c = call("get_current_datetime", &[]);
    assert_eq!(observe(&c, &RpcOutcome::Unreadable), (None, None));
}

#[test]
fn observations_follow_call_order_and_skip_failures() {
    let calls = vec![
        call("get_article_summary", &[("query", Some("go"))]),
        call("get_current_datetime", &[]),
        call("get_article_detail", &[("query", Some("rust"))]),
        call("get_current_datetime", &[]),
    ];
    let outcomes = vec![
        Some(RpcOutcome::Summary(None)),
        None,
        Some(RpcOutcome::Detail(Some(StoredBlock { page_id: s("p2"), contents: s(BLOCKS) }))),
    ];
    let (found, ids) = observations(&calls, &outcomes);
    assert_eq!(
        found,
        vec![
            s("## Article summary search results with \"go\"\nNot found"),
            s("## Article detail search results with \"rust\"\n### full texts\nonetwo"),
        ]
    );
    assert_eq!(ids, vec![s("p2")]);
}

#[test]
fn checked_observations_refuse_missing_arguments_and_lengths() {
    let calls = vec![call("get_article_summary", &[])];
    let missing = vec![Some(RpcOutcome::Summary(None))];
    assert!(!is_observable(&calls[0], missing[0].as_ref().unwrap()));
    assert!(observations_checked(&calls, &missing).is_none());
    assert!(observations_checked(&calls, &vec![]).is_none());
    let fine = vec![Some(RpcOutcome::Unreadable)];
    assert_eq!(observations_checked(&calls, &fine), Some((vec![], vec![])));
}

#[test]
fn pieces_and_blocks_skip_absent_texts() {
    assert_eq!(pieces_text(&vec![Some(s("a")), None, Some(s("b"))]), "ab");
    assert_eq!(blocks_text(&vec![vec![Some(s("a"))], vec![], vec![None, Some(s("c"))]]), "ac");
}

#[test]
fn offered_tools_describe_their_parameters() {
    let tools = available_tools();
    let summary = tools[0].function.parameters.as_ref().unwrap();
    assert_eq!(summary.kind, "object");
    assert_eq!(summary.properties, vec![(s("query"), PropertyType::String)]);
    assert_eq!(summary.required, Some(vec![s("query")]));
    assert!(tools[0].function.description.starts_with("Get an article summary"));
    let list = tools[3].function.parameters.as_ref().unwrap();
    assert_eq!(list.required, Some(vec![s("offset"), s("limit")]));
}

#[test]
fn embedding_input_from_several_texts() {
    match StringOrArray::from_texts(&vec!["a", "b"]) {
        StringOrArray::Array(a) => assert_eq!(a, vec![s("a"), s("b")]),
        StringOrArray::String(_) => panic!("expected a list"),
    }
}
