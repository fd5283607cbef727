use api::api::search::observation::{
    answer_context, argument_text, available_tools, datetime_observation, detail_not_found,
    detail_observation, function_call_parameters, keyword_parameters, keywords_context,
    plain_text, summary_not_found, summary_observation, title_entry, title_list_observation,
    tool_calls_to_run, tool_kind, tools_prompt, ToolKind,
};
use api::api::search::{
    answer_pieces, collect_hits, split_keywords, vector_search_result, vector_search_section,
    SearchHit,
};
use api::cloudflare::models::text_generation::{TextGenerationJsonResult, ToolCall};

fn s(x: &str) -> String {
    x.to_string()
}

fn v(xs: &[&str]) -> Vec<String> {
    xs.iter().map(|x| x.to_string()).collect()
}

fn hit(relevant: bool, doc: Option<&str>, page: Option<&str>) -> SearchHit {
    SearchHit { relevant, document: doc.map(s), page_id: page.map(s) }
}

#[test]
fn hits_give_contexts_and_page_ids() {
    let hits = vec![
        hit(true, Some("d1"), Some("p1")),
        hit(false, Some("d2"), Some("p2")),
        hit(true, None, Some("p3")),
        hit(true, Some("d4"), None),
        hit(true, Some("d5"), Some("p5")),
    ];
    let (contexts, ids) = collect_hits(&hits);
    assert_eq!(contexts, v(&["d1", "d4", "d5"]));
    assert_eq!(ids, v(&["p1", "p5"]));
}

#[test]
fn keywords_split_on_commas() {
    assert_eq!(split_keywords("rust,verus,,x"), v(&["rust", "verus", "", "x"]));
    assert_eq!(split_keywords(""), v(&[""]));
    assert_eq!(split_keywords(",a,"), v(&["", "a", ""]));
}

#[test]
fn section_numbers_each_first_page_once() {
    let (section, ids) = vector_search_section("rust", &v(&["c1", "c2", "c3"]), &v(&["p1", "p1", "p2"]));
    assert_eq!(section, "## Vector search result with rust\n1. c1\n1. c3");
    assert_eq!(ids, v(&["p1", "p2"]));
}

#[test]
fn section_without_context_is_not_found() {
    let (section, ids) = vector_search_section("none", &vec![], &vec![]);
    assert_eq!(section, "## Vector search result with none\nNot found");
    assert!(ids.is_empty());
}

#[test]
fn section_with_contexts_but_no_page_ids_lists_nothing() {
    let (section, ids) = vector_search_section("k", &v(&["c1"]), &vec![]);
    assert_eq!(section, "## Vector search result with k\n");
    assert!(ids.is_empty());
}

#[test]
fn vector_search_skips_empty_and_failed_keywords() {
    let keywords = v(&["a", "", "b", "c"]);
    let outcomes = vec![
        Some((v(&["x"]), v(&["p1"]))),
        Some((v(&["ignored"]), v(&["p9"]))),
        None,
        Some((v(&[]), v(&[]))),
    ];
    let (sections, ids) = vector_search_result(&keywords, &outcomes);
    assert_eq!(
        sections,
        v(&["## Vector search result with a\n1. x", "## Vector search result with c\nNot found"])
    );
    assert_eq!(ids, v(&["p1"]));
}

#[test]
fn answer_pieces_keep_texts_in_order() {
    let batch = vec![
        TextGenerationJsonResult { response: Some(s("He")), tool_calls: None },
        TextGenerationJsonResult { response: None, tool_calls: None },
        TextGenerationJsonResult { response: Some(s("llo")), tool_calls: None },
    ];
    assert_eq!(answer_pieces(&batch), v(&["He", "llo"]));
}

#[test]
fn observations_have_their_headings() {
    assert_eq!(
        summary_observation("\"rust\"", "Title", "Sum"),
        "## Article summary search results with \"rust\"\n### title\nTitle\n### summary\nSum"
    );
    assert_eq!(summary_not_found("q"), "## Article summary search results with q\nNot found");
    assert_eq!(
        detail_observation("q", "full"),
        "## Article detail search results with q\n### full texts\nfull"
    );
    assert_eq!(detail_not_found("q"), "## Article detail search results with q\nNot found");
    assert_eq!(datetime_observation("\"now\""), "## Current datetime\n\"now\"");
    assert_eq!(title_entry("T", "2024-01-01T00:00:00+00:00"), "- T, created at 2024-01-01T00:00:00+00:00");
    assert_eq!(
        title_list_observation("\"0\"", "\"2\"", &v(&["- a", "- b"])),
        "## Article title list with offset = \"0\", limit = \"2\"\n- a\n- b"
    );
    assert_eq!(plain_text(&v(&["ab", "", "c"])), "abc");
    assert_eq!(keywords_context("a,b"), "## Possible search keywords\na,b");
    assert_eq!(answer_context(&v(&["v1", "v2"]), &v(&["o1"])), "v1\nv2\no1");
    assert_eq!(answer_context(&vec![], &vec![]), "\n");
}

#[test]
fn argument_text_is_json() {
    let call = ToolCall {
        name: s("get_article_summary"),
        arguments: Some(vec![(s("query"), Some(s("say \"hi\""))), (s("none"), None)]),
    };
    assert_eq!(argument_text(&call, "query"), "\"say \\\"hi\\\"\"");
    assert_eq!(argument_text(&call, "none"), "null");
}

#[test]
fn argument_text_escapes_control_characters() {
    let call = ToolCall {
        name: s("get_article_detail"),
        arguments: Some(vec![(s("id"), Some(s("a\tb\u{1}\\é")))]),
    };
    assert_eq!(argument_text(&call, "id"), "\"a\\tb\\u0001\\\\é\"");
}

#[test]
fn tool_names_select_tools() {
    assert!(matches!(tool_kind("get_article_summary"), ToolKind::ArticleSummary));
    assert!(matches!(tool_kind("get_current_datetime"), ToolKind::CurrentDatetime));
    assert!(matches!(tool_kind("get_article_detail"), ToolKind::ArticleDetail));
    assert!(matches!(tool_kind("get_article_title_list"), ToolKind::ArticleTitleList));
    assert!(matches!(tool_kind("other"), ToolKind::Unknown));
    assert_eq!(tool_calls_to_run(5), 3);
    assert_eq!(tool_calls_to_run(2), 2);
}

#[test]
fn tools_prompt_lists_calls() {
    assert_eq!(tools_prompt(&None), "");
    assert_eq!(
        tools_prompt(&Some(vec![(s("f"), s("None")), (s("g"), s("Some({})"))])),
        "function:f,arguments:None\nfunction:g,arguments:Some({})"
    );
}

#[test]
fn offered_tools_and_parameters() {
    let tools = available_tools();
    let names: Vec<String> = tools.iter().map(|t| t.function.name.clone()).collect();
    assert_eq!(
        names,
        v(&["get_article_summary", "get_article_detail", "get_current_datetime", "get_article_title_list"])
    );
    assert_eq!(tools[2].function.parameters.as_ref().unwrap().required, None);
    assert_eq!(tools[3].function.parameters.as_ref().unwrap().properties.len(), 2);
    assert_eq!(keyword_parameters().max_tokens, Some(20));
    let f = function_call_parameters();
    assert_eq!((f.temperature, f.top_p, f.top_k), (Some(0), Some(0), Some(1)));
}
