use api::api::agent::function_call::{
    tool_call_candidates, tool_call_candidates_checked, FunctionCallAgent,
};
use api::api::agent::question_and_answer::QuestionAnswerAgent;
use api::api::agent::{conversation, is_answered, render_template, spoken_messages};
use api::cloudflare::models::text_generation::{
    Message, ModelParameters, TextGenerationJsonResult, TextGenerationRequest, ToolCall,
};
use api::cloudflare::models::Models;

fn msg(role: &str, content: &str) -> Message {
    Message { role: role.to_string(), content: content.to_string() }
}

fn pairs(ms: &[Message]) -> Vec<(String, String)> {
    ms.iter().map(|m| (m.role.clone(), m.content.clone())).collect()
}

fn p(role: &str, content: &str) -> (String, String) {
    (role.to_string(), content.to_string())
}

#[test]
fn render_fills_prompt_then_context() {
    let out = render_template("Q: {{prompt}} / C: {{context}} / {{prompt}}", "why", "docs");
    assert_eq!(out, "Q: why / C: docs / why");
}

#[test]
fn render_fills_context_slots_that_the_prompt_brings() {
    let out = render_template("{{prompt}}", "see {{context}}", "here");
    assert_eq!(out, "see here");
}

#[test]
fn render_keeps_a_template_without_slots() {
    assert_eq!(render_template("plain text {{other}}", "x", "y"), "plain text {{other}}");
}

#[test]
fn conversation_interleaves_history() {
    let history = vec![
        msg("system", "ctx one"),
        msg("user", "hello"),
        msg("assistant", "hi"),
        msg("user", "again"),
        msg("assistant", "yes"),
    ];
    let out = conversation(&history, &"be nice".to_string(), "Q: {{prompt}} C: {{context}}", "why", Some("because"));
    assert_eq!(
        pairs(&out),
        vec![
            p("system", "be nice"),
            p("user", "Q: hello C: ctx one"),
            p("assistant", "hi"),
            p("user", "Q: again C: "),
            p("assistant", "yes"),
            p("user", "Q: why C: because"),
        ]
    );
}

#[test]
fn conversation_without_context_uses_empty_text() {
    let out = conversation(&vec![], &"sys".to_string(), "{{prompt}}|{{context}}", "ask", None);
    assert_eq!(pairs(&out), vec![p("system", "sys"), p("user", "ask|")]);
}

#[test]
fn answered_history_needs_an_answer_per_question() {
    assert!(is_answered(&vec![msg("user", "a"), msg("assistant", "b")]));
    assert!(!is_answered(&vec![msg("user", "a")]));
    assert!(is_answered(&vec![msg("assistant", "b"), msg("system", "c")]));
}

#[test]
fn spoken_messages_drop_empty_content() {
    let out = spoken_messages(vec![msg("system", ""), msg("user", "x"), msg("assistant", "")]);
    assert_eq!(pairs(&out), vec![p("user", "x")]);
}

#[test]
fn question_answer_prompt_with_stream_builds_conversation() {
    let models = Models::new("acct", "tok");
    let history = vec![msg("system", "ctx one"), msg("user", "hello"), msg("assistant", "hi")];
    let params = ModelParameters { max_tokens: Some(5), ..ModelParameters::unset() };
    let agent = QuestionAnswerAgent::new(models, "qa".to_string(), "be nice".to_string(), history, Some(params));
    let (messages, request) = agent.prompt_with_stream("Q: {{prompt}} C: {{context}}", "why", Some("because"));
    let expected = vec![
        p("system", "be nice"),
        p("user", "Q: hello C: ctx one"),
        p("assistant", "hi"),
        p("user", "Q: why C: because"),
    ];
    assert_eq!(pairs(&messages), expected);
    match request {
        TextGenerationRequest::Message(m) => {
            assert_eq!(pairs(&m.messages), expected);
            assert_eq!(m.stream, Some(true));
            assert_eq!(m.model_parameters, Some(params));
        }
        _ => panic!("expected a message request"),
    }
}

#[test]
fn question_answer_prompt_drops_empty_messages() {
    let models = Models::new("acct", "tok");
    let agent = QuestionAnswerAgent::new(models, "qa".to_string(), "".to_string(), vec![], None);
    match agent.prompt("{{prompt}}", "ask", None) {
        TextGenerationRequest::Message(m) => {
            assert_eq!(pairs(&m.messages), vec![p("user", "ask")]);
            assert_eq!(m.stream, None);
            assert_eq!(m.model_parameters, None);
        }
        _ => panic!("expected a message request"),
    }
    assert_eq!(agent.agent_name(), "qa");
}

#[test]
fn function_call_agent_fills_its_system_prompt() {
    let models = Models::new("acct", "tok");
    let agent = FunctionCallAgent::new(
        models,
        "S={{schema}} R={{tool_call_response}} T={{tools}}",
        "function call".to_string(),
        "[{\"name\":\"f\"}]",
        vec![],
        None,
    );
    match agent.prompt("{{prompt}}", "go", None) {
        TextGenerationRequest::Message(m) => {
            assert_eq!(m.messages.len(), 2);
            assert_eq!(m.messages[0].role, "system");
            assert_eq!(
                m.messages[0].content,
                "S={'title':'FunctionCall','type':'object','properties':{'arguments':{'title':'Arguments','type':'object'},'name':{'title':'Name','type':'string'}},'required':['arguments','name']} R={'arguments':'<args-dict>','name':'function-name'} T=[{'name':'f'}]"
            );
            assert_eq!(m.stream, Some(false));
        }
        _ => panic!("expected a message request"),
    }
}

#[test]
fn function_call_agent_try_new_succeeds() {
    let models = Models::new("acct", "tok");
    let agent = FunctionCallAgent::try_new(models, "{{tools}}", "n".to_string(), "\"x\"", vec![], None);
    assert!(agent.is_some());
}

#[test]
fn recovers_tool_call_with_braces() {
    let text = "<tool_call>\n{'arguments': {'query': 'rust'}, 'name': 'get_article_summary'}\n</tool_call>";
    let out = tool_call_candidates(text);
    assert_eq!(out, vec!["{\"arguments\": {\"query\": \"rust\"}, \"name\": \"get_article_summary\"}".to_string()]);
}

#[test]
fn recovers_tool_call_missing_braces() {
    let text = "<tool_call>'name': 'get_current_datetime', 'arguments': {'timezone': 'UTC'}</tool_call>";
    let out = tool_call_candidates_checked(text).unwrap();
    assert_eq!(out, vec!["{\"name\": \"get_current_datetime\", \"arguments\": {\"timezone\": \"UTC\"}}".to_string()]);
}

#[test]
fn recovery_cuts_text_around_braces_and_drops_blank_pieces() {
    let text = "noise {\"name\": \"a\", \"arguments\": {}} tail <tool_call>   </tool_call>";
    let out = tool_call_candidates(text);
    assert_eq!(out, vec!["{\"name\": \"a\", \"arguments\": {}}".to_string()]);
}

#[test]
fn recovery_removes_backslashes_and_line_breaks() {
    let text = "{'name': 'a',\n 'arguments': {'q': 'x\\\\y'}}";
    let out = tool_call_candidates(text);
    assert_eq!(out, vec!["{\"name\": \"a\", \"arguments\": {\"q\": \"xy\"}}".to_string()]);
}

#[test]
fn answer_without_tool_calls_only_when_missing() {
    let with_calls = TextGenerationJsonResult {
        response: Some("x".to_string()),
        tool_calls: Some(vec![ToolCall { name: "f".to_string(), arguments: None }]),
    };
    assert_eq!(FunctionCallAgent::answer_without_tool_calls(&with_calls), None);
    let without = TextGenerationJsonResult { response: Some("text".to_string()), tool_calls: None };
    assert_eq!(FunctionCallAgent::answer_without_tool_calls(&without), Some("text".to_string()));
    let empty = TextGenerationJsonResult { response: None, tool_calls: None };
    assert_eq!(FunctionCallAgent::answer_without_tool_calls(&empty), Some(String::new()));
}
