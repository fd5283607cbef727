use vstd::prelude::*;

use crate::api::agent::{answered, is_answered, conversation, conversation_spec, context_text, spoken, spoken_messages};
use crate::api::agent::question_and_answer::message_request_of;
use crate::cloudflare::models::text_generation::{
    messages_view, Message, MessageRequest, MessageView, ModelParameters, TextGenerationJsonResult,
    TextGenerationRequest,
};
use crate::cloudflare::models::Models;
use crate::pattern::{compiles, is_match, regex_compiles, regex_matches, regex_replace_every,
    regex_replace_first, regex_split, replace_every, replace_first, split};
use crate::text::{chars_of, copy_text, find, find_spec, occurs_at, replace, replace_one_character,
    replace_spec, replace_text, replace_whole, replace_without_occurrence, string_from, trim,
    trim_spec};

verus! {

/// The JSON schema of a function call that the system prompt shows the model.
pub const FUNCTION_CALL_SCHEMA: &'static str = "{
                    'title': 'FunctionCall',
                    'type': 'object',
                    'properties': {
                        'arguments': {
                            'title': 'Arguments',
                            'type': 'object'
                        },
                        'name': {
                            'title': 'Name',
                            'type': 'string'
                        }
                    },
                    'required': ['arguments', 'name']
                }";

/// The shape of a tool-call answer that the system prompt shows the model.
pub const TOOL_CALL_RESPONSE: &'static str = "{
                    'arguments': '<args-dict>',
                    'name': 'function-name'
                }";

/// Runs of white space.
pub const WHITE_SPACE_RUNS: &'static str = r"\s+";

/// The tags around a tool call in a model's text answer.
pub const TOOL_CALL_TAGS: &'static str = r"<tool_call>|</tool_call>";

/// A text that opens a brace before `name`.
pub const OPENS_BEFORE_NAME: &'static str = r".*\{.*?name";

/// A text that closes two braces after `arguments`.
pub const CLOSES_AFTER_ARGUMENTS: &'static str = r"arguments.*}.*}";

/// A text that opens a brace before `arguments`.
pub const OPENS_BEFORE_ARGUMENTS: &'static str = r".*\{.*?arguments";

/// A text that closes a brace after `name`.
pub const CLOSES_AFTER_NAME: &'static str = r"name.*}";

/// Everything up to the first opening brace.
pub const BEFORE_FIRST_BRACE: &'static str = r"^.*?\{";

/// Everything from the last closing brace on.
pub const AFTER_LAST_BRACE: &'static str = r"\}[^\}]*?$";

/// Whether every pattern that tool-call recovery uses compiles.
pub open spec fn recovery_patterns_compile() -> bool {
    &&& regex_compiles(TOOL_CALL_TAGS@)
    &&& regex_compiles(OPENS_BEFORE_NAME@)
    &&& regex_compiles(CLOSES_AFTER_ARGUMENTS@)
    &&& regex_compiles(OPENS_BEFORE_ARGUMENTS@)
    &&& regex_compiles(CLOSES_AFTER_NAME@)
    &&& regex_compiles(BEFORE_FIRST_BRACE@)
    &&& regex_compiles(AFTER_LAST_BRACE@)
}

/// Whether the first position holds and comes before the second, where an
/// absent position comes before every present one (the order of
/// `Option<usize>`).
pub open spec fn comes_first(a: Option<int>, b: Option<int>) -> bool {
    match (a, b) {
        (None, Some(_)) => true,
        (Some(x), Some(y)) => x < y,
        _ => false,
    }
}

/// A piece of a text answer cleaned: trimmed, without line breaks, single
/// quotes turned into double quotes, and backslashes removed.
pub open spec fn cleaned(raw: Seq<char>) -> Seq<char> {
    replace_spec(
        replace_spec(replace_spec(trim_spec(raw), seq!['\n'], Seq::empty()), seq!['\''], seq!['"']),
        seq!['\\'],
        Seq::empty(),
    )
}

/// The JSON text recovered from one piece of a text answer, or nothing when
/// the piece is blank: the cleaned piece, given an opening brace when it has
/// none before its first key and a closing brace when it has none after its
/// last key, then cut to run from its first opening brace to its last
/// closing brace.
pub open spec fn recovered(raw: Seq<char>) -> Option<Seq<char>> {
    let a = replace_spec(trim_spec(raw), seq!['\n'], Seq::empty());
    if a.len() == 0 {
        None
    } else {
        let b = cleaned(raw);
        let name_first = comes_first(find_spec(b, "name"@), find_spec(b, "arguments"@));
        let opens = if name_first { OPENS_BEFORE_NAME@ } else { OPENS_BEFORE_ARGUMENTS@ };
        let closes = if name_first { CLOSES_AFTER_ARGUMENTS@ } else { CLOSES_AFTER_NAME@ };
        let c = if regex_matches(opens, b) { b } else { seq!['{'] + b };
        let d = if regex_matches(closes, c) { c } else { c.push('}') };
        Some(regex_replace_first(AFTER_LAST_BRACE@, regex_replace_first(BEFORE_FIRST_BRACE@, d, "{"@), "}"@))
    }
}

/// The JSON texts recovered from the pieces, in order, blank pieces left out.
pub open spec fn recovered_all(pieces: Seq<Seq<char>>) -> Seq<Seq<char>>
    decreases pieces.len(),
{
    if pieces.len() == 0 {
        Seq::empty()
    } else {
        let rest = recovered_all(pieces.drop_last());
        match recovered(pieces.last()) {
            Some(x) => rest.push(x),
            None => rest,
        }
    }
}

/// The texts recovered from pieces laid end to end are the texts recovered
/// from each part, in order: no piece's tool call is dropped or repeated.
pub proof fn recovered_all_of_concatenation(a: Seq<Seq<char>>, b: Seq<Seq<char>>)
    ensures
        recovered_all(a + b) == recovered_all(a) + recovered_all(b),
    decreases b.len(),
{
    if b.len() == 0 {
        assert(a + b =~= a);
        assert(recovered_all(a) + recovered_all(b) =~= recovered_all(a));
    } else {
        assert((a + b).drop_last() =~= a + b.drop_last());
        recovered_all_of_concatenation(a, b.drop_last());
        match recovered(b.last()) {
            Some(x) => {
                assert(recovered_all(a) + recovered_all(b.drop_last()).push(x) =~= (recovered_all(a)
                    + recovered_all(b.drop_last())).push(x));
            },
            None => {},
        }
    }
}

/// One piece gives its recovered text, or nothing when it is blank.
pub proof fn recovered_all_of_one(p: Seq<char>)
    ensures
        recovered_all(seq![p]) == match recovered(p) {
            Some(x) => seq![x],
            None => Seq::<Seq<char>>::empty(),
        },
{
    assert(seq![p].drop_last() =~= Seq::<Seq<char>>::empty());
    assert(recovered_all(Seq::<Seq<char>>::empty()) == Seq::<Seq<char>>::empty());
    assert(seq![p].last() == p);
    assert(Seq::<Seq<char>>::empty().push(recovered(p)->0) =~= seq![recovered(p)->0]);
}

/// Every piece of an answer between tool-call tags that is not blank yields a
/// candidate: the `i`-th piece's recovered text stands in the candidates after
/// those of the pieces before it, and the candidates number those of the
/// pieces before it, plus one, plus those of the pieces after it.
pub proof fn every_piece_yields_a_candidate(answer: Seq<char>, i: int)
    requires
        0 <= i < regex_split(TOOL_CALL_TAGS@, answer).len(),
        recovered(regex_split(TOOL_CALL_TAGS@, answer)[i]) is Some,
    ensures
        ({
            let ps = regex_split(TOOL_CALL_TAGS@, answer);
            let before = recovered_all(ps.take(i));
            let after = recovered_all(ps.skip(i + 1));
            &&& tool_call_texts(answer).len() == before.len() + 1 + after.len()
            &&& tool_call_texts(answer)[before.len() as int] == recovered(ps[i])->0
            &&& tool_call_texts(answer).take(before.len() as int) == before
        }),
{
    let ps = regex_split(TOOL_CALL_TAGS@, answer);
    assert(ps =~= ps.take(i) + seq![ps[i]] + ps.skip(i + 1));
    recovered_all_of_concatenation(ps.take(i) + seq![ps[i]], ps.skip(i + 1));
    recovered_all_of_concatenation(ps.take(i), seq![ps[i]]);
    recovered_all_of_one(ps[i]);
    let before = recovered_all(ps.take(i));
    let x = recovered(ps[i])->0;
    let after = recovered_all(ps.skip(i + 1));
    assert(tool_call_texts(answer) == before + seq![x] + after);
    assert((before + seq![x] + after).take(before.len() as int) =~= before);
}

/// The JSON texts of the tool calls that a text answer holds between tool-call
/// tags.
pub open spec fn tool_call_texts(answer: Seq<char>) -> Seq<Seq<char>> {
    recovered_all(regex_split(TOOL_CALL_TAGS@, answer))
}

/// Recovers the JSON text of one piece of a text answer.
pub fn recover_piece(raw: &str) -> (r: Option<String>)
    requires
        recovery_patterns_compile(),
    ensures
        match r {
            Some(s) => recovered(raw@) == Some(s@),
            None => recovered(raw@) is None,
        },
{
    let nl = chars_of("\n");
    let sq = chars_of("'");
    let dq = chars_of("\"");
    let bs = chars_of("\\");
    let none: Vec<char> = Vec::new();
    proof {
        reveal_strlit("\n");
        reveal_strlit("'");
        reveal_strlit("\"");
        reveal_strlit("\\");
        assert(nl@ =~= seq!['\n']);
        assert(sq@ =~= seq!['\'']);
        assert(dq@ =~= seq!['"']);
        assert(bs@ =~= seq!['\\']);
        assert(none@ =~= Seq::<char>::empty());
    }
    let t = trim(&chars_of(raw));
    let a = replace(&t, &nl, &none);
    if a.len() == 0 {
        return None;
    }
    let b1 = replace(&a, &sq, &dq);
    let b = replace(&b1, &bs, &none);
    let name_at = find(&b, &chars_of("name"));
    let arguments_at = find(&b, &chars_of("arguments"));
    let name_first = match (name_at, arguments_at) {
        (None, Some(_)) => true,
        (Some(x), Some(y)) => x < y,
        _ => false,
    };
    let (opens, closes) = if name_first {
        (OPENS_BEFORE_NAME, CLOSES_AFTER_ARGUMENTS)
    } else {
        (OPENS_BEFORE_ARGUMENTS, CLOSES_AFTER_NAME)
    };
    let mut part = b;
    let text = string_from(&part);
    if !is_match(opens, text.as_str()) {
        part.insert(0, '{');
        assert(part@ =~= seq!['{'] + b@);
    }
    let text = string_from(&part);
    if !is_match(closes, text.as_str()) {
        part.push('}');
    }
    let text = string_from(&part);
    let opened = replace_first(BEFORE_FIRST_BRACE, text.as_str(), "{");
    let closed = replace_first(AFTER_LAST_BRACE, opened.as_str(), "}");
    Some(closed)
}

/// The JSON texts of the tool calls that a text answer holds between tool-call
/// tags, each cleaned and given the braces it lacks; blank pieces are left
/// out. Every recovery pattern must compile.
pub fn tool_call_candidates(answer: &str) -> (r: Vec<String>)
    requires
        recovery_patterns_compile(),
    ensures
        r@.map_values(|s: String| s@) == tool_call_texts(answer@),
{
    let pieces = split(TOOL_CALL_TAGS, answer);
    let ghost ps = pieces@.map_values(|p: String| p@);
    let mut r: Vec<String> = Vec::new();
    for i in 0..pieces.len()
        invariant
            recovery_patterns_compile(),
            ps == pieces@.map_values(|p: String| p@),
            r@.map_values(|s: String| s@) == recovered_all(ps.take(i as int)),
    {
        assert(ps.take(i + 1).drop_last() =~= ps.take(i as int));
        assert(ps[i as int] == pieces@[i as int]@);
        let got = recover_piece(pieces[i].as_str());
        match got {
            Some(s) => {
                r.push(s);
                assert(r@.map_values(|s: String| s@) =~= recovered_all(ps.take(i as int)).push(
                    recovered(ps[i as int])->0,
                ));
            },
            None => {},
        }
    }
    assert(ps.take(pieces.len() as int) =~= ps);
    r
}

/// Like [`tool_call_candidates`], for any pattern engine: `None` when one of
/// the recovery patterns does not compile.
pub fn tool_call_candidates_checked(answer: &str) -> (r: Option<Vec<String>>)
    ensures
        r is Some <==> recovery_patterns_compile(),
        r matches Some(v) ==> v@.map_values(|s: String| s@) == tool_call_texts(answer@),
{
    if compiles(TOOL_CALL_TAGS) && compiles(OPENS_BEFORE_NAME) && compiles(CLOSES_AFTER_ARGUMENTS)
        && compiles(OPENS_BEFORE_ARGUMENTS) && compiles(CLOSES_AFTER_NAME) && compiles(
        BEFORE_FIRST_BRACE,
    ) && compiles(AFTER_LAST_BRACE) {
        Some(tool_call_candidates(answer))
    } else {
        None
    }
}

/// The system prompt of the function-calling agent: the template with its
/// schema slot filled with the call schema and its response slot filled with
/// the response shape (both with their white space removed), then its tools
/// slot filled with the tools' JSON, double quotes turned into single ones.
pub open spec fn function_call_system_prompt(template: Seq<char>, tools_json: Seq<char>) -> Seq<char> {
    let with_schema = replace_spec(
        template,
        "{{schema}}"@,
        regex_replace_every(WHITE_SPACE_RUNS@, FUNCTION_CALL_SCHEMA@, ""@),
    );
    let with_response = replace_spec(
        with_schema,
        "{{tool_call_response}}"@,
        regex_replace_every(WHITE_SPACE_RUNS@, TOOL_CALL_RESPONSE@, ""@),
    );
    replace_spec(with_response, "{{tools}}"@, replace_spec(tools_json, "\""@, "'"@))
}

/// A template that is only the tools slot gives the tools' JSON back with
/// each double quote turned into a single quote and every other character,
/// white space included, kept in its place.
pub proof fn tools_slot_keeps_the_tools_text(tools_json: Seq<char>)
    ensures
        ({
            let out = function_call_system_prompt("{{tools}}"@, tools_json);
            &&& out.len() == tools_json.len()
            &&& forall|i: int|
                0 <= i < tools_json.len() ==> #[trigger] out[i] == if tools_json[i] == '"' {
                    '\''
                } else {
                    tools_json[i]
                }
        }),
{
    reveal_strlit("{{tools}}");
    reveal_strlit("{{schema}}");
    reveal_strlit("{{tool_call_response}}");
    reveal_strlit("\"");
    reveal_strlit("'");
    let t = "{{tools}}"@;
    let schema = regex_replace_every(WHITE_SPACE_RUNS@, FUNCTION_CALL_SCHEMA@, ""@);
    let response = regex_replace_every(WHITE_SPACE_RUNS@, TOOL_CALL_RESPONSE@, ""@);
    replace_without_occurrence(t, "{{schema}}"@, schema);
    replace_without_occurrence(t, "{{tool_call_response}}"@, response);
    assert("\""@ =~= seq!['"']);
    assert("'"@ =~= seq!['\'']);
    replace_one_character(tools_json, '"', '\'');
    replace_whole(t, replace_spec(tools_json, "\""@, "'"@));
}

/// A template without slots is the system prompt as it stands.
pub proof fn template_without_slots_is_the_system_prompt(template: Seq<char>, tools_json: Seq<char>)
    requires
        forall|i: int| !occurs_at(template, i, "{{schema}}"@),
        forall|i: int| !occurs_at(template, i, "{{tool_call_response}}"@),
        forall|i: int| !occurs_at(template, i, "{{tools}}"@),
    ensures
        function_call_system_prompt(template, tools_json) == template,
{
    replace_without_occurrence(
        template,
        "{{schema}}"@,
        regex_replace_every(WHITE_SPACE_RUNS@, FUNCTION_CALL_SCHEMA@, ""@),
    );
    replace_without_occurrence(
        template,
        "{{tool_call_response}}"@,
        regex_replace_every(WHITE_SPACE_RUNS@, TOOL_CALL_RESPONSE@, ""@),
    );
    replace_without_occurrence(template, "{{tools}}"@, replace_spec(tools_json, "\""@, "'"@));
}

/// An agent that asks the model which functions to call for a prompt.
pub struct FunctionCallAgent {
    client: Models,
    name: String,
    system_prompt: String,
    history: Vec<Message>,
    model_parameters: Option<ModelParameters>,
}

impl FunctionCallAgent {
    /// The models the agent asks.
    pub closed spec fn client(&self) -> Models {
        self.client
    }

    /// The name under which the agent's generations are logged.
    pub closed spec fn name(&self) -> Seq<char> {
        self.name@
    }

    /// The system prompt.
    pub closed spec fn system_prompt(&self) -> Seq<char> {
        self.system_prompt@
    }

    /// The earlier turns of the conversation.
    pub closed spec fn history(&self) -> Seq<MessageView> {
        messages_view(self.history@)
    }

    /// The sampling parameters.
    pub closed spec fn model_parameters(&self) -> Option<ModelParameters> {
        self.model_parameters
    }

    /// An agent whose system prompt is `system_prompt_template` with its slots
    /// filled (see [`function_call_system_prompt`]); `tools_json` is the JSON
    /// text of the tools offered. The white-space pattern must compile.
    pub fn new(
        client: Models,
        system_prompt_template: &str,
        name: String,
        tools_json: &str,
        history: Vec<Message>,
        model_parameters: Option<ModelParameters>,
    ) -> (agent: Self)
        requires
            regex_compiles(WHITE_SPACE_RUNS@),
        ensures
            agent.client() == client,
            agent.name() == name@,
            agent.system_prompt() == function_call_system_prompt(system_prompt_template@, tools_json@),
            agent.history() == messages_view(history@),
            agent.model_parameters() == model_parameters,
    {
        proof {
            reveal_strlit("{{schema}}");
            reveal_strlit("{{tool_call_response}}");
            reveal_strlit("{{tools}}");
            reveal_strlit("\"");
        }
        let schema = replace_every(WHITE_SPACE_RUNS, FUNCTION_CALL_SCHEMA, "");
        let response = replace_every(WHITE_SPACE_RUNS, TOOL_CALL_RESPONSE, "");
        let with_schema = replace_text(system_prompt_template, "{{schema}}", schema.as_str());
        let with_response = replace_text(
            with_schema.as_str(),
            "{{tool_call_response}}",
            response.as_str(),
        );
        let tools = replace_text(tools_json, "\"", "'");
        let system_prompt = replace_text(with_response.as_str(), "{{tools}}", tools.as_str());
        FunctionCallAgent { client, name, system_prompt, history, model_parameters }
    }

    /// Like [`FunctionCallAgent::new`], for any pattern engine: `None` when the
    /// white-space pattern does not compile.
    pub fn try_new(
        client: Models,
        system_prompt_template: &str,
        name: String,
        tools_json: &str,
        history: Vec<Message>,
        model_parameters: Option<ModelParameters>,
    ) -> (agent: Option<Self>)
        ensures
            agent is Some <==> regex_compiles(WHITE_SPACE_RUNS@),
            agent matches Some(a) ==> {
                &&& a.client() == client
                &&& a.name() == name@
                &&& a.system_prompt() == function_call_system_prompt(
                    system_prompt_template@,
                    tools_json@,
                )
                &&& a.history() == messages_view(history@)
                &&& a.model_parameters() == model_parameters
            },
    {
        if compiles(WHITE_SPACE_RUNS) {
            Some(
                FunctionCallAgent::new(
                    client,
                    system_prompt_template,
                    name,
                    tools_json,
                    history,
                    model_parameters,
                ),
            )
        } else {
            None
        }
    }

    /// Whether every user message of the agent's history has its assistant
    /// answer, as its prompts require.
    pub fn history_is_answered(&self) -> (b: bool)
        ensures
            b == answered(self.history()),
    {
        is_answered(&self.history)
    }

    /// The agent's name.
    pub fn agent_name(&self) -> (s: String)
        ensures
            s@ == self.name(),
    {
        copy_text(&self.name)
    }

    /// The models the agent asks.
    pub fn models(&self) -> (m: Models)
        ensures
            m.base_url_view() == self.client().base_url_view(),
            m.header_count() == self.client().header_count(),
            forall|i: int| 0 <= i < m.header_count() ==> m.header_at(i) == self.client().header_at(i),
    {
        self.client.clone()
    }

    /// The request for a prompt: the conversation built from the history, the
    /// template, the prompt and the context, without the messages whose
    /// content is empty, asked with streaming off.
    /// Every user message of the history must have its assistant answer.
    pub fn prompt(&self, user_prompt_template: &str, prompt: &str, context: Option<&str>) -> (r:
        TextGenerationRequest)
        requires
            answered(self.history()),
        ensures
            message_request_of(
                r,
                spoken(
                    conversation_spec(
                        self.history(),
                        self.system_prompt(),
                        user_prompt_template@,
                        prompt@,
                        context_text(match context { Some(c) => Some(c@), None => None }),
                    ),
                ),
                Some(false),
                self.model_parameters(),
            ),
    {
        let messages = conversation(
            &self.history,
            &self.system_prompt,
            user_prompt_template,
            prompt,
            context,
        );
        let messages = spoken_messages(messages);
        TextGenerationRequest::Message(
            MessageRequest { messages, stream: Some(false), model_parameters: self.model_parameters },
        )
    }

    /// The text answer to recover tool calls from: `None` when the model
    /// already returned tool calls; otherwise its text answer, empty when it
    /// gave none.
    pub fn answer_without_tool_calls(result: &TextGenerationJsonResult) -> (r: Option<String>)
        ensures
            result.tool_calls is Some ==> r is None,
            result.tool_calls is None ==> (r matches Some(s) && s@ == match result.response {
                Some(t) => t@,
                None => Seq::empty(),
            }),
    {
        if result.tool_calls.is_some() {
            return None;
        }
        match &result.response {
            Some(t) => Some(copy_text(t)),
            None => Some(String::new()),
        }
    }
}

} // verus!
