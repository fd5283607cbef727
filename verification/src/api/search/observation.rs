use vstd::prelude::*;
use vstd::string::*;

use crate::cloudflare::models::text_generation::{
    Function, ModelParameters, Parameters, PropertyType, Tool, ToolCall,
};
use crate::text::{cat, copy_text, join, join_spec, same_text, texts};

verus! {

/// A hexadecimal digit in lower case, for `0 <= n < 16`.
pub open spec fn hex_digit(n: int) -> char {
    seq!['0', '1', '2', '3', '4', '5', '6', '7', '8', '9', 'a', 'b', 'c', 'd', 'e', 'f'][n]
}

/// How a character stands inside a JSON string: a quote, a backslash and the
/// control characters below U+0020 are escaped (backspace, tab, newline, form
/// feed and carriage return by their short escapes, the other control
/// characters as `\u00` and two hexadecimal digits); every other character
/// stands for itself.
pub open spec fn json_escape(c: char) -> Seq<char> {
    if c == '"' {
        seq!['\\', '"']
    } else if c == '\\' {
        seq!['\\', '\\']
    } else if c == '\u{8}' {
        seq!['\\', 'b']
    } else if c == '\t' {
        seq!['\\', 't']
    } else if c == '\n' {
        seq!['\\', 'n']
    } else if c == '\u{c}' {
        seq!['\\', 'f']
    } else if c == '\r' {
        seq!['\\', 'r']
    } else if (c as int) < 0x20 {
        seq!['\\', 'u', '0', '0', hex_digit(c as int / 16), hex_digit(c as int % 16)]
    } else {
        seq![c]
    }
}

/// The characters of `s`, each as it stands inside a JSON string.
pub open spec fn json_escaped(s: Seq<char>) -> Seq<char>
    decreases s.len(),
{
    if s.len() == 0 {
        Seq::empty()
    } else {
        json_escape(s[0]) + json_escaped(s.drop_first())
    }
}

/// The compact JSON text of a value that is a string (`Some`) or null
/// (`None`).
pub open spec fn json_value_text(value: Option<Seq<char>>) -> Seq<char> {
    match value {
        Some(s) => seq!['"'] + json_escaped(s) + seq!['"'],
        None => seq!['n', 'u', 'l', 'l'],
    }
}

/// Displays a string-or-null argument as the JSON value
/// `serde_json::Value::String` or `serde_json::Value::Null` (its `Display`,
/// compact JSON). Claimed: `null` for null, and for a string the string
/// between quotes with the escapes that serde_json's serializer writes.
#[verifier::external_body]
pub(crate) fn json_text(value: &Option<String>) -> (t: String)
    ensures
        t@ == json_value_text(match value { Some(s) => Some(s@), None => None }),
{
    match value {
        Some(s) => serde_json::Value::String(s.clone()).to_string(),
        None => serde_json::Value::Null.to_string(),
    }
}

/// The value of the first argument named `name`: `None` when there is no
/// such argument, `Some(None)` when it is null.
pub open spec fn argument_spec(args: Seq<(String, Option<String>)>, name: Seq<char>) -> Option<
    Option<Seq<char>>,
>
    decreases args.len(),
{
    if args.len() == 0 {
        None
    } else if args[0].0@ == name {
        Some(
            match args[0].1 {
                Some(v) => Some(v@),
                None => None,
            },
        )
    } else {
        argument_spec(args.drop_first(), name)
    }
}

/// Whether a tool call has an argument named `name`.
pub open spec fn has_argument(call: ToolCall, name: Seq<char>) -> bool {
    match call.arguments {
        Some(args) => argument_spec(args@, name) is Some,
        None => false,
    }
}

/// The JSON text of the argument `name` of a tool call.
pub open spec fn argument_text_spec(call: ToolCall, name: Seq<char>) -> Seq<char> {
    json_value_text(argument_spec(call.arguments->0@, name)->0)
}

/// The JSON text of the argument `name` of a tool call, which must have it.
pub fn argument_text(call: &ToolCall, name: &str) -> (t: String)
    requires
        has_argument(*call, name@),
    ensures
        t@ == argument_text_spec(*call, name@),
{
    let args = match &call.arguments {
        Some(a) => a,
        None => {
            return String::new();
        },
    };
    let ghost a = args@;
    assert(a == call.arguments->0@);
    let mut i: usize = 0;
    assert(a.skip(0) =~= a);
    while i < args.len()
        invariant
            a == args@,
            i <= a.len(),
            argument_spec(a, name@) == argument_spec(a.skip(i as int), name@),
            argument_spec(a, name@) is Some,
            a == call.arguments->0@,
        decreases args.len() - i,
    {
        assert(a.skip(i as int)[0] == a[i as int]);
        assert(args@[i as int] == a[i as int]);
        if same_text(args[i].0.as_str(), name) {
            let t = json_text(&args[i].1);
            assert(argument_spec(a.skip(i as int), name@) == Some(
                match a[i as int].1 {
                    Some(v) => Some(v@),
                    None => None,
                },
            ));
            return t;
        }
        assert(a.skip(i as int).drop_first() =~= a.skip(i + 1));
        i = i + 1;
    }
    String::new()
}

/// The tools that the search offers the model.
pub enum ToolKind {
    ArticleSummary,
    CurrentDatetime,
    ArticleDetail,
    ArticleTitleList,
    Unknown,
}

/// The tool that a method name names.
pub open spec fn tool_kind_spec(method: Seq<char>) -> ToolKind {
    if method == "get_article_summary"@ {
        ToolKind::ArticleSummary
    } else if method == "get_current_datetime"@ {
        ToolKind::CurrentDatetime
    } else if method == "get_article_detail"@ {
        ToolKind::ArticleDetail
    } else if method == "get_article_title_list"@ {
        ToolKind::ArticleTitleList
    } else {
        ToolKind::Unknown
    }
}

/// The tool that a method name names.
pub fn tool_kind(method: &str) -> (k: ToolKind)
    ensures
        k == tool_kind_spec(method@),
{
    if same_text(method, "get_article_summary") {
        ToolKind::ArticleSummary
    } else if same_text(method, "get_current_datetime") {
        ToolKind::CurrentDatetime
    } else if same_text(method, "get_article_detail") {
        ToolKind::ArticleDetail
    } else if same_text(method, "get_article_title_list") {
        ToolKind::ArticleTitleList
    } else {
        ToolKind::Unknown
    }
}

/// The most tool calls that one search runs.
pub const TOOL_CALL_LIMIT: usize = 3;

/// How many of the tool calls a search runs: the first ones, at most
/// [`TOOL_CALL_LIMIT`].
pub fn tool_calls_to_run(count: usize) -> (n: usize)
    ensures
        n == if count < TOOL_CALL_LIMIT { count } else { TOOL_CALL_LIMIT },
{
    if count < TOOL_CALL_LIMIT {
        count
    } else {
        TOOL_CALL_LIMIT
    }
}

/// The observation of an article summary.
pub fn summary_observation(query: &str, title: &str, summary: &str) -> (o: String)
    ensures
        o@ == "## Article summary search results with "@ + query@ + "\n### title\n"@ + title@
            + "\n### summary\n"@ + summary@,
{
    let mut o = cat("## Article summary search results with ", query);
    o.append("\n### title\n");
    o.append(title);
    o.append("\n### summary\n");
    o.append(summary);
    o
}

/// The observation of an article summary that was not found.
pub fn summary_not_found(query: &str) -> (o: String)
    ensures
        o@ == "## Article summary search results with "@ + query@ + "\nNot found"@,
{
    let mut o = cat("## Article summary search results with ", query);
    o.append("\nNot found");
    o
}

/// The observation of an article's full text.
pub fn detail_observation(query: &str, full_text: &str) -> (o: String)
    ensures
        o@ == "## Article detail search results with "@ + query@ + "\n### full texts\n"@
            + full_text@,
{
    let mut o = cat("## Article detail search results with ", query);
    o.append("\n### full texts\n");
    o.append(full_text);
    o
}

/// The observation of an article detail that was not found.
pub fn detail_not_found(query: &str) -> (o: String)
    ensures
        o@ == "## Article detail search results with "@ + query@ + "\nNot found"@,
{
    let mut o = cat("## Article detail search results with ", query);
    o.append("\nNot found");
    o
}

/// The observation of the current date and time.
pub fn datetime_observation(value: &str) -> (o: String)
    ensures
        o@ == "## Current datetime\n"@ + value@,
{
    cat("## Current datetime\n", value)
}

/// One line of an article title list.
pub fn title_entry(title: &str, created_at: &str) -> (o: String)
    ensures
        o@ == "- "@ + title@ + ", created at "@ + created_at@,
{
    let mut o = cat("- ", title);
    o.append(", created at ");
    o.append(created_at);
    o
}

/// The observation of an article title list: its offset and limit, then its
/// lines.
pub fn title_list_observation(offset: &str, limit: &str, entries: &Vec<String>) -> (o: String)
    ensures
        o@ == "## Article title list with offset = "@ + offset@ + ", limit = "@ + limit@ + "\n"@
            + join_spec(texts(entries@), "\n"@),
{
    let mut o = cat("## Article title list with offset = ", offset);
    o.append(", limit = ");
    o.append(limit);
    o.append("\n");
    let lines = join(entries, "\n");
    o.append(lines.as_str());
    o
}

/// The text of rich-text pieces: the pieces joined without separator.
pub fn plain_text(pieces: &Vec<String>) -> (t: String)
    ensures
        t@ == join_spec(texts(pieces@), ""@),
{
    join(pieces, "")
}

/// The context that the function-calling agent gets: the keywords under their
/// heading.
pub fn keywords_context(keywords: &str) -> (c: String)
    ensures
        c@ == "## Possible search keywords\n"@ + keywords@,
{
    cat("## Possible search keywords\n", keywords)
}

/// The context of the answer: the vector-search sections, one per line, a
/// line break, then the observations, one per line.
pub fn answer_context(vector_results: &Vec<String>, observations: &Vec<String>) -> (c: String)
    ensures
        c@ == join_spec(texts(vector_results@), "\n"@) + "\n"@ + join_spec(texts(observations@), "\n"@),
{
    let mut c = join(vector_results, "\n");
    c.append("\n");
    let rest = join(observations, "\n");
    c.append(rest.as_str());
    c
}

/// The record of the tool calls of a prompt: one line
/// `function:<name>,arguments:<arguments>` per call (each call given by its
/// name and the text of its arguments), or nothing when there were none.
pub fn tools_prompt(calls: &Option<Vec<(String, String)>>) -> (t: String)
    ensures
        t@ == match calls {
            Some(cs) => join_spec(
                cs@.map_values(|c: (String, String)| "function:"@ + c.0@ + ",arguments:"@ + c.1@),
                "\n"@,
            ),
            None => Seq::empty(),
        },
{
    match calls {
        None => String::new(),
        Some(cs) => {
            let mut lines: Vec<String> = Vec::new();
            for i in 0..cs.len()
                invariant
                    lines@.len() == i,
                    forall|j: int| 0 <= j < i ==> #[trigger] lines@[j]@ == "function:"@ + cs@[j].0@
                        + ",arguments:"@ + cs@[j].1@,
            {
                let mut line = cat("function:", cs[i].0.as_str());
                line.append(",arguments:");
                line.append(cs[i].1.as_str());
                lines.push(line);
            }
            assert(texts(lines@) =~= cs@.map_values(
                |c: (String, String)| "function:"@ + c.0@ + ",arguments:"@ + c.1@,
            ));
            join(&lines, "\n")
        },
    }
}

/// The sampling of the keyword generator: at most 20 tokens.
pub fn keyword_parameters() -> (p: ModelParameters)
    ensures
        p == (ModelParameters {
            max_tokens: Some(20),
            temperature: None,
            top_p: None,
            top_k: None,
            repetition_penalty: None,
            frequency_penalty: None,
            presence_penalty: None,
        }),
{
    ModelParameters {
        max_tokens: Some(20),
        temperature: None,
        top_p: None,
        top_k: None,
        repetition_penalty: None,
        frequency_penalty: None,
        presence_penalty: None,
    }
}

/// The sampling of the function-calling agent: greedy.
pub fn function_call_parameters() -> (p: ModelParameters)
    ensures
        p == (ModelParameters {
            max_tokens: None,
            temperature: Some(0),
            top_p: Some(0),
            top_k: Some(1),
            repetition_penalty: None,
            frequency_penalty: None,
            presence_penalty: None,
        }),
{
    ModelParameters {
        max_tokens: None,
        temperature: Some(0),
        top_p: Some(0),
        top_k: Some(1),
        repetition_penalty: None,
        frequency_penalty: None,
        presence_penalty: None,
    }
}

/// Whether `t` is the function tool `name` with `description`, whose
/// parameters are the object of the string properties `params`, in order,
/// of which `required` are required (`None`: no list of required ones).
pub open spec fn describes_string_tool(
    t: Tool,
    name: Seq<char>,
    description: Seq<char>,
    params: Seq<Seq<char>>,
    required: Option<Seq<Seq<char>>>,
) -> bool {
    &&& t.kind@ == "function"@
    &&& t.function.name@ == name
    &&& t.function.description@ == description
    &&& t.function.parameters matches Some(p) && p.kind@ == "object"@ && texts(
        p.properties@.map_values(|e: (String, PropertyType)| e.0),
    ) == params && (forall|i: int|
        0 <= i < p.properties@.len() ==> #[trigger] p.properties@[i].1 == PropertyType::String)
        && match p.required {
        Some(r) => required == Some(texts(r@)),
        None => required is None,
    }
}

/// A function tool with string parameters.
fn string_tool(name: &str, description: &str, params: Vec<String>, required: Option<Vec<String>>) -> (t:
    Tool)
    ensures
        describes_string_tool(
            t,
            name@,
            description@,
            texts(params@),
            match required {
                Some(r) => Some(texts(r@)),
                None => None,
            },
        ),
{
    let mut properties: Vec<(String, PropertyType)> = Vec::new();
    for i in 0..params.len()
        invariant
            properties@.len() == i,
            forall|j: int| 0 <= j < i ==> (#[trigger] properties@[j]).0@ == params@[j]@ && properties@[j].1
                == PropertyType::String,
    {
        let name_i = copy_text(&params[i]);
        let ghost before = properties@;
        properties.push((name_i, PropertyType::String));
        assert(forall|j: int| 0 <= j < i ==> properties@[j] == before[j]);
    }
    assert(texts(properties@.map_values(|e: (String, PropertyType)| e.0)) =~= texts(params@));
    let t = Tool {
        kind: String::from_str("function"),
        function: Function {
            name: String::from_str(name),
            description: String::from_str(description),
            parameters: Some(
                Parameters { kind: String::from_str("object"), properties, required },
            ),
        },
    };
    proof {
        reveal_strlit("function");
        reveal_strlit("object");
    }
    t
}

/// The tools that the search offers the model, in order: the summary of an
/// article (by a `query`), the detail of an article (by a `query`), the
/// current date and time (in a `timezone`), and the list of article titles
/// (from an `offset`, at most `limit`).
pub fn available_tools() -> (tools: Vec<Tool>)
    ensures
        tools@.len() == 4,
        describes_string_tool(
            tools@[0],
            "get_article_summary"@,
            "Get an article summary which title is similar with a given word. Must be one word."@,
            seq!["query"@],
            Some(seq!["query"@]),
        ),
        describes_string_tool(
            tools@[1],
            "get_article_detail"@,
            "Get an article detail which title is similar with a given word. Must be one word. This may be heavy because of full texts."@,
            seq!["query"@],
            Some(seq!["query"@]),
        ),
        describes_string_tool(
            tools@[2],
            "get_current_datetime"@,
            "Get current datetime"@,
            seq!["timezone"@],
            None,
        ),
        describes_string_tool(
            tools@[3],
            "get_article_title_list"@,
            "Get article title list with created time."@,
            seq!["offset"@, "limit"@],
            Some(seq!["offset"@, "limit"@]),
        ),
{
    let mut tools: Vec<Tool> = Vec::new();
    let query = vec![String::from_str("query")];
    assert(texts(query@) =~= seq!["query"@]);
    let required = vec![String::from_str("query")];
    assert(texts(required@) =~= seq!["query"@]);
    tools.push(
        string_tool(
            "get_article_summary",
            "Get an article summary which title is similar with a given word. Must be one word.",
            query,
            Some(required),
        ),
    );
    let query = vec![String::from_str("query")];
    assert(texts(query@) =~= seq!["query"@]);
    let required = vec![String::from_str("query")];
    assert(texts(required@) =~= seq!["query"@]);
    tools.push(
        string_tool(
            "get_article_detail",
            "Get an article detail which title is similar with a given word. Must be one word. This may be heavy because of full texts.",
            query,
            Some(required),
        ),
    );
    let timezone = vec![String::from_str("timezone")];
    assert(texts(timezone@) =~= seq!["timezone"@]);
    tools.push(string_tool("get_current_datetime", "Get current datetime", timezone, None));
    let window = vec![String::from_str("offset"), String::from_str("limit")];
    assert(texts(window@) =~= seq!["offset"@, "limit"@]);
    let required = vec![String::from_str("offset"), String::from_str("limit")];
    assert(texts(required@) =~= seq!["offset"@, "limit"@]);
    tools.push(
        string_tool(
            "get_article_title_list",
            "Get article title list with created time.",
            window,
            Some(required),
        ),
    );
    tools
}

} // verus!
