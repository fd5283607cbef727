use vstd::prelude::*;
use vstd::string::*;

use notion_client::objects::block::Block;
use notion_client::objects::page::{Page, PageProperty};

use crate::api::search::observation::{
    argument_spec, argument_text, argument_text_spec, datetime_observation, detail_not_found,
    detail_observation, has_argument, summary_not_found, summary_observation, title_entry,
    title_list_observation, tool_calls_to_run, tool_kind, tool_kind_spec, ToolKind,
    TOOL_CALL_LIMIT,
};
use crate::cloudflare::models::text_generation::ToolCall;
use crate::text::{join, join_spec, same_text, texts};

verus! {

/// The view of an optional text.
pub open spec fn option_text(o: Option<String>) -> Option<Seq<char>> {
    match o {
        Some(s) => Some(s@),
        None => None,
    }
}

/// The views of optional texts.
pub open spec fn option_texts(v: Seq<Option<String>>) -> Seq<Option<Seq<char>>> {
    v.map_values(|o: Option<String>| option_text(o))
}

/// The plain texts of the rich-text pieces of the property `property` of a
/// Notion page stored as the JSON text `contents`: `None` when the contents
/// are not a page, `Some(None)` when the page has no rich-text property of
/// that name, and otherwise the plain text of each piece, where it has one.
pub uninterp spec fn page_property_pieces(contents: Seq<char>, property: Seq<char>) -> Option<
    Option<Seq<Option<Seq<char>>>>,
>;

/// Parses `contents` as a `notion_client` `Page` with `serde_json` and reads
/// the property `property`: when it is rich text, `RichText::plain_text` of
/// each piece. Claimed: the outcome depends on the two texts alone.
#[verifier::external_body]
pub(crate) fn property_pieces(contents: &str, property: &str) -> (r: Option<
    Option<Vec<Option<String>>>,
>)
    ensures
        match r {
            None => page_property_pieces(contents@, property@) is None,
            Some(None) => page_property_pieces(contents@, property@) == Some(
                None::<Seq<Option<Seq<char>>>>,
            ),
            Some(Some(v)) => page_property_pieces(contents@, property@) == Some(
                Some(option_texts(v@)),
            ),
        },
{
    let page = serde_json::from_str::<Page>(contents).ok()?;
    match page.properties.get(property) {
        Some(PageProperty::RichText { rich_text, .. }) => {
            Some(Some(rich_text.iter().map(|t| t.plain_text()).collect()))
        },
        _ => Some(None),
    }
}

/// The plain texts of the blocks stored as the JSON text `contents`, block by
/// block: `None` when the contents are not a list of Notion blocks.
pub uninterp spec fn blocks_plain_texts(contents: Seq<char>) -> Option<Seq<Seq<Option<Seq<char>>>>>;

/// Parses `contents` as a list of `notion_client` `Block`s with `serde_json`
/// and gives `BlockType::plain_text` of each. Claimed: the outcome depends on
/// the text alone.
#[verifier::external_body]
pub(crate) fn block_pieces(contents: &str) -> (r: Option<Vec<Vec<Option<String>>>>)
    ensures
        match r {
            None => blocks_plain_texts(contents@) is None,
            Some(v) => blocks_plain_texts(contents@) == Some(
                v@.map_values(|b: Vec<Option<String>>| option_texts(b@)),
            ),
        },
{
    let blocks = serde_json::from_str::<Vec<Block>>(contents).ok()?;
    Some(blocks.iter().map(|b| b.block_type.plain_text()).collect())
}

/// The texts among `pieces`, in order.
pub open spec fn present_texts(pieces: Seq<Option<Seq<char>>>) -> Seq<Seq<char>>
    decreases pieces.len(),
{
    if pieces.len() == 0 {
        Seq::empty()
    } else {
        let init = present_texts(pieces.drop_last());
        match pieces.last() {
            Some(t) => init.push(t),
            None => init,
        }
    }
}

/// The texts of the blocks, block after block.
pub open spec fn block_texts(blocks: Seq<Seq<Option<Seq<char>>>>) -> Seq<Seq<char>>
    decreases blocks.len(),
{
    if blocks.len() == 0 {
        Seq::empty()
    } else {
        block_texts(blocks.drop_last()) + present_texts(blocks.last())
    }
}

/// The texts of pieces laid end to end are the texts of each part, in order.
pub proof fn present_texts_of_concatenation(a: Seq<Option<Seq<char>>>, b: Seq<Option<Seq<char>>>)
    ensures
        present_texts(a + b) == present_texts(a) + present_texts(b),
    decreases b.len(),
{
    if b.len() == 0 {
        assert(a + b =~= a);
        assert(present_texts(a) + present_texts(b) =~= present_texts(a));
    } else {
        assert((a + b).drop_last() =~= a + b.drop_last());
        present_texts_of_concatenation(a, b.drop_last());
        match b.last() {
            Some(t) => {
                assert(present_texts(a) + present_texts(b.drop_last()).push(t) =~= (present_texts(a)
                    + present_texts(b.drop_last())).push(t));
            },
            None => {},
        }
    }
}

/// One piece gives its text when it has one, and nothing otherwise.
pub proof fn present_texts_of_one(p: Option<Seq<char>>)
    ensures
        present_texts(seq![p]) == match p {
            Some(t) => seq![t],
            None => Seq::<Seq<char>>::empty(),
        },
{
    assert(seq![p].drop_last() =~= Seq::<Option<Seq<char>>>::empty());
    assert(present_texts(Seq::<Option<Seq<char>>>::empty()) == Seq::<Seq<char>>::empty());
    assert(seq![p].last() == p);
    assert(Seq::<Seq<char>>::empty().push(p->0) =~= seq![p->0]);
}

/// The texts of blocks laid end to end are the texts of each part, in order:
/// no block loses or adds a piece.
pub proof fn block_texts_of_concatenation(a: Seq<Seq<Option<Seq<char>>>>, b: Seq<Seq<Option<Seq<char>>>>)
    ensures
        block_texts(a + b) == block_texts(a) + block_texts(b),
    decreases b.len(),
{
    if b.len() == 0 {
        assert(a + b =~= a);
        assert(block_texts(a) + block_texts(b) =~= block_texts(a));
    } else {
        assert((a + b).drop_last() =~= a + b.drop_last());
        block_texts_of_concatenation(a, b.drop_last());
        assert(block_texts(a) + (block_texts(b.drop_last()) + present_texts(b.last())) =~= (
        block_texts(a) + block_texts(b.drop_last())) + present_texts(b.last()));
    }
}

/// One block gives all the texts among its pieces.
pub proof fn block_texts_of_one(b: Seq<Option<Seq<char>>>)
    ensures
        block_texts(seq![b]) == present_texts(b),
{
    assert(seq![b].drop_last() =~= Seq::<Seq<Option<Seq<char>>>>::empty());
    assert(block_texts(Seq::<Seq<Option<Seq<char>>>>::empty()) == Seq::<Seq<char>>::empty());
    assert(seq![b].last() == b);
    assert(Seq::<Seq<char>>::empty() + present_texts(b) =~= present_texts(b));
}

/// Appends the texts among `pieces` to `out`.
fn push_present(out: &mut Vec<String>, pieces: &Vec<Option<String>>)
    ensures
        texts(final(out)@) == texts(old(out)@) + present_texts(option_texts(pieces@)),
{
    let ghost start = texts(out@);
    let ghost p = option_texts(pieces@);
    assert(p.take(0) =~= Seq::<Option<Seq<char>>>::empty());
    assert(start + present_texts(p.take(0)) =~= start);
    for i in 0..pieces.len()
        invariant
            p == option_texts(pieces@),
            texts(out@) == start + present_texts(p.take(i as int)),
    {
        assert(p.take(i + 1).drop_last() =~= p.take(i as int));
        assert(p.take(i + 1).last() == option_text(pieces@[i as int]));
        match &pieces[i] {
            Some(t) => {
                let ghost before = texts(out@);
                out.push(t.clone());
                assert(texts(out@) =~= before.push(t@));
            },
            None => {},
        }
        assert(start + present_texts(p.take(i + 1)) =~= texts(out@));
    }
    assert(p.take(pieces@.len() as int) =~= p);
}

/// The texts among `pieces`, joined without separator.
pub fn pieces_text(pieces: &Vec<Option<String>>) -> (t: String)
    ensures
        t@ == join_spec(present_texts(option_texts(pieces@)), ""@),
{
    let mut out: Vec<String> = Vec::new();
    push_present(&mut out, pieces);
    assert(texts(out@) =~= present_texts(option_texts(pieces@)));
    join(&out, "")
}

/// The texts of the blocks, block after block, joined without separator.
pub fn blocks_text(blocks: &Vec<Vec<Option<String>>>) -> (t: String)
    ensures
        t@ == join_spec(
            block_texts(blocks@.map_values(|b: Vec<Option<String>>| option_texts(b@))),
            ""@,
        ),
{
    let ghost bs = blocks@.map_values(|b: Vec<Option<String>>| option_texts(b@));
    let mut out: Vec<String> = Vec::new();
    assert(bs.take(0) =~= Seq::<Seq<Option<Seq<char>>>>::empty());
    for i in 0..blocks.len()
        invariant
            bs == blocks@.map_values(|b: Vec<Option<String>>| option_texts(b@)),
            texts(out@) == block_texts(bs.take(i as int)),
    {
        assert(bs.take(i + 1).drop_last() =~= bs.take(i as int));
        assert(bs.take(i + 1).last() == option_texts(blocks@[i as int]@));
        push_present(&mut out, &blocks[i]);
    }
    assert(bs.take(blocks@.len() as int) =~= bs);
    join(&out, "")
}

/// A page as the summary route returns it: its Notion id, its title, and the
/// page itself as stored JSON.
pub struct StoredPage {
    pub page_id: String,
    pub title: String,
    pub contents: String,
}

/// An article's blocks as the detail route returns them: the Notion id of the
/// page, and its blocks as stored JSON.
pub struct StoredBlock {
    pub page_id: String,
    pub contents: String,
}

/// What a tool's route gave back, read as the value its method returns.
pub enum RpcOutcome {
    /// The page whose title is closest to the query, if any.
    Summary(Option<StoredPage>),
    /// The blocks of the article closest to the query, if any.
    Detail(Option<StoredBlock>),
    /// The current date and time, as the JSON text of the route's value.
    Datetime(String),
    /// The articles of the window asked for: each title with its creation
    /// time in RFC 3339.
    TitleList(Vec<(String, String)>),
    /// A value that is not what the method returns.
    Unreadable,
}

/// The JSON text of the argument `name` of a call (see `argument_text`).
pub open spec fn arg(call: ToolCall, name: Seq<char>) -> Seq<char> {
    argument_text_spec(call, name)
}

/// The lines of an article title list.
pub open spec fn title_lines(entries: Seq<(String, String)>) -> Seq<Seq<char>> {
    entries.map_values(|e: (String, String)| "- "@ + e.0@ + ", created at "@ + e.1@)
}

/// Whether observing `outcome` for `call` reads only arguments that the call
/// has: the query of a summary or detail that is reported (found with its
/// text, or not found), and the offset and limit of a title list.
pub open spec fn observable(call: ToolCall, outcome: RpcOutcome) -> bool {
    match tool_kind_spec(call.name@) {
        ToolKind::ArticleSummary => match outcome {
            RpcOutcome::Summary(None) => has_argument(call, "query"@),
            RpcOutcome::Summary(Some(p)) => page_property_pieces(p.contents@, "summary"@) matches Some(
                Some(_),
            ) ==> has_argument(call, "query"@),
            _ => true,
        },
        ToolKind::ArticleDetail => match outcome {
            RpcOutcome::Detail(None) => has_argument(call, "query"@),
            RpcOutcome::Detail(Some(b)) => blocks_plain_texts(b.contents@) is Some ==> has_argument(
                call,
                "query"@,
            ),
            _ => true,
        },
        ToolKind::ArticleTitleList => match outcome {
            RpcOutcome::TitleList(_) => has_argument(call, "offset"@) && has_argument(call, "limit"@),
            _ => true,
        },
        _ => true,
    }
}

/// What a call's outcome adds to the search: an observation for the answer,
/// and the page it read, if any.
/// - A summary: the page's title and the text of its `summary` rich-text
///   property, and its page id; "Not found" when there is no page; nothing
///   when the page cannot be read or has no such property.
/// - A detail: the plain text of the blocks, and the page id; "Not found"
///   when there are no blocks; nothing when they cannot be read.
/// - The date and time: the route's value.
/// - A title list: one line per article under the window asked for.
/// - Nothing for another method, or a value of the wrong shape.
pub open spec fn observe_spec(call: ToolCall, outcome: RpcOutcome) -> (Option<Seq<char>>, Option<
    Seq<char>,
>) {
    let query = arg(call, "query"@);
    match tool_kind_spec(call.name@) {
        ToolKind::ArticleSummary => match outcome {
            RpcOutcome::Summary(None) => (
                Some("## Article summary search results with "@ + query + "\nNot found"@),
                None,
            ),
            RpcOutcome::Summary(Some(p)) => match page_property_pieces(p.contents@, "summary"@) {
                Some(Some(pieces)) => (
                    Some(
                        "## Article summary search results with "@ + query + "\n### title\n"@ + p.title@
                            + "\n### summary\n"@ + join_spec(present_texts(pieces), ""@),
                    ),
                    Some(p.page_id@),
                ),
                _ => (None, None),
            },
            _ => (None, None),
        },
        ToolKind::ArticleDetail => match outcome {
            RpcOutcome::Detail(None) => (
                Some("## Article detail search results with "@ + query + "\nNot found"@),
                None,
            ),
            RpcOutcome::Detail(Some(b)) => match blocks_plain_texts(b.contents@) {
                Some(blocks) => (
                    Some(
                        "## Article detail search results with "@ + query + "\n### full texts\n"@
                            + join_spec(block_texts(blocks), ""@),
                    ),
                    Some(b.page_id@),
                ),
                None => (None, None),
            },
            _ => (None, None),
        },
        ToolKind::CurrentDatetime => match outcome {
            RpcOutcome::Datetime(v) => (Some("## Current datetime\n"@ + v@), None),
            _ => (None, None),
        },
        ToolKind::ArticleTitleList => match outcome {
            RpcOutcome::TitleList(entries) => (
                Some(
                    "## Article title list with offset = "@ + arg(call, "offset"@) + ", limit = "@ + arg(
                        call,
                        "limit"@,
                    ) + "\n"@ + join_spec(title_lines(entries@), "\n"@),
                ),
                None,
            ),
            _ => (None, None),
        },
        ToolKind::Unknown => (None, None),
    }
}

/// What a call's outcome adds to the search (see [`observe_spec`]).
pub fn observe(call: &ToolCall, outcome: &RpcOutcome) -> (r: (Option<String>, Option<String>))
    requires
        observable(*call, *outcome),
    ensures
        (option_text(r.0), option_text(r.1)) == observe_spec(*call, *outcome),
{
    match tool_kind(call.name.as_str()) {
        ToolKind::ArticleSummary => match outcome {
            RpcOutcome::Summary(None) => {
                let query = argument_text(call, "query");
                (Some(summary_not_found(query.as_str())), None)
            },
            RpcOutcome::Summary(Some(p)) => match property_pieces(p.contents.as_str(), "summary") {
                Some(Some(pieces)) => {
                    let query = argument_text(call, "query");
                    let summary = pieces_text(&pieces);
                    (
                        Some(summary_observation(query.as_str(), p.title.as_str(), summary.as_str())),
                        Some(p.page_id.clone()),
                    )
                },
                _ => (None, None),
            },
            _ => (None, None),
        },
        ToolKind::ArticleDetail => match outcome {
            RpcOutcome::Detail(None) => {
                let query = argument_text(call, "query");
                (Some(detail_not_found(query.as_str())), None)
            },
            RpcOutcome::Detail(Some(b)) => match block_pieces(b.contents.as_str()) {
                Some(blocks) => {
                    let query = argument_text(call, "query");
                    let full = blocks_text(&blocks);
                    (Some(detail_observation(query.as_str(), full.as_str())), Some(b.page_id.clone()))
                },
                None => (None, None),
            },
            _ => (None, None),
        },
        ToolKind::CurrentDatetime => match outcome {
            RpcOutcome::Datetime(v) => (Some(datetime_observation(v.as_str())), None),
            _ => (None, None),
        },
        ToolKind::ArticleTitleList => match outcome {
            RpcOutcome::TitleList(entries) => {
                let offset = argument_text(call, "offset");
                let limit = argument_text(call, "limit");
                let mut lines: Vec<String> = Vec::new();
                for i in 0..entries.len()
                    invariant
                        lines@.len() == i,
                        forall|j: int|
                            0 <= j < i ==> #[trigger] lines@[j]@ == "- "@ + entries@[j].0@
                                + ", created at "@ + entries@[j].1@,
                {
                    lines.push(title_entry(entries[i].0.as_str(), entries[i].1.as_str()));
                }
                assert(texts(lines@) =~= title_lines(entries@));
                (Some(title_list_observation(offset.as_str(), limit.as_str(), &lines)), None)
            },
            _ => (None, None),
        },
        ToolKind::Unknown => (None, None),
    }
}

/// `s` with `o` appended when it is there.
pub open spec fn push_some(s: Seq<Seq<char>>, o: Option<Seq<char>>) -> Seq<Seq<char>> {
    match o {
        Some(t) => s.push(t),
        None => s,
    }
}

/// The observations and page ids that the outcomes of the first calls give,
/// in call order; a call whose route failed (`None`) gives nothing.
pub open spec fn observed(calls: Seq<ToolCall>, outcomes: Seq<Option<RpcOutcome>>) -> (
    Seq<Seq<char>>,
    Seq<Seq<char>>,
)
    decreases outcomes.len(),
{
    if outcomes.len() == 0 {
        (Seq::empty(), Seq::empty())
    } else {
        let prev = observed(calls, outcomes.drop_last());
        match outcomes.last() {
            Some(o) => {
                let (observation, page_id) = observe_spec(calls[outcomes.len() - 1], o);
                (push_some(prev.0, observation), push_some(prev.1, page_id))
            },
            None => prev,
        }
    }
}

/// Whether the outcomes answer the calls that a search runs, one each, and
/// each can be observed.
pub open spec fn outcomes_fit(calls: Seq<ToolCall>, outcomes: Seq<Option<RpcOutcome>>) -> bool {
    &&& outcomes.len() == if calls.len() < TOOL_CALL_LIMIT { calls.len() } else { TOOL_CALL_LIMIT as nat }
    &&& forall|i: int|
        0 <= i < outcomes.len() ==> (#[trigger] outcomes[i] matches Some(o) ==> observable(calls[i], o))
}

/// The observations and page ids of the calls that a search runs, given the
/// outcome of each call's route, in call order.
pub fn observations(calls: &Vec<ToolCall>, outcomes: &Vec<Option<RpcOutcome>>) -> (r: (
    Vec<String>,
    Vec<String>,
))
    requires
        outcomes_fit(calls@, outcomes@),
    ensures
        (texts(r.0@), texts(r.1@)) == observed(calls@, outcomes@),
{
    let mut found: Vec<String> = Vec::new();
    let mut page_ids: Vec<String> = Vec::new();
    let n = tool_calls_to_run(calls.len());
    assert(outcomes@.take(0) =~= Seq::<Option<RpcOutcome>>::empty());
    for i in 0..n
        invariant
            n == outcomes@.len(),
            n <= calls@.len(),
            outcomes_fit(calls@, outcomes@),
            (texts(found@), texts(page_ids@)) == observed(calls@, outcomes@.take(i as int)),
    {
        let ghost prev = outcomes@.take(i as int);
        assert(outcomes@.take(i + 1).drop_last() =~= prev);
        assert(outcomes@.take(i + 1).last() == outcomes@[i as int]);
        match &outcomes[i] {
            Some(o) => {
                assert(outcomes@[i as int] matches Some(x) ==> observable(calls@[i as int], x));
                let (observation, page_id) = observe(&calls[i], o);
                match observation {
                    Some(t) => {
                        let ghost before = texts(found@);
                        found.push(t);
                        assert(texts(found@) =~= before.push(t@));
                    },
                    None => {},
                }
                match page_id {
                    Some(t) => {
                        let ghost before = texts(page_ids@);
                        page_ids.push(t);
                        assert(texts(page_ids@) =~= before.push(t@));
                    },
                    None => {},
                }
            },
            None => {},
        }
    }
    assert(outcomes@.take(n as int) =~= outcomes@);
    (found, page_ids)
}

/// Whether a call has an argument named `name`.
pub fn argument_present(call: &ToolCall, name: &str) -> (b: bool)
    ensures
        b == has_argument(*call, name@),
{
    let args = match &call.arguments {
        Some(a) => a,
        None => {
            return false;
        },
    };
    let ghost a = args@;
    let mut i: usize = 0;
    assert(call.arguments is Some && a == call.arguments->0@);
    assert(a.skip(0) =~= a);
    while i < args.len()
        invariant
            a == args@,
            call.arguments is Some,
            a == call.arguments->0@,
            i <= a.len(),
            argument_spec(a, name@) == argument_spec(a.skip(i as int), name@),
        decreases args.len() - i,
    {
        assert(a.skip(i as int)[0] == a[i as int]);
        assert(args@[i as int] == a[i as int]);
        if same_text(args[i].0.as_str(), name) {
            assert(argument_spec(a.skip(i as int), name@) is Some);
            return true;
        }
        assert(a.skip(i as int).drop_first() =~= a.skip(i + 1));
        i = i + 1;
    }
    assert(a.skip(i as int) =~= Seq::<(String, Option<String>)>::empty());
    assert(argument_spec(a, name@) is None);
    false
}

/// Whether observing `outcome` for `call` reads only arguments that the call
/// has (see [`observable`]).
pub fn is_observable(call: &ToolCall, outcome: &RpcOutcome) -> (b: bool)
    ensures
        b == observable(*call, *outcome),
{
    match tool_kind(call.name.as_str()) {
        ToolKind::ArticleSummary => match outcome {
            RpcOutcome::Summary(None) => argument_present(call, "query"),
            RpcOutcome::Summary(Some(p)) => match property_pieces(p.contents.as_str(), "summary") {
                Some(Some(_)) => argument_present(call, "query"),
                _ => true,
            },
            _ => true,
        },
        ToolKind::ArticleDetail => match outcome {
            RpcOutcome::Detail(None) => argument_present(call, "query"),
            RpcOutcome::Detail(Some(b)) => match block_pieces(b.contents.as_str()) {
                Some(_) => argument_present(call, "query"),
                None => true,
            },
            _ => true,
        },
        ToolKind::ArticleTitleList => match outcome {
            RpcOutcome::TitleList(_) => argument_present(call, "offset") && argument_present(
                call,
                "limit",
            ),
            _ => true,
        },
        _ => true,
    }
}

/// The observations and page ids of a search's calls, as [`observations`]
/// gives them, or `None` when the outcomes do not answer the calls that the
/// search runs, one each, or an outcome would be reported under an argument
/// that its call lacks.
pub fn observations_checked(calls: &Vec<ToolCall>, outcomes: &Vec<Option<RpcOutcome>>) -> (r:
    Option<(Vec<String>, Vec<String>)>)
    ensures
        r is Some <==> outcomes_fit(calls@, outcomes@),
        r matches Some(v) ==> (texts(v.0@), texts(v.1@)) == observed(calls@, outcomes@),
{
    if outcomes.len() != tool_calls_to_run(calls.len()) {
        return None;
    }
    for i in 0..outcomes.len()
        invariant
            outcomes@.len() <= calls@.len(),
            forall|j: int|
                0 <= j < i ==> (#[trigger] outcomes@[j] matches Some(o) ==> observable(calls@[j], o)),
    {
        match &outcomes[i] {
            Some(o) => {
                if !is_observable(&calls[i], o) {
                    return None;
                }
            },
            None => {},
        }
    }
    Some(observations(calls, outcomes))
}

} // verus!
