use vstd::prelude::*;

use crate::cloudflare::models::text_generation::{messages_view, Message, MessageView};
use crate::text::{
    occurs_at, replace_without_occurrence, chars_of, copy_text, lemma_filter_take_step, replace, replace_spec, same_text, string_from,
};

pub mod function_call;
pub mod question_and_answer;

verus! {

/// The role of the instructions given to the model.
pub open spec fn role_system() -> Seq<char> {
    seq!['s', 'y', 's', 't', 'e', 'm']
}

/// The role of the person who asks.
pub open spec fn role_user() -> Seq<char> {
    seq!['u', 's', 'e', 'r']
}

/// The role of the model that answers.
pub open spec fn role_assistant() -> Seq<char> {
    seq!['a', 's', 's', 'i', 's', 't', 'a', 'n', 't']
}

/// The slot of a template that the prompt fills.
pub open spec fn prompt_slot() -> Seq<char> {
    seq!['{', '{', 'p', 'r', 'o', 'm', 'p', 't', '}', '}']
}

/// The slot of a template that the context fills.
pub open spec fn context_slot() -> Seq<char> {
    seq!['{', '{', 'c', 'o', 'n', 't', 'e', 'x', 't', '}', '}']
}

/// A template with its prompt slots filled first, then its context slots.
pub open spec fn render(template: Seq<char>, prompt: Seq<char>, context: Seq<char>) -> Seq<char> {
    replace_spec(replace_spec(template, prompt_slot(), prompt), context_slot(), context)
}

/// Whether a message is spoken in `role`.
pub open spec fn has_role(role: Seq<char>) -> spec_fn(MessageView) -> bool {
    |m: MessageView| m.role == role
}

/// The messages of `h` spoken in `role`, in order.
pub open spec fn with_role(h: Seq<MessageView>, role: Seq<char>) -> Seq<MessageView> {
    h.filter(has_role(role))
}

/// The content of the `i`-th system message of `h`, or nothing.
pub open spec fn context_at(h: Seq<MessageView>, i: int) -> Seq<char> {
    let cs = with_role(h, role_system());
    if 0 <= i < cs.len() {
        cs[i].content
    } else {
        Seq::empty()
    }
}

/// The earlier turns: each user message rendered through the template with the
/// system message of the same rank as its context, each followed by the
/// assistant message of the same rank.
pub open spec fn history_turns(h: Seq<MessageView>, template: Seq<char>) -> Seq<MessageView> {
    let users = with_role(h, role_user());
    let assistants = with_role(h, role_assistant());
    Seq::new(
        2 * users.len(),
        |k: int|
            if k % 2 == 0 {
                MessageView {
                    role: users[k / 2].role,
                    content: render(template, users[k / 2].content, context_at(h, k / 2)),
                }
            } else {
                assistants[k / 2]
            },
    )
}

/// The text that an optional context stands for.
pub open spec fn context_text(context: Option<Seq<char>>) -> Seq<char> {
    match context {
        Some(c) => c,
        None => Seq::empty(),
    }
}

/// The messages sent to the model: the system prompt, the earlier turns, and
/// the new prompt rendered through the template with its context.
pub open spec fn conversation_spec(
    h: Seq<MessageView>,
    system_prompt: Seq<char>,
    template: Seq<char>,
    prompt: Seq<char>,
    context: Seq<char>,
) -> Seq<MessageView> {
    seq![MessageView { role: role_system(), content: system_prompt }] + history_turns(h, template)
        + seq![MessageView { role: role_user(), content: render(template, prompt, context) }]
}

/// Whether a message says something.
pub open spec fn is_spoken() -> spec_fn(MessageView) -> bool {
    |m: MessageView| m.content.len() > 0
}

/// The messages of `ms` whose content is not empty.
pub open spec fn spoken(ms: Seq<MessageView>) -> Seq<MessageView> {
    ms.filter(is_spoken())
}

/// A history that the conversation can be built from: every user message
/// has its assistant answer.
pub open spec fn answered(h: Seq<MessageView>) -> bool {
    with_role(h, role_user()).len() <= with_role(h, role_assistant()).len()
}

/// Whether every user message of a history has its assistant answer: there
/// are at least as many assistant messages as user messages.
pub fn is_answered(history: &Vec<Message>) -> (b: bool)
    ensures
        b == answered(messages_view(history@)),
{
    let users = messages_with_role(history, "user");
    let assistants = messages_with_role(history, "assistant");
    proof {
        reveal_strlit("user");
        reveal_strlit("assistant");
        assert("user"@ =~= role_user());
        assert("assistant"@ =~= role_assistant());
    }
    assert(messages_view(users@).len() == users@.len());
    assert(messages_view(assistants@).len() == assistants@.len());
    users.len() <= assistants.len()
}

/// The role `system`.
pub fn system_role() -> (s: String)
    ensures
        s@ == role_system(),
{
    let s = String::from_str("system");
    proof {
        reveal_strlit("system");
    }
    assert(s@ =~= role_system());
    s
}

/// The role `user`.
pub fn user_role() -> (s: String)
    ensures
        s@ == role_user(),
{
    let s = String::from_str("user");
    proof {
        reveal_strlit("user");
    }
    assert(s@ =~= role_user());
    s
}

/// The role `assistant`.
pub fn assistant_role() -> (s: String)
    ensures
        s@ == role_assistant(),
{
    let s = String::from_str("assistant");
    proof {
        reveal_strlit("assistant");
    }
    assert(s@ =~= role_assistant());
    s
}

/// Fills the slots of a template: `{{prompt}}` with the prompt, then
/// `{{context}}` with the context.
pub fn render_template(template: &str, prompt: &str, context: &str) -> (out: String)
    ensures
        out@ == render(template@, prompt@, context@),
{
    let ps = chars_of("{{prompt}}");
    let cs = chars_of("{{context}}");
    proof {
        reveal_strlit("{{prompt}}");
        reveal_strlit("{{context}}");
        assert(ps@ =~= prompt_slot());
        assert(cs@ =~= context_slot());
    }
    let t = chars_of(template);
    let p = chars_of(prompt);
    let c = chars_of(context);
    let first = replace(&t, &ps, &p);
    let second = replace(&first, &cs, &c);
    string_from(&second)
}

/// The messages of `history` spoken in `role`, in order.
pub fn messages_with_role(history: &Vec<Message>, role: &str) -> (r: Vec<Message>)
    ensures
        messages_view(r@) == with_role(messages_view(history@), role@),
{
    let ghost hv = messages_view(history@);
    let mut r: Vec<Message> = Vec::new();
    assert(hv.take(0).filter(has_role(role@)) =~= Seq::<MessageView>::empty()) by {
        reveal_with_fuel(Seq::<_>::filter, 1);
    }
    for i in 0..history.len()
        invariant
            hv == messages_view(history@),
            messages_view(r@) == hv.take(i as int).filter(has_role(role@)),
    {
        proof {
            lemma_filter_take_step(hv, has_role(role@), i as int);
        }
        if same_text(history[i].role.as_str(), role) {
            let m = history[i].clone();
            r.push(m);
            assert(messages_view(r@) =~= hv.take(i as int).filter(has_role(role@)).push(hv[i as int]));
        }
    }
    assert(hv.take(history.len() as int) =~= hv);
    r
}

/// The messages of `ms` whose content is not empty, in order.
pub fn spoken_messages(ms: Vec<Message>) -> (r: Vec<Message>)
    ensures
        messages_view(r@) == spoken(messages_view(ms@)),
{
    let ghost mv = messages_view(ms@);
    let mut r: Vec<Message> = Vec::new();
    assert(mv.take(0).filter(is_spoken()) =~= Seq::<MessageView>::empty()) by {
        reveal_with_fuel(Seq::<_>::filter, 1);
    }
    for i in 0..ms.len()
        invariant
            mv == messages_view(ms@),
            messages_view(r@) == mv.take(i as int).filter(is_spoken()),
    {
        proof {
            lemma_filter_take_step(mv, is_spoken(), i as int);
        }
        if !ms[i].content.as_str().is_empty() {
            let m = ms[i].clone();
            r.push(m);
            assert(messages_view(r@) =~= mv.take(i as int).filter(is_spoken()).push(mv[i as int]));
        }
    }
    assert(mv.take(ms.len() as int) =~= mv);
    r
}

/// Builds the messages sent to the model from a history: the system prompt
/// first, then each user message of the history rendered through the template
/// (with the system message of the same rank as its context) and followed by
/// the assistant message of the same rank, then the new prompt rendered
/// through the template with the given context.
pub fn conversation(
    history: &Vec<Message>,
    system_prompt: &String,
    template: &str,
    prompt: &str,
    context: Option<&str>,
) -> (out: Vec<Message>)
    requires
        answered(messages_view(history@)),
    ensures
        messages_view(out@) == conversation_spec(
            messages_view(history@),
            system_prompt@,
            template@,
            prompt@,
            context_text(match context { Some(c) => Some(c@), None => None }),
        ),
{
    let ghost hv = messages_view(history@);
    let contexts = messages_with_role(history, "system");
    let users = messages_with_role(history, "user");
    let assistants = messages_with_role(history, "assistant");
    proof {
        reveal_strlit("system");
        reveal_strlit("user");
        reveal_strlit("assistant");
        assert("system"@ =~= role_system());
        assert("user"@ =~= role_user());
        assert("assistant"@ =~= role_assistant());
    }
    let ghost turns = history_turns(hv, template@);
    let mut out: Vec<Message> = Vec::new();
    out.push(Message { role: system_role(), content: copy_text(system_prompt) });
    for i in 0..users.len()
        invariant
            hv == messages_view(history@),
            turns == history_turns(hv, template@),
            messages_view(contexts@) == with_role(hv, role_system()),
            messages_view(users@) == with_role(hv, role_user()),
            messages_view(assistants@) == with_role(hv, role_assistant()),
            users@.len() <= assistants@.len(),
            out@.len() == 1 + 2 * i,
            out@[0]@ == (MessageView { role: role_system(), content: system_prompt@ }),
            forall|k: int| 0 <= k < 2 * i ==> #[trigger] out@[1 + k]@ == turns[k],
    {
        let ctx = if i < contexts.len() {
            copy_text(&contexts[i].content)
        } else {
            String::new()
        };
        assert(ctx@ == context_at(hv, i as int)) by {
            if i < contexts.len() {
                assert(messages_view(contexts@)[i as int] == contexts@[i as int]@);
            }
        }
        assert(messages_view(users@)[i as int] == users@[i as int]@);
        assert(messages_view(assistants@)[i as int] == assistants@[i as int]@);
        let content = render_template(template, users[i].content.as_str(), ctx.as_str());
        let ghost before = out@;
        out.push(Message { role: copy_text(&users[i].role), content });
        out.push(assistants[i].clone());
        assert forall|k: int| 0 <= k < 2 * (i + 1) implies #[trigger] out@[1 + k]@ == turns[k] by {
            if k < 2 * i {
                assert(out@[1 + k] == before[1 + k]);
            } else if k == 2 * i {
                assert(k / 2 == i);
            } else {
                assert(k / 2 == i);
            }
        }
    }
    let ctx = match context {
        Some(c) => String::from_str(c),
        None => String::new(),
    };
    let ghost ctx_view = context_text(match context { Some(c) => Some(c@), None => None });
    assert(ctx@ == ctx_view);
    let last = render_template(template, prompt, ctx.as_str());
    let ghost before = out@;
    out.push(Message { role: user_role(), content: last });
    let ghost want = conversation_spec(hv, system_prompt@, template@, prompt@, ctx_view);
    assert(turns.len() == 2 * users@.len());
    assert(want.len() == out@.len());
    assert forall|k: int| 0 <= k < out@.len() implies #[trigger] messages_view(out@)[k] == want[k] by {
        if k == 0 {
        } else if k < out@.len() - 1 {
            assert(out@[k] == before[k]);
            assert(out@[1 + (k - 1)]@ == turns[k - 1]);
        } else {
        }
    }
    assert(messages_view(out@) =~= want);
    out
}

/// A template without slots renders to itself, whatever the prompt and the
/// context.
pub proof fn template_without_slots_is_kept(template: Seq<char>, prompt: Seq<char>, context: Seq<char>)
    requires
        forall|i: int| !occurs_at(template, i, prompt_slot()),
        forall|i: int| !occurs_at(template, i, context_slot()),
    ensures
        render(template, prompt, context) == template,
{
    replace_without_occurrence(template, prompt_slot(), prompt);
    replace_without_occurrence(template, context_slot(), context);
}

/// The conversation opens with the system prompt and closes with the rendered
/// prompt as a user message; in between, each earlier user message comes in
/// order, followed by an assistant message.
pub proof fn conversation_shape(
    h: Seq<MessageView>,
    system_prompt: Seq<char>,
    template: Seq<char>,
    prompt: Seq<char>,
    context: Seq<char>,
)
    ensures
        ({
            let c = conversation_spec(h, system_prompt, template, prompt, context);
            let n = with_role(h, role_user()).len();
            &&& c.len() == 2 * n + 2
            &&& c[0] == MessageView { role: role_system(), content: system_prompt }
            &&& c[c.len() - 1] == MessageView {
                role: role_user(),
                content: render(template, prompt, context),
            }
            &&& forall|k: int| 0 <= k < n ==> (#[trigger] c[1 + 2 * k]).role == role_user()
            &&& forall|k: int|
                0 <= k < n && k < with_role(h, role_assistant()).len() ==> (#[trigger] c[2 + 2
                    * k]).role == role_assistant()
        }),
{
    let c = conversation_spec(h, system_prompt, template, prompt, context);
    let users = with_role(h, role_user());
    let assistants = with_role(h, role_assistant());
    let turns = history_turns(h, template);
    assert forall|k: int| 0 <= k < users.len() implies (#[trigger] c[1 + 2 * k]).role == role_user() by {
        assert(c[1 + 2 * k] == turns[2 * k]);
        assert((2 * k) / 2 == k);
        h.lemma_filter_pred(has_role(role_user()), k);
    }
    assert forall|k: int| 0 <= k < users.len() && k < assistants.len() implies (#[trigger] c[2 + 2
        * k]).role == role_assistant() by {
        assert(c[2 + 2 * k] == turns[2 * k + 1]);
        assert((2 * k + 1) / 2 == k);
        assert((2 * k + 1) % 2 == 1);
        h.lemma_filter_pred(has_role(role_assistant()), k);
    }
}

/// In the conversation, the `k`-th earlier user message is rendered through
/// the template with the `k`-th system message of the history as its context
/// (nothing when the history has fewer system messages), and is followed by
/// the `k`-th assistant message of the history.
pub proof fn conversation_turns(
    h: Seq<MessageView>,
    system_prompt: Seq<char>,
    template: Seq<char>,
    prompt: Seq<char>,
    context: Seq<char>,
)
    ensures
        ({
            let c = conversation_spec(h, system_prompt, template, prompt, context);
            let users = h.filter(has_role(role_user()));
            let systems = h.filter(has_role(role_system()));
            let assistants = h.filter(has_role(role_assistant()));
            &&& forall|k: int|
                0 <= k < users.len() ==> (#[trigger] c[1 + 2 * k]).content == render(
                    template,
                    users[k].content,
                    if k < systems.len() {
                        systems[k].content
                    } else {
                        Seq::empty()
                    },
                )
            &&& forall|k: int|
                0 <= k < users.len() && k < assistants.len() ==> #[trigger] c[2 + 2 * k]
                    == assistants[k]
        }),
{
    let c = conversation_spec(h, system_prompt, template, prompt, context);
    let users = with_role(h, role_user());
    let turns = history_turns(h, template);
    assert forall|k: int| 0 <= k < users.len() implies (#[trigger] c[1 + 2 * k]).content == render(
        template,
        users[k].content,
        if k < with_role(h, role_system()).len() {
            with_role(h, role_system())[k].content
        } else {
            Seq::empty()
        },
    ) by {
        assert(c[1 + 2 * k] == turns[2 * k]);
        assert((2 * k) / 2 == k);
        assert((2 * k) % 2 == 0);
    }
    assert forall|k: int|
        0 <= k < users.len() && k < with_role(h, role_assistant()).len() implies #[trigger] c[2 + 2
            * k] == with_role(h, role_assistant())[k] by {
        assert(c[2 + 2 * k] == turns[2 * k + 1]);
        assert((2 * k + 1) / 2 == k);
        assert((2 * k + 1) % 2 == 1);
    }
}

/// A prompt sends the messages of its streaming conversation that say
/// something, and only those.
pub proof fn prompt_sends_the_spoken_messages(ms: Seq<MessageView>)
    ensures
        forall|k: int| 0 <= k < spoken(ms).len() ==> (#[trigger] spoken(ms)[k]).content.len() > 0,
        forall|k: int| 0 <= k < ms.len() && ms[k].content.len() > 0 ==> spoken(ms).contains(
            #[trigger] ms[k],
        ),
        spoken(ms).len() <= ms.len(),
{
    broadcast use vstd::seq_lib::group_filter_ensures;

}

} // verus!
