use vstd::prelude::*;

use crate::api::agent::{answered, is_answered, conversation, conversation_spec, context_text, spoken, spoken_messages};
use crate::cloudflare::models::text_generation::{
    copy_messages, messages_view, Message, MessageRequest, MessageView, ModelParameters,
    TextGenerationRequest,
};
use crate::cloudflare::models::Models;
use crate::text::copy_text;

verus! {

/// An agent that answers a prompt in a conversation, given its system prompt
/// and the earlier turns.
pub struct QuestionAnswerAgent {
    client: Models,
    name: String,
    system_prompt: String,
    history: Vec<Message>,
    model_parameters: Option<ModelParameters>,
}

/// What a generation request carries: its messages, whether it streams, and
/// its sampling parameters.
pub open spec fn message_request_of(
    r: TextGenerationRequest,
    messages: Seq<MessageView>,
    stream: Option<bool>,
    params: Option<ModelParameters>,
) -> bool {
    match r {
        TextGenerationRequest::Message(m) => messages_view(m.messages@) == messages && m.stream
            == stream && m.model_parameters == params,
        TextGenerationRequest::Prompt(_) => false,
    }
}

impl QuestionAnswerAgent {
    /// The models the agent asks.
    pub closed spec fn client(&self) -> Models {
        self.client
    }

    /// The name under which the agent's generations are logged.
    pub closed spec fn name(&self) -> Seq<char> {
        self.name@
    }

    /// The system prompt.
    pub closed spec fn system_prompt(&self) -> Seq<char> {
        self.system_prompt@
    }

    /// The earlier turns of the conversation.
    pub closed spec fn history(&self) -> Seq<MessageView> {
        messages_view(self.history@)
    }

    /// The sampling parameters.
    pub closed spec fn model_parameters(&self) -> Option<ModelParameters> {
        self.model_parameters
    }

    pub fn new(
        client: Models,
        name: String,
        system_prompt: String,
        history: Vec<Message>,
        model_parameters: Option<ModelParameters>,
    ) -> (agent: Self)
        ensures
            agent.client() == client,
            agent.name() == name@,
            agent.system_prompt() == system_prompt@,
            agent.history() == messages_view(history@),
            agent.model_parameters() == model_parameters,
    {
        QuestionAnswerAgent { client, name, system_prompt, history, model_parameters }
    }

    /// Whether every user message of the agent's history has its assistant
    /// answer, as its prompts require.
    pub fn history_is_answered(&self) -> (b: bool)
        ensures
            b == answered(self.history()),
    {
        is_answered(&self.history)
    }

    /// The agent's name.
    pub fn agent_name(&self) -> (s: String)
        ensures
            s@ == self.name(),
    {
        copy_text(&self.name)
    }

    /// The models the agent asks.
    pub fn models(&self) -> (m: Models)
        ensures
            m.base_url_view() == self.client().base_url_view(),
            m.header_count() == self.client().header_count(),
            forall|i: int| 0 <= i < m.header_count() ==> m.header_at(i) == self.client().header_at(i),
    {
        self.client.clone()
    }

    /// The streaming request for a prompt: the conversation built from the
    /// history, the template, the prompt and the context, asked with
    /// streaming on; with it, the messages it carries.
    /// Every user message of the history must have its assistant answer.
    pub fn prompt_with_stream(
        &self,
        user_prompt_template: &str,
        prompt: &str,
        context: Option<&str>,
    ) -> (r: (Vec<Message>, TextGenerationRequest))
        requires
            answered(self.history()),
        ensures
            messages_view(r.0@) == conversation_spec(
                self.history(),
                self.system_prompt(),
                user_prompt_template@,
                prompt@,
                context_text(match context { Some(c) => Some(c@), None => None }),
            ),
            message_request_of(r.1, messages_view(r.0@), Some(true), self.model_parameters()),
    {
        let messages = conversation(
            &self.history,
            &self.system_prompt,
            user_prompt_template,
            prompt,
            context,
        );
        let sent = copy_messages(&messages);
        let request = TextGenerationRequest::Message(
            MessageRequest { messages: sent, stream: Some(true), model_parameters: self.model_parameters },
        );
        (messages, request)
    }

    /// The request for a prompt: the conversation built from the history, the
    /// template, the prompt and the context, without the messages whose
    /// content is empty, asked without streaming.
    /// Every user message of the history must have its assistant answer.
    pub fn prompt(&self, user_prompt_template: &str, prompt: &str, context: Option<&str>) -> (r:
        TextGenerationRequest)
        requires
            answered(self.history()),
        ensures
            message_request_of(
                r,
                spoken(
                    conversation_spec(
                        self.history(),
                        self.system_prompt(),
                        user_prompt_template@,
                        prompt@,
                        context_text(match context { Some(c) => Some(c@), None => None }),
                    ),
                ),
                None,
                self.model_parameters(),
            ),
    {
        let messages = conversation(
            &self.history,
            &self.system_prompt,
            user_prompt_template,
            prompt,
            context,
        );
        let messages = spoken_messages(messages);
        TextGenerationRequest::Message(
            MessageRequest { messages, stream: None, model_parameters: self.model_parameters },
        )
    }
}

} // verus!
