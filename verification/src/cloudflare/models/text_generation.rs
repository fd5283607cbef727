use vstd::prelude::*;

use crate::text::{copy_text, split_spec, split_text, texts};

verus! {

/// Model served for chat answers.
pub const LLAMA_3_8B_INSTRUCT: &'static str = "@cf/meta/llama-3-8b-instruct-awq";

/// Model served for function calls.
pub const HERMES_2_PRO_MISTRAL_7B: &'static str = "@hf/nousresearch/hermes-2-pro-mistral-7b";

/// One chat message: who speaks, and what is said.
#[derive(Debug)]
pub struct Message {
    pub role: String,
    pub content: String,
}

/// The mathematical value of a [`Message`].
pub struct MessageView {
    pub role: Seq<char>,
    pub content: Seq<char>,
}

impl View for Message {
    type V = MessageView;

    open spec fn view(&self) -> MessageView {
        MessageView { role: self.role@, content: self.content@ }
    }
}

/// The views of a sequence of messages.
pub open spec fn messages_view(v: Seq<Message>) -> Seq<MessageView> {
    v.map_values(|m: Message| m@)
}

impl Clone for Message {
    fn clone(&self) -> (r: Self)
        ensures
            r@ == self@,
    {
        Message { role: copy_text(&self.role), content: copy_text(&self.content) }
    }
}

/// A copy of every message of `v`, in order.
pub fn copy_messages(v: &Vec<Message>) -> (r: Vec<Message>)
    ensures
        messages_view(r@) == messages_view(v@),
{
    let mut r: Vec<Message> = Vec::new();
    for i in 0..v.len()
        invariant
            r@.len() == i,
            forall|j: int| 0 <= j < i ==> r@[j]@ == v@[j]@,
    {
        r.push(v[i].clone());
    }
    assert(messages_view(r@) =~= messages_view(v@));
    r
}

/// Sampling parameters of a generation request.
#[derive(Clone, Copy, Debug, PartialEq, Eq)]
pub struct ModelParameters {
    pub max_tokens: Option<i32>,
    pub temperature: Option<i32>,
    pub top_p: Option<i32>,
    pub top_k: Option<i32>,
    pub repetition_penalty: Option<i32>,
    pub frequency_penalty: Option<i32>,
    pub presence_penalty: Option<i32>,
}

impl ModelParameters {
    /// Every parameter left unset.
    pub fn unset() -> (p: Self)
        ensures
            p.max_tokens is None && p.temperature is None && p.top_p is None && p.top_k is None
                && p.repetition_penalty is None && p.frequency_penalty is None
                && p.presence_penalty is None,
    {
        ModelParameters {
            max_tokens: None,
            temperature: None,
            top_p: None,
            top_k: None,
            repetition_penalty: None,
            frequency_penalty: None,
            presence_penalty: None,
        }
    }
}

/// A request made of a bare prompt.
#[derive(Debug)]
pub struct PromptRequest {
    pub prompt: String,
    pub raw: Option<bool>,
    pub stream: Option<bool>,
    pub max_tokens: Option<i32>,
}

/// A request made of chat messages.
#[derive(Debug)]
pub struct MessageRequest {
    pub messages: Vec<Message>,
    pub stream: Option<bool>,
    pub model_parameters: Option<ModelParameters>,
}

/// A text-generation request, in either of its two shapes.
#[derive(Debug)]
pub enum TextGenerationRequest {
    Prompt(PromptRequest),
    Message(MessageRequest),
}

/// A function that the model asked to call, with its arguments.
#[derive(Debug)]
pub struct ToolCall {
    pub name: String,
    /// Argument names and values, each name at most once.
    pub arguments: Option<Vec<(String, Option<String>)>>,
}

/// What a generation returned: text, tool calls, or both.
#[derive(Debug)]
pub struct TextGenerationJsonResult {
    pub response: Option<String>,
    pub tool_calls: Option<Vec<ToolCall>>,
}

/// The body of a text-generation response.
#[derive(Debug)]
pub struct TextGenerationResponse {
    pub result: TextGenerationJsonResult,
}

/// The type of one tool parameter.
#[derive(Clone, Copy, Debug, PartialEq, Eq)]
pub enum PropertyType {
    String,
    Number,
}

/// The parameters of a tool: their names and types, and which are required.
pub struct Parameters {
    pub kind: String,
    pub properties: Vec<(String, PropertyType)>,
    pub required: Option<Vec<String>>,
}

/// A function offered to the model.
pub struct Function {
    pub name: String,
    pub description: String,
    pub parameters: Option<Parameters>,
}

/// A tool offered to the model.
pub struct Tool {
    pub kind: String,
    pub function: Function,
}

/// The payloads of a chunk of an event stream: the pieces between its
/// `data: ` markers, empty pieces kept.
pub fn stream_payloads(chunk: &str) -> (r: Vec<String>)
    ensures
        texts(r@) == split_spec(chunk@, "data: "@),
{
    proof {
        reveal_strlit("data: ");
    }
    split_text(chunk, "data: ")
}

} // verus!
