//! The backend-neutral data model: messages, content blocks, tool calls,
//! completion requests and replies.
//!
//! Every provider adapter translates between these types and its own wire
//! shapes; the router and the orchestrator see only this neutral model.

use vstd::prelude::*;

verus! {

/// The role of a message in a transcript.
#[derive(Clone, Copy, Debug, PartialEq, Eq, Structural)]
pub enum Role {
    System,
    User,
    Assistant,
    Tool,
}

/// The provider families a completion request can be routed to.
#[derive(Clone, Copy, Debug, PartialEq, Eq, Structural)]
pub enum Clients {
    OpenAI,
    Anthropic,
    Vllm,
}

impl Default for Clients {
    /// The provider used when none is chosen explicitly.
    fn default() -> (r: Self)
        ensures
            r == Clients::OpenAI,
    {
        Clients::OpenAI
    }
}

impl Clients {
    /// Every provider family, in routing order.
    pub fn all() -> (r: Vec<Clients>)
        ensures
            r@ == seq![Clients::OpenAI, Clients::Anthropic, Clients::Vllm],
    {
        let mut v: Vec<Clients> = Vec::new();
        v.push(Clients::OpenAI);
        v.push(Clients::Anthropic);
        v.push(Clients::Vllm);
        proof {
            assert(v@ =~= seq![Clients::OpenAI, Clients::Anthropic, Clients::Vllm]);
        }
        v
    }
}

/// A model as shown to the user: a display name, the provider's identifier,
/// and the provider family that owns it.
#[derive(Debug)]
pub struct ModelInfo {
    pub name: String,
    pub id: String,
    pub client: Clients,
}

impl Clone for ModelInfo {
    fn clone(&self) -> (res: Self)
        ensures
            res == *self,
    {
        ModelInfo { name: self.name.clone(), id: self.id.clone(), client: self.client }
    }
}

/// An image reference with an optional detail hint.
#[derive(Debug)]
pub struct ImageUrl {
    pub url: String,
    pub detail: Option<String>,
}

impl Clone for ImageUrl {
    fn clone(&self) -> (res: Self)
        ensures
            res == *self,
    {
        ImageUrl {
            url: self.url.clone(),
            detail: match &self.detail {
                Some(d) => Some(d.clone()),
                None => None,
            },
        }
    }
}

/// One block of message content: plain text, an image reference, a tool
/// invocation requested by the model, or the result of a tool invocation.
#[derive(Debug)]
pub enum Content {
    Text { text: String },
    ImageUrl { image_url: ImageUrl },
    ToolUse { id: String, name: String, input: String },
    ToolResult { tool_use_id: String, content: String, is_error: Option<bool> },
}

impl Clone for Content {
    fn clone(&self) -> (res: Self)
        ensures
            res == *self,
    {
        match self {
            Content::Text { text } => Content::Text { text: text.clone() },
            Content::ImageUrl { image_url } => Content::ImageUrl { image_url: image_url.clone() },
            Content::ToolUse { id, name, input } => Content::ToolUse {
                id: id.clone(),
                name: name.clone(),
                input: input.clone(),
            },
            Content::ToolResult { tool_use_id, content, is_error } => Content::ToolResult {
                tool_use_id: tool_use_id.clone(),
                content: content.clone(),
                is_error: *is_error,
            },
        }
    }
}

impl Content {
    /// A plain text block.
    pub fn text(content: &str) -> (r: Self)
        ensures
            r matches Content::Text { text } && text@ == content@,
    {
        Content::Text { text: content.to_owned() }
    }

    /// An image block without a detail hint.
    pub fn image_url(url: &str) -> (r: Self)
        ensures
            r matches Content::ImageUrl { image_url }
                && image_url.url@ == url@
                && image_url.detail is None,
    {
        Content::ImageUrl { image_url: ImageUrl { url: url.to_owned(), detail: None } }
    }

    /// An image block with a detail hint.
    pub fn image_url_with_detail(url: &str, detail: &str) -> (r: Self)
        ensures
            r matches Content::ImageUrl { image_url }
                && image_url.url@ == url@
                && (image_url.detail matches Some(d) && d@ == detail@),
    {
        Content::ImageUrl {
            image_url: ImageUrl { url: url.to_owned(), detail: Some(detail.to_owned()) },
        }
    }

    /// A tool-use block: the model asks for tool `name` on `input`.
    pub fn tool_use(id: &str, name: &str, input: String) -> (r: Self)
        ensures
            r matches Content::ToolUse { id: rid, name: rname, input: rinput }
                && rid@ == id@ && rname@ == name@ && rinput == input,
    {
        Content::ToolUse { id: id.to_owned(), name: name.to_owned(), input }
    }

    /// A successful tool result answering the call `tool_use_id`.
    pub fn tool_result(tool_use_id: &str, content: &str) -> (r: Self)
        ensures
            r matches Content::ToolResult { tool_use_id: rid, content: rc, is_error }
                && rid@ == tool_use_id@ && rc@ == content@ && is_error is None,
    {
        Content::ToolResult {
            tool_use_id: tool_use_id.to_owned(),
            content: content.to_owned(),
            is_error: None,
        }
    }

    /// A failed tool result answering the call `tool_use_id`.
    pub fn tool_result_error(tool_use_id: &str, content: &str) -> (r: Self)
        ensures
            r matches Content::ToolResult { tool_use_id: rid, content: rc, is_error }
                && rid@ == tool_use_id@ && rc@ == content@ && is_error == Some(true),
    {
        Content::ToolResult {
            tool_use_id: tool_use_id.to_owned(),
            content: content.to_owned(),
            is_error: Some(true),
        }
    }

    /// The text of this block if it is a `Text` block.
    pub open spec fn spec_as_text(&self) -> Option<Seq<char>> {
        match self {
            Content::Text { text } => Some(text@),
            _ => None,
        }
    }

    /// Get the text content if this is a `Text` variant.
    pub fn as_text(&self) -> (r: Option<&str>)
        ensures
            match r {
                Some(t) => self.spec_as_text() == Some(t@),
                None => self.spec_as_text() is None,
            },
    {
        match self {
            Content::Text { text } => Some(text.as_str()),
            _ => None,
        }
    }

    /// The total textual projection of a block; no variant is dropped when a
    /// transcript is rendered as text.
    pub open spec fn spec_projected_text(&self) -> Seq<char> {
        match self {
            Content::Text { text } => text@,
            Content::ImageUrl { image_url } => image_url.url@,
            Content::ToolUse { id: _, name, input: _ } => name@,
            Content::ToolResult { tool_use_id: _, content, is_error: _ } => content@,
        }
    }

    /// Render this block as text: the text itself, an image's URL, a
    /// requested tool's name, or a tool result's content.
    pub fn projected_text(&self) -> (r: String)
        ensures
            r@ == self.spec_projected_text(),
    {
        match self {
            Content::Text { text } => text.clone(),
            Content::ImageUrl { image_url } => image_url.url.clone(),
            Content::ToolUse { id: _, name, input: _ } => name.clone(),
            Content::ToolResult { tool_use_id: _, content, is_error: _ } => content.clone(),
        }
    }
}

/// The function part of a tool call: the namespaced tool name and the raw
/// argument payload.
#[derive(Debug)]
pub struct ToolFunction {
    pub name: String,
    pub arguments: String,
}

impl Clone for ToolFunction {
    fn clone(&self) -> (res: Self)
        ensures
            res == *self,
    {
        ToolFunction { name: self.name.clone(), arguments: self.arguments.clone() }
    }
}

/// A tool invocation requested by the model, identified by a call id that is
/// unique within its turn.
#[derive(Debug)]
pub struct ToolCall {
    pub id: String,
    pub _type: String,
    pub function: ToolFunction,
}

impl Clone for ToolCall {
    fn clone(&self) -> (res: Self)
        ensures
            res == *self,
    {
        ToolCall { id: self.id.clone(), _type: self._type.clone(), function: self.function.clone() }
    }
}

/// One message of a transcript. A `Tool` message always carries the
/// `tool_call_id` of the call it answers ([`Message::wf`]).
#[derive(Debug)]
pub struct Message {
    pub role: Role,
    pub content: Vec<Content>,
    pub tool_calls: Option<Vec<ToolCall>>,
    pub tool_call_id: Option<String>,
}

/// The mathematical model of a [`Message`]: the same fields with the
/// containers abstracted to sequences.
#[verifier::ext_equal]
pub struct MessageView {
    pub role: Role,
    pub content: Seq<Content>,
    pub tool_calls: Option<Seq<ToolCall>>,
    pub tool_call_id: Option<String>,
}

impl View for Message {
    type V = MessageView;

    open spec fn view(&self) -> MessageView {
        MessageView {
            role: self.role,
            content: self.content@,
            tool_calls: match self.tool_calls {
                Some(calls) => Some(calls@),
                None => None,
            },
            tool_call_id: self.tool_call_id,
        }
    }
}

impl Clone for Message {
    fn clone(&self) -> (res: Self)
        ensures
            res@ == self@,
    {
        let content = self.content.clone();
        proof {
            assert(content@ =~= self.content@);
        }
        let tool_calls = match &self.tool_calls {
            Some(calls) => {
                let c = calls.clone();
                proof {
                    assert(c@ =~= calls@);
                }
                Some(c)
            },
            None => None,
        };
        let res = Message {
            role: self.role,
            content,
            tool_calls,
            tool_call_id: match &self.tool_call_id {
                Some(id) => Some(id.clone()),
                None => None,
            },
        };
        proof {
            assert(res@ =~= self@);
        }
        res
    }
}

impl Message {
    /// A message is well formed when a `Tool` message carries the id of the
    /// call it answers.
    pub open spec fn wf(&self) -> bool {
        self.role == Role::Tool ==> self.tool_call_id is Some
    }

    /// A system message with one text block.
    pub fn system(content: &str) -> (r: Self)
        ensures
            r.role == Role::System,
            r.content@.len() == 1,
            r.content@[0].spec_as_text() == Some(content@),
            r.tool_calls is None,
            r.tool_call_id is None,
            r.wf(),
    {
        Message {
            role: Role::System,
            content: vec![Content::text(content)],
            tool_calls: None,
            tool_call_id: None,
        }
    }

    /// A user message with one text block.
    pub fn user(content: &str) -> (r: Self)
        ensures
            r.role == Role::User,
            r.content@.len() == 1,
            r.content@[0].spec_as_text() == Some(content@),
            r.tool_calls is None,
            r.tool_call_id is None,
            r.wf(),
    {
        Message {
            role: Role::User,
            content: vec![Content::text(content)],
            tool_calls: None,
            tool_call_id: None,
        }
    }

    /// An assistant message with one text block.
    pub fn assistant(content: &str) -> (r: Self)
        ensures
            r.role == Role::Assistant,
            r.content@.len() == 1,
            r.content@[0].spec_as_text() == Some(content@),
            r.tool_calls is None,
            r.tool_call_id is None,
            r.wf(),
    {
        Message {
            role: Role::Assistant,
            content: vec![Content::text(content)],
            tool_calls: None,
            tool_call_id: None,
        }
    }
}

/// A tool the model may invoke, as advertised to a provider: a namespaced
/// name, a description, and the raw JSON text of its input schema.
#[derive(Debug)]
pub struct Tool {
    pub name: String,
    pub description: String,
    pub parameters: String,
}

impl Clone for Tool {
    fn clone(&self) -> (res: Self)
        ensures
            res == *self,
    {
        Tool {
            name: self.name.clone(),
            description: self.description.clone(),
            parameters: self.parameters.clone(),
        }
    }
}

/// A backend-neutral completion request: the model to use, the transcript so
/// far, and the tools the model may call.
#[derive(Debug)]
pub struct CompletionRequest {
    pub model: String,
    pub messages: Vec<Message>,
    pub tools: Option<Vec<Tool>>,
}

/// One alternative completion in a reply.
#[derive(Debug)]
pub struct Choice {
    pub index: u32,
    pub messages: Vec<Message>,
    pub finish_reason: String,
}

/// A backend-neutral completion reply.
#[derive(Debug)]
pub struct CompletionResponse {
    pub id: String,
    pub object: String,
    pub created: u64,
    pub model: String,
    pub choices: Vec<Choice>,
}

/// The structured outcome of one tool invocation.
#[derive(Debug)]
pub struct ToolResult {
    pub success: bool,
    pub contents: Vec<Content>,
}

} // verus!
