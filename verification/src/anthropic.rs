//! The Anthropic-style adapter: message-block wire format, an API-key
//! header, and an explicit maximum-output-token parameter injected into
//! every outgoing request. The HTTP calls are plumbing outside this crate;
//! what is here is everything the adapter decides: URL shaping, request
//! validation, the request and reply conversions, and the model listing
//! shape.

use vstd::prelude::*;

use crate::config::AnthropicConfig;
use crate::error::ApiError;
use crate::models::{Choice, CompletionRequest, CompletionResponse, Content, Message, Role};
use crate::openai::{role_name, spec_role_name};
use crate::router::Model;
use crate::text::{endpoint_join, spec_trim_trailing};

verus! {

/// The Anthropic provider adapter.
#[derive(Debug)]
pub struct AnthropicClient {
    pub config: AnthropicConfig,
}

/// One content block in this provider's wire shape: text, a tool
/// invocation, or a tool result. There is no image block; an image
/// reference is carried as its URL's text, so no content is silently
/// dropped.
#[derive(Debug)]
pub enum AnthropicMessageContent {
    Text { text: String },
    ToolUse { id: String, name: String, input: String },
    ToolResult { tool_use_id: String, content: String, is_error: Option<bool> },
}

/// One message in this provider's wire shape.
#[derive(Debug)]
pub struct AnthropicMessage {
    pub role: String,
    pub content: Vec<AnthropicMessageContent>,
}

/// The mathematical model of an [`AnthropicMessage`].
#[verifier::ext_equal]
pub struct AnthropicMessageView {
    pub role: Seq<char>,
    pub content: Seq<AnthropicMessageContent>,
}

impl View for AnthropicMessage {
    type V = AnthropicMessageView;

    open spec fn view(&self) -> AnthropicMessageView {
        AnthropicMessageView { role: self.role@, content: self.content@ }
    }
}

/// A completion request in this provider's wire shape, with the explicit
/// output limit the provider requires.
#[derive(Debug)]
pub struct AnthropicCompletionRequest {
    pub model: String,
    pub messages: Vec<AnthropicMessage>,
    pub max_tokens: u32,
}

/// Token accounting as this provider reports it.
#[derive(Debug, Clone, Copy, PartialEq, Eq, Structural)]
pub struct Usage {
    pub input_tokens: u32,
    pub output_tokens: u32,
}

/// A completion reply in this provider's wire shape.
#[derive(Debug)]
pub struct AnthropicCompletionResponse {
    pub id: String,
    pub model: String,
    pub content: Vec<Message>,
    pub role: String,
    pub stop_reason: String,
    pub stop_sequence: String,
    pub _type: String,
    pub usage: Usage,
}

/// The wire form of one neutral content block: an image reference is
/// flattened to its URL's text; every other block keeps its fields.
pub open spec fn wire_content_of(c: Content) -> AnthropicMessageContent {
    match c {
        Content::Text { text } => AnthropicMessageContent::Text { text },
        Content::ImageUrl { image_url } => AnthropicMessageContent::Text { text: image_url.url },
        Content::ToolUse { id, name, input } => AnthropicMessageContent::ToolUse {
            id,
            name,
            input,
        },
        Content::ToolResult { tool_use_id, content, is_error } => AnthropicMessageContent::ToolResult {
            tool_use_id,
            content,
            is_error,
        },
    }
}

/// The wire view of one neutral message.
pub open spec fn wire_view_of(m: Message) -> AnthropicMessageView {
    AnthropicMessageView {
        role: spec_role_name(m.role),
        content: m.content@.map_values(|c: Content| wire_content_of(c)),
    }
}

impl AnthropicMessage {
    /// Shape one neutral message for this provider's wire.
    pub fn from_message(m: Message) -> (r: Self)
        ensures
            r@ == wire_view_of(m),
    {
        let role = role_name(m.role).to_owned();
        let mut content: Vec<AnthropicMessageContent> = Vec::new();
        let mut blocks = m.content;
        let ghost orig = blocks@;
        let ghost mut n: int = 0;
        proof {
            assert(content@ =~= orig.take(0int).map_values(|c: Content| wire_content_of(c)));
        }
        while blocks.len() > 0
            invariant
                0 <= n <= orig.len(),
                blocks@ == orig.skip(n),
                content@ == orig.take(n).map_values(|c: Content| wire_content_of(c)),
            decreases blocks@.len(),
        {
            let c = blocks.remove(0);
            proof {
                assert(c == orig[n]);
                assert(orig.skip(n).remove(0) =~= orig.skip(n + 1));
            }
            let wire = match c {
                Content::Text { text } => AnthropicMessageContent::Text { text },
                Content::ImageUrl { image_url } => AnthropicMessageContent::Text {
                    text: image_url.url,
                },
                Content::ToolUse { id, name, input } => AnthropicMessageContent::ToolUse {
                    id,
                    name,
                    input,
                },
                Content::ToolResult { tool_use_id, content, is_error } => AnthropicMessageContent::ToolResult {
                    tool_use_id,
                    content,
                    is_error,
                },
            };
            content.push(wire);
            proof {
                assert(content@.last() == wire_content_of(orig[n]));
                assert(orig.take(n + 1).map_values(|c: Content| wire_content_of(c)) =~= orig.take(
                    n,
                ).map_values(|c: Content| wire_content_of(c)).push(wire_content_of(orig[n])));
                assert(content@ =~= orig.take(n + 1).map_values(|c: Content| wire_content_of(c)));
                n = n + 1;
            }
        }
        proof {
            assert(orig.take(orig.len() as int) =~= orig);
        }
        let r = AnthropicMessage { role, content };
        proof {
            assert(r@ =~= wire_view_of(m));
        }
        r
    }
}

impl AnthropicCompletionRequest {
    /// Shape a neutral request for this provider's wire with the given
    /// output limit injected.
    pub fn from_request(request: CompletionRequest, max_tokens: u32) -> (r: Self)
        ensures
            r.model == request.model,
            r.max_tokens == max_tokens,
            r.messages@.len() == request.messages@.len(),
            forall|k: int|
                0 <= k < request.messages@.len() ==> #[trigger] r.messages@[k]@ == wire_view_of(
                    request.messages@[k],
                ),
    {
        let mut messages: Vec<AnthropicMessage> = Vec::new();
        let mut source = request.messages;
        let ghost orig = source@;
        let ghost mut n: int = 0;
        while source.len() > 0
            invariant
                0 <= n <= orig.len(),
                source@ == orig.skip(n),
                messages@.len() == n,
                forall|k: int|
                    0 <= k < n ==> #[trigger] messages@[k]@ == wire_view_of(orig[k]),
            decreases source@.len(),
        {
            let m = source.remove(0);
            proof {
                assert(m == orig[n]);
                assert(orig.skip(n).remove(0) =~= orig.skip(n + 1));
            }
            messages.push(AnthropicMessage::from_message(m));
            proof {
                n = n + 1;
            }
        }
        AnthropicCompletionRequest { model: request.model, messages, max_tokens }
    }
}

impl AnthropicClient {
    /// An adapter for the configured credential, endpoint and limit.
    pub fn new(config: AnthropicConfig) -> (r: Self)
        ensures
            r.config == config,
    {
        AnthropicClient { config }
    }

    /// Where completion requests are posted.
    pub fn messages_url(&self) -> (r: String)
        ensures
            r@ == spec_trim_trailing(self.config.endpoint@, '/') + "/messages"@,
    {
        endpoint_join(self.config.endpoint.as_str(), "/messages")
    }

    /// Where the model listing is fetched.
    pub fn models_url(&self) -> (r: String)
        ensures
            r@ == spec_trim_trailing(self.config.endpoint@, '/') + "/models"@,
    {
        endpoint_join(self.config.endpoint.as_str(), "/models")
    }

    /// Validate a completion request before any network work: an empty
    /// transcript is a caller error, and a missing credential means the
    /// call would be unauthenticated — in both cases no call is made.
    pub fn prepare_completion(&self, request: &CompletionRequest) -> (r: Result<(), ApiError>)
        ensures
            r is Ok <==> (request.messages@.len() > 0 && self.config.api_key@.len() > 0),
            request.messages@.len() == 0 ==> (r matches Err(e) && (e
                matches ApiError::InvalidRequest(m) && m@ == "No messages provided"@)),
            request.messages@.len() > 0 && self.config.api_key@.len() == 0 ==> (r matches Err(e)
                && (e matches ApiError::Unauthenticated(m) && m@ == "API key is not set"@)),
    {
        if request.messages.len() == 0 {
            Err(ApiError::InvalidRequest("No messages provided".to_owned()))
        } else if self.config.api_key.as_str().unicode_len() == 0 {
            Err(ApiError::Unauthenticated("API key is not set".to_owned()))
        } else {
            Ok(())
        }
    }

    /// Whether the listing may be fetched: a missing credential fails
    /// before any call is made.
    pub fn prepare_listing(&self) -> (r: Result<(), ApiError>)
        ensures
            r is Ok <==> self.config.api_key@.len() > 0,
            r matches Err(e) ==> e matches ApiError::Unauthenticated(m) && m@
                == "API key is not set"@,
    {
        if self.config.api_key.as_str().unicode_len() == 0 {
            Err(ApiError::Unauthenticated("API key is not set".to_owned()))
        } else {
            Ok(())
        }
    }

    /// Shape a neutral request for this provider, injecting the configured
    /// output limit — the parameter this provider requires on every
    /// request.
    pub fn shape_request(&self, request: CompletionRequest) -> (r: AnthropicCompletionRequest)
        ensures
            r.model == request.model,
            r.max_tokens == self.config.max_tokens,
            r.messages@.len() == request.messages@.len(),
            forall|k: int|
                0 <= k < request.messages@.len() ==> #[trigger] r.messages@[k]@ == wire_view_of(
                    request.messages@[k],
                ),
    {
        AnthropicCompletionRequest::from_request(request, self.config.max_tokens)
    }
}

/// The assistant messages a reply's text segments produce, one message per
/// segment, a segment without text reading as empty.
pub open spec fn spec_assistant_messages(texts: Seq<Option<String>>, r: Seq<Message>) -> bool {
    &&& r.len() == texts.len()
    &&& forall|k: int|
        0 <= k < texts.len() ==> {
            &&& (#[trigger] r[k]).role == Role::Assistant
            &&& r[k].content@.len() == 1
            &&& r[k].content@[0].spec_as_text() == Some(
                match texts[k] {
                    Some(t) => t@,
                    None => Seq::<char>::empty(),
                },
            )
            &&& r[k].tool_calls is None
            &&& r[k].tool_call_id is None
        }
}

/// Turn a reply's text segments into assistant messages, in order.
pub fn assistant_messages(texts: Vec<Option<String>>) -> (r: Vec<Message>)
    ensures
        spec_assistant_messages(texts@, r@),
{
    let mut r: Vec<Message> = Vec::new();
    let mut texts = texts;
    let ghost orig = texts@;
    let ghost mut n: int = 0;
    while texts.len() > 0
        invariant
            0 <= n <= orig.len(),
            texts@ == orig.skip(n),
            spec_assistant_messages(orig.take(n), r@),
        decreases texts@.len(),
    {
        let t = texts.remove(0);
        proof {
            assert(t == orig[n]);
            assert(orig.skip(n).remove(0) =~= orig.skip(n + 1));
        }
        let m = match t {
            Some(text) => Message::assistant(text.as_str()),
            None => Message::assistant(""),
        };
        let ghost r0 = r@;
        r.push(m);
        proof {
            reveal_strlit("");
            assert(""@ =~= Seq::<char>::empty());
            assert(forall|k: int| 0 <= k < n ==> r@[k] == r0[k]);
            assert(r@[n] == m);
            assert(forall|k: int| 0 <= k < n + 1 ==> orig.take(n + 1)[k] == orig[k]);
            assert(spec_assistant_messages(orig.take(n + 1), r@));
            n = n + 1;
        }
    }
    proof {
        assert(orig.take(orig.len() as int) =~= orig);
    }
    r
}

/// Assemble the neutral reply from the fields this provider's wire reply
/// carries, each defaulting when absent: one choice holding the reply's
/// messages and its stop reason.
pub fn response_from_parts(
    id: Option<String>,
    object: Option<String>,
    created: Option<u64>,
    model: Option<String>,
    messages: Vec<Message>,
    stop_reason: Option<String>,
) -> (r: CompletionResponse)
    ensures
        r.id@ == (match id {
            Some(s) => s@,
            None => Seq::<char>::empty(),
        }),
        r.object@ == (match object {
            Some(s) => s@,
            None => Seq::<char>::empty(),
        }),
        r.created == (match created {
            Some(c) => c,
            None => 0u64,
        }),
        r.model@ == (match model {
            Some(s) => s@,
            None => Seq::<char>::empty(),
        }),
        r.choices@.len() == 1,
        r.choices@[0].index == 0u32,
        r.choices@[0].messages@ == messages@,
        r.choices@[0].finish_reason@ == (match stop_reason {
            Some(s) => s@,
            None => Seq::<char>::empty(),
        }),
{
    let id = match id {
        Some(s) => s,
        None => String::new(),
    };
    let object = match object {
        Some(s) => s,
        None => String::new(),
    };
    let created = match created {
        Some(c) => c,
        None => 0,
    };
    let model = match model {
        Some(s) => s,
        None => String::new(),
    };
    let finish_reason = match stop_reason {
        Some(s) => s,
        None => String::new(),
    };
    let mut choices: Vec<Choice> = Vec::new();
    choices.push(Choice { index: 0, messages, finish_reason });
    CompletionResponse { id, object, created, model, choices }
}

impl AnthropicCompletionResponse {
    /// The neutral reply this wire reply denotes: one choice with the
    /// reply's messages and stop reason, tagged as an Anthropic completion.
    pub fn into_response(self) -> (r: CompletionResponse)
        ensures
            r.id == self.id,
            r.object@ == "anthropic.completion"@,
            r.created == 0u64,
            r.model == self.model,
            r.choices@.len() == 1,
            r.choices@[0].index == 0u32,
            r.choices@[0].messages@ == self.content@,
            r.choices@[0].finish_reason == self.stop_reason,
    {
        let mut choices: Vec<Choice> = Vec::new();
        choices.push(
            Choice { index: 0, messages: self.content, finish_reason: self.stop_reason },
        );
        CompletionResponse {
            id: self.id,
            object: "anthropic.completion".to_owned(),
            created: 0,
            model: self.model,
            choices,
        }
    }
}

/// A model entry of this provider's listing: present only when both the id
/// and the display name are.
pub open spec fn spec_listing_models(
    entries: Seq<(Option<String>, Option<String>)>,
) -> Seq<Model>
    decreases entries.len(),
{
    if entries.len() == 0 {
        Seq::empty()
    } else {
        spec_listing_models(entries.drop_last()) + match entries.last() {
            (Some(id), Some(name)) => seq![Model { name: name, id: id }],
            _ => Seq::empty(),
        }
    }
}

/// Shape a model listing reply: each entry carries an optional id and an
/// optional display name, and only entries with both become models.
pub fn models_of_listing(entries: Vec<(Option<String>, Option<String>)>) -> (r: Vec<Model>)
    ensures
        r@ == spec_listing_models(entries@),
{
    let mut r: Vec<Model> = Vec::new();
    let mut entries = entries;
    let ghost orig = entries@;
    let ghost mut n: int = 0;
    proof {
        assert(r@ =~= spec_listing_models(orig.take(0int)));
    }
    while entries.len() > 0
        invariant
            0 <= n <= orig.len(),
            entries@ == orig.skip(n),
            r@ == spec_listing_models(orig.take(n)),
        decreases entries@.len(),
    {
        let e = entries.remove(0);
        proof {
            assert(e == orig[n]);
            assert(orig.skip(n).remove(0) =~= orig.skip(n + 1));
            assert(orig.take(n + 1).drop_last() =~= orig.take(n));
            assert(orig.take(n + 1).last() == orig[n]);
        }
        match e {
            (Some(id), Some(name)) => {
                r.push(Model { name, id });
                proof {
                    assert(r@ =~= spec_listing_models(orig.take(n + 1)));
                }
            },
            _ => {
                proof {
                    assert(r@ =~= spec_listing_models(orig.take(n + 1)));
                }
            },
        }
        proof {
            n = n + 1;
        }
    }
    proof {
        assert(orig.take(orig.len() as int) =~= orig);
    }
    r
}

} // verus!
