//! The OpenAI-style adapter: chat-completion wire format, bearer
//! authentication, and a model listing filtered to the GPT family. The HTTP
//! calls are plumbing outside this crate; what is here is everything the
//! adapter decides: URL shaping, request validation, the wire shape of each
//! message, and the listing filter.

use vstd::prelude::*;

use crate::config::OpenAIConfig;
use crate::error::ApiError;
use crate::models::{CompletionRequest, Content, Message, Role, ToolCall};
use crate::router::Model;
use crate::text::{contains_str, endpoint_join, has_substr, spec_trim_trailing};

verus! {

/// The OpenAI provider adapter.
#[derive(Debug)]
pub struct OpenAIClient {
    pub config: OpenAIConfig,
}

/// The wire name of a transcript role.
pub open spec fn spec_role_name(role: Role) -> Seq<char> {
    match role {
        Role::System => "system"@,
        Role::User => "user"@,
        Role::Assistant => "assistant"@,
        Role::Tool => "tool"@,
    }
}

/// The wire name of a role, as this provider family writes it.
pub fn role_name(role: Role) -> (r: &'static str)
    ensures
        r@ == spec_role_name(role),
{
    match role {
        Role::System => "system",
        Role::User => "user",
        Role::Assistant => "assistant",
        Role::Tool => "tool",
    }
}

/// The content of one wire message: structured blocks for ordinary
/// messages, or — as this provider requires for tool results — one bare
/// string.
#[derive(Debug)]
pub enum OpenAIWireContent {
    Blocks(Vec<Content>),
    Flat(String),
}

/// One message in this provider's wire shape.
#[derive(Debug)]
pub struct OpenAIWireMessage {
    pub role: String,
    pub content: OpenAIWireContent,
    pub tool_calls: Option<Vec<ToolCall>>,
    pub tool_call_id: Option<String>,
}

/// The text of the first tool-result block, or nothing when there is none:
/// what a `tool` message is flattened to on this provider's wire.
pub open spec fn first_tool_result_text(content: Seq<Content>) -> Seq<char>
    decreases content.len(),
{
    if content.len() == 0 {
        Seq::empty()
    } else {
        match content[0] {
            Content::ToolResult { tool_use_id: _, content: text, is_error: _ } => text@,
            _ => first_tool_result_text(content.skip(1)),
        }
    }
}

impl OpenAIClient {
    /// An adapter for the configured credential and endpoint.
    pub fn new(config: OpenAIConfig) -> (r: Self)
        ensures
            r.config == config,
    {
        OpenAIClient { config }
    }

    /// Where completion requests are posted.
    pub fn completion_url(&self) -> (r: String)
        ensures
            r@ == spec_trim_trailing(self.config.endpoint@, '/') + "/chat/completions"@,
    {
        endpoint_join(self.config.endpoint.as_str(), "/chat/completions")
    }

    /// Where the model listing is fetched.
    pub fn models_url(&self) -> (r: String)
        ensures
            r@ == spec_trim_trailing(self.config.endpoint@, '/') + "/models"@,
    {
        endpoint_join(self.config.endpoint.as_str(), "/models")
    }

    /// Validate a completion request before any network work: an empty
    /// transcript is a caller error, and a missing credential means the
    /// call would be unauthenticated — in both cases no call is made.
    pub fn prepare_completion(&self, request: &CompletionRequest) -> (r: Result<(), ApiError>)
        ensures
            r is Ok <==> (request.messages@.len() > 0 && self.config.api_key@.len() > 0),
            request.messages@.len() == 0 ==> (r matches Err(e) && (e
                matches ApiError::InvalidRequest(m) && m@ == "No messages provided"@)),
            request.messages@.len() > 0 && self.config.api_key@.len() == 0 ==> (r matches Err(e)
                && (e matches ApiError::Unauthenticated(m) && m@ == "API key is not set"@)),
    {
        if request.messages.len() == 0 {
            Err(ApiError::InvalidRequest("No messages provided".to_owned()))
        } else if self.config.api_key.as_str().unicode_len() == 0 {
            Err(ApiError::Unauthenticated("API key is not set".to_owned()))
        } else {
            Ok(())
        }
    }

    /// Whether the listing may be fetched: a missing credential fails
    /// before any call is made.
    pub fn prepare_listing(&self) -> (r: Result<(), ApiError>)
        ensures
            r is Ok <==> self.config.api_key@.len() > 0,
            r matches Err(e) ==> e matches ApiError::Unauthenticated(m) && m@
                == "API key is not set"@,
    {
        if self.config.api_key.as_str().unicode_len() == 0 {
            Err(ApiError::Unauthenticated("API key is not set".to_owned()))
        } else {
            Ok(())
        }
    }
}

/// The model entries a listing reply's ids produce: the ids of the GPT
/// family, each as its own display name.
pub open spec fn spec_gpt_models(ids: Seq<String>) -> Seq<Model>
    decreases ids.len(),
{
    if ids.len() == 0 {
        Seq::empty()
    } else {
        spec_gpt_models(ids.drop_last()) + if has_substr(ids.last()@, "gpt"@) {
            seq![Model { name: ids.last(), id: ids.last() }]
        } else {
            Seq::empty()
        }
    }
}

/// Keep the model ids of the GPT family and shape them as catalog entries,
/// preserving their order.
pub fn filter_gpt_models(ids: Vec<String>) -> (r: Vec<Model>)
    ensures
        r@ == spec_gpt_models(ids@),
{
    let mut r: Vec<Model> = Vec::new();
    let mut ids = ids;
    let ghost orig = ids@;
    let ghost mut n: int = 0;
    proof {
        assert(r@ =~= spec_gpt_models(orig.take(0int)));
    }
    while ids.len() > 0
        invariant
            0 <= n <= orig.len(),
            ids@ == orig.skip(n),
            r@ == spec_gpt_models(orig.take(n)),
        decreases ids@.len(),
    {
        let id = ids.remove(0);
        proof {
            assert(id == orig[n]);
            assert(orig.skip(n).remove(0) =~= orig.skip(n + 1));
            assert(orig.take(n + 1).drop_last() =~= orig.take(n));
            assert(orig.take(n + 1).last() == orig[n]);
        }
        if contains_str(id.as_str(), "gpt") {
            let name = id.clone();
            r.push(Model { name, id });
            proof {
                assert(r@ =~= spec_gpt_models(orig.take(n + 1)));
            }
        } else {
            proof {
                assert(r@ =~= spec_gpt_models(orig.take(n + 1)));
            }
        }
        proof {
            n = n + 1;
        }
    }
    proof {
        assert(orig.take(orig.len() as int) =~= orig);
    }
    r
}

/// Shape one transcript message for this provider's wire: a `tool` message
/// is flattened to the bare text of its tool-result block together with the
/// call id it answers; every other message keeps its structured blocks and
/// tool calls.
pub fn convert_message(m: &Message) -> (r: OpenAIWireMessage)
    ensures
        r.role@ == spec_role_name(m.role),
        m.role == Role::Tool ==> {
            &&& (r.content matches OpenAIWireContent::Flat(text) && text@ == first_tool_result_text(
                m.content@,
            ))
            &&& r.tool_calls is None
            &&& r.tool_call_id == m.tool_call_id
        },
        m.role != Role::Tool ==> {
            &&& (r.content matches OpenAIWireContent::Blocks(blocks) && blocks@ == m.content@)
            &&& (match (r.tool_calls, m.tool_calls) {
                (Some(rc), Some(mc)) => rc@ == mc@,
                (None, None) => true,
                _ => false,
            })
            &&& r.tool_call_id == m.tool_call_id
        },
{
    let role = role_name(m.role).to_owned();
    let tool_call_id = match &m.tool_call_id {
        Some(id) => Some(id.clone()),
        None => None,
    };
    if matches!(m.role, Role::Tool) {
        let mut i: usize = 0;
        let mut flat = String::new();
        let mut found = false;
        proof {
            assert(m.content@.skip(0int) =~= m.content@);
        }
        while !found && i < m.content.len()
            invariant
                i <= m.content@.len(),
                !found ==> flat@ == Seq::<char>::empty(),
                !found ==> first_tool_result_text(m.content@) == first_tool_result_text(
                    m.content@.skip(i as int),
                ),
                found ==> flat@ == first_tool_result_text(m.content@),
            decreases m.content@.len() - i,
        {
            match &m.content[i] {
                Content::ToolResult { tool_use_id: _, content, is_error: _ } => {
                    proof {
                        assert(m.content@.skip(i as int)[0] == m.content@[i as int]);
                    }
                    flat = content.clone();
                    found = true;
                },
                _ => {
                    proof {
                        assert(m.content@.skip(i as int).skip(1) =~= m.content@.skip(i + 1));
                    }
                },
            }
            i += 1;
        }
        proof {
            if !found {
                assert(m.content@.skip(m.content@.len() as int) =~= Seq::<Content>::empty());
            }
        }
        OpenAIWireMessage {
            role,
            content: OpenAIWireContent::Flat(flat),
            tool_calls: None,
            tool_call_id,
        }
    } else {
        let blocks = m.content.clone();
        proof {
            assert(blocks@ =~= m.content@);
        }
        let tool_calls = match &m.tool_calls {
            Some(cs) => {
                let c = cs.clone();
                proof {
                    assert(c@ =~= cs@);
                }
                Some(c)
            },
            None => None,
        };
        OpenAIWireMessage {
            role,
            content: OpenAIWireContent::Blocks(blocks),
            tool_calls,
            tool_call_id,
        }
    }
}

} // verus!
