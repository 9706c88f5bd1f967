//! The JSON-RPC commands of the tool-server protocol handshake: the
//! `initialize` request and the `initialized` notification, with the
//! client-side identifiers they carry.

use vstd::prelude::*;

verus! {

/// A character rand's alphanumeric sampler can produce: an ASCII letter or
/// digit.
pub open spec fn is_id_char(c: char) -> bool {
    ||| ('a' <= c && c <= 'z')
    ||| ('A' <= c && c <= 'Z')
    ||| ('0' <= c && c <= '9')
}

/// Relies on rand's `Alphanumeric.sample_string`: `len` characters drawn
/// uniformly from the ASCII letters and digits.
#[verifier::external_body]
fn random_alphanumeric_id(len: usize) -> (r: String)
    ensures
        r@.len() == len,
        forall|i: int| 0 <= i < r@.len() ==> is_id_char(#[trigger] r@[i]),
{
    rand::distr::SampleString::sample_string(&rand::distr::Alphanumeric, &mut rand::rng(), len)
}

/// A command's identifier on the wire: servers may answer with a string or
/// an integer.
#[derive(Debug)]
pub enum CommandId {
    Text(String),
    Integer(i64),
}

impl Clone for CommandId {
    fn clone(&self) -> (res: Self)
        ensures
            res == *self,
    {
        match self {
            CommandId::Text(s) => CommandId::Text(s.clone()),
            CommandId::Integer(n) => CommandId::Integer(*n),
        }
    }
}

impl Default for CommandId {
    /// A fresh ten-character alphanumeric identifier. Two defaults may
    /// differ — the id only has to be fresh enough to match answers to
    /// requests.
    fn default() -> (r: Self)
        ensures
            r matches CommandId::Text(s) && s@.len() == 10 && (forall|i: int|
                0 <= i < s@.len() ==> is_id_char(#[trigger] s@[i])),
    {
        CommandId::Text(random_alphanumeric_id(10))
    }
}

/// The methods this client sends.
#[derive(Clone, Copy, Debug, PartialEq, Eq, Structural)]
pub enum CommandMethod {
    Initialize,
    Initialized,
}

/// The JSON-RPC protocol version every command carries.
pub fn default_jsonrpc() -> (r: String)
    ensures
        r@ == "2.0"@,
{
    "2.0".to_owned()
}

/// What the client can do, advertised at initialization; an absent group
/// is omitted from the wire entirely.
#[derive(Debug)]
pub struct Capabilities {
    pub roots: Option<Roots>,
    pub sampling: Option<Sampling>,
    pub elicitation: Option<Elicitation>,
}

/// The roots capability group.
#[derive(Clone, Copy, Debug, PartialEq, Eq, Structural)]
pub struct Roots {
    pub list_changed: bool,
}

/// The sampling capability group; it carries no options.
#[derive(Clone, Copy, Debug, PartialEq, Eq, Structural)]
pub struct Sampling {}

/// The elicitation capability group; it carries no options.
#[derive(Clone, Copy, Debug, PartialEq, Eq, Structural)]
pub struct Elicitation {}

/// Who is connecting.
#[derive(Debug)]
pub struct ClientInfo {
    pub name: String,
    pub title: String,
    pub version: String,
}

/// The parameters of the `initialize` request.
#[derive(Debug)]
pub struct InitializeParams {
    pub protocol_version: String,
    pub client_info: ClientInfo,
    pub capabilities: Capabilities,
}

/// The `initialize` request.
#[derive(Debug)]
pub struct Initialize {
    pub jsonrpc: String,
    pub id: CommandId,
    pub method: CommandMethod,
    pub params: InitializeParams,
}

impl Initialize {
    /// An `initialize` request for these parameters, under a fresh id.
    pub fn new(params: InitializeParams) -> (r: Self)
        ensures
            r.jsonrpc@ == "2.0"@,
            r.method == CommandMethod::Initialize,
            (r.id matches CommandId::Text(s) && s@.len() == 10),
            r.params == params,
    {
        Initialize {
            jsonrpc: default_jsonrpc(),
            id: CommandId::default(),
            method: CommandMethod::Initialize,
            params,
        }
    }
}

/// The `initialized` notification that completes the handshake.
#[derive(Debug)]
pub struct Initialized {
    pub jsonrpc: String,
    pub method: CommandMethod,
}

impl Initialized {
    /// The one `initialized` notification.
    pub fn new() -> (r: Self)
        ensures
            r.jsonrpc@ == "2.0"@,
            r.method == CommandMethod::Initialized,
    {
        Initialized { jsonrpc: default_jsonrpc(), method: CommandMethod::Initialized }
    }
}

} // verus!
