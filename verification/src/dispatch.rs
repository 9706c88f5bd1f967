//! The tool dispatcher's decision core: resolve a namespaced tool call to
//! its owning server and server-local name, or attribute the failure to the
//! call's id. Executing the call on the resolved connection is transport
//! work outside this crate; its outcome flows back through
//! [`crate::orchestrator::Orchestrator::on_tool_result`], which folds every
//! failure into the transcript as an error tool-result, so a failing call
//! never loses the turn.

use vstd::prelude::*;

use crate::models::ToolCall;
use crate::registry::{namespaced, sep, ToolManager};
use crate::text::{has_substr, is_first_occ};

verus! {

/// Resolve one tool call against the registry: the owning server's id, the
/// server-local tool name, and the raw argument payload to send — or, when
/// the name is malformed or names no known server, the pairing of the
/// call's id with a human-readable message, ready to fold back into the
/// transcript.
pub fn prepare_invocation(registry: &ToolManager, call: &ToolCall) -> (r: Result<
    (String, String, String),
    (String, String),
>)
    ensures
        match r {
            Ok((server, local, args)) => {
                &&& call.function.name@ == namespaced(server@, local@)
                &&& is_first_occ(call.function.name@, sep(), server@.len() as int)
                &&& exists|k: int|
                    0 <= k < registry.spec_servers().len() && registry.spec_servers()[k]@
                        == server@
                &&& args == call.function.arguments
            },
            Err((id, msg)) => {
                &&& id == call.id
                &&& msg@ == "Unknown tool: "@ + call.function.name@
                &&& {
                    ||| !has_substr(call.function.name@, sep())
                    ||| exists|i: int|
                        #[trigger] is_first_occ(call.function.name@, sep(), i) && (forall|k: int|
                            0 <= k < registry.spec_servers().len()
                                ==> registry.spec_servers()[k]@ != call.function.name@.take(i))
                }
            },
        },
{
    match registry.resolve(call.function.name.as_str()) {
        Some((server, local)) => Ok((server, local, call.function.arguments.clone())),
        None => {
            let msg = "Unknown tool: ".to_owned().concat(call.function.name.as_str());
            Err((call.id.clone(), msg))
        },
    }
}

} // verus!
