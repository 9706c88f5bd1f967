//! The vLLM adapter: an OpenAI-compatible self-hosted backend without
//! authentication and with one fixed, configured model. The HTTP call is
//! plumbing outside this crate; what is here is everything the adapter
//! decides: URL shaping, request validation, and the model listing.

use vstd::prelude::*;

use crate::config::VllmConfig;
use crate::error::ApiError;
use crate::models::CompletionRequest;
use crate::router::Model;
use crate::text::{endpoint_join, spec_trim_trailing};

verus! {

/// The vLLM provider adapter.
#[derive(Debug)]
pub struct VllmClient {
    pub config: VllmConfig,
}

impl VllmClient {
    /// An adapter for the configured endpoint and model.
    pub fn new(config: VllmConfig) -> (r: Self)
        ensures
            r.config == config,
    {
        VllmClient { config }
    }

    /// Where completion requests are posted.
    pub fn completion_url(&self) -> (r: String)
        ensures
            r@ == spec_trim_trailing(self.config.endpoint@, '/') + "/chat/completions"@,
    {
        endpoint_join(self.config.endpoint.as_str(), "/chat/completions")
    }

    /// Validate a completion request before any network work: an empty
    /// transcript is a caller error and no call is made. This backend
    /// requires no credential.
    pub fn prepare_completion(&self, request: &CompletionRequest) -> (r: Result<(), ApiError>)
        ensures
            r is Ok <==> request.messages@.len() > 0,
            r matches Err(e) ==> e matches ApiError::InvalidRequest(m) && m@
                == "No messages provided"@,
    {
        if request.messages.len() == 0 {
            Err(ApiError::InvalidRequest("No messages provided".to_owned()))
        } else {
            Ok(())
        }
    }

    /// The models this backend serves: exactly the one configured model, or
    /// an error when none is configured.
    pub fn list_models(&self) -> (r: Result<Vec<Model>, ApiError>)
        ensures
            self.config.model@.len() > 0 <==> r is Ok,
            r matches Ok(ms) ==> ms@.len() == 1 && ms@[0].name == self.config.model && ms@[0].id
                == self.config.model,
            r matches Err(e) ==> e matches ApiError::InvalidRequest(m) && m@
                == "vLLM model is not configured"@,
    {
        if self.config.model.as_str().unicode_len() == 0 {
            return Err(ApiError::InvalidRequest("vLLM model is not configured".to_owned()));
        }
        let mut ms: Vec<Model> = Vec::new();
        ms.push(Model { name: self.config.model.clone(), id: self.config.model.clone() });
        Ok(ms)
    }
}

} // verus!
