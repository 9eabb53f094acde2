//! The interface to a language-model backend. Implementations live outside
//! the library (a local model server, or a stand-in in tests); the library
//! builds the requests and reads the replies.
use vstd::prelude::*;

verus! {

/// One request to a model.
#[derive(Debug)]
pub struct ModelRequest {
    pub model: String,
    pub prompt: String,
    pub system_prompt: Option<String>,
    /// Sampling temperature in hundredths (70 stands for 0.7).
    pub temperature_pct: u32,
    pub max_tokens: Option<u32>,
}

/// The reply of a model.
#[derive(Debug)]
pub struct ModelResponse {
    pub content: String,
    pub model: String,
    pub tokens_used: u32,
}

/// A backend that answers model requests. What it answers is up to the
/// implementation: nothing is assumed of it.
pub trait ModelDispatcher {
    /// Sends `req`; the reply, or a description of the failure.
    fn dispatch(&self, req: ModelRequest) -> Result<ModelResponse, String>;

    /// Names of the models the backend can serve.
    fn available_models(&self) -> Vec<String>;

    /// Whether the backend answers: by default, whether it lists a model.
    fn health_check(&self) -> bool {
        self.available_models().len() > 0
    }
}

impl Clone for ModelRequest {
    fn clone(&self) -> (r: ModelRequest)
        ensures
            r.model@ == self.model@,
            r.prompt@ == self.prompt@,
            crate::text::opt_text(r.system_prompt) == crate::text::opt_text(self.system_prompt),
            r.temperature_pct == self.temperature_pct,
            r.max_tokens == self.max_tokens,
    {
        ModelRequest {
            model: self.model.clone(),
            prompt: self.prompt.clone(),
            system_prompt: crate::text::clone_opt(&self.system_prompt),
            temperature_pct: self.temperature_pct,
            max_tokens: self.max_tokens,
        }
    }
}

impl Clone for ModelResponse {
    fn clone(&self) -> (r: ModelResponse)
        ensures
            r.content@ == self.content@,
            r.model@ == self.model@,
            r.tokens_used == self.tokens_used,
    {
        ModelResponse {
            content: self.content.clone(),
            model: self.model.clone(),
            tokens_used: self.tokens_used,
        }
    }
}

impl ModelRequest {
    /// A request for `model` with `prompt`, temperature 0.7, no system prompt
    /// and no token limit.
    pub fn new(model: &str, prompt: &str) -> (r: ModelRequest)
        ensures
            r.model@ == model@,
            r.prompt@ == prompt@,
            r.system_prompt is None,
            r.temperature_pct == 70,
            r.max_tokens is None,
    {
        ModelRequest {
            model: model.to_owned(),
            prompt: prompt.to_owned(),
            system_prompt: None,
            temperature_pct: 70,
            max_tokens: None,
        }
    }

    /// The same request with a system prompt.
    pub fn with_system_prompt(self, system_prompt: &str) -> (r: ModelRequest)
        ensures
            r.model == self.model,
            r.prompt == self.prompt,
            r.system_prompt matches Some(s) && s@ == system_prompt@,
            r.temperature_pct == self.temperature_pct,
            r.max_tokens == self.max_tokens,
    {
        ModelRequest { system_prompt: Some(system_prompt.to_owned()), ..self }
    }

    /// The same request with another temperature (in hundredths).
    pub fn with_temperature_pct(self, temperature_pct: u32) -> (r: ModelRequest)
        ensures
            r.model == self.model,
            r.prompt == self.prompt,
            r.system_prompt == self.system_prompt,
            r.temperature_pct == temperature_pct,
            r.max_tokens == self.max_tokens,
    {
        ModelRequest { temperature_pct, ..self }
    }

    /// The same request with a token limit.
    pub fn with_max_tokens(self, max_tokens: u32) -> (r: ModelRequest)
        ensures
            r.model == self.model,
            r.prompt == self.prompt,
            r.system_prompt == self.system_prompt,
            r.temperature_pct == self.temperature_pct,
            r.max_tokens == Some(max_tokens),
    {
        ModelRequest { max_tokens: Some(max_tokens), ..self }
    }
}

} // verus!
