use vstd::prelude::*;

verus! {

/// A request for plain text completion.
#[derive(Debug, Clone)]
pub struct CompletionRequest {
    /// The text to complete.
    pub prompt: String,
    /// The largest number of tokens to generate, if bounded.
    pub max_tokens: Option<u32>,
}

/// The text produced by a completion request.
#[derive(Debug, Clone)]
pub struct CompletionResponse {
    /// The generated text.
    pub text: String,
}

} // verus!
