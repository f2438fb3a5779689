//! A unified model for chat, completion and embedding requests to language-model
//! vendors, with the decision logic of one vendor adapter proved against its contracts.
use vstd::prelude::*;

pub mod backends;
pub mod chat;
pub mod completion;
pub mod error;

verus! {

/// A function invocation reported by a vendor in a chat reply.
#[derive(Debug, Clone)]
pub struct ToolCall {
    /// The identifier of the call, unique within one reply.
    pub id: String,
    /// The kind of the call (for example "function").
    pub call_type: String,
    /// The function to call.
    pub function: FunctionCall,
}

/// The function named by a [`ToolCall`].
#[derive(Debug, Clone)]
pub struct FunctionCall {
    /// The name of the function to call.
    pub name: String,
    /// The arguments, as an undecoded JSON text.
    pub arguments: String,
}

} // verus!
