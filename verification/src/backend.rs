//! The values exchanged with the generation backend: what one request
//! carries, and what comes back.

use vstd::prelude::*;
use crate::context::ConversationContext;

verus! {

/// The generation settings, fixed when the relay starts and sent unchanged
/// with every request.
#[derive(Clone, Copy, Debug, PartialEq, Eq, Structural)]
pub struct GenerationOptions {
    /// The sampling-control parameter.
    pub mirostat: u8,
    /// The size of the model's context window.
    pub num_ctx: u32,
}

/// One generation request, ready to be sent.
#[derive(Debug)]
pub struct GenerationRequest {
    /// The model that is asked.
    pub model_name: String,
    /// The user's message, tagged with the user's name.
    pub prompt: String,
    /// The system instruction, the same for every user.
    pub system: String,
    /// The generation settings.
    pub options: GenerationOptions,
    /// The context of the user's conversation so far.
    pub context: ConversationContext,
}

/// A request as contracts speak of it.
pub struct GenerationRequestView {
    pub model_name: Seq<char>,
    pub prompt: Seq<char>,
    pub system: Seq<char>,
    pub options: GenerationOptions,
    pub context: Seq<i32>,
}

impl View for GenerationRequest {
    type V = GenerationRequestView;

    open spec fn view(&self) -> GenerationRequestView {
        GenerationRequestView {
            model_name: self.model_name@,
            prompt: self.prompt@,
            system: self.system@,
            options: self.options,
            context: self.context@,
        }
    }
}

/// What the backend returned for a request that it served.
#[derive(Debug)]
pub struct GenerationResponse {
    /// The generated text. It may be empty: a model may have nothing to say.
    pub response: String,
    /// The context to send with the user's next request, where the backend
    /// supplied one.
    pub context: Option<ConversationContext>,
}

/// A request that the backend did not serve: it could not be reached, or
/// what it returned could not be read.
#[derive(Debug)]
pub struct GenerationFailure {
    /// What went wrong, in words, for a log.
    pub reason: String,
}

/// How one request ended.
pub type GenerationOutcome = Result<GenerationResponse, GenerationFailure>;

} // verus!
