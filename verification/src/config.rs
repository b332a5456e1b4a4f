//! The settings that the relay is started with.

use vstd::prelude::*;
use crate::backend::GenerationOptions;
use crate::model::{Model, ModelView};

verus! {

/// The settings of one deployment. Every field is required.
#[derive(Debug)]
pub struct Config {
    /// The identifier of the model that the backend is asked for.
    pub model_name: String,
    /// The sampling-control parameter.
    pub mirostat: u8,
    /// The size of the model's context window.
    pub context_size: u32,
    /// The secret with which the bot signs in to the chat transport.
    pub bot_token: String,
    /// The system instruction sent with every request.
    pub system_prompt: String,
}

impl Config {
    /// The generation settings that these settings ask for.
    pub fn generation_options(&self) -> (options: GenerationOptions)
        ensures
            options == (GenerationOptions { mirostat: self.mirostat, num_ctx: self.context_size }),
    {
        GenerationOptions { mirostat: self.mirostat, num_ctx: self.context_size }
    }

    /// Splits the settings into the relay that they describe, which knows no
    /// user yet, and the secret for the chat transport.
    pub fn into_model_and_token(self) -> (parts: (Model, String))
        ensures
            parts.0@ == (ModelView {
                model_name: self.model_name@,
                generation_options: GenerationOptions {
                    mirostat: self.mirostat,
                    num_ctx: self.context_size,
                },
                system_prompt: self.system_prompt@,
                contexts: Map::<Seq<char>, Seq<i32>>::empty(),
            }),
            parts.1@ == self.bot_token@,
    {
        let options = self.generation_options();
        (Model::new(self.model_name, options, self.system_prompt), self.bot_token)
    }
}

} // verus!
