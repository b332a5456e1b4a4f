//! The relay's core: it turns one message of a user into one request to the
//! backend and one outcome of the backend into one reply, and keeps each
//! user's context between the two.

use vstd::prelude::*;
use crate::backend::{
    GenerationFailure, GenerationOptions, GenerationOutcome, GenerationRequest,
    GenerationRequestView, GenerationResponse,
};
use crate::prompt::{tag_prompt, tagged};
use crate::store::{context_for, ContextStore};

verus! {

/// The state of a relay as contracts speak of it.
pub struct ModelView {
    pub model_name: Seq<char>,
    pub generation_options: GenerationOptions,
    pub system_prompt: Seq<char>,
    pub contexts: Map<Seq<char>, Seq<i32>>,
}

/// The reply that goes back to the user for `outcome`: the generated text of
/// a request that was served, and the empty text for one that was not.
pub open spec fn reply_text(outcome: GenerationOutcome) -> Seq<char> {
    match outcome {
        Ok(response) => response.response@,
        Err(_) => Seq::<char>::empty(),
    }
}

/// The contexts that a store holds once `outcome` has come in for `user_name`:
/// the user's entry is replaced where the backend served the request and
/// supplied a context, and nothing changes otherwise.
pub open spec fn contexts_after(
    contexts: Map<Seq<char>, Seq<i32>>,
    user_name: Seq<char>,
    outcome: GenerationOutcome,
) -> Map<Seq<char>, Seq<i32>> {
    match outcome {
        Ok(response) => match response.context {
            Some(context) => contexts.insert(user_name, context@),
            None => contexts,
        },
        Err(_) => contexts,
    }
}

impl ModelView {
    /// The request that stands for `prompt` as said by `user_name`.
    pub open spec fn request_for(
        self,
        user_name: Seq<char>,
        prompt: Seq<char>,
    ) -> GenerationRequestView {
        GenerationRequestView {
            model_name: self.model_name,
            prompt: tagged(user_name, prompt),
            system: self.system_prompt,
            options: self.generation_options,
            context: context_for(self.contexts, user_name),
        }
    }

    /// The state once `outcome` has come in for `user_name`: only the
    /// contexts can differ.
    pub open spec fn after(
        self,
        user_name: Seq<char>,
        outcome: GenerationOutcome,
    ) -> ModelView {
        ModelView { contexts: contexts_after(self.contexts, user_name, outcome), ..self }
    }
}

/// A relay for one model: its fixed settings and the contexts of its users.
pub struct Model {
    model_name: String,
    generation_options: GenerationOptions,
    system_prompt: String,
    context: ContextStore,
}

impl View for Model {
    type V = ModelView;

    closed spec fn view(&self) -> ModelView {
        ModelView {
            model_name: self.model_name@,
            generation_options: self.generation_options,
            system_prompt: self.system_prompt@,
            contexts: self.context@,
        }
    }
}

impl Model {
    /// A relay that knows no user yet.
    pub fn new(
        model_name: String,
        generation_options: GenerationOptions,
        system_prompt: String,
    ) -> (model: Self)
        ensures
            model@ == (ModelView {
                model_name: model_name@,
                generation_options,
                system_prompt: system_prompt@,
                contexts: Map::<Seq<char>, Seq<i32>>::empty(),
            }),
    {
        Model { model_name, generation_options, system_prompt, context: ContextStore::new() }
    }

    /// The request to send for `prompt` as said by `user_name`: the fixed
    /// settings, the tagged prompt, and the user's context so far (the empty
    /// one for a user without history). The relay itself is left as it is.
    pub fn request_for(&self, user_name: &str, prompt: &str) -> (request: GenerationRequest)
        ensures
            request@ == self@.request_for(user_name@, prompt@),
    {
        GenerationRequest {
            model_name: self.model_name.clone(),
            prompt: tag_prompt(user_name, prompt),
            system: self.system_prompt.clone(),
            options: self.generation_options,
            context: self.context.get(user_name),
        }
    }

    /// Takes in what the backend returned for a request of `user_name` and
    /// gives the reply for the user.
    ///
    /// A served request replaces the user's context where the backend
    /// supplied one, and its text is the reply, empty or not. A request that
    /// was not served changes nothing, and the reply is the empty text.
    /// There is always a reply.
    pub fn absorb(
        &mut self,
        user_name: &str,
        outcome: GenerationOutcome,
    ) -> (reply: Option<String>)
        ensures
            final(self)@ == old(self)@.after(user_name@, outcome),
            outcome is Err ==> final(self)@ == old(self)@,
            reply matches Some(text) && text@ == reply_text(outcome),
    {
        match outcome {
            Ok(response) => {
                if let Some(context) = response.context {
                    self.context.set(user_name, context);
                }
                Some(response.response)
            },
            Err(_) => Some(String::new()),
        }
    }

    /// Handles one message: builds the request, has `generate` send it, and
    /// takes in what came back.
    ///
    /// `generate` is called once, with the request that `request_for`
    /// describes. Whatever it returns, the relay ends as `absorb` says for
    /// that outcome, and the reply is the one that `absorb` gives.
    pub fn send_message<F>(
        &mut self,
        user_name: &str,
        prompt: &str,
        generate: F,
    ) -> (reply: Option<String>) where F: FnOnce(GenerationRequest) -> GenerationOutcome
        requires
            forall|request: GenerationRequest|
                request@ == old(self)@.request_for(user_name@, prompt@) ==> call_requires(
                    generate,
                    (request,),
                ),
        ensures
            exists|request: GenerationRequest, outcome: GenerationOutcome|
                request@ == old(self)@.request_for(user_name@, prompt@)
                    && #[trigger] call_ensures(generate, (request,), outcome)
                    && final(self)@ == old(self)@.after(user_name@, outcome)
                    && (reply matches Some(text) && text@ == reply_text(outcome)),
    {
        let request = self.request_for(user_name, prompt);
        let ghost sent = request;
        let outcome = generate(request);
        let ghost returned = outcome;
        let reply = self.absorb(user_name, outcome);
        assert(call_ensures(generate, (sent,), returned));
        reply
    }

    /// The contexts of the users seen so far.
    pub fn contexts(&self) -> (store: &ContextStore)
        ensures
            store@ == self@.contexts,
    {
        &self.context
    }
}

/// A request that the backend did not serve leaves every user's context as
/// it was, the sender's included.
pub proof fn lemma_failure_keeps_contexts(
    model: ModelView,
    user_name: Seq<char>,
    failure: GenerationFailure,
    key: Seq<char>,
)
    ensures
        model.after(user_name, Err(failure)) == model,
        context_for(model.after(user_name, Err(failure)).contexts, key) == context_for(
            model.contexts,
            key,
        ),
{
}

/// Whatever comes back for one user, no user loses an entry, and no other
/// user's context changes.
pub proof fn lemma_outcome_touches_only_the_sender(
    model: ModelView,
    user_name: Seq<char>,
    outcome: GenerationOutcome,
    other: Seq<char>,
)
    ensures
        model.contexts.contains_key(other) ==> model.after(user_name, outcome).contexts.contains_key(
            other,
        ),
        other != user_name ==> context_for(model.after(user_name, outcome).contexts, other)
            == context_for(model.contexts, other),
{
}

/// A served request that came with a context makes that context the
/// sender's, to be sent with the sender's next request, and its text is the
/// reply, also where the text is empty.
pub proof fn lemma_served_context_is_next(
    model: ModelView,
    user_name: Seq<char>,
    response: GenerationResponse,
    next_prompt: Seq<char>,
)
    requires
        response.context is Some,
    ensures
        model.after(user_name, Ok(response)).request_for(user_name, next_prompt).context
            == response.context->0@,
        reply_text(Ok(response)) == response.response@,
{
}

} // verus!
