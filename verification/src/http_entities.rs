//! The records of the plain completions endpoint.

use vstd::prelude::*;
use crate::binary64::Binary64;

verus! {

/// A completion request.
#[derive(Debug)]
pub struct CompletionsRequest {
    pub model: String,
    pub prompt: String,
    pub max_tokens: i32,
    pub temperature: Option<Binary64>,
    pub top_p: Option<Binary64>,
    pub top_k: Option<usize>,
}

impl CompletionsRequest {
    pub fn new(
        model: String,
        prompt: String,
        max_tokens: i32,
        temperature: Option<Binary64>,
        top_p: Option<Binary64>,
        top_k: Option<usize>,
    ) -> (r: Self)
        ensures
            r.model == model,
            r.prompt == prompt,
            r.max_tokens == max_tokens,
            r.temperature == temperature,
            r.top_p == top_p,
            r.top_k == top_k,
    {
        Self { model, prompt, max_tokens, temperature, top_p, top_k }
    }
}

/// One alternative of a completion.
#[derive(Debug)]
pub struct Choice {
    text: String,
    index: i64,
    logprobs: Option<Binary64>,
    finish_reason: String,
}

impl Choice {
    pub closed spec fn text(&self) -> String {
        self.text
    }

    pub closed spec fn index(&self) -> i64 {
        self.index
    }

    pub closed spec fn logprobs(&self) -> Option<Binary64> {
        self.logprobs
    }

    pub closed spec fn finish_reason(&self) -> String {
        self.finish_reason
    }

    pub fn new(text: String, index: i64, logprobs: Option<Binary64>, finish_reason: String) -> (r:
        Self)
        ensures
            r.text() == text,
            r.index() == index,
            r.logprobs() == logprobs,
            r.finish_reason() == finish_reason,
    {
        Self { text, index, logprobs, finish_reason }
    }

    /// Takes the choice apart: text, index, log probability, finish reason.
    pub fn into_parts(self) -> (r: (String, i64, Option<Binary64>, String))
        ensures
            r == (self.text(), self.index(), self.logprobs(), self.finish_reason()),
    {
        (self.text, self.index, self.logprobs, self.finish_reason)
    }
}

/// The token counts of a completion.
#[derive(Clone, Copy, Debug, PartialEq, Eq, Structural)]
pub struct Usage {
    prompt_tokens: i64,
    completion_tokens: i64,
    total_tokens: i64,
}

impl Usage {
    pub closed spec fn spec_prompt_tokens(&self) -> i64 {
        self.prompt_tokens
    }

    pub closed spec fn spec_completion_tokens(&self) -> i64 {
        self.completion_tokens
    }

    pub closed spec fn spec_total_tokens(&self) -> i64 {
        self.total_tokens
    }

    /// The counts as given; the total is the caller's to state.
    pub fn new(prompt_tokens: i64, completion_tokens: i64, total_tokens: i64) -> (r: Self)
        ensures
            r.spec_prompt_tokens() == prompt_tokens,
            r.spec_completion_tokens() == completion_tokens,
            r.spec_total_tokens() == total_tokens,
    {
        Self { prompt_tokens, completion_tokens, total_tokens }
    }

    #[verifier::when_used_as_spec(spec_prompt_tokens)]
    pub fn prompt_tokens(&self) -> (r: i64)
        ensures
            r == self.spec_prompt_tokens(),
    {
        self.prompt_tokens
    }

    #[verifier::when_used_as_spec(spec_completion_tokens)]
    pub fn completion_tokens(&self) -> (r: i64)
        ensures
            r == self.spec_completion_tokens(),
    {
        self.completion_tokens
    }

    #[verifier::when_used_as_spec(spec_total_tokens)]
    pub fn total_tokens(&self) -> (r: i64)
        ensures
            r == self.spec_total_tokens(),
    {
        self.total_tokens
    }
}

/// The answer to a completion request.
#[derive(Debug)]
pub struct CompletionResponse {
    id: String,
    object: String,
    created: i64,
    model: String,
    choices: Vec<Choice>,
    usage: Usage,
}

impl CompletionResponse {
    pub closed spec fn id(&self) -> String {
        self.id
    }

    pub closed spec fn object(&self) -> String {
        self.object
    }

    pub closed spec fn created(&self) -> i64 {
        self.created
    }

    pub closed spec fn model(&self) -> String {
        self.model
    }

    pub closed spec fn choices(&self) -> Vec<Choice> {
        self.choices
    }

    pub closed spec fn usage(&self) -> Usage {
        self.usage
    }

    pub fn new(
        id: String,
        object: String,
        created: i64,
        model: String,
        choices: Vec<Choice>,
        usage: Usage,
    ) -> (r: Self)
        ensures
            r.id() == id,
            r.object() == object,
            r.created() == created,
            r.model() == model,
            r.choices() == choices,
            r.usage() == usage,
    {
        Self { id, object, created, model, choices, usage }
    }

    /// Takes the response apart: id, object, creation time, model, choices,
    /// usage.
    pub fn into_parts(self) -> (r: (String, String, i64, String, Vec<Choice>, Usage))
        ensures
            r == (self.id(), self.object(), self.created(), self.model(), self.choices(), self.usage()),
    {
        (self.id, self.object, self.created, self.model, self.choices, self.usage)
    }
}

} // verus!
