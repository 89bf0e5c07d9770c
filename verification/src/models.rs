//! The records of the chat, completion, embedding and model endpoints.

use vstd::prelude::*;
use std::collections::HashMap;
use crate::binary64::Binary64;

verus! {

/// A chat completion request.
#[derive(Debug)]
pub struct CreateChatCompletionRequest {
    pub messages: Vec<ChatCompletionRequestMessage>,
    pub model: String,
    pub frequency_penalty: Option<Binary64>,
    pub logit_bias: Option<HashMap<String, i64>>,
    pub logprobs: Option<bool>,
    pub top_logprobs: Option<i64>,
    pub c: Option<i64>,
    pub n: Option<i64>,
    pub presence_penalty: Option<Binary64>,
    pub response_format: Option<ResponseFormat>,
    pub seed: Option<i64>,
    pub stop: Option<Stop>,
    pub stream: Option<bool>,
    pub stream_options: Option<ChatCompletionStreamOptions>,
    pub temperature: Option<Binary64>,
    pub top_p: Option<Binary64>,
    pub tools: Option<Vec<ChatCompletionTool>>,
    pub tool_choice: Option<ChatCompletionToolChoiceOption>,
    pub parallel_tool_calls: Option<ParallelToolCalls>,
    pub user: Option<String>,
    pub function_call: Option<FunctionCall>,
    pub functions: Option<Vec<ChatCompletionFunctions>>,
    pub max_tokens: Option<i32>,
}

#[derive(Debug)]
pub enum ResponseFormat {
    Text(ResponseFormatText),
    JsonObject(ResponseFormatJsonObject),
    JsonSchema(ResponseFormatJsonSchema),
}

#[derive(Debug)]
pub struct ResponseFormatText {}

#[derive(Debug)]
pub struct ResponseFormatJsonObject {}

#[derive(Debug)]
pub struct ResponseFormatJsonSchema {}

#[derive(Debug)]
pub struct ChatCompletionStreamOptions {}

#[derive(Debug)]
pub struct ChatCompletionTool {}

#[derive(Debug)]
pub struct ChatCompletionToolChoiceOption {}

#[derive(Debug)]
pub struct ParallelToolCalls {}

/// One stop sequence or several; also the shape in which a model id arrives
/// in a path.
#[derive(Debug)]
pub enum Stop {
    String(String),
    Array(Vec<String>),
}

#[derive(Debug)]
pub enum FunctionCall {
    String(String),
    ChatCompletionFunctionCallOption(ChatCompletionFunctionCallOption),
}

#[derive(Debug)]
pub struct ChatCompletionFunctionCallOption {}

#[derive(Debug)]
pub struct ChatCompletionFunctions {}

/// One message of a chat: who speaks, and what.
#[derive(Debug)]
pub struct ChatCompletionRequestMessage {
    pub role: String,
    pub content: String,
}

/// The answer to a chat completion request.
#[derive(Debug)]
pub struct CreateChatCompletionResponse {
    pub id: String,
    pub object: String,
    pub created: i64,
    pub model: String,
    pub choices: Vec<ChatCompletionChoice>,
    pub usage: Option<CompletionUsage>,
}

#[derive(Debug)]
pub struct ChatCompletionChoice {
    pub index: i64,
    pub message: ChatCompletionResponseMessage,
    pub finish_reason: String,
}

#[derive(Debug)]
pub struct ChatCompletionResponseMessage {
    pub role: String,
    pub content: String,
}

/// A text completion request.
#[derive(Debug)]
pub struct CreateCompletionRequest {
    pub model: String,
    pub prompt: Option<String>,
    pub best_of: Option<i32>,
    pub echo: Option<bool>,
    pub frequency_penalty: Option<Binary64>,
    pub logit_bias: Option<HashMap<String, i32>>,
    pub logprobs: Option<i32>,
    pub max_tokens: Option<i32>,
    pub n: Option<i32>,
    pub presence_penalty: Option<Binary64>,
    pub seed: Option<i64>,
    pub stop: Option<StopSequence>,
    pub stream: Option<bool>,
    pub suffix: Option<String>,
    pub temperature: Option<Binary64>,
    pub top_p: Option<Binary64>,
    pub user: Option<String>,
}

#[derive(Debug)]
pub enum Prompt {
    Single(String),
    ArrayOfStrings(Vec<String>),
    ArrayOfTokens(Vec<i32>),
    ArrayOfTokenArrays(Vec<Vec<i32>>),
}

#[derive(Debug)]
pub enum StopSequence {
    Single(String),
    Array(Vec<String>),
}

/// The answer to a text completion request.
#[derive(Debug)]
pub struct CreateCompletionResponse {
    pub id: String,
    pub object: String,
    pub created: i64,
    pub model: String,
    pub choices: Vec<CompletionChoice>,
    pub usage: Option<CompletionUsage>,
}

#[derive(Debug)]
pub struct CompletionChoice {
    pub text: String,
    pub index: i64,
    pub logprobs: Option<i64>,
    pub finish_reason: String,
}

#[derive(Clone, Copy, Debug, PartialEq, Eq, Structural)]
pub struct CompletionUsage {
    pub completion_tokens: i32,
    pub prompt_tokens: i32,
    pub total_tokens: i32,
}

#[derive(Debug)]
pub struct CreateEmbeddingRequest {
    pub model: String,
    pub input: String,
}

/// The answer to an embedding request; each component of a vector is held
/// by its bit pattern.
#[derive(Debug)]
pub struct CreateEmbeddingResponse {
    pub object: String,
    pub data: Vec<Embedding>,
    pub model: String,
    pub usage: EmbeddingUsage,
}

#[derive(Debug)]
pub struct Embedding {
    pub object: String,
    pub embedding: Vec<Binary64>,
    pub index: i64,
}

#[derive(Clone, Copy, Debug, PartialEq, Eq, Structural)]
pub struct EmbeddingUsage {
    pub prompt_tokens: i32,
    pub total_tokens: i32,
}

#[derive(Debug)]
pub struct ListModelsResponse {
    pub object: String,
    pub data: Vec<Model>,
}

#[derive(Debug)]
pub struct Model {
    pub id: String,
    pub object: String,
    pub created: i64,
    pub owned_by: String,
}

#[derive(Debug)]
pub struct DeleteModelResponse {
    pub id: String,
    pub object: String,
    pub deleted: bool,
}

} // verus!
