//! What the endpoints compute: the prompt of a chat, the parameters that a
//! request hands to the generation, and the records that answer it.

use vstd::prelude::*;
use vstd::string::*;
use crate::generator::GenerationRequest;
use crate::models::{
    ChatCompletionChoice, ChatCompletionRequestMessage, ChatCompletionResponseMessage,
    CompletionChoice, CompletionUsage, CreateChatCompletionRequest, CreateChatCompletionResponse,
    CreateCompletionRequest, CreateCompletionResponse, CreateEmbeddingResponse,
    DeleteModelResponse, Embedding, EmbeddingUsage, ListModelsResponse, Model, Stop,
};
use crate::binary64::Binary64;

verus! {

/// What the health endpoint answers.
pub const HEALTH_MESSAGE: &'static str = "Service is up!";

/// The creation time that every listed model carries.
pub const MODEL_CREATED: i64 = 1677652288;

/// The answer of the health endpoint.
pub fn health_message() -> (r: &'static str)
    ensures
        r@ == HEALTH_MESSAGE@,
{
    HEALTH_MESSAGE
}

/// One message as it stands in the prompt: the role, a colon, the content.
pub open spec fn message_line(message: ChatCompletionRequestMessage) -> Seq<char> {
    message.role@ + seq![':'] + message.content@
}

/// The prompt of a chat: the lines of its messages, a blank between each two.
pub open spec fn spec_chat_prompt(messages: Seq<ChatCompletionRequestMessage>) -> Seq<char>
    decreases messages.len(),
{
    if messages.len() == 0 {
        Seq::empty()
    } else if messages.len() == 1 {
        message_line(messages[0])
    } else {
        spec_chat_prompt(messages.drop_last()) + seq![' '] + message_line(messages.last())
    }
}

/// Builds the prompt of a chat from its messages.
pub fn chat_prompt(messages: &Vec<ChatCompletionRequestMessage>) -> (prompt: String)
    ensures
        prompt@ == spec_chat_prompt(messages@),
{
    let mut prompt = String::new();
    let mut i: usize = 0;
    proof {
        reveal_strlit(" ");
        reveal_strlit(":");
        assert(messages@.take(0) =~= Seq::empty());
    }
    while i < messages.len()
        invariant
            i <= messages.len(),
            prompt@ == spec_chat_prompt(messages@.take(i as int)),
            " "@ == seq![' '],
            ":"@ == seq![':'],
        decreases messages.len() - i,
    {
        if i > 0 {
            prompt.append(" ");
        }
        prompt.append(messages[i].role.as_str());
        prompt.append(":");
        prompt.append(messages[i].content.as_str());
        proof {
            let upto = messages@.take(i + 1);
            assert(upto.drop_last() =~= messages@.take(i as int));
            assert(upto.last() == messages@[i as int]);
            assert(prompt@ =~= spec_chat_prompt(upto));
        }
        i = i + 1;
    }
    assert(messages@.take(messages@.len() as int) =~= messages@);
    prompt
}

/// The generation parameters of a chat request: its temperature, top-p and
/// seed, its frequency penalty as the repeat penalty, and the defaults for
/// the rest.
pub fn chat_generation_request(request: &CreateChatCompletionRequest) -> (r: GenerationRequest)
    ensures
        r.temperature == request.temperature,
        r.top_p == request.top_p,
        r.top_k is None,
        r.seed == request.seed,
        r.repeat_penalty == request.frequency_penalty,
        r.repeat_last_n is None,
{
    GenerationRequest {
        temperature: request.temperature,
        top_p: request.top_p,
        top_k: None,
        seed: request.seed,
        repeat_penalty: request.frequency_penalty,
        repeat_last_n: None,
    }
}

/// The generation parameters of a completion request, chosen as for a chat.
pub fn completion_generation_request(request: &CreateCompletionRequest) -> (r: GenerationRequest)
    ensures
        r.temperature == request.temperature,
        r.top_p == request.top_p,
        r.top_k is None,
        r.seed == request.seed,
        r.repeat_penalty == request.frequency_penalty,
        r.repeat_last_n is None,
{
    GenerationRequest {
        temperature: request.temperature,
        top_p: request.top_p,
        top_k: None,
        seed: request.seed,
        repeat_penalty: request.frequency_penalty,
        repeat_last_n: None,
    }
}

/// The usage record of a generation: the generated tokens are counted, the
/// prompt's are not.
pub fn generation_usage(tokens_generated: i32) -> (r: CompletionUsage)
    ensures
        r == (CompletionUsage {
            completion_tokens: tokens_generated,
            prompt_tokens: 0,
            total_tokens: 0,
        }),
{
    CompletionUsage { completion_tokens: tokens_generated, total_tokens: 0, prompt_tokens: 0 }
}

/// The answer to a chat request: one choice, in which the assistant says the
/// generated text.
pub fn chat_completion_response(
    id: String,
    created: i64,
    model: String,
    text: String,
    tokens_generated: i32,
) -> (r: CreateChatCompletionResponse)
    ensures
        r.id == id,
        r.object@ == "text_completion"@,
        r.created == created,
        r.model == model,
        r.choices@.len() == 1,
        r.choices@[0].index == 0,
        r.choices@[0].message.role@ == "assistant"@,
        r.choices@[0].message.content == text,
        r.choices@[0].finish_reason@ == "stop"@,
        r.usage == Some(
            CompletionUsage { completion_tokens: tokens_generated, prompt_tokens: 0, total_tokens: 0 },
        ),
{
    let choice = ChatCompletionChoice {
        index: 0,
        message: ChatCompletionResponseMessage { role: "assistant".to_owned(), content: text },
        finish_reason: "stop".to_owned(),
    };
    let mut choices: Vec<ChatCompletionChoice> = Vec::new();
    choices.push(choice);
    CreateChatCompletionResponse {
        id,
        object: "text_completion".to_owned(),
        created,
        model,
        choices,
        usage: Some(generation_usage(tokens_generated)),
    }
}

/// The answer to a completion request: one choice with the generated text.
pub fn completion_response(
    id: String,
    created: i64,
    model: String,
    text: String,
    tokens_generated: i32,
) -> (r: CreateCompletionResponse)
    ensures
        r.id == id,
        r.object@ == "text_completion"@,
        r.created == created,
        r.model == model,
        r.choices@.len() == 1,
        r.choices@[0].text == text,
        r.choices@[0].index == 0,
        r.choices@[0].logprobs is None,
        r.choices@[0].finish_reason@ == "stop"@,
        r.usage == Some(
            CompletionUsage { completion_tokens: tokens_generated, prompt_tokens: 0, total_tokens: 0 },
        ),
{
    let choice = CompletionChoice {
        text,
        index: 0,
        logprobs: None,
        finish_reason: "stop".to_owned(),
    };
    let mut choices: Vec<CompletionChoice> = Vec::new();
    choices.push(choice);
    CreateCompletionResponse {
        id,
        object: "text_completion".to_owned(),
        created,
        model,
        choices,
        usage: Some(generation_usage(tokens_generated)),
    }
}

/// The answer to an embedding request: one vector, at index zero.
pub fn embedding_response(model: String, embedding: Vec<Binary64>) -> (r: CreateEmbeddingResponse)
    ensures
        r.object@ == "list"@,
        r.model == model,
        r.data@.len() == 1,
        r.data@[0].object@ == "embedding"@,
        r.data@[0].embedding == embedding,
        r.data@[0].index == 0,
        r.usage == (EmbeddingUsage { prompt_tokens: 0, total_tokens: 0 }),
{
    let mut data: Vec<Embedding> = Vec::new();
    data.push(Embedding { object: "embedding".to_owned(), embedding, index: 0 });
    CreateEmbeddingResponse {
        object: "list".to_owned(),
        data,
        model,
        usage: EmbeddingUsage { prompt_tokens: 0, total_tokens: 0 },
    }
}

/// Whether `model` is the record of a model with the given id.
pub open spec fn is_model_record(model: Model, id: Seq<char>) -> bool {
    &&& model.id@ == id
    &&& model.object@ == "model"@
    &&& model.created == MODEL_CREATED
    &&& model.owned_by@ == "organization-1"@
}

/// The record of the model with the given id.
pub fn model_record(id: String) -> (r: Model)
    ensures
        r.id == id,
        is_model_record(r, id@),
{
    Model {
        id,
        object: "model".to_owned(),
        created: MODEL_CREATED,
        owned_by: "organization-1".to_owned(),
    }
}

/// The list of the models on offer.
pub fn listed_models() -> (r: ListModelsResponse)
    ensures
        r.object@ == "list"@,
        r.data@.len() == 2,
        is_model_record(r.data@[0], "model-1"@),
        is_model_record(r.data@[1], "model-2"@),
{
    let mut data: Vec<Model> = Vec::new();
    data.push(model_record("model-1".to_owned()));
    data.push(model_record("model-2".to_owned()));
    ListModelsResponse { object: "list".to_owned(), data }
}

/// The model id that a path names: the string, where it is a single one.
pub fn model_id(id: Stop) -> (r: Option<String>)
    ensures
        match id {
            Stop::String(s) => r == Some(s),
            Stop::Array(_) => r is None,
        },
{
    match id {
        Stop::String(s) => Some(s),
        Stop::Array(_) => None,
    }
}

/// The answer to the removal of the model with the given id.
pub fn deleted_model(id: String) -> (r: DeleteModelResponse)
    ensures
        r.id == id,
        r.object@ == "model"@,
        r.deleted,
{
    DeleteModelResponse { id, object: "model".to_owned(), deleted: true }
}

} // verus!
