use synap_forge_llm::binary64::Binary64;
use synap_forge_llm::http_entities::{Choice, CompletionResponse, CompletionsRequest, Usage};
use synap_forge_llm::http_service::{
    chat_completion_response, chat_generation_request, chat_prompt, completion_generation_request,
    completion_response, deleted_model, embedding_response, generation_usage, health_message,
    listed_models, model_id, model_record, HEALTH_MESSAGE, MODEL_CREATED,
};
use synap_forge_llm::models::{
    ChatCompletionRequestMessage, CompletionUsage, CreateChatCompletionRequest,
    CreateCompletionRequest, EmbeddingUsage, Stop,
};

fn number(x: f64) -> Binary64 {
    Binary64::from_bits(x.to_bits())
}

fn message(role: &str, content: &str) -> ChatCompletionRequestMessage {
    ChatCompletionRequestMessage { role: role.to_string(), content: content.to_string() }
}

fn chat_request() -> CreateChatCompletionRequest {
    CreateChatCompletionRequest {
        messages: vec![message("user", "hi")],
        model: "m".to_string(),
        frequency_penalty: Some(number(1.2)),
        logit_bias: None,
        logprobs: None,
        top_logprobs: None,
        c: None,
        n: None,
        presence_penalty: Some(number(0.3)),
        response_format: None,
        seed: Some(11),
        stop: None,
        stream: None,
        stream_options: None,
        temperature: Some(number(0.7)),
        top_p: Some(number(0.9)),
        tools: None,
        tool_choice: None,
        parallel_tool_calls: None,
        user: None,
        function_call: None,
        functions: None,
        max_tokens: Some(5),
    }
}

#[test]
fn usage_keeps_its_counts() {
    let usage = Usage::new(3, 5, 8);
    assert_eq!(usage.prompt_tokens(), 3);
    assert_eq!(usage.completion_tokens(), 5);
    assert_eq!(usage.total_tokens(), 8);
}

#[test]
fn usage_total_is_the_callers() {
    let usage = Usage::new(3, 5, 0);
    assert_eq!(usage.total_tokens(), 0);
    assert_eq!(Usage::new(i64::MIN, i64::MAX, -1), Usage::new(i64::MIN, i64::MAX, -1));
}

#[test]
fn completions_request_keeps_its_fields() {
    let r = CompletionsRequest::new(
        "m".to_string(),
        "The sky is".to_string(),
        5,
        Some(number(0.0)),
        None,
        Some(40),
    );
    assert_eq!(r.model, "m");
    assert_eq!(r.prompt, "The sky is");
    assert_eq!(r.max_tokens, 5);
    assert_eq!(r.temperature, Some(number(0.0)));
    assert_eq!(r.top_p, None);
    assert_eq!(r.top_k, Some(40));
}

#[test]
fn choice_keeps_its_fields() {
    let choice = Choice::new("blue".to_string(), 2, Some(number(-0.5)), "stop".to_string());
    assert_eq!(
        choice.into_parts(),
        ("blue".to_string(), 2, Some(number(-0.5)), "stop".to_string())
    );
}

#[test]
fn completion_response_keeps_its_fields() {
    let choice = Choice::new("blue".to_string(), 0, None, "stop".to_string());
    let response = CompletionResponse::new(
        "id-1".to_string(),
        "text_completion".to_string(),
        17,
        "m".to_string(),
        vec![choice],
        Usage::new(3, 1, 4),
    );
    let (id, object, created, model, choices, usage) = response.into_parts();
    assert_eq!(id, "id-1");
    assert_eq!(object, "text_completion");
    assert_eq!(created, 17);
    assert_eq!(model, "m");
    assert_eq!(choices.len(), 1);
    assert_eq!(usage, Usage::new(3, 1, 4));
}

#[test]
fn health_answers_that_the_service_is_up() {
    assert_eq!(health_message(), "Service is up!");
    assert_eq!(HEALTH_MESSAGE, "Service is up!");
}

#[test]
fn chat_prompt_of_no_message_is_empty() {
    assert_eq!(chat_prompt(&vec![]), "");
}

#[test]
fn chat_prompt_of_one_message_is_its_line() {
    assert_eq!(chat_prompt(&vec![message("user", "hi")]), "user:hi");
}

#[test]
fn chat_prompt_joins_lines_with_blanks() {
    let messages = vec![
        message("system", "be brief"),
        message("user", "The sky is"),
        message("assistant", ""),
    ];
    assert_eq!(chat_prompt(&messages), "system:be brief user:The sky is assistant:");
}

#[test]
fn chat_request_hands_its_parameters_on() {
    let r = chat_generation_request(&chat_request());
    assert_eq!(r.temperature, Some(number(0.7)));
    assert_eq!(r.top_p, Some(number(0.9)));
    assert_eq!(r.top_k, None);
    assert_eq!(r.seed, Some(11));
    assert_eq!(r.repeat_penalty, Some(number(1.2)));
    assert_eq!(r.repeat_last_n, None);
}

#[test]
fn completion_request_hands_its_parameters_on() {
    let request = CreateCompletionRequest {
        model: "m".to_string(),
        prompt: Some("The sky is".to_string()),
        best_of: None,
        echo: None,
        frequency_penalty: None,
        logit_bias: None,
        logprobs: None,
        max_tokens: Some(5),
        n: None,
        presence_penalty: None,
        seed: None,
        stop: None,
        stream: None,
        suffix: None,
        temperature: Some(number(0.0)),
        top_p: None,
        user: None,
    };
    let r = completion_generation_request(&request);
    assert_eq!(r.temperature, Some(number(0.0)));
    assert_eq!(r.top_p, None);
    assert_eq!(r.top_k, None);
    assert_eq!(r.seed, None);
    assert_eq!(r.repeat_penalty, None);
    assert_eq!(r.repeat_last_n, None);
}

#[test]
fn usage_of_a_generation_counts_the_generated_tokens() {
    assert_eq!(
        generation_usage(5),
        CompletionUsage { completion_tokens: 5, prompt_tokens: 0, total_tokens: 0 }
    );
}

#[test]
fn chat_answer_has_one_choice_by_the_assistant() {
    let r = chat_completion_response("id-1".to_string(), 99, "m".to_string(), " blue".to_string(), 5);
    assert_eq!(r.id, "id-1");
    assert_eq!(r.object, "text_completion");
    assert_eq!(r.created, 99);
    assert_eq!(r.model, "m");
    assert_eq!(r.choices.len(), 1);
    assert_eq!(r.choices[0].index, 0);
    assert_eq!(r.choices[0].message.role, "assistant");
    assert_eq!(r.choices[0].message.content, " blue");
    assert_eq!(r.choices[0].finish_reason, "stop");
    assert_eq!(
        r.usage,
        Some(CompletionUsage { completion_tokens: 5, prompt_tokens: 0, total_tokens: 0 })
    );
}

#[test]
fn completion_answer_has_one_choice() {
    let r = completion_response("id-2".to_string(), 7, "m".to_string(), " blue".to_string(), 3);
    assert_eq!(r.id, "id-2");
    assert_eq!(r.object, "text_completion");
    assert_eq!(r.created, 7);
    assert_eq!(r.model, "m");
    assert_eq!(r.choices.len(), 1);
    assert_eq!(r.choices[0].text, " blue");
    assert_eq!(r.choices[0].index, 0);
    assert_eq!(r.choices[0].logprobs, None);
    assert_eq!(r.choices[0].finish_reason, "stop");
    assert_eq!(
        r.usage,
        Some(CompletionUsage { completion_tokens: 3, prompt_tokens: 0, total_tokens: 0 })
    );
}

#[test]
fn embedding_answer_has_one_vector() {
    let r = embedding_response("m".to_string(), vec![number(0.5), number(-1.0)]);
    assert_eq!(r.object, "list");
    assert_eq!(r.model, "m");
    assert_eq!(r.data.len(), 1);
    assert_eq!(r.data[0].object, "embedding");
    assert_eq!(r.data[0].embedding, vec![number(0.5), number(-1.0)]);
    assert_eq!(r.data[0].index, 0);
    assert_eq!(r.usage, EmbeddingUsage { prompt_tokens: 0, total_tokens: 0 });
}

#[test]
fn two_models_are_listed() {
    let r = listed_models();
    assert_eq!(r.object, "list");
    assert_eq!(r.data.len(), 2);
    assert_eq!(r.data[0].id, "model-1");
    assert_eq!(r.data[1].id, "model-2");
    for model in &r.data {
        assert_eq!(model.object, "model");
        assert_eq!(model.created, 1677652288);
        assert_eq!(model.owned_by, "organization-1");
    }
    assert_eq!(MODEL_CREATED, 1677652288);
}

#[test]
fn model_record_carries_its_id() {
    let model = model_record("llama".to_string());
    assert_eq!(model.id, "llama");
    assert_eq!(model.object, "model");
    assert_eq!(model.created, 1677652288);
    assert_eq!(model.owned_by, "organization-1");
}

#[test]
fn model_id_is_the_single_string() {
    assert_eq!(model_id(Stop::String("llama".to_string())), Some("llama".to_string()));
    assert_eq!(model_id(Stop::Array(vec!["llama".to_string()])), None);
    assert_eq!(model_id(Stop::Array(vec![])), None);
}

#[test]
fn deleted_model_says_so() {
    let r = deleted_model("llama".to_string());
    assert_eq!(r.id, "llama");
    assert_eq!(r.object, "model");
    assert!(r.deleted);
}
