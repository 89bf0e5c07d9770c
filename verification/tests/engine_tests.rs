use std::str::FromStr;

use candle_core::{DType, Device, Tensor};
use candle_nn::VarBuilder;
use candle_transformers::generation::{LogitsProcessor, Sampling as Strategy};
use candle_transformers::models::llama::{Cache, Config, Llama};
use candle_transformers::utils::apply_repeat_penalty;
use synap_forge_llm::binary64::Binary64;
use synap_forge_llm::decode_state::{EngineFailure, Outcome};
use synap_forge_llm::eos::EosSpec;
use synap_forge_llm::generator::{Generation, TextGeneration};
use synap_forge_llm::sampling::Sampling;
use tokenizers::Tokenizer;

const WORDS: &str = r#"{"version":"1.0","truncation":null,"padding":null,
 "added_tokens":[{"id":3,"content":"</s>","single_word":false,"lstrip":false,"rstrip":false,"normalized":false,"special":true}],
 "normalizer":null,"pre_tokenizer":{"type":"Whitespace"},"post_processor":null,"decoder":null,
 "model":{"type":"WordLevel","vocab":{"hello":0,"world":1,"!":2,"</s>":3,"the":4,"sky":5,"is":6,"blue":7,"<unk>":8,"The":9,
 "a":10,"b":11,"c":12,"d":13,"e":14,"f":15},"unk_token":"<unk>"}}"#;

fn number(x: f64) -> Binary64 {
    Binary64::from_bits(x.to_bits())
}

fn float(x: Binary64) -> f64 {
    f64::from_bits(x.to_bits())
}

fn config() -> Config {
    Config {
        hidden_size: 8,
        intermediate_size: 16,
        vocab_size: 16,
        num_hidden_layers: 1,
        num_attention_heads: 2,
        num_key_value_heads: 2,
        use_flash_attn: false,
        rms_norm_eps: 1e-5,
        rope_theta: 10_000.0,
        bos_token_id: None,
        eos_token_id: None,
        rope_scaling: None,
        max_position_embeddings: 64,
        tie_word_embeddings: false,
    }
}

fn strategy(sampling: Sampling) -> Strategy {
    match sampling {
        Sampling::ArgMax => Strategy::ArgMax,
        Sampling::All { temperature } => Strategy::All { temperature: float(temperature) },
        Sampling::TopK { k, temperature } => Strategy::TopK { k, temperature: float(temperature) },
        Sampling::TopP { p, temperature } => {
            Strategy::TopP { p: float(p), temperature: float(temperature) }
        }
        Sampling::TopKThenTopP { k, p, temperature } => {
            Strategy::TopKThenTopP { k, p: float(p), temperature: float(temperature) }
        }
    }
}

/// Runs a generation on a small model whose weights are all zero.
fn run(
    seed: i64,
    temperature: Option<f64>,
    penalty: f64,
    eos: EosSpec,
    max_tokens: i32,
) -> Generation {
    let device = Device::Cpu;
    let config = config();
    let model = Llama::load(VarBuilder::zeros(DType::F32, &device), &config).unwrap();
    let mut cache = Cache::new(true, DType::F32, &config, &device).unwrap();
    let generation = TextGeneration::new(
        Tokenizer::from_str(WORDS).unwrap(),
        seed,
        temperature.map(number),
        None,
        None,
        number(penalty),
        64,
        Some(eos),
    )
    .unwrap();
    let mut processor = LogitsProcessor::from_sampling(generation.seed(), strategy(generation.sampling()));
    let factor = float(generation.repeat_penalty()) as f32;
    let use_kv_cache = cache.use_kv_cache;
    let mut engine = |context: &[u32], position: usize, window: Option<&[u32]>| {
        let logits = Tensor::new(context, &device)
            .and_then(|input| input.unsqueeze(0))
            .and_then(|input| model.forward(&input, position, &mut cache))
            .and_then(|logits| logits.squeeze(0))
            .map_err(|_| EngineFailure::Forward)?;
        let logits = match window {
            Some(window) => apply_repeat_penalty(&logits, factor, window)
                .map_err(|_| EngineFailure::RepeatPenalty)?,
            None => logits,
        };
        processor.sample(&logits).map_err(|_| EngineFailure::Sampling)
    };
    generation.generate("The sky is".to_string(), Some(max_tokens), use_kv_cache, &mut engine).unwrap()
}

#[test]
fn greedy_generation_repeats_itself() {
    let first = run(299792458, Some(0.0), 1.0, EosSpec::Single(1000), 5);
    let second = run(299792458, Some(0.0), 1.0, EosSpec::Single(1000), 5);
    assert_eq!(first.outcome, Outcome::Exhausted);
    assert_eq!(first.tokens_generated, 5);
    assert_eq!(first.tokens.len(), 8);
    assert_eq!(&first.tokens[..3], &[9, 5, 6]);
    assert!(first.tokens[3..].iter().all(|&t| t < 16));
    assert_eq!(first.text, second.text);
    assert_eq!(first.tokens, second.tokens);
    assert_eq!(first.tokens_generated, second.tokens_generated);
}

#[test]
fn greedy_generation_ends_early_on_its_terminal_token() {
    let free = run(299792458, None, 1.0, EosSpec::Single(1000), 5);
    let first_token = free.tokens[3];
    let stopped = run(299792458, None, 1.0, EosSpec::Single(first_token), 5);
    assert_eq!(stopped.outcome, Outcome::Stopped);
    assert_eq!(stopped.tokens_generated, 1);
    assert_eq!(stopped.tokens, vec![9, 5, 6, first_token]);
    assert_eq!(stopped.text, "");
}

#[test]
fn seeded_sampling_repeats_itself() {
    for seed in [1i64, 7, 299792458] {
        let first = run(seed, Some(0.9), 1.0, EosSpec::Single(1000), 12);
        let second = run(seed, Some(0.9), 1.0, EosSpec::Single(1000), 12);
        assert_eq!(first.tokens_generated, 12);
        assert_eq!(first.tokens, second.tokens);
        assert_eq!(first.text, second.text);
        assert_eq!(first.outcome, second.outcome);
    }
}

#[test]
fn another_seed_can_give_another_text() {
    let runs: Vec<Vec<u32>> = (0..8)
        .map(|seed| run(seed, Some(1.0), 1.0, EosSpec::Single(1000), 12).tokens)
        .collect();
    assert!(runs.iter().any(|tokens| *tokens != runs[0]));
}

#[test]
fn penalised_generation_runs_through_the_model() {
    let first = run(3, Some(0.0), 1.3, EosSpec::Single(1000), 6);
    let second = run(3, Some(0.0), 1.3, EosSpec::Single(1000), 6);
    assert_eq!(first.outcome, Outcome::Exhausted);
    assert_eq!(first.tokens_generated, 6);
    assert_eq!(first.tokens, second.tokens);
    assert_eq!(first.text, second.text);
}

fn probabilities(logits: &Tensor) -> Vec<f32> {
    let scores: Vec<f32> = logits.to_vec1().unwrap();
    let top = scores.iter().cloned().fold(f32::NEG_INFINITY, f32::max);
    let weights: Vec<f32> = scores.iter().map(|s| (s - top).exp()).collect();
    let total: f32 = weights.iter().sum();
    weights.iter().map(|w| w / total).collect()
}

#[test]
fn penalty_lowers_the_probability_of_the_tokens_in_its_window() {
    let device = Device::Cpu;
    let scores: Vec<f32> = (0..16).map(|i| (i as f32 - 6.5) * 0.25).collect();
    let logits = Tensor::new(scores.as_slice(), &device).unwrap();
    let generation = TextGeneration::new(
        Tokenizer::from_str(WORDS).unwrap(),
        1,
        None,
        None,
        None,
        number(1.5),
        2,
        Some(EosSpec::Single(1000)),
    )
    .unwrap();
    let factor = float(generation.repeat_penalty()) as f32;
    let before = probabilities(&logits);
    let mut checked = 0;
    let mut engine = |_context: &[u32], _position: usize, window: Option<&[u32]>| {
        let window = window.ok_or(EngineFailure::RepeatPenalty)?;
        let penalised = apply_repeat_penalty(&logits, factor, window)
            .map_err(|_| EngineFailure::RepeatPenalty)?;
        let after = probabilities(&penalised);
        for &token in window {
            assert!(after[token as usize] < before[token as usize]);
            checked += 1;
        }
        for token in 0..16u32 {
            if !window.contains(&token) {
                assert!(after[token as usize] > before[token as usize]);
            }
        }
        Ok(7)
    };
    let got =
        generation.generate("The sky is".to_string(), Some(3), true, &mut engine).unwrap();
    assert_eq!(got.outcome, Outcome::Exhausted);
    assert_eq!(checked, 6);
}
