use synap_forge_llm::decode_state::{
    DecodeState, EngineFailure, Failure, Outcome, StepPlan, DEFAULT_MAX_TOKENS,
};
use synap_forge_llm::eos::EosSpec;
use synap_forge_llm::output_stream::DetokenizeError;

fn seeded(max_tokens: Option<i32>, use_kv_cache: bool) -> DecodeState {
    DecodeState::new(vec![10, 11, 12], max_tokens, EosSpec::Multiple(vec![2, 13]), use_kv_cache)
}

#[test]
fn a_generation_starts_at_the_prompt() {
    let state = seeded(Some(5), true);
    assert!(state.is_stepping());
    assert_eq!(*state.outcome(), None);
    assert_eq!(state.tokens(), &[10, 11, 12]);
    assert_eq!(state.tokens_generated(), 0);
    assert_eq!(state.cursor(), 0);
}

#[test]
fn a_budget_of_nothing_is_used_up_at_once() {
    for max_tokens in [Some(0), Some(-1), Some(i32::MIN)] {
        let state = seeded(max_tokens, true);
        assert!(!state.is_stepping());
        assert_eq!(*state.outcome(), Some(Outcome::Exhausted));
        assert_eq!(state.tokens_generated(), 0);
    }
}

#[test]
fn first_step_feeds_the_whole_prompt() {
    let state = seeded(Some(5), true);
    assert_eq!(
        state.plan(false, 64),
        StepPlan { context_start: 0, position: 0, penalty_start: None }
    );
}

#[test]
fn later_steps_feed_the_newest_token_at_the_cursor() {
    let mut state = seeded(Some(5), true);
    assert!(state.accept(20));
    assert_eq!(state.cursor(), 3);
    assert_eq!(
        state.plan(false, 64),
        StepPlan { context_start: 3, position: 3, penalty_start: None }
    );
    assert!(state.accept(21));
    assert_eq!(state.cursor(), 4);
    assert_eq!(
        state.plan(false, 64),
        StepPlan { context_start: 4, position: 4, penalty_start: None }
    );
    assert_eq!(state.tokens(), &[10, 11, 12, 20, 21]);
}

#[test]
fn without_a_cache_every_step_feeds_the_whole_history() {
    let mut state = seeded(Some(5), false);
    assert!(state.accept(20));
    assert_eq!(state.cursor(), 3);
    assert_eq!(
        state.plan(false, 64),
        StepPlan { context_start: 0, position: 0, penalty_start: None }
    );
    assert!(state.accept(21));
    assert_eq!(state.cursor(), 4);
    assert_eq!(
        state.plan(false, 64),
        StepPlan { context_start: 0, position: 0, penalty_start: None }
    );
}

#[test]
fn an_empty_prompt_starts_with_an_empty_context() {
    let mut state = DecodeState::new(vec![], Some(3), EosSpec::Single(2), true);
    assert_eq!(
        state.plan(true, 4),
        StepPlan { context_start: 0, position: 0, penalty_start: Some(0) }
    );
    assert!(state.accept(7));
    assert_eq!(state.cursor(), 0);
    assert_eq!(
        state.plan(true, 4),
        StepPlan { context_start: 0, position: 0, penalty_start: Some(0) }
    );
}

#[test]
fn penalty_window_covers_the_latest_tokens() {
    let mut state = seeded(Some(9), true);
    assert_eq!(state.plan(true, 2).penalty_start, Some(1));
    assert_eq!(state.plan(true, 3).penalty_start, Some(0));
    assert_eq!(state.plan(true, 64).penalty_start, Some(0));
    assert_eq!(state.plan(true, 0).penalty_start, Some(3));
    state.accept(20);
    assert_eq!(state.plan(true, 2).penalty_start, Some(2));
    assert_eq!(state.plan(false, 2).penalty_start, None);
}

#[test]
fn a_terminal_token_stops_the_generation() {
    let mut state = seeded(Some(5), true);
    assert!(state.accept(20));
    assert!(state.is_stepping());
    assert!(!state.accept(13));
    assert!(!state.is_stepping());
    assert_eq!(*state.outcome(), Some(Outcome::Stopped));
    assert_eq!(state.tokens_generated(), 2);
    assert_eq!(state.tokens(), &[10, 11, 12, 20, 13]);
}

#[test]
fn the_budget_ends_the_generation() {
    let mut state = seeded(Some(2), true);
    assert!(state.accept(20));
    assert!(state.is_stepping());
    assert!(state.accept(21));
    assert_eq!(*state.outcome(), Some(Outcome::Exhausted));
    assert_eq!(state.tokens_generated(), 2);
}

#[test]
fn the_budget_is_looked_at_before_the_terminal_ids() {
    let mut state = seeded(Some(1), true);
    assert!(!state.accept(2));
    assert_eq!(*state.outcome(), Some(Outcome::Exhausted));
    assert_eq!(state.tokens_generated(), 1);
}

#[test]
fn the_default_budget_is_sixty_four() {
    assert_eq!(DEFAULT_MAX_TOKENS, 64);
    let mut state = seeded(None, true);
    let mut n = 0;
    while state.is_stepping() {
        state.accept(20);
        n += 1;
    }
    assert_eq!(n, 64);
    assert_eq!(state.tokens_generated(), 64);
    assert_eq!(*state.outcome(), Some(Outcome::Exhausted));
    assert_eq!(state.cursor() + 1, state.tokens().len());
}

#[test]
fn a_failed_forward_pass_leaves_the_cursor() {
    let mut state = seeded(Some(5), true);
    state.accept(20);
    state.fail(Failure::Engine(EngineFailure::Forward));
    assert_eq!(*state.outcome(), Some(Outcome::Failed(Failure::Engine(EngineFailure::Forward))));
    assert_eq!(state.cursor(), 3);
    assert_eq!(state.tokens_generated(), 1);
}

#[test]
fn a_failed_penalty_leaves_the_cursor() {
    let mut state = seeded(Some(5), true);
    state.fail(Failure::Engine(EngineFailure::RepeatPenalty));
    assert_eq!(
        *state.outcome(),
        Some(Outcome::Failed(Failure::Engine(EngineFailure::RepeatPenalty)))
    );
    assert_eq!(state.cursor(), 0);
}

#[test]
fn a_failed_draw_comes_after_the_forward_pass() {
    let mut state = seeded(Some(5), true);
    state.accept(20);
    state.fail(Failure::Engine(EngineFailure::Sampling));
    assert_eq!(*state.outcome(), Some(Outcome::Failed(Failure::Engine(EngineFailure::Sampling))));
    assert_eq!(state.cursor(), 4);
    assert_eq!(state.tokens(), &[10, 11, 12, 20]);
}

#[test]
fn a_detokenizer_failure_ends_the_generation() {
    let mut state = seeded(Some(5), true);
    state.accept(20);
    state.fail(Failure::Detokenize(DetokenizeError::Misaligned));
    assert_eq!(
        *state.outcome(),
        Some(Outcome::Failed(Failure::Detokenize(DetokenizeError::Misaligned)))
    );
    assert_eq!(state.cursor(), 3);
    assert_eq!(state.into_tokens(), vec![10, 11, 12, 20]);
}
