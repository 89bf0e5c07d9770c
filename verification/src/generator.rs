//! The decode controller: it seeds a generation from a prompt, drives the
//! inference engine step by step, and assembles the text.

use vstd::prelude::*;
use vstd::slice::slice_subrange;
use vstd::string::*;
use tokenizers::Tokenizer;
use crate::binary64::Binary64;
use crate::decode_state::{
    budget_of, context_size, lemma_ends_at_terminal_token, lemma_runs_to_budget, run_shape,
    window_start, DecodeState, DecodeView, EngineFailure, Failure, Outcome,
};
use crate::eos::{EosSpec, FALLBACK_EOS_TOKEN};
use crate::output_stream::{run, DetokenizeFault, StreamRun, StreamState, TokenOutputStream};
use crate::sampling::{generator_seed, seed_value, spec_select, Sampling, DEFAULT_SEED};
use crate::stream_proofs::{hands_out_consistently, lemma_fragments_add_up};
use crate::tokenizer::{
    decoded_text, decoder, decoder_kind, decodes_safely, encode, encode_refusal,
    encode_refusal_of, encode_result, encodes_as_read, token_id, token_to_id, DecoderKind,
    EncodeRefusal,
};

verus! {

/// The window of the repeat penalty of a request that names none.
pub const DEFAULT_REPEAT_LAST_N: usize = 64;

/// Why a generation could not start.
#[derive(Clone, Copy, Debug, PartialEq, Eq, Structural)]
pub enum SetupError {
    /// The decoder of the tokenizer, of the given kind, cannot be handed
    /// every token list; of a sequence it is a part that cannot.
    UnsafeDecoder(DecoderKind),
    /// The tokenizer is not asked to encode the prompt: it would encode by
    /// code of which the library does not know that it returns.
    Refused(EncodeRefusal),
    /// The tokenizer failed to encode the prompt.
    Encode,
    /// The model names no terminal token and the tokenizer knows no
    /// end-of-sentence token.
    MissingEos,
}

/// The sampling parameters of a request, each of them optional.
#[derive(Clone, Copy, Debug)]
pub struct GenerationRequest {
    /// Missing or at most zero: greedy decoding.
    pub temperature: Option<Binary64>,
    /// The probability mass of the nucleus.
    pub top_p: Option<Binary64>,
    /// The number of best tokens to draw among.
    pub top_k: Option<usize>,
    /// The seed of the random generator. Missing: `DEFAULT_SEED`.
    pub seed: Option<i64>,
    /// The factor of the repeat penalty. Missing: one, which switches it off.
    pub repeat_penalty: Option<Binary64>,
    /// How many of the latest tokens the penalty looks at. Missing:
    /// `DEFAULT_REPEAT_LAST_N`.
    pub repeat_last_n: Option<usize>,
}

/// What a generation produced.
#[derive(Debug)]
pub struct Generation {
    /// The text of the generated tokens.
    pub text: String,
    /// The number of generated tokens, the prompt's not counted.
    pub tokens_generated: i32,
    /// The number of tokens of the prompt.
    pub prompt_tokens: usize,
    /// The prompt's tokens and, behind them, the generated ones.
    pub tokens: Vec<u32>,
    /// How the generation ended.
    pub outcome: Outcome,
}

/// The terminal ids of a generation: the model's own where it names any,
/// else the tokenizer's end-of-sentence token.
pub open spec fn resolved_eos(configured: Option<EosSpec>, tokenizer: Tokenizer) -> Option<
    Set<u32>,
> {
    match configured {
        Some(spec) => Some(spec@),
        None => match token_id(tokenizer, FALLBACK_EOS_TOKEN@) {
            Some(id) => Some(set![id]),
            None => None,
        },
    }
}

/// The tokens that reach the detokenizer: the generated ones, but for a
/// terminal token at their end.
pub open spec fn decoded_tokens(generated: Seq<u32>, eos: Set<u32>) -> Seq<u32> {
    if generated.len() > 0 && eos.contains(generated.last()) {
        generated.drop_last()
    } else {
        generated
    }
}

/// The history at step `i` of a generation: the prompt and the tokens
/// generated before that step.
pub open spec fn step_history(prompt: Seq<u32>, generated: Seq<u32>, i: int) -> Seq<u32> {
    prompt + generated.take(i)
}

/// The context slice that the engine is handed at step `i`.
pub open spec fn step_context(
    prompt: Seq<u32>,
    generated: Seq<u32>,
    i: int,
    use_kv_cache: bool,
) -> Seq<u32> {
    let history = step_history(prompt, generated, i);
    history.subrange(
        history.len() - context_size(use_kv_cache, i, history.len() as int),
        history.len() as int,
    )
}

/// The cache position that the engine is handed at step `i`: behind all the
/// tokens but the newest once an incremental cache holds them, else the
/// start.
pub open spec fn step_position(prompt_len: int, i: int, use_kv_cache: bool) -> int {
    if use_kv_cache && i > 0 {
        prompt_len + i - 1
    } else {
        0
    }
}

/// The repeat-penalty window that the engine is handed at step `i`: the tail
/// of the history where the penalty is on, nothing where it is off.
pub open spec fn step_window(
    prompt: Seq<u32>,
    generated: Seq<u32>,
    i: int,
    penalty: bool,
    repeat_last_n: int,
) -> Option<Seq<u32>> {
    if penalty {
        let history = step_history(prompt, generated, i);
        Some(
            history.subrange(
                window_start(history.len() as int, repeat_last_n),
                history.len() as int,
            ),
        )
    } else {
        None
    }
}

/// The tokens of a window that was handed to the engine.
pub open spec fn window_view(window: Option<&[u32]>) -> Option<Seq<u32>> {
    match window {
        Some(tokens) => Some(tokens@),
        None => None,
    }
}

/// Whether `result` is what the engine gave back when it was called at step
/// `i` of a generation, with the context, the position and the window of
/// that step.
pub open spec fn step_answered<E>(
    engine: E,
    prompt: Seq<u32>,
    generated: Seq<u32>,
    i: int,
    use_kv_cache: bool,
    penalty: bool,
    repeat_last_n: int,
    result: Result<u32, EngineFailure>,
) -> bool where E: FnMut(&[u32], usize, Option<&[u32]>) -> Result<u32, EngineFailure> {
    exists|context: &[u32], position: usize, window: Option<&[u32]>|
        {
            &&& context@ == step_context(prompt, generated, i, use_kv_cache)
            &&& position as int == step_position(prompt.len() as int, i, use_kv_cache)
            &&& window_view(window) == step_window(prompt, generated, i, penalty, repeat_last_n)
            &&& #[trigger] call_ensures(engine, (context, position, window), result)
        }
}

/// Whether each of the tokens answers the call of its step.
pub open spec fn all_answered<E>(
    engine: E,
    prompt: Seq<u32>,
    generated: Seq<u32>,
    use_kv_cache: bool,
    penalty: bool,
    repeat_last_n: int,
) -> bool where E: FnMut(&[u32], usize, Option<&[u32]>) -> Result<u32, EngineFailure> {
    forall|i: int|
        0 <= i < generated.len() ==> #[trigger] step_answered(
            engine,
            prompt,
            generated,
            i,
            use_kv_cache,
            penalty,
            repeat_last_n,
            Ok(generated[i]),
        )
}

/// Whether the tokens of `generation` are what `engine` gave back, step by
/// step: each generated token answers the call of its step, and where the
/// generation broke off on a failure of the engine, that failure answers the
/// call of the step behind the last token.
pub open spec fn driven_by<E>(
    engine: E,
    generation: Generation,
    prompt: Seq<u32>,
    use_kv_cache: bool,
    penalty: bool,
    repeat_last_n: int,
) -> bool where E: FnMut(&[u32], usize, Option<&[u32]>) -> Result<u32, EngineFailure> {
    let generated = generation.tokens@.subrange(prompt.len() as int, generation.tokens@.len() as int);
    &&& all_answered(engine, prompt, generated, use_kv_cache, penalty, repeat_last_n)
    &&& generation.outcome matches Outcome::Failed(Failure::Engine(failure)) ==> step_answered(
        engine,
        prompt,
        generated,
        generated.len() as int,
        use_kv_cache,
        penalty,
        repeat_last_n,
        Err(failure),
    )
}

/// Whether `outcome` is how a generation with the given tokens ends, as far
/// as the detokenizer decides it. A failure of the detokenizer is either the
/// error that stopped the stream at the last generated token, or the error
/// that the last fragment met once the generation had ended; no other outcome
/// meets an error.
pub open spec fn outcome_fits(
    tokenizer: Tokenizer,
    generated: Seq<u32>,
    budget: int,
    eos: Set<u32>,
    outcome: Outcome,
) -> bool {
    let stream = run(tokenizer, decoded_tokens(generated, eos));
    match outcome {
        Outcome::Failed(Failure::Detokenize(e)) => {
            ||| {
                &&& stream.error == Some(e@)
                &&& generated.len() > 0
                &&& !eos.contains(generated.last())
                &&& run(tokenizer, generated.drop_last()).error is None
            }
            ||| {
                &&& stream.error is None
                &&& stream.state.rest() == Err::<Option<Seq<char>>, DetokenizeFault>(e@)
                &&& (generated.len() == budget || (generated.len() > 0 && eos.contains(
                    generated.last(),
                )))
            }
        },
        Outcome::Failed(Failure::Engine(_)) => stream.error is None,
        _ => stream.error is None && stream.state.rest() is Ok,
    }
}

/// The text of a generation whose detokenizer went through `stream`: the
/// fragments handed out, and the rest behind them unless a step failed.
pub open spec fn text_of(stream: StreamRun, outcome: Outcome) -> Seq<char> {
    match outcome {
        Outcome::Failed(_) => stream.text,
        _ => stream.flushed_text(),
    }
}

/// Whether `generation` is what the controller hands back for a prompt with
/// the tokens `prompt`, whatever the engine did: the history starts with the
/// prompt, the generated tokens keep to the budget and end at the first
/// terminal one, and the text is what the detokenizer makes of them.
pub open spec fn explains(
    generation: Generation,
    tokenizer: Tokenizer,
    prompt: Seq<u32>,
    max_tokens: Option<i32>,
    eos: Set<u32>,
) -> bool {
    let generated = generation.tokens@.subrange(prompt.len() as int, generation.tokens@.len() as int);
    let stream = run(tokenizer, decoded_tokens(generated, eos));
    &&& prompt.len() <= generation.tokens@.len()
    &&& generation.prompt_tokens == prompt.len()
    &&& generation.tokens@.subrange(0, prompt.len() as int) == prompt
    &&& generation.tokens_generated as int == generated.len()
    &&& run_shape(generated, budget_of(max_tokens), eos, Some(generation.outcome))
    &&& outcome_fits(tokenizer, generated, budget_of(max_tokens), eos, generation.outcome)
    &&& generation.text@ == text_of(stream, generation.outcome)
}

/// The terminal token of a generation never reaches its text: none of the
/// tokens that go to the detokenizer is terminal.
pub proof fn lemma_terminal_token_is_not_decoded(
    generated: Seq<u32>,
    budget: int,
    eos: Set<u32>,
    outcome: Option<Outcome>,
)
    requires
        run_shape(generated, budget, eos, outcome),
    ensures
        forall|i: int|
            0 <= i < decoded_tokens(generated, eos).len() ==> !eos.contains(
                #[trigger] decoded_tokens(generated, eos)[i],
            ),
{
}

/// A generation ends with the first terminal token that is sampled: where
/// the `k`-th token that the engine sampled is one of the terminal ids, the
/// generation has generated exactly `k` tokens, and that token is no part of
/// what its text was decoded from.
pub proof fn lemma_generation_ends_at_terminal_token(
    generation: Generation,
    tokenizer: Tokenizer,
    prompt: Seq<u32>,
    max_tokens: Option<i32>,
    eos: Set<u32>,
    k: int,
)
    requires
        explains(generation, tokenizer, prompt, max_tokens, eos),
        1 <= k <= generation.tokens_generated,
        eos.contains(generation.tokens@[prompt.len() + k - 1]),
    ensures
        generation.tokens_generated == k,
        !(generation.outcome matches Outcome::Failed(Failure::Engine(_))),
        decoded_tokens(
            generation.tokens@.subrange(prompt.len() as int, generation.tokens@.len() as int),
            eos,
        ) == generation.tokens@.subrange(prompt.len() as int, prompt.len() + k - 1),
{
    let generated = generation.tokens@.subrange(prompt.len() as int, generation.tokens@.len() as int);
    assert(generated[k - 1] == generation.tokens@[prompt.len() + k - 1]);
    lemma_ends_at_terminal_token(
        generated,
        budget_of(max_tokens),
        eos,
        Some(generation.outcome),
        k,
    );
    assert(generated.drop_last() =~= generation.tokens@.subrange(
        prompt.len() as int,
        prompt.len() + k - 1,
    ));
}

/// A generation that ended without a failure and without a terminal token
/// among its tokens has generated exactly as many tokens as its budget
/// allows.
pub proof fn lemma_generation_runs_to_budget(
    generation: Generation,
    tokenizer: Tokenizer,
    prompt: Seq<u32>,
    max_tokens: Option<i32>,
    eos: Set<u32>,
)
    requires
        explains(generation, tokenizer, prompt, max_tokens, eos),
        !(generation.outcome is Failed),
        forall|i: int|
            prompt.len() <= i < generation.tokens@.len() ==> !eos.contains(
                #[trigger] generation.tokens@[i],
            ),
    ensures
        generation.tokens_generated == budget_of(max_tokens),
        generation.outcome == Outcome::Exhausted,
{
    let generated = generation.tokens@.subrange(prompt.len() as int, generation.tokens@.len() as int);
    assert forall|i: int| 0 <= i < generated.len() implies !eos.contains(
        #[trigger] generated[i],
    ) by {
        assert(generated[i] == generation.tokens@[prompt.len() + i]);
    }
    lemma_runs_to_budget(generated, budget_of(max_tokens), eos, Some(generation.outcome));
}

/// Whether two generations ended alike: in the same way, and where the
/// detokenizer failed, with the same error and the same message.
pub open spec fn same_outcome(first: Outcome, second: Outcome) -> bool {
    match (first, second) {
        (
            Outcome::Failed(Failure::Detokenize(e1)),
            Outcome::Failed(Failure::Detokenize(e2)),
        ) => e1@ == e2@,
        _ => first == second,
    }
}

/// The sampled tokens determine a generation. Two generations from one
/// prompt with one tokenizer, one budget and the same terminal ids, in which
/// the engine has sampled the same tokens and has not failed, end alike, with
/// the same text and the same number of tokens.
pub proof fn lemma_tokens_determine_generation(
    first: Generation,
    second: Generation,
    tokenizer: Tokenizer,
    prompt: Seq<u32>,
    max_tokens: Option<i32>,
    eos: Set<u32>,
)
    requires
        explains(first, tokenizer, prompt, max_tokens, eos),
        explains(second, tokenizer, prompt, max_tokens, eos),
        first.tokens@ == second.tokens@,
        !(first.outcome matches Outcome::Failed(Failure::Engine(_))),
        !(second.outcome matches Outcome::Failed(Failure::Engine(_))),
    ensures
        same_outcome(first.outcome, second.outcome),
        first.text@ == second.text@,
        first.tokens_generated == second.tokens_generated,
{
}

/// The text of a generation that ended without a failure is the text of its
/// tokens, decoded in one go, where the tokenizer is consistent wherever the
/// detokenizer hands text out.
pub proof fn lemma_text_is_the_decoded_tokens(
    generation: Generation,
    tokenizer: Tokenizer,
    prompt: Seq<u32>,
    max_tokens: Option<i32>,
    eos: Set<u32>,
)
    requires
        explains(generation, tokenizer, prompt, max_tokens, eos),
        !(generation.outcome is Failed),
        hands_out_consistently(
            tokenizer,
            decoded_tokens(
                generation.tokens@.subrange(prompt.len() as int, generation.tokens@.len() as int),
                eos,
            ),
        ),
    ensures
        decoded_text(
            tokenizer,
            decoded_tokens(
                generation.tokens@.subrange(prompt.len() as int, generation.tokens@.len() as int),
                eos,
            ),
        ) == Some(generation.text@),
{
    lemma_fragments_add_up(
        tokenizer,
        decoded_tokens(
            generation.tokens@.subrange(prompt.len() as int, generation.tokens@.len() as int),
            eos,
        ),
    );
}

/// A text generation: the detokenizer and the parameters of the request. The
/// model itself, its cache and the random generator belong to the engine
/// that `generate` is handed.
pub struct TextGeneration {
    tokenizer: TokenOutputStream,
    sampling: Sampling,
    seed: u64,
    repeat_penalty: Binary64,
    repeat_last_n: usize,
    eos_token_id: Option<EosSpec>,
}

/// A text generation as the contracts see it.
pub struct TextGenerationView {
    /// The detokenizer: its tokenizer, its history and its markers.
    pub stream: StreamState,
    pub sampling: Sampling,
    pub seed: int,
    pub repeat_penalty: Binary64,
    pub repeat_last_n: int,
    pub eos_token_id: Option<EosSpec>,
}

impl View for TextGeneration {
    type V = TextGenerationView;

    closed spec fn view(&self) -> TextGenerationView {
        TextGenerationView {
            stream: self.tokenizer@,
            sampling: self.sampling,
            seed: self.seed as int,
            repeat_penalty: self.repeat_penalty,
            repeat_last_n: self.repeat_last_n as int,
            eos_token_id: self.eos_token_id,
        }
    }
}

/// The measure by which the loop of `generate` ends.
spec fn steps_left(state: DecodeView) -> int {
    if state.outcome is None {
        state.budget - state.generated().len() + 1
    } else {
        0
    }
}

/// How the detokenizer and the text stand to the tokens generated so far:
/// the text is what the stream has handed out for them, and the stream is
/// where they have brought it, unless an error stopped it at the last one.
spec fn stream_follows(
    tokenizer: Tokenizer,
    state: DecodeView,
    stream: StreamState,
    text: Seq<char>,
) -> bool {
    let stream_run = run(tokenizer, decoded_tokens(state.generated(), state.eos));
    &&& stream.wf()
    &&& decodes_safely(tokenizer)
    &&& stream.tokenizer == tokenizer
    &&& text == stream_run.text
    &&& match state.outcome {
        Some(Outcome::Failed(Failure::Detokenize(e))) => {
            &&& stream_run.error == Some(e@)
            &&& state.generated().len() > 0
            &&& !state.eos.contains(state.generated().last())
            &&& run(tokenizer, state.generated().drop_last()).error is None
        },
        _ => stream_run.error is None && stream == stream_run.state,
    }
}

/// How the tokens generated so far stand to the engine: each answers the
/// call of its step, and so does the failure that the generation broke off
/// on, if it did.
spec fn engine_followed<E>(
    engine: E,
    prompt: Seq<u32>,
    state: DecodeView,
    penalty: bool,
    repeat_last_n: int,
) -> bool where E: FnMut(&[u32], usize, Option<&[u32]>) -> Result<u32, EngineFailure> {
    &&& state.prompt_len == prompt.len()
    &&& state.tokens == prompt + state.generated()
    &&& all_answered(engine, prompt, state.generated(), state.use_kv_cache, penalty, repeat_last_n)
    &&& state.outcome matches Some(Outcome::Failed(Failure::Engine(failure))) ==> step_answered(
        engine,
        prompt,
        state.generated(),
        state.generated().len() as int,
        state.use_kv_cache,
        penalty,
        repeat_last_n,
        Err(failure),
    )
}

/// One more answered step keeps all steps answered.
proof fn lemma_one_more_answer<E>(
    engine: E,
    prompt: Seq<u32>,
    generated: Seq<u32>,
    token: u32,
    use_kv_cache: bool,
    penalty: bool,
    repeat_last_n: int,
) where E: FnMut(&[u32], usize, Option<&[u32]>) -> Result<u32, EngineFailure>
    requires
        all_answered(engine, prompt, generated, use_kv_cache, penalty, repeat_last_n),
        step_answered(
            engine,
            prompt,
            generated,
            generated.len() as int,
            use_kv_cache,
            penalty,
            repeat_last_n,
            Ok(token),
        ),
    ensures
        all_answered(engine, prompt, generated.push(token), use_kv_cache, penalty, repeat_last_n),
{
    let longer = generated.push(token);
    assert forall|i: int| 0 <= i < longer.len() implies #[trigger] step_answered(
        engine,
        prompt,
        longer,
        i,
        use_kv_cache,
        penalty,
        repeat_last_n,
        Ok(longer[i]),
    ) by {
        assert(longer.take(i) =~= generated.take(i));
        if i < generated.len() {
            assert(step_answered(
                engine,
                prompt,
                generated,
                i,
                use_kv_cache,
                penalty,
                repeat_last_n,
                Ok(generated[i]),
            ));
        }
    }
}

/// What the planned call of a step hands the engine is the context, the
/// position and the window of that step.
proof fn lemma_planned_call(
    prompt: Seq<u32>,
    state: DecodeView,
    context: Seq<u32>,
    context_start: int,
    position: int,
    window: Option<Seq<u32>>,
    penalty: bool,
    repeat_last_n: int,
)
    requires
        state.wf(),
        state.prompt_len == prompt.len(),
        state.tokens == prompt + state.generated(),
        context == state.tokens.subrange(context_start, state.tokens.len() as int),
        context_start + context_size(
            state.use_kv_cache,
            state.generated().len() as int,
            state.tokens.len() as int,
        ) == state.tokens.len(),
        position == crate::decode_state::context_position(
            state.use_kv_cache,
            state.generated().len() as int,
            state.cursor,
        ),
        state.outcome is None,
        window == (if penalty {
            Some(
                state.tokens.subrange(
                    window_start(state.tokens.len() as int, repeat_last_n),
                    state.tokens.len() as int,
                ),
            )
        } else {
            None
        }),
    ensures
        context == step_context(
            prompt,
            state.generated(),
            state.generated().len() as int,
            state.use_kv_cache,
        ),
        position == step_position(
            prompt.len() as int,
            state.generated().len() as int,
            state.use_kv_cache,
        ),
        window == step_window(
            prompt,
            state.generated(),
            state.generated().len() as int,
            penalty,
            repeat_last_n,
        ),
{
    let generated = state.generated();
    assert(generated.take(generated.len() as int) =~= generated);
}

/// Takes one step of a generation: plans it, calls the engine, and takes in
/// what the engine answers.
fn take_step<E>(
    state: &mut DecodeState,
    stream: &mut TokenOutputStream,
    text: &mut String,
    engine: &mut E,
    penalty: bool,
    repeat_last_n: usize,
    Ghost(prompt): Ghost<Seq<u32>>,
) where E: FnMut(&[u32], usize, Option<&[u32]>) -> Result<u32, EngineFailure>
    requires
        old(state).wf(),
        old(state)@.outcome is None,
        stream_follows(old(stream)@.tokenizer, old(state)@, old(stream)@, old(text)@),
        engine_followed(*old(engine), prompt, old(state)@, penalty, repeat_last_n as int),
        forall|context: &[u32], position: usize, window: Option<&[u32]>|
            call_requires(*old(engine), (context, position, window)),
    ensures
        final(state).wf(),
        *final(engine) == *old(engine),
        final(state)@.budget == old(state)@.budget,
        final(state)@.eos == old(state)@.eos,
        final(state)@.use_kv_cache == old(state)@.use_kv_cache,
        stream_follows(old(stream)@.tokenizer, final(state)@, final(stream)@, final(text)@),
        engine_followed(*old(engine), prompt, final(state)@, penalty, repeat_last_n as int),
        steps_left(final(state)@) < steps_left(old(state)@),
{
    let ghost before = state@;
    let ghost generated = state@.generated();
    let plan = state.plan(penalty, repeat_last_n);
    let history = state.tokens();
    let context = slice_subrange(history, plan.context_start, history.len());
    let window = match plan.penalty_start {
        Some(start) => Some(slice_subrange(history, start, history.len())),
        None => None,
    };
    let answer = engine(context, plan.position, window);
    proof {
        lemma_planned_call(
            prompt,
            before,
            context@,
            plan.context_start as int,
            plan.position as int,
            window_view(window),
            penalty,
            repeat_last_n as int,
        );
        assert(step_answered(
            *engine,
            prompt,
            generated,
            generated.len() as int,
            before.use_kv_cache,
            penalty,
            repeat_last_n as int,
            answer,
        ));
    }
    match answer {
        Err(failure) => {
            state.fail(Failure::Engine(failure));
        },
        Ok(token) => {
            let decode = state.accept(token);
            proof {
                let longer = generated.push(token);
                assert(state@.generated() =~= longer);
                assert(longer.drop_last() =~= generated);
                assert(state@.tokens =~= prompt + longer);
                lemma_one_more_answer(
                    *engine,
                    prompt,
                    generated,
                    token,
                    before.use_kv_cache,
                    penalty,
                    repeat_last_n as int,
                );
            }
            if decode {
                match stream.next_token(token) {
                    Ok(Some(fragment)) => {
                        text.append(fragment.as_str());
                    },
                    Ok(None) => {},
                    Err(e) => {
                        state.fail(Failure::Detokenize(e));
                    },
                }
            }
        },
    }
}

impl TextGeneration {
    /// The invariant of a text generation: the markers of its detokenizer
    /// are in order, and the decoder of its tokenizer can be handed any token
    /// list.
    pub open spec fn wf(&self) -> bool {
        self@.stream.wf() && decodes_safely(self@.stream.tokenizer)
    }

    /// A text generation with the given parameters. The sampling strategy
    /// follows from the temperature, top-k and top-p; `eos_token_id` are the
    /// terminal ids that the model's configuration names, if it names any.
    /// A tokenizer whose decoder cannot be handed every token list is
    /// refused.
    pub fn new(
        tokenizer: Tokenizer,
        seed: i64,
        temperature: Option<Binary64>,
        top_p: Option<Binary64>,
        top_k: Option<usize>,
        repeat_penalty: Binary64,
        repeat_last_n: usize,
        eos_token_id: Option<EosSpec>,
    ) -> (r: Result<Self, SetupError>)
        ensures
            match r {
                Ok(generation) => {
                    &&& decodes_safely(tokenizer)
                    &&& generation.wf()
                    &&& generation@ == (TextGenerationView {
                        stream: StreamState::empty(tokenizer),
                        sampling: spec_select(temperature, top_k, top_p),
                        seed: seed_value(seed),
                        repeat_penalty,
                        repeat_last_n: repeat_last_n as int,
                        eos_token_id,
                    })
                },
                Err(e) => {
                    &&& !decodes_safely(tokenizer)
                    &&& decoder(tokenizer) matches Some(d)
                    &&& e == SetupError::UnsafeDecoder(decoder_kind(d))
                },
            },
    {
        match TokenOutputStream::new(tokenizer) {
            Ok(stream) => Ok(
                Self {
                    tokenizer: stream,
                    sampling: Sampling::select(temperature, top_k, top_p),
                    seed: generator_seed(Some(seed)),
                    repeat_penalty,
                    repeat_last_n,
                    eos_token_id,
                },
            ),
            Err(unsafe_decoder) => Err(SetupError::UnsafeDecoder(unsafe_decoder.kind)),
        }
    }

    /// A text generation for a request, with the default of each parameter
    /// that the request leaves out.
    pub fn from_request(
        tokenizer: Tokenizer,
        eos_token_id: Option<EosSpec>,
        request: GenerationRequest,
    ) -> (r: Result<Self, SetupError>)
        ensures
            match r {
                Ok(generation) => {
                    &&& decodes_safely(tokenizer)
                    &&& generation.wf()
                    &&& generation@ == (TextGenerationView {
                        stream: StreamState::empty(tokenizer),
                        sampling: spec_select(request.temperature, request.top_k, request.top_p),
                        seed: seed_value(
                            match request.seed {
                                Some(seed) => seed,
                                None => DEFAULT_SEED,
                            },
                        ),
                        repeat_penalty: match request.repeat_penalty {
                            Some(penalty) => penalty,
                            None => Binary64 { bits: crate::binary64::ONE_BITS },
                        },
                        repeat_last_n: match request.repeat_last_n {
                            Some(n) => n as int,
                            None => DEFAULT_REPEAT_LAST_N as int,
                        },
                        eos_token_id,
                    })
                },
                Err(e) => {
                    &&& !decodes_safely(tokenizer)
                    &&& decoder(tokenizer) matches Some(d)
                    &&& e == SetupError::UnsafeDecoder(decoder_kind(d))
                },
            },
    {
        let seed: i64 = match request.seed {
            Some(seed) => seed,
            None => DEFAULT_SEED,
        };
        let repeat_penalty = match request.repeat_penalty {
            Some(penalty) => penalty,
            None => Binary64::one(),
        };
        let repeat_last_n: usize = match request.repeat_last_n {
            Some(n) => n,
            None => DEFAULT_REPEAT_LAST_N,
        };
        Self::new(
            tokenizer,
            seed,
            request.temperature,
            request.top_p,
            request.top_k,
            repeat_penalty,
            repeat_last_n,
            eos_token_id,
        )
    }

    /// The sampling strategy of the generation.
    pub fn sampling(&self) -> (r: Sampling)
        ensures
            r == self@.sampling,
    {
        self.sampling
    }

    /// The seed of the random generator.
    pub fn seed(&self) -> (r: u64)
        ensures
            r as int == self@.seed,
    {
        self.seed
    }

    /// The factor of the repeat penalty.
    pub fn repeat_penalty(&self) -> (r: Binary64)
        ensures
            r == self@.repeat_penalty,
    {
        self.repeat_penalty
    }

    /// How many of the latest tokens the repeat penalty looks at.
    pub fn repeat_last_n(&self) -> (r: usize)
        ensures
            r as int == self@.repeat_last_n,
    {
        self.repeat_last_n
    }

    /// Whether the repeat penalty is on: its factor is not exactly one.
    pub fn penalizes(&self) -> (r: bool)
        ensures
            r == !self@.repeat_penalty.spec_is_one(),
    {
        !self.repeat_penalty.is_one()
    }

    /// Why the tokenizer of the generation is not asked to encode a prompt,
    /// if it is not. With such a tokenizer a generation starts from tokens.
    pub fn encode_refusal(&self) -> (r: Option<EncodeRefusal>)
        ensures
            r == encode_refusal(self@.stream.tokenizer),
    {
        encode_refusal_of(self.tokenizer.tokenizer())
    }

    /// The tokenizer of the generation.
    pub fn tokenizer(&self) -> (tokenizer: &Tokenizer)
        ensures
            *tokenizer == self@.stream.tokenizer,
    {
        self.tokenizer.tokenizer()
    }

    /// Generates a continuation of `prompt`.
    ///
    /// The prompt is encoded, and the generation goes on from its tokens as
    /// `generate_from_tokens` says. A tokenizer that would encode by code of
    /// which the library does not know that it returns is refused before it
    /// is asked; where the tokenizer fails to encode the prompt, no step is
    /// taken.
    pub fn generate<E>(
        self,
        prompt: String,
        max_tokens: Option<i32>,
        use_kv_cache: bool,
        engine: &mut E,
    ) -> (r: Result<Generation, SetupError>) where
        E: FnMut(&[u32], usize, Option<&[u32]>) -> Result<u32, EngineFailure>,

        requires
            self.wf(),
            forall|context: &[u32], position: usize, window: Option<&[u32]>|
                call_requires(*old(engine), (context, position, window)),
        ensures
            match r {
                Err(SetupError::UnsafeDecoder(_)) => false,
                Err(SetupError::Refused(refusal)) => encode_refusal(self@.stream.tokenizer)
                    == Some(refusal),
                Err(SetupError::Encode) => {
                    &&& encodes_as_read(self@.stream.tokenizer)
                    &&& encode_result(self@.stream.tokenizer, prompt@) is None
                },
                Err(SetupError::MissingEos) => {
                    &&& encodes_as_read(self@.stream.tokenizer)
                    &&& encode_result(self@.stream.tokenizer, prompt@) is Some
                    &&& resolved_eos(self@.eos_token_id, self@.stream.tokenizer) is None
                },
                Ok(generation) => {
                    &&& encodes_as_read(self@.stream.tokenizer)
                    &&& encode_result(self@.stream.tokenizer, prompt@) matches Some(ids)
                    &&& resolved_eos(self@.eos_token_id, self@.stream.tokenizer) matches Some(eos)
                    &&& explains(generation, self@.stream.tokenizer, ids, max_tokens, eos)
                    &&& driven_by(
                        *old(engine),
                        generation,
                        ids,
                        use_kv_cache,
                        !self@.repeat_penalty.spec_is_one(),
                        self@.repeat_last_n,
                    )
                },
            },
    {
        match encode_refusal_of(self.tokenizer.tokenizer()) {
            Some(refusal) => {
                return Err(SetupError::Refused(refusal));
            },
            None => {},
        }
        let ids = match encode(self.tokenizer.tokenizer(), prompt.as_str()) {
            Some(ids) => ids,
            None => {
                return Err(SetupError::Encode);
            },
        };
        self.generate_from_tokens(ids, max_tokens, use_kv_cache, engine)
    }

    /// Generates a continuation of a prompt that is given by its tokens.
    ///
    /// The terminal ids are resolved; where there are none, no step is taken.
    /// Then, until the budget is used up, a terminal token is sampled or a
    /// step fails, the engine is called once per token with the context slice
    /// of the step, its cache position and, where the repeat penalty is on,
    /// the window of the penalty; it runs the model on the slice, adjusts the
    /// scores and samples. Every sampled token is counted, and every one but
    /// a terminal token goes to the detokenizer. Unless a step failed, the
    /// text ends with whatever the detokenizer still holds back.
    ///
    /// `use_kv_cache` says whether the engine keeps an incremental attention
    /// cache: with one, every step after the first feeds it the newest token
    /// alone.
    pub fn generate_from_tokens<E>(
        self,
        prompt: Vec<u32>,
        max_tokens: Option<i32>,
        use_kv_cache: bool,
        engine: &mut E,
    ) -> (r: Result<Generation, SetupError>) where
        E: FnMut(&[u32], usize, Option<&[u32]>) -> Result<u32, EngineFailure>,

        requires
            self.wf(),
            forall|context: &[u32], position: usize, window: Option<&[u32]>|
                call_requires(*old(engine), (context, position, window)),
        ensures
            match r {
                Err(e) => e == SetupError::MissingEos && resolved_eos(
                    self@.eos_token_id,
                    self@.stream.tokenizer,
                ) is None,
                Ok(generation) => {
                    &&& resolved_eos(self@.eos_token_id, self@.stream.tokenizer) matches Some(eos)
                    &&& explains(generation, self@.stream.tokenizer, prompt@, max_tokens, eos)
                    &&& driven_by(
                        *old(engine),
                        generation,
                        prompt@,
                        use_kv_cache,
                        !self@.repeat_penalty.spec_is_one(),
                        self@.repeat_last_n,
                    )
                },
            },
    {
        let penalty = self.penalizes();
        let repeat_last_n = self.repeat_last_n;
        let mut stream = self.tokenizer;
        let ghost tokenizer = stream@.tokenizer;
        stream.clear();
        let ids = prompt;
        let ghost prompt_ids = ids@;
        // the tokenizer is asked only where the model names no terminal id
        let fallback = match &self.eos_token_id {
            Some(_) => None,
            None => token_to_id(stream.tokenizer(), FALLBACK_EOS_TOKEN),
        };
        let eos = match EosSpec::resolve(self.eos_token_id, fallback) {
            Some(eos) => eos,
            None => {
                return Err(SetupError::MissingEos);
            },
        };
        let ghost eos_ids = eos@;
        let mut state = DecodeState::new(ids, max_tokens, eos, use_kv_cache);
        let mut text = String::new();
        proof {
            assert(state@.generated() =~= Seq::<u32>::empty());
            assert(state@.tokens =~= prompt_ids + state@.generated());
        }
        while state.is_stepping()
            invariant
                state.wf(),
                state@.budget == budget_of(max_tokens),
                state@.eos == eos_ids,
                state@.use_kv_cache == use_kv_cache,
                stream@.tokenizer == tokenizer,
                *engine == *old(engine),
                stream_follows(tokenizer, state@, stream@, text@),
                engine_followed(*engine, prompt_ids, state@, penalty, repeat_last_n as int),
                forall|context: &[u32], position: usize, window: Option<&[u32]>|
                    call_requires(*engine, (context, position, window)),
            decreases steps_left(state@),
        {
            take_step(
                &mut state,
                &mut stream,
                &mut text,
                engine,
                penalty,
                repeat_last_n,
                Ghost(prompt_ids),
            );
        }
        let tokens_generated = state.tokens_generated();
        let prompt_tokens = state.prompt_tokens();
        let ghost generated = state@.generated();
        let (tokens, ended) = state.into_parts();
        let outcome = match ended {
            Some(Outcome::Failed(failure)) => Outcome::Failed(failure),
            Some(ended) => {
                match stream.decode_rest() {
                    Ok(Some(rest)) => {
                        text.append(rest.as_str());
                        ended
                    },
                    Ok(None) => ended,
                    Err(e) => Outcome::Failed(Failure::Detokenize(e)),
                }
            },
            // the loop ends only once the generation has
            None => Outcome::Exhausted,
        };
        proof {
            assert(tokens@.subrange(0, prompt_ids.len() as int) =~= prompt_ids);
            assert(tokens@.subrange(prompt_ids.len() as int, tokens@.len() as int) =~= generated);
        }
        Ok(Generation { text, tokens_generated, prompt_tokens, tokens, outcome })
    }
}

} // verus!
