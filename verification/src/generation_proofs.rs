//! Why a generation repeats itself: with an engine whose answers depend on
//! nothing but what it is handed, the prompt and the parameters determine the
//! tokens, the text and the outcome.

use vstd::prelude::*;
use tokenizers::Tokenizer;
use crate::decode_state::{budget_of, EngineFailure, Failure, Outcome};
use crate::generator::{
    all_answered, decoded_tokens, driven_by, explains, same_outcome, step_answered,
    step_context, step_position, step_window, window_view, Generation,
};
use crate::output_stream::run;

verus! {

/// The engine is a function of its arguments: two calls with the same
/// context, position and window give the same answer. An engine that keeps
/// a cache between its calls meets this only as far as what the cache holds
/// follows from the position and the context that it is handed.
pub open spec fn engine_is_a_function<E>(engine: E) -> bool where
    E: FnMut(&[u32], usize, Option<&[u32]>) -> Result<u32, EngineFailure>,
 {
    forall|
        context1: &[u32],
        position1: usize,
        window1: Option<&[u32]>,
        answer1: Result<u32, EngineFailure>,
        context2: &[u32],
        position2: usize,
        window2: Option<&[u32]>,
        answer2: Result<u32, EngineFailure>,
    |
        {
            &&& #[trigger] call_ensures(engine, (context1, position1, window1), answer1)
            &&& #[trigger] call_ensures(engine, (context2, position2, window2), answer2)
            &&& context1@ == context2@
            &&& position1 == position2
            &&& window_view(window1) == window_view(window2)
        } ==> answer1 == answer2
}

/// Two answers to the call of one step are the same answer, where the
/// histories agree up to that step.
proof fn lemma_one_answer_per_step<E>(
    engine: E,
    prompt: Seq<u32>,
    first: Seq<u32>,
    second: Seq<u32>,
    i: int,
    use_kv_cache: bool,
    penalty: bool,
    repeat_last_n: int,
    answer1: Result<u32, EngineFailure>,
    answer2: Result<u32, EngineFailure>,
) where E: FnMut(&[u32], usize, Option<&[u32]>) -> Result<u32, EngineFailure>
    requires
        engine_is_a_function(engine),
        first.take(i) == second.take(i),
        step_answered(engine, prompt, first, i, use_kv_cache, penalty, repeat_last_n, answer1),
        step_answered(engine, prompt, second, i, use_kv_cache, penalty, repeat_last_n, answer2),
    ensures
        answer1 == answer2,
{
    let (c1, p1, w1) = choose|context: &[u32], position: usize, window: Option<&[u32]>|
        {
            &&& context@ == step_context(prompt, first, i, use_kv_cache)
            &&& position as int == step_position(prompt.len() as int, i, use_kv_cache)
            &&& window_view(window) == step_window(prompt, first, i, penalty, repeat_last_n)
            &&& #[trigger] call_ensures(engine, (context, position, window), answer1)
        };
    let (c2, p2, w2) = choose|context: &[u32], position: usize, window: Option<&[u32]>|
        {
            &&& context@ == step_context(prompt, second, i, use_kv_cache)
            &&& position as int == step_position(prompt.len() as int, i, use_kv_cache)
            &&& window_view(window) == step_window(prompt, second, i, penalty, repeat_last_n)
            &&& #[trigger] call_ensures(engine, (context, position, window), answer2)
        };
    assert(call_ensures(engine, (c1, p1, w1), answer1));
    assert(call_ensures(engine, (c2, p2, w2), answer2));
}

/// Two runs of one engine from one prompt sample the same tokens for as long
/// as both go on.
proof fn lemma_same_tokens_so_far<E>(
    engine: E,
    prompt: Seq<u32>,
    first: Seq<u32>,
    second: Seq<u32>,
    k: int,
    use_kv_cache: bool,
    penalty: bool,
    repeat_last_n: int,
) where E: FnMut(&[u32], usize, Option<&[u32]>) -> Result<u32, EngineFailure>
    requires
        engine_is_a_function(engine),
        all_answered(engine, prompt, first, use_kv_cache, penalty, repeat_last_n),
        all_answered(engine, prompt, second, use_kv_cache, penalty, repeat_last_n),
        0 <= k <= first.len(),
        k <= second.len(),
    ensures
        first.take(k) == second.take(k),
    decreases k,
{
    if k == 0 {
        assert(first.take(0) =~= second.take(0));
    } else {
        lemma_same_tokens_so_far(
            engine,
            prompt,
            first,
            second,
            k - 1,
            use_kv_cache,
            penalty,
            repeat_last_n,
        );
        assert(step_answered(
            engine,
            prompt,
            first,
            k - 1,
            use_kv_cache,
            penalty,
            repeat_last_n,
            Ok(first[k - 1]),
        ));
        assert(step_answered(
            engine,
            prompt,
            second,
            k - 1,
            use_kv_cache,
            penalty,
            repeat_last_n,
            Ok(second[k - 1]),
        ));
        lemma_one_answer_per_step(
            engine,
            prompt,
            first,
            second,
            k - 1,
            use_kv_cache,
            penalty,
            repeat_last_n,
            Ok(first[k - 1]),
            Ok(second[k - 1]),
        );
        assert(first.take(k) =~= first.take(k - 1).push(first[k - 1]));
        assert(second.take(k) =~= second.take(k - 1).push(second[k - 1]));
    }
}

/// A stream that an error has stopped stays stopped, whatever it is fed
/// after.
pub proof fn lemma_error_stops_the_stream(tokenizer: Tokenizer, fed: Seq<u32>, n: int)
    requires
        0 <= n <= fed.len(),
        run(tokenizer, fed.take(n)).error is Some,
    ensures
        run(tokenizer, fed) == run(tokenizer, fed.take(n)),
    decreases fed.len() - n,
{
    if n == fed.len() {
        assert(fed.take(n) =~= fed);
    } else {
        assert(fed.take(n + 1).drop_last() =~= fed.take(n));
        lemma_error_stops_the_stream(tokenizer, fed, n + 1);
    }
}

/// A generation that has ended cannot have gone on: a second run of the same
/// engine that agrees with it on all its tokens has no token more.
proof fn lemma_no_longer_run<E>(
    engine: E,
    shorter: Generation,
    longer: Generation,
    tokenizer: Tokenizer,
    prompt: Seq<u32>,
    max_tokens: Option<i32>,
    eos: Set<u32>,
    use_kv_cache: bool,
    penalty: bool,
    repeat_last_n: int,
) where E: FnMut(&[u32], usize, Option<&[u32]>) -> Result<u32, EngineFailure>
    requires
        engine_is_a_function(engine),
        explains(shorter, tokenizer, prompt, max_tokens, eos),
        explains(longer, tokenizer, prompt, max_tokens, eos),
        driven_by(engine, shorter, prompt, use_kv_cache, penalty, repeat_last_n),
        driven_by(engine, longer, prompt, use_kv_cache, penalty, repeat_last_n),
        shorter.tokens@.len() <= longer.tokens@.len(),
    ensures
        shorter.tokens@.len() == longer.tokens@.len(),
{
    let a = shorter.tokens@.subrange(prompt.len() as int, shorter.tokens@.len() as int);
    let b = longer.tokens@.subrange(prompt.len() as int, longer.tokens@.len() as int);
    let n = a.len() as int;
    let budget = budget_of(max_tokens);
    lemma_same_tokens_so_far(engine, prompt, a, b, n, use_kv_cache, penalty, repeat_last_n);
    assert(a.take(n) =~= a);
    if n < b.len() {
        if n > 0 {
            assert(b.take(n)[n - 1] == b[n - 1]);
        }
        match shorter.outcome {
            Outcome::Exhausted => {},
            Outcome::Stopped => {
                assert(a[n - 1] == b[n - 1]);
            },
            Outcome::Failed(Failure::Engine(failure)) => {
                assert(step_answered(
                    engine,
                    prompt,
                    b,
                    n,
                    use_kv_cache,
                    penalty,
                    repeat_last_n,
                    Ok(b[n]),
                ));
                lemma_one_answer_per_step(
                    engine,
                    prompt,
                    a,
                    b,
                    n,
                    use_kv_cache,
                    penalty,
                    repeat_last_n,
                    Err(failure),
                    Ok(b[n]),
                );
            },
            Outcome::Failed(Failure::Detokenize(e)) => {
                if run(tokenizer, decoded_tokens(a, eos)).error is Some {
                    // the stream stopped at the last token of the shorter
                    // run, which the longer run has fed to it as well
                    assert(decoded_tokens(a, eos) == a);
                    let fed = decoded_tokens(b, eos);
                    assert(fed.take(n) =~= a);
                    lemma_error_stops_the_stream(tokenizer, fed, n);
                    let before = b.drop_last();
                    assert(before.take(n) =~= a);
                    lemma_error_stops_the_stream(tokenizer, before, n);
                } else {
                    assert(a[n - 1] == b[n - 1]);
                }
            },
        }
    }
}

/// A generation repeats itself. Two generations from one prompt, with one
/// tokenizer and the same parameters, driven by one engine whose answers
/// depend on nothing but what it is handed, have the same tokens, end alike
/// and give the same text. What makes an engine such a one, a greedy pick or
/// draws that follow from a seed, is the engine's affair: the library hands
/// it the seed of the request and the steps.
pub proof fn lemma_generation_repeats<E>(
    engine: E,
    first: Generation,
    second: Generation,
    tokenizer: Tokenizer,
    prompt: Seq<u32>,
    max_tokens: Option<i32>,
    eos: Set<u32>,
    use_kv_cache: bool,
    penalty: bool,
    repeat_last_n: int,
) where E: FnMut(&[u32], usize, Option<&[u32]>) -> Result<u32, EngineFailure>
    requires
        engine_is_a_function(engine),
        explains(first, tokenizer, prompt, max_tokens, eos),
        explains(second, tokenizer, prompt, max_tokens, eos),
        driven_by(engine, first, prompt, use_kv_cache, penalty, repeat_last_n),
        driven_by(engine, second, prompt, use_kv_cache, penalty, repeat_last_n),
    ensures
        first.tokens@ == second.tokens@,
        first.tokens_generated == second.tokens_generated,
        same_outcome(first.outcome, second.outcome),
        first.text@ == second.text@,
{
    if first.tokens@.len() <= second.tokens@.len() {
        lemma_no_longer_run(
            engine,
            first,
            second,
            tokenizer,
            prompt,
            max_tokens,
            eos,
            use_kv_cache,
            penalty,
            repeat_last_n,
        );
    } else {
        lemma_no_longer_run(
            engine,
            second,
            first,
            tokenizer,
            prompt,
            max_tokens,
            eos,
            use_kv_cache,
            penalty,
            repeat_last_n,
        );
    }
    let a = first.tokens@.subrange(prompt.len() as int, first.tokens@.len() as int);
    let b = second.tokens@.subrange(prompt.len() as int, second.tokens@.len() as int);
    let n = a.len() as int;
    lemma_same_tokens_so_far(engine, prompt, a, b, n, use_kv_cache, penalty, repeat_last_n);
    assert(a.take(n) =~= a);
    assert(b.take(n) =~= b);
    assert(first.tokens@ =~= prompt + a);
    assert(second.tokens@ =~= prompt + b);
    match (first.outcome, second.outcome) {
        (Outcome::Failed(Failure::Engine(f1)), Outcome::Failed(Failure::Engine(f2))) => {
            lemma_one_answer_per_step(
                engine,
                prompt,
                a,
                b,
                n,
                use_kv_cache,
                penalty,
                repeat_last_n,
                Err(f1),
                Err(f2),
            );
        },
        _ => {},
    }
}

} // verus!
