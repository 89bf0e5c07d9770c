//! The bookkeeping of one generation: the token history, the cache-position
//! cursor, the token budget and the stop conditions.

use vstd::prelude::*;
use crate::eos::EosSpec;
use crate::output_stream::DetokenizeError;

verus! {

/// The token budget of a request that names none.
pub const DEFAULT_MAX_TOKENS: i32 = 64;

/// Which of the engine's three steps failed.
#[derive(Clone, Copy, Debug, PartialEq, Eq, Structural)]
pub enum EngineFailure {
    /// The forward pass of the model.
    Forward,
    /// The repeat-penalty adjustment of the scores.
    RepeatPenalty,
    /// The draw of the next token.
    Sampling,
}

/// Why a generation broke off.
#[derive(Clone, Debug, PartialEq, Eq)]
pub enum Failure {
    Engine(EngineFailure),
    Detokenize(DetokenizeError),
}

/// How a generation ended.
#[derive(Clone, Debug, PartialEq, Eq)]
pub enum Outcome {
    /// A terminal token was sampled before the budget was used up.
    Stopped,
    /// The budget was used up.
    Exhausted,
    /// A step failed.
    Failed(Failure),
}

/// What to feed the model in one step: the tokens from `context_start` to the
/// end of the history, read at cache position `position`; and, where the
/// repeat penalty is on, the tokens from `penalty_start` to the end of the
/// history as its window.
#[derive(Clone, Copy, Debug, PartialEq, Eq, Structural)]
pub struct StepPlan {
    pub context_start: usize,
    pub position: usize,
    pub penalty_start: Option<usize>,
}

/// The budget that a request's `max_tokens` stands for: the default where it
/// names none, nothing where it names a negative number.
pub open spec fn budget_of(max_tokens: Option<i32>) -> int {
    match max_tokens {
        Some(n) => if n < 0 {
            0
        } else {
            n as int
        },
        None => DEFAULT_MAX_TOKENS as int,
    }
}

/// The size of the context slice of a step: the newest token alone once an
/// incremental cache holds the rest, else the whole history.
pub open spec fn context_size(use_kv_cache: bool, generated: int, len: int) -> int {
    if use_kv_cache && generated > 0 {
        1
    } else {
        len
    }
}

/// The cache position at which the context slice of a step is read: the
/// cursor once an incremental cache holds the rest, else the start.
pub open spec fn context_position(use_kv_cache: bool, generated: int, cursor: int) -> int {
    if use_kv_cache && generated > 0 {
        cursor
    } else {
        0
    }
}

/// Where the repeat-penalty window starts in a history of `len` tokens: it
/// covers the last `repeat_last_n` of them, or all where there are fewer.
pub open spec fn window_start(len: int, repeat_last_n: int) -> int {
    if len >= repeat_last_n {
        len - repeat_last_n
    } else {
        0
    }
}

/// The state of a generation as the contracts see it.
pub struct DecodeView {
    /// The prompt's tokens and, behind them, the generated ones.
    pub tokens: Seq<u32>,
    pub prompt_len: int,
    /// The counter of the generated tokens.
    pub count: int,
    /// How many tokens of the history the cache has taken in.
    pub cursor: int,
    pub budget: int,
    pub eos: Set<u32>,
    pub use_kv_cache: bool,
    /// `None` while the generation is stepping.
    pub outcome: Option<Outcome>,
}

impl DecodeView {
    /// The tokens generated so far.
    pub open spec fn generated(self) -> Seq<u32> {
        self.tokens.subrange(self.prompt_len, self.tokens.len() as int)
    }

    /// The state in which a generation starts.
    pub open spec fn seeded(
        prompt: Seq<u32>,
        max_tokens: Option<i32>,
        eos: Set<u32>,
        use_kv_cache: bool,
    ) -> DecodeView {
        DecodeView {
            tokens: prompt,
            prompt_len: prompt.len() as int,
            count: 0,
            cursor: 0,
            budget: budget_of(max_tokens),
            eos,
            use_kv_cache,
            outcome: if budget_of(max_tokens) == 0 {
                Some(Outcome::Exhausted)
            } else {
                None
            },
        }
    }

    /// The invariant of a generation.
    pub open spec fn wf(self) -> bool {
        &&& 0 <= self.prompt_len <= self.tokens.len()
        &&& self.count == self.generated().len()
        &&& 0 <= self.cursor <= self.tokens.len()
        &&& self.generated().len() <= self.budget <= i32::MAX
        &&& run_shape(self.generated(), self.budget, self.eos, self.outcome)
        &&& self.outcome is None && self.use_kv_cache && self.generated().len() > 0
            ==> self.cursor + 1 == self.tokens.len()
    }

    /// The position of the cache behind the context slice of the next step.
    pub open spec fn next_cursor(self) -> int {
        let n = self.generated().len() as int;
        context_position(self.use_kv_cache, n, self.cursor) + context_size(
            self.use_kv_cache,
            n,
            self.tokens.len() as int,
        )
    }

    /// The outcome that a freshly sampled `token` brings: the budget is
    /// looked at first, the terminal ids next.
    pub open spec fn outcome_with(self, token: u32) -> Option<Outcome> {
        if self.generated().len() + 1 == self.budget {
            Some(Outcome::Exhausted)
        } else if self.eos.contains(token) {
            Some(Outcome::Stopped)
        } else {
            None
        }
    }

    /// The state after the model took its context in and `token` was sampled.
    pub open spec fn accepted(self, token: u32) -> DecodeView {
        DecodeView {
            tokens: self.tokens.push(token),
            count: self.count + 1,
            cursor: self.next_cursor(),
            outcome: self.outcome_with(token),
            ..self
        }
    }

    /// The state after a step failed. Where the draw failed the model had
    /// taken its context in already.
    pub open spec fn failed(self, failure: Failure) -> DecodeView {
        DecodeView {
            cursor: if self.outcome is None && failure == Failure::Engine(
                EngineFailure::Sampling,
            ) {
                self.next_cursor()
            } else {
                self.cursor
            },
            outcome: Some(Outcome::Failed(failure)),
            ..self
        }
    }
}

/// What holds of the tokens that a generation with the given budget and
/// terminal ids has generated, for each way it can stand or have ended.
pub open spec fn run_shape(
    generated: Seq<u32>,
    budget: int,
    eos: Set<u32>,
    outcome: Option<Outcome>,
) -> bool {
    &&& generated.len() <= budget
    &&& forall|i: int| 0 <= i < generated.len() - 1 ==> !eos.contains(#[trigger] generated[i])
    &&& match outcome {
        None => generated.len() < budget && (generated.len() > 0 ==> !eos.contains(
            generated.last(),
        )),
        Some(Outcome::Exhausted) => generated.len() == budget,
        Some(Outcome::Stopped) => 0 < generated.len() < budget && eos.contains(generated.last()),
        Some(Outcome::Failed(Failure::Engine(_))) => generated.len() < budget && (generated.len()
            > 0 ==> !eos.contains(generated.last())),
        Some(Outcome::Failed(Failure::Detokenize(_))) => true,
    }
}

/// A generation ends with the first terminal token that is sampled: where
/// the `k`-th generated token is one of the terminal ids, whichever of them,
/// exactly `k` tokens were generated and the generation has ended; before the
/// budget is used up, it ended as stopped unless its last fragment failed.
pub proof fn lemma_ends_at_terminal_token(
    generated: Seq<u32>,
    budget: int,
    eos: Set<u32>,
    outcome: Option<Outcome>,
    k: int,
)
    requires
        run_shape(generated, budget, eos, outcome),
        1 <= k <= generated.len(),
        eos.contains(generated[k - 1]),
    ensures
        generated.len() == k,
        outcome is Some,
        !(outcome matches Some(Outcome::Failed(Failure::Engine(_)))),
        k == budget ==> !(outcome matches Some(Outcome::Stopped)),
        k < budget ==> !(outcome matches Some(Outcome::Exhausted)),
{
}

/// With a single terminal id `e`: where the `k`-th generated token is `e`,
/// exactly `k` tokens were generated.
pub proof fn lemma_ends_at_single_eos(
    generated: Seq<u32>,
    budget: int,
    e: u32,
    outcome: Option<Outcome>,
    k: int,
)
    requires
        run_shape(generated, budget, set![e], outcome),
        1 <= k <= generated.len(),
        generated[k - 1] == e,
    ensures
        generated.len() == k,
        outcome is Some,
{
    lemma_ends_at_terminal_token(generated, budget, set![e], outcome, k);
}

/// A generation that has ended without a failure and without a terminal
/// token among its tokens has used up its budget: it generated exactly as
/// many tokens as the budget allows.
pub proof fn lemma_runs_to_budget(
    generated: Seq<u32>,
    budget: int,
    eos: Set<u32>,
    outcome: Option<Outcome>,
)
    requires
        run_shape(generated, budget, eos, outcome),
        forall|i: int| 0 <= i < generated.len() ==> !eos.contains(#[trigger] generated[i]),
        outcome matches Some(ended) && !(ended is Failed),
    ensures
        generated.len() == budget,
        outcome == Some(Outcome::Exhausted),
{
}

/// The state of one generation.
pub struct DecodeState {
    tokens: Vec<u32>,
    prompt_len: usize,
    cursor: usize,
    generated: i32,
    budget: i32,
    eos: EosSpec,
    use_kv_cache: bool,
    outcome: Option<Outcome>,
}

impl View for DecodeState {
    type V = DecodeView;

    closed spec fn view(&self) -> DecodeView {
        DecodeView {
            tokens: self.tokens@,
            prompt_len: self.prompt_len as int,
            count: self.generated as int,
            cursor: self.cursor as int,
            budget: self.budget as int,
            eos: self.eos@,
            use_kv_cache: self.use_kv_cache,
            outcome: self.outcome,
        }
    }
}

impl DecodeState {
    /// The invariant of a generation.
    pub open spec fn wf(&self) -> bool {
        self@.wf()
    }

    /// Seeds a generation with the tokens of its prompt.
    pub fn new(prompt: Vec<u32>, max_tokens: Option<i32>, eos: EosSpec, use_kv_cache: bool) -> (state:
        Self)
        ensures
            state.wf(),
            state@ == DecodeView::seeded(prompt@, max_tokens, eos@, use_kv_cache),
    {
        let budget: i32 = match max_tokens {
            Some(n) => if n < 0 {
                0
            } else {
                n
            },
            None => DEFAULT_MAX_TOKENS,
        };
        let prompt_len = prompt.len();
        let outcome = if budget == 0 {
            Some(Outcome::Exhausted)
        } else {
            None
        };
        let state = Self {
            tokens: prompt,
            prompt_len,
            cursor: 0,
            generated: 0,
            budget,
            eos,
            use_kv_cache,
            outcome,
        };
        assert(state@.generated() =~= Seq::<u32>::empty());
        state
    }

    /// Whether the generation goes on.
    pub fn is_stepping(&self) -> (r: bool)
        ensures
            r == (self@.outcome is None),
    {
        self.outcome.is_none()
    }

    /// How the generation ended, once it has.
    pub fn outcome(&self) -> (r: &Option<Outcome>)
        ensures
            *r == self@.outcome,
    {
        &self.outcome
    }

    /// The history: the prompt's tokens and the generated ones.
    pub fn tokens(&self) -> (r: &[u32])
        ensures
            r@ == self@.tokens,
    {
        self.tokens.as_slice()
    }

    /// The number of tokens generated so far.
    pub fn tokens_generated(&self) -> (r: i32)
        ensures
            r as int == self@.count,
    {
        self.generated
    }

    /// The number of tokens of the prompt.
    pub fn prompt_tokens(&self) -> (r: usize)
        ensures
            r as int == self@.prompt_len,
    {
        self.prompt_len
    }

    /// The cache-position cursor.
    pub fn cursor(&self) -> (r: usize)
        ensures
            r as int == self@.cursor,
    {
        self.cursor
    }

    /// Gives the history back.
    pub fn into_tokens(self) -> (r: Vec<u32>)
        ensures
            r@ == self@.tokens,
    {
        self.tokens
    }

    /// Gives the history back, and how the generation ended, once it has.
    pub fn into_parts(self) -> (r: (Vec<u32>, Option<Outcome>))
        ensures
            r.0@ == self@.tokens,
            r.1 == self@.outcome,
    {
        (self.tokens, self.outcome)
    }

    /// Plans the next step: the context slice, its cache position, and the
    /// repeat-penalty window where `penalty` says that the penalty is on.
    pub fn plan(&self, penalty: bool, repeat_last_n: usize) -> (plan: StepPlan)
        requires
            self.wf(),
        ensures
            plan.context_start as int + context_size(
                self@.use_kv_cache,
                self@.generated().len() as int,
                self@.tokens.len() as int,
            ) == self@.tokens.len(),
            plan.position as int == context_position(
                self@.use_kv_cache,
                self@.generated().len() as int,
                self@.cursor,
            ),
            plan.position as int + (self@.tokens.len() - plan.context_start) == self@.next_cursor(),
            match plan.penalty_start {
                Some(start) => penalty && start as int == window_start(
                    self@.tokens.len() as int,
                    repeat_last_n as int,
                ),
                None => !penalty,
            },
    {
        let len = self.tokens.len();
        let incremental = self.use_kv_cache && self.generated > 0;
        let context_start: usize = if incremental {
            len - 1
        } else {
            0
        };
        let position: usize = if incremental {
            self.cursor
        } else {
            0
        };
        let penalty_start: Option<usize> = if penalty {
            if len >= repeat_last_n {
                Some(len - repeat_last_n)
            } else {
                Some(0)
            }
        } else {
            None
        };
        StepPlan { context_start, position, penalty_start }
    }

    /// Takes in the token that the engine sampled: the cursor moves behind
    /// the context slice, the token joins the history, and the stop
    /// conditions are looked at. Returns whether the token is to be decoded:
    /// every token is, but a terminal one.
    pub fn accept(&mut self, token: u32) -> (decode: bool)
        requires
            old(self).wf(),
            old(self)@.outcome is None,
        ensures
            final(self).wf(),
            final(self)@ == old(self)@.accepted(token),
            decode == !old(self)@.eos.contains(token),
    {
        let len = self.tokens.len();
        let incremental = self.use_kv_cache && self.generated > 0;
        let terminal = self.eos.matches(token);
        let ghost before = self@;
        self.cursor = if incremental {
            self.cursor + 1
        } else {
            len
        };
        self.tokens.push(token);
        self.generated = self.generated + 1;
        self.outcome = if self.generated == self.budget {
            Some(Outcome::Exhausted)
        } else if terminal {
            Some(Outcome::Stopped)
        } else {
            None
        };
        proof {
            assert(self@.generated() =~= before.generated().push(token));
        }
        !terminal
    }

    /// Ends the generation on a failure.
    pub fn fail(&mut self, failure: Failure)
        requires
            old(self).wf(),
            failure is Engine ==> old(self)@.outcome is None,
        ensures
            final(self).wf(),
            final(self)@ == old(self)@.failed(failure),
    {
        let sampling = match &failure {
            Failure::Engine(EngineFailure::Sampling) => true,
            _ => false,
        };
        if self.outcome.is_none() && sampling {
            let len = self.tokens.len();
            self.cursor = if self.use_kv_cache && self.generated > 0 {
                self.cursor + 1
            } else {
                len
            };
        }
        self.outcome = Some(Outcome::Failed(failure));
    }
}

} // verus!
