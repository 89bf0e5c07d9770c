//! The sampling policy: which strategy a generation draws its tokens with.

use vstd::prelude::*;
use crate::binary64::Binary64;

verus! {

/// The seed of a generation that names none.
pub const DEFAULT_SEED: i64 = 299792458;

/// A strategy for picking the next token from the model's scores. It is
/// chosen once, when a generation is set up, and stays fixed until its end.
#[derive(Clone, Copy, Debug, PartialEq, Eq, Structural)]
pub enum Sampling {
    /// The token with the highest score.
    ArgMax,
    /// A draw from the whole distribution, softened by the temperature.
    All { temperature: Binary64 },
    /// A draw among the `k` best tokens.
    TopK { k: usize, temperature: Binary64 },
    /// A draw from the nucleus: the smallest set of best tokens whose
    /// probabilities add up to `p`.
    TopP { p: Binary64, temperature: Binary64 },
    /// The `k` best tokens first, the nucleus of those next.
    TopKThenTopP { k: usize, p: Binary64, temperature: Binary64 },
}

/// The temperature of a request: zero where it names none.
pub open spec fn effective_temperature(temperature: Option<Binary64>) -> Binary64 {
    match temperature {
        Some(t) => t,
        None => (Binary64 { bits: 0 }),
    }
}

/// The strategy that a request's temperature, top-k and top-p call for.
pub open spec fn spec_select(
    temperature: Option<Binary64>,
    top_k: Option<usize>,
    top_p: Option<Binary64>,
) -> Sampling {
    let t = effective_temperature(temperature);
    if t.spec_at_most_zero() {
        Sampling::ArgMax
    } else {
        match (top_k, top_p) {
            (None, None) => Sampling::All { temperature: t },
            (Some(k), None) => Sampling::TopK { k, temperature: t },
            (None, Some(p)) => Sampling::TopP { p, temperature: t },
            (Some(k), Some(p)) => Sampling::TopKThenTopP { k, p, temperature: t },
        }
    }
}

impl Sampling {
    /// Chooses the strategy for a request. A temperature that is missing or
    /// at most zero means greedy decoding, whatever top-k and top-p say; above
    /// zero, the strategy follows which of top-k and top-p are given.
    pub fn select(
        temperature: Option<Binary64>,
        top_k: Option<usize>,
        top_p: Option<Binary64>,
    ) -> (s: Sampling)
        ensures
            s == spec_select(temperature, top_k, top_p),
            s is ArgMax <==> effective_temperature(temperature).spec_at_most_zero(),
    {
        let t = match temperature {
            Some(t) => t,
            None => Binary64::zero(),
        };
        if t.at_most_zero() {
            Sampling::ArgMax
        } else {
            match (top_k, top_p) {
                (None, None) => Sampling::All { temperature: t },
                (Some(k), None) => Sampling::TopK { k, temperature: t },
                (None, Some(p)) => Sampling::TopP { p, temperature: t },
                (Some(k), Some(p)) => Sampling::TopKThenTopP { k, p, temperature: t },
            }
        }
    }

    /// Whether the strategy draws no random number, so that the scores alone
    /// decide the token.
    pub fn is_greedy(&self) -> (r: bool)
        ensures
            r == (*self is ArgMax),
    {
        match self {
            Sampling::ArgMax => true,
            _ => false,
        }
    }
}

/// The value that seeds the random generator: the request's seed read as an
/// unsigned number of the same 64 bits.
pub open spec fn seed_value(seed: i64) -> int {
    if seed >= 0 {
        seed as int
    } else {
        seed as int + 0x1_0000_0000_0000_0000
    }
}

/// The seed of the random generator for a request.
pub fn generator_seed(seed: Option<i64>) -> (r: u64)
    ensures
        r as int == seed_value(
            match seed {
                Some(s) => s,
                None => DEFAULT_SEED,
            },
        ),
{
    let s: i64 = match seed {
        Some(s) => s,
        None => DEFAULT_SEED,
    };
    if s >= 0 {
        s as u64
    } else {
        // two's complement: -1 is the largest unsigned value
        let below: u64 = (-(s + 1)) as u64;
        u64::MAX - below
    }
}

} // verus!
