//! The terminal token ids: the ids that end a generation.

use vstd::prelude::*;

verus! {

/// The token that a tokenizer is asked for where the model names no terminal
/// token of its own.
pub const FALLBACK_EOS_TOKEN: &'static str = "</s>";

/// The terminal token ids of a generation: a single id, or several.
#[derive(Clone, Debug)]
pub enum EosSpec {
    Single(u32),
    Multiple(Vec<u32>),
}

impl View for EosSpec {
    type V = Set<u32>;

    /// The set of the terminal ids.
    open spec fn view(&self) -> Set<u32> {
        match self {
            EosSpec::Single(id) => set![*id],
            EosSpec::Multiple(ids) => Set::new(|id: u32| ids@.contains(id)),
        }
    }
}

/// Whether `token` occurs in `ids`.
fn contains_id(ids: &Vec<u32>, token: u32) -> (r: bool)
    ensures
        r == ids@.contains(token),
{
    let mut i: usize = 0;
    while i < ids.len()
        invariant
            i <= ids.len(),
            forall|j: int| 0 <= j < i ==> ids@[j] != token,
        decreases ids.len() - i,
    {
        if ids[i] == token {
            return true;
        }
        i = i + 1;
    }
    false
}

impl EosSpec {
    /// Whether `token` ends the generation: it equals the single id, or it is
    /// one of the several.
    pub fn matches(&self, token: u32) -> (r: bool)
        ensures
            r == self@.contains(token),
    {
        match self {
            EosSpec::Single(id) => *id == token,
            EosSpec::Multiple(ids) => contains_id(ids, token),
        }
    }

    /// Resolves the terminal ids of a generation: the model's own terminal
    /// ids where its configuration names any, else the tokenizer's
    /// end-of-sentence token; `None` where neither exists.
    pub fn resolve(configured: Option<EosSpec>, tokenizer_eos: Option<u32>) -> (r: Option<EosSpec>)
        ensures
            match (configured, tokenizer_eos) {
                (Some(spec), _) => r == Some(spec),
                (None, Some(id)) => r == Some(EosSpec::Single(id)),
                (None, None) => r is None,
            },
    {
        match configured {
            Some(spec) => Some(spec),
            None => match tokenizer_eos {
                Some(id) => Some(EosSpec::Single(id)),
                None => None,
            },
        }
    }
}

/// A single id ends the generation exactly when it is sampled.
pub proof fn lemma_single_matches(e: u32, token: u32)
    ensures
        (EosSpec::Single(e))@.contains(token) <==> token == e,
{
}

/// With several ids, each of them ends the generation, whatever its place in
/// the list.
pub proof fn lemma_multiple_matches(ids: Vec<u32>, i: int)
    requires
        0 <= i < ids@.len(),
    ensures
        (EosSpec::Multiple(ids))@.contains(ids@[i]),
{
    assert(ids@.contains(ids@[i]));
}

} // verus!
