//! Why the fragments of a stream add up to the text of its whole history,
//! for a tokenizer under which the window of the stream grows as the whole
//! history does wherever the stream hands a fragment out.

use vstd::prelude::*;
use vstd::utf8::*;
use tokenizers::Tokenizer;
use crate::output_stream::{
    byte_len, cuts_cleanly, ends_alphanumeric, grown_suffix, has_grown, run, StreamRun,
};
use crate::tokenizer::decoded_text;

verus! {

/// The text of the tokens `from..to` of a history.
pub open spec fn span_text(tokenizer: Tokenizer, tokens: Seq<u32>, from: int, to: int) -> Option<
    Seq<char>,
> {
    decoded_text(tokenizer, tokens.subrange(from, to))
}

/// The window that starts at `a` grows, from `b` tokens to `c`, by the same
/// text as the whole history does: both texts only get longer, and by the
/// same characters.
pub open spec fn grows_alike(tokenizer: Tokenizer, tokens: Seq<u32>, a: int, b: int, c: int) -> bool {
    &&& span_text(tokenizer, tokens, a, b) matches Some(short)
    &&& span_text(tokenizer, tokens, a, c) matches Some(long)
    &&& span_text(tokenizer, tokens, 0, b) matches Some(whole_short)
    &&& span_text(tokenizer, tokens, 0, c) matches Some(whole_long)
    &&& short.is_prefix_of(long)
    &&& whole_short.is_prefix_of(whole_long)
    &&& long.skip(short.len() as int) == whole_long.skip(whole_short.len() as int)
}

/// Whether a stream can have its markers at `a` and `b`: the first marker
/// stands before the second, but for a stream that has handed nothing out
/// yet, whose markers both stand at the start.
pub open spec fn is_window(a: int, b: int) -> bool {
    0 <= a < b || (a == 0 && b == 0)
}

/// The tokenizer decodes `tokens` consistently: nothing decodes to nothing,
/// and every window that a stream can hold over the history grows as the
/// whole history does.
pub open spec fn grows_consistently(tokenizer: Tokenizer, tokens: Seq<u32>) -> bool {
    &&& decoded_text(tokenizer, Seq::<u32>::empty()) == Some(Seq::<char>::empty())
    &&& forall|a: int, b: int, c: int|
        is_window(a, b) && b <= c <= tokens.len() ==> #[trigger] grows_alike(
            tokenizer,
            tokens,
            a,
            b,
            c,
        )
}

/// The encoding of two texts in a row is the two encodings in a row.
pub proof fn lemma_encode_concat(a: Seq<char>, b: Seq<char>)
    ensures
        encode_utf8(a + b) == encode_utf8(a) + encode_utf8(b),
    decreases a.len(),
{
    if a.len() == 0 {
        assert(a + b =~= b);
        assert(encode_utf8(a) + encode_utf8(b) =~= encode_utf8(b));
    } else {
        assert((a + b).drop_first() =~= a.drop_first() + b);
        lemma_encode_concat(a.drop_first(), b);
        assert(encode_utf8(a + b) =~= encode_utf8(a) + encode_utf8(b));
    }
}

/// A text that is not empty has at least one byte.
pub proof fn lemma_encode_nonempty(a: Seq<char>)
    requires
        a.len() > 0,
    ensures
        encode_utf8(a).len() > 0,
{
}

/// Where one text is followed by another, the second starts at a character
/// boundary.
pub proof fn lemma_concat_boundary(a: Seq<char>, b: Seq<char>)
    ensures
        is_char_boundary(encode_utf8(a + b), encode_utf8(a).len() as int),
    decreases a.len(),
{
    let bytes = encode_utf8(a + b);
    encode_utf8_valid_utf8(a + b);
    lemma_encode_concat(a, b);
    if a.len() == 0 {
    } else {
        let rest = (a + b).drop_first();
        encode_utf8_first_scalar(a + b);
        assert(rest =~= a.drop_first() + b);
        assert(pop_first_scalar(bytes) =~= encode_utf8(rest));
        lemma_concat_boundary(a.drop_first(), b);
        lemma_encode_nonempty(a);
    }
}

/// For a text that continues another: it can be cut behind the other, what
/// follows the cut is what it holds beyond the other, and it has grown
/// exactly if that is not empty.
pub proof fn lemma_grown_fragment(short: Seq<char>, long: Seq<char>)
    requires
        short.is_prefix_of(long),
    ensures
        cuts_cleanly(short, long),
        grown_suffix(short, long) == long.skip(short.len() as int),
        has_grown(short, long) <==> long.len() > short.len(),
{
    let more = long.skip(short.len() as int);
    assert(long =~= short + more);
    lemma_encode_concat(short, more);
    lemma_concat_boundary(short, more);
    encode_utf8_decode_utf8(more);
    assert(encode_utf8(long).subrange(byte_len(short), byte_len(long)) =~= encode_utf8(more));
    if more.len() > 0 {
        lemma_encode_nonempty(more);
    } else {
        assert(long =~= short);
    }
}

/// Whether the tokenizer is consistent where the stream, having been fed
/// the first `n` tokens of the history, is fed the next: it decodes the
/// window of the stream before and after, and where the stream hands a
/// fragment out, the window has grown as the whole history has.
pub open spec fn step_is_consistent(tokenizer: Tokenizer, tokens: Seq<u32>, n: int) -> bool {
    let before = run(tokenizer, tokens.take(n));
    let (p, c) = (before.state.prev_index, before.state.current_index);
    before.error is None ==> {
        &&& span_text(tokenizer, tokens, p, c) matches Some(short)
        &&& span_text(tokenizer, tokens, p, n + 1) matches Some(long)
        &&& has_grown(short, long) && ends_alphanumeric(long) ==> grows_alike(
            tokenizer,
            tokens,
            p,
            c,
            n + 1,
        )
    }
}

/// Whether the tokenizer is consistent where the stream, having been fed the
/// whole history, hands out the rest: where the window has grown, it has
/// grown as the whole history has, and where it has not, neither has the
/// text of the whole history.
pub open spec fn rest_is_consistent(tokenizer: Tokenizer, tokens: Seq<u32>) -> bool {
    let end = run(tokenizer, tokens);
    let (p, c) = (end.state.prev_index, end.state.current_index);
    let n = tokens.len() as int;
    end.error is None ==> {
        &&& span_text(tokenizer, tokens, p, c) matches Some(short)
        &&& span_text(tokenizer, tokens, p, n) matches Some(long)
        &&& if has_grown(short, long) {
            grows_alike(tokenizer, tokens, p, c, n)
        } else {
            span_text(tokenizer, tokens, 0, n) == span_text(tokenizer, tokens, 0, c)
        }
    }
}

/// The tokenizer is consistent wherever a stream over `tokens` hands text
/// out: nothing decodes to nothing, and each fragment, the last one too, is
/// cut from a window that has grown as the whole history has.
pub open spec fn hands_out_consistently(tokenizer: Tokenizer, tokens: Seq<u32>) -> bool {
    &&& decoded_text(tokenizer, Seq::<u32>::empty()) == Some(Seq::<char>::empty())
    &&& forall|n: int| 0 <= n < tokens.len() ==> #[trigger] step_is_consistent(tokenizer, tokens, n)
    &&& rest_is_consistent(tokenizer, tokens)
}

/// What holds of every stream: its markers are in order, and while no error
/// has stopped it, its history is what it was fed.
pub proof fn lemma_markers_are_a_window(tokenizer: Tokenizer, fed: Seq<u32>)
    ensures
        run(tokenizer, fed).state.wf(),
        run(tokenizer, fed).state.tokenizer == tokenizer,
        is_window(run(tokenizer, fed).state.prev_index, run(tokenizer, fed).state.current_index),
        run(tokenizer, fed).error is None ==> run(tokenizer, fed).state.tokens == fed,
    decreases fed.len(),
{
    if fed.len() > 0 {
        lemma_markers_are_a_window(tokenizer, fed.drop_last());
        let before = run(tokenizer, fed.drop_last());
        if before.error is None {
            assert(before.state.pushed(fed.last()).tokens =~= fed);
        }
    }
}

/// What holds of a stream after it was fed the first `n` tokens of a history
/// on which the tokenizer is consistent: no error stopped it, and the text it
/// handed out is the text of the history up to its second marker.
pub open spec fn tracks(tokenizer: Tokenizer, tokens: Seq<u32>, n: int, stream: StreamRun) -> bool {
    &&& stream.error is None
    &&& stream.state.tokenizer == tokenizer
    &&& stream.state.tokens == tokens.take(n)
    &&& stream.state.wf()
    &&& span_text(tokenizer, tokens, 0, stream.state.current_index) == Some(stream.text)
}

/// A stream keeps track of a history on which the tokenizer is consistent.
pub proof fn lemma_run_tracks(tokenizer: Tokenizer, tokens: Seq<u32>, n: int)
    requires
        hands_out_consistently(tokenizer, tokens),
        0 <= n <= tokens.len(),
    ensures
        tracks(tokenizer, tokens, n, run(tokenizer, tokens.take(n))),
    decreases n,
{
    if n == 0 {
        assert(tokens.take(0) =~= Seq::<u32>::empty());
        assert(tokens.subrange(0, 0) =~= Seq::<u32>::empty());
    } else {
        lemma_run_tracks(tokenizer, tokens, n - 1);
        let fed = tokens.take(n);
        assert(fed.drop_last() =~= tokens.take(n - 1));
        assert(fed.last() == tokens[n - 1]);
        let before = run(tokenizer, tokens.take(n - 1));
        let state = before.state;
        let grown = state.pushed(tokens[n - 1]);
        assert(grown.tokens =~= fed);
        let (p, c) = (state.prev_index, state.current_index);
        assert(step_is_consistent(tokenizer, tokens, n - 1));
        assert(state.tokens.subrange(p, c) =~= tokens.subrange(p, c));
        assert(grown.tokens.subrange(p, n) =~= tokens.subrange(p, n));
        if state.tokens.len() == 0 {
            assert(tokens.subrange(p, c) =~= Seq::<u32>::empty());
        }
        let short = span_text(tokenizer, tokens, p, c)->0;
        let long = span_text(tokenizer, tokens, p, n)->0;
        assert(state.previous_text() == Some(short));
        assert(grown.pending_text() == Some(long));
        if has_grown(short, long) && ends_alphanumeric(long) {
            let whole_short = span_text(tokenizer, tokens, 0, c)->0;
            let whole_long = span_text(tokenizer, tokens, 0, n)->0;
            lemma_grown_fragment(short, long);
            assert(whole_long =~= whole_short + whole_long.skip(whole_short.len() as int));
        }
    }
}

/// The fragments that a stream hands out while it is fed a history, and the
/// rest that it hands out at the end, add up to the text of the whole
/// history, where the tokenizer is consistent wherever the stream hands text
/// out.
pub proof fn lemma_fragments_add_up(tokenizer: Tokenizer, tokens: Seq<u32>)
    requires
        hands_out_consistently(tokenizer, tokens),
    ensures
        run(tokenizer, tokens).error is None,
        run(tokenizer, tokens).state.rest() is Ok,
        run(tokenizer, tokens).state.tokens == tokens,
        run(tokenizer, tokens).state.whole_text() == Some(run(tokenizer, tokens).flushed_text()),
        decoded_text(tokenizer, tokens) == Some(run(tokenizer, tokens).flushed_text()),
{
    let n = tokens.len() as int;
    lemma_run_tracks(tokenizer, tokens, n);
    assert(tokens.take(n) =~= tokens);
    let stream = run(tokenizer, tokens);
    let state = stream.state;
    let (p, c) = (state.prev_index, state.current_index);
    assert(rest_is_consistent(tokenizer, tokens));
    assert(tokens.subrange(0, n) =~= tokens);
    if n == 0 {
        assert(tokens.subrange(p, c) =~= Seq::<u32>::empty());
    }
    let short = span_text(tokenizer, tokens, p, c)->0;
    let long = span_text(tokenizer, tokens, p, n)->0;
    assert(state.previous_text() == Some(short));
    assert(state.pending_text() == Some(long));
    if has_grown(short, long) {
        let whole_short = span_text(tokenizer, tokens, 0, c)->0;
        let whole_long = span_text(tokenizer, tokens, 0, n)->0;
        lemma_grown_fragment(short, long);
        assert(whole_long =~= whole_short + whole_long.skip(whole_short.len() as int));
    }
}

/// A tokenizer under which every window grows as the whole history does is
/// consistent wherever a stream hands text out.
pub proof fn lemma_consistent_growth_suffices(tokenizer: Tokenizer, tokens: Seq<u32>)
    requires
        grows_consistently(tokenizer, tokens),
    ensures
        hands_out_consistently(tokenizer, tokens),
{
    assert forall|n: int| 0 <= n < tokens.len() implies #[trigger] step_is_consistent(
        tokenizer,
        tokens,
        n,
    ) by {
        lemma_markers_are_a_window(tokenizer, tokens.take(n));
        let before = run(tokenizer, tokens.take(n));
        if before.error is None {
            let (p, c) = (before.state.prev_index, before.state.current_index);
            assert(grows_alike(tokenizer, tokens, p, c, n + 1));
        }
    }
    lemma_markers_are_a_window(tokenizer, tokens);
    let end = run(tokenizer, tokens);
    if end.error is None {
        let n = tokens.len() as int;
        let (p, c) = (end.state.prev_index, end.state.current_index);
        assert(grows_alike(tokenizer, tokens, p, c, n));
        let short = span_text(tokenizer, tokens, p, c)->0;
        let long = span_text(tokenizer, tokens, p, n)->0;
        let whole_short = span_text(tokenizer, tokens, 0, c)->0;
        let whole_long = span_text(tokenizer, tokens, 0, n)->0;
        lemma_grown_fragment(short, long);
        assert(whole_long =~= whole_short + whole_long.skip(whole_short.len() as int));
        if !has_grown(short, long) {
            assert(long.skip(short.len() as int).len() == 0);
            assert(whole_long =~= whole_short);
        }
    }
}

} // verus!
