//! The incremental detokenizer: it turns a growing token sequence into text
//! fragments, and hands a fragment out only once its tail looks stable.

use vstd::prelude::*;
use vstd::string::*;
use vstd::utf8::*;
use vstd::slice::slice_subrange;
use tokenizers::Tokenizer;
use crate::tokenizer::{
    alphanumeric, decode, decode_refusal, decode_result, decoded_text, decoder, decoder_kind,
    decoder_kind_of, decodes_safely, has_safe_decoder, is_alphanumeric, vocabulary_id,
    vocabulary_lookup, DecoderKind,
};

verus! {

/// Why a token span could not be turned into a fragment.
#[derive(Clone, Debug, PartialEq, Eq)]
pub enum DetokenizeError {
    /// The tokenizer failed to decode a span; its message says why.
    Decode(String),
    /// The text of the grown span does not continue the text of the span
    /// before it at a character boundary.
    Misaligned,
}

/// A `DetokenizeError` as the contracts see it.
pub enum DetokenizeFault {
    Decode(Seq<char>),
    Misaligned,
}

impl View for DetokenizeError {
    type V = DetokenizeFault;

    open spec fn view(&self) -> DetokenizeFault {
        match self {
            DetokenizeError::Decode(message) => DetokenizeFault::Decode(message@),
            DetokenizeError::Misaligned => DetokenizeFault::Misaligned,
        }
    }
}

/// Why a tokenizer cannot serve a stream: its decoder, of the given kind,
/// cannot be handed every token list. Of a sequence it is a part that
/// cannot.
#[derive(Clone, Copy, Debug, PartialEq, Eq, Structural)]
pub struct UnsafeDecoder {
    pub kind: DecoderKind,
}

/// The state of a stream: the tokenizer, the token history and the two
/// markers. The tokens before `prev_index` are done with; the text of
/// `prev_index..current_index` has been handed out and serves as the context
/// of what comes behind it.
pub struct StreamState {
    pub tokenizer: Tokenizer,
    pub tokens: Seq<u32>,
    pub prev_index: int,
    pub current_index: int,
}

/// The number of bytes of `text` in UTF-8.
pub open spec fn byte_len(text: Seq<char>) -> int {
    encode_utf8(text).len() as int
}

/// Whether `text` is longer, in bytes, than `prev_text`.
pub open spec fn has_grown(prev_text: Seq<char>, text: Seq<char>) -> bool {
    byte_len(text) > byte_len(prev_text)
}

/// Whether the last character of `text` is alphanumeric.
pub open spec fn ends_alphanumeric(text: Seq<char>) -> bool {
    text.len() > 0 && alphanumeric(text.last())
}

/// Whether `text` can be cut behind as many bytes as `prev_text` has.
pub open spec fn cuts_cleanly(prev_text: Seq<char>, text: Seq<char>) -> bool {
    is_char_boundary(encode_utf8(text), byte_len(prev_text))
}

/// What `text` holds behind its first `byte_len(prev_text)` bytes.
pub open spec fn grown_suffix(prev_text: Seq<char>, text: Seq<char>) -> Seq<char> {
    decode_utf8(encode_utf8(text).subrange(byte_len(prev_text), byte_len(text)))
}

/// The fragment to hand out for a span whose text went from `prev_text` to
/// `text`, where it has grown.
pub open spec fn fragment_of(prev_text: Seq<char>, text: Seq<char>) -> Result<
    Option<Seq<char>>,
    DetokenizeFault,
> {
    if cuts_cleanly(prev_text, text) {
        Ok(Some(grown_suffix(prev_text, text)))
    } else {
        Err(DetokenizeFault::Misaligned)
    }
}

/// The fragment that ends a generation, for a span whose text went from
/// `prev_text` to `text`: what the text has grown by, whatever its last
/// character is; nothing where it has not grown.
pub open spec fn rest_fragment_of(prev_text: Seq<char>, text: Seq<char>) -> Result<
    Option<Seq<char>>,
    DetokenizeFault,
> {
    if has_grown(prev_text, text) {
        fragment_of(prev_text, text)
    } else {
        Ok(None)
    }
}

/// The fragment to hand out in the middle of a generation, for a span whose
/// text went from `prev_text` to `text`: what the text has grown by, where it
/// ends in an alphanumeric character; nothing where it has not grown or ends
/// otherwise.
pub open spec fn stable_fragment_of(prev_text: Seq<char>, text: Seq<char>) -> Result<
    Option<Seq<char>>,
    DetokenizeFault,
> {
    if has_grown(prev_text, text) && ends_alphanumeric(text) {
        fragment_of(prev_text, text)
    } else {
        Ok(None)
    }
}

impl StreamState {
    /// The markers are in order and within the history.
    pub open spec fn wf(self) -> bool {
        0 <= self.prev_index <= self.current_index <= self.tokens.len()
    }

    /// The state of a fresh stream.
    pub open spec fn empty(tokenizer: Tokenizer) -> StreamState {
        StreamState { tokenizer, tokens: Seq::empty(), prev_index: 0, current_index: 0 }
    }

    /// The text that was decoded for the span between the markers: empty
    /// while the history is empty, else what the tokenizer gives for it.
    pub open spec fn previous_text(self) -> Option<Seq<char>> {
        if self.tokens.len() == 0 {
            Some(Seq::empty())
        } else {
            decoded_text(self.tokenizer, self.tokens.subrange(self.prev_index, self.current_index))
        }
    }

    /// The message with which the tokenizer refuses the span between the
    /// markers, where it does.
    pub open spec fn previous_refusal(self) -> Seq<char> {
        decode_refusal(
            self.tokenizer,
            self.tokens.subrange(self.prev_index, self.current_index),
        )
    }

    /// The message with which the tokenizer refuses the span from the first
    /// marker to the end of the history, where it does.
    pub open spec fn pending_refusal(self) -> Seq<char> {
        decode_refusal(
            self.tokenizer,
            self.tokens.subrange(self.prev_index, self.tokens.len() as int),
        )
    }

    /// The text of everything from the first marker to the end of the history.
    pub open spec fn pending_text(self) -> Option<Seq<char>> {
        decoded_text(
            self.tokenizer,
            self.tokens.subrange(self.prev_index, self.tokens.len() as int),
        )
    }

    /// The state with `token` appended to the history.
    pub open spec fn pushed(self, token: u32) -> StreamState {
        StreamState { tokens: self.tokens.push(token), ..self }
    }

    /// The state after a fragment was handed out: the old second marker is
    /// the new first one, and the new second one is the end of the history.
    pub open spec fn advanced(self) -> StreamState {
        StreamState {
            prev_index: self.current_index,
            current_index: self.tokens.len() as int,
            ..self
        }
    }

    /// The state after `token` was fed to the stream.
    pub open spec fn fed(self, token: u32) -> StreamState {
        match self.previous_text() {
            None => self,
            Some(prev_text) => {
                let grown = self.pushed(token);
                match grown.pending_text() {
                    None => grown,
                    Some(text) => {
                        if stable_fragment_of(prev_text, text) is Ok && stable_fragment_of(
                            prev_text,
                            text,
                        )->Ok_0 is Some {
                            grown.advanced()
                        } else {
                            grown
                        }
                    },
                }
            },
        }
    }

    /// What feeding `token` to the stream returns: the grown suffix where the
    /// text of the pending span has grown and ends in an alphanumeric
    /// character, nothing where it has not, an error where the tokenizer fails
    /// or the text cannot be cut.
    pub open spec fn fed_fragment(self, token: u32) -> Result<Option<Seq<char>>, DetokenizeFault> {
        match self.previous_text() {
            None => Err(DetokenizeFault::Decode(self.previous_refusal())),
            Some(prev_text) => match self.pushed(token).pending_text() {
                None => Err(DetokenizeFault::Decode(self.pushed(token).pending_refusal())),
                Some(text) => stable_fragment_of(prev_text, text),
            },
        }
    }

    /// What is left to hand out at the end: the grown suffix of the pending
    /// span, whatever its last character is.
    pub open spec fn rest(self) -> Result<Option<Seq<char>>, DetokenizeFault> {
        match self.previous_text() {
            None => Err(DetokenizeFault::Decode(self.previous_refusal())),
            Some(prev_text) => match self.pending_text() {
                None => Err(DetokenizeFault::Decode(self.pending_refusal())),
                Some(text) => rest_fragment_of(prev_text, text),
            },
        }
    }

    /// The text of the whole history, decoded in one go.
    pub open spec fn whole_text(self) -> Option<Seq<char>> {
        decoded_text(self.tokenizer, self.tokens)
    }
}

/// Where a stream stands after it was fed some tokens: its state, the text of
/// the fragments it handed out, and the error that stopped it, if one did.
pub struct StreamRun {
    pub state: StreamState,
    pub text: Seq<char>,
    pub error: Option<DetokenizeFault>,
}

impl StreamRun {
    /// The run of a fresh stream that was fed nothing yet.
    pub open spec fn start(tokenizer: Tokenizer) -> StreamRun {
        StreamRun { state: StreamState::empty(tokenizer), text: Seq::empty(), error: None }
    }

    /// The run after one more token was fed.
    pub open spec fn step(self, token: u32) -> StreamRun {
        match self.state.fed_fragment(token) {
            Ok(Some(fragment)) => StreamRun {
                state: self.state.fed(token),
                text: self.text + fragment,
                error: None,
            },
            Ok(None) => StreamRun { state: self.state.fed(token), text: self.text, error: None },
            Err(e) => StreamRun { state: self.state.fed(token), text: self.text, error: Some(e) },
        }
    }

    /// The text of the run with what is left behind the markers added.
    pub open spec fn flushed_text(self) -> Seq<char> {
        match self.state.rest() {
            Ok(Some(rest)) => self.text + rest,
            _ => self.text,
        }
    }
}

/// The run of a fresh stream over `tokenizer` that is fed the tokens of `fed`
/// one by one, up to the first error.
pub open spec fn run(tokenizer: Tokenizer, fed: Seq<u32>) -> StreamRun
    decreases fed.len(),
{
    if fed.len() == 0 {
        StreamRun::start(tokenizer)
    } else {
        let before = run(tokenizer, fed.drop_last());
        if before.error is Some {
            before
        } else {
            before.step(fed.last())
        }
    }
}

/// The view of what a fragment-returning call gave back.
pub open spec fn fragment_view(r: Result<Option<String>, DetokenizeError>) -> Result<
    Option<Seq<char>>,
    DetokenizeFault,
> {
    match r {
        Ok(Some(text)) => Ok(Some(text@)),
        Ok(None) => Ok(None),
        Err(e) => Err(e@),
    }
}

/// A stream of tokens that decodes them step by step.
pub struct TokenOutputStream {
    tokenizer: Tokenizer,
    tokens: Vec<u32>,
    prev_index: usize,
    current_index: usize,
}

impl View for TokenOutputStream {
    type V = StreamState;

    closed spec fn view(&self) -> StreamState {
        StreamState {
            tokenizer: self.tokenizer,
            tokens: self.tokens@,
            prev_index: self.prev_index as int,
            current_index: self.current_index as int,
        }
    }
}

/// The number of bytes of `text`.
fn str_byte_len(text: &str) -> (n: usize)
    ensures
        n == byte_len(text@),
{
    text.as_bytes().len()
}

/// Cuts `text` behind the bytes of `prev_text` and returns what follows, for
/// a text that has grown past `prev_text`.
fn cut_fragment(prev_text: &str, text: &str) -> (r: Result<Option<String>, DetokenizeError>)
    requires
        has_grown(prev_text@, text@),
    ensures
        fragment_view(r) == fragment_of(prev_text@, text@),
{
    let at = str_byte_len(prev_text);
    if text.is_char_boundary(at) {
        let (_, suffix) = text.split_at(at);
        proof {
            encode_utf8_decode_utf8(suffix@);
            assert(suffix.spec_bytes() == encode_utf8(text@).subrange(
                byte_len(prev_text@),
                byte_len(text@),
            ));
        }
        Ok(Some(suffix.to_owned()))
    } else {
        Err(DetokenizeError::Misaligned)
    }
}

/// Whether the last character of `text` is alphanumeric.
fn tail_is_alphanumeric(text: &str) -> (r: bool)
    ensures
        r == ends_alphanumeric(text@),
{
    let n = text.unicode_len();
    if n == 0 {
        false
    } else {
        is_alphanumeric(text.get_char(n - 1))
    }
}

/// The fragment that ends a generation: what `text` holds behind the bytes
/// of `prev_text`, where it is longer; an error where it cannot be cut there.
pub fn rest_fragment(prev_text: &str, text: &str) -> (r: Result<Option<String>, DetokenizeError>)
    ensures
        fragment_view(r) == rest_fragment_of(prev_text@, text@),
{
    if str_byte_len(text) > str_byte_len(prev_text) {
        cut_fragment(prev_text, text)
    } else {
        Ok(None)
    }
}

/// The fragment to hand out for a text of which the caller says whether its
/// tail is alphanumeric: what `text` holds behind the bytes of `prev_text`,
/// where it is longer and its tail is alphanumeric; nothing where either
/// fails; an error where it cannot be cut there.
pub fn gated_fragment(prev_text: &str, text: &str, tail_is_alphanumeric: bool) -> (r: Result<
    Option<String>,
    DetokenizeError,
>)
    ensures
        fragment_view(r) == (if has_grown(prev_text@, text@) && tail_is_alphanumeric {
            fragment_of(prev_text@, text@)
        } else {
            Ok(None)
        }),
{
    if str_byte_len(text) > str_byte_len(prev_text) && tail_is_alphanumeric {
        cut_fragment(prev_text, text)
    } else {
        Ok(None)
    }
}

/// The fragment to hand out in the middle of a generation: what `text` holds
/// behind the bytes of `prev_text`, where it is longer and ends in an
/// alphanumeric character; an error where it cannot be cut there.
pub fn stable_fragment(prev_text: &str, text: &str) -> (r: Result<Option<String>, DetokenizeError>)
    ensures
        fragment_view(r) == stable_fragment_of(prev_text@, text@),
{
    gated_fragment(prev_text, text, tail_is_alphanumeric(text))
}

impl TokenOutputStream {
    /// The invariant of a stream: its markers are in order, and the decoder
    /// of its tokenizer can be handed any token list.
    pub open spec fn wf(&self) -> bool {
        self@.wf() && decodes_safely(self@.tokenizer)
    }

    /// A stream over `tokenizer` with an empty history; an error where the
    /// decoder of the tokenizer cannot be handed every token list, as a
    /// stream hands it empty ones.
    pub fn new(tokenizer: Tokenizer) -> (r: Result<Self, UnsafeDecoder>)
        ensures
            match r {
                Ok(stream) => decodes_safely(tokenizer) && stream.wf() && stream@
                    == StreamState::empty(tokenizer),
                Err(e) => {
                    &&& !decodes_safely(tokenizer)
                    &&& decoder(tokenizer) matches Some(d)
                    &&& e.kind == decoder_kind(d)
                },
            },
    {
        if has_safe_decoder(&tokenizer) {
            Ok(Self { tokenizer, tokens: Vec::new(), prev_index: 0, current_index: 0 })
        } else {
            match decoder_kind_of(&tokenizer) {
                Some(kind) => Err(UnsafeDecoder { kind }),
                // without a decoder nothing is unsafe
                None => Ok(Self { tokenizer, tokens: Vec::new(), prev_index: 0, current_index: 0 }),
            }
        }
    }

    /// Gives the tokenizer back.
    pub fn into_inner(self) -> (tokenizer: Tokenizer)
        ensures
            tokenizer == self@.tokenizer,
    {
        self.tokenizer
    }

    /// The text already decoded for the span between the markers.
    fn previous_text(&self) -> (r: Result<String, String>)
        requires
            self.wf(),
        ensures
            match r {
                Ok(text) => self@.previous_text() == Some(text@),
                Err(message) => self@.previous_text() is None && message@
                    == self@.previous_refusal(),
            },
    {
        if self.tokens.is_empty() {
            Ok(String::new())
        } else {
            decode(
                &self.tokenizer,
                slice_subrange(self.tokens.as_slice(), self.prev_index, self.current_index),
            )
        }
    }

    /// The text of the span from the first marker to the end.
    fn pending_text(&self) -> (r: Result<String, String>)
        requires
            self.wf(),
        ensures
            match r {
                Ok(text) => self@.pending_text() == Some(text@),
                Err(message) => self@.pending_text() is None && message@
                    == self@.pending_refusal(),
            },
    {
        decode(
            &self.tokenizer,
            slice_subrange(self.tokens.as_slice(), self.prev_index, self.tokens.len()),
        )
    }

    /// Appends `token` to the history and decodes the pending span anew.
    /// Where its text has grown and ends in an alphanumeric character, the
    /// grown suffix is returned and the markers move on; else nothing is
    /// returned and the markers stay. Where the tokenizer fails on the span
    /// between the markers, the token is not appended.
    pub fn next_token(&mut self, token: u32) -> (r: Result<Option<String>, DetokenizeError>)
        requires
            old(self).wf(),
        ensures
            final(self).wf(),
            final(self)@ == old(self)@.fed(token),
            fragment_view(r) == old(self)@.fed_fragment(token),
    {
        let prev_text = match self.previous_text() {
            Ok(text) => text,
            Err(message) => {
                return Err(DetokenizeError::Decode(message));
            },
        };
        self.tokens.push(token);
        let text = match self.pending_text() {
            Ok(text) => text,
            Err(message) => {
                return Err(DetokenizeError::Decode(message));
            },
        };
        let fragment = stable_fragment(prev_text.as_str(), text.as_str());
        let handed_out = match &fragment {
            Ok(Some(_)) => true,
            _ => false,
        };
        if handed_out {
            self.prev_index = self.current_index;
            self.current_index = self.tokens.len();
        }
        fragment
    }

    /// Decodes what is left behind the markers, without a look at its last
    /// character: the fragment that ends a generation. The stream stays as it
    /// is.
    pub fn decode_rest(&self) -> (r: Result<Option<String>, DetokenizeError>)
        requires
            self.wf(),
        ensures
            fragment_view(r) == self@.rest(),
    {
        let prev_text = match self.previous_text() {
            Ok(text) => text,
            Err(message) => {
                return Err(DetokenizeError::Decode(message));
            },
        };
        let text = match self.pending_text() {
            Ok(text) => text,
            Err(message) => {
                return Err(DetokenizeError::Decode(message));
            },
        };
        rest_fragment(prev_text.as_str(), text.as_str())
    }

    /// Decodes the whole history in one go.
    pub fn decode_all(&self) -> (r: Result<String, DetokenizeError>)
        requires
            self.wf(),
        ensures
            match r {
                Ok(text) => self@.whole_text() == Some(text@),
                Err(e) => self@.whole_text() is None && e@ == DetokenizeFault::Decode(
                    decode_refusal(self@.tokenizer, self@.tokens),
                ),
            },
    {
        match decode(&self.tokenizer, self.tokens.as_slice()) {
            Ok(text) => Ok(text),
            Err(message) => Err(DetokenizeError::Decode(message)),
        }
    }

    /// The id of `token_s` in the tokenizer's vocabulary, added tokens
    /// included.
    pub fn get_token(&self, token_s: &str) -> (r: Option<u32>)
        ensures
            r == vocabulary_id(self@.tokenizer, token_s@),
    {
        vocabulary_lookup(&self.tokenizer, token_s)
    }

    /// The tokenizer of the stream.
    pub fn tokenizer(&self) -> (tokenizer: &Tokenizer)
        ensures
            *tokenizer == self@.tokenizer,
    {
        &self.tokenizer
    }

    /// Empties the history and sets both markers back to the start.
    pub fn clear(&mut self)
        requires
            old(self).wf(),
        ensures
            final(self)@ == StreamState::empty(old(self)@.tokenizer),
            final(self).wf(),
    {
        self.prev_index = 0;
        self.current_index = 0;
        self.tokens.clear();
    }
}

} // verus!
