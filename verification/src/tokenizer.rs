//! What the library asks of a `tokenizers::Tokenizer`. The vocabulary, the
//! model and the decoder of a tokenizer are its own affair. Of the calls
//! below nothing is proved: each is taken to return on the tokenizers that
//! its `requires` admits, and to return what depends on the tokenizer and on
//! the arguments alone. Their results have names, and the contracts of the
//! library speak of those names.
//!
//! Not every tokenizer is admitted. Some decoders index into the tokens they
//! are given without a look at their length. And encoding runs through the
//! normalizer, the pre-tokenizer, the model and the post-processor of the
//! tokenizer: it is admitted only for the few kinds of these whose code was
//! read through and found to return on every text. The checks at the end of
//! this file tell a caller beforehand.

use vstd::prelude::*;
use tokenizers::{DecoderWrapper, ModelWrapper, PreTokenizerWrapper, Tokenizer};

verus! {

#[verifier::external_type_specification]
#[verifier::external_body]
pub struct ExTokenizer(Tokenizer);

#[verifier::external_type_specification]
#[verifier::external_body]
pub struct ExDecoderWrapper(DecoderWrapper);

/// A decoder, by its kind.
#[derive(Clone, Copy, Debug, PartialEq, Eq, Structural)]
pub enum DecoderKind {
    Bpe,
    ByteLevel,
    WordPiece,
    Metaspace,
    Ctc,
    /// Several decoders in a row.
    Sequence,
    Replace,
    Fuse,
    /// Strips up to `start` characters off the start and up to `stop` off
    /// the end of every token.
    Strip { start: usize, stop: usize },
    ByteFallback,
}

/// What `Tokenizer::get_decoder` returns: the decoder of the tokenizer, if it
/// carries one. Without one the tokens are joined by blanks.
pub uninterp spec fn decoder(tokenizer: Tokenizer) -> Option<DecoderWrapper>;

/// The variant of a decoder, and of a `Strip` decoder its `start` and `stop`.
pub uninterp spec fn decoder_kind(decoder: DecoderWrapper) -> DecoderKind;

/// What `Sequence::get_decoders` returns for a `Sequence` decoder: the
/// decoders that it holds, in the order in which it runs them. Empty for
/// every other decoder.
pub uninterp spec fn decoder_parts(decoder: DecoderWrapper) -> Seq<DecoderWrapper>;

/// The `max_length` and the `stride` of what `Tokenizer::get_truncation`
/// returns, if the tokenizer is set up to truncate.
pub uninterp spec fn truncation(tokenizer: Tokenizer) -> Option<(usize, usize)>;

/// Whether a decoder of this kind, which is no sequence, can be handed any
/// token list, the empty one and empty tokens too. The BPE decoder counts
/// down from the number of tokens, and a decoder that strips characters off
/// the end of a token indexes from its end.
pub open spec fn takes_any_tokens(kind: DecoderKind) -> bool {
    match kind {
        DecoderKind::Bpe => false,
        DecoderKind::Sequence => false,
        DecoderKind::Strip { start, stop } => stop == 0,
        _ => true,
    }
}

/// How deep sequences of decoders are looked into.
pub const DECODER_DEPTH: usize = 8;

/// Whether a decoder can be handed any token list: it is of a kind that can,
/// or a sequence, nested no deeper than `depth`, of decoders that can.
pub open spec fn safe_decoder(decoder: DecoderWrapper, depth: nat) -> bool
    decreases depth,
{
    if decoder_kind(decoder) == DecoderKind::Sequence {
        depth > 0 && forall|i: int|
            0 <= i < decoder_parts(decoder).len() ==> safe_decoder(
                #[trigger] decoder_parts(decoder)[i],
                (depth - 1) as nat,
            )
    } else {
        takes_any_tokens(decoder_kind(decoder))
    }
}

/// Whether the decoder of the tokenizer can be handed any token list: it
/// carries none, or one that can.
pub open spec fn decodes_safely(tokenizer: Tokenizer) -> bool {
    match decoder(tokenizer) {
        None => true,
        Some(decoder) => safe_decoder(decoder, DECODER_DEPTH as nat),
    }
}

/// The pre-tokenizers that were read through, and the rest.
#[derive(Clone, Copy, Debug, PartialEq, Eq, Structural)]
pub enum PreTokenizerKind {
    Whitespace,
    WhitespaceSplit,
    Other,
}

/// A model, by its kind.
#[derive(Clone, Copy, Debug, PartialEq, Eq, Structural)]
pub enum ModelKind {
    Bpe,
    WordPiece,
    WordLevel,
    Unigram,
}

/// Whether `Tokenizer::get_normalizer` returns a normalizer.
pub uninterp spec fn has_normalizer(tokenizer: Tokenizer) -> bool;

/// What `Tokenizer::get_pre_tokenizer` returns, by its kind.
pub uninterp spec fn pre_tokenizer_kind(tokenizer: Tokenizer) -> Option<PreTokenizerKind>;

/// What `Tokenizer::get_model` returns, by its kind.
pub uninterp spec fn model_kind(tokenizer: Tokenizer) -> ModelKind;

/// Whether `Tokenizer::get_post_processor` returns a post-processor.
pub uninterp spec fn has_post_processor(tokenizer: Tokenizer) -> bool;

/// Whether `Tokenizer::get_padding` returns padding parameters.
pub uninterp spec fn has_padding(tokenizer: Tokenizer) -> bool;

/// The `lstrip` and `rstrip` of the added tokens that
/// `Tokenizer::get_added_tokens_decoder` returns.
pub uninterp spec fn added_token_strips(tokenizer: Tokenizer) -> Set<(bool, bool)>;

/// The ids that `Tokenizer::encode` gives for `text` as a single sequence,
/// special tokens added, on a tokenizer that `encodes_as_read`; `None` where
/// it reports an error.
pub uninterp spec fn encode_result(tokenizer: Tokenizer, text: Seq<char>) -> Option<Seq<u32>>;

/// Whether truncation cannot fail: the tokenizer does not truncate, or to
/// nothing, or with a stride below the length it truncates to.
pub open spec fn truncates_safely(tokenizer: Tokenizer) -> bool {
    match truncation(tokenizer) {
        None => true,
        Some((max_length, stride)) => max_length == 0 || stride < max_length,
    }
}

/// Whether no added token strips the blanks to its left or right. Where one
/// strips to the right and the next to the left, the piece between them can
/// end before it starts.
pub open spec fn strips_nothing(tokenizer: Tokenizer) -> bool {
    forall|flags: (bool, bool)| #[trigger]
        added_token_strips(tokenizer).contains(flags) ==> flags == (false, false)
}

/// Why a tokenizer is not asked to encode.
#[derive(Clone, Copy, Debug, PartialEq, Eq, Structural)]
pub enum EncodeRefusal {
    /// It carries a normalizer.
    Normalizer,
    /// Its pre-tokenizer is none of those that were read through.
    PreTokenizer,
    /// Its model is of a kind that was not read through.
    Model(ModelKind),
    /// It carries a post-processor.
    PostProcessor,
    /// It truncates with a stride that is not below the length.
    Truncation { max_length: usize, stride: usize },
    /// It pads what it encodes.
    Padding,
    /// One of its added tokens strips blanks.
    AddedTokens,
}

/// Why the tokenizer is not asked to encode, if it is not: the first of the
/// reasons that holds.
pub open spec fn encode_refusal(tokenizer: Tokenizer) -> Option<EncodeRefusal> {
    if has_normalizer(tokenizer) {
        Some(EncodeRefusal::Normalizer)
    } else if pre_tokenizer_kind(tokenizer) == Some(PreTokenizerKind::Other) {
        Some(EncodeRefusal::PreTokenizer)
    } else if model_kind(tokenizer) != ModelKind::WordLevel {
        Some(EncodeRefusal::Model(model_kind(tokenizer)))
    } else if has_post_processor(tokenizer) {
        Some(EncodeRefusal::PostProcessor)
    } else if !truncates_safely(tokenizer) {
        match truncation(tokenizer) {
            Some((max_length, stride)) => Some(EncodeRefusal::Truncation { max_length, stride }),
            None => None,
        }
    } else if has_padding(tokenizer) {
        Some(EncodeRefusal::Padding)
    } else if !strips_nothing(tokenizer) {
        Some(EncodeRefusal::AddedTokens)
    } else {
        None
    }
}

/// Whether the tokenizer encodes by code that was read through: without a
/// normalizer, split at white space or not at all, with a word-level model
/// and without a post-processor; truncating safely, without padding, and
/// with added tokens that strip nothing.
pub open spec fn encodes_as_read(tokenizer: Tokenizer) -> bool {
    encode_refusal(tokenizer) is None
}

/// What `Tokenizer::decode` gives for `ids`, special tokens skipped: the
/// text, or the message of the error that it reports.
pub uninterp spec fn decode_result(tokenizer: Tokenizer, ids: Seq<u32>) -> Result<
    Seq<char>,
    Seq<char>,
>;

/// The text that the tokenizer decodes `ids` to, if it does.
pub open spec fn decoded_text(tokenizer: Tokenizer, ids: Seq<u32>) -> Option<Seq<char>> {
    match decode_result(tokenizer, ids) {
        Ok(text) => Some(text),
        Err(_) => None,
    }
}

/// The message with which the tokenizer refuses to decode `ids`, where it
/// does.
pub open spec fn decode_refusal(tokenizer: Tokenizer, ids: Seq<u32>) -> Seq<char> {
    match decode_result(tokenizer, ids) {
        Ok(_) => Seq::empty(),
        Err(message) => message,
    }
}

/// The id that `Tokenizer::token_to_id` gives for `token`, if it knows it.
pub uninterp spec fn token_id(tokenizer: Tokenizer, token: Seq<char>) -> Option<u32>;

/// The id under which `token` stands in the map that `Tokenizer::get_vocab`
/// returns with the added tokens included, if it stands there.
pub uninterp spec fn vocabulary_id(tokenizer: Tokenizer, token: Seq<char>) -> Option<u32>;

/// Whether `char::is_alphanumeric` holds of `c`.
pub uninterp spec fn alphanumeric(c: char) -> bool;

/// Calls `Tokenizer::get_decoder`.
#[verifier::external_body]
pub(crate) fn decoder_of(tokenizer: &Tokenizer) -> (r: Option<&DecoderWrapper>)
    ensures
        decoder(*tokenizer) == (match r {
            Some(decoder) => Some(*decoder),
            None => None,
        }),
{
    tokenizer.get_decoder()
}

/// Tells the variants of a `DecoderWrapper` apart; of a `Strip` decoder it
/// reads `start` and `stop`.
#[verifier::external_body]
pub(crate) fn kind_of(decoder: &DecoderWrapper) -> (r: DecoderKind)
    ensures
        r == decoder_kind(*decoder),
{
    match decoder {
        DecoderWrapper::BPE(_) => DecoderKind::Bpe,
        DecoderWrapper::ByteLevel(_) => DecoderKind::ByteLevel,
        DecoderWrapper::WordPiece(_) => DecoderKind::WordPiece,
        DecoderWrapper::Metaspace(_) => DecoderKind::Metaspace,
        DecoderWrapper::CTC(_) => DecoderKind::Ctc,
        DecoderWrapper::Sequence(_) => DecoderKind::Sequence,
        DecoderWrapper::Replace(_) => DecoderKind::Replace,
        DecoderWrapper::Fuse(_) => DecoderKind::Fuse,
        DecoderWrapper::Strip(s) => DecoderKind::Strip { start: s.start, stop: s.stop },
        DecoderWrapper::ByteFallback(_) => DecoderKind::ByteFallback,
    }
}

/// Calls `Sequence::get_decoders` on a `Sequence` decoder; for every other
/// decoder it returns none.
#[verifier::external_body]
pub(crate) fn parts_of(decoder: &DecoderWrapper) -> (r: &[DecoderWrapper])
    ensures
        r@ == decoder_parts(*decoder),
{
    match decoder {
        DecoderWrapper::Sequence(sequence) => sequence.get_decoders(),
        _ => &[],
    }
}

/// Calls `Tokenizer::get_truncation` and reads `max_length` and `stride`.
#[verifier::external_body]
pub(crate) fn truncation_of(tokenizer: &Tokenizer) -> (r: Option<(usize, usize)>)
    ensures
        r == truncation(*tokenizer),
{
    tokenizer.get_truncation().map(|parameters| (parameters.max_length, parameters.stride))
}

/// Calls `Tokenizer::get_padding` and says whether there are parameters.
#[verifier::external_body]
pub(crate) fn padding_present(tokenizer: &Tokenizer) -> (r: bool)
    ensures
        r == has_padding(*tokenizer),
{
    tokenizer.get_padding().is_some()
}

/// Calls `Tokenizer::get_normalizer` and says whether there is one.
#[verifier::external_body]
pub(crate) fn normalizer_present(tokenizer: &Tokenizer) -> (r: bool)
    ensures
        r == has_normalizer(*tokenizer),
{
    tokenizer.get_normalizer().is_some()
}

/// Calls `Tokenizer::get_pre_tokenizer` and tells the two pre-tokenizers
/// that split at white space apart from the rest.
#[verifier::external_body]
pub(crate) fn pre_tokenizer_of(tokenizer: &Tokenizer) -> (r: Option<PreTokenizerKind>)
    ensures
        r == pre_tokenizer_kind(*tokenizer),
{
    match tokenizer.get_pre_tokenizer() {
        None => None,
        Some(PreTokenizerWrapper::Whitespace(_)) => Some(PreTokenizerKind::Whitespace),
        Some(PreTokenizerWrapper::WhitespaceSplit(_)) => Some(PreTokenizerKind::WhitespaceSplit),
        Some(_) => Some(PreTokenizerKind::Other),
    }
}

/// Calls `Tokenizer::get_model` and tells the variants of the model apart.
#[verifier::external_body]
pub(crate) fn model_of(tokenizer: &Tokenizer) -> (r: ModelKind)
    ensures
        r == model_kind(*tokenizer),
{
    match tokenizer.get_model() {
        ModelWrapper::BPE(_) => ModelKind::Bpe,
        ModelWrapper::WordPiece(_) => ModelKind::WordPiece,
        ModelWrapper::WordLevel(_) => ModelKind::WordLevel,
        ModelWrapper::Unigram(_) => ModelKind::Unigram,
    }
}

/// Calls `Tokenizer::get_post_processor` and says whether there is one.
#[verifier::external_body]
pub(crate) fn post_processor_present(tokenizer: &Tokenizer) -> (r: bool)
    ensures
        r == has_post_processor(*tokenizer),
{
    tokenizer.get_post_processor().is_some()
}

/// Calls `Tokenizer::get_added_tokens_decoder` and reads `lstrip` and
/// `rstrip` of each added token, in the order in which the map hands them
/// out, of which nothing is claimed.
#[verifier::external_body]
pub(crate) fn added_token_strips_of(tokenizer: &Tokenizer) -> (r: Vec<(bool, bool)>)
    ensures
        forall|flags: (bool, bool)|
            added_token_strips(*tokenizer).contains(flags) <==> r@.contains(flags),
{
    tokenizer.get_added_tokens_decoder().values().map(|token| (token.lstrip, token.rstrip)).collect()
}

/// Calls `Tokenizer::decode` on `ids` with special tokens skipped, for a
/// tokenizer whose decoder can be handed any token list. Not proved: that
/// the call returns, and that what it returns depends on the tokenizer and
/// the ids alone. An error of the tokenizer is handed on by its message.
#[verifier::external_body]
pub(crate) fn decode(tokenizer: &Tokenizer, ids: &[u32]) -> (r: Result<String, String>)
    requires
        decodes_safely(*tokenizer),
    ensures
        decode_result(*tokenizer, ids@) == (match r {
            Ok(text) => Ok::<Seq<char>, Seq<char>>(text@),
            Err(message) => Err::<Seq<char>, Seq<char>>(message@),
        }),
{
    tokenizer.decode(ids, true).map_err(|error| error.to_string())
}

/// Calls `Tokenizer::encode` on `text` as a single sequence with special
/// tokens added, for a tokenizer that encodes by code that was read through,
/// and copies the ids out of the encoding. Not proved: that the call
/// returns, and that what it returns depends on the tokenizer and the text
/// alone. An error of the tokenizer becomes `None`.
#[verifier::external_body]
pub(crate) fn encode(tokenizer: &Tokenizer, text: &str) -> (r: Option<Vec<u32>>)
    requires
        encodes_as_read(*tokenizer),
    ensures
        encode_result(*tokenizer, text@) == (match r {
            Some(ids) => Some(ids@),
            None => None,
        }),
{
    match tokenizer.encode(text, true) {
        Ok(encoding) => Some(encoding.get_ids().to_vec()),
        Err(_) => None,
    }
}

/// Calls `Tokenizer::token_to_id`, which looks the token up among the added
/// tokens first and in the model's vocabulary next. Not proved: that the
/// result depends on the tokenizer and the token alone.
#[verifier::external_body]
pub(crate) fn token_to_id(tokenizer: &Tokenizer, token: &str) -> (r: Option<u32>)
    ensures
        r == token_id(*tokenizer, token@),
{
    tokenizer.token_to_id(token)
}

/// Calls `Tokenizer::get_vocab` with the added tokens included and looks
/// `token` up in the map it returns. Not proved: that the result depends on
/// the tokenizer and the token alone.
#[verifier::external_body]
pub(crate) fn vocabulary_lookup(tokenizer: &Tokenizer, token: &str) -> (r: Option<u32>)
    ensures
        r == vocabulary_id(*tokenizer, token@),
{
    tokenizer.get_vocab(true).get(token).copied()
}

/// Calls `char::is_alphanumeric`, which goes by the Unicode tables of the
/// standard library: a letter or a number of any script.
#[verifier::external_body]
pub(crate) fn is_alphanumeric(c: char) -> (r: bool)
    ensures
        r == alphanumeric(c),
{
    c.is_alphanumeric()
}

/// Whether a decoder of this kind, which is no sequence, can be handed any
/// token list.
pub fn kind_takes_any_tokens(kind: DecoderKind) -> (r: bool)
    ensures
        r == takes_any_tokens(kind),
{
    match kind {
        DecoderKind::Bpe => false,
        DecoderKind::Sequence => false,
        DecoderKind::Strip { start, stop } => stop == 0,
        _ => true,
    }
}

/// The kind of the decoder of the tokenizer, if it carries one.
pub fn decoder_kind_of(tokenizer: &Tokenizer) -> (r: Option<DecoderKind>)
    ensures
        r == (match decoder(*tokenizer) {
            Some(decoder) => Some(decoder_kind(decoder)),
            None => None,
        }),
{
    match decoder_of(tokenizer) {
        Some(decoder) => Some(kind_of(decoder)),
        None => None,
    }
}

/// Whether a decoder can be handed any token list, sequences looked into
/// no deeper than `depth`.
pub fn decoder_is_safe(decoder: &DecoderWrapper, depth: usize) -> (r: bool)
    ensures
        r == safe_decoder(*decoder, depth as nat),
    decreases depth,
{
    let kind = kind_of(decoder);
    match kind {
        DecoderKind::Sequence => {},
        _ => {
            return kind_takes_any_tokens(kind);
        },
    }
    if depth == 0 {
        return false;
    }
    let parts = parts_of(decoder);
    let mut i: usize = 0;
    while i < parts.len()
        invariant
            i <= parts.len(),
            depth > 0,
            decoder_kind(*decoder) == DecoderKind::Sequence,
            parts@ == decoder_parts(*decoder),
            forall|j: int| 0 <= j < i ==> safe_decoder(#[trigger] parts@[j], (depth - 1) as nat),
        decreases parts.len() - i,
    {
        if !decoder_is_safe(&parts[i], depth - 1) {
            assert(!safe_decoder(parts@[i as int], (depth - 1) as nat));
            return false;
        }
        i = i + 1;
    }
    true
}

/// Whether the decoder of the tokenizer can be handed any token list.
pub fn has_safe_decoder(tokenizer: &Tokenizer) -> (r: bool)
    ensures
        r == decodes_safely(*tokenizer),
{
    match decoder_of(tokenizer) {
        Some(decoder) => decoder_is_safe(decoder, DECODER_DEPTH),
        None => true,
    }
}

/// Whether each of the added tokens strips nothing.
fn all_strip_nothing(strips: &Vec<(bool, bool)>) -> (r: bool)
    ensures
        r == (forall|flags: (bool, bool)| strips@.contains(flags) ==> flags == (false, false)),
{
    let mut i: usize = 0;
    while i < strips.len()
        invariant
            i <= strips.len(),
            forall|j: int| 0 <= j < i ==> strips@[j] == (false, false),
        decreases strips.len() - i,
    {
        let (lstrip, rstrip) = strips[i];
        if lstrip || rstrip {
            assert(strips@.contains(strips@[i as int]));
            return false;
        }
        i = i + 1;
    }
    true
}

/// Why the tokenizer is not asked to encode, if it is not.
pub fn encode_refusal_of(tokenizer: &Tokenizer) -> (r: Option<EncodeRefusal>)
    ensures
        r == encode_refusal(*tokenizer),
        r is None <==> encodes_as_read(*tokenizer),
{
    if normalizer_present(tokenizer) {
        return Some(EncodeRefusal::Normalizer);
    }
    match pre_tokenizer_of(tokenizer) {
        Some(PreTokenizerKind::Other) => {
            return Some(EncodeRefusal::PreTokenizer);
        },
        _ => {},
    }
    let model = model_of(tokenizer);
    match model {
        ModelKind::WordLevel => {},
        _ => {
            return Some(EncodeRefusal::Model(model));
        },
    }
    if post_processor_present(tokenizer) {
        return Some(EncodeRefusal::PostProcessor);
    }
    match truncation_of(tokenizer) {
        Some((max_length, stride)) => {
            if max_length != 0 && stride >= max_length {
                return Some(EncodeRefusal::Truncation { max_length, stride });
            }
        },
        None => {},
    }
    if padding_present(tokenizer) {
        return Some(EncodeRefusal::Padding);
    }
    let strips = added_token_strips_of(tokenizer);
    if !all_strip_nothing(&strips) {
        return Some(EncodeRefusal::AddedTokens);
    }
    None
}

} // verus!
