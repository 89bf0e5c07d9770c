use std::str::FromStr;
use synap_forge_llm::output_stream::{
    gated_fragment, rest_fragment, stable_fragment, DetokenizeError, TokenOutputStream,
    UnsafeDecoder,
};
use synap_forge_llm::tokenizer::{
    decoder_kind_of, encode_refusal_of, has_safe_decoder, kind_takes_any_tokens, DecoderKind,
    EncodeRefusal, ModelKind,
};
use tokenizers::Tokenizer;

const WORDS: &str = r#"{"version":"1.0","truncation":null,"padding":null,
 "added_tokens":[{"id":3,"content":"</s>","single_word":false,"lstrip":false,"rstrip":false,"normalized":false,"special":true}],
 "normalizer":null,"pre_tokenizer":{"type":"Whitespace"},"post_processor":null,"decoder":null,
 "model":{"type":"WordLevel","vocab":{"hello":0,"world":1,"!":2,"</s>":3,"the":4,"sky":5,"is":6,"blue":7,"<unk>":8,"The":9},"unk_token":"<unk>"}}"#;

const BYTES: &str = r#"{"version":"1.0","truncation":null,"padding":null,"added_tokens":[],
 "normalizer":null,"pre_tokenizer":null,"post_processor":null,"decoder":{"type":"ByteFallback"},
 "model":{"type":"WordLevel","vocab":{"a":0,"<0xC3>":1,"<0xA9>":2,"b":3,"<unk>":4},"unk_token":"<unk>"}}"#;

fn with_decoder(decoder: &str) -> Tokenizer {
    let json = format!(
        r#"{{"version":"1.0","truncation":null,"padding":null,"added_tokens":[],
 "normalizer":null,"pre_tokenizer":null,"post_processor":null,"decoder":{decoder},
 "model":{{"type":"WordLevel","vocab":{{"a":0,"b":1,"<unk>":2}},"unk_token":"<unk>"}}}}"#
    );
    Tokenizer::from_str(&json).unwrap()
}

fn stream(json: &str) -> TokenOutputStream {
    TokenOutputStream::new(Tokenizer::from_str(json).unwrap()).unwrap()
}

#[test]
fn first_word_is_handed_out_at_once() {
    let mut s = stream(WORDS);
    assert_eq!(s.next_token(0).unwrap(), Some("hello".to_string()));
}

#[test]
fn later_words_come_with_their_blank() {
    let mut s = stream(WORDS);
    assert_eq!(s.next_token(0).unwrap(), Some("hello".to_string()));
    assert_eq!(s.next_token(1).unwrap(), Some(" world".to_string()));
    assert_eq!(s.next_token(5).unwrap(), Some(" sky".to_string()));
}

#[test]
fn punctuation_is_held_back() {
    let mut s = stream(WORDS);
    assert_eq!(s.next_token(0).unwrap(), Some("hello".to_string()));
    assert_eq!(s.next_token(2).unwrap(), None);
    assert_eq!(s.decode_rest().unwrap(), Some(" !".to_string()));
}

#[test]
fn held_back_text_comes_with_the_next_word() {
    let mut s = stream(WORDS);
    assert_eq!(s.next_token(0).unwrap(), Some("hello".to_string()));
    assert_eq!(s.next_token(2).unwrap(), None);
    assert_eq!(s.next_token(1).unwrap(), Some(" ! world".to_string()));
    assert_eq!(s.decode_rest().unwrap(), None);
}

#[test]
fn leading_punctuation_is_not_lost() {
    let mut s = stream(WORDS);
    assert_eq!(s.next_token(2).unwrap(), None);
    assert_eq!(s.next_token(0).unwrap(), Some("! hello".to_string()));
    assert_eq!(s.decode_all().unwrap(), "! hello");
}

#[test]
fn decode_rest_leaves_the_stream_alone() {
    let mut s = stream(WORDS);
    s.next_token(0).unwrap();
    s.next_token(2).unwrap();
    assert_eq!(s.decode_rest().unwrap(), Some(" !".to_string()));
    assert_eq!(s.decode_rest().unwrap(), Some(" !".to_string()));
    assert_eq!(s.decode_all().unwrap(), "hello !");
}

#[test]
fn empty_stream_has_nothing_to_hand_out() {
    let s = stream(WORDS);
    assert_eq!(s.decode_rest().unwrap(), None);
    assert_eq!(s.decode_all().unwrap(), "");
}

#[test]
fn fragments_and_rest_add_up_to_the_whole_text() {
    let mut s = stream(WORDS);
    let mut text = String::new();
    for token in [9u32, 5, 6, 7, 2, 0, 2, 2, 1] {
        if let Some(fragment) = s.next_token(token).unwrap() {
            text.push_str(&fragment);
        }
    }
    if let Some(rest) = s.decode_rest().unwrap() {
        text.push_str(&rest);
    }
    assert_eq!(text, "The sky is blue ! hello ! ! world");
    assert_eq!(text, s.decode_all().unwrap());
}

#[test]
fn special_tokens_are_skipped() {
    let mut s = stream(WORDS);
    assert_eq!(s.next_token(0).unwrap(), Some("hello".to_string()));
    assert_eq!(s.next_token(3).unwrap(), None);
    assert_eq!(s.decode_all().unwrap(), "hello");
    assert_eq!(s.next_token(1).unwrap(), Some(" world".to_string()));
}

#[test]
fn unknown_ids_decode_to_nothing() {
    let mut s = stream(WORDS);
    assert_eq!(s.next_token(4000).unwrap(), None);
    assert_eq!(s.decode_rest().unwrap(), None);
    assert_eq!(s.decode_all().unwrap(), "");
}

#[test]
fn half_a_character_is_held_back() {
    let mut s = stream(BYTES);
    assert_eq!(s.next_token(0).unwrap(), Some("a".to_string()));
    // the first byte of a two-byte character decodes to a replacement mark
    assert_eq!(s.next_token(1).unwrap(), None);
    assert_eq!(s.next_token(2).unwrap(), Some("\u{e9}".to_string()));
    assert_eq!(s.next_token(3).unwrap(), Some("b".to_string()));
    assert_eq!(s.decode_all().unwrap(), "a\u{e9}b");
}

#[test]
fn half_a_character_at_the_end_is_flushed_as_it_decodes() {
    let mut s = stream(BYTES);
    assert_eq!(s.next_token(0).unwrap(), Some("a".to_string()));
    assert_eq!(s.next_token(1).unwrap(), None);
    assert_eq!(s.decode_rest().unwrap(), Some("\u{fffd}".to_string()));
}

#[test]
fn text_that_does_not_continue_the_last_is_an_error() {
    let mut s = stream(BYTES);
    assert_eq!(s.next_token(0).unwrap(), Some("a".to_string()));
    assert_eq!(s.next_token(1).unwrap(), None);
    assert_eq!(s.next_token(2).unwrap(), Some("\u{e9}".to_string()));
    // a stray second byte turns the two bytes before it into marks of three
    // bytes each: the cut behind the two bytes handed out falls into one
    assert_eq!(s.next_token(2).unwrap(), None);
    assert_eq!(s.next_token(3), Err(DetokenizeError::Misaligned));
    assert_eq!(s.decode_rest(), Err(DetokenizeError::Misaligned));
    assert_eq!(s.decode_all().unwrap(), "a\u{fffd}\u{fffd}\u{fffd}b");
}

#[test]
fn decoders_that_take_any_token_list_are_accepted() {
    for decoder in [
        "null",
        r#"{"type":"ByteLevel","add_prefix_space":true,"trim_offsets":true,"use_regex":true}"#,
        r#"{"type":"WordPiece","prefix":"+","cleanup":true}"#,
        r#"{"type":"Metaspace","replacement":"_","prepend_scheme":"always","split":true}"#,
        r#"{"type":"CTC","pad_token":"<pad>","word_delimiter_token":"|","cleanup":true}"#,
        r#"{"type":"Replace","pattern":{"String":"a"},"content":"b"}"#,
        r#"{"type":"Fuse"}"#,
        r#"{"type":"ByteFallback"}"#,
        r#"{"type":"Strip","content":" ","start":1,"stop":0}"#,
        r#"{"type":"Sequence","decoders":[]}"#,
        r#"{"type":"Sequence","decoders":[{"type":"Sequence","decoders":[{"type":"Fuse"}]}]}"#,
        r#"{"type":"Sequence","decoders":[{"type":"Replace","pattern":{"String":"_"},"content":" "},
            {"type":"ByteFallback"},{"type":"Fuse"},{"type":"Strip","content":" ","start":1,"stop":0}]}"#,
    ] {
        let tokenizer = with_decoder(decoder);
        assert!(has_safe_decoder(&tokenizer), "{decoder}");
        let mut s = TokenOutputStream::new(tokenizer).unwrap();
        // equal markers make the stream decode an empty span
        assert_eq!(s.decode_rest(), Ok(None), "{decoder}");
        s.next_token(7).unwrap();
        s.next_token(0).unwrap();
        s.next_token(1).unwrap();
        s.decode_rest().unwrap();
        s.decode_all().unwrap();
    }
}

#[test]
fn decoders_that_index_into_their_tokens_are_refused() {
    let refused = [
        (r#"{"type":"BPEDecoder","suffix":"</w>"}"#, DecoderKind::Bpe),
        (
            r#"{"type":"Strip","content":" ","start":1,"stop":1}"#,
            DecoderKind::Strip { start: 1, stop: 1 },
        ),
        (
            r#"{"type":"Strip","content":" ","start":0,"stop":3}"#,
            DecoderKind::Strip { start: 0, stop: 3 },
        ),
        (
            r#"{"type":"Sequence","decoders":[{"type":"Fuse"},{"type":"BPEDecoder","suffix":"</w>"}]}"#,
            DecoderKind::Sequence,
        ),
        (
            r#"{"type":"Sequence","decoders":[{"type":"Strip","content":" ","start":0,"stop":1},{"type":"Fuse"}]}"#,
            DecoderKind::Sequence,
        ),
    ];
    for (decoder, kind) in refused {
        let tokenizer = with_decoder(decoder);
        assert!(!has_safe_decoder(&tokenizer), "{decoder}");
        match TokenOutputStream::new(tokenizer) {
            Err(e) => assert_eq!(e, UnsafeDecoder { kind }),
            Ok(_) => panic!("accepted {decoder}"),
        }
    }
}

#[test]
fn sequence_of_decoders_serves_a_stream() {
    let tokenizer = with_decoder(
        r#"{"type":"Sequence","decoders":[{"type":"Fuse"},{"type":"Replace","pattern":{"String":"ab"},"content":"\u00e9"}]}"#,
    );
    let mut s = TokenOutputStream::new(tokenizer).unwrap();
    assert_eq!(s.next_token(0).unwrap(), Some("a".to_string()));
    // "a" and "b" fuse into one character of two bytes
    assert_eq!(s.next_token(1), Err(DetokenizeError::Misaligned));
    assert_eq!(s.decode_all().unwrap(), "\u{e9}");
}

#[test]
fn decoder_kind_is_read_off_the_tokenizer() {
    assert_eq!(decoder_kind_of(&with_decoder("null")), None);
    assert_eq!(decoder_kind_of(&with_decoder(r#"{"type":"Fuse"}"#)), Some(DecoderKind::Fuse));
    assert_eq!(
        decoder_kind_of(&with_decoder(r#"{"type":"Strip","content":"x","start":2,"stop":7}"#)),
        Some(DecoderKind::Strip { start: 2, stop: 7 })
    );
    assert!(kind_takes_any_tokens(DecoderKind::Strip { start: 9, stop: 0 }));
    assert!(!kind_takes_any_tokens(DecoderKind::Strip { start: 0, stop: 1 }));
    assert!(!kind_takes_any_tokens(DecoderKind::Bpe));
    assert!(!kind_takes_any_tokens(DecoderKind::Sequence));
    assert!(kind_takes_any_tokens(DecoderKind::ByteLevel));
}

#[test]
fn tokenizer_that_was_read_through_is_asked_to_encode() {
    assert_eq!(encode_refusal_of(&Tokenizer::from_str(WORDS).unwrap()), None);
    assert_eq!(encode_refusal_of(&Tokenizer::from_str(BYTES).unwrap()), None);
    let split = WORDS.replace(r#"{"type":"Whitespace"}"#, r#"{"type":"WhitespaceSplit"}"#);
    assert_eq!(encode_refusal_of(&Tokenizer::from_str(&split).unwrap()), None);
}

fn refusal_of(from: &str, to: &str) -> Option<EncodeRefusal> {
    assert!(WORDS.contains(from));
    encode_refusal_of(&Tokenizer::from_str(&WORDS.replace(from, to)).unwrap())
}

#[test]
fn truncation_is_admitted_where_its_stride_is_below_its_length() {
    let unsafe_stride = r#""truncation":{"direction":"Right","max_length":2,"strategy":"LongestFirst","stride":5}"#;
    assert_eq!(
        refusal_of(r#""truncation":null"#, unsafe_stride),
        Some(EncodeRefusal::Truncation { max_length: 2, stride: 5 })
    );
    let equal = r#""truncation":{"direction":"Left","max_length":3,"strategy":"OnlyFirst","stride":3}"#;
    assert_eq!(
        refusal_of(r#""truncation":null"#, equal),
        Some(EncodeRefusal::Truncation { max_length: 3, stride: 3 })
    );
    let below = r#""truncation":{"direction":"Right","max_length":2,"strategy":"LongestFirst","stride":1}"#;
    assert_eq!(refusal_of(r#""truncation":null"#, below), None);
    let nothing = r#""truncation":{"direction":"Right","max_length":0,"strategy":"LongestFirst","stride":7}"#;
    assert_eq!(refusal_of(r#""truncation":null"#, nothing), None);
}

#[test]
fn padding_is_refused() {
    let fixed = r#""padding":{"strategy":{"Fixed":8},"direction":"Right","pad_to_multiple_of":null,"pad_id":0,"pad_type_id":0,"pad_token":"hello"}"#;
    assert_eq!(refusal_of(r#""padding":null"#, fixed), Some(EncodeRefusal::Padding));
    let longest = r#""padding":{"strategy":"BatchLongest","direction":"Right","pad_to_multiple_of":null,"pad_id":0,"pad_type_id":0,"pad_token":"hello"}"#;
    assert_eq!(refusal_of(r#""padding":null"#, longest), Some(EncodeRefusal::Padding));
}

#[test]
fn parts_that_were_not_read_through_are_refused() {
    assert_eq!(
        refusal_of(r#""normalizer":null"#, r#""normalizer":{"type":"Lowercase"}"#),
        Some(EncodeRefusal::Normalizer)
    );
    assert_eq!(
        refusal_of(
            r#"{"type":"Whitespace"}"#,
            r#"{"type":"ByteLevel","add_prefix_space":false,"trim_offsets":true,"use_regex":true}"#
        ),
        Some(EncodeRefusal::PreTokenizer)
    );
    assert_eq!(
        refusal_of(
            r#""post_processor":null"#,
            r#""post_processor":{"type":"ByteLevel","add_prefix_space":false,"trim_offsets":true,"use_regex":true}"#
        ),
        Some(EncodeRefusal::PostProcessor)
    );
    assert_eq!(
        refusal_of(r#""lstrip":false,"rstrip":false"#, r#""lstrip":false,"rstrip":true"#),
        Some(EncodeRefusal::AddedTokens)
    );
    assert_eq!(
        refusal_of(r#""lstrip":false,"rstrip":false"#, r#""lstrip":true,"rstrip":false"#),
        Some(EncodeRefusal::AddedTokens)
    );
}

#[test]
fn models_other_than_word_level_are_refused() {
    let bpe = r#"{"version":"1.0","truncation":null,"padding":null,"added_tokens":[],
 "normalizer":null,"pre_tokenizer":null,"post_processor":null,"decoder":null,
 "model":{"type":"BPE","dropout":null,"unk_token":null,"continuing_subword_prefix":null,
 "end_of_word_suffix":null,"fuse_unk":false,"byte_fallback":false,"vocab":{"a":0,"b":1,"ab":2},"merges":["a b"]}}"#;
    assert_eq!(
        encode_refusal_of(&Tokenizer::from_str(bpe).unwrap()),
        Some(EncodeRefusal::Model(ModelKind::Bpe))
    );
    let word_piece = r#"{"version":"1.0","truncation":null,"padding":null,"added_tokens":[],
 "normalizer":null,"pre_tokenizer":null,"post_processor":null,"decoder":null,
 "model":{"type":"WordPiece","unk_token":"[UNK]","continuing_subword_prefix":"+","max_input_chars_per_word":100,"vocab":{"[UNK]":0,"a":1}}}"#;
    assert_eq!(
        encode_refusal_of(&Tokenizer::from_str(word_piece).unwrap()),
        Some(EncodeRefusal::Model(ModelKind::WordPiece))
    );
}

#[test]
fn first_reason_is_the_one_told() {
    let json = WORDS
        .replace(r#""normalizer":null"#, r#""normalizer":{"type":"Lowercase"}"#)
        .replace(
            r#""padding":null"#,
            r#""padding":{"strategy":{"Fixed":8},"direction":"Right","pad_to_multiple_of":null,"pad_id":0,"pad_type_id":0,"pad_token":"hello"}"#,
        );
    assert_eq!(
        encode_refusal_of(&Tokenizer::from_str(&json).unwrap()),
        Some(EncodeRefusal::Normalizer)
    );
}

#[test]
fn nested_sequences_of_decoders_are_looked_into() {
    let mut decoder = r#"{"type":"Fuse"}"#.to_string();
    for depth in 1..=10 {
        decoder = format!(r#"{{"type":"Sequence","decoders":[{decoder}]}}"#);
        assert_eq!(has_safe_decoder(&with_decoder(&decoder)), depth <= 8, "depth {depth}");
    }
    let hidden = r#"{"type":"Sequence","decoders":[{"type":"Fuse"},
        {"type":"Sequence","decoders":[{"type":"Sequence","decoders":[{"type":"BPEDecoder","suffix":"</w>"}]}]}]}"#;
    assert!(!has_safe_decoder(&with_decoder(hidden)));
}

#[test]
fn clear_empties_the_history() {
    let mut s = stream(WORDS);
    s.next_token(0).unwrap();
    s.next_token(2).unwrap();
    s.clear();
    assert_eq!(s.decode_all().unwrap(), "");
    assert_eq!(s.decode_rest().unwrap(), None);
    assert_eq!(s.next_token(1).unwrap(), Some("world".to_string()));
}

#[test]
fn get_token_looks_the_vocabulary_up() {
    let s = stream(WORDS);
    assert_eq!(s.get_token("sky"), Some(5));
    assert_eq!(s.get_token("</s>"), Some(3));
    assert_eq!(s.get_token("sea"), None);
}

#[test]
fn tokenizer_is_lent_and_given_back() {
    let s = stream(WORDS);
    assert_eq!(s.tokenizer().token_to_id("blue"), Some(7));
    let tokenizer = s.into_inner();
    assert_eq!(tokenizer.decode(&[4, 5], true).unwrap(), "the sky");
}

#[test]
fn rest_fragment_is_what_the_text_has_grown_by() {
    assert_eq!(rest_fragment("", "blue"), Ok(Some("blue".to_string())));
    assert_eq!(rest_fragment("The sky", "The sky is"), Ok(Some(" is".to_string())));
    assert_eq!(rest_fragment("sky", "sky !"), Ok(Some(" !".to_string())));
    assert_eq!(rest_fragment("na\u{ef}", "na\u{ef}ve"), Ok(Some("ve".to_string())));
    assert_eq!(rest_fragment("a", "a\u{1f600}"), Ok(Some("\u{1f600}".to_string())));
}

#[test]
fn rest_fragment_of_a_text_that_has_not_grown_is_nothing() {
    assert_eq!(rest_fragment("", ""), Ok(None));
    assert_eq!(rest_fragment("blue", "blue"), Ok(None));
    assert_eq!(rest_fragment("blue", "red"), Ok(None));
    // two bytes against two bytes
    assert_eq!(rest_fragment("ab", "\u{e9}"), Ok(None));
}

#[test]
fn rest_fragment_is_cut_by_bytes_not_by_content() {
    assert_eq!(rest_fragment("xyz", "The sky"), Ok(Some(" sky".to_string())));
}

#[test]
fn a_cut_inside_a_character_is_an_error() {
    assert_eq!(rest_fragment("a", "\u{e9}b"), Err(DetokenizeError::Misaligned));
    assert_eq!(stable_fragment("a", "\u{e9}b"), Err(DetokenizeError::Misaligned));
    assert_eq!(rest_fragment("ab", "\u{20ac}"), Err(DetokenizeError::Misaligned));
}

#[test]
fn gate_decides_whether_grown_text_is_handed_out() {
    assert_eq!(gated_fragment("sky", "sky !", true), Ok(Some(" !".to_string())));
    assert_eq!(gated_fragment("sky", "sky is", false), Ok(None));
    assert_eq!(gated_fragment("sky", "sky is", true), Ok(Some(" is".to_string())));
    assert_eq!(gated_fragment("sky", "sky", true), Ok(None));
    assert_eq!(gated_fragment("sky is", "sky", true), Ok(None));
    assert_eq!(gated_fragment("a", "\u{e9}b", true), Err(DetokenizeError::Misaligned));
    assert_eq!(gated_fragment("a", "\u{e9}b", false), Ok(None));
}

#[test]
fn stable_fragment_needs_an_alphanumeric_tail() {
    assert_eq!(stable_fragment("", "blue"), Ok(Some("blue".to_string())));
    assert_eq!(stable_fragment("sky", "sky is 7"), Ok(Some(" is 7".to_string())));
    assert_eq!(stable_fragment("sky", "sky \u{e9}"), Ok(Some(" \u{e9}".to_string())));
    assert_eq!(stable_fragment("sky", "sky !"), Ok(None));
    assert_eq!(stable_fragment("sky", "sky "), Ok(None));
    assert_eq!(stable_fragment("sky", "sky\u{fffd}"), Ok(None));
    assert_eq!(stable_fragment("sky", "sky"), Ok(None));
    assert_eq!(stable_fragment("", ""), Ok(None));
    // a cut that would fall into a character goes unnoticed while the tail
    // is no letter or digit
    assert_eq!(stable_fragment("a", "\u{e9}!"), Ok(None));
}
