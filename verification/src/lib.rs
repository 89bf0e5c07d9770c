//! The decode controller of a text-completion service: sampling policy choice,
//! end-of-sequence detection, incremental detokenization and the bookkeeping
//! of the generation loop, with the request and response records of the
//! service around it.

pub mod binary64;
pub mod sampling;
pub mod eos;
pub mod tokenizer;
pub mod output_stream;
pub mod stream_proofs;
pub mod decode_state;
pub mod generator;
pub mod generation_proofs;
pub mod http_entities;
pub mod models;
pub mod http_service;
pub mod weight_map;
