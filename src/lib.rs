//! Scheme tokens and protocol version tags for URI tooling.
//!
//! A scheme token is the protocol tag that starts a URI, such as the `http` of
//! `http://host/path`. It is either one of a few known protocols, held without
//! allocation, or any other valid scheme, held as bytes. Two parsers make them:
//! one validates a standalone scheme, the other scans the start of a URI.
//! Comparison and hashing ignore ASCII case and agree with each other.

mod chars;
mod error;
mod lemmas;
mod scheme;
mod shared;
mod token;
mod version;

pub use chars::{
    class_of, classify, eq_folded, eq_ignore_ascii_case, is_scheme_byte, lower_byte, lower_seq,
    to_lower, COLON,
};
pub use error::{ErrorKind, InvalidUri};
pub use lemmas::{
    lemma_equal_schemes_hash_alike, lemma_known_never_other, lemma_longest_scheme_accepted,
    lemma_lower_concat, lemma_protocol_round_trip, lemma_round_trip, lemma_scan_known_protocol,
    lemma_scan_other_scheme, lemma_text_matches_input, lemma_too_long_scheme_refused, separator,
};
pub use scheme::{
    all_scheme_bytes, exact_spec, known_protocol, scan_spec, scheme_run, starts_with_protocol,
    valid_token, Protocol, Scheme2, MAX_SCHEME_LEN, SLASH,
};
pub use shared::bytes_content;
pub use token::{
    hash_key_spec, protocol_tag, result_view, same_scheme, scheme_text, token_spec, valid_scheme,
    Scheme,
};
pub use version::{compare_ranks, version_text, Version};
