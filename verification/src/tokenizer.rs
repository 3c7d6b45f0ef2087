//! Counting the tokens that a language model sees in a text.

use vstd::prelude::*;

verus! {

/// The number of tokens of a text in the `cl100k_base` encoding, special
/// tokens counted as one each; `None` for a text that the encoder gives up
/// on.
pub uninterp spec fn token_count(text: Seq<char>) -> Option<usize>;

/// Estimates how many tokens a text costs.
///
/// Calls `CoreBPE::encode` of `tiktoken_rs` on the shared `cl100k_base`
/// encoder, which is built once from data that comes with `tiktoken_rs`,
/// with every special token allowed. Trusted: the answer depends on the text
/// alone. It is the length of the encoding, or `None` where the encoder
/// reports an error instead of an encoding.
#[verifier::external_body]
pub fn get_token_estimate(text: &str) -> (estimate: Option<usize>)
    ensures
        estimate == token_count(text@),
{
    let encoder = tiktoken_rs::cl100k_base_singleton();
    match encoder.encode(text, &encoder.special_tokens()) {
        Ok((tokens, _)) => Some(tokens.len()),
        Err(_) => None,
    }
}

} // verus!
