//! Validity of token identifiers, as the chain defines it: an upper-case
//! alphanumeric ticker of 3 to 10 characters, a dash, and 6 lower-case
//! alphanumeric random characters.
use vstd::prelude::*;

verus! {

/// An upper-case ASCII letter or an ASCII digit.
pub open spec fn is_ticker_char(c: u8) -> bool {
    (65 <= c <= 90) || (48 <= c <= 57)
}

/// A lower-case ASCII letter or an ASCII digit.
pub open spec fn is_random_char(c: u8) -> bool {
    (97 <= c <= 122) || (48 <= c <= 57)
}

/// `id` is `TICKER-random`: 10 to 17 bytes long, the ticker made of
/// upper-case letters and digits, a dash (byte 45) before the last 6 bytes,
/// and those 6 bytes lower-case letters and digits.
pub open spec fn is_valid_token_identifier(id: Seq<u8>) -> bool {
    let n = id.len() as int;
    &&& 10 <= n <= 17
    &&& forall|i: int| 0 <= i < n - 7 ==> #[trigger] is_ticker_char(id[i])
    &&& id[n - 7] == 45
    &&& forall|i: int| n - 6 <= i < n ==> #[trigger] is_random_char(id[i])
}

/// Calls `dharitri_sc::chain_core::token_identifier_util::validate_token_identifier`
/// on the bytes of `id`. Its source checks the length against 10 and 17, each
/// ticker byte against `A..=Z` and `0..=9`, the dash after the ticker, and each
/// of the last 6 bytes against `a..=z` and `0..=9`; the contract states exactly
/// that.
#[verifier::external_body]
pub(crate) fn validate_token_identifier(id: &Vec<u8>) -> (r: bool)
    ensures
        r == is_valid_token_identifier(id@),
{
    dharitri_sc::chain_core::token_identifier_util::validate_token_identifier(id.as_slice())
}

} // verus!
