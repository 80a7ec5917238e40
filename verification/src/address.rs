//! SS58 text addresses of account keys.

use sp_core::crypto::{AccountId32, Ss58AddressFormat, Ss58Codec};
use vstd::prelude::*;

verus! {

/// The generic Substrate address format, which `sp_core` uses by default.
pub const SUBSTRATE_SS58_FORMAT: u16 = 42;

/// The SS58 text of `key` in address format `format`: the format's prefix,
/// the key and a two-byte checksum, written in base58.
pub uninterp spec fn ss58_address(key: Seq<u8>, format: u16) -> Seq<char>;

/// Whether `c` is in the base58 alphabet (digits and letters without `0`,
/// `I`, `O` and `l`).
pub open spec fn is_base58_char(c: char) -> bool {
    ||| ('1' <= c && c <= '9')
    ||| ('A' <= c && c <= 'Z' && c != 'I' && c != 'O')
    ||| ('a' <= c && c <= 'z' && c != 'l')
}

/// Calls `sp_core::crypto::Ss58Codec::to_ss58check_with_version` on the
/// account identifier made of `key`. The contract names the result
/// [`ss58_address`] of the key and the format, and claims that every character
/// is in the base58 alphabet (the source ends in `bs58::encode`, whose default
/// alphabet is Bitcoin's). How the text is computed is not stated.
#[verifier::external_body]
pub(crate) fn ss58_encode(key: &[u8; 32], format: u16) -> (text: String)
    ensures
        text@ == ss58_address(key@, format),
        forall|i: int| 0 <= i < text@.len() ==> is_base58_char(#[trigger] text@[i]),
{
    AccountId32::new(*key).to_ss58check_with_version(Ss58AddressFormat::custom(format))
}

} // verus!
