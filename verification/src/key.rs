//! Public keys, which the library holds as text.

use vstd::prelude::*;

verus! {

/// Whether `text` is a public key: the hexadecimal form, 66 characters
/// long, of a point of the curve secp256k1 in its compressed encoding.
pub uninterp spec fn public_key_hex(text: Seq<char>) -> bool;

/// Calls `cashu::PublicKey::from_hex` and says whether it accepted the
/// text. Believed: the answer is a function of the text alone.
#[verifier::external_body]
pub(crate) fn is_public_key(text: &str) -> (valid: bool)
    ensures
        valid == public_key_hex(text@),
{
    cashu::PublicKey::from_hex(text).is_ok()
}

} // verus!
