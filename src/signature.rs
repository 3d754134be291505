use vstd::prelude::*;

verus! {

/// Whether `signature` is a valid ed25519 signature of `message` under
/// `public_key`, in the strict sense of ed25519-dalek's `verify_strict`.
pub uninterp spec fn ed25519_verify_strict(
    public_key: Seq<u8>,
    message: Seq<u8>,
    signature: Seq<u8>,
) -> bool;

/// Relies on ed25519_dalek::VerifyingKey::from_bytes and
/// VerifyingKey::verify_strict: the answer depends on the three byte strings alone.
/// A key that is no curve point verifies nothing.
#[verifier::external_body]
pub(crate) fn verify_ed25519(public_key: &[u8; 32], message: &Vec<u8>, signature: &[u8; 64]) -> (r: bool)
    ensures
        r == ed25519_verify_strict(public_key@, message@, signature@),
{
    match ed25519_dalek::VerifyingKey::from_bytes(public_key) {
        Ok(key) => key.verify_strict(
            message.as_slice(),
            &ed25519_dalek::Signature::from_bytes(signature),
        ).is_ok(),
        Err(_) => false,
    }
}

} // verus!
