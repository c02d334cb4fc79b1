use vstd::prelude::*;

verus! {

/// Whether `signature` is a valid ECDSA/secp256k1 signature of the 32-byte
/// digest `message_hash` under `public_key`.
pub uninterp spec fn secp256k1_valid(message_hash: Seq<u8>, signature: Seq<u8>, public_key: Seq<u8>) -> bool;

/// Relies on secret_cosmwasm_crypto::secp256k1_verify. It returns `Ok(true)` for
/// a valid signature, `Ok(false)` for an invalid one, and an error when the digest
/// is not 32 bytes, the signature not 64 bytes, or the key not a SEC1 encoding;
/// an error counts as a failed check. The result depends on the three byte
/// strings alone.
#[verifier::external_body]
fn secp256k1_verify(message_hash: &[u8], signature: &[u8], public_key: &[u8]) -> (r: bool)
    ensures
        r == secp256k1_valid(message_hash@, signature@, public_key@),
        r ==> message_hash@.len() == 32 && signature@.len() == 64 && pubkey_format_ok(
            public_key@,
        ),
{
    match secret_cosmwasm_crypto::secp256k1_verify(message_hash, signature, public_key) {
        Ok(valid) => valid,
        Err(_) => false,
    }
}

/// A secp256k1 public key in SEC1 form: 33 bytes led by 0x02 or 0x03
/// (compressed), or 65 bytes led by 0x04 (uncompressed).
pub open spec fn pubkey_format_ok(key: Seq<u8>) -> bool {
    ||| key.len() == 33 && (key[0] == 0x02 || key[0] == 0x03)
    ||| key.len() == 65 && key[0] == 0x04
}

/// Checks the shape of a secp256k1 public key.
pub fn check_pubkey_format(key: &[u8]) -> (r: bool)
    ensures
        r == pubkey_format_ok(key@),
{
    let n = key.len();
    if n == 33 {
        key[0] == 0x02 || key[0] == 0x03
    } else if n == 65 {
        key[0] == 0x04
    } else {
        false
    }
}

/// Checks that `signature` signs `message_hash` under the gateway's key.
pub fn verify_signature(message_hash: &Vec<u8>, signature: &Vec<u8>, public_key: &Vec<u8>) -> (r:
    bool)
    ensures
        r == secp256k1_valid(message_hash@, signature@, public_key@),
{
    secp256k1_verify(message_hash.as_slice(), signature.as_slice(), public_key.as_slice())
}

} // verus!
