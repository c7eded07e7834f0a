//! Per-user salts.

use rand::rngs::OsRng;
use rand::RngCore;
use vstd::prelude::*;

verus! {

/// Draws a fresh 16-byte salt from the operating system's random source,
/// through `OsRng::fill_bytes` of rand. Nothing is known of the bytes
/// beyond their number, and two calls need not agree. Where the system
/// cannot supply entropy the call panics and does not return.
#[verifier::external_body]
pub fn generate_salt() -> (salt: [u8; 16]) {
    let mut salt = [0u8; 16];
    OsRng.fill_bytes(&mut salt);
    salt
}

} // verus!
