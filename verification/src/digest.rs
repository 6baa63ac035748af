//! The content-hash primitive of the ledger: SHA-256 over a string of
//! characters, reported as lowercase hex. The digest itself comes from the
//! `sha2` crate; the library only names its result and never restates the
//! algorithm.

use sha2::Digest;
use sha2::Sha256;
use vstd::prelude::*;

verus! {

/// The SHA-256 digest of a character string, written as lowercase hex.
/// The digest is a pure function of its input, so it is given a name here
/// rather than a definition; everything the library proves about hashes
/// goes through this name.
pub uninterp spec fn sha256_hex(s: Seq<char>) -> Seq<char>;

/// Relies on `sha2::Sha256` (the `digest` crate's `Digest` interface):
/// `update` absorbs the input bytes, `finalize` returns the 32-byte digest,
/// and `{:x}` formats it as 64 lowercase hex characters (two per byte).
/// The digest depends on the input characters alone.
#[verifier::external_body]
pub fn sha256_hex_of(s: &str) -> (r: String)
    ensures
        r@ == sha256_hex(s@),
        r@.len() == 64,
{
    let mut hasher = Sha256::new();
    hasher.update(s.as_bytes());
    format!("{:x}", hasher.finalize())
}

} // verus!
