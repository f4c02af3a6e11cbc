//! Service digests.

use crate::protocol::ProtocolDigest;
use sha2::{Digest, Sha256};
use vstd::prelude::*;

verus! {

/// The SHA-256 digest of `data`, as computed by the `sha2` crate.
pub uninterp spec fn sha256_digest(data: Seq<u8>) -> Seq<u8>;

/// `sha2::Sha256::new().chain_update(data).finalize()`, converted to an
/// array: the SHA-256 digest of `data`. Its contract says only that the
/// result is the digest of exactly these bytes; what SHA-256 computes is not
/// stated.
#[verifier::external_body]
pub fn digest(data: &[u8]) -> (d: ProtocolDigest)
    ensures
        d@ == sha256_digest(data@),
{
    let d = Sha256::new().chain_update(data).finalize();
    d.into()
}

} // verus!
