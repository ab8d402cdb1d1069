//! What the ledger takes from the Soroban host: its environment handle and
//! the SHA-256 digest it computes.
use vstd::prelude::*;
use soroban_sdk::Env;

verus! {

/// The Soroban environment handle, carried through to the host calls.
#[verifier::external_type_specification]
#[verifier::external_body]
pub struct ExEnv(soroban_sdk::Env);

/// The SHA-256 digest of a byte string, as the Soroban host computes it.
pub uninterp spec fn sha256_digest(data: Seq<u8>) -> Seq<u8>;

/// Calls `soroban_sdk::crypto::Crypto::sha256` on a copy of `data` made with
/// `soroban_sdk::Bytes::from_slice`. Trusted to return the 32-byte digest,
/// which depends on the bytes alone; nothing more is claimed of its value.
#[verifier::external_body]
pub(crate) fn sha256(env: &Env, data: &[u8]) -> (digest: [u8; 32])
    ensures
        digest@ == sha256_digest(data@),
{
    env.crypto().sha256(&soroban_sdk::Bytes::from_slice(env, data)).to_array()
}

} // verus!
