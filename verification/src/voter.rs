//! A voter: a secret key and the public key derived from it.

use vstd::prelude::*;
use crate::field::Digest;
use crate::hash::{derive_public_key, hash_fn, is_hash, public_key_of};

verus! {

/// A voter's key pair. Only the public key is ever placed in a census.
#[derive(Debug, Clone, Copy)]
pub struct Voter {
    pub sk: Digest,
    pub pk: Digest,
}

impl Voter {
    /// The voter who holds the secret key `sk`: the public key is the hash
    /// of the secret key followed by four zeros.
    pub fn new<H: Fn(Vec<u64>) -> Digest>(sk: Digest, hash: &H) -> (voter: Voter)
        requires
            is_hash(hash),
        ensures
            voter.sk@ == sk@,
            voter.pk@ == public_key_of(hash_fn(hash), sk@),
    {
        let pk = derive_public_key(hash, &sk);
        Voter { sk, pk }
    }
}

} // verus!
