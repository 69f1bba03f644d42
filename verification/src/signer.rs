//! What all block signers have in common.

use vstd::prelude::*;

use crate::local::LocalSignerError;
use crate::payload::{Address, PayloadHash};
use crate::remote::SignRequest;
use crate::signature::Signature;

verus! {

/// How far a signer gets on its own.
pub enum SignStep<'a> {
    /// The signer has signed, or failed to
    Signed(Result<Signature, LocalSignerError>),
    /// The signer's service is to be called, through the client of the request; its answer
    /// completes the call
    Call(SignRequest<'a>),
}

/// A trait that should be implemented by all block signers.
pub trait BlockSigner {
    /// What the signer does about a payload, a chain and a sender.
    spec fn signs(
        &self,
        payload_hash: PayloadHash,
        chain_id: u64,
        sender_address: Address,
        step: SignStep<'_>,
    ) -> bool;

    /// Signs a payload with the signer, as far as the signer gets on its own.
    fn sign_block(
        &self,
        payload_hash: PayloadHash,
        chain_id: u64,
        sender_address: Address,
    ) -> (step: SignStep<'_>)
        ensures
            self.signs(payload_hash, chain_id, sender_address, step),
    ;
}

} // verus!
