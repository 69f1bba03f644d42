//! Signing with a private key that is at hand.

use alloy_signer::SignerSync;
use alloy_signer_local::PrivateKeySigner;
use vstd::prelude::*;

use crate::payload::{
    big_endian_value, keccak256, signature_message, signing_input, Address, PayloadHash,
};
use crate::signature::{Signature, SignatureModel};
use crate::signer::{BlockSigner, SignStep};

verus! {

/// The number of points of the curve secp256k1.
pub open spec fn curve_order() -> nat {
    0xffffffff_ffffffff_ffffffff_fffffffe_baaedce6_af48a03b_bfd25e8c_d0364141nat
}

/// The bytes are a private key: a number from one up to, but not including, the curve's order.
pub open spec fn is_private_key(bytes: Seq<u8>) -> bool {
    0 < big_endian_value(bytes) < curve_order()
}

/// The signature that `alloy_signer_local` computes for a hash with a private key: ECDSA on
/// secp256k1, with the nonce derived from key and hash after RFC 6979. The error is the text of the
/// refusal.
pub uninterp spec fn ecdsa_signature(key: Seq<u8>, hash: Seq<u8>) -> Result<
    SignatureModel,
    Seq<char>,
>;

/// `PrivateKeySigner::from_bytes`: it takes 32 bytes for a key where their number is neither zero
/// nor beyond the curve's order.
#[verifier::external_body]
fn makes_signer(bytes: &[u8; 32]) -> (accepted: bool)
    ensures
        accepted == is_private_key(bytes@),
{
    PrivateKeySigner::from_bytes(&alloy_primitives::B256::from(*bytes)).is_ok()
}

/// `SignerSync::sign_hash_sync`, of the `PrivateKeySigner` that the key's bytes make.
#[verifier::external_body]
fn sign_hash(key: &[u8; 32], hash: [u8; 32]) -> (res: Result<Signature, String>)
    ensures
        ecdsa_signature(key@, hash@) == (match res {
            Ok(signature) => Ok(signature@),
            Err(text) => Err(text@),
        }),
{
    let key = alloy_primitives::B256::from(*key);
    let signer = PrivateKeySigner::from_bytes(&key).map_err(|error| error.to_string())?;
    match signer.sign_hash_sync(&alloy_primitives::B256::from(hash)) {
        Ok(sig) => Ok(
            Signature {
                r: sig.r().to_be_bytes::<32>(),
                s: sig.s().to_be_bytes::<32>(),
                y_parity: sig.v(),
            },
        ),
        Err(error) => Err(error.to_string()),
    }
}

/// A private key on secp256k1
pub struct PrivateKey {
    bytes: [u8; 32],
}

impl View for PrivateKey {
    type V = Seq<u8>;

    closed spec fn view(&self) -> Seq<u8> {
        self.bytes@
    }
}

impl PrivateKey {
    /// The bytes are a private key.
    #[verifier::type_invariant]
    spec fn valid(self) -> bool {
        is_private_key(self.bytes@)
    }

    /// Takes 32 bytes for a private key, where they are one.
    pub fn from_bytes(bytes: [u8; 32]) -> (key: Option<PrivateKey>)
        ensures
            key is Some <==> is_private_key(bytes@),
            key matches Some(key) ==> key@ == bytes@,
    {
        if makes_signer(&bytes) {
            Some(PrivateKey { bytes })
        } else {
            None
        }
    }
}

/// Why a local signer could not sign
#[derive(Debug)]
pub struct LocalSignerError {
    /// What the error says
    pub message: String,
}

/// Local signer using a private key stored in memory
pub struct LocalSigner(PrivateKey);

impl View for LocalSigner {
    type V = Seq<u8>;

    closed spec fn view(&self) -> Seq<u8> {
        self.0@
    }
}

/// What a private key signs for a payload on a chain.
pub open spec fn block_signature(key: Seq<u8>, payload_hash: Seq<u8>, chain_id: u64) -> Result<
    SignatureModel,
    Seq<char>,
> {
    ecdsa_signature(key, keccak256(signing_input(payload_hash, chain_id)))
}

/// The model of what came of signing.
pub open spec fn signed(res: Result<Signature, LocalSignerError>) -> Result<
    SignatureModel,
    Seq<char>,
> {
    match res {
        Ok(signature) => Ok(signature@),
        Err(error) => Err(error.message@),
    }
}

/// Takes what came of signing a hash.
pub fn accept_signature(res: Result<Signature, String>) -> (accepted: Result<
    Signature,
    LocalSignerError,
>)
    ensures
        match res {
            Ok(signature) => accepted == Ok::<Signature, LocalSignerError>(signature),
            Err(message) => accepted == Err::<Signature, LocalSignerError>(
                LocalSignerError { message },
            ),
        },
{
    match res {
        Ok(signature) => Ok(signature),
        Err(message) => Err(LocalSignerError { message }),
    }
}

impl LocalSigner {
    /// Creates a new local signer from a private key.
    pub fn new(private_key: PrivateKey) -> (signer: LocalSigner)
        ensures
            signer@ == private_key@,
    {
        LocalSigner(private_key)
    }

    /// Signs a payload with the private key synchronously.
    pub fn sign_block_sync(&self, payload_hash: PayloadHash, chain_id: u64) -> (res: Result<
        Signature,
        LocalSignerError,
    >)
        ensures
            signed(res) == block_signature(self@, payload_hash.0@, chain_id),
    {
        accept_signature(sign_hash(&self.0.bytes, signature_message(payload_hash, chain_id)))
    }
}

impl Clone for LocalSigner {
    fn clone(&self) -> (res: Self)
        ensures
            res@ == self@,
    {
        proof {
            use_type_invariant(&self.0);
        }
        LocalSigner(PrivateKey { bytes: self.0.bytes })
    }
}

impl From<PrivateKey> for LocalSigner {
    fn from(private_key: PrivateKey) -> (signer: Self)
        ensures
            signer@ == private_key@,
    {
        LocalSigner(private_key)
    }
}

impl vstd::std_specs::convert::FromSpecImpl<PrivateKey> for LocalSigner {
    open spec fn obeys_from_spec() -> bool {
        true
    }

    closed spec fn from_spec(private_key: PrivateKey) -> Self {
        LocalSigner(private_key)
    }
}

impl BlockSigner for LocalSigner {
    /// The signer signs at once, whoever the sender.
    open spec fn signs(
        &self,
        payload_hash: PayloadHash,
        chain_id: u64,
        sender_address: Address,
        step: SignStep<'_>,
    ) -> bool {
        &&& step is Signed
        &&& signed(step->Signed_0) == block_signature(self@, payload_hash.0@, chain_id)
    }

    fn sign_block(
        &self,
        payload_hash: PayloadHash,
        chain_id: u64,
        sender_address: Address,
    ) -> (step: SignStep<'_>) {
        SignStep::Signed(self.sign_block_sync(payload_hash, chain_id))
    }
}

/// For a local signer the sender plays no part.
pub proof fn law_sender_plays_no_part(
    signer: LocalSigner,
    payload_hash: PayloadHash,
    chain_id: u64,
    sender1: Address,
    sender2: Address,
    step: SignStep<'_>,
)
    ensures
        signer.signs(payload_hash, chain_id, sender1, step) == signer.signs(
            payload_hash,
            chain_id,
            sender2,
            step,
        ),
{
}

} // verus!
