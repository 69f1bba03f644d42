//! What is signed: a payload's hash on a chain.

use vstd::prelude::*;

verus! {

/// The hash of a block's payload
#[derive(Debug, Clone, Copy, PartialEq, Eq)]
pub struct PayloadHash(pub [u8; 32]);

/// The address of an account
#[derive(Debug, Clone, Copy, PartialEq, Eq)]
pub struct Address(pub [u8; 20]);

/// Request parameters for signing a block payload
#[derive(Debug, Clone, Copy, PartialEq, Eq)]
pub struct BlockPayloadArgs {
    /// The signing domain
    pub domain: [u8; 32],
    /// The chain that the block is for
    pub chain_id: u64,
    /// The hash of the block's payload
    pub payload_hash: [u8; 32],
    /// The address of the account that the signature is asked of
    pub sender_address: Address,
}

/// A number in big-endian notation, in as many bytes as asked for.
pub open spec fn big_endian(n: nat, len: nat) -> Seq<u8>
    decreases len,
{
    if len == 0 {
        seq![]
    } else {
        big_endian(n / 256, (len - 1) as nat).push((n % 256) as u8)
    }
}

/// The number that bytes stand for in big-endian notation.
pub open spec fn big_endian_value(bytes: Seq<u8>) -> nat
    decreases bytes.len(),
{
    if bytes.len() == 0 {
        0
    } else {
        big_endian_value(bytes.drop_last()) * 256 + bytes.last() as nat
    }
}

/// The domain of the signatures of blocks.
pub open spec fn block_domain() -> Seq<u8> {
    Seq::new(32, |i: int| 0u8)
}

/// What is hashed and then signed for a payload on a chain: the domain, the chain, the payload's
/// hash, in 32 bytes each.
pub open spec fn signing_input(payload_hash: Seq<u8>, chain_id: u64) -> Seq<u8> {
    block_domain() + big_endian(chain_id as nat, 32) + payload_hash
}

/// The Keccak-256 hash of bytes, as `alloy_primitives::keccak256` computes it.
pub uninterp spec fn keccak256(bytes: Seq<u8>) -> Seq<u8>;

/// `op_alloy_rpc_types_engine::PayloadHash::signature_message`: the Keccak-256 hash of the zero
/// domain, the chain and the payload's hash.
#[verifier::external_body]
pub(crate) fn signature_message(payload_hash: PayloadHash, chain_id: u64) -> (message: [u8; 32])
    ensures
        message@ == keccak256(signing_input(payload_hash.0@, chain_id)),
{
    op_alloy_rpc_types_engine::PayloadHash(payload_hash.0.into()).signature_message(chain_id).0
}

/// A number takes no more than so many bytes.
spec fn takes(n: nat, len: nat) -> bool
    decreases len,
{
    if len == 0 {
        n == 0
    } else {
        takes(n / 256, (len - 1) as nat)
    }
}

proof fn lemma_big_endian(n: nat, len: nat)
    ensures
        big_endian(n, len).len() == len,
        takes(n, len) ==> big_endian_value(big_endian(n, len)) == n,
    decreases len,
{
    if len > 0 {
        lemma_big_endian(n / 256, (len - 1) as nat);
        assert(big_endian(n, len).drop_last() == big_endian(n / 256, (len - 1) as nat));
    }
}

/// Different payloads, or payloads on different chains, give different signing inputs: a signature
/// for one chain is none for another.
pub proof fn law_signing_input_tells_payloads_and_chains_apart(
    hash1: Seq<u8>,
    chain1: u64,
    hash2: Seq<u8>,
    chain2: u64,
)
    requires
        hash1.len() == 32,
        hash2.len() == 32,
        signing_input(hash1, chain1) == signing_input(hash2, chain2),
    ensures
        hash1 == hash2,
        chain1 == chain2,
{
    let in1 = signing_input(hash1, chain1);
    let in2 = signing_input(hash2, chain2);
    lemma_big_endian(chain1 as nat, 32);
    lemma_big_endian(chain2 as nat, 32);
    assert(in1.subrange(32, 64) == big_endian(chain1 as nat, 32));
    assert(in2.subrange(32, 64) == big_endian(chain2 as nat, 32));
    assert(in1.subrange(64, 96) == hash1);
    assert(in2.subrange(64, 96) == hash2);
    assert(takes(chain1 as nat, 32) && takes(chain2 as nat, 32)) by {
        reveal_with_fuel(takes, 33);
    }
}

} // verus!
