use alloy_primitives::{keccak256, B256};
use alloy_signer::SignerSync;
use alloy_signer_local::PrivateKeySigner;
use block_signer::local::accept_signature;
use block_signer::{Address, BlockSigner, LocalSigner, PayloadHash, PrivateKey, SignStep, Signature};

/// The order of the curve secp256k1.
fn order() -> [u8; 32] {
    let mut bytes = [0xffu8; 32];
    bytes[15] = 0xfe;
    bytes[16..].copy_from_slice(&0xbaaedce6_af48a03b_bfd25e8c_d0364141u128.to_be_bytes());
    bytes
}

fn key(n: u8) -> [u8; 32] {
    let mut bytes = [0u8; 32];
    bytes[31] = n;
    bytes[3] = n;
    bytes
}

fn signer(n: u8) -> LocalSigner {
    LocalSigner::new(PrivateKey::from_bytes(key(n)).unwrap())
}

fn parts(signature: &alloy_primitives::Signature) -> Signature {
    Signature {
        r: signature.r().to_be_bytes::<32>(),
        s: signature.s().to_be_bytes::<32>(),
        y_parity: signature.v(),
    }
}

#[test]
fn private_keys_lie_below_the_order() {
    let mut one = [0u8; 32];
    one[31] = 1;
    let mut below = order();
    below[31] -= 1;
    let mut above = order();
    above[31] += 1;
    assert!(PrivateKey::from_bytes(one).is_some());
    assert!(PrivateKey::from_bytes(below).is_some());
    assert!(PrivateKey::from_bytes([0; 32]).is_none());
    assert!(PrivateKey::from_bytes(order()).is_none());
    assert!(PrivateKey::from_bytes(above).is_none());
    assert!(PrivateKey::from_bytes([0xff; 32]).is_none());
}

#[test]
fn local_signature_is_over_domain_chain_and_hash() {
    let chain_id: u64 = 10;
    let hash = [0x5a; 32];
    let mut input = vec![0u8; 32];
    input.extend_from_slice(&[0u8; 24]);
    input.extend_from_slice(&chain_id.to_be_bytes());
    input.extend_from_slice(&hash);
    let message = keccak256(&input);

    let signed = signer(9).sign_block_sync(PayloadHash(hash), chain_id).unwrap();
    let outside = PrivateKeySigner::from_bytes(&B256::from(key(9))).unwrap();
    let expected = outside.sign_hash_sync(&message).unwrap();
    assert_eq!(signed, parts(&expected));
    assert_eq!(expected.recover_address_from_prehash(&message).unwrap(), outside.address());
}

#[test]
fn local_signature_has_a_fixed_value() {
    let mut one = [0u8; 32];
    one[31] = 1;
    let signer = LocalSigner::new(PrivateKey::from_bytes(one).unwrap());
    let signed = signer.sign_block_sync(PayloadHash([0; 32]), 10).unwrap();
    // Deterministic ECDSA over the Keccak-256 hash of 96 bytes, all zero but for the chain.
    assert_eq!(
        hex::encode(signed.r),
        "7e7195ad67060d960d6eb03767b062bdc37eab78d9636681ab6a3620d150d14b"
    );
    assert_eq!(
        hex::encode(signed.s),
        "4e52f0de74557030797426162d42d12c08a783cded0cc0827d74bd6e4625aa45"
    );
    assert!(!signed.y_parity);
}

#[test]
fn chain_hash_and_key_tell_signatures_apart() {
    let base = signer(1).sign_block_sync(PayloadHash([1; 32]), 1).unwrap();
    assert_eq!(signer(1).sign_block_sync(PayloadHash([1; 32]), 1).unwrap(), base);
    assert_ne!(signer(1).sign_block_sync(PayloadHash([1; 32]), 2).unwrap(), base);
    assert_ne!(signer(1).sign_block_sync(PayloadHash([2; 32]), 1).unwrap(), base);
    assert_ne!(signer(2).sign_block_sync(PayloadHash([1; 32]), 1).unwrap(), base);
    assert!(signer(1).sign_block_sync(PayloadHash([1; 32]), u64::MAX).is_ok());
}

#[test]
fn sender_plays_no_part_for_a_local_signer() {
    let expected = signer(3).sign_block_sync(PayloadHash([7; 32]), 8453).unwrap();
    for sender in [Address([0; 20]), Address([0xee; 20])] {
        match signer(3).sign_block(PayloadHash([7; 32]), 8453, sender) {
            SignStep::Signed(Ok(signature)) => assert_eq!(signature, expected),
            _ => panic!("a local signer signs at once"),
        }
    }
}

#[test]
fn local_signer_from_key_and_clone_sign_alike() {
    let signer = signer(4);
    let from = LocalSigner::from(PrivateKey::from_bytes(key(4)).unwrap());
    let expected = signer.sign_block_sync(PayloadHash([4; 32]), 4).unwrap();
    assert_eq!(from.sign_block_sync(PayloadHash([4; 32]), 4).unwrap(), expected);
    assert_eq!(signer.clone().sign_block_sync(PayloadHash([4; 32]), 4).unwrap(), expected);
}

#[test]
fn refusal_to_sign_is_passed_on() {
    let signature = Signature { r: [1; 32], s: [2; 32], y_parity: true };
    assert_eq!(accept_signature(Ok(signature)).unwrap(), signature);
    let error = accept_signature(Err(String::from("no"))).unwrap_err();
    assert_eq!(error.message, "no");
}
