//! What signing comes to: laws on calls, stated over what goes in and what comes out.

use vstd::prelude::*;
use vstd::utf8::*;

use crate::error::{FromHexError, RemoteSignerError, SignatureError};
use crate::hexadecimal::{
    all_hex, hex_value, is_first_stray, is_hex, paired, strip_prefixes, without_prefixes,
};
use crate::http::SignerClient;
use crate::local::{
    accept_signature, ecdsa_signature, LocalSigner, LocalSignerError, PrivateKey,
};
use crate::payload::{
    big_endian, big_endian_value, keccak256, signing_input, Address, PayloadHash,
};
use crate::remote::{RemoteSigner, SignCall, SignRequest, SignResponse};
use crate::signature::{
    law_signature_read_back, notates, parse_signature, signature_outcome, Signature,
};
use crate::signer::{BlockSigner, SignStep};

verus! {

/// A text behind so many prefixes `0x`.
pub open spec fn prefixed(n: nat, rest: Seq<char>) -> Seq<char>
    decreases n,
{
    if n == 0 {
        rest
    } else {
        seq!['0', 'x'] + prefixed((n - 1) as nat, rest)
    }
}

/// The text has no prefix `0x`.
pub open spec fn bare(text: Seq<char>) -> bool {
    !(text.len() >= 2 && text[0] == '0' && text[1] == 'x')
}

/// Every text is some number of prefixes `0x` and then a bare text.
pub proof fn law_every_text_is_prefixed(text: Seq<char>) -> (res: (nat, Seq<char>))
    ensures
        text == prefixed(res.0, res.1),
        bare(res.1),
    decreases text.len(),
{
    if bare(text) {
        (0, text)
    } else {
        let (n, rest) = law_every_text_is_prefixed(text.skip(2));
        assert(text == seq!['0', 'x'] + text.skip(2));
        (n + 1, rest)
    }
}

proof fn lemma_prefixes_go(n: nat, rest: Seq<char>)
    requires
        bare(rest),
    ensures
        without_prefixes(prefixed(n, rest)) == rest,
    decreases n,
{
    if n > 0 {
        let inner = prefixed((n - 1) as nat, rest);
        lemma_prefixes_go((n - 1) as nat, rest);
        assert(prefixed(n, rest).skip(2) == inner);
    }
}

/// Cutting off prefixes leaves the bytes of the bare text, however many prefixes there were.
pub proof fn law_strip_prefixes(n: nat, rest: Seq<char>, text: &str, bytes: &[u8])
    requires
        bare(rest),
        text@ == prefixed(n, rest),
        call_ensures(strip_prefixes, (text,), bytes),
    ensures
        bytes@ == encode_utf8(rest),
{
    lemma_prefixes_go(n, rest);
}

/// The character is the hexadecimal digit of the number, in either case.
pub open spec fn is_digit_of(c: char, n: int) -> bool {
    if n < 10 {
        c as int == 0x30 + n
    } else {
        c as int == 0x41 + n - 10 || c as int == 0x61 + n - 10
    }
}

/// The text is the bytes in hexadecimal notation, two digits for each, the higher one first.
pub open spec fn writes(text: Seq<char>, bytes: Seq<u8>) -> bool {
    &&& text.len() == 2 * bytes.len()
    &&& forall|i: int|
        #![trigger bytes[i]]
        0 <= i < bytes.len() ==> is_digit_of(text[2 * i], bytes[i] as int / 16) && is_digit_of(
            text[2 * i + 1],
            bytes[i] as int % 16,
        )
}

proof fn lemma_digit(c: char, n: int)
    requires
        0 <= n < 16,
        is_digit_of(c, n),
    ensures
        '\0' <= c <= '\u{7f}',
        is_hex(c as u8),
        hex_value(c as u8) == n,
        c != 'x',
{
}

proof fn lemma_writes_notates(text: Seq<char>, bytes: Seq<u8>)
    requires
        writes(text, bytes),
    ensures
        notates(text, bytes),
        bytes.len() > 0 ==> bare(text),
{
    assert forall|i: int| 0 <= i < text.len() implies '\0' <= #[trigger] text[i] <= '\u{7f}'
        && is_hex(text[i] as u8) by {
        let b = bytes[i / 2];
        if i % 2 == 0 {
            assert(text[2 * (i / 2)] == text[i]);
            lemma_digit(text[i], b as int / 16);
        } else {
            assert(text[2 * (i / 2) + 1] == text[i]);
            lemma_digit(text[i], b as int % 16);
        }
    }
    assert forall|i: int| 0 <= i < bytes.len() implies #[trigger] bytes[i] == 16 * hex_value(
        text[2 * i] as u8,
    ) + hex_value(text[2 * i + 1] as u8) by {
        lemma_digit(text[2 * i], bytes[i] as int / 16);
        lemma_digit(text[2 * i + 1], bytes[i] as int % 16);
    }
    if bytes.len() > 0 {
        let b = bytes[0];
        assert(is_digit_of(text[2 * 0int + 1], b as int % 16));
        lemma_digit(text[1], b as int % 16);
    }
}

/// What reading 65 bytes as a signature comes to: the first 32 are `r`, the next 32 are `s`. The
/// last says the parity: 0 and 27 stand for even, 1 and 28 for odd; from 35 on, an odd number for
/// even and an even one for odd. Any other is refused, and named.
pub open spec fn reads_signature(
    bytes: Seq<u8>,
    res: Result<Signature, RemoteSignerError>,
) -> bool {
    let v = bytes[64];
    let even = v == 0 || v == 27 || (v >= 35 && v % 2 == 1);
    let odd = v == 1 || v == 28 || (v >= 35 && v % 2 == 0);
    if even || odd {
        &&& res is Ok
        &&& res->Ok_0.r@ == bytes.subrange(0, 32)
        &&& res->Ok_0.s@ == bytes.subrange(32, 64)
        &&& res->Ok_0.y_parity == odd
    } else {
        res matches Err(RemoteSignerError::SignatureError(SignatureError::InvalidParity(p))) && p
            == v
    }
}

proof fn lemma_outcome_of_written(n: nat, digits: Seq<char>, bytes: Seq<u8>)
    requires
        bytes.len() == 65,
        writes(digits, bytes),
    ensures
        signature_outcome(prefixed(n, digits)) == signature_outcome(digits),
{
    lemma_writes_notates(digits, bytes);
    lemma_prefixes_go(n, digits);
    lemma_prefixes_go(0, digits);
}

/// A text of prefixes and 65 bytes in hexadecimal notation is read as the signature that the bytes
/// are.
pub proof fn law_written_signature_is_read(
    n: nat,
    digits: Seq<char>,
    bytes: Seq<u8>,
    text: &str,
    res: Result<Signature, RemoteSignerError>,
)
    requires
        bytes.len() == 65,
        writes(digits, bytes),
        text@ == prefixed(n, digits),
        call_ensures(parse_signature, (text,), res),
    ensures
        reads_signature(bytes, res),
{
    lemma_writes_notates(digits, bytes);
    lemma_outcome_of_written(n, digits, bytes);
    law_signature_read_back(digits, bytes);
}

/// An answer of prefixes and 65 bytes in hexadecimal notation completes a call with the signature
/// that the bytes are.
pub proof fn law_written_answer_completes_a_call(
    call: SignCall,
    n: nat,
    digits: Seq<char>,
    bytes: Seq<u8>,
    response: SignResponse,
    res: Result<Signature, RemoteSignerError>,
)
    requires
        bytes.len() == 65,
        writes(digits, bytes),
        response.signature@ == prefixed(n, digits),
        call_ensures(SignCall::complete, (call, Ok::<SignResponse, String>(response)), res),
    ensures
        reads_signature(bytes, res),
{
    lemma_writes_notates(digits, bytes);
    lemma_outcome_of_written(n, digits, bytes);
    law_signature_read_back(digits, bytes);
}

/// The byte is a hexadecimal digit.
pub open spec fn is_hex_byte(b: u8) -> bool {
    ||| 0x30 <= b <= 0x39
    ||| 0x41 <= b <= 0x46
    ||| 0x61 <= b <= 0x66
}

/// The text was refused for its odd length.
pub open spec fn refused_for_length(res: Result<Signature, RemoteSignerError>) -> bool {
    res matches Err(RemoteSignerError::InvalidSignatureHex(FromHexError::OddLength))
}

/// The text was refused for this byte at this place.
pub open spec fn refused_for_byte(
    res: Result<Signature, RemoteSignerError>,
    b: u8,
    i: int,
) -> bool {
    res matches Err(
        RemoteSignerError::InvalidSignatureHex(FromHexError::InvalidHexCharacter { c, index }),
    ) && c as int == b && index == i
}

/// The text was refused for standing for so many bytes.
pub open spec fn refused_for_bytes(res: Result<Signature, RemoteSignerError>, n: int) -> bool {
    res matches Err(RemoteSignerError::InvalidSignatureLength(found)) && found == n
}

/// What reading the bytes of a bare text that is no signature comes to. An odd number of bytes is
/// refused first; then the first byte that is no digit, with its place; then any number of pairs
/// but 65, with that number.
pub open spec fn refuses_bytes(
    utf8: Seq<u8>,
    res: Result<Signature, RemoteSignerError>,
) -> bool {
    if utf8.len() % 2 == 1 {
        refused_for_length(res)
    } else {
        &&& forall|i: int|
            0 <= i < utf8.len() && !is_hex_byte(#[trigger] utf8[i]) && (forall|j: int|
                0 <= j < i ==> is_hex_byte(#[trigger] utf8[j])) ==> refused_for_byte(
                res,
                utf8[i],
                i,
            )
        &&& utf8.len() != 130 && (forall|j: int|
            0 <= j < utf8.len() ==> is_hex_byte(#[trigger] utf8[j])) ==> refused_for_bytes(
            res,
            utf8.len() as int / 2,
        )
    }
}

proof fn lemma_refused(rest: Seq<char>, res: Result<Signature, RemoteSignerError>)
    requires
        bare(rest),
        encode_utf8(rest).len() <= usize::MAX,
        signature_outcome(rest) == (match res {
            Ok(signature) => Ok(signature@),
            Err(error) => Err(error@),
        }),
    ensures
        refuses_bytes(encode_utf8(rest), res),
{
    let utf8 = encode_utf8(rest);
    assert(without_prefixes(rest) == rest);
    if utf8.len() % 2 == 0 {
        assert forall|i: int|
            0 <= i < utf8.len() && !is_hex_byte(#[trigger] utf8[i]) && (forall|j: int|
                0 <= j < i ==> is_hex_byte(#[trigger] utf8[j])) implies refused_for_byte(
            res,
            utf8[i],
            i,
        ) by {
            assert(!is_hex(utf8[i]));
            assert forall|j: int| 0 <= j < i implies is_hex(#[trigger] utf8[j]) by {
                assert(is_hex_byte(utf8[j]));
            }
            assert(is_first_stray(utf8, i));
            let k = choose|k: int| is_first_stray(utf8, k);
            assert(is_first_stray(utf8, k));
            if k < i {
                assert(is_hex_byte(utf8[k]));
            }
            assert(k == i);
        }
        if forall|j: int| 0 <= j < utf8.len() ==> is_hex_byte(#[trigger] utf8[j]) {
            assert forall|j: int| 0 <= j < utf8.len() implies is_hex(#[trigger] utf8[j]) by {
                assert(is_hex_byte(utf8[j]));
            }
            assert(all_hex(utf8));
            assert(paired(utf8).len() == utf8.len() / 2);
        }
    }
}

/// A text that is no signature is refused for what is wrong with it.
pub proof fn law_other_text_is_refused(
    n: nat,
    rest: Seq<char>,
    text: &str,
    res: Result<Signature, RemoteSignerError>,
)
    requires
        bare(rest),
        encode_utf8(rest).len() <= usize::MAX,
        text@ == prefixed(n, rest),
        call_ensures(parse_signature, (text,), res),
    ensures
        refuses_bytes(encode_utf8(rest), res),
{
    lemma_prefixes_go(n, rest);
    lemma_prefixes_go(0, rest);
    lemma_refused(rest, res);
}

/// An answer that is no signature fails a call for what is wrong with it.
pub proof fn law_other_answer_fails_a_call(
    call: SignCall,
    n: nat,
    rest: Seq<char>,
    response: SignResponse,
    res: Result<Signature, RemoteSignerError>,
)
    requires
        bare(rest),
        encode_utf8(rest).len() <= usize::MAX,
        response.signature@ == prefixed(n, rest),
        call_ensures(SignCall::complete, (call, Ok::<SignResponse, String>(response)), res),
    ensures
        refuses_bytes(encode_utf8(rest), res),
{
    lemma_prefixes_go(n, rest);
    lemma_prefixes_go(0, rest);
    lemma_refused(rest, res);
}

/// Without an answer a call fails with the text of that failure.
pub proof fn law_failed_call_says_why(
    call: SignCall,
    e: String,
    res: Result<Signature, RemoteSignerError>,
)
    requires
        call_ensures(SignCall::complete, (call, Err::<SignResponse, String>(e)), res),
    ensures
        res matches Err(RemoteSignerError::SigningRPCError(text)) && text@ == e@,
{
}

/// The 96 bytes that are hashed and signed for a payload on a chain: 32 zeros, the chain in the
/// last 8 of another 32, highest byte first, and the payload's hash.
pub open spec fn is_block_input(input: Seq<u8>, payload_hash: Seq<u8>, chain_id: u64) -> bool {
    &&& input.len() == 96
    &&& forall|i: int| 0 <= i < 56 ==> #[trigger] input[i] == 0
    &&& input[56] == chain_id / 0x100_0000_0000_0000
    &&& input[57] == chain_id / 0x1_0000_0000_0000 % 0x100
    &&& input[58] == chain_id / 0x100_0000_0000 % 0x100
    &&& input[59] == chain_id / 0x1_0000_0000 % 0x100
    &&& input[60] == chain_id / 0x100_0000 % 0x100
    &&& input[61] == chain_id / 0x1_0000 % 0x100
    &&& input[62] == chain_id / 0x100 % 0x100
    &&& input[63] == chain_id % 0x100
    &&& input.subrange(64, 96) == payload_hash
}

proof fn lemma_zeros(len: nat)
    ensures
        big_endian(0, len) == Seq::new(len, |i: int| 0u8),
    decreases len,
{
    if len > 0 {
        lemma_zeros((len - 1) as nat);
        assert(big_endian(0, len) =~= Seq::new(len, |i: int| 0u8));
    }
}

proof fn lemma_block_input(input: Seq<u8>, payload_hash: Seq<u8>, chain_id: u64)
    requires
        is_block_input(input, payload_hash, chain_id),
    ensures
        signing_input(payload_hash, chain_id) == input,
{
    let n = chain_id as nat;
    reveal_with_fuel(big_endian, 9);
    lemma_zeros(24);
    let n1 = n / 256;
    let n2 = n1 / 256;
    let n3 = n2 / 256;
    let n4 = n3 / 256;
    let n5 = n4 / 256;
    let n6 = n5 / 256;
    let n7 = n6 / 256;
    assert(n7 / 256 == 0);
    let chain = big_endian(n, 32);
    assert(chain == big_endian(0, 24).push(n7 as u8).push((n6 % 256) as u8).push(
        (n5 % 256) as u8,
    ).push((n4 % 256) as u8).push((n3 % 256) as u8).push((n2 % 256) as u8).push(
        (n1 % 256) as u8,
    ).push((n % 256) as u8));
    assert(input.subrange(32, 64) =~= chain);
    assert(input =~= input.subrange(0, 32) + input.subrange(32, 64) + input.subrange(64, 96));
    assert(input.subrange(0, 32) =~= Seq::new(32, |i: int| 0u8));
}

/// What a private key's signing of bytes comes to, in a result: the signature over their Keccak-256
/// hash, or the text of the refusal.
pub open spec fn signs_bytes(
    key: Seq<u8>,
    input: Seq<u8>,
    res: Result<Signature, LocalSignerError>,
) -> bool {
    match ecdsa_signature(key, keccak256(input)) {
        Ok(signature) => {
            &&& res is Ok
            &&& res->Ok_0.r@ == signature.r
            &&& res->Ok_0.s@ == signature.s
            &&& res->Ok_0.y_parity == signature.y_parity
        },
        Err(text) => res matches Err(error) && error.message@ == text,
    }
}

/// A local signer signs the 96 bytes of payload and chain, for every chain.
pub proof fn law_local_signer_signs_block_input(
    signer: &LocalSigner,
    payload_hash: PayloadHash,
    chain_id: u64,
    input: Seq<u8>,
    res: Result<Signature, LocalSignerError>,
)
    requires
        is_block_input(input, payload_hash.0@, chain_id),
        call_ensures(LocalSigner::sign_block_sync, (signer, payload_hash, chain_id), res),
    ensures
        signs_bytes(signer@, input, res),
{
    lemma_block_input(input, payload_hash.0@, chain_id);
}

/// As a block signer, a local signer signs the same 96 bytes at once, whoever the sender.
pub proof fn law_local_block_signer_signs_block_input(
    signer: &LocalSigner,
    payload_hash: PayloadHash,
    chain_id: u64,
    sender_address: Address,
    input: Seq<u8>,
    step: SignStep<'_>,
)
    requires
        is_block_input(input, payload_hash.0@, chain_id),
        call_ensures(
            <LocalSigner as BlockSigner>::sign_block,
            (signer, payload_hash, chain_id, sender_address),
            step,
        ),
    ensures
        step matches SignStep::Signed(res) && signs_bytes(signer@, input, res),
{
    lemma_block_input(input, payload_hash.0@, chain_id);
}

/// As a block signer and by itself, a local signer gives the same signature.
pub proof fn law_local_signer_signs_alike(
    signer: &LocalSigner,
    payload_hash: PayloadHash,
    chain_id: u64,
    sender_address: Address,
    step: SignStep<'_>,
    signature: Signature,
)
    requires
        call_ensures(
            <LocalSigner as BlockSigner>::sign_block,
            (signer, payload_hash, chain_id, sender_address),
            step,
        ),
        call_ensures(
            LocalSigner::sign_block_sync,
            (signer, payload_hash, chain_id),
            Ok::<Signature, LocalSignerError>(signature),
        ),
    ensures
        step matches SignStep::Signed(Ok(same)) && same.r@ == signature.r@ && same.s@
            == signature.s@ && same.y_parity == signature.y_parity,
{
}

/// What came of signing a hash is taken as it is, or its text is passed on.
pub proof fn law_signature_is_taken(
    signature: Signature,
    e: String,
    taken: Result<Signature, LocalSignerError>,
    failed: Result<Signature, LocalSignerError>,
)
    requires
        call_ensures(accept_signature, (Ok::<_, String>(signature),), taken),
        call_ensures(accept_signature, (Err::<Signature, _>(e),), failed),
    ensures
        taken matches Ok(same) && same == signature,
        failed matches Err(error) && error.message@ == e@,
{
}

/// Bytes are taken for a private key, as they are, where their number is neither zero nor as large
/// as the order of secp256k1.
pub proof fn law_private_keys_lie_below_the_order(bytes: [u8; 32], key: Option<PrivateKey>)
    requires
        call_ensures(PrivateKey::from_bytes, (bytes,), key),
    ensures
        key is Some <==> 0 < big_endian_value(bytes@)
            < 0xffffffff_ffffffff_ffffffff_fffffffe_baaedce6_af48a03b_bfd25e8c_d0364141nat,
        key matches Some(key) ==> key@ == bytes@,
{
}

/// A local signer has the key that it was made of, and so has its clone.
pub proof fn law_local_signer_has_its_key(
    key: PrivateKey,
    made: LocalSigner,
    converted: LocalSigner,
    cloned: LocalSigner,
)
    requires
        call_ensures(LocalSigner::new, (key,), made),
        call_ensures(<LocalSigner as From<PrivateKey>>::from, (key,), converted),
        call_ensures(<LocalSigner as Clone>::clone, (&made,), cloned),
    ensures
        made@ == key@,
        converted@ == key@,
        cloned@ == key@,
{
}

/// The request is one for this payload, chain and sender, in the zero domain.
pub open spec fn is_request_for(
    request: SignRequest<'_>,
    payload_hash: PayloadHash,
    chain_id: u64,
    sender_address: Address,
) -> bool {
    let params = request.call.params;
    &&& forall|i: int| 0 <= i < 32 ==> #[trigger] params.domain@[i] == 0
    &&& params.chain_id == chain_id
    &&& params.payload_hash@ == payload_hash.0@
    &&& params.sender_address.0@ == sender_address.0@
}

/// A remote signer asks for just what it was asked for, and through its own client.
pub proof fn law_remote_signer_asks_for_the_block(
    signer: &RemoteSigner,
    payload_hash: PayloadHash,
    chain_id: u64,
    sender_address: Address,
    client: &SignerClient,
    request: SignRequest<'_>,
)
    requires
        call_ensures(RemoteSigner::client, (signer,), client),
        call_ensures(
            RemoteSigner::sign_block_v1,
            (signer, payload_hash, chain_id, sender_address),
            request,
        ),
    ensures
        is_request_for(request, payload_hash, chain_id, sender_address),
        *request.client == *client,
{
}

/// As a block signer, a remote signer asks for the same, through the same client.
pub proof fn law_remote_block_signer_asks_for_the_block(
    signer: &RemoteSigner,
    payload_hash: PayloadHash,
    chain_id: u64,
    sender_address: Address,
    client: &SignerClient,
    step: SignStep<'_>,
)
    requires
        call_ensures(RemoteSigner::client, (signer,), client),
        call_ensures(
            <RemoteSigner as BlockSigner>::sign_block,
            (signer, payload_hash, chain_id, sender_address),
            step,
        ),
    ensures
        step matches SignStep::Call(request) && is_request_for(
            request,
            payload_hash,
            chain_id,
            sender_address,
        ) && *request.client == *client,
{
}

/// Two requests that differ in anything that was asked for differ in their parameters.
pub proof fn law_requests_tell_apart_what_is_asked_for(
    signer: &RemoteSigner,
    hash1: PayloadHash,
    chain1: u64,
    sender1: Address,
    request1: SignRequest<'_>,
    hash2: PayloadHash,
    chain2: u64,
    sender2: Address,
    request2: SignRequest<'_>,
)
    requires
        call_ensures(RemoteSigner::sign_block_v1, (signer, hash1, chain1, sender1), request1),
        call_ensures(RemoteSigner::sign_block_v1, (signer, hash2, chain2, sender2), request2),
        request1.call.params == request2.call.params,
    ensures
        hash1.0@ == hash2.0@,
        chain1 == chain2,
        sender1.0@ == sender2.0@,
{
}

/// The service is called by this method, whatever the call.
pub proof fn law_method_of_a_call(call: &SignCall, method: &'static str)
    requires
        call_ensures(SignCall::method, (call,), method),
    ensures
        method@ == "opsigner_signBlockPayload"@,
{
}

} // verus!
