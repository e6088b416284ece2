//! The cryptographic primitives the signer rests on: Keccak-256 from
//! `alloy_primitives` and secp256k1 keys and signatures from
//! `alloy_signer_local`.
use vstd::prelude::*;
use alloy_signer::SignerSync;

verus! {

/// The Keccak-256 digest of a byte string, as `alloy_primitives::keccak256` computes it.
pub uninterp spec fn keccak256_digest(data: Seq<u8>) -> Seq<u8>;

/// The 32-byte secret key that `PrivateKeySigner`'s `FromStr` reads from
/// hexadecimal text (an optional `0x` prefix, then 64 hex digits), or
/// nothing where the text is no hex encoding of 32 bytes or the bytes are
/// no valid secp256k1 secret scalar.
pub uninterp spec fn private_key_of_hex(text: Seq<char>) -> Option<Seq<u8>>;

/// The 20-byte Ethereum address of a secret key (the last 20 bytes of the
/// Keccak-256 digest of its uncompressed public key).
pub uninterp spec fn address_of_key(key: Seq<u8>) -> Seq<u8>;

/// The 20 bytes that `Address`'s `FromStr` reads from hexadecimal text (an
/// optional `0x` prefix, then 40 hex digits in either case), or nothing
/// where the text is no hex encoding of 20 bytes.
pub uninterp spec fn address_of_hex(text: Seq<char>) -> Option<Seq<u8>>;

/// The recoverable ECDSA signature (r, s, y-parity) that a
/// `PrivateKeySigner` made from `key` gives on the 32-byte `digest`, or
/// nothing where the key bytes are no valid secret or signing fails.
/// Signing is deterministic (RFC 6979 nonces).
pub uninterp spec fn ecdsa_sign(key: Seq<u8>, digest: Seq<u8>) -> Option<(Seq<u8>, Seq<u8>, bool)>;

/// `alloy_primitives::keccak256`: the result is the digest of the input
/// bytes, a function of them alone.
#[verifier::external_body]
pub(crate) fn keccak256(data: &[u8]) -> (h: [u8; 32])
    ensures
        h@ == keccak256_digest(data@),
{
    alloy_primitives::keccak256(data).0
}

/// `<PrivateKeySigner as FromStr>::from_str`, then the signer's secret
/// bytes (`to_bytes`) and its address (`address`). The contract claims
/// that the result is `None` exactly where the named parse fails, and
/// that otherwise it holds the parsed key and that key's address.
#[verifier::external_body]
pub(crate) fn parse_private_key(text: &str) -> (r: Option<([u8; 32], [u8; 20])>)
    ensures
        match r {
            Some((key, address)) => private_key_of_hex(text@) == Some(key@) && address@
                == address_of_key(key@),
            None => private_key_of_hex(text@) is None,
        },
{
    match text.parse::<alloy_signer_local::PrivateKeySigner>() {
        Ok(signer) => Some((signer.to_bytes().0, signer.address().0.0)),
        Err(_) => None,
    }
}

/// `<alloy_primitives::Address as FromStr>::from_str`, with the address
/// taken as its 20 bytes. The contract claims that the result is the named
/// parse of the text.
#[verifier::external_body]
pub(crate) fn parse_address(text: &str) -> (r: Option<[u8; 20]>)
    ensures
        match r {
            Some(a) => address_of_hex(text@) == Some(a@),
            None => address_of_hex(text@) is None,
        },
{
    match text.parse::<alloy_primitives::Address>() {
        Ok(address) => Some(address.0.0),
        Err(_) => None,
    }
}

/// `PrivateKeySigner::from_bytes` on `key`, then `SignerSync::sign_hash_sync`
/// on `digest`, with the signature taken apart into its big-endian `r` and
/// `s` words and its y-parity. The contract claims that the outcome is the
/// named signature of the key on the digest.
#[verifier::external_body]
pub(crate) fn sign_digest(key: &[u8; 32], digest: &[u8; 32]) -> (r: Option<([u8; 32], [u8; 32], bool)>)
    ensures
        match r {
            Some((sr, ss, y)) => ecdsa_sign(key@, digest@) == Some((sr@, ss@, y)),
            None => ecdsa_sign(key@, digest@) is None,
        },
{
    let signer = alloy_signer_local::PrivateKeySigner::from_bytes(&alloy_primitives::B256::new(*key)).ok()?;
    let sig = signer.sign_hash_sync(&alloy_primitives::B256::new(*digest)).ok()?;
    Some((sig.r().to_be_bytes::<32>(), sig.s().to_be_bytes::<32>(), sig.v()))
}

} // verus!
