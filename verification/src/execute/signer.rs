//! EIP-712 signing for Hyperliquid L1 actions.
//!
//!   1. action_hash = keccak256(msgpack(action) || nonce (8 bytes, big-endian) || vault_marker)
//!      where vault_marker is 0x00 if no vault, else 0x01 || vault_address_bytes.
//!
//!   2. Wrap in EIP-712 with
//!        domain  = { name: "Exchange", version: "1", chainId: 1337, verifyingContract: 0x0 }
//!        struct  = Agent { source: string, connectionId: bytes32 }
//!        source  = "a" on mainnet, "b" on testnet
//!        connectionId = action_hash
//!
//!   3. Sign the EIP-712 hash with the agent wallet's secp256k1 key and
//!      submit { r, s, v } alongside the action itself.
use vstd::prelude::*;
use vstd::utf8::encode_utf8;
use crate::json::Json;
use crate::msgpack::{msgpack_encode, msgpack_named};
use crate::crypto::{
    address_of_key, ecdsa_sign, keccak256, keccak256_digest, parse_private_key, private_key_of_hex,
    sign_digest,
};

verus! {

/// Why a signature could not be made.
#[derive(Debug, Clone, Copy, PartialEq, Eq, Structural)]
pub enum SignError {
    /// The key text is no valid secp256k1 secret key in hex.
    InvalidKey,
    /// The signer refused the digest.
    SigningFailed,
    /// The action could not be encoded in MessagePack (only where memory
    /// runs out).
    EncodingFailed,
}

/// An ECDSA signature in the form the exchange takes: `v` is 27 or 28.
#[derive(Debug, Clone, Copy)]
pub struct SignatureRsv {
    pub r: [u8; 32],
    pub s: [u8; 32],
    pub v: u8,
}

pub struct SignatureView {
    pub r: Seq<u8>,
    pub s: Seq<u8>,
    pub v: u8,
}

impl View for SignatureRsv {
    type V = SignatureView;

    open spec fn view(&self) -> SignatureView {
        SignatureView { r: self.r@, s: self.s@, v: self.v }
    }
}

/// The exchange's form of a raw signature: y-parity 1 gives v = 28, 0 gives 27.
pub open spec fn rsv_of(raw: Option<(Seq<u8>, Seq<u8>, bool)>) -> Option<SignatureView> {
    match raw {
        Some((r, s, y)) => Some(SignatureView { r, s, v: if y { 28u8 } else { 27u8 } }),
        None => None,
    }
}

/// Arbitrum chain id for user-signed actions: Arbitrum One (42161 = 0xa4b1)
/// on mainnet, Arbitrum Sepolia (421614 = 0x66eee) on testnet.
pub fn user_signed_chain_id(is_mainnet: bool) -> (id: u64)
    ensures
        id == (if is_mainnet { 42161u64 } else { 421614u64 }),
{
    if is_mainnet {
        42161
    } else {
        421614
    }
}

/// Big-endian bytes of a 64-bit integer.
pub open spec fn u64_be(n: u64) -> Seq<u8> {
    seq![
        ((n >> 56u64) & 0xff) as u8,
        ((n >> 48u64) & 0xff) as u8,
        ((n >> 40u64) & 0xff) as u8,
        ((n >> 32u64) & 0xff) as u8,
        ((n >> 24u64) & 0xff) as u8,
        ((n >> 16u64) & 0xff) as u8,
        ((n >> 8u64) & 0xff) as u8,
        (n & 0xff) as u8,
    ]
}

/// The integer that eight big-endian bytes spell.
pub open spec fn u64_of_be(b: Seq<u8>) -> u64 {
    ((b[0] as u64) << 56u64) | ((b[1] as u64) << 48u64) | ((b[2] as u64) << 40u64) | ((
    b[3] as u64) << 32u64) | ((b[4] as u64) << 24u64) | ((b[5] as u64) << 16u64) | ((
    b[6] as u64) << 8u64) | (b[7] as u64)
}

/// `n` as a 32-byte ABI word: 24 zero bytes, then its big-endian bytes.
pub open spec fn word_of_u64(n: u64) -> Seq<u8> {
    Seq::new(24, |_i: int| 0u8) + u64_be(n)
}

/// An address as a 32-byte ABI word: 12 zero bytes, then the address.
pub open spec fn word_of_address(a: Seq<u8>) -> Seq<u8> {
    Seq::new(12, |_i: int| 0u8) + a
}

/// Keccak-256 of the UTF-8 bytes of a text.
pub open spec fn text_hash(s: Seq<char>) -> Seq<u8> {
    keccak256_digest(encode_utf8(s))
}

pub open spec fn domain_type() -> Seq<char> {
    "EIP712Domain(string name,string version,uint256 chainId,address verifyingContract)"@
}

/// The EIP-712 domain separator of { name, version, chainId, verifyingContract }.
pub open spec fn domain_separator(
    name: Seq<char>,
    version: Seq<char>,
    chain_id: u64,
    contract: Seq<u8>,
) -> Seq<u8> {
    keccak256_digest(
        text_hash(domain_type()) + text_hash(name) + text_hash(version) + word_of_u64(chain_id)
            + word_of_address(contract),
    )
}

/// The bytes whose digest is the action hash.
pub open spec fn action_preimage(action: Seq<u8>, nonce: u64, vault: Option<Seq<u8>>) -> Seq<u8> {
    action + u64_be(nonce) + match vault {
        None => seq![0u8],
        Some(a) => seq![1u8] + a,
    }
}

/// The EIP-712 signing digest: keccak256(0x19 0x01 || domain separator || struct hash).
pub open spec fn eip712_digest(domain: Seq<u8>, struct_hash: Seq<u8>) -> Seq<u8> {
    keccak256_digest(seq![0x19u8, 0x01u8] + domain + struct_hash)
}

pub open spec fn agent_type() -> Seq<char> {
    "Agent(string source,bytes32 connectionId)"@
}

/// The EIP-712 digest that an L1 action is signed under.
pub open spec fn l1_digest(action: Seq<u8>, nonce: u64, vault: Option<Seq<u8>>, is_mainnet: bool) -> Seq<u8> {
    let connection_id = keccak256_digest(action_preimage(action, nonce, vault));
    let source = if is_mainnet { "a"@ } else { "b"@ };
    let struct_hash = keccak256_digest(text_hash(agent_type()) + text_hash(source) + connection_id);
    eip712_digest(domain_separator("Exchange"@, "1"@, 1337, Seq::new(20, |_i: int| 0u8)), struct_hash)
}

pub open spec fn approve_agent_type() -> Seq<char> {
    "HyperliquidTransaction:ApproveAgent(string hyperliquidChain,address agentAddress,string agentName,uint64 nonce)"@
}

/// The EIP-712 digest that an approveAgent action is signed under.
pub open spec fn approve_agent_digest(agent: Seq<u8>, agent_name: Seq<char>, nonce: u64, is_mainnet: bool) -> Seq<u8> {
    let chain = if is_mainnet { "Mainnet"@ } else { "Testnet"@ };
    let struct_hash = keccak256_digest(
        text_hash(approve_agent_type()) + text_hash(chain) + word_of_address(agent) + text_hash(agent_name)
            + word_of_u64(nonce),
    );
    eip712_digest(
        domain_separator("HyperliquidSignTransaction"@, "1"@, if is_mainnet { 42161u64 } else { 421614u64 }, Seq::new(20, |_i: int| 0u8)),
        struct_hash,
    )
}

fn append_bytes(buf: &mut Vec<u8>, src: &[u8])
    ensures
        final(buf)@ == old(buf)@ + src@,
{
    let mut i: usize = 0;
    while i < src.len()
        invariant
            0 <= i <= src@.len(),
            buf@ == old(buf)@ + src@.take(i as int),
        decreases src@.len() - i,
    {
        buf.push(src[i]);
        assert(src@.take(i + 1) =~= src@.take(i as int).push(src@[i as int]));
        i = i + 1;
    }
    assert(src@.take(src@.len() as int) =~= src@);
}

fn text_digest(s: &str) -> (h: [u8; 32])
    ensures
        h@ == text_hash(s@),
{
    keccak256(s.as_bytes())
}

fn be_bytes(n: u64) -> (b: [u8; 8])
    ensures
        b@ == u64_be(n),
{
    let b = [
        ((n >> 56u64) & 0xff) as u8,
        ((n >> 48u64) & 0xff) as u8,
        ((n >> 40u64) & 0xff) as u8,
        ((n >> 32u64) & 0xff) as u8,
        ((n >> 24u64) & 0xff) as u8,
        ((n >> 16u64) & 0xff) as u8,
        ((n >> 8u64) & 0xff) as u8,
        (n & 0xff) as u8,
    ];
    assert(b@ =~= u64_be(n));
    b
}

/// `n` as a 32-byte ABI word.
pub fn pad_u64(n: u64) -> (out: [u8; 32])
    ensures
        out@ == word_of_u64(n),
{
    let mut out = [0u8; 32];
    let b = be_bytes(n);
    let mut i: usize = 0;
    while i < 8
        invariant
            0 <= i <= 8,
            b@ == u64_be(n),
            forall|k: int| 0 <= k < 24 ==> out@[k] == 0u8,
            forall|k: int| 24 <= k < 24 + i ==> out@[k] == b@[k - 24],
            out@.len() == 32,
        decreases 8 - i,
    {
        out[24 + i] = b[i];
        i = i + 1;
    }
    assert(out@ =~= word_of_u64(n));
    out
}

/// An address as a 32-byte ABI word.
pub fn pad_address(a: [u8; 20]) -> (out: [u8; 32])
    ensures
        out@ == word_of_address(a@),
{
    let mut out = [0u8; 32];
    let mut i: usize = 0;
    while i < 20
        invariant
            0 <= i <= 20,
            forall|k: int| 0 <= k < 12 ==> out@[k] == 0u8,
            forall|k: int| 12 <= k < 12 + i ==> out@[k] == a@[k - 12],
            out@.len() == 32,
        decreases 20 - i,
    {
        out[12 + i] = a[i];
        i = i + 1;
    }
    assert(out@ =~= word_of_address(a@));
    out
}

/// The EIP-712 domain separator.
pub fn compute_domain_separator(name: &str, version: &str, chain_id: u64, verifying_contract: [u8; 20]) -> (h: [u8; 32])
    ensures
        h@ == domain_separator(name@, version@, chain_id, verifying_contract@),
{
    let type_hash = text_digest(
        "EIP712Domain(string name,string version,uint256 chainId,address verifyingContract)",
    );
    let mut buf: Vec<u8> = Vec::new();
    append_bytes(&mut buf, type_hash.as_slice());
    append_bytes(&mut buf, text_digest(name).as_slice());
    append_bytes(&mut buf, text_digest(version).as_slice());
    append_bytes(&mut buf, pad_u64(chain_id).as_slice());
    append_bytes(&mut buf, pad_address(verifying_contract).as_slice());
    assert(buf@ =~= text_hash(domain_type()) + text_hash(name@) + text_hash(version@) + word_of_u64(chain_id)
        + word_of_address(verifying_contract@));
    keccak256(buf.as_slice())
}

pub open spec fn vault_view(vault: Option<[u8; 20]>) -> Option<Seq<u8>> {
    match vault {
        Some(a) => Some(a@),
        None => None,
    }
}

/// The action hash: keccak256(msgpack(action) || nonce big-endian || vault marker).
pub fn compute_action_hash(action: &Json, nonce: u64, vault: Option<[u8; 20]>) -> (r: Result<[u8; 32], SignError>)
    ensures
        r matches Ok(h) && h@ == keccak256_digest(action_preimage(msgpack_named(action@), nonce, vault_view(vault))),
{
    match msgpack_encode(action) {
        Some(bytes) => Ok(hash_action_bytes(bytes.as_slice(), nonce, vault)),
        None => Err(SignError::EncodingFailed),
    }
}

fn hash_action_bytes(action: &[u8], nonce: u64, vault: Option<[u8; 20]>) -> (h: [u8; 32])
    ensures
        h@ == keccak256_digest(action_preimage(action@, nonce, vault_view(vault))),
{
    let mut buf: Vec<u8> = Vec::new();
    append_bytes(&mut buf, action);
    append_bytes(&mut buf, be_bytes(nonce).as_slice());
    match vault {
        None => buf.push(0x00),
        Some(addr) => {
            buf.push(0x01);
            append_bytes(&mut buf, addr.as_slice());
        },
    }
    assert(buf@ =~= action_preimage(action@, nonce, vault_view(vault)));
    keccak256(buf.as_slice())
}

fn eip712_signing_hash(domain: &[u8; 32], struct_hash: &[u8; 32]) -> (h: [u8; 32])
    ensures
        h@ == eip712_digest(domain@, struct_hash@),
{
    let mut buf: Vec<u8> = Vec::new();
    buf.push(0x19);
    buf.push(0x01);
    append_bytes(&mut buf, domain.as_slice());
    append_bytes(&mut buf, struct_hash.as_slice());
    assert(buf@ =~= seq![0x19u8, 0x01u8] + domain@ + struct_hash@);
    keccak256(buf.as_slice())
}

fn sign_with_key(key: &[u8; 32], digest: &[u8; 32]) -> (r: Result<SignatureRsv, SignError>)
    ensures
        match r {
            Ok(sig) => rsv_of(ecdsa_sign(key@, digest@)) == Some(sig@),
            Err(e) => rsv_of(ecdsa_sign(key@, digest@)) is None && e == SignError::SigningFailed,
        },
{
    match sign_digest(key, digest) {
        Some((r, s, y)) => Ok(SignatureRsv { r, s, v: if y { 28 } else { 27 } }),
        None => Err(SignError::SigningFailed),
    }
}

/// The agent wallet that signs L1 actions.
pub struct AgentSigner {
    key: [u8; 32],
    address: [u8; 20],
}

impl AgentSigner {
    /// The secret key bytes.
    pub closed spec fn key(self) -> Seq<u8> {
        self.key@
    }

    #[verifier::type_invariant]
    closed spec fn address_matches(self) -> bool {
        self.address@ == address_of_key(self.key@)
    }

    /// Reads the agent key from its hexadecimal text.
    pub fn from_hex_key(text: &str) -> (r: Result<AgentSigner, SignError>)
        ensures
            match r {
                Ok(s) => private_key_of_hex(text@) == Some(s.key()),
                Err(e) => private_key_of_hex(text@) is None && e == SignError::InvalidKey,
            },
    {
        match parse_private_key(text) {
            Some((key, address)) => Ok(AgentSigner { key, address }),
            None => Err(SignError::InvalidKey),
        }
    }

    /// The agent's address.
    pub fn address(&self) -> (a: [u8; 20])
        ensures
            a@ == address_of_key(self.key()),
    {
        proof {
            use_type_invariant(self);
        }
        self.address
    }

    /// Signs an L1 action (order / cancel / modify): its MessagePack
    /// encoding, the nonce and the vault marker are hashed into the
    /// EIP-712 connection id. `is_mainnet` chooses the EIP-712 `source`
    /// ("a" on mainnet, "b" on testnet); `vault_address` is `None` for
    /// personal accounts.
    pub fn sign_l1_action(
        &self,
        action: &Json,
        nonce: u64,
        vault_address: Option<[u8; 20]>,
        is_mainnet: bool,
    ) -> (r: Result<SignatureRsv, SignError>)
        ensures
            match r {
                Ok(sig) => rsv_of(ecdsa_sign(self.key(), l1_digest(msgpack_named(action@), nonce, vault_view(vault_address), is_mainnet))) == Some(sig@),
                Err(e) => e == SignError::SigningFailed && rsv_of(ecdsa_sign(self.key(), l1_digest(msgpack_named(action@), nonce, vault_view(vault_address), is_mainnet))) is None,
            },
    {
        let action_hash = compute_action_hash(action, nonce, vault_address)?;
        let source = if is_mainnet { "a" } else { "b" };
        let mut buf: Vec<u8> = Vec::new();
        append_bytes(&mut buf, text_digest("Agent(string source,bytes32 connectionId)").as_slice());
        append_bytes(&mut buf, text_digest(source).as_slice());
        append_bytes(&mut buf, action_hash.as_slice());
        let struct_hash = keccak256(buf.as_slice());
        let zero = [0u8; 20];
        assert(zero@ =~= Seq::new(20, |_i: int| 0u8));
        let domain = compute_domain_separator("Exchange", "1", 1337, zero);
        let signing_hash = eip712_signing_hash(&domain, &struct_hash);
        sign_with_key(&self.key, &signing_hash)
    }
}

/// Signs an `approveAgent` action with the main wallet's key, given in hex.
/// The EIP-712 type name contains a colon:
/// "HyperliquidTransaction:ApproveAgent".
pub fn sign_approve_agent(
    main_key_hex: &str,
    agent_address: [u8; 20],
    agent_name: &str,
    nonce: u64,
    is_mainnet: bool,
) -> (r: Result<SignatureRsv, SignError>)
    ensures
        match private_key_of_hex(main_key_hex@) {
            None => r == Err::<SignatureRsv, SignError>(SignError::InvalidKey),
            Some(key) => match r {
                Ok(sig) => rsv_of(ecdsa_sign(key, approve_agent_digest(agent_address@, agent_name@, nonce, is_mainnet))) == Some(sig@),
                Err(e) => rsv_of(ecdsa_sign(key, approve_agent_digest(agent_address@, agent_name@, nonce, is_mainnet))) is None && e == SignError::SigningFailed,
            },
        },
{
    let key = match parse_private_key(main_key_hex) {
        Some((key, _address)) => key,
        None => return Err(SignError::InvalidKey),
    };
    let chain_id = user_signed_chain_id(is_mainnet);
    let type_hash = text_digest(
        "HyperliquidTransaction:ApproveAgent(string hyperliquidChain,address agentAddress,string agentName,uint64 nonce)",
    );
    let chain_str = if is_mainnet { "Mainnet" } else { "Testnet" };
    let mut buf: Vec<u8> = Vec::new();
    append_bytes(&mut buf, type_hash.as_slice());
    append_bytes(&mut buf, text_digest(chain_str).as_slice());
    append_bytes(&mut buf, pad_address(agent_address).as_slice());
    append_bytes(&mut buf, text_digest(agent_name).as_slice());
    append_bytes(&mut buf, pad_u64(nonce).as_slice());
    let struct_hash = keccak256(buf.as_slice());
    let zero = [0u8; 20];
    assert(zero@ =~= Seq::new(20, |_i: int| 0u8));
    let domain_separator = compute_domain_separator("HyperliquidSignTransaction", "1", chain_id, zero);
    let signing_hash = eip712_signing_hash(&domain_separator, &struct_hash);
    sign_with_key(&key, &signing_hash)
}

/// The exchange's `v` is always 27 or 28, and it is 28 exactly for y-parity 1.
pub proof fn law_v_is_27_or_28(raw: Option<(Seq<u8>, Seq<u8>, bool)>)
    ensures
        rsv_of(raw) matches Some(sig) ==> (sig.v == 27 || sig.v == 28),
        raw matches Some((r, s, y)) ==> rsv_of(raw) == Some(SignatureView { r, s, v: if y { 28u8 } else { 27u8 } }),
{
}

/// The big-endian bytes of an integer spell it back, and its ABI word is
/// 32 bytes: 24 zero bytes and those 8 bytes.
pub proof fn law_word_of_u64_roundtrip(n: u64)
    ensures
        u64_be(n).len() == 8,
        u64_of_be(u64_be(n)) == n,
        word_of_u64(n).len() == 32,
        word_of_u64(n).skip(24) == u64_be(n),
        forall|i: int| 0 <= i < 24 ==> #[trigger] word_of_u64(n)[i] == 0u8,
{
    let b = u64_be(n);
    assert(u64_of_be(b) == ((((n >> 56u64) & 0xff) as u8 as u64) << 56u64) | ((((n >> 48u64) & 0xff) as u8 as u64) << 48u64)
        | ((((n >> 40u64) & 0xff) as u8 as u64) << 40u64) | ((((n >> 32u64) & 0xff) as u8 as u64) << 32u64)
        | ((((n >> 24u64) & 0xff) as u8 as u64) << 24u64) | ((((n >> 16u64) & 0xff) as u8 as u64) << 16u64)
        | ((((n >> 8u64) & 0xff) as u8 as u64) << 8u64) | (((n & 0xff) as u8) as u64));
    assert(((((n >> 56u64) & 0xff) as u8 as u64) << 56u64) | ((((n >> 48u64) & 0xff) as u8 as u64) << 48u64)
        | ((((n >> 40u64) & 0xff) as u8 as u64) << 40u64) | ((((n >> 32u64) & 0xff) as u8 as u64) << 32u64)
        | ((((n >> 24u64) & 0xff) as u8 as u64) << 24u64) | ((((n >> 16u64) & 0xff) as u8 as u64) << 16u64)
        | ((((n >> 8u64) & 0xff) as u8 as u64) << 8u64) | (((n & 0xff) as u8) as u64) == n) by (bit_vector);
    assert(word_of_u64(n).skip(24) =~= u64_be(n));
}

/// An address's ABI word is 32 bytes: 12 zero bytes, then the address.
pub proof fn law_word_of_address(a: Seq<u8>)
    requires
        a.len() == 20,
    ensures
        word_of_address(a).len() == 32,
        word_of_address(a).skip(12) == a,
        forall|i: int| 0 <= i < 12 ==> #[trigger] word_of_address(a)[i] == 0u8,
{
    assert(word_of_address(a).skip(12) =~= a);
}

/// The action hash's preimage ends in the nonce's big-endian bytes and the
/// vault marker: a single 0 byte without vault, 1 and the vault's address with one.
pub proof fn law_action_preimage_layout(action: Seq<u8>, nonce: u64, vault: Option<Seq<u8>>)
    ensures
        action_preimage(action, nonce, vault).take(action.len() as int) == action,
        action_preimage(action, nonce, vault).subrange(action.len() as int, action.len() as int + 8) == u64_be(nonce),
        vault is None ==> action_preimage(action, nonce, vault).len() == action.len() as int + 9 && action_preimage(action, nonce, vault)[action.len() as int + 8] == 0u8,
        vault matches Some(a) ==> action_preimage(action, nonce, vault).len() == action.len() as int + 9 + a.len() && action_preimage(action, nonce, vault)[action.len() as int + 8] == 1u8
            && action_preimage(action, nonce, vault).skip(action.len() as int + 9) == a,
{
    let p = action_preimage(action, nonce, vault);
    assert(p.take(action.len() as int) =~= action);
    assert(p.subrange(action.len() as int, action.len() as int + 8) =~= u64_be(nonce));
    if let Some(a) = vault {
        assert(p.skip(action.len() as int + 9) =~= a);
    }
}

/// For one action, the action hash's preimage tells the nonce and the vault
/// apart: equal preimages have equal nonces and equal vault markers.
pub proof fn law_preimage_binds_nonce_and_vault(
    action: Seq<u8>,
    n1: u64,
    v1: Option<Seq<u8>>,
    n2: u64,
    v2: Option<Seq<u8>>,
)
    requires
        action_preimage(action, n1, v1) == action_preimage(action, n2, v2),
    ensures
        n1 == n2,
        v1 == v2,
{
    law_action_preimage_layout(action, n1, v1);
    law_action_preimage_layout(action, n2, v2);
    law_word_of_u64_roundtrip(n1);
    law_word_of_u64_roundtrip(n2);
    assert(u64_be(n1) == u64_be(n2));
    match (v1, v2) {
        (Some(a1), Some(a2)) => {
            assert(a1 =~= a2);
        },
        _ => {},
    }
}

/// The approveAgent digest is the EIP-712 digest (0x19 0x01, domain
/// separator, struct hash) under the "HyperliquidSignTransaction" domain,
/// version "1", zero verifying contract, on the Arbitrum chain that
/// matches the struct's hyperliquidChain: chain 42161 (Arbitrum One) with
/// "Mainnet", chain 421614 (Arbitrum Sepolia) with "Testnet". The struct
/// hash covers the type hash, the chain name, the agent's address word, the
/// agent name's hash and the nonce's word.
pub proof fn law_approve_agent_digest(agent: Seq<u8>, agent_name: Seq<char>, nonce: u64)
    ensures
        approve_agent_digest(agent, agent_name, nonce, true) == keccak256_digest(
            seq![0x19u8, 0x01u8] + keccak256_digest(
                keccak256_digest(encode_utf8("EIP712Domain(string name,string version,uint256 chainId,address verifyingContract)"@))
                    + keccak256_digest(encode_utf8("HyperliquidSignTransaction"@)) + keccak256_digest(encode_utf8("1"@))
                    + Seq::new(24, |_i: int| 0u8) + u64_be(42161u64) + Seq::new(32, |_i: int| 0u8),
            ) + keccak256_digest(
                keccak256_digest(encode_utf8("HyperliquidTransaction:ApproveAgent(string hyperliquidChain,address agentAddress,string agentName,uint64 nonce)"@))
                    + keccak256_digest(encode_utf8("Mainnet"@)) + Seq::new(12, |_i: int| 0u8) + agent
                    + keccak256_digest(encode_utf8(agent_name)) + Seq::new(24, |_i: int| 0u8) + u64_be(nonce),
            ),
        ),
        approve_agent_digest(agent, agent_name, nonce, false) == keccak256_digest(
            seq![0x19u8, 0x01u8] + keccak256_digest(
                keccak256_digest(encode_utf8("EIP712Domain(string name,string version,uint256 chainId,address verifyingContract)"@))
                    + keccak256_digest(encode_utf8("HyperliquidSignTransaction"@)) + keccak256_digest(encode_utf8("1"@))
                    + Seq::new(24, |_i: int| 0u8) + u64_be(421614u64) + Seq::new(32, |_i: int| 0u8),
            ) + keccak256_digest(
                keccak256_digest(encode_utf8("HyperliquidTransaction:ApproveAgent(string hyperliquidChain,address agentAddress,string agentName,uint64 nonce)"@))
                    + keccak256_digest(encode_utf8("Testnet"@)) + Seq::new(12, |_i: int| 0u8) + agent
                    + keccak256_digest(encode_utf8(agent_name)) + Seq::new(24, |_i: int| 0u8) + u64_be(nonce),
            ),
        ),
{
    let z20 = Seq::new(20, |_i: int| 0u8);
    assert(word_of_address(z20) =~= Seq::new(32, |_i: int| 0u8));
    let d = text_hash(domain_type()) + text_hash("HyperliquidSignTransaction"@) + text_hash("1"@);
    assert(d + word_of_u64(42161u64) + word_of_address(z20) =~= d + Seq::new(24, |_i: int| 0u8) + u64_be(42161u64) + Seq::new(32, |_i: int| 0u8));
    assert(d + word_of_u64(421614u64) + word_of_address(z20) =~= d + Seq::new(24, |_i: int| 0u8) + u64_be(421614u64) + Seq::new(32, |_i: int| 0u8));
    let t = text_hash(approve_agent_type());
    assert(t + text_hash("Mainnet"@) + word_of_address(agent) + text_hash(agent_name) + word_of_u64(nonce)
        =~= t + text_hash("Mainnet"@) + Seq::new(12, |_i: int| 0u8) + agent + text_hash(agent_name) + Seq::new(24, |_i: int| 0u8) + u64_be(nonce));
    assert(t + text_hash("Testnet"@) + word_of_address(agent) + text_hash(agent_name) + word_of_u64(nonce)
        =~= t + text_hash("Testnet"@) + Seq::new(12, |_i: int| 0u8) + agent + text_hash(agent_name) + Seq::new(24, |_i: int| 0u8) + u64_be(nonce));
}

/// The L1 digest is the EIP-712 digest under the "Exchange" domain,
/// version "1", chain 1337, zero verifying contract, of the Agent struct
/// whose source is "a" on mainnet and "b" on testnet and whose connection
/// id is the action hash.
pub proof fn law_l1_digest(action: Seq<u8>, nonce: u64, vault: Option<Seq<u8>>)
    ensures
        l1_digest(action, nonce, vault, true) == keccak256_digest(
            seq![0x19u8, 0x01u8] + keccak256_digest(
                keccak256_digest(encode_utf8("EIP712Domain(string name,string version,uint256 chainId,address verifyingContract)"@))
                    + keccak256_digest(encode_utf8("Exchange"@)) + keccak256_digest(encode_utf8("1"@))
                    + Seq::new(24, |_i: int| 0u8) + u64_be(1337u64) + Seq::new(32, |_i: int| 0u8),
            ) + keccak256_digest(
                keccak256_digest(encode_utf8("Agent(string source,bytes32 connectionId)"@)) + keccak256_digest(encode_utf8("a"@))
                    + keccak256_digest(action_preimage(action, nonce, vault)),
            ),
        ),
        l1_digest(action, nonce, vault, false) == keccak256_digest(
            seq![0x19u8, 0x01u8] + keccak256_digest(
                keccak256_digest(encode_utf8("EIP712Domain(string name,string version,uint256 chainId,address verifyingContract)"@))
                    + keccak256_digest(encode_utf8("Exchange"@)) + keccak256_digest(encode_utf8("1"@))
                    + Seq::new(24, |_i: int| 0u8) + u64_be(1337u64) + Seq::new(32, |_i: int| 0u8),
            ) + keccak256_digest(
                keccak256_digest(encode_utf8("Agent(string source,bytes32 connectionId)"@)) + keccak256_digest(encode_utf8("b"@))
                    + keccak256_digest(action_preimage(action, nonce, vault)),
            ),
        ),
{
    let z20 = Seq::new(20, |_i: int| 0u8);
    let d = text_hash(domain_type()) + text_hash("Exchange"@) + text_hash("1"@);
    assert(d + word_of_u64(1337u64) + word_of_address(z20) =~= d + Seq::new(24, |_i: int| 0u8) + u64_be(1337u64) + Seq::new(32, |_i: int| 0u8));
}

} // verus!
