use alloy_primitives::{keccak256, Signature, B256, U256};
use hypercopy::config::Wallet;
use hypercopy::execute::exchange::{order_action, signed_order_request};
use hypercopy::json::{Json, JsonNumber};
use hypercopy::types::{OrderIntent, Side, TimeInForce};
use hypercopy::execute::signer::{
    compute_action_hash, compute_domain_separator, pad_address, pad_u64, sign_approve_agent,
    user_signed_chain_id, AgentSigner, SignError, SignatureRsv,
};

const HARDHAT_KEY: &str = "0xac0974bec39a17e36ba4a6b4d238ff944bacb478cbed5efcae784d7bf4f2ff80";
const HARDHAT_ADDR: &str = "f39fd6e51aad88f6f4ce6ab8827279cfffb92266";

fn hex(b: &[u8]) -> String {
    b.iter().map(|x| format!("{:02x}", x)).collect()
}

fn recover(sig: &SignatureRsv, digest: [u8; 32]) -> [u8; 20] {
    assert!(sig.v == 27 || sig.v == 28);
    let s = Signature::new(U256::from_be_bytes(sig.r), U256::from_be_bytes(sig.s), sig.v == 28);
    s.recover_address_from_prehash(&B256::new(digest)).unwrap().0 .0
}

fn domain(name: &str, version: &str, chain_id: u64) -> [u8; 32] {
    let mut buf = Vec::new();
    buf.extend_from_slice(keccak256(b"EIP712Domain(string name,string version,uint256 chainId,address verifyingContract)").as_slice());
    buf.extend_from_slice(keccak256(name.as_bytes()).as_slice());
    buf.extend_from_slice(keccak256(version.as_bytes()).as_slice());
    buf.extend_from_slice(&U256::from(chain_id).to_be_bytes::<32>());
    buf.extend_from_slice(&[0u8; 32]);
    keccak256(&buf).0
}

#[test]
fn chain_ids() {
    assert_eq!(user_signed_chain_id(true), 42161);
    assert_eq!(user_signed_chain_id(false), 421614);
}

#[test]
fn pad_u64_is_a_big_endian_word() {
    let w = pad_u64(0x0102030405060708);
    assert_eq!(&w[..24], &[0u8; 24]);
    assert_eq!(&w[24..], &[1, 2, 3, 4, 5, 6, 7, 8]);
    assert_eq!(U256::from_be_bytes(pad_u64(u64::MAX)), U256::from(u64::MAX));
    assert_eq!(pad_u64(0), [0u8; 32]);
}

#[test]
fn pad_address_is_a_word() {
    let a: [u8; 20] = core::array::from_fn(|i| i as u8 + 1);
    let w = pad_address(a);
    assert_eq!(&w[..12], &[0u8; 12]);
    assert_eq!(&w[12..], &a);
}

#[test]
fn domain_separator_matches_eip712() {
    let d = compute_domain_separator("Exchange", "1", 1337, [0u8; 20]);
    assert_eq!(d, domain("Exchange", "1", 1337));
    assert_ne!(d, compute_domain_separator("Exchange", "2", 1337, [0u8; 20]));
}

#[test]
fn eip712_domain_type_hash_is_known() {
    // The well-known EIP-712 domain type hash, through an empty-looking domain.
    let known = "8b73c3c69bb8fe3d512ecc4cf759cc79239f7b179b0ffacaa9a75d522b39400f";
    assert_eq!(hex(keccak256(b"EIP712Domain(string name,string version,uint256 chainId,address verifyingContract)").as_slice()), known);
}

fn sample_action() -> (Json, serde_json::Value) {
    let j = Json::Object(vec![
        ("type".to_string(), Json::Str("order".to_string())),
        ("a".to_string(), Json::Number(JsonNumber::PosInt(3))),
        ("grouping".to_string(), Json::Str("na".to_string())),
    ]);
    let v: serde_json::Value = serde_json::from_str(r#"{"type": "order", "a": 3, "grouping": "na"}"#).unwrap();
    (j, v)
}

#[test]
fn action_hash_frames_msgpack_nonce_and_vault() {
    let (action, value) = sample_action();
    let packed = rmp_serde::to_vec_named(&value).unwrap();
    let mut pre = packed.clone();
    pre.extend_from_slice(&7u64.to_be_bytes());
    pre.push(0);
    assert_eq!(compute_action_hash(&action, 7, None).unwrap(), keccak256(&pre).0);
    let vault = [0x11u8; 20];
    let mut pre = packed.clone();
    pre.extend_from_slice(&7u64.to_be_bytes());
    pre.push(1);
    pre.extend_from_slice(&vault);
    assert_eq!(compute_action_hash(&action, 7, Some(vault)).unwrap(), keccak256(&pre).0);
    assert_ne!(compute_action_hash(&action, 7, None).unwrap(), compute_action_hash(&action, 8, None).unwrap());
    assert_ne!(compute_action_hash(&action, 7, None).unwrap(), compute_action_hash(&action, 7, Some([0u8; 20])).unwrap());
}

#[test]
fn keccak_of_empty_is_known() {
    assert_eq!(hex(keccak256(b"").as_slice()), "c5d2460186f7233c927e7db2dcc703c0e500b653ca82273b7bfad8045d85a470");
    let (action, value) = sample_action();
    let mut pre = rmp_serde::to_vec_named(&value).unwrap();
    pre.extend_from_slice(&0u64.to_be_bytes());
    pre.push(0);
    assert_ne!(compute_action_hash(&action, 0, None).unwrap().to_vec(), pre);
}

#[test]
fn agent_key_gives_address() {
    let s = AgentSigner::from_hex_key(HARDHAT_KEY).unwrap();
    assert_eq!(hex(&s.address()), HARDHAT_ADDR);
    let s2 = AgentSigner::from_hex_key(&HARDHAT_KEY[2..]).unwrap();
    assert_eq!(s2.address(), s.address());
}

#[test]
fn bad_agent_keys_are_refused() {
    assert!(matches!(AgentSigner::from_hex_key("0x1234"), Err(SignError::InvalidKey)));
    assert!(matches!(AgentSigner::from_hex_key("not hex"), Err(SignError::InvalidKey)));
    let zero = format!("0x{}", "0".repeat(64));
    assert!(matches!(AgentSigner::from_hex_key(&zero), Err(SignError::InvalidKey)));
}

fn l1_digest(action: &serde_json::Value, nonce: u64, source: &str) -> [u8; 32] {
    let mut pre = rmp_serde::to_vec_named(action).unwrap();
    pre.extend_from_slice(&nonce.to_be_bytes());
    pre.push(0);
    let connection_id = keccak256(&pre).0;
    let mut sb = Vec::new();
    sb.extend_from_slice(keccak256(b"Agent(string source,bytes32 connectionId)").as_slice());
    sb.extend_from_slice(keccak256(source.as_bytes()).as_slice());
    sb.extend_from_slice(&connection_id);
    let struct_hash = keccak256(&sb);
    let mut buf = vec![0x19u8, 0x01];
    buf.extend_from_slice(&domain("Exchange", "1", 1337));
    buf.extend_from_slice(struct_hash.as_slice());
    keccak256(&buf).0
}

#[test]
fn l1_signature_recovers_agent() {
    let s = AgentSigner::from_hex_key(HARDHAT_KEY).unwrap();
    let (action, value) = sample_action();
    let main = s.sign_l1_action(&action, 1_700_000_000_000, None, true).unwrap();
    assert_eq!(recover(&main, l1_digest(&value, 1_700_000_000_000, "a")), s.address());
    let test = s.sign_l1_action(&action, 1_700_000_000_000, None, false).unwrap();
    assert_eq!(recover(&test, l1_digest(&value, 1_700_000_000_000, "b")), s.address());
    assert_ne!(main.r, test.r);
    let again = s.sign_l1_action(&action, 1_700_000_000_000, None, true).unwrap();
    assert_eq!(again.r, main.r);
    assert_eq!(again.s, main.s);
    assert_eq!(again.v, main.v);
}

#[test]
fn approve_agent_signature_recovers_main_wallet() {
    let agent = [0x22u8; 20];
    let sig = sign_approve_agent(HARDHAT_KEY, agent, "hypercopy", 42, false).unwrap();
    let mut sb = Vec::new();
    sb.extend_from_slice(keccak256(b"HyperliquidTransaction:ApproveAgent(string hyperliquidChain,address agentAddress,string agentName,uint64 nonce)").as_slice());
    sb.extend_from_slice(keccak256(b"Testnet").as_slice());
    sb.extend_from_slice(&[0u8; 12]);
    sb.extend_from_slice(&agent);
    sb.extend_from_slice(keccak256(b"hypercopy").as_slice());
    sb.extend_from_slice(&U256::from(42u64).to_be_bytes::<32>());
    let struct_hash = keccak256(&sb);
    let mut buf = vec![0x19u8, 0x01];
    buf.extend_from_slice(&domain("HyperliquidSignTransaction", "1", 421614));
    buf.extend_from_slice(struct_hash.as_slice());
    let digest = keccak256(&buf).0;
    assert_eq!(hex(&recover(&sig, digest)), HARDHAT_ADDR);
}

#[test]
fn approve_agent_with_bad_key_fails() {
    assert!(matches!(sign_approve_agent("0xzz", [0u8; 20], "x", 1, true), Err(SignError::InvalidKey)));
}

#[test]
fn signed_order_request_signs_the_sent_action() {
    let s = AgentSigner::from_hex_key(HARDHAT_KEY).unwrap();
    let intent = OrderIntent {
        coin: "BTC".to_string(),
        asset_index: 0,
        side: Side::Buy,
        px: "65000".to_string(),
        sz: "0.01".to_string(),
        reduce_only: false,
        tif: TimeInForce::Ioc,
        source_target: "0xfeed".to_string(),
    };
    let body = signed_order_request(&s, &intent, 99, true).unwrap();
    let value: serde_json::Value = serde_json::from_str(
        r#"{"type": "order", "orders": [{"a": 0, "b": true, "p": "65000", "s": "0.01", "r": false, "t": {"limit": {"tif": "Ioc"}}}], "grouping": "na"}"#,
    )
    .unwrap();
    let digest = l1_digest(&value, 99, "a");
    let sig_json = body.get("signature").unwrap();
    let text = |k: &str| match sig_json.get(k).unwrap() { Json::Str(t) => t.clone(), _ => panic!() };
    let to_bytes = |t: String| -> [u8; 32] { core::array::from_fn(|i| u8::from_str_radix(&t[2 + 2 * i..4 + 2 * i], 16).unwrap()) };
    let sig = SignatureRsv { r: to_bytes(text("r")), s: to_bytes(text("s")), v: sig_json.get("v").unwrap().as_u64().unwrap() as u8 };
    assert_eq!(recover(&sig, digest), s.address());
    assert_eq!(body.get("nonce").unwrap().as_u64(), Some(99));
    let direct = s.sign_l1_action(&order_action(&intent), 99, None, true).unwrap();
    assert_eq!(direct.r, sig.r);
}

#[test]
fn wallet_agent_address_parses_hex() {
    let w = Wallet { agent_address: format!("0x{}", HARDHAT_ADDR), main_address: String::new() };
    assert_eq!(hex(&w.agent_address_bytes().unwrap()), HARDHAT_ADDR);
    let upper = Wallet { agent_address: "0xF39FD6E51AAD88F6F4CE6AB8827279CFFFB92266".to_string(), main_address: String::new() };
    assert_eq!(hex(&upper.agent_address_bytes().unwrap()), HARDHAT_ADDR);
    let short = Wallet { agent_address: "0x1234".to_string(), main_address: String::new() };
    assert!(short.agent_address_bytes().is_none());
}
