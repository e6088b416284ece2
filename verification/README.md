# hypercopy

A copy-trading bot for Hyperliquid: it follows the fills of target wallets
over WebSocket and mirrors them on our own account with orders signed by an
agent wallet.

`src/` is the verified library (Verus):

- `decision` — the engine that turns an observed fill into a mirror open, a
  mirror close or a skip, under the position cap;
- `positions` — the open mirrors, at most one per (target, coin);
- `execute::signer` — the action hash, the EIP-712 digests of L1 actions
  and of approveAgent, and their signatures;
- `execute::exchange` — the order action, the signed request body and the
  reading of the exchange's answer;
- `ingest::ws` — the subscription request, the reading of `userFills`
  frames (one snapshot per connection) and the reconnect backoff;
- `ingest::info` — the /info request bodies;
- `json`, `text` — the JSON document model and the text formats (hex,
  float literals) these rest on;
- `crypto` — the trusted wrappers around Keccak-256, secp256k1 keys and
  signing, and address parsing;
- `msgpack` — the trusted wrapper around the MessagePack encoding of actions.

`app/` is the program around it: configuration, HTTP and WebSocket I/O,
the floating-point sizing rule, and the
`approve-agent` and `gen-keypair` subcommands.
