# worm_miner

The verified core of the WORM miner, written in Verus.

`src/` is the library. Every function in it is verified except a handful of
small trusted wrappers around alloy calls (marked `#[verifier::external_body]`),
whose contracts are taken as given:

- `u256`, `address`, `units`, `abi`, `text`: 256-bit amounts, addresses, ether
  amounts in decimal, Solidity ABI words, and small text helpers. Calls into
  alloy (hex and decimal parsing, ether formatting, ABI encoding, Keccak-256,
  secret-key addresses) sit behind small trusted wrappers whose contracts say
  what the call returns.
- `contracts`: the networks, the WORM contract addresses on each, the
  `mintCoin` arguments of BETH and the BETH-to-ETH swap hook.
- `burn_output`, `mint`, `participate`, `multi_network_provider`: the records a burn and a
  participation leave, and the mint call built from a burn.
- `server`: the proving server's configuration, its job registry, a cache of
  block headers and the decisions behind its endpoints, among them the prover
  fee rule `max(min_prover_fee, burnt / prover_fee_share_inv)` and the two
  steps of `POST /proof` (admitting a request, recording its job once sent).
- `ether_text_laws`: the amounts the miner shows read back exactly.

`app/` is the program around it: command line, configuration file, RPC
calls, and an HTTP server that answers `GET /proof`, `GET /proof/{nullifier}`
and `POST /relay`. Serving `POST /proof` also needs the proving queue and the
nullifier computation, which this code base does not hold, so the program
does not route it; its decisions are in the library. `tests/` runs the
library on concrete values.
