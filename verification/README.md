# raiden_channels

A verified library for the off-chain state machine of a Raiden payment
channel node, written in Verus. The executable code carries `requires` /
`ensures` contracts over mathematical models (sequences, maps, natural
numbers), and Verus proves that every function meets them.

## Layout

- `src/primitives.rs`: 256-bit amounts, addresses, hashes and signatures.
- `src/map.rs`: `LinearMap`, a map kept as a vector of entries with
  distinct keys, viewed as a `Map`.
- `src/hashing.rs`, `src/text.rs`: the encodings that are hashed and
  signed (balance proofs, withdraws, locks) and the decimal and hexadecimal
  renderings used in messages.
- `src/types/`: channel, token network and node state; state changes;
  events; the pseudo random number generator.
- `src/channel/`: the channel state machine: fees, locks, validation of
  received messages, the handlers of every state change, and the
  consistency check of the resulting channel.
- `src/token_network.rs`, `src/chain/`: the token network and the node:
  routing of state changes to channels, registries, the queue of pending
  on-chain transactions.
- `src/views.rs`: lookups over channels and over the node's state.
- `src/initiator.rs`, `src/initiator_manager.rs`, `src/routes.rs`: the
  initiator of a payment and its routes.
- `src/incoming.rs`: the state changes that messages from other nodes
  give, their senders recovered from signatures.
- `src/onchain.rs`: the arguments of the transactions that the node sends
  for its events, and what a settled channel leaves to unlock.
- `src/queries.rs`: the conditions and queries by which stored state
  changes and events are looked up.
- `src/effects.rs`: the monitoring and pathfinding updates that a batch of
  state changes gives rise to.
- `src/laws.rs`: properties that span several functions, stated and proved
  as proof functions.
- `tests/`: executable tests of the library.
- `app/`: conversions between the library's types and those of `web3`.

The calls into `web3` (Keccak-256, signature recovery, 256-bit arithmetic)
and `rand_chacha` stand behind small trusted wrappers whose contracts state
what those crates document.
