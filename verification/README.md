# shanhai_client

A client of the RabbitChain game network. The player holds their own key: every
transaction is put together and signed on the client, and every rule of the game is run
locally by the same engine that the chain runs.

The library under `src/` is the client's logic, verified with Verus.

- `flow` plays one round: fund, load the rule tables, start a session, take the random
  block, fight, settle, and sell the first drop.
- `chain` plans the transactions, and `assembly` puts each of them together in order:
  encoding, fees, signature, identity. `submit` waits for the result.
- `node` reads the node's answers, and `rpc` writes its requests.
- `client`, `frame` and `worker` are the frame loop's side: settings, the simulator, and
  answers that are looked for without waiting.
- `compute`, `game` and `json` are the data; `crypto`, `encoding`, `text` and `nonce` are
  keys, hexadecimal text, numbers and clocks.

`flow`, `assembly` and `submit` do no work of their own outside: each says what it wants
next and takes the answer. What they promise of every run is stated as proof functions
whose names begin with `law_`.

What is believed without proof are calls of `hex`, `serde_json`, `sha3`,
`ed25519-dalek`, `chrono` and `tokio`. Each stands in a small function marked
`external_body`, with a comment that says what is claimed of the call.

Digests are Keccak-256 as `sha3` computes it. That the chain's own digest is the same is
taken for granted: nothing here shows it.

The program under `app/` does the network work, reads the environment, and runs the frame
loop. The chain's own crates are named in `app/engine.rs` alone.
