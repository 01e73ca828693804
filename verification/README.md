# solo-rs-pool

A lightweight Stratum-V1 solo pool for Bitcoin Core. Its jobs, its answers to miners, its blocks
and its records are verified with Verus. Not verified are the hashrate, a floating-point number
that the binary computes, and what SQLite computes: the windows of shares, their counts and sums,
and their grouping by the minute.

- `src/` is the verified library.
  - `text`, `chain`, `merkle`, `json`: hexadecimal and decimal text, Bitcoin's serializations and
    targets, the Merkle root, JSON messages.
  - `coinbase`, `job`: how a block template becomes a job, when a new job is published, and which
    block a solved job gives.
  - `stratum`: what is answered to each line of a miner, and what becomes of a share.
  - `session`: what a miner may do before it has given the miner password.
  - `config`, `feed`, `node`, `storage`, `web`: settings, broadcasts, node events, database rows
    and web pages.
  - `laws`: what holds of the pool as a whole.
- `app/` is the binary: sockets, the node's RPC, SQLite and the web server.
- `tests/` runs the library on concrete values.

Every item that calls an outside crate is marked `#[verifier::external_body]`; its doc comment
says what is taken for granted of that crate.

The pool reads its settings from the environment or from `.env`; the fields of
`config::Environment` name the variables. With `NETWORK=mainnet` it does not start unless
`PAYOUT_ADDRESS` is set; the address is not used otherwise, and the coinbase pays a placeholder
script on every network. With `MINER_PASSWORD` it authorizes only miners that give that password,
and takes shares only from those.
