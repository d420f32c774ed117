# subversive

A peer-to-peer node: it keeps a table of peers and checks their health, exchanges chat
messages, signs and verifies transactions with Ed25519 keys, moves balances between accounts,
and keeps its public name up to date through dynamic DNS.

## Layout

- `src/` is the verified library. Verus checks all of it; every public function states its
  behaviour in a contract (private helpers and trait methods that only repeat a contract
  elsewhere may carry none). It covers
  the peer table and what each operation does to it (`network`), addresses, signatures and
  transactions (`crypto`), balances and transfers (`currency`), record keys and read-back order
  (`database`), the request handlers' decisions (`server`), configuration merging (`config`),
  dynamic-DNS requests (`ddns`), trace and terminal text (`trace`, `tui`), and two maps keyed by
  strings (`string_map`, `safe_map`). Calls into outside crates (ed25519-dalek, base58, base64,
  rand, chrono) sit behind small trusted wrappers whose contracts say what those crates do.
- `tests/` runs the library on concrete values.
- `app/` is the unverified shell: LevelDB storage, the axum/TLS server, HTTP requests to peers,
  UPnP port mapping, shutdown, and loading the configuration file and command line. It hands
  plain values to the library and carries out what the library decides.
