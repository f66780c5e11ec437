# zaino-oram

The core of a private query service for transparent unspent outputs, written in
Verus. A request and its response travel in envelopes of one fixed size, every
completed round performs the same accesses in the same order, and each round is
reserved and committed in a durable journal before its response may leave.

## Layout

- `src/` is the library. Every function in it is verified against its contract.
  - `instances`: the numbers by which journals and security epochs are told apart.
  - `security_state`, `security_state_store`: the security state of a
    deployment, its canonical encoding, and the store that advances it against a
    freshness witness.
  - `replay_journal`, `replay_record`, `replay_store`, `journal_storage`,
    `replay_commit`, `replay_laws`: the journal of claimed requests and
    continuations, its protected records, recovery and commit.
  - `security_state_binding`, `replay_coordinator`: the journal and the security
    state advanced as one transaction.
  - `security_owner`, `release_gate`, `serving_epoch`, `round`, `runtime`,
    `runtime_owner`, `runtime_laws`, `paging_laws`: the security lease of a round,
    the lease on what it serves, the round, the owner that decides whether a
    response may leave, and what holds over several rounds.
  - `composition`, `private_service`, `mainnet_runtime`, `client_session`: what a
    server and a wallet put together.
- `tests/` holds the tests of the library.
- `app/` is ordinary Rust around it: files and directories, the error chain, the
  handle that a server shares, and the guards that act when a value is dropped.

## What is not proved

Four functions call outside code and are believed: `digest::blake2s256_digest`
(BLAKE2s), `os_entropy::fill_from_os` (the system's random generator),
`secret::clear_key` (zeroing of a key) and `host_clock::host_unix_seconds` (the
system's clock). Each says in its doc comment what is claimed of the call.

Codecs, engines, protectors, storages and clocks are parameters. The traits that
stand for them promise nothing: a contract that speaks of such a call fixes what
is handed to it, and holds for every reply. A codec is opened for a compiled shape
and a session, an engine for a sealed store and a profile.

Instance numbers differ within one `instances::InstanceSource`. A process keeps one
source; `app/` holds it.
