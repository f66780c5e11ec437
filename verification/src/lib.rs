//! Verified core of the private transparent-UTXO query service.
//!
//! The modules build on each other in the order below: bytes and digests, the
//! durable security state, the replay journal and its recovery, the security
//! lease of a round, the round itself with the owner that serves it, and what a
//! server and a wallet compose out of these.

pub mod bytes;
pub mod digest;
pub mod failure;
pub mod host_clock;
pub mod instances;
pub mod os_entropy;
pub mod secret;

pub mod record_files;
pub mod security_state;
pub mod security_state_store;

pub mod protection;
pub mod runtime_security;
pub mod continuation;
pub mod profile;

pub mod replay_journal;
pub mod replay_record;
pub mod record_protector;
pub mod replay_store;
pub mod journal_storage;
pub mod replay_commit;
pub mod replay_laws;

pub mod security_state_binding;
pub mod replay_coordinator;

pub mod security_owner;
pub mod release_gate;
pub mod sealed;
pub mod trace;
pub mod records;
pub mod round;
pub mod providers;
pub mod serving_epoch;
pub mod runtime;
pub mod runtime_owner;
pub mod runtime_laws;
pub mod paging_laws;
pub mod round_laws;

pub mod composition;
pub mod private_service;
pub mod mainnet_runtime;
pub mod client_session;
