use std::cell::Cell;

use zaino_oram::protection::AuthenticationDecision;
use zaino_oram::protection::ProtectionUnavailable;
use zaino_oram::record_protector::associated_data;
use zaino_oram::record_protector::record_protector;
use zaino_oram::record_protector::supplied_nonce;
use zaino_oram::record_protector::JournalRecordNonces;
use zaino_oram::record_protector::OsJournalRecordNonces;
use zaino_oram::record_protector::XChaCha20ProtectionKey;
use zaino_oram::record_protector::AUTHENTICATION_BYTES;
use zaino_oram::record_protector::CIPHERTEXT_START;
use zaino_oram::record_protector::KEY_BYTES;
use zaino_oram::record_protector::NONCE_BYTES;
use zaino_oram::replay_journal::versioned_digest;
use zaino_oram::replay_record::ReplayJournalProtectionContext;
use zaino_oram::replay_record::ReplayJournalRecordKind;
use zaino_oram::replay_record::ReplayJournalRecordProtector;
use zaino_oram::replay_record::PROTECTION_OVERHEAD_BYTES;

const KEY: [u8; KEY_BYTES] = [0x31; KEY_BYTES];
const BODY_BYTES: usize = 24;
const PLAINTEXT: [u8; BODY_BYTES] = [0x5c; BODY_BYTES];
const KINDS: [ReplayJournalRecordKind; 2] = [
    ReplayJournalRecordKind::CurrentStateV3,
    ReplayJournalRecordKind::ImmutableEntryV2,
];

/// A keyed stream with a keyed tag over everything that is authenticated.
struct KeyedStream {
    key: [u8; KEY_BYTES],
    available: bool,
}

impl KeyedStream {
    fn apply(&self, nonce: &[u8], body: &mut [u8]) {
        for (index, chunk) in body.chunks_mut(32).enumerate() {
            let input = [
                self.key.as_slice(),
                nonce,
                (index as u64).to_be_bytes().as_slice(),
            ]
            .concat();
            let stream = versioned_digest(b"stream", 1, &input);
            for (byte, mask) in chunk.iter_mut().zip(stream) {
                *byte ^= mask;
            }
        }
    }

    fn tag(&self, associated_data: &[u8], nonce: &[u8], body: &[u8]) -> [u8; AUTHENTICATION_BYTES] {
        let input = [
            self.key.as_slice(),
            (associated_data.len() as u64).to_be_bytes().as_slice(),
            associated_data,
            nonce,
            body,
        ]
        .concat();
        versioned_digest(b"tag", 1, &input)[..AUTHENTICATION_BYTES]
            .try_into()
            .unwrap()
    }
}

impl XChaCha20ProtectionKey for KeyedStream {
    fn seal(
        &self,
        associated_data: &[u8],
        nonce: &[u8; NONCE_BYTES],
        body: &mut [u8],
    ) -> Result<[u8; AUTHENTICATION_BYTES], ProtectionUnavailable> {
        if !self.available {
            return Err(ProtectionUnavailable);
        }
        self.apply(nonce, body);
        Ok(self.tag(associated_data, nonce, body))
    }

    fn open(
        &self,
        associated_data: &[u8],
        nonce: &[u8; NONCE_BYTES],
        body: &mut [u8],
        authentication: &[u8; AUTHENTICATION_BYTES],
    ) -> Result<AuthenticationDecision, ProtectionUnavailable> {
        if !self.available {
            return Err(ProtectionUnavailable);
        }
        if self.tag(associated_data, nonce, body) != *authentication {
            return Ok(AuthenticationDecision::Rejected);
        }
        self.apply(nonce, body);
        Ok(AuthenticationDecision::Accepted)
    }
}

/// Hands out distinct, predictable nonces and can be made to fail on demand.
struct CountingNonces {
    next: Cell<u8>,
    available: Cell<bool>,
}

impl CountingNonces {
    fn new() -> Self {
        Self {
            next: Cell::new(1),
            available: Cell::new(true),
        }
    }
}

impl JournalRecordNonces for CountingNonces {
    fn next_nonce(&self) -> Result<[u8; NONCE_BYTES], ProtectionUnavailable> {
        if !self.available.get() {
            return Err(ProtectionUnavailable);
        }
        let value = self.next.get();
        self.next.set(value.wrapping_add(1));
        Ok([value; NONCE_BYTES])
    }
}

fn key() -> KeyedStream {
    KeyedStream {
        key: KEY,
        available: true,
    }
}

fn domain() -> Vec<u8> {
    b"journal-record".to_vec()
}

fn protector() -> impl ReplayJournalRecordProtector {
    record_protector(domain(), key(), CountingNonces::new())
}

fn context(binding: u8) -> ReplayJournalProtectionContext {
    ReplayJournalProtectionContext::new([binding; 32])
}

fn seal(
    protector: &impl ReplayJournalRecordProtector,
    context: &ReplayJournalProtectionContext,
    kind: ReplayJournalRecordKind,
) -> [u8; BODY_BYTES + PROTECTION_OVERHEAD_BYTES] {
    let mut protected = [0; BODY_BYTES + PROTECTION_OVERHEAD_BYTES];
    protector
        .seal(context, kind, &PLAINTEXT, &mut protected)
        .expect("fixture record seals");
    protected
}

#[test]
fn every_record_kind_round_trips_under_its_own_context() {
    let protector = protector();
    let context = context(0x9a);

    for kind in KINDS {
        let protected = seal(&protector, &context, kind);
        let mut recovered = [0; BODY_BYTES];

        assert_eq!(
            protector.open(&context, kind, &protected, &mut recovered),
            Ok(AuthenticationDecision::Accepted)
        );
        assert_eq!(recovered, PLAINTEXT);
        assert_ne!(protected[CIPHERTEXT_START..], PLAINTEXT);
    }
}

#[test]
fn record_kind_and_context_are_authenticated() {
    let protector = protector();
    let sealing_context = context(0x9a);
    let protected = seal(
        &protector,
        &sealing_context,
        ReplayJournalRecordKind::CurrentStateV3,
    );
    let other_context = context(0x9b);

    for (context, kind) in [
        (&other_context, ReplayJournalRecordKind::CurrentStateV3),
        (&sealing_context, ReplayJournalRecordKind::ImmutableEntryV2),
    ] {
        let mut recovered = [0xff; BODY_BYTES];

        assert_eq!(
            protector.open(context, kind, &protected, &mut recovered),
            Ok(AuthenticationDecision::Rejected)
        );
        assert_eq!(recovered, [0; BODY_BYTES]);
    }
}

#[test]
fn every_protected_byte_is_authenticated_without_exposing_plaintext() {
    let protector = protector();
    let context = context(0x9a);
    let kind = ReplayJournalRecordKind::CurrentStateV3;
    let protected = seal(&protector, &context, kind);

    for index in 0..protected.len() {
        let mut candidate = protected;
        candidate[index] ^= 1;
        let mut recovered = [0xff; BODY_BYTES];

        assert_eq!(
            protector.open(&context, kind, &candidate, &mut recovered),
            Ok(AuthenticationDecision::Rejected)
        );
        assert_eq!(recovered, [0; BODY_BYTES]);
    }
}

#[test]
fn each_seal_draws_a_fresh_nonce() {
    let protector = protector();
    let context = context(0x9a);
    let kind = ReplayJournalRecordKind::CurrentStateV3;

    let first = seal(&protector, &context, kind);
    let second = seal(&protector, &context, kind);

    assert_ne!(first[..NONCE_BYTES], second[..NONCE_BYTES]);
    assert_ne!(first[CIPHERTEXT_START..], second[CIPHERTEXT_START..]);
}

#[test]
fn an_unavailable_nonce_source_fails_the_seal_closed() {
    let nonces = CountingNonces::new();
    nonces.available.set(false);
    let protector = record_protector(domain(), key(), nonces);
    let mut protected = [0; BODY_BYTES + PROTECTION_OVERHEAD_BYTES];

    assert_eq!(
        protector.seal(
            &context(0x9a),
            ReplayJournalRecordKind::CurrentStateV3,
            &PLAINTEXT,
            &mut protected,
        ),
        Err(ProtectionUnavailable)
    );
    assert_eq!(protected, [0; BODY_BYTES + PROTECTION_OVERHEAD_BYTES]);
}

#[test]
fn mismatched_buffer_lengths_are_rejected_before_any_key_use() {
    let protector = protector();
    let context = context(0x9a);
    let kind = ReplayJournalRecordKind::CurrentStateV3;
    let mut short = [0; BODY_BYTES + PROTECTION_OVERHEAD_BYTES - 1];

    assert_eq!(
        protector.seal(&context, kind, &PLAINTEXT, &mut short),
        Err(ProtectionUnavailable)
    );

    let protected = seal(&protector, &context, kind);
    let mut wide = [0; BODY_BYTES + 1];

    assert_eq!(
        protector.open(&context, kind, &protected, &mut wide),
        Err(ProtectionUnavailable)
    );
}

#[test]
fn the_operating_system_source_yields_distinct_nonces() {
    let first = OsJournalRecordNonces
        .next_nonce()
        .expect("operating system nonce is available");
    let second = OsJournalRecordNonces
        .next_nonce()
        .expect("operating system nonce is available");

    assert_ne!(first, second);
    assert_ne!(first, [0; NONCE_BYTES]);
}

/// Bodies of every width around the stream's blocks, for both kinds.
#[test]
fn bodies_of_any_width_round_trip_and_no_other_context_opens_them() {
    for length in [0_usize, 1, 31, 32, 33, 64, 120, 200] {
        for kind in KINDS {
            let protector = protector();
            let body: Vec<u8> = (0..length).map(|index| (index * 7) as u8).collect();
            let mut protected = vec![0; length + PROTECTION_OVERHEAD_BYTES];
            assert_eq!(
                protector.seal(&context(1), kind, &body, &mut protected),
                Ok(())
            );
            let mut recovered = vec![0; length];
            assert_eq!(
                protector.open(&context(1), kind, &protected, &mut recovered),
                Ok(AuthenticationDecision::Accepted)
            );
            assert_eq!(recovered, body);
            recovered.fill(0xff);
            assert_eq!(
                protector.open(&context(2), kind, &protected, &mut recovered),
                Ok(AuthenticationDecision::Rejected)
            );
            assert!(recovered.iter().all(|byte| *byte == 0));
        }
    }
}

#[test]
fn unavailable_keys_are_reported_and_leave_the_output_alone() {
    let kind = ReplayJournalRecordKind::CurrentStateV3;
    let protected = seal(&protector(), &context(1), kind);
    let unavailable = record_protector(
        domain(),
        KeyedStream {
            key: KEY,
            available: false,
        },
        CountingNonces::new(),
    );
    let mut output = [0; BODY_BYTES + PROTECTION_OVERHEAD_BYTES];
    assert_eq!(
        unavailable.seal(&context(1), kind, &PLAINTEXT, &mut output),
        Err(ProtectionUnavailable)
    );
    assert_eq!(output, [0; BODY_BYTES + PROTECTION_OVERHEAD_BYTES]);
    let mut body = [0xff; BODY_BYTES];
    assert_eq!(
        unavailable.open(&context(1), kind, &protected, &mut body),
        Err(ProtectionUnavailable)
    );
    assert_eq!(body, [0xff; BODY_BYTES]);
    assert_eq!(
        unavailable.debug_text(),
        "XChaCha20ReplayJournalRecordProtector { ..REDACTED.. }"
    );
}

#[test]
fn associated_data_names_domain_version_kind_and_context() {
    assert_eq!(
        associated_data(
            b"d",
            &context(0x9a),
            ReplayJournalRecordKind::ImmutableEntryV2
        ),
        [
            b"d".as_slice(),
            [0, 2].as_slice(),
            [1].as_slice(),
            [0x9a; 32].as_slice()
        ]
        .concat()
    );
    assert_eq!(
        associated_data(b"", &context(7), ReplayJournalRecordKind::CurrentStateV3),
        [
            [0, 3].as_slice(),
            [0].as_slice(),
            [7; 32].as_slice()
        ]
        .concat()
    );
}

#[test]
fn a_sealed_record_begins_with_the_supplied_nonce() {
    let protector = protector();

    for (kind, value) in [(KINDS[0], 1), (KINDS[1], 2)] {
        let protected = seal(&protector, &context(1), kind);

        assert_eq!(protected[..NONCE_BYTES], [value; NONCE_BYTES]);
    }
}

#[test]
fn an_unfilled_nonce_is_not_supplied() {
    assert_eq!(supplied_nonce(true, [7; NONCE_BYTES]), Ok([7; NONCE_BYTES]));
    assert_eq!(
        supplied_nonce(false, [7; NONCE_BYTES]),
        Err(ProtectionUnavailable)
    );
}
