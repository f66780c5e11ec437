use std::cell::Cell;
use std::cell::RefCell;
use std::rc::Rc;

use zaino_oram::record_files::ExactFileRead;
use zaino_oram::record_files::RealDirectoryError;
use zaino_oram::security_state::PersistentSecurityState;
use zaino_oram::security_state::PersistentSecurityStateError;
use zaino_oram::security_state::SecurityFreshness;
use zaino_oram::security_state::SecurityStateCommitment;
use zaino_oram::security_state::SecurityStateEpochs;
use zaino_oram::security_state::SecurityStateIdentity;
use zaino_oram::security_state::SecurityStateSnapshot;
use zaino_oram::security_state::SecurityStateSuccessorError;
use zaino_oram::security_state::SecurityStateValueError;
use zaino_oram::security_state::FILE_MAGIC_START;
use zaino_oram::security_state::FILE_VERSION_START;
use zaino_oram::security_state::PERSISTENT_SECURITY_STATE_BYTES;
use zaino_oram::security_state::PROFILE_ID_BYTES;
use zaino_oram::security_state::SECURITY_EPOCH_BINDING_BYTES;
use zaino_oram::security_state::SECURITY_EPOCH_BINDING_START;
use zaino_oram::security_state::SECURITY_STATE_FILE_MAGIC;
use zaino_oram::security_state::SECURITY_STATE_FILE_VERSION;
use zaino_oram::security_state::SEQUENCE_START;
use zaino_oram::security_state::SERVICE_ID_BYTES;
use zaino_oram::security_state::SERVICE_ID_START;
use zaino_oram::security_state::SESSION_BINDING_BYTES;
use zaino_oram::security_state::SESSION_BINDING_START;
use zaino_oram::security_state::STATE_DIGEST_BYTES;
use zaino_oram::security_state_store::load_local_state;
use zaino_oram::security_state_store::map_security_directory_error;
use zaino_oram::security_state_store::reconcile_local_state;
use zaino_oram::security_state_store::validate_advance;
use zaino_oram::security_state_store::LocalStateLoadError;
use zaino_oram::security_state_store::SecurityFreshnessWitness;
use zaino_oram::security_state_store::SecurityStateDirectory;
use zaino_oram::security_state_store::SecurityStateFiles;
use zaino_oram::security_state_store::SecurityStateStore;
use zaino_oram::security_state_store::SecurityStateStoreError;

#[derive(Debug, Clone, Copy, PartialEq, Eq)]
enum TestWitnessError {
    Unavailable,
    Conflict,
    InvalidTransition,
    LocalOrder,
}

/// One recovery directory: its authoritative file, and its orphaned staging files.
struct Disk {
    current: Option<Vec<u8>>,
    orphans: Vec<Vec<u8>>,
    unsafe_root: bool,
    stage_fails: bool,
    replace_fails: bool,
    sync_fails: bool,
}

#[derive(Clone)]
struct MemoryFiles {
    disk: Rc<RefCell<Disk>>,
}

impl MemoryFiles {
    fn empty() -> Self {
        Self {
            disk: Rc::new(RefCell::new(Disk {
                current: None,
                orphans: Vec::new(),
                unsafe_root: false,
                stage_fails: false,
                replace_fails: false,
                sync_fails: false,
            })),
        }
    }

    fn write_local_state(&self, state: SecurityStateSnapshot) {
        self.disk.borrow_mut().current = Some(
            PersistentSecurityState::from_business(&state)
                .as_bytes()
                .to_vec(),
        );
    }
}

impl SecurityStateFiles for MemoryFiles {
    type Staged = Vec<u8>;

    fn read_current(&mut self) -> ExactFileRead {
        match &self.disk.borrow().current {
            None => ExactFileRead::Missing,
            Some(bytes) => {
                if bytes.len() < PERSISTENT_SECURITY_STATE_BYTES {
                    ExactFileRead::Short
                } else if bytes.len() > PERSISTENT_SECURITY_STATE_BYTES {
                    ExactFileRead::Trailing
                } else {
                    ExactFileRead::Exact(bytes.clone())
                }
            }
        }
    }

    fn ensure_real_directory(
        &mut self,
        directory: SecurityStateDirectory,
    ) -> Result<(), RealDirectoryError> {
        if self.disk.borrow().unsafe_root && directory == SecurityStateDirectory::Recovery {
            return Err(RealDirectoryError::UnsafePath);
        }
        Ok(())
    }

    fn sync_directory(&mut self, _directory: SecurityStateDirectory) -> bool {
        !self.disk.borrow().sync_fails
    }

    fn stage(&mut self, record: &[u8; PERSISTENT_SECURITY_STATE_BYTES]) -> Option<Vec<u8>> {
        if self.disk.borrow().stage_fails {
            return None;
        }
        Some(record.to_vec())
    }

    fn replace_current(&mut self, staged: Vec<u8>) -> bool {
        if self.disk.borrow().replace_fails {
            return false;
        }
        self.disk.borrow_mut().current = Some(staged);
        true
    }
}

#[derive(Clone)]
struct SharedWitness {
    state: Rc<RefCell<Option<SecurityFreshness>>>,
    available: Rc<Cell<bool>>,
    reject_advance: Rc<Cell<bool>>,
    advance_then_fail: Rc<Cell<bool>>,
    inspected: Rc<RefCell<Option<MemoryFiles>>>,
    saw_matching_local_state: Rc<Cell<bool>>,
}

impl SharedWitness {
    fn empty() -> Self {
        Self {
            state: Rc::new(RefCell::new(None)),
            available: Rc::new(Cell::new(true)),
            reject_advance: Rc::new(Cell::new(false)),
            advance_then_fail: Rc::new(Cell::new(false)),
            inspected: Rc::new(RefCell::new(None)),
            saw_matching_local_state: Rc::new(Cell::new(false)),
        }
    }

    fn value(&self) -> Option<SecurityFreshness> {
        *self.state.borrow()
    }

    fn force(&self, value: Option<SecurityFreshness>) {
        *self.state.borrow_mut() = value;
    }

    fn verify_local_before_advance(&self, next: SecurityFreshness) -> Result<(), TestWitnessError> {
        let inspected = self.inspected.borrow();
        let files = match inspected.as_ref() {
            Some(files) => files,
            None => return Ok(()),
        };
        let bytes = match &files.disk.borrow().current {
            Some(bytes) => bytes.clone(),
            None => return Err(TestWitnessError::LocalOrder),
        };
        let state = PersistentSecurityState::try_from_bytes(&bytes)
            .and_then(|persistent| persistent.into_business())
            .map_err(|_| TestWitnessError::LocalOrder)?;
        if state.freshness() != next {
            return Err(TestWitnessError::LocalOrder);
        }
        self.saw_matching_local_state.set(true);
        Ok(())
    }
}

impl SecurityFreshnessWitness for SharedWitness {
    type Error = TestWitnessError;

    fn current(&mut self) -> Result<Option<SecurityFreshness>, TestWitnessError> {
        if !self.available.get() {
            return Err(TestWitnessError::Unavailable);
        }
        Ok(self.value())
    }

    fn compare_and_advance(
        &mut self,
        expected: Option<SecurityFreshness>,
        next: SecurityFreshness,
    ) -> Result<(), TestWitnessError> {
        if !self.available.get() {
            return Err(TestWitnessError::Unavailable);
        }
        self.verify_local_before_advance(next)?;
        if self.value() != expected {
            return Err(TestWitnessError::Conflict);
        }
        let valid_sequence = match expected {
            None => next.sequence() == 1,
            Some(current) => current.sequence().checked_add(1) == Some(next.sequence()),
        };
        if !valid_sequence {
            return Err(TestWitnessError::InvalidTransition);
        }
        if self.advance_then_fail.replace(false) {
            self.force(Some(next));
            return Err(TestWitnessError::Unavailable);
        }
        if self.reject_advance.get() {
            return Err(TestWitnessError::Unavailable);
        }
        self.force(Some(next));
        Ok(())
    }
}

fn identity(seed: u8) -> SecurityStateIdentity {
    let epochs = SecurityStateEpochs::new(
        u16::from(seed),
        u64::from(seed) + 1,
        u64::from(seed) + 2,
        u64::from(seed) + 3,
    )
    .unwrap();
    SecurityStateIdentity::new(
        [seed; SERVICE_ID_BYTES],
        epochs,
        [seed.wrapping_add(1); PROFILE_ID_BYTES],
        [seed.wrapping_add(2); SESSION_BINDING_BYTES],
        [seed.wrapping_add(3); SECURITY_EPOCH_BINDING_BYTES],
    )
    .unwrap()
}

fn commitment(seed: u8) -> SecurityStateCommitment {
    commitment_for_identity(identity(seed), seed)
}

fn commitment_for_identity(identity: SecurityStateIdentity, seed: u8) -> SecurityStateCommitment {
    SecurityStateCommitment::new(
        identity,
        [seed.wrapping_add(4); STATE_DIGEST_BYTES],
        [seed.wrapping_add(5); STATE_DIGEST_BYTES],
    )
    .unwrap()
}

fn state(sequence: u64, seed: u8) -> SecurityStateSnapshot {
    SecurityStateSnapshot::new(sequence, commitment(seed)).unwrap()
}

fn state_with_identity(
    sequence: u64,
    identity: SecurityStateIdentity,
    seed: u8,
) -> SecurityStateSnapshot {
    SecurityStateSnapshot::new(sequence, commitment_for_identity(identity, seed)).unwrap()
}

fn assert_digest_changed(
    base: SecurityStateCommitment,
    mutate: impl FnOnce(&mut SecurityStateCommitment),
) {
    let mut changed = base;
    mutate(&mut changed);
    assert!(changed.digest() != base.digest());
}

#[test]
fn security_state_values_reject_every_zero_required_field() {
    let valid = identity(1);
    assert!(
        SecurityStateIdentity::new(
            [0; SERVICE_ID_BYTES],
            valid.epochs,
            valid.profile_id,
            valid.session_binding,
            valid.security_epoch_binding,
        ) == Err(SecurityStateValueError::ServiceIdIsEmpty)
    );
    assert!(matches!(
        SecurityStateEpochs::new(
            0,
            valid.epochs.owner_generation,
            valid.epochs.key_epoch,
            valid.epochs.projection_epoch,
        ),
        Err(SecurityStateValueError::ProtocolVersionIsZero)
    ));
    assert!(matches!(
        SecurityStateEpochs::new(
            valid.epochs.protocol_version,
            0,
            valid.epochs.key_epoch,
            valid.epochs.projection_epoch,
        ),
        Err(SecurityStateValueError::OwnerGenerationIsMissing)
    ));
    assert!(matches!(
        SecurityStateEpochs::new(
            valid.epochs.protocol_version,
            valid.epochs.owner_generation,
            0,
            valid.epochs.projection_epoch,
        ),
        Err(SecurityStateValueError::KeyEpochIsMissing)
    ));
    assert!(matches!(
        SecurityStateEpochs::new(
            valid.epochs.protocol_version,
            valid.epochs.owner_generation,
            valid.epochs.key_epoch,
            0,
        ),
        Err(SecurityStateValueError::ProjectionEpochIsMissing)
    ));
    assert!(
        SecurityStateIdentity::new(
            valid.service_id,
            valid.epochs,
            [0; PROFILE_ID_BYTES],
            valid.session_binding,
            valid.security_epoch_binding,
        ) == Err(SecurityStateValueError::ProfileIdIsEmpty)
    );
    assert!(
        SecurityStateIdentity::new(
            valid.service_id,
            valid.epochs,
            valid.profile_id,
            [0; SESSION_BINDING_BYTES],
            valid.security_epoch_binding,
        ) == Err(SecurityStateValueError::SessionBindingIsEmpty)
    );
    assert!(
        SecurityStateIdentity::new(
            valid.service_id,
            valid.epochs,
            valid.profile_id,
            valid.session_binding,
            [0; SECURITY_EPOCH_BINDING_BYTES],
        ) == Err(SecurityStateValueError::SecurityEpochBindingIsEmpty)
    );
    assert!(
        SecurityStateCommitment::new(valid, [0; STATE_DIGEST_BYTES], [1; STATE_DIGEST_BYTES])
            == Err(SecurityStateValueError::ServingIdentityDigestIsEmpty)
    );
    assert!(
        SecurityStateCommitment::new(valid, [1; STATE_DIGEST_BYTES], [0; STATE_DIGEST_BYTES])
            == Err(SecurityStateValueError::ComponentStateDigestIsEmpty)
    );
    assert!(
        SecurityStateSnapshot::new(0, commitment(1))
            == Err(SecurityStateValueError::SequenceIsMissing)
    );
}

#[test]
fn security_state_identity_successor_rejects_namespace_and_epoch_rollback() {
    let current = identity(7);
    assert_eq!(current.validate_successor(&current), Ok(()));

    let mut changed_service = current;
    changed_service.service_id[0] ^= 1;
    assert_eq!(
        current.validate_successor(&changed_service),
        Err(SecurityStateSuccessorError::ServiceIdentityChanged)
    );

    let mut changed_protocol = current;
    changed_protocol.epochs.protocol_version += 1;
    assert_eq!(
        current.validate_successor(&changed_protocol),
        Err(SecurityStateSuccessorError::ProtocolVersionChanged)
    );

    let mut changed_profile = current;
    changed_profile.profile_id[0] ^= 1;
    assert_eq!(
        current.validate_successor(&changed_profile),
        Err(SecurityStateSuccessorError::ProfileIdentityChanged)
    );

    let mut regressed_owner = current;
    regressed_owner.epochs.owner_generation -= 1;
    assert_eq!(
        current.validate_successor(&regressed_owner),
        Err(SecurityStateSuccessorError::OwnerGenerationRegressed)
    );

    let mut regressed_key = current;
    regressed_key.epochs.key_epoch -= 1;
    assert_eq!(
        current.validate_successor(&regressed_key),
        Err(SecurityStateSuccessorError::KeyEpochRegressed)
    );

    let mut regressed_projection = current;
    regressed_projection.epochs.projection_epoch -= 1;
    assert_eq!(
        current.validate_successor(&regressed_projection),
        Err(SecurityStateSuccessorError::ProjectionEpochRegressed)
    );

    let mut key_only_rotation = current;
    key_only_rotation.epochs.key_epoch += 1;
    assert_eq!(
        current.validate_successor(&key_only_rotation),
        Err(SecurityStateSuccessorError::OwnerGenerationDidNotAdvance)
    );

    let mut incomplete_rotation = current;
    incomplete_rotation.epochs.owner_generation += 1;
    incomplete_rotation.epochs.key_epoch += 1;
    incomplete_rotation.epochs.projection_epoch += 1;
    assert_eq!(
        current.validate_successor(&incomplete_rotation),
        Err(SecurityStateSuccessorError::SessionBindingNotRotated)
    );
    incomplete_rotation.session_binding[0] ^= 1;
    assert_eq!(
        current.validate_successor(&incomplete_rotation),
        Err(SecurityStateSuccessorError::SecurityEpochBindingNotRotated)
    );
    incomplete_rotation.security_epoch_binding[0] ^= 1;
    assert_eq!(current.validate_successor(&incomplete_rotation), Ok(()));
}

#[test]
fn persistent_security_state_round_trips_exact_fixed_layout() {
    let state = state(9, 7);
    let persistent = PersistentSecurityState::from_business(&state);
    assert_eq!(persistent.as_bytes().len(), PERSISTENT_SECURITY_STATE_BYTES);
    assert_eq!(
        &persistent.as_bytes()[FILE_MAGIC_START..FILE_VERSION_START],
        &SECURITY_STATE_FILE_MAGIC
    );
    assert_eq!(
        &persistent.as_bytes()[FILE_VERSION_START..SEQUENCE_START],
        &SECURITY_STATE_FILE_VERSION.to_be_bytes()
    );
    assert_eq!(
        &persistent.as_bytes()[SEQUENCE_START..SERVICE_ID_START],
        &9_u64.to_be_bytes()
    );
    assert_eq!(
        std::mem::size_of::<PersistentSecurityState>(),
        PERSISTENT_SECURITY_STATE_BYTES
    );
    let encoded_hex = persistent
        .as_bytes()
        .iter()
        .map(|byte| format!("{byte:02x}"))
        .collect::<String>();
    let expected = [
        "5a4f52414d535331",
        "0001",
        "0000000000000009",
        "07070707070707070707070707070707",
        "0007",
        "0000000000000008",
        "0000000000000009",
        "000000000000000a",
        "08080808080808080808080808080808",
        "09090909090909090909090909090909",
        "09090909090909090909090909090909",
        "0a0a0a0a0a0a0a0a0a0a0a0a0a0a0a0a",
        "0a0a0a0a0a0a0a0a0a0a0a0a0a0a0a0a",
        "0b0b0b0b0b0b0b0b0b0b0b0b0b0b0b0b",
        "0b0b0b0b0b0b0b0b0b0b0b0b0b0b0b0b",
        "0c0c0c0c0c0c0c0c0c0c0c0c0c0c0c0c",
        "0c0c0c0c0c0c0c0c0c0c0c0c0c0c0c0c",
    ]
    .join("");
    assert_eq!(encoded_hex, expected);
    assert!(persistent.into_business() == Ok(state));
}

#[test]
fn persistent_security_state_rejects_layout_version_and_business_mutations() {
    let state = state(1, 3);
    let valid = PersistentSecurityState::from_business(&state);
    assert!(matches!(
        PersistentSecurityState::try_from_bytes(
            &valid.as_bytes()[..PERSISTENT_SECURITY_STATE_BYTES - 1]
        ),
        Err(PersistentSecurityStateError::InvalidFixedLayout)
    ));

    let mut wrong_magic = PersistentSecurityState::from_business(&state);
    wrong_magic.0[FILE_MAGIC_START] ^= 1;
    assert!(wrong_magic.into_business() == Err(PersistentSecurityStateError::InvalidMagic));

    let mut wrong_version = PersistentSecurityState::from_business(&state);
    wrong_version.0[FILE_VERSION_START..SEQUENCE_START].copy_from_slice(&2_u16.to_be_bytes());
    assert!(
        wrong_version.into_business()
            == Err(PersistentSecurityStateError::UnsupportedVersion { actual: 2 })
    );

    let mut zero_sequence = PersistentSecurityState::from_business(&state);
    zero_sequence.0[SEQUENCE_START..SERVICE_ID_START].fill(0);
    assert!(
        zero_sequence.into_business()
            == Err(PersistentSecurityStateError::InvalidState(
                SecurityStateValueError::SequenceIsMissing
            ))
    );

    let mut zero_session = PersistentSecurityState::from_business(&state);
    zero_session.0[SESSION_BINDING_START..SECURITY_EPOCH_BINDING_START].fill(0);
    assert!(
        zero_session.into_business()
            == Err(PersistentSecurityStateError::InvalidState(
                SecurityStateValueError::SessionBindingIsEmpty
            ))
    );
}

#[test]
fn commitment_digest_binds_every_field_but_sequence_is_separate() {
    let base = commitment(4);
    assert_digest_changed(base, |value| value.identity.service_id[0] ^= 1);
    assert_digest_changed(base, |value| value.identity.epochs.protocol_version += 1);
    assert_digest_changed(base, |value| value.identity.epochs.owner_generation += 1);
    assert_digest_changed(base, |value| value.identity.epochs.key_epoch += 1);
    assert_digest_changed(base, |value| value.identity.epochs.projection_epoch += 1);
    assert_digest_changed(base, |value| value.identity.profile_id[0] ^= 1);
    assert_digest_changed(base, |value| value.identity.session_binding[0] ^= 1);
    assert_digest_changed(base, |value| value.identity.security_epoch_binding[0] ^= 1);
    assert_digest_changed(base, |value| value.serving_identity_digest[0] ^= 1);
    assert_digest_changed(base, |value| value.component_state_digest[0] ^= 1);

    let first = SecurityStateSnapshot::new(1, base).unwrap();
    let second = SecurityStateSnapshot::new(2, base).unwrap();
    assert!(first.commitment.digest() == second.commitment.digest());
    assert!(first.freshness() != second.freshness());
}

#[test]
fn current_returns_none_only_when_witness_and_local_state_are_absent() {
    let files = MemoryFiles::empty();
    let witness = SharedWitness::empty();
    let mut store = SecurityStateStore::new(files, witness.clone());
    assert!(store.current() == Ok(None));

    witness.available.set(false);
    assert!(store.current() == Err(SecurityStateStoreError::WitnessUnavailable));
    witness.available.set(true);
    assert!(store.current() == Ok(None));
}

#[test]
fn current_rejects_every_local_and_witness_mismatch_class() {
    let local_files = MemoryFiles::empty();
    let local_state = state(1, 8);
    local_files.write_local_state(local_state);
    let mut store = SecurityStateStore::new(local_files, SharedWitness::empty());
    assert!(store.current() == Err(SecurityStateStoreError::UnexpectedLocalStateWithoutWitness));

    let missing_witness = SharedWitness::empty();
    missing_witness.force(Some(local_state.freshness()));
    let mut store = SecurityStateStore::new(MemoryFiles::empty(), missing_witness);
    assert!(store.current() == Err(SecurityStateStoreError::WitnessBoundStateMissing));

    let corrupt_files = MemoryFiles::empty();
    corrupt_files.disk.borrow_mut().current = Some(b"corrupt".to_vec());
    let corrupt_witness = SharedWitness::empty();
    corrupt_witness.force(Some(local_state.freshness()));
    let mut store = SecurityStateStore::new(corrupt_files, corrupt_witness);
    assert!(store.current() == Err(SecurityStateStoreError::WitnessBoundStateCorrupt));

    assert!(
        reconcile_local_state(
            Some(local_state.freshness()),
            Err(LocalStateLoadError::Unreadable)
        ) == Err(SecurityStateStoreError::WitnessBoundStateUnreadable)
    );
    assert!(
        reconcile_local_state(None, Err(LocalStateLoadError::Unreadable))
            == Err(SecurityStateStoreError::UnexpectedLocalStateWithoutWitness)
    );

    let mismatch_files = MemoryFiles::empty();
    mismatch_files.write_local_state(local_state);
    let mismatch_witness = SharedWitness::empty();
    mismatch_witness.force(Some(state(2, 9).freshness()));
    let mut store = SecurityStateStore::new(mismatch_files, mismatch_witness);
    assert!(store.current() == Err(SecurityStateStoreError::WitnessLocalMismatch));
}

#[test]
fn current_rejects_an_oversized_local_snapshot() {
    let files = MemoryFiles::empty();
    let local_state = state(1, 9);
    let mut oversized = PersistentSecurityState::from_business(&local_state)
        .as_bytes()
        .to_vec();
    oversized.push(0);
    files.disk.borrow_mut().current = Some(oversized);
    let witness = SharedWitness::empty();
    witness.force(Some(local_state.freshness()));
    let mut store = SecurityStateStore::new(files, witness);

    assert!(store.current() == Err(SecurityStateStoreError::WitnessBoundStateCorrupt));
}

#[test]
fn stale_staging_files_are_never_recovery_authority() {
    let files = MemoryFiles::empty();
    files.disk.borrow_mut().orphans.push(b"state".to_vec());
    let mut store = SecurityStateStore::new(files, SharedWitness::empty());
    assert!(store.current() == Ok(None));
}

#[test]
fn compare_and_advance_commits_local_state_before_witness() {
    let files = MemoryFiles::empty();
    let witness = SharedWitness::empty();
    *witness.inspected.borrow_mut() = Some(files.clone());
    let mut store = SecurityStateStore::new(files, witness.clone());
    let first = state(1, 10);

    store.compare_and_advance(None, first).unwrap();

    assert!(witness.saw_matching_local_state.get());
    assert!(witness.value() == Some(first.freshness()));
    assert!(store.current() == Ok(Some(first)));
}

#[test]
fn compare_and_advance_requires_exact_expected_state_and_successor_sequence() {
    let mut store = SecurityStateStore::new(MemoryFiles::empty(), SharedWitness::empty());
    let first = state(1, 11);
    let alternate_first = state(1, 12);
    let second = state_with_identity(2, first.commitment.identity, 13);
    let skipped = state_with_identity(3, first.commitment.identity, 14);

    assert_eq!(
        store.compare_and_advance(Some(alternate_first), first),
        Err(SecurityStateStoreError::ExpectedStateMismatch)
    );
    assert_eq!(
        store.compare_and_advance(None, second),
        Err(SecurityStateStoreError::InvalidSequenceTransition)
    );
    store.compare_and_advance(None, first).unwrap();
    assert_eq!(
        store.compare_and_advance(Some(alternate_first), second),
        Err(SecurityStateStoreError::ExpectedStateMismatch)
    );
    assert_eq!(
        store.compare_and_advance(Some(first), skipped),
        Err(SecurityStateStoreError::InvalidSequenceTransition)
    );
    store.compare_and_advance(Some(first), second).unwrap();
    assert!(store.current() == Ok(Some(second)));
}

#[test]
fn compare_and_advance_rejects_identity_rollback_before_local_mutation() {
    let witness = SharedWitness::empty();
    let mut store = SecurityStateStore::new(MemoryFiles::empty(), witness.clone());
    let first = state(1, 24);
    store.compare_and_advance(None, first).unwrap();

    let mut regressed_commitment = first.commitment;
    regressed_commitment.identity.epochs.key_epoch -= 1;
    let regressed = SecurityStateSnapshot::new(2, regressed_commitment).unwrap();
    assert_eq!(
        store.compare_and_advance(Some(first), regressed),
        Err(SecurityStateStoreError::InvalidIdentityTransition(
            SecurityStateSuccessorError::KeyEpochRegressed
        ))
    );
    assert!(witness.value() == Some(first.freshness()));
    assert!(store.current() == Ok(Some(first)));
}

#[test]
fn sequence_overflow_fails_before_local_mutation() {
    let files = MemoryFiles::empty();
    let witness = SharedWitness::empty();
    let current = state(u64::MAX, 15);
    files.write_local_state(current);
    witness.force(Some(current.freshness()));
    let mut store = SecurityStateStore::new(files, witness.clone());

    assert_eq!(
        store.compare_and_advance(Some(current), current),
        Err(SecurityStateStoreError::InvalidSequenceTransition)
    );
    assert!(witness.value() == Some(current.freshness()));
    assert!(store.current() == Ok(Some(current)));
}

#[test]
fn staged_but_unreplaced_state_is_ignored_after_restart() {
    let files = MemoryFiles::empty();
    let witness = SharedWitness::empty();
    let mut store = SecurityStateStore::new(files.clone(), witness.clone());
    let first = state(1, 16);
    let second = state_with_identity(2, first.commitment.identity, 17);
    store.compare_and_advance(None, first).unwrap();

    let staged = store.stage_advance(Some(first), second).ok().unwrap();
    files.disk.borrow_mut().orphans.push(staged.file);
    drop(store);

    assert_eq!(files.disk.borrow().orphans.len(), 1);
    assert!(witness.value() == Some(first.freshness()));
    let mut restarted = SecurityStateStore::new(files, witness);
    assert!(restarted.current() == Ok(Some(first)));
    restarted.compare_and_advance(Some(first), second).unwrap();
    assert!(restarted.current() == Ok(Some(second)));
}

#[test]
fn durable_local_advance_without_witness_is_rejected_after_restart() {
    let files = MemoryFiles::empty();
    let witness = SharedWitness::empty();
    let mut store = SecurityStateStore::new(files.clone(), witness.clone());
    let first = state(1, 18);
    let second = state_with_identity(2, first.commitment.identity, 19);
    store.compare_and_advance(None, first).unwrap();

    let staged = store.stage_advance(Some(first), second).ok().unwrap();
    let _durable = store.make_local_advance_durable(staged).ok().unwrap();
    drop(store);

    let mut restarted = SecurityStateStore::new(files, witness.clone());
    assert!(restarted.current() == Err(SecurityStateStoreError::WitnessLocalMismatch));
    assert!(witness.value() == Some(first.freshness()));
    witness.force(Some(second.freshness()));
    assert!(restarted.current() == Ok(Some(second)));
}

#[test]
fn rejected_witness_advance_latches_after_local_commit() {
    let files = MemoryFiles::empty();
    let witness = SharedWitness::empty();
    let mut store = SecurityStateStore::new(files.clone(), witness.clone());
    let first = state(1, 20);
    let second = state_with_identity(2, first.commitment.identity, 21);
    store.compare_and_advance(None, first).unwrap();
    witness.reject_advance.set(true);

    assert_eq!(
        store.compare_and_advance(Some(first), second),
        Err(SecurityStateStoreError::WitnessAdvanceUnresolved)
    );
    assert!(store.current() == Err(SecurityStateStoreError::LatchedIndeterminate));
    assert!(witness.value() == Some(first.freshness()));

    witness.reject_advance.set(false);
    let mut restarted = SecurityStateStore::new(files, witness.clone());
    assert!(restarted.current() == Err(SecurityStateStoreError::WitnessLocalMismatch));
    witness.force(Some(second.freshness()));
    assert!(restarted.current() == Ok(Some(second)));
}

#[test]
fn ambiguous_witness_error_recovers_only_after_fresh_reconciliation() {
    let files = MemoryFiles::empty();
    let witness = SharedWitness::empty();
    let mut store = SecurityStateStore::new(files.clone(), witness.clone());
    let first = state(1, 22);
    let second = state_with_identity(2, first.commitment.identity, 23);
    store.compare_and_advance(None, first).unwrap();
    witness.advance_then_fail.set(true);

    assert_eq!(
        store.compare_and_advance(Some(first), second),
        Err(SecurityStateStoreError::WitnessAdvanceUnresolved)
    );
    assert!(witness.value() == Some(second.freshness()));
    assert!(store.current() == Err(SecurityStateStoreError::LatchedIndeterminate));

    let mut restarted = SecurityStateStore::new(files, witness);
    assert!(restarted.current() == Ok(Some(second)));
}

#[test]
fn compare_and_advance_rejects_a_symlinked_recovery_directory() {
    let files = MemoryFiles::empty();
    files.disk.borrow_mut().unsafe_root = true;
    let mut store = SecurityStateStore::new(files.clone(), SharedWitness::empty());

    assert_eq!(
        store.compare_and_advance(None, state(1, 20)),
        Err(SecurityStateStoreError::UnsafeRecoveryPath)
    );
    assert!(files.disk.borrow().current.is_none());
}

#[test]
fn security_state_debug_output_redacts_identity_and_witness_values() {
    let state = state(1, 21);
    assert_eq!(
        state.commitment.identity.debug_text(),
        "SecurityStateIdentity { ..REDACTED.. }"
    );
    assert_eq!(
        state.commitment.debug_text(),
        "SecurityStateCommitment { ..REDACTED.. }"
    );
    assert_eq!(
        state.freshness().debug_text(),
        "SecurityFreshness { ..REDACTED.. }"
    );
    let store = SecurityStateStore::new(MemoryFiles::empty(), SharedWitness::empty());
    let debug = store.debug_text();
    assert!(debug.contains("REDACTED"));
    assert!(!debug.contains("SharedWitness"));
}

/// A stage that fails changes nothing; a failed rename or sync after it latches the store.
#[test]
fn local_failures_latch_only_after_the_rename() {
    let files = MemoryFiles::empty();
    let witness = SharedWitness::empty();
    let first = state(1, 30);

    let mut store = SecurityStateStore::new(files.clone(), witness.clone());
    files.disk.borrow_mut().stage_fails = true;
    assert_eq!(
        store.compare_and_advance(None, first),
        Err(SecurityStateStoreError::LocalStateStageUnavailable)
    );
    assert!(store.current() == Ok(None));

    files.disk.borrow_mut().stage_fails = false;
    files.disk.borrow_mut().replace_fails = true;
    assert_eq!(
        store.compare_and_advance(None, first),
        Err(SecurityStateStoreError::LocalStateIndeterminate)
    );
    assert!(store.current() == Err(SecurityStateStoreError::LatchedIndeterminate));
    assert_eq!(
        store.compare_and_advance(None, first),
        Err(SecurityStateStoreError::LatchedIndeterminate)
    );
    assert!(witness.value().is_none());
}

#[test]
fn local_reads_are_classified_by_their_width() {
    let stored = state(3, 31);
    let bytes = PersistentSecurityState::from_business(&stored)
        .as_bytes()
        .to_vec();
    assert!(load_local_state(ExactFileRead::Missing) == Err(LocalStateLoadError::Missing));
    assert!(load_local_state(ExactFileRead::Exact(bytes)) == Ok(stored));
    assert!(load_local_state(ExactFileRead::Short) == Err(LocalStateLoadError::Corrupt));
    assert!(load_local_state(ExactFileRead::Trailing) == Err(LocalStateLoadError::Corrupt));
    assert!(load_local_state(ExactFileRead::Unreadable) == Err(LocalStateLoadError::Unreadable));
}

#[test]
fn advance_checks_expectation_then_sequence_then_identity() {
    let first = state(1, 32);
    let second = state_with_identity(2, first.commitment.identity, 33);
    assert!(validate_advance(&None, &None, &first) == Ok(()));
    assert!(validate_advance(&Some(first), &Some(first), &second) == Ok(()));
    assert!(
        validate_advance(&Some(first), &None, &second)
            == Err(SecurityStateStoreError::ExpectedStateMismatch)
    );
    assert!(
        validate_advance(&Some(first), &Some(first), &first)
            == Err(SecurityStateStoreError::InvalidSequenceTransition)
    );
    let foreign = state(2, 34);
    assert!(
        validate_advance(&Some(first), &Some(first), &foreign)
            == Err(SecurityStateStoreError::InvalidIdentityTransition(
                SecurityStateSuccessorError::ServiceIdentityChanged
            ))
    );
}

#[test]
fn directory_failures_are_told_apart() {
    assert_eq!(
        map_security_directory_error(RealDirectoryError::UnsafePath),
        SecurityStateStoreError::UnsafeRecoveryPath
    );
    assert_eq!(
        map_security_directory_error(RealDirectoryError::Io),
        SecurityStateStoreError::LocalStateStageUnavailable
    );
}

#[test]
fn decoding_errors_name_their_source() {
    assert_eq!(
        PersistentSecurityStateError::InvalidState(SecurityStateValueError::SequenceIsMissing)
            .source(),
        Some(SecurityStateValueError::SequenceIsMissing)
    );
    assert_eq!(PersistentSecurityStateError::InvalidMagic.source(), None);
    assert_eq!(
        SecurityStateStoreError::WitnessUnavailable.message(),
        "security freshness witness is unavailable"
    );
}
