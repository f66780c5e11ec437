//! Coordination of one replay journal with its outer security snapshot.

use crate::bytes::arrays_equal;
use crate::continuation::ContinuationReplayGuard;
use crate::instances::InstanceNumber;
use crate::profile::PrivacyProfile;
use crate::replay_journal::ReplayJournalLimits;
use crate::replay_journal::ReplayMaintenanceWatermark;
use crate::replay_record::ReplayJournalProtectionContext;
use crate::replay_record::ReplayJournalRecordProtector;
use crate::replay_store::PreparedReplayMaintenanceAdvance;
use crate::replay_store::ReplayJournalFiles;
use crate::replay_store::ReplayJournalMaintenanceAdvanceReceipt;
use crate::replay_store::ReplayJournalStore;
use crate::replay_store::ReplayJournalStoreError;
use crate::replay_store::ReplayJournalStoreHealth;
use crate::replay_store::ReplayMaintenancePreparation;
use crate::runtime_security::ContinuationReplayPlan;
use crate::runtime_security::ReplayCommitResult;
use crate::runtime_security::ReplayCommitUnavailable;
use crate::runtime_security::RequestReplayKey;
use crate::runtime_security::SecurityRoundCapture;
use crate::security_state::SecurityStateIdentity;
use crate::security_state::SecurityStateSnapshot;
use crate::security_state::SecurityStateValueError;
use crate::security_state::STATE_DIGEST_BYTES;
use crate::security_state_binding::preflight_successor;
use crate::security_state_binding::provision_initial_snapshot;
use crate::security_state_binding::successor_after_replay_commit;
use crate::security_state_binding::successor_after_replay_maintenance;
use crate::security_state_binding::verify_current;
use crate::security_state_binding::SecurityStateBindingError;
use crate::security_state_store::AdvanceTranscript;
use crate::security_state_store::SecurityFileStep;
use crate::security_state_store::SecurityFreshnessWitness;
use crate::security_state_store::SecurityStateFiles;
use crate::security_state_store::SecurityStateStore;
use crate::security_state_store::SecurityStateStoreError;
use crate::security_state_store::SecurityStateStoreHealth;
use vstd::prelude::*;

verus! {

#[derive(Debug, Clone, Copy, PartialEq, Eq, Structural)]
pub enum ReplaySnapshotCoordinatorHealth {
    Ready,
    Indeterminate,
}

#[derive(Debug, Clone, Copy, PartialEq, Eq, Structural)]
pub enum ReplaySnapshotCoordinatorOpenError {
    ReplayJournal(ReplayJournalStoreError),
    SecurityState(SecurityStateStoreError),
    OuterSnapshotMissing,
    OuterSnapshotAlreadyProvisioned,
    ProfileIdentityMismatch,
    SnapshotBinding(SecurityStateBindingError),
}

impl ReplaySnapshotCoordinatorOpenError {
    pub open spec fn text(self) -> Seq<char> {
        match self {
            Self::ReplayJournal(_) => "replay journal could not be opened"@,
            Self::SecurityState(_) => "outer security state could not be reconciled"@,
            Self::OuterSnapshotMissing => "outer security snapshot has not been provisioned"@,
            Self::OuterSnapshotAlreadyProvisioned =>
                "outer security snapshot is already provisioned"@,
            Self::ProfileIdentityMismatch =>
                "outer security snapshot does not match the compiled privacy profile"@,
            Self::SnapshotBinding(_) =>
                "outer security snapshot does not match the replay journal"@,
        }
    }

    /// Text shown to an operator.
    pub fn message(&self) -> (text: &'static str)
        ensures
            text@ == self.text(),
    {
        match self {
            Self::ReplayJournal(_) => "replay journal could not be opened",
            Self::SecurityState(_) => "outer security state could not be reconciled",
            Self::OuterSnapshotMissing => "outer security snapshot has not been provisioned",
            Self::OuterSnapshotAlreadyProvisioned =>
                "outer security snapshot is already provisioned",
            Self::ProfileIdentityMismatch =>
                "outer security snapshot does not match the compiled privacy profile",
            Self::SnapshotBinding(_) => "outer security snapshot does not match the replay journal",
        }
    }
}

#[derive(Debug, Clone, Copy, PartialEq, Eq, Structural)]
pub enum ReplaySnapshotCoordinatorOuterAdvanceError {
    SnapshotBinding(SecurityStateBindingError),
    SecurityState(SecurityStateStoreError),
}

impl ReplaySnapshotCoordinatorOuterAdvanceError {
    pub open spec fn text(self) -> Seq<char> {
        match self {
            Self::SnapshotBinding(_) =>
                "replay transition receipt did not match the outer snapshot"@,
            Self::SecurityState(_) => "outer security-state transition is unresolved"@,
        }
    }

    /// Text shown to an operator.
    pub fn message(&self) -> (text: &'static str)
        ensures
            text@ == self.text(),
    {
        match self {
            Self::SnapshotBinding(_) =>
                "replay transition receipt did not match the outer snapshot",
            Self::SecurityState(_) => "outer security-state transition is unresolved",
        }
    }
}

#[derive(Debug, Clone, Copy, PartialEq, Eq, Structural)]
pub enum ReplaySnapshotCoordinatorCommitError {
    LatchedIndeterminate,
    OuterAdvancePreflight(SecurityStateBindingError),
    ReplayJournal(ReplayJournalStoreError),
    OuterAdvanceAfterReplay(ReplaySnapshotCoordinatorOuterAdvanceError),
}

impl ReplaySnapshotCoordinatorCommitError {
    pub open spec fn text(self) -> Seq<char> {
        match self {
            Self::LatchedIndeterminate => "replay snapshot coordinator is indeterminate"@,
            Self::OuterAdvancePreflight(_) => "outer security snapshot cannot advance"@,
            Self::ReplayJournal(_) => "replay journal commit failed"@,
            Self::OuterAdvanceAfterReplay(_) =>
                "outer security-state advance failed after replay commit"@,
        }
    }

    /// Text shown to an operator.
    pub fn message(&self) -> (text: &'static str)
        ensures
            text@ == self.text(),
    {
        match self {
            Self::LatchedIndeterminate => "replay snapshot coordinator is indeterminate",
            Self::OuterAdvancePreflight(_) => "outer security snapshot cannot advance",
            Self::ReplayJournal(_) => "replay journal commit failed",
            Self::OuterAdvanceAfterReplay(_) =>
                "outer security-state advance failed after replay commit",
        }
    }
}

#[derive(Debug, Clone, Copy, PartialEq, Eq, Structural)]
pub enum ReplaySnapshotCoordinatorMaintenanceError {
    LatchedIndeterminate,
    OuterAdvancePreflight(SecurityStateBindingError),
    ReplayJournal(ReplayJournalStoreError),
    OuterAdvanceAfterReplay(ReplaySnapshotCoordinatorOuterAdvanceError),
}

impl ReplaySnapshotCoordinatorMaintenanceError {
    pub open spec fn text(self) -> Seq<char> {
        match self {
            Self::LatchedIndeterminate => "replay snapshot coordinator is indeterminate"@,
            Self::OuterAdvancePreflight(_) => "outer security snapshot cannot advance"@,
            Self::ReplayJournal(_) => "replay maintenance watermark advance failed"@,
            Self::OuterAdvanceAfterReplay(_) =>
                "outer security-state advance failed after replay maintenance"@,
        }
    }

    /// Text shown to an operator.
    pub fn message(&self) -> (text: &'static str)
        ensures
            text@ == self.text(),
    {
        match self {
            Self::LatchedIndeterminate => "replay snapshot coordinator is indeterminate",
            Self::OuterAdvancePreflight(_) => "outer security snapshot cannot advance",
            Self::ReplayJournal(_) => "replay maintenance watermark advance failed",
            Self::OuterAdvanceAfterReplay(_) =>
                "outer security-state advance failed after replay maintenance",
        }
    }
}

#[derive(Debug, Clone, Copy, PartialEq, Eq, Structural)]
pub enum ReplaySnapshotCoordinatorMaintenanceOutcome {
    NoAdvance,
    Advanced,
}

/// What the first outer snapshot names besides the replay state.
pub struct ReplaySnapshotInitialState {
    pub identity: SecurityStateIdentity,
    pub serving_identity_digest: [u8; STATE_DIGEST_BYTES],
}

/// Owner of one replay journal and its exact outer snapshot.
///
/// This is a fail-closed coordination protocol, not an atomic transaction
/// across the journal, local snapshot, and external freshness witness. Once a
/// replay commit succeeds, any unresolved outer advance latches this instance
/// indeterminate and withholds the replay authority.
pub struct ReplaySnapshotCoordinator<F, P, G, W> {
    pub replay_journal: ReplayJournalStore<F, P>,
    pub security_state: SecurityStateStore<G, W>,
    pub current_snapshot: SecurityStateSnapshot,
    pub health: ReplaySnapshotCoordinatorHealth,
}

impl<F, P, G, W> ReplaySnapshotCoordinator<F, P, G, W> {
    /// Both parts are valid, and while the coordinator is ready the journal is
    /// ready too and the snapshot names exactly its state.
    pub open spec fn wf(self) -> bool {
        &&& self.replay_journal.wf()
        &&& self.current_snapshot.wf()
        &&& self.health is Ready ==> self.replay_journal.health is Ready
            && crate::security_state_binding::is_bound(
            self.current_snapshot,
            crate::replay_journal::head_digest(self.replay_journal.state@),
        )
    }

    fn latch_after_replay(&mut self)
        ensures
            final(self).health is Indeterminate,
            final(self).replay_journal == old(self).replay_journal,
            final(self).security_state == old(self).security_state,
            final(self).current_snapshot == old(self).current_snapshot,
    {
        self.health = ReplaySnapshotCoordinatorHealth::Indeterminate;
    }

    /// Takes over the journal's health after a failed commit of it.
    fn follow_journal_health(&mut self)
        ensures
            final(self).health == if old(self).replay_journal.health is Indeterminate {
                ReplaySnapshotCoordinatorHealth::Indeterminate
            } else {
                old(self).health
            },
            final(self).replay_journal == old(self).replay_journal,
            final(self).security_state == old(self).security_state,
            final(self).current_snapshot == old(self).current_snapshot,
    {
        match self.replay_journal.health {
            ReplayJournalStoreHealth::Indeterminate => {
                self.health = ReplaySnapshotCoordinatorHealth::Indeterminate;
            },
            ReplayJournalStoreHealth::Ready => {},
        }
    }
}

/// Everything that the journal, the snapshot binding and the outer store
/// answered in one commit of a coordinator.
pub struct CommitAnswers<T> {
    pub journal: Result<T, ReplayJournalStoreError>,
    pub binding: Result<SecurityStateSnapshot, SecurityStateBindingError>,
    pub advance: Result<(), SecurityStateStoreError>,
}

/// How the outer snapshot follows a durable change of the journal: it names the
/// new head, and is kept only once the outer store has advanced to it.
pub open spec fn outer_advance_ends<
    F,
    P,
    G: SecurityStateFiles,
    W: SecurityFreshnessWitness,
    T,
>(
    before: ReplaySnapshotCoordinator<F, P, G, W>,
    after: ReplaySnapshotCoordinator<F, P, G, W>,
    answers: CommitAnswers<T>,
    error: Option<ReplaySnapshotCoordinatorOuterAdvanceError>,
) -> bool {
    &&& crate::security_state_binding::transition_gives(
        before.current_snapshot,
        true,
        crate::replay_journal::head_digest(before.replay_journal.state@),
        crate::replay_journal::head_digest(after.replay_journal.state@),
        Some(crate::replay_journal::head_digest(after.replay_journal.state@)),
        answers.binding,
    )
    &&& match answers.binding {
        Err(fault) => {
            &&& after.security_state == before.security_state
            &&& after.current_snapshot == before.current_snapshot
            &&& after.health is Indeterminate
            &&& error == Some(ReplaySnapshotCoordinatorOuterAdvanceError::SnapshotBinding(fault))
        },
        Ok(next) => {
            &&& crate::security_state_store::store_advances(
                before.security_state,
                Some(before.current_snapshot),
                next,
                after.security_state,
                answers.advance,
            )
            &&& match answers.advance {
                Err(fault) => {
                    &&& after.current_snapshot == before.current_snapshot
                    &&& after.health is Indeterminate
                    &&& error == Some(
                        ReplaySnapshotCoordinatorOuterAdvanceError::SecurityState(fault),
                    )
                },
                Ok(_) => {
                    &&& after.current_snapshot == next
                    &&& after.health is Ready
                    &&& error is None
                },
            }
        },
    }
}

/// How one transaction of a coordinator ends.
pub open spec fn coordinator_commit_ends<
    F: ReplayJournalFiles,
    P: ReplayJournalRecordProtector,
    G: SecurityStateFiles,
    W: SecurityFreshnessWitness,
>(
    before: ReplaySnapshotCoordinator<F, P, G, W>,
    security_round: SecurityRoundCapture,
    request_key: RequestReplayKey,
    plan: ContinuationReplayPlan,
    after: ReplaySnapshotCoordinator<F, P, G, W>,
    answers: CommitAnswers<ReplayCommitResult>,
    result: Result<ReplayCommitResult, ReplaySnapshotCoordinatorCommitError>,
) -> bool {
    if before.health is Indeterminate {
        after == before && result == Err::<ReplayCommitResult, _>(
            ReplaySnapshotCoordinatorCommitError::LatchedIndeterminate,
        )
    } else if before.current_snapshot.sequence == u64::MAX {
        after == before && result == Err::<ReplayCommitResult, _>(
            ReplaySnapshotCoordinatorCommitError::OuterAdvancePreflight(
                SecurityStateBindingError::InvalidSnapshot(
                    SecurityStateValueError::SequenceOverflow,
                ),
            ),
        )
    } else {
        &&& crate::replay_commit::commit_ends(
            before.replay_journal,
            security_round,
            request_key,
            plan,
            after.replay_journal,
            answers.journal,
        )
        &&& match answers.journal {
            Err(fault) => {
                &&& after.security_state == before.security_state
                &&& after.current_snapshot == before.current_snapshot
                &&& (after.health is Ready <==> after.replay_journal.health is Ready)
                &&& result == Err::<ReplayCommitResult, _>(
                    ReplaySnapshotCoordinatorCommitError::ReplayJournal(fault),
                )
            },
            Ok(committed) => match result {
                Ok(returned) => returned == committed && outer_advance_ends(
                    before,
                    after,
                    answers,
                    None,
                ),
                Err(ReplaySnapshotCoordinatorCommitError::OuterAdvanceAfterReplay(fault)) =>
                    outer_advance_ends(before, after, answers, Some(fault)),
                Err(_) => false,
            },
        }
    }
}

/// How one watermark advance of a coordinator ends.
pub open spec fn coordinator_maintenance_ends<
    F: ReplayJournalFiles,
    P: ReplayJournalRecordProtector,
    G: SecurityStateFiles,
    W: SecurityFreshnessWitness,
>(
    before: ReplaySnapshotCoordinator<F, P, G, W>,
    watermark: ReplayMaintenanceWatermark,
    after: ReplaySnapshotCoordinator<F, P, G, W>,
    prepared: PreparedReplayMaintenanceAdvance,
    answers: CommitAnswers<ReplayJournalMaintenanceAdvanceReceipt>,
    result: Result<
        ReplaySnapshotCoordinatorMaintenanceOutcome,
        ReplaySnapshotCoordinatorMaintenanceError,
    >,
) -> bool {
    let current = before.replay_journal.state.maintenance_expiry_bucket_watermark;
    if before.health is Indeterminate {
        after == before && result == Err::<ReplaySnapshotCoordinatorMaintenanceOutcome, _>(
            ReplaySnapshotCoordinatorMaintenanceError::LatchedIndeterminate,
        )
    } else if before.replay_journal.health is Indeterminate {
        after == before && result == Err::<ReplaySnapshotCoordinatorMaintenanceOutcome, _>(
            ReplaySnapshotCoordinatorMaintenanceError::ReplayJournal(
                ReplayJournalStoreError::LatchedIndeterminate,
            ),
        )
    } else if watermark == current {
        after == before && result == Ok::<_, ReplaySnapshotCoordinatorMaintenanceError>(
            ReplaySnapshotCoordinatorMaintenanceOutcome::NoAdvance,
        )
    } else if watermark.0 < current.0 {
        after == before && result == Err::<ReplaySnapshotCoordinatorMaintenanceOutcome, _>(
            ReplaySnapshotCoordinatorMaintenanceError::ReplayJournal(
                ReplayJournalStoreError::MaintenanceWatermarkRegressed,
            ),
        )
    } else if before.current_snapshot.sequence == u64::MAX {
        after == before && result == Err::<ReplaySnapshotCoordinatorMaintenanceOutcome, _>(
            ReplaySnapshotCoordinatorMaintenanceError::OuterAdvancePreflight(
                SecurityStateBindingError::InvalidSnapshot(
                    SecurityStateValueError::SequenceOverflow,
                ),
            ),
        )
    } else {
        &&& prepared.raises(before.replay_journal.state)
        &&& prepared.next_state.maintenance_expiry_bucket_watermark == watermark
        &&& crate::replay_commit::maintenance_ends(
            before.replay_journal,
            prepared,
            after.replay_journal,
            answers.journal,
        )
        &&& match answers.journal {
            Err(fault) => {
                &&& after.security_state == before.security_state
                &&& after.current_snapshot == before.current_snapshot
                &&& (after.health is Ready <==> after.replay_journal.health is Ready)
                &&& result == Err::<ReplaySnapshotCoordinatorMaintenanceOutcome, _>(
                    ReplaySnapshotCoordinatorMaintenanceError::ReplayJournal(fault),
                )
            },
            Ok(_) => match result {
                Ok(outcome) => outcome is Advanced && outer_advance_ends(
                    before,
                    after,
                    answers,
                    None,
                ),
                Err(ReplaySnapshotCoordinatorMaintenanceError::OuterAdvanceAfterReplay(fault)) =>
                    outer_advance_ends(before, after, answers, Some(fault)),
                Err(_) => false,
            },
        }
    }
}

/// A store over these files and this witness that has done nothing yet.
pub open spec fn fresh_store<G, W>(files: G, witness: W) -> SecurityStateStore<G, W> {
    SecurityStateStore { files, witness, health: SecurityStateStoreHealth::Ready }
}

/// Everything that the parts of a coordinator answered while it was opened.
pub struct OpeningAnswers<F, P, G, W> {
    pub journal: Result<ReplayJournalStore<F, P>, ReplayJournalStoreError>,
    /// What reading the outer snapshot gave, and the store after it.
    pub outer: Result<Option<SecurityStateSnapshot>, SecurityStateStoreError>,
    pub reader: SecurityStateStore<G, W>,
    /// What provisioning the first snapshot gave.
    pub provisioned: Result<SecurityStateSnapshot, SecurityStateBindingError>,
    pub advance: Result<(), SecurityStateStoreError>,
}

/// How opening an existing pair ends: the outer snapshot is read first, and the
/// journal must be the one that it names.
pub open spec fn opening_existing_ends<
    F: ReplayJournalFiles,
    P: ReplayJournalRecordProtector,
    G: SecurityStateFiles,
    W: SecurityFreshnessWitness,
>(
    replay_files: F,
    security_state_files: G,
    profile: PrivacyProfile,
    protection_context: ReplayJournalProtectionContext,
    protector: P,
    witness: W,
    answers: OpeningAnswers<F, P, G, W>,
    result: Result<ReplaySnapshotCoordinator<F, P, G, W>, ReplaySnapshotCoordinatorOpenError>,
) -> bool {
    &&& crate::security_state_store::store_reads(
        fresh_store(security_state_files, witness),
        answers.reader,
        answers.outer,
    )
    &&& match answers.outer {
        Err(fault) => error_is(result, ReplaySnapshotCoordinatorOpenError::SecurityState(fault)),
        Ok(None) => error_is(result, ReplaySnapshotCoordinatorOpenError::OuterSnapshotMissing),
        Ok(Some(snapshot)) => if snapshot.commitment.identity.profile_id != profile.profile_id {
            error_is(result, ReplaySnapshotCoordinatorOpenError::ProfileIdentityMismatch)
        } else {
            &&& opening_of_profile_ends(
                replay_files,
                profile,
                protection_context,
                protector,
                answers.journal,
            )
            &&& match answers.journal {
                Err(fault) => error_is(
                    result,
                    ReplaySnapshotCoordinatorOpenError::ReplayJournal(fault),
                ),
                Ok(journal) => if crate::security_state_binding::is_bound(
                    snapshot,
                    crate::replay_journal::head_digest(journal.state@),
                ) {
                    result == Ok::<_, ReplaySnapshotCoordinatorOpenError>(
                        (ReplaySnapshotCoordinator {
                            replay_journal: journal,
                            security_state: answers.reader,
                            current_snapshot: snapshot,
                            health: ReplaySnapshotCoordinatorHealth::Ready,
                        }),
                    )
                } else {
                    error_is(
                        result,
                        ReplaySnapshotCoordinatorOpenError::SnapshotBinding(
                            SecurityStateBindingError::ReplayComponentMismatch,
                        ),
                    )
                },
            }
        },
    }
}

/// What a coordinator is opened over.
pub struct ReplaySnapshotProviders<F, P, G, W> {
    pub replay_files: F,
    pub security_state_files: G,
    pub protector: P,
    pub witness: W,
}

/// Why nothing was provisioned, with what was handed over if none of it was used.
pub struct ReplaySnapshotProvisioningRefusal<F, P, G, W> {
    pub error: ReplaySnapshotCoordinatorOpenError,
    pub untouched: Option<ReplaySnapshotProviders<F, P, G, W>>,
}

/// The coordinator or the error of a provisioning.
pub open spec fn provisioning_part<F, P, G, W>(
    result: Result<
        ReplaySnapshotCoordinator<F, P, G, W>,
        ReplaySnapshotProvisioningRefusal<F, P, G, W>,
    >,
) -> Result<ReplaySnapshotCoordinator<F, P, G, W>, ReplaySnapshotCoordinatorOpenError> {
    match result {
        Ok(coordinator) => Ok(coordinator),
        Err(refusal) => Err(refusal.error),
    }
}

/// How provisioning ends: only over a journal that opens, and only where no
/// outer snapshot exists yet.
pub open spec fn provisioning_ends<
    F: ReplayJournalFiles,
    P: ReplayJournalRecordProtector,
    G: SecurityStateFiles,
    W: SecurityFreshnessWitness,
>(
    replay_files: F,
    security_state_files: G,
    profile: PrivacyProfile,
    protection_context: ReplayJournalProtectionContext,
    protector: P,
    witness: W,
    initial_state: ReplaySnapshotInitialState,
    answers: OpeningAnswers<F, P, G, W>,
    result: Result<ReplaySnapshotCoordinator<F, P, G, W>, ReplaySnapshotCoordinatorOpenError>,
) -> bool {
    if initial_state.identity.profile_id != profile.profile_id {
        error_is(result, ReplaySnapshotCoordinatorOpenError::ProfileIdentityMismatch)
    } else {
        &&& opening_of_profile_ends(
            replay_files,
            profile,
            protection_context,
            protector,
            answers.journal,
        )
        &&& match answers.journal {
            Err(fault) => error_is(
                result,
                ReplaySnapshotCoordinatorOpenError::ReplayJournal(fault),
            ),
            Ok(journal) => {
                &&& crate::security_state_store::store_reads(
                    fresh_store(security_state_files, witness),
                    answers.reader,
                    answers.outer,
                )
                &&& match answers.outer {
                    Err(fault) => error_is(
                        result,
                        ReplaySnapshotCoordinatorOpenError::SecurityState(fault),
                    ),
                    Ok(Some(_)) => error_is(
                        result,
                        ReplaySnapshotCoordinatorOpenError::OuterSnapshotAlreadyProvisioned,
                    ),
                    Ok(None) => first_snapshot_ends(journal, initial_state, answers, result),
                }
            },
        }
    }
}

/// How provisioning the first snapshot of an open journal ends.
pub open spec fn first_snapshot_ends<
    F: ReplayJournalFiles,
    P: ReplayJournalRecordProtector,
    G: SecurityStateFiles,
    W: SecurityFreshnessWitness,
>(
    journal: ReplayJournalStore<F, P>,
    initial_state: ReplaySnapshotInitialState,
    answers: OpeningAnswers<F, P, G, W>,
    result: Result<ReplaySnapshotCoordinator<F, P, G, W>, ReplaySnapshotCoordinatorOpenError>,
) -> bool {
    let digest = crate::replay_journal::head_digest(journal.state@);
    let fault = crate::security_state::commitment_error(
        initial_state.serving_identity_digest@,
        crate::security_state_binding::component_of(digest),
    );
    match answers.provisioned {
        Err(error) => fault is Some && error == SecurityStateBindingError::InvalidSnapshot(fault->0)
            && error_is(result, ReplaySnapshotCoordinatorOpenError::SnapshotBinding(error)),
        Ok(snapshot) => {
            &&& fault is None
            &&& snapshot.sequence == 1
            &&& snapshot.commitment.identity == initial_state.identity
            &&& snapshot.commitment.serving_identity_digest == initial_state.serving_identity_digest
            &&& crate::security_state_binding::is_bound(snapshot, digest)
            &&& match result {
                Ok(coordinator) => {
                    &&& answers.advance is Ok
                    &&& crate::security_state_store::store_advances(
                        answers.reader,
                        None,
                        snapshot,
                        coordinator.security_state,
                        answers.advance,
                    )
                    &&& coordinator.replay_journal == journal
                    &&& coordinator.current_snapshot == snapshot
                    &&& coordinator.health is Ready
                },
                Err(error) => {
                    &&& answers.advance matches Err(refused) && error
                        == ReplaySnapshotCoordinatorOpenError::SecurityState(refused)
                    &&& exists|after: SecurityStateStore<G, W>| #[trigger]
                        crate::security_state_store::store_advances(
                            answers.reader,
                            None,
                            snapshot,
                            after,
                            answers.advance,
                        )
                },
            }
        },
    }
}

/// The result is this error.
pub open spec fn error_is<T>(
    result: Result<T, ReplaySnapshotCoordinatorOpenError>,
    error: ReplaySnapshotCoordinatorOpenError,
) -> bool {
    result == Err::<T, _>(error)
}

/// How opening the journal of a profile ends.
pub open spec fn opening_of_profile_ends<
    F: ReplayJournalFiles,
    P: ReplayJournalRecordProtector,
>(
    files: F,
    profile: PrivacyProfile,
    protection_context: ReplayJournalProtectionContext,
    protector: P,
    result: Result<ReplayJournalStore<F, P>, ReplayJournalStoreError>,
) -> bool {
    crate::journal_storage::opening_ends(
        files,
        ReplayJournalLimits { max_transactions: profile.replay_policy.transaction_capacity },
        profile.profile_id,
        protection_context,
        protector,
        result,
    )
}

/// A committed transaction, fresh or duplicate, advances the outer snapshot by exactly one:
/// the new snapshot names the new head, and is what the outer store advanced to.
pub proof fn committed_transaction_advances_the_snapshot<
    F: ReplayJournalFiles,
    P: ReplayJournalRecordProtector,
    G: SecurityStateFiles,
    W: SecurityFreshnessWitness,
>(
    before: ReplaySnapshotCoordinator<F, P, G, W>,
    security_round: SecurityRoundCapture,
    request_key: RequestReplayKey,
    plan: ContinuationReplayPlan,
    after: ReplaySnapshotCoordinator<F, P, G, W>,
    answers: CommitAnswers<ReplayCommitResult>,
    committed: ReplayCommitResult,
)
    requires
        before.wf(),
        coordinator_commit_ends(
            before,
            security_round,
            request_key,
            plan,
            after,
            answers,
            Ok(committed),
        ),
    ensures
        before.health is Ready,
        after.health is Ready,
        after.current_snapshot.wf(),
        after.current_snapshot.sequence == before.current_snapshot.sequence + 1,
        after.current_snapshot.commitment.identity == before.current_snapshot.commitment.identity,
        after.replay_journal.history@.len() == before.replay_journal.history@.len() + 1,
        after.replay_journal.health is Ready,
        crate::security_state_binding::is_bound(
            after.current_snapshot,
            crate::replay_journal::head_digest(after.replay_journal.state@),
        ),
        crate::security_state_store::store_advances(
            before.security_state,
            Some(before.current_snapshot),
            after.current_snapshot,
            after.security_state,
            Ok(()),
        ),
{
    let digest = crate::replay_journal::head_digest(after.replay_journal.state@);
    assert(crate::security_state_binding::is_successor_snapshot(
        before.current_snapshot,
        digest,
        after.current_snapshot,
    ));
    crate::security_state_binding::bound_successor_is_accepted(
        before.current_snapshot,
        digest,
        after.current_snapshot,
    );
    assert(answers.advance == Ok::<(), SecurityStateStoreError>(()));
}

/// After a committed transaction the outer store reads the new snapshot, if its file gives
/// back what was staged and the witness names what it was asked for.
pub proof fn committed_snapshot_is_current<
    F: ReplayJournalFiles,
    P: ReplayJournalRecordProtector,
    G: SecurityStateFiles,
    W: SecurityFreshnessWitness,
>(
    before: ReplaySnapshotCoordinator<F, P, G, W>,
    security_round: SecurityRoundCapture,
    request_key: RequestReplayKey,
    plan: ContinuationReplayPlan,
    after: ReplaySnapshotCoordinator<F, P, G, W>,
    answers: CommitAnswers<ReplayCommitResult>,
    committed: ReplayCommitResult,
    transcript: AdvanceTranscript<G, W>,
    reading: AdvanceTranscript<G, W>,
    later: SecurityStateStore<G, W>,
    result: Result<Option<SecurityStateSnapshot>, SecurityStateStoreError>,
)
    requires
        before.wf(),
        coordinator_commit_ends(
            before,
            security_round,
            request_key,
            plan,
            after,
            answers,
            Ok(committed),
        ),
        transcript.advance_ends(
            before.security_state,
            Some(before.current_snapshot),
            after.current_snapshot,
            after.security_state,
            Ok(()),
        ),
        reading.current_ends(after.security_state, later, result),
        reading.observed == Ok::<_, W::Error>(Some(transcript.next_freshness)),
        reading.steps[0] matches SecurityFileStep::ReadCurrent { read } && read is Exact && (
        transcript.steps[6] matches SecurityFileStep::Staged { record, .. } && read.contents()
            == record),
    ensures
        result == Ok::<_, SecurityStateStoreError>(Some(after.current_snapshot)),
{
    committed_transaction_advances_the_snapshot(
        before,
        security_round,
        request_key,
        plan,
        after,
        answers,
        committed,
    );
    crate::security_state_store::advanced_state_is_current(
        transcript,
        before.security_state,
        Some(before.current_snapshot),
        after.current_snapshot,
        reading,
        after.security_state,
        later,
        after.security_state,
        result,
    );
}

/// The pair that was committed is the pair that is opened: where the outer store reads back
/// the committed snapshot and the journal is recovered to the committed head, opening gives
/// that snapshot, and nothing else.
pub proof fn committed_pair_is_opened_again<
    F: ReplayJournalFiles,
    P: ReplayJournalRecordProtector,
    G: SecurityStateFiles,
    W: SecurityFreshnessWitness,
    H,
    Q,
>(
    committed: ReplaySnapshotCoordinator<H, Q, G, W>,
    replay_files: F,
    security_state_files: G,
    profile: PrivacyProfile,
    protection_context: ReplayJournalProtectionContext,
    protector: P,
    witness: W,
    answers: OpeningAnswers<F, P, G, W>,
    result: Result<ReplaySnapshotCoordinator<F, P, G, W>, ReplaySnapshotCoordinatorOpenError>,
)
    requires
        committed.wf(),
        committed.health is Ready,
        committed.current_snapshot.commitment.identity.profile_id == profile.profile_id,
        opening_existing_ends(
            replay_files,
            security_state_files,
            profile,
            protection_context,
            protector,
            witness,
            answers,
            result,
        ),
        answers.outer == Ok::<_, SecurityStateStoreError>(Some(committed.current_snapshot)),
        answers.journal matches Ok(journal) && journal.state@ == committed.replay_journal.state@,
    ensures
        result matches Ok(coordinator) && coordinator.current_snapshot
            == committed.current_snapshot && coordinator.replay_journal.state@
            == committed.replay_journal.state@ && coordinator.health is Ready,
{
}

/// Of a valid, ready coordinator the snapshot binding refuses only two different
/// heads with one digest, or an all-zero component digest.
pub proof fn valid_coordinator_meets_only_digest_accidents<
    F,
    P,
    G: SecurityStateFiles,
    W: SecurityFreshnessWitness,
    T,
>(
    before: ReplaySnapshotCoordinator<F, P, G, W>,
    after: ReplaySnapshotCoordinator<F, P, G, W>,
    answers: CommitAnswers<T>,
    fault: SecurityStateBindingError,
)
    requires
        before.wf(),
        before.health is Ready,
        before.current_snapshot.sequence < u64::MAX,
        outer_advance_ends(
            before,
            after,
            answers,
            Some(ReplaySnapshotCoordinatorOuterAdvanceError::SnapshotBinding(fault)),
        ),
    ensures
        fault == SecurityStateBindingError::ReplayComponentDidNotAdvance || fault
            == SecurityStateBindingError::InvalidSnapshot(
            SecurityStateValueError::ComponentStateDigestIsEmpty,
        ),
{
}

impl<
    F: ReplayJournalFiles,
    P: ReplayJournalRecordProtector,
    G: SecurityStateFiles,
    W: SecurityFreshnessWitness,
> ReplaySnapshotCoordinator<F, P, G, W> {
    /// Opens only a previously provisioned pair that matches exactly.
    pub fn open_existing(
        replay_files: F,
        security_state_files: G,
        profile: &PrivacyProfile,
        protection_context: ReplayJournalProtectionContext,
        protector: P,
        witness: W,
        instance: InstanceNumber,
    ) -> (result: Result<Self, ReplaySnapshotCoordinatorOpenError>)
        ensures
            exists|answers: OpeningAnswers<F, P, G, W>| #[trigger]
                opening_existing_ends(
                    replay_files,
                    security_state_files,
                    *profile,
                    protection_context,
                    protector,
                    witness,
                    answers,
                    result,
                ),
            result matches Ok(coordinator) ==> coordinator.wf()
                && coordinator.replay_journal.protection_context == protection_context
                && coordinator.replay_journal.protector == protector
                && coordinator.replay_journal.instance_identity == instance@,
    {
        let ghost mut answers: OpeningAnswers<F, P, G, W> = arbitrary();
        let mut security_state = SecurityStateStore::new(security_state_files, witness);
        let outer = security_state.current();
        proof {
            answers = OpeningAnswers { outer, reader: security_state, ..answers };
        }
        let current_snapshot = match outer {
            Ok(Some(snapshot)) => snapshot,
            Ok(None) => {
                assert(opening_existing_ends::<F, P, G, W>(
                    replay_files,
                    security_state_files,
                    *profile,
                    protection_context,
                    protector,
                    witness,
                    answers,
                    Err(ReplaySnapshotCoordinatorOpenError::OuterSnapshotMissing),
                ));
                return Err(ReplaySnapshotCoordinatorOpenError::OuterSnapshotMissing);
            },
            Err(error) => {
                assert(opening_existing_ends::<F, P, G, W>(
                    replay_files,
                    security_state_files,
                    *profile,
                    protection_context,
                    protector,
                    witness,
                    answers,
                    Err(ReplaySnapshotCoordinatorOpenError::SecurityState(error)),
                ));
                return Err(ReplaySnapshotCoordinatorOpenError::SecurityState(error));
            },
        };
        if !arrays_equal(&current_snapshot.profile_id(), profile.profile_id()) {
            assert(opening_existing_ends::<F, P, G, W>(
                replay_files,
                security_state_files,
                *profile,
                protection_context,
                protector,
                witness,
                answers,
                Err(ReplaySnapshotCoordinatorOpenError::ProfileIdentityMismatch),
            ));
            return Err(ReplaySnapshotCoordinatorOpenError::ProfileIdentityMismatch);
        }
        let opened = ReplayJournalStore::open(
            replay_files,
            profile,
            protection_context,
            protector,
            instance,
        );
        proof {
            answers = OpeningAnswers { journal: opened, ..answers };
        }
        let replay_journal = match opened {
            Ok(journal) => journal,
            Err(error) => {
                assert(opening_existing_ends::<F, P, G, W>(
                    replay_files,
                    security_state_files,
                    *profile,
                    protection_context,
                    protector,
                    witness,
                    answers,
                    Err(ReplaySnapshotCoordinatorOpenError::ReplayJournal(error)),
                ));
                return Err(ReplaySnapshotCoordinatorOpenError::ReplayJournal(error));
            },
        };
        match verify_current(&current_snapshot, &replay_journal) {
            Ok(()) => {},
            Err(error) => {
                assert(opening_existing_ends::<F, P, G, W>(
                    replay_files,
                    security_state_files,
                    *profile,
                    protection_context,
                    protector,
                    witness,
                    answers,
                    Err(ReplaySnapshotCoordinatorOpenError::SnapshotBinding(error)),
                ));
                return Err(ReplaySnapshotCoordinatorOpenError::SnapshotBinding(error));
            },
        }
        let coordinator = ReplaySnapshotCoordinator {
            replay_journal,
            security_state,
            current_snapshot,
            health: ReplaySnapshotCoordinatorHealth::Ready,
        };
        assert(opening_existing_ends::<F, P, G, W>(
            replay_files,
            security_state_files,
            *profile,
            protection_context,
            protector,
            witness,
            answers,
            Ok(coordinator),
        ));
        Ok(coordinator)
    }

    /// Explicitly provisions an absent outer snapshot for the current journal.
    ///
    /// An initial state of another profile is refused before anything is read or written,
    /// and everything that was handed over comes back as it was.
    pub fn provision_initial(
        replay_files: F,
        security_state_files: G,
        profile: &PrivacyProfile,
        protection_context: ReplayJournalProtectionContext,
        protector: P,
        witness: W,
        initial_state: ReplaySnapshotInitialState,
        instance: InstanceNumber,
    ) -> (result: Result<Self, ReplaySnapshotProvisioningRefusal<F, P, G, W>>)
        ensures
            exists|answers: OpeningAnswers<F, P, G, W>| #[trigger]
                provisioning_ends(
                    replay_files,
                    security_state_files,
                    *profile,
                    protection_context,
                    protector,
                    witness,
                    initial_state,
                    answers,
                    provisioning_part(result),
                ),
            result matches Ok(coordinator) ==> (initial_state.identity.wf() ==> coordinator.wf())
                && coordinator.replay_journal.wf() && coordinator.replay_journal.protection_context
                == protection_context && coordinator.replay_journal.protector == protector
                && coordinator.replay_journal.instance_identity == instance@,
            result matches Err(refusal) ==> refusal.untouched == if initial_state.identity.profile_id
                != profile.profile_id {
                Some(
                    ReplaySnapshotProviders {
                        replay_files,
                        security_state_files,
                        protector,
                        witness,
                    },
                )
            } else {
                None
            },
    {
        let ghost unasked: OpeningAnswers<F, P, G, W> = arbitrary();
        if !arrays_equal(&initial_state.identity.profile_id(), profile.profile_id()) {
            assert(provisioning_ends::<F, P, G, W>(
                replay_files,
                security_state_files,
                *profile,
                protection_context,
                protector,
                witness,
                initial_state,
                unasked,
                Err(ReplaySnapshotCoordinatorOpenError::ProfileIdentityMismatch),
            ));
            return Err(
                ReplaySnapshotProvisioningRefusal {
                    error: ReplaySnapshotCoordinatorOpenError::ProfileIdentityMismatch,
                    untouched: Some(
                        ReplaySnapshotProviders {
                            replay_files,
                            security_state_files,
                            protector,
                            witness,
                        },
                    ),
                },
            );
        }
        let provisioned = Self::provision_for_profile(
            replay_files,
            security_state_files,
            profile,
            protection_context,
            protector,
            witness,
            initial_state,
            instance,
        );
        let ghost ended = provisioned;
        match provisioned {
            Ok(coordinator) => {
                assert(ended == provisioning_part::<F, P, G, W>(Ok(coordinator)));
                Ok(coordinator)
            },
            Err(error) => {
                let refusal = ReplaySnapshotProvisioningRefusal { error, untouched: None };
                assert(ended == provisioning_part(Err(refusal)));
                Err(refusal)
            },
        }
    }

    /// Provisions an absent outer snapshot of the profile that it is for.
    fn provision_for_profile(
        replay_files: F,
        security_state_files: G,
        profile: &PrivacyProfile,
        protection_context: ReplayJournalProtectionContext,
        protector: P,
        witness: W,
        initial_state: ReplaySnapshotInitialState,
        instance: InstanceNumber,
    ) -> (result: Result<Self, ReplaySnapshotCoordinatorOpenError>)
        requires
            initial_state.identity.profile_id == profile.profile_id,
        ensures
            exists|answers: OpeningAnswers<F, P, G, W>| #[trigger]
                provisioning_ends(
                    replay_files,
                    security_state_files,
                    *profile,
                    protection_context,
                    protector,
                    witness,
                    initial_state,
                    answers,
                    result,
                ),
            result matches Ok(coordinator) ==> (initial_state.identity.wf() ==> coordinator.wf())
                && coordinator.replay_journal.wf() && coordinator.replay_journal.protection_context
                == protection_context && coordinator.replay_journal.protector == protector
                && coordinator.replay_journal.instance_identity == instance@,
    {
        let ghost mut answers: OpeningAnswers<F, P, G, W> = arbitrary();
        let opened = ReplayJournalStore::open(
            replay_files,
            profile,
            protection_context,
            protector,
            instance,
        );
        proof {
            answers = OpeningAnswers { journal: opened, ..answers };
        }
        let replay_journal = match opened {
            Ok(journal) => journal,
            Err(error) => {
                assert(provisioning_ends::<F, P, G, W>(
                    replay_files,
                    security_state_files,
                    *profile,
                    protection_context,
                    protector,
                    witness,
                    initial_state,
                    answers,
                    Err(ReplaySnapshotCoordinatorOpenError::ReplayJournal(error)),
                ));
                return Err(ReplaySnapshotCoordinatorOpenError::ReplayJournal(error));
            },
        };
        let mut security_state = SecurityStateStore::new(security_state_files, witness);
        let outer = security_state.current();
        proof {
            answers = OpeningAnswers { outer, reader: security_state, ..answers };
        }
        match outer {
            Ok(None) => {},
            Ok(Some(_)) => {
                assert(provisioning_ends::<F, P, G, W>(
                    replay_files,
                    security_state_files,
                    *profile,
                    protection_context,
                    protector,
                    witness,
                    initial_state,
                    answers,
                    Err(ReplaySnapshotCoordinatorOpenError::OuterSnapshotAlreadyProvisioned),
                ));
                return Err(ReplaySnapshotCoordinatorOpenError::OuterSnapshotAlreadyProvisioned);
            },
            Err(error) => {
                assert(provisioning_ends::<F, P, G, W>(
                    replay_files,
                    security_state_files,
                    *profile,
                    protection_context,
                    protector,
                    witness,
                    initial_state,
                    answers,
                    Err(ReplaySnapshotCoordinatorOpenError::SecurityState(error)),
                ));
                return Err(ReplaySnapshotCoordinatorOpenError::SecurityState(error));
            },
        }
        let provisioned = provision_initial_snapshot(
            initial_state.identity,
            initial_state.serving_identity_digest,
            &replay_journal,
        );
        proof {
            answers = OpeningAnswers { provisioned, ..answers };
        }
        let current_snapshot = match provisioned {
            Ok(snapshot) => snapshot,
            Err(error) => {
                assert(provisioning_ends::<F, P, G, W>(
                    replay_files,
                    security_state_files,
                    *profile,
                    protection_context,
                    protector,
                    witness,
                    initial_state,
                    answers,
                    Err(ReplaySnapshotCoordinatorOpenError::SnapshotBinding(error)),
                ));
                return Err(ReplaySnapshotCoordinatorOpenError::SnapshotBinding(error));
            },
        };
        let advance = security_state.compare_and_advance(None, current_snapshot);
        proof {
            answers = OpeningAnswers { advance, ..answers };
            assert(crate::security_state_store::store_advances(
                answers.reader,
                None,
                current_snapshot,
                security_state,
                answers.advance,
            ));
        }
        match advance {
            Ok(()) => {},
            Err(error) => {
                assert(provisioning_ends::<F, P, G, W>(
                    replay_files,
                    security_state_files,
                    *profile,
                    protection_context,
                    protector,
                    witness,
                    initial_state,
                    answers,
                    Err(ReplaySnapshotCoordinatorOpenError::SecurityState(error)),
                ));
                return Err(ReplaySnapshotCoordinatorOpenError::SecurityState(error));
            },
        }
        let coordinator = ReplaySnapshotCoordinator {
            replay_journal,
            security_state,
            current_snapshot,
            health: ReplaySnapshotCoordinatorHealth::Ready,
        };
        assert(provisioning_ends::<F, P, G, W>(
            replay_files,
            security_state_files,
            *profile,
            protection_context,
            protector,
            witness,
            initial_state,
            answers,
            Ok(coordinator),
        ));
        Ok(coordinator)
    }

    /// Commits one transaction and advances the outer snapshot to it.
    ///
    /// The replay authority is returned only once the witness names the
    /// snapshot of the committed transaction.
    pub fn commit_request_and_snapshot(
        &mut self,
        security_round: &SecurityRoundCapture,
        request_key: &RequestReplayKey,
        continuation_plan: &ContinuationReplayPlan,
    ) -> (result: Result<ReplayCommitResult, ReplaySnapshotCoordinatorCommitError>)
        requires
            old(self).replay_journal.wf(),
        ensures
            final(self).replay_journal.wf(),
            old(self).wf() ==> final(self).wf(),
            exists|answers: CommitAnswers<ReplayCommitResult>| #[trigger]
                coordinator_commit_ends(
                    *old(self),
                    *security_round,
                    *request_key,
                    *continuation_plan,
                    *final(self),
                    answers,
                    result,
                ),
    {
        let ghost before = *self;
        let ghost mut answers: CommitAnswers<ReplayCommitResult> = arbitrary();
        match self.health {
            ReplaySnapshotCoordinatorHealth::Indeterminate => {
                assert(coordinator_commit_ends(
                    before,
                    *security_round,
                    *request_key,
                    *continuation_plan,
                    *self,
                    answers,
                    Err(ReplaySnapshotCoordinatorCommitError::LatchedIndeterminate),
                ));
                return Err(ReplaySnapshotCoordinatorCommitError::LatchedIndeterminate);
            },
            ReplaySnapshotCoordinatorHealth::Ready => {},
        }
        match preflight_successor(&self.current_snapshot) {
            Ok(()) => {},
            Err(error) => {
                assert(coordinator_commit_ends(
                    before,
                    *security_round,
                    *request_key,
                    *continuation_plan,
                    *self,
                    answers,
                    Err(ReplaySnapshotCoordinatorCommitError::OuterAdvancePreflight(error)),
                ));
                return Err(ReplaySnapshotCoordinatorCommitError::OuterAdvancePreflight(error));
            },
        }
        let committed = match self.replay_journal.commit_transaction_and_capture(
            security_round,
            request_key,
            continuation_plan,
        ) {
            Ok(committed) => committed,
            Err(error) => {
                self.follow_journal_health();
                proof {
                    answers = CommitAnswers { journal: Err(error), ..answers };
                }
                assert(coordinator_commit_ends(
                    before,
                    *security_round,
                    *request_key,
                    *continuation_plan,
                    *self,
                    answers,
                    Err(ReplaySnapshotCoordinatorCommitError::ReplayJournal(error)),
                ));
                return Err(ReplaySnapshotCoordinatorCommitError::ReplayJournal(error));
            },
        };
        let (commit_result, receipt) = committed.into_parts();
        let binding = successor_after_replay_commit(
            &self.current_snapshot,
            receipt,
            &self.replay_journal,
        );
        proof {
            answers = CommitAnswers { journal: Ok(commit_result), binding, ..answers };
        }
        let next_snapshot = match binding {
            Ok(snapshot) => snapshot,
            Err(error) => {
                self.latch_after_replay();
                let fault = ReplaySnapshotCoordinatorOuterAdvanceError::SnapshotBinding(error);
                assert(coordinator_commit_ends(
                    before,
                    *security_round,
                    *request_key,
                    *continuation_plan,
                    *self,
                    answers,
                    Err(ReplaySnapshotCoordinatorCommitError::OuterAdvanceAfterReplay(fault)),
                ));
                return Err(ReplaySnapshotCoordinatorCommitError::OuterAdvanceAfterReplay(fault));
            },
        };
        let advance = self.security_state.compare_and_advance(
            Some(self.current_snapshot),
            next_snapshot,
        );
        proof {
            answers = CommitAnswers { advance, ..answers };
        }
        match advance {
            Ok(()) => {},
            Err(error) => {
                self.latch_after_replay();
                let fault = ReplaySnapshotCoordinatorOuterAdvanceError::SecurityState(error);
                assert(coordinator_commit_ends(
                    before,
                    *security_round,
                    *request_key,
                    *continuation_plan,
                    *self,
                    answers,
                    Err(ReplaySnapshotCoordinatorCommitError::OuterAdvanceAfterReplay(fault)),
                ));
                return Err(ReplaySnapshotCoordinatorCommitError::OuterAdvanceAfterReplay(fault));
            },
        }
        self.current_snapshot = next_snapshot;
        assert(coordinator_commit_ends(
            before,
            *security_round,
            *request_key,
            *continuation_plan,
            *self,
            answers,
            Ok(commit_result),
        ));
        Ok(commit_result)
    }

    /// Raises the journal's maintenance watermark and advances the outer snapshot to it.
    pub fn commit_maintenance_watermark(&mut self, watermark: ReplayMaintenanceWatermark) -> (result:
        Result<
            ReplaySnapshotCoordinatorMaintenanceOutcome,
            ReplaySnapshotCoordinatorMaintenanceError,
        >)
        requires
            old(self).replay_journal.wf(),
        ensures
            final(self).replay_journal.wf(),
            old(self).wf() ==> final(self).wf(),
            exists|
                prepared: PreparedReplayMaintenanceAdvance,
                answers: CommitAnswers<ReplayJournalMaintenanceAdvanceReceipt>,
            | #[trigger]
                coordinator_maintenance_ends(
                    *old(self),
                    watermark,
                    *final(self),
                    prepared,
                    answers,
                    result,
                ),
    {
        let ghost before = *self;
        let ghost mut plan: PreparedReplayMaintenanceAdvance = arbitrary();
        let ghost mut answers: CommitAnswers<ReplayJournalMaintenanceAdvanceReceipt> = arbitrary();
        match self.health {
            ReplaySnapshotCoordinatorHealth::Indeterminate => {
                assert(coordinator_maintenance_ends(
                    before,
                    watermark,
                    *self,
                    plan,
                    answers,
                    Err(ReplaySnapshotCoordinatorMaintenanceError::LatchedIndeterminate),
                ));
                return Err(ReplaySnapshotCoordinatorMaintenanceError::LatchedIndeterminate);
            },
            ReplaySnapshotCoordinatorHealth::Ready => {},
        }
        let prepared = match self.replay_journal.prepare_maintenance_watermark(watermark) {
            Ok(ReplayMaintenancePreparation::Advance(prepared)) => prepared,
            Ok(ReplayMaintenancePreparation::NoAdvance) => {
                assert(coordinator_maintenance_ends(
                    before,
                    watermark,
                    *self,
                    plan,
                    answers,
                    Ok(ReplaySnapshotCoordinatorMaintenanceOutcome::NoAdvance),
                ));
                return Ok(ReplaySnapshotCoordinatorMaintenanceOutcome::NoAdvance);
            },
            Err(error) => {
                assert(coordinator_maintenance_ends(
                    before,
                    watermark,
                    *self,
                    plan,
                    answers,
                    Err(ReplaySnapshotCoordinatorMaintenanceError::ReplayJournal(error)),
                ));
                return Err(ReplaySnapshotCoordinatorMaintenanceError::ReplayJournal(error));
            },
        };
        proof {
            plan = prepared;
        }
        match preflight_successor(&self.current_snapshot) {
            Ok(()) => {},
            Err(error) => {
                assert(coordinator_maintenance_ends(
                    before,
                    watermark,
                    *self,
                    plan,
                    answers,
                    Err(ReplaySnapshotCoordinatorMaintenanceError::OuterAdvancePreflight(error)),
                ));
                return Err(ReplaySnapshotCoordinatorMaintenanceError::OuterAdvancePreflight(error));
            },
        }
        let committing = self.replay_journal.commit_prepared_maintenance_and_capture(prepared);
        proof {
            answers = CommitAnswers { journal: committing, ..answers };
        }
        let receipt = match committing {
            Ok(receipt) => receipt,
            Err(error) => {
                self.follow_journal_health();
                assert(coordinator_maintenance_ends(
                    before,
                    watermark,
                    *self,
                    plan,
                    answers,
                    Err(ReplaySnapshotCoordinatorMaintenanceError::ReplayJournal(error)),
                ));
                return Err(ReplaySnapshotCoordinatorMaintenanceError::ReplayJournal(error));
            },
        };
        let binding = successor_after_replay_maintenance(
            &self.current_snapshot,
            receipt,
            &self.replay_journal,
        );
        proof {
            answers = CommitAnswers { binding, ..answers };
        }
        let next_snapshot = match binding {
            Ok(snapshot) => snapshot,
            Err(error) => {
                self.latch_after_replay();
                let fault = ReplaySnapshotCoordinatorOuterAdvanceError::SnapshotBinding(error);
                assert(coordinator_maintenance_ends(
                    before,
                    watermark,
                    *self,
                    plan,
                    answers,
                    Err(ReplaySnapshotCoordinatorMaintenanceError::OuterAdvanceAfterReplay(fault)),
                ));
                return Err(
                    ReplaySnapshotCoordinatorMaintenanceError::OuterAdvanceAfterReplay(fault),
                );
            },
        };
        let advance = self.security_state.compare_and_advance(
            Some(self.current_snapshot),
            next_snapshot,
        );
        proof {
            answers = CommitAnswers { advance, ..answers };
        }
        match advance {
            Ok(()) => {},
            Err(error) => {
                self.latch_after_replay();
                let fault = ReplaySnapshotCoordinatorOuterAdvanceError::SecurityState(error);
                assert(coordinator_maintenance_ends(
                    before,
                    watermark,
                    *self,
                    plan,
                    answers,
                    Err(ReplaySnapshotCoordinatorMaintenanceError::OuterAdvanceAfterReplay(fault)),
                ));
                return Err(
                    ReplaySnapshotCoordinatorMaintenanceError::OuterAdvanceAfterReplay(fault),
                );
            },
        }
        self.current_snapshot = next_snapshot;
        assert(coordinator_maintenance_ends(
            before,
            watermark,
            *self,
            plan,
            answers,
            Ok(ReplaySnapshotCoordinatorMaintenanceOutcome::Advanced),
        ));
        Ok(ReplaySnapshotCoordinatorMaintenanceOutcome::Advanced)
    }
}

impl<
    F: ReplayJournalFiles,
    P: ReplayJournalRecordProtector,
    G: SecurityStateFiles,
    W: SecurityFreshnessWitness,
> ContinuationReplayGuard for ReplaySnapshotCoordinator<F, P, G, W> {
    open spec fn guard_wf(self) -> bool {
        self.replay_journal.wf()
    }

    /// An unavailable commit is one that ended with an error.
    open spec fn may_commit(
        before: Self,
        security_round: SecurityRoundCapture,
        request_key: RequestReplayKey,
        continuation_plan: ContinuationReplayPlan,
        after: Self,
        reply: Result<ReplayCommitResult, ReplayCommitUnavailable>,
    ) -> bool {
        exists|
            answers: CommitAnswers<ReplayCommitResult>,
            result: Result<ReplayCommitResult, ReplaySnapshotCoordinatorCommitError>,
        | #[trigger]
            coordinator_commit_ends(
                before,
                security_round,
                request_key,
                continuation_plan,
                after,
                answers,
                result,
            ) && reply == match result {
                Ok(committed) => Ok(committed),
                Err(_) => Err(ReplayCommitUnavailable),
            }
    }

    fn commit_request_and_continuation(
        &mut self,
        security_round: &SecurityRoundCapture,
        request_key: &RequestReplayKey,
        continuation_plan: &ContinuationReplayPlan,
    ) -> Result<ReplayCommitResult, ReplayCommitUnavailable> {
        match self.commit_request_and_snapshot(security_round, request_key, continuation_plan) {
            Ok(result) => Ok(result),
            Err(_) => Err(ReplayCommitUnavailable),
        }
    }
}

/// How a coordinated commit ends, told from what its parts answered. It succeeds exactly
/// where the coordinator was ready and had a next number, the journal committed, the next
/// snapshot could be bound and the outer store advanced to it. The next snapshot is the one
/// after the current, of the same owner, and bound to the journal's new head. Once the
/// journal has committed, a failure of what follows latches the coordinator.
pub proof fn coordinated_commit_moves_both_or_latches<
    F: ReplayJournalFiles,
    P: ReplayJournalRecordProtector,
    G: SecurityStateFiles,
    W: SecurityFreshnessWitness,
>(
    before: ReplaySnapshotCoordinator<F, P, G, W>,
    security_round: SecurityRoundCapture,
    request_key: RequestReplayKey,
    plan: ContinuationReplayPlan,
    after: ReplaySnapshotCoordinator<F, P, G, W>,
    answers: CommitAnswers<ReplayCommitResult>,
    result: Result<ReplayCommitResult, ReplaySnapshotCoordinatorCommitError>,
)
    requires
        coordinator_commit_ends(
            before,
            security_round,
            request_key,
            plan,
            after,
            answers,
            result,
        ),
    ensures
        ({
            let asked = before.health is Ready && before.current_snapshot.sequence < u64::MAX;
            &&& !asked ==> after == before && result is Err
            &&& before.health is Indeterminate ==> result->Err_0 is LatchedIndeterminate
            &&& before.health is Ready && !asked ==> result->Err_0 is OuterAdvancePreflight
            &&& asked ==> crate::replay_commit::commit_ends(
                before.replay_journal,
                security_round,
                request_key,
                plan,
                after.replay_journal,
                answers.journal,
            )
            &&& result is Ok <==> asked && answers.journal is Ok && answers.binding is Ok
                && answers.advance is Ok
            &&& result matches Ok(committed) ==> {
                &&& committed == answers.journal->Ok_0
                &&& after.health is Ready
                &&& after.current_snapshot.sequence == before.current_snapshot.sequence + 1
                &&& after.current_snapshot.commitment.identity
                    == before.current_snapshot.commitment.identity
                &&& after.current_snapshot.commitment.serving_identity_digest
                    == before.current_snapshot.commitment.serving_identity_digest
                &&& after.current_snapshot.commitment.component_state_digest@
                    == crate::security_state_binding::component_of(
                    crate::replay_journal::head_digest(after.replay_journal.state@),
                )
                &&& crate::security_state_store::store_advances(
                    before.security_state,
                    Some(before.current_snapshot),
                    after.current_snapshot,
                    after.security_state,
                    answers.advance,
                )
            }
            &&& result is Err ==> after.current_snapshot == before.current_snapshot
            &&& asked && answers.journal is Err ==> result->Err_0 is ReplayJournal && (after.health
                is Ready <==> after.replay_journal.health is Ready) && after.security_state
                == before.security_state
            &&& asked && answers.journal is Ok && (answers.binding is Err || answers.advance is Err)
                ==> result->Err_0 is OuterAdvanceAfterReplay && after.health is Indeterminate
        }),
{
}

/// How coordinated maintenance ends, told from what its parts answered. The watermark that
/// stands already is no advance, and a lower one is refused; a higher one is written to the
/// journal and followed by the next outer snapshot, and nothing else of the journal changes.
pub proof fn coordinated_maintenance_only_raises<
    F: ReplayJournalFiles,
    P: ReplayJournalRecordProtector,
    G: SecurityStateFiles,
    W: SecurityFreshnessWitness,
>(
    before: ReplaySnapshotCoordinator<F, P, G, W>,
    watermark: ReplayMaintenanceWatermark,
    after: ReplaySnapshotCoordinator<F, P, G, W>,
    prepared: PreparedReplayMaintenanceAdvance,
    answers: CommitAnswers<ReplayJournalMaintenanceAdvanceReceipt>,
    result: Result<
        ReplaySnapshotCoordinatorMaintenanceOutcome,
        ReplaySnapshotCoordinatorMaintenanceError,
    >,
)
    requires
        coordinator_maintenance_ends(before, watermark, after, prepared, answers, result),
    ensures
        ({
            let current = before.replay_journal.state.maintenance_expiry_bucket_watermark;
            let ready = before.health is Ready && before.replay_journal.health is Ready;
            let asked = ready && watermark.0 > current.0 && before.current_snapshot.sequence
                < u64::MAX;
            &&& !asked ==> after == before
            &&& before.health is Indeterminate ==> result is Err && result->Err_0
                is LatchedIndeterminate
            &&& ready && watermark.0 == current.0 ==> result is Ok && result->Ok_0 is NoAdvance
            &&& ready && watermark.0 < current.0 ==> result is Err && result->Err_0
                is ReplayJournal
            &&& asked ==> (result is Ok <==> answers.journal is Ok && answers.binding is Ok
                && answers.advance is Ok)
            &&& (result is Ok && result->Ok_0 is Advanced) ==> {
                &&& asked
                &&& after.health is Ready
                &&& after.replay_journal.state.maintenance_expiry_bucket_watermark == watermark
                &&& after.replay_journal.state.committed_sequence
                    == before.replay_journal.state.committed_sequence
                &&& after.replay_journal.request_claims == before.replay_journal.request_claims
                &&& after.replay_journal.continuation_claims
                    == before.replay_journal.continuation_claims
                &&& after.current_snapshot.sequence == before.current_snapshot.sequence + 1
                &&& after.current_snapshot.commitment.identity
                    == before.current_snapshot.commitment.identity
                &&& after.current_snapshot.commitment.component_state_digest@
                    == crate::security_state_binding::component_of(
                    crate::replay_journal::head_digest(after.replay_journal.state@),
                )
            }
            &&& result is Err ==> after.current_snapshot == before.current_snapshot
            &&& asked && answers.journal is Ok && (answers.binding is Err || answers.advance is Err)
                ==> after.health is Indeterminate
        }),
{
    if before.health is Ready && before.replay_journal.health is Ready && watermark.0
        > before.replay_journal.state.maintenance_expiry_bucket_watermark.0
        && before.current_snapshot.sequence < u64::MAX {
        let steps = choose|steps: Seq<crate::replay_store::JournalFileStep<F::Staged>>| #[trigger]
            crate::replay_commit::maintenance_ends_by(
                before.replay_journal,
                prepared,
                after.replay_journal,
                steps,
                answers.journal,
            );
        crate::replay_commit::raised_watermark_is_on_record(
            before.replay_journal,
            prepared,
            after.replay_journal,
            steps,
            answers.journal,
        );
    }
}

/// A pair is opened exactly where the outer store gives a snapshot of the profile, the
/// journal of the profile opens, and the snapshot is bound to the journal's head; it holds
/// that journal and that snapshot.
pub proof fn opened_pair_is_bound<
    F: ReplayJournalFiles,
    P: ReplayJournalRecordProtector,
    G: SecurityStateFiles,
    W: SecurityFreshnessWitness,
>(
    replay_files: F,
    security_state_files: G,
    profile: PrivacyProfile,
    protection_context: ReplayJournalProtectionContext,
    protector: P,
    witness: W,
    answers: OpeningAnswers<F, P, G, W>,
    result: Result<ReplaySnapshotCoordinator<F, P, G, W>, ReplaySnapshotCoordinatorOpenError>,
)
    requires
        opening_existing_ends(
            replay_files,
            security_state_files,
            profile,
            protection_context,
            protector,
            witness,
            answers,
            result,
        ),
    ensures
        ({
            let found = answers.outer is Ok && answers.outer->Ok_0 is Some;
            let snapshot = answers.outer->Ok_0->Some_0;
            let of_profile = found && snapshot.commitment.identity.profile_id == profile.profile_id;
            let opened = of_profile && answers.journal is Ok;
            let bound = opened && snapshot.commitment.component_state_digest@
                == crate::security_state_binding::component_of(
                crate::replay_journal::head_digest(answers.journal->Ok_0.state@),
            );
            &&& result is Ok <==> bound
            &&& answers.outer is Err ==> result->Err_0 is SecurityState
            &&& answers.outer is Ok && answers.outer->Ok_0 is None ==> result->Err_0
                is OuterSnapshotMissing
            &&& found && !of_profile ==> result->Err_0 is ProfileIdentityMismatch
            &&& of_profile && !opened ==> result->Err_0 is ReplayJournal
            &&& opened && !bound ==> result->Err_0 is SnapshotBinding
            &&& of_profile ==> crate::journal_storage::opening_ends(
                replay_files,
                (ReplayJournalLimits {
                    max_transactions: profile.replay_policy.transaction_capacity,
                }),
                profile.profile_id,
                protection_context,
                protector,
                answers.journal,
            )
            &&& result matches Ok(coordinator) ==> {
                &&& coordinator.replay_journal == answers.journal->Ok_0
                &&& coordinator.current_snapshot == snapshot
                &&& coordinator.security_state == answers.reader
                &&& coordinator.health is Ready
            }
        }),
{
}

/// A first snapshot is provisioned exactly where the identity is of the profile, the journal
/// opens, the outer store is empty, both digests can be committed to, and the store advances
/// to it from nothing. It is the first of its sequence, of the given identity and serving
/// digest, and bound to the journal's head.
pub proof fn first_snapshot_is_provisioned_once<
    F: ReplayJournalFiles,
    P: ReplayJournalRecordProtector,
    G: SecurityStateFiles,
    W: SecurityFreshnessWitness,
>(
    replay_files: F,
    security_state_files: G,
    profile: PrivacyProfile,
    protection_context: ReplayJournalProtectionContext,
    protector: P,
    witness: W,
    initial_state: ReplaySnapshotInitialState,
    answers: OpeningAnswers<F, P, G, W>,
    result: Result<ReplaySnapshotCoordinator<F, P, G, W>, ReplaySnapshotCoordinatorOpenError>,
)
    requires
        provisioning_ends(
            replay_files,
            security_state_files,
            profile,
            protection_context,
            protector,
            witness,
            initial_state,
            answers,
            result,
        ),
    ensures
        ({
            let of_profile = initial_state.identity.profile_id == profile.profile_id;
            let opened = of_profile && answers.journal is Ok;
            let empty = opened && answers.outer is Ok && answers.outer->Ok_0 is None;
            &&& result is Ok <==> empty && answers.provisioned is Ok && answers.advance is Ok
            &&& !of_profile ==> result->Err_0 is ProfileIdentityMismatch
            &&& of_profile && !opened ==> result->Err_0 is ReplayJournal
            &&& opened && answers.outer is Err ==> result->Err_0 is SecurityState
            &&& opened && answers.outer is Ok && answers.outer->Ok_0 is Some ==> result->Err_0
                is OuterSnapshotAlreadyProvisioned
            &&& empty && answers.provisioned is Err ==> result->Err_0 is SnapshotBinding
            &&& empty && answers.provisioned is Ok && answers.advance is Err ==> result->Err_0
                is SecurityState
            &&& result matches Ok(coordinator) ==> {
                &&& coordinator.replay_journal == answers.journal->Ok_0
                &&& coordinator.health is Ready
                &&& coordinator.current_snapshot.sequence == 1
                &&& coordinator.current_snapshot.commitment.identity == initial_state.identity
                &&& coordinator.current_snapshot.commitment.serving_identity_digest
                    == initial_state.serving_identity_digest
                &&& coordinator.current_snapshot.commitment.component_state_digest@
                    == crate::security_state_binding::component_of(
                    crate::replay_journal::head_digest(coordinator.replay_journal.state@),
                )
                &&& crate::security_state_store::store_advances(
                    answers.reader,
                    None,
                    coordinator.current_snapshot,
                    coordinator.security_state,
                    answers.advance,
                )
            }
        }),
{
}

/// No two faults of this kind are shown by the same text: an operator can tell each from
/// every other.
pub proof fn coordinator_open_faults_are_told_apart(
    left: ReplaySnapshotCoordinatorOpenError,
    right: ReplaySnapshotCoordinatorOpenError,
)
    requires
        left.text() == right.text(),
    ensures
        left is ReplayJournal <==> right is ReplayJournal,
        left is SecurityState <==> right is SecurityState,
        left is OuterSnapshotMissing <==> right is OuterSnapshotMissing,
        left is OuterSnapshotAlreadyProvisioned <==> right is OuterSnapshotAlreadyProvisioned,
        left is ProfileIdentityMismatch <==> right is ProfileIdentityMismatch,
        left is SnapshotBinding <==> right is SnapshotBinding,
{
    reveal_strlit("replay journal could not be opened");
    assert("replay journal could not be opened"@.len() == 34);
    reveal_strlit("outer security state could not be reconciled");
    assert("outer security state could not be reconciled"@.len() == 44);
    reveal_strlit("outer security snapshot has not been provisioned");
    assert("outer security snapshot has not been provisioned"@.len() == 48);
    reveal_strlit("outer security snapshot is already provisioned");
    assert("outer security snapshot is already provisioned"@.len() == 46);
    reveal_strlit("outer security snapshot does not match the compiled privacy profile");
    assert("outer security snapshot does not match the compiled privacy profile"@.len() == 67);
    reveal_strlit("outer security snapshot does not match the replay journal");
    assert("outer security snapshot does not match the replay journal"@.len() == 57);
}

/// No two faults of this kind are shown by the same text: an operator can tell each from
/// every other.
pub proof fn coordinator_outer_advance_faults_are_told_apart(
    left: ReplaySnapshotCoordinatorOuterAdvanceError,
    right: ReplaySnapshotCoordinatorOuterAdvanceError,
)
    requires
        left.text() == right.text(),
    ensures
        left is SnapshotBinding <==> right is SnapshotBinding,
        left is SecurityState <==> right is SecurityState,
{
    reveal_strlit("replay transition receipt did not match the outer snapshot");
    assert("replay transition receipt did not match the outer snapshot"@.len() == 58);
    reveal_strlit("outer security-state transition is unresolved");
    assert("outer security-state transition is unresolved"@.len() == 45);
}

/// No two faults of this kind are shown by the same text: an operator can tell each from
/// every other.
pub proof fn coordinator_commit_faults_are_told_apart(
    left: ReplaySnapshotCoordinatorCommitError,
    right: ReplaySnapshotCoordinatorCommitError,
)
    requires
        left.text() == right.text(),
    ensures
        left is LatchedIndeterminate <==> right is LatchedIndeterminate,
        left is OuterAdvancePreflight <==> right is OuterAdvancePreflight,
        left is ReplayJournal <==> right is ReplayJournal,
        left is OuterAdvanceAfterReplay <==> right is OuterAdvanceAfterReplay,
{
    reveal_strlit("replay snapshot coordinator is indeterminate");
    assert("replay snapshot coordinator is indeterminate"@.len() == 44);
    reveal_strlit("outer security snapshot cannot advance");
    assert("outer security snapshot cannot advance"@.len() == 38);
    reveal_strlit("replay journal commit failed");
    assert("replay journal commit failed"@.len() == 28);
    reveal_strlit("outer security-state advance failed after replay commit");
    assert("outer security-state advance failed after replay commit"@.len() == 55);
}

/// No two faults of this kind are shown by the same text: an operator can tell each from
/// every other.
pub proof fn coordinator_maintenance_faults_are_told_apart(
    left: ReplaySnapshotCoordinatorMaintenanceError,
    right: ReplaySnapshotCoordinatorMaintenanceError,
)
    requires
        left.text() == right.text(),
    ensures
        left is LatchedIndeterminate <==> right is LatchedIndeterminate,
        left is OuterAdvancePreflight <==> right is OuterAdvancePreflight,
        left is ReplayJournal <==> right is ReplayJournal,
        left is OuterAdvanceAfterReplay <==> right is OuterAdvanceAfterReplay,
{
    reveal_strlit("replay snapshot coordinator is indeterminate");
    assert("replay snapshot coordinator is indeterminate"@.len() == 44);
    reveal_strlit("outer security snapshot cannot advance");
    assert("outer security snapshot cannot advance"@.len() == 38);
    reveal_strlit("replay maintenance watermark advance failed");
    assert("replay maintenance watermark advance failed"@.len() == 43);
    reveal_strlit("outer security-state advance failed after replay maintenance");
    assert("outer security-state advance failed after replay maintenance"@.len() == 60);
}

} // verus!
