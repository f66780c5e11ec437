//! Local snapshot store coupled to an externally authoritative witness.

use crate::record_files::ExactFileRead;
use crate::record_files::RealDirectoryError;
use crate::security_state::same_snapshot;
use crate::security_state::PersistentSecurityState;
use crate::security_state::SecurityFreshness;
use crate::security_state::SecurityStateSnapshot;
use crate::security_state::SecurityStateSuccessorError;
use crate::security_state::PERSISTENT_SECURITY_STATE_BYTES;
use vstd::prelude::*;

verus! {

/// Externally authoritative rollback/freshness boundary.
///
/// Implementations must make `next` crash-durable before returning `Ok` and
/// reject every successful transition except `None -> 1` or exact
/// `n -> n + 1`. An `Err` is indeterminate: the witness may be unchanged or
/// may already contain `next`, so the caller must fail closed and reconcile.
pub trait SecurityFreshnessWitness: Sized {
    type Error;

    /// The replies that `current` may give, and the state it may leave.
    open spec fn may_observe(
        before: Self,
        after: Self,
        reply: Result<Option<SecurityFreshness>, Self::Error>,
    ) -> bool {
        true
    }

    /// The replies that `compare_and_advance` may give, and the state it may leave.
    open spec fn may_advance(
        before: Self,
        expected: Option<SecurityFreshness>,
        next: SecurityFreshness,
        after: Self,
        reply: Result<(), Self::Error>,
    ) -> bool {
        true
    }

    fn current(&mut self) -> (reply: Result<Option<SecurityFreshness>, Self::Error>)
        ensures
            Self::may_observe(*old(self), *final(self), reply),
    ;

    fn compare_and_advance(
        &mut self,
        expected: Option<SecurityFreshness>,
        next: SecurityFreshness,
    ) -> (reply: Result<(), Self::Error>)
        ensures
            Self::may_advance(*old(self), expected, next, *final(self), reply),
    ;
}

/// Directories of one local security-state store.
#[derive(Debug, Clone, Copy, PartialEq, Eq, Structural)]
pub enum SecurityStateDirectory {
    /// The directory that holds the recovery directory.
    Parent,
    /// The directory that holds the authoritative file.
    Recovery,
    /// The directory that holds files not yet authoritative.
    Staging,
}

/// One call of a security-state store's storage, and what came back.
#[allow(inconsistent_fields)]
pub enum SecurityFileStep<S> {
    ReadCurrent { read: ExactFileRead },
    Ensured { directory: SecurityStateDirectory, reply: Result<(), RealDirectoryError> },
    SyncedDirectory { directory: SecurityStateDirectory, done: bool },
    Staged { record: Seq<u8>, staged: Option<S> },
    ReplacedCurrent { staged: S, done: bool },
}

/// Durable local files of one security-state store.
///
/// Nothing is known of what a call does but what an implementation says in
/// `steps_to`; one that says nothing promises nothing.
pub trait SecurityStateFiles: Sized {
    /// A fully written and synchronized file that is not yet authoritative.
    type Staged;

    /// The states that a call with that reply may lead to.
    open spec fn steps_to(before: Self, step: SecurityFileStep<Self::Staged>, after: Self) -> bool {
        true
    }

    /// Reads the authoritative file.
    fn read_current(&mut self) -> (read: ExactFileRead)
        ensures
            Self::steps_to(*old(self), SecurityFileStep::ReadCurrent { read }, *final(self)),
    ;

    /// Creates the directory if it is missing, and refuses anything but a real one.
    fn ensure_real_directory(&mut self, directory: SecurityStateDirectory) -> (reply: Result<
        (),
        RealDirectoryError,
    >)
        ensures
            Self::steps_to(
                *old(self),
                SecurityFileStep::Ensured { directory, reply },
                *final(self),
            ),
    ;

    /// Makes the directory's entries durable, and says whether that succeeded.
    fn sync_directory(&mut self, directory: SecurityStateDirectory) -> (done: bool)
        ensures
            Self::steps_to(
                *old(self),
                SecurityFileStep::SyncedDirectory { directory, done },
                *final(self),
            ),
    ;

    /// Writes and synchronizes a new staging file; `None` if that failed.
    fn stage(&mut self, record: &[u8; PERSISTENT_SECURITY_STATE_BYTES]) -> (staged: Option<
        Self::Staged,
    >)
        ensures
            Self::steps_to(
                *old(self),
                SecurityFileStep::Staged { record: record@, staged },
                *final(self),
            ),
    ;

    /// Renames a staging file over the authoritative one, and says whether that succeeded.
    fn replace_current(&mut self, staged: Self::Staged) -> (done: bool)
        ensures
            Self::steps_to(
                *old(self),
                SecurityFileStep::ReplacedCurrent { staged, done },
                *final(self),
            ),
    ;
}

/// Local/witness reconciliation or commit failed.
#[derive(Debug, Clone, Copy, PartialEq, Eq, Structural)]
pub enum SecurityStateStoreError {
    LatchedIndeterminate,
    WitnessUnavailable,
    UnexpectedLocalStateWithoutWitness,
    WitnessBoundStateMissing,
    WitnessBoundStateUnreadable,
    WitnessBoundStateCorrupt,
    WitnessLocalMismatch,
    ExpectedStateMismatch,
    InvalidSequenceTransition,
    InvalidIdentityTransition(SecurityStateSuccessorError),
    UnsafeRecoveryPath,
    LocalStateStageUnavailable,
    LocalStateIndeterminate,
    WitnessAdvanceUnresolved,
}

impl SecurityStateStoreError {
    pub open spec fn text(self) -> Seq<char> {
        match self {
            Self::LatchedIndeterminate => "security state store is latched indeterminate"@,
            Self::WitnessUnavailable => "security freshness witness is unavailable"@,
            Self::UnexpectedLocalStateWithoutWitness =>
                "local security state exists without witness authority"@,
            Self::WitnessBoundStateMissing => "freshness-bound local security state is missing"@,
            Self::WitnessBoundStateUnreadable =>
                "freshness-bound local security state is unreadable"@,
            Self::WitnessBoundStateCorrupt => "freshness-bound local security state is corrupt"@,
            Self::WitnessLocalMismatch =>
                "local security state does not match freshness authority"@,
            Self::ExpectedStateMismatch => "expected security state is not current"@,
            Self::InvalidSequenceTransition => "security state sequence transition is invalid"@,
            Self::InvalidIdentityTransition(_) => "security state identity transition is invalid"@,
            Self::UnsafeRecoveryPath => "security state recovery path is not a real directory"@,
            Self::LocalStateStageUnavailable => "security state could not be staged durably"@,
            Self::LocalStateIndeterminate => "local security-state commit is indeterminate"@,
            Self::WitnessAdvanceUnresolved => "security freshness witness advance is unresolved"@,
        }
    }

    /// Text shown to an operator.
    pub fn message(&self) -> (text: &'static str)
        ensures
            text@ == self.text(),
    {
        match self {
            Self::LatchedIndeterminate => "security state store is latched indeterminate",
            Self::WitnessUnavailable => "security freshness witness is unavailable",
            Self::UnexpectedLocalStateWithoutWitness =>
                "local security state exists without witness authority",
            Self::WitnessBoundStateMissing => "freshness-bound local security state is missing",
            Self::WitnessBoundStateUnreadable =>
                "freshness-bound local security state is unreadable",
            Self::WitnessBoundStateCorrupt => "freshness-bound local security state is corrupt",
            Self::WitnessLocalMismatch => "local security state does not match freshness authority",
            Self::ExpectedStateMismatch => "expected security state is not current",
            Self::InvalidSequenceTransition => "security state sequence transition is invalid",
            Self::InvalidIdentityTransition(_) => "security state identity transition is invalid",
            Self::UnsafeRecoveryPath => "security state recovery path is not a real directory",
            Self::LocalStateStageUnavailable => "security state could not be staged durably",
            Self::LocalStateIndeterminate => "local security-state commit is indeterminate",
            Self::WitnessAdvanceUnresolved => "security freshness witness advance is unresolved",
        }
    }
}

#[derive(Debug, Clone, Copy, PartialEq, Eq, Structural)]
pub enum SecurityStateStoreHealth {
    Ready,
    Indeterminate,
}

#[derive(Debug, Clone, Copy, PartialEq, Eq, Structural)]
pub enum LocalStateLoadError {
    Missing,
    Unreadable,
    Corrupt,
}

/// What a read of the authoritative file amounts to.
pub open spec fn loads(
    read: ExactFileRead,
    local: Result<SecurityStateSnapshot, LocalStateLoadError>,
) -> bool {
    match read {
        ExactFileRead::Missing => local == Err::<SecurityStateSnapshot, _>(
            LocalStateLoadError::Missing,
        ),
        ExactFileRead::Unreadable => local == Err::<SecurityStateSnapshot, _>(
            LocalStateLoadError::Unreadable,
        ),
        ExactFileRead::NotRegular | ExactFileRead::Short | ExactFileRead::Trailing => local == Err::<
            SecurityStateSnapshot,
            _,
        >(LocalStateLoadError::Corrupt),
        ExactFileRead::Exact(bytes) => {
            if bytes@.len() == PERSISTENT_SECURITY_STATE_BYTES
                && crate::security_state::decode_error(bytes@) is None {
                local matches Ok(state) && state.wf() && state.encoded() == bytes@
            } else {
                local == Err::<SecurityStateSnapshot, _>(LocalStateLoadError::Corrupt)
            }
        },
    }
}

/// Classifies one read of the authoritative file.
pub fn load_local_state(read: ExactFileRead) -> (local: Result<
    SecurityStateSnapshot,
    LocalStateLoadError,
>)
    ensures
        loads(read, local),
{
    match read {
        ExactFileRead::Missing => Err(LocalStateLoadError::Missing),
        ExactFileRead::Unreadable => Err(LocalStateLoadError::Unreadable),
        ExactFileRead::NotRegular | ExactFileRead::Short | ExactFileRead::Trailing => Err(
            LocalStateLoadError::Corrupt,
        ),
        ExactFileRead::Exact(bytes) => {
            let persistent = match PersistentSecurityState::try_from_bytes(bytes.as_slice()) {
                Ok(persistent) => persistent,
                Err(_) => {
                    return Err(LocalStateLoadError::Corrupt);
                },
            };
            match persistent.into_business() {
                Ok(state) => Ok(state),
                Err(_) => Err(LocalStateLoadError::Corrupt),
            }
        },
    }
}

/// What the witness and the local file together say the current state is.
pub open spec fn reconciled(
    freshness: Option<SecurityFreshness>,
    local: Result<SecurityStateSnapshot, LocalStateLoadError>,
) -> Result<Option<SecurityStateSnapshot>, SecurityStateStoreError> {
    match (freshness, local) {
        (None, Err(LocalStateLoadError::Missing)) => Ok(None),
        (None, _) => Err(SecurityStateStoreError::UnexpectedLocalStateWithoutWitness),
        (Some(_), Err(LocalStateLoadError::Missing)) => Err(
            SecurityStateStoreError::WitnessBoundStateMissing,
        ),
        (Some(_), Err(LocalStateLoadError::Unreadable)) => Err(
            SecurityStateStoreError::WitnessBoundStateUnreadable,
        ),
        (Some(_), Err(LocalStateLoadError::Corrupt)) => Err(
            SecurityStateStoreError::WitnessBoundStateCorrupt,
        ),
        (Some(freshness), Ok(state)) => if state.has_freshness(freshness) {
            Ok(Some(state))
        } else {
            Err(SecurityStateStoreError::WitnessLocalMismatch)
        },
    }
}

/// Accepts local state only if it is exactly what the witness names.
pub fn reconcile_local_state(
    freshness: Option<SecurityFreshness>,
    local: Result<SecurityStateSnapshot, LocalStateLoadError>,
) -> (result: Result<Option<SecurityStateSnapshot>, SecurityStateStoreError>)
    ensures
        result == reconciled(freshness, local),
{
    match (freshness, local) {
        (None, Err(LocalStateLoadError::Missing)) => Ok(None),
        (None, _) => Err(SecurityStateStoreError::UnexpectedLocalStateWithoutWitness),
        (Some(_), Err(LocalStateLoadError::Missing)) => Err(
            SecurityStateStoreError::WitnessBoundStateMissing,
        ),
        (Some(_), Err(LocalStateLoadError::Unreadable)) => Err(
            SecurityStateStoreError::WitnessBoundStateUnreadable,
        ),
        (Some(_), Err(LocalStateLoadError::Corrupt)) => Err(
            SecurityStateStoreError::WitnessBoundStateCorrupt,
        ),
        (Some(freshness), Ok(state)) => {
            let own = state.freshness();
            let same = own.same(&freshness);
            proof {
                if state.has_freshness(freshness) {
                    crate::bytes::lemma_array_extensional(
                        own.state_digest.0,
                        freshness.state_digest.0,
                    );
                }
            }
            if same {
                Ok(Some(state))
            } else {
                Err(SecurityStateStoreError::WitnessLocalMismatch)
            }
        },
    }
}

/// Why the current state may not advance to `next`, in the order in which reasons are reported.
pub open spec fn advance_error(
    current: Option<SecurityStateSnapshot>,
    expected: Option<SecurityStateSnapshot>,
    next: SecurityStateSnapshot,
) -> Option<SecurityStateStoreError> {
    let next_sequence = match current {
        None => 1,
        Some(state) => state.sequence + 1,
    };
    if current != expected {
        Some(SecurityStateStoreError::ExpectedStateMismatch)
    } else if next.sequence != next_sequence {
        Some(SecurityStateStoreError::InvalidSequenceTransition)
    } else {
        match current {
            None => None,
            Some(state) => match crate::security_state::successor_error(
                state.commitment.identity,
                next.commitment.identity,
            ) {
                Some(error) => Some(SecurityStateStoreError::InvalidIdentityTransition(error)),
                None => None,
            },
        }
    }
}

/// Decides whether the current state may advance to `next`.
pub fn validate_advance(
    current: &Option<SecurityStateSnapshot>,
    expected: &Option<SecurityStateSnapshot>,
    next: &SecurityStateSnapshot,
) -> (result: Result<(), SecurityStateStoreError>)
    ensures
        result == match advance_error(*current, *expected, *next) {
            Some(error) => Err(error),
            None => Ok(()),
        },
{
    if !same_snapshot(current, expected) {
        return Err(SecurityStateStoreError::ExpectedStateMismatch);
    }
    let valid_sequence = match current {
        None => next.sequence() == 1,
        Some(state) => match state.sequence().checked_add(1) {
            Some(sequence) => sequence == next.sequence(),
            None => false,
        },
    };
    if !valid_sequence {
        return Err(SecurityStateStoreError::InvalidSequenceTransition);
    }
    match current {
        None => Ok(()),
        Some(state) => match state.commitment.identity.validate_successor(
            &next.commitment.identity,
        ) {
            Ok(()) => Ok(()),
            Err(error) => Err(SecurityStateStoreError::InvalidIdentityTransition(error)),
        },
    }
}

/// The witness transition that makes `next` authoritative after `expected`.
pub open spec fn witness_transition(
    expected: Option<SecurityStateSnapshot>,
    next: SecurityStateSnapshot,
    expected_freshness: Option<SecurityFreshness>,
    next_freshness: SecurityFreshness,
) -> bool {
    &&& next.has_freshness(next_freshness)
    &&& match (expected, expected_freshness) {
        (None, None) => true,
        (Some(state), Some(freshness)) => state.has_freshness(freshness),
        _ => false,
    }
}

/// Failure to prepare a directory, as the store reports it.
pub open spec fn directory_error(error: RealDirectoryError) -> SecurityStateStoreError {
    match error {
        RealDirectoryError::Io => SecurityStateStoreError::LocalStateStageUnavailable,
        RealDirectoryError::UnsafePath => SecurityStateStoreError::UnsafeRecoveryPath,
    }
}

pub fn map_security_directory_error(error: RealDirectoryError) -> (mapped: SecurityStateStoreError)
    ensures
        mapped == directory_error(error),
{
    match error {
        RealDirectoryError::Io => SecurityStateStoreError::LocalStateStageUnavailable,
        RealDirectoryError::UnsafePath => SecurityStateStoreError::UnsafeRecoveryPath,
    }
}

/// Locally staged state plus the witness transition it will authorize.
pub struct StagedSecurityState<S> {
    pub file: S,
    pub expected_freshness: Option<SecurityFreshness>,
    pub next_freshness: SecurityFreshness,
}

/// A locally durable state transition awaiting witness authorization.
pub struct DurableSecurityStateAdvance {
    pub expected_freshness: Option<SecurityFreshness>,
    pub next_freshness: SecurityFreshness,
}

/// Local snapshot store coupled to an externally authoritative witness.
pub struct SecurityStateStore<F, W> {
    pub files: F,
    pub witness: W,
    pub health: SecurityStateStoreHealth,
}

impl<F, W> SecurityStateStore<F, W> {
    pub fn new(files: F, witness: W) -> (store: Self)
        ensures
            store.files == files,
            store.witness == witness,
            store.health is Ready,
    {
        SecurityStateStore { files, witness, health: SecurityStateStoreHealth::Ready }
    }

    /// Makes every later operation of this store fail.
    fn latch(&mut self, error: SecurityStateStoreError) -> (same: SecurityStateStoreError)
        ensures
            same == error,
            final(self).health is Indeterminate,
            final(self).files == old(self).files,
            final(self).witness == old(self).witness,
    {
        self.health = SecurityStateStoreHealth::Indeterminate;
        error
    }

    /// Redacted rendering for logs.
    pub fn debug_text(&self) -> (text: &'static str)
        ensures
            text@ == if self.health is Ready {
                "SecurityStateStore { witness: \"..REDACTED..\", health: Ready }"@
            } else {
                "SecurityStateStore { witness: \"..REDACTED..\", health: Indeterminate }"@
            },
    {
        match self.health {
            SecurityStateStoreHealth::Ready =>
                "SecurityStateStore { witness: \"..REDACTED..\", health: Ready }",
            SecurityStateStoreHealth::Indeterminate =>
                "SecurityStateStore { witness: \"..REDACTED..\", health: Indeterminate }",
        }
    }
}

/// Calls of a storage, one after the other, that may lead from one state of it to another.
pub open spec fn security_storage_runs<F: SecurityStateFiles>(
    before: F,
    steps: Seq<SecurityFileStep<F::Staged>>,
    after: F,
) -> bool
    decreases steps.len(),
{
    if steps.len() == 0 {
        after == before
    } else {
        exists|middle: F|
            security_storage_runs(before, steps.drop_last(), middle) && #[trigger] F::steps_to(
                middle,
                steps.last(),
                after,
            )
    }
}

/// A run goes on with one more call.
proof fn lemma_storage_goes_on<F: SecurityStateFiles>(
    before: F,
    steps: Seq<SecurityFileStep<F::Staged>>,
    middle: F,
    step: SecurityFileStep<F::Staged>,
    after: F,
)
    requires
        security_storage_runs(before, steps, middle),
        F::steps_to(middle, step, after),
    ensures
        security_storage_runs(before, steps.push(step), after),
{
    assert(steps.push(step).drop_last() =~= steps);
    assert(steps.push(step).last() == step);
}

/// Two runs in a row are one.
proof fn lemma_storage_joins<F: SecurityStateFiles>(
    before: F,
    first: Seq<SecurityFileStep<F::Staged>>,
    middle: F,
    second: Seq<SecurityFileStep<F::Staged>>,
    after: F,
)
    requires
        security_storage_runs(before, first, middle),
        security_storage_runs(middle, second, after),
    ensures
        security_storage_runs(before, first + second, after),
    decreases second.len(),
{
    if second.len() == 0 {
        assert(first + second =~= first);
    } else {
        let between = choose|between: F|
            security_storage_runs(middle, second.drop_last(), between) && #[trigger] F::steps_to(
                between,
                second.last(),
                after,
            );
        lemma_storage_joins(before, first, middle, second.drop_last(), between);
        lemma_storage_goes_on(before, first + second.drop_last(), between, second.last(), after);
        assert((first + second.drop_last()).push(second.last()) =~= first + second);
    }
}

/// The call did what it was asked.
pub open spec fn security_step_succeeded<S>(step: SecurityFileStep<S>) -> bool {
    match step {
        SecurityFileStep::ReadCurrent { .. } => true,
        SecurityFileStep::Ensured { reply, .. } => reply is Ok,
        SecurityFileStep::SyncedDirectory { done, .. } => done,
        SecurityFileStep::Staged { staged, .. } => staged is Some,
        SecurityFileStep::ReplacedCurrent { done, .. } => done,
    }
}

/// The call is the one that an advance to this state makes at this position.
pub open spec fn advance_step<S>(
    position: int,
    step: SecurityFileStep<S>,
    next: SecurityStateSnapshot,
) -> bool {
    match step {
        SecurityFileStep::ReadCurrent { .. } => position == 0,
        SecurityFileStep::Ensured { directory, .. } => match directory {
            SecurityStateDirectory::Recovery => position == 1,
            SecurityStateDirectory::Staging => position == 2,
            SecurityStateDirectory::Parent => false,
        },
        SecurityFileStep::SyncedDirectory { directory, .. } => match directory {
            SecurityStateDirectory::Parent => position == 3,
            SecurityStateDirectory::Recovery => position == 4 || position == 8,
            SecurityStateDirectory::Staging => position == 5 || position == 9,
        },
        SecurityFileStep::Staged { record, .. } => position == 6 && record == next.encoded(),
        SecurityFileStep::ReplacedCurrent { .. } => position == 7,
    }
}

/// Failure of the call at a position, as the store reports it.
///
/// From the rename on nobody knows which state is authoritative.
pub open spec fn advance_step_error<S>(
    position: int,
    step: SecurityFileStep<S>,
) -> SecurityStateStoreError {
    match step {
        SecurityFileStep::Ensured { reply: Err(error), .. } => directory_error(error),
        _ => if position < 7 {
            SecurityStateStoreError::LocalStateStageUnavailable
        } else {
            SecurityStateStoreError::LocalStateIndeterminate
        },
    }
}

/// Calls of an advance from one position on: all up to a position, or up to the
/// first that failed.
pub open spec fn advance_run<S>(
    from: int,
    to: int,
    steps: Seq<SecurityFileStep<S>>,
    next: SecurityStateSnapshot,
    error: Option<SecurityStateStoreError>,
) -> bool {
    &&& steps.len() <= to - from
    &&& forall|i: int| 0 <= i < steps.len() ==> advance_step(from + i, #[trigger] steps[i], next)
    &&& forall|i: int| 0 <= i < steps.len() - 1 ==> security_step_succeeded(#[trigger] steps[i])
    &&& match error {
        None => steps.len() == to - from && (steps.len() > 0 ==> security_step_succeeded(
            steps.last(),
        )),
        Some(error) => steps.len() > 0 && !security_step_succeeded(steps.last()) && error
            == advance_step_error(from + steps.len() - 1, steps.last()),
    }
}

/// Everything that storage and the witness answered in one operation.
pub struct AdvanceTranscript<F: SecurityStateFiles, W: SecurityFreshnessWitness> {
    /// What the witness answered first, and what that left of it.
    pub observed: Result<Option<SecurityFreshness>, W::Error>,
    pub observer: W,
    /// What the local file amounts to.
    pub local: Result<SecurityStateSnapshot, LocalStateLoadError>,
    /// The calls of the storage.
    pub steps: Seq<SecurityFileStep<F::Staged>>,
    /// The transition that the witness was asked for, and its answer.
    pub expected_freshness: Option<SecurityFreshness>,
    pub next_freshness: SecurityFreshness,
    pub reply: Result<(), W::Error>,
}

impl<F: SecurityStateFiles, W: SecurityFreshnessWitness> AdvanceTranscript<F, W> {
    /// The witness was asked, and if it answered the local file was read.
    pub open spec fn begins(self, before: SecurityStateStore<F, W>, files: F) -> bool {
        &&& W::may_observe(before.witness, self.observer, self.observed)
        &&& security_storage_runs(before.files, self.steps, files)
        &&& match self.observed {
            Err(_) => self.steps.len() == 0,
            Ok(_) => self.steps.len() > 0 && (self.steps[0] matches SecurityFileStep::ReadCurrent {
                read,
            } && loads(read, self.local)),
        }
    }

    /// What the witness and the local file together say.
    pub open spec fn current(self) -> Result<Option<SecurityStateSnapshot>, SecurityStateStoreError> {
        match self.observed {
            Err(_) => Err(SecurityStateStoreError::WitnessUnavailable),
            Ok(freshness) => reconciled(freshness, self.local),
        }
    }

    /// How reading the current state ends.
    pub open spec fn current_ends(
        self,
        before: SecurityStateStore<F, W>,
        after: SecurityStateStore<F, W>,
        result: Result<Option<SecurityStateSnapshot>, SecurityStateStoreError>,
    ) -> bool {
        if before.health is Indeterminate {
            after == before && result == Err::<Option<SecurityStateSnapshot>, _>(
                SecurityStateStoreError::LatchedIndeterminate,
            )
        } else {
            &&& self.begins(before, after.files)
            &&& self.steps.len() <= 1
            &&& after.witness == self.observer
            &&& after.health == before.health
            &&& result == self.current()
        }
    }

    /// Why nothing is staged, if the state may not advance.
    pub open spec fn refusal(
        self,
        expected: Option<SecurityStateSnapshot>,
        next: SecurityStateSnapshot,
    ) -> Option<SecurityStateStoreError> {
        match self.current() {
            Err(error) => Some(error),
            Ok(current) => advance_error(current, expected, next),
        }
    }

    /// How staging ends: what is handed to storage is the encoding of `next`,
    /// and nothing is before the advance has been validated.
    pub open spec fn staging_ends(
        self,
        before: SecurityStateStore<F, W>,
        expected: Option<SecurityStateSnapshot>,
        next: SecurityStateSnapshot,
        after: SecurityStateStore<F, W>,
        result: Result<StagedSecurityState<F::Staged>, SecurityStateStoreError>,
    ) -> bool {
        if before.health is Indeterminate {
            after == before && result == Err::<StagedSecurityState<F::Staged>, _>(
                SecurityStateStoreError::LatchedIndeterminate,
            )
        } else {
            &&& self.begins(before, after.files)
            &&& after.witness == self.observer
            &&& after.health == before.health
            &&& match self.refusal(expected, next) {
                Some(error) => self.steps.len() <= 1 && result == Err::<
                    StagedSecurityState<F::Staged>,
                    _,
                >(error),
                None => match result {
                    Ok(staged) => {
                        &&& advance_run(0, 7, self.steps, next, None)
                        &&& self.steps[6] matches SecurityFileStep::Staged { staged: file, .. }
                            && file == Some(staged.file)
                        &&& witness_transition(
                            expected,
                            next,
                            staged.expected_freshness,
                            staged.next_freshness,
                        )
                    },
                    Err(error) => self.steps.len() > 1 && advance_run(
                        0,
                        7,
                        self.steps,
                        next,
                        Some(error),
                    ),
                },
            }
        }
    }

    /// How an advance ends: the local file is durable before the witness is
    /// asked, and the witness is asked for exactly this transition.
    pub open spec fn advance_ends(
        self,
        before: SecurityStateStore<F, W>,
        expected: Option<SecurityStateSnapshot>,
        next: SecurityStateSnapshot,
        after: SecurityStateStore<F, W>,
        result: Result<(), SecurityStateStoreError>,
    ) -> bool {
        if before.health is Indeterminate {
            after == before && result == Err::<(), _>(SecurityStateStoreError::LatchedIndeterminate)
        } else {
            &&& self.begins(before, after.files)
            &&& match self.refusal(expected, next) {
                Some(error) => {
                    &&& self.steps.len() <= 1
                    &&& after.witness == self.observer
                    &&& after.health == before.health
                    &&& result == Err::<(), _>(error)
                },
                None => {
                    &&& self.steps.len() > 1
                    &&& self.steps.len() > 7 ==> (self.steps[6] matches SecurityFileStep::Staged {
                        staged: Some(file),
                        ..
                    } && (self.steps[7] matches SecurityFileStep::ReplacedCurrent { staged, .. }
                        && staged == file))
                    &&& if security_step_succeeded(self.steps.last()) {
                        &&& advance_run(0, 10, self.steps, next, None)
                        &&& witness_transition(
                            expected,
                            next,
                            self.expected_freshness,
                            self.next_freshness,
                        )
                        &&& W::may_advance(
                            self.observer,
                            self.expected_freshness,
                            self.next_freshness,
                            after.witness,
                            self.reply,
                        )
                        &&& match self.reply {
                            Ok(_) => result == Ok::<(), SecurityStateStoreError>(())
                                && after.health is Ready,
                            Err(_) => result == Err::<(), _>(
                                SecurityStateStoreError::WitnessAdvanceUnresolved,
                            ) && after.health is Indeterminate,
                        }
                    } else {
                        &&& result matches Err(error) && advance_run(
                            0,
                            10,
                            self.steps,
                            next,
                            Some(error),
                        )
                        &&& after.witness == self.observer
                        &&& (after.health is Indeterminate <==> self.steps.len() > 7)
                    }
                },
            }
        }
    }
}

/// How an advance of a store ends.
pub open spec fn store_advances<F: SecurityStateFiles, W: SecurityFreshnessWitness>(
    before: SecurityStateStore<F, W>,
    expected: Option<SecurityStateSnapshot>,
    next: SecurityStateSnapshot,
    after: SecurityStateStore<F, W>,
    result: Result<(), SecurityStateStoreError>,
) -> bool {
    exists|transcript: AdvanceTranscript<F, W>| #[trigger]
        transcript.advance_ends(before, expected, next, after, result)
}

/// How reading the current state of a store ends.
pub open spec fn store_reads<F: SecurityStateFiles, W: SecurityFreshnessWitness>(
    before: SecurityStateStore<F, W>,
    after: SecurityStateStore<F, W>,
    result: Result<Option<SecurityStateSnapshot>, SecurityStateStoreError>,
) -> bool {
    exists|transcript: AdvanceTranscript<F, W>| #[trigger]
        transcript.current_ends(before, after, result)
}

/// The error of a result.
pub open spec fn security_error_of<T>(result: Result<T, SecurityStateStoreError>) -> Option<
    SecurityStateStoreError,
> {
    match result {
        Ok(_) => None,
        Err(error) => Some(error),
    }
}

impl<F: SecurityStateFiles, W> SecurityStateStore<F, W> {
    /// Makes both directories exist and be durable before anything is staged.
    pub fn ensure_directories(&mut self) -> (result: Result<(), SecurityStateStoreError>)
        ensures
            final(self).witness == old(self).witness,
            final(self).health == old(self).health,
            exists|steps: Seq<SecurityFileStep<F::Staged>>| #[trigger]
                security_storage_runs(old(self).files, steps, final(self).files) && directories_run(
                    steps,
                    security_error_of(result),
                ),
    {
        let ghost start = self.files;
        let ghost mut steps: Seq<SecurityFileStep<F::Staged>> = Seq::empty();
        let ghost middle = self.files;
        let reply = self.files.ensure_real_directory(SecurityStateDirectory::Recovery);
        proof {
            let step = SecurityFileStep::Ensured { directory: SecurityStateDirectory::Recovery, reply };
            lemma_storage_goes_on(start, steps, middle, step, self.files);
            steps = steps.push(step);
        }
        match reply {
            Ok(()) => {},
            Err(error) => {
                return Err(map_security_directory_error(error));
            },
        }
        let ghost middle = self.files;
        let reply = self.files.ensure_real_directory(SecurityStateDirectory::Staging);
        proof {
            let step = SecurityFileStep::Ensured { directory: SecurityStateDirectory::Staging, reply };
            lemma_storage_goes_on(start, steps, middle, step, self.files);
            steps = steps.push(step);
        }
        match reply {
            Ok(()) => {},
            Err(error) => {
                return Err(map_security_directory_error(error));
            },
        }
        let ghost middle = self.files;
        let done = self.files.sync_directory(SecurityStateDirectory::Parent);
        proof {
            let step = SecurityFileStep::SyncedDirectory {
                directory: SecurityStateDirectory::Parent,
                done,
            };
            lemma_storage_goes_on(start, steps, middle, step, self.files);
            steps = steps.push(step);
        }
        if !done {
            return Err(SecurityStateStoreError::LocalStateStageUnavailable);
        }
        let ghost middle = self.files;
        let done = self.files.sync_directory(SecurityStateDirectory::Recovery);
        proof {
            let step = SecurityFileStep::SyncedDirectory {
                directory: SecurityStateDirectory::Recovery,
                done,
            };
            lemma_storage_goes_on(start, steps, middle, step, self.files);
            steps = steps.push(step);
        }
        if !done {
            return Err(SecurityStateStoreError::LocalStateStageUnavailable);
        }
        let ghost middle = self.files;
        let done = self.files.sync_directory(SecurityStateDirectory::Staging);
        proof {
            let step = SecurityFileStep::SyncedDirectory {
                directory: SecurityStateDirectory::Staging,
                done,
            };
            lemma_storage_goes_on(start, steps, middle, step, self.files);
            steps = steps.push(step);
        }
        if !done {
            return Err(SecurityStateStoreError::LocalStateStageUnavailable);
        }
        Ok(())
    }

    /// Atomically replaces and synchronizes local authority before witness I/O.
    ///
    /// A failure at any point leaves it open which state is authoritative, and
    /// latches the store.
    pub fn make_local_advance_durable(&mut self, staged: StagedSecurityState<F::Staged>) -> (result:
        Result<DurableSecurityStateAdvance, SecurityStateStoreError>)
        ensures
            final(self).witness == old(self).witness,
            exists|steps: Seq<SecurityFileStep<F::Staged>>| #[trigger]
                security_storage_runs(old(self).files, steps, final(self).files) && renaming_run(
                    steps,
                    staged.file,
                    security_error_of(result),
                ),
            match result {
                Ok(durable) => final(self).health == old(self).health
                    && durable.expected_freshness == staged.expected_freshness
                    && durable.next_freshness == staged.next_freshness,
                Err(error) => final(self).health is Indeterminate && error
                    == SecurityStateStoreError::LocalStateIndeterminate,
            },
    {
        let ghost start = self.files;
        let ghost mut steps: Seq<SecurityFileStep<F::Staged>> = Seq::empty();
        let StagedSecurityState { file, expected_freshness, next_freshness } = staged;
        let ghost renamed = file;
        let done = self.files.replace_current(file);
        proof {
            let step = SecurityFileStep::ReplacedCurrent { staged: renamed, done };
            lemma_storage_goes_on(start, steps, start, step, self.files);
            steps = steps.push(step);
        }
        if !done {
            return Err(self.latch(SecurityStateStoreError::LocalStateIndeterminate));
        }
        let ghost middle = self.files;
        let done = self.files.sync_directory(SecurityStateDirectory::Recovery);
        proof {
            let step = SecurityFileStep::SyncedDirectory {
                directory: SecurityStateDirectory::Recovery,
                done,
            };
            lemma_storage_goes_on(start, steps, middle, step, self.files);
            steps = steps.push(step);
        }
        if !done {
            return Err(self.latch(SecurityStateStoreError::LocalStateIndeterminate));
        }
        let ghost middle = self.files;
        let done = self.files.sync_directory(SecurityStateDirectory::Staging);
        proof {
            let step = SecurityFileStep::SyncedDirectory {
                directory: SecurityStateDirectory::Staging,
                done,
            };
            lemma_storage_goes_on(start, steps, middle, step, self.files);
            steps = steps.push(step);
        }
        if !done {
            return Err(self.latch(SecurityStateStoreError::LocalStateIndeterminate));
        }
        Ok(DurableSecurityStateAdvance { expected_freshness, next_freshness })
    }
}

/// Making the directories exist and be durable.
pub open spec fn directories_run<S>(
    steps: Seq<SecurityFileStep<S>>,
    error: Option<SecurityStateStoreError>,
) -> bool {
    forall|next: SecurityStateSnapshot| #[trigger] advance_run(1, 6, steps, next, error)
}

/// Renaming a staged file over the authoritative one, and making that durable.
pub open spec fn renaming_run<S>(
    steps: Seq<SecurityFileStep<S>>,
    file: S,
    error: Option<SecurityStateStoreError>,
) -> bool {
    &&& forall|next: SecurityStateSnapshot| #[trigger] advance_run(7, 10, steps, next, error)
    &&& steps.len() > 0 ==> (steps[0] matches SecurityFileStep::ReplacedCurrent { staged, .. }
        && staged == file)
}

impl<F: SecurityStateFiles, W: SecurityFreshnessWitness> SecurityStateStore<F, W> {
    /// Returns only local state that exactly matches the external witness.
    pub fn current(&mut self) -> (result: Result<
        Option<SecurityStateSnapshot>,
        SecurityStateStoreError,
    >)
        ensures
            store_reads(*old(self), *final(self), result),
            result matches Ok(Some(state)) ==> state.wf(),
    {
        let ghost before = *self;
        let ghost mut transcript: AdvanceTranscript<F, W> = arbitrary();
        match self.health {
            SecurityStateStoreHealth::Indeterminate => {
                assert(transcript.current_ends(
                    before,
                    *self,
                    Err(SecurityStateStoreError::LatchedIndeterminate),
                ));
                return Err(SecurityStateStoreError::LatchedIndeterminate);
            },
            SecurityStateStoreHealth::Ready => {},
        }
        let observed = self.witness.current();
        proof {
            transcript = AdvanceTranscript {
                observed,
                observer: self.witness,
                steps: Seq::empty(),
                ..transcript
            };
        }
        let freshness = match observed {
            Ok(freshness) => freshness,
            Err(_) => {
                assert(transcript.current_ends(
                    before,
                    *self,
                    Err(SecurityStateStoreError::WitnessUnavailable),
                ));
                return Err(SecurityStateStoreError::WitnessUnavailable);
            },
        };
        let read = self.files.read_current();
        let ghost answer = read;
        let local = load_local_state(read);
        let result = reconcile_local_state(freshness, local);
        proof {
            let step = SecurityFileStep::ReadCurrent { read: answer };
            lemma_storage_goes_on(before.files, transcript.steps, before.files, step, self.files);
            transcript = AdvanceTranscript {
                local,
                steps: transcript.steps.push(step),
                ..transcript
            };
            assert(transcript.current_ends(before, *self, result));
        }
        result
    }

    /// Validates and stages the next local state without replacing authority.
    ///
    /// What is handed to storage is the encoding of `next`. Nothing is handed
    /// to it before the advance has been validated.
    pub fn stage_advance(
        &mut self,
        expected: Option<SecurityStateSnapshot>,
        next: SecurityStateSnapshot,
    ) -> (result: Result<StagedSecurityState<F::Staged>, SecurityStateStoreError>)
        ensures
            exists|transcript: AdvanceTranscript<F, W>| #[trigger]
                transcript.staging_ends(*old(self), expected, next, *final(self), result),
    {
        let ghost before = *self;
        let current = self.current();
        let ghost mut transcript = choose|transcript: AdvanceTranscript<F, W>| #[trigger]
            transcript.current_ends(before, *self, current);
        let current = match current {
            Ok(current) => current,
            Err(error) => {
                assert(transcript.staging_ends(before, expected, next, *self, Err(error)));
                return Err(error);
            },
        };
        match validate_advance(&current, &expected, &next) {
            Ok(()) => {},
            Err(error) => {
                assert(transcript.staging_ends(before, expected, next, *self, Err(error)));
                return Err(error);
            },
        }
        let ghost middle = self.files;
        let ghost read = transcript;
        let readied = self.ensure_directories();
        proof {
            let more = choose|more: Seq<SecurityFileStep<F::Staged>>| #[trigger]
                security_storage_runs(middle, more, self.files) && directories_run(
                    more,
                    security_error_of(readied),
                );
            assert(advance_run(1, 6, more, next, security_error_of(readied)));
            lemma_storage_joins(before.files, read.steps, middle, more, self.files);
            transcript = AdvanceTranscript { steps: read.steps + more, ..transcript };
        }
        match readied {
            Ok(()) => {},
            Err(error) => {
                assert(transcript.staging_ends(before, expected, next, *self, Err(error)));
                return Err(error);
            },
        }
        let persistent = PersistentSecurityState::from_business(&next);
        let ghost middle = self.files;
        let staging = self.files.stage(persistent.as_bytes());
        proof {
            let step = SecurityFileStep::Staged { record: persistent.0@, staged: staging };
            lemma_storage_goes_on(before.files, transcript.steps, middle, step, self.files);
            transcript = AdvanceTranscript { steps: transcript.steps.push(step), ..transcript };
        }
        let file = match staging {
            Some(file) => file,
            None => {
                assert(transcript.staging_ends(
                    before,
                    expected,
                    next,
                    *self,
                    Err(SecurityStateStoreError::LocalStateStageUnavailable),
                ));
                return Err(SecurityStateStoreError::LocalStateStageUnavailable);
            },
        };
        let expected_freshness = match &expected {
            Some(state) => Some(state.freshness()),
            None => None,
        };
        let staged = StagedSecurityState {
            file,
            expected_freshness,
            next_freshness: next.freshness(),
        };
        assert(transcript.staging_ends(before, expected, next, *self, Ok(staged)));
        Ok(staged)
    }

    /// Makes a durable local transition externally authoritative.
    ///
    /// The witness is asked for exactly the transition that was made durable;
    /// any error of it latches the store.
    pub fn advance_witness(&mut self, durable: DurableSecurityStateAdvance) -> (result: Result<
        (),
        SecurityStateStoreError,
    >)
        ensures
            final(self).files == old(self).files,
            exists|reply: Result<(), W::Error>|
                #![trigger W::may_advance(old(self).witness, durable.expected_freshness, durable.next_freshness, final(self).witness, reply)]
                W::may_advance(
                    old(self).witness,
                    durable.expected_freshness,
                    durable.next_freshness,
                    final(self).witness,
                    reply,
                ) && match reply {
                    Ok(_) => result == Ok::<(), SecurityStateStoreError>(())
                        && final(self).health == old(self).health,
                    Err(_) => result == Err::<(), _>(
                        SecurityStateStoreError::WitnessAdvanceUnresolved,
                    ) && final(self).health is Indeterminate,
                },
    {
        let reply = self.witness.compare_and_advance(
            durable.expected_freshness,
            durable.next_freshness,
        );
        let ghost given = reply;
        assert(W::may_advance(
            old(self).witness,
            durable.expected_freshness,
            durable.next_freshness,
            self.witness,
            given,
        ));
        match reply {
            Ok(_) => Ok(()),
            Err(_) => Err(self.latch(SecurityStateStoreError::WitnessAdvanceUnresolved)),
        }
    }

    /// Advances the exact state after committing it locally and before return.
    pub fn compare_and_advance(
        &mut self,
        expected: Option<SecurityStateSnapshot>,
        next: SecurityStateSnapshot,
    ) -> (result: Result<(), SecurityStateStoreError>)
        ensures
            store_advances(*old(self), expected, next, *final(self), result),
    {
        let ghost before = *self;
        let staging = self.stage_advance(expected, next);
        let ghost mut transcript = choose|transcript: AdvanceTranscript<F, W>| #[trigger]
            transcript.staging_ends(before, expected, next, *self, staging);
        let staged = match staging {
            Ok(staged) => staged,
            Err(error) => {
                proof {
                    lemma_longer_schedule(transcript.steps, next, Some(error));
                    assert(transcript.advance_ends(before, expected, next, *self, Err(error)));
                }
                return Err(error);
            },
        };
        let ghost middle = self.files;
        let ghost first = transcript.steps;
        let ghost file = staged.file;
        let making = self.make_local_advance_durable(staged);
        proof {
            let more = choose|more: Seq<SecurityFileStep<F::Staged>>| #[trigger]
                security_storage_runs(middle, more, self.files) && renaming_run(
                    more,
                    file,
                    security_error_of(making),
                );
            assert(advance_run(7, 10, more, next, security_error_of(making)));
            lemma_storage_joins(before.files, first, middle, more, self.files);
            lemma_schedule_joins(first, more, next, security_error_of(making));
            transcript = AdvanceTranscript { steps: first + more, ..transcript };
        }
        let durable = match making {
            Ok(durable) => durable,
            Err(error) => {
                assert(transcript.advance_ends(before, expected, next, *self, Err(error)));
                return Err(error);
            },
        };
        let ghost observer = self.witness;
        let ghost asked = durable;
        let result = self.advance_witness(durable);
        proof {
            let reply = choose|reply: Result<(), W::Error>|
                #![trigger W::may_advance(observer, asked.expected_freshness, asked.next_freshness, self.witness, reply)]
                W::may_advance(
                    observer,
                    asked.expected_freshness,
                    asked.next_freshness,
                    self.witness,
                    reply,
                ) && match reply {
                    Ok(_) => result == Ok::<(), SecurityStateStoreError>(()) && self.health is Ready,
                    Err(_) => result == Err::<(), _>(
                        SecurityStateStoreError::WitnessAdvanceUnresolved,
                    ) && self.health is Indeterminate,
                };
            transcript = AdvanceTranscript {
                expected_freshness: asked.expected_freshness,
                next_freshness: asked.next_freshness,
                reply,
                ..transcript
            };
            assert(transcript.advance_ends(before, expected, next, *self, result));
        }
        result
    }
}

/// Calls that failed while staging are calls that failed in the whole advance.
proof fn lemma_longer_schedule<S>(
    steps: Seq<SecurityFileStep<S>>,
    next: SecurityStateSnapshot,
    error: Option<SecurityStateStoreError>,
)
    ensures
        error is Some && advance_run(0, 7, steps, next, error) ==> advance_run(
            0,
            10,
            steps,
            next,
            error,
        ),
{
}

/// The calls of staging and of renaming are the calls of an advance.
proof fn lemma_schedule_joins<S>(
    first: Seq<SecurityFileStep<S>>,
    second: Seq<SecurityFileStep<S>>,
    next: SecurityStateSnapshot,
    error: Option<SecurityStateStoreError>,
)
    requires
        advance_run(0, 7, first, next, None),
        advance_run(7, 10, second, next, error),
        second.len() > 0,
    ensures
        advance_run(0, 10, first + second, next, error),
{
    let steps = first + second;
    assert forall|i: int| 0 <= i < steps.len() implies advance_step(i, #[trigger] steps[i], next) by {
        if i >= 7 {
            assert(steps[i] == second[i - 7]);
            assert(advance_step(7 + (i - 7), second[i - 7], next));
        } else {
            assert(advance_step(0 + i, first[i], next));
        }
    }
    assert forall|i: int| 0 <= i < steps.len() - 1 implies security_step_succeeded(
        #[trigger] steps[i],
    ) by {
        if i >= 7 {
            assert(steps[i] == second[i - 7]);
        } else if i == 6 {
            assert(first.last() == steps[6]);
        } else {
            assert(steps[i] == first[i]);
        }
    }
    assert(steps.last() == second.last());
}

/// Reconciliation never returns state that the witness does not name.
pub proof fn reconciled_state_matches_witness(
    freshness: Option<SecurityFreshness>,
    local: Result<SecurityStateSnapshot, LocalStateLoadError>,
)
    ensures
        reconciled(freshness, local) matches Ok(Some(state)) ==> freshness matches Some(named)
            && state.has_freshness(named) && local == Ok::<_, LocalStateLoadError>(state),
        reconciled(freshness, local) == Ok::<Option<SecurityStateSnapshot>, SecurityStateStoreError>(
            None,
        ) <==> freshness is None && local == Err::<SecurityStateSnapshot, _>(
            LocalStateLoadError::Missing,
        ),
{
}

/// An accepted advance is the first snapshot, or the exact next sequence of the
/// expected one by an identity that may follow it.
pub proof fn accepted_advance_is_the_exact_successor(
    expected: Option<SecurityStateSnapshot>,
    next: SecurityStateSnapshot,
)
    requires
        advance_error(expected, expected, next) is None,
    ensures
        expected is None ==> next.sequence == 1,
        expected matches Some(state) ==> next.sequence == state.sequence + 1
            && crate::security_state::successor_error(
            state.commitment.identity,
            next.commitment.identity,
        ) is None,
{
}

/// The witness is asked to advance only over a local file that is durable: the
/// encoding of the next snapshot was staged, renamed over the authoritative file and
/// both directories were synchronized.
pub proof fn witness_advances_over_a_durable_file<
    F: SecurityStateFiles,
    W: SecurityFreshnessWitness,
>(
    transcript: AdvanceTranscript<F, W>,
    before: SecurityStateStore<F, W>,
    expected: Option<SecurityStateSnapshot>,
    next: SecurityStateSnapshot,
    after: SecurityStateStore<F, W>,
    result: Result<(), SecurityStateStoreError>,
)
    requires
        before.health is Ready,
        transcript.advance_ends(before, expected, next, after, result),
        after.witness != transcript.observer,
    ensures
        transcript.current() == Ok::<_, SecurityStateStoreError>(expected),
        transcript.steps.len() == 10,
        forall|i: int|
            0 <= i < 10 ==> security_step_succeeded(#[trigger] transcript.steps[i]),
        transcript.steps[6] matches SecurityFileStep::Staged { record, staged } && record
            == next.encoded() && (transcript.steps[7] matches SecurityFileStep::ReplacedCurrent {
            staged: renamed,
            ..
        } && staged == Some(renamed)),
        transcript.steps[8] matches SecurityFileStep::SyncedDirectory {
            directory: SecurityStateDirectory::Recovery,
            ..
        },
        transcript.steps[9] matches SecurityFileStep::SyncedDirectory {
            directory: SecurityStateDirectory::Staging,
            ..
        },
        witness_transition(
            expected,
            next,
            transcript.expected_freshness,
            transcript.next_freshness,
        ),
{
    let steps = transcript.steps;
    assert(advance_run(0, 10, steps, next, None));
    assert forall|i: int| 0 <= i < 10 implies security_step_succeeded(#[trigger] steps[i]) by {
        if i == 9 {
            assert(steps[i] == steps.last());
        }
    }
    assert(advance_step(6, steps[6], next));
    assert(advance_step(7, steps[7], next));
    assert(advance_step(8, steps[8], next));
    assert(advance_step(9, steps[9], next));
}

/// A snapshot that was advanced to is what a later read returns, once the file holds
/// what was staged and the witness names what it was asked for.
pub proof fn advanced_state_reads_back<F: SecurityStateFiles, W: SecurityFreshnessWitness>(
    transcript: AdvanceTranscript<F, W>,
    before: SecurityStateStore<F, W>,
    expected: Option<SecurityStateSnapshot>,
    next: SecurityStateSnapshot,
    after: SecurityStateStore<F, W>,
    read: ExactFileRead,
    local: Result<SecurityStateSnapshot, LocalStateLoadError>,
)
    requires
        next.wf(),
        before.health is Ready,
        transcript.advance_ends(before, expected, next, after, Ok(())),
        transcript.steps[6] matches SecurityFileStep::Staged { record, .. } && read
            is Exact && read.contents() == record,
        loads(read, local),
    ensures
        reconciled(Some(transcript.next_freshness), local) == Ok::<_, SecurityStateStoreError>(
            Some(next),
        ),
{
    let steps = transcript.steps;
    assert(advance_step(6, steps[6], next));
    crate::security_state::lemma_encoding_is_accepted(next);
    crate::security_state::encoding_is_injective(local->Ok_0, next);
}

/// A read after an accepted advance returns the snapshot that was advanced to, if the file
/// gives back what was staged and the witness names what it was asked for.
pub proof fn advanced_state_is_current<F: SecurityStateFiles, W: SecurityFreshnessWitness>(
    transcript: AdvanceTranscript<F, W>,
    before: SecurityStateStore<F, W>,
    expected: Option<SecurityStateSnapshot>,
    next: SecurityStateSnapshot,
    reading: AdvanceTranscript<F, W>,
    store: SecurityStateStore<F, W>,
    after: SecurityStateStore<F, W>,
    advanced: SecurityStateStore<F, W>,
    result: Result<Option<SecurityStateSnapshot>, SecurityStateStoreError>,
)
    requires
        next.wf(),
        before.health is Ready,
        transcript.advance_ends(before, expected, next, advanced, Ok(())),
        store.health is Ready,
        reading.current_ends(store, after, result),
        reading.observed == Ok::<_, W::Error>(Some(transcript.next_freshness)),
        reading.steps[0] matches SecurityFileStep::ReadCurrent { read } && read is Exact
            && (transcript.steps[6] matches SecurityFileStep::Staged { record, .. }
            && read.contents() == record),
    ensures
        result == Ok::<_, SecurityStateStoreError>(Some(next)),
        after.health is Ready,
{
    let read = reading.steps[0]->ReadCurrent_read;
    advanced_state_reads_back(transcript, before, expected, next, advanced, read, reading.local);
}

/// After an advance that the witness left unresolved, every later read and every later
/// advance of the store is refused, whatever the witness then holds.
pub proof fn unresolved_advance_refuses_for_good<
    F: SecurityStateFiles,
    W: SecurityFreshnessWitness,
>(
    before: SecurityStateStore<F, W>,
    expected: Option<SecurityStateSnapshot>,
    next: SecurityStateSnapshot,
    after: SecurityStateStore<F, W>,
    later_expected: Option<SecurityStateSnapshot>,
    later_next: SecurityStateSnapshot,
    after_advance: SecurityStateStore<F, W>,
    advanced: Result<(), SecurityStateStoreError>,
    after_read: SecurityStateStore<F, W>,
    read: Result<Option<SecurityStateSnapshot>, SecurityStateStoreError>,
)
    requires
        before.health is Ready,
        store_advances(
            before,
            expected,
            next,
            after,
            Err(SecurityStateStoreError::WitnessAdvanceUnresolved),
        ),
        store_advances(after, later_expected, later_next, after_advance, advanced),
        store_reads(after, after_read, read),
    ensures
        after_advance == after,
        advanced == Err::<(), _>(SecurityStateStoreError::LatchedIndeterminate),
        after_read == after,
        read == Err::<Option<SecurityStateSnapshot>, _>(
            SecurityStateStoreError::LatchedIndeterminate,
        ),
{
    let transcript = choose|transcript: AdvanceTranscript<F, W>| #[trigger]
        transcript.advance_ends(
            before,
            expected,
            next,
            after,
            Err(SecurityStateStoreError::WitnessAdvanceUnresolved),
        );
    ambiguous_advance_latches(
        transcript,
        before,
        expected,
        next,
        after,
        Err(SecurityStateStoreError::WitnessAdvanceUnresolved),
    );
    latched_store_stays_latched(
        after,
        later_expected,
        later_next,
        after_advance,
        advanced,
        after_read,
        read,
    );
}

/// A latched store answers every request with the same refusal, and never changes again.
pub proof fn latched_store_stays_latched<F: SecurityStateFiles, W: SecurityFreshnessWitness>(
    before: SecurityStateStore<F, W>,
    expected: Option<SecurityStateSnapshot>,
    next: SecurityStateSnapshot,
    after_advance: SecurityStateStore<F, W>,
    advanced: Result<(), SecurityStateStoreError>,
    after_read: SecurityStateStore<F, W>,
    read: Result<Option<SecurityStateSnapshot>, SecurityStateStoreError>,
)
    requires
        before.health is Indeterminate,
        store_advances(before, expected, next, after_advance, advanced),
        store_reads(before, after_read, read),
    ensures
        after_advance == before,
        advanced == Err::<(), _>(SecurityStateStoreError::LatchedIndeterminate),
        after_read == before,
        read == Err::<Option<SecurityStateSnapshot>, _>(
            SecurityStateStoreError::LatchedIndeterminate,
        ),
{
}

/// An advance that may or may not have taken effect latches the store, and one that
/// took no effect does not: the store is latched exactly if the authoritative file was
/// to be renamed and the advance failed.
pub proof fn ambiguous_advance_latches<F: SecurityStateFiles, W: SecurityFreshnessWitness>(
    transcript: AdvanceTranscript<F, W>,
    before: SecurityStateStore<F, W>,
    expected: Option<SecurityStateSnapshot>,
    next: SecurityStateSnapshot,
    after: SecurityStateStore<F, W>,
    result: Result<(), SecurityStateStoreError>,
)
    requires
        before.health is Ready,
        transcript.advance_ends(before, expected, next, after, result),
    ensures
        after.health is Indeterminate <==> result is Err && transcript.steps.len() > 7,
        after.health is Indeterminate <==> result == Err::<(), _>(
            SecurityStateStoreError::LocalStateIndeterminate,
        ) || result == Err::<(), _>(SecurityStateStoreError::WitnessAdvanceUnresolved),
{
    let steps = transcript.steps;
    if transcript.refusal(expected, next) is None {
        assert(advance_step(steps.len() - 1, steps.last(), next));
    }
}

/// A local file is read as a state exactly where it is there in full and its bytes are in
/// the one form of a state; what is missing or unreadable is said to be so, and everything
/// else is corrupt.
pub proof fn local_state_is_read_from_a_whole_file(
    read: ExactFileRead,
    local: Result<SecurityStateSnapshot, LocalStateLoadError>,
)
    requires
        loads(read, local),
    ensures
        local == Err::<SecurityStateSnapshot, _>(LocalStateLoadError::Missing) <==> read is Missing,
        local == Err::<SecurityStateSnapshot, _>(LocalStateLoadError::Unreadable)
            <==> read is Unreadable,
        local is Ok <==> read is Exact && read->Exact_0@.len() == 204
            && crate::security_state::decode_error(read->Exact_0@) is None,
        local matches Ok(state) ==> state.encoded() == read->Exact_0@,
{
}

/// The witness and the local state agree exactly where there is neither, or both and the
/// state has the witness's sequence and digest. A state without a witness is unexpected, and
/// a witness without its state is refused by what became of the state.
pub proof fn state_is_current_where_the_witness_says_so(
    freshness: Option<SecurityFreshness>,
    local: Result<SecurityStateSnapshot, LocalStateLoadError>,
)
    ensures
        ({
            let current = reconciled(freshness, local);
            let missing = local is Err && local->Err_0 is Missing;
            &&& current == Ok::<Option<SecurityStateSnapshot>, SecurityStateStoreError>(None)
                <==> freshness is None && missing
            &&& current == Err::<Option<SecurityStateSnapshot>, _>(
                SecurityStateStoreError::UnexpectedLocalStateWithoutWitness,
            ) <==> freshness is None && !missing
            &&& current == Err::<Option<SecurityStateSnapshot>, _>(
                SecurityStateStoreError::WitnessBoundStateMissing,
            ) <==> freshness is Some && missing
            &&& current == Err::<Option<SecurityStateSnapshot>, _>(
                SecurityStateStoreError::WitnessBoundStateUnreadable,
            ) <==> freshness is Some && local is Err && local->Err_0 is Unreadable
            &&& current == Err::<Option<SecurityStateSnapshot>, _>(
                SecurityStateStoreError::WitnessBoundStateCorrupt,
            ) <==> freshness is Some && local is Err && local->Err_0 is Corrupt
            &&& freshness is Some && local is Ok ==> {
                let told = freshness->Some_0.sequence == local->Ok_0.sequence
                    && freshness->Some_0.state_digest.0@ == crate::digest::blake2s256(
                    local->Ok_0.commitment.digest_preimage(),
                );
                &&& told ==> current == Ok::<Option<SecurityStateSnapshot>, SecurityStateStoreError>(
                    Some(local->Ok_0),
                )
                &&& !told ==> current == Err::<Option<SecurityStateSnapshot>, _>(
                    SecurityStateStoreError::WitnessLocalMismatch,
                )
            }
        }),
{
}

/// A state may follow exactly where the current one is the expected one, the sequence rises
/// by one from it, or is one where there is none, and the identity stays or is rotated
/// completely; a wrong expectation is refused before a wrong sequence, and that before a
/// wrong identity.
pub proof fn next_state_follows_the_current_one(
    current: Option<SecurityStateSnapshot>,
    expected: Option<SecurityStateSnapshot>,
    next: SecurityStateSnapshot,
)
    ensures
        ({
            let error = advance_error(current, expected, next);
            let in_order = match current {
                None => next.sequence == 1,
                Some(state) => next.sequence - 1 == state.sequence,
            };
            &&& error == Some(SecurityStateStoreError::ExpectedStateMismatch) <==> current
                != expected
            &&& error == Some(SecurityStateStoreError::InvalidSequenceTransition) <==> current
                == expected && !in_order
            &&& (error is Some && error->Some_0 is InvalidIdentityTransition) ==> current
                == expected && in_order && current is Some
            &&& current == expected && in_order && current is None ==> error is None
            &&& current == expected && in_order && current is Some ==> {
                let now = current->Some_0.commitment.identity;
                let following = next.commitment.identity;
                error is None <==> following == now || (following.service_id == now.service_id
                    && following.profile_id == now.profile_id && following.epochs.protocol_version
                    == now.epochs.protocol_version && following.epochs.owner_generation
                    > now.epochs.owner_generation && following.epochs.key_epoch
                    >= now.epochs.key_epoch && following.epochs.projection_epoch
                    >= now.epochs.projection_epoch && following.session_binding
                    != now.session_binding && following.security_epoch_binding
                    != now.security_epoch_binding)
            }
            &&& error matches Some(SecurityStateStoreError::InvalidIdentityTransition(reason))
                ==> crate::security_state::successor_error(
                current->Some_0.commitment.identity,
                next.commitment.identity,
            ) == Some(reason)
        }),
{
}

/// The witness is asked to move from what the expected state was told as to what the next
/// one is told as, each by its own sequence and digest, and from nothing where no state is
/// expected.
pub proof fn witness_moves_between_the_two_states(
    expected: Option<SecurityStateSnapshot>,
    next: SecurityStateSnapshot,
    expected_freshness: Option<SecurityFreshness>,
    next_freshness: SecurityFreshness,
)
    requires
        witness_transition(expected, next, expected_freshness, next_freshness),
    ensures
        next_freshness.sequence == next.sequence,
        next_freshness.state_digest.0@ == crate::digest::blake2s256(
            next.commitment.digest_preimage(),
        ),
        expected is None <==> expected_freshness is None,
        expected matches Some(state) ==> expected_freshness->Some_0.sequence == state.sequence
            && expected_freshness->Some_0.state_digest.0@ == crate::digest::blake2s256(
            state.commitment.digest_preimage(),
        ),
{
}

/// A step of a store's storage failed exactly where its reply says so.
pub proof fn failed_state_step_says_so<S>(step: SecurityFileStep<S>)
    ensures
        security_step_succeeded(step) <==> {
            &&& step is Ensured ==> step->Ensured_reply is Ok
            &&& step is SyncedDirectory ==> step->SyncedDirectory_done
            &&& step is Staged ==> step->Staged_staged is Some
            &&& step is ReplacedCurrent ==> step->ReplacedCurrent_done
        },
{
}

/// An advance that ends well took its steps in one order: the current file was read, the two
/// directories made and synchronized with the one above them, the next state's own bytes
/// staged, put in place, and both directories synchronized again.
pub proof fn advance_takes_its_steps_in_order<S>(
    steps: Seq<SecurityFileStep<S>>,
    next: SecurityStateSnapshot,
)
    requires
        advance_run(0, 10, steps, next, None),
    ensures
        steps.len() == 10,
        steps[0] is ReadCurrent,
        steps[1] is Ensured && steps[1]->Ensured_directory is Recovery,
        steps[2] is Ensured && steps[2]->Ensured_directory is Staging,
        steps[3] is SyncedDirectory && steps[3]->SyncedDirectory_directory is Parent,
        steps[4] is SyncedDirectory && steps[4]->SyncedDirectory_directory is Recovery,
        steps[5] is SyncedDirectory && steps[5]->SyncedDirectory_directory is Staging,
        steps[6] is Staged && steps[6]->Staged_record == next.encoded(),
        steps[7] is ReplacedCurrent,
        steps[8] is SyncedDirectory && steps[8]->SyncedDirectory_directory is Recovery,
        steps[9] is SyncedDirectory && steps[9]->SyncedDirectory_directory is Staging,
        forall|i: int| 0 <= i < 10 ==> security_step_succeeded(#[trigger] steps[i]),
{
    assert(advance_step(0, steps[0], next));
    assert(advance_step(1, steps[1], next));
    assert(advance_step(2, steps[2], next));
    assert(advance_step(3, steps[3], next));
    assert(advance_step(4, steps[4], next));
    assert(advance_step(5, steps[5], next));
    assert(advance_step(6, steps[6], next));
    assert(advance_step(7, steps[7], next));
    assert(advance_step(8, steps[8], next));
    assert(advance_step(9, steps[9], next));
    assert(steps.last() == steps[9]);
}

/// How an advance ends. A latched store refuses and stays as it is. Otherwise a transition
/// that may not follow is refused with its reason and leaves the witness as it was observed.
/// Otherwise the witness is asked only after every step succeeded: its consent makes the
/// advance, and its refusal latches the store, as does a failure once the file was being put
/// in place.
pub proof fn advance_is_made_by_the_witness<F: SecurityStateFiles, W: SecurityFreshnessWitness>(
    transcript: AdvanceTranscript<F, W>,
    before: SecurityStateStore<F, W>,
    expected: Option<SecurityStateSnapshot>,
    next: SecurityStateSnapshot,
    after: SecurityStateStore<F, W>,
    result: Result<(), SecurityStateStoreError>,
)
    requires
        transcript.advance_ends(before, expected, next, after, result),
    ensures
        before.health is Indeterminate ==> after == before && result is Err && result->Err_0
            is LatchedIndeterminate,
        before.health is Ready ==> W::may_observe(
            before.witness,
            transcript.observer,
            transcript.observed,
        ),
        before.health is Ready && transcript.observed is Err ==> result is Err && result->Err_0
            is WitnessUnavailable && after.witness == transcript.observer && after.health is Ready,
        result is Ok ==> {
            &&& before.health is Ready
            &&& after.health is Ready
            &&& transcript.observed is Ok
            &&& reconciled(transcript.observed->Ok_0, transcript.local) == Ok::<
                Option<SecurityStateSnapshot>,
                SecurityStateStoreError,
            >(expected)
            &&& advance_error(expected, expected, next) is None
            &&& transcript.steps.len() == 10
            &&& transcript.steps[0] is ReadCurrent
            &&& loads(transcript.steps[0]->ReadCurrent_read, transcript.local)
            &&& transcript.steps[6]->Staged_record == next.encoded()
            &&& transcript.steps[6]->Staged_staged == Some(
                transcript.steps[7]->ReplacedCurrent_staged,
            )
            &&& transcript.reply is Ok
            &&& transcript.next_freshness.sequence == next.sequence
            &&& W::may_advance(
                transcript.observer,
                transcript.expected_freshness,
                transcript.next_freshness,
                after.witness,
                transcript.reply,
            )
        },
        before.health is Ready && transcript.observed is Ok && reconciled(
            transcript.observed->Ok_0,
            transcript.local,
        ) == Ok::<Option<SecurityStateSnapshot>, SecurityStateStoreError>(expected)
            && advance_error(expected, expected, next) is None ==> {
            &&& transcript.steps.len() == 10 && security_step_succeeded(transcript.steps[9]) ==> (
            result is Ok <==> transcript.reply is Ok)
            &&& transcript.steps.len() == 10 && security_step_succeeded(transcript.steps[9])
                && transcript.reply is Err ==> after.health is Indeterminate && result->Err_0
                is WitnessAdvanceUnresolved
            &&& !security_step_succeeded(transcript.steps.last()) ==> result is Err && after.witness
                == transcript.observer
            &&& !security_step_succeeded(transcript.steps.last()) && transcript.steps.len() <= 7
                ==> !(after.health is Indeterminate) && (result->Err_0
                is LocalStateStageUnavailable || result->Err_0 is UnsafeRecoveryPath)
            &&& !security_step_succeeded(transcript.steps.last()) && transcript.steps.len() > 7
                ==> after.health is Indeterminate && result->Err_0 is LocalStateIndeterminate
        },
{
    if before.health is Ready && transcript.refusal(expected, next) is None {
        let steps = transcript.steps;
        let last = steps.len() - 1;
        if security_step_succeeded(steps.last()) {
            advance_takes_its_steps_in_order(steps, next);
        } else {
            assert(advance_step(0 + last, steps[last], next));
        }
        if steps.len() == 10 {
            assert(steps.last() == steps[9]);
        }
    }
}

/// Calls of a storage follow each other: none leaves it as it was, and the last of a run
/// leads on from where the calls before it led.
pub proof fn state_storage_runs_step_by_step<F: SecurityStateFiles>(
    before: F,
    steps: Seq<SecurityFileStep<F::Staged>>,
    after: F,
)
    requires
        security_storage_runs(before, steps, after),
    ensures
        steps.len() == 0 ==> after == before,
        steps.len() > 0 ==> exists|middle: F|
            security_storage_runs(before, steps.drop_last(), middle) && #[trigger] F::steps_to(
                middle,
                steps.last(),
                after,
            ),
{
}

/// A path that is not a real directory is told apart from one that could not be made.
pub proof fn directory_faults_are_told_apart(error: RealDirectoryError)
    ensures
        directory_error(error) is UnsafeRecoveryPath <==> error is UnsafePath,
        directory_error(error) is LocalStateStageUnavailable <==> error is Io,
{
}

/// How reading the current state ends. A latched store refuses and stays as it is; an
/// unavailable witness is reported without a look at the file; otherwise the file is read
/// once and reconciled with what the witness holds. Nothing is written.
pub proof fn current_state_is_read_under_the_witness<
    F: SecurityStateFiles,
    W: SecurityFreshnessWitness,
>(
    transcript: AdvanceTranscript<F, W>,
    before: SecurityStateStore<F, W>,
    after: SecurityStateStore<F, W>,
    result: Result<Option<SecurityStateSnapshot>, SecurityStateStoreError>,
)
    requires
        transcript.current_ends(before, after, result),
    ensures
        before.health is Indeterminate ==> after == before && result is Err && result->Err_0
            is LatchedIndeterminate,
        before.health is Ready ==> {
            &&& W::may_observe(before.witness, transcript.observer, transcript.observed)
            &&& after.witness == transcript.observer
            &&& after.health is Ready
            &&& transcript.observed is Err ==> result is Err && result->Err_0 is WitnessUnavailable
                && after.files == before.files
            &&& transcript.observed is Ok ==> {
                &&& transcript.steps.len() == 1
                &&& transcript.steps[0] is ReadCurrent
                &&& F::steps_to(before.files, transcript.steps[0], after.files)
                &&& loads(transcript.steps[0]->ReadCurrent_read, transcript.local)
                &&& result == reconciled(transcript.observed->Ok_0, transcript.local)
            }
        },
{
    if before.health is Ready && transcript.observed is Ok {
        let steps = transcript.steps;
        assert(steps.len() == 1);
        state_storage_runs_step_by_step(before.files, steps, after.files);
        let middle = choose|middle: F|
            security_storage_runs(before.files, steps.drop_last(), middle) && #[trigger] F::steps_to(
                middle,
                steps.last(),
                after.files,
            );
        state_storage_runs_step_by_step(before.files, steps.drop_last(), middle);
    }
}

/// A state is staged exactly where it may follow and every step up to the staging succeeded;
/// it is staged as its own bytes, and what the witness will be asked for is of the expected
/// state and of the next one. Staging never latches the store and never asks the witness to
/// move.
pub proof fn staged_state_is_the_next_one<F: SecurityStateFiles, W: SecurityFreshnessWitness>(
    transcript: AdvanceTranscript<F, W>,
    before: SecurityStateStore<F, W>,
    expected: Option<SecurityStateSnapshot>,
    next: SecurityStateSnapshot,
    after: SecurityStateStore<F, W>,
    result: Result<StagedSecurityState<F::Staged>, SecurityStateStoreError>,
)
    requires
        transcript.staging_ends(before, expected, next, after, result),
    ensures
        before.health is Indeterminate ==> after == before && result is Err && result->Err_0
            is LatchedIndeterminate,
        before.health is Ready ==> after.health is Ready && after.witness == transcript.observer,
        result matches Ok(staged) ==> {
            &&& before.health is Ready
            &&& transcript.observed is Ok
            &&& reconciled(transcript.observed->Ok_0, transcript.local) == Ok::<
                Option<SecurityStateSnapshot>,
                SecurityStateStoreError,
            >(expected)
            &&& advance_error(expected, expected, next) is None
            &&& transcript.steps.len() == 7
            &&& transcript.steps[6] is Staged
            &&& transcript.steps[6]->Staged_record == next.encoded()
            &&& transcript.steps[6]->Staged_staged == Some(staged.file)
            &&& staged.next_freshness.sequence == next.sequence
            &&& staged.expected_freshness is Some <==> expected is Some
            &&& expected is Some ==> staged.expected_freshness->Some_0.sequence
                == expected->Some_0.sequence
        },
        before.health is Ready && transcript.steps.len() == 7 && security_step_succeeded(
            transcript.steps[6],
        ) ==> result is Ok,
{
    if result is Ok {
        assert(advance_step(6, transcript.steps[6], next));
    }
}

/// No two faults of this kind are shown by the same text: an operator can tell each from
/// every other.
pub proof fn store_faults_are_told_apart(
    left: SecurityStateStoreError,
    right: SecurityStateStoreError,
)
    requires
        left.text() == right.text(),
    ensures
        left is LatchedIndeterminate <==> right is LatchedIndeterminate,
        left is WitnessUnavailable <==> right is WitnessUnavailable,
        left is UnexpectedLocalStateWithoutWitness <==> right is UnexpectedLocalStateWithoutWitness,
        left is WitnessBoundStateMissing <==> right is WitnessBoundStateMissing,
        left is WitnessBoundStateUnreadable <==> right is WitnessBoundStateUnreadable,
        left is WitnessBoundStateCorrupt <==> right is WitnessBoundStateCorrupt,
        left is WitnessLocalMismatch <==> right is WitnessLocalMismatch,
        left is ExpectedStateMismatch <==> right is ExpectedStateMismatch,
        left is InvalidSequenceTransition <==> right is InvalidSequenceTransition,
        left is InvalidIdentityTransition <==> right is InvalidIdentityTransition,
        left is UnsafeRecoveryPath <==> right is UnsafeRecoveryPath,
        left is LocalStateStageUnavailable <==> right is LocalStateStageUnavailable,
        left is LocalStateIndeterminate <==> right is LocalStateIndeterminate,
        left is WitnessAdvanceUnresolved <==> right is WitnessAdvanceUnresolved,
{
    reveal_strlit("security state store is latched indeterminate");
    assert("security state store is latched indeterminate"@.len() == 45);
    assert("security state store is latched indeterminate"@[16] == 't');
    assert("security state store is latched indeterminate"@[40] == 'i');
    reveal_strlit("security freshness witness is unavailable");
    assert("security freshness witness is unavailable"@.len() == 41);
    assert("security freshness witness is unavailable"@[16] == 's');
    assert("security freshness witness is unavailable"@[40] == 'e');
    reveal_strlit("local security state exists without witness authority");
    assert("local security state exists without witness authority"@.len() == 53);
    assert("local security state exists without witness authority"@[16] == 't');
    assert("local security state exists without witness authority"@[40] == 'e');
    reveal_strlit("freshness-bound local security state is missing");
    assert("freshness-bound local security state is missing"@.len() == 47);
    assert("freshness-bound local security state is missing"@[16] == 'l');
    assert("freshness-bound local security state is missing"@[40] == 'm');
    reveal_strlit("freshness-bound local security state is unreadable");
    assert("freshness-bound local security state is unreadable"@.len() == 50);
    assert("freshness-bound local security state is unreadable"@[16] == 'l');
    assert("freshness-bound local security state is unreadable"@[40] == 'u');
    reveal_strlit("freshness-bound local security state is corrupt");
    assert("freshness-bound local security state is corrupt"@.len() == 47);
    assert("freshness-bound local security state is corrupt"@[16] == 'l');
    assert("freshness-bound local security state is corrupt"@[40] == 'c');
    reveal_strlit("local security state does not match freshness authority");
    assert("local security state does not match freshness authority"@.len() == 55);
    assert("local security state does not match freshness authority"@[16] == 't');
    assert("local security state does not match freshness authority"@[40] == 'h');
    reveal_strlit("expected security state is not current");
    assert("expected security state is not current"@.len() == 38);
    assert("expected security state is not current"@[16] == 'y');
    reveal_strlit("security state sequence transition is invalid");
    assert("security state sequence transition is invalid"@.len() == 45);
    assert("security state sequence transition is invalid"@[16] == 'e');
    assert("security state sequence transition is invalid"@[40] == 'v');
    reveal_strlit("security state identity transition is invalid");
    assert("security state identity transition is invalid"@.len() == 45);
    assert("security state identity transition is invalid"@[16] == 'd');
    assert("security state identity transition is invalid"@[40] == 'v');
    reveal_strlit("security state recovery path is not a real directory");
    assert("security state recovery path is not a real directory"@.len() == 52);
    assert("security state recovery path is not a real directory"@[16] == 'e');
    assert("security state recovery path is not a real directory"@[40] == 'a');
    reveal_strlit("security state could not be staged durably");
    assert("security state could not be staged durably"@.len() == 42);
    assert("security state could not be staged durably"@[16] == 'o');
    assert("security state could not be staged durably"@[40] == 'l');
    reveal_strlit("local security-state commit is indeterminate");
    assert("local security-state commit is indeterminate"@.len() == 44);
    assert("local security-state commit is indeterminate"@[16] == 't');
    assert("local security-state commit is indeterminate"@[40] == 'n');
    reveal_strlit("security freshness witness advance is unresolved");
    assert("security freshness witness advance is unresolved"@.len() == 48);
    assert("security freshness witness advance is unresolved"@[16] == 's');
    assert("security freshness witness advance is unresolved"@[40] == 'r');
}

} // verus!
