//! Crash-durable local replay journal.
//!
//! Exactly one live writer per recovery directory is assumed.

use crate::bytes::append;
use crate::bytes::into_array;
use crate::record_files::ExactFileRead;
use crate::record_files::PathKind;
use crate::record_files::RealDirectoryError;
use crate::replay_journal::Claims;
use crate::replay_journal::ClaimSet;
use crate::replay_journal::ReplayJournalComponentStateDigest;
use crate::replay_journal::ReplayJournalContinuationLane;
use crate::replay_journal::ReplayJournalDelta;
use crate::replay_journal::ReplayJournalEntry;
use crate::replay_journal::ReplayJournalHead;
use crate::replay_journal::ReplayJournalState;
use crate::replay_journal::ReplayJournalTransitionError;
use crate::replay_journal::ReplayMaintenanceWatermark;
use crate::replay_record::PersistentReplayJournalCurrentStateV3;
use crate::replay_record::PersistentReplayJournalEntry;
use crate::replay_record::ReplayJournalProtectionContext;
use crate::replay_record::ReplayJournalRecordError;
use crate::replay_record::ReplayJournalRecordProtector;
use crate::replay_record::CURRENT_RECORD_BYTES;
use crate::replay_record::ENTRY_RECORD_BYTES;
use crate::runtime_security::ContinuationReplayPlan;
use crate::runtime_security::ReplayCommitAuthority;
use crate::runtime_security::ReplayCommitResult;
use crate::runtime_security::ReplayDuplicateDecision;
use crate::runtime_security::RequestReplayKey;
use crate::runtime_security::REPLAY_RECORD_KEY_BYTES;
use crate::runtime_security::SecurityRoundCapture;
use crate::security_state::PROFILE_ID_BYTES;
use vstd::prelude::*;

verus! {

pub const ENTRY_FILENAME_BYTES: usize = 24;

/// Directories of one replay journal.
#[derive(Debug, Clone, Copy, PartialEq, Eq, Structural)]
pub enum ReplayJournalDirectory {
    /// The directory that holds the recovery directory.
    Parent,
    /// The directory that holds the head.
    Recovery,
    /// The directory that holds the entries.
    Entries,
    /// The directory that holds files not yet authoritative.
    Staging,
}

/// Paths of one replay journal that recovery inspects.
#[derive(Debug, Clone, Copy, PartialEq, Eq, Structural)]
pub enum ReplayJournalPath {
    Recovery,
    Entries,
    Staging,
    Current,
}

/// One call of a journal's storage, and what came back.
#[allow(inconsistent_fields)]
pub enum JournalFileStep<S> {
    Inspected { path: ReplayJournalPath, kind: PathKind },
    ReadCurrent { read: ExactFileRead },
    ReadEntry { name: Seq<u8>, read: ExactFileRead },
    Ensured { directory: ReplayJournalDirectory, reply: Result<(), RealDirectoryError> },
    SyncedDirectory { directory: ReplayJournalDirectory, done: bool },
    Staged { record: Seq<u8>, staged: Option<S> },
    ReplacedEntry { staged: S, name: Seq<u8>, done: bool },
    SyncedEntry { name: Seq<u8>, done: bool },
    ReplacedCurrent { staged: S, done: bool },
}

/// Durable local files of one replay journal.
///
/// Nothing is known of what a call does but what an implementation says in
/// `steps_to`; one that says nothing promises nothing.
pub trait ReplayJournalFiles: Sized {
    /// A fully written and synchronized file that is not yet authoritative.
    type Staged;

    /// The states that a call with that reply may lead to.
    open spec fn steps_to(before: Self, step: JournalFileStep<Self::Staged>, after: Self) -> bool {
        true
    }

    fn inspect(&mut self, path: ReplayJournalPath) -> (kind: PathKind)
        ensures
            Self::steps_to(*old(self), JournalFileStep::Inspected { path, kind }, *final(self)),
    ;

    /// Reads the head record.
    fn read_current(&mut self) -> (read: ExactFileRead)
        ensures
            Self::steps_to(*old(self), JournalFileStep::ReadCurrent { read }, *final(self)),
    ;

    /// Reads the entry record of that name.
    fn read_entry(&mut self, name: &[u8; ENTRY_FILENAME_BYTES]) -> (read: ExactFileRead)
        ensures
            Self::steps_to(
                *old(self),
                JournalFileStep::ReadEntry { name: name@, read },
                *final(self),
            ),
    ;

    /// Creates the directory if it is missing, and refuses anything but a real one.
    fn ensure_real_directory(&mut self, directory: ReplayJournalDirectory) -> (reply: Result<
        (),
        RealDirectoryError,
    >)
        ensures
            Self::steps_to(
                *old(self),
                JournalFileStep::Ensured { directory, reply },
                *final(self),
            ),
    ;

    /// Makes the directory's entries durable, and says whether that succeeded.
    fn sync_directory(&mut self, directory: ReplayJournalDirectory) -> (done: bool)
        ensures
            Self::steps_to(
                *old(self),
                JournalFileStep::SyncedDirectory { directory, done },
                *final(self),
            ),
    ;

    /// Writes and synchronizes a new staging file; `None` if that failed.
    fn stage(&mut self, record: &[u8]) -> (staged: Option<Self::Staged>)
        ensures
            Self::steps_to(
                *old(self),
                JournalFileStep::Staged { record: record@, staged },
                *final(self),
            ),
    ;

    /// Renames a staging file to the entry of that name, and says whether that succeeded.
    fn replace_entry(&mut self, staged: Self::Staged, name: &[u8; ENTRY_FILENAME_BYTES]) -> (done:
        bool)
        ensures
            Self::steps_to(
                *old(self),
                JournalFileStep::ReplacedEntry { staged, name: name@, done },
                *final(self),
            ),
    ;

    /// Synchronizes the entry of that name, and says whether that succeeded.
    fn sync_entry(&mut self, name: &[u8; ENTRY_FILENAME_BYTES]) -> (done: bool)
        ensures
            Self::steps_to(
                *old(self),
                JournalFileStep::SyncedEntry { name: name@, done },
                *final(self),
            ),
    ;

    /// Renames a staging file over the head record, and says whether that succeeded.
    fn replace_current(&mut self, staged: Self::Staged) -> (done: bool)
        ensures
            Self::steps_to(
                *old(self),
                JournalFileStep::ReplacedCurrent { staged, done },
                *final(self),
            ),
    ;
}

#[derive(Debug, Clone, Copy, PartialEq, Eq, Structural)]
pub enum ReplayJournalStoreError {
    LatchedIndeterminate,
    UnsafeRecoveryPath,
    ConfigurationMismatch,
    CurrentStateUnreadable,
    CurrentStateCorrupt,
    CurrentStateAuthenticationFailed,
    CurrentStateProtectionUnavailable,
    CommittedEntryMissing,
    CommittedEntryUnreadable,
    CommittedEntryCorrupt,
    CommittedEntryAuthenticationFailed,
    CommittedEntryProtectionUnavailable,
    CurrentStateMismatch,
    TransactionCapacityExceeded,
    SequenceOverflow,
    MaintenanceWatermarkRegressed,
    LocalStageUnavailable,
    CandidateStateIndeterminate,
    CurrentStateIndeterminate,
}

impl ReplayJournalStoreError {
    /// Text shown to an operator: the same for every fault.
    pub fn message(&self) -> (text: &'static str)
        ensures
            text@ == "replay journal is unavailable"@,
    {
        "replay journal is unavailable"
    }
}

#[derive(Debug, Clone, Copy, PartialEq, Eq, Structural)]
pub enum ReplayJournalStoreHealth {
    Ready,
    Indeterminate,
}

/// The last `width` decimal digits of a number, in ASCII.
pub open spec fn decimal_digits(value: nat, width: nat) -> Seq<u8>
    decreases width,
{
    if width == 0 {
        Seq::empty()
    } else {
        decimal_digits(value / 10, (width - 1) as nat).push((0x30 + value % 10) as u8)
    }
}

/// `.bin`.
pub const ENTRY_FILE_SUFFIX: [u8; 4] = [0x2e, 0x62, 0x69, 0x6e];

/// Twenty zero-padded decimal digits, then `.bin`.
pub open spec fn entry_name(sequence: u64) -> Seq<u8> {
    decimal_digits(sequence as nat, 20) + ENTRY_FILE_SUFFIX@
}

/// Appends the last `width` decimal digits of a number.
fn append_digits(buffer: &mut Vec<u8>, value: u64, width: usize)
    ensures
        final(buffer)@ == old(buffer)@ + decimal_digits(value as nat, width as nat),
    decreases width,
{
    if width > 0 {
        append_digits(buffer, value / 10, width - 1);
        buffer.push(0x30 + (value % 10) as u8);
    }
    assert(buffer@ =~= old(buffer)@ + decimal_digits(value as nat, width as nat));
}

/// There are as many digits as asked for.
proof fn lemma_digit_count(value: nat, width: nat)
    ensures
        decimal_digits(value, width).len() == width,
    decreases width,
{
    if width > 0 {
        lemma_digit_count(value / 10, (width - 1) as nat);
    }
}

/// Name of the file that holds one entry.
pub fn entry_filename(sequence: u64) -> (name: [u8; ENTRY_FILENAME_BYTES])
    ensures
        name@ == entry_name(sequence),
{
    let mut buffer: Vec<u8> = Vec::new();
    append_digits(&mut buffer, sequence, 20);
    append(&mut buffer, ENTRY_FILE_SUFFIX.as_slice());
    proof {
        lemma_digit_count(sequence as nat, 20);
        assert(buffer@ =~= entry_name(sequence));
    }
    into_array(&buffer)
}

/// The number has no digit beyond the last `width`.
spec fn has_digits(value: nat, width: nat) -> bool
    decreases width,
{
    if width == 0 {
        value == 0
    } else {
        has_digits(value / 10, (width - 1) as nat)
    }
}

proof fn lemma_smaller_has_digits(small: nat, large: nat, width: nat)
    requires
        small <= large,
        has_digits(large, width),
    ensures
        has_digits(small, width),
    decreases width,
{
    if width > 0 {
        lemma_smaller_has_digits(small / 10, large / 10, (width - 1) as nat);
    }
}

proof fn lemma_digits_determine_number(left: nat, right: nat, width: nat)
    requires
        has_digits(left, width),
        has_digits(right, width),
        decimal_digits(left, width) == decimal_digits(right, width),
    ensures
        left == right,
    decreases width,
{
    if width > 0 {
        let (l, r) = (decimal_digits(left, width), decimal_digits(right, width));
        assert(l.last() == r.last());
        assert(l.drop_last() =~= decimal_digits(left / 10, (width - 1) as nat));
        assert(r.drop_last() =~= decimal_digits(right / 10, (width - 1) as nat));
        lemma_digits_determine_number(left / 10, right / 10, (width - 1) as nat);
    }
}

/// No two entries share a file.
pub proof fn entry_names_are_distinct(left: u64, right: u64)
    requires
        entry_name(left) == entry_name(right),
    ensures
        left == right,
{
    lemma_digit_count(left as nat, 20);
    lemma_digit_count(right as nat, 20);
    assert(entry_name(left).subrange(0, 20) =~= decimal_digits(left as nat, 20));
    assert(entry_name(right).subrange(0, 20) =~= decimal_digits(right as nat, 20));
    assert(has_digits(u64::MAX as nat, 20)) by {
        reveal_with_fuel(has_digits, 21);
    }
    lemma_smaller_has_digits(left as nat, u64::MAX as nat, 20);
    lemma_smaller_has_digits(right as nat, u64::MAX as nat, 20);
    lemma_digits_determine_number(left as nat, right as nat, 20);
}

/// Everything that a replay journal holds.
#[verifier::ext_equal]
pub struct JournalModel {
    pub head: ReplayJournalHead,
    pub requests: Claims,
    pub continuations: Claims,
}

/// A journal without transactions.
pub open spec fn empty_journal(max_transactions: u64, profile_id: Seq<u8>) -> JournalModel {
    JournalModel {
        head: crate::replay_journal::empty_head(max_transactions, profile_id),
        requests: Set::empty(),
        continuations: Set::empty(),
    }
}

/// The journal after an accepted entry.
pub open spec fn journal_after(journal: JournalModel, entry: ReplayJournalEntry) -> JournalModel {
    JournalModel {
        head: crate::replay_journal::head_after(journal.head, journal.requests, entry),
        requests: crate::replay_journal::requests_after(journal.requests, entry),
        continuations: crate::replay_journal::continuations_after(journal.continuations, entry),
    }
}

/// Why an entry may not follow a journal.
pub open spec fn journal_error(journal: JournalModel, entry: ReplayJournalEntry) -> Option<
    ReplayJournalTransitionError,
> {
    crate::replay_journal::entry_error(
        journal.head,
        journal.requests,
        journal.continuations,
        entry,
    )
}

/// The journal that a sequence of entries rebuilds, or nothing if one of them is refused.
pub open spec fn rebuilt(
    max_transactions: u64,
    profile_id: Seq<u8>,
    entries: Seq<ReplayJournalEntry>,
) -> Option<JournalModel>
    decreases entries.len(),
{
    if entries.len() == 0 {
        Some(empty_journal(max_transactions, profile_id))
    } else {
        match rebuilt(max_transactions, profile_id, entries.drop_last()) {
            None => None,
            Some(journal) => if journal_error(journal, entries.last()) is None {
                Some(journal_after(journal, entries.last()))
            } else {
                None
            },
        }
    }
}

/// The same journal with another watermark.
pub open spec fn with_watermark(journal: JournalModel, watermark: u64) -> JournalModel {
    JournalModel { head: ReplayJournalHead { watermark, ..journal.head }, ..journal }
}

/// What every rebuilt journal satisfies: counts and sequence are those of its
/// entries, and its head is valid.
pub proof fn rebuilt_journal_is_consistent(
    max_transactions: u64,
    profile_id: Seq<u8>,
    entries: Seq<ReplayJournalEntry>,
)
    requires
        profile_id.len() == PROFILE_ID_BYTES,
        !crate::bytes::is_zero(profile_id),
        rebuilt(max_transactions, profile_id, entries) is Some,
    ensures
        ({
            let journal = rebuilt(max_transactions, profile_id, entries)->0;
            &&& crate::replay_journal::head_error(journal.head) is None
            &&& journal.head.max_transactions == max_transactions
            &&& journal.head.profile_id == profile_id
            &&& journal.head.committed_sequence == entries.len()
            &&& journal.head.watermark == 0
            &&& journal.requests.finite()
            &&& journal.requests.len() == journal.head.claimed_request_count
            &&& journal.continuations.finite()
            &&& journal.continuations.len() == journal.head.claimed_continuation_count
        }),
    decreases entries.len(),
{
    if entries.len() > 0 {
        rebuilt_journal_is_consistent(max_transactions, profile_id, entries.drop_last());
        let before = rebuilt(max_transactions, profile_id, entries.drop_last())->0;
        let entry = entries.last();
        if before.requests.contains(entry.request_key) {
            assert(before.requests.insert(entry.request_key) =~= before.requests);
        }
    } else {
        assert(crate::bytes::is_zero(crate::bytes::zeros(32)));
    }
}

/// One more accepted entry rebuilds the journal after it.
pub proof fn rebuilding_extends_by_one_entry(
    max_transactions: u64,
    profile_id: Seq<u8>,
    entries: Seq<ReplayJournalEntry>,
    entry: ReplayJournalEntry,
)
    requires
        rebuilt(max_transactions, profile_id, entries) is Some,
        journal_error(rebuilt(max_transactions, profile_id, entries)->0, entry) is None,
    ensures
        rebuilt(max_transactions, profile_id, entries.push(entry)) == Some(
            journal_after(rebuilt(max_transactions, profile_id, entries)->0, entry),
        ),
{
    assert(entries.push(entry).drop_last() =~= entries);
}

/// Continuation lane that a commit records.
///
/// A duplicate request never consumes its continuation, and a duplicate
/// continuation is recorded as cover.
pub open spec fn planned_lane(
    journal: JournalModel,
    request_key: RequestReplayKey,
    plan: ContinuationReplayPlan,
) -> ReplayJournalContinuationLane {
    match plan {
        ContinuationReplayPlan::Cover => ReplayJournalContinuationLane::Cover,
        ContinuationReplayPlan::ClaimOrCover(claim) => if journal.requests.contains(request_key.0)
            || journal.continuations.contains(claim.key) {
            ReplayJournalContinuationLane::Cover
        } else {
            ReplayJournalContinuationLane::Claim {
                key: claim.key,
                expiry_bucket_ordinal: claim.expiry_bucket_ordinal,
            }
        },
    }
}

/// What a commit reports.
pub open spec fn planned_decision(
    journal: JournalModel,
    request_key: RequestReplayKey,
    plan: ContinuationReplayPlan,
) -> ReplayDuplicateDecision {
    if journal.requests.contains(request_key.0) {
        ReplayDuplicateDecision::RequestDuplicate
    } else {
        match plan {
            ContinuationReplayPlan::ClaimOrCover(claim) if journal.continuations.contains(
                claim.key,
            ) => ReplayDuplicateDecision::ContinuationDuplicate,
            _ => ReplayDuplicateDecision::Fresh,
        }
    }
}

/// Entry that a commit records.
pub open spec fn planned_entry(
    journal: JournalModel,
    request_key: RequestReplayKey,
    plan: ContinuationReplayPlan,
) -> ReplayJournalEntry {
    ReplayJournalEntry {
        sequence: (journal.head.committed_sequence + 1) as u64,
        request_key: request_key.0,
        continuation_lane: planned_lane(journal, request_key, plan),
    }
}

/// Why a valid journal cannot take one more transaction.
pub open spec fn capacity_error(journal: JournalModel) -> Option<ReplayJournalStoreError> {
    if journal.head.committed_sequence == u64::MAX {
        Some(ReplayJournalStoreError::SequenceOverflow)
    } else if journal.head.committed_sequence >= journal.head.max_transactions {
        Some(ReplayJournalStoreError::TransactionCapacityExceeded)
    } else {
        None
    }
}

/// A prepared transaction: its entry, and what it leads to.
#[derive(Clone, Copy)]
pub struct PreparedReplayJournalCommit {
    pub entry: ReplayJournalEntry,
    pub next_state: ReplayJournalState,
    pub delta: ReplayJournalDelta,
    pub decision: ReplayDuplicateDecision,
}

impl PreparedReplayJournalCommit {
    /// Redacted rendering for logs.
    pub fn debug_text(&self) -> (text: &'static str)
        ensures
            text@ == "PreparedReplayJournalCommit { ..REDACTED.. }"@,
    {
        "PreparedReplayJournalCommit { ..REDACTED.. }"
    }
}

/// A prepared watermark advance, bound to the head it was prepared for.
pub struct PreparedReplayMaintenanceAdvance {
    pub previous_digest: ReplayJournalComponentStateDigest,
    pub next_state: ReplayJournalState,
}

impl PreparedReplayMaintenanceAdvance {
    /// The advance raises the watermark of this head and changes nothing else.
    pub open spec fn raises(self, state: ReplayJournalState) -> bool {
        &&& self.previous_digest.0@ == crate::replay_journal::head_digest(state@)
        &&& self.next_state == (ReplayJournalState {
            maintenance_expiry_bucket_watermark:
                self.next_state.maintenance_expiry_bucket_watermark,
            ..state
        })
        &&& self.next_state.maintenance_expiry_bucket_watermark.0
            > state.maintenance_expiry_bucket_watermark.0
    }
}

pub enum ReplayMaintenancePreparation {
    NoAdvance,
    Advance(PreparedReplayMaintenanceAdvance),
}

impl ReplayMaintenancePreparation {
    /// Redacted rendering for logs.
    pub fn debug_text(&self) -> (text: &'static str)
        ensures
            text@ == "ReplayMaintenancePreparation { ..REDACTED.. }"@,
    {
        "ReplayMaintenancePreparation { ..REDACTED.. }"
    }
}

/// Evidence minted after one replay transaction's durable boundary.
pub struct ReplayJournalAdvanceReceipt {
    pub instance_identity: u64,
    pub previous_digest: ReplayJournalComponentStateDigest,
    pub committed_digest: ReplayJournalComponentStateDigest,
}

impl ReplayJournalAdvanceReceipt {
    pub fn into_digests(self) -> (digests: (
        ReplayJournalComponentStateDigest,
        ReplayJournalComponentStateDigest,
    ))
        ensures
            digests == (self.previous_digest, self.committed_digest),
    {
        (self.previous_digest, self.committed_digest)
    }

    pub fn was_minted_for(&self, instance_identity: u64) -> (minted: bool)
        ensures
            minted == (self.instance_identity == instance_identity),
    {
        self.instance_identity == instance_identity
    }

    /// Redacted rendering for logs.
    pub fn debug_text(&self) -> (text: &'static str)
        ensures
            text@ == "ReplayJournalAdvanceReceipt { ..REDACTED.. }"@,
    {
        "ReplayJournalAdvanceReceipt { ..REDACTED.. }"
    }
}

/// Evidence minted after one maintenance-watermark advance's durable boundary.
///
/// This distinct type cannot be consumed by the request-commit binding path. It
/// proves only a change of the head, not trusted-time authority, claim
/// retirement, deletion, or capacity reclamation.
pub struct ReplayJournalMaintenanceAdvanceReceipt {
    pub instance_identity: u64,
    pub previous_digest: ReplayJournalComponentStateDigest,
    pub committed_digest: ReplayJournalComponentStateDigest,
}

impl ReplayJournalMaintenanceAdvanceReceipt {
    pub fn into_digests(self) -> (digests: (
        ReplayJournalComponentStateDigest,
        ReplayJournalComponentStateDigest,
    ))
        ensures
            digests == (self.previous_digest, self.committed_digest),
    {
        (self.previous_digest, self.committed_digest)
    }

    pub fn was_minted_for(&self, instance_identity: u64) -> (minted: bool)
        ensures
            minted == (self.instance_identity == instance_identity),
    {
        self.instance_identity == instance_identity
    }

    /// Redacted rendering for logs.
    pub fn debug_text(&self) -> (text: &'static str)
        ensures
            text@ == "ReplayJournalMaintenanceAdvanceReceipt { ..REDACTED.. }"@,
    {
        "ReplayJournalMaintenanceAdvanceReceipt { ..REDACTED.. }"
    }
}

/// A committed transaction and the evidence of it.
pub struct ReplayJournalCommittedAdvance {
    pub result: ReplayCommitResult,
    pub receipt: ReplayJournalAdvanceReceipt,
}

impl ReplayJournalCommittedAdvance {
    pub fn into_parts(self) -> (parts: (ReplayCommitResult, ReplayJournalAdvanceReceipt))
        ensures
            parts == (self.result, self.receipt),
    {
        (self.result, self.receipt)
    }

    /// Redacted rendering for logs.
    pub fn debug_text(&self) -> (text: &'static str)
        ensures
            text@ == "ReplayJournalCommittedAdvance { ..REDACTED.. }"@,
    {
        "ReplayJournalCommittedAdvance { ..REDACTED.. }"
    }
}

pub open spec fn replay_directory_error(error: RealDirectoryError) -> ReplayJournalStoreError {
    match error {
        RealDirectoryError::UnsafePath => ReplayJournalStoreError::UnsafeRecoveryPath,
        RealDirectoryError::Io => ReplayJournalStoreError::LocalStageUnavailable,
    }
}

pub fn map_directory_error(error: RealDirectoryError) -> (mapped: ReplayJournalStoreError)
    ensures
        mapped == replay_directory_error(error),
{
    match error {
        RealDirectoryError::UnsafePath => ReplayJournalStoreError::UnsafeRecoveryPath,
        RealDirectoryError::Io => ReplayJournalStoreError::LocalStageUnavailable,
    }
}

pub open spec fn prepare_transition_error(
    error: ReplayJournalTransitionError,
) -> ReplayJournalStoreError {
    match error {
        ReplayJournalTransitionError::TransactionCapacityExceeded =>
            ReplayJournalStoreError::TransactionCapacityExceeded,
        ReplayJournalTransitionError::SequenceOverflow => ReplayJournalStoreError::SequenceOverflow,
        _ => ReplayJournalStoreError::CurrentStateMismatch,
    }
}

pub fn map_prepare_transition_error(error: ReplayJournalTransitionError) -> (mapped:
    ReplayJournalStoreError)
    ensures
        mapped == prepare_transition_error(error),
{
    match error {
        ReplayJournalTransitionError::TransactionCapacityExceeded =>
            ReplayJournalStoreError::TransactionCapacityExceeded,
        ReplayJournalTransitionError::SequenceOverflow => ReplayJournalStoreError::SequenceOverflow,
        ReplayJournalTransitionError::InvalidSequence
        | ReplayJournalTransitionError::InvalidDuplicateRequestLane
        | ReplayJournalTransitionError::InvalidDuplicateContinuationLane
        | ReplayJournalTransitionError::InconsistentClaimSet =>
            ReplayJournalStoreError::CurrentStateMismatch,
    }
}

pub fn map_current_record_for_commit(error: ReplayJournalRecordError) -> (mapped:
    ReplayJournalStoreError)
    ensures
        mapped == if error is ProtectionUnavailable {
            ReplayJournalStoreError::CurrentStateProtectionUnavailable
        } else {
            ReplayJournalStoreError::CurrentStateCorrupt
        },
{
    match error {
        ReplayJournalRecordError::ProtectionUnavailable =>
            ReplayJournalStoreError::CurrentStateProtectionUnavailable,
        _ => ReplayJournalStoreError::CurrentStateCorrupt,
    }
}

pub fn map_entry_record_for_commit(error: ReplayJournalRecordError) -> (mapped:
    ReplayJournalStoreError)
    ensures
        mapped == if error is ProtectionUnavailable {
            ReplayJournalStoreError::CommittedEntryProtectionUnavailable
        } else {
            ReplayJournalStoreError::CommittedEntryCorrupt
        },
{
    match error {
        ReplayJournalRecordError::ProtectionUnavailable =>
            ReplayJournalStoreError::CommittedEntryProtectionUnavailable,
        _ => ReplayJournalStoreError::CommittedEntryCorrupt,
    }
}

/// Accepts a directory, or a path that names nothing.
pub fn validate_optional_directory(kind: PathKind) -> (result: Result<(), ReplayJournalStoreError>)
    ensures
        result == if kind is Directory || kind is Missing {
            Ok(())
        } else {
            Err(ReplayJournalStoreError::UnsafeRecoveryPath)
        },
{
    match kind {
        PathKind::Directory | PathKind::Missing => Ok(()),
        _ => Err(ReplayJournalStoreError::UnsafeRecoveryPath),
    }
}

/// Accepts a regular file, or a path that names nothing.
pub fn validate_optional_file(kind: PathKind) -> (result: Result<(), ReplayJournalStoreError>)
    ensures
        result == if kind is RegularFile || kind is Missing {
            Ok(())
        } else {
            Err(ReplayJournalStoreError::UnsafeRecoveryPath)
        },
{
    match kind {
        PathKind::RegularFile | PathKind::Missing => Ok(()),
        _ => Err(ReplayJournalStoreError::UnsafeRecoveryPath),
    }
}

/// Accepts only a directory: a head that was committed has one.
pub fn validate_committed_entries_directory(kind: PathKind) -> (result: Result<
    (),
    ReplayJournalStoreError,
>)
    ensures
        result == match kind {
            PathKind::Directory => Ok(()),
            PathKind::Missing | PathKind::Unreadable => Err(
                ReplayJournalStoreError::CommittedEntryMissing,
            ),
            _ => Err(ReplayJournalStoreError::UnsafeRecoveryPath),
        },
{
    match kind {
        PathKind::Directory => Ok(()),
        PathKind::Missing | PathKind::Unreadable => Err(
            ReplayJournalStoreError::CommittedEntryMissing,
        ),
        _ => Err(ReplayJournalStoreError::UnsafeRecoveryPath),
    }
}

/// Accepts a journal whose every present path is what it should be.
pub fn validate_recovery_paths<F: ReplayJournalFiles>(files: &mut F) -> (result: Result<
    (),
    ReplayJournalStoreError,
>)
    ensures
        exists|kinds: Seq<PathKind>| #[trigger]
            crate::journal_storage::paths_end(kinds, result)
                && crate::journal_storage::storage_runs(
                *old(files),
                crate::journal_storage::path_steps(kinds),
                *final(files),
            ),
{
    let ghost start = *files;
    let ghost mut kinds: Seq<PathKind> = Seq::empty();
    assert(crate::journal_storage::path_steps::<F::Staged>(kinds) =~= Seq::empty());
    let kind = files.inspect(ReplayJournalPath::Recovery);
    proof {
        lemma_path_inspected(start, kinds, start, kind, *files);
        kinds = kinds.push(kind);
    }
    match kind {
        PathKind::Directory => {},
        PathKind::Missing => {
            assert(crate::journal_storage::paths_end(kinds, Ok(())));
            return Ok(());
        },
        _ => {
            assert(crate::journal_storage::paths_end(
                kinds,
                Err(ReplayJournalStoreError::UnsafeRecoveryPath),
            ));
            return Err(ReplayJournalStoreError::UnsafeRecoveryPath);
        },
    }
    let ghost middle = *files;
    let kind = files.inspect(ReplayJournalPath::Entries);
    proof {
        lemma_path_inspected(start, kinds, middle, kind, *files);
        kinds = kinds.push(kind);
    }
    match validate_optional_directory(kind) {
        Ok(()) => {},
        Err(error) => {
            assert(crate::journal_storage::paths_end(kinds, Err(error)));
            return Err(error);
        },
    }
    let ghost middle = *files;
    let kind = files.inspect(ReplayJournalPath::Staging);
    proof {
        lemma_path_inspected(start, kinds, middle, kind, *files);
        kinds = kinds.push(kind);
    }
    match validate_optional_directory(kind) {
        Ok(()) => {},
        Err(error) => {
            assert(crate::journal_storage::paths_end(kinds, Err(error)));
            return Err(error);
        },
    }
    let ghost middle = *files;
    let kind = files.inspect(ReplayJournalPath::Current);
    proof {
        lemma_path_inspected(start, kinds, middle, kind, *files);
        kinds = kinds.push(kind);
    }
    let result = validate_optional_file(kind);
    assert(crate::journal_storage::paths_end(kinds, result));
    result
}

/// Inspecting the next path.
proof fn lemma_path_inspected<F: ReplayJournalFiles>(
    start: F,
    kinds: Seq<PathKind>,
    middle: F,
    kind: PathKind,
    after: F,
)
    requires
        crate::journal_storage::storage_runs(
            start,
            crate::journal_storage::path_steps(kinds),
            middle,
        ),
        F::steps_to(
            middle,
            JournalFileStep::Inspected {
                path: crate::journal_storage::recovery_path(kinds.len() as int),
                kind,
            },
            after,
        ),
    ensures
        crate::journal_storage::storage_runs(
            start,
            crate::journal_storage::path_steps(kinds.push(kind)),
            after,
        ),
{
    let step = JournalFileStep::Inspected {
        path: crate::journal_storage::recovery_path(kinds.len() as int),
        kind,
    };
    let steps = crate::journal_storage::path_steps::<F::Staged>(kinds);
    crate::journal_storage::lemma_run_goes_on(start, steps, middle, step, after);
    assert(crate::journal_storage::path_steps::<F::Staged>(kinds.push(kind)) =~= steps.push(step));
}

/// What one read of the head record amounts to; `Ok(None)` if there is none.
pub open spec fn head_read_amounts_to<P: ReplayJournalRecordProtector>(
    read: ExactFileRead,
    context: ReplayJournalProtectionContext,
    protector: P,
    result: Result<Option<ReplayJournalState>, ReplayJournalStoreError>,
) -> bool {
    match read {
        ExactFileRead::Missing => result == Ok::<
            Option<ReplayJournalState>,
            ReplayJournalStoreError,
        >(None),
        ExactFileRead::Unreadable => result == Err::<Option<ReplayJournalState>, _>(
            ReplayJournalStoreError::CurrentStateUnreadable,
        ),
        ExactFileRead::NotRegular | ExactFileRead::Short | ExactFileRead::Trailing => result
            == Err::<Option<ReplayJournalState>, _>(ReplayJournalStoreError::CurrentStateCorrupt),
        ExactFileRead::Exact(bytes) => if bytes@.len() != CURRENT_RECORD_BYTES {
            result == Err::<Option<ReplayJournalState>, _>(
                ReplayJournalStoreError::CurrentStateCorrupt,
            )
        } else {
            exists|record: Result<ReplayJournalState, ReplayJournalRecordError>| #[trigger]
                crate::replay_record::current_record_reads(bytes@, context, protector, record)
                    && result == match record {
                    Ok(state) => Ok(Some(state)),
                    Err(ReplayJournalRecordError::AuthenticationFailed) => Err(
                        ReplayJournalStoreError::CurrentStateAuthenticationFailed,
                    ),
                    Err(ReplayJournalRecordError::ProtectionUnavailable) => Err(
                        ReplayJournalStoreError::CurrentStateProtectionUnavailable,
                    ),
                    Err(_) => Err(ReplayJournalStoreError::CurrentStateCorrupt),
                }
        },
    }
}

/// Classifies one read of the head record.
pub fn load_authoritative_head<P: ReplayJournalRecordProtector>(
    read: ExactFileRead,
    context: &ReplayJournalProtectionContext,
    protector: &P,
) -> (result: Result<Option<ReplayJournalState>, ReplayJournalStoreError>)
    ensures
        head_read_amounts_to(read, *context, *protector, result),
{
    let bytes = match read {
        ExactFileRead::Missing => {
            return Ok(None);
        },
        ExactFileRead::Unreadable => {
            return Err(ReplayJournalStoreError::CurrentStateUnreadable);
        },
        ExactFileRead::NotRegular | ExactFileRead::Short | ExactFileRead::Trailing => {
            return Err(ReplayJournalStoreError::CurrentStateCorrupt);
        },
        ExactFileRead::Exact(bytes) => bytes,
    };
    if bytes.len() != CURRENT_RECORD_BYTES {
        return Err(ReplayJournalStoreError::CurrentStateCorrupt);
    }
    let record = PersistentReplayJournalCurrentStateV3(into_array(&bytes)).into_business(
        context,
        protector,
    );
    assert(crate::replay_record::current_record_reads(bytes@, *context, *protector, record));
    match record {
        Ok(state) => Ok(Some(state)),
        Err(ReplayJournalRecordError::AuthenticationFailed) => Err(
            ReplayJournalStoreError::CurrentStateAuthenticationFailed,
        ),
        Err(ReplayJournalRecordError::ProtectionUnavailable) => Err(
            ReplayJournalStoreError::CurrentStateProtectionUnavailable,
        ),
        Err(_) => Err(ReplayJournalStoreError::CurrentStateCorrupt),
    }
}

/// What one read of an entry record amounts to.
pub open spec fn entry_read_amounts_to<P: ReplayJournalRecordProtector>(
    read: ExactFileRead,
    expected_sequence: u64,
    context: ReplayJournalProtectionContext,
    protector: P,
    result: Result<ReplayJournalEntry, ReplayJournalStoreError>,
) -> bool {
    match read {
        ExactFileRead::Missing => result == Err::<ReplayJournalEntry, _>(
            ReplayJournalStoreError::CommittedEntryMissing,
        ),
        ExactFileRead::Unreadable => result == Err::<ReplayJournalEntry, _>(
            ReplayJournalStoreError::CommittedEntryUnreadable,
        ),
        ExactFileRead::NotRegular | ExactFileRead::Short | ExactFileRead::Trailing => result
            == Err::<ReplayJournalEntry, _>(ReplayJournalStoreError::CommittedEntryCorrupt),
        ExactFileRead::Exact(bytes) => if bytes@.len() != ENTRY_RECORD_BYTES {
            result == Err::<ReplayJournalEntry, _>(ReplayJournalStoreError::CommittedEntryCorrupt)
        } else {
            exists|record: Result<ReplayJournalEntry, ReplayJournalRecordError>| #[trigger]
                crate::replay_record::entry_record_reads(bytes@, context, protector, record)
                    && result == match record {
                    Ok(entry) => if entry.sequence == expected_sequence {
                        Ok(entry)
                    } else {
                        Err(ReplayJournalStoreError::CommittedEntryCorrupt)
                    },
                    Err(ReplayJournalRecordError::AuthenticationFailed) => Err(
                        ReplayJournalStoreError::CommittedEntryAuthenticationFailed,
                    ),
                    Err(ReplayJournalRecordError::ProtectionUnavailable) => Err(
                        ReplayJournalStoreError::CommittedEntryProtectionUnavailable,
                    ),
                    Err(_) => Err(ReplayJournalStoreError::CommittedEntryCorrupt),
                }
        },
    }
}

/// Classifies one read of the entry record with an expected sequence.
pub fn load_authoritative_entry<P: ReplayJournalRecordProtector>(
    read: ExactFileRead,
    expected_sequence: u64,
    context: &ReplayJournalProtectionContext,
    protector: &P,
) -> (result: Result<ReplayJournalEntry, ReplayJournalStoreError>)
    ensures
        entry_read_amounts_to(read, expected_sequence, *context, *protector, result),
        result matches Ok(entry) ==> entry.wf() && entry.sequence == expected_sequence,
{
    let bytes = match read {
        ExactFileRead::Missing => {
            return Err(ReplayJournalStoreError::CommittedEntryMissing);
        },
        ExactFileRead::Unreadable => {
            return Err(ReplayJournalStoreError::CommittedEntryUnreadable);
        },
        ExactFileRead::NotRegular | ExactFileRead::Short | ExactFileRead::Trailing => {
            return Err(ReplayJournalStoreError::CommittedEntryCorrupt);
        },
        ExactFileRead::Exact(bytes) => bytes,
    };
    if bytes.len() != ENTRY_RECORD_BYTES {
        return Err(ReplayJournalStoreError::CommittedEntryCorrupt);
    }
    let record = PersistentReplayJournalEntry(into_array(&bytes)).into_business(context, protector);
    assert(crate::replay_record::entry_record_reads(bytes@, *context, *protector, record));
    let entry = match record {
        Ok(entry) => entry,
        Err(ReplayJournalRecordError::AuthenticationFailed) => {
            return Err(ReplayJournalStoreError::CommittedEntryAuthenticationFailed);
        },
        Err(ReplayJournalRecordError::ProtectionUnavailable) => {
            return Err(ReplayJournalStoreError::CommittedEntryProtectionUnavailable);
        },
        Err(_) => {
            return Err(ReplayJournalStoreError::CommittedEntryCorrupt);
        },
    };
    if entry.sequence != expected_sequence {
        return Err(ReplayJournalStoreError::CommittedEntryCorrupt);
    }
    Ok(entry)
}

/// Crash-durable replay journal over local files.
pub struct ReplayJournalStore<F, P> {
    pub files: F,
    pub protection_context: ReplayJournalProtectionContext,
    pub protector: P,
    pub instance_identity: u64,
    pub state: ReplayJournalState,
    pub request_claims: ClaimSet,
    pub continuation_claims: ClaimSet,
    pub health: ReplayJournalStoreHealth,
    /// Every committed entry, in order.
    pub history: Ghost<Seq<ReplayJournalEntry>>,
}

impl<F, P> ReplayJournalStore<F, P> {
    /// Everything that the journal holds.
    pub open spec fn view(self) -> JournalModel {
        JournalModel {
            head: self.state@,
            requests: self.request_claims@,
            continuations: self.continuation_claims@,
        }
    }

    /// What is held is what the committed entries rebuild, plus the watermark.
    pub open spec fn wf(self) -> bool {
        &&& self.request_claims.wf()
        &&& self.continuation_claims.wf()
        &&& !crate::bytes::is_zero(self.state.profile_id@)
        &&& rebuilt(self.state@.max_transactions, self.state@.profile_id, self.history@) == Some(
            with_watermark(self@, 0),
        )
    }

    /// Nothing but the files may differ.
    pub open spec fn same_but_files(self, other: Self) -> bool {
        &&& self.protection_context == other.protection_context
        &&& self.protector == other.protector
        &&& self.instance_identity == other.instance_identity
        &&& self.state == other.state
        &&& self.request_claims == other.request_claims
        &&& self.continuation_claims == other.continuation_claims
        &&& self.health == other.health
        &&& self.history == other.history
    }

    /// Nothing but the files and the health may differ.
    pub open spec fn same_contents(self, other: Self) -> bool {
        self.same_but_files((ReplayJournalStore { health: self.health, ..other }))
    }

    /// Makes every later operation of this store fail.
    pub(crate) fn latch(&mut self, error: ReplayJournalStoreError) -> (same: ReplayJournalStoreError)
        ensures
            same == error,
            final(self).health is Indeterminate,
            final(self).files == old(self).files,
            final(self).same_contents(*old(self)),
    {
        self.health = ReplayJournalStoreHealth::Indeterminate;
        error
    }

    /// Redacted rendering for logs.
    pub fn debug_text(&self) -> (text: &'static str)
        ensures
            text@ == if self.health is Ready {
                "ReplayJournalStore { protector: \"..REDACTED..\", state: \"..REDACTED..\", request_claims: \"..REDACTED..\", continuation_claims: \"..REDACTED..\", health: Ready }"@
            } else {
                "ReplayJournalStore { protector: \"..REDACTED..\", state: \"..REDACTED..\", request_claims: \"..REDACTED..\", continuation_claims: \"..REDACTED..\", health: Indeterminate }"@
            },
    {
        match self.health {
            ReplayJournalStoreHealth::Ready =>
                "ReplayJournalStore { protector: \"..REDACTED..\", state: \"..REDACTED..\", request_claims: \"..REDACTED..\", continuation_claims: \"..REDACTED..\", health: Ready }",
            ReplayJournalStoreHealth::Indeterminate =>
                "ReplayJournalStore { protector: \"..REDACTED..\", state: \"..REDACTED..\", request_claims: \"..REDACTED..\", continuation_claims: \"..REDACTED..\", health: Indeterminate }",
        }
    }

    /// The validity of a store, spelled out.
    pub proof fn lemma_consistent(&self)
        requires
            self.wf(),
        ensures
            crate::replay_journal::head_error(self.state@) is None,
            self.state.committed_sequence == self.history@.len(),
            self@.requests.finite(),
            self@.requests.len() == self.state.claimed_request_count,
            self@.continuations.finite(),
            self@.continuations.len() == self.state.claimed_continuation_count,
    {
        rebuilt_journal_is_consistent(
            self.state@.max_transactions,
            self.state@.profile_id,
            self.history@,
        );
    }

    /// Decides and prepares one transaction without touching any file.
    ///
    /// A valid journal refuses a transaction only for want of capacity.
    pub fn prepare_commit(
        &self,
        request_key: &RequestReplayKey,
        continuation_plan: &ContinuationReplayPlan,
    ) -> (result: Result<PreparedReplayJournalCommit, ReplayJournalStoreError>)
        requires
            self.wf(),
        ensures
            match result {
                Ok(prepared) => {
                    &&& self.health is Ready
                    &&& capacity_error(self@) is None
                    &&& prepared.entry == planned_entry(self@, *request_key, *continuation_plan)
                    &&& journal_error(self@, prepared.entry) is None
                    &&& prepared.next_state@ == journal_after(self@, prepared.entry).head
                    &&& prepared.delta == crate::replay_journal::delta_of(
                        self@.requests,
                        prepared.entry,
                    )
                    &&& prepared.decision == planned_decision(
                        self@,
                        *request_key,
                        *continuation_plan,
                    )
                },
                Err(error) => Some(error) == if self.health is Indeterminate {
                    Some(ReplayJournalStoreError::LatchedIndeterminate)
                } else {
                    capacity_error(self@)
                },
            },
    {
        proof {
            self.lemma_consistent();
        }
        match self.health {
            ReplayJournalStoreHealth::Indeterminate => {
                return Err(ReplayJournalStoreError::LatchedIndeterminate);
            },
            ReplayJournalStoreHealth::Ready => {},
        }
        let sequence: u64 = match self.state.committed_sequence.checked_add(1) {
            Some(sequence) => sequence,
            None => {
                return Err(ReplayJournalStoreError::SequenceOverflow);
            },
        };
        if sequence > self.state.limits.max_transactions {
            return Err(ReplayJournalStoreError::TransactionCapacityExceeded);
        }
        let request_key_bytes = *request_key.as_bytes();
        let (continuation_lane, decision) = if self.request_claims.contains(&request_key_bytes) {
            (ReplayJournalContinuationLane::Cover, ReplayDuplicateDecision::RequestDuplicate)
        } else {
            match continuation_plan {
                ContinuationReplayPlan::Cover => (
                    ReplayJournalContinuationLane::Cover,
                    ReplayDuplicateDecision::Fresh,
                ),
                ContinuationReplayPlan::ClaimOrCover(claim) => {
                    let key = *claim.replay_key_bytes();
                    if self.continuation_claims.contains(&key) {
                        (
                            ReplayJournalContinuationLane::Cover,
                            ReplayDuplicateDecision::ContinuationDuplicate,
                        )
                    } else {
                        (
                            ReplayJournalContinuationLane::Claim {
                                key,
                                expiry_bucket_ordinal: claim.expiry_bucket_ordinal(),
                            },
                            ReplayDuplicateDecision::Fresh,
                        )
                    }
                },
            }
        };
        let entry = ReplayJournalEntry {
            sequence,
            request_key: request_key_bytes,
            continuation_lane,
        };
        let (next_state, delta, _) = match self.state.preview_entry(
            &self.request_claims,
            &self.continuation_claims,
            &entry,
        ) {
            Ok(preview) => preview,
            Err(error) => {
                return Err(map_prepare_transition_error(error));
            },
        };
        Ok(PreparedReplayJournalCommit { entry, next_state, delta, decision })
    }

    /// Decides one proposed watermark without touching any file.
    pub fn prepare_maintenance_watermark(&self, watermark: ReplayMaintenanceWatermark) -> (result:
        Result<ReplayMaintenancePreparation, ReplayJournalStoreError>)
        ensures
            match result {
                Ok(ReplayMaintenancePreparation::Advance(prepared)) => {
                    &&& self.health is Ready
                    &&& prepared.raises(self.state)
                    &&& prepared.next_state.maintenance_expiry_bucket_watermark == watermark
                },
                Ok(ReplayMaintenancePreparation::NoAdvance) => self.health is Ready && watermark
                    == self.state.maintenance_expiry_bucket_watermark,
                Err(error) => error == if self.health is Indeterminate {
                    ReplayJournalStoreError::LatchedIndeterminate
                } else {
                    ReplayJournalStoreError::MaintenanceWatermarkRegressed
                } && (self.health is Ready ==> watermark.0
                    < self.state.maintenance_expiry_bucket_watermark.0),
            },
    {
        match self.health {
            ReplayJournalStoreHealth::Indeterminate => {
                return Err(ReplayJournalStoreError::LatchedIndeterminate);
            },
            ReplayJournalStoreHealth::Ready => {},
        }
        match self.state.preview_maintenance_watermark(watermark) {
            Err(_) => Err(ReplayJournalStoreError::MaintenanceWatermarkRegressed),
            Ok(None) => Ok(ReplayMaintenancePreparation::NoAdvance),
            Ok(Some(next_state)) => Ok(
                ReplayMaintenancePreparation::Advance(
                    PreparedReplayMaintenanceAdvance {
                        previous_digest: self.state.component_state_digest(),
                        next_state,
                    },
                ),
            ),
        }
    }

    /// Takes one durable transaction into memory.
    pub(crate) fn apply_prepared_commit_in_memory(
        &mut self,
        security_round: &SecurityRoundCapture,
        prepared: PreparedReplayJournalCommit,
    ) -> (result: ReplayCommitResult)
        requires
            old(self).wf(),
            journal_error(old(self)@, prepared.entry) is None,
            prepared.next_state@ == journal_after(old(self)@, prepared.entry).head,
            prepared.delta == crate::replay_journal::delta_of(old(self)@.requests, prepared.entry),
        ensures
            final(self).wf(),
            final(self)@ == journal_after(old(self)@, prepared.entry),
            final(self).history@ == old(self).history@.push(prepared.entry),
            final(self).files == old(self).files,
            final(self).protection_context == old(self).protection_context,
            final(self).protector == old(self).protector,
            final(self).instance_identity == old(self).instance_identity,
            final(self).health == old(self).health,
            result.authority.round == *security_round,
            result.decision == prepared.decision,
    {
        match prepared.delta.insert_request {
            Some(key) => {
                self.request_claims.insert(key);
            },
            None => {
                assert(self.request_claims@ =~= self.request_claims@.insert(
                    prepared.entry.request_key,
                ));
            },
        }
        match prepared.delta.insert_continuation {
            Some(key) => {
                self.continuation_claims.insert(key);
            },
            None => {},
        }
        self.state = prepared.next_state;
        proof {
            self.history@ = self.history@.push(prepared.entry);
            let max_transactions = self.state@.max_transactions;
            let profile_id = self.state@.profile_id;
            let before = with_watermark(old(self)@, 0);
            assert(rebuilt(max_transactions, profile_id, old(self).history@) == Some(before));
            assert(journal_error(before, prepared.entry) is None);
            rebuilding_extends_by_one_entry(
                max_transactions,
                profile_id,
                old(self).history@,
                prepared.entry,
            );
            assert(self@ =~= journal_after(old(self)@, prepared.entry));
            assert(journal_after(before, prepared.entry) =~= with_watermark(self@, 0));
        }
        ReplayCommitResult::new(ReplayCommitAuthority::new(security_round), prepared.decision)
    }
}

/// What a transaction finds and records. A request that was committed before is a duplicate
/// whatever its continuation; otherwise a continuation that was claimed before is; and
/// otherwise the transaction is fresh. The lane claims the continuation, with its own bucket,
/// exactly where there is one and the transaction is fresh.
pub proof fn transaction_claims_only_what_is_fresh(
    journal: JournalModel,
    request_key: RequestReplayKey,
    plan: ContinuationReplayPlan,
)
    ensures
        ({
            let decision = planned_decision(journal, request_key, plan);
            let entry = planned_entry(journal, request_key, plan);
            let lane = planned_lane(journal, request_key, plan);
            &&& decision is RequestDuplicate <==> journal.requests.contains(request_key.0)
            &&& decision is ContinuationDuplicate <==> !journal.requests.contains(request_key.0)
                && plan is ClaimOrCover && journal.continuations.contains(plan->ClaimOrCover_0.key)
            &&& lane is Claim <==> decision is Fresh && plan is ClaimOrCover
            &&& lane is Claim ==> lane->key == plan->ClaimOrCover_0.key
                && lane->expiry_bucket_ordinal == plan->ClaimOrCover_0.expiry_bucket_ordinal
            &&& entry.request_key == request_key.0
            &&& entry.continuation_lane == lane
            &&& journal.head.committed_sequence < u64::MAX ==> entry.sequence
                == journal.head.committed_sequence + 1
        }),
{
}

/// A transaction has room exactly where fewer transactions were made than the limit allows
/// and the next one has a number; a planned transaction with room is accepted.
pub proof fn transaction_with_room_is_accepted(
    journal: JournalModel,
    request_key: RequestReplayKey,
    plan: ContinuationReplayPlan,
)
    ensures
        capacity_error(journal) is None <==> journal.head.committed_sequence
            < journal.head.max_transactions,
        capacity_error(journal) is Some && journal.head.committed_sequence < u64::MAX
            ==> capacity_error(journal)
            == Some(ReplayJournalStoreError::TransactionCapacityExceeded),
        journal.head.committed_sequence == u64::MAX ==> capacity_error(journal) == Some(
            ReplayJournalStoreError::SequenceOverflow,
        ),
        journal.head.committed_sequence < journal.head.max_transactions
            && journal.head.claimed_continuation_count <= journal.head.claimed_request_count
            && journal.head.claimed_request_count <= journal.head.committed_sequence
            ==> journal_error(journal, planned_entry(journal, request_key, plan)) is None,
{
}

/// After an entry the journal's claims are those before and the entry's own.
pub proof fn journal_gains_the_entry(
    journal: JournalModel,
    entry: ReplayJournalEntry,
    key: [u8; REPLAY_RECORD_KEY_BYTES],
)
    requires
        journal_error(journal, entry) is None,
    ensures
        journal_after(journal, entry).requests.contains(key) <==> journal.requests.contains(key)
            || key == entry.request_key,
        journal_after(journal, entry).continuations.contains(key)
            <==> journal.continuations.contains(key) || entry.continuation_lane is Claim && key
            == entry.continuation_lane->key,
        journal_after(journal, entry).head.committed_sequence == journal.head.committed_sequence
            + 1,
        journal_after(journal, entry).head.max_transactions == journal.head.max_transactions,
        journal_after(journal, entry).head.profile_id == journal.head.profile_id,
        journal_after(journal, entry).head.watermark == journal.head.watermark,
{
}

/// A journal that is rebuilt holds exactly the requests of its entries, and exactly the
/// continuations that they claim; the entries are numbered from one on without a gap, and
/// there are no more of them than the limit.
pub proof fn rebuilt_journal_holds_its_entries(
    max_transactions: u64,
    profile_id: Seq<u8>,
    entries: Seq<ReplayJournalEntry>,
)
    requires
        rebuilt(max_transactions, profile_id, entries) is Some,
    ensures
        ({
            let journal = rebuilt(max_transactions, profile_id, entries)->0;
            &&& journal.head.max_transactions == max_transactions
            &&& journal.head.profile_id == profile_id
            &&& journal.head.committed_sequence == entries.len()
            &&& entries.len() <= max_transactions
            &&& journal.head.watermark == 0
            &&& forall|i: int|
                0 <= i < entries.len() ==> (#[trigger] entries[i]).sequence == i + 1
                    && journal.requests.contains(entries[i].request_key)
            &&& forall|i: int|
                0 <= i < entries.len() && (#[trigger] entries[i]).continuation_lane is Claim
                    ==> journal.continuations.contains(entries[i].continuation_lane->key)
            &&& forall|key: [u8; REPLAY_RECORD_KEY_BYTES]| #[trigger]
                journal.requests.contains(key) ==> exists|i: int|
                    0 <= i < entries.len() && (#[trigger] entries[i]).request_key == key
            &&& forall|key: [u8; REPLAY_RECORD_KEY_BYTES]| #[trigger]
                journal.continuations.contains(key) ==> exists|i: int|
                    0 <= i < entries.len() && (#[trigger] entries[i]).continuation_lane is Claim
                        && entries[i].continuation_lane->key == key
        }),
    decreases entries.len(),
{
    if entries.len() > 0 {
        let earlier = entries.drop_last();
        rebuilt_journal_holds_its_entries(max_transactions, profile_id, earlier);
        let before = rebuilt(max_transactions, profile_id, earlier)->0;
        let journal = rebuilt(max_transactions, profile_id, entries)->0;
        let last = entries.len() - 1;
        assert forall|i: int| 0 <= i < entries.len() implies (#[trigger] entries[i]).sequence == i
            + 1 && journal.requests.contains(entries[i].request_key) by {
            if i < last {
                assert(entries[i] == earlier[i]);
            }
        }
        assert forall|i: int|
            0 <= i < entries.len()
                && (#[trigger] entries[i]).continuation_lane is Claim implies journal.continuations.contains(
        entries[i].continuation_lane->key) by {
            if i < last {
                assert(entries[i] == earlier[i]);
            }
        }
        assert forall|key: [u8; REPLAY_RECORD_KEY_BYTES]| #[trigger]
            journal.requests.contains(key) implies exists|i: int|
            0 <= i < entries.len() && (#[trigger] entries[i]).request_key == key by {
            if before.requests.contains(key) {
                let i = choose|i: int|
                    0 <= i < earlier.len() && (#[trigger] earlier[i]).request_key == key;
                assert(entries[i].request_key == key);
            } else {
                assert(entries[last].request_key == key);
            }
        }
        assert forall|key: [u8; REPLAY_RECORD_KEY_BYTES]| #[trigger]
            journal.continuations.contains(key) implies exists|i: int|
            0 <= i < entries.len() && (#[trigger] entries[i]).continuation_lane is Claim
                && entries[i].continuation_lane->key == key by {
            if before.continuations.contains(key) {
                let i = choose|i: int|
                    0 <= i < earlier.len() && (#[trigger] earlier[i]).continuation_lane is Claim
                        && earlier[i].continuation_lane->key == key;
                assert(entries[i].continuation_lane->key == key);
            } else {
                assert(entries[last].continuation_lane->key == key);
            }
        }
    }
}

/// An entry's file is named by twenty decimal digits of its sequence, most significant
/// first, and the suffix.
pub proof fn entry_name_is_its_number(sequence: u64)
    ensures
        entry_name(sequence).len() == 24,
        forall|i: int|
            0 <= i < 20 ==> #[trigger] entry_name(sequence)[i] == 0x30 + sequence as int
                / vstd::arithmetic::power::pow(10, (19 - i) as nat) % 10,
        entry_name(sequence).skip(20) == ENTRY_FILE_SUFFIX@,
{
    lemma_digit_count(sequence as nat, 20);
    assert forall|i: int| 0 <= i < 20 implies #[trigger] entry_name(sequence)[i] == 0x30
        + sequence as int / vstd::arithmetic::power::pow(10, (19 - i) as nat) % 10 by {
        lemma_digit_at(sequence as nat, 20, i);
    }
    assert(entry_name(sequence).skip(20) =~= ENTRY_FILE_SUFFIX@);
}

proof fn lemma_digit_at(value: nat, width: nat, i: int)
    requires
        0 <= i < width,
    ensures
        decimal_digits(value, width).len() == width,
        decimal_digits(value, width)[i] == 0x30 + value as int / vstd::arithmetic::power::pow(
            10,
            (width - 1 - i) as nat,
        ) % 10,
    decreases width,
{
    lemma_digit_count(value, width);
    lemma_digit_count(value / 10, (width - 1) as nat);
    vstd::arithmetic::power::lemma_pow0(10);
    if i < width - 1 {
        lemma_digit_at(value / 10, (width - 1) as nat, i);
        let exponent = (width - 2 - i) as nat;
        vstd::arithmetic::power::lemma_pow_positive(10, exponent);
        vstd::arithmetic::power::lemma_pow_adds(10, 1, exponent);
        vstd::arithmetic::power::lemma_pow1(10);
        vstd::arithmetic::div_mod::lemma_div_denominator(
            value as int,
            10,
            vstd::arithmetic::power::pow(10, exponent),
        );
        assert((1 + exponent) as nat == (width - 1 - i) as nat);
    } else {
        assert((width - 1 - i) as nat == 0);
        assert(value as int / 1 == value);
    }
}

/// A prepared advance is of the head that it was prepared for, raises its watermark, and
/// changes nothing else of it.
pub proof fn prepared_advance_only_raises_the_watermark(
    prepared: PreparedReplayMaintenanceAdvance,
    state: ReplayJournalState,
)
    requires
        prepared.raises(state),
    ensures
        prepared.previous_digest.0@ == crate::replay_journal::head_digest(state@),
        prepared.next_state.maintenance_expiry_bucket_watermark.0
            > state.maintenance_expiry_bucket_watermark.0,
        prepared.next_state.limits == state.limits,
        prepared.next_state.profile_id == state.profile_id,
        prepared.next_state.committed_sequence == state.committed_sequence,
        prepared.next_state.claimed_request_count == state.claimed_request_count,
        prepared.next_state.claimed_continuation_count == state.claimed_continuation_count,
        prepared.next_state.entry_chain_digest == state.entry_chain_digest,
{
}

/// A head is taken from its file exactly where the file is there in full and its record is
/// read; a missing file is no head; every other read is refused by what was wrong with it.
pub proof fn head_is_read_from_a_whole_record<P: ReplayJournalRecordProtector>(
    read: ExactFileRead,
    context: ReplayJournalProtectionContext,
    protector: P,
    result: Result<Option<ReplayJournalState>, ReplayJournalStoreError>,
)
    requires
        head_read_amounts_to(read, context, protector, result),
    ensures
        result is Ok && result->Ok_0 is None <==> read is Missing,
        read is Unreadable <==> result == Err::<Option<ReplayJournalState>, _>(
            ReplayJournalStoreError::CurrentStateUnreadable,
        ),
        read is NotRegular || read is Short || read is Trailing ==> result == Err::<
            Option<ReplayJournalState>,
            _,
        >(ReplayJournalStoreError::CurrentStateCorrupt),
        result matches Ok(Some(state)) ==> read is Exact && read->Exact_0@.len() == 178
            && crate::replay_record::current_record_reads(
            read->Exact_0@,
            context,
            protector,
            Ok(state),
        ),
        result == Err::<Option<ReplayJournalState>, _>(
            ReplayJournalStoreError::CurrentStateAuthenticationFailed,
        ) ==> read is Exact && crate::replay_record::current_record_reads(
            read->Exact_0@,
            context,
            protector,
            Err(ReplayJournalRecordError::AuthenticationFailed),
        ),
        result == Err::<Option<ReplayJournalState>, _>(
            ReplayJournalStoreError::CurrentStateProtectionUnavailable,
        ) ==> read is Exact && crate::replay_record::current_record_reads(
            read->Exact_0@,
            context,
            protector,
            Err(ReplayJournalRecordError::ProtectionUnavailable),
        ),
{
}

/// An entry is taken from its file exactly where the file is there in full, its record is
/// read, and it is of the sequence that the file is named for.
pub proof fn entry_is_read_from_its_own_file<P: ReplayJournalRecordProtector>(
    read: ExactFileRead,
    expected_sequence: u64,
    context: ReplayJournalProtectionContext,
    protector: P,
    result: Result<ReplayJournalEntry, ReplayJournalStoreError>,
)
    requires
        entry_read_amounts_to(read, expected_sequence, context, protector, result),
    ensures
        read is Missing <==> result == Err::<ReplayJournalEntry, _>(
            ReplayJournalStoreError::CommittedEntryMissing,
        ),
        read is Unreadable <==> result == Err::<ReplayJournalEntry, _>(
            ReplayJournalStoreError::CommittedEntryUnreadable,
        ),
        read is NotRegular || read is Short || read is Trailing ==> result == Err::<
            ReplayJournalEntry,
            _,
        >(ReplayJournalStoreError::CommittedEntryCorrupt),
        result matches Ok(entry) ==> entry.sequence == expected_sequence && read is Exact
            && read->Exact_0@.len() == 146 && crate::replay_record::entry_record_reads(
            read->Exact_0@,
            context,
            protector,
            Ok(entry),
        ),
        result == Err::<ReplayJournalEntry, _>(
            ReplayJournalStoreError::CommittedEntryAuthenticationFailed,
        ) ==> read is Exact && crate::replay_record::entry_record_reads(
            read->Exact_0@,
            context,
            protector,
            Err(ReplayJournalRecordError::AuthenticationFailed),
        ),
        result == Err::<ReplayJournalEntry, _>(
            ReplayJournalStoreError::CommittedEntryProtectionUnavailable,
        ) ==> read is Exact && crate::replay_record::entry_record_reads(
            read->Exact_0@,
            context,
            protector,
            Err(ReplayJournalRecordError::ProtectionUnavailable),
        ),
{
}

/// A path that is not a real directory is told apart from one that could not be made; and a
/// transition that is refused for want of room or of numbers is told apart from one that
/// does not fit the journal.
pub proof fn storage_faults_are_told_apart(
    directory: RealDirectoryError,
    transition: ReplayJournalTransitionError,
)
    ensures
        replay_directory_error(directory) is UnsafeRecoveryPath <==> directory is UnsafePath,
        replay_directory_error(directory) is LocalStageUnavailable <==> directory is Io,
        prepare_transition_error(transition) is TransactionCapacityExceeded
            <==> transition is TransactionCapacityExceeded,
        prepare_transition_error(transition) is SequenceOverflow
            <==> transition is SequenceOverflow,
        !(transition is TransactionCapacityExceeded) && !(transition is SequenceOverflow)
            ==> prepare_transition_error(transition) is CurrentStateMismatch,
{
}

/// A file that is there in full but is not as wide as its record, or whose record is refused
/// for anything but its protection, is corrupt.
pub proof fn malformed_files_are_corrupt<P: ReplayJournalRecordProtector>(
    read: ExactFileRead,
    expected_sequence: u64,
    context: ReplayJournalProtectionContext,
    protector: P,
    head: Result<Option<ReplayJournalState>, ReplayJournalStoreError>,
    entry: Result<ReplayJournalEntry, ReplayJournalStoreError>,
)
    requires
        read is Exact,
        head_read_amounts_to(read, context, protector, head),
        entry_read_amounts_to(read, expected_sequence, context, protector, entry),
    ensures
        read->Exact_0@.len() != 178 ==> head is Err && head->Err_0 is CurrentStateCorrupt,
        read->Exact_0@.len() != 146 ==> entry is Err && entry->Err_0 is CommittedEntryCorrupt,
        head is Err ==> head->Err_0 is CurrentStateCorrupt || head->Err_0
            is CurrentStateAuthenticationFailed || head->Err_0 is CurrentStateProtectionUnavailable,
        entry is Err ==> entry->Err_0 is CommittedEntryCorrupt || entry->Err_0
            is CommittedEntryAuthenticationFailed || entry->Err_0
            is CommittedEntryProtectionUnavailable,
        read->Exact_0@.len() == 178 && head is Err && head->Err_0 is CurrentStateCorrupt ==> exists|
            fault: ReplayJournalRecordError,
        | #[trigger]
            crate::replay_record::current_record_reads(
                read->Exact_0@,
                context,
                protector,
                Err(fault),
            ) && !(fault is AuthenticationFailed) && !(fault is ProtectionUnavailable),
        read->Exact_0@.len() == 146 && entry is Err && entry->Err_0 is CommittedEntryCorrupt ==> (
        exists|fault: ReplayJournalRecordError| #[trigger]
            crate::replay_record::entry_record_reads(
                read->Exact_0@,
                context,
                protector,
                Err(fault),
            ) && !(fault is AuthenticationFailed) && !(fault is ProtectionUnavailable)) || (exists|
            other: ReplayJournalEntry,
        | #[trigger]
            crate::replay_record::entry_record_reads(
                read->Exact_0@,
                context,
                protector,
                Ok(other),
            ) && other.sequence != expected_sequence),
{
    let bytes = read->Exact_0@;
    if bytes.len() == CURRENT_RECORD_BYTES {
        let record = choose|record: Result<ReplayJournalState, ReplayJournalRecordError>| #[trigger]
            crate::replay_record::current_record_reads(bytes, context, protector, record) && head
                == match record {
                Ok(state) => Ok(Some(state)),
                Err(ReplayJournalRecordError::AuthenticationFailed) => Err(
                    ReplayJournalStoreError::CurrentStateAuthenticationFailed,
                ),
                Err(ReplayJournalRecordError::ProtectionUnavailable) => Err(
                    ReplayJournalStoreError::CurrentStateProtectionUnavailable,
                ),
                Err(_) => Err(ReplayJournalStoreError::CurrentStateCorrupt),
            };
        if record is Err {
            assert(crate::replay_record::current_record_reads(
                bytes,
                context,
                protector,
                Err(record->Err_0),
            ));
        }
    }
    if bytes.len() == ENTRY_RECORD_BYTES {
        let record = choose|record: Result<ReplayJournalEntry, ReplayJournalRecordError>| #[trigger]
            crate::replay_record::entry_record_reads(bytes, context, protector, record) && entry
                == match record {
                Ok(found) => if found.sequence == expected_sequence {
                    Ok(found)
                } else {
                    Err(ReplayJournalStoreError::CommittedEntryCorrupt)
                },
                Err(ReplayJournalRecordError::AuthenticationFailed) => Err(
                    ReplayJournalStoreError::CommittedEntryAuthenticationFailed,
                ),
                Err(ReplayJournalRecordError::ProtectionUnavailable) => Err(
                    ReplayJournalStoreError::CommittedEntryProtectionUnavailable,
                ),
                Err(_) => Err(ReplayJournalStoreError::CommittedEntryCorrupt),
            };
        if record is Err {
            assert(crate::replay_record::entry_record_reads(
                bytes,
                context,
                protector,
                Err(record->Err_0),
            ));
        } else {
            assert(crate::replay_record::entry_record_reads(
                bytes,
                context,
                protector,
                Ok(record->Ok_0),
            ));
        }
    }
}

/// The suffix of an entry's file, in plain letters.
pub proof fn entry_suffix_is_in_plain_letters()
    ensures
        ENTRY_FILE_SUFFIX@.map_values(|byte: u8| byte as char)
            == ".bin"@,
{
    reveal_strlit(".bin");
    assert(ENTRY_FILE_SUFFIX@.map_values(|byte: u8| byte as char)
        =~= ".bin"@);
}

/// Two stores are the same but for their files exactly where every other part of them is.
pub proof fn stores_differ_in_files_alone<F, P>(
    left: ReplayJournalStore<F, P>,
    right: ReplayJournalStore<F, P>,
)
    ensures
        left.same_but_files(right) <==> {
            &&& left.state == right.state
            &&& left.request_claims == right.request_claims
            &&& left.continuation_claims == right.continuation_claims
            &&& left.history == right.history
            &&& left.health == right.health
            &&& left.protector == right.protector
            &&& left.protection_context == right.protection_context
            &&& left.instance_identity == right.instance_identity
        },
        left.same_contents(right) <==> {
            &&& left.state == right.state
            &&& left.request_claims == right.request_claims
            &&& left.continuation_claims == right.continuation_claims
            &&& left.history == right.history
            &&& left.protector == right.protector
            &&& left.protection_context == right.protection_context
            &&& left.instance_identity == right.instance_identity
        },
{
}

} // verus!
