//! Decisions of one query round.
//!
//! Each decision is a function of what the round has learned so far. A round
//! does the same work whatever it decides; only what its response says depends
//! on the decisions.

use crate::bytes::arrays_equal;
use crate::continuation::ContinuationUse;
use crate::failure::UniformExternalFailure;
use crate::profile::PrivacyProfile;
use crate::records::recent_snapshot_identity;
use crate::records::PrivateQueryCheckpoint;
use crate::records::QueryOutcome;
use crate::records::RecentSnapshotIdentity;
use crate::records::UtxoQuery;
use crate::records::UtxoResultPage;
use crate::runtime_security::ENVELOPE_NONCE_BYTES;
use crate::security_state::PROFILE_ID_BYTES;
use vstd::prelude::*;

verus! {

pub const CONTINUATION_TOKEN_BYTES: usize = 128;

pub const CONTINUATION_VERSION: u16 = 1;

/// Why a message could not be encoded or decoded.
#[derive(Debug, Clone, Copy, PartialEq, Eq, Structural)]
pub enum InnerCodecError {
    /// The protection provider could not do its work.
    ProtectionUnavailable,
    /// The message does not authenticate.
    AuthenticationFailed,
    /// The message authenticates but is not in its one canonical form.
    NonCanonical,
    /// The message does not fit the profile's fixed shape.
    InvalidShape,
}

impl InnerCodecError {
    /// What a caller sees of it.
    pub fn into_uniform_external_failure(self) -> (failure: UniformExternalFailure)
        ensures
            failure == UniformExternalFailure,
    {
        UniformExternalFailure
    }
}

/// Opaque continuation token.
#[derive(Clone, Copy, PartialEq, Eq)]
pub struct ContinuationToken(pub [u8; CONTINUATION_TOKEN_BYTES]);

impl ContinuationToken {
    pub fn from_opaque_bytes(bytes: [u8; CONTINUATION_TOKEN_BYTES]) -> (token: Self)
        ensures
            token.0 == bytes,
    {
        ContinuationToken(bytes)
    }

    pub fn opaque_bytes(&self) -> (bytes: &[u8; CONTINUATION_TOKEN_BYTES])
        ensures
            *bytes == self.0,
    {
        &self.0
    }
}

/// What a token's protection authenticates.
#[derive(Clone, PartialEq, Eq)]
pub struct ContinuationProtectionContext(pub Vec<u8>);

impl ContinuationProtectionContext {
    /// Redacted rendering for logs.
    pub fn debug_text(&self) -> (text: &'static str)
        ensures
            text@ == "ContinuationProtectionContext { ..REDACTED.. }"@,
    {
        "ContinuationProtectionContext { ..REDACTED.. }"
    }
}

/// One decoded request with the nonce it was protected under.
#[derive(Clone, Copy, PartialEq, Eq)]
pub struct DecodedRequest {
    pub checkpoint: PrivateQueryCheckpoint,
    pub query: UtxoQuery,
    pub continuation: Option<ContinuationToken>,
    pub nonce: [u8; ENVELOPE_NONCE_BYTES],
}

/// What a presented token has to match.
#[derive(Clone, Copy, PartialEq, Eq)]
pub struct ContinuationExpectation {
    pub version: u16,
    pub profile_id: [u8; PROFILE_ID_BYTES],
    pub query_digest: [u8; 32],
    pub projection_epoch: u64,
    pub now_unix_seconds: u64,
    pub cursor_limit: u64,
}

/// What an issued token says.
#[derive(Clone, Copy, PartialEq, Eq)]
pub struct ContinuationState {
    pub version: u16,
    pub profile_id: [u8; PROFILE_ID_BYTES],
    pub query_digest: [u8; 32],
    pub projection_epoch: u64,
    pub cursor: u64,
    pub expires_at_unix_seconds: u64,
    pub nonce: [u8; ENVELOPE_NONCE_BYTES],
}

/// One finished engine execution.
#[derive(Clone, PartialEq, Eq)]
pub struct EngineExecution {
    pub page: UtxoResultPage,
    /// Where the scan would go on, if it stopped early.
    pub next_cursor: Option<usize>,
    /// Store reads that the execution made.
    pub store_reads: usize,
}

/// One response, before it is protected.
#[derive(Clone, PartialEq, Eq)]
pub struct PrivateQueryResponse {
    pub checkpoint: PrivateQueryCheckpoint,
    pub page: UtxoResultPage,
    pub has_more: bool,
    pub continuation: Option<ContinuationToken>,
}

impl PrivateQueryResponse {
    /// Accepts a continuation exactly where there is more.
    pub fn new(
        checkpoint: PrivateQueryCheckpoint,
        page: UtxoResultPage,
        has_more: bool,
        continuation: Option<ContinuationToken>,
    ) -> (result: Result<Self, InnerCodecError>)
        ensures
            result == if has_more == (continuation is Some) {
                Ok((PrivateQueryResponse { checkpoint, page, has_more, continuation }))
            } else {
                Err(InnerCodecError::InvalidShape)
            },
    {
        if has_more != continuation.is_some() {
            return Err(InnerCodecError::InvalidShape);
        }
        Ok(PrivateQueryResponse { checkpoint, page, has_more, continuation })
    }
}

/// Limits of one round's continuation.
#[derive(Debug, Clone, Copy, PartialEq, Eq, Structural)]
pub struct RoundPlan {
    /// Positions that a cursor may name.
    pub cursor_limit: u64,
    /// Expiry of a continuation that starts in this round.
    pub initial_expiry: u64,
}

/// The plan of a round at a time, unless a number does not fit.
pub open spec fn planned_round(profile: PrivacyProfile, now_unix_seconds: u64) -> Option<RoundPlan> {
    let slots = profile.store_reads + profile.recent_snapshot_slots;
    let expiry = now_unix_seconds + profile.continuation_ttl_seconds;
    if slots <= usize::MAX && expiry <= u64::MAX {
        Some(RoundPlan { cursor_limit: slots as u64, initial_expiry: expiry as u64 })
    } else {
        None
    }
}

pub fn plan_round(profile: &PrivacyProfile, now_unix_seconds: u64) -> (plan: Option<RoundPlan>)
    ensures
        plan == planned_round(*profile, now_unix_seconds),
        plan matches Some(plan) ==> plan.initial_expiry == now_unix_seconds
            + profile.continuation_ttl_seconds && plan.cursor_limit == profile.store_reads
            + profile.recent_snapshot_slots,
{
    let cursor_limit: u64 = match profile.combined_scan_slots() {
        Ok(slots) => slots as u64,
        Err(_) => {
            return None;
        },
    };
    let initial_expiry: u64 = match now_unix_seconds.checked_add(
        profile.continuation_ttl_seconds(),
    ) {
        Some(expiry) => expiry,
        None => {
            return None;
        },
    };
    Some(RoundPlan { cursor_limit, initial_expiry })
}

/// What a presented token has to match in a planned round.
pub fn continuation_expectation(
    profile: &PrivacyProfile,
    query_digest: [u8; 32],
    checkpoint: &PrivateQueryCheckpoint,
    now_unix_seconds: u64,
    cursor_limit: u64,
) -> (expectation: ContinuationExpectation)
    ensures
        expectation == expected_continuation(
            *profile,
            query_digest,
            *checkpoint,
            now_unix_seconds,
            cursor_limit,
        ),
{
    ContinuationExpectation {
        version: CONTINUATION_VERSION,
        profile_id: *profile.profile_id(),
        query_digest,
        projection_epoch: checkpoint.projection_epoch,
        now_unix_seconds,
        cursor_limit,
    }
}

pub open spec fn expected_continuation(
    profile: PrivacyProfile,
    query_digest: [u8; 32],
    checkpoint: PrivateQueryCheckpoint,
    now_unix_seconds: u64,
    cursor_limit: u64,
) -> ContinuationExpectation {
    ContinuationExpectation {
        version: CONTINUATION_VERSION,
        profile_id: profile.profile_id,
        query_digest,
        projection_epoch: checkpoint.projection_epoch,
        now_unix_seconds,
        cursor_limit,
    }
}

/// Where a round starts, and what its continuation says against it.
#[derive(Debug, Clone, Copy, PartialEq, Eq, Structural)]
pub struct RoundReadiness {
    pub cursor: usize,
    pub continuation_expiry: u64,
    pub invalid_continuation: bool,
    pub request_duplicate: bool,
    pub token_protection_unavailable: bool,
}

/// Readiness that a continuation leads to, unless its cursor does not fit.
pub open spec fn readiness_of(
    continuation_use: ContinuationUse,
    initial_expiry: u64,
) -> Option<RoundReadiness> {
    let initial = RoundReadiness {
        cursor: 0,
        continuation_expiry: initial_expiry,
        invalid_continuation: false,
        request_duplicate: false,
        token_protection_unavailable: false,
    };
    match continuation_use {
        ContinuationUse::Initial => Some(initial),
        ContinuationUse::Continue { cursor, expires_at_unix_seconds } => if cursor <= usize::MAX {
            Some(
                RoundReadiness {
                    cursor: cursor as usize,
                    continuation_expiry: expires_at_unix_seconds,
                    ..initial
                },
            )
        } else {
            None
        },
        ContinuationUse::InvalidContinuation => Some(
            RoundReadiness { invalid_continuation: true, ..initial },
        ),
        ContinuationUse::ProjectionNotReady => Some(
            RoundReadiness { request_duplicate: true, ..initial },
        ),
        ContinuationUse::ProtectionUnavailable => Some(
            RoundReadiness { token_protection_unavailable: true, ..initial },
        ),
    }
}

pub fn select_readiness(continuation_use: ContinuationUse, initial_expiry: u64) -> (readiness:
    Option<RoundReadiness>)
    ensures
        readiness == readiness_of(continuation_use, initial_expiry),
{
    let mut readiness = RoundReadiness {
        cursor: 0,
        continuation_expiry: initial_expiry,
        invalid_continuation: false,
        request_duplicate: false,
        token_protection_unavailable: false,
    };
    match continuation_use {
        ContinuationUse::Initial => {},
        ContinuationUse::Continue { cursor, expires_at_unix_seconds } => {
            if cursor > usize::MAX as u64 {
                return None;
            }
            readiness.cursor = cursor as usize;
            readiness.continuation_expiry = expires_at_unix_seconds;
        },
        ContinuationUse::InvalidContinuation => {
            readiness.invalid_continuation = true;
        },
        ContinuationUse::ProjectionNotReady => {
            readiness.request_duplicate = true;
        },
        ContinuationUse::ProtectionUnavailable => {
            readiness.token_protection_unavailable = true;
        },
    }
    Some(readiness)
}

/// What a scanned recent snapshot was frozen as.
#[derive(Clone, Copy, PartialEq, Eq)]
pub struct SnapshotScan {
    pub slots: usize,
    pub identity: RecentSnapshotIdentity,
    pub content_digest: [u8; 32],
    pub binding_digest: [u8; 32],
}

/// A scan of this shape, of this checkpoint, with these digests.
pub open spec fn scan_matches(
    scan: SnapshotScan,
    slots: usize,
    checkpoint: PrivateQueryCheckpoint,
    content_digest: [u8; 32],
    binding_digest: [u8; 32],
) -> bool {
    &&& scan.slots == slots
    &&& scan.identity == crate::records::identity_of(checkpoint)
    &&& scan.content_digest == content_digest
    &&& scan.binding_digest == binding_digest
}

/// Whether a scanned snapshot is still the one that the epoch was pinned to.
pub fn snapshot_is_unchanged(
    scan: &SnapshotScan,
    slots: usize,
    checkpoint: &PrivateQueryCheckpoint,
    content_digest: &[u8; 32],
    binding_digest: &[u8; 32],
) -> (unchanged: bool)
    ensures
        unchanged == scan_matches(*scan, slots, *checkpoint, *content_digest, *binding_digest),
{
    let identity = recent_snapshot_identity(checkpoint);
    scan.slots == slots && scan.identity.same(&identity) && arrays_equal(
        &scan.content_digest,
        content_digest,
    ) && arrays_equal(&scan.binding_digest, binding_digest)
}

/// Everything that decides what a response says.
#[derive(Debug, Clone, Copy, PartialEq, Eq, Structural)]
pub struct RoundFacts {
    /// The runtime was healthy when the round's readiness was selected.
    pub was_healthy: bool,
    /// The request was made for the serving checkpoint.
    pub checkpoint_matches: bool,
    /// The replay transaction was not committed.
    pub replay_unavailable: bool,
    pub invalid_continuation: bool,
    pub request_duplicate: bool,
    pub token_protection_unavailable: bool,
    /// A snapshot slot could not be read, or the snapshot changed.
    pub recent_snapshot_failed: bool,
    pub engine_outcome: QueryOutcome,
}

/// The query cannot be served now, for a reason other than the store.
pub open spec fn round_is_not_ready(facts: RoundFacts) -> bool {
    ||| facts.engine_outcome is ProjectionNotReady
    ||| facts.recent_snapshot_failed
    ||| !facts.was_healthy
    ||| !facts.checkpoint_matches
    ||| facts.request_duplicate
    ||| facts.replay_unavailable
    ||| facts.token_protection_unavailable
}

/// Outcome that a response reports: a store failure before anything else, then
/// unreadiness, then an invalid continuation, then what the engine found.
pub open spec fn reported_outcome(facts: RoundFacts) -> QueryOutcome {
    if facts.engine_outcome is StoreFailure {
        QueryOutcome::StoreFailure
    } else if round_is_not_ready(facts) {
        QueryOutcome::ProjectionNotReady
    } else if facts.invalid_continuation {
        QueryOutcome::InvalidContinuation
    } else {
        facts.engine_outcome
    }
}

pub fn protected_outcome(facts: &RoundFacts) -> (outcome: QueryOutcome)
    ensures
        outcome == reported_outcome(*facts),
{
    if facts.engine_outcome == QueryOutcome::StoreFailure {
        QueryOutcome::StoreFailure
    } else if facts.engine_outcome == QueryOutcome::ProjectionNotReady
        || facts.recent_snapshot_failed || !facts.was_healthy || !facts.checkpoint_matches
        || facts.request_duplicate || facts.replay_unavailable
        || facts.token_protection_unavailable {
        QueryOutcome::ProjectionNotReady
    } else if facts.invalid_continuation {
        QueryOutcome::InvalidContinuation
    } else {
        facts.engine_outcome
    }
}

/// Facts after which the runtime serves no further request.
pub open spec fn round_degrades(facts: RoundFacts) -> bool {
    ||| facts.replay_unavailable
    ||| facts.token_protection_unavailable
    ||| facts.engine_outcome is StoreFailure
    ||| facts.engine_outcome is ProjectionNotReady
    ||| facts.recent_snapshot_failed
}

pub fn degrades(facts: &RoundFacts) -> (degrades: bool)
    ensures
        degrades == round_degrades(*facts),
{
    facts.replay_unavailable || facts.token_protection_unavailable || facts.engine_outcome
        == QueryOutcome::StoreFailure || facts.engine_outcome == QueryOutcome::ProjectionNotReady
        || facts.recent_snapshot_failed
}

/// Outcomes whose response carries no result.
pub open spec fn outcome_is_masked(outcome: QueryOutcome) -> bool {
    outcome is StoreFailure || outcome is ProjectionNotReady || outcome is InvalidContinuation
}

/// The page as a response with this outcome carries it.
pub open spec fn masks(
    page: UtxoResultPage,
    outcome: QueryOutcome,
    slot_count: usize,
    masked: UtxoResultPage,
) -> bool {
    &&& masked.outcome == outcome
    &&& if outcome_is_masked(outcome) {
        masked.all_dummy() && masked.slots@.len() == slot_count
    } else {
        masked.slots == page.slots
    }
}

/// Hides every result of a page whose outcome carries none.
pub fn protect_page(page: UtxoResultPage, outcome: QueryOutcome, slot_count: usize) -> (masked:
    UtxoResultPage)
    ensures
        masks(page, outcome, slot_count, masked),
{
    let mut masked = match outcome {
        QueryOutcome::StoreFailure
        | QueryOutcome::ProjectionNotReady
        | QueryOutcome::InvalidContinuation => UtxoResultPage::empty(slot_count),
        _ => page,
    };
    masked.set_outcome(outcome);
    masked
}

/// What the round's token says, whether or not it is handed out.
pub open spec fn issued_state(
    profile: PrivacyProfile,
    query_digest: [u8; 32],
    checkpoint: PrivateQueryCheckpoint,
    next_cursor: Option<usize>,
    continuation_expiry: u64,
    token_nonce: [u8; ENVELOPE_NONCE_BYTES],
) -> ContinuationState {
    ContinuationState {
        version: CONTINUATION_VERSION,
        profile_id: profile.profile_id,
        query_digest,
        projection_epoch: checkpoint.projection_epoch,
        cursor: match next_cursor {
            Some(cursor) => cursor as u64,
            None => 1,
        },
        expires_at_unix_seconds: continuation_expiry,
        nonce: token_nonce,
    }
}

pub fn issue_state(
    profile: &PrivacyProfile,
    query_digest: [u8; 32],
    checkpoint: &PrivateQueryCheckpoint,
    next_cursor: Option<usize>,
    continuation_expiry: u64,
    token_nonce: [u8; ENVELOPE_NONCE_BYTES],
) -> (state: ContinuationState)
    ensures
        state == issued_state(
            *profile,
            query_digest,
            *checkpoint,
            next_cursor,
            continuation_expiry,
            token_nonce,
        ),
{
    let cursor: u64 = match next_cursor {
        Some(cursor) => cursor as u64,
        None => 1,
    };
    ContinuationState {
        version: CONTINUATION_VERSION,
        profile_id: *profile.profile_id(),
        query_digest,
        projection_epoch: checkpoint.projection_epoch,
        cursor,
        expires_at_unix_seconds: continuation_expiry,
        nonce: token_nonce,
    }
}

/// The response of a round: the masked page, and the issued token exactly where
/// the result budget was exceeded.
pub open spec fn responds(
    checkpoint: PrivateQueryCheckpoint,
    page: UtxoResultPage,
    outcome: QueryOutcome,
    slot_count: usize,
    issued: ContinuationToken,
    response: PrivateQueryResponse,
) -> bool {
    &&& response.checkpoint == checkpoint
    &&& masks(page, outcome, slot_count, response.page)
    &&& response.has_more == (outcome is ResultBudgetExceeded)
    &&& response.continuation == if outcome is ResultBudgetExceeded {
        Some(issued)
    } else {
        None
    }
}

pub fn compose_response(
    checkpoint: PrivateQueryCheckpoint,
    page: UtxoResultPage,
    outcome: QueryOutcome,
    slot_count: usize,
    issued: ContinuationToken,
) -> (result: Result<PrivateQueryResponse, InnerCodecError>)
    ensures
        result matches Ok(response) && responds(
            checkpoint,
            page,
            outcome,
            slot_count,
            issued,
            response,
        ),
{
    let masked = protect_page(page, outcome, slot_count);
    let has_more = outcome == QueryOutcome::ResultBudgetExceeded;
    let continuation = if has_more {
        Some(issued)
    } else {
        None
    };
    PrivateQueryResponse::new(checkpoint, masked, has_more, continuation)
}

/// A failing store is reported whatever else went wrong; unreadiness hides
/// whether the continuation was valid; and only a served query says what the
/// engine found.
pub proof fn outcome_precedence(facts: RoundFacts)
    ensures
        facts.engine_outcome is StoreFailure ==> reported_outcome(facts) is StoreFailure,
        !(facts.engine_outcome is StoreFailure) && round_is_not_ready(facts)
            ==> reported_outcome(facts) is ProjectionNotReady,
        !outcome_is_masked(reported_outcome(facts)) ==> reported_outcome(facts)
            == facts.engine_outcome && facts.was_healthy && facts.checkpoint_matches
            && !facts.request_duplicate && !facts.invalid_continuation && !round_degrades(facts),
{
}

/// A response carries a result or a continuation only where the round could be
/// served: a masked outcome hides every slot and every token.
pub proof fn masked_response_reveals_nothing(
    checkpoint: PrivateQueryCheckpoint,
    page: UtxoResultPage,
    outcome: QueryOutcome,
    slot_count: usize,
    issued: ContinuationToken,
    response: PrivateQueryResponse,
)
    requires
        outcome_is_masked(outcome),
        responds(checkpoint, page, outcome, slot_count, issued, response),
    ensures
        response.page.all_dummy(),
        response.page.slots@.len() == slot_count,
        response.page.outcome == outcome,
        !response.has_more,
        response.continuation is None,
{
}

/// A planned round lets a continuation live for exactly the profile's lifetime from the
/// second it was observed in, and lets a cursor name the store's positions and then the
/// recent snapshot's. It is refused only where one of the two sums has no number.
pub proof fn plan_follows_the_profile(profile: PrivacyProfile, now_unix_seconds: u64)
    ensures
        planned_round(profile, now_unix_seconds) matches Some(plan) ==> {
            &&& plan.initial_expiry - now_unix_seconds == profile.continuation_ttl_seconds
            &&& plan.cursor_limit - profile.store_reads == profile.recent_snapshot_slots
        },
        planned_round(profile, now_unix_seconds) is None ==> profile.continuation_ttl_seconds
            > u64::MAX - now_unix_seconds || profile.recent_snapshot_slots > usize::MAX
            - profile.store_reads,
        profile.continuation_ttl_seconds > u64::MAX - now_unix_seconds ==> planned_round(
            profile,
            now_unix_seconds,
        ) is None,
        profile.recent_snapshot_slots > usize::MAX - profile.store_reads ==> planned_round(
            profile,
            now_unix_seconds,
        ) is None,
{
}

/// A later round is planned with an expiry that is later by as many seconds, and with the
/// same positions.
pub proof fn plans_move_with_the_clock(profile: PrivacyProfile, earlier: u64, later: u64)
    requires
        planned_round(profile, earlier) is Some,
        planned_round(profile, later) is Some,
    ensures
        planned_round(profile, later)->0.initial_expiry - planned_round(
            profile,
            earlier,
        )->0.initial_expiry == later - earlier,
        planned_round(profile, later)->0.cursor_limit == planned_round(
            profile,
            earlier,
        )->0.cursor_limit,
{
}

/// What a round says in its token is what a later round of the same profile, query and
/// projection epoch expects: the two agree in everything but the time and the cursor, and
/// differ wherever the query or the projection epoch does.
pub proof fn issued_state_is_expected_of_its_own_query(
    profile: PrivacyProfile,
    query_digest: [u8; 32],
    checkpoint: PrivateQueryCheckpoint,
    next_cursor: Option<usize>,
    continuation_expiry: u64,
    token_nonce: [u8; ENVELOPE_NONCE_BYTES],
    later_profile: PrivacyProfile,
    later_digest: [u8; 32],
    later_checkpoint: PrivateQueryCheckpoint,
    now_unix_seconds: u64,
    cursor_limit: u64,
)
    ensures
        ({
            let state = issued_state(
                profile,
                query_digest,
                checkpoint,
                next_cursor,
                continuation_expiry,
                token_nonce,
            );
            let expectation = expected_continuation(
                later_profile,
                later_digest,
                later_checkpoint,
                now_unix_seconds,
                cursor_limit,
            );
            &&& state.version == 1 && expectation.version == 1
            &&& state.profile_id == expectation.profile_id <==> profile.profile_id
                == later_profile.profile_id
            &&& state.query_digest == expectation.query_digest <==> query_digest == later_digest
            &&& state.projection_epoch == expectation.projection_epoch
                <==> checkpoint.projection_epoch == later_checkpoint.projection_epoch
            &&& expectation.profile_id == later_profile.profile_id
            &&& expectation.query_digest == later_digest
            &&& expectation.projection_epoch == later_checkpoint.projection_epoch
            &&& expectation.now_unix_seconds == now_unix_seconds
            &&& expectation.cursor_limit == cursor_limit
            &&& state.expires_at_unix_seconds == continuation_expiry
            &&& state.nonce == token_nonce
            &&& state.cursor > 0 || next_cursor == Some(0usize)
            &&& next_cursor matches Some(cursor) ==> state.cursor == cursor
            &&& next_cursor is None ==> state.cursor == 1
        }),
{
}

/// Only a request that carries on starts anywhere but at the first position, or ends at any
/// other time than a new one; and each of the three ways of being refused is marked by one
/// sign of its own.
pub proof fn readiness_keeps_what_the_continuation_says(
    continuation_use: ContinuationUse,
    initial_expiry: u64,
)
    ensures
        readiness_of(continuation_use, initial_expiry) is None ==> continuation_use is Continue
            && continuation_use->cursor > usize::MAX,
        continuation_use is Continue && continuation_use->cursor > usize::MAX ==> readiness_of(
            continuation_use,
            initial_expiry,
        ) is None,
        readiness_of(continuation_use, initial_expiry) matches Some(readiness) ==> {
            &&& continuation_use is Continue ==> readiness.cursor == continuation_use->cursor
                && readiness.continuation_expiry == continuation_use->expires_at_unix_seconds
            &&& !(continuation_use is Continue) ==> readiness.cursor == 0
                && readiness.continuation_expiry == initial_expiry
            &&& readiness.invalid_continuation <==> continuation_use is InvalidContinuation
            &&& readiness.request_duplicate <==> continuation_use is ProjectionNotReady
            &&& readiness.token_protection_unavailable
                <==> continuation_use is ProtectionUnavailable
        },
{
}

/// A snapshot is unchanged exactly where it has the given slots and digests, and was frozen
/// over the checkpoint's network, block, schema and epochs.
pub proof fn unchanged_snapshot_is_of_the_checkpoint(
    scan: SnapshotScan,
    slots: usize,
    checkpoint: PrivateQueryCheckpoint,
    content_digest: [u8; 32],
    binding_digest: [u8; 32],
)
    ensures
        scan_matches(scan, slots, checkpoint, content_digest, binding_digest) <==> {
            &&& scan.slots == slots
            &&& scan.content_digest == content_digest
            &&& scan.binding_digest == binding_digest
            &&& scan.identity.finalized_height == checkpoint.height
            &&& scan.identity.finalized_hash_display == checkpoint.block_hash_display
            &&& scan.identity.schema_version == checkpoint.schema_version
            &&& scan.identity.projection_epoch == checkpoint.projection_epoch
            &&& scan.identity.key_epoch == checkpoint.key_epoch
            &&& checkpoint.network is Mainnet ==> scan.identity.network_tag == 0
            &&& checkpoint.network is Testnet ==> scan.identity.network_tag == 1
            &&& checkpoint.network is Regtest ==> scan.identity.network_tag == 2
        },
{
}

/// A response reports what the engine found exactly where nothing stands against the round:
/// it was healthy, of the serving checkpoint, neither a duplicate nor an invalid
/// continuation, with its replay committed, its token protection and its snapshot there.
/// A failing store comes before everything, and an invalid continuation after everything.
pub proof fn outcome_is_decided_by_the_facts(facts: RoundFacts)
    ensures
        reported_outcome(facts) is StoreFailure <==> facts.engine_outcome is StoreFailure,
        reported_outcome(facts) is ProjectionNotReady <==> !(facts.engine_outcome is StoreFailure)
            && (facts.engine_outcome is ProjectionNotReady || facts.recent_snapshot_failed
            || !facts.was_healthy || !facts.checkpoint_matches || facts.request_duplicate
            || facts.replay_unavailable || facts.token_protection_unavailable),
        facts.engine_outcome is Complete || facts.engine_outcome is ResultBudgetExceeded
            || facts.engine_outcome is InvalidDomain || facts.engine_outcome is Unclassified ==> {
            &&& reported_outcome(facts) == facts.engine_outcome <==> facts.was_healthy
                && facts.checkpoint_matches && !facts.recent_snapshot_failed
                && !facts.request_duplicate && !facts.replay_unavailable
                && !facts.token_protection_unavailable && !facts.invalid_continuation
        },
        facts.was_healthy && facts.checkpoint_matches && !facts.recent_snapshot_failed
            && !facts.request_duplicate && !facts.replay_unavailable
            && !facts.token_protection_unavailable && facts.invalid_continuation && !(
        facts.engine_outcome is StoreFailure) && !(facts.engine_outcome is ProjectionNotReady)
            ==> reported_outcome(facts) is InvalidContinuation,
        !facts.invalid_continuation && reported_outcome(facts) is InvalidContinuation
            ==> facts.engine_outcome is InvalidContinuation,
{
}

/// A round stops the runtime exactly where a part of the service failed: the replay journal,
/// the token protection, the store, the projection or the snapshot. What the caller sent
/// never does: neither a wrong checkpoint nor a duplicate nor an invalid token.
pub proof fn only_the_service_degrades(facts: RoundFacts)
    ensures
        !facts.replay_unavailable && !facts.token_protection_unavailable
            && !facts.recent_snapshot_failed && !(facts.engine_outcome is StoreFailure) && !(
        facts.engine_outcome is ProjectionNotReady) ==> !round_degrades(facts),
        facts.replay_unavailable ==> round_degrades(facts),
        facts.token_protection_unavailable ==> round_degrades(facts),
        facts.recent_snapshot_failed ==> round_degrades(facts),
        facts.engine_outcome is StoreFailure ==> round_degrades(facts),
        facts.engine_outcome is ProjectionNotReady ==> round_degrades(facts),
{
}

/// A response is of the serving checkpoint and of the reported outcome. It shows the
/// engine's slots, all of them and in place, exactly where the outcome is none of the three
/// that carry no result; there it shows the fixed number of dummies. It carries the issued
/// token exactly where the result budget was exceeded.
pub proof fn response_shows_what_its_outcome_allows(
    checkpoint: PrivateQueryCheckpoint,
    page: UtxoResultPage,
    outcome: QueryOutcome,
    slot_count: usize,
    issued: ContinuationToken,
    response: PrivateQueryResponse,
)
    requires
        responds(checkpoint, page, outcome, slot_count, issued, response),
    ensures
        response.checkpoint == checkpoint,
        response.page.outcome == outcome,
        outcome is Complete || outcome is ResultBudgetExceeded || outcome is InvalidDomain
            || outcome is Unclassified ==> response.page.slots@ == page.slots@,
        outcome is StoreFailure || outcome is ProjectionNotReady || outcome is InvalidContinuation
            ==> response.page.slots@.len() == slot_count && forall|i: int|
            0 <= i < slot_count ==> !((#[trigger] response.page.slots@[i]) is Occupied),
        response.has_more <==> outcome is ResultBudgetExceeded,
        outcome is ResultBudgetExceeded ==> response.continuation == Some(issued),
        !(outcome is ResultBudgetExceeded) ==> response.continuation is None,
{
}

} // verus!
