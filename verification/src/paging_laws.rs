//! What holds of a request and of the requests that continue it.
//!
//! The providers around a runtime may reply anything. Each law names what it takes of
//! them: that tokens open to what was issued, that queries are bound alike, that an engine
//! pages one scan, or that a guard answers from its claims.

use crate::continuation::ContinuationReplayGuard;
use crate::continuation::ContinuationUse;
use crate::profile::CompiledQueryShape;
use crate::profile::PrivacyProfile;
use crate::providers::ContinuationTokenProtector;
use crate::providers::FrozenRecentSnapshot;
use crate::providers::PrivateQueryCodec;
use crate::providers::PrivateQueryEngine;
use crate::records::ResultSlot;
use crate::records::UtxoModel;
use crate::records::UtxoQuery;
use crate::replay_coordinator::ReplaySnapshotCoordinator;
use crate::replay_record::ReplayJournalRecordProtector;
use crate::replay_store::JournalModel;
use crate::replay_store::ReplayJournalFiles;
use crate::replay_store::ReplayJournalStore;
use crate::round::ContinuationExpectation;
use crate::round::ContinuationProtectionContext;
use crate::round::ContinuationState;
use crate::round::ContinuationToken;
use crate::round::EngineExecution;
use crate::round::RoundReadiness;
use crate::runtime::EncodedRuntimeRound;
use crate::runtime::PrivateQueryRuntimeEpoch;
use crate::runtime::RoundTranscript;
use crate::runtime_security::ContinuationReplayPlan;
use crate::runtime_security::ReplayCommitResult;
use crate::runtime_security::ReplayDuplicateDecision;
use crate::runtime_security::RequestReplayKey;
use crate::runtime_security::SecurityRoundCapture;
use crate::runtime_security::ENVELOPE_NONCE_BYTES;
use crate::security_owner::ActiveSecurityLease;
use crate::security_owner::ReplayNamespace;
use crate::security_owner::RoundMaterialSource;
use crate::security_state_store::SecurityFreshnessWitness;
use crate::security_state_store::SecurityStateFiles;
use vstd::prelude::*;

verus! {

/// One round that was completed, with everything that it found and left.
pub struct CompletedRound<
    Q,
    E,
    T,
    R,
    N,
    S,
    C,
    D: FrozenRecentSnapshot,
    const RESPONSE_SLOTS: usize,
    const ENVELOPE_BYTES: usize,
> {
    pub codec: Q,
    pub security: ActiveSecurityLease<E, T, R, N>,
    pub epoch: PrivateQueryRuntimeEpoch<S, C, D>,
    pub envelope: [u8; ENVELOPE_BYTES],
    pub healthy: bool,
    pub transcript: RoundTranscript<E, T, R, N, S, D, ENVELOPE_BYTES>,
    pub healthy_after: bool,
    pub round: EncodedRuntimeRound<ENVELOPE_BYTES>,
}

/// What a token says is what a request expects of it: it is of the same profile, query and
/// projection, it has not expired, and its cursor is a later position of the scan.
pub open spec fn token_is_expected(
    state: ContinuationState,
    expectation: ContinuationExpectation,
) -> bool {
    &&& state.version == expectation.version
    &&& state.profile_id == expectation.profile_id
    &&& state.query_digest == expectation.query_digest
    &&& state.projection_epoch == expectation.projection_epoch
    &&& expectation.now_unix_seconds < state.expires_at_unix_seconds
    &&& 0 < state.cursor < expectation.cursor_limit
}

/// The opener opens every expected token of the issuer to what it says, unless it is
/// unavailable.
pub open spec fn opens_tokens_of<T: ContinuationTokenProtector>(issuer: T, opener: T) -> bool {
    forall|
        state: ContinuationState,
        context: ContinuationProtectionContext,
        issued: T,
        token: ContinuationToken,
        opening_context: ContinuationProtectionContext,
        expectation: ContinuationExpectation,
        namespace: ReplayNamespace,
        request_nonce: [u8; ENVELOPE_NONCE_BYTES],
        opened: T,
        inspection: crate::continuation::ContinuationInspection,
    |
        #![trigger T::may_issue(issuer, state, context, issued, Ok(token)), T::may_inspect(opener, Some(token), opening_context, expectation, namespace, request_nonce, opened, inspection)]
        T::may_issue(issuer, state, context, issued, Ok(token)) && T::may_inspect(
            opener,
            Some(token),
            opening_context,
            expectation,
            namespace,
            request_nonce,
            opened,
            inspection,
        ) && context.0@ == opening_context.0@ && token_is_expected(state, expectation)
            ==> inspection.continuation_use is ProtectionUnavailable || inspection.continuation_use
            == (ContinuationUse::Continue {
            cursor: state.cursor,
            expires_at_unix_seconds: state.expires_at_unix_seconds,
        })
}

/// A request without a token starts anew, unless the protector is unavailable.
pub open spec fn starts_without_token<T: ContinuationTokenProtector>(protector: T) -> bool {
    forall|
        context: ContinuationProtectionContext,
        expectation: ContinuationExpectation,
        namespace: ReplayNamespace,
        request_nonce: [u8; ENVELOPE_NONCE_BYTES],
        after: T,
        inspection: crate::continuation::ContinuationInspection,
    | #[trigger]
        T::may_inspect(
            protector,
            None,
            context,
            expectation,
            namespace,
            request_nonce,
            after,
            inspection,
        ) ==> inspection.continuation_use is ProtectionUnavailable
            || inspection.continuation_use is Initial
}

/// Two codecs bind the same query, and the same checkpoint, alike.
pub open spec fn binds_alike<
    Q: PrivateQueryCodec<E, RESPONSE_SLOTS, ENVELOPE_BYTES>,
    E,
    const RESPONSE_SLOTS: usize,
    const ENVELOPE_BYTES: usize,
>(first: Q, second: Q) -> bool {
    &&& forall|query: UtxoQuery, binding: [u8; 32], left: [u8; 32], right: [u8; 32]|
        #![trigger first.digests_to(query, binding, left), second.digests_to(query, binding, right)]
        first.digests_to(query, binding, left) && second.digests_to(query, binding, right)
            ==> left == right
    &&& forall|
        checkpoint: crate::records::PrivateQueryCheckpoint,
        left: ContinuationProtectionContext,
        right: ContinuationProtectionContext,
    |
        #![trigger first.may_give_context(checkpoint, Ok(left)), second.may_give_context(checkpoint, Ok(right))]
        first.may_give_context(checkpoint, Ok(left)) && second.may_give_context(
            checkpoint,
            Ok(right),
        ) ==> left.0@ == right.0@
}

impl<
    Q: PrivateQueryCodec<E, RESPONSE_SLOTS, ENVELOPE_BYTES>,
    E,
    T: ContinuationTokenProtector,
    R: ContinuationReplayGuard,
    N: RoundMaterialSource,
    S: PrivateQueryEngine<D::Slot>,
    C,
    D: FrozenRecentSnapshot,
    const RESPONSE_SLOTS: usize,
    const ENVELOPE_BYTES: usize,
> CompletedRound<Q, E, T, R, N, S, C, D, RESPONSE_SLOTS, ENVELOPE_BYTES> {
    /// The round is one that the runtime of this shape completes.
    pub open spec fn completes(
        self,
        shape: CompiledQueryShape<RESPONSE_SLOTS, ENVELOPE_BYTES>,
    ) -> bool {
        self.transcript.ends(
            shape,
            self.codec,
            self.security,
            self.epoch,
            self.envelope,
            self.healthy,
            self.healthy_after,
            Ok(self.round),
        )
    }

    /// Where the round started, and when its continuation expires.
    pub open spec fn readiness(self, profile: PrivacyProfile) -> RoundReadiness {
        crate::round::readiness_of(
            crate::continuation::replay_outcome(
                self.transcript.inspection.continuation_use,
                self.transcript.commit,
            ).continuation_use,
            crate::round::planned_round(
                profile,
                self.transcript.material->Ok_0.now_unix_seconds,
            )->0.initial_expiry,
        )->0
    }

    /// The round's request was neither committed before nor carries a claimed token.
    pub open spec fn is_fresh(self) -> bool {
        self.transcript.commit matches Ok(committed) && committed.decision is Fresh
    }

    /// The request asks the same of the same epoch.
    pub open spec fn asks_the_same(self, other: Self) -> bool {
        &&& self.transcript.decoded->Ok_0.query == other.transcript.decoded->Ok_0.query
        &&& self.epoch.checkpoint == other.epoch.checkpoint
        &&& self.epoch.recent_snapshot_binding_digest == other.epoch.recent_snapshot_binding_digest
        &&& binds_alike::<Q, E, RESPONSE_SLOTS, ENVELOPE_BYTES>(other.codec, self.codec)
    }

    /// The round's request presents, in time, the token that the earlier round handed out
    /// for the same query.
    pub open spec fn presents_token_of(self, profile: PrivacyProfile, earlier: Self) -> bool {
        &&& earlier.transcript.response.continuation is Some
        &&& self.transcript.decoded->Ok_0.continuation == earlier.transcript.response.continuation
        &&& self.asks_the_same(earlier)
        &&& opens_tokens_of(earlier.transcript.inspector, self.security.token_protector)
        &&& self.transcript.material->Ok_0.now_unix_seconds < earlier.readiness(
            profile,
        ).continuation_expiry
    }

    /// The round's request presents, in time and for the first time, the token that the
    /// earlier round handed out for the same query.
    pub open spec fn continues(self, profile: PrivacyProfile, earlier: Self) -> bool {
        self.presents_token_of(profile, earlier) && self.is_fresh()
    }
}

/// A continued request goes on exactly where the page before it stopped, and keeps the
/// expiry that the first page set.
pub proof fn continued_request_goes_on_where_the_page_stopped<
    Q: PrivateQueryCodec<E, RESPONSE_SLOTS, ENVELOPE_BYTES>,
    E,
    T: ContinuationTokenProtector,
    R: ContinuationReplayGuard,
    N: RoundMaterialSource,
    S: PrivateQueryEngine<D::Slot>,
    C,
    D: FrozenRecentSnapshot,
    const RESPONSE_SLOTS: usize,
    const ENVELOPE_BYTES: usize,
>(
    shape: CompiledQueryShape<RESPONSE_SLOTS, ENVELOPE_BYTES>,
    earlier: CompletedRound<Q, E, T, R, N, S, C, D, RESPONSE_SLOTS, ENVELOPE_BYTES>,
    later: CompletedRound<Q, E, T, R, N, S, C, D, RESPONSE_SLOTS, ENVELOPE_BYTES>,
)
    requires
        earlier.completes(shape),
        later.completes(shape),
        later.continues(shape.profile, earlier),
        earlier.transcript.execution->Ok_0.next_cursor matches Some(cursor) && 0 < cursor
            < shape.profile.store_reads + shape.profile.recent_snapshot_slots,
    ensures
        later.readiness(shape.profile) == (RoundReadiness {
            cursor: earlier.transcript.execution->Ok_0.next_cursor->0,
            continuation_expiry: earlier.readiness(shape.profile).continuation_expiry,
            invalid_continuation: false,
            request_duplicate: false,
            token_protection_unavailable: false,
        }),
        S::may_execute(
            later.epoch.engine,
            earlier.transcript.decoded->Ok_0.query,
            earlier.transcript.execution->Ok_0.next_cursor->0,
            later.transcript.scanned,
            later.transcript.engine,
            later.transcript.execution,
        ),
{
    let first = earlier.transcript;
    let second = later.transcript;
    let state = crate::round::issued_state(
        shape.profile,
        first.query_digest,
        earlier.epoch.checkpoint,
        first.execution->Ok_0.next_cursor,
        earlier.readiness(shape.profile).continuation_expiry,
        first.material->Ok_0.token_nonce,
    );
    let plan = crate::round::planned_round(
        shape.profile,
        second.material->Ok_0.now_unix_seconds,
    )->0;
    let expectation = crate::round::expected_continuation(
        shape.profile,
        second.query_digest,
        later.epoch.checkpoint,
        second.material->Ok_0.now_unix_seconds,
        plan.cursor_limit,
    );
    assert(T::may_issue(
        first.inspector,
        state,
        first.context->Ok_0,
        first.issuer,
        Ok(first.token),
    ));
    assert(T::may_inspect(
        later.security.token_protector,
        Some(first.token),
        second.context->Ok_0,
        expectation,
        later.security.replay_namespace,
        second.decoded->Ok_0.nonce,
        second.inspector,
        second.inspection,
    ));
    assert(first.query_digest == second.query_digest);
    assert(earlier.codec.may_give_context(earlier.epoch.checkpoint, Ok(first.context->Ok_0)));
    assert(later.codec.may_give_context(earlier.epoch.checkpoint, Ok(second.context->Ok_0)));
    assert(token_is_expected(state, expectation));
}

/// What a token authenticates is told apart by the session that its codec was opened for.
pub open spec fn tells_sessions_apart<
    Q: PrivateQueryCodec<E, RESPONSE_SLOTS, ENVELOPE_BYTES>,
    E,
    const RESPONSE_SLOTS: usize,
    const ENVELOPE_BYTES: usize,
>(shape: CompiledQueryShape<RESPONSE_SLOTS, ENVELOPE_BYTES>) -> bool {
    forall|
        session: [u8; 32],
        codec: Q,
        other_session: [u8; 32],
        other_codec: Q,
        checkpoint: crate::records::PrivateQueryCheckpoint,
        context: ContinuationProtectionContext,
        other_context: ContinuationProtectionContext,
    |
        #![trigger Q::may_open(shape, session, Ok(codec)), Q::may_open(shape, other_session, Ok(other_codec)), codec.may_give_context(checkpoint, Ok(context)), other_codec.may_give_context(checkpoint, Ok(other_context))]
        Q::may_open(shape, session, Ok(codec)) && Q::may_open(shape, other_session, Ok(other_codec))
            && codec.may_give_context(checkpoint, Ok(context)) && other_codec.may_give_context(
            checkpoint,
            Ok(other_context),
        ) && session != other_session ==> context.0@ != other_context.0@
}

/// The opener opens no token of the issuer under another context than its own.
pub open spec fn refuses_other_contexts<T: ContinuationTokenProtector>(
    issuer: T,
    opener: T,
) -> bool {
    forall|
        state: ContinuationState,
        context: ContinuationProtectionContext,
        issued: T,
        token: ContinuationToken,
        opening_context: ContinuationProtectionContext,
        expectation: ContinuationExpectation,
        namespace: ReplayNamespace,
        request_nonce: [u8; ENVELOPE_NONCE_BYTES],
        opened: T,
        inspection: crate::continuation::ContinuationInspection,
    |
        #![trigger T::may_issue(issuer, state, context, issued, Ok(token)), T::may_inspect(opener, Some(token), opening_context, expectation, namespace, request_nonce, opened, inspection)]
        T::may_issue(issuer, state, context, issued, Ok(token)) && T::may_inspect(
            opener,
            Some(token),
            opening_context,
            expectation,
            namespace,
            request_nonce,
            opened,
            inspection,
        ) && context.0@ != opening_context.0@ ==> inspection.continuation_use is
            ProtectionUnavailable || inspection.continuation_use is InvalidContinuation
}

/// A token is of its session: under a lease with another session binding, and with all
/// else alike, it is refused, and the answer holds dummies only.
pub proof fn token_of_another_session_is_refused<
    Q: PrivateQueryCodec<E, RESPONSE_SLOTS, ENVELOPE_BYTES>,
    E,
    T: ContinuationTokenProtector,
    R: ContinuationReplayGuard,
    N: RoundMaterialSource,
    S: PrivateQueryEngine<D::Slot>,
    C,
    D: FrozenRecentSnapshot,
    const RESPONSE_SLOTS: usize,
    const ENVELOPE_BYTES: usize,
>(
    shape: CompiledQueryShape<RESPONSE_SLOTS, ENVELOPE_BYTES>,
    earlier: CompletedRound<Q, E, T, R, N, S, C, D, RESPONSE_SLOTS, ENVELOPE_BYTES>,
    later: CompletedRound<Q, E, T, R, N, S, C, D, RESPONSE_SLOTS, ENVELOPE_BYTES>,
)
    requires
        earlier.completes(shape),
        later.completes(shape),
        Q::may_open(shape, earlier.security.session_binding, Ok(earlier.codec)),
        Q::may_open(shape, later.security.session_binding, Ok(later.codec)),
        earlier.security.session_binding != later.security.session_binding,
        earlier.epoch.checkpoint == later.epoch.checkpoint,
        earlier.transcript.response.continuation is Some,
        later.transcript.decoded->Ok_0.continuation == earlier.transcript.response.continuation,
        tells_sessions_apart::<Q, E, RESPONSE_SLOTS, ENVELOPE_BYTES>(shape),
        refuses_other_contexts(earlier.transcript.inspector, later.security.token_protector),
    ensures
        later.transcript.inspection.continuation_use is InvalidContinuation,
        later.transcript.response.page.all_dummy(),
        crate::round::outcome_is_masked(later.transcript.response.page.outcome),
        later.transcript.response.continuation is None,
{
    let first = earlier.transcript;
    let second = later.transcript;
    let plan = crate::round::planned_round(
        shape.profile,
        second.material->Ok_0.now_unix_seconds,
    )->0;
    assert(T::may_issue(
        first.inspector,
        crate::round::issued_state(
            shape.profile,
            first.query_digest,
            earlier.epoch.checkpoint,
            first.execution->Ok_0.next_cursor,
            earlier.readiness(shape.profile).continuation_expiry,
            first.material->Ok_0.token_nonce,
        ),
        first.context->Ok_0,
        first.issuer,
        Ok(first.token),
    ));
    assert(T::may_inspect(
        later.security.token_protector,
        Some(first.token),
        second.context->Ok_0,
        crate::round::expected_continuation(
            shape.profile,
            second.query_digest,
            later.epoch.checkpoint,
            second.material->Ok_0.now_unix_seconds,
            plan.cursor_limit,
        ),
        later.security.replay_namespace,
        second.decoded->Ok_0.nonce,
        second.inspector,
        second.inspection,
    ));
    assert(earlier.codec.may_give_context(earlier.epoch.checkpoint, Ok(first.context->Ok_0)));
    assert(later.codec.may_give_context(earlier.epoch.checkpoint, Ok(second.context->Ok_0)));
    crate::runtime_laws::unserved_request_learns_nothing(
        shape,
        later.codec,
        later.security,
        later.epoch,
        later.envelope,
        later.healthy,
        second,
        later.healthy_after,
        later.round,
    );
}

/// The records that a scan finds between two positions, in its order.
pub open spec fn found_between(scan: Seq<Option<UtxoModel>>, from: int, to: int) -> Seq<UtxoModel>
    decreases to - from,
{
    if from >= to {
        Seq::empty()
    } else {
        match scan[to - 1] {
            Some(found) => found_between(scan, from, to - 1).push(found),
            None => found_between(scan, from, to - 1),
        }
    }
}

/// The engine answers the query by paging one scan: a page holds what the scan finds from
/// the cursor to its end, or up to where the page says that there is more.
pub open spec fn engine_pages<S: PrivateQueryEngine<Slot>, Slot>(
    engine: S,
    query: UtxoQuery,
    recent: Seq<Slot>,
    scan: Seq<Option<UtxoModel>>,
    response_slots: usize,
) -> bool {
    forall|cursor: usize, after: S, execution: EngineExecution| #[trigger]
        S::may_execute(engine, query, cursor, recent, after, Ok(execution)) && cursor <= scan.len()
            ==> page_holds(execution, cursor, scan, response_slots)
}

/// The page of an execution that paged a scan from a cursor.
pub open spec fn page_holds(
    execution: EngineExecution,
    cursor: usize,
    scan: Seq<Option<UtxoModel>>,
    response_slots: usize,
) -> bool {
    &&& execution.page.slots@.len() == response_slots
    &&& match execution.next_cursor {
        Some(next) => {
            &&& execution.page.outcome is ResultBudgetExceeded
            &&& cursor < next < scan.len()
            &&& crate::client_session::occupied_outputs(execution.page.slots@) == found_between(
                scan,
                cursor as int,
                next as int,
            )
        },
        None => {
            &&& execution.page.outcome is Complete
            &&& crate::client_session::occupied_outputs(execution.page.slots@) == found_between(
                scan,
                cursor as int,
                scan.len() as int,
            )
        },
    }
}

/// The outputs that pages list, one page after the other.
pub open spec fn listed<
    Q,
    E,
    T,
    R,
    N,
    S,
    C,
    D: FrozenRecentSnapshot,
    const RESPONSE_SLOTS: usize,
    const ENVELOPE_BYTES: usize,
>(
    rounds: Seq<CompletedRound<Q, E, T, R, N, S, C, D, RESPONSE_SLOTS, ENVELOPE_BYTES>>,
) -> Seq<UtxoModel>
    decreases rounds.len(),
{
    if rounds.len() == 0 {
        Seq::empty()
    } else {
        listed(rounds.drop_last()) + crate::client_session::occupied_outputs(
            rounds.last().transcript.response.page.slots@,
        )
    }
}

/// Rounds that serve one query from its first page on: the first carries no token, each
/// other one continues the one before it, and each is served by an engine that pages the
/// same scan.
pub open spec fn pages_one_query<
    Q: PrivateQueryCodec<E, RESPONSE_SLOTS, ENVELOPE_BYTES>,
    E,
    T: ContinuationTokenProtector,
    R: ContinuationReplayGuard,
    N: RoundMaterialSource,
    S: PrivateQueryEngine<D::Slot>,
    C,
    D: FrozenRecentSnapshot,
    const RESPONSE_SLOTS: usize,
    const ENVELOPE_BYTES: usize,
>(
    shape: CompiledQueryShape<RESPONSE_SLOTS, ENVELOPE_BYTES>,
    rounds: Seq<CompletedRound<Q, E, T, R, N, S, C, D, RESPONSE_SLOTS, ENVELOPE_BYTES>>,
    query: UtxoQuery,
    scan: Seq<Option<UtxoModel>>,
) -> bool {
    &&& rounds.len() > 0
    &&& scan.len() == shape.profile.store_reads + shape.profile.recent_snapshot_slots
    &&& rounds[0].transcript.decoded->Ok_0.continuation is None
    &&& starts_without_token(rounds[0].security.token_protector)
    &&& rounds[0].is_fresh()
    &&& forall|i: int|
        0 <= i < rounds.len() ==> {
            &&& (#[trigger] rounds[i]).completes(shape)
            &&& rounds[i].transcript.decoded->Ok_0.query == query
            &&& engine_pages(
                rounds[i].epoch.engine,
                query,
                rounds[i].transcript.scanned,
                scan,
                RESPONSE_SLOTS,
            )
            &&& !crate::round::outcome_is_masked(rounds[i].transcript.response.page.outcome)
        }
    &&& forall|i: int|
        0 < i < rounds.len() ==> (#[trigger] rounds[i]).continues(shape.profile, rounds[i - 1])
}

/// Two stretches of a scan in a row are one.
proof fn lemma_stretches_join(scan: Seq<Option<UtxoModel>>, from: int, middle: int, to: int)
    requires
        from <= middle <= to,
    ensures
        found_between(scan, from, middle) + found_between(scan, middle, to) == found_between(
            scan,
            from,
            to,
        ),
    decreases to - middle,
{
    if middle < to {
        lemma_stretches_join(scan, from, middle, to - 1);
    }
    assert(found_between(scan, from, middle) + found_between(scan, middle, to) =~= found_between(
        scan,
        from,
        to,
    ));
}

/// A page lists no more outputs than it has slots.
proof fn lemma_outputs_fit_their_slots(slots: Seq<ResultSlot>)
    ensures
        crate::client_session::occupied_outputs(slots).len() <= slots.len(),
    decreases slots.len(),
{
    if slots.len() > 0 {
        lemma_outputs_fit_their_slots(slots.drop_last());
    }
}

/// Up to each round, the pages list what the scan finds up to where that round stopped.
proof fn lemma_pages_so_far<
    Q: PrivateQueryCodec<E, RESPONSE_SLOTS, ENVELOPE_BYTES>,
    E,
    T: ContinuationTokenProtector,
    R: ContinuationReplayGuard,
    N: RoundMaterialSource,
    S: PrivateQueryEngine<D::Slot>,
    C,
    D: FrozenRecentSnapshot,
    const RESPONSE_SLOTS: usize,
    const ENVELOPE_BYTES: usize,
>(
    shape: CompiledQueryShape<RESPONSE_SLOTS, ENVELOPE_BYTES>,
    rounds: Seq<CompletedRound<Q, E, T, R, N, S, C, D, RESPONSE_SLOTS, ENVELOPE_BYTES>>,
    query: UtxoQuery,
    scan: Seq<Option<UtxoModel>>,
    last: int,
)
    requires
        pages_one_query(shape, rounds, query, scan),
        0 <= last < rounds.len(),
    ensures
        ({
            let execution = rounds[last].transcript.execution->Ok_0;
            let response = rounds[last].transcript.response;
            &&& rounds[last].readiness(shape.profile).cursor <= scan.len()
            &&& page_holds(
                execution,
                rounds[last].readiness(shape.profile).cursor,
                scan,
                RESPONSE_SLOTS,
            )
            &&& response.page.outcome == execution.page.outcome
            &&& response.page.slots@ == execution.page.slots@
            &&& listed(rounds.take(last + 1)) == found_between(
                scan,
                0,
                match execution.next_cursor {
                    Some(next) => next as int,
                    None => scan.len() as int,
                },
            )
        }),
    decreases last,
{
    let current = rounds[last];
    let cursor = current.readiness(shape.profile).cursor;
    let execution = current.transcript.execution->Ok_0;
    if last == 0 {
        assert(current.transcript.inspection.continuation_use is Initial);
        assert(rounds.take(1).drop_last() =~= rounds.take(0));
        assert(listed(rounds.take(0)) =~= Seq::<UtxoModel>::empty());
        assert(cursor == 0);
    } else {
        let earlier = rounds[last - 1];
        lemma_pages_so_far(shape, rounds, query, scan, last - 1);
        assert(current.continues(shape.profile, earlier));
        continued_request_goes_on_where_the_page_stopped(shape, earlier, current);
        assert(rounds.take(last + 1).drop_last() =~= rounds.take(last));
        assert(cursor == earlier.transcript.execution->Ok_0.next_cursor->0);
    }
    assert(S::may_execute(
        current.epoch.engine,
        query,
        cursor,
        current.transcript.scanned,
        current.transcript.engine,
        Ok(execution),
    ));
    assert(page_holds(execution, cursor, scan, RESPONSE_SLOTS));
    let stop = match execution.next_cursor {
        Some(next) => next as int,
        None => scan.len() as int,
    };
    lemma_stretches_join(scan, 0, cursor as int, stop);
    assert(rounds.take(last + 1).last() == current);
    assert(found_between(scan, 0, 0) =~= Seq::<UtxoModel>::empty());
    assert(listed(rounds.take(last + 1)) =~= found_between(scan, 0, stop));
}

/// The pages of a query, from its first to the one without a continuation, list every
/// record that the scan finds exactly once and in its order: each page but the last says
/// that there is more, the last is complete, and none holds more than its slots.
pub proof fn pages_list_every_match_once<
    Q: PrivateQueryCodec<E, RESPONSE_SLOTS, ENVELOPE_BYTES>,
    E,
    T: ContinuationTokenProtector,
    R: ContinuationReplayGuard,
    N: RoundMaterialSource,
    S: PrivateQueryEngine<D::Slot>,
    C,
    D: FrozenRecentSnapshot,
    const RESPONSE_SLOTS: usize,
    const ENVELOPE_BYTES: usize,
>(
    shape: CompiledQueryShape<RESPONSE_SLOTS, ENVELOPE_BYTES>,
    rounds: Seq<CompletedRound<Q, E, T, R, N, S, C, D, RESPONSE_SLOTS, ENVELOPE_BYTES>>,
    query: UtxoQuery,
    scan: Seq<Option<UtxoModel>>,
)
    requires
        pages_one_query(shape, rounds, query, scan),
        rounds.last().transcript.response.continuation is None,
    ensures
        listed(rounds) == found_between(scan, 0, scan.len() as int),
        rounds.last().transcript.response.page.outcome is Complete,
        forall|i: int|
            0 <= i < rounds.len() - 1 ==> (
            #[trigger] rounds[i]).transcript.response.page.outcome is ResultBudgetExceeded,
        forall|i: int|
            0 <= i < rounds.len() ==> crate::client_session::occupied_outputs(
                (#[trigger] rounds[i]).transcript.response.page.slots@,
            ).len() <= RESPONSE_SLOTS,
{
    let last = rounds.len() - 1;
    lemma_pages_so_far(shape, rounds, query, scan, last);
    assert(rounds.take(last + 1) =~= rounds);
    assert forall|i: int| 0 <= i < rounds.len() implies crate::client_session::occupied_outputs(
        (#[trigger] rounds[i]).transcript.response.page.slots@,
    ).len() <= RESPONSE_SLOTS by {
        lemma_pages_so_far(shape, rounds, query, scan, i);
        lemma_outputs_fit_their_slots(rounds[i].transcript.response.page.slots@);
    }
    assert forall|i: int| 0 <= i < rounds.len() - 1 implies (
    #[trigger] rounds[i]).transcript.response.page.outcome is ResultBudgetExceeded by {
        assert(rounds[i + 1].continues(shape.profile, rounds[i]));
    }
}

/// The guard answers every commit that it finishes from the claims that it holds, and holds
/// the claims that the answer calls for afterwards.
pub open spec fn answers_from_claims<R: ContinuationReplayGuard>(
    claims: spec_fn(R) -> JournalModel,
) -> bool {
    forall|
        before: R,
        security_round: SecurityRoundCapture,
        request_key: RequestReplayKey,
        plan: ContinuationReplayPlan,
        after: R,
        result: ReplayCommitResult,
    | #[trigger]
        R::may_commit(before, security_round, request_key, plan, after, Ok(result)) ==> {
            &&& result.decision == crate::replay_store::planned_decision(
                claims(before),
                request_key,
                plan,
            )
            &&& claims(after) == crate::replay_store::journal_after(
                claims(before),
                crate::replay_store::planned_entry(claims(before), request_key, plan),
            )
        }
}

/// A journal answers from the claims that it holds.
pub proof fn journal_answers_from_its_claims<
    F: ReplayJournalFiles,
    P: ReplayJournalRecordProtector,
>()
    ensures
        answers_from_claims(|journal: ReplayJournalStore<F, P>| journal@),
{
}

/// A coordinator answers from the claims that its journal holds.
pub proof fn coordinator_answers_from_its_claims<
    F: ReplayJournalFiles,
    P: ReplayJournalRecordProtector,
    G: SecurityStateFiles,
    W: SecurityFreshnessWitness,
>()
    ensures
        answers_from_claims(
            |coordinator: ReplaySnapshotCoordinator<F, P, G, W>| coordinator.replay_journal@,
        ),
{
}

/// A duplicate request is answered with dummies only and does no harm: the runtime stays
/// as healthy as its store and its snapshot leave it, no continuation is claimed, and the
/// token that it carried is as good as before for a request that is not a duplicate.
pub proof fn duplicate_request_is_harmless<
    Q: PrivateQueryCodec<E, RESPONSE_SLOTS, ENVELOPE_BYTES>,
    E,
    T: ContinuationTokenProtector,
    R: ContinuationReplayGuard,
    N: RoundMaterialSource,
    S: PrivateQueryEngine<D::Slot>,
    C,
    D: FrozenRecentSnapshot,
    const RESPONSE_SLOTS: usize,
    const ENVELOPE_BYTES: usize,
>(
    shape: CompiledQueryShape<RESPONSE_SLOTS, ENVELOPE_BYTES>,
    claims: spec_fn(R) -> JournalModel,
    round: CompletedRound<Q, E, T, R, N, S, C, D, RESPONSE_SLOTS, ENVELOPE_BYTES>,
    later_key: RequestReplayKey,
    plan: ContinuationReplayPlan,
)
    requires
        answers_from_claims(claims),
        round.completes(shape),
        claims(round.security.replay_guard).requests.contains(round.transcript.inspection.request_key.0),
    ensures
        round.transcript.commit->Ok_0.decision is RequestDuplicate,
        round.transcript.response.page.all_dummy(),
        round.transcript.response.continuation is None,
        round.transcript.execution->Ok_0.page.outcome is StoreFailure
            || round.transcript.response.page.outcome is ProjectionNotReady,
        round.healthy_after == (round.healthy && !round.transcript.recent_snapshot_failed(
            shape.profile,
            round.epoch,
        ) && !(round.transcript.execution->Ok_0.page.outcome is StoreFailure)
            && !(round.transcript.execution->Ok_0.page.outcome is ProjectionNotReady)),
        claims(round.transcript.guard).requests == claims(round.security.replay_guard).requests,
        claims(round.transcript.guard).continuations == claims(round.security.replay_guard).continuations,
        crate::replay_store::planned_decision(claims(round.transcript.guard), later_key, plan)
            == crate::replay_store::planned_decision(
            claims(round.security.replay_guard),
            later_key,
            plan,
        ),
        !claims(round.security.replay_guard).requests.contains(later_key.0) && (plan matches
            ContinuationReplayPlan::ClaimOrCover(claim)
            ==> !claims(round.security.replay_guard).continuations.contains(claim.key))
            ==> crate::replay_store::planned_decision(claims(round.transcript.guard), later_key, plan)
            == ReplayDuplicateDecision::Fresh,
{
    let before = claims(round.security.replay_guard);
    let inspection = round.transcript.inspection;
    assert(claims(round.transcript.guard) == crate::replay_store::journal_after(
        before,
        crate::replay_store::planned_entry(before, inspection.request_key, inspection.plan),
    ));
    assert(claims(round.transcript.guard).requests =~= before.requests);
}

/// A duplicate request does not spend the token that it carries: a later request that is
/// no duplicate and presents that token is answered as the continuation that it is, going
/// on exactly where the page that handed the token out stopped.
pub proof fn token_outlives_a_duplicate_request<
    Q: PrivateQueryCodec<E, RESPONSE_SLOTS, ENVELOPE_BYTES>,
    E,
    T: ContinuationTokenProtector,
    R: ContinuationReplayGuard,
    N: RoundMaterialSource,
    S: PrivateQueryEngine<D::Slot>,
    C,
    D: FrozenRecentSnapshot,
    const RESPONSE_SLOTS: usize,
    const ENVELOPE_BYTES: usize,
>(
    shape: CompiledQueryShape<RESPONSE_SLOTS, ENVELOPE_BYTES>,
    claims: spec_fn(R) -> JournalModel,
    earlier: CompletedRound<Q, E, T, R, N, S, C, D, RESPONSE_SLOTS, ENVELOPE_BYTES>,
    duplicate: CompletedRound<Q, E, T, R, N, S, C, D, RESPONSE_SLOTS, ENVELOPE_BYTES>,
    later: CompletedRound<Q, E, T, R, N, S, C, D, RESPONSE_SLOTS, ENVELOPE_BYTES>,
)
    requires
        answers_from_claims(claims),
        earlier.completes(shape),
        duplicate.completes(shape),
        later.completes(shape),
        claims(duplicate.security.replay_guard).requests.contains(
            duplicate.transcript.inspection.request_key.0,
        ),
        duplicate.transcript.decoded->Ok_0.continuation
            == earlier.transcript.response.continuation,
        later.presents_token_of(shape.profile, earlier),
        claims(later.security.replay_guard) == claims(duplicate.transcript.guard),
        !claims(later.security.replay_guard).requests.contains(
            later.transcript.inspection.request_key.0,
        ),
        later.transcript.inspection.plan matches ContinuationReplayPlan::ClaimOrCover(claim)
            ==> !claims(duplicate.security.replay_guard).continuations.contains(claim.key),
        earlier.transcript.execution->Ok_0.next_cursor matches Some(cursor) && 0 < cursor
            < shape.profile.store_reads + shape.profile.recent_snapshot_slots,
    ensures
        duplicate.transcript.commit->Ok_0.decision is RequestDuplicate,
        duplicate.transcript.response.page.all_dummy(),
        later.is_fresh(),
        later.readiness(shape.profile) == (RoundReadiness {
            cursor: earlier.transcript.execution->Ok_0.next_cursor->0,
            continuation_expiry: earlier.readiness(shape.profile).continuation_expiry,
            invalid_continuation: false,
            request_duplicate: false,
            token_protection_unavailable: false,
        }),
        S::may_execute(
            later.epoch.engine,
            earlier.transcript.decoded->Ok_0.query,
            earlier.transcript.execution->Ok_0.next_cursor->0,
            later.transcript.scanned,
            later.transcript.engine,
            later.transcript.execution,
        ),
{
    let inspection = later.transcript.inspection;
    duplicate_request_is_harmless(
        shape,
        claims,
        duplicate,
        inspection.request_key,
        inspection.plan,
    );
    assert(later.is_fresh());
    continued_request_goes_on_where_the_page_stopped(shape, earlier, later);
}

} // verus!
