//! Continuation tokens as one round sees them, and their replay commit.

use crate::runtime_security::ContinuationReplayPlan;
use crate::runtime_security::ReplayCommitAuthority;
use crate::runtime_security::ReplayCommitResult;
use crate::runtime_security::ReplayCommitUnavailable;
use crate::runtime_security::ReplayDuplicateDecision;
use crate::runtime_security::RequestReplayKey;
use crate::runtime_security::SecurityRoundCapture;
use vstd::prelude::*;

verus! {

/// What a request's continuation amounts to.
#[derive(Debug, Clone, Copy, PartialEq, Eq, Structural)]
pub enum ContinuationUse {
    /// The request carries no continuation.
    Initial,
    /// The request carries on at a cursor, with the expiry of the token it presented.
    Continue { cursor: u64, expires_at_unix_seconds: u64 },
    /// The presented token is refused.
    InvalidContinuation,
    /// The request cannot be served now.
    ProjectionNotReady,
    /// The token could not be inspected.
    ProtectionUnavailable,
}

/// One inspected request, before its replay transaction is committed.
#[derive(Clone, Copy, PartialEq, Eq)]
pub struct ContinuationInspection {
    pub continuation_use: ContinuationUse,
    pub request_key: RequestReplayKey,
    pub plan: ContinuationReplayPlan,
}

/// Commits request and continuation claims as one transaction.
pub trait ContinuationReplayGuard: Sized {
    /// The guard's own validity, which every commit keeps.
    open spec fn guard_wf(self) -> bool {
        true
    }

    /// The replies that a commit may give, and the state it may leave.
    open spec fn may_commit(
        before: Self,
        security_round: SecurityRoundCapture,
        request_key: RequestReplayKey,
        continuation_plan: ContinuationReplayPlan,
        after: Self,
        reply: Result<ReplayCommitResult, ReplayCommitUnavailable>,
    ) -> bool {
        true
    }

    fn commit_request_and_continuation(
        &mut self,
        security_round: &SecurityRoundCapture,
        request_key: &RequestReplayKey,
        continuation_plan: &ContinuationReplayPlan,
    ) -> (reply: Result<ReplayCommitResult, ReplayCommitUnavailable>)
        requires
            old(self).guard_wf(),
        ensures
            final(self).guard_wf(),
            Self::may_commit(
                *old(self),
                *security_round,
                *request_key,
                *continuation_plan,
                *final(self),
                reply,
            ),
    ;
}

/// A finished replay transaction: what the continuation amounts to, and its authority.
#[derive(Clone, Copy, PartialEq, Eq)]
pub struct ContinuationReplayOutcome {
    pub continuation_use: ContinuationUse,
    pub authority: Option<ReplayCommitAuthority>,
}

impl ContinuationReplayOutcome {
    pub fn into_parts(self) -> (parts: (ContinuationUse, Option<ReplayCommitAuthority>))
        ensures
            parts == (self.continuation_use, self.authority),
    {
        (self.continuation_use, self.authority)
    }
}

/// Outcome of one inspection and one reply of the replay guard.
///
/// A failed inspection stays one whatever the guard says. A duplicate request
/// is answered as not ready, a duplicate continuation as invalid, and a commit
/// that did not succeed carries no authority.
pub open spec fn replay_outcome(
    inspected: ContinuationUse,
    reply: Result<ReplayCommitResult, ReplayCommitUnavailable>,
) -> ContinuationReplayOutcome {
    ContinuationReplayOutcome {
        continuation_use: match (inspected, reply) {
            (ContinuationUse::ProtectionUnavailable, _) => ContinuationUse::ProtectionUnavailable,
            (_, Err(_)) => ContinuationUse::ProjectionNotReady,
            (_, Ok(result)) => match result.decision {
                ReplayDuplicateDecision::RequestDuplicate => ContinuationUse::ProjectionNotReady,
                ReplayDuplicateDecision::ContinuationDuplicate =>
                    ContinuationUse::InvalidContinuation,
                ReplayDuplicateDecision::Fresh => inspected,
            },
        },
        authority: match reply {
            Ok(result) => Some(result.authority),
            Err(_) => None,
        },
    }
}

/// Combines one inspection with one reply of the replay guard.
pub fn settle_replay(
    inspected: ContinuationUse,
    reply: Result<ReplayCommitResult, ReplayCommitUnavailable>,
) -> (outcome: ContinuationReplayOutcome)
    ensures
        outcome == replay_outcome(inspected, reply),
{
    let authority = match &reply {
        Ok(result) => Some(result.authority),
        Err(_) => None,
    };
    let continuation_use = match inspected {
        ContinuationUse::ProtectionUnavailable => ContinuationUse::ProtectionUnavailable,
        _ => match &reply {
            Err(_) => ContinuationUse::ProjectionNotReady,
            Ok(result) => match result.decision {
                ReplayDuplicateDecision::RequestDuplicate => ContinuationUse::ProjectionNotReady,
                ReplayDuplicateDecision::ContinuationDuplicate =>
                    ContinuationUse::InvalidContinuation,
                ReplayDuplicateDecision::Fresh => inspected,
            },
        },
    };
    ContinuationReplayOutcome { continuation_use, authority }
}

impl ContinuationInspection {
    /// Commits the inspected request and continuation, exactly once, whatever was inspected.
    pub fn finish_replay<R: ContinuationReplayGuard>(
        self,
        security_round: &SecurityRoundCapture,
        replay_guard: &mut R,
    ) -> (outcome: ContinuationReplayOutcome)
        requires
            old(replay_guard).guard_wf(),
        ensures
            final(replay_guard).guard_wf(),
            exists|reply: Result<ReplayCommitResult, ReplayCommitUnavailable>|
                #![trigger R::may_commit(*old(replay_guard), *security_round, self.request_key, self.plan, *final(replay_guard), reply)]
                R::may_commit(
                    *old(replay_guard),
                    *security_round,
                    self.request_key,
                    self.plan,
                    *final(replay_guard),
                    reply,
                ) && outcome == replay_outcome(self.continuation_use, reply),
    {
        let reply = replay_guard.commit_request_and_continuation(
            security_round,
            &self.request_key,
            &self.plan,
        );
        settle_replay(self.continuation_use, reply)
    }
}

/// What a replay transaction makes of an inspection. A token that could not be inspected
/// stays so; a transaction that was not committed, or found the request again, makes the
/// request not ready; one that found the continuation again makes it invalid; and only one
/// that found neither leaves what was inspected. Authority comes with a commit and is its own.
pub proof fn settled_replay_follows_the_commit(
    inspected: ContinuationUse,
    reply: Result<ReplayCommitResult, ReplayCommitUnavailable>,
)
    ensures
        ({
            let settled = replay_outcome(inspected, reply);
            &&& inspected is ProtectionUnavailable
                ==> settled.continuation_use is ProtectionUnavailable
            &&& settled.continuation_use is ProtectionUnavailable
                ==> inspected is ProtectionUnavailable
            &&& settled.continuation_use is Initial ==> inspected is Initial
            &&& settled.continuation_use is Continue ==> settled.continuation_use == inspected
            &&& !(inspected is ProtectionUnavailable) && reply is Err
                ==> settled.continuation_use is ProjectionNotReady
            &&& !(inspected is ProtectionUnavailable) && reply is Ok
                && reply->Ok_0.decision is RequestDuplicate
                ==> settled.continuation_use is ProjectionNotReady
            &&& !(inspected is ProtectionUnavailable) && reply is Ok
                && reply->Ok_0.decision is ContinuationDuplicate
                ==> settled.continuation_use is InvalidContinuation
            &&& reply is Ok && reply->Ok_0.decision is Fresh ==> settled.continuation_use
                == inspected
            &&& settled.authority is Some <==> reply is Ok
            &&& settled.authority matches Some(authority) ==> authority == reply->Ok_0.authority
        }),
{
}

} // verus!
