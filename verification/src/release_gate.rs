//! Exclusion between response release and epoch lifecycle work.

use vstd::prelude::*;

verus! {

/// What holds the exclusion.
#[derive(Debug, Clone, Copy, PartialEq, Eq, Structural)]
pub enum ResponseReleaseState {
    /// Nothing.
    Idle,
    /// A response that may still be released.
    Pending,
    /// A refresh of the serving epoch.
    Refreshing,
    /// Nothing, ever again.
    Closed,
    /// A response whose release is being checked.
    Checking,
    /// A response that was released.
    Authorized,
}

/// Coarsened process-lifecycle failure without epoch identifiers.
#[derive(Debug, Clone, Copy, PartialEq, Eq, Structural)]
pub struct FinalizedRuntimeOwnerError;

impl FinalizedRuntimeOwnerError {
    /// Text shown to an operator.
    pub fn message(&self) -> (text: &'static str)
        ensures
            text@ == "private-query runtime owner unavailable"@,
    {
        "private-query runtime owner unavailable"
    }

    /// Redacted rendering for logs.
    pub fn debug_text(&self) -> (text: &'static str)
        ensures
            text@ == "FinalizedRuntimeOwnerError { ..REDACTED.. }"@,
    {
        "FinalizedRuntimeOwnerError { ..REDACTED.. }"
    }
}

/// Single-owner exclusion between response release and epoch lifecycle work.
///
/// A permit is retained for exactly as long as its response remains eligible
/// for release. Until then, refresh and shutdown fail before changing anything.
#[derive(Clone, Copy, PartialEq, Eq)]
pub struct ResponseReleaseGate {
    pub state: ResponseReleaseState,
}

/// State after an attempt to take the exclusion.
pub open spec fn gate_after_begin(
    state: ResponseReleaseState,
    held: ResponseReleaseState,
) -> ResponseReleaseState {
    if state is Idle {
        held
    } else {
        state
    }
}

/// State after a permit is given back.
///
/// A response permit given back while its check is open, and any permit whose
/// state was taken from it, closes the exclusion.
pub open spec fn gate_after_release(
    state: ResponseReleaseState,
    held: ResponseReleaseState,
) -> ResponseReleaseState {
    if state == held || (held is Pending && state is Authorized) {
        ResponseReleaseState::Idle
    } else {
        ResponseReleaseState::Closed
    }
}

/// The states that one operation may lead to.
pub open spec fn gate_steps_to(state: ResponseReleaseState, next: ResponseReleaseState) -> bool {
    ||| next == state
    ||| next is Closed
    ||| state is Idle && (next is Pending || next is Refreshing)
    ||| state is Pending && (next is Checking || next is Idle)
    ||| state is Checking && next is Authorized
    ||| (state is Authorized || state is Refreshing) && next is Idle
}

impl ResponseReleaseGate {
    pub fn new() -> (gate: Self)
        ensures
            gate.state is Idle,
    {
        ResponseReleaseGate { state: ResponseReleaseState::Idle }
    }

    /// Takes the exclusion for one response.
    pub fn begin_response(&mut self) -> (result: Result<
        ResponseReleasePermit,
        FinalizedRuntimeOwnerError,
    >)
        ensures
            final(self).state == gate_after_begin(old(self).state, ResponseReleaseState::Pending),
            gate_steps_to(old(self).state, final(self).state),
            match result {
                Ok(permit) => old(self).state is Idle && permit.held is Pending,
                Err(_) => !(old(self).state is Idle),
            },
    {
        self.begin(ResponseReleaseState::Pending)
    }

    /// Takes the exclusion for one refresh.
    pub fn begin_refresh(&mut self) -> (result: Result<
        ResponseReleasePermit,
        FinalizedRuntimeOwnerError,
    >)
        ensures
            final(self).state == gate_after_begin(old(self).state, ResponseReleaseState::Refreshing),
            gate_steps_to(old(self).state, final(self).state),
            match result {
                Ok(permit) => old(self).state is Idle && permit.held is Refreshing,
                Err(_) => !(old(self).state is Idle),
            },
    {
        self.begin(ResponseReleaseState::Refreshing)
    }

    /// Takes an idle exclusion for a response or for a refresh; one that is not idle is
    /// refused and stays as it is.
    pub fn begin(&mut self, held: ResponseReleaseState) -> (result: Result<
        ResponseReleasePermit,
        FinalizedRuntimeOwnerError,
    >)
        requires
            held is Pending || held is Refreshing,
        ensures
            final(self).state == gate_after_begin(old(self).state, held),
            gate_steps_to(old(self).state, final(self).state),
            match result {
                Ok(permit) => old(self).state is Idle && permit.held == held,
                Err(_) => !(old(self).state is Idle),
            },
    {
        match self.state {
            ResponseReleaseState::Idle => {
                self.state = held;
                Ok(ResponseReleasePermit { held })
            },
            _ => Err(FinalizedRuntimeOwnerError),
        }
    }

    /// Closes an idle exclusion; closing a closed one is no failure.
    pub fn stop(&mut self) -> (result: Result<(), FinalizedRuntimeOwnerError>)
        ensures
            result is Ok <==> old(self).state is Idle || old(self).state is Closed,
            final(self).state == if result is Ok {
                ResponseReleaseState::Closed
            } else {
                old(self).state
            },
            gate_steps_to(old(self).state, final(self).state),
    {
        match self.state {
            ResponseReleaseState::Idle | ResponseReleaseState::Closed => {
                self.state = ResponseReleaseState::Closed;
                Ok(())
            },
            _ => Err(FinalizedRuntimeOwnerError),
        }
    }

    /// Closes the exclusion, whoever holds it.
    pub fn close(&mut self)
        ensures
            final(self).state is Closed,
    {
        self.state = ResponseReleaseState::Closed;
    }

    pub fn is_idle(&self) -> (idle: bool)
        ensures
            idle == (self.state is Idle),
    {
        self.state == ResponseReleaseState::Idle
    }

    pub fn is_refreshing(&self) -> (refreshing: bool)
        ensures
            refreshing == (self.state is Refreshing),
    {
        self.state == ResponseReleaseState::Refreshing
    }

    pub fn is_closed(&self) -> (closed: bool)
        ensures
            closed == (self.state is Closed),
    {
        self.state == ResponseReleaseState::Closed
    }

    /// Redacted rendering for logs.
    pub fn debug_text(&self) -> (text: &'static str)
        ensures
            text@ == "ResponseReleaseGate { ..REDACTED.. }"@,
    {
        "ResponseReleaseGate { ..REDACTED.. }"
    }
}

/// Unique proof that one response or refresh owns the release exclusion.
pub struct ResponseReleasePermit {
    pub held: ResponseReleaseState,
}

impl ResponseReleasePermit {
    /// Opens the check of a pending response, once.
    pub fn begin_response_release(&self, gate: &mut ResponseReleaseGate) -> (begun: bool)
        ensures
            begun == (self.held is Pending && old(gate).state is Pending),
            final(gate).state == if begun {
                ResponseReleaseState::Checking
            } else {
                old(gate).state
            },
            gate_steps_to(old(gate).state, final(gate).state),
    {
        if self.held == ResponseReleaseState::Pending && gate.state
            == ResponseReleaseState::Pending {
            gate.state = ResponseReleaseState::Checking;
            true
        } else {
            false
        }
    }

    /// Authorizes the release of a checked response.
    pub fn authorize_response_release(&self, gate: &mut ResponseReleaseGate) -> (authorized: bool)
        ensures
            authorized == (old(gate).state is Checking),
            final(gate).state == if authorized {
                ResponseReleaseState::Authorized
            } else {
                old(gate).state
            },
            gate_steps_to(old(gate).state, final(gate).state),
    {
        if gate.state == ResponseReleaseState::Checking {
            gate.state = ResponseReleaseState::Authorized;
            true
        } else {
            false
        }
    }

    /// Closes the exclusion for good.
    pub fn fail_closed(&self, gate: &mut ResponseReleaseGate)
        ensures
            final(gate).state is Closed,
    {
        gate.state = ResponseReleaseState::Closed;
    }

    /// Gives the permit back.
    pub fn release(self, gate: &mut ResponseReleaseGate)
        ensures
            final(gate).state == gate_after_release(old(gate).state, self.held),
            self.held is Pending || self.held is Refreshing ==> gate_steps_to(
                old(gate).state,
                final(gate).state,
            ),
    {
        if gate.state == self.held {
            gate.state = ResponseReleaseState::Idle;
            return ;
        }
        if self.held == ResponseReleaseState::Pending && gate.state
            == ResponseReleaseState::Authorized {
            gate.state = ResponseReleaseState::Idle;
            return ;
        }
        self.fail_closed(gate);
    }

    /// Redacted rendering for logs.
    pub fn debug_text(&self) -> (text: &'static str)
        ensures
            text@ == "ResponseReleasePermit { ..REDACTED.. }"@,
    {
        "ResponseReleasePermit { ..REDACTED.. }"
    }
}

/// Only an idle exclusion can be taken, and a taken one cannot be taken again.
pub proof fn gate_has_one_holder(
    state: ResponseReleaseState,
    held: ResponseReleaseState,
    next: ResponseReleaseState,
)
    requires
        held is Pending || held is Refreshing,
    ensures
        gate_after_begin(gate_after_begin(state, held), next) == gate_after_begin(state, held),
{
}

/// An exclusion that was closed once is never taken again, whatever is done with it.
pub proof fn closed_gate_admits_nothing_ever_again(
    states: Seq<ResponseReleaseState>,
    closed: int,
    later: int,
)
    requires
        0 <= closed <= later < states.len(),
        forall|i: int| 0 < i < states.len() ==> gate_steps_to(states[i - 1], #[trigger] states[i]),
        states[closed] is Closed,
    ensures
        states[later] is Closed,
    decreases later - closed,
{
    if closed < later {
        closed_gate_admits_nothing_ever_again(states, closed, later - 1);
    }
}

/// A closed exclusion stays closed: it cannot be taken, and giving a permit back does not open it.
pub proof fn closed_gate_stays_closed(held: ResponseReleaseState)
    requires
        held is Pending || held is Refreshing,
    ensures
        gate_after_begin(ResponseReleaseState::Closed, held) is Closed,
        gate_after_release(ResponseReleaseState::Closed, held) is Closed,
{
}

/// A response or refresh that ends in order leaves the exclusion as it found it; one
/// that ends while its release is being checked closes it.
pub proof fn released_permit_restores_or_closes(held: ResponseReleaseState)
    requires
        held is Pending || held is Refreshing,
    ensures
        gate_after_release(gate_after_begin(ResponseReleaseState::Idle, held), held) is Idle,
        gate_after_release(ResponseReleaseState::Checking, held) is Closed,
        held is Pending ==> gate_after_release(ResponseReleaseState::Authorized, held) is Idle,
{
}

/// An idle exclusion is taken by whoever asks, and no other is. A permit that is given back
/// makes the exclusion idle exactly where the exclusion is still as the permit left it, or the
/// permit's response was released; otherwise the exclusion closes.
pub proof fn gate_is_taken_and_given_back(state: ResponseReleaseState, held: ResponseReleaseState)
    requires
        held is Pending || held is Refreshing,
    ensures
        state is Idle ==> gate_after_begin(state, held) == held,
        !(state is Idle) ==> gate_after_begin(state, held) == state,
        gate_after_release(state, held) is Idle <==> (held is Pending && (state is Pending
            || state is Authorized)) || (held is Refreshing && state is Refreshing),
        !(gate_after_release(state, held) is Idle) ==> gate_after_release(state, held) is Closed,
{
}

/// An exclusion moves along its one way only: a response is authorized out of its check alone, a
/// check is begun out of a pending response alone, and what is not idle is neither taken
/// again nor left for the other kind of work.
pub proof fn gate_moves_one_way(state: ResponseReleaseState, next: ResponseReleaseState)
    requires
        gate_steps_to(state, next),
        next != state,
    ensures
        next is Authorized ==> state is Checking,
        next is Checking ==> state is Pending,
        next is Pending ==> state is Idle,
        next is Refreshing ==> state is Idle,
        next is Idle ==> state is Pending || state is Authorized || state is Refreshing,
        !(state is Closed),
{
}

} // verus!
