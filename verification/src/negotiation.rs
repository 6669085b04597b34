//! The order of the calls that negotiate one session.
//!
//! Negotiating means asking an engine for a connection, handing it the
//! caller's reachability candidates one by one, applying the offer, letting
//! the engine generate an answer and applying that answer. The engine works
//! outside this library and may take its time; what is decided here is which
//! call comes next after each outcome, and when the negotiation is over.
//! Whoever drives a negotiation performs the request it is given, reports
//! the outcome, and repeats until the request is `Attach` or `Stop`.

use vstd::prelude::*;

verus! {

/// Why a negotiation was given up.
#[derive(Clone, Copy, Debug, PartialEq, Eq, Structural)]
pub enum NegotiationError {
    /// The engine could not make a connection.
    EngineConstruction,
    /// The engine rejected the offer as remote description.
    RemoteDescriptionRejected,
    /// The engine produced no answer, or rejected it as local description.
    LocalDescriptionRejected,
    /// The underlying transport could not be established.
    TransportFailure,
}

/// What the engine made of the last request.
#[derive(Clone, Copy, Debug, PartialEq, Eq, Structural)]
pub enum EngineEvent {
    /// The request was carried out.
    Done,
    /// The engine rejected what it was given: a malformed candidate, an
    /// unacceptable description.
    Rejected,
    /// The transport under the connection could not be established, or the
    /// engine did not answer within the time that the driver allows a call.
    TransportFailed,
}

/// Where a negotiation stands: which request is awaiting its outcome.
#[derive(Clone, Copy, Debug, PartialEq, Eq, Structural)]
pub enum OfferState {
    /// A connection was asked for; `candidates` candidates wait for it.
    Connecting { candidates: usize },
    /// Candidate `next` of `candidates` was submitted. The states that a
    /// negotiation reaches have `next < candidates`; in any other the
    /// candidates count as dealt with.
    Submitting { next: usize, candidates: usize },
    /// The offer was handed over as remote description.
    ApplyingOffer,
    /// The engine was asked for an answer.
    Answering,
    /// The answer was handed over as local description.
    ApplyingAnswer,
    /// The negotiation succeeded; the session is to be attached.
    Established,
    /// The negotiation was given up.
    Failed(NegotiationError),
}

/// What the driver of a negotiation does next.
#[derive(Clone, Copy, Debug, PartialEq, Eq, Structural)]
pub enum EngineRequest {
    /// Ask the engine for a connection, configured with the reachability
    /// servers of the manager.
    NewConnection,
    /// Submit the candidate at this index of the caller's list.
    AddCandidate(usize),
    /// Apply the offer as remote description.
    SetRemoteDescription,
    /// Let the engine generate the answer.
    CreateAnswer,
    /// Apply the answer as local description.
    SetLocalDescription,
    /// Attach the session to its room and return the answer to the caller.
    Attach,
    /// Nothing more: the negotiation is over.
    Stop,
}

/// Whether the negotiation is over in `state`.
pub open spec fn is_over(state: OfferState) -> bool {
    state is Established || state is Failed
}

/// The error with which a required step fails on `event`.
pub open spec fn failure_of(event: EngineEvent, rejected: NegotiationError) -> NegotiationError {
    if event is TransportFailed {
        NegotiationError::TransportFailure
    } else {
        rejected
    }
}

/// The state and the request after candidate `done` of `candidates` was dealt
/// with: the candidate behind it, or, after the last one, the offer.
pub open spec fn after_candidates(done: int, candidates: usize) -> (OfferState, EngineRequest) {
    if done < candidates {
        (
            OfferState::Submitting { next: done as usize, candidates },
            EngineRequest::AddCandidate(done as usize),
        )
    } else {
        (OfferState::ApplyingOffer, EngineRequest::SetRemoteDescription)
    }
}

/// The state and the request that follow `state` on `event`.
///
/// A candidate that the engine rejects is passed over; every other step must
/// succeed, and its failure ends the negotiation with the error of that step.
/// A failure of the transport ends it at any step but the first, where no
/// connection exists yet and the failure is one of construction.
pub open spec fn next_step(state: OfferState, event: EngineEvent) -> (OfferState, EngineRequest) {
    match state {
        OfferState::Connecting { candidates } => if event is Done {
            after_candidates(0, candidates)
        } else {
            (OfferState::Failed(NegotiationError::EngineConstruction), EngineRequest::Stop)
        },
        OfferState::Submitting { next, candidates } => if event is TransportFailed {
            (OfferState::Failed(NegotiationError::TransportFailure), EngineRequest::Stop)
        } else {
            after_candidates(next + 1, candidates)
        },
        OfferState::ApplyingOffer => if event is Done {
            (OfferState::Answering, EngineRequest::CreateAnswer)
        } else {
            (
                OfferState::Failed(
                    failure_of(event, NegotiationError::RemoteDescriptionRejected),
                ),
                EngineRequest::Stop,
            )
        },
        OfferState::Answering => if event is Done {
            (OfferState::ApplyingAnswer, EngineRequest::SetLocalDescription)
        } else {
            (
                OfferState::Failed(failure_of(event, NegotiationError::LocalDescriptionRejected)),
                EngineRequest::Stop,
            )
        },
        OfferState::ApplyingAnswer => if event is Done {
            (OfferState::Established, EngineRequest::Attach)
        } else {
            (
                OfferState::Failed(failure_of(event, NegotiationError::LocalDescriptionRejected)),
                EngineRequest::Stop,
            )
        },
        OfferState::Established => (state, EngineRequest::Stop),
        OfferState::Failed(_) => (state, EngineRequest::Stop),
    }
}

/// How many requests a negotiation in `state` can still make at most.
pub open spec fn requests_left(state: OfferState) -> nat {
    match state {
        OfferState::Connecting { candidates } => (candidates + 4) as nat,
        OfferState::Submitting { next, candidates } => if next < candidates {
            (candidates - next + 3) as nat
        } else {
            4
        },
        OfferState::ApplyingOffer => 3,
        OfferState::Answering => 2,
        OfferState::ApplyingAnswer => 1,
        OfferState::Established => 0,
        OfferState::Failed(_) => 0,
    }
}

/// Starts the negotiation of an offer that comes with `candidates`
/// candidates: the first request is for a connection.
pub fn begin(candidates: usize) -> (r: (OfferState, EngineRequest))
    ensures
        r == (OfferState::Connecting { candidates }, EngineRequest::NewConnection),
{
    (OfferState::Connecting { candidates }, EngineRequest::NewConnection)
}

/// The error that a required step reports on an event that is not `Done`.
fn failure(event: EngineEvent, rejected: NegotiationError) -> (e: NegotiationError)
    ensures
        e == failure_of(event, rejected),
{
    match event {
        EngineEvent::TransportFailed => NegotiationError::TransportFailure,
        _ => rejected,
    }
}

/// Decides what follows candidate number `done`, counted from one.
fn proceed(done: usize, candidates: usize) -> (r: (OfferState, EngineRequest))
    ensures
        r == after_candidates(done as int, candidates),
{
    if done < candidates {
        (OfferState::Submitting { next: done, candidates }, EngineRequest::AddCandidate(done))
    } else {
        (OfferState::ApplyingOffer, EngineRequest::SetRemoteDescription)
    }
}

/// Takes the outcome of the request that `state` awaits and decides the next
/// state and the next request.
pub fn step(state: OfferState, event: EngineEvent) -> (r: (OfferState, EngineRequest))
    ensures
        r == next_step(state, event),
{
    match state {
        OfferState::Connecting { candidates } => match event {
            EngineEvent::Done => proceed(0, candidates),
            _ => (OfferState::Failed(NegotiationError::EngineConstruction), EngineRequest::Stop),
        },
        OfferState::Submitting { next, candidates } => match event {
            EngineEvent::TransportFailed => (
                OfferState::Failed(NegotiationError::TransportFailure),
                EngineRequest::Stop,
            ),
            _ => if next < candidates {
                proceed(next + 1, candidates)
            } else {
                (OfferState::ApplyingOffer, EngineRequest::SetRemoteDescription)
            },
        },
        OfferState::ApplyingOffer => match event {
            EngineEvent::Done => (OfferState::Answering, EngineRequest::CreateAnswer),
            _ => (
                OfferState::Failed(failure(event, NegotiationError::RemoteDescriptionRejected)),
                EngineRequest::Stop,
            ),
        },
        OfferState::Answering => match event {
            EngineEvent::Done => (OfferState::ApplyingAnswer, EngineRequest::SetLocalDescription),
            _ => (
                OfferState::Failed(failure(event, NegotiationError::LocalDescriptionRejected)),
                EngineRequest::Stop,
            ),
        },
        OfferState::ApplyingAnswer => match event {
            EngineEvent::Done => (OfferState::Established, EngineRequest::Attach),
            _ => (
                OfferState::Failed(failure(event, NegotiationError::LocalDescriptionRejected)),
                EngineRequest::Stop,
            ),
        },
        OfferState::Established => (state, EngineRequest::Stop),
        OfferState::Failed(_) => (state, EngineRequest::Stop),
    }
}

/// What a finished negotiation returns: success once it is established, the
/// error once it failed, and nothing while it is under way.
pub fn outcome(state: OfferState) -> (r: Option<Result<(), NegotiationError>>)
    ensures
        r == match state {
            OfferState::Established => Some(Ok::<(), NegotiationError>(())),
            OfferState::Failed(e) => Some(Err::<(), NegotiationError>(e)),
            _ => None::<Result<(), NegotiationError>>,
        },
{
    match state {
        OfferState::Established => Some(Ok(())),
        OfferState::Failed(e) => Some(Err(e)),
        _ => None,
    }
}

/// The session is attached only after the answer was applied: the request
/// `Attach` follows the successful last step and nothing else, so a
/// negotiation that fails at any step leaves the registry untouched.
pub proof fn lemma_attach_only_on_success(state: OfferState, event: EngineEvent)
    ensures
        next_step(state, event).1 == EngineRequest::Attach <==> state is ApplyingAnswer
            && event is Done,
        next_step(state, event).0 is Established <==> (state is ApplyingAnswer && event is Done)
            || state is Established,
{
}

/// A rejected description ends the negotiation with the error of its step.
pub proof fn lemma_rejected_description_is_fatal(event: EngineEvent)
    requires
        !(event is Done),
    ensures
        next_step(OfferState::ApplyingOffer, event).0 is Failed,
        next_step(OfferState::ApplyingOffer, event).1 == EngineRequest::Stop,
        next_step(OfferState::ApplyingAnswer, event).0 is Failed,
        next_step(OfferState::ApplyingAnswer, event).1 == EngineRequest::Stop,
        next_step(OfferState::ApplyingOffer, EngineEvent::Rejected).0 == OfferState::Failed(
            NegotiationError::RemoteDescriptionRejected,
        ),
        next_step(OfferState::ApplyingAnswer, EngineEvent::Rejected).0 == OfferState::Failed(
            NegotiationError::LocalDescriptionRejected,
        ),
{
}

/// A candidate that the engine rejects does not end the negotiation, and the
/// candidates are submitted in the order of the list: after candidate `next`,
/// accepted or rejected, comes candidate `next + 1`, and after the last one
/// the offer.
pub proof fn lemma_rejected_candidate_is_passed_over(
    next: usize,
    candidates: usize,
    event: EngineEvent,
)
    requires
        next < candidates,
        !(event is TransportFailed),
    ensures
        next + 1 < candidates ==> next_step(OfferState::Submitting { next, candidates }, event) == (
            OfferState::Submitting { next: (next + 1) as usize, candidates },
            EngineRequest::AddCandidate((next + 1) as usize),
        ),
        next + 1 == candidates ==> next_step(OfferState::Submitting { next, candidates }, event)
            == (OfferState::ApplyingOffer, EngineRequest::SetRemoteDescription),
{
}

/// Every negotiation ends: each step of one that is not over leaves fewer
/// requests to make, and a negotiation that is over stays as it is.
pub proof fn lemma_negotiation_ends(state: OfferState, event: EngineEvent)
    ensures
        !is_over(state) ==> requests_left(next_step(state, event).0) < requests_left(state),
        is_over(state) ==> next_step(state, event) == (state, EngineRequest::Stop),
        is_over(next_step(state, event).0) <==> next_step(state, event).1 == EngineRequest::Attach
            || next_step(state, event).1 == EngineRequest::Stop,
{
}

} // verus!
