//! The negotiation state machine that sequences offer, answer and candidate
//! exchange against one transport peer.
//!
//! Each operation that needs the transport is split in two: a first call
//! decides whether the transport may be asked, and a second takes what the
//! transport did and moves the session on. The caller performs the transport
//! work in between.
use vstd::prelude::*;

use crate::message::{tagged, SdpOfferAnswer};

verus! {

/// Where a session stands.
#[derive(PartialEq, Eq, Structural, Clone, Copy, Debug)]
pub enum SessionState {
    Idle,
    OfferCreated,
    OfferReceived,
    AnswerApplied,
    AnswerCreated,
    Connected,
    Failed,
}

/// Why an operation failed.
#[derive(PartialEq, Eq, Structural, Clone, Copy, Debug)]
pub enum SessionError {
    /// The signaling payload was malformed or unexpected; the session keeps its prior state.
    Signaling,
    /// The transport refused, or an operation came out of order; the session has failed.
    Negotiation,
}

/// The model of a session.
pub ghost struct SessionView {
    pub state: SessionState,
    pub local: Option<Seq<char>>,
    pub remote: Option<Seq<char>>,
    pub client_id: Option<Seq<char>>,
}

/// The text an optional string holds.
pub open spec fn opt_view(o: Option<String>) -> Option<Seq<char>> {
    match o {
        Some(s) => Some(s@),
        None => None,
    }
}

/// Whether an operation succeeded, and if not, why.
pub open spec fn outcome<T>(r: Result<T, SessionError>) -> Result<(), SessionError> {
    match r {
        Ok(_) => Ok(()),
        Err(e) => Err(e),
    }
}

/// The descriptions a session holds agree with its state.
pub open spec fn session_wf(v: SessionView) -> bool {
    match v.state {
        SessionState::Idle => v.local is None && v.remote is None && v.client_id is None,
        SessionState::OfferCreated => v.local is Some && v.remote is None,
        SessionState::AnswerApplied => v.local is Some && v.remote is Some,
        SessionState::OfferReceived => v.local is None && v.remote is Some && v.client_id is Some,
        SessionState::AnswerCreated => v.local is Some && v.remote is Some && v.client_id is Some,
        SessionState::Connected => v.local is Some && v.remote is Some,
        SessionState::Failed => true,
    }
}

/// A session that has not negotiated anything yet.
pub open spec fn fresh_session() -> SessionView {
    SessionView { state: SessionState::Idle, local: None, remote: None, client_id: None }
}

/// The session `v` after a negotiation failure: its state becomes `Failed`.
pub open spec fn failed(v: SessionView) -> SessionView {
    SessionView { state: SessionState::Failed, ..v }
}

/// Asking for a local offer: allowed only on an idle session with a peer.
pub open spec fn begin_offer_step(v: SessionView, peer_ready: bool) -> (SessionView, Result<(), SessionError>) {
    if v.state == SessionState::Idle && peer_ready {
        (v, Ok(()))
    } else {
        (failed(v), Err(SessionError::Negotiation))
    }
}

/// The transport produced a local offer and applied it, or (`None`) did not.
pub open spec fn offer_applied_step(v: SessionView, offer: Option<Seq<char>>) -> (SessionView, Result<(), SessionError>) {
    match offer {
        Some(o) if v.state == SessionState::Idle => (
            SessionView { state: SessionState::OfferCreated, local: Some(o), ..v },
            Ok(()),
        ),
        _ => (failed(v), Err(SessionError::Negotiation)),
    }
}

/// An answer message arrived for the offer this session made; `well_formed`
/// says whether its answer parses as a session description. A missing or
/// malformed answer is rejected before the state is looked at.
pub open spec fn begin_remote_answer_step(v: SessionView, answer: Option<Seq<char>>, well_formed: bool) -> (SessionView, Result<(), SessionError>) {
    match answer {
        None => (v, Err(SessionError::Signaling)),
        Some(_) if !well_formed => (v, Err(SessionError::Signaling)),
        Some(a) => if v.state == SessionState::OfferCreated {
            (SessionView { state: SessionState::AnswerApplied, remote: Some(a), ..v }, Ok(()))
        } else {
            (failed(v), Err(SessionError::Negotiation))
        },
    }
}

/// Whether the transport applied the remote answer.
pub open spec fn remote_answer_applied_step(v: SessionView, accepted: bool) -> (SessionView, Result<(), SessionError>) {
    if v.state == SessionState::AnswerApplied && accepted {
        (SessionView { state: SessionState::Connected, ..v }, Ok(()))
    } else {
        (failed(v), Err(SessionError::Negotiation))
    }
}

/// A remote offer arrived from the client `client_id`; `well_formed` says
/// whether it parses as a session description. A malformed offer is rejected
/// before the state or the peer is looked at.
pub open spec fn begin_answer_step(
    v: SessionView,
    peer_ready: bool,
    offer: Seq<char>,
    well_formed: bool,
    client_id: Seq<char>,
) -> (SessionView, Result<(), SessionError>) {
    if !well_formed {
        (v, Err(SessionError::Signaling))
    } else if v.state == SessionState::Idle && peer_ready {
        (
            SessionView {
                state: SessionState::OfferReceived,
                remote: Some(offer),
                client_id: Some(client_id),
                ..v
            },
            Ok(()),
        )
    } else {
        (failed(v), Err(SessionError::Negotiation))
    }
}

/// The answer that the transport synthesized after applying the remote offer,
/// or (`None`) its refusal of the offer or failure to answer.
pub open spec fn answer_created_step(v: SessionView, answer: Option<Seq<char>>) -> (SessionView, Result<(), SessionError>) {
    match answer {
        Some(a) if v.state == SessionState::OfferReceived => (
            SessionView { state: SessionState::AnswerCreated, local: Some(a), ..v },
            Ok(()),
        ),
        _ => (failed(v), Err(SessionError::Negotiation)),
    }
}

/// Whether the transport applied the local answer.
pub open spec fn answer_applied_step(v: SessionView, accepted: bool) -> (SessionView, Result<(), SessionError>) {
    if v.state == SessionState::AnswerCreated && accepted {
        (SessionView { state: SessionState::Connected, ..v }, Ok(()))
    } else {
        (failed(v), Err(SessionError::Negotiation))
    }
}

/// A remote candidate may be handed to the transport only once a remote
/// description exists and the session has not failed.
pub open spec fn candidate_allowed(v: SessionView) -> bool {
    v.remote is Some && v.state != SessionState::Failed
}

/// A failed session stays failed: no operation, whatever its arguments or the
/// transport's verdict, leads from `Failed` back to an active state. A fresh
/// session must be made to try again.
pub proof fn lemma_failed_is_terminal(
    v: SessionView,
    peer_ready: bool,
    text: Option<Seq<char>>,
    offer: Seq<char>,
    client_id: Seq<char>,
    well_formed: bool,
    accepted: bool,
)
    requires
        v.state == SessionState::Failed,
    ensures
        begin_offer_step(v, peer_ready).0.state == SessionState::Failed,
        offer_applied_step(v, text).0.state == SessionState::Failed,
        begin_remote_answer_step(v, text, well_formed).0.state == SessionState::Failed,
        remote_answer_applied_step(v, accepted).0.state == SessionState::Failed,
        begin_answer_step(v, peer_ready, offer, well_formed, client_id).0.state == SessionState::Failed,
        answer_created_step(v, text).0.state == SessionState::Failed,
        answer_applied_step(v, accepted).0.state == SessionState::Failed,
        !candidate_allowed(v),
{
}

/// A missing or malformed payload is rejected with a signaling error and leaves
/// the session exactly as it was, whatever its state; only a well-formed
/// payload that comes in the wrong state fails the session.
pub proof fn lemma_malformed_payload_rejected(
    v: SessionView,
    answer: Seq<char>,
    offer: Seq<char>,
    client_id: Seq<char>,
    peer_ready: bool,
    well_formed: bool,
)
    ensures
        begin_remote_answer_step(v, None, well_formed) == (v, Err::<(), SessionError>(SessionError::Signaling)),
        begin_remote_answer_step(v, Some(answer), false) == (v, Err::<(), SessionError>(SessionError::Signaling)),
        begin_answer_step(v, peer_ready, offer, false, client_id) == (v, Err::<(), SessionError>(SessionError::Signaling)),
        v.state != SessionState::OfferCreated ==> begin_remote_answer_step(v, Some(answer), true) == (
            failed(v),
            Err::<(), SessionError>(SessionError::Negotiation),
        ),
        !(v.state == SessionState::Idle && peer_ready) ==> begin_answer_step(v, peer_ready, offer, true, client_id) == (
            failed(v),
            Err::<(), SessionError>(SessionError::Negotiation),
        ),
{
}

/// A remote candidate that comes before any remote description is refused.
pub proof fn lemma_candidate_needs_description(v: SessionView)
    requires
        v.remote is None,
    ensures
        !candidate_allowed(v),
{
}

/// An offer made by one session and answered by another connects both, when
/// the transport accepts every description: the offering side ends holding the
/// answer as remote description, the answering side the offer. On the way each
/// side passes through its intermediate states.
pub proof fn lemma_offer_answer_round_trip(offer: Seq<char>, answer: Seq<char>, client_id: Seq<char>)
    ensures
        ({
            let a0 = begin_offer_step(fresh_session(), true).0;
            let a1 = offer_applied_step(a0, Some(offer)).0;
            let b1 = begin_answer_step(fresh_session(), true, a1.local.unwrap(), true, client_id).0;
            let b2 = answer_created_step(b1, Some(answer)).0;
            let b3 = answer_applied_step(b2, true).0;
            let a2 = begin_remote_answer_step(a1, b3.local, true).0;
            let a3 = remote_answer_applied_step(a2, true).0;
            &&& a1.state == SessionState::OfferCreated
            &&& b1.state == SessionState::OfferReceived
            &&& b2.state == SessionState::AnswerCreated
            &&& a2.state == SessionState::AnswerApplied
            &&& a3.state == SessionState::Connected
            &&& b3.state == SessionState::Connected
            &&& a3.local == Some(offer) && a3.remote == Some(answer)
            &&& b3.remote == Some(offer) && b3.local == Some(answer)
            &&& b3.client_id == Some(client_id)
        }),
{
}

/// One negotiation with a remote peer.
pub struct SignalingSession {
    state: SessionState,
    local: Option<String>,
    remote: Option<String>,
    client_id: Option<String>,
}

/// A copy of a string, character for character.
fn copy_string(s: &String) -> (r: String)
    ensures
        r@ == s@,
{
    String::from_str(s.as_str())
}

impl View for SignalingSession {
    type V = SessionView;

    closed spec fn view(&self) -> SessionView {
        SessionView {
            state: self.state,
            local: opt_view(self.local),
            remote: opt_view(self.remote),
            client_id: opt_view(self.client_id),
        }
    }
}

impl SignalingSession {
    /// A new, idle session.
    pub fn new() -> (r: SignalingSession)
        ensures
            r@ == fresh_session(),
            session_wf(r@),
    {
        SignalingSession { state: SessionState::Idle, local: None, remote: None, client_id: None }
    }

    /// Where the session stands.
    pub fn state(&self) -> (r: SessionState)
        ensures
            r == self@.state,
    {
        self.state
    }

    /// Marks the session as failed.
    fn fail(&mut self)
        ensures
            final(self)@ == failed(old(self)@),
    {
        self.state = SessionState::Failed;
    }

    /// Decides whether a local offer may be asked of the transport peer.
    pub fn begin_offer(&mut self, peer_ready: bool) -> (r: Result<(), SessionError>)
        requires
            session_wf(old(self)@),
        ensures
            (final(self)@, r) == begin_offer_step(old(self)@, peer_ready),
            session_wf(final(self)@),
    {
        if self.state == SessionState::Idle && peer_ready {
            Ok(())
        } else {
            self.fail();
            Err(SessionError::Negotiation)
        }
    }

    /// Records the offer that the transport produced and applied as local
    /// description, and returns the message that carries it to the remote side.
    pub fn offer_applied(&mut self, offer: Option<String>) -> (r: Result<SdpOfferAnswer, SessionError>)
        requires
            session_wf(old(self)@),
        ensures
            (final(self)@, outcome(r)) == offer_applied_step(old(self)@, opt_view(offer)),
            r matches Ok(m) ==> tagged(m) && opt_view(m.offer) == opt_view(offer) && m.answer is None
                && m.client_id is None,
            session_wf(final(self)@),
    {
        match offer {
            Some(o) => {
                if self.state == SessionState::Idle {
                    let sent = copy_string(&o);
                    self.local = Some(o);
                    self.state = SessionState::OfferCreated;
                    Ok(SdpOfferAnswer::new(Some(sent), None, None))
                } else {
                    self.fail();
                    Err(SessionError::Negotiation)
                }
            },
            None => {
                self.fail();
                Err(SessionError::Negotiation)
            },
        }
    }

    /// Takes the answer out of a message for this session's offer; the caller
    /// has parsed it (`well_formed`) and hands it to the transport.
    pub fn begin_remote_answer(&mut self, msg: &SdpOfferAnswer, well_formed: bool) -> (r: Result<String, SessionError>)
        requires
            session_wf(old(self)@),
        ensures
            (final(self)@, outcome(r)) == begin_remote_answer_step(old(self)@, opt_view(msg.answer), well_formed),
            r matches Ok(a) ==> opt_view(msg.answer) == Some(a@),
            session_wf(final(self)@),
    {
        match &msg.answer {
            None => Err(SessionError::Signaling),
            Some(a) => {
                if !well_formed {
                    Err(SessionError::Signaling)
                } else if self.state == SessionState::OfferCreated {
                    self.remote = Some(copy_string(a));
                    self.state = SessionState::AnswerApplied;
                    Ok(copy_string(a))
                } else {
                    self.fail();
                    Err(SessionError::Negotiation)
                }
            },
        }
    }

    /// Takes whether the transport applied the remote answer.
    pub fn remote_answer_applied(&mut self, accepted: bool) -> (r: Result<(), SessionError>)
        requires
            session_wf(old(self)@),
        ensures
            (final(self)@, r) == remote_answer_applied_step(old(self)@, accepted),
            session_wf(final(self)@),
    {
        if self.state == SessionState::AnswerApplied && accepted {
            self.state = SessionState::Connected;
            Ok(())
        } else {
            self.fail();
            Err(SessionError::Negotiation)
        }
    }

    /// Records a remote offer from `client_id`, which the caller has parsed
    /// (`well_formed`); the caller then hands it to the transport and asks for
    /// an answer.
    pub fn begin_answer(
        &mut self,
        peer_ready: bool,
        offer: String,
        well_formed: bool,
        client_id: String,
    ) -> (r: Result<(), SessionError>)
        requires
            session_wf(old(self)@),
        ensures
            (final(self)@, r) == begin_answer_step(old(self)@, peer_ready, offer@, well_formed, client_id@),
            session_wf(final(self)@),
    {
        if !well_formed {
            Err(SessionError::Signaling)
        } else if self.state == SessionState::Idle && peer_ready {
            self.remote = Some(offer);
            self.client_id = Some(client_id);
            self.state = SessionState::OfferReceived;
            Ok(())
        } else {
            self.fail();
            Err(SessionError::Negotiation)
        }
    }

    /// Takes the answer that the transport synthesized after applying the
    /// remote offer (`None` where it refused the offer or gave no answer);
    /// returns the answer, which the caller applies as local description.
    pub fn answer_created(&mut self, answer: Option<String>) -> (r: Result<String, SessionError>)
        requires
            session_wf(old(self)@),
        ensures
            (final(self)@, outcome(r)) == answer_created_step(old(self)@, opt_view(answer)),
            r matches Ok(a) ==> opt_view(answer) == Some(a@),
            session_wf(final(self)@),
    {
        match answer {
            Some(a) => {
                if self.state == SessionState::OfferReceived {
                    let out = copy_string(&a);
                    self.local = Some(a);
                    self.state = SessionState::AnswerCreated;
                    Ok(out)
                } else {
                    self.fail();
                    Err(SessionError::Negotiation)
                }
            },
            None => {
                self.fail();
                Err(SessionError::Negotiation)
            },
        }
    }

    /// Takes whether the transport applied the local answer; returns the
    /// message that routes the answer back to the client that offered.
    pub fn answer_applied(&mut self, accepted: bool) -> (r: Result<SdpOfferAnswer, SessionError>)
        requires
            session_wf(old(self)@),
        ensures
            (final(self)@, outcome(r)) == answer_applied_step(old(self)@, accepted),
            r matches Ok(m) ==> tagged(m) && m.offer is None && opt_view(m.answer) == old(self)@.local
                && opt_view(m.client_id) == old(self)@.client_id,
            session_wf(final(self)@),
    {
        if self.state == SessionState::AnswerCreated && accepted {
            match (&self.local, &self.client_id) {
                (Some(a), Some(c)) => {
                    let answer = copy_string(a);
                    let client = copy_string(c);
                    self.state = SessionState::Connected;
                    Ok(SdpOfferAnswer::new(None, Some(answer), Some(client)))
                },
                _ => {
                    self.fail();
                    Err(SessionError::Negotiation)
                },
            }
        } else {
            self.fail();
            Err(SessionError::Negotiation)
        }
    }

    /// Decides whether a remote candidate may be handed to the transport.
    /// The session is left as it is either way.
    pub fn check_remote_candidate(&self) -> (r: Result<(), SessionError>)
        ensures
            r is Ok <==> candidate_allowed(self@),
            r is Err ==> r == Err::<(), SessionError>(SessionError::Negotiation),
    {
        if self.remote.is_some() && self.state != SessionState::Failed {
            Ok(())
        } else {
            Err(SessionError::Negotiation)
        }
    }
}

} // verus!
