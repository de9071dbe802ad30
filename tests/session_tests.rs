use screen_share::message::SdpOfferAnswer;
use screen_share::session::{SessionError, SessionState, SignalingSession};

#[test]
fn offer_without_peer_fails_with_negotiation_error() {
    let mut s = SignalingSession::new();
    assert_eq!(s.begin_offer(false), Err(SessionError::Negotiation));
    assert_eq!(s.state(), SessionState::Failed);
}

#[test]
fn candidate_before_description_is_refused() {
    let s = SignalingSession::new();
    assert_eq!(s.check_remote_candidate(), Err(SessionError::Negotiation));
    assert_eq!(s.state(), SessionState::Idle);
}

#[test]
fn offer_answer_round_trip_connects() {
    let mut a = SignalingSession::new();
    assert_eq!(a.begin_offer(true), Ok(()));
    let offer_msg = a.offer_applied(Some("OFFER".to_string())).unwrap();
    assert_eq!(a.state(), SessionState::OfferCreated);
    assert_eq!(offer_msg.offer.as_deref(), Some("OFFER"));

    let mut b = SignalingSession::new();
    let offer = offer_msg.offer.clone().unwrap();
    assert_eq!(b.begin_answer(true, offer, true, "client-7".to_string()), Ok(()));
    assert_eq!(b.state(), SessionState::OfferReceived);
    assert_eq!(b.check_remote_candidate(), Ok(()));
    let answer = b.answer_created(Some("ANSWER".to_string())).unwrap();
    assert_eq!(answer, "ANSWER");
    assert_eq!(b.state(), SessionState::AnswerCreated);
    let answer_msg = b.answer_applied(true).unwrap();
    assert_eq!(b.state(), SessionState::Connected);
    assert_eq!(answer_msg.client_id.as_deref(), Some("client-7"));
    assert_eq!(answer_msg.answer.as_deref(), Some("ANSWER"));

    assert_eq!(a.begin_remote_answer(&answer_msg, true), Ok("ANSWER".to_string()));
    assert_eq!(a.state(), SessionState::AnswerApplied);
    assert_eq!(a.remote_answer_applied(true), Ok(()));
    assert_eq!(a.state(), SessionState::Connected);
}

#[test]
fn answer_message_without_answer_is_signaling_error() {
    let mut a = SignalingSession::new();
    a.begin_offer(true).unwrap();
    a.offer_applied(Some("o".to_string())).unwrap();
    let msg = SdpOfferAnswer::new(None, None, None);
    assert_eq!(a.begin_remote_answer(&msg, true), Err(SessionError::Signaling));
    assert_eq!(a.state(), SessionState::OfferCreated);
}

#[test]
fn malformed_answer_keeps_offer_state() {
    let mut a = SignalingSession::new();
    a.begin_offer(true).unwrap();
    a.offer_applied(Some("o".to_string())).unwrap();
    let msg = SdpOfferAnswer::new(None, Some("not json".to_string()), None);
    assert_eq!(a.begin_remote_answer(&msg, false), Err(SessionError::Signaling));
    assert_eq!(a.state(), SessionState::OfferCreated);
    assert_eq!(a.check_remote_candidate(), Err(SessionError::Negotiation));
}

#[test]
fn malformed_answer_on_fresh_session_is_rejected() {
    let mut a = SignalingSession::new();
    let msg = SdpOfferAnswer::new(None, Some("not json".to_string()), None);
    assert_eq!(a.begin_remote_answer(&msg, false), Err(SessionError::Signaling));
    assert_eq!(a.state(), SessionState::Idle);
    assert_eq!(a.begin_offer(true), Ok(()));
}

#[test]
fn answer_before_offer_fails() {
    let mut a = SignalingSession::new();
    let msg = SdpOfferAnswer::new(None, Some("x".to_string()), None);
    assert_eq!(a.begin_remote_answer(&msg, true), Err(SessionError::Negotiation));
    assert_eq!(a.state(), SessionState::Failed);
}

#[test]
fn refused_remote_answer_fails_session() {
    let mut a = SignalingSession::new();
    a.begin_offer(true).unwrap();
    a.offer_applied(Some("o".to_string())).unwrap();
    let msg = SdpOfferAnswer::new(None, Some("a".to_string()), None);
    a.begin_remote_answer(&msg, true).unwrap();
    assert_eq!(a.remote_answer_applied(false), Err(SessionError::Negotiation));
    assert_eq!(a.state(), SessionState::Failed);
}

#[test]
fn rejected_description_fails_and_stays_failed() {
    let mut b = SignalingSession::new();
    b.begin_answer(true, "o".to_string(), true, "c".to_string()).unwrap();
    assert_eq!(b.answer_created(None), Err(SessionError::Negotiation));
    assert_eq!(b.state(), SessionState::Failed);
    assert_eq!(b.begin_offer(true), Err(SessionError::Negotiation));
    assert_eq!(b.answer_applied(true).err(), Some(SessionError::Negotiation));
    assert_eq!(b.state(), SessionState::Failed);
    assert_eq!(b.check_remote_candidate(), Err(SessionError::Negotiation));
}

#[test]
fn malformed_offer_is_rejected_in_any_state() {
    let mut b = SignalingSession::new();
    let r = b.begin_answer(true, "junk".to_string(), false, "c".to_string());
    assert_eq!(r, Err(SessionError::Signaling));
    assert_eq!(b.state(), SessionState::Idle);
    let r = b.begin_answer(false, "junk".to_string(), false, "c".to_string());
    assert_eq!(r, Err(SessionError::Signaling));
    assert_eq!(b.state(), SessionState::Idle);

    let mut a = SignalingSession::new();
    a.begin_offer(true).unwrap();
    a.offer_applied(Some("o".to_string())).unwrap();
    let r = a.begin_answer(true, "junk".to_string(), false, "c".to_string());
    assert_eq!(r, Err(SessionError::Signaling));
    assert_eq!(a.state(), SessionState::OfferCreated);
    // A well-formed offer in the wrong state is an ordering error.
    let r = a.begin_answer(true, "o2".to_string(), true, "c".to_string());
    assert_eq!(r, Err(SessionError::Negotiation));
    assert_eq!(a.state(), SessionState::Failed);
}
