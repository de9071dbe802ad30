use screen_share::message::SdpOfferAnswer;
use screen_share::CLIENT_SDP_OFFER;

#[test]
fn new_sets_flag() {
    let m = SdpOfferAnswer::new(Some("o".to_string()), None, None);
    assert_eq!(m.flag.as_deref(), Some(CLIENT_SDP_OFFER));
    assert_eq!(m.offer.as_deref(), Some("o"));
    assert!(m.answer.is_none());
    assert!(m.client_id.is_none());
}

#[test]
fn offer_json_omits_absent_fields() {
    let m = SdpOfferAnswer::new(Some("v=0".to_string()), None, None);
    assert_eq!(m.to_json(), r#"{"flag":"client_sdp_offer","offer":"v=0"}"#);
}

#[test]
fn answer_json_carries_client_id() {
    let m = SdpOfferAnswer::new(None, Some("ans".to_string()), Some("c1".to_string()));
    assert_eq!(m.to_json(), r#"{"flag":"client_sdp_offer","answer":"ans","clientId":"c1"}"#);
}

#[test]
fn json_escapes_quotes_and_newlines() {
    let m = SdpOfferAnswer {
        flag: None,
        offer: Some("a\"b\r\n".to_string()),
        answer: None,
        client_id: None,
    };
    assert_eq!(m.to_json(), r#"{"offer":"a\"b\r\n"}"#);
    let empty = SdpOfferAnswer { flag: None, offer: None, answer: None, client_id: None };
    assert_eq!(empty.to_json(), "{}");
}

#[test]
fn json_escapes_control_characters() {
    let m = SdpOfferAnswer {
        flag: None,
        offer: None,
        answer: Some("\u{1}\t\u{8}\u{c}\\/\u{1f}é".to_string()),
        client_id: None,
    };
    assert_eq!(m.to_json(), r#"{"answer":"\u0001\t\b\f\\/\u001fé"}"#);
}
