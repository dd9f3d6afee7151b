use vortex::negotiation::{NegotiationState, SdpStep};
use vortex::packets::SdpType;

#[test]
fn fresh_state_applies_offer_and_answers() {
    let mut s = NegotiationState::new();
    assert_eq!(s.consume_description(SdpType::Offer, true), SdpStep::Apply { send_answer: true });
    assert!(!s.ignore_offer);
    assert!(!s.is_setting_remote_answer_pending);
}

#[test]
fn offer_while_making_offer_is_ignored() {
    let mut s = NegotiationState::new();
    s.begin_offer();
    assert_eq!(s.consume_description(SdpType::Offer, true), SdpStep::Ignore);
    assert!(s.ignore_offer);
    assert!(s.making_offer);
    assert!(!s.ice_error_surfaces());
}

#[test]
fn offer_while_not_stable_is_ignored() {
    let mut s = NegotiationState::new();
    assert_eq!(s.consume_description(SdpType::Offer, false), SdpStep::Ignore);
    assert!(s.ignore_offer);
}

#[test]
fn answer_marks_pending_until_applied() {
    let mut s = NegotiationState::new();
    s.begin_offer();
    assert_eq!(s.consume_description(SdpType::Answer, false), SdpStep::Apply { send_answer: false });
    assert!(s.is_setting_remote_answer_pending);
    assert!(!s.ignore_offer);
    s.remote_description_applied();
    assert!(!s.is_setting_remote_answer_pending);
}

#[test]
fn offer_while_answer_pending_is_taken() {
    let mut s = NegotiationState::new();
    s.consume_description(SdpType::Answer, false);
    assert_eq!(s.consume_description(SdpType::Offer, false), SdpStep::Apply { send_answer: true });
}

#[test]
fn collision_then_answer_after_offer_completes() {
    // The server is in the middle of renegotiating when the client's offer comes.
    let mut s = NegotiationState::new();
    s.begin_offer();
    assert_eq!(s.consume_description(SdpType::Offer, false), SdpStep::Ignore);
    assert!(s.ignore_offer);
    assert!(!s.ice_error_surfaces());
    s.end_offer();
    assert!(!s.making_offer);
    assert_eq!(s.consume_description(SdpType::Answer, false), SdpStep::Apply { send_answer: false });
    assert!(s.ice_error_surfaces());
}

#[test]
fn ice_errors_surface_normally() {
    let s = NegotiationState::new();
    assert!(s.ice_error_surfaces());
}
