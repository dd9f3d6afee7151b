//! Perfect negotiation, with the server as the impolite peer: when an offer
//! from the client collides with one that the server is making, the client's
//! offer is discarded rather than the server's rolled back.

use vstd::prelude::*;

use crate::packets::SdpType;

verus! {

/// Current negotiation state
#[derive(Debug, Clone, Copy, PartialEq, Eq, Structural)]
pub struct NegotiationState {
    /// The server is creating and sending a description of its own
    pub making_offer: bool,
    /// The last description from the client was an offer that was discarded
    pub ignore_offer: bool,
    /// An answer from the client is being applied
    pub is_setting_remote_answer_pending: bool,
}

/// What to do with a description received from the client.
#[derive(Debug, Clone, Copy, PartialEq, Eq, Structural)]
pub enum SdpStep {
    /// Discard it: it is an offer that collides with the server's own
    Ignore,
    /// Apply it as the remote description; then, where `send_answer` holds,
    /// create, apply and send a local answer
    Apply { send_answer: bool },
}

impl NegotiationState {
    /// Whether a new offer from the client can be taken now.
    pub open spec fn ready_for_offer(self, signaling_stable: bool) -> bool {
        !self.making_offer && (signaling_stable || self.is_setting_remote_answer_pending)
    }

    /// Whether a description of type `sdp_type` collides with the server's own.
    pub open spec fn offer_collision(self, sdp_type: SdpType, signaling_stable: bool) -> bool {
        sdp_type == SdpType::Offer && !self.ready_for_offer(signaling_stable)
    }

    /// The step taken for a description from the client.
    pub open spec fn description_step(self, sdp_type: SdpType, signaling_stable: bool) -> SdpStep {
        if self.offer_collision(sdp_type, signaling_stable) {
            SdpStep::Ignore
        } else {
            SdpStep::Apply { send_answer: sdp_type == SdpType::Offer }
        }
    }

    /// The state once a description from the client has been received and,
    /// unless discarded, is about to be applied.
    pub open spec fn after_description(self, sdp_type: SdpType, signaling_stable: bool) -> Self {
        let collision = self.offer_collision(sdp_type, signaling_stable);
        if collision {
            NegotiationState { ignore_offer: true, ..self }
        } else {
            NegotiationState {
                ignore_offer: false,
                is_setting_remote_answer_pending: sdp_type == SdpType::Answer,
                ..self
            }
        }
    }

    /// The state at the start of a negotiation: every flag down.
    pub open spec fn new_spec() -> Self {
        NegotiationState {
            making_offer: false,
            ignore_offer: false,
            is_setting_remote_answer_pending: false,
        }
    }

    /// The state at the start of a negotiation.
    pub fn new() -> (r: Self)
        ensures
            r == Self::new_spec(),
    {
        NegotiationState {
            making_offer: false,
            ignore_offer: false,
            is_setting_remote_answer_pending: false,
        }
    }

    /// The server starts making an offer of its own.
    pub fn begin_offer(&mut self)
        ensures
            *final(self) == (NegotiationState { making_offer: true, ..*old(self) }),
    {
        self.making_offer = true;
    }

    /// The server is done making its offer, whether or not that succeeded.
    pub fn end_offer(&mut self)
        ensures
            *final(self) == (NegotiationState { making_offer: false, ..*old(self) }),
    {
        self.making_offer = false;
    }

    /// Take in a description from the client, given whether the connection's
    /// signaling state is stable. An offer that arrives while the server makes
    /// its own, or while the connection is neither stable nor applying an
    /// answer, is discarded and remembered as such; anything else is to be
    /// applied.
    pub fn consume_description(&mut self, sdp_type: SdpType, signaling_stable: bool) -> (r: SdpStep)
        ensures
            r == old(self).description_step(sdp_type, signaling_stable),
            *final(self) == old(self).after_description(sdp_type, signaling_stable),
            sdp_type == SdpType::Offer && (old(self).making_offer || (!signaling_stable
                && !old(self).is_setting_remote_answer_pending)) ==> r == SdpStep::Ignore,
    {
        // Check if we are ready to receive a new SDP
        let ready_for_offer = !self.making_offer && (signaling_stable
            || self.is_setting_remote_answer_pending);
        // Check if this offer is unexpected
        let is_offer = sdp_type == SdpType::Offer;
        let offer_collision = is_offer && !ready_for_offer;
        // We are the impolite peer hence we ignore the offer
        self.ignore_offer = offer_collision;
        if offer_collision {
            return SdpStep::Ignore;
        }
        // If we received an answer, mark it as such locally
        self.is_setting_remote_answer_pending = sdp_type == SdpType::Answer;
        SdpStep::Apply { send_answer: is_offer }
    }

    /// The remote description has been applied.
    pub fn remote_description_applied(&mut self)
        ensures
            *final(self) == (NegotiationState {
                is_setting_remote_answer_pending: false,
                ..*old(self)
            }),
    {
        self.is_setting_remote_answer_pending = false;
    }

    /// Whether a failure to add a remote ICE candidate is reported: not when
    /// the last offer from the client was discarded, since its candidates
    /// belong to that offer.
    pub fn ice_error_surfaces(&self) -> (r: bool)
        ensures
            r == !self.ignore_offer,
    {
        !self.ignore_offer
    }
}

/// Once a description from the client has been discarded, a failure to add
/// the ICE candidate that comes next is swallowed.
pub proof fn lemma_ignored_offer_swallows_ice(
    state: NegotiationState,
    sdp_type: SdpType,
    signaling_stable: bool,
)
    requires
        state.description_step(sdp_type, signaling_stable) == SdpStep::Ignore,
    ensures
        state.after_description(sdp_type, signaling_stable).ignore_offer,
{
}

/// An offer from the client is never applied while the server makes its own
/// offer, nor while the connection is neither stable nor applying an answer.
pub proof fn lemma_colliding_offer_not_applied(
    state: NegotiationState,
    signaling_stable: bool,
)
    requires
        state.making_offer || (!signaling_stable && !state.is_setting_remote_answer_pending),
    ensures
        state.description_step(SdpType::Offer, signaling_stable) == SdpStep::Ignore,
        state.after_description(SdpType::Offer, signaling_stable).ignore_offer,
        state.after_description(SdpType::Offer, signaling_stable).is_setting_remote_answer_pending
            == state.is_setting_remote_answer_pending,
{
}

} // verus!
