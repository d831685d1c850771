//! The liveness prober: one probe cycle per open connection.
//!
//! A probe is sent, and is then either answered or times out.  Probing is
//! periodic: after an answer or a timeout the next probe starts the cycle
//! again.  An answered probe is reported upward as a responsive peer; a
//! timeout only marks the connection as degraded.

use crate::event::{NetworkEvent, NetworkEventView};
use crate::identity::PeerIdentity;
use vstd::prelude::*;

verus! {

/// Where a connection stands in its probe cycle.
#[derive(Clone, Copy, Debug, PartialEq, Eq, Structural)]
pub enum ProbeState {
    /// No probe has been sent yet.
    Idle,
    /// A probe is on its way and has not been answered.
    ProbeSent,
    /// The last probe was answered.
    Acked,
    /// The last probe was not answered in time.
    TimedOut,
}

/// What the transport tells the prober.
#[derive(Clone, Copy, Debug, PartialEq, Eq, Structural)]
pub enum ProbeSignal {
    /// A probe was sent.
    Sent,
    /// The probe that was sent has been answered.
    Answered,
    /// The probe that was sent has not been answered in time.
    Expired,
}

/// The state that follows `state` on `signal`.  A signal that does not fit
/// the state leaves it as it is.
pub open spec fn next_probe_state(state: ProbeState, signal: ProbeSignal) -> ProbeState {
    match (state, signal) {
        (ProbeState::ProbeSent, ProbeSignal::Answered) => ProbeState::Acked,
        (ProbeState::ProbeSent, ProbeSignal::Expired) => ProbeState::TimedOut,
        (_, ProbeSignal::Sent) => ProbeState::ProbeSent,
        (_, _) => state,
    }
}

/// Whether `signal` in `state` confirms that the peer is alive: only the
/// answer to a probe that was sent does.
pub open spec fn confirms_liveness(state: ProbeState, signal: ProbeSignal) -> bool {
    state == ProbeState::ProbeSent && signal == ProbeSignal::Answered
}

/// What a prober is, as plain values.
pub struct ProberModel {
    pub peer: Seq<u8>,
    pub state: ProbeState,
}

/// The prober of one connection.
#[derive(Debug)]
pub struct Prober {
    peer: PeerIdentity,
    state: ProbeState,
}

impl View for Prober {
    type V = ProberModel;

    closed spec fn view(&self) -> ProberModel {
        ProberModel { peer: self.peer@, state: self.state }
    }
}

impl Prober {
    /// The prober of a new connection to `peer`: nothing has been sent.
    pub fn new(peer: PeerIdentity) -> (prober: Prober)
        ensures
            prober@ == (ProberModel { peer: peer@, state: ProbeState::Idle }),
    {
        Prober { peer, state: ProbeState::Idle }
    }

    /// Where the connection stands in its probe cycle.
    pub fn state(&self) -> (state: ProbeState)
        ensures
            state == self@.state,
    {
        self.state
    }

    /// The peer at the other end of the connection.
    pub fn peer(&self) -> (peer: &PeerIdentity)
        ensures
            peer@ == self@.peer,
    {
        &self.peer
    }

    /// Whether the last probe went unanswered.
    pub fn is_degraded(&self) -> (degraded: bool)
        ensures
            degraded == (self@.state == ProbeState::TimedOut),
    {
        self.state == ProbeState::TimedOut
    }

    /// Takes one signal from the transport.  The answer to a probe that was
    /// sent is reported as a responsive peer; nothing else is reported.
    pub fn observe(&mut self, signal: ProbeSignal) -> (report: Option<NetworkEvent>)
        ensures
            final(self)@ == (ProberModel {
                peer: old(self)@.peer,
                state: next_probe_state(old(self)@.state, signal),
            }),
            report is Some <==> confirms_liveness(old(self)@.state, signal),
            report matches Some(event) ==> event@ == NetworkEventView::PeerResponsive(
                old(self)@.peer,
            ),
    {
        match (self.state, signal) {
            (ProbeState::ProbeSent, ProbeSignal::Answered) => {
                self.state = ProbeState::Acked;
                Some(NetworkEvent::PeerResponsive(self.peer.clone()))
            },
            (ProbeState::ProbeSent, ProbeSignal::Expired) => {
                self.state = ProbeState::TimedOut;
                None
            },
            (_, ProbeSignal::Sent) => {
                self.state = ProbeState::ProbeSent;
                None
            },
            (_, _) => None,
        }
    }
}

} // verus!
