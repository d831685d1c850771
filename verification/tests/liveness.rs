use chakra::event::NetworkEvent;
use chakra::identity::PeerIdentity;
use chakra::liveness::{ProbeSignal, ProbeState, Prober};

fn probed_peer() -> PeerIdentity {
    PeerIdentity::from_bytes(vec![0, 4, 5, 6, 7, 8]).unwrap()
}

#[test]
fn prober_starts_idle() {
    let prober = Prober::new(probed_peer());
    assert_eq!(prober.state(), ProbeState::Idle);
    assert!(!prober.is_degraded());
    assert_eq!(prober.peer().to_bytes(), vec![0, 4, 5, 6, 7, 8]);
}

#[test]
fn answered_probe_reports_the_peer() {
    let mut prober = Prober::new(probed_peer());
    assert!(prober.observe(ProbeSignal::Sent).is_none());
    assert_eq!(prober.state(), ProbeState::ProbeSent);
    match prober.observe(ProbeSignal::Answered) {
        Some(NetworkEvent::PeerResponsive(peer)) => {
            assert_eq!(peer.to_bytes(), vec![0, 4, 5, 6, 7, 8])
        }
        _ => panic!("the answered probe was not reported"),
    }
    assert_eq!(prober.state(), ProbeState::Acked);
    assert!(!prober.is_degraded());
}

#[test]
fn expired_probe_degrades_the_connection_and_reports_nothing() {
    let mut prober = Prober::new(probed_peer());
    assert!(prober.observe(ProbeSignal::Sent).is_none());
    assert!(prober.observe(ProbeSignal::Expired).is_none());
    assert_eq!(prober.state(), ProbeState::TimedOut);
    assert!(prober.is_degraded());
}

#[test]
fn probing_is_periodic() {
    let mut prober = Prober::new(probed_peer());
    assert!(prober.observe(ProbeSignal::Sent).is_none());
    assert!(prober.observe(ProbeSignal::Expired).is_none());
    assert!(prober.observe(ProbeSignal::Sent).is_none());
    assert_eq!(prober.state(), ProbeState::ProbeSent);
    assert!(prober.observe(ProbeSignal::Answered).is_some());
    assert!(prober.observe(ProbeSignal::Sent).is_none());
    assert_eq!(prober.state(), ProbeState::ProbeSent);
    assert!(prober.observe(ProbeSignal::Sent).is_none());
    assert_eq!(prober.state(), ProbeState::ProbeSent);
    assert!(prober.observe(ProbeSignal::Answered).is_some());
    assert_eq!(prober.state(), ProbeState::Acked);
}

#[test]
fn signal_that_does_not_fit_the_state_changes_nothing() {
    let mut prober = Prober::new(probed_peer());
    assert!(prober.observe(ProbeSignal::Answered).is_none());
    assert_eq!(prober.state(), ProbeState::Idle);
    assert!(prober.observe(ProbeSignal::Expired).is_none());
    assert_eq!(prober.state(), ProbeState::Idle);
    assert!(prober.observe(ProbeSignal::Sent).is_none());
    assert!(prober.observe(ProbeSignal::Answered).is_some());
    assert!(prober.observe(ProbeSignal::Answered).is_none());
    assert_eq!(prober.state(), ProbeState::Acked);
    assert!(prober.observe(ProbeSignal::Expired).is_none());
    assert_eq!(prober.state(), ProbeState::Acked);
}
