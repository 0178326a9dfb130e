use alxr_common::packets::{ServerControlPacket, ServerHandshakePacket};
use alxr_common::session::{Action, EndReason, Event, Phase, Session};

fn accept_and_handshake(s: &mut Session, t: u64) {
    assert_eq!(s.step(Event::PeerAccepted, t), Action::SendHeadsetInfo);
    assert_eq!(s.phase, Phase::Handshaking);
    assert_eq!(s.step(Event::HeadsetInfoSent, t + 1), Action::Nothing);
    assert_eq!(s.step(Event::ConfigReceived, t + 2), Action::Nothing);
    assert_eq!(s.phase, Phase::AwaitingStartStream);
}

fn reach_streaming(s: &mut Session, t: u64) {
    accept_and_handshake(s, t);
    assert_eq!(
        s.step(Event::ControlReceived(ServerControlPacket::StartStream), t + 3),
        Action::ListenForStreams
    );
    assert_eq!(s.phase, Phase::SettingUpStreams);
    assert_eq!(s.step(Event::StreamListening, t + 4), Action::SendStreamReady);
    assert_eq!(s.step(Event::StreamAccepted, t + 100), Action::StartStreaming);
    assert_eq!(s.phase, Phase::Streaming);
    assert!(s.connected);
}

#[test]
fn scenario_accepted_handshake_reaches_streaming() {
    let mut s = Session::new(0);
    assert_eq!(s.step(Event::Tick, 0), Action::BroadcastHandshake);
    reach_streaming(&mut s, 10);
    assert!(s.stream_ready_sent);
    assert_eq!(s.end, None);
}

#[test]
fn scenario_silent_peer_keeps_discovering() {
    let mut s = Session::new(0);
    let mut broadcasts: u64 = 0;
    let mut t: u64 = 0;
    while t <= 60_000 {
        if s.step(Event::Tick, t) == Action::BroadcastHandshake {
            broadcasts += 1;
        }
        assert_eq!(s.phase, Phase::Discovering);
        t += 250;
    }
    // one broadcast per second over sixty seconds, the first at time zero
    assert_eq!(broadcasts, 61);
}

#[test]
fn scenario_restarting_during_streaming_tears_down_and_retries() {
    let mut s = Session::new(0);
    reach_streaming(&mut s, 2_000);
    assert_eq!(
        s.step(Event::ControlReceived(ServerControlPacket::Restarting), 3_000),
        Action::EndSession(EndReason::PeerDisconnected)
    );
    assert_eq!(s.phase, Phase::Disconnected);
    assert!(!s.connected);
    // still pausing
    assert_eq!(s.step(Event::Tick, 3_200), Action::Nothing);
    assert_eq!(s.phase, Phase::Disconnected);
    // after the cleanup pause a new attempt begins
    assert_eq!(s.step(Event::Tick, 3_500), Action::Nothing);
    assert_eq!(s.phase, Phase::Discovering);
    assert!(!s.stream_ready_sent);
    assert!(!s.info_sent);
}

#[test]
fn scenario_stream_accept_timeout() {
    let mut s = Session::new(0);
    accept_and_handshake(&mut s, 10);
    s.step(Event::ControlReceived(ServerControlPacket::StartStream), 20);
    assert_eq!(s.step(Event::StreamListening, 30), Action::SendStreamReady);
    assert_eq!(s.step(Event::Tick, 4_000), Action::Nothing);
    assert_eq!(s.step(Event::StreamListening, 4_500), Action::Nothing);
    assert_eq!(s.step(Event::Tick, 5_029), Action::Nothing);
    assert_eq!(
        s.step(Event::Tick, 5_030),
        Action::EndSession(EndReason::Timeout)
    );
    assert_eq!(s.phase, Phase::Disconnected);
    assert_eq!(s.end, Some(EndReason::Timeout));
    // a late accept does not revive the attempt
    assert_eq!(s.step(Event::StreamAccepted, 5_100), Action::Nothing);
    assert_eq!(s.phase, Phase::Disconnected);
}

#[test]
fn config_before_headset_info_is_rejected() {
    let mut s = Session::new(0);
    assert_eq!(s.step(Event::PeerAccepted, 5), Action::SendHeadsetInfo);
    assert_eq!(
        s.step(Event::ConfigReceived, 6),
        Action::EndSession(EndReason::ProtocolError)
    );
    assert_eq!(s.phase, Phase::Disconnected);
}

#[test]
fn rejection_and_unreachable_never_handshake() {
    let mut s = Session::new(0);
    assert_eq!(
        s.step(Event::PeerRejected(ServerHandshakePacket::ClientUntrusted), 1),
        Action::EndSession(EndReason::Rejected(ServerHandshakePacket::ClientUntrusted))
    );
    assert_eq!(s.phase, Phase::Disconnected);

    let mut u = Session::new(0);
    assert_eq!(
        u.step(Event::NetworkUnreachable, 1),
        Action::EndSession(EndReason::NetworkUnreachable)
    );
    // unreachable waits the retry interval on top of the cleanup pause
    assert_eq!(u.step(Event::Tick, 1_000), Action::Nothing);
    assert_eq!(u.phase, Phase::Disconnected);
    u.step(Event::Tick, 1_501);
    assert_eq!(u.phase, Phase::Discovering);
}

#[test]
fn restarting_before_start_stream_disconnects() {
    let mut s = Session::new(0);
    accept_and_handshake(&mut s, 1);
    assert_eq!(
        s.step(Event::ControlReceived(ServerControlPacket::Restarting), 10),
        Action::EndSession(EndReason::PeerDisconnected)
    );
    let mut p = Session::new(0);
    accept_and_handshake(&mut p, 1);
    assert_eq!(
        p.step(Event::ControlReceived(ServerControlPacket::TimeSync), 10),
        Action::EndSession(EndReason::ProtocolError)
    );
}

#[test]
fn keepalive_once_per_interval_while_streaming() {
    let mut s = Session::new(0);
    reach_streaming(&mut s, 0);
    // streaming began at 100
    assert_eq!(s.step(Event::Tick, 600), Action::Nothing);
    assert_eq!(s.step(Event::Tick, 1_100), Action::SendKeepAlive);
    assert_eq!(s.step(Event::Tick, 1_500), Action::Nothing);
    assert_eq!(s.step(Event::Tick, 2_100), Action::SendKeepAlive);
}

#[test]
fn any_stream_loop_end_cancels_the_session() {
    for e in [Event::StreamLoopEnded, Event::ControlFailed, Event::Cancelled] {
        let mut s = Session::new(0);
        reach_streaming(&mut s, 0);
        match s.step(e, 500) {
            Action::EndSession(_) => {}
            other => panic!("unexpected action {:?}", other),
        }
        assert!(!s.connected);
        assert_eq!(s.phase, Phase::Disconnected);
    }
}
