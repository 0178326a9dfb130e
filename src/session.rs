//! The connection lifecycle as a state machine. The caller performs each
//! returned action (a broadcast, a send, starting or cancelling the stream
//! loops) and reports what happened as the next event, with the time; the
//! machine decides everything else. After a session ends it pauses and starts
//! over with discovery, forever.
use vstd::prelude::*;
use crate::packets::{ServerControlPacket, ServerHandshakePacket, ServerMessage};

verus! {

/// Interval between two discovery broadcasts.
pub const DISCOVERY_INTERVAL_MS: u64 = 1000;
/// Least time between the starts of two connection attempts, and the extra
/// wait after finding the network unreachable.
pub const RETRY_CONNECT_MIN_INTERVAL_MS: u64 = 1000;
/// Pause after a session ends, to let its tasks and sockets shut down.
pub const CLEANUP_PAUSE_MS: u64 = 500;
/// Bound on accepting the stream transport after `StreamReady`.
pub const STREAM_SETUP_TIMEOUT_MS: u64 = 5000;
/// Interval between two keepalive messages while streaming.
pub const NETWORK_KEEPALIVE_INTERVAL_MS: u64 = 1000;

#[derive(Clone, Copy, Debug, PartialEq, Eq, Structural)]
pub enum Phase {
    Discovering,
    Handshaking,
    AwaitingStartStream,
    SettingUpStreams,
    Streaming,
    Disconnected,
}

/// Why an attempt ended.
#[derive(Clone, Copy, Debug, PartialEq, Eq, Structural)]
pub enum EndReason {
    NetworkUnreachable,
    Rejected(ServerHandshakePacket),
    Timeout,
    PeerDisconnected,
    ProtocolError,
    Cancelled,
}

/// What the caller observed.
#[derive(Clone, Copy, Debug, PartialEq, Eq, Structural)]
pub enum Event {
    /// Time passed; no message arrived.
    Tick,
    /// A peer answered discovery and the control connection is open.
    PeerAccepted,
    /// The peer refused the handshake.
    PeerRejected(ServerHandshakePacket),
    /// Discovery found no network path.
    NetworkUnreachable,
    /// The headset information went out on the control channel.
    HeadsetInfoSent,
    /// The client configuration arrived on the control channel.
    ConfigReceived,
    /// A control message arrived.
    ControlReceived(ServerControlPacket),
    /// Sending or receiving on the control channel failed.
    ControlFailed,
    /// The stream transport is listening.
    StreamListening,
    /// The stream transport accepted the server.
    StreamAccepted,
    /// One of the streaming loops ended or failed.
    StreamLoopEnded,
    /// The attempt was cancelled from outside.
    Cancelled,
}

/// What the caller is to do next.
#[derive(Clone, Copy, Debug, PartialEq, Eq, Structural)]
pub enum Action {
    Nothing,
    BroadcastHandshake,
    SendHeadsetInfo,
    ListenForStreams,
    SendStreamReady,
    /// Start all streaming loops under the session's connected flag.
    StartStreaming,
    SendKeepAlive,
    /// Clear the connected flag, cancel every loop and release the transport.
    EndSession(EndReason),
}

/// State of the lifecycle.
#[derive(Clone, Copy, Debug, PartialEq, Eq, Structural)]
pub struct Session {
    pub phase: Phase,
    /// Why the last attempt ended, once one has.
    pub end: Option<EndReason>,
    /// When the current attempt began.
    pub attempt_start_ms: u64,
    /// When the current phase began (for the stream setup bound: when
    /// `StreamReady` was sent).
    pub phase_start_ms: u64,
    /// When the last discovery broadcast went out.
    pub last_broadcast_ms: Option<u64>,
    /// When the last keepalive went out.
    pub last_keepalive_ms: u64,
    /// Whether the headset information has been sent in this attempt.
    pub info_sent: bool,
    /// Whether `StreamReady` has been sent in this attempt.
    pub stream_ready_sent: bool,
    /// The flag that every loop of the session watches.
    pub connected: bool,
}

/// `t` has reached `since + wait` (no overflow: the sum is taken in `int`).
pub open spec fn elapsed(now: u64, since: u64, wait: u64) -> bool {
    now as int >= since as int + wait as int
}

/// How long to stay disconnected after an attempt ended for `reason`.
pub open spec fn pause_after(reason: Option<EndReason>) -> u64 {
    if reason == Some(EndReason::NetworkUnreachable) {
        (CLEANUP_PAUSE_MS + RETRY_CONNECT_MIN_INTERVAL_MS) as u64
    } else {
        CLEANUP_PAUSE_MS
    }
}

/// Consistency of a state: the connected flag is set exactly while
/// streaming, and nothing of stream setup has happened before it.
pub open spec fn session_wf(s: Session) -> bool {
    &&& s.connected <==> s.phase == Phase::Streaming
    &&& (s.phase == Phase::Discovering || s.phase == Phase::Handshaking || s.phase == Phase::AwaitingStartStream) ==> !s.stream_ready_sent
    &&& (s.phase == Phase::Discovering) ==> !s.info_sent
    &&& s.phase == Phase::Streaming ==> s.stream_ready_sent
}

/// The state that ends an attempt for `reason` at `now`.
pub open spec fn ended(s: Session, reason: EndReason, now: u64) -> Session {
    Session { phase: Phase::Disconnected, end: Some(reason), phase_start_ms: now, connected: false, ..s }
}

/// One transition: the next state and the action, for event `e` at `now`.
pub open spec fn next(s: Session, e: Event, now: u64) -> (Session, Action) {
    match s.phase {
        Phase::Discovering => match e {
            Event::Tick => match s.last_broadcast_ms {
                Some(t) if !elapsed(now, t, DISCOVERY_INTERVAL_MS) => (s, Action::Nothing),
                _ => (Session { last_broadcast_ms: Some(now), ..s }, Action::BroadcastHandshake),
            },
            Event::PeerAccepted => (
                Session { phase: Phase::Handshaking, phase_start_ms: now, info_sent: false, ..s },
                Action::SendHeadsetInfo,
            ),
            Event::PeerRejected(r) => (ended(s, EndReason::Rejected(r), now), Action::EndSession(EndReason::Rejected(r))),
            Event::NetworkUnreachable => (ended(s, EndReason::NetworkUnreachable, now), Action::EndSession(EndReason::NetworkUnreachable)),
            Event::Cancelled => (ended(s, EndReason::Cancelled, now), Action::EndSession(EndReason::Cancelled)),
            _ => (s, Action::Nothing),
        },
        Phase::Handshaking => match e {
            Event::HeadsetInfoSent => (Session { info_sent: true, ..s }, Action::Nothing),
            Event::ConfigReceived => if s.info_sent {
                (Session { phase: Phase::AwaitingStartStream, phase_start_ms: now, ..s }, Action::Nothing)
            } else {
                (ended(s, EndReason::ProtocolError, now), Action::EndSession(EndReason::ProtocolError))
            },
            Event::ControlReceived(_) => (ended(s, EndReason::ProtocolError, now), Action::EndSession(EndReason::ProtocolError)),
            Event::ControlFailed => (ended(s, EndReason::PeerDisconnected, now), Action::EndSession(EndReason::PeerDisconnected)),
            Event::Cancelled => (ended(s, EndReason::Cancelled, now), Action::EndSession(EndReason::Cancelled)),
            _ => (s, Action::Nothing),
        },
        Phase::AwaitingStartStream => match e {
            Event::ControlReceived(ServerControlPacket::StartStream) => (
                Session { phase: Phase::SettingUpStreams, phase_start_ms: now, stream_ready_sent: false, ..s },
                Action::ListenForStreams,
            ),
            Event::ControlReceived(ServerControlPacket::Restarting) => (ended(s, EndReason::PeerDisconnected, now), Action::EndSession(EndReason::PeerDisconnected)),
            Event::ControlReceived(_) => (ended(s, EndReason::ProtocolError, now), Action::EndSession(EndReason::ProtocolError)),
            Event::ControlFailed => (ended(s, EndReason::PeerDisconnected, now), Action::EndSession(EndReason::PeerDisconnected)),
            Event::Cancelled => (ended(s, EndReason::Cancelled, now), Action::EndSession(EndReason::Cancelled)),
            _ => (s, Action::Nothing),
        },
        Phase::SettingUpStreams => match e {
            Event::StreamListening => if !s.stream_ready_sent {
                (Session { stream_ready_sent: true, phase_start_ms: now, ..s }, Action::SendStreamReady)
            } else {
                (s, Action::Nothing)
            },
            Event::StreamAccepted => if s.stream_ready_sent {
                (Session { phase: Phase::Streaming, phase_start_ms: now, last_keepalive_ms: now, connected: true, ..s }, Action::StartStreaming)
            } else {
                (s, Action::Nothing)
            },
            Event::Tick => if s.stream_ready_sent && elapsed(now, s.phase_start_ms, STREAM_SETUP_TIMEOUT_MS) {
                (ended(s, EndReason::Timeout, now), Action::EndSession(EndReason::Timeout))
            } else {
                (s, Action::Nothing)
            },
            Event::ControlReceived(ServerControlPacket::Restarting) => (ended(s, EndReason::PeerDisconnected, now), Action::EndSession(EndReason::PeerDisconnected)),
            Event::ControlFailed => (ended(s, EndReason::PeerDisconnected, now), Action::EndSession(EndReason::PeerDisconnected)),
            Event::Cancelled => (ended(s, EndReason::Cancelled, now), Action::EndSession(EndReason::Cancelled)),
            _ => (s, Action::Nothing),
        },
        Phase::Streaming => match e {
            Event::Tick => if elapsed(now, s.last_keepalive_ms, NETWORK_KEEPALIVE_INTERVAL_MS) {
                (Session { last_keepalive_ms: now, ..s }, Action::SendKeepAlive)
            } else {
                (s, Action::Nothing)
            },
            Event::ControlReceived(ServerControlPacket::Restarting) => (ended(s, EndReason::PeerDisconnected, now), Action::EndSession(EndReason::PeerDisconnected)),
            Event::ControlFailed => (ended(s, EndReason::PeerDisconnected, now), Action::EndSession(EndReason::PeerDisconnected)),
            Event::StreamLoopEnded => (ended(s, EndReason::PeerDisconnected, now), Action::EndSession(EndReason::PeerDisconnected)),
            Event::Cancelled => (ended(s, EndReason::Cancelled, now), Action::EndSession(EndReason::Cancelled)),
            _ => (s, Action::Nothing),
        },
        Phase::Disconnected => match e {
            Event::Tick => if elapsed(now, s.phase_start_ms, pause_after(s.end)) && elapsed(now, s.attempt_start_ms, RETRY_CONNECT_MIN_INTERVAL_MS) {
                (
                    Session {
                        phase: Phase::Discovering,
                        attempt_start_ms: now,
                        phase_start_ms: now,
                        info_sent: false,
                        stream_ready_sent: false,
                        connected: false,
                        ..s
                    },
                    Action::Nothing,
                )
            } else {
                (s, Action::Nothing)
            },
            _ => (s, Action::Nothing),
        },
    }
}


/// Every transition keeps a state consistent.
pub proof fn lemma_next_wf(s: Session, e: Event, now: u64)
    requires
        session_wf(s),
    ensures
        session_wf(next(s, e, now).0),
{
}

/// Feeds events `(event, time)` in order: the final state and each action
/// with the time of the event that caused it.
pub open spec fn run(s: Session, evs: Seq<(Event, u64)>) -> (Session, Seq<(Action, u64)>)
    decreases evs.len(),
{
    if evs.len() == 0 {
        (s, Seq::empty())
    } else {
        let prev = run(s, evs.drop_last());
        let st = next(prev.0, evs.last().0, evs.last().1);
        (st.0, prev.1.push((st.1, evs.last().1)))
    }
}

/// The handshake phase is entered only from discovery and only when a peer
/// accepted: never on a rejection or an unreachable network.
pub proof fn lemma_handshake_only_on_accept(s: Session, e: Event, now: u64)
    ensures
        next(s, e, now).0.phase == Phase::Handshaking && s.phase != Phase::Handshaking
            ==> s.phase == Phase::Discovering && e == Event::PeerAccepted,
        (e is PeerRejected || e is NetworkUnreachable) && s.phase == Phase::Discovering
            ==> next(s, e, now).0.phase == Phase::Disconnected,
{
}

/// Discovery broadcasts are at least one interval apart, over any run that
/// starts before the first broadcast.
pub proof fn lemma_broadcast_spacing(s: Session, evs: Seq<(Event, u64)>)
    requires
        s.last_broadcast_ms is None,
    ensures
        forall|i: int, j: int|
            0 <= i < j < evs.len() && (#[trigger] run(s, evs).1[i]).0 == Action::BroadcastHandshake
                && (#[trigger] run(s, evs).1[j]).0 == Action::BroadcastHandshake
                ==> run(s, evs).1[j].1 >= run(s, evs).1[i].1 + DISCOVERY_INTERVAL_MS,
    decreases evs.len(),
{
    lemma_broadcast_history(s, evs);
}

proof fn lemma_broadcast_history(s: Session, evs: Seq<(Event, u64)>)
    requires
        s.last_broadcast_ms is None,
    ensures
        run(s, evs).1.len() == evs.len(),
        forall|i: int| 0 <= i < evs.len() && (#[trigger] run(s, evs).1[i]).0 == Action::BroadcastHandshake
            ==> run(s, evs).0.last_broadcast_ms is Some && run(s, evs).1[i].1 <= run(s, evs).0.last_broadcast_ms.unwrap(),
        forall|i: int, j: int|
            0 <= i < j < evs.len() && (#[trigger] run(s, evs).1[i]).0 == Action::BroadcastHandshake
                && (#[trigger] run(s, evs).1[j]).0 == Action::BroadcastHandshake
                ==> run(s, evs).1[j].1 >= run(s, evs).1[i].1 + DISCOVERY_INTERVAL_MS,
    decreases evs.len(),
{
    if evs.len() > 0 {
        lemma_broadcast_history(s, evs.drop_last());
        let prev = run(s, evs.drop_last());
        let st = next(prev.0, evs.last().0, evs.last().1);
        let acts = run(s, evs).1;
        assert(acts =~= prev.1.push((st.1, evs.last().1)));
        assert forall|i: int| 0 <= i < evs.len() && (#[trigger] acts[i]).0 == Action::BroadcastHandshake
            implies run(s, evs).0.last_broadcast_ms is Some && acts[i].1 <= run(s, evs).0.last_broadcast_ms.unwrap() by {
            if i < evs.len() - 1 {
                assert(acts[i] == prev.1[i]);
            }
        }
        assert forall|i: int, j: int|
            0 <= i < j < evs.len() && (#[trigger] acts[i]).0 == Action::BroadcastHandshake
                && (#[trigger] acts[j]).0 == Action::BroadcastHandshake
            implies acts[j].1 >= acts[i].1 + DISCOVERY_INTERVAL_MS by {
            assert(acts[i] == prev.1[i]);
            if j < evs.len() - 1 {
                assert(acts[j] == prev.1[j]);
            }
        }
    }
}

/// While no peer answers, discovery goes on for any number of ticks: the
/// phase stays `Discovering`, and every tick at least one interval after the
/// last broadcast (or before any) broadcasts again.
pub proof fn lemma_discovery_persists(s: Session, evs: Seq<(Event, u64)>)
    requires
        s.phase == Phase::Discovering,
        forall|i: int| 0 <= i < evs.len() ==> (#[trigger] evs[i]).0 == Event::Tick,
    ensures
        run(s, evs).0.phase == Phase::Discovering,
        run(s, evs).1.len() == evs.len(),
        forall|i: int| 0 <= i < evs.len() ==> (#[trigger] run(s, evs).1[i]).0 == Action::Nothing
            || run(s, evs).1[i].0 == Action::BroadcastHandshake,
        forall|now: u64| (match #[trigger] run(s, evs).0.last_broadcast_ms {
            None => true,
            Some(t) => elapsed(now, t, DISCOVERY_INTERVAL_MS),
        }) ==> next(run(s, evs).0, Event::Tick, now).1 == Action::BroadcastHandshake,
    decreases evs.len(),
{
    if evs.len() > 0 {
        let init = evs.drop_last();
        assert forall|i: int| 0 <= i < init.len() implies (#[trigger] init[i]).0 == Event::Tick by {
            assert(init[i] == evs[i]);
        }
        lemma_discovery_persists(s, init);
        assert(evs.last() == evs[evs.len() - 1]);
        let prev = run(s, init);
        let st = next(prev.0, evs.last().0, evs.last().1);
        assert(run(s, evs).1 =~= prev.1.push((st.1, evs.last().1)));
        assert forall|i: int| 0 <= i < evs.len() implies (#[trigger] run(s, evs).1[i]).0 == Action::Nothing
            || run(s, evs).1[i].0 == Action::BroadcastHandshake by {
            if i < init.len() {
                assert(run(s, evs).1[i] == prev.1[i]);
            }
        }
    }
}

/// The client configuration is accepted only after the headset information
/// was sent: arriving before, it ends the attempt as a protocol error.
pub proof fn lemma_config_needs_headset_info(s: Session, e: Event, now: u64)
    ensures
        s.phase == Phase::Handshaking && !s.info_sent ==> next(s, Event::ConfigReceived, now) == (
            ended(s, EndReason::ProtocolError, now),
            Action::EndSession(EndReason::ProtocolError),
        ),
        next(s, e, now).0.phase == Phase::AwaitingStartStream && s.phase != Phase::AwaitingStartStream
            ==> s.phase == Phase::Handshaking && s.info_sent && e == Event::ConfigReceived,
{
}

/// A streaming session ends on any terminal signal (the server restarting,
/// a control failure, a stream loop ending, cancellation): the connected flag
/// is cleared and every loop is told to stop in the same step. Nothing else
/// ends it. After the pause a new attempt starts with discovery.
pub proof fn lemma_streaming_teardown(s: Session, e: Event, now: u64, later: u64)
    requires
        s.phase == Phase::Streaming,
    ensures
        next(s, e, now).0.phase != Phase::Streaming <==> (e == Event::ControlReceived(ServerControlPacket::Restarting)
            || e == Event::ControlFailed || e == Event::StreamLoopEnded || e == Event::Cancelled),
        next(s, e, now).0.phase != Phase::Streaming ==> {
            &&& next(s, e, now).0.phase == Phase::Disconnected
            &&& !next(s, e, now).0.connected
            &&& next(s, e, now).1 is EndSession
        },
        next(s, Event::ControlReceived(ServerControlPacket::Restarting), now).1 == Action::EndSession(EndReason::PeerDisconnected),
        elapsed(later, now, CLEANUP_PAUSE_MS) && elapsed(later, s.attempt_start_ms, RETRY_CONNECT_MIN_INTERVAL_MS) ==>
            next(next(s, e, now).0, Event::Tick, later).0.phase == Phase::Discovering
                || next(s, e, now).0.phase == Phase::Streaming,
{
}

/// Stream setup is bounded: once `StreamReady` went out, a tick at or after
/// the bound without the transport accepted ends the attempt with `Timeout`.
pub proof fn lemma_stream_setup_timeout(s: Session, now: u64)
    requires
        s.phase == Phase::SettingUpStreams,
        s.stream_ready_sent,
        elapsed(now, s.phase_start_ms, STREAM_SETUP_TIMEOUT_MS),
    ensures
        next(s, Event::Tick, now) == (ended(s, EndReason::Timeout, now), Action::EndSession(EndReason::Timeout)),
{
}

/// Number of `StreamReady` sends over `evs` before a new attempt begins.
pub open spec fn stream_ready_count(s: Session, evs: Seq<(Event, u64)>) -> nat
    decreases evs.len(),
{
    if evs.len() == 0 {
        0
    } else {
        let st = next(s, evs[0].0, evs[0].1);
        if st.0.phase == Phase::Discovering && s.phase != Phase::Discovering {
            0
        } else {
            (if st.1 == Action::SendStreamReady { 1nat } else { 0nat }) + stream_ready_count(st.0, evs.drop_first())
        }
    }
}

/// `StreamReady` is sent at most once per attempt, and not at all once it
/// has been sent, whatever events follow.
pub proof fn lemma_stream_ready_once(s: Session, evs: Seq<(Event, u64)>)
    requires
        session_wf(s),
    ensures
        stream_ready_count(s, evs) <= if s.stream_ready_sent { 0nat } else { 1nat },
    decreases evs.len(),
{
    if evs.len() > 0 {
        let st = next(s, evs[0].0, evs[0].1);
        lemma_next_wf(s, evs[0].0, evs[0].1);
        lemma_stream_ready_once(st.0, evs.drop_first());
    }
}

fn has_elapsed(now: u64, since: u64, wait: u64) -> (r: bool)
    ensures
        r == elapsed(now, since, wait),
{
    since <= now && now - since >= wait
}

fn pause_for(reason: Option<EndReason>) -> (r: u64)
    ensures
        r == pause_after(reason),
{
    match reason {
        Some(EndReason::NetworkUnreachable) => CLEANUP_PAUSE_MS + RETRY_CONNECT_MIN_INTERVAL_MS,
        _ => CLEANUP_PAUSE_MS,
    }
}

impl Session {
    /// The first attempt, starting with discovery at `now_ms`.
    pub fn new(now_ms: u64) -> (r: Session)
        ensures
            r.phase == Phase::Discovering,
            r.end is None,
            r.attempt_start_ms == now_ms,
            r.phase_start_ms == now_ms,
            r.last_broadcast_ms is None,
            !r.info_sent,
            !r.stream_ready_sent,
            !r.connected,
            session_wf(r),
    {
        Session {
            phase: Phase::Discovering,
            end: None,
            attempt_start_ms: now_ms,
            phase_start_ms: now_ms,
            last_broadcast_ms: None,
            last_keepalive_ms: now_ms,
            info_sent: false,
            stream_ready_sent: false,
            connected: false,
        }
    }

    fn end_with(&mut self, reason: EndReason, now_ms: u64) -> (r: Action)
        ensures
            *final(self) == ended(*old(self), reason, now_ms),
            r == Action::EndSession(reason),
    {
        self.phase = Phase::Disconnected;
        self.end = Some(reason);
        self.phase_start_ms = now_ms;
        self.connected = false;
        Action::EndSession(reason)
    }

    /// Applies event `e` observed at `now_ms` and returns what to do next.
    pub fn step(&mut self, e: Event, now_ms: u64) -> (r: Action)
        ensures
            (*final(self), r) == next(*old(self), e, now_ms),
            session_wf(*old(self)) ==> session_wf(*final(self)),
    {
        match self.phase {
            Phase::Discovering => match e {
                Event::Tick => {
                    match self.last_broadcast_ms {
                        Some(t) => {
                            if !has_elapsed(now_ms, t, DISCOVERY_INTERVAL_MS) {
                                return Action::Nothing;
                            }
                        },
                        None => {},
                    }
                    self.last_broadcast_ms = Some(now_ms);
                    Action::BroadcastHandshake
                },
                Event::PeerAccepted => {
                    self.phase = Phase::Handshaking;
                    self.phase_start_ms = now_ms;
                    self.info_sent = false;
                    Action::SendHeadsetInfo
                },
                Event::PeerRejected(r) => self.end_with(EndReason::Rejected(r), now_ms),
                Event::NetworkUnreachable => self.end_with(EndReason::NetworkUnreachable, now_ms),
                Event::Cancelled => self.end_with(EndReason::Cancelled, now_ms),
                _ => Action::Nothing,
            },
            Phase::Handshaking => match e {
                Event::HeadsetInfoSent => {
                    self.info_sent = true;
                    Action::Nothing
                },
                Event::ConfigReceived => {
                    if self.info_sent {
                        self.phase = Phase::AwaitingStartStream;
                        self.phase_start_ms = now_ms;
                        Action::Nothing
                    } else {
                        self.end_with(EndReason::ProtocolError, now_ms)
                    }
                },
                Event::ControlReceived(_) => self.end_with(EndReason::ProtocolError, now_ms),
                Event::ControlFailed => self.end_with(EndReason::PeerDisconnected, now_ms),
                Event::Cancelled => self.end_with(EndReason::Cancelled, now_ms),
                _ => Action::Nothing,
            },
            Phase::AwaitingStartStream => match e {
                Event::ControlReceived(ServerControlPacket::StartStream) => {
                    self.phase = Phase::SettingUpStreams;
                    self.phase_start_ms = now_ms;
                    self.stream_ready_sent = false;
                    Action::ListenForStreams
                },
                Event::ControlReceived(ServerControlPacket::Restarting) => self.end_with(EndReason::PeerDisconnected, now_ms),
                Event::ControlReceived(_) => self.end_with(EndReason::ProtocolError, now_ms),
                Event::ControlFailed => self.end_with(EndReason::PeerDisconnected, now_ms),
                Event::Cancelled => self.end_with(EndReason::Cancelled, now_ms),
                _ => Action::Nothing,
            },
            Phase::SettingUpStreams => match e {
                Event::StreamListening => {
                    if !self.stream_ready_sent {
                        self.stream_ready_sent = true;
                        self.phase_start_ms = now_ms;
                        Action::SendStreamReady
                    } else {
                        Action::Nothing
                    }
                },
                Event::StreamAccepted => {
                    if self.stream_ready_sent {
                        self.phase = Phase::Streaming;
                        self.phase_start_ms = now_ms;
                        self.last_keepalive_ms = now_ms;
                        self.connected = true;
                        Action::StartStreaming
                    } else {
                        Action::Nothing
                    }
                },
                Event::Tick => {
                    if self.stream_ready_sent && has_elapsed(now_ms, self.phase_start_ms, STREAM_SETUP_TIMEOUT_MS) {
                        self.end_with(EndReason::Timeout, now_ms)
                    } else {
                        Action::Nothing
                    }
                },
                Event::ControlReceived(ServerControlPacket::Restarting) => self.end_with(EndReason::PeerDisconnected, now_ms),
                Event::ControlFailed => self.end_with(EndReason::PeerDisconnected, now_ms),
                Event::Cancelled => self.end_with(EndReason::Cancelled, now_ms),
                _ => Action::Nothing,
            },
            Phase::Streaming => match e {
                Event::Tick => {
                    if has_elapsed(now_ms, self.last_keepalive_ms, NETWORK_KEEPALIVE_INTERVAL_MS) {
                        self.last_keepalive_ms = now_ms;
                        Action::SendKeepAlive
                    } else {
                        Action::Nothing
                    }
                },
                Event::ControlReceived(ServerControlPacket::Restarting) => self.end_with(EndReason::PeerDisconnected, now_ms),
                Event::ControlFailed => self.end_with(EndReason::PeerDisconnected, now_ms),
                Event::StreamLoopEnded => self.end_with(EndReason::PeerDisconnected, now_ms),
                Event::Cancelled => self.end_with(EndReason::Cancelled, now_ms),
                _ => Action::Nothing,
            },
            Phase::Disconnected => match e {
                Event::Tick => {
                    if has_elapsed(now_ms, self.phase_start_ms, pause_for(self.end))
                        && has_elapsed(now_ms, self.attempt_start_ms, RETRY_CONNECT_MIN_INTERVAL_MS) {
                        self.phase = Phase::Discovering;
                        self.attempt_start_ms = now_ms;
                        self.phase_start_ms = now_ms;
                        self.info_sent = false;
                        self.stream_ready_sent = false;
                        self.connected = false;
                    }
                    Action::Nothing
                },
                _ => Action::Nothing,
            },
        }
    }
}


impl Event {
    /// The event for a message received on the control channel.
    pub fn from_server_message(m: ServerMessage) -> (r: Event)
        ensures
            r == match m {
                ServerMessage::ClientConfig => Event::ConfigReceived,
                ServerMessage::Control(p) => Event::ControlReceived(p),
            },
    {
        match m {
            ServerMessage::ClientConfig => Event::ConfigReceived,
            ServerMessage::Control(p) => Event::ControlReceived(p),
        }
    }
}


/// Lowest audio sample rate that playback accepts; a server choosing less
/// would crash the audio device.
pub const MIN_GAME_AUDIO_SAMPLE_RATE: u32 = 8000;

/// Whether the game-audio playback loop runs in a session: only where the
/// configuration enables it and the server chose a usable sample rate.
pub fn game_audio_enabled(configured: bool, sample_rate: u32) -> (r: bool)
    ensures
        r == (configured && sample_rate >= MIN_GAME_AUDIO_SAMPLE_RATE),
{
    configured && sample_rate >= MIN_GAME_AUDIO_SAMPLE_RATE
}

} // verus!
