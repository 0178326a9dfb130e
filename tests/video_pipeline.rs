use alxr_common::idr::{IdrNotifier, IdrTimer, IDR_REQUEST_DEADLINE_MS};
use alxr_common::nal::{Codec, NalKind, NalParser};
use alxr_common::video::{NalRoute, VideoPipeline};

fn h264_stream() -> Vec<u8> {
    vec![
        0, 0, 0, 1, 0x67, 0x42, 0x00, // SPS
        0, 0, 0, 1, 0x68, 0xce, // PPS
        0, 0, 1, 0x65, 0x88, 0x84, 0x21, // IDR slice
        0, 0, 1, 0x41, 0x9a, // non-IDR slice
        0, 0, 1, // start of the next unit
    ]
}

fn collect(parser: &mut NalParser, pieces: &[&[u8]]) -> Vec<(NalKind, Vec<u8>)> {
    let mut out = Vec::new();
    for p in pieces {
        out.extend(parser.process_packet(&p.to_vec()));
    }
    out
}

#[test]
fn h264_units_are_split_and_classified() {
    let mut p = NalParser::new(Codec::H264);
    let units = p.process_packet(&h264_stream());
    let kinds: Vec<NalKind> = units.iter().map(|u| u.0).collect();
    assert_eq!(
        kinds,
        vec![NalKind::Config, NalKind::Config, NalKind::Frame, NalKind::Frame]
    );
    // the leading zero of a four-byte start code trails the previous unit
    assert_eq!(units[0].1, vec![0, 0, 1, 0x67, 0x42, 0x00, 0]);
    assert_eq!(units[1].1, vec![0, 0, 1, 0x68, 0xce]);
    assert_eq!(units[2].1, vec![0, 0, 1, 0x65, 0x88, 0x84, 0x21]);
    assert_eq!(units[3].1, vec![0, 0, 1, 0x41, 0x9a]);
}

#[test]
fn hevc_parameter_sets_are_config() {
    let mut p = NalParser::new(Codec::Hevc);
    let stream = vec![
        0, 0, 1, 0x40, 0x01, // VPS (type 32)
        0, 0, 1, 0x42, 0x01, // SPS (type 33)
        0, 0, 1, 0x44, 0x01, // PPS (type 34)
        0, 0, 1, 0x26, 0x01, // IDR (type 19)
        0, 0, 1,
    ];
    let kinds: Vec<NalKind> = p.process_packet(&stream).iter().map(|u| u.0).collect();
    assert_eq!(
        kinds,
        vec![NalKind::Config, NalKind::Config, NalKind::Config, NalKind::Frame]
    );
}

#[test]
fn fragmentation_does_not_change_the_units() {
    let stream = h264_stream();
    let mut whole = NalParser::new(Codec::H264);
    let expected = whole.process_packet(&stream);
    for cut in 0..=stream.len() {
        for cut2 in cut..=stream.len() {
            let mut split = NalParser::new(Codec::H264);
            let got = collect(
                &mut split,
                &[&stream[..cut], &stream[cut..cut2], &stream[cut2..]],
            );
            assert_eq!(got, expected, "cuts at {} and {}", cut, cut2);
        }
    }
}

#[test]
fn bytes_before_the_first_start_code_are_dropped() {
    let mut p = NalParser::new(Codec::H264);
    let units = p.process_packet(&vec![9, 9, 0, 0, 1, 0x41, 0, 0, 1]);
    assert_eq!(units, vec![(NalKind::Frame, vec![0, 0, 1, 0x41])]);
    assert_eq!(p.process_packet(&vec![]), vec![]);
}

#[test]
fn decoder_is_built_once() {
    let mut v = VideoPipeline::new();
    assert_eq!(v.route(NalKind::Frame, false), NalRoute::DiscardNoDecoder);
    assert_eq!(v.route(NalKind::Config, false), NalRoute::ConstructDecoder);
    assert!(v.decoder_ready());
    assert_eq!(v.route(NalKind::Config, false), NalRoute::PushToDecoder);
    assert_eq!(v.route(NalKind::Frame, false), NalRoute::PushToDecoder);
    assert_eq!(v.route(NalKind::Frame, true), NalRoute::DiscardStandby);
    assert_eq!(v.route(NalKind::Config, true), NalRoute::DiscardStandby);
}

#[test]
fn standby_does_not_prevent_construction() {
    let mut v = VideoPipeline::new();
    assert_eq!(v.route(NalKind::Config, true), NalRoute::ConstructDecoder);
}

#[test]
fn idr_requested_once_after_deadline() {
    let mut t = IdrTimer::new();
    let mut requests = Vec::new();
    let mut now: u64 = 10_000;
    while now <= 10_000 + IDR_REQUEST_DEADLINE_MS + 1_900 {
        if t.observe(true, now) {
            requests.push(now);
        }
        now += 100;
    }
    assert_eq!(requests, vec![12_000]);
}

#[test]
fn idr_requests_repeat_every_deadline_while_waiting() {
    let mut t = IdrTimer::new();
    let mut requests = Vec::new();
    for now in (0..=7_000u64).step_by(500) {
        if t.observe(true, now) {
            requests.push(now);
        }
    }
    assert_eq!(requests, vec![2_000, 4_500, 7_000]);
}

#[test]
fn idr_deadline_is_disarmed_when_decoding_resumes() {
    let mut t = IdrTimer::new();
    assert!(!t.observe(true, 0));
    assert!(!t.observe(false, 1_000));
    assert!(!t.observe(true, 2_500));
    assert!(!t.observe(true, 4_400));
    assert!(t.observe(true, 4_500));
}

#[test]
fn idr_notifications_coalesce() {
    let mut n = IdrNotifier::new();
    assert!(!n.take());
    n.notify();
    n.notify();
    n.on_decoder_push(false);
    assert!(n.take());
    assert!(!n.take());
    n.on_decoder_push(true);
    assert!(!n.take());
    n.on_decoder_push(false);
    assert!(n.take());
}
