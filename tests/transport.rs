use alxr_common::framing::{encode_frame, FrameDecoder, FrameError, MAX_FRAME_LEN};
use alxr_common::packets::{AUDIO, HAPTICS, VIDEO};
use alxr_common::stream::{encode_stream_message, Dispatch, StreamDemux, StreamError};
use alxr_common::wire::{encode_video_frame, VideoFrameHeaderPacket, VIDEO_FRAME_HEADER_LEN};

#[test]
fn frame_has_big_endian_length_prefix() {
    let f = encode_frame(&vec![7, 8, 9]).unwrap();
    assert_eq!(f, vec![0, 0, 0, 3, 7, 8, 9]);
    let big = encode_frame(&vec![1u8; 300]).unwrap();
    assert_eq!(&big[..4], &[0, 0, 1, 44]);
}

#[test]
fn oversized_payload_is_refused() {
    assert_eq!(
        encode_frame(&vec![0u8; MAX_FRAME_LEN + 1]),
        Err(FrameError::TooLong)
    );
}

#[test]
fn frames_are_decoded_in_order_across_chunks() {
    let mut bytes = encode_frame(&vec![1, 2]).unwrap();
    bytes.extend(encode_frame(&vec![]).unwrap());
    bytes.extend(encode_frame(&vec![3, 4, 5]).unwrap());
    let mut d = FrameDecoder::new();
    let mut got = Vec::new();
    for chunk in bytes.chunks(3) {
        d.push_bytes(chunk);
        while let Ok(Some(f)) = d.next_frame() {
            got.push(f);
        }
    }
    assert_eq!(got, vec![vec![1, 2], vec![], vec![3, 4, 5]]);
    assert_eq!(d.next_frame(), Ok(None));
}

#[test]
fn oversized_header_is_an_error() {
    let mut d = FrameDecoder::new();
    d.push_bytes(&[0xff, 0xff, 0xff, 0xff, 1]);
    assert_eq!(d.next_frame(), Err(FrameError::TooLong));
}

#[test]
fn messages_reach_only_their_topic_in_order() {
    let mut demux = StreamDemux::new();
    demux.subscribe(VIDEO).unwrap();
    demux.subscribe(HAPTICS).unwrap();
    assert_eq!(demux.subscribe(17), Err(StreamError::UnknownTopic));
    let m1 = encode_stream_message(VIDEO, &vec![1]);
    assert_eq!(m1, vec![0, 3, 1]);
    assert_eq!(demux.dispatch(m1), Dispatch::Delivered(VIDEO));
    assert_eq!(
        demux.dispatch(encode_stream_message(HAPTICS, &vec![2])),
        Dispatch::Delivered(HAPTICS)
    );
    assert_eq!(
        demux.dispatch(encode_stream_message(VIDEO, &vec![3, 4])),
        Dispatch::Delivered(VIDEO)
    );
    assert_eq!(
        demux.dispatch(encode_stream_message(AUDIO, &vec![5])),
        Dispatch::Unsubscribed(AUDIO)
    );
    assert_eq!(demux.dispatch(vec![0]), Dispatch::Malformed);
    assert_eq!(demux.recv(VIDEO), Some(vec![1]));
    assert_eq!(demux.recv(VIDEO), Some(vec![3, 4]));
    assert_eq!(demux.recv(VIDEO), None);
    assert_eq!(demux.recv(HAPTICS), Some(vec![2]));
    assert_eq!(demux.recv(AUDIO), None);
}

#[test]
fn resubscribing_keeps_queued_messages() {
    let mut demux = StreamDemux::new();
    demux.subscribe(AUDIO).unwrap();
    demux.dispatch(encode_stream_message(AUDIO, &vec![9]));
    demux.subscribe(AUDIO).unwrap();
    assert_eq!(demux.recv(AUDIO), Some(vec![9]));
}

#[test]
fn video_frame_record_layout() {
    let h = VideoFrameHeaderPacket {
        packet_counter: 0x01020304,
        tracking_frame_index: 5,
        video_frame_index: 0x0102,
        sent_time: 0x1122334455667788,
        frame_byte_size: 1000,
        fec_index: 2,
        fec_percentage: 5,
    };
    let r = encode_video_frame(&h, &vec![0xaa, 0xbb]);
    assert_eq!(r.len(), VIDEO_FRAME_HEADER_LEN + 2);
    let expected: Vec<u8> = vec![
        9, 0, 0, 0, // type
        4, 3, 2, 1, // packet counter
        5, 0, 0, 0, 0, 0, 0, 0, // tracking frame index
        2, 1, 0, 0, 0, 0, 0, 0, // video frame index
        0x88, 0x77, 0x66, 0x55, 0x44, 0x33, 0x22, 0x11, // sent time
        0xe8, 3, 0, 0, // frame byte size
        2, 0, 0, 0, // fec index
        5, 0, // fec percentage
        0xaa, 0xbb,
    ];
    assert_eq!(r, expected);
}
