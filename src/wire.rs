//! Fixed binary layouts handed to the native video pipeline: fields in
//! declared order, little-endian, without padding.
use vstd::prelude::*;

verus! {

/// Type tag of a video frame record.
pub const VIDEO_FRAME_TYPE: u32 = 9;

/// Size of the video frame record header.
pub const VIDEO_FRAME_HEADER_LEN: usize = 42;

/// Metadata of one video packet.
#[derive(Clone, Copy, Debug, PartialEq, Eq, Structural)]
pub struct VideoFrameHeaderPacket {
    pub packet_counter: u32,
    pub tracking_frame_index: u64,
    pub video_frame_index: u64,
    pub sent_time: u64,
    pub frame_byte_size: u32,
    pub fec_index: u32,
    pub fec_percentage: u16,
}

/// The `n` low bytes of `v`, least significant first.
pub open spec fn le_bytes(v: nat, n: nat) -> Seq<u8>
    decreases n,
{
    if n == 0 {
        Seq::empty()
    } else {
        seq![(v % 256) as u8] + le_bytes(v / 256, (n - 1) as nat)
    }
}

/// The record for a packet: header fields after the type tag, then the payload.
pub open spec fn video_frame_record(h: VideoFrameHeaderPacket, payload: Seq<u8>) -> Seq<u8> {
    le_bytes(VIDEO_FRAME_TYPE as nat, 4) + le_bytes(h.packet_counter as nat, 4) + le_bytes(h.tracking_frame_index as nat, 8)
        + le_bytes(h.video_frame_index as nat, 8) + le_bytes(h.sent_time as nat, 8) + le_bytes(h.frame_byte_size as nat, 4)
        + le_bytes(h.fec_index as nat, 4) + le_bytes(h.fec_percentage as nat, 2) + payload
}

fn push_le(out: &mut Vec<u8>, v: u64, n: usize)
    ensures
        final(out)@ == old(out)@ + le_bytes(v as nat, n as nat),
{
    let mut cur: u64 = v;
    let mut k: usize = 0;
    while k < n
        invariant
            k <= n,
            old(out)@ + le_bytes(v as nat, n as nat) == out@ + le_bytes(cur as nat, (n - k) as nat),
        decreases n - k,
    {
        let ghost before = out@;
        out.push((cur % 256) as u8);
        assert(le_bytes(cur as nat, (n - k) as nat) == seq![(cur % 256) as u8] + le_bytes((cur / 256) as nat, (n - k - 1) as nat));
        assert(before + le_bytes(cur as nat, (n - k) as nat) =~= out@ + le_bytes((cur / 256) as nat, (n - k - 1) as nat));
        cur = cur / 256;
        k = k + 1;
    }
    assert(out@ + le_bytes(cur as nat, 0) =~= out@);
}

/// The record that the native pipeline reads for one video packet.
pub fn encode_video_frame(h: &VideoFrameHeaderPacket, payload: &Vec<u8>) -> (r: Vec<u8>)
    ensures
        r@ == video_frame_record(*h, payload@),
        r@.len() == VIDEO_FRAME_HEADER_LEN + payload@.len(),
{
    let mut out: Vec<u8> = Vec::new();
    push_le(&mut out, VIDEO_FRAME_TYPE as u64, 4);
    push_le(&mut out, h.packet_counter as u64, 4);
    push_le(&mut out, h.tracking_frame_index, 8);
    push_le(&mut out, h.video_frame_index, 8);
    push_le(&mut out, h.sent_time, 8);
    push_le(&mut out, h.frame_byte_size as u64, 4);
    push_le(&mut out, h.fec_index as u64, 4);
    push_le(&mut out, h.fec_percentage as u64, 2);
    let ghost head = out@;
    let mut i: usize = 0;
    while i < payload.len()
        invariant
            i <= payload@.len(),
            out@ == head + payload@.subrange(0, i as int),
        decreases payload@.len() - i,
    {
        out.push(payload[i]);
        i = i + 1;
        assert(out@ =~= head + payload@.subrange(0, i as int));
    }
    assert(payload@.subrange(0, i as int) =~= payload@);
    proof {
        lemma_le_len(VIDEO_FRAME_TYPE as nat, 4);
        lemma_le_len(h.packet_counter as nat, 4);
        lemma_le_len(h.tracking_frame_index as nat, 8);
        lemma_le_len(h.video_frame_index as nat, 8);
        lemma_le_len(h.sent_time as nat, 8);
        lemma_le_len(h.frame_byte_size as nat, 4);
        lemma_le_len(h.fec_index as nat, 4);
        lemma_le_len(h.fec_percentage as nat, 2);
        assert(out@ =~= video_frame_record(*h, payload@));
    }
    out
}

pub proof fn lemma_le_len(v: nat, n: nat)
    ensures
        le_bytes(v, n).len() == n,
    decreases n,
{
    if n > 0 {
        lemma_le_len(v / 256, (n - 1) as nat);
    }
}

} // verus!
