//! Length-delimited framing of the control connection: each message is a
//! four-byte big-endian length followed by that many payload bytes.
use vstd::prelude::*;

verus! {

/// Largest payload a frame may carry.
pub const MAX_FRAME_LEN: usize = 8388608;

/// Length header size.
pub const HEADER_LEN: usize = 4;

/// The four big-endian bytes of `n`.
pub open spec fn be_bytes(n: u32) -> Seq<u8> {
    seq![(n >> 24u32) as u8, (n >> 16u32) as u8, (n >> 8u32) as u8, n as u8]
}

/// The number whose big-endian bytes are `b0 b1 b2 b3`.
pub open spec fn be_value(b0: u8, b1: u8, b2: u8, b3: u8) -> u32 {
    ((b0 as u32) << 24u32) | ((b1 as u32) << 16u32) | ((b2 as u32) << 8u32) | (b3 as u32)
}

pub proof fn lemma_be_round_trip(n: u32)
    ensures
        be_value(be_bytes(n)[0], be_bytes(n)[1], be_bytes(n)[2], be_bytes(n)[3]) == n,
{
    let b0 = (n >> 24u32) as u8;
    let b1 = (n >> 16u32) as u8;
    let b2 = (n >> 8u32) as u8;
    let b3 = n as u8;
    assert(((b0 as u32) << 24u32) | ((b1 as u32) << 16u32) | ((b2 as u32) << 8u32) | (b3 as u32) == n) by (bit_vector)
        requires
            b0 == (n >> 24u32) as u8,
            b1 == (n >> 16u32) as u8,
            b2 == (n >> 8u32) as u8,
            b3 == n as u8,
    ;
}

/// The frame that carries `payload`.
pub open spec fn frame_of(payload: Seq<u8>) -> Seq<u8> {
    be_bytes(payload.len() as u32) + payload
}

/// What the front of a receive buffer holds.
pub enum FrameParse {
    /// Not a whole frame yet.
    Incomplete,
    /// The header announces more than the largest payload.
    TooLong,
    /// A frame with this payload, and the bytes after it.
    Frame(Seq<u8>, Seq<u8>),
}

pub open spec fn parse_frame(buf: Seq<u8>) -> FrameParse {
    if buf.len() < 4 {
        FrameParse::Incomplete
    } else {
        let n = be_value(buf[0], buf[1], buf[2], buf[3]) as int;
        if n > MAX_FRAME_LEN {
            FrameParse::TooLong
        } else if buf.len() < 4 + n {
            FrameParse::Incomplete
        } else {
            FrameParse::Frame(buf.subrange(4, 4 + n), buf.subrange(4 + n, buf.len() as int))
        }
    }
}

/// A frame read back from the front of a buffer gives the payload it was
/// made from and leaves what followed it untouched.
pub proof fn lemma_frame_round_trip(payload: Seq<u8>, rest: Seq<u8>)
    requires
        payload.len() <= MAX_FRAME_LEN,
    ensures
        parse_frame(frame_of(payload) + rest) == FrameParse::Frame(payload, rest),
{
    let n = payload.len() as u32;
    lemma_be_round_trip(n);
    let buf = frame_of(payload) + rest;
    assert(buf[0] == be_bytes(n)[0] && buf[1] == be_bytes(n)[1] && buf[2] == be_bytes(n)[2] && buf[3] == be_bytes(n)[3]);
    assert(buf.subrange(4, 4 + payload.len() as int) =~= payload);
    assert(buf.subrange(4 + payload.len() as int, buf.len() as int) =~= rest);
}

/// Why framing failed.
#[derive(Clone, Copy, Debug, PartialEq, Eq, Structural)]
pub enum FrameError {
    TooLong,
}

/// The frame for `payload`; payloads over the largest size are refused.
pub fn encode_frame(payload: &Vec<u8>) -> (r: Result<Vec<u8>, FrameError>)
    ensures
        payload@.len() <= MAX_FRAME_LEN ==> (r matches Ok(f) && f@ == frame_of(payload@)),
        payload@.len() > MAX_FRAME_LEN ==> r == Err::<Vec<u8>, FrameError>(FrameError::TooLong),
{
    if payload.len() > MAX_FRAME_LEN {
        return Err(FrameError::TooLong);
    }
    let n = payload.len() as u32;
    let mut out: Vec<u8> = Vec::new();
    out.push((n >> 24u32) as u8);
    out.push((n >> 16u32) as u8);
    out.push((n >> 8u32) as u8);
    out.push(n as u8);
    let mut i: usize = 0;
    while i < payload.len()
        invariant
            i <= payload@.len(),
            n == payload@.len(),
            out@ == be_bytes(n) + payload@.subrange(0, i as int),
        decreases payload@.len() - i,
    {
        out.push(payload[i]);
        i = i + 1;
        assert(out@ =~= be_bytes(n) + payload@.subrange(0, i as int));
    }
    assert(payload@.subrange(0, i as int) =~= payload@);
    Ok(out)
}

/// Collects received bytes and hands out whole frames in order.
pub struct FrameDecoder {
    buf: Vec<u8>,
}

impl View for FrameDecoder {
    type V = Seq<u8>;

    /// Bytes received and not yet handed out.
    closed spec fn view(&self) -> Seq<u8> {
        self.buf@
    }
}

impl FrameDecoder {
    pub fn new() -> (r: FrameDecoder)
        ensures
            r@ == Seq::<u8>::empty(),
    {
        FrameDecoder { buf: Vec::new() }
    }

    /// Appends received bytes.
    pub fn push_bytes(&mut self, bytes: &[u8])
        ensures
            final(self)@ == old(self)@ + bytes@,
    {
        let mut i: usize = 0;
        while i < bytes.len()
            invariant
                i <= bytes@.len(),
                self@ == old(self)@ + bytes@.subrange(0, i as int),
            decreases bytes@.len() - i,
        {
            self.buf.push(bytes[i]);
            i = i + 1;
            assert(self@ =~= old(self)@ + bytes@.subrange(0, i as int));
        }
        assert(bytes@.subrange(0, i as int) =~= bytes@);
    }

    /// The next whole frame's payload, if one has arrived. A header that
    /// announces an oversized payload is an error and leaves the bytes as
    /// they are.
    pub fn next_frame(&mut self) -> (r: Result<Option<Vec<u8>>, FrameError>)
        ensures
            match parse_frame(old(self)@) {
                FrameParse::Incomplete => r matches Ok(None) && final(self)@ == old(self)@,
                FrameParse::TooLong => r == Err::<Option<Vec<u8>>, FrameError>(FrameError::TooLong) && final(self)@ == old(self)@,
                FrameParse::Frame(p, rest) => r matches Ok(Some(f)) && f@ == p && final(self)@ == rest,
            },
    {
        if self.buf.len() < HEADER_LEN {
            return Ok(None);
        }
        let n = (((self.buf[0] as u32) << 24u32) | ((self.buf[1] as u32) << 16u32) | ((self.buf[2] as u32) << 8u32) | (self.buf[3] as u32)) as usize;
        if n > MAX_FRAME_LEN {
            return Err(FrameError::TooLong);
        }
        if self.buf.len() - HEADER_LEN < n {
            return Ok(None);
        }
        let ghost whole = self.buf@;
        let rest = self.buf.split_off(HEADER_LEN + n);
        let payload = self.buf.split_off(HEADER_LEN);
        self.buf = rest;
        assert(payload@ =~= whole.subrange(4, 4 + n));
        Ok(Some(payload))
    }
}

} // verus!
