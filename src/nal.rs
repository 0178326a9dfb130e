//! Annex-B bitstream scanning: splits encoded video into NAL units at
//! `00 00 01` start codes and classifies each unit as parameter sets
//! (`Config`) or picture data (`Frame`). A unit that is still open when a
//! packet ends is carried over and completed by the next packet.
use vstd::prelude::*;

verus! {

/// Video codec of the stream; it decides how the NAL header byte is read.
#[derive(Clone, Copy, Debug, PartialEq, Eq, Structural)]
pub enum Codec {
    H264,
    Hevc,
}

/// Classification of one NAL unit.
#[derive(Clone, Copy, Debug, PartialEq, Eq, Structural)]
pub enum NalKind {
    Config,
    Frame,
}

/// Length of the start code `00 00 01` that opens every unit.
pub const START_CODE_LEN: usize = 3;

/// Whether a NAL header byte announces a parameter set: SPS or PPS for
/// H.264 (type in the low five bits), VPS, SPS or PPS for HEVC (type in
/// bits one to six).
pub open spec fn is_parameter_set(codec: Codec, header: u8) -> bool {
    match codec {
        Codec::H264 => {
            let t = header % 32;
            t == 7 || t == 8
        },
        Codec::Hevc => {
            let t = (header / 2) % 64;
            32 <= t && t <= 34
        },
    }
}

/// Kind of a unit that begins with its start code: the byte after the
/// start code is the NAL header.
pub open spec fn kind_of(codec: Codec, unit: Seq<u8>) -> NalKind {
    if unit.len() > 3 && is_parameter_set(codec, unit[3]) {
        NalKind::Config
    } else {
        NalKind::Frame
    }
}

/// Whether `s` ends with a start code.
pub open spec fn ends_with_start_code(s: Seq<u8>) -> bool {
    s.len() >= 3 && s[s.len() - 3] == 0 && s[s.len() - 2] == 0 && s[s.len() - 1] == 1
}

/// What the scanner remembers between bytes: the bytes of the unit that is
/// still open, and whether a start code has been seen at all (bytes before
/// the first start code belong to no unit and are dropped).
pub struct ScanState {
    pub pending: Seq<u8>,
    pub started: bool,
}

/// The scanner before any byte.
pub open spec fn initial_scan() -> ScanState {
    ScanState { pending: Seq::empty(), started: false }
}

/// One byte of input: when it completes a start code, the open unit (without
/// that start code) is closed and handed out, and a new unit opens.
pub open spec fn scan_byte(st: ScanState, b: u8) -> (ScanState, Option<Seq<u8>>) {
    let p = st.pending.push(b);
    if ends_with_start_code(p) {
        (
            ScanState { pending: seq![0u8, 0u8, 1u8], started: true },
            if st.started {
                Some(p.subrange(0, p.len() - 3))
            } else {
                None
            },
        )
    } else {
        (ScanState { pending: p, started: st.started }, None)
    }
}

/// The scanner after `bytes`, and the units closed on the way, in order.
pub open spec fn scan(st: ScanState, bytes: Seq<u8>) -> (ScanState, Seq<Seq<u8>>)
    decreases bytes.len(),
{
    if bytes.len() == 0 {
        (st, Seq::empty())
    } else {
        let prev = scan(st, bytes.drop_last());
        let next = scan_byte(prev.0, bytes.last());
        (
            next.0,
            match next.1 {
                Some(u) => prev.1.push(u),
                None => prev.1,
            },
        )
    }
}

/// Feeding `a` and then `b` leaves the scanner as feeding `a + b` does, and
/// the units handed out by the two calls, put together, are those handed out
/// by the single call: where a packet is split makes no difference.
pub proof fn lemma_scan_split(st: ScanState, a: Seq<u8>, b: Seq<u8>)
    ensures
        scan(st, a + b).0 == scan(scan(st, a).0, b).0,
        scan(st, a + b).1 == scan(st, a).1 + scan(scan(st, a).0, b).1,
    decreases b.len(),
{
    if b.len() == 0 {
        assert(a + b =~= a);
        assert(scan(st, a).1 + Seq::<Seq<u8>>::empty() =~= scan(st, a).1);
    } else {
        lemma_scan_split(st, a, b.drop_last());
        assert((a + b).drop_last() =~= a + b.drop_last());
        assert((a + b).last() == b.last());
        let mid = scan(st, a);
        let left = scan(mid.0, b.drop_last());
        let next = scan_byte(left.0, b.last());
        match next.1 {
            Some(u) => {
                assert(mid.1 + left.1.push(u) =~= (mid.1 + left.1).push(u));
            },
            None => {},
        }
    }
}

/// Units paired with their kinds, as the parser hands them out.
pub open spec fn classified(codec: Codec, r: Seq<(NalKind, Vec<u8>)>, units: Seq<Seq<u8>>) -> bool {
    &&& r.len() == units.len()
    &&& forall|i: int| 0 <= i < r.len() ==> (#[trigger] r[i]).1@ == units[i] && r[i].0 == kind_of(codec, units[i])
}

/// Stateful scanner of one video stream.
pub struct NalParser {
    codec: Codec,
    pending: Vec<u8>,
    started: bool,
}

impl View for NalParser {
    type V = ScanState;

    closed spec fn view(&self) -> ScanState {
        ScanState { pending: self.pending@, started: self.started }
    }
}

impl NalParser {
    pub closed spec fn spec_codec(&self) -> Codec {
        self.codec
    }

    /// A scanner for `codec` that has seen no byte yet.
    pub fn new(codec: Codec) -> (r: NalParser)
        ensures
            r@ == initial_scan(),
            r.spec_codec() == codec,
    {
        let r = NalParser { codec, pending: Vec::new(), started: false };
        assert(r@.pending =~= Seq::<u8>::empty());
        r
    }

    pub fn codec(&self) -> (r: Codec)
        ensures
            r == self.spec_codec(),
    {
        self.codec
    }

    /// Classifies the header byte of `unit` for this stream's codec.
    fn unit_kind(&self, unit: &Vec<u8>) -> (r: NalKind)
        ensures
            r == kind_of(self.spec_codec(), unit@),
    {
        if unit.len() > 3 {
            let h = unit[3];
            let config = match self.codec {
                Codec::H264 => {
                    let t = h % 32;
                    t == 7 || t == 8
                },
                Codec::Hevc => {
                    let t = (h / 2) % 64;
                    32 <= t && t <= 34
                },
            };
            if config {
                NalKind::Config
            } else {
                NalKind::Frame
            }
        } else {
            NalKind::Frame
        }
    }

    /// Scans one packet. Units closed by a start code in `packet` are returned
    /// with their kinds, each beginning with its own start code; the unit still
    /// open at the end of the packet is kept for the next call.
    pub fn process_packet(&mut self, packet: &Vec<u8>) -> (r: Vec<(NalKind, Vec<u8>)>)
        ensures
            final(self).spec_codec() == old(self).spec_codec(),
            final(self)@ == scan(old(self)@, packet@).0,
            classified(old(self).spec_codec(), r@, scan(old(self)@, packet@).1),
    {
        let mut out: Vec<(NalKind, Vec<u8>)> = Vec::new();
        let ghost st0 = self@;
        let mut i: usize = 0;
        while i < packet.len()
            invariant
                i <= packet@.len(),
                self.spec_codec() == old(self).spec_codec(),
                st0 == old(self)@,
                self@ == scan(st0, packet@.subrange(0, i as int)).0,
                classified(self.spec_codec(), out@, scan(st0, packet@.subrange(0, i as int)).1),
            decreases packet@.len() - i,
        {
            let b = packet[i];
            let ghost before = self@;
            proof {
                assert(packet@.subrange(0, i as int + 1).drop_last() =~= packet@.subrange(0, i as int));
                assert(packet@.subrange(0, i as int + 1).last() == b);
            }
            self.pending.push(b);
            let n = self.pending.len();
            if n >= 3 && self.pending[n - 3] == 0 && self.pending[n - 2] == 0 && self.pending[n - 1] == 1 {
                let mut unit = self.pending.split_off(n - 3);
                std::mem::swap(&mut unit, &mut self.pending);
                proof {
                    assert(self.pending@ =~= seq![0u8, 0u8, 1u8]);
                    assert(unit@ =~= before.pending.push(b).subrange(0, n - 3));
                }
                if self.started {
                    let k = self.unit_kind(&unit);
                    out.push((k, unit));
                }
                self.started = true;
            }
            i = i + 1;
        }
        proof {
            assert(packet@.subrange(0, i as int) =~= packet@);
        }
        out
    }
}

} // verus!
