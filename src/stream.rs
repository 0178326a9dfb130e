//! Multiplexing logical streams over one transport: every message carries
//! its topic in a two-byte big-endian prefix, and received messages are
//! queued per topic, each queue in order of receipt.
use vstd::prelude::*;

verus! {

/// Number of topics; topics are `0 .. TOPIC_COUNT`.
pub const TOPIC_COUNT: usize = 4;

/// The message that carries `payload` on `topic`.
pub open spec fn stream_message(topic: u16, payload: Seq<u8>) -> Seq<u8> {
    seq![(topic / 256) as u8, (topic % 256) as u8] + payload
}

/// Topic and payload of a received message; `None` when it is too short to
/// hold a topic.
pub open spec fn parse_stream_message(m: Seq<u8>) -> Option<(u16, Seq<u8>)> {
    if m.len() < 2 {
        None
    } else {
        Some(((m[0] as int * 256 + m[1] as int) as u16, m.subrange(2, m.len() as int)))
    }
}

/// A message read back gives the topic and payload it was made from.
pub proof fn lemma_stream_message_round_trip(topic: u16, payload: Seq<u8>)
    ensures
        parse_stream_message(stream_message(topic, payload)) == Some((topic, payload)),
{
    let m = stream_message(topic, payload);
    assert(m.subrange(2, m.len() as int) =~= payload);
}

/// The message for `payload` on `topic`, ready to send.
pub fn encode_stream_message(topic: u16, payload: &Vec<u8>) -> (r: Vec<u8>)
    ensures
        r@ == stream_message(topic, payload@),
{
    let mut out: Vec<u8> = Vec::new();
    out.push((topic / 256) as u8);
    out.push((topic % 256) as u8);
    let mut i: usize = 0;
    while i < payload.len()
        invariant
            i <= payload@.len(),
            out@ == seq![(topic / 256) as u8, (topic % 256) as u8] + payload@.subrange(0, i as int),
        decreases payload@.len() - i,
    {
        out.push(payload[i]);
        i = i + 1;
        assert(out@ =~= seq![(topic / 256) as u8, (topic % 256) as u8] + payload@.subrange(0, i as int));
    }
    assert(payload@.subrange(0, i as int) =~= payload@);
    out
}

/// What became of a received message.
#[derive(Clone, Copy, Debug, PartialEq, Eq, Structural)]
pub enum Dispatch {
    /// Queued for the subscriber of this topic.
    Delivered(u16),
    /// Dropped: nobody subscribed to this topic.
    Unsubscribed(u16),
    /// Dropped: too short to hold a topic.
    Malformed,
}

#[derive(Clone, Copy, Debug, PartialEq, Eq, Structural)]
pub enum StreamError {
    UnknownTopic,
}

pub open spec fn msgs_view(q: Seq<Vec<u8>>) -> Seq<Seq<u8>> {
    q.map_values(|m: Vec<u8>| m@)
}

/// Per topic: `None` while unsubscribed, else the queued payloads in order.
pub type DemuxView = Seq<Option<Seq<Seq<u8>>>>;

/// The queues after receiving `m`.
pub open spec fn dispatch_spec(v: DemuxView, m: Seq<u8>) -> DemuxView {
    match parse_stream_message(m) {
        Some((t, p)) => if (t as int) < v.len() && v[t as int] is Some {
            v.update(t as int, Some(v[t as int].unwrap().push(p)))
        } else {
            v
        },
        None => v,
    }
}

/// Routes received messages to per-topic queues.
pub struct StreamDemux {
    subscribed: Vec<bool>,
    queues: Vec<Vec<Vec<u8>>>,
}

impl View for StreamDemux {
    type V = DemuxView;

    closed spec fn view(&self) -> DemuxView {
        Seq::new(TOPIC_COUNT as nat, |i: int| if self.subscribed@[i] { Some(msgs_view(self.queues@[i]@)) } else { None })
    }
}

impl StreamDemux {
    pub closed spec fn wf(&self) -> bool {
        self.subscribed@.len() == TOPIC_COUNT && self.queues@.len() == TOPIC_COUNT
    }

    /// A demultiplexer with no subscriptions.
    pub fn new() -> (r: StreamDemux)
        ensures
            r.wf(),
            r@ == Seq::new(TOPIC_COUNT as nat, |i: int| None::<Seq<Seq<u8>>>),
    {
        let mut subscribed: Vec<bool> = Vec::new();
        let mut queues: Vec<Vec<Vec<u8>>> = Vec::new();
        let mut i: usize = 0;
        while i < TOPIC_COUNT
            invariant
                i <= TOPIC_COUNT,
                subscribed@.len() == i,
                queues@.len() == i,
                forall|j: int| 0 <= j < i ==> !subscribed@[j],
            decreases TOPIC_COUNT - i,
        {
            subscribed.push(false);
            queues.push(Vec::new());
            i = i + 1;
        }
        let r = StreamDemux { subscribed, queues };
        assert(r@ =~= Seq::new(TOPIC_COUNT as nat, |i: int| None::<Seq<Seq<u8>>>));
        r
    }

    /// Subscribes to `topic`. Subscribing again keeps what is queued.
    pub fn subscribe(&mut self, topic: u16) -> (r: Result<(), StreamError>)
        requires
            old(self).wf(),
        ensures
            final(self).wf(),
            (topic as int) < TOPIC_COUNT ==> r is Ok && final(self)@ == old(self)@.update(topic as int, Some(
                match old(self)@[topic as int] {
                    Some(q) => q,
                    None => Seq::empty(),
                },
            )),
            (topic as int) >= TOPIC_COUNT ==> r == Err::<(), StreamError>(StreamError::UnknownTopic) && final(self)@ == old(self)@,
    {
        if topic as usize >= TOPIC_COUNT {
            return Err(StreamError::UnknownTopic);
        }
        let t = topic as usize;
        if !self.subscribed[t] {
            self.subscribed.set(t, true);
            self.queues.set(t, Vec::new());
            assert(msgs_view(self.queues@[t as int]@) =~= Seq::<Seq<u8>>::empty());
        }
        assert(self@ =~= old(self)@.update(topic as int, Some(
            match old(self)@[topic as int] {
                Some(q) => q,
                None => Seq::empty(),
            },
        )));
        Ok(())
    }

    /// Routes one received message to its topic's queue, behind what is
    /// already queued there; other topics are untouched.
    pub fn dispatch(&mut self, message: Vec<u8>) -> (r: Dispatch)
        requires
            old(self).wf(),
        ensures
            final(self).wf(),
            final(self)@ == dispatch_spec(old(self)@, message@),
            r == match parse_stream_message(message@) {
                None => Dispatch::Malformed,
                Some((t, _)) => if (t as int) < TOPIC_COUNT && old(self)@[t as int] is Some {
                    Dispatch::Delivered(t)
                } else {
                    Dispatch::Unsubscribed(t)
                },
            },
    {
        let mut message = message;
        if message.len() < 2 {
            return Dispatch::Malformed;
        }
        let topic: u16 = (message[0] as u16) * 256 + (message[1] as u16);
        if topic as usize >= TOPIC_COUNT || !self.subscribed[topic as usize] {
            return Dispatch::Unsubscribed(topic);
        }
        let t = topic as usize;
        let ghost whole = message@;
        let payload = message.split_off(2);
        assert(payload@ =~= whole.subrange(2, whole.len() as int));
        assert(parse_stream_message(whole) == Some((topic, payload@)));
        let mut q: Vec<Vec<u8>> = Vec::new();
        self.queues.set_and_swap(t, &mut q);
        let ghost old_q = q@;
        q.push(payload);
        assert(msgs_view(q@) =~= msgs_view(old_q).push(payload@));
        self.queues.set_and_swap(t, &mut q);
        assert(self@ =~= dispatch_spec(old(self)@, whole));
        Dispatch::Delivered(topic)
    }

    /// The oldest message queued on `topic`, if any.
    pub fn recv(&mut self, topic: u16) -> (r: Option<Vec<u8>>)
        requires
            old(self).wf(),
        ensures
            final(self).wf(),
            match (if (topic as int) < TOPIC_COUNT { old(self)@[topic as int] } else { None }) {
                Some(q) if q.len() > 0 => r matches Some(m) && m@ == q[0]
                    && final(self)@ == old(self)@.update(topic as int, Some(q.drop_first())),
                _ => r is None && final(self)@ == old(self)@,
            },
    {
        if topic as usize >= TOPIC_COUNT {
            return None;
        }
        let t = topic as usize;
        if !self.subscribed[t] || self.queues[t].len() == 0 {
            return None;
        }
        let mut q: Vec<Vec<u8>> = Vec::new();
        self.queues.set_and_swap(t, &mut q);
        let ghost old_q = q@;
        let m = q.remove(0);
        assert(q@ =~= old_q.drop_first());
        assert(msgs_view(q@) =~= msgs_view(old_q).drop_first());
        self.queues.set_and_swap(t, &mut q);
        assert(self@ =~= old(self)@.update(topic as int, Some(old(self)@[topic as int].unwrap().drop_first())));
        Some(m)
    }
}

/// The queues after receiving `msgs` in order.
pub open spec fn dispatch_all(v: DemuxView, msgs: Seq<Seq<u8>>) -> DemuxView
    decreases msgs.len(),
{
    if msgs.len() == 0 {
        v
    } else {
        dispatch_spec(dispatch_all(v, msgs.drop_last()), msgs.last())
    }
}

/// Payloads of the well-formed messages among `msgs` that carry `topic`, in order.
pub open spec fn payloads_on(msgs: Seq<Seq<u8>>, topic: u16) -> Seq<Seq<u8>>
    decreases msgs.len(),
{
    if msgs.len() == 0 {
        Seq::empty()
    } else {
        let prev = payloads_on(msgs.drop_last(), topic);
        match parse_stream_message(msgs.last()) {
            Some((t, p)) => if t == topic { prev.push(p) } else { prev },
            None => prev,
        }
    }
}

/// A message reaches only the subscriber of its own topic, and each topic's
/// queue grows by exactly that topic's payloads in the order received;
/// unsubscribed topics stay unsubscribed.
pub proof fn lemma_dispatch_per_topic(v: DemuxView, msgs: Seq<Seq<u8>>, topic: u16)
    requires
        (topic as int) < v.len(),
    ensures
        dispatch_all(v, msgs).len() == v.len(),
        v[topic as int] is None ==> dispatch_all(v, msgs)[topic as int] is None,
        v[topic as int] matches Some(q) ==> dispatch_all(v, msgs)[topic as int] == Some(q + payloads_on(msgs, topic)),
    decreases msgs.len(),
{
    if msgs.len() > 0 {
        lemma_dispatch_per_topic(v, msgs.drop_last(), topic);
        let prev = dispatch_all(v, msgs.drop_last());
        match v[topic as int] {
            Some(q) => {
                match parse_stream_message(msgs.last()) {
                    Some((t, p)) => {
                        if t == topic {
                            assert(q + payloads_on(msgs.drop_last(), topic).push(p) =~= (q + payloads_on(msgs.drop_last(), topic)).push(p));
                        }
                    },
                    None => {},
                }
            },
            None => {},
        }
    }
}

} // verus!
