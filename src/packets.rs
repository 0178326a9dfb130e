//! Message kinds exchanged with the server. Payload fields that the
//! connection logic does not read are left to the serialisation layer.
use vstd::prelude::*;
use crate::framing::be_bytes;

verus! {

/// Name announced in discovery.
pub const ALVR_NAME: &'static str = "ALVR";

/// Port on which discovery broadcasts and the control connection meet.
pub const CONTROL_PORT: u16 = 9943;

/// Largest serialized handshake packet: it must fit in one datagram.
pub const MAX_HANDSHAKE_PACKET_SIZE_BYTES: usize = 4000;

/// The server's refusal of a discovery handshake.
#[derive(Clone, Copy, Debug, PartialEq, Eq, Structural)]
pub enum ServerHandshakePacket {
    ClientUntrusted,
    IncompatibleVersions,
}

/// Control messages the server sends, by kind.
#[derive(Clone, Copy, Debug, PartialEq, Eq, Structural)]
pub enum ServerControlPacket {
    StartStream,
    Restarting,
    TimeSync,
    Other,
}

/// Control messages the client sends, by kind.
#[derive(Clone, Copy, Debug, PartialEq, Eq, Structural)]
pub enum ClientControlPacket {
    StreamReady,
    KeepAlive,
    RequestIdr,
    TimeSync,
    ViewsConfig,
    Battery,
    PlayspaceSync,
    VideoErrorReport,
}

/// Fixed identifiers of the logical streams that share the stream transport.
pub const INPUT: u16 = 0;
pub const HAPTICS: u16 = 1;
pub const AUDIO: u16 = 2;
pub const VIDEO: u16 = 3;


/// A message from the server on the control channel.
#[derive(Clone, Copy, Debug, PartialEq, Eq, Structural)]
pub enum ServerMessage {
    /// The client configuration that answers the headset information.
    ClientConfig,
    Control(ServerControlPacket),
}

/// The message kind that a frame's first byte announces.
pub open spec fn server_message_of(tag: u8) -> ServerMessage {
    if tag == 0 {
        ServerMessage::ClientConfig
    } else if tag == 1 {
        ServerMessage::Control(ServerControlPacket::StartStream)
    } else if tag == 2 {
        ServerMessage::Control(ServerControlPacket::Restarting)
    } else if tag == 3 {
        ServerMessage::Control(ServerControlPacket::TimeSync)
    } else {
        ServerMessage::Control(ServerControlPacket::Other)
    }
}

/// Kind of a received control frame; `None` for an empty frame.
pub fn decode_server_message(frame: &Vec<u8>) -> (r: Option<ServerMessage>)
    ensures
        frame@.len() == 0 ==> r is None,
        frame@.len() > 0 ==> r == Some(server_message_of(frame@[0])),
{
    if frame.len() == 0 {
        return None;
    }
    let tag = frame[0];
    Some(if tag == 0 {
        ServerMessage::ClientConfig
    } else if tag == 1 {
        ServerMessage::Control(ServerControlPacket::StartStream)
    } else if tag == 2 {
        ServerMessage::Control(ServerControlPacket::Restarting)
    } else if tag == 3 {
        ServerMessage::Control(ServerControlPacket::TimeSync)
    } else {
        ServerMessage::Control(ServerControlPacket::Other)
    })
}

/// First byte of a client control frame of kind `p`.
pub open spec fn client_tag_of(p: ClientControlPacket) -> u8 {
    match p {
        ClientControlPacket::StreamReady => 0,
        ClientControlPacket::KeepAlive => 1,
        ClientControlPacket::RequestIdr => 2,
        ClientControlPacket::TimeSync => 3,
        ClientControlPacket::ViewsConfig => 4,
        ClientControlPacket::Battery => 5,
        ClientControlPacket::PlayspaceSync => 6,
        ClientControlPacket::VideoErrorReport => 7,
    }
}

/// The control message of kind `p` with `body` after its tag.
pub fn encode_client_message(p: ClientControlPacket, body: &Vec<u8>) -> (r: Vec<u8>)
    ensures
        r@ == seq![client_tag_of(p)] + body@,
{
    let tag: u8 = match p {
        ClientControlPacket::StreamReady => 0,
        ClientControlPacket::KeepAlive => 1,
        ClientControlPacket::RequestIdr => 2,
        ClientControlPacket::TimeSync => 3,
        ClientControlPacket::ViewsConfig => 4,
        ClientControlPacket::Battery => 5,
        ClientControlPacket::PlayspaceSync => 6,
        ClientControlPacket::VideoErrorReport => 7,
    };
    let mut out: Vec<u8> = Vec::new();
    out.push(tag);
    let mut i: usize = 0;
    while i < body.len()
        invariant
            i <= body@.len(),
            out@ == seq![tag] + body@.subrange(0, i as int),
        decreases body@.len() - i,
    {
        out.push(body[i]);
        i = i + 1;
        assert(out@ =~= seq![tag] + body@.subrange(0, i as int));
    }
    assert(body@.subrange(0, i as int) =~= body@);
    out
}

/// The server's refusal that a discovery reply's first byte announces.
pub fn decode_handshake_reply(reply: &Vec<u8>) -> (r: Option<ServerHandshakePacket>)
    ensures
        r == if reply@.len() > 0 && reply@[0] == 0 {
            Some(ServerHandshakePacket::ClientUntrusted)
        } else if reply@.len() > 0 && reply@[0] == 1 {
            Some(ServerHandshakePacket::IncompatibleVersions)
        } else {
            None
        },
{
    if reply.len() > 0 && reply[0] == 0 {
        Some(ServerHandshakePacket::ClientUntrusted)
    } else if reply.len() > 0 && reply[0] == 1 {
        Some(ServerHandshakePacket::IncompatibleVersions)
    } else {
        None
    }
}


/// What the client broadcasts during discovery.
#[derive(Clone, Debug)]
pub struct ClientHandshakePacket {
    pub alvr_name: String,
    pub version: String,
    pub device_name: String,
    pub hostname: String,
    /// reserved for later protocol versions
    pub reserved1: String,
    /// reserved for later protocol versions
    pub reserved2: String,
}

impl ClientHandshakePacket {
    /// The handshake of client `version` on device `device_name` known as
    /// `hostname`; the reserved fields are empty.
    pub fn new(version: &str, device_name: &str, hostname: &str) -> (r: ClientHandshakePacket)
        ensures
            r.alvr_name@ == ALVR_NAME@,
            r.version@ == version@,
            r.device_name@ == device_name@,
            r.hostname@ == hostname@,
            r.reserved1@.len() == 0,
            r.reserved2@.len() == 0,
    {
        ClientHandshakePacket {
            alvr_name: String::from_str(ALVR_NAME),
            version: String::from_str(version),
            device_name: String::from_str(device_name),
            hostname: String::from_str(hostname),
            reserved1: String::new(),
            reserved2: String::new(),
        }
    }
}


/// Fields laid out one after another, each behind its four-byte big-endian
/// length.
pub open spec fn fields_encoding(fields: Seq<Seq<u8>>) -> Seq<u8>
    decreases fields.len(),
{
    if fields.len() == 0 {
        Seq::empty()
    } else {
        fields_encoding(fields.drop_last()) + be_bytes(fields.last().len() as u32) + fields.last()
    }
}

pub open spec fn byte_views(fields: Seq<Vec<u8>>) -> Seq<Seq<u8>> {
    fields.map_values(|f: Vec<u8>| f@)
}

/// The discovery datagram is larger than one datagram may be.
#[derive(Clone, Copy, Debug, PartialEq, Eq, Structural)]
pub struct HandshakeTooLarge;

/// The discovery datagram for the handshake fields (the bytes of name,
/// version, device name, hostname and the two reserved fields, in order).
pub fn encode_handshake(fields: &Vec<Vec<u8>>) -> (r: Result<Vec<u8>, HandshakeTooLarge>)
    ensures
        fields_encoding(byte_views(fields@)).len() <= MAX_HANDSHAKE_PACKET_SIZE_BYTES
            ==> (r matches Ok(v) && v@ == fields_encoding(byte_views(fields@))),
        fields_encoding(byte_views(fields@)).len() > MAX_HANDSHAKE_PACKET_SIZE_BYTES
            ==> r == Err::<Vec<u8>, HandshakeTooLarge>(HandshakeTooLarge),
{
    let mut out: Vec<u8> = Vec::new();
    let mut i: usize = 0;
    while i < fields.len()
        invariant
            i <= fields@.len(),
            out@ == fields_encoding(byte_views(fields@.subrange(0, i as int))),
            out@.len() <= MAX_HANDSHAKE_PACKET_SIZE_BYTES,
        decreases fields@.len() - i,
    {
        let f = &fields[i];
        assert(byte_views(fields@.subrange(0, i as int + 1)).drop_last() =~= byte_views(fields@.subrange(0, i as int)));
        assert(byte_views(fields@.subrange(0, i as int + 1)).last() == f@);
        if f.len() > MAX_HANDSHAKE_PACKET_SIZE_BYTES - out.len() {
            proof {
                lemma_encoding_grows(byte_views(fields@), i as int + 1);
                assert(byte_views(fields@).subrange(0, i as int + 1) =~= byte_views(fields@.subrange(0, i as int + 1)));
            }
            return Err(HandshakeTooLarge);
        }
        let n = f.len() as u32;
        let ghost before = out@;
        out.push((n >> 24u32) as u8);
        out.push((n >> 16u32) as u8);
        out.push((n >> 8u32) as u8);
        out.push(n as u8);
        assert(out@ =~= before + be_bytes(n));
        let mut k: usize = 0;
        while k < f.len()
            invariant
                k <= f@.len(),
                out@ == before + be_bytes(n) + f@.subrange(0, k as int),
            decreases f@.len() - k,
        {
            out.push(f[k]);
            k = k + 1;
            assert(out@ =~= before + be_bytes(n) + f@.subrange(0, k as int));
        }
        assert(f@.subrange(0, k as int) =~= f@);
        if out.len() > MAX_HANDSHAKE_PACKET_SIZE_BYTES {
            proof {
                lemma_encoding_grows(byte_views(fields@), i as int + 1);
                assert(byte_views(fields@).subrange(0, i as int + 1) =~= byte_views(fields@.subrange(0, i as int + 1)));
            }
            return Err(HandshakeTooLarge);
        }
        i = i + 1;
    }
    assert(fields@.subrange(0, i as int) =~= fields@);
    Ok(out)
}

/// The encoding of some leading fields is never longer than that of all.
pub proof fn lemma_encoding_grows(fields: Seq<Seq<u8>>, i: int)
    requires
        0 <= i <= fields.len(),
    ensures
        fields_encoding(fields.subrange(0, i)).len() <= fields_encoding(fields).len(),
    decreases fields.len() - i,
{
    if i < fields.len() {
        lemma_encoding_grows(fields, i + 1);
        assert(fields.subrange(0, i + 1).drop_last() =~= fields.subrange(0, i));
    } else {
        assert(fields.subrange(0, i) =~= fields);
    }
}

} // verus!
