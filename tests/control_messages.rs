use alxr_common::client_options::{ALXRGraphicsApi, Options};
use alxr_common::packets::{
    encode_handshake, HandshakeTooLarge, decode_handshake_reply, decode_server_message, encode_client_message, ClientControlPacket,
    ClientHandshakePacket, ServerControlPacket, ServerHandshakePacket, ServerMessage,
};
use alxr_common::session::{game_audio_enabled, Event};

#[test]
fn server_messages_by_tag() {
    assert_eq!(decode_server_message(&vec![]), None);
    assert_eq!(decode_server_message(&vec![0, 9, 9]), Some(ServerMessage::ClientConfig));
    assert_eq!(
        decode_server_message(&vec![1]),
        Some(ServerMessage::Control(ServerControlPacket::StartStream))
    );
    assert_eq!(
        decode_server_message(&vec![2]),
        Some(ServerMessage::Control(ServerControlPacket::Restarting))
    );
    assert_eq!(
        decode_server_message(&vec![200]),
        Some(ServerMessage::Control(ServerControlPacket::Other))
    );
    assert_eq!(
        Event::from_server_message(ServerMessage::ClientConfig),
        Event::ConfigReceived
    );
    assert_eq!(
        Event::from_server_message(ServerMessage::Control(ServerControlPacket::Restarting)),
        Event::ControlReceived(ServerControlPacket::Restarting)
    );
}

#[test]
fn client_messages_carry_their_tag() {
    assert_eq!(encode_client_message(ClientControlPacket::StreamReady, &vec![]), vec![0]);
    assert_eq!(encode_client_message(ClientControlPacket::KeepAlive, &vec![]), vec![1]);
    assert_eq!(
        encode_client_message(ClientControlPacket::RequestIdr, &vec![5, 6]),
        vec![2, 5, 6]
    );
}

#[test]
fn discovery_replies() {
    assert_eq!(decode_handshake_reply(&vec![0]), Some(ServerHandshakePacket::ClientUntrusted));
    assert_eq!(
        decode_handshake_reply(&vec![1, 0]),
        Some(ServerHandshakePacket::IncompatibleVersions)
    );
    assert_eq!(decode_handshake_reply(&vec![]), None);
    assert_eq!(decode_handshake_reply(&vec![7]), None);
}

#[test]
fn handshake_packet_fields() {
    let p = ClientHandshakePacket::new("18.2.3", "OpenXR client", "1234.client.alvr");
    assert_eq!(p.alvr_name, "ALVR");
    assert_eq!(p.version, "18.2.3");
    assert_eq!(p.device_name, "OpenXR client");
    assert_eq!(p.hostname, "1234.client.alvr");
    assert!(p.reserved1.is_empty() && p.reserved2.is_empty());
}

#[test]
fn audio_needs_a_usable_sample_rate() {
    assert!(game_audio_enabled(true, 48000));
    assert!(game_audio_enabled(true, 8000));
    assert!(!game_audio_enabled(true, 7999));
    assert!(!game_audio_enabled(false, 48000));
}

#[test]
fn properties_fold_in_order() {
    let props = vec![
        ("debug.alxr.graphicsPlugin".to_string(), "Vulkan".to_string()),
        ("debug.alxr.verbose".to_string(), "true".to_string()),
        ("debug.alxr.graphicsPlugin".to_string(), "D3D11".to_string()),
        ("debug.alxr.verbose".to_string(), "maybe".to_string()),
    ];
    let o = Options::from_system_properties(false, &props);
    assert_eq!(o.graphics_api, Some(ALXRGraphicsApi::D3D11));
    assert!(o.verbose);
    let d = Options::from_system_properties(true, &vec![]);
    assert!(d.verbose);
    assert_eq!(d.decoder_thread_count, 0);
}

#[test]
fn handshake_datagram_is_bounded() {
    assert_eq!(
        encode_handshake(&vec![b"ab".to_vec(), vec![]]),
        Ok(vec![0, 0, 0, 2, b'a', b'b', 0, 0, 0, 0])
    );
    assert_eq!(encode_handshake(&vec![vec![7u8; 3996]]).map(|v| v.len()), Ok(4000));
    assert_eq!(encode_handshake(&vec![vec![7u8; 3997]]), Err(HandshakeTooLarge));
    assert_eq!(
        encode_handshake(&vec![vec![1u8; 2000], vec![2u8; 2000]]),
        Err(HandshakeTooLarge)
    );
}
