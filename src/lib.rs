//! Network core of a headset streaming client: video bitstream scanning,
//! control-channel handshake, stream multiplexing, liveness recovery and the
//! connection lifecycle, each written as plain values in and plain values out
//! so that the socket and timer plumbing stays outside.
pub mod android;
pub mod build_flags;
pub mod client_options;
pub mod framing;
pub mod identity;
pub mod idr;
pub mod layout;
pub mod nal;
pub mod packets;
pub mod paths;
pub mod session;
pub mod stream;
pub mod text;
pub mod version;
pub mod video;
pub mod wire;
