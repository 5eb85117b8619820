//! The packets exchanged during the handshake, as plain values.
//!
//! Encoding these on the wire is not this crate's business: the transport
//! hands the engine decoded packets and takes decoded packets back.
use vstd::prelude::*;

verus! {

/// A protocol-level socket identifier.
#[derive(Clone, Copy, Debug, PartialEq, Eq, Structural)]
pub struct SocketID(pub u32);

/// An IP address, IPv4 as one 32-bit number and IPv6 as one 128-bit number.
#[derive(Clone, Copy, Debug, PartialEq, Eq, Structural)]
pub enum IpAddress {
    V4(u32),
    V6(u128),
}

/// A socket address: an IP address and a UDP port.
#[derive(Clone, Copy, Debug, PartialEq, Eq, Structural)]
pub struct SockAddr {
    pub ip: IpAddress,
    pub port: u16,
}

/// Which round of the handshake a packet belongs to.
#[derive(Clone, Copy, Debug, PartialEq, Eq, Structural)]
pub enum ShakeType {
    Waveahand,
    Induction,
    Conclusion,
    Agreement,
}

/// The socket type carried by a legacy (version 4) handshake.
#[derive(Clone, Copy, Debug, PartialEq, Eq, Structural)]
pub enum SocketType {
    Stream,
    Datagram,
}

/// The cipher named by a key-manager extension.
#[derive(Clone, Copy, Debug, PartialEq, Eq, Structural)]
pub enum CipherType {
    Plain,
    ECB,
    CTR,
    CBC,
}

/// A protocol version, as major, minor and patch numbers.
#[derive(Clone, Copy, Debug, PartialEq, Eq, Structural)]
pub struct SrtVersion {
    pub major: u8,
    pub minor: u8,
    pub patch: u8,
}

pub open spec fn current_version() -> SrtVersion {
    SrtVersion { major: 1, minor: 3, patch: 0 }
}

impl SrtVersion {
    /// The protocol version that this engine speaks.
    pub fn current() -> (r: SrtVersion)
        ensures
            r == current_version(),
    {
        SrtVersion { major: 1, minor: 3, patch: 0 }
    }
}

/// Sender-side time-stamped delivery is active.
pub const TSBPDSND: u32 = 0x1;

/// Receiver-side time-stamped delivery is active.
pub const TSBPDRCV: u32 = 0x2;

/// The set of options of a handshake extension, as a bit set.
#[derive(Clone, Copy, Debug, PartialEq, Eq, Structural)]
pub struct SrtShakeFlags {
    pub bits: u32,
}

/// The handshake extension: version, latencies in milliseconds, and options.
#[derive(Clone, Copy, Debug, PartialEq, Eq, Structural)]
pub struct SrtHandshake {
    pub version: SrtVersion,
    pub flags: SrtShakeFlags,
    pub peer_latency_ms: u64,
    pub latency_ms: u64,
}

/// The key-manager extension: the cipher, the salt and the wrapped keys.
#[derive(Clone, Debug, PartialEq, Eq)]
pub struct SrtKeyMessage {
    pub pt: u8,
    pub sign: u16,
    pub keki: u32,
    pub cipher: CipherType,
    pub auth: u8,
    pub se: u8,
    pub salt: Vec<u8>,
    pub even_key: Option<Vec<u8>>,
    pub odd_key: Option<Vec<u8>>,
    pub wrap_data: [u8; 8],
}

/// An extension that a version 5 handshake may carry.
#[derive(Clone, Debug, PartialEq, Eq)]
pub enum SrtControlPacket {
    HandshakeRequest(SrtHandshake),
    HandshakeResponse(SrtHandshake),
    KeyManagerRequest(SrtKeyMessage),
    KeyManagerResponse(SrtKeyMessage),
}

/// The version-specific part of a handshake.
#[derive(Clone, Debug, PartialEq, Eq)]
pub enum HandshakeVSInfo {
    V4(SocketType),
    V5 {
        crypto_size: u8,
        ext_hs: Option<SrtControlPacket>,
        ext_km: Option<SrtControlPacket>,
        ext_config: Option<SrtControlPacket>,
    },
}

impl HandshakeVSInfo {
    pub open spec fn spec_version(&self) -> u32 {
        match self {
            HandshakeVSInfo::V4(_) => 4,
            HandshakeVSInfo::V5 { .. } => 5,
        }
    }

    /// The handshake version that this block belongs to: 4 or 5.
    pub fn version(&self) -> (r: u32)
        ensures
            r == self.spec_version(),
    {
        match self {
            HandshakeVSInfo::V4(_) => 4,
            HandshakeVSInfo::V5 { .. } => 5,
        }
    }
}

/// The payload of a handshake packet.
#[derive(Clone, Debug, PartialEq, Eq)]
pub struct HandshakeControlInfo {
    pub init_seq_num: u32,
    pub max_packet_size: u32,
    pub max_flow_size: u32,
    pub socket_id: SocketID,
    pub shake_type: ShakeType,
    pub peer_addr: IpAddress,
    pub syn_cookie: i32,
    pub info: HandshakeVSInfo,
}

/// What a control packet says.
#[derive(Clone, Debug, PartialEq, Eq)]
pub enum ControlTypes {
    Handshake(HandshakeControlInfo),
    KeepAlive,
    Shutdown,
}

/// A control packet: its addressee, its timestamp in microseconds, and its content.
#[derive(Clone, Debug, PartialEq, Eq)]
pub struct ControlPacket {
    pub timestamp: u32,
    pub dest_sockid: SocketID,
    pub control_type: ControlTypes,
}

/// A data packet.
#[derive(Clone, Debug, PartialEq, Eq)]
pub struct DataPacket {
    pub seq_number: u32,
    pub timestamp: u32,
    pub dest_sockid: SocketID,
    pub payload: Vec<u8>,
}

#[derive(Clone, Debug, PartialEq, Eq)]
pub enum Packet {
    Control(ControlPacket),
    Data(DataPacket),
}

} // verus!
