//! The handshake state machine of the connecting side.
//!
//! The engine makes every decision of the handshake; whoever drives it owns
//! the clock and performs the sends. On each inbound packet the driver calls
//! [`Connect::handle_packet`], which says whether to ignore it, to send the
//! outstanding packet at once, or that the handshake is complete. On each tick
//! of the retransmission timer the driver sends [`Connect::outstanding`] again.
use vstd::prelude::*;

use crate::packet::{
    current_version, CipherType, ControlPacket, ControlTypes, HandshakeControlInfo,
    HandshakeVSInfo, IpAddress, Packet, ShakeType, SockAddr, SocketID, SocketType,
    SrtControlPacket, SrtHandshake, SrtKeyMessage, SrtShakeFlags, SrtVersion, TSBPDRCV,
    TSBPDSND,
};

verus! {

/// The largest packet size offered in the Induction request.
pub const MAX_PACKET_SIZE: u32 = 1500;

/// The flow window offered in the Induction request.
pub const MAX_FLOW_SIZE: u32 = 8192;

/// The only handshake version that is accepted from the peer.
pub const ACCEPTED_VERSION: u32 = 5;

/// How often the outstanding packet is sent again, in milliseconds.
pub const SEND_INTERVAL_MS: u64 = 100;

/// The output of the key-exchange builder: the salt, and the session key
/// wrapped with the key derived from the passphrase, or `None` where
/// wrapping failed.
#[derive(Clone, Debug, PartialEq, Eq)]
pub struct KeyMaterial {
    pub salt: Vec<u8>,
    pub wrapped_key: Option<Vec<u8>>,
}

/// The negotiated parameters of an established connection.
///
/// The driver adds what the engine does not decide: the time at which the
/// connection was established, and the retransmission-request hook.
#[derive(Clone, Copy, Debug, PartialEq, Eq, Structural)]
pub struct ConnectionSettings {
    pub remote: SockAddr,
    pub max_flow_size: u32,
    pub max_packet_size: u32,
    pub init_seq_num: u32,
    pub local_sockid: SocketID,
    pub remote_sockid: SocketID,
    pub tsbpd_latency_ms: u64,
}

/// The channel, handed over together with the negotiated parameters.
pub struct Connected<T> {
    pub sock: T,
    pub settings: ConnectionSettings,
}

/// Why a connection attempt ended without a connection.
#[derive(Clone, Copy, Debug, PartialEq, Eq, Structural)]
pub enum ConnectError {
    /// The transport ended before the handshake was complete.
    StreamEnded,
    /// The peer answered with a handshake of this version instead of 5.
    UnsupportedVersion(u32),
    /// Encryption was asked for but the session key could not be wrapped.
    KeyWrapFailed,
}

/// What the driver is to do after a packet was handed to the engine.
pub enum Step<T> {
    /// Nothing: the packet was not for this handshake, or not for this round.
    Ignored,
    /// The engine moved on: send the new outstanding packet now.
    SendOutstanding,
    /// The handshake is complete.
    Done(Connected<T>),
}

/// The round of the handshake, with the packet that is outstanding in it.
pub enum State {
    /// The Induction request was sent; waiting for the peer's Induction.
    Starting(Packet),
    /// The Conclusion request was sent; waiting for the peer's Conclusion.
    First(Packet),
}

impl State {
    pub open spec fn spec_packet(&self) -> Packet {
        match self {
            State::Starting(p) => *p,
            State::First(p) => *p,
        }
    }
}

/// A connection attempt in progress.
///
/// `sock` holds the channel until the handshake completes, and is then empty.
pub struct Connect<T> {
    pub remote: SockAddr,
    pub sock: Option<T>,
    pub local_socket_id: SocketID,
    pub state: State,
    pub tsbpd_latency_ms: u64,
    pub crypto: Option<KeyMaterial>,
}

/// The Induction request that opens the handshake.
pub open spec fn induction_request(
    init_seq_num: u32,
    local_socket_id: SocketID,
    local_addr: IpAddress,
) -> Packet {
    Packet::Control(
        ControlPacket {
            dest_sockid: SocketID(0),
            timestamp: 0,
            control_type: ControlTypes::Handshake(
                HandshakeControlInfo {
                    init_seq_num,
                    max_packet_size: MAX_PACKET_SIZE,
                    max_flow_size: MAX_FLOW_SIZE,
                    socket_id: local_socket_id,
                    shake_type: ShakeType::Induction,
                    peer_addr: local_addr,
                    syn_cookie: 0,
                    info: HandshakeVSInfo::V4(SocketType::Datagram),
                },
            ),
        },
    )
}

/// The state of a new attempt whose initial sequence number is `init_seq_num`.
pub open spec fn initial_connect<T>(
    sock: T,
    remote: SockAddr,
    local_socket_id: SocketID,
    local_addr: IpAddress,
    init_seq_num: u32,
    tsbpd_latency_ms: u64,
    crypto: Option<KeyMaterial>,
) -> Connect<T> {
    Connect {
        remote,
        sock: Some(sock),
        local_socket_id,
        state: State::Starting(induction_request(init_seq_num, local_socket_id, local_addr)),
        tsbpd_latency_ms,
        crypto,
    }
}

/// The timestamp and handshake payload of `pack`, where it is a handshake
/// packet that came from `remote` and is addressed to `local_id`.
pub open spec fn accepted_handshake(
    remote: SockAddr,
    local_id: SocketID,
    pack: Packet,
    from: SockAddr,
) -> Option<(u32, HandshakeControlInfo)> {
    if from != remote {
        None
    } else {
        match pack {
            Packet::Control(cp) => match cp.control_type {
                ControlTypes::Handshake(info) => if cp.dest_sockid == local_id {
                    Some((cp.timestamp, info))
                } else {
                    None
                },
                _ => None,
            },
            _ => None,
        }
    }
}

/// The handshake extension of the Conclusion request.
pub open spec fn handshake_request(latency_ms: u64) -> SrtControlPacket {
    SrtControlPacket::HandshakeRequest(
        SrtHandshake {
            version: current_version(),
            flags: SrtShakeFlags { bits: TSBPDSND | TSBPDRCV },
            peer_latency_ms: 0,
            latency_ms,
        },
    )
}

/// `ext` is the key-manager extension that carries `km`.
pub open spec fn is_key_request(ext: SrtControlPacket, km: KeyMaterial) -> bool {
    match ext {
        SrtControlPacket::KeyManagerRequest(m) => {
            &&& m.pt == 2
            &&& m.sign == 8233
            &&& m.keki == 0
            &&& m.cipher == CipherType::CTR
            &&& m.auth == 0
            &&& m.se == 2
            &&& m.salt == km.salt
            &&& m.even_key == km.wrapped_key
            &&& m.odd_key is None
            &&& forall|i: int| 0 <= i < 8 ==> m.wrap_data@[i] == 0u8
        },
        _ => false,
    }
}

/// `p` is the Conclusion request that answers the Induction `info` stamped
/// `timestamp`: the peer's fields echoed, with the local latency and, where
/// encryption is configured, the key material.
pub open spec fn is_conclusion_request(
    p: Packet,
    timestamp: u32,
    info: HandshakeControlInfo,
    latency_ms: u64,
    crypto: Option<KeyMaterial>,
) -> bool {
    match p {
        Packet::Control(cp) => {
            &&& cp.dest_sockid == SocketID(0)
            &&& cp.timestamp == timestamp
            &&& match cp.control_type {
                ControlTypes::Handshake(h) => {
                    &&& h.init_seq_num == info.init_seq_num
                    &&& h.max_packet_size == info.max_packet_size
                    &&& h.max_flow_size == info.max_flow_size
                    &&& h.socket_id == info.socket_id
                    &&& h.shake_type == ShakeType::Conclusion
                    &&& h.peer_addr == info.peer_addr
                    &&& h.syn_cookie == info.syn_cookie
                    &&& match h.info {
                        HandshakeVSInfo::V5 { crypto_size, ext_hs, ext_km, ext_config } => {
                            &&& crypto_size == 0
                            &&& ext_hs == Some(handshake_request(latency_ms))
                            &&& ext_config is None
                            &&& match crypto {
                                None => ext_km is None,
                                Some(km) => ext_km is Some && is_key_request(ext_km->0, km),
                            }
                        },
                        _ => false,
                    }
                },
                _ => false,
            }
        },
        _ => false,
    }
}

/// Encryption is configured and the key could not be wrapped.
pub open spec fn key_wrap_fails(crypto: Option<KeyMaterial>) -> bool {
    crypto is Some && crypto->0.wrapped_key is None
}

/// The latency that the peer advertised in its handshake response, if any.
pub open spec fn peer_latency(info: HandshakeVSInfo) -> Option<u64> {
    match info {
        HandshakeVSInfo::V5 { ext_hs, .. } => match ext_hs {
            Some(SrtControlPacket::HandshakeResponse(hs)) => Some(hs.latency_ms),
            _ => None,
        },
        _ => None,
    }
}

/// The latency of the connection: the peer's, else the local one.
pub open spec fn negotiated_latency(info: HandshakeVSInfo, local_ms: u64) -> u64 {
    match peer_latency(info) {
        Some(l) => l,
        None => local_ms,
    }
}

/// The parameters that a Conclusion `info` from the peer establishes.
pub open spec fn settings_of<T>(c: Connect<T>, info: HandshakeControlInfo) -> ConnectionSettings {
    ConnectionSettings {
        remote: c.remote,
        max_flow_size: info.max_flow_size,
        max_packet_size: info.max_packet_size,
        init_seq_num: info.init_seq_num,
        local_sockid: c.local_socket_id,
        remote_sockid: info.socket_id,
        tsbpd_latency_ms: negotiated_latency(info.info, c.tsbpd_latency_ms),
    }
}

/// Handing `pack`, from `from`, to the engine in state `c` may leave it in
/// state `c2` with result `r`.
pub open spec fn step_relation<T>(
    c: Connect<T>,
    pack: Packet,
    from: SockAddr,
    c2: Connect<T>,
    r: Result<Step<T>, ConnectError>,
) -> bool {
    match accepted_handshake(c.remote, c.local_socket_id, pack, from) {
        None => c2 == c && r == Ok::<Step<T>, ConnectError>(Step::Ignored),
        Some((timestamp, info)) => match c.state {
            State::Starting(_) => if info.info.spec_version() != ACCEPTED_VERSION {
                c2 == c && r == Err::<Step<T>, ConnectError>(
                    ConnectError::UnsupportedVersion(info.info.spec_version()),
                )
            } else if key_wrap_fails(c.crypto) {
                c2 == c && r == Err::<Step<T>, ConnectError>(ConnectError::KeyWrapFailed)
            } else {
                &&& r == Ok::<Step<T>, ConnectError>(Step::SendOutstanding)
                &&& c2.remote == c.remote
                &&& c2.sock == c.sock
                &&& c2.local_socket_id == c.local_socket_id
                &&& c2.tsbpd_latency_ms == c.tsbpd_latency_ms
                &&& c2.crypto is None
                &&& c2.state is First
                &&& is_conclusion_request(
                    c2.state.spec_packet(),
                    timestamp,
                    info,
                    c.tsbpd_latency_ms,
                    c.crypto,
                )
            },
            State::First(_) => if info.shake_type != ShakeType::Conclusion {
                c2 == c && r == Ok::<Step<T>, ConnectError>(Step::Ignored)
            } else {
                &&& r == Ok::<Step<T>, ConnectError>(
                    Step::Done(Connected { sock: c.sock->0, settings: settings_of(c, info) }),
                )
                &&& c2 == (Connect { sock: None, ..c })
            },
        },
    }
}

/// Relies on rand::random: a 32-bit number drawn from the thread-local
/// generator; nothing is known of its value.
#[verifier::external_body]
fn random_seq_num() -> (r: u32) {
    rand::random::<u32>()
}

/// The latency of the connection from the peer's version block: the one it
/// advertised in its handshake response, else `local_ms`.
pub fn resolve_latency(info: &HandshakeVSInfo, local_ms: u64) -> (r: u64)
    ensures
        r == negotiated_latency(*info, local_ms),
{
    match info {
        HandshakeVSInfo::V5 { ext_hs: Some(SrtControlPacket::HandshakeResponse(hs)), .. } => {
            hs.latency_ms
        },
        _ => local_ms,
    }
}

/// The key-manager extension that carries `km`, whose key was wrapped.
fn key_request(km: KeyMaterial) -> (r: SrtControlPacket)
    requires
        km.wrapped_key is Some,
    ensures
        is_key_request(r, km),
{
    let KeyMaterial { salt, wrapped_key } = km;
    SrtControlPacket::KeyManagerRequest(
        SrtKeyMessage {
            pt: 2,
            sign: 8233,
            keki: 0,
            cipher: CipherType::CTR,
            auth: 0,
            se: 2,
            salt,
            even_key: wrapped_key,
            odd_key: None,
            wrap_data: [0u8; 8],
        },
    )
}

impl<T> Connect<T> {
    pub open spec fn wf(&self) -> bool {
        self.sock is Some
    }

    /// Starts an attempt to connect to `remote` with the given initial
    /// sequence number; nothing is sent yet.
    pub fn with_init_seq_num(
        sock: T,
        remote: SockAddr,
        local_socket_id: SocketID,
        local_addr: IpAddress,
        init_seq_num: u32,
        tsbpd_latency_ms: u64,
        crypto: Option<KeyMaterial>,
    ) -> (r: Connect<T>)
        ensures
            r == initial_connect(
                sock,
                remote,
                local_socket_id,
                local_addr,
                init_seq_num,
                tsbpd_latency_ms,
                crypto,
            ),
            r.wf(),
    {
        let info = HandshakeControlInfo {
            init_seq_num,
            max_packet_size: MAX_PACKET_SIZE,
            max_flow_size: MAX_FLOW_SIZE,
            socket_id: local_socket_id,
            shake_type: ShakeType::Induction,
            peer_addr: local_addr,
            syn_cookie: 0,
            info: HandshakeVSInfo::V4(SocketType::Datagram),
        };
        let pack = Packet::Control(
            ControlPacket {
                dest_sockid: SocketID(0),
                timestamp: 0,
                control_type: ControlTypes::Handshake(info),
            },
        );
        Connect {
            remote,
            sock: Some(sock),
            local_socket_id,
            state: State::Starting(pack),
            tsbpd_latency_ms,
            crypto,
        }
    }

    /// Starts an attempt to connect to `remote`, with a random initial
    /// sequence number; nothing is sent yet.
    pub fn new(
        sock: T,
        remote: SockAddr,
        local_socket_id: SocketID,
        local_addr: IpAddress,
        tsbpd_latency_ms: u64,
        crypto: Option<KeyMaterial>,
    ) -> (r: Connect<T>)
        ensures
            exists|s: u32|
                r == #[trigger] initial_connect(
                    sock,
                    remote,
                    local_socket_id,
                    local_addr,
                    s,
                    tsbpd_latency_ms,
                    crypto,
                ),
            r.wf(),
    {
        let init_seq_num = random_seq_num();
        Self::with_init_seq_num(
            sock,
            remote,
            local_socket_id,
            local_addr,
            init_seq_num,
            tsbpd_latency_ms,
            crypto,
        )
    }

    /// Hands the engine one decoded packet that came from `from`.
    ///
    /// A packet that is not a handshake from the remote to the local socket
    /// id, or not of the round awaited, is ignored. The peer's Induction is
    /// answered by a Conclusion request, which becomes the outstanding packet;
    /// the peer's Conclusion completes the handshake and hands the channel out.
    pub fn handle_packet(&mut self, pack: Packet, from: SockAddr) -> (r: Result<
        Step<T>,
        ConnectError,
    >)
        requires
            old(self).wf(),
        ensures
            step_relation(*old(self), pack, from, *final(self), r),
    {
        if self.remote != from {
            return Ok(Step::Ignored);
        }
        let (timestamp, info) = match pack {
            Packet::Control(cp) => {
                let ControlPacket { timestamp, dest_sockid, control_type } = cp;
                match control_type {
                    ControlTypes::Handshake(info) => {
                        if dest_sockid != self.local_socket_id {
                            return Ok(Step::Ignored);
                        }
                        (timestamp, info)
                    },
                    _ => {
                        return Ok(Step::Ignored);
                    },
                }
            },
            _ => {
                return Ok(Step::Ignored);
            },
        };
        let HandshakeControlInfo {
            init_seq_num,
            max_packet_size,
            max_flow_size,
            socket_id,
            shake_type,
            peer_addr,
            syn_cookie,
            info: vs_info,
        } = info;
        let starting = match &self.state {
            State::Starting(_) => true,
            State::First(_) => false,
        };
        if starting {
            let version = vs_info.version();
            if version != ACCEPTED_VERSION {
                return Err(ConnectError::UnsupportedVersion(version));
            }
            let wrap_failed = match &self.crypto {
                Some(km) => km.wrapped_key.is_none(),
                None => false,
            };
            if wrap_failed {
                return Err(ConnectError::KeyWrapFailed);
            }
            let ext_km = match self.crypto.take() {
                Some(km) => Some(key_request(km)),
                None => None,
            };
            let ext_hs = SrtControlPacket::HandshakeRequest(
                SrtHandshake {
                    version: SrtVersion::current(),
                    flags: SrtShakeFlags { bits: TSBPDSND | TSBPDRCV },
                    peer_latency_ms: 0,
                    latency_ms: self.tsbpd_latency_ms,
                },
            );
            let reply = Packet::Control(
                ControlPacket {
                    dest_sockid: SocketID(0),
                    timestamp,
                    control_type: ControlTypes::Handshake(
                        HandshakeControlInfo {
                            init_seq_num,
                            max_packet_size,
                            max_flow_size,
                            socket_id,
                            shake_type: ShakeType::Conclusion,
                            peer_addr,
                            syn_cookie,
                            info: HandshakeVSInfo::V5 {
                                crypto_size: 0,
                                ext_hs: Some(ext_hs),
                                ext_km,
                                ext_config: None,
                            },
                        },
                    ),
                },
            );
            self.state = State::First(reply);
            Ok(Step::SendOutstanding)
        } else {
            match shake_type {
                ShakeType::Conclusion => {},
                _ => {
                    return Ok(Step::Ignored);
                },
            }
            let latency = resolve_latency(&vs_info, self.tsbpd_latency_ms);
            let settings = ConnectionSettings {
                remote: self.remote,
                max_flow_size,
                max_packet_size,
                init_seq_num,
                local_sockid: self.local_socket_id,
                remote_sockid: socket_id,
                tsbpd_latency_ms: latency,
            };
            let sock = self.sock.take().unwrap();
            Ok(Step::Done(Connected { sock, settings }))
        }
    }

    /// The packet to send, now and on every tick of the retransmission timer.
    pub fn outstanding(&self) -> (r: &Packet)
        ensures
            *r == self.state.spec_packet(),
    {
        match &self.state {
            State::Starting(p) => p,
            State::First(p) => p,
        }
    }
}

} // verus!
