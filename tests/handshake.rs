use srt_connect::connect::{
    resolve_latency, ConnectError, Connect, KeyMaterial, Step, MAX_FLOW_SIZE, MAX_PACKET_SIZE,
};
use srt_connect::packet::{
    CipherType, ControlPacket, ControlTypes, HandshakeControlInfo, HandshakeVSInfo, IpAddress,
    Packet, ShakeType, SockAddr, SocketID, SocketType, SrtControlPacket, SrtHandshake,
    SrtShakeFlags, SrtVersion, TSBPDRCV, TSBPDSND,
};

fn remote() -> SockAddr {
    SockAddr { ip: IpAddress::V4(0x0a00_0001), port: 9000 }
}

fn local_ip() -> IpAddress {
    IpAddress::V4(0x0a00_0002)
}

fn connect(crypto: Option<KeyMaterial>) -> Connect<&'static str> {
    Connect::with_init_seq_num("chan", remote(), SocketID(42), local_ip(), 1234, 120, crypto)
}

fn v5(ext_hs: Option<SrtControlPacket>) -> HandshakeVSInfo {
    HandshakeVSInfo::V5 { crypto_size: 0, ext_hs, ext_km: None, ext_config: None }
}

fn peer_info(shake_type: ShakeType, info: HandshakeVSInfo) -> HandshakeControlInfo {
    HandshakeControlInfo {
        init_seq_num: 555,
        max_packet_size: 1400,
        max_flow_size: 2048,
        socket_id: SocketID(77),
        shake_type,
        peer_addr: IpAddress::V4(0x0a00_0001),
        syn_cookie: 99,
        info,
    }
}

fn handshake(timestamp: u32, dest: u32, info: HandshakeControlInfo) -> Packet {
    Packet::Control(ControlPacket {
        timestamp,
        dest_sockid: SocketID(dest),
        control_type: ControlTypes::Handshake(info),
    })
}

fn response_ext(latency_ms: u64) -> SrtControlPacket {
    SrtControlPacket::HandshakeResponse(SrtHandshake {
        version: SrtVersion::current(),
        flags: SrtShakeFlags { bits: TSBPDSND | TSBPDRCV },
        peer_latency_ms: 0,
        latency_ms,
    })
}

fn outstanding_info(c: &Connect<&'static str>) -> (u32, SocketID, HandshakeControlInfo) {
    match c.outstanding() {
        Packet::Control(ControlPacket {
            timestamp,
            dest_sockid,
            control_type: ControlTypes::Handshake(info),
        }) => (*timestamp, *dest_sockid, info.clone()),
        other => panic!("outstanding packet is not a handshake: {:?}", other),
    }
}

/// Drives the engine into the round that awaits the Conclusion.
fn after_induction(c: &mut Connect<&'static str>) {
    let r = c.handle_packet(handshake(10, 42, peer_info(ShakeType::Induction, v5(None))), remote());
    assert!(matches!(r, Ok(Step::SendOutstanding)));
}

#[test]
fn scenario_induction_then_conclusion() {
    let mut c = Connect::new("chan", remote(), SocketID(42), local_ip(), 120, None);
    let (ts, dest, info) = outstanding_info(&c);
    assert_eq!(ts, 0);
    assert_eq!(dest, SocketID(0));
    assert_eq!(info.socket_id, SocketID(42));
    assert_eq!(info.shake_type, ShakeType::Induction);
    assert_eq!(info.max_packet_size, 1500);
    assert_eq!(info.max_flow_size, 8192);
    assert_eq!(info.peer_addr, local_ip());
    assert_eq!(info.info, HandshakeVSInfo::V4(SocketType::Datagram));

    let r = c.handle_packet(handshake(3000, 42, peer_info(ShakeType::Induction, v5(None))), remote());
    assert!(matches!(r, Ok(Step::SendOutstanding)));
    let (ts, dest, info) = outstanding_info(&c);
    assert_eq!(ts, 3000);
    assert_eq!(dest, SocketID(0));
    assert_eq!(info.shake_type, ShakeType::Conclusion);
    match info.info {
        HandshakeVSInfo::V5 { ext_hs: Some(SrtControlPacket::HandshakeRequest(hs)), ext_km, .. } => {
            assert_eq!(hs.latency_ms, 120);
            assert_eq!(hs.peer_latency_ms, 0);
            assert_eq!(hs.flags.bits, TSBPDSND | TSBPDRCV);
            assert_eq!(ext_km, None);
        }
        other => panic!("not a version 5 request: {:?}", other),
    }

    let mut concl = peer_info(ShakeType::Conclusion, v5(None));
    concl.init_seq_num = 777;
    concl.max_flow_size = 4096;
    match c.handle_packet(handshake(4000, 42, concl), remote()) {
        Ok(Step::Done(done)) => {
            assert_eq!(done.sock, "chan");
            assert_eq!(done.settings.init_seq_num, 777);
            assert_eq!(done.settings.max_flow_size, 4096);
            assert_eq!(done.settings.tsbpd_latency_ms, 120);
            assert_eq!(done.settings.remote, remote());
            assert_eq!(done.settings.local_sockid, SocketID(42));
        }
        _ => panic!("handshake did not complete"),
    }
    assert!(c.sock.is_none());
}

#[test]
fn conclusion_latency_taken_from_peer() {
    let mut c = connect(None);
    after_induction(&mut c);
    let mut concl = peer_info(ShakeType::Conclusion, v5(Some(response_ext(250))));
    concl.init_seq_num = 777;
    concl.max_flow_size = 4096;
    match c.handle_packet(handshake(0, 42, concl), remote()) {
        Ok(Step::Done(done)) => {
            assert_eq!(done.settings.init_seq_num, 777);
            assert_eq!(done.settings.max_flow_size, 4096);
            assert_eq!(done.settings.max_packet_size, 1400);
            assert_eq!(done.settings.remote_sockid, SocketID(77));
            assert_eq!(done.settings.tsbpd_latency_ms, 250);
        }
        _ => panic!("handshake did not complete"),
    }
}

#[test]
fn conclusion_without_extension_falls_back_to_local_latency() {
    let mut c = connect(None);
    after_induction(&mut c);
    let r = c.handle_packet(handshake(0, 42, peer_info(ShakeType::Conclusion, HandshakeVSInfo::V4(SocketType::Datagram))), remote());
    match r {
        Ok(Step::Done(done)) => assert_eq!(done.settings.tsbpd_latency_ms, 120),
        _ => panic!("handshake did not complete"),
    }
}

#[test]
fn stray_packets_leave_engine_unchanged() {
    let mut c = connect(None);
    let before = c.outstanding().clone();
    let other = SockAddr { ip: IpAddress::V4(0x0a00_0009), port: 9000 };
    let other_port = SockAddr { ip: IpAddress::V4(0x0a00_0001), port: 9001 };
    let good = peer_info(ShakeType::Induction, v5(None));
    for (pack, from) in [
        (handshake(1, 42, good.clone()), other),
        (handshake(1, 42, good.clone()), other_port),
        (handshake(1, 43, good.clone()), remote()),
        (handshake(1, 0, good.clone()), remote()),
        (
            Packet::Control(ControlPacket {
                timestamp: 1,
                dest_sockid: SocketID(42),
                control_type: ControlTypes::KeepAlive,
            }),
            remote(),
        ),
    ] {
        assert!(matches!(c.handle_packet(pack, from), Ok(Step::Ignored)));
        assert_eq!(*c.outstanding(), before);
        assert!(c.sock.is_some());
    }
}

#[test]
fn version_four_induction_is_fatal() {
    let mut c = connect(None);
    let before = c.outstanding().clone();
    let r = c.handle_packet(
        handshake(5, 42, peer_info(ShakeType::Induction, HandshakeVSInfo::V4(SocketType::Datagram))),
        remote(),
    );
    assert!(matches!(r, Err(ConnectError::UnsupportedVersion(4))));
    assert_eq!(*c.outstanding(), before);
}

#[test]
fn resend_is_identical_while_nothing_arrives() {
    let mut c = connect(None);
    let first = c.outstanding().clone();
    let other = SockAddr { ip: IpAddress::V6(1), port: 9000 };
    for _ in 0..5 {
        let r = c.handle_packet(handshake(1, 42, peer_info(ShakeType::Induction, v5(None))), other);
        assert!(matches!(r, Ok(Step::Ignored)));
        assert_eq!(*c.outstanding(), first);
    }
    after_induction(&mut c);
    let second = c.outstanding().clone();
    assert_ne!(second, first);
    for _ in 0..5 {
        let r = c.handle_packet(handshake(1, 41, peer_info(ShakeType::Conclusion, v5(None))), remote());
        assert!(matches!(r, Ok(Step::Ignored)));
        assert_eq!(*c.outstanding(), second);
    }
}

#[test]
fn conclusion_round_ignores_other_shake_types() {
    let mut c = connect(None);
    after_induction(&mut c);
    let before = c.outstanding().clone();
    let r = c.handle_packet(handshake(1, 42, peer_info(ShakeType::Induction, v5(None))), remote());
    assert!(matches!(r, Ok(Step::Ignored)));
    assert_eq!(*c.outstanding(), before);
    assert!(c.sock.is_some());
}

#[test]
fn induction_round_tolerates_other_shake_type() {
    let mut c = connect(None);
    let r = c.handle_packet(handshake(8, 42, peer_info(ShakeType::Waveahand, v5(None))), remote());
    assert!(matches!(r, Ok(Step::SendOutstanding)));
    let (_, _, info) = outstanding_info(&c);
    assert_eq!(info.shake_type, ShakeType::Conclusion);
}

#[test]
fn conclusion_request_echoes_peer_fields() {
    let mut c = connect(None);
    after_induction(&mut c);
    let (ts, dest, info) = outstanding_info(&c);
    assert_eq!(ts, 10);
    assert_eq!(dest, SocketID(0));
    assert_eq!(info.init_seq_num, 555);
    assert_eq!(info.max_packet_size, 1400);
    assert_eq!(info.max_flow_size, 2048);
    assert_eq!(info.socket_id, SocketID(77));
    assert_eq!(info.syn_cookie, 99);
}

#[test]
fn key_material_is_embedded() {
    let km = KeyMaterial { salt: vec![1, 2, 3, 4], wrapped_key: Some(vec![9, 8, 7]) };
    let mut c = connect(Some(km));
    after_induction(&mut c);
    let (_, _, info) = outstanding_info(&c);
    match info.info {
        HandshakeVSInfo::V5 { ext_km: Some(SrtControlPacket::KeyManagerRequest(m)), ext_config, crypto_size, .. } => {
            assert_eq!(m.pt, 2);
            assert_eq!(m.sign, 8233);
            assert_eq!(m.keki, 0);
            assert_eq!(m.cipher, CipherType::CTR);
            assert_eq!(m.auth, 0);
            assert_eq!(m.se, 2);
            assert_eq!(m.salt, vec![1, 2, 3, 4]);
            assert_eq!(m.even_key, Some(vec![9, 8, 7]));
            assert_eq!(m.odd_key, None);
            assert_eq!(m.wrap_data, [0u8; 8]);
            assert_eq!(ext_config, None);
            assert_eq!(crypto_size, 0);
        }
        other => panic!("no key-manager extension: {:?}", other),
    }
}

#[test]
fn key_wrap_failure_is_fatal() {
    let km = KeyMaterial { salt: vec![1, 2, 3, 4], wrapped_key: None };
    let mut c = connect(Some(km));
    let before = c.outstanding().clone();
    let r = c.handle_packet(handshake(1, 42, peer_info(ShakeType::Induction, v5(None))), remote());
    assert!(matches!(r, Err(ConnectError::KeyWrapFailed)));
    assert_eq!(*c.outstanding(), before);
}

#[test]
fn version_check_precedes_key_wrap() {
    let km = KeyMaterial { salt: vec![1], wrapped_key: None };
    let mut c = connect(Some(km));
    let r = c.handle_packet(
        handshake(1, 42, peer_info(ShakeType::Induction, HandshakeVSInfo::V4(SocketType::Stream))),
        remote(),
    );
    assert!(matches!(r, Err(ConnectError::UnsupportedVersion(4))));
}

#[test]
fn resolve_latency_cases() {
    assert_eq!(resolve_latency(&v5(Some(response_ext(300))), 120), 300);
    assert_eq!(resolve_latency(&v5(None), 120), 120);
    assert_eq!(resolve_latency(&HandshakeVSInfo::V4(SocketType::Datagram), 80), 80);
    let request = SrtControlPacket::HandshakeRequest(SrtHandshake {
        version: SrtVersion::current(),
        flags: SrtShakeFlags { bits: 0 },
        peer_latency_ms: 0,
        latency_ms: 999,
    });
    assert_eq!(resolve_latency(&v5(Some(request)), 120), 120);
}

#[test]
fn version_numbers() {
    assert_eq!(HandshakeVSInfo::V4(SocketType::Datagram).version(), 4);
    assert_eq!(v5(None).version(), 5);
    assert_eq!(SrtVersion::current(), SrtVersion { major: 1, minor: 3, patch: 0 });
}

#[test]
fn with_init_seq_num_builds_induction() {
    let c = connect(None);
    let (_, _, info) = outstanding_info(&c);
    assert_eq!(info.init_seq_num, 1234);
    assert_eq!(info.max_packet_size, MAX_PACKET_SIZE);
    assert_eq!(info.max_flow_size, MAX_FLOW_SIZE);
    assert_eq!(info.syn_cookie, 0);
    assert_eq!(c.remote, remote());
    assert_eq!(c.sock, Some("chan"));
}
