//! Properties of the handshake engine, over the relation that
//! [`Connect::handle_packet`](crate::connect::Connect::handle_packet) ensures.
use vstd::prelude::*;

use crate::connect::{
    accepted_handshake, key_wrap_fails, step_relation, ConnectError, Connect, Step,
};
use crate::packet::{
    ControlPacket, ControlTypes, HandshakeControlInfo, HandshakeVSInfo, Packet, ShakeType,
    SockAddr, SocketID, SrtControlPacket,
};

verus! {

/// The handshake packet stamped `timestamp`, addressed to `dest`, carrying `info`.
pub open spec fn handshake_packet(timestamp: u32, dest: SocketID, info: HandshakeControlInfo) -> Packet {
    Packet::Control(
        ControlPacket { timestamp, dest_sockid: dest, control_type: ControlTypes::Handshake(info) },
    )
}

/// A peer's version 5 Induction, from the remote and addressed to the local
/// socket id, is answered by a Conclusion request addressed to socket id 0
/// that echoes the Induction's timestamp, and that request becomes the
/// outstanding packet.
pub proof fn lemma_induction_answered<T>(
    c: Connect<T>,
    timestamp: u32,
    info: HandshakeControlInfo,
    c2: Connect<T>,
    r: Result<Step<T>, ConnectError>,
)
    requires
        c.state is Starting,
        info.shake_type == ShakeType::Induction,
        info.info.spec_version() == 5,
        !key_wrap_fails(c.crypto),
        step_relation(c, handshake_packet(timestamp, c.local_socket_id, info), c.remote, c2, r),
    ensures
        r == Ok::<Step<T>, ConnectError>(Step::SendOutstanding),
        c2.state is First,
        match c2.state.spec_packet() {
            Packet::Control(cp) => {
                &&& cp.dest_sockid == SocketID(0)
                &&& cp.timestamp == timestamp
                &&& match cp.control_type {
                    ControlTypes::Handshake(h) => h.shake_type == ShakeType::Conclusion,
                    _ => false,
                }
            },
            _ => false,
        },
{
}

/// A handshake packet addressed to another socket id, or coming from another
/// address than the remote, is ignored and leaves the engine as it was.
pub proof fn lemma_stray_ignored<T>(
    c: Connect<T>,
    timestamp: u32,
    dest: SocketID,
    info: HandshakeControlInfo,
    from: SockAddr,
    c2: Connect<T>,
    r: Result<Step<T>, ConnectError>,
)
    requires
        dest != c.local_socket_id || from != c.remote,
        step_relation(c, handshake_packet(timestamp, dest, info), from, c2, r),
    ensures
        c2 == c,
        r == Ok::<Step<T>, ConnectError>(Step::Ignored),
{
}

/// While the Induction is awaited, a handshake of any version but 5 ends the
/// attempt with an error, and no new packet is made outstanding.
pub proof fn lemma_version_mismatch_fatal<T>(
    c: Connect<T>,
    timestamp: u32,
    info: HandshakeControlInfo,
    c2: Connect<T>,
    r: Result<Step<T>, ConnectError>,
)
    requires
        c.state is Starting,
        info.info.spec_version() != 5,
        step_relation(c, handshake_packet(timestamp, c.local_socket_id, info), c.remote, c2, r),
    ensures
        r == Err::<Step<T>, ConnectError>(ConnectError::UnsupportedVersion(info.info.spec_version())),
        c2 == c,
{
}

/// As long as no accepted response arrives, whatever else comes in, the
/// engine stays as it is, so the packet that every tick sends again is the
/// one sent first, identical each time.
pub proof fn lemma_resend_unchanged<T>(
    states: Seq<Connect<T>>,
    inputs: Seq<(Packet, SockAddr)>,
    results: Seq<Result<Step<T>, ConnectError>>,
)
    requires
        states.len() == inputs.len() + 1,
        results.len() == inputs.len(),
        forall|i: int|
            0 <= i < inputs.len() ==> #[trigger] accepted_handshake(
                states[i].remote,
                states[i].local_socket_id,
                inputs[i].0,
                inputs[i].1,
            ) is None,
        forall|i: int|
            0 <= i < inputs.len() ==> step_relation(
                #[trigger] states[i],
                inputs[i].0,
                inputs[i].1,
                states[i + 1],
                results[i],
            ),
    ensures
        forall|i: int|
            0 <= i < states.len() ==> #[trigger] states[i] == states[0]
                && states[i].state.spec_packet() == states[0].state.spec_packet(),
    decreases inputs.len(),
{
    if inputs.len() > 0 {
        let n = inputs.len() - 1;
        let states0 = states.drop_last();
        let inputs0 = inputs.drop_last();
        let results0 = results.drop_last();
        assert forall|i: int| 0 <= i < inputs0.len() implies #[trigger] accepted_handshake(
            states0[i].remote,
            states0[i].local_socket_id,
            inputs0[i].0,
            inputs0[i].1,
        ) is None by {
            assert(states0[i] == states[i] && inputs0[i] == inputs[i]);
            assert(accepted_handshake(states[i].remote, states[i].local_socket_id, inputs[i].0, inputs[i].1) is None);
        }
        assert forall|i: int| 0 <= i < inputs0.len() implies step_relation(
            #[trigger] states0[i],
            inputs0[i].0,
            inputs0[i].1,
            states0[i + 1],
            results0[i],
        ) by {
            assert(step_relation(states[i], inputs[i].0, inputs[i].1, states[i + 1], results[i]));
        }
        lemma_resend_unchanged(states0, inputs0, results0);
        assert(states0[n] == states[n]);
        assert(accepted_handshake(states[n].remote, states[n].local_socket_id, inputs[n].0, inputs[n].1) is None);
        assert(step_relation(states[n], inputs[n].0, inputs[n].1, states[n + 1], results[n]));
        assert forall|i: int| 0 <= i < states.len() implies #[trigger] states[i] == states[0]
            && states[i].state.spec_packet() == states[0].state.spec_packet() by {
            if i <= n {
                assert(states0[i] == states[i]);
            }
        }
    }
}

/// Once the Conclusion request is outstanding the engine never goes back:
/// after any packet it is still awaiting the Conclusion, or done.
pub proof fn lemma_no_regress<T>(
    c: Connect<T>,
    pack: Packet,
    from: SockAddr,
    c2: Connect<T>,
    r: Result<Step<T>, ConnectError>,
)
    requires
        c.state is First,
        step_relation(c, pack, from, c2, r),
    ensures
        c2.state is First,
{
}

/// The peer's Conclusion completes the handshake, and the parameters handed
/// out carry the initial sequence number, packet size, flow size and socket
/// id that the peer sent, and the remote and local socket id of the attempt.
pub proof fn lemma_conclusion_settings<T>(
    c: Connect<T>,
    timestamp: u32,
    info: HandshakeControlInfo,
    c2: Connect<T>,
    r: Result<Step<T>, ConnectError>,
)
    requires
        c.state is First,
        info.shake_type == ShakeType::Conclusion,
        step_relation(c, handshake_packet(timestamp, c.local_socket_id, info), c.remote, c2, r),
    ensures
        r is Ok && r->Ok_0 is Done,
        ({
            let s = r->Ok_0->Done_0.settings;
            &&& s.init_seq_num == info.init_seq_num
            &&& s.max_packet_size == info.max_packet_size
            &&& s.max_flow_size == info.max_flow_size
            &&& s.remote_sockid == info.socket_id
            &&& s.remote == c.remote
            &&& s.local_sockid == c.local_socket_id
        }),
        c2.sock is None,
{
}

/// Where the peer's Conclusion carries no handshake response extension, the
/// connection's latency is the locally configured one.
pub proof fn lemma_latency_fallback<T>(
    c: Connect<T>,
    timestamp: u32,
    info: HandshakeControlInfo,
    c2: Connect<T>,
    r: Result<Step<T>, ConnectError>,
)
    requires
        c.state is First,
        info.shake_type == ShakeType::Conclusion,
        !(info.info matches HandshakeVSInfo::V5 { ext_hs: Some(SrtControlPacket::HandshakeResponse(_)), .. }),
        step_relation(c, handshake_packet(timestamp, c.local_socket_id, info), c.remote, c2, r),
    ensures
        r is Ok && r->Ok_0 is Done,
        r->Ok_0->Done_0.settings.tsbpd_latency_ms == c.tsbpd_latency_ms,
{
}

} // verus!
