//! The per-connection logic of the server.
//!
//! A connection is served by a coordinator, which reads the client's packets
//! and decides what is to be done, a subscriber, which passes the broadcasts
//! of the current channel on to the client, and a responder, which passes
//! the server's answers on. The decisions of all three are made here, as
//! functions from what came in to what is to go out; carrying them out (the
//! socket, the queues, the credential store) is left to the caller.

use vstd::prelude::*;
use vstd::string::StringExecFns;
use crate::frame::encode_frame;
use crate::frame::frame_of;
use crate::frame::packet_payload;
use crate::packet::PacketType;
use crate::packet::PacketView;
use crate::text::str_eq;

verus! {

/// The bytes that go to the client for a packet: its frame, or nothing where
/// the packet is too long for a frame.
pub open spec fn wire_bytes(p: PacketView) -> Option<Seq<u8>> {
    if packet_payload(p).len() <= u32::MAX {
        Some(frame_of(packet_payload(p)))
    } else {
        None
    }
}

/// The bytes that go to the client for a packet.
pub fn to_wire(packet: &PacketType) -> (r: Option<Vec<u8>>)
    ensures
        match r {
            Some(bytes) => wire_bytes(packet@) == Some(bytes@),
            None => wire_bytes(packet@) is None,
        },
{
    match encode_frame(packet) {
        Ok(bytes) => Some(bytes),
        Err(_) => None,
    }
}

/// The part of a connection that passes a channel's broadcasts on to the
/// client. It starts closed and opens when it sees `Connected` on the
/// channel.
#[derive(Debug)]
pub struct Subscriber {
    pub connected: bool,
}

/// Whether a subscriber passes a broadcast packet on to the client: only a
/// message, only once the subscriber is open, and never a message that
/// carries the connection's own id.
pub open spec fn forwards(connected: bool, identifier: Seq<char>, p: PacketView) -> bool {
    match p {
        PacketView::Message { id, msg, is_system } => connected && id != identifier,
        _ => false,
    }
}

/// Whether a subscriber is open after a broadcast packet.
pub open spec fn connected_after(connected: bool, p: PacketView) -> bool {
    connected || p is Connected
}

/// Whether a subscriber that started closed is open after the first `n`
/// packets of `packets`.
pub open spec fn connected_at(packets: Seq<PacketView>, n: int) -> bool
    decreases n,
{
    if n <= 0 {
        false
    } else {
        connected_after(connected_at(packets, n - 1), packets[n - 1])
    }
}

/// A subscriber that started closed is open after `n` packets exactly where
/// one of them was `Connected`.
pub proof fn lemma_connected_at(packets: Seq<PacketView>, n: int)
    requires
        0 <= n <= packets.len(),
    ensures
        connected_at(packets, n) <==> exists|j: int| 0 <= j < n && packets[j] is Connected,
    decreases n,
{
    if n > 0 {
        lemma_connected_at(packets, n - 1);
        if connected_at(packets, n - 1) {
            let j = choose|j: int| 0 <= j < n - 1 && packets[j] is Connected;
            assert(0 <= j < n && packets[j] is Connected);
        } else if packets[n - 1] is Connected {
            assert(0 <= n - 1 < n && packets[n - 1] is Connected);
        } else {
            assert forall|j: int| 0 <= j < n implies !(packets[j] is Connected) by {
                if j < n - 1 {
                }
            }
        }
    }
}

/// No message reaches the client before the subscriber has seen `Connected`
/// on its channel: where a subscriber that started closed passes the packet
/// at `i` on, an earlier packet was `Connected`.
pub proof fn lemma_broadcast_gating(packets: Seq<PacketView>, identifier: Seq<char>, i: int)
    requires
        0 <= i < packets.len(),
        forwards(connected_at(packets, i), identifier, packets[i]),
    ensures
        exists|j: int| 0 <= j < i && packets[j] is Connected,
{
    lemma_connected_at(packets, i);
}

/// A connection never gets its own message back: whatever a subscriber has
/// seen, it does not pass on a message that carries the connection's id.
pub proof fn lemma_no_self_echo(connected: bool, identifier: Seq<char>, msg: Seq<char>, is_system: bool)
    ensures
        !forwards(connected, identifier, PacketView::Message { id: identifier, msg, is_system }),
{
}

/// A subscriber that has just been made passes nothing on: after a move to
/// another channel, nothing reaches the client before `Connected` has been
/// seen on the new channel.
pub proof fn lemma_fresh_subscriber_is_closed(identifier: Seq<char>, p: PacketView)
    ensures
        !forwards(false, identifier, p),
{
}

impl Subscriber {
    /// A subscriber for a channel just joined: closed.
    pub fn new() -> (s: Subscriber)
        ensures
            !s.connected,
    {
        Subscriber { connected: false }
    }

    /// Takes a packet from the channel's broadcast. Gives the bytes to send
    /// to the client: the frame of the packet where the subscriber passes it
    /// on, and nothing otherwise. `identifier` is the connection's id.
    pub fn on_broadcast(&mut self, identifier: &str, packet: &PacketType) -> (out: Option<Vec<u8>>)
        ensures
            final(self).connected == connected_after(old(self).connected, packet@),
            match out {
                Some(bytes) => forwards(old(self).connected, identifier@, packet@) && wire_bytes(
                    packet@,
                ) == Some(bytes@),
                None => !forwards(old(self).connected, identifier@, packet@) || wire_bytes(packet@)
                    is None,
            },
    {
        match packet {
            PacketType::Message(msg) => {
                if !self.connected {
                    return None;
                }
                if str_eq(identifier, msg.id.as_str()) {
                    return None;
                }
                to_wire(packet)
            },
            PacketType::Connected(_) => {
                self.connected = true;
                None
            },
            _ => None,
        }
    }
}

/// Whether the responder passes a packet on to the client: only the
/// server's answers.
pub open spec fn is_response(p: PacketView) -> bool {
    p is RegisterRes || p is LoginRes || p is FetchRes || p is GotoRes
}

/// The connection's id after the responder has taken a packet: the id of a
/// successful login, else the id as it was.
pub open spec fn identifier_after(identifier: Seq<char>, p: PacketView) -> Seq<char> {
    match p {
        PacketView::LoginRes { result: Ok(id) } => id,
        _ => identifier,
    }
}

/// Takes a packet that is meant for this connection alone. Gives the bytes
/// to send to the client: the frame of the packet where it is one of the
/// server's answers, and nothing otherwise. A successful login sets the
/// connection's id before its answer is passed on.
pub fn respond(identifier: &mut String, packet: &PacketType) -> (out: Option<Vec<u8>>)
    ensures
        final(identifier)@ == identifier_after(old(identifier)@, packet@),
        match out {
            Some(bytes) => is_response(packet@) && wire_bytes(packet@) == Some(bytes@),
            None => !is_response(packet@) || wire_bytes(packet@) is None,
        },
{
    match packet {
        PacketType::RegisterRes(_) => to_wire(packet),
        PacketType::LoginRes(r) => {
            match &r.result {
                Ok(id) => {
                    *identifier = id.clone();
                },
                Err(_) => {},
            }
            to_wire(packet)
        },
        PacketType::FetchRes(_) => to_wire(packet),
        PacketType::GotoRes(_) => to_wire(packet),
        _ => None,
    }
}

} // verus!
