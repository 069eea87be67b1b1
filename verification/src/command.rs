//! One builder per command of the transfer exchange. Each fixes the handle,
//! the optional fields and the payload, and leaves length and checksum to
//! the packet itself.

use vstd::prelude::*;
use crate::codec::push_all;
use crate::frame::{announcement_bytes, zeros, StartAnnouncement};
use crate::packet::{Handle, Packet, OPCODE};

verus! {

/// Length in bytes of a credential.
pub const SECRET_LEN: usize = 6;

/// Payload of the authentication packet: the credential, or six zero bytes
/// where none is given.
pub open spec fn auth_payload(secret: Option<Seq<u8>>) -> Seq<u8> {
    match secret {
        Some(s) => s,
        None => zeros(6),
    }
}

/// What a credential holds, as a sequence of six bytes.
pub open spec fn secret_view(secret: Option<[u8; 6]>) -> Option<Seq<u8>> {
    match secret {
        Some(s) => Some(s@),
        None => None,
    }
}

/// The packet that opens the exchange: handle `Connect`, payload `[0x00]`.
pub fn connect_packet() -> (packet: Packet)
    ensures
        packet@.wf(),
        packet@.opcode == 0x54,
        packet@.handle == Handle::Connect,
        packet@.sequence.is_none(),
        packet@.data_length.is_none(),
        packet@.data == seq![0x00u8],
{
    let mut payload: Vec<u8> = Vec::new();
    payload.push(0x00);
    assert(payload@ =~= seq![0x00u8]);
    Packet::new(OPCODE, Handle::Connect, None, None, payload)
}

/// The authentication packet: handle `TestPass`, payload the six bytes of
/// the credential, or six zero bytes where none is given.
pub fn auth_packet(secret: Option<[u8; 6]>) -> (packet: Packet)
    ensures
        packet@.wf(),
        packet@.opcode == 0x54,
        packet@.handle == Handle::TestPass,
        packet@.sequence.is_none(),
        packet@.data_length.is_none(),
        packet@.data == auth_payload(secret_view(secret)),
        packet@.data.len() == 6,
{
    let mut payload: Vec<u8> = Vec::new();
    match secret {
        Some(s) => {
            push_all(&mut payload, s.as_slice());
            assert(payload@ =~= s@);
        },
        None => {
            let mut i: usize = 0;
            while i < SECRET_LEN
                invariant
                    i <= SECRET_LEN,
                    payload@ == zeros(i as nat),
                decreases SECRET_LEN - i,
            {
                payload.push(0x00);
                i += 1;
                assert(payload@ =~= zeros(i as nat));
            }
        },
    }
    Packet::new(OPCODE, Handle::TestPass, None, None, payload)
}

/// The packet that announces a frame: handle `StartStream`, payload the
/// announcement's bytes.
pub fn start_stream_packet(announcement: &StartAnnouncement) -> (packet: Packet)
    ensures
        packet@.wf(),
        packet@.opcode == 0x54,
        packet@.handle == Handle::StartStream,
        packet@.sequence.is_none(),
        packet@.data_length.is_none(),
        packet@.data == announcement_bytes(
            announcement.crc32_value(),
            announcement.total_length_value(),
        ),
{
    Packet::new(OPCODE, Handle::StartStream, None, None, announcement.to_bytes())
}

/// The packet that carries one chunk: handle `Continue`, the chunk's 0-based
/// index as sequence number, its size as data length, its bytes as payload.
/// A chunk never exceeds 492 bytes.
pub fn continue_packet(index: u32, chunk: Vec<u8>) -> (packet: Packet)
    requires
        chunk@.len() <= 492,
    ensures
        packet@.wf(),
        packet@.opcode == 0x54,
        packet@.handle == Handle::Continue,
        packet@.sequence == Some(index),
        packet@.data_length == Some(chunk@.len() as u16),
        packet@.data == chunk@,
{
    let data_length: u16 = chunk.len() as u16;
    Packet::new(OPCODE, Handle::Continue, Some(index), Some(data_length), chunk)
}

/// The packet that closes the stream: handle `EndStream`, payload `[0x01]`.
pub fn end_stream_packet() -> (packet: Packet)
    ensures
        packet@.wf(),
        packet@.opcode == 0x54,
        packet@.handle == Handle::EndStream,
        packet@.sequence.is_none(),
        packet@.data_length.is_none(),
        packet@.data == seq![0x01u8],
{
    let mut payload: Vec<u8> = Vec::new();
    payload.push(0x01);
    assert(payload@ =~= seq![0x01u8]);
    Packet::new(OPCODE, Handle::EndStream, None, None, payload)
}

} // verus!
