//! Inbound notifications: the buffer that the device delivers after each
//! command, decoded into a handle and the data that belongs to that handle.
//!
//! The decoder checks the buffer's structure only. The checksum field is
//! read and handed on, never recomputed.

use vstd::prelude::*;
use vstd::slice::slice_subrange;
use crate::codec::{be16, be16_value, be32_value, checksum16, push_all};
use crate::packet::{body_bytes, lemma_handle_byte_round_trip, packet_bytes, Handle};

verus! {

/// Smallest buffer that can hold a notification: opcode, handle, length and
/// checksum, with no data.
pub const MIN_NOTIFICATION_LEN: usize = 6;

/// Offset in the data of a `Continue` notification at which the echoed
/// chunk index stands, as four big-endian bytes. The offset is assumed: no
/// observed traffic confirms it.
pub const CHUNK_INDEX_OFFSET: usize = 0;

/// Outcome reported for `EndStream`, `Brightness`, `LedEnable` and `SetPass`.
/// Which byte stands for which outcome is assumed; see `generic_result_of`.
#[derive(Debug, Clone, Copy, PartialEq, Eq, Structural)]
pub enum GenericResult {
    Success,
    Fail,
}

/// Outcome reported for `TestPass`. Which byte stands for which outcome is
/// assumed; see `auth_result_of`.
#[derive(Debug, Clone, Copy, PartialEq, Eq, Structural)]
pub enum AuthResult {
    Correct,
    Incorrect,
    NoPass,
}

/// Why a buffer is no notification.
#[derive(Debug, Clone, Copy, PartialEq, Eq, Structural)]
pub enum DecodeError {
    /// The buffer is shorter than six bytes, than its length field declares,
    /// or than the data of its handle.
    Undersized,
    /// The handle byte names no handle.
    UnknownHandle(u8),
    /// The result byte names no result of the handle's kind.
    UnknownResult(u8),
}

/// The data of a notification, by the kind of its handle.
#[derive(Debug)]
pub enum Payload {
    /// `Continue`: the chunk index that the device echoes.
    ChunkIndex(u32),
    /// `EndStream`, `Brightness`, `LedEnable`, `SetPass`.
    Outcome(GenericResult),
    /// `StartStream`: the number of chunks that the device expects.
    ChunksExpected(u8),
    /// `Connect`: two bytes, handed on as they came.
    Connected(u8, u8),
    /// `TestPass`.
    Auth(AuthResult),
    /// `Unknown`: the data as it came.
    Opaque(Vec<u8>),
}

/// The data of a notification as plain values.
pub enum PayloadView {
    ChunkIndex(u32),
    Outcome(GenericResult),
    ChunksExpected(u8),
    Connected(u8, u8),
    Auth(AuthResult),
    Opaque(Seq<u8>),
}

impl View for Payload {
    type V = PayloadView;

    open spec fn view(&self) -> PayloadView {
        match self {
            Payload::ChunkIndex(i) => PayloadView::ChunkIndex(*i),
            Payload::Outcome(r) => PayloadView::Outcome(*r),
            Payload::ChunksExpected(n) => PayloadView::ChunksExpected(*n),
            Payload::Connected(a, b) => PayloadView::Connected(*a, *b),
            Payload::Auth(r) => PayloadView::Auth(*r),
            Payload::Opaque(bytes) => PayloadView::Opaque(bytes@),
        }
    }
}

/// A decoded notification.
#[derive(Debug)]
pub struct Notification {
    pub opcode: u8,
    pub handle: Handle,
    pub length: u16,
    pub data: Payload,
    pub checksum: u16,
}

/// A decoded notification as plain values.
pub struct NotificationView {
    pub opcode: u8,
    pub handle: Handle,
    pub length: u16,
    pub data: PayloadView,
    pub checksum: u16,
}

impl View for Notification {
    type V = NotificationView;

    open spec fn view(&self) -> NotificationView {
        NotificationView {
            opcode: self.opcode,
            handle: self.handle,
            length: self.length,
            data: self.data@,
            checksum: self.checksum,
        }
    }
}

/// The generic result that a byte stands for, if any. The values, 0x00 for
/// success and 0x01 for failure, are assumptions that no observed traffic
/// confirms.
pub open spec fn generic_result_of(b: u8) -> Option<GenericResult> {
    if b == 0x00 {
        Some(GenericResult::Success)
    } else if b == 0x01 {
        Some(GenericResult::Fail)
    } else {
        None
    }
}

/// The authentication result that a byte stands for, if any. The values,
/// 0x00, 0x01 and 0x02 in the order of the variants, are assumptions that no
/// observed traffic confirms.
pub open spec fn auth_result_of(b: u8) -> Option<AuthResult> {
    if b == 0x00 {
        Some(AuthResult::Correct)
    } else if b == 0x01 {
        Some(AuthResult::Incorrect)
    } else if b == 0x02 {
        Some(AuthResult::NoPass)
    } else {
        None
    }
}

/// Data of a `Continue` notification: four bytes, the echoed chunk index.
pub open spec fn chunk_index_of(data: Seq<u8>) -> Result<PayloadView, DecodeError> {
    if data.len() < 4 {
        Err(DecodeError::Undersized)
    } else {
        Ok(PayloadView::ChunkIndex(be32_value(data[0], data[1], data[2], data[3])))
    }
}

/// Data of an `EndStream`, `Brightness`, `LedEnable` or `SetPass`
/// notification: the first byte, a generic result.
pub open spec fn outcome_of(data: Seq<u8>) -> Result<PayloadView, DecodeError> {
    if data.len() < 1 {
        Err(DecodeError::Undersized)
    } else {
        match generic_result_of(data[0]) {
            Some(r) => Ok(PayloadView::Outcome(r)),
            None => Err(DecodeError::UnknownResult(data[0])),
        }
    }
}

/// Data of a `StartStream` notification: one byte.
pub open spec fn chunks_expected_of(data: Seq<u8>) -> Result<PayloadView, DecodeError> {
    if data.len() < 1 {
        Err(DecodeError::Undersized)
    } else {
        Ok(PayloadView::ChunksExpected(data[0]))
    }
}

/// Data of a `Connect` notification: two bytes.
pub open spec fn connected_of(data: Seq<u8>) -> Result<PayloadView, DecodeError> {
    if data.len() < 2 {
        Err(DecodeError::Undersized)
    } else {
        Ok(PayloadView::Connected(data[0], data[1]))
    }
}

/// Data of a `TestPass` notification: the first byte, an authentication
/// result.
pub open spec fn auth_of(data: Seq<u8>) -> Result<PayloadView, DecodeError> {
    if data.len() < 1 {
        Err(DecodeError::Undersized)
    } else {
        match auth_result_of(data[0]) {
            Some(r) => Ok(PayloadView::Auth(r)),
            None => Err(DecodeError::UnknownResult(data[0])),
        }
    }
}

/// What the data of a notification with the given handle decodes to.
pub open spec fn payload_of(handle: Handle, data: Seq<u8>) -> Result<PayloadView, DecodeError> {
    match handle {
        Handle::Continue => chunk_index_of(data),
        Handle::EndStream => outcome_of(data),
        Handle::StartStream => chunks_expected_of(data),
        Handle::Brightness => outcome_of(data),
        Handle::LedEnable => outcome_of(data),
        Handle::Connect => connected_of(data),
        Handle::SetPass => outcome_of(data),
        Handle::TestPass => auth_of(data),
        Handle::Unknown => Ok(PayloadView::Opaque(data)),
    }
}

/// What a buffer decodes to. The buffer holds
/// `[opcode][handle][length:2][data][checksum:2]`, where the length counts
/// the data and the checksum, as it does in an outbound packet; bytes behind
/// the checksum are ignored.
pub open spec fn notification_of(buf: Seq<u8>) -> Result<NotificationView, DecodeError> {
    if buf.len() < 6 {
        Err(DecodeError::Undersized)
    } else {
        match Handle::of_byte(buf[1]) {
            None => Err(DecodeError::UnknownHandle(buf[1])),
            Some(handle) => {
                let length = be16_value(buf[2], buf[3]);
                if length < 2 || 4 + length > buf.len() {
                    Err(DecodeError::Undersized)
                } else {
                    match payload_of(handle, buf.subrange(4, 2 + length)) {
                        Err(e) => Err(e),
                        Ok(data) => Ok(
                            NotificationView {
                                opcode: buf[0],
                                handle,
                                length,
                                data,
                                checksum: be16_value(buf[2 + length], buf[3 + length]),
                            },
                        ),
                    }
                }
            },
        }
    }
}

/// A notification has the layout of a packet without optional fields: the
/// wire form of such a packet decodes to its opcode, handle, length and
/// checksum, and to what its payload decodes to under its handle.
pub proof fn lemma_decodes_packet_layout(opcode: u8, handle: Handle, data: Seq<u8>)
    requires
        2 + data.len() <= u16::MAX,
    ensures
        notification_of(packet_bytes(opcode, handle, None, None, data)) == match payload_of(
            handle,
            data,
        ) {
            Err(e) => Err::<NotificationView, DecodeError>(e),
            Ok(payload) => Ok(
                NotificationView {
                    opcode,
                    handle,
                    length: (2 + data.len()) as u16,
                    data: payload,
                    checksum: checksum16(
                        body_bytes(opcode, handle, (2 + data.len()) as u16, None, None, data),
                    ),
                },
            ),
        },
{
    let length = (2 + data.len()) as u16;
    let body = body_bytes(opcode, handle, length, None, None, data);
    let wire = packet_bytes(opcode, handle, None, None, data);
    lemma_handle_byte_round_trip(handle, 0);
    assert(wire.len() == 6 + data.len());
    assert(wire[0] == opcode);
    assert(wire[1] == handle.byte());
    assert(be16_value(wire[2], wire[3]) == length);
    assert(wire.subrange(4, 2 + length) =~= data);
    assert(wire[2 + length] == be16(checksum16(body))[0]);
    assert(wire[3 + length] == be16(checksum16(body))[1]);
}

/// The decoded value and the model agree.
pub open spec fn payload_matches(
    out: Result<Payload, DecodeError>,
    model: Result<PayloadView, DecodeError>,
) -> bool {
    match out {
        Ok(p) => model == Ok::<PayloadView, DecodeError>(p@),
        Err(e) => model == Err::<PayloadView, DecodeError>(e),
    }
}

/// The decoded value and the model agree.
pub open spec fn notification_matches(
    out: Result<Notification, DecodeError>,
    model: Result<NotificationView, DecodeError>,
) -> bool {
    match out {
        Ok(n) => model == Ok::<NotificationView, DecodeError>(n@),
        Err(e) => model == Err::<NotificationView, DecodeError>(e),
    }
}

/// Reads a big-endian 16-bit value.
fn read_be16(hi: u8, lo: u8) -> (x: u16)
    ensures
        x == be16_value(hi, lo),
{
    (hi as u16) * 256 + (lo as u16)
}

/// Reads a big-endian 32-bit value.
fn read_be32(b0: u8, b1: u8, b2: u8, b3: u8) -> (x: u32)
    ensures
        x == be32_value(b0, b1, b2, b3),
{
    (b0 as u32) * 0x100_0000 + (b1 as u32) * 0x1_0000 + (b2 as u32) * 256 + (b3 as u32)
}

pub fn generic_result_from_byte(b: u8) -> (r: Option<GenericResult>)
    ensures
        r == generic_result_of(b),
{
    match b {
        0x00 => Some(GenericResult::Success),
        0x01 => Some(GenericResult::Fail),
        _ => None,
    }
}

pub fn auth_result_from_byte(b: u8) -> (r: Option<AuthResult>)
    ensures
        r == auth_result_of(b),
{
    match b {
        0x00 => Some(AuthResult::Correct),
        0x01 => Some(AuthResult::Incorrect),
        0x02 => Some(AuthResult::NoPass),
        _ => None,
    }
}

/// Decodes the data of a `Continue` notification.
pub fn decode_chunk_index(data: &[u8]) -> (out: Result<Payload, DecodeError>)
    ensures
        payload_matches(out, chunk_index_of(data@)),
{
    if data.len() < 4 {
        Err(DecodeError::Undersized)
    } else {
        Ok(
            Payload::ChunkIndex(
                read_be32(
                    data[CHUNK_INDEX_OFFSET],
                    data[CHUNK_INDEX_OFFSET + 1],
                    data[CHUNK_INDEX_OFFSET + 2],
                    data[CHUNK_INDEX_OFFSET + 3],
                ),
            ),
        )
    }
}

/// Decodes the data of an `EndStream`, `Brightness`, `LedEnable` or
/// `SetPass` notification.
pub fn decode_outcome(data: &[u8]) -> (out: Result<Payload, DecodeError>)
    ensures
        payload_matches(out, outcome_of(data@)),
{
    if data.len() < 1 {
        Err(DecodeError::Undersized)
    } else {
        match generic_result_from_byte(data[0]) {
            Some(r) => Ok(Payload::Outcome(r)),
            None => Err(DecodeError::UnknownResult(data[0])),
        }
    }
}

/// Decodes the data of a `StartStream` notification.
pub fn decode_chunks_expected(data: &[u8]) -> (out: Result<Payload, DecodeError>)
    ensures
        payload_matches(out, chunks_expected_of(data@)),
{
    if data.len() < 1 {
        Err(DecodeError::Undersized)
    } else {
        Ok(Payload::ChunksExpected(data[0]))
    }
}

/// Decodes the data of a `Connect` notification.
pub fn decode_connected(data: &[u8]) -> (out: Result<Payload, DecodeError>)
    ensures
        payload_matches(out, connected_of(data@)),
{
    if data.len() < 2 {
        Err(DecodeError::Undersized)
    } else {
        Ok(Payload::Connected(data[0], data[1]))
    }
}

/// Decodes the data of a `TestPass` notification.
pub fn decode_auth(data: &[u8]) -> (out: Result<Payload, DecodeError>)
    ensures
        payload_matches(out, auth_of(data@)),
{
    if data.len() < 1 {
        Err(DecodeError::Undersized)
    } else {
        match auth_result_from_byte(data[0]) {
            Some(r) => Ok(Payload::Auth(r)),
            None => Err(DecodeError::UnknownResult(data[0])),
        }
    }
}

/// Hands on the data of an `Unknown` notification as it came.
pub fn decode_opaque(data: &[u8]) -> (out: Result<Payload, DecodeError>)
    ensures
        payload_matches(out, Ok(PayloadView::Opaque(data@))),
{
    let mut bytes: Vec<u8> = Vec::new();
    push_all(&mut bytes, data);
    assert(bytes@ =~= data@);
    Ok(Payload::Opaque(bytes))
}

/// Decodes the data of a notification by its handle.
pub fn decode_payload(handle: Handle, data: &[u8]) -> (out: Result<Payload, DecodeError>)
    ensures
        payload_matches(out, payload_of(handle, data@)),
{
    match handle {
        Handle::Continue => decode_chunk_index(data),
        Handle::EndStream => decode_outcome(data),
        Handle::StartStream => decode_chunks_expected(data),
        Handle::Brightness => decode_outcome(data),
        Handle::LedEnable => decode_outcome(data),
        Handle::Connect => decode_connected(data),
        Handle::SetPass => decode_outcome(data),
        Handle::TestPass => decode_auth(data),
        Handle::Unknown => decode_opaque(data),
    }
}

/// Decodes a notification buffer. Fails with `Undersized` on a buffer under
/// six bytes, whatever it holds; then with `UnknownHandle` on a handle byte
/// that names none; then with `Undersized` where the declared length is
/// under two or reaches past the buffer, or the data is shorter than the
/// handle asks; then with `UnknownResult` on a result byte that names none.
pub fn decode_notification(bytes: &[u8]) -> (out: Result<Notification, DecodeError>)
    ensures
        notification_matches(out, notification_of(bytes@)),
        bytes@.len() < 6 ==> out == Err::<Notification, DecodeError>(DecodeError::Undersized),
{
    if bytes.len() < MIN_NOTIFICATION_LEN {
        return Err(DecodeError::Undersized);
    }
    let handle = match Handle::from_byte(bytes[1]) {
        Some(h) => h,
        None => {
            return Err(DecodeError::UnknownHandle(bytes[1]));
        },
    };
    let length: u16 = read_be16(bytes[2], bytes[3]);
    if length < 2 || bytes.len() - 4 < length as usize {
        return Err(DecodeError::Undersized);
    }
    let end: usize = 2 + length as usize;
    let data = slice_subrange(bytes, 4, end);
    match decode_payload(handle, data) {
        Err(e) => Err(e),
        Ok(data) => Ok(
            Notification {
                opcode: bytes[0],
                handle,
                length,
                data,
                checksum: read_be16(bytes[end], bytes[end + 1]),
            },
        ),
    }
}

} // verus!
