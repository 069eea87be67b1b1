//! Outbound packets: the handle set and the framed packet with its computed
//! length and checksum.

use vstd::prelude::*;
use vstd::arithmetic::div_mod::lemma_add_mod_noop_right;
use vstd::string::StringExecFns;
pub use crate::frame::ImageData;
use crate::text::{
    decimal, decimal_items, push_decimal, push_decimal_items, push_upper_hex_byte,
    push_upper_hex_u16, upper_hex_byte, upper_hex_u16,
};
use crate::codec::{
    be16, be16_value, be32, byte_sum, checksum16, fold_sum, lemma_byte_sum_concat, push_all,
    push_be16, push_be32,
};

verus! {

/// Marker byte that opens every packet on the wire.
pub const OPCODE: u8 = 0x54;

/// The logical kind of a packet, sent as its second byte.
///
/// The bytes of `Continue`, `EndStream`, `StartStream`, `Connect` and
/// `TestPass` are those seen in traffic with the device. The bytes of
/// `Brightness`, `LedEnable`, `SetPass` and `Unknown` are assumptions that no
/// observed traffic confirms: they keep the handles in ascending order and
/// are to be corrected once the device's own values are known.
#[derive(Debug, Clone, Copy, PartialEq, Eq, Structural)]
pub enum Handle {
    Continue,
    EndStream,
    StartStream,
    Brightness,
    LedEnable,
    Connect,
    SetPass,
    TestPass,
    Unknown,
}

impl Handle {
    /// The byte that stands for this handle on the wire. The bytes 0x07,
    /// 0x08, 0x0e and 0x10 are assumed, not observed.
    pub open spec fn byte(self) -> u8 {
        match self {
            Handle::Continue => 0x00,
            Handle::EndStream => 0x01,
            Handle::StartStream => 0x06,
            Handle::Brightness => 0x07,
            Handle::LedEnable => 0x08,
            Handle::Connect => 0x0d,
            Handle::SetPass => 0x0e,
            Handle::TestPass => 0x0f,
            Handle::Unknown => 0x10,
        }
    }

    /// The handle that a wire byte stands for, if any.
    pub open spec fn of_byte(b: u8) -> Option<Handle> {
        if b == 0x00 {
            Some(Handle::Continue)
        } else if b == 0x01 {
            Some(Handle::EndStream)
        } else if b == 0x06 {
            Some(Handle::StartStream)
        } else if b == 0x07 {
            Some(Handle::Brightness)
        } else if b == 0x08 {
            Some(Handle::LedEnable)
        } else if b == 0x0d {
            Some(Handle::Connect)
        } else if b == 0x0e {
            Some(Handle::SetPass)
        } else if b == 0x0f {
            Some(Handle::TestPass)
        } else if b == 0x10 {
            Some(Handle::Unknown)
        } else {
            None
        }
    }

    pub fn to_byte(self) -> (b: u8)
        ensures
            b == self.byte(),
    {
        match self {
            Handle::Continue => 0x00,
            Handle::EndStream => 0x01,
            Handle::StartStream => 0x06,
            Handle::Brightness => 0x07,
            Handle::LedEnable => 0x08,
            Handle::Connect => 0x0d,
            Handle::SetPass => 0x0e,
            Handle::TestPass => 0x0f,
            Handle::Unknown => 0x10,
        }
    }

    /// The handle's name.
    pub fn name(self) -> (name: &'static str)
        ensures
            name@ == handle_name(self),
    {
        match self {
            Handle::Continue => "Continue",
            Handle::EndStream => "EndStream",
            Handle::StartStream => "StartStream",
            Handle::Brightness => "Brightness",
            Handle::LedEnable => "LedEnable",
            Handle::Connect => "Connect",
            Handle::SetPass => "SetPass",
            Handle::TestPass => "TestPass",
            Handle::Unknown => "Unknown",
        }
    }

    pub fn from_byte(b: u8) -> (h: Option<Handle>)
        ensures
            h == Handle::of_byte(b),
    {
        match b {
            0x00 => Some(Handle::Continue),
            0x01 => Some(Handle::EndStream),
            0x06 => Some(Handle::StartStream),
            0x07 => Some(Handle::Brightness),
            0x08 => Some(Handle::LedEnable),
            0x0d => Some(Handle::Connect),
            0x0e => Some(Handle::SetPass),
            0x0f => Some(Handle::TestPass),
            0x10 => Some(Handle::Unknown),
            _ => None,
        }
    }
}

/// A handle is recovered from its own byte, and a byte that names a handle is
/// that handle's byte.
pub proof fn lemma_handle_byte_round_trip(h: Handle, b: u8)
    ensures
        Handle::of_byte(h.byte()) == Some(h),
        Handle::of_byte(b) == Some(h) ==> h.byte() == b,
{
}

/// Value of the length field: the checksum's two bytes, the optional fields
/// that are present, and the payload.
pub open spec fn length_of(sequence: Option<u32>, data_length: Option<u16>, payload_len: nat) -> nat {
    2 + (if sequence.is_some() { 4nat } else { 0nat })
      + (if data_length.is_some() { 2nat } else { 0nat })
      + payload_len
}

/// The optional fields as they stand on the wire, absent ones taking no room.
pub open spec fn optional_bytes(sequence: Option<u32>, data_length: Option<u16>) -> Seq<u8> {
    (match sequence {
        Some(s) => be32(s),
        None => Seq::empty(),
    }) + (match data_length {
        Some(d) => be16(d),
        None => Seq::empty(),
    })
}

/// Everything of a packet that precedes its checksum.
pub open spec fn body_bytes(
    opcode: u8,
    handle: Handle,
    length: u16,
    sequence: Option<u32>,
    data_length: Option<u16>,
    payload: Seq<u8>,
) -> Seq<u8> {
    seq![opcode, handle.byte()] + be16(length) + optional_bytes(sequence, data_length) + payload
}

/// The wire form of a packet:
/// `[opcode][handle][length:2]([sequence:4])([data_length:2])[payload][checksum:2]`,
/// with the length and the checksum computed from the rest.
pub open spec fn packet_bytes(
    opcode: u8,
    handle: Handle,
    sequence: Option<u32>,
    data_length: Option<u16>,
    payload: Seq<u8>,
) -> Seq<u8>
    recommends
        length_of(sequence, data_length, payload.len()) <= u16::MAX,
{
    let length = length_of(sequence, data_length, payload.len()) as u16;
    let body = body_bytes(opcode, handle, length, sequence, data_length, payload);
    body + be16(checksum16(body))
}

/// The checksum that a wire-form packet carries in its last two bytes.
pub open spec fn trailing_checksum(wire: Seq<u8>) -> u16
    recommends
        wire.len() >= 2,
{
    be16_value(wire[wire.len() - 2], wire[wire.len() - 1])
}

/// Every encoded packet carries the checksum of the bytes before it: summing
/// all bytes but the last two, modulo 2^16, gives the value written in the
/// last two. Its size is four bytes more than its length field says.
pub proof fn lemma_checksum_round_trip(
    opcode: u8,
    handle: Handle,
    sequence: Option<u32>,
    data_length: Option<u16>,
    payload: Seq<u8>,
)
    requires
        length_of(sequence, data_length, payload.len()) <= u16::MAX,
    ensures
        packet_bytes(opcode, handle, sequence, data_length, payload).len() == 4 + length_of(
            sequence,
            data_length,
            payload.len(),
        ),
        trailing_checksum(packet_bytes(opcode, handle, sequence, data_length, payload))
            == checksum16(
            packet_bytes(opcode, handle, sequence, data_length, payload).take(
                packet_bytes(opcode, handle, sequence, data_length, payload).len() - 2,
            ),
        ),
        be16_value(
            packet_bytes(opcode, handle, sequence, data_length, payload)[2],
            packet_bytes(opcode, handle, sequence, data_length, payload)[3],
        ) == length_of(sequence, data_length, payload.len()),
{
    let length = length_of(sequence, data_length, payload.len()) as u16;
    let body = body_bytes(opcode, handle, length, sequence, data_length, payload);
    let wire = packet_bytes(opcode, handle, sequence, data_length, payload);
    assert(wire.take(wire.len() - 2) =~= body);
    assert(wire[wire.len() - 2] == be16(checksum16(body))[0]);
    assert(wire[wire.len() - 1] == be16(checksum16(body))[1]);
}

/// The name of a handle.
pub open spec fn handle_name(handle: Handle) -> Seq<char> {
    match handle {
        Handle::Continue => "Continue"@,
        Handle::EndStream => "EndStream"@,
        Handle::StartStream => "StartStream"@,
        Handle::Brightness => "Brightness"@,
        Handle::LedEnable => "LedEnable"@,
        Handle::Connect => "Connect"@,
        Handle::SetPass => "SetPass"@,
        Handle::TestPass => "TestPass"@,
        Handle::Unknown => "Unknown"@,
    }
}

/// An optional field as text: `None`, or `Some(..)` around its value in
/// decimal.
pub open spec fn optional_text(field: Option<nat>) -> Seq<char> {
    match field {
        None => "None"@,
        Some(n) => "Some("@ + decimal(n) + ")"@,
    }
}

/// A sequence number as the text form takes it.
pub open spec fn sequence_text(sequence: Option<u32>) -> Seq<char> {
    optional_text(
        match sequence {
            Some(s) => Some(s as nat),
            None => None,
        },
    )
}

/// A data length as the text form takes it.
pub open spec fn data_length_text(data_length: Option<u16>) -> Seq<char> {
    optional_text(
        match data_length {
            Some(d) => Some(d as nat),
            None => None,
        },
    )
}

/// The text form of a packet: every field by name, the opcode and the
/// checksum in upper-case hexadecimal, the rest in decimal.
pub open spec fn packet_line(p: PacketView) -> Seq<char> {
    "Packet { Opcode: 0x"@ + upper_hex_byte(p.opcode) + ", Handle: "@ + handle_name(p.handle)
        + ", Length: "@ + decimal(p.length as nat) + ", Sequence: "@ + sequence_text(p.sequence)
        + ", Data Length: "@ + data_length_text(p.data_length) + ", Data: ["@ + decimal_items(
        p.data,
    ) + "], Checksum: 0x"@ + upper_hex_u16(p.checksum) + " }"@
}

/// What a packet holds, as plain values.
pub struct PacketView {
    pub opcode: u8,
    pub handle: Handle,
    pub length: u16,
    pub sequence: Option<u32>,
    pub data_length: Option<u16>,
    pub data: Seq<u8>,
    pub checksum: u16,
}

impl PacketView {
    /// The bytes that the checksum covers.
    pub open spec fn body(self) -> Seq<u8> {
        body_bytes(self.opcode, self.handle, self.length, self.sequence, self.data_length, self.data)
    }

    /// The length and checksum fields are the ones computed from the rest.
    pub open spec fn wf(self) -> bool {
        &&& self.length == length_of(self.sequence, self.data_length, self.data.len())
        &&& self.checksum == checksum16(self.body())
    }

    /// The packet as it goes on the wire.
    pub open spec fn wire(self) -> Seq<u8> {
        packet_bytes(self.opcode, self.handle, self.sequence, self.data_length, self.data)
    }
}

/// One outbound packet. Length and checksum are computed when the packet is
/// built and cannot be set apart from the other fields.
#[derive(Debug)]
pub struct Packet {
    opcode: u8,
    handle: Handle,
    length: u16,
    sequence: Option<u32>,
    data_length: Option<u16>,
    data: Vec<u8>,
    checksum: u16,
}

impl View for Packet {
    type V = PacketView;

    closed spec fn view(&self) -> PacketView {
        PacketView {
            opcode: self.opcode,
            handle: self.handle,
            length: self.length,
            sequence: self.sequence,
            data_length: self.data_length,
            data: self.data@,
            checksum: self.checksum,
        }
    }
}

impl Clone for Packet {
    fn clone(&self) -> (copy: Packet)
        ensures
            copy@ == self@,
    {
        proof {
            use_type_invariant(self);
        }
        let mut data: Vec<u8> = Vec::new();
        push_all(&mut data, self.data.as_slice());
        assert(data@ =~= self.data@);
        Packet {
            opcode: self.opcode,
            handle: self.handle,
            length: self.length,
            sequence: self.sequence,
            data_length: self.data_length,
            data,
            checksum: self.checksum,
        }
    }
}

/// Appends an optional field as text.
fn push_optional(out: &mut String, field: Option<u32>)
    ensures
        final(out)@ == old(out)@ + optional_text(
            match field {
                Some(n) => Some(n as nat),
                None => None,
            },
        ),
{
    match field {
        None => {
            out.append("None");
        },
        Some(n) => {
            out.append("Some(");
            push_decimal(out, n);
            out.append(")");
            assert(out@ =~= old(out)@ + ("Some("@ + decimal(n as nat) + ")"@));
        },
    }
}

/// The fixed-size fields in front of the payload, as bytes.
fn header_bytes(
    opcode: u8,
    handle: Handle,
    length: u16,
    sequence: Option<u32>,
    data_length: Option<u16>,
) -> (out: Vec<u8>)
    ensures
        out@ == seq![opcode, handle.byte()] + be16(length) + optional_bytes(sequence, data_length),
{
    let mut out: Vec<u8> = Vec::new();
    out.push(opcode);
    out.push(handle.to_byte());
    push_be16(&mut out, length);
    let ghost fixed = out@;
    assert(fixed =~= seq![opcode, handle.byte()] + be16(length));
    if let Some(seq) = sequence {
        push_be32(&mut out, seq);
    }
    if let Some(data_len) = data_length {
        push_be16(&mut out, data_len);
    }
    assert(out@ =~= fixed + optional_bytes(sequence, data_length));
    out
}

/// The 16-bit wrapping sum over opcode, handle byte, length, the optional
/// fields that are present and every payload byte.
fn body_checksum(
    opcode: u8,
    handle: Handle,
    length: u16,
    sequence: Option<u32>,
    data_length: Option<u16>,
    data: &[u8],
) -> (sum: u16)
    ensures
        sum == checksum16(body_bytes(opcode, handle, length, sequence, data_length, data@)),
{
    let header = header_bytes(opcode, handle, length, sequence, data_length);
    let partial: u16 = fold_sum(0, header.as_slice());
    let sum: u16 = fold_sum(partial, data);
    proof {
        lemma_byte_sum_concat(header@, data@);
        lemma_add_mod_noop_right(byte_sum(data@) as int, byte_sum(header@) as int, 0x1_0000);
        assert(header@ + data@ =~= body_bytes(
            opcode,
            handle,
            length,
            sequence,
            data_length,
            data@,
        ));
    }
    sum
}

impl Packet {
    #[verifier::type_invariant]
    closed spec fn inv(self) -> bool {
        self@.wf()
    }

    /// Builds a packet, computing its length and checksum. The length field
    /// has two bytes, so the payload with the optional fields and the
    /// checksum must not exceed 65535 bytes.
    pub fn new(
        opcode: u8,
        handle: Handle,
        sequence: Option<u32>,
        data_length: Option<u16>,
        data: Vec<u8>,
    ) -> (packet: Packet)
        requires
            length_of(sequence, data_length, data@.len()) <= u16::MAX,
        ensures
            packet@.opcode == opcode,
            packet@.handle == handle,
            packet@.sequence == sequence,
            packet@.data_length == data_length,
            packet@.data == data@,
            packet@.wf(),
    {
        let mut length: u16 = 2;
        if sequence.is_some() {
            length = length + 4;
        }
        if data_length.is_some() {
            length = length + 2;
        }
        let length: u16 = length + data.len() as u16;
        let checksum: u16 = body_checksum(opcode, handle, length, sequence, data_length, data.as_slice());
        Packet { opcode, handle, length, sequence, data_length, data, checksum }
    }

    /// The packet as it goes on the wire.
    pub fn to_bytes(&self) -> (bytes: Vec<u8>)
        ensures
            bytes@ == self@.wire(),
            self@.wf(),
    {
        proof {
            use_type_invariant(self);
        }
        let mut bytes = header_bytes(
            self.opcode,
            self.handle,
            self.length,
            self.sequence,
            self.data_length,
        );
        push_all(&mut bytes, self.data.as_slice());
        push_be16(&mut bytes, self.checksum);
        bytes
    }

    /// The 16-bit wrapping sum of every byte in front of the checksum field.
    pub fn calculate_checksum(&self) -> (sum: u16)
        ensures
            sum == checksum16(self@.body()),
            sum == self@.checksum,
    {
        proof {
            use_type_invariant(self);
        }
        body_checksum(
            self.opcode,
            self.handle,
            self.length,
            self.sequence,
            self.data_length,
            self.data.as_slice(),
        )
    }

    /// The packet as one line of text that names every field.
    pub fn describe(&self) -> (line: String)
        ensures
            line@ == packet_line(self@),
    {
        let mut line = String::from_str("Packet { Opcode: 0x");
        push_upper_hex_byte(&mut line, self.opcode);
        line.append(", Handle: ");
        line.append(self.handle.name());
        line.append(", Length: ");
        push_decimal(&mut line, self.length as u32);
        line.append(", Sequence: ");
        push_optional(&mut line, self.sequence);
        let ghost upto_sequence = line@;
        assert(upto_sequence =~= "Packet { Opcode: 0x"@ + upper_hex_byte(self.opcode)
            + ", Handle: "@ + handle_name(self.handle) + ", Length: "@ + decimal(
            self.length as nat,
        ) + ", Sequence: "@ + sequence_text(self.sequence));
        line.append(", Data Length: ");
        let data_length: Option<u32> = match self.data_length {
            Some(d) => Some(d as u32),
            None => None,
        };
        push_optional(&mut line, data_length);
        line.append(", Data: [");
        push_decimal_items(&mut line, self.data.as_slice());
        line.append("], Checksum: 0x");
        push_upper_hex_u16(&mut line, self.checksum);
        line.append(" }");
        assert(line@ =~= packet_line(self@));
        line
    }

    pub fn opcode(&self) -> (opcode: u8)
        ensures
            opcode == self@.opcode,
    {
        self.opcode
    }

    pub fn handle(&self) -> (handle: Handle)
        ensures
            handle == self@.handle,
    {
        self.handle
    }

    pub fn length(&self) -> (length: u16)
        ensures
            length == self@.length,
            length == length_of(self@.sequence, self@.data_length, self@.data.len()),
    {
        proof {
            use_type_invariant(self);
        }
        self.length
    }

    pub fn sequence(&self) -> (sequence: Option<u32>)
        ensures
            sequence == self@.sequence,
    {
        self.sequence
    }

    pub fn data_length(&self) -> (data_length: Option<u16>)
        ensures
            data_length == self@.data_length,
    {
        self.data_length
    }

    pub fn data(&self) -> (data: &Vec<u8>)
        ensures
            data@ == self@.data,
    {
        &self.data
    }

    pub fn checksum(&self) -> (checksum: u16)
        ensures
            checksum == self@.checksum,
            checksum == checksum16(self@.body()),
    {
        proof {
            use_type_invariant(self);
        }
        self.checksum
    }
}

/// Frames a payload: the wire form of the packet with these fields.
pub fn encode_packet(
    opcode: u8,
    handle: Handle,
    sequence: Option<u32>,
    data_length: Option<u16>,
    payload: Vec<u8>,
) -> (bytes: Vec<u8>)
    requires
        length_of(sequence, data_length, payload@.len()) <= u16::MAX,
    ensures
        bytes@ == packet_bytes(opcode, handle, sequence, data_length, payload@),
        bytes@.len() == 4 + length_of(sequence, data_length, payload@.len()),
{
    Packet::new(opcode, handle, sequence, data_length, payload).to_bytes()
}

} // verus!
