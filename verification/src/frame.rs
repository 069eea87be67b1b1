//! The continuation frame that wraps an image payload, the announcement that
//! precedes it on the wire, and its division into chunks.

use vstd::prelude::*;
use crate::codec::{be16, be16_value, be32, crc32_iscsi, crc32_of, push_all, push_be16, push_be32};

verus! {

/// Bytes of a continuation frame in front of its payload: CRC-32, start
/// marker and reserved zeros.
pub const FRAME_HEADER_LEN: usize = 24;

/// The byte that follows the CRC-32 in every continuation frame.
pub const START_MARKER: u8 = 0x01;

/// Number of reserved zero bytes between the start marker and the payload.
pub const FRAME_RESERVED_LEN: usize = 19;

/// Largest number of payload bytes that one chunk carries.
pub const CHUNK_SIZE: usize = 492;

/// `n` zero bytes.
pub open spec fn zeros(n: nat) -> Seq<u8> {
    Seq::new(n, |i: int| 0u8)
}

/// The wire form of a continuation frame: CRC-32 of the payload, big-endian;
/// the start marker; nineteen reserved zero bytes; the payload.
pub open spec fn frame_bytes(crc32: u32, payload: Seq<u8>) -> Seq<u8> {
    be32(crc32) + seq![0x01u8] + zeros(19) + payload
}

/// The wire form of a start announcement: CRC-32, two reserved bytes, the
/// frame's total length, three reserved bytes.
pub open spec fn announcement_bytes(crc32: u32, total_length: u16) -> Seq<u8> {
    be32(crc32) + zeros(2) + be16(total_length) + zeros(3)
}

/// A frame is 24 bytes longer than its payload, and the announcement made
/// for it says so: the two bytes at offset 6 of the announcement, read
/// big-endian, are `24 + payload.len()`, and its first four bytes are the
/// frame's first four, the CRC-32.
pub proof fn lemma_announced_length(crc32: u32, payload: Seq<u8>)
    requires
        24 + payload.len() <= u16::MAX,
    ensures
        frame_bytes(crc32, payload).len() == 24 + payload.len(),
        announcement_bytes(crc32, (24 + payload.len()) as u16).len() == 11,
        be16_value(
            announcement_bytes(crc32, (24 + payload.len()) as u16)[6],
            announcement_bytes(crc32, (24 + payload.len()) as u16)[7],
        ) == 24 + payload.len(),
        announcement_bytes(crc32, (24 + payload.len()) as u16).take(4) == frame_bytes(
            crc32,
            payload,
        ).take(4),
{
    let a = announcement_bytes(crc32, (24 + payload.len()) as u16);
    let f = frame_bytes(crc32, payload);
    assert(a.take(4) =~= f.take(4));
}

/// Appends `n` zero bytes to `out`.
fn push_zeros(out: &mut Vec<u8>, n: usize)
    ensures
        final(out)@ == old(out)@ + zeros(n as nat),
{
    let mut i: usize = 0;
    while i < n
        invariant
            i <= n,
            out@ == old(out)@ + zeros(i as nat),
        decreases n - i,
    {
        out.push(0u8);
        i += 1;
        assert(out@ =~= old(out)@ + zeros(i as nat));
    }
}

/// An image payload with the CRC-32 that the device checks it against.
pub struct ImageData {
    pub crc32: u32,
    pub data: Vec<u8>,
}

impl ImageData {
    /// The CRC-32 field is the CRC-32/ISCSI value of the payload.
    pub open spec fn wf(&self) -> bool {
        self.crc32 == crc32_iscsi(self.data@)
    }

    /// Wraps a payload, computing its CRC-32.
    pub fn new(data: Vec<u8>) -> (frame: ImageData)
        ensures
            frame.data == data,
            frame.crc32 == crc32_iscsi(data@),
            frame.wf(),
    {
        let crc32: u32 = crc32_of(data.as_slice());
        ImageData { crc32, data }
    }

    /// The frame as it is streamed to the device, 24 bytes longer than its
    /// payload.
    pub fn to_bytes(&self) -> (bytes: Vec<u8>)
        ensures
            bytes@ == frame_bytes(self.crc32, self.data@),
            bytes@.len() == 24 + self.data@.len(),
    {
        let mut bytes: Vec<u8> = Vec::new();
        push_be32(&mut bytes, self.crc32);
        bytes.push(START_MARKER);
        push_zeros(&mut bytes, FRAME_RESERVED_LEN);
        push_all(&mut bytes, self.data.as_slice());
        assert(bytes@ =~= frame_bytes(self.crc32, self.data@));
        bytes
    }
}

/// Announces a frame before it is streamed: its CRC-32 and its total length.
#[derive(Debug, Clone, Copy)]
pub struct StartAnnouncement {
    crc32: u32,
    total_length: u16,
}

impl StartAnnouncement {
    pub closed spec fn crc32_value(self) -> u32 {
        self.crc32
    }

    pub closed spec fn total_length_value(self) -> u16 {
        self.total_length
    }

    /// The announcement of a frame with the given CRC-32 and payload size,
    /// if the frame's length fits the two-byte field; then the announced
    /// length is 24 more than the payload's.
    pub fn describe(crc32: u32, payload_len: usize) -> (announcement: Option<StartAnnouncement>)
        ensures
            announcement.is_some() <==> 24 + payload_len <= u16::MAX,
            announcement matches Some(a) ==> a.crc32_value() == crc32 && a.total_length_value()
                == 24 + payload_len,
    {
        if payload_len > 0xFFFF - FRAME_HEADER_LEN {
            None
        } else {
            Some(StartAnnouncement { crc32, total_length: (payload_len + FRAME_HEADER_LEN) as u16 })
        }
    }

    /// The announcement of `frame`, if its length fits the two-byte field.
    pub fn for_frame(frame: &ImageData) -> (announcement: Option<StartAnnouncement>)
        ensures
            announcement.is_some() <==> 24 + frame.data@.len() <= u16::MAX,
            announcement matches Some(a) ==> a.crc32_value() == frame.crc32
                && a.total_length_value() == 24 + frame.data@.len(),
    {
        StartAnnouncement::describe(frame.crc32, frame.data.len())
    }

    #[verifier::when_used_as_spec(crc32_value)]
    pub fn crc32(self) -> (crc32: u32)
        ensures
            crc32 == self.crc32_value(),
    {
        self.crc32
    }

    #[verifier::when_used_as_spec(total_length_value)]
    pub fn total_length(self) -> (total_length: u16)
        ensures
            total_length == self.total_length_value(),
    {
        self.total_length
    }

    /// The announcement as it stands in a `StartStream` packet.
    pub fn to_bytes(&self) -> (bytes: Vec<u8>)
        ensures
            bytes@ == announcement_bytes(self.crc32_value(), self.total_length_value()),
            bytes@.len() == 11,
    {
        let mut bytes: Vec<u8> = Vec::new();
        push_be32(&mut bytes, self.crc32);
        push_zeros(&mut bytes, 2);
        push_be16(&mut bytes, self.total_length);
        push_zeros(&mut bytes, 3);
        bytes
    }
}

/// Number of chunks that `len` bytes are sent in: `len / 492`, rounded up.
pub open spec fn chunk_count_of(len: nat) -> nat {
    (len + 491) / 492
}

/// The chunk of `bytes` with 0-based sequence number `i`.
pub open spec fn chunk_at(bytes: Seq<u8>, i: nat) -> Seq<u8>
    recommends
        i < chunk_count_of(bytes.len()),
{
    bytes.subrange(
        (i * 492) as int,
        if (i + 1) * 492 <= bytes.len() {
            ((i + 1) * 492) as int
        } else {
            bytes.len() as int
        },
    )
}

/// The first `n` chunks of `bytes`, joined in sequence order.
pub open spec fn joined_chunks(bytes: Seq<u8>, n: nat) -> Seq<u8>
    decreases n,
{
    if n == 0 {
        Seq::empty()
    } else {
        joined_chunks(bytes, (n - 1) as nat) + chunk_at(bytes, (n - 1) as nat)
    }
}

proof fn lemma_joined_prefix(bytes: Seq<u8>, n: nat)
    requires
        n <= chunk_count_of(bytes.len()),
    ensures
        joined_chunks(bytes, n) == bytes.take(
            if n * 492 <= bytes.len() {
                (n * 492) as int
            } else {
                bytes.len() as int
            },
        ),
    decreases n,
{
    if n == 0 {
        assert(bytes.take(0) =~= Seq::<u8>::empty());
    } else {
        lemma_joined_prefix(bytes, (n - 1) as nat);
        let end = if n * 492 <= bytes.len() {
            (n * 492) as int
        } else {
            bytes.len() as int
        };
        assert(joined_chunks(bytes, n) =~= bytes.take(end));
    }
}

/// Cutting `bytes` into chunks of 492 gives `ceil(len / 492)` chunks; every
/// chunk but the last holds exactly 492 bytes, the last between 1 and 492;
/// and the chunks joined in sequence order are `bytes` again.
pub proof fn lemma_chunking(bytes: Seq<u8>)
    ensures
        chunk_count_of(bytes.len()) * 492 >= bytes.len(),
        bytes.len() > 0 ==> (chunk_count_of(bytes.len()) - 1) * 492 < bytes.len(),
        bytes.len() == 0 ==> chunk_count_of(bytes.len()) == 0,
        forall|i: nat| i + 1 < chunk_count_of(bytes.len()) ==> #[trigger] chunk_at(bytes, i).len() == 492,
        chunk_count_of(bytes.len()) > 0 ==> 1 <= chunk_at(
            bytes,
            (chunk_count_of(bytes.len()) - 1) as nat,
        ).len() <= 492,
        joined_chunks(bytes, chunk_count_of(bytes.len())) == bytes,
{
    let n = chunk_count_of(bytes.len());
    lemma_joined_prefix(bytes, n);
    assert(bytes.take(bytes.len() as int) =~= bytes);
}

/// Number of chunks that `len` bytes are sent in.
pub fn chunk_count(len: usize) -> (n: usize)
    ensures
        n == chunk_count_of(len as nat),
{
    if len % CHUNK_SIZE == 0 {
        len / CHUNK_SIZE
    } else {
        len / CHUNK_SIZE + 1
    }
}

/// Copies out the chunk of `bytes` with sequence number `index`.
pub fn chunk(bytes: &[u8], index: usize) -> (out: Vec<u8>)
    requires
        index < chunk_count_of(bytes@.len()),
    ensures
        out@ == chunk_at(bytes@, index as nat),
        1 <= out@.len() <= 492,
{
    let len: usize = bytes.len();
    assert(index * 492 < len);
    let start: usize = index * CHUNK_SIZE;
    let end: usize = if len - start >= CHUNK_SIZE {
        start + CHUNK_SIZE
    } else {
        len
    };
    let mut out: Vec<u8> = Vec::new();
    let mut i: usize = start;
    while i < end
        invariant
            start <= i <= end <= bytes.len(),
            out@ == bytes@.subrange(start as int, i as int),
        decreases end - i,
    {
        out.push(bytes[i]);
        i += 1;
        assert(out@ =~= bytes@.subrange(start as int, i as int));
    }
    out
}

/// All chunks of `bytes`, in sequence order.
pub fn chunks(bytes: &[u8]) -> (out: Vec<Vec<u8>>)
    ensures
        out@.len() == chunk_count_of(bytes@.len()),
        forall|i: int| 0 <= i < out@.len() ==> (#[trigger] out@[i])@ == chunk_at(bytes@, i as nat),
{
    let count: usize = chunk_count(bytes.len());
    let mut out: Vec<Vec<u8>> = Vec::new();
    let mut i: usize = 0;
    while i < count
        invariant
            i <= count,
            count == chunk_count_of(bytes@.len()),
            out@.len() == i,
            forall|k: int| 0 <= k < i ==> (#[trigger] out@[k])@ == chunk_at(bytes@, k as nat),
        decreases count - i,
    {
        let piece = chunk(bytes, i);
        out.push(piece);
        i += 1;
    }
    out
}

} // verus!
