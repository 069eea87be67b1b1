//! Byte-level building blocks of the wire format: big-endian integers, the
//! running 16-bit checksum and the CRC-32 content check.

use vstd::prelude::*;
use vstd::arithmetic::div_mod::lemma_add_mod_noop;

verus! {

/// The two bytes of a 16-bit value, most significant first.
pub open spec fn be16(x: u16) -> Seq<u8> {
    seq![(x / 256) as u8, (x % 256) as u8]
}

/// The four bytes of a 32-bit value, most significant first.
pub open spec fn be32(x: u32) -> Seq<u8> {
    seq![
        (x / 0x100_0000) as u8,
        ((x / 0x1_0000) % 256) as u8,
        ((x / 256) % 256) as u8,
        (x % 256) as u8,
    ]
}

/// The 16-bit value whose big-endian bytes are `hi`, `lo`.
pub open spec fn be16_value(hi: u8, lo: u8) -> u16 {
    (hi as int * 256 + lo as int) as u16
}

/// The 32-bit value whose big-endian bytes are `b0`, `b1`, `b2`, `b3`.
pub open spec fn be32_value(b0: u8, b1: u8, b2: u8, b3: u8) -> u32 {
    (b0 as int * 0x100_0000 + b1 as int * 0x1_0000 + b2 as int * 256 + b3 as int) as u32
}

/// Sum of all bytes of `s`, as an unbounded number.
pub open spec fn byte_sum(s: Seq<u8>) -> nat
    decreases s.len(),
{
    if s.len() == 0 {
        0
    } else {
        byte_sum(s.drop_last()) + s.last() as nat
    }
}

/// The packet checksum of `s`: the sum of its bytes modulo 2^16.
pub open spec fn checksum16(s: Seq<u8>) -> u16 {
    (byte_sum(s) % 0x1_0000) as u16
}

/// The byte sum of a concatenation is the sum of the byte sums.
pub proof fn lemma_byte_sum_concat(a: Seq<u8>, b: Seq<u8>)
    ensures
        byte_sum(a + b) == byte_sum(a) + byte_sum(b),
    decreases b.len(),
{
    if b.len() == 0 {
        assert(a + b =~= a);
    } else {
        assert((a + b).drop_last() =~= a + b.drop_last());
        lemma_byte_sum_concat(a, b.drop_last());
    }
}

/// Reading back the big-endian bytes of a 16-bit value gives the value.
pub proof fn lemma_be16_round_trip(x: u16)
    ensures
        be16(x).len() == 2,
        be16_value(be16(x)[0], be16(x)[1]) == x,
{
}

/// Reading back the big-endian bytes of a 32-bit value gives the value.
pub proof fn lemma_be32_round_trip(x: u32)
    ensures
        be32(x).len() == 4,
        be32_value(be32(x)[0], be32(x)[1], be32(x)[2], be32(x)[3]) == x,
{
}

/// Appends the big-endian bytes of `x` to `out`.
pub fn push_be16(out: &mut Vec<u8>, x: u16)
    ensures
        final(out)@ == old(out)@ + be16(x),
{
    out.push((x / 256) as u8);
    out.push((x % 256) as u8);
    assert(out@ =~= old(out)@ + be16(x));
}

/// Appends the big-endian bytes of `x` to `out`.
pub fn push_be32(out: &mut Vec<u8>, x: u32)
    ensures
        final(out)@ == old(out)@ + be32(x),
{
    out.push((x / 0x100_0000) as u8);
    out.push(((x / 0x1_0000) % 256) as u8);
    out.push(((x / 256) % 256) as u8);
    out.push((x % 256) as u8);
    assert(out@ =~= old(out)@ + be32(x));
}

/// Appends every byte of `bytes` to `out`.
pub fn push_all(out: &mut Vec<u8>, bytes: &[u8])
    ensures
        final(out)@ == old(out)@ + bytes@,
{
    let mut i: usize = 0;
    while i < bytes.len()
        invariant
            i <= bytes.len(),
            out@ == old(out)@ + bytes@.take(i as int),
        decreases bytes.len() - i,
    {
        out.push(bytes[i]);
        i += 1;
        assert(out@ =~= old(out)@ + bytes@.take(i as int));
    }
    assert(bytes@.take(i as int) =~= bytes@);
}

/// Adds every byte of `bytes` to the running sum `acc`, wrapping at 2^16.
pub fn fold_sum(acc: u16, bytes: &[u8]) -> (sum: u16)
    ensures
        sum as nat == (acc as nat + byte_sum(bytes@)) % 0x1_0000,
{
    let mut sum: u16 = acc;
    let mut i: usize = 0;
    while i < bytes.len()
        invariant
            i <= bytes.len(),
            sum as nat == (acc as nat + byte_sum(bytes@.take(i as int))) % 0x1_0000,
        decreases bytes.len() - i,
    {
        let ghost before = bytes@.take(i as int);
        sum = sum.wrapping_add(bytes[i] as u16);
        i += 1;
        proof {
            let after = bytes@.take(i as int);
            assert(after.drop_last() =~= before);
            assert(after.last() == bytes@[i - 1]);
            lemma_add_mod_noop(
                (acc as nat + byte_sum(before)) as int,
                bytes@[i - 1] as int,
                0x1_0000,
            );
        }
    }
    assert(bytes@.take(i as int) =~= bytes@);
    sum
}

/// The 16-bit wrapping sum of `bytes`.
pub fn checksum(bytes: &[u8]) -> (sum: u16)
    ensures
        sum == checksum16(bytes@),
{
    fold_sum(0, bytes)
}

/// One step of the reflected shift register: the low bit leaves, and where
/// it was set the reversed polynomial 0x82F63B78 is folded in.
pub open spec fn crc_shift(value: u32) -> u32 {
    if value & 1 == 1 {
        (value >> 1) ^ 0x82F6_3B78
    } else {
        value >> 1
    }
}

/// The table entry of an index: eight steps of the shift register.
pub open spec fn crc_table(index: u32) -> u32 {
    crc_shift(
        crc_shift(
            crc_shift(crc_shift(crc_shift(crc_shift(crc_shift(crc_shift(index)))))),
        ),
    )
}

/// The register after one more byte.
pub open spec fn crc_update(crc: u32, byte: u8) -> u32 {
    crc_table((crc ^ byte as u32) & 0xFF) ^ (crc >> 8)
}

/// The register after all bytes of `data`, from the initial value
/// 0xFFFFFFFF.
pub open spec fn crc_register(data: Seq<u8>) -> u32
    decreases data.len(),
{
    if data.len() == 0 {
        0xFFFF_FFFF
    } else {
        crc_update(crc_register(data.drop_last()), data.last())
    }
}

/// The CRC-32/ISCSI value of a byte string: polynomial 0x1EDC6F41, initial
/// value and final XOR 0xFFFFFFFF, input and output reflected.
pub open spec fn crc32_iscsi(data: Seq<u8>) -> u32 {
    crc_register(data) ^ 0xFFFF_FFFF
}

/// Calls `crc::Crc::<u32>::checksum` with the catalogue entry
/// `crc::CRC_32_ISCSI`. Trusted: the table-driven computation of that crate
/// gives the CRC-32/ISCSI value of `data`: its table entry is eight steps of
/// the reflected shift register, its update takes one byte through the
/// table, its initial value and final XOR are 0xFFFFFFFF.
#[verifier::external_body]
pub(crate) fn crc32_of(data: &[u8]) -> (crc: u32)
    ensures
        crc == crc32_iscsi(data@),
{
    crc::Crc::<u32>::new(&crc::CRC_32_ISCSI).checksum(data)
}

/// Appending a byte takes the register one update further.
pub proof fn lemma_crc_register_push(data: Seq<u8>, byte: u8)
    ensures
        crc_register(data.push(byte)) == crc_update(crc_register(data), byte),
{
    assert(data.push(byte).drop_last() =~= data);
}

/// The CRC-32/ISCSI value of the empty input is zero.
pub proof fn lemma_crc32_iscsi_empty()
    ensures
        crc32_iscsi(Seq::<u8>::empty()) == 0,
{
    assert(0xFFFF_FFFFu32 ^ 0xFFFF_FFFFu32 == 0) by (bit_vector);
}

proof fn lemma_check_byte_1()
    ensures
        crc_update(0xFFFF_FFFFu32, 0x31) == 0x6F0A_661Cu32,
{
    assert(
        (0xFFFF_FFFFu32 ^ 0x31u32) & 0xFF == 0x0000_00CEu32
        && 0x0000_00CEu32 & 1 == 0 && 0x0000_00CEu32 >> 1 == 0x0000_0067u32
        && 0x0000_0067u32 & 1 == 1 && (0x0000_0067u32 >> 1) ^ 0x82F6_3B78u32 == 0x82F6_3B4Bu32
        && 0x82F6_3B4Bu32 & 1 == 1 && (0x82F6_3B4Bu32 >> 1) ^ 0x82F6_3B78u32 == 0xC38D_26DDu32
        && 0xC38D_26DDu32 & 1 == 1 && (0xC38D_26DDu32 >> 1) ^ 0x82F6_3B78u32 == 0xE330_A816u32
        && 0xE330_A816u32 & 1 == 0 && 0xE330_A816u32 >> 1 == 0x7198_540Bu32
        && 0x7198_540Bu32 & 1 == 1 && (0x7198_540Bu32 >> 1) ^ 0x82F6_3B78u32 == 0xBA3A_117Du32
        && 0xBA3A_117Du32 & 1 == 1 && (0xBA3A_117Du32 >> 1) ^ 0x82F6_3B78u32 == 0xDFEB_33C6u32
        && 0xDFEB_33C6u32 & 1 == 0 && 0xDFEB_33C6u32 >> 1 == 0x6FF5_99E3u32
        && 0x6FF5_99E3u32 ^ (0xFFFF_FFFFu32 >> 8) == 0x6F0A_661Cu32
    ) by (bit_vector);
    assert(crc_shift(0x0000_00CEu32) == 0x0000_0067u32);
    assert(crc_shift(0x0000_0067u32) == 0x82F6_3B4Bu32);
    assert(crc_shift(0x82F6_3B4Bu32) == 0xC38D_26DDu32);
    assert(crc_shift(0xC38D_26DDu32) == 0xE330_A816u32);
    assert(crc_shift(0xE330_A816u32) == 0x7198_540Bu32);
    assert(crc_shift(0x7198_540Bu32) == 0xBA3A_117Du32);
    assert(crc_shift(0xBA3A_117Du32) == 0xDFEB_33C6u32);
    assert(crc_shift(0xDFEB_33C6u32) == 0x6FF5_99E3u32);
    assert(crc_table(0x0000_00CEu32) == 0x6FF5_99E3u32);
}

proof fn lemma_check_byte_2()
    ensures
        crc_update(0x6F0A_661Cu32, 0x32) == 0x8CAA_3B9Fu32,
{
    assert(
        (0x6F0A_661Cu32 ^ 0x32u32) & 0xFF == 0x0000_002Eu32
        && 0x0000_002Eu32 & 1 == 0 && 0x0000_002Eu32 >> 1 == 0x0000_0017u32
        && 0x0000_0017u32 & 1 == 1 && (0x0000_0017u32 >> 1) ^ 0x82F6_3B78u32 == 0x82F6_3B73u32
        && 0x82F6_3B73u32 & 1 == 1 && (0x82F6_3B73u32 >> 1) ^ 0x82F6_3B78u32 == 0xC38D_26C1u32
        && 0xC38D_26C1u32 & 1 == 1 && (0xC38D_26C1u32 >> 1) ^ 0x82F6_3B78u32 == 0xE330_A818u32
        && 0xE330_A818u32 & 1 == 0 && 0xE330_A818u32 >> 1 == 0x7198_540Cu32
        && 0x7198_540Cu32 & 1 == 0 && 0x7198_540Cu32 >> 1 == 0x38CC_2A06u32
        && 0x38CC_2A06u32 & 1 == 0 && 0x38CC_2A06u32 >> 1 == 0x1C66_1503u32
        && 0x1C66_1503u32 & 1 == 1 && (0x1C66_1503u32 >> 1) ^ 0x82F6_3B78u32 == 0x8CC5_31F9u32
        && 0x8CC5_31F9u32 ^ (0x6F0A_661Cu32 >> 8) == 0x8CAA_3B9Fu32
    ) by (bit_vector);
    assert(crc_shift(0x0000_002Eu32) == 0x0000_0017u32);
    assert(crc_shift(0x0000_0017u32) == 0x82F6_3B73u32);
    assert(crc_shift(0x82F6_3B73u32) == 0xC38D_26C1u32);
    assert(crc_shift(0xC38D_26C1u32) == 0xE330_A818u32);
    assert(crc_shift(0xE330_A818u32) == 0x7198_540Cu32);
    assert(crc_shift(0x7198_540Cu32) == 0x38CC_2A06u32);
    assert(crc_shift(0x38CC_2A06u32) == 0x1C66_1503u32);
    assert(crc_shift(0x1C66_1503u32) == 0x8CC5_31F9u32);
    assert(crc_table(0x0000_002Eu32) == 0x8CC5_31F9u32);
}

proof fn lemma_check_byte_3()
    ensures
        crc_update(0x8CAA_3B9Fu32, 0x33) == 0xEF84_D04Du32,
{
    assert(
        (0x8CAA_3B9Fu32 ^ 0x33u32) & 0xFF == 0x0000_00ACu32
        && 0x0000_00ACu32 & 1 == 0 && 0x0000_00ACu32 >> 1 == 0x0000_0056u32
        && 0x0000_0056u32 & 1 == 0 && 0x0000_0056u32 >> 1 == 0x0000_002Bu32
        && 0x0000_002Bu32 & 1 == 1 && (0x0000_002Bu32 >> 1) ^ 0x82F6_3B78u32 == 0x82F6_3B6Du32
        && 0x82F6_3B6Du32 & 1 == 1 && (0x82F6_3B6Du32 >> 1) ^ 0x82F6_3B78u32 == 0xC38D_26CEu32
        && 0xC38D_26CEu32 & 1 == 0 && 0xC38D_26CEu32 >> 1 == 0x61C6_9367u32
        && 0x61C6_9367u32 & 1 == 1 && (0x61C6_9367u32 >> 1) ^ 0x82F6_3B78u32 == 0xB215_72CBu32
        && 0xB215_72CBu32 & 1 == 1 && (0xB215_72CBu32 >> 1) ^ 0x82F6_3B78u32 == 0xDBFC_821Du32
        && 0xDBFC_821Du32 & 1 == 1 && (0xDBFC_821Du32 >> 1) ^ 0x82F6_3B78u32 == 0xEF08_7A76u32
        && 0xEF08_7A76u32 ^ (0x8CAA_3B9Fu32 >> 8) == 0xEF84_D04Du32
    ) by (bit_vector);
    assert(crc_shift(0x0000_00ACu32) == 0x0000_0056u32);
    assert(crc_shift(0x0000_0056u32) == 0x0000_002Bu32);
    assert(crc_shift(0x0000_002Bu32) == 0x82F6_3B6Du32);
    assert(crc_shift(0x82F6_3B6Du32) == 0xC38D_26CEu32);
    assert(crc_shift(0xC38D_26CEu32) == 0x61C6_9367u32);
    assert(crc_shift(0x61C6_9367u32) == 0xB215_72CBu32);
    assert(crc_shift(0xB215_72CBu32) == 0xDBFC_821Du32);
    assert(crc_shift(0xDBFC_821Du32) == 0xEF08_7A76u32);
    assert(crc_table(0x0000_00ACu32) == 0xEF08_7A76u32);
}

proof fn lemma_check_byte_4()
    ensures
        crc_update(0xEF84_D04Du32, 0x34) == 0x09C5_0B11u32,
{
    assert(
        (0xEF84_D04Du32 ^ 0x34u32) & 0xFF == 0x0000_0079u32
        && 0x0000_0079u32 & 1 == 1 && (0x0000_0079u32 >> 1) ^ 0x82F6_3B78u32 == 0x82F6_3B44u32
        && 0x82F6_3B44u32 & 1 == 0 && 0x82F6_3B44u32 >> 1 == 0x417B_1DA2u32
        && 0x417B_1DA2u32 & 1 == 0 && 0x417B_1DA2u32 >> 1 == 0x20BD_8ED1u32
        && 0x20BD_8ED1u32 & 1 == 1 && (0x20BD_8ED1u32 >> 1) ^ 0x82F6_3B78u32 == 0x92A8_FC10u32
        && 0x92A8_FC10u32 & 1 == 0 && 0x92A8_FC10u32 >> 1 == 0x4954_7E08u32
        && 0x4954_7E08u32 & 1 == 0 && 0x4954_7E08u32 >> 1 == 0x24AA_3F04u32
        && 0x24AA_3F04u32 & 1 == 0 && 0x24AA_3F04u32 >> 1 == 0x1255_1F82u32
        && 0x1255_1F82u32 & 1 == 0 && 0x1255_1F82u32 >> 1 == 0x092A_8FC1u32
        && 0x092A_8FC1u32 ^ (0xEF84_D04Du32 >> 8) == 0x09C5_0B11u32
    ) by (bit_vector);
    assert(crc_shift(0x0000_0079u32) == 0x82F6_3B44u32);
    assert(crc_shift(0x82F6_3B44u32) == 0x417B_1DA2u32);
    assert(crc_shift(0x417B_1DA2u32) == 0x20BD_8ED1u32);
    assert(crc_shift(0x20BD_8ED1u32) == 0x92A8_FC10u32);
    assert(crc_shift(0x92A8_FC10u32) == 0x4954_7E08u32);
    assert(crc_shift(0x4954_7E08u32) == 0x24AA_3F04u32);
    assert(crc_shift(0x24AA_3F04u32) == 0x1255_1F82u32);
    assert(crc_shift(0x1255_1F82u32) == 0x092A_8FC1u32);
    assert(crc_table(0x0000_0079u32) == 0x092A_8FC1u32);
}

proof fn lemma_check_byte_5()
    ensures
        crc_update(0x09C5_0B11u32, 0x35) == 0xE72E_DCCAu32,
{
    assert(
        (0x09C5_0B11u32 ^ 0x35u32) & 0xFF == 0x0000_0024u32
        && 0x0000_0024u32 & 1 == 0 && 0x0000_0024u32 >> 1 == 0x0000_0012u32
        && 0x0000_0012u32 & 1 == 0 && 0x0000_0012u32 >> 1 == 0x0000_0009u32
        && 0x0000_0009u32 & 1 == 1 && (0x0000_0009u32 >> 1) ^ 0x82F6_3B78u32 == 0x82F6_3B7Cu32
        && 0x82F6_3B7Cu32 & 1 == 0 && 0x82F6_3B7Cu32 >> 1 == 0x417B_1DBEu32
        && 0x417B_1DBEu32 & 1 == 0 && 0x417B_1DBEu32 >> 1 == 0x20BD_8EDFu32
        && 0x20BD_8EDFu32 & 1 == 1 && (0x20BD_8EDFu32 >> 1) ^ 0x82F6_3B78u32 == 0x92A8_FC17u32
        && 0x92A8_FC17u32 & 1 == 1 && (0x92A8_FC17u32 >> 1) ^ 0x82F6_3B78u32 == 0xCBA2_4573u32
        && 0xCBA2_4573u32 & 1 == 1 && (0xCBA2_4573u32 >> 1) ^ 0x82F6_3B78u32 == 0xE727_19C1u32
        && 0xE727_19C1u32 ^ (0x09C5_0B11u32 >> 8) == 0xE72E_DCCAu32
    ) by (bit_vector);
    assert(crc_shift(0x0000_0024u32) == 0x0000_0012u32);
    assert(crc_shift(0x0000_0012u32) == 0x0000_0009u32);
    assert(crc_shift(0x0000_0009u32) == 0x82F6_3B7Cu32);
    assert(crc_shift(0x82F6_3B7Cu32) == 0x417B_1DBEu32);
    assert(crc_shift(0x417B_1DBEu32) == 0x20BD_8EDFu32);
    assert(crc_shift(0x20BD_8EDFu32) == 0x92A8_FC17u32);
    assert(crc_shift(0x92A8_FC17u32) == 0xCBA2_4573u32);
    assert(crc_shift(0xCBA2_4573u32) == 0xE727_19C1u32);
    assert(crc_table(0x0000_0024u32) == 0xE727_19C1u32);
}

proof fn lemma_check_byte_6()
    ensures
        crc_update(0xE72E_DCCAu32, 0x36) == 0xBECA_8E79u32,
{
    assert(
        (0xE72E_DCCAu32 ^ 0x36u32) & 0xFF == 0x0000_00FCu32
        && 0x0000_00FCu32 & 1 == 0 && 0x0000_00FCu32 >> 1 == 0x0000_007Eu32
        && 0x0000_007Eu32 & 1 == 0 && 0x0000_007Eu32 >> 1 == 0x0000_003Fu32
        && 0x0000_003Fu32 & 1 == 1 && (0x0000_003Fu32 >> 1) ^ 0x82F6_3B78u32 == 0x82F6_3B67u32
        && 0x82F6_3B67u32 & 1 == 1 && (0x82F6_3B67u32 >> 1) ^ 0x82F6_3B78u32 == 0xC38D_26CBu32
        && 0xC38D_26CBu32 & 1 == 1 && (0xC38D_26CBu32 >> 1) ^ 0x82F6_3B78u32 == 0xE330_A81Du32
        && 0xE330_A81Du32 & 1 == 1 && (0xE330_A81Du32 >> 1) ^ 0x82F6_3B78u32 == 0xF36E_6F76u32
        && 0xF36E_6F76u32 & 1 == 0 && 0xF36E_6F76u32 >> 1 == 0x79B7_37BBu32
        && 0x79B7_37BBu32 & 1 == 1 && (0x79B7_37BBu32 >> 1) ^ 0x82F6_3B78u32 == 0xBE2D_A0A5u32
        && 0xBE2D_A0A5u32 ^ (0xE72E_DCCAu32 >> 8) == 0xBECA_8E79u32
    ) by (bit_vector);
    assert(crc_shift(0x0000_00FCu32) == 0x0000_007Eu32);
    assert(crc_shift(0x0000_007Eu32) == 0x0000_003Fu32);
    assert(crc_shift(0x0000_003Fu32) == 0x82F6_3B67u32);
    assert(crc_shift(0x82F6_3B67u32) == 0xC38D_26CBu32);
    assert(crc_shift(0xC38D_26CBu32) == 0xE330_A81Du32);
    assert(crc_shift(0xE330_A81Du32) == 0xF36E_6F76u32);
    assert(crc_shift(0xF36E_6F76u32) == 0x79B7_37BBu32);
    assert(crc_shift(0x79B7_37BBu32) == 0xBE2D_A0A5u32);
    assert(crc_table(0x0000_00FCu32) == 0xBE2D_A0A5u32);
}

proof fn lemma_check_byte_7()
    ensures
        crc_update(0xBECA_8E79u32, 0x37) == 0xEDBD_6815u32,
{
    assert(
        (0xBECA_8E79u32 ^ 0x37u32) & 0xFF == 0x0000_004Eu32
        && 0x0000_004Eu32 & 1 == 0 && 0x0000_004Eu32 >> 1 == 0x0000_0027u32
        && 0x0000_0027u32 & 1 == 1 && (0x0000_0027u32 >> 1) ^ 0x82F6_3B78u32 == 0x82F6_3B6Bu32
        && 0x82F6_3B6Bu32 & 1 == 1 && (0x82F6_3B6Bu32 >> 1) ^ 0x82F6_3B78u32 == 0xC38D_26CDu32
        && 0xC38D_26CDu32 & 1 == 1 && (0xC38D_26CDu32 >> 1) ^ 0x82F6_3B78u32 == 0xE330_A81Eu32
        && 0xE330_A81Eu32 & 1 == 0 && 0xE330_A81Eu32 >> 1 == 0x7198_540Fu32
        && 0x7198_540Fu32 & 1 == 1 && (0x7198_540Fu32 >> 1) ^ 0x82F6_3B78u32 == 0xBA3A_117Fu32
        && 0xBA3A_117Fu32 & 1 == 1 && (0xBA3A_117Fu32 >> 1) ^ 0x82F6_3B78u32 == 0xDFEB_33C7u32
        && 0xDFEB_33C7u32 & 1 == 1 && (0xDFEB_33C7u32 >> 1) ^ 0x82F6_3B78u32 == 0xED03_A29Bu32
        && 0xED03_A29Bu32 ^ (0xBECA_8E79u32 >> 8) == 0xEDBD_6815u32
    ) by (bit_vector);
    assert(crc_shift(0x0000_004Eu32) == 0x0000_0027u32);
    assert(crc_shift(0x0000_0027u32) == 0x82F6_3B6Bu32);
    assert(crc_shift(0x82F6_3B6Bu32) == 0xC38D_26CDu32);
    assert(crc_shift(0xC38D_26CDu32) == 0xE330_A81Eu32);
    assert(crc_shift(0xE330_A81Eu32) == 0x7198_540Fu32);
    assert(crc_shift(0x7198_540Fu32) == 0xBA3A_117Fu32);
    assert(crc_shift(0xBA3A_117Fu32) == 0xDFEB_33C7u32);
    assert(crc_shift(0xDFEB_33C7u32) == 0xED03_A29Bu32);
    assert(crc_table(0x0000_004Eu32) == 0xED03_A29Bu32);
}

proof fn lemma_check_byte_8()
    ensures
        crc_update(0xEDBD_6815u32, 0x38) == 0x9F78_7F65u32,
{
    assert(
        (0xEDBD_6815u32 ^ 0x38u32) & 0xFF == 0x0000_002Du32
        && 0x0000_002Du32 & 1 == 1 && (0x0000_002Du32 >> 1) ^ 0x82F6_3B78u32 == 0x82F6_3B6Eu32
        && 0x82F6_3B6Eu32 & 1 == 0 && 0x82F6_3B6Eu32 >> 1 == 0x417B_1DB7u32
        && 0x417B_1DB7u32 & 1 == 1 && (0x417B_1DB7u32 >> 1) ^ 0x82F6_3B78u32 == 0xA24B_B5A3u32
        && 0xA24B_B5A3u32 & 1 == 1 && (0xA24B_B5A3u32 >> 1) ^ 0x82F6_3B78u32 == 0xD3D3_E1A9u32
        && 0xD3D3_E1A9u32 & 1 == 1 && (0xD3D3_E1A9u32 >> 1) ^ 0x82F6_3B78u32 == 0xEB1F_CBACu32
        && 0xEB1F_CBACu32 & 1 == 0 && 0xEB1F_CBACu32 >> 1 == 0x758F_E5D6u32
        && 0x758F_E5D6u32 & 1 == 0 && 0x758F_E5D6u32 >> 1 == 0x3AC7_F2EBu32
        && 0x3AC7_F2EBu32 & 1 == 1 && (0x3AC7_F2EBu32 >> 1) ^ 0x82F6_3B78u32 == 0x9F95_C20Du32
        && 0x9F95_C20Du32 ^ (0xEDBD_6815u32 >> 8) == 0x9F78_7F65u32
    ) by (bit_vector);
    assert(crc_shift(0x0000_002Du32) == 0x82F6_3B6Eu32);
    assert(crc_shift(0x82F6_3B6Eu32) == 0x417B_1DB7u32);
    assert(crc_shift(0x417B_1DB7u32) == 0xA24B_B5A3u32);
    assert(crc_shift(0xA24B_B5A3u32) == 0xD3D3_E1A9u32);
    assert(crc_shift(0xD3D3_E1A9u32) == 0xEB1F_CBACu32);
    assert(crc_shift(0xEB1F_CBACu32) == 0x758F_E5D6u32);
    assert(crc_shift(0x758F_E5D6u32) == 0x3AC7_F2EBu32);
    assert(crc_shift(0x3AC7_F2EBu32) == 0x9F95_C20Du32);
    assert(crc_table(0x0000_002Du32) == 0x9F95_C20Du32);
}

proof fn lemma_check_byte_9()
    ensures
        crc_update(0x9F78_7F65u32, 0x39) == 0x1CF9_6D7Cu32,
{
    assert(
        (0x9F78_7F65u32 ^ 0x39u32) & 0xFF == 0x0000_005Cu32
        && 0x0000_005Cu32 & 1 == 0 && 0x0000_005Cu32 >> 1 == 0x0000_002Eu32
        && 0x0000_002Eu32 & 1 == 0 && 0x0000_002Eu32 >> 1 == 0x0000_0017u32
        && 0x0000_0017u32 & 1 == 1 && (0x0000_0017u32 >> 1) ^ 0x82F6_3B78u32 == 0x82F6_3B73u32
        && 0x82F6_3B73u32 & 1 == 1 && (0x82F6_3B73u32 >> 1) ^ 0x82F6_3B78u32 == 0xC38D_26C1u32
        && 0xC38D_26C1u32 & 1 == 1 && (0xC38D_26C1u32 >> 1) ^ 0x82F6_3B78u32 == 0xE330_A818u32
        && 0xE330_A818u32 & 1 == 0 && 0xE330_A818u32 >> 1 == 0x7198_540Cu32
        && 0x7198_540Cu32 & 1 == 0 && 0x7198_540Cu32 >> 1 == 0x38CC_2A06u32
        && 0x38CC_2A06u32 & 1 == 0 && 0x38CC_2A06u32 >> 1 == 0x1C66_1503u32
        && 0x1C66_1503u32 ^ (0x9F78_7F65u32 >> 8) == 0x1CF9_6D7Cu32
    ) by (bit_vector);
    assert(crc_shift(0x0000_005Cu32) == 0x0000_002Eu32);
    assert(crc_shift(0x0000_002Eu32) == 0x0000_0017u32);
    assert(crc_shift(0x0000_0017u32) == 0x82F6_3B73u32);
    assert(crc_shift(0x82F6_3B73u32) == 0xC38D_26C1u32);
    assert(crc_shift(0xC38D_26C1u32) == 0xE330_A818u32);
    assert(crc_shift(0xE330_A818u32) == 0x7198_540Cu32);
    assert(crc_shift(0x7198_540Cu32) == 0x38CC_2A06u32);
    assert(crc_shift(0x38CC_2A06u32) == 0x1C66_1503u32);
    assert(crc_table(0x0000_005Cu32) == 0x1C66_1503u32);
}

/// The CRC-32/ISCSI value of the ASCII digits `123456789` is the published
/// check value 0xE3069283.
pub proof fn lemma_crc32_iscsi_check_value()
    ensures
        crc32_iscsi(seq![0x31u8, 0x32, 0x33, 0x34, 0x35, 0x36, 0x37, 0x38, 0x39]) == 0xE306_9283,
{
    let s0 = Seq::<u8>::empty();
    let s1 = s0.push(0x31u8);
    lemma_check_byte_1();
    lemma_crc_register_push(s0, 0x31);
    assert(crc_register(s1) == 0x6F0A_661Cu32);
    let s2 = s1.push(0x32u8);
    lemma_check_byte_2();
    lemma_crc_register_push(s1, 0x32);
    assert(crc_register(s2) == 0x8CAA_3B9Fu32);
    let s3 = s2.push(0x33u8);
    lemma_check_byte_3();
    lemma_crc_register_push(s2, 0x33);
    assert(crc_register(s3) == 0xEF84_D04Du32);
    let s4 = s3.push(0x34u8);
    lemma_check_byte_4();
    lemma_crc_register_push(s3, 0x34);
    assert(crc_register(s4) == 0x09C5_0B11u32);
    let s5 = s4.push(0x35u8);
    lemma_check_byte_5();
    lemma_crc_register_push(s4, 0x35);
    assert(crc_register(s5) == 0xE72E_DCCAu32);
    let s6 = s5.push(0x36u8);
    lemma_check_byte_6();
    lemma_crc_register_push(s5, 0x36);
    assert(crc_register(s6) == 0xBECA_8E79u32);
    let s7 = s6.push(0x37u8);
    lemma_check_byte_7();
    lemma_crc_register_push(s6, 0x37);
    assert(crc_register(s7) == 0xEDBD_6815u32);
    let s8 = s7.push(0x38u8);
    lemma_check_byte_8();
    lemma_crc_register_push(s7, 0x38);
    assert(crc_register(s8) == 0x9F78_7F65u32);
    let s9 = s8.push(0x39u8);
    lemma_check_byte_9();
    lemma_crc_register_push(s8, 0x39);
    assert(crc_register(s9) == 0x1CF9_6D7Cu32);
    assert(s9 =~= seq![0x31u8, 0x32, 0x33, 0x34, 0x35, 0x36, 0x37, 0x38, 0x39]);
    assert(0x1CF9_6D7Cu32 ^ 0xFFFF_FFFFu32 == 0xE306_9283u32) by (bit_vector);
}

} // verus!
