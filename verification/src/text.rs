//! Numbers as text: decimal and upper-case hexadecimal digits, as a
//! diagnostic line shows them.

use vstd::prelude::*;
use vstd::string::StringExecFns;

verus! {

/// The ten decimal digits.
pub open spec fn decimal_digits() -> Seq<char> {
    seq!['0', '1', '2', '3', '4', '5', '6', '7', '8', '9']
}

/// The sixteen hexadecimal digits, upper case.
pub open spec fn upper_hex_digits() -> Seq<char> {
    seq!['0', '1', '2', '3', '4', '5', '6', '7', '8', '9', 'A', 'B', 'C', 'D', 'E', 'F']
}

/// A number in decimal, without leading zeros.
pub open spec fn decimal(n: nat) -> Seq<char>
    decreases n,
{
    if n < 10 {
        seq![decimal_digits()[n as int]]
    } else {
        decimal(n / 10) + seq![decimal_digits()[(n % 10) as int]]
    }
}

/// A byte as two upper-case hexadecimal digits.
pub open spec fn upper_hex_byte(b: u8) -> Seq<char> {
    seq![upper_hex_digits()[b as int / 16], upper_hex_digits()[b as int % 16]]
}

/// A 16-bit value as four upper-case hexadecimal digits.
pub open spec fn upper_hex_u16(x: u16) -> Seq<char> {
    upper_hex_byte((x / 256) as u8) + upper_hex_byte((x % 256) as u8)
}

/// Bytes as a list of decimal numbers, separated by a comma and a space.
pub open spec fn decimal_items(bytes: Seq<u8>) -> Seq<char>
    decreases bytes.len(),
{
    if bytes.len() == 0 {
        Seq::empty()
    } else if bytes.len() == 1 {
        decimal(bytes[0] as nat)
    } else {
        decimal_items(bytes.drop_last()) + seq![',', ' '] + decimal(bytes.last() as nat)
    }
}

/// The decimal digit of a value under ten.
fn decimal_digit(n: u8) -> (digit: &'static str)
    requires
        n < 10,
    ensures
        digit@ == seq![decimal_digits()[n as int]],
{
    proof {
        reveal_strlit("0");
        reveal_strlit("1");
        reveal_strlit("2");
        reveal_strlit("3");
        reveal_strlit("4");
        reveal_strlit("5");
        reveal_strlit("6");
        reveal_strlit("7");
        reveal_strlit("8");
        reveal_strlit("9");
    }
    let digit = match n {
        0 => "0",
        1 => "1",
        2 => "2",
        3 => "3",
        4 => "4",
        5 => "5",
        6 => "6",
        7 => "7",
        8 => "8",
        _ => "9",
    };
    assert(digit@ =~= seq![decimal_digits()[n as int]]);
    digit
}

/// The upper-case hexadecimal digit of a value under sixteen.
fn upper_hex_digit(n: u8) -> (digit: &'static str)
    requires
        n < 16,
    ensures
        digit@ == seq![upper_hex_digits()[n as int]],
{
    if n < 10 {
        decimal_digit(n)
    } else {
        proof {
            reveal_strlit("A");
            reveal_strlit("B");
            reveal_strlit("C");
            reveal_strlit("D");
            reveal_strlit("E");
            reveal_strlit("F");
        }
        let digit = match n {
            10 => "A",
            11 => "B",
            12 => "C",
            13 => "D",
            14 => "E",
            _ => "F",
        };
        assert(digit@ =~= seq![upper_hex_digits()[n as int]]);
        digit
    }
}

/// Appends `n` in decimal.
pub fn push_decimal(out: &mut String, n: u32)
    ensures
        final(out)@ == old(out)@ + decimal(n as nat),
    decreases n,
{
    if n >= 10 {
        push_decimal(out, n / 10);
    }
    out.append(decimal_digit((n % 10) as u8));
    assert(out@ =~= old(out)@ + decimal(n as nat));
}

/// Appends `b` as two upper-case hexadecimal digits.
pub fn push_upper_hex_byte(out: &mut String, b: u8)
    ensures
        final(out)@ == old(out)@ + upper_hex_byte(b),
{
    out.append(upper_hex_digit(b / 16));
    out.append(upper_hex_digit(b % 16));
    assert(out@ =~= old(out)@ + upper_hex_byte(b));
}

/// Appends `x` as four upper-case hexadecimal digits.
pub fn push_upper_hex_u16(out: &mut String, x: u16)
    ensures
        final(out)@ == old(out)@ + upper_hex_u16(x),
{
    push_upper_hex_byte(out, (x / 256) as u8);
    push_upper_hex_byte(out, (x % 256) as u8);
    assert(out@ =~= old(out)@ + upper_hex_u16(x));
}

/// Appends `bytes` as decimal numbers, separated by a comma and a space.
pub fn push_decimal_items(out: &mut String, bytes: &[u8])
    ensures
        final(out)@ == old(out)@ + decimal_items(bytes@),
{
    let mut i: usize = 0;
    assert(out@ =~= old(out)@ + decimal_items(bytes@.take(0)));
    while i < bytes.len()
        invariant
            i <= bytes.len(),
            out@ == old(out)@ + decimal_items(bytes@.take(i as int)),
        decreases bytes.len() - i,
    {
        if i > 0 {
            out.append(", ");
        }
        push_decimal(out, bytes[i] as u32);
        i += 1;
        proof {
            reveal_strlit(", ");
            assert(", "@ =~= seq![',', ' ']);
            assert(bytes@.take(i as int).drop_last() =~= bytes@.take(i - 1));
            assert(out@ =~= old(out)@ + decimal_items(bytes@.take(i as int)));
        }
    }
    assert(bytes@.take(i as int) =~= bytes@);
}

} // verus!
