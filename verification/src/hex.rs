//! Fixed-width upper-case hexadecimal fields, as newc CPIO headers hold them.

use vstd::prelude::*;

verus! {

/// The ASCII code of the upper-case hexadecimal digit that stands for `d`.
pub open spec fn hex_digit(d: nat) -> u8
    recommends
        d < 16,
{
    if d < 10 {
        (48 + d) as u8
    } else {
        (55 + d) as u8
    }
}

/// The eight hexadecimal digits of `v`, most significant first, zero-padded.
#[verifier::opaque]
pub open spec fn hex_field(v: nat) -> Seq<u8>
    recommends
        v < 0x1_0000_0000,
{
    seq![
        hex_digit(v / 0x1000_0000 % 16),
        hex_digit(v / 0x100_0000 % 16),
        hex_digit(v / 0x10_0000 % 16),
        hex_digit(v / 0x1_0000 % 16),
        hex_digit(v / 0x1000 % 16),
        hex_digit(v / 0x100 % 16),
        hex_digit(v / 0x10 % 16),
        hex_digit(v % 16),
    ]
}

/// The value that a hexadecimal digit stands for, if the byte is one.
pub open spec fn hex_value(b: u8) -> Option<nat> {
    if 48 <= b <= 57 {
        Some((b - 48) as nat)
    } else if 65 <= b <= 70 {
        Some((b - 55) as nat)
    } else {
        None
    }
}

/// The number that eight hexadecimal digits spell, most significant first.
pub open spec fn hex_field_value(field: Seq<u8>) -> Option<nat> {
    if field.len() == 8 && hex_value(field[0]).is_some() && hex_value(field[1]).is_some()
        && hex_value(field[2]).is_some() && hex_value(field[3]).is_some() && hex_value(
        field[4],
    ).is_some() && hex_value(field[5]).is_some() && hex_value(field[6]).is_some() && hex_value(
        field[7],
    ).is_some() {
        Some(
            hex_value(field[0]).unwrap() * 0x1000_0000 + hex_value(field[1]).unwrap() * 0x100_0000
                + hex_value(field[2]).unwrap() * 0x10_0000 + hex_value(field[3]).unwrap() * 0x1_0000
                + hex_value(field[4]).unwrap() * 0x1000 + hex_value(field[5]).unwrap() * 0x100
                + hex_value(field[6]).unwrap() * 0x10 + hex_value(field[7]).unwrap(),
        )
    } else {
        None
    }
}

/// Every digit is read back as the value it was written for.
pub proof fn lemma_hex_digit_value(d: nat)
    requires
        d < 16,
    ensures
        hex_value(hex_digit(d)) == Some(d),
{
}

/// A 32-bit number is the sum of its eight hexadecimal digits, each at its place.
proof fn lemma_nibble_sum(v: nat)
    requires
        v < 0x1_0000_0000,
    ensures
        v == (v / 0x1000_0000 % 16) * 0x1000_0000 + (v / 0x100_0000 % 16) * 0x100_0000 + (v
            / 0x10_0000 % 16) * 0x10_0000 + (v / 0x1_0000 % 16) * 0x1_0000 + (v / 0x1000 % 16)
            * 0x1000 + (v / 0x100 % 16) * 0x100 + (v / 0x10 % 16) * 0x10 + v % 16,
{
    let q1 = v / 0x10;
    let q2 = q1 / 0x10;
    let q3 = q2 / 0x10;
    let q4 = q3 / 0x10;
    let q5 = q4 / 0x10;
    let q6 = q5 / 0x10;
    let q7 = q6 / 0x10;
    vstd::arithmetic::div_mod::lemma_div_denominator(v as int, 0x10, 0x10);
    vstd::arithmetic::div_mod::lemma_div_denominator(v as int, 0x100, 0x10);
    vstd::arithmetic::div_mod::lemma_div_denominator(v as int, 0x1000, 0x10);
    vstd::arithmetic::div_mod::lemma_div_denominator(v as int, 0x1_0000, 0x10);
    vstd::arithmetic::div_mod::lemma_div_denominator(v as int, 0x10_0000, 0x10);
    vstd::arithmetic::div_mod::lemma_div_denominator(v as int, 0x100_0000, 0x10);
    assert(q2 == v / 0x100);
    assert(q3 == v / 0x1000);
    assert(q4 == v / 0x1_0000);
    assert(q5 == v / 0x10_0000);
    assert(q6 == v / 0x100_0000);
    assert(q7 == v / 0x1000_0000);
    assert(v == (q7 % 16) * 0x1000_0000 + (q6 % 16) * 0x100_0000 + (q5 % 16) * 0x10_0000 + (q4
        % 16) * 0x1_0000 + (q3 % 16) * 0x1000 + (q2 % 16) * 0x100 + (q1 % 16) * 0x10 + v % 16);
}

/// A field is eight bytes long, and reading it gives back the number written:
/// no two 32-bit values share a field.
pub proof fn lemma_hex_field_value(v: nat)
    requires
        v < 0x1_0000_0000,
    ensures
        hex_field(v).len() == 8,
        hex_field_value(hex_field(v)) == Some(v),
{
    reveal(hex_field);
    let f = hex_field(v);
    lemma_nibble_sum(v);
    lemma_hex_digit_value(v / 0x1000_0000 % 16);
    lemma_hex_digit_value(v / 0x100_0000 % 16);
    lemma_hex_digit_value(v / 0x10_0000 % 16);
    lemma_hex_digit_value(v / 0x1_0000 % 16);
    lemma_hex_digit_value(v / 0x1000 % 16);
    lemma_hex_digit_value(v / 0x100 % 16);
    lemma_hex_digit_value(v / 0x10 % 16);
    lemma_hex_digit_value(v % 16);
    assert(f[0] == hex_digit(v / 0x1000_0000 % 16));
    assert(f[1] == hex_digit(v / 0x100_0000 % 16));
    assert(f[2] == hex_digit(v / 0x10_0000 % 16));
    assert(f[3] == hex_digit(v / 0x1_0000 % 16));
    assert(f[4] == hex_digit(v / 0x1000 % 16));
    assert(f[5] == hex_digit(v / 0x100 % 16));
    assert(f[6] == hex_digit(v / 0x10 % 16));
    assert(f[7] == hex_digit(v % 16));
}

/// A field is eight bytes long, whatever the number.
pub proof fn lemma_hex_field_len(v: nat)
    ensures
        hex_field(v).len() == 8,
{
    reveal(hex_field);
}

/// The digit for a value below 16.
pub fn hex_digit_byte(d: u32) -> (b: u8)
    requires
        d < 16,
    ensures
        b == hex_digit(d as nat),
{
    if d < 10 {
        (48 + d) as u8
    } else {
        (55 + d) as u8
    }
}

/// Appends the eight-digit field of `v` to `out`.
pub fn push_hex_field(out: &mut Vec<u8>, v: u32)
    ensures
        final(out)@ == old(out)@ + hex_field(v as nat),
{
    proof {
        reveal(hex_field);
    }
    out.push(hex_digit_byte(v / 0x1000_0000 % 16));
    out.push(hex_digit_byte(v / 0x100_0000 % 16));
    out.push(hex_digit_byte(v / 0x10_0000 % 16));
    out.push(hex_digit_byte(v / 0x1_0000 % 16));
    out.push(hex_digit_byte(v / 0x1000 % 16));
    out.push(hex_digit_byte(v / 0x100 % 16));
    out.push(hex_digit_byte(v / 0x10 % 16));
    out.push(hex_digit_byte(v % 16));
    assert(out@ =~= old(out)@ + hex_field(v as nat));
}

} // verus!
