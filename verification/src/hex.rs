//! Packed 32-bit colour codes and their hexadecimal text form.
//!
//! A colour with four 8-bit channels can be packed into one [`u32`], with the
//! channels stored big-endian from the most significant byte to the least
//! significant one. This module holds the packing and unpacking helpers, the
//! hexadecimal digit tables, the shared parser for `#`-prefixed colour codes,
//! and the formatter that renders a packed code as `#RRGGBBAA`.

use vstd::prelude::*;
use vstd::slice::slice_index_get;

verus! {

/// The byte of `value` at big-endian position `i`, counting the most
/// significant byte as position `0`.
pub open spec fn be_byte(value: u32, i: int) -> u8
    recommends
        0 <= i < 4,
{
    if i == 0 {
        ((value >> 24) & 0xFF) as u8
    } else if i == 1 {
        ((value >> 16) & 0xFF) as u8
    } else if i == 2 {
        ((value >> 8) & 0xFF) as u8
    } else {
        (value & 0xFF) as u8
    }
}

/// The packed code with `r` as its most significant byte, then `g`, then
/// `b`, then `a`.
pub open spec fn pack(r: u8, g: u8, b: u8, a: u8) -> u32 {
    ((r as u32) << 24) | ((g as u32) << 16) | ((b as u32) << 8) | (a as u32)
}

/// Packing the four big-endian bytes of a code gives the code back.
pub proof fn lemma_pack_unpack(value: u32)
    ensures
        pack(be_byte(value, 0), be_byte(value, 1), be_byte(value, 2), be_byte(value, 3))
            == value,
{
    assert(((((value >> 24) & 0xFF) as u8 as u32) << 24)
        | ((((value >> 16) & 0xFF) as u8 as u32) << 16)
        | ((((value >> 8) & 0xFF) as u8 as u32) << 8)
        | (((value & 0xFF) as u8 as u32)) == value) by (bit_vector);
}

/// Unpacking a packed code gives the four channels back.
pub proof fn lemma_unpack_pack(r: u8, g: u8, b: u8, a: u8)
    ensures
        be_byte(pack(r, g, b, a), 0) == r,
        be_byte(pack(r, g, b, a), 1) == g,
        be_byte(pack(r, g, b, a), 2) == b,
        be_byte(pack(r, g, b, a), 3) == a,
{
    let v = pack(r, g, b, a);
    assert(v == ((r as u32) << 24) | ((g as u32) << 16) | ((b as u32) << 8) | (a as u32));
    assert(((((r as u32) << 24) | ((g as u32) << 16) | ((b as u32) << 8) | (a as u32)) >> 24)
        & 0xFF == r && ((((r as u32) << 24) | ((g as u32) << 16) | ((b as u32) << 8)
        | (a as u32)) >> 16) & 0xFF == g && ((((r as u32) << 24) | ((g as u32) << 16)
        | ((b as u32) << 8) | (a as u32)) >> 8) & 0xFF == b && (((r as u32) << 24)
        | ((g as u32) << 16) | ((b as u32) << 8) | (a as u32)) & 0xFF == a) by (bit_vector);
}

/// Splits a packed code into its four bytes, most significant first.
pub fn u32_to_be(value: u32) -> (r: (u8, u8, u8, u8))
    ensures
        r.0 == be_byte(value, 0),
        r.1 == be_byte(value, 1),
        r.2 == be_byte(value, 2),
        r.3 == be_byte(value, 3),
{
    proof {
        assert((value >> 24) & 0xFF <= 0xFF && (value >> 16) & 0xFF <= 0xFF
            && (value >> 8) & 0xFF <= 0xFF && value & 0xFF <= 0xFF) by (bit_vector);
    }
    let b0 = ((value >> 24) & 0xFF) as u8;
    let b1 = ((value >> 16) & 0xFF) as u8;
    let b2 = ((value >> 8) & 0xFF) as u8;
    let b3 = (value & 0xFF) as u8;
    (b0, b1, b2, b3)
}

/// Packs four bytes into a code, most significant first.
pub fn u32_from_be(r: u8, g: u8, b: u8, a: u8) -> (value: u32)
    ensures
        value == pack(r, g, b, a),
{
    ((r as u32) << 24) | ((g as u32) << 16) | ((b as u32) << 8) | (a as u32)
}

/// True when `b` is the ASCII code of a hexadecimal digit, in either case.
pub open spec fn is_hex_digit(b: u8) -> bool {
    (0x30 <= b <= 0x39) || (0x41 <= b <= 0x46) || (0x61 <= b <= 0x66)
}

/// The numeric value of the hexadecimal digit with ASCII code `b`.
pub open spec fn hex_val(b: u8) -> u8
    recommends
        is_hex_digit(b),
{
    if 0x30 <= b <= 0x39 {
        (b - 0x30) as u8
    } else if 0x41 <= b <= 0x46 {
        (b - 0x41 + 10) as u8
    } else {
        (b - 0x61 + 10) as u8
    }
}

/// Decodes one hexadecimal digit, accepting both cases.
pub fn hex_digit(b: u8) -> (r: Option<u8>)
    ensures
        r == (if is_hex_digit(b) {
            Some(hex_val(b))
        } else {
            None::<u8>
        }),
        r is Some ==> r->0 <= 15,
{
    if 0x30 <= b && b <= 0x39 {
        Some(b - 0x30)
    } else if 0x41 <= b && b <= 0x46 {
        Some(b - 0x41 + 10)
    } else if 0x61 <= b && b <= 0x66 {
        Some(b - 0x61 + 10)
    } else {
        None
    }
}

/// The channel encoded by the single hexadecimal digit at position `i` of
/// `b`, replicated to both nibbles of the resulting byte, or `None` if the
/// byte there is no hexadecimal digit.
pub open spec fn hex_single(b: Seq<u8>, i: int) -> Option<u8>
    recommends
        0 <= i < b.len(),
{
    if is_hex_digit(b[i]) {
        Some((hex_val(b[i]) * 0x11) as u8)
    } else {
        None
    }
}

/// The channel encoded by the two hexadecimal digits at positions `i` and
/// `i + 1` of `b`, or `None` if either byte is no hexadecimal digit.
pub open spec fn hex_pair(b: Seq<u8>, i: int) -> Option<u8>
    recommends
        0 <= i && i + 1 < b.len(),
{
    if is_hex_digit(b[i]) && is_hex_digit(b[i + 1]) {
        Some((hex_val(b[i]) * 0x10 + hex_val(b[i + 1])) as u8)
    } else {
        None
    }
}

/// The four channels encoded by the hexadecimal payload of the colour code
/// `b`, whose leading byte is the `#` marker.
///
/// The grouping is chosen by the exact length of the code: one digit per
/// channel with an implied opaque alpha (length 4), one digit per channel
/// with an explicit alpha digit (length 5), two digits per channel with an
/// implied opaque alpha (length 7), or two digits per channel including the
/// alpha (length 9). Single digits are replicated, so that for instance `6`
/// encodes the channel value `0x66`. The result is `None` when a selected
/// position holds no hexadecimal digit or the length matches no grouping.
pub open spec fn hex_groups(b: Seq<u8>) -> Option<(u8, u8, u8, u8)> {
    if b.len() == 4 {
        match (hex_single(b, 1), hex_single(b, 2), hex_single(b, 3)) {
            (Some(r), Some(g), Some(bl)) => Some((r, g, bl, 0xFF)),
            _ => None,
        }
    } else if b.len() == 5 {
        match (hex_single(b, 1), hex_single(b, 2), hex_single(b, 3), hex_single(b, 4)) {
            (Some(r), Some(g), Some(bl), Some(a)) => Some((r, g, bl, a)),
            _ => None,
        }
    } else if b.len() == 7 {
        match (hex_pair(b, 1), hex_pair(b, 3), hex_pair(b, 5)) {
            (Some(r), Some(g), Some(bl)) => Some((r, g, bl, 0xFF)),
            _ => None,
        }
    } else if b.len() == 9 {
        match (hex_pair(b, 1), hex_pair(b, 3), hex_pair(b, 5), hex_pair(b, 7)) {
            (Some(r), Some(g), Some(bl), Some(a)) => Some((r, g, bl, a)),
            _ => None,
        }
    } else {
        None
    }
}

/// The nibble of `value` at position `k`, counting the least significant
/// nibble as position `0`.
pub open spec fn nibble(value: u32, k: int) -> u8
    recommends
        0 <= k < 8,
{
    if k == 7 {
        ((value >> 28) & 0xF) as u8
    } else if k == 6 {
        ((value >> 24) & 0xF) as u8
    } else if k == 5 {
        ((value >> 20) & 0xF) as u8
    } else if k == 4 {
        ((value >> 16) & 0xF) as u8
    } else if k == 3 {
        ((value >> 12) & 0xF) as u8
    } else if k == 2 {
        ((value >> 8) & 0xF) as u8
    } else if k == 1 {
        ((value >> 4) & 0xF) as u8
    } else {
        (value & 0xF) as u8
    }
}

/// The uppercase hexadecimal digit character for the nibble `n`.
pub open spec fn hex_upper(n: u8) -> char
    recommends
        n < 16,
{
    if n == 0 {
        '0'
    } else if n == 1 {
        '1'
    } else if n == 2 {
        '2'
    } else if n == 3 {
        '3'
    } else if n == 4 {
        '4'
    } else if n == 5 {
        '5'
    } else if n == 6 {
        '6'
    } else if n == 7 {
        '7'
    } else if n == 8 {
        '8'
    } else if n == 9 {
        '9'
    } else if n == 10 {
        'A'
    } else if n == 11 {
        'B'
    } else if n == 12 {
        'C'
    } else if n == 13 {
        'D'
    } else if n == 14 {
        'E'
    } else {
        'F'
    }
}

/// The text form of the packed colour code `value`: a hash `#` followed by
/// the eight nibbles of the code as uppercase hexadecimal digits, most
/// significant first, always zero-padded and always including the alpha
/// byte.
pub open spec fn hex_format_chars(value: u32) -> Seq<char> {
    seq![
        '#',
        hex_upper(nibble(value, 7)),
        hex_upper(nibble(value, 6)),
        hex_upper(nibble(value, 5)),
        hex_upper(nibble(value, 4)),
        hex_upper(nibble(value, 3)),
        hex_upper(nibble(value, 2)),
        hex_upper(nibble(value, 1)),
        hex_upper(nibble(value, 0)),
    ]
}

/// Appends the uppercase hexadecimal digit for the nibble `n` to `out`.
pub(crate) fn push_hex_digit(out: &mut String, n: u8)
    requires
        n < 16,
    ensures
        final(out)@ == old(out)@ + seq![hex_upper(n)],
{
    proof {
        reveal_strlit("0");
        reveal_strlit("1");
        reveal_strlit("2");
        reveal_strlit("3");
        reveal_strlit("4");
        reveal_strlit("5");
        reveal_strlit("6");
        reveal_strlit("7");
        reveal_strlit("8");
        reveal_strlit("9");
        reveal_strlit("A");
        reveal_strlit("B");
        reveal_strlit("C");
        reveal_strlit("D");
        reveal_strlit("E");
        reveal_strlit("F");
    }
    if n == 0 {
        out.append("0");
    } else if n == 1 {
        out.append("1");
    } else if n == 2 {
        out.append("2");
    } else if n == 3 {
        out.append("3");
    } else if n == 4 {
        out.append("4");
    } else if n == 5 {
        out.append("5");
    } else if n == 6 {
        out.append("6");
    } else if n == 7 {
        out.append("7");
    } else if n == 8 {
        out.append("8");
    } else if n == 9 {
        out.append("9");
    } else if n == 10 {
        out.append("A");
    } else if n == 11 {
        out.append("B");
    } else if n == 12 {
        out.append("C");
    } else if n == 13 {
        out.append("D");
    } else if n == 14 {
        out.append("E");
    } else {
        out.append("F");
    }
    proof {
        assert(out@ =~= old(out)@ + seq![hex_upper(n)]);
    }
}

/// Splits a packed colour code into its eight nibbles, most significant
/// first.
fn u32_to_nibbles(value: u32) -> (r: (u8, u8, u8, u8, u8, u8, u8, u8))
    ensures
        r.0 == nibble(value, 7),
        r.1 == nibble(value, 6),
        r.2 == nibble(value, 5),
        r.3 == nibble(value, 4),
        r.4 == nibble(value, 3),
        r.5 == nibble(value, 2),
        r.6 == nibble(value, 1),
        r.7 == nibble(value, 0),
        r.0 < 16 && r.1 < 16 && r.2 < 16 && r.3 < 16,
        r.4 < 16 && r.5 < 16 && r.6 < 16 && r.7 < 16,
{
    proof {
        assert((value >> 28) & 0xF < 16 && (value >> 24) & 0xF < 16 && (value >> 20) & 0xF < 16
            && (value >> 16) & 0xF < 16 && (value >> 12) & 0xF < 16 && (value >> 8) & 0xF < 16
            && (value >> 4) & 0xF < 16 && value & 0xF < 16) by (bit_vector);
    }
    (
        ((value >> 28) & 0xF) as u8,
        ((value >> 24) & 0xF) as u8,
        ((value >> 20) & 0xF) as u8,
        ((value >> 16) & 0xF) as u8,
        ((value >> 12) & 0xF) as u8,
        ((value >> 8) & 0xF) as u8,
        ((value >> 4) & 0xF) as u8,
        (value & 0xF) as u8,
    )
}

/// Renders the packed colour code `value` as described by
/// [`hex_format_chars`].
pub fn hex_colour_string(value: u32) -> (r: String)
    ensures
        r@ == hex_format_chars(value),
{
    let (n7, n6, n5, n4, n3, n2, n1, n0) = u32_to_nibbles(value);
    let mut out = String::new();
    proof {
        reveal_strlit("#");
    }
    out.append("#");
    push_hex_digit(&mut out, n7);
    push_hex_digit(&mut out, n6);
    push_hex_digit(&mut out, n5);
    push_hex_digit(&mut out, n4);
    push_hex_digit(&mut out, n3);
    push_hex_digit(&mut out, n2);
    push_hex_digit(&mut out, n1);
    push_hex_digit(&mut out, n0);
    proof {
        assert(out@ =~= hex_format_chars(value));
    }
    out
}

/// The uppercase hexadecimal digit of a nibble decodes back to that nibble.
proof fn lemma_hex_upper_val(n: u8)
    requires
        n < 16,
    ensures
        '\0' <= hex_upper(n) <= '\u{7f}',
        is_hex_digit(hex_upper(n) as u8),
        hex_val(hex_upper(n) as u8) == n,
{
}

/// The text form of a packed colour code encodes, byte for byte, a
/// nine-byte hexadecimal colour code whose channels are the four big-endian
/// bytes of the code.
pub proof fn lemma_format_parse(value: u32)
    ensures
        ({
            let chars = hex_format_chars(value);
            let bytes = vstd::utf8::encode_utf8(chars);
            &&& vstd::utf8::is_ascii_chars(chars)
            &&& bytes.len() == 9
            &&& bytes[0] == 0x23u8
            &&& hex_groups(bytes) == Some(
                (be_byte(value, 0), be_byte(value, 1), be_byte(value, 2), be_byte(value, 3)),
            )
        }),
{
    let chars = hex_format_chars(value);
    let bytes = vstd::utf8::encode_utf8(chars);
    let n7 = nibble(value, 7);
    let n6 = nibble(value, 6);
    let n5 = nibble(value, 5);
    let n4 = nibble(value, 4);
    let n3 = nibble(value, 3);
    let n2 = nibble(value, 2);
    let n1 = nibble(value, 1);
    let n0 = nibble(value, 0);
    assert((value >> 28) & 0xF < 16 && (value >> 24) & 0xF < 16 && (value >> 20) & 0xF < 16
        && (value >> 16) & 0xF < 16 && (value >> 12) & 0xF < 16 && (value >> 8) & 0xF < 16
        && (value >> 4) & 0xF < 16 && value & 0xF < 16) by (bit_vector);
    assert(n7 < 16 && n6 < 16 && n5 < 16 && n4 < 16 && n3 < 16 && n2 < 16 && n1 < 16
        && n0 < 16);
    assert(chars.len() == 9 && chars[0] == '#' && chars[1] == hex_upper(n7)
        && chars[2] == hex_upper(n6) && chars[3] == hex_upper(n5) && chars[4] == hex_upper(n4)
        && chars[5] == hex_upper(n3) && chars[6] == hex_upper(n2) && chars[7] == hex_upper(n1)
        && chars[8] == hex_upper(n0));
    lemma_hex_upper_val(n7);
    lemma_hex_upper_val(n6);
    lemma_hex_upper_val(n5);
    lemma_hex_upper_val(n4);
    lemma_hex_upper_val(n3);
    lemma_hex_upper_val(n2);
    lemma_hex_upper_val(n1);
    lemma_hex_upper_val(n0);
    assert(vstd::utf8::is_ascii_chars(chars)) by {
        assert forall|i: int| 0 <= i < chars.len() implies '\0' <= #[trigger] chars[i]
            <= '\u{7f}' by {
            if i == 0 {
                assert(chars[0] == '#');
            } else if i == 1 {
                assert(chars[1] == hex_upper(n7));
            } else if i == 2 {
                assert(chars[2] == hex_upper(n6));
            } else if i == 3 {
                assert(chars[3] == hex_upper(n5));
            } else if i == 4 {
                assert(chars[4] == hex_upper(n4));
            } else if i == 5 {
                assert(chars[5] == hex_upper(n3));
            } else if i == 6 {
                assert(chars[6] == hex_upper(n2));
            } else if i == 7 {
                assert(chars[7] == hex_upper(n1));
            } else {
                assert(chars[8] == hex_upper(n0));
            }
        }
    }
    vstd::utf8::is_ascii_chars_encode_utf8(chars);
    assert(bytes.len() == 9);
    assert(bytes[0] == '#' as u8);
    assert(bytes[1] == hex_upper(n7) as u8 && bytes[2] == hex_upper(n6) as u8
        && bytes[3] == hex_upper(n5) as u8 && bytes[4] == hex_upper(n4) as u8
        && bytes[5] == hex_upper(n3) as u8 && bytes[6] == hex_upper(n2) as u8
        && bytes[7] == hex_upper(n1) as u8 && bytes[8] == hex_upper(n0) as u8);
    assert(((((value >> 28) & 0xF) as u8) * 0x10 + (((value >> 24) & 0xF) as u8)
            == ((value >> 24) & 0xFF) as u8)
        && ((((value >> 20) & 0xF) as u8) * 0x10 + (((value >> 16) & 0xF) as u8)
            == ((value >> 16) & 0xFF) as u8)
        && ((((value >> 12) & 0xF) as u8) * 0x10 + (((value >> 8) & 0xF) as u8)
            == ((value >> 8) & 0xFF) as u8)
        && ((((value >> 4) & 0xF) as u8) * 0x10 + ((value & 0xF) as u8)
            == (value & 0xFF) as u8)) by (bit_vector);
    assert(hex_pair(bytes, 1) == Some(be_byte(value, 0)));
    assert(hex_pair(bytes, 3) == Some(be_byte(value, 1)));
    assert(hex_pair(bytes, 5) == Some(be_byte(value, 2)));
    assert(hex_pair(bytes, 7) == Some(be_byte(value, 3)));
}

/// Decodes the single-digit channel at position `i` of `b`.
fn parse_single(b: &[u8], i: usize) -> (r: Option<u8>)
    requires
        i < b@.len(),
    ensures
        r == hex_single(b@, i as int),
{
    match hex_digit(*slice_index_get(b, i)) {
        Some(v) => Some(v * 0x11),
        None => None,
    }
}

/// Decodes the two-digit channel at positions `i` and `j` of `b`, with `j`
/// directly following `i`.
fn parse_pair(b: &[u8], i: usize, j: usize) -> (r: Option<u8>)
    requires
        j == i + 1,
        j < b@.len(),
    ensures
        r == hex_pair(b@, i as int),
{
    let hi = hex_digit(*slice_index_get(b, i));
    let lo = hex_digit(*slice_index_get(b, j));
    match (hi, lo) {
        (Some(h), Some(l)) => Some(h * 0x10 + l),
        _ => None,
    }
}

/// Decodes the hexadecimal payload of the colour code `b` into its four
/// channels, as described by [`hex_groups`].
pub fn parse_hex_groups(b: &[u8]) -> (r: Option<(u8, u8, u8, u8)>)
    ensures
        r == hex_groups(b@),
{
    if b.len() == 4 {
        match (parse_single(b, 1), parse_single(b, 2), parse_single(b, 3)) {
            (Some(r), Some(g), Some(bl)) => Some((r, g, bl, 0xFF)),
            _ => None,
        }
    } else if b.len() == 5 {
        match (parse_single(b, 1), parse_single(b, 2), parse_single(b, 3), parse_single(b, 4)) {
            (Some(r), Some(g), Some(bl), Some(a)) => Some((r, g, bl, a)),
            _ => None,
        }
    } else if b.len() == 7 {
        match (parse_pair(b, 1, 2), parse_pair(b, 3, 4), parse_pair(b, 5, 6)) {
            (Some(r), Some(g), Some(bl)) => Some((r, g, bl, 0xFF)),
            _ => None,
        }
    } else if b.len() == 9 {
        match (parse_pair(b, 1, 2), parse_pair(b, 3, 4), parse_pair(b, 5, 6), parse_pair(b, 7, 8)) {
            (Some(r), Some(g), Some(bl), Some(a)) => Some((r, g, bl, a)),
            _ => None,
        }
    } else {
        None
    }
}

} // verus!
