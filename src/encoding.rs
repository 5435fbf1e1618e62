//! Integer and hexadecimal encodings of a colour's four channels once they are
//! rounded to bytes.

use vstd::prelude::*;

verus! {

/// The 32-bit word that holds the bytes of `channels` as `alpha:24..31`,
/// `c0:16..23`, `c1:8..15` and `c2:0..7`, where `alpha` is `channels[3]`.
pub open spec fn alpha_8888_spec(channels: [u8; 4]) -> nat {
    channels[3] as nat * 0x100_0000 + channels[0] as nat * 0x1_0000 + channels[1] as nat * 0x100
        + channels[2] as nat
}

/// The uppercase hexadecimal digit for `d` (below sixteen).
pub open spec fn hex_digit(d: nat) -> char {
    if d < 10 {
        (48 + d) as char
    } else {
        (55 + d) as char
    }
}

/// The `n` lowest hexadecimal digits of `v`, most significant first, with
/// leading zeros.
pub open spec fn hex_spec(v: nat, n: nat) -> Seq<char>
    decreases n,
{
    if n == 0 {
        seq![]
    } else {
        hex_spec(v / 16, (n - 1) as nat).push(hex_digit(v % 16))
    }
}

/// Packs four bytes into one word: the fourth in the top byte, then the
/// first, second and third.
pub fn alpha_8888(channels: [u8; 4]) -> (r: u32)
    ensures
        r == alpha_8888_spec(channels),
{
    let (a, b, c, d) = (channels[0] as u32, channels[1] as u32, channels[2] as u32, channels[3] as u32);
    assert((d << 24u32) == d * 0x100_0000 && (a << 16u32) == a * 0x1_0000 && (b << 8u32) == b * 0x100)
        by (bit_vector)
        requires
            a < 256 && b < 256 && d < 256,
    ;
    (d << 24u32) + (a << 16u32) + (b << 8u32) + c
}

/// Six uppercase hexadecimal digits of the low 24 bits of `word`: its colour
/// without its alpha byte.
pub fn rgb_hex(word: u32) -> (r: String)
    ensures
        r@ == hex_spec(word as nat % 0x100_0000, 6),
{
    let mut s = String::new();
    push_hex(&mut s, word & 0xFF_FFFF, 6);
    assert(word & 0xFF_FFFF == word % 0x100_0000) by (bit_vector);
    s
}

/// Eight uppercase hexadecimal digits of the whole of `word`.
pub fn argb_hex(word: u32) -> (r: String)
    ensures
        r@ == hex_spec(word as nat, 8),
{
    let mut s = String::new();
    push_hex(&mut s, word, 8);
    s
}

fn hex_digit_char(d: u32) -> (c: char)
    requires
        d < 16,
    ensures
        c == hex_digit(d as nat),
{
    let b: u8 = if d < 10 {
        48 + d as u8
    } else {
        55 + d as u8
    };
    b as char
}

fn push_hex(s: &mut String, v: u32, n: usize)
    ensures
        final(s)@ == old(s)@ + hex_spec(v as nat, n as nat),
    decreases n,
{
    if n == 0 {
        assert(old(s)@ + hex_spec(v as nat, 0) =~= old(s)@);
        return;
    }
    push_hex(s, v / 16, n - 1);
    push_char(s, hex_digit_char(v % 16));
    assert(old(s)@ + hex_spec(v as nat, n as nat) =~= old(s)@ + hex_spec((v / 16) as nat, (n
        - 1) as nat) + seq![hex_digit((v % 16) as nat)]);
}

/// Relies on `String::push`: appends one character at the end of the string.
#[verifier::external_body]
fn push_char(s: &mut String, c: char)
    ensures
        final(s)@ == old(s)@.push(c),
{
    s.push(c)
}

} // verus!
