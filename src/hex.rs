//! Rendering of the final state as lowercase hexadecimal text.
use vstd::prelude::*;
use crate::compress::HashState;
use crate::words::{hex_char, hex_digit, is_lower_hex};

verus! {

/// Eight hex digits of `x`, most significant first.
pub open spec fn hex8(x: u32) -> Seq<char> {
    seq![
        hex_char((x / 0x1000_0000 % 16) as u8),
        hex_char((x / 0x100_0000 % 16) as u8),
        hex_char((x / 0x10_0000 % 16) as u8),
        hex_char((x / 0x1_0000 % 16) as u8),
        hex_char((x / 0x1000 % 16) as u8),
        hex_char((x / 0x100 % 16) as u8),
        hex_char((x / 0x10 % 16) as u8),
        hex_char((x % 16) as u8),
    ]
}

/// The five registers as forty hex digits, `h0` first.
pub open spec fn hex_digest(s: HashState) -> Seq<char> {
    hex8(s.h0) + hex8(s.h1) + hex8(s.h2) + hex8(s.h3) + hex8(s.h4)
}

/// Relies on `String::push`: appends one character at the end.
#[verifier::external_body]
fn push_char(s: &mut String, c: char)
    ensures
        final(s)@ == old(s)@.push(c),
{
    s.push(c)
}

fn push_hex8(s: &mut String, x: u32)
    ensures
        final(s)@ == old(s)@ + hex8(x),
{
    let ghost start = s@;
    push_char(s, hex_digit((x / 0x1000_0000 % 16) as u8));
    push_char(s, hex_digit((x / 0x100_0000 % 16) as u8));
    push_char(s, hex_digit((x / 0x10_0000 % 16) as u8));
    push_char(s, hex_digit((x / 0x1_0000 % 16) as u8));
    push_char(s, hex_digit((x / 0x1000 % 16) as u8));
    push_char(s, hex_digit((x / 0x100 % 16) as u8));
    push_char(s, hex_digit((x / 0x10 % 16) as u8));
    push_char(s, hex_digit((x % 16) as u8));
    assert(s@ =~= start + hex8(x));
}

/// Every digit of `hex8(x)` is a lowercase hex character.
pub proof fn lemma_hex8_shape(x: u32)
    ensures
        hex8(x).len() == 8,
        forall|i: int| 0 <= i < 8 ==> is_lower_hex(#[trigger] hex8(x)[i]),
{
    let h = hex8(x);
    assert(is_lower_hex(h[0]) && is_lower_hex(h[1]) && is_lower_hex(h[2]) && is_lower_hex(h[3]));
    assert(is_lower_hex(h[4]) && is_lower_hex(h[5]) && is_lower_hex(h[6]) && is_lower_hex(h[7]));
}

/// A rendered digest is forty lowercase hex characters.
pub proof fn lemma_hex_digest_shape(s: HashState)
    ensures
        hex_digest(s).len() == 40,
        forall|i: int| 0 <= i < 40 ==> is_lower_hex(#[trigger] hex_digest(s)[i]),
{
    lemma_hex8_shape(s.h0);
    lemma_hex8_shape(s.h1);
    lemma_hex8_shape(s.h2);
    lemma_hex8_shape(s.h3);
    lemma_hex8_shape(s.h4);
    let d = hex_digest(s);
    assert forall|i: int| 0 <= i < 40 implies is_lower_hex(#[trigger] d[i]) by {
        if i < 8 {
            assert(d[i] == hex8(s.h0)[i]);
        } else if i < 16 {
            assert(d[i] == hex8(s.h1)[i - 8]);
        } else if i < 24 {
            assert(d[i] == hex8(s.h2)[i - 16]);
        } else if i < 32 {
            assert(d[i] == hex8(s.h3)[i - 24]);
        } else {
            assert(d[i] == hex8(s.h4)[i - 32]);
        }
    }
}

/// Renders the state as forty lowercase hex digits.
pub fn state_to_hex(s: HashState) -> (r: String)
    ensures
        r@ == hex_digest(s),
{
    let mut out = String::new();
    push_hex8(&mut out, s.h0);
    push_hex8(&mut out, s.h1);
    push_hex8(&mut out, s.h2);
    push_hex8(&mut out, s.h3);
    push_hex8(&mut out, s.h4);
    assert(out@ =~= hex_digest(s));
    out
}

} // verus!
