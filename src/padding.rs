//! Message preprocessing: the `0x80` marker, zero fill and the length field.
use vstd::prelude::*;

verus! {

/// The number of zero bytes that follow the `0x80` marker: the least count
/// that leaves the message eight bytes short of a block boundary.
pub open spec fn zero_fill_len(len: nat) -> nat {
    ((55 - len as int) % 64) as nat
}

/// The message length in bits as stored in the length field: it wraps
/// modulo 2^64 for messages of 2^61 bytes or more.
pub open spec fn bit_length_field(len: nat) -> nat {
    (8 * len) % 0x1_0000_0000_0000_0000
}

/// Eight bytes holding `n` most-significant first.
pub open spec fn be_u64_bytes(n: nat) -> Seq<u8> {
    seq![
        (n / 0x100_0000_0000_0000 % 0x100) as u8,
        (n / 0x1_0000_0000_0000 % 0x100) as u8,
        (n / 0x100_0000_0000 % 0x100) as u8,
        (n / 0x1_0000_0000 % 0x100) as u8,
        (n / 0x100_0000 % 0x100) as u8,
        (n / 0x1_0000 % 0x100) as u8,
        (n / 0x100 % 0x100) as u8,
        (n % 0x100) as u8,
    ]
}

/// The unsigned value of a byte sequence read most-significant first.
pub open spec fn be_value(b: Seq<u8>) -> nat
    decreases b.len(),
{
    if b.len() == 0 {
        0
    } else {
        (be_value(b.drop_last()) * 256 + b.last()) as nat
    }
}

/// The padded message: the input, one `0x80` byte, the zero fill and the
/// big-endian bit length.
pub open spec fn padded(m: Seq<u8>) -> Seq<u8> {
    m + seq![0x80u8] + Seq::new(zero_fill_len(m.len()), |i: int| 0u8) + be_u64_bytes(
        bit_length_field(m.len()),
    )
}

/// The eight bytes of `be_u64_bytes(n)` read back give `n`.
pub proof fn lemma_be_u64_bytes_value(n: u64)
    ensures
        be_u64_bytes(n as nat).len() == 8,
        be_value(be_u64_bytes(n as nat)) == n,
{
    let b = be_u64_bytes(n as nat);
    reveal_with_fuel(be_value, 9);
    assert(b.drop_last().drop_last().drop_last().drop_last().drop_last().drop_last().drop_last().drop_last()
        =~= Seq::<u8>::empty());
    let c0: u64 = b[0] as u64;
    let c1: u64 = b[1] as u64;
    let c2: u64 = b[2] as u64;
    let c3: u64 = b[3] as u64;
    let c4: u64 = b[4] as u64;
    let c5: u64 = b[5] as u64;
    let c6: u64 = b[6] as u64;
    let c7: u64 = b[7] as u64;
    assert(((((((c0 * 256 + c1) * 256 + c2) * 256 + c3) * 256 + c4) * 256 + c5) * 256 + c6) * 256
        + c7 == n) by (bit_vector)
        requires
            c0 == n / 0x100_0000_0000_0000 % 0x100,
            c1 == n / 0x1_0000_0000_0000 % 0x100,
            c2 == n / 0x100_0000_0000 % 0x100,
            c3 == n / 0x1_0000_0000 % 0x100,
            c4 == n / 0x100_0000 % 0x100,
            c5 == n / 0x1_0000 % 0x100,
            c6 == n / 0x100 % 0x100,
            c7 == n % 0x100,
    ;
}

/// In bits, the zero fill after the marker is `448 - c % 512` where that is
/// not negative and `960 - c % 512` otherwise, `c` being the bit length of
/// the message with its marker byte.
pub proof fn lemma_zero_fill_bits(len: nat)
    ensures
        8 * zero_fill_len(len) == (if (8 * len + 8) % 512 <= 448 {
            448 - (8 * len + 8) % 512
        } else {
            960 - (8 * len + 8) % 512
        }),
{
    let q = len as int / 64;
    let r = len as int % 64;
    assert(len == 64 * q + r);
    assert(8 * len + 8 == 512 * q + (8 * r + 8));
    vstd::arithmetic::div_mod::lemma_mod_multiples_vanish(q, 8 * r + 8, 512);
    assert((55 - len as int) % 64 == (55 - r) % 64) by {
        vstd::arithmetic::div_mod::lemma_mod_multiples_vanish(-q, 55 - r, 64);
    }
}

/// The padded message is a positive whole number of 64-byte blocks, begins
/// with the message, and ends with the message's bit length (modulo 2^64) as
/// a big-endian integer; that is the exact bit length below 2^61 bytes.
pub proof fn lemma_padding_invariant(m: Seq<u8>)
    ensures
        padded(m).len() % 64 == 0,
        padded(m).len() >= 64,
        (8 * padded(m).len()) % 512 == 0,
        padded(m).len() == m.len() + 1 + zero_fill_len(m.len()) + 8,
        zero_fill_len(m.len()) < 64,
        padded(m).subrange(0, m.len() as int) == m,
        padded(m)[m.len() as int] == 0x80,
        forall|i: int| m.len() < i < padded(m).len() - 8 ==> #[trigger] padded(m)[i] == 0,
        be_value(padded(m).subrange(padded(m).len() - 8, padded(m).len() as int))
            == bit_length_field(m.len()),
        m.len() < 0x2000_0000_0000_0000 ==> be_value(
            padded(m).subrange(padded(m).len() - 8, padded(m).len() as int),
        ) == 8 * m.len(),
{
    let p = padded(m);
    let n = bit_length_field(m.len());
    lemma_be_u64_bytes_value(n as u64);
    assert(p.subrange(p.len() - 8, p.len() as int) =~= be_u64_bytes(n));
    assert(p.subrange(0, m.len() as int) =~= m);
    assert(p.len() % 64 == 0);
    let blocks = p.len() as int / 64;
    assert(8 * p.len() == blocks * 512);
    vstd::arithmetic::div_mod::lemma_mod_multiples_basic(blocks, 512);
}

/// Appends the padding to `message`, producing a whole number of blocks.
pub fn pad_message(message: Vec<u8>) -> (r: Vec<u8>)
    ensures
        r@ == padded(message@),
{
    let mut m = message;
    let len: usize = m.len();
    let bits: u64 = (len as u64).wrapping_mul(8);
    m.push(0x80);
    let fill: usize = 63 - ((len % 64 + 8) % 64);
    assert(fill == zero_fill_len(len as nat));
    let ghost prefix = m@;
    let mut i: usize = 0;
    while i < fill
        invariant
            i <= fill,
            m@ == prefix + Seq::new(i as nat, |j: int| 0u8),
        decreases fill - i,
    {
        m.push(0);
        i = i + 1;
        assert(m@ =~= prefix + Seq::new(i as nat, |j: int| 0u8));
    }
    assert(bits == bit_length_field(len as nat));
    m.push((bits / 0x100_0000_0000_0000 % 0x100) as u8);
    m.push((bits / 0x1_0000_0000_0000 % 0x100) as u8);
    m.push((bits / 0x100_0000_0000 % 0x100) as u8);
    m.push((bits / 0x1_0000_0000 % 0x100) as u8);
    m.push((bits / 0x100_0000 % 0x100) as u8);
    m.push((bits / 0x1_0000 % 0x100) as u8);
    m.push((bits / 0x100 % 0x100) as u8);
    m.push((bits % 0x100) as u8);
    assert(m@ =~= padded(message@));
    m
}

} // verus!
