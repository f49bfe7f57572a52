//! The 80-round compression function over a five-register state.
use vstd::prelude::*;
use crate::schedule::{block_words, message_schedule, schedule};
use crate::words::{rotl, rotate_left};

verus! {

/// The modulus of 32-bit word arithmetic.
pub open spec fn word_modulus() -> int {
    0x1_0000_0000
}

/// The five 32-bit registers of the running digest.
#[derive(Clone, Copy, Debug, PartialEq, Eq, Structural)]
pub struct HashState {
    pub h0: u32,
    pub h1: u32,
    pub h2: u32,
    pub h3: u32,
    pub h4: u32,
}

/// The registers every digest starts from.
pub open spec fn initial_state() -> HashState {
    HashState { h0: 0x67452301, h1: 0xEFCDAB89, h2: 0x98BADCFE, h3: 0x10325476, h4: 0xC3D2E1F0 }
}

/// The nonlinear function of round `i` on the registers `b`, `c`, `d`.
pub open spec fn mix(i: int, b: u32, c: u32, d: u32) -> u32 {
    if i < 20 {
        (b & c) | (!b & d)
    } else if i < 40 {
        b ^ c ^ d
    } else if i < 60 {
        (b & c) | (b & d) | (c & d)
    } else {
        b ^ c ^ d
    }
}

/// The additive constant of round `i`.
pub open spec fn round_constant(i: int) -> u32 {
    if i < 20 {
        0x5A827999
    } else if i < 40 {
        0x6ED9EBA1
    } else if i < 60 {
        0x8F1BBCDC
    } else {
        0xCA62C1D6
    }
}

/// The registers after round `i`, fed the schedule word `wi`.
pub open spec fn round(s: HashState, i: int, wi: u32) -> HashState {
    let temp = (rotl(s.h0, 5) + mix(i, s.h1, s.h2, s.h3) + s.h4 + round_constant(i) + wi)
        % word_modulus();
    HashState { h0: temp as u32, h1: s.h0, h2: rotl(s.h1, 30), h3: s.h2, h4: s.h3 }
}

/// The registers after the first `n` rounds over the schedule `w`.
pub open spec fn rounds(s: HashState, w: Seq<u32>, n: nat) -> HashState
    decreases n,
{
    if n == 0 {
        s
    } else {
        let i = n - 1;
        round(rounds(s, w, i as nat), i, w[i])
    }
}

/// Register-wise sum modulo 2^32.
pub open spec fn add_states(x: HashState, y: HashState) -> HashState {
    HashState {
        h0: ((x.h0 + y.h0) % word_modulus()) as u32,
        h1: ((x.h1 + y.h1) % word_modulus()) as u32,
        h2: ((x.h2 + y.h2) % word_modulus()) as u32,
        h3: ((x.h3 + y.h3) % word_modulus()) as u32,
        h4: ((x.h4 + y.h4) % word_modulus()) as u32,
    }
}

/// The state after folding in the block whose sixteen words are `block`.
pub open spec fn compress(h: HashState, block: Seq<u32>) -> HashState {
    add_states(h, rounds(h, schedule(block), 80))
}

fn add32(x: u32, y: u32) -> (r: u32)
    ensures
        r == (x + y) % word_modulus(),
{
    x.wrapping_add(y)
}

proof fn lemma_mod_add(a: int, b: int)
    ensures
        (a % word_modulus() + b) % word_modulus() == (a + b) % word_modulus(),
{
    vstd::arithmetic::div_mod::lemma_add_mod_noop(a, b, word_modulus());
    vstd::arithmetic::div_mod::lemma_mod_twice(a, word_modulus());
    vstd::arithmetic::div_mod::lemma_add_mod_noop(a % word_modulus(), b, word_modulus());
}

impl HashState {
    /// The registers every digest starts from.
    pub fn initial() -> (s: HashState)
        ensures
            s == initial_state(),
    {
        HashState { h0: 0x67452301, h1: 0xEFCDAB89, h2: 0x98BADCFE, h3: 0x10325476, h4: 0xC3D2E1F0 }
    }
}

/// The mixing function and additive constant of round `i`.
pub fn logical_function(i: u32, b: u32, c: u32, d: u32) -> (r: (u32, u32))
    requires
        i < 80,
    ensures
        r == (mix(i as int, b, c, d), round_constant(i as int)),
{
    if i <= 19 {
        ((b & c) | ((!b) & d), 0x5A827999)
    } else if i <= 39 {
        (b ^ c ^ d, 0x6ED9EBA1)
    } else if i <= 59 {
        ((b & c) | (b & d) | (c & d), 0x8F1BBCDC)
    } else {
        (b ^ c ^ d, 0xCA62C1D6)
    }
}

/// Folds the 64-byte block of `m` at `start` into the state `h`.
pub fn compress_block(h: HashState, m: &Vec<u8>, start: usize) -> (r: HashState)
    requires
        start + 64 <= m.len(),
    ensures
        r == compress(h, block_words(m@, start as int)),
{
    let w = message_schedule(m, start);
    let ghost sched = schedule(block_words(m@, start as int));
    let mut s = h;
    let mut i: u32 = 0;
    while i < 80
        invariant
            i <= 80,
            w@ == sched,
            w@.len() == 80,
            s == rounds(h, sched, i as nat),
        decreases 80 - i,
    {
        let (f, k) = logical_function(i, s.h1, s.h2, s.h3);
        let t1 = add32(rotate_left(s.h0, 5), f);
        let t2 = add32(t1, s.h4);
        let t3 = add32(t2, k);
        let temp = add32(t3, w[i as usize]);
        proof {
            let a = rotl(s.h0, 5) as int;
            lemma_mod_add(a + f, s.h4 as int);
            lemma_mod_add(a + f + s.h4, k as int);
            lemma_mod_add(a + f + s.h4 + k, w@[i as int] as int);
        }
        s = HashState { h0: temp, h1: s.h0, h2: rotate_left(s.h1, 30), h3: s.h2, h4: s.h3 };
        i = i + 1;
    }
    HashState {
        h0: add32(h.h0, s.h0),
        h1: add32(h.h1, s.h1),
        h2: add32(h.h2, s.h2),
        h3: add32(h.h3, s.h3),
        h4: add32(h.h4, s.h4),
    }
}

} // verus!
