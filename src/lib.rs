//! A SHA-1 style 160-bit digest computed from first principles, with every
//! stage of the pipeline verified against a mathematical model.
use vstd::prelude::*;

pub mod args;
pub mod compress;
pub mod hex;
pub mod padding;
pub mod schedule;
pub mod words;

use crate::compress::{compress, compress_block, initial_state, HashState};
use crate::hex::{hex_digest, lemma_hex_digest_shape, state_to_hex};
use crate::padding::{lemma_padding_invariant, pad_message, padded};
use crate::schedule::block_words;
use crate::words::is_lower_hex;

verus! {

/// The state after folding the first `n` blocks of `m` into `h`, in order.
pub open spec fn hash_blocks(h: HashState, m: Seq<u8>, n: nat) -> HashState
    decreases n,
{
    if n == 0 {
        h
    } else {
        compress(hash_blocks(h, m, (n - 1) as nat), block_words(m, 64 * (n - 1)))
    }
}

/// The final state for the message `msg`.
pub open spec fn message_state(msg: Seq<u8>) -> HashState {
    let p = padded(msg);
    hash_blocks(initial_state(), p, p.len() / 64)
}

/// The digest of `msg` as forty lowercase hex characters.
pub open spec fn digest(msg: Seq<u8>) -> Seq<char> {
    hex_digest(message_state(msg))
}

/// The digest is a function of the message bytes alone: equal messages
/// always have equal digests.
pub proof fn lemma_digest_deterministic(x: Seq<u8>, y: Seq<u8>)
    requires
        x == y,
    ensures
        digest(x) == digest(y),
{
}

/// Every digest is forty characters, each a lowercase hex digit.
pub proof fn lemma_digest_shape(x: Seq<u8>)
    ensures
        digest(x).len() == 40,
        forall|i: int| 0 <= i < 40 ==> is_lower_hex(#[trigger] digest(x)[i]),
{
    lemma_hex_digest_shape(message_state(x));
}

/// Computes the 160-bit digest of `message` as lowercase hexadecimal text.
pub fn chat1(message: Vec<u8>) -> (r: String)
    ensures
        r@ == digest(message@),
        r@.len() == 40,
        forall|i: int| 0 <= i < 40 ==> is_lower_hex(#[trigger] r@[i]),
{
    let ghost msg = message@;
    proof {
        lemma_padding_invariant(msg);
    }
    let m = pad_message(message);
    let n: usize = m.len() / 64;
    let mut h = HashState::initial();
    let mut b: usize = 0;
    while b < n
        invariant
            b <= n,
            m.len() == 64 * n,
            m@ == padded(msg),
            h == hash_blocks(initial_state(), m@, b as nat),
        decreases n - b,
    {
        h = compress_block(h, &m, 64 * b);
        b = b + 1;
    }
    proof {
        lemma_hex_digest_shape(h);
    }
    state_to_hex(h)
}

} // verus!
