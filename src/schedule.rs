//! Block decomposition into words and expansion into the 80-word schedule.
use vstd::prelude::*;
use crate::words::{be_word, rotl, rotate_left, word_from_be};

verus! {

/// The sixteen big-endian words of the 64-byte block of `m` starting at `start`.
pub open spec fn block_words(m: Seq<u8>, start: int) -> Seq<u32> {
    Seq::new(
        16,
        |j: int|
            be_word(m[start + 4 * j], m[start + 4 * j + 1], m[start + 4 * j + 2], m[start + 4 * j + 3]),
    )
}

/// The word that follows the schedule prefix `w` (of length at least 16).
pub open spec fn next_word(w: Seq<u32>) -> u32 {
    let n = w.len() as int;
    rotl(w[n - 3] ^ w[n - 8] ^ w[n - 14] ^ w[n - 16], 1)
}

/// `w` extended by `k` derived words.
pub open spec fn extend_schedule(w: Seq<u32>, k: nat) -> Seq<u32>
    decreases k,
{
    if k == 0 {
        w
    } else {
        let p = extend_schedule(w, (k - 1) as nat);
        p.push(next_word(p))
    }
}

/// The 80-word schedule of a block given by its sixteen words.
pub open spec fn schedule(block: Seq<u32>) -> Seq<u32> {
    extend_schedule(block, 64)
}

/// Each extension step adds exactly one word and keeps what was there.
pub proof fn lemma_extend_schedule(w: Seq<u32>, k: nat)
    ensures
        extend_schedule(w, k).len() == w.len() + k,
        extend_schedule(w, k).subrange(0, w.len() as int) == w,
    decreases k,
{
    if k > 0 {
        lemma_extend_schedule(w, (k - 1) as nat);
        let p = extend_schedule(w, (k - 1) as nat);
        assert(p.push(next_word(p)).subrange(0, w.len() as int) =~= p.subrange(0, w.len() as int));
    }
}

/// The derived words obey their recurrence at every index.
proof fn lemma_extend_recurrence(w: Seq<u32>, k: nat)
    requires
        w.len() >= 16,
    ensures
        forall|i: int|
            w.len() <= i < w.len() + k ==> #[trigger] extend_schedule(w, k)[i] == rotl(
                extend_schedule(w, k)[i - 3] ^ extend_schedule(w, k)[i - 8] ^ extend_schedule(
                    w,
                    k,
                )[i - 14] ^ extend_schedule(w, k)[i - 16],
                1,
            ),
    decreases k,
{
    if k > 0 {
        lemma_extend_recurrence(w, (k - 1) as nat);
        lemma_extend_schedule(w, (k - 1) as nat);
    }
}

/// A schedule has 80 words: the block's sixteen words, then for each later
/// index the one-bit rotation of the XOR of the words 3, 8, 14 and 16 back.
pub proof fn lemma_schedule_shape(block: Seq<u32>)
    requires
        block.len() == 16,
    ensures
        schedule(block).len() == 80,
        schedule(block).subrange(0, 16) == block,
        forall|i: int|
            16 <= i < 80 ==> #[trigger] schedule(block)[i] == rotl(
                schedule(block)[i - 3] ^ schedule(block)[i - 8] ^ schedule(block)[i - 14]
                    ^ schedule(block)[i - 16],
                1,
            ),
{
    lemma_extend_schedule(block, 64);
    lemma_extend_recurrence(block, 64);
}

/// Reads the block of `m` at `start` and expands it into its schedule.
pub fn message_schedule(m: &Vec<u8>, start: usize) -> (w: Vec<u32>)
    requires
        start + 64 <= m@.len(),
    ensures
        w@ == schedule(block_words(m@, start as int)),
        w@.len() == 80,
{
    let ghost block = block_words(m@, start as int);
    let mut w: Vec<u32> = Vec::with_capacity(80);
    let mut j: usize = 0;
    while j < 16
        invariant
            j <= 16,
            start + 64 <= m.len(),
            block == block_words(m@, start as int),
            w@ == block.take(j as int),
        decreases 16 - j,
    {
        let p = start + 4 * j;
        w.push(word_from_be(m[p], m[p + 1], m[p + 2], m[p + 3]));
        j = j + 1;
        assert(w@ =~= block.take(j as int));
    }
    assert(w@ =~= block);
    let mut i: usize = 16;
    while i < 80
        invariant
            16 <= i <= 80,
            block.len() == 16,
            w@ == extend_schedule(block, (i - 16) as nat),
        decreases 80 - i,
    {
        proof {
            lemma_extend_schedule(block, (i - 16) as nat);
        }
        let x = w[i - 3] ^ w[i - 8] ^ w[i - 14] ^ w[i - 16];
        w.push(rotate_left(x, 1));
        i = i + 1;
    }
    proof {
        lemma_extend_schedule(block, 64);
    }
    w
}

} // verus!
