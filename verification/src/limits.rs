//! Bounds that both sides of a measurement agree on.

use vstd::prelude::*;

verus! {

/// Smallest payload chunk, in bytes.
pub const MIN_CHUNK_SIZE: usize = 4096;

/// Chunk length a connection starts with.
pub const CHUNK_SIZE: usize = 4096;

/// Largest payload chunk, in bytes.
pub const MAX_CHUNK_SIZE: usize = 4194304;

/// Whether `n` is a power of two.
pub open spec fn is_pow2(n: int) -> bool
    decreases n,
{
    if n <= 0 {
        false
    } else if n == 1 {
        true
    } else {
        n % 2 == 0 && is_pow2(n / 2)
    }
}

/// A chunk size that a connection may hold: a power of two within the bounds.
pub open spec fn valid_chunk_size(n: int) -> bool {
    MIN_CHUNK_SIZE <= n <= MAX_CHUNK_SIZE && is_pow2(n)
}

/// The powers of two within the chunk-size bounds are 2^12 to 2^22.
pub proof fn lemma_valid_chunk_sizes(n: int)
    ensures
        valid_chunk_size(n) <==> (n == 4096 || n == 8192 || n == 16384 || n == 32768 || n
            == 65536 || n == 131072 || n == 262144 || n == 524288 || n == 1048576 || n
            == 2097152 || n == 4194304),
{
    reveal_with_fuel(is_pow2, 24);
}

/// The powers of two up to eight.
pub proof fn lemma_small_pow2(n: int)
    ensures
        (is_pow2(n) && n <= 8) <==> (n == 1 || n == 2 || n == 4 || n == 8),
{
    reveal_with_fuel(is_pow2, 5);
}

/// Whether a connection may hold the chunk size `n`.
pub fn chunk_size_ok(n: u64) -> (r: bool)
    ensures
        r == valid_chunk_size(n as int),
{
    proof {
        lemma_valid_chunk_sizes(n as int);
    }
    n == 4096 || n == 8192 || n == 16384 || n == 32768 || n == 65536 || n == 131072 || n
        == 262144 || n == 524288 || n == 1048576 || n == 2097152 || n == 4194304
}

} // verus!
