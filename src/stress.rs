use vstd::prelude::*;
use vstd::arithmetic::div_mod::{lemma_add_mod_noop, lemma_mod_bound};
use crate::item::ApiError;

verus! {

/// The modulus of 64-bit wraparound arithmetic.
pub open spec fn word_modulus() -> nat {
    0x1_0000_0000_0000_0000
}

/// `0*0 + 1*1 + ... + (n-1)*(n-1)`, computed exactly.
pub open spec fn sum_of_squares(n: nat) -> nat
    decreases n,
{
    if n == 0 {
        0
    } else {
        sum_of_squares((n - 1) as nat) + ((n - 1) * (n - 1)) as nat
    }
}

/// The CPU workload's result: the sum of `i * i` for `i` below `n`, modulo 2^64.
pub open spec fn checksum_of(n: nat) -> u64 {
    (sum_of_squares(n) % word_modulus()) as u64
}

/// The largest allocation, in mebibytes, that the memory workload accepts.
pub const MAX_STRESS_MB: u64 = 100;

pub const BYTES_PER_MB: u64 = 1_048_576;

/// Sums `i * i` for `i` in `0..iterations` with wraparound on overflow.
pub fn cpu_checksum(iterations: u64) -> (r: u64)
    ensures
        r == checksum_of(iterations as nat),
{
    let mut result: u64 = 0;
    let mut i: u64 = 0;
    while i < iterations
        invariant
            i <= iterations,
            result == checksum_of(i as nat),
        decreases iterations - i,
    {
        let sq = i.wrapping_mul(i);
        let next = result.wrapping_add(sq);
        proof {
            let m = word_modulus() as int;
            let s = sum_of_squares(i as nat) as int;
            let q = (i as int) * (i as int);
            vstd::arithmetic::mul::lemma_mul_nonnegative(i as int, i as int);
            assert(sq as int == q % m);
            assert(result as int == s % m);
            lemma_add_mod_noop(s, q, m);
            lemma_mod_bound(s + q, m);
            assert(next as int == ((result as int) + (sq as int)) % m) by {
                lemma_mod_bound(s, m);
                lemma_mod_bound(q, m);
                if (result as int) + (sq as int) >= m {
                    vstd::arithmetic::div_mod::lemma_fundamental_div_mod_converse(
                        (result as int) + (sq as int), m, 1, (result as int) + (sq as int) - m);
                } else {
                    vstd::arithmetic::div_mod::lemma_small_mod(((result as int) + (sq as int)) as nat, m as nat);
                }
            }
            assert(sum_of_squares((i + 1) as nat) == s + q);
        }
        result = next;
        i = i + 1;
    }
    result
}

/// Allocates `size_mb` mebibytes of zeroed memory and releases it again, returning the
/// number of bytes that were allocated. Sizes over the limit are refused before any
/// allocation.
pub fn allocate_and_release(size_mb: u64) -> (r: Result<usize, ApiError>)
    ensures
        size_mb <= MAX_STRESS_MB ==> r == Ok::<usize, ApiError>((size_mb * BYTES_PER_MB) as usize),
        size_mb > MAX_STRESS_MB ==> r == Err::<usize, ApiError>(ApiError::InvalidArgument),
{
    if size_mb > MAX_STRESS_MB {
        return Err(ApiError::InvalidArgument);
    }
    let size_bytes = (size_mb * BYTES_PER_MB) as usize;
    let allocated: usize;
    {
        let data: Vec<u8> = vec![0u8; size_bytes];
        allocated = data.len();
    }
    Ok(allocated)
}

/// Running the CPU workload twice on the same iteration count gives the same result:
/// the checksum depends on the count alone.
pub proof fn lemma_checksum_deterministic(iterations: u64, first: u64, second: u64)
    requires
        first == checksum_of(iterations as nat),
        second == checksum_of(iterations as nat),
    ensures
        first == second,
{
}

} // verus!
