//! The content hash that reduces an opaque host identifier to a small,
//! stable number.
//!
//! The hash starts from 5381 and, for each input byte `c`, multiplies the
//! running value by `33` raised to the power `c`, all modulo `2^64`. This
//! exponent form is kept bit-for-bit as the identifier scheme defines it, so
//! that node ids derived from the same host identifier never change.

use vstd::prelude::*;

verus! {

/// `33^e` modulo `2^64`: the wrapping power of 33 that weighs one input byte.
pub open spec fn pow33(e: nat) -> u64
    decreases e,
{
    if e == 0 {
        1u64
    } else {
        ((33 * pow33((e - 1) as nat)) % 0x1_0000_0000_0000_0000) as u64
    }
}

/// Folding one byte `c` into the running hash `h`, modulo `2^64`.
pub open spec fn hash_step(h: u64, c: u8) -> u64 {
    (((h as nat) * (pow33(c as nat) as nat)) % 0x1_0000_0000_0000_0000) as u64
}

/// The hash of a whole byte string: 5381 with every byte folded in, in order.
pub open spec fn hash_of(s: Seq<u8>) -> u64
    decreases s.len(),
{
    if s.len() == 0 {
        5381u64
    } else {
        hash_step(hash_of(s.drop_last()), s.last())
    }
}

/// `33^e` modulo `2^64`, computed by repeated wrapping multiplication.
fn wrapping_pow33(e: u8) -> (r: u64)
    ensures
        r == pow33(e as nat),
{
    let mut r: u64 = 1;
    let mut k: u8 = 0;
    while k < e
        invariant
            k <= e,
            r == pow33(k as nat),
        decreases e - k,
    {
        r = r.wrapping_mul(33);
        k = k + 1;
    }
    r
}

/// Reduces a byte string to a stable 64-bit hash: 5381, multiplied by
/// `33^byte` (wrapping) for each byte in order.
pub fn consistent_hash(v: &[u8]) -> (r: u64)
    ensures
        r == hash_of(v@),
{
    let mut hash: u64 = 5381;
    let mut i: usize = 0;
    while i < v.len()
        invariant
            i <= v@.len(),
            hash == hash_of(v@.take(i as int)),
        decreases v@.len() - i,
    {
        let p = wrapping_pow33(v[i]);
        hash = hash.wrapping_mul(p);
        i = i + 1;
        proof {
            assert(v@.take(i as int).drop_last() =~= v@.take(i - 1));
            assert(v@.take(i as int).last() == v@[i - 1]);
        }
    }
    proof {
        assert(v@.take(v@.len() as int) =~= v@);
    }
    hash
}

} // verus!
