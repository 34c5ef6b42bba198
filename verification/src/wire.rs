//! Four-byte alignment arithmetic shared by the whole wire format.
//!
//! An attribute record occupies its declared length rounded up to the next
//! multiple of four; the extra bytes are zero padding that is not reflected in
//! the declared length.

use vstd::prelude::*;

verus! {

/// The smallest multiple of four that is at least `n`.
pub open spec fn spec_align4(n: int) -> int {
    if n % 4 == 0 {
        n
    } else {
        n + (4 - n % 4)
    }
}

/// `n` zero bytes.
pub open spec fn zeros(n: int) -> Seq<u8> {
    Seq::new(n as nat, |i| 0u8)
}

pub proof fn lemma_align4(n: int)
    requires
        0 <= n,
    ensures
        n <= spec_align4(n) < n + 4,
        spec_align4(n) % 4 == 0,
{
}

/// Rounds `n` up to the next multiple of four.
pub fn align4(n: usize) -> (r: usize)
    requires
        n + 3 <= usize::MAX,
    ensures
        r == spec_align4(n as int),
{
    if n % 4 == 0 {
        n
    } else {
        n + (4 - n % 4)
    }
}

/// Appends `n` zero bytes to `out`.
pub fn push_zeros(out: &mut Vec<u8>, n: usize)
    ensures
        final(out)@ == old(out)@ + zeros(n as int),
{
    let mut i: usize = 0;
    while i < n
        invariant
            i <= n,
            out@ == old(out)@ + zeros(i as int),
        decreases n - i,
    {
        out.push(0u8);
        proof {
            assert(out@ =~= old(out)@ + zeros(i as int + 1));
        }
        i = i + 1;
    }
    proof {
        assert(out@ =~= old(out)@ + zeros(n as int));
    }
}

} // verus!
