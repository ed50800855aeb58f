//! Where the task's state lives: a byte region that is reserved once, for the
//! whole life of the process, and in which the state is placed at the first
//! address that suits its alignment.
//!
//! The runtime only computes the place. A region that is as large as the state
//! and its alignment together holds the state wherever the region starts.

use vstd::prelude::*;
use crate::message::Token;

verus! {

/// Bytes that the state of the task made by `_future` takes.
pub fn size_of<F>(_future: &impl FnOnce(Token) -> F) -> (size: usize)
    ensures
        size == vstd::layout::size_of::<F>(),
{
    core::mem::size_of::<F>()
}

/// Alignment that the state of the task made by `_future` asks for.
pub fn align_of<F>(_future: &impl FnOnce(Token) -> F) -> (align: usize)
    ensures
        align == vstd::layout::align_of::<F>(),
{
    core::mem::align_of::<F>()
}

/// The first multiple of `align` that is not below `base`.
pub open spec fn place_of(base: nat, align: nat) -> nat
    recommends
        align > 0,
{
    if base % align == 0 {
        base
    } else {
        (base + align - base % align) as nat
    }
}

/// A region of `N` bytes for a value whose alignment is `A`.
#[derive(Clone, Copy, Debug)]
pub struct FutureStorage<const N: usize, const A: usize> {
    base: usize,
}

impl<const N: usize, const A: usize> FutureStorage<N, A> {
    /// Address of the region's first byte.
    pub closed spec fn base(&self) -> usize {
        self.base
    }

    /// Whether a region of `N` bytes at `base` exists and holds `size` bytes
    /// at the first address that is a multiple of `A`.
    pub open spec fn holds(base: usize, size: usize) -> bool {
        &&& A > 0
        &&& base + N <= usize::MAX
        &&& place_of(base as nat, A as nat) + size <= base + N
    }

    /// The region of `N` bytes that starts at `base`.
    pub fn new(base: usize) -> (storage: FutureStorage<N, A>)
        ensures
            storage.base() == base,
    {
        FutureStorage { base }
    }

    /// The address in the region at which the value is placed. The alignment
    /// must not be 0, and the address must exist.
    pub fn get(&self) -> (addr: usize)
        requires
            A > 0,
            place_of(self.base() as nat, A as nat) <= usize::MAX,
        ensures
            addr == place_of(self.base() as nat, A as nat),
    {
        let over: usize = self.base % A;
        if over == 0 {
            self.base
        } else {
            self.base + (A - over)
        }
    }

    /// The address at which a value of `size` bytes is placed, if the region
    /// holds it there.
    pub fn place(&self, size: usize) -> (res: Option<usize>)
        ensures
            res == if Self::holds(self.base(), size) {
                Some(place_of(self.base() as nat, A as nat) as usize)
            } else {
                None
            },
    {
        if A == 0 || self.base > usize::MAX - N {
            return None;
        }
        let over: usize = self.base % A;
        let pad: usize = if over == 0 {
            0
        } else {
            A - over
        };
        if pad > N || size > N - pad {
            None
        } else {
            Some(self.base + pad)
        }
    }
}

/// The place is a multiple of the alignment, and the only one among the
/// addresses from `base` up to the alignment further on.
pub proof fn lemma_place_of(base: nat, align: nat)
    requires
        align > 0,
    ensures
        place_of(base, align) % align == 0,
        base <= place_of(base, align) < base + align,
        forall|addr: nat|
            base <= addr < base + align && #[trigger] (addr % align) == 0 ==> addr == place_of(
                base,
                align,
            ),
{
    let place: nat = place_of(base, align);
    let q: int = (base / align) as int;
    vstd::arithmetic::div_mod::lemma_fundamental_div_mod(base as int, align as int);
    if base % align != 0 {
        vstd::arithmetic::mul::lemma_mul_is_distributive_add(align as int, q, 1);
        assert(place == align * (q + 1));
        vstd::arithmetic::mul::lemma_mul_is_commutative(align as int, q + 1);
        vstd::arithmetic::div_mod::lemma_mod_multiples_basic(q + 1, align as int);
    }
    assert forall|addr: nat| base <= addr < base + align && #[trigger] (addr % align)
        == 0 implies addr == place by {
        if addr != place {
            let (low, high) = if addr < place {
                (addr as int, place as int)
            } else {
                (place as int, addr as int)
            };
            vstd::arithmetic::div_mod::lemma_mod_equivalence(high, low, align as int);
            assert(0 < high - low < align);
            vstd::arithmetic::div_mod::lemma_small_mod((high - low) as nat, align);
        }
    }
}

/// A region that lies in the address space and is as large as the value and
/// its alignment together holds the value, wherever the region starts.
pub proof fn lemma_region_holds<const N: usize, const A: usize>(base: usize, size: usize)
    requires
        A > 0,
        base + N <= usize::MAX,
        size + A <= N,
    ensures
        FutureStorage::<N, A>::holds(base, size),
{
    lemma_place_of(base as nat, A as nat);
}

} // verus!
