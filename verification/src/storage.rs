//! Zero-filled storage for the machine's memory, registers and stack.

use vstd::prelude::*;

verus! {

/// Taken on trust from `num`: `Zero::zero` for `u8` returns the additive
/// identity of the bytes, which is 0.
pub assume_specification[ <u8 as num::Zero>::zero ]() -> (z: u8)
    ensures
        z == 0,
;

/// Taken on trust from `num`: `Zero::zero` for `u16` returns the additive
/// identity of the 16-bit words, which is 0.
pub assume_specification[ <u16 as num::Zero>::zero ]() -> (z: u16)
    ensures
        z == 0,
;

/// A cell type of the machine: a plain value with a zero to start from.
pub trait Zeroable: Copy {
    /// The zero of the type.
    spec fn spec_zeroed() -> Self;

    /// Returns the zero of the type.
    fn zeroed() -> (z: Self)
        ensures
            z == Self::spec_zeroed(),
    ;
}

impl Zeroable for u8 {
    open spec fn spec_zeroed() -> u8 {
        0
    }

    fn zeroed() -> (z: u8) {
        <u8 as num::Zero>::zero()
    }
}

impl Zeroable for u16 {
    open spec fn spec_zeroed() -> u16 {
        0
    }

    fn zeroed() -> (z: u16) {
        <u16 as num::Zero>::zero()
    }
}

/// Storage of `len` cells, each holding zero.
pub fn allocate_memory<T: Zeroable>(len: usize) -> (memory: Vec<T>)
    ensures
        memory@ == Seq::new(len as nat, |i: int| T::spec_zeroed()),
{
    let mut memory: Vec<T> = Vec::with_capacity(len);
    let mut filled: usize = 0;
    while filled < len
        invariant
            filled <= len,
            memory@ == Seq::new(filled as nat, |i: int| T::spec_zeroed()),
        decreases len - filled,
    {
        memory.push(T::zeroed());
        filled += 1;
    }
    memory
}

} // verus!
