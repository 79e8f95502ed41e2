//! The addressable memory that the processor reads and writes.

use vstd::prelude::*;

verus! {

/// A type that can be the word of a memory: it has a zero, with which a new
/// memory is filled.
pub trait WordSize: Copy {
    /// The zero of the word type.
    spec fn zero_word() -> Self;

    /// Returns the zero of the word type.
    fn zero() -> (word: Self)
        ensures
            word == Self::zero_word(),
    ;
}

impl WordSize for u8 {
    open spec fn zero_word() -> u8 {
        0
    }

    fn zero() -> (word: u8) {
        zero_u8()
    }
}

/// Calls `<u8 as num_traits::Zero>::zero`, the additive identity of `u8`,
/// which num-traits defines as the literal 0.
#[verifier::external_body]
fn zero_u8() -> (word: u8)
    ensures
        word == 0,
{
    <u8 as num_traits::Zero>::zero()
}

/// A memory of a fixed number of words, addressed from 0.
pub struct Ram<RamWordSize: WordSize> {
    arr: Vec<RamWordSize>,
}

impl<RamWordSize: WordSize> View for Ram<RamWordSize> {
    type V = Seq<RamWordSize>;

    closed spec fn view(&self) -> Seq<RamWordSize> {
        self.arr@
    }
}

impl<RamWordSize: WordSize> Ram<RamWordSize> {
    /// A memory of `addr_space` words, each zero.
    pub fn new(addr_space: usize) -> (r: Self)
        ensures
            r@.len() == addr_space,
            forall|addr: int| 0 <= addr < addr_space ==> r@[addr] == RamWordSize::zero_word(),
    {
        let zero = RamWordSize::zero();
        let mut arr: Vec<RamWordSize> = Vec::new();
        while arr.len() < addr_space
            invariant
                arr@.len() <= addr_space,
                zero == RamWordSize::zero_word(),
                forall|addr: int| 0 <= addr < arr@.len() ==> arr@[addr] == zero,
            decreases addr_space - arr@.len(),
        {
            arr.push(zero);
        }
        Ram { arr }
    }

    /// The number of words.
    pub fn len(&self) -> (n: usize)
        ensures
            n == self@.len(),
    {
        self.arr.len()
    }

    /// The word at `addr`.
    pub fn read(&self, addr: usize) -> (word: RamWordSize)
        requires
            addr < self@.len(),
        ensures
            word == self@[addr as int],
    {
        self.arr[addr]
    }

    /// Puts `data` at `addr`; every other word stays.
    pub fn write(&mut self, addr: usize, data: RamWordSize)
        requires
            addr < old(self)@.len(),
        ensures
            final(self)@ == old(self)@.update(addr as int, data),
    {
        self.arr[addr] = data;
    }
}

} // verus!
