use vstd::prelude::*;

verus! {

/// The number of addressable bytes: the full 16-bit address space.
pub const MAX_MEMORY: usize = 0x10000;

/// Byte-addressable memory of `N` cells, owned by the caller and lent to the
/// processor for each step.
pub trait Memory<const N: usize> {
    /// The bytes held, cell `i` at index `i`.
    spec fn cells(&self) -> Seq<u8>;

    /// Fill every cell with zero.
    fn reset(&mut self)
        ensures
            final(self).cells() == Seq::new(N as nat, |_i: int| 0u8),
    ;

    /// Store `value` at `address`.
    fn write(&mut self, address: u16, value: u8)
        requires
            (address as int) < old(self).cells().len(),
        ensures
            final(self).cells() == old(self).cells().update(address as int, value),
    ;

    /// The byte at `address`.
    fn read(&self, address: u16) -> (r: u8)
        requires
            (address as int) < self.cells().len(),
        ensures
            r == self.cells()[address as int],
    ;
}

/// A plain 64 KiB memory.
pub struct BasicMemory {
    data: Vec<u8>,
}

impl BasicMemory {
    /// A memory whose cells are all zero.
    pub fn new() -> (r: BasicMemory)
        ensures
            r.cells() == Seq::new(MAX_MEMORY as nat, |_i: int| 0u8),
    {
        let data = vec![0u8; MAX_MEMORY];
        assert(data@ =~= Seq::new(MAX_MEMORY as nat, |_i: int| 0u8));
        BasicMemory { data }
    }
}

impl Default for BasicMemory {
    fn default() -> (r: BasicMemory)
        ensures
            r.cells() == Seq::new(MAX_MEMORY as nat, |_i: int| 0u8),
    {
        BasicMemory::new()
    }
}

impl Memory<MAX_MEMORY> for BasicMemory {
    closed spec fn cells(&self) -> Seq<u8> {
        self.data@
    }

    fn reset(&mut self) {
        *self = BasicMemory::new();
    }

    fn write(&mut self, address: u16, value: u8) {
        self.data.set(address as usize, value);
    }

    fn read(&self, address: u16) -> (r: u8) {
        self.data[address as usize]
    }
}

} // verus!
