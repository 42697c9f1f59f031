//! The memory bus: a flat store of bytes under sixteen-bit addresses.
//!
//! The store holds `MEM_SIZE` bytes, one short of the sixty-four kibibytes
//! that a sixteen-bit address can reach: the addresses 0x0000 to 0xFFFE are
//! backed, and 0xFFFF is out of bounds. An access there is a fault, never a
//! wrap to another cell. `read_byte` and `write_byte` rule the fault out by
//! their preconditions; `try_read_byte` and `try_write_byte` report it.

use vstd::prelude::*;

verus! {

/// The number of bytes in the store.
pub const MEM_SIZE: usize = 0xFFFF;

/// A store of `MEM_SIZE` bytes. Its view is the sequence of the bytes, the
/// one at address 0 first.
pub struct MemoryBus {
    pub memory: [u8; MEM_SIZE],
}

impl View for MemoryBus {
    type V = Seq<u8>;

    open spec fn view(&self) -> Seq<u8> {
        self.memory@
    }
}

/// Whether the store backs `address`.
pub open spec fn in_bounds(address: int) -> bool {
    0 <= address < MEM_SIZE
}

impl MemoryBus {
    /// A store of zero bytes.
    pub fn new() -> (bus: MemoryBus)
        ensures
            bus@ == Seq::new(MEM_SIZE as nat, |i: int| 0u8),
    {
        MemoryBus { memory: [0;MEM_SIZE] }
    }

    /// The store always holds `MEM_SIZE` bytes.
    pub proof fn lemma_len(self)
        ensures
            self@.len() == MEM_SIZE,
    {
    }

    /// Whether the store backs `address`.
    pub fn contains(address: u16) -> (backed: bool)
        ensures
            backed == in_bounds(address as int),
    {
        (address as usize) < MEM_SIZE
    }

    /// Reads the byte at `address`, which the store must back.
    pub fn read_byte(&self, address: u16) -> (byte: u8)
        requires
            in_bounds(address as int),
        ensures
            byte == self@[address as int],
    {
        self.memory[address as usize]
    }

    /// Writes `byte` at `address`, which the store must back. No other cell
    /// changes.
    pub fn write_byte(&mut self, address: u16, byte: u8)
        requires
            in_bounds(address as int),
        ensures
            final(self)@ == old(self)@.update(address as int, byte),
    {
        self.memory[address as usize] = byte;
    }

    /// Reads the byte at `address`, or returns `None` where the store does
    /// not back the address.
    pub fn try_read_byte(&self, address: u16) -> (byte: Option<u8>)
        ensures
            in_bounds(address as int) ==> byte == Some(self@[address as int]),
            !in_bounds(address as int) ==> byte is None,
    {
        if MemoryBus::contains(address) {
            Some(self.read_byte(address))
        } else {
            None
        }
    }

    /// Writes `byte` at `address` and returns `true`, or changes nothing and
    /// returns `false` where the store does not back the address.
    pub fn try_write_byte(&mut self, address: u16, byte: u8) -> (written: bool)
        ensures
            written == in_bounds(address as int),
            written ==> final(self)@ == old(self)@.update(address as int, byte),
            !written ==> final(self)@ == old(self)@,
    {
        if MemoryBus::contains(address) {
            self.write_byte(address, byte);
            true
        } else {
            false
        }
    }
}

} // verus!
