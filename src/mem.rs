//! Byte-addressed memory with side-effecting reads, as the CPU sees it.
use vstd::prelude::*;

use crate::bits::{lemma_join_bytes, lemma_split_word, word};

verus! {

/// `addr + 1` within the 16-bit address space.
pub open spec fn next_addr(addr: u16) -> u16 {
    ((addr + 1) % 0x1_0000) as u16
}

/// A memory whose reads may change it (an I/O register that advances, a
/// status that clears).
pub trait Mem: Sized {
    /// Whether the memory is in a state that accesses keep.
    spec fn ready(&self) -> bool;

    /// What a read of `addr` returns.
    spec fn read_value(&self, addr: u16) -> u8;

    /// The memory after a read of `addr`.
    spec fn after_read(&self, addr: u16) -> Self;

    /// The memory after `data` was written to `addr`.
    spec fn after_write(&self, addr: u16, data: u8) -> Self;

    fn mem_read(&mut self, addr: u16) -> (r: u8)
        requires
            old(self).ready(),
        ensures
            r == old(self).read_value(addr),
            *final(self) == old(self).after_read(addr),
            final(self).ready(),
    ;

    fn mem_write(&mut self, addr: u16, data: u8)
        requires
            old(self).ready(),
        ensures
            *final(self) == old(self).after_write(addr, data),
            final(self).ready(),
    ;

    /// Reads a little-endian word: the low byte at `pos`, the high byte at
    /// the next address.
    fn mem_read_u16(&mut self, pos: u16) -> (r: u16)
        requires
            old(self).ready(),
        ensures
            r == word(old(self).after_read(pos).read_value(next_addr(pos)), old(self).read_value(pos)),
            *final(self) == old(self).after_read(pos).after_read(next_addr(pos)),
            final(self).ready(),
    {
        let lo = self.mem_read(pos);
        let hi = self.mem_read(pos.wrapping_add(1));
        proof {
            lemma_join_bytes(hi, lo);
        }
        (hi as u16) << 8 | (lo as u16)
    }

    /// Writes a little-endian word: the low byte at `pos`, the high byte at
    /// the next address.
    fn mem_write_u16(&mut self, pos: u16, data: u16)
        requires
            old(self).ready(),
        ensures
            *final(self) == old(self).after_write(pos, (data % 256) as u8).after_write(
                next_addr(pos),
                (data / 256) as u8,
            ),
            final(self).ready(),
    {
        proof {
            lemma_split_word(data);
        }
        let hi = (data >> 8) as u8;
        let lo = (data & 0xff) as u8;
        self.mem_write(pos, lo);
        self.mem_write(pos.wrapping_add(1), hi);
    }
}

} // verus!
