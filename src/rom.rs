//! A program image as read from storage.
use vstd::prelude::*;

verus! {

/// Size of the program region, from the program start to the end of memory.
pub const ROM_SIZE: usize = 3584;

/// A program image: a buffer the size of the program region, of which the
/// first `size` bytes are the program.
pub struct Rom {
    /// The image buffer.
    pub memory: [u8; ROM_SIZE],
    /// How many bytes of the buffer hold the program.
    pub size: usize,
}

impl Rom {
    /// The program bytes: the first `size` bytes of the buffer, or all of it
    /// where `size` exceeds the buffer.
    pub open spec fn bytes(&self) -> Seq<u8> {
        if self.size < ROM_SIZE {
            self.memory@.subrange(0, self.size as int)
        } else {
            self.memory@
        }
    }

    /// An image holding `bytes`, truncated to the program region.
    pub fn from_bytes(bytes: &[u8]) -> (rom: Rom)
        ensures
            rom.size == if bytes@.len() < ROM_SIZE { bytes@.len() } else { ROM_SIZE as nat },
            rom.bytes() == bytes@.subrange(0, rom.size as int),
    {
        let mut memory = [0u8; ROM_SIZE];
        let size: usize = if bytes.len() < ROM_SIZE { bytes.len() } else { ROM_SIZE };
        let mut i: usize = 0;
        while i < size
            invariant
                i <= size,
                size <= ROM_SIZE,
                size <= bytes@.len(),
                memory@.subrange(0, i as int) == bytes@.subrange(0, i as int),
            decreases size - i,
        {
            memory[i] = bytes[i];
            i += 1;
            assert(memory@.subrange(0, i as int) =~= bytes@.subrange(0, i as int));
        }
        let rom = Rom { memory, size };
        assert(rom.bytes() =~= bytes@.subrange(0, size as int));
        rom
    }
}

} // verus!
