use vstd::prelude::*;

use crate::fault::Fault;

verus! {

/// Capacity of memory in bytes (64 KiB).
pub const RAM_SIZE: usize = 65536;

/// Width of a memory access.
#[derive(Clone, Copy, Debug, PartialEq, Eq, Structural)]
pub enum MemoryAccessSize {
    Byte,
    HalfWord,
    Word,
    DoubleWord,
}

impl MemoryAccessSize {
    /// Number of bytes an access of this width covers.
    pub open spec fn bytes(self) -> nat {
        match self {
            MemoryAccessSize::Byte => 1,
            MemoryAccessSize::HalfWord => 2,
            MemoryAccessSize::Word => 4,
            MemoryAccessSize::DoubleWord => 8,
        }
    }

    /// Width in bits.
    pub fn size(&self) -> (r: u32)
        ensures
            r == 8 * self.bytes(),
    {
        match self {
            MemoryAccessSize::Byte => 8,
            MemoryAccessSize::HalfWord => 16,
            MemoryAccessSize::Word => 32,
            MemoryAccessSize::DoubleWord => 64,
        }
    }

    /// Width in bytes.
    pub fn byte_size(&self) -> (r: u32)
        ensures
            r == self.bytes(),
    {
        match self {
            MemoryAccessSize::Byte => 1,
            MemoryAccessSize::HalfWord => 2,
            MemoryAccessSize::Word => 4,
            MemoryAccessSize::DoubleWord => 8,
        }
    }
}

/// Whether `[addr, addr + len)` lies inside memory.
pub open spec fn in_bounds(addr: int, len: int) -> bool {
    0 <= addr && 0 <= len && addr + len <= RAM_SIZE
}

/// `mem` with the bytes from `addr` on replaced by `bytes`.
pub open spec fn spliced(mem: Seq<u8>, addr: int, bytes: Seq<u8>) -> Seq<u8> {
    mem.take(addr) + bytes + mem.skip(addr + bytes.len())
}

/// The low `width` bytes of `v`, least significant first.
pub open spec fn le_bytes(v: u32, width: nat) -> Seq<u8> {
    Seq::new(width, |i: int| ((v >> (8 * i) as u32) & 0xff) as u8)
}

/// The little-endian value of one, two or four bytes.
pub open spec fn le_value(b: Seq<u8>) -> u32 {
    if b.len() == 1 {
        b[0] as u32
    } else if b.len() == 2 {
        b[0] as u32 | (b[1] as u32) << 8u32
    } else {
        b[0] as u32 | (b[1] as u32) << 8u32 | (b[2] as u32) << 16u32 | (b[3] as u32) << 24u32
    }
}

/// A flat, byte-addressed memory of fixed capacity.
#[derive(Debug)]
pub struct RAM {
    pub data: Vec<u8>,
}

impl View for RAM {
    type V = Seq<u8>;

    open spec fn view(&self) -> Seq<u8> {
        self.data@
    }
}

impl Default for RAM {
    /// Zero-filled memory, as [`RAM::new`].
    fn default() -> (r: Self)
        ensures
            r.wf(),
            forall|i: int| 0 <= i < RAM_SIZE ==> #[trigger] r@[i] == 0,
    {
        RAM::new()
    }
}

impl RAM {
    /// The backing store has exactly the configured capacity.
    pub open spec fn wf(&self) -> bool {
        self.data@.len() == RAM_SIZE
    }

    /// Zero-filled memory.
    pub fn new() -> (r: Self)
        ensures
            r.wf(),
            forall|i: int| 0 <= i < RAM_SIZE ==> #[trigger] r@[i] == 0,
    {
        RAM { data: vec![0u8; RAM_SIZE] }
    }

    /// Copies `data` to `addr..addr + data.len()`; nothing is written when the
    /// range does not fit.
    pub fn write_bytes(&mut self, addr: usize, data: &[u8]) -> (r: Result<(), Fault>)
        requires
            old(self).wf(),
        ensures
            final(self).wf(),
            in_bounds(addr as int, data@.len() as int) ==> r is Ok && final(self)@ == spliced(
                old(self)@,
                addr as int,
                data@,
            ),
            !in_bounds(addr as int, data@.len() as int) ==> r == Err::<(), Fault>(
                Fault::OutOfBounds,
            ) && final(self)@ == old(self)@,
    {
        if addr > RAM_SIZE || data.len() > RAM_SIZE - addr {
            return Err(Fault::OutOfBounds);
        }
        let ghost before = self.data@;
        let mut i: usize = 0;
        while i < data.len()
            invariant
                addr + data@.len() <= RAM_SIZE,
                i <= data@.len(),
                self.data@.len() == RAM_SIZE,
                forall|j: int|
                    0 <= j < RAM_SIZE ==> #[trigger] self.data@[j] == if addr <= j < addr + i {
                        data@[j - addr]
                    } else {
                        before[j]
                    },
            decreases data@.len() - i,
        {
            self.data.set(addr + i, data[i]);
            i += 1;
        }
        assert(self.data@ =~= spliced(before, addr as int, data@));
        Ok(())
    }

    /// Reads one, two or four bytes at `addr` as a little-endian value.
    pub fn read_value(&self, addr: usize, width: usize) -> (r: Result<u32, Fault>)
        requires
            self.wf(),
            width == 1 || width == 2 || width == 4,
        ensures
            in_bounds(addr as int, width as int) ==> r == Ok::<u32, Fault>(
                le_value(self@.subrange(addr as int, addr + width)),
            ),
            !in_bounds(addr as int, width as int) ==> r == Err::<u32, Fault>(Fault::OutOfBounds),
    {
        if addr > RAM_SIZE || width > RAM_SIZE - addr {
            return Err(Fault::OutOfBounds);
        }
        let b0 = self.data[addr] as u32;
        if width == 1 {
            return Ok(b0);
        }
        let b1 = self.data[addr + 1] as u32;
        if width == 2 {
            return Ok(b0 | b1 << 8u32);
        }
        let b2 = self.data[addr + 2] as u32;
        let b3 = self.data[addr + 3] as u32;
        Ok(b0 | b1 << 8u32 | b2 << 16u32 | b3 << 24u32)
    }

    /// Writes the low one, two or four bytes of `value` at `addr`, least
    /// significant first.
    pub fn write_value(&mut self, addr: usize, value: u32, width: usize) -> (r: Result<(), Fault>)
        requires
            old(self).wf(),
            width == 1 || width == 2 || width == 4,
        ensures
            final(self).wf(),
            in_bounds(addr as int, width as int) ==> r is Ok && final(self)@ == spliced(
                old(self)@,
                addr as int,
                le_bytes(value, width as nat),
            ),
            !in_bounds(addr as int, width as int) ==> r == Err::<(), Fault>(Fault::OutOfBounds)
                && final(self)@ == old(self)@,
    {
        let mut bytes: Vec<u8> = Vec::new();
        let mut i: usize = 0;
        while i < width
            invariant
                i <= width <= 4,
                bytes@ == le_bytes(value, i as nat),
            decreases width - i,
        {
            let b = ((value >> (8 * i) as u32) & 0xff) as u8;
            bytes.push(b);
            assert(bytes@ =~= le_bytes(value, (i + 1) as nat));
            i += 1;
        }
        self.write_bytes(addr, bytes.as_slice())
    }

    /// Writes a 32-bit word at `addr`, little-endian.
    pub fn write_word(&mut self, addr: usize, value: u32) -> (r: Result<(), Fault>)
        requires
            old(self).wf(),
        ensures
            final(self).wf(),
            in_bounds(addr as int, 4) ==> r is Ok && final(self)@ == spliced(
                old(self)@,
                addr as int,
                le_bytes(value, 4),
            ),
            !in_bounds(addr as int, 4) ==> r == Err::<(), Fault>(Fault::OutOfBounds)
                && final(self)@ == old(self)@,
    {
        self.write_value(addr, value, 4)
    }

    /// Reads a 32-bit word at `addr`, little-endian.
    pub fn read_word(&self, addr: usize) -> (r: Result<u32, Fault>)
        requires
            self.wf(),
        ensures
            in_bounds(addr as int, 4) ==> r == Ok::<u32, Fault>(
                le_value(self@.subrange(addr as int, addr + 4)),
            ),
            !in_bounds(addr as int, 4) ==> r == Err::<u32, Fault>(Fault::OutOfBounds),
    {
        self.read_value(addr, 4)
    }
}

} // verus!
