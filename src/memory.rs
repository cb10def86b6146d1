use vstd::prelude::*;

verus! {

/// Number of addressable bytes: the whole 16-bit address space.
pub const MEMORY_SIZE: usize = 0x10000;

/// Address of the low byte of the reset vector.
pub const RESET_VECTOR: u16 = 0xFFFC;

/// Address at which `load` places a program.
pub const PROGRAM_BASE: u16 = 0x8000;

/// The address that follows `addr`, wrapping from 0xFFFF to 0x0000.
pub open spec fn next_addr(addr: u16) -> u16 {
    ((addr as int + 1) % 0x10000) as u16
}

/// The 16-bit value whose little-endian bytes are `lo`, `hi`.
pub open spec fn le_word(lo: u8, hi: u8) -> u16 {
    (hi as int * 256 + lo as int) as u16
}

/// `bytes` copied over `mem` starting at index `base`.
pub open spec fn copy_in(mem: Seq<u8>, bytes: Seq<u8>, base: int) -> Seq<u8> {
    Seq::new(
        mem.len(),
        |i: int|
            if base <= i < base + bytes.len() {
                bytes[i - base]
            } else {
                mem[i]
            },
    )
}

/// `mem` with the 16-bit `value` stored little-endian at `addr`.
pub open spec fn store_word(mem: Seq<u8>, addr: u16, value: u16) -> Seq<u8> {
    mem.update(addr as int, (value % 256) as u8).update(next_addr(addr) as int, (value / 256) as u8)
}

/// What `load_at` makes of the memory image `mem`: the program copied in at
/// `base`, then `base` written into the reset vector.
pub open spec fn loaded_image(mem: Seq<u8>, program: Seq<u8>, base: u16) -> Seq<u8> {
    store_word(copy_in(mem, program, base as int), RESET_VECTOR, base)
}

/// A flat, byte-addressable 64 KiB memory.
pub struct Memory {
    memory: Vec<u8>,
}

impl View for Memory {
    type V = Seq<u8>;

    closed spec fn view(&self) -> Seq<u8> {
        self.memory@
    }
}

impl Memory {
    /// Every 16-bit address names a byte.
    pub open spec fn wf(&self) -> bool {
        self@.len() == MEMORY_SIZE
    }

    /// The byte stored at `addr`.
    pub open spec fn byte(&self, addr: u16) -> u8 {
        self@[addr as int]
    }

    /// The little-endian word whose low byte is at `addr` and whose high byte
    /// is at the next address, wrapping at the top of memory.
    pub open spec fn word(&self, addr: u16) -> u16 {
        le_word(self.byte(addr), self.byte(next_addr(addr)))
    }

    /// A memory whose every byte is zero.
    pub fn new() -> (m: Memory)
        ensures
            m.wf(),
            forall|i: int| 0 <= i < MEMORY_SIZE ==> #[trigger] m@[i] == 0,
    {
        let memory: Vec<u8> = vec![0u8; MEMORY_SIZE];
        Memory { memory }
    }

    pub fn read(&self, addr: u16) -> (r: u8)
        requires
            self.wf(),
        ensures
            r == self.byte(addr),
    {
        self.memory[addr as usize]
    }

    pub fn write(&mut self, addr: u16, data: u8)
        requires
            old(self).wf(),
        ensures
            final(self)@ == old(self)@.update(addr as int, data),
            final(self).wf(),
    {
        self.memory.set(addr as usize, data);
    }

    pub fn read_u16(&self, pos: u16) -> (r: u16)
        requires
            self.wf(),
        ensures
            r == self.word(pos),
    {
        let lo = self.read(pos);
        let hi = self.read(pos.wrapping_add(1));
        hi as u16 * 256 + lo as u16
    }

    pub fn write_u16(&mut self, pos: u16, data: u16)
        requires
            old(self).wf(),
        ensures
            final(self)@ == store_word(old(self)@, pos, data),
            final(self).wf(),
    {
        let hi = (data / 256) as u8;
        let lo = (data % 256) as u8;
        self.write(pos, lo);
        self.write(pos.wrapping_add(1), hi);
    }

    /// Copies `program` into memory starting at `base` and points the reset
    /// vector at `base`.
    pub fn load_at(&mut self, program: &Vec<u8>, base: u16)
        requires
            old(self).wf(),
            base as int + program@.len() <= MEMORY_SIZE,
        ensures
            final(self).wf(),
            final(self)@ == loaded_image(old(self)@, program@, base),
    {
        let n = program.len();
        let mut i: usize = 0;
        while i < n
            invariant
                self.wf(),
                n == program@.len(),
                base as int + n <= MEMORY_SIZE,
                0 <= i <= n,
                self@ == copy_in(old(self)@, program@.subrange(0, i as int), base as int),
            decreases n - i,
        {
            let addr: u16 = (base as usize + i) as u16;
            self.write(addr, program[i]);
            i = i + 1;
            assert(self@ =~= copy_in(old(self)@, program@.subrange(0, i as int), base as int));
        }
        assert(program@.subrange(0, n as int) =~= program@);
        self.write_u16(RESET_VECTOR, base);
    }

    /// Copies `program` into memory at `PROGRAM_BASE` and points the reset
    /// vector there.
    pub fn load(&mut self, program: Vec<u8>)
        requires
            old(self).wf(),
            program@.len() <= MEMORY_SIZE - PROGRAM_BASE,
        ensures
            final(self).wf(),
            final(self)@ == loaded_image(old(self)@, program@, PROGRAM_BASE),
    {
        self.load_at(&program, PROGRAM_BASE);
    }
}

impl Default for Memory {
    fn default() -> (m: Memory)
        ensures
            m.wf(),
            forall|i: int| 0 <= i < MEMORY_SIZE ==> #[trigger] m@[i] == 0,
    {
        Memory::new()
    }
}

} // verus!
