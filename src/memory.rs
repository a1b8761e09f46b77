use vstd::prelude::*;

verus! {

/// Size of the address space in bytes.
pub const MEMORY_SIZE: usize = 0x10000;

/// Where an address is stored: addresses of the echo region
/// [0xE000, 0xFDFF) stand for the bytes 0x2000 lower.
pub open spec fn echo_target(addr: int) -> int {
    if 0xE000 <= addr < 0xFDFF {
        addr - 0x2000
    } else {
        addr
    }
}

/// The byte that a read of `addr` returns.
pub open spec fn mem_read(m: Seq<u8>, addr: int) -> u8 {
    m[echo_target(addr)]
}

/// The memory after writing `v` at `addr`.
pub open spec fn mem_write(m: Seq<u8>, addr: int, v: u8) -> Seq<u8> {
    m.update(echo_target(addr), v)
}

/// Memory after copying the bytes [start, end) of a cartridge image to the
/// same addresses.
pub open spec fn with_bank(m: Seq<u8>, rom: Seq<u8>, start: int, end: int) -> Seq<u8> {
    Seq::new(m.len(), |i: int| if start <= i < end { rom[i] } else { m[i] })
}

/// A write to an echo address is read back at the address it mirrors, and a
/// write to a mirrored address is read back through the echo.
pub proof fn lemma_echo_round_trip(m: Seq<u8>, addr: int, v: u8)
    requires
        m.len() == MEMORY_SIZE,
        0xC000 <= addr < 0xDDFF,
    ensures
        mem_read(mem_write(m, addr + 0x2000, v), addr) == v,
        mem_read(mem_write(m, addr, v), addr + 0x2000) == v,
{
}

pub struct Memory {
    pub addresses: Vec<u8>,
}

impl View for Memory {
    type V = Seq<u8>;

    open spec fn view(&self) -> Seq<u8> {
        self.addresses@
    }
}

impl Memory {
    /// The byte array spans the whole 16-bit address space.
    pub open spec fn wf(&self) -> bool {
        self.addresses@.len() == MEMORY_SIZE
    }

    /// Copies bytes [0x0000, 0x3FFF] of the cartridge image to the same
    /// addresses.
    pub fn load_rom_data_into_bank_00(&mut self, romdata: &Vec<u8>)
        requires
            old(self).wf(),
            romdata@.len() >= 0x4000,
        ensures
            final(self).wf(),
            final(self)@ == with_bank(old(self)@, romdata@, 0x0000, 0x4000),
    {
        self.copy_range(romdata, 0x0000, 0x4000);
    }

    /// Copies bytes [0x4000, 0x7FFF] of the cartridge image to the same
    /// addresses. Only images that declare the cartridge type "ROM only"
    /// (byte 0x0147 is 0x00) can be loaded.
    pub fn load_rom_data_into_bank_01(&mut self, romdata: &Vec<u8>)
        requires
            old(self).wf(),
            romdata@.len() >= 0x8000,
            romdata@[0x0147] == 0x00,
        ensures
            final(self).wf(),
            final(self)@ == with_bank(old(self)@, romdata@, 0x4000, 0x8000),
    {
        self.copy_range(romdata, 0x4000, 0x8000);
    }

    fn copy_range(&mut self, romdata: &Vec<u8>, start: usize, end: usize)
        requires
            old(self).wf(),
            start <= end <= romdata@.len(),
            end <= MEMORY_SIZE,
        ensures
            final(self).wf(),
            final(self)@ == with_bank(old(self)@, romdata@, start as int, end as int),
    {
        let mut i: usize = start;
        while i < end
            invariant
                start <= i <= end,
                end <= romdata@.len(),
                end <= MEMORY_SIZE,
                self.wf(),
                old(self).wf(),
                forall|j: int|
                    0 <= j < MEMORY_SIZE ==> #[trigger] self@[j] == if start <= j < i {
                        romdata@[j]
                    } else {
                        old(self)@[j]
                    },
            decreases end - i,
        {
            let ghost before = self@;
            self.addresses.set(i, romdata[i]);
            assert(forall|j: int| 0 <= j < MEMORY_SIZE && j != i ==> self@[j] == before[j]);
            i = i + 1;
        }
        assert(self@ =~= with_bank(old(self)@, romdata@, start as int, end as int));
    }
}

/// A zeroed byte array that spans the address space.
pub fn initialize_memory() -> (r: Vec<u8>)
    ensures
        r@.len() == MEMORY_SIZE,
        forall|i: int| 0 <= i < MEMORY_SIZE ==> r@[i] == 0,
{
    vec![0; MEMORY_SIZE]
}

impl Default for Memory {
    fn default() -> (r: Memory)
        ensures
            r.wf(),
            forall|i: int| 0 <= i < MEMORY_SIZE ==> r@[i] == 0,
    {
        Memory { addresses: initialize_memory() }
    }
}

} // verus!
