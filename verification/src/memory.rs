//! The 16-bit address space: 16 KiB of backing store and its mirror.

use vstd::prelude::*;

verus! {

/// Bytes of physical backing store (`0x0000..=0x3FFF`).
pub const MEMORY_SIZE: usize = 0x4000;

/// Highest address of the ROM region.
pub const ROM_END: u16 = 0x1FFF;

/// Bytes of ROM.
pub const ROM_SIZE: usize = 0x2000;

/// First address of video RAM.
pub const VRAM_START: u16 = 0x2400;

/// Last address of video RAM, which is also the last physical address.
pub const VRAM_END: u16 = 0x3FFF;

/// The mirror rule: the effective index of a bus address. An address
/// below `0x4000` is its own index; from `0x4000` upward the index is the
/// address less `0x2000`, taken off once.
pub open spec fn mirror(address: int) -> int {
    if address >= 0x4000 {
        address - 0x2000
    } else {
        address
    }
}

/// Where a read or a write of `address` comes to rest in the store. Below
/// `0x4000` that is the address itself. From `0x4000` upward the bus
/// shows what it shows at the effective index, so the mirror rule is
/// followed until the index lies within the store.
pub open spec fn fold(address: int) -> int
    decreases address,
{
    if address >= 0x4000 {
        fold(mirror(address))
    } else {
        address
    }
}

/// The byte that the bus shows at `address`.
pub open spec fn bus_read(mem: Seq<u8>, address: int) -> u8 {
    mem[fold(address)]
}

/// The store after a normal-path write: a write aimed at ROM is discarded,
/// any other comes to rest where a read of the address does.
pub open spec fn bus_write(mem: Seq<u8>, address: int, value: u8) -> Seq<u8> {
    if address <= ROM_END {
        mem
    } else {
        mem.update(fold(address), value)
    }
}

/// The store after a list of normal-path writes, applied first to last.
pub open spec fn bus_write_all(mem: Seq<u8>, writes: Seq<(u16, u8)>) -> Seq<u8>
    decreases writes.len(),
{
    if writes.len() == 0 {
        mem
    } else {
        bus_write(
            bus_write_all(mem, writes.drop_last()),
            writes.last().0 as int,
            writes.last().1,
        )
    }
}

/// Where an access comes to rest has a closed form: everything from
/// `0x4000` upward lands in `0x2000..=0x3FFF`, at the same offset within
/// its 8 KiB block.
pub proof fn lemma_fold_closed_form(address: int)
    requires
        0 <= address,
    ensures
        address < 0x4000 ==> fold(address) == address,
        address >= 0x4000 ==> fold(address) == 0x2000 + address % 0x2000,
        0 <= fold(address) < MEMORY_SIZE,
        address > ROM_END ==> fold(address) > ROM_END,
    decreases address,
{
    if address >= 0x4000 {
        lemma_fold_closed_form(address - 0x2000);
    }
}

/// Where the effective index lies within the store, which is so for every
/// address below `0x6000`, an access comes to rest on it.
pub proof fn lemma_fold_first_mirror(address: int)
    requires
        0 <= address < 0x6000,
    ensures
        fold(address) == mirror(address),
{
    lemma_fold_closed_form(address);
}

/// An access of an address and an access of its effective index come to
/// rest in the same place.
pub proof fn lemma_fold_of_mirror(address: int)
    requires
        0 <= address,
    ensures
        fold(mirror(address)) == fold(address),
{
}

/// Every address from `0x4000` upward reads what the address `0x2000`
/// below it reads.
pub proof fn lemma_mirror_read(mem: Seq<u8>, address: int)
    requires
        0x4000 <= address <= 0xFFFF,
    ensures
        bus_read(mem, address) == bus_read(mem, address - 0x2000),
{
}

/// A normal-path write keeps the size of the store and every ROM byte.
pub proof fn lemma_write_keeps_rom(mem: Seq<u8>, address: int, value: u8)
    requires
        mem.len() == MEMORY_SIZE,
        0 <= address,
    ensures
        bus_write(mem, address, value).len() == MEMORY_SIZE,
        forall|a: int| 0 <= a <= ROM_END ==> #[trigger] bus_write(mem, address, value)[a] == mem[a],
{
    lemma_fold_closed_form(address);
}

/// No sequence of normal-path writes changes what any ROM address reads.
pub proof fn lemma_rom_is_read_only(mem: Seq<u8>, writes: Seq<(u16, u8)>, address: int)
    requires
        mem.len() == MEMORY_SIZE,
        0 <= address <= ROM_END,
    ensures
        bus_write_all(mem, writes).len() == MEMORY_SIZE,
        bus_read(bus_write_all(mem, writes), address) == bus_read(mem, address),
    decreases writes.len(),
{
    if writes.len() > 0 {
        lemma_rom_is_read_only(mem, writes.drop_last(), address);
        lemma_write_keeps_rom(
            bus_write_all(mem, writes.drop_last()),
            writes.last().0 as int,
            writes.last().1,
        );
    }
}

/// The effective index of a bus address by the mirror rule: one
/// subtraction of `0x2000` from `0x4000` upward, never a wrap.
pub fn mirror_address(address: u16) -> (index: u16)
    ensures
        address < 0x4000 ==> index == address,
        address >= 0x4000 ==> index == address - 0x2000,
        index == mirror(address as int),
        index <= 0xDFFF,
{
    match address {
        0x0000..=0x3FFF => address,
        _ => address - 0x2000,
    }
}

/// Where an access of `address` comes to rest: the mirror rule, followed
/// until the index lies within the store.
fn resting_index(address: u16) -> (index: usize)
    ensures
        index == fold(address as int),
        index < MEMORY_SIZE,
{
    let mut index = mirror_address(address);
    while index >= 0x4000
        invariant
            fold(index as int) == fold(address as int),
        decreases index,
    {
        index = mirror_address(index);
    }
    index as usize
}

pub struct Memory {
    memory: Vec<u8>,
}

impl View for Memory {
    type V = Seq<u8>;

    closed spec fn view(&self) -> Seq<u8> {
        self.memory@
    }
}

impl Memory {
    /// The store holds exactly `MEMORY_SIZE` bytes.
    pub open spec fn wf(&self) -> bool {
        self@.len() == MEMORY_SIZE
    }

    /// A store of `MEMORY_SIZE` zero bytes.
    pub fn new() -> (m: Memory)
        ensures
            m.wf(),
            forall|i: int| 0 <= i < MEMORY_SIZE ==> m@[i] == 0,
    {
        let mut memory: Vec<u8> = Vec::new();
        let mut i: usize = 0;
        while i < MEMORY_SIZE
            invariant
                i <= MEMORY_SIZE,
                memory@.len() == i,
                forall|j: int| 0 <= j < i ==> memory@[j] == 0,
            decreases MEMORY_SIZE - i,
        {
            memory.push(0u8);
            i = i + 1;
        }
        Memory { memory }
    }

    /// The byte that the bus shows at `address`.
    pub fn read_byte(&self, address: u16) -> (value: u8)
        requires
            self.wf(),
        ensures
            value == bus_read(self@, address as int),
    {
        let index = resting_index(address);
        self.memory[index]
    }

    /// The bytes at the physical addresses `start_address..=end_address`.
    pub fn read_byte_chunk(&self, start_address: u16, end_address: u16) -> (chunk: &[u8])
        requires
            self.wf(),
            start_address <= end_address + 1,
            end_address < MEMORY_SIZE,
        ensures
            chunk@ == self@.subrange(start_address as int, end_address + 1),
    {
        vstd::slice::slice_subrange(
            self.memory.as_slice(),
            start_address as usize,
            end_address as usize + 1,
        )
    }

    /// The loader's write path: a raw store at a physical address, ROM
    /// included.
    pub fn rom_write_byte(&mut self, address: u16, value: u8)
        requires
            old(self).wf(),
            address < MEMORY_SIZE,
        ensures
            final(self).wf(),
            final(self)@ == old(self)@.update(address as int, value),
    {
        self.memory.set(address as usize, value);
    }

    /// The CPU's write path: discarded when aimed at ROM, otherwise stored
    /// where a read of the address comes to rest.
    pub fn write_byte(&mut self, address: u16, value: u8)
        requires
            old(self).wf(),
        ensures
            final(self).wf(),
            final(self)@ == bus_write(old(self)@, address as int, value),
    {
        let index = resting_index(address);
        if address > ROM_END {
            self.memory.set(index, value);
        }
    }
}

} // verus!
