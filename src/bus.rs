use vstd::prelude::*;

verus! {

/// Size of work RAM; the RAM window repeats it four times.
pub const RAM_SIZE: usize = 0x800;
/// Size of the program-ROM window.
pub const ROM_SIZE: usize = 0x8000;
/// First address of the program-ROM window.
pub const ROM_START: u16 = 0x8000;

/// Contents of the bus's byte stores.
pub struct BusView {
    pub ram: Seq<u8>,
    pub ppu_registers: Seq<u8>,
    pub rom: Seq<u8>,
}

impl BusView {
    /// The stores have their fixed sizes.
    pub open spec fn wf(self) -> bool {
        &&& self.ram.len() == RAM_SIZE
        &&& self.ppu_registers.len() == 8
        &&& self.rom.len() == ROM_SIZE
    }
}

/// Work RAM answers at `0x0000..=0x1FFF`.
pub open spec fn in_ram(addr: u16) -> bool {
    addr <= 0x1FFF
}

/// The picture unit's eight registers answer at `0x2000..=0x3FFF`.
pub open spec fn in_ppu_registers(addr: u16) -> bool {
    0x2000 <= addr <= 0x3FFF
}

/// Program ROM answers at `0x8000..=0xFFFF`.
pub open spec fn in_rom(addr: u16) -> bool {
    addr >= ROM_START
}

/// The byte that a read of `addr` returns. Addresses outside the three
/// windows read as 0.
#[verifier::opaque]
pub open spec fn bus_read(b: BusView, addr: u16) -> u8 {
    if in_ram(addr) {
        b.ram[addr as int % RAM_SIZE as int]
    } else if in_ppu_registers(addr) {
        b.ppu_registers[addr as int % 8]
    } else if in_rom(addr) {
        b.rom[addr as int - ROM_START as int]
    } else {
        0
    }
}

/// The stores after `value` is written at `addr`. Writes outside the three
/// windows are discarded. Program ROM takes writes like RAM does.
#[verifier::opaque]
pub open spec fn bus_write(b: BusView, addr: u16, value: u8) -> BusView {
    if in_ram(addr) {
        BusView { ram: b.ram.update(addr as int % RAM_SIZE as int, value), ..b }
    } else if in_ppu_registers(addr) {
        BusView { ppu_registers: b.ppu_registers.update(addr as int % 8, value), ..b }
    } else if in_rom(addr) {
        BusView { rom: b.rom.update(addr as int - ROM_START as int, value), ..b }
    } else {
        b
    }
}

/// An address outside the three windows reads as 0, whatever the stores hold.
pub proof fn lemma_unmapped_read(b: BusView, addr: u16)
    requires
        !in_ram(addr) && !in_ppu_registers(addr) && !in_rom(addr),
    ensures
        bus_read(b, addr) == 0,
{
    reveal(bus_read);
}

/// Work RAM is mirrored four times over `0x0000..=0x1FFF`: a byte written
/// at one RAM address reads back at every RAM address that agrees with it
/// in the low eleven bits.
pub proof fn lemma_ram_mirroring(b: BusView, addr: u16, value: u8, other: u16)
    requires
        b.wf(),
        in_ram(addr),
        in_ram(other),
        addr as int % 0x800 == other as int % 0x800,
    ensures
        bus_read(bus_write(b, addr, value), other) == value,
{
    reveal(bus_read);
    reveal(bus_write);
}

/// The memory bus: decodes a 16-bit address into work RAM, the picture
/// unit's register file, or program ROM.
pub struct Bus {
    cpu_vram: [u8; 2048],
    ppu_registers: [u8; 8],
    prg_rom: [u8; 0x8000],
}

impl View for Bus {
    type V = BusView;

    closed spec fn view(&self) -> BusView {
        BusView { ram: self.cpu_vram@, ppu_registers: self.ppu_registers@, rom: self.prg_rom@ }
    }
}

impl Bus {
    /// Every bus holds stores of the fixed sizes.
    pub proof fn lemma_well_formed(&self)
        ensures
            self@.wf(),
    {
    }

    pub fn new() -> (r: Bus)
        ensures
            r@.wf(),
            r@.ram == Seq::new(RAM_SIZE as nat, |i: int| 0u8),
            r@.ppu_registers == Seq::new(8, |i: int| 0u8),
            r@.rom == Seq::new(ROM_SIZE as nat, |i: int| 0u8),
    {
        let r = Bus { cpu_vram: [0; 2048], ppu_registers: [0; 8], prg_rom: [0; 0x8000] };
        assert(r@.ram =~= Seq::new(RAM_SIZE as nat, |i: int| 0u8));
        assert(r@.ppu_registers =~= Seq::new(8, |i: int| 0u8));
        assert(r@.rom =~= Seq::new(ROM_SIZE as nat, |i: int| 0u8));
        r
    }

    pub fn mem_read(&self, addr: u16) -> (r: u8)
        ensures
            r == bus_read(self@, addr),
    {
        reveal(bus_read);
        if addr <= 0x1FFF {
            let mirror_down_addr = addr & 0b00000111_11111111;
            assert(addr & 0x7FF == addr % 0x800) by (bit_vector);
            self.cpu_vram[mirror_down_addr as usize]
        } else if addr <= 0x3FFF {
            let mirror_down_addr = addr & 0b00100000_00000111;
            assert(addr & 0x2007 == 0x2000 + addr % 8) by (bit_vector)
                requires
                    0x2000 <= addr <= 0x3FFF,
            ;
            self.ppu_registers[(mirror_down_addr - 0x2000) as usize]
        } else if addr >= ROM_START {
            self.prg_rom[(addr - ROM_START) as usize]
        } else {
            0
        }
    }

    pub fn mem_write(&mut self, addr: u16, value: u8)
        ensures
            final(self)@ == bus_write(old(self)@, addr, value),
    {
        reveal(bus_write);
        if addr <= 0x1FFF {
            let mirror_down_addr = addr & 0b11111111111;
            assert(addr & 0x7FF == addr % 0x800) by (bit_vector);
            self.cpu_vram[mirror_down_addr as usize] = value;
        } else if addr <= 0x3FFF {
            let mirror_down_addr = addr & 0b00100000_00000111;
            assert(addr & 0x2007 == 0x2000 + addr % 8) by (bit_vector)
                requires
                    0x2000 <= addr <= 0x3FFF,
            ;
            self.ppu_registers[(mirror_down_addr - 0x2000) as usize] = value;
        } else if addr >= ROM_START {
            self.prg_rom[(addr - ROM_START) as usize] = value;
        }
    }
}

} // verus!
