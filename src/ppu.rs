use crate::cartridge::Mirroring;
use vstd::prelude::*;

verus! {

/// Bit of the control register that selects the address step of the data port.
pub const VRAM_ADD_INCREMENT: u8 = 0b0000_0100;

/// Why the data port refused an access.
#[derive(Clone, Copy, Debug, PartialEq, Eq, Structural)]
pub enum PpuError {
    /// The latched address lies outside picture memory, or past the end of
    /// the graphics ROM.
    AddressOutOfRange(u16),
    /// The latched address lies in graphics ROM, which the port cannot write.
    ChrRomWrite(u16),
}

/// Index into name-table memory that a name-table address folds to.
/// `addr` is first folded from `0x3000..0x3EFF` down onto `0x2000..0x2EFF`.
/// Vertical mirroring pairs tables 0 with 2 and 1 with 3; horizontal pairs
/// 0 with 1 and 2 with 3.
pub open spec fn vram_index(m: Mirroring, addr: u16) -> int {
    let idx = (addr & 0x2FFF) as int - 0x2000;
    let table = idx / 0x400;
    match m {
        Mirroring::Vertical => if table >= 2 { idx - 0x800 } else { idx },
        Mirroring::Horizontal => if table == 0 {
            idx
        } else if table == 3 {
            idx - 0x800
        } else {
            idx - 0x400
        },
    }
}

/// Index into the palette table that a palette address writes to: entries
/// `0x3F10`, `0x3F14`, `0x3F18` and `0x3F1C` are mirrors of the four below them.
pub open spec fn palette_write_index(addr: u16) -> int {
    if addr == 0x3F10 || addr == 0x3F14 || addr == 0x3F18 || addr == 0x3F1C {
        ((addr - 0x10) as u16 & 0x1F) as int
    } else {
        (addr & 0x1F) as int
    }
}

/// Address step of the data port that a control byte selects.
pub open spec fn increment_step(ctrl: u8) -> u8 {
    if ctrl & VRAM_ADD_INCREMENT == 0 { 1 } else { 32 }
}

/// Abstract state of the two-write address latch.
pub struct AddrLatch {
    pub hi: u8,
    pub lo: u8,
    /// The next write lands in the high byte.
    pub expect_high: bool,
}

impl AddrLatch {
    /// The combined 16-bit address.
    pub open spec fn addr(self) -> int {
        self.hi as int * 256 + self.lo as int
    }
}

/// Two writes to the latch, from the state that expects the high byte, form
/// the address high byte first (kept within 14 bits) and leave the latch
/// expecting the high byte again.
pub proof fn lemma_two_writes_form_address(l: AddrLatch, hi: u8, lo: u8)
    requires
        l.expect_high,
    ensures
        latch_update(latch_update(l, hi), lo).addr() == (hi & 0x3F) as int * 256 + lo as int,
        latch_update(latch_update(l, hi), lo).expect_high,
        !latch_update(l, hi).expect_high,
{
    assert((hi & 0x3F) & 0x3F == hi & 0x3F) by (bit_vector);
}

/// The picture unit's address register: a 16-bit address written one byte
/// at a time, high byte first.
pub struct AddressRegister {
    value: (u8, u8),
    hi_ptr: bool,
}

impl View for AddressRegister {
    type V = AddrLatch;

    closed spec fn view(&self) -> AddrLatch {
        AddrLatch { hi: self.value.0, lo: self.value.1, expect_high: self.hi_ptr }
    }
}

/// The latch after one byte is written to it.
pub open spec fn latch_update(l: AddrLatch, data: u8) -> AddrLatch {
    let hi: u8 = if l.expect_high { data } else { l.hi };
    let lo: u8 = if l.expect_high { l.lo } else { data };
    AddrLatch { hi: (hi & 0x3F) as u8, lo, expect_high: !l.expect_high }
}

/// The latch after its address is advanced by `inc`, carrying from the low
/// byte into the high byte, each with 8-bit wraparound.
pub open spec fn latch_increment(l: AddrLatch, inc: u8) -> AddrLatch {
    let lo = (l.lo as int + inc as int) % 256;
    let hi = if l.lo as int + inc as int >= 256 { (l.hi as int + 1) % 256 } else { l.hi as int };
    AddrLatch { hi: hi as u8, lo: lo as u8, expect_high: l.expect_high }
}

impl AddressRegister {
    pub fn new() -> (r: AddressRegister)
        ensures
            r@ == (AddrLatch { hi: 0, lo: 0, expect_high: true }),
    {
        AddressRegister { value: (0, 0), hi_ptr: true }
    }

    pub fn set(&mut self, value: u16)
        ensures
            final(self)@.hi == (value >> 8) as u8,
            final(self)@.lo == (value & 0xFF) as u8,
            final(self)@.addr() == value as int,
            final(self)@.expect_high == old(self)@.expect_high,
    {
        self.value.0 = (value >> 8) as u8;
        self.value.1 = (value & 0xFF) as u8;
        assert(((value >> 8) as u8) as int * 256 + ((value & 0xFF) as u8) as int == value as int)
            by (bit_vector);
    }

    pub fn get(&self) -> (r: u16)
        ensures
            r as int == self@.addr(),
    {
        let hi = self.value.0;
        let lo = self.value.1;
        let r = (hi as u16) << 8 | lo as u16;
        assert(((hi as u16) << 8 | lo as u16) as int == hi as int * 256 + lo as int)
            by (bit_vector);
        r
    }

    pub fn increment(&mut self, inc: u8)
        ensures
            final(self)@ == latch_increment(old(self)@, inc),
    {
        let lo = self.value.1;
        self.value.1 = self.value.1.wrapping_add(inc);
        if lo > self.value.1 {
            self.value.0 = self.value.0.wrapping_add(1);
        }
    }

    /// Writes one byte of the address: the high byte when the latch expects
    /// it, else the low byte. The address is then kept within 14 bits and the
    /// latch turns to the other byte.
    pub fn update(&mut self, data: u8)
        ensures
            final(self)@ == latch_update(old(self)@, data),
            final(self)@.addr() <= 0x3FFF,
    {
        if self.hi_ptr {
            self.value.0 = data;
        } else {
            self.value.1 = data;
        }
        let hi = self.value.0;
        let lo = self.value.1;
        let cur = self.get();
        assert(cur == ((hi as u16) << 8 | lo as u16)) by (bit_vector)
            requires
                cur as int == hi as int * 256 + lo as int,
        ;
        if cur > 0x3FFF {
            self.set(cur & 0x3FFF);
            assert(((cur & 0x3FFF) >> 8) as u8 == hi & 0x3F && ((cur & 0x3FFF) & 0xFF) as u8 == lo)
                by (bit_vector)
                requires
                    cur == ((hi as u16) << 8 | lo as u16),
            ;
        } else {
            assert(hi & 0x3F == hi) by (bit_vector)
                requires
                    cur == ((hi as u16) << 8 | lo as u16),
                    cur <= 0x3FFF,
            ;
        }
        self.hi_ptr = !self.hi_ptr;
        assert(hi & 0x3F <= 0x3F) by (bit_vector);
    }

    pub fn reset_latch(&mut self)
        ensures
            final(self)@ == (AddrLatch { expect_high: true, ..old(self)@ }),
    {
        self.hi_ptr = true;
    }
}

/// The picture unit's control register. Every bit of the byte is a
/// recognised flag.
pub struct ControlRegister {
    bits: u8,
}

impl View for ControlRegister {
    type V = u8;

    closed spec fn view(&self) -> u8 {
        self.bits
    }
}

impl ControlRegister {
    pub fn new() -> (r: ControlRegister)
        ensures
            r@ == 0,
    {
        ControlRegister { bits: 0 }
    }

    /// Step by which the data port advances the address: 1, or 32 when the
    /// increment flag is set.
    pub fn vram_addr_increment(&self) -> (r: u8)
        ensures
            r == increment_step(self@),
            r == 1 || r == 32,
    {
        if self.bits & VRAM_ADD_INCREMENT == 0 {
            1
        } else {
            32
        }
    }

    pub fn update(&mut self, data: u8)
        ensures
            final(self)@ == data,
    {
        self.bits = data;
    }
}

/// Register interface of the picture unit.
pub struct PPU {
    pub chr_rom: Vec<u8>,
    pub pallete_table: [u8; 32],
    pub vram: [u8; 2048],
    pub oam: [u8; 256],
    pub mirroring: Mirroring,
    pub addr_reg: AddressRegister,
    pub control_reg: ControlRegister,
    /// The byte that the next buffered read of the data port returns.
    pub internal_data_buffer: u8,
}

impl PPU {
    pub fn new(chr_rom: Vec<u8>, mirroring: Mirroring) -> (r: PPU)
        ensures
            r.chr_rom@ == chr_rom@,
            r.mirroring == mirroring,
            r.pallete_table@ == Seq::new(32, |i: int| 0u8),
            r.vram@ == Seq::new(2048, |i: int| 0u8),
            r.oam@ == Seq::new(256, |i: int| 0u8),
            r.addr_reg@ == (AddrLatch { hi: 0, lo: 0, expect_high: true }),
            r.control_reg@ == 0,
            r.internal_data_buffer == 0,
    {
        let r = PPU {
            chr_rom,
            mirroring,
            pallete_table: [0; 32],
            vram: [0; 2048],
            oam: [0; 256],
            addr_reg: AddressRegister::new(),
            control_reg: ControlRegister::new(),
            internal_data_buffer: 0,
        };
        assert(r.pallete_table@ =~= Seq::new(32, |i: int| 0u8));
        assert(r.vram@ =~= Seq::new(2048, |i: int| 0u8));
        assert(r.oam@ =~= Seq::new(256, |i: int| 0u8));
        r
    }

    /// Folds a name-table address (`0x2000..=0x3FFF`) to its index in
    /// name-table memory.
    pub fn mirror_vram_addr(&self, addr: u16) -> (r: u16)
        requires
            0x2000 <= addr <= 0x3FFF,
        ensures
            r as int == vram_index(self.mirroring, addr),
            r < 0x800,
    {
        let mirrored_vram = addr & 0b10111111111111;
        assert(0x2000 <= addr & 0x2FFF <= 0x2FFF) by (bit_vector)
            requires
                0x2000 <= addr <= 0x3FFF,
        ;
        let vram_index = mirrored_vram - 0x2000;
        let name_table = vram_index / 0x400;
        match self.mirroring {
            Mirroring::Vertical => {
                if name_table >= 2 {
                    vram_index - 0x800
                } else {
                    vram_index
                }
            },
            Mirroring::Horizontal => {
                if name_table == 0 {
                    vram_index
                } else if name_table == 3 {
                    vram_index - 0x800
                } else {
                    vram_index - 0x400
                }
            },
        }
    }

    pub fn write_to_addr_reg(&mut self, value: u8)
        ensures
            final(self).addr_reg@ == latch_update(old(self).addr_reg@, value),
            final(self).control_reg@ == old(self).control_reg@,
            final(self).internal_data_buffer == old(self).internal_data_buffer,
            final(self).chr_rom == old(self).chr_rom,
            final(self).pallete_table == old(self).pallete_table,
            final(self).vram == old(self).vram,
            final(self).oam == old(self).oam,
            final(self).mirroring == old(self).mirroring,
    {
        self.addr_reg.update(value);
    }

    pub fn write_to_control_reg(&mut self, value: u8)
        ensures
            final(self).control_reg@ == value,
            final(self).addr_reg@ == old(self).addr_reg@,
            final(self).internal_data_buffer == old(self).internal_data_buffer,
            final(self).chr_rom == old(self).chr_rom,
            final(self).pallete_table == old(self).pallete_table,
            final(self).vram == old(self).vram,
            final(self).oam == old(self).oam,
            final(self).mirroring == old(self).mirroring,
    {
        self.control_reg.update(value);
    }

    fn increment_vram_addr(&mut self)
        ensures
            final(self).addr_reg@ == latch_increment(
                old(self).addr_reg@,
                increment_step(old(self).control_reg@),
            ),
            final(self).control_reg@ == old(self).control_reg@,
            final(self).internal_data_buffer == old(self).internal_data_buffer,
            final(self).chr_rom == old(self).chr_rom,
            final(self).pallete_table == old(self).pallete_table,
            final(self).vram == old(self).vram,
            final(self).oam == old(self).oam,
            final(self).mirroring == old(self).mirroring,
    {
        let inc = self.control_reg.vram_addr_increment();
        self.addr_reg.increment(inc);
    }

    /// Reads the data port. Graphics ROM and name tables answer through a
    /// one-byte buffer: the byte returned is the one fetched by the previous
    /// read, and the addressed byte is fetched into the buffer. Palette bytes
    /// are returned at once. The address then advances by the control
    /// register's step. An address beyond picture memory, or beyond the end
    /// of the graphics ROM, is refused and nothing changes.
    pub fn read_data(&mut self) -> (r: Result<u8, PpuError>)
        ensures
            ({
                let addr = old(self).addr_reg@.addr();
                if addr > 0x3FFF || (addr < 0x2000 && addr >= old(self).chr_rom@.len()) {
                    &&& r == Err::<u8, PpuError>(PpuError::AddressOutOfRange(addr as u16))
                    &&& final(self).addr_reg@ == old(self).addr_reg@
                    &&& final(self).internal_data_buffer == old(self).internal_data_buffer
                } else {
                    &&& final(self).addr_reg@ == latch_increment(
                        old(self).addr_reg@,
                        increment_step(old(self).control_reg@),
                    )
                    &&& if addr >= 0x3F00 {
                        &&& r == Ok::<u8, PpuError>(old(self).pallete_table@[addr % 32])
                        &&& final(self).internal_data_buffer == old(self).internal_data_buffer
                    } else {
                        &&& r == Ok::<u8, PpuError>(old(self).internal_data_buffer)
                        &&& final(self).internal_data_buffer == if addr < 0x2000 {
                            old(self).chr_rom@[addr]
                        } else {
                            old(self).vram@[vram_index(old(self).mirroring, addr as u16)]
                        }
                    }
                }
            }),
            final(self).control_reg@ == old(self).control_reg@,
            final(self).chr_rom == old(self).chr_rom,
            final(self).pallete_table == old(self).pallete_table,
            final(self).vram == old(self).vram,
            final(self).oam == old(self).oam,
            final(self).mirroring == old(self).mirroring,
    {
        let addr = self.addr_reg.get();
        if addr > 0x3FFF || (addr < 0x2000 && addr as usize >= self.chr_rom.len()) {
            return Err(PpuError::AddressOutOfRange(addr));
        }
        self.increment_vram_addr();
        if addr < 0x2000 {
            let result = self.internal_data_buffer;
            self.internal_data_buffer = self.chr_rom[addr as usize];
            Ok(result)
        } else if addr < 0x3F00 {
            let result = self.internal_data_buffer;
            let index = self.mirror_vram_addr(addr);
            self.internal_data_buffer = self.vram[index as usize];
            Ok(result)
        } else {
            assert(addr & 0x1f == addr % 32) by (bit_vector);
            Ok(self.pallete_table[(addr & 0x1f) as usize])
        }
    }

    /// Writes the data port: name-table bytes go to name-table memory,
    /// palette bytes to the palette table, and the address then advances by
    /// the control register's step. Graphics ROM cannot be written, and an
    /// address beyond picture memory is refused; in both cases nothing
    /// changes.
    pub fn write_to_data_reg(&mut self, value: u8) -> (r: Result<(), PpuError>)
        ensures
            ({
                let addr = old(self).addr_reg@.addr();
                if addr < 0x2000 {
                    &&& r == Err::<(), PpuError>(PpuError::ChrRomWrite(addr as u16))
                    &&& final(self).addr_reg@ == old(self).addr_reg@
                    &&& final(self).vram@ == old(self).vram@
                    &&& final(self).pallete_table@ == old(self).pallete_table@
                } else if addr > 0x3FFF {
                    &&& r == Err::<(), PpuError>(PpuError::AddressOutOfRange(addr as u16))
                    &&& final(self).addr_reg@ == old(self).addr_reg@
                    &&& final(self).vram@ == old(self).vram@
                    &&& final(self).pallete_table@ == old(self).pallete_table@
                } else {
                    &&& r is Ok
                    &&& final(self).addr_reg@ == latch_increment(
                        old(self).addr_reg@,
                        increment_step(old(self).control_reg@),
                    )
                    &&& if addr < 0x3F00 {
                        &&& final(self).vram@ == old(self).vram@.update(
                            vram_index(old(self).mirroring, addr as u16),
                            value,
                        )
                        &&& final(self).pallete_table@ == old(self).pallete_table@
                    } else {
                        &&& final(self).vram@ == old(self).vram@
                        &&& final(self).pallete_table@ == old(self).pallete_table@.update(
                            palette_write_index(addr as u16),
                            value,
                        )
                    }
                }
            }),
            final(self).control_reg@ == old(self).control_reg@,
            final(self).internal_data_buffer == old(self).internal_data_buffer,
            final(self).chr_rom == old(self).chr_rom,
            final(self).oam == old(self).oam,
            final(self).mirroring == old(self).mirroring,
    {
        let addr = self.addr_reg.get();
        if addr < 0x2000 {
            return Err(PpuError::ChrRomWrite(addr));
        }
        if addr > 0x3FFF {
            return Err(PpuError::AddressOutOfRange(addr));
        }
        if addr < 0x3F00 {
            let index = self.mirror_vram_addr(addr);
            self.vram[index as usize] = value;
        } else if addr == 0x3F10 || addr == 0x3F14 || addr == 0x3F18 || addr == 0x3F1C {
            let add_mirror = addr - 0x10;
            assert(add_mirror & 0x1f < 32) by (bit_vector);
            self.pallete_table[(add_mirror & 0x1f) as usize] = value;
        } else {
            assert(addr & 0x1f < 32) by (bit_vector);
            self.pallete_table[(addr & 0x1f) as usize] = value;
        }
        self.increment_vram_addr();
        Ok(())
    }
}

} // verus!
