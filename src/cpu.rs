use crate::bus::{bus_read, bus_write, lemma_unmapped_read, Bus, BusView, ROM_SIZE, ROM_START};
use vstd::prelude::*;

verus! {

/// Zero flag of the status register.
pub const FLAG_ZERO: u8 = 0b0000_0010;
/// Negative flag of the status register.
pub const FLAG_NEGATIVE: u8 = 0b1000_0000;
/// Where the reset vector is kept.
pub const RESET_VECTOR: u16 = 0xFFFC;
/// Stack pointer of a fresh processor.
pub const STACK_RESET: u8 = 0xFD;

/// How an instruction finds its operand.
#[allow(non_camel_case_types)]
#[derive(Clone, Copy, Debug, PartialEq, Eq, Structural)]
pub enum AddressingMode {
    Immediate,
    ZeroPage,
    ZeroPage_X,
    ZeroPage_Y,
    Absolute,
    Absolute_X,
    Absolute_Y,
    Indirect_X,
    Indirect_Y,
    NoneAddressing,
}

/// The operations that the engine carries out.
#[derive(Clone, Copy, Debug, PartialEq, Eq, Structural)]
pub enum Instruction {
    /// Load the accumulator.
    Lda,
    /// Store the accumulator.
    Sta,
    /// Copy the accumulator into X.
    Tax,
    /// Increment X.
    Inx,
    /// Halt.
    Brk,
}

/// Why a run stopped without reaching a halt.
#[derive(Clone, Copy, Debug, PartialEq, Eq, Structural)]
pub enum CpuError {
    /// The byte at `address` is no opcode that the engine implements.
    UnimplementedOpcode { opcode: u8, address: u16 },
}

/// Registers and memory of the processor.
pub struct CpuState {
    pub register_a: u8,
    pub register_x: u8,
    pub register_y: u8,
    pub status: u8,
    pub program_counter: u16,
    pub stack_pointer: u8,
    pub bus: BusView,
}

/// `x` reduced to 16 bits.
pub open spec fn wrap16(x: int) -> u16 {
    (x % 0x10000) as u16
}

/// `x` reduced to 8 bits.
pub open spec fn wrap8(x: int) -> u8 {
    (x % 0x100) as u8
}

/// The little-endian word at `addr` and the address after it.
pub open spec fn bus_read_u16(b: BusView, addr: u16) -> u16 {
    (bus_read(b, addr) as int + 256 * bus_read(b, wrap16(addr + 1)) as int) as u16
}

/// The little-endian word at zero-page address `ptr`, whose high byte comes
/// from `ptr + 1` within page zero.
pub open spec fn zero_page_word(b: BusView, ptr: u8) -> u16 {
    (bus_read(b, ptr as u16) as int + 256 * bus_read(b, wrap8(ptr + 1) as u16) as int) as u16
}

/// Status after the zero and negative flags are set from `result`; the
/// other six bits stay.
pub open spec fn zn_flags(status: u8, result: u8) -> u8 {
    let z: u8 = if result == 0 { status | FLAG_ZERO } else { status & 0b1111_1101 };
    if result & 0x80 != 0 { z | FLAG_NEGATIVE } else { z & 0b0111_1111 }
}

/// Effective address of the operand, where the operand bytes start at the
/// program counter.
pub open spec fn operand_address(s: CpuState, mode: AddressingMode) -> u16 {
    let pc = s.program_counter;
    match mode {
        AddressingMode::Immediate => pc,
        AddressingMode::ZeroPage => bus_read(s.bus, pc) as u16,
        AddressingMode::ZeroPage_X => wrap8(bus_read(s.bus, pc) + s.register_x) as u16,
        AddressingMode::ZeroPage_Y => wrap8(bus_read(s.bus, pc) + s.register_y) as u16,
        AddressingMode::Absolute => bus_read_u16(s.bus, pc),
        AddressingMode::Absolute_X => wrap16(bus_read_u16(s.bus, pc) + s.register_x),
        AddressingMode::Absolute_Y => wrap16(bus_read_u16(s.bus, pc) + s.register_y),
        AddressingMode::Indirect_X => zero_page_word(
            s.bus,
            wrap8(bus_read(s.bus, pc) + s.register_x),
        ),
        AddressingMode::Indirect_Y => wrap16(
            zero_page_word(s.bus, bus_read(s.bus, pc)) + s.register_y,
        ),
        AddressingMode::NoneAddressing => 0,
    }
}

/// Number of operand bytes that follow an opcode of the given mode.
pub open spec fn operand_len(mode: AddressingMode) -> u16 {
    match mode {
        AddressingMode::Absolute | AddressingMode::Absolute_X | AddressingMode::Absolute_Y => 2,
        AddressingMode::NoneAddressing => 0,
        _ => 1,
    }
}

/// The instruction and addressing mode that an opcode stands for, if the
/// engine implements it.
#[verifier::opaque]
pub open spec fn decode_spec(opcode: u8) -> Option<(Instruction, AddressingMode)> {
    if opcode == 0xA9 {
        Some((Instruction::Lda, AddressingMode::Immediate))
    } else if opcode == 0xA5 {
        Some((Instruction::Lda, AddressingMode::ZeroPage))
    } else if opcode == 0xB5 {
        Some((Instruction::Lda, AddressingMode::ZeroPage_X))
    } else if opcode == 0xAD {
        Some((Instruction::Lda, AddressingMode::Absolute))
    } else if opcode == 0xBD {
        Some((Instruction::Lda, AddressingMode::Absolute_X))
    } else if opcode == 0xB9 {
        Some((Instruction::Lda, AddressingMode::Absolute_Y))
    } else if opcode == 0xA1 {
        Some((Instruction::Lda, AddressingMode::Indirect_X))
    } else if opcode == 0xB1 {
        Some((Instruction::Lda, AddressingMode::Indirect_Y))
    } else if opcode == 0xAA {
        Some((Instruction::Tax, AddressingMode::NoneAddressing))
    } else if opcode == 0xE8 {
        Some((Instruction::Inx, AddressingMode::NoneAddressing))
    } else if opcode == 0x85 {
        Some((Instruction::Sta, AddressingMode::ZeroPage))
    } else if opcode == 0x95 {
        Some((Instruction::Sta, AddressingMode::ZeroPage_X))
    } else if opcode == 0x8D {
        Some((Instruction::Sta, AddressingMode::Absolute))
    } else if opcode == 0x9D {
        Some((Instruction::Sta, AddressingMode::Absolute_X))
    } else if opcode == 0x99 {
        Some((Instruction::Sta, AddressingMode::Absolute_Y))
    } else if opcode == 0x81 {
        Some((Instruction::Sta, AddressingMode::Indirect_X))
    } else if opcode == 0x91 {
        Some((Instruction::Sta, AddressingMode::Indirect_Y))
    } else if opcode == 0x00 {
        Some((Instruction::Brk, AddressingMode::NoneAddressing))
    } else {
        None
    }
}

/// The effect of one instruction, the program counter standing on its first
/// operand byte. The program counter itself is left where it is.
pub open spec fn execute_spec(s: CpuState, ins: Instruction, mode: AddressingMode) -> CpuState {
    match ins {
        Instruction::Lda => {
            let v = bus_read(s.bus, operand_address(s, mode));
            CpuState { register_a: v, status: zn_flags(s.status, v), ..s }
        },
        Instruction::Sta => CpuState {
            bus: bus_write(s.bus, operand_address(s, mode), s.register_a),
            ..s
        },
        Instruction::Tax => CpuState {
            register_x: s.register_a,
            status: zn_flags(s.status, s.register_a),
            ..s
        },
        Instruction::Inx => {
            let x = wrap8(s.register_x + 1);
            CpuState { register_x: x, status: zn_flags(s.status, x), ..s }
        },
        Instruction::Brk => s,
    }
}

/// What one fetch-decode-execute cycle leads to.
pub enum Step {
    /// The instruction ran; the processor goes on from this state.
    Running(CpuState),
    /// A halt was fetched; this is the state the processor stops in.
    Halted(CpuState),
    /// The opcode at the program counter is not implemented; the state is
    /// the one in which it was fetched.
    Faulted(CpuState, u8),
}

/// One cycle from `s`: fetch the opcode, step past it, execute, then step
/// past the operand bytes.
pub open spec fn step(s: CpuState) -> Step {
    let opcode = bus_read(s.bus, s.program_counter);
    let fetched = CpuState { program_counter: wrap16(s.program_counter + 1), ..s };
    match decode_spec(opcode) {
        None => Step::Faulted(s, opcode),
        Some((Instruction::Brk, _)) => Step::Halted(fetched),
        Some((ins, mode)) => {
            let t = execute_spec(fetched, ins, mode);
            Step::Running(
                CpuState {
                    program_counter: wrap16(t.program_counter + operand_len(mode)),
                    ..t
                },
            )
        },
    }
}

/// Where `n` cycles from `s` lead; a halt or a fault ends the run.
pub open spec fn run_steps(s: CpuState, n: nat) -> Step
    decreases n,
{
    if n == 0 {
        Step::Running(s)
    } else {
        match run_steps(s, (n - 1) as nat) {
            Step::Running(t) => step(t),
            other => other,
        }
    }
}

/// Once a run has halted or faulted, further cycles change nothing.
pub proof fn lemma_run_steps_settled(s: CpuState, n: nat, m: nat)
    requires
        n <= m,
        !(run_steps(s, n) is Running),
    ensures
        run_steps(s, m) == run_steps(s, n),
    decreases m - n,
{
    if n < m {
        lemma_run_steps_settled(s, n, (m - 1) as nat);
    }
}

/// A run has one outcome: a halt or a fault reached from the same state
/// after any two numbers of cycles is the same halt or fault.
pub proof fn lemma_run_outcome_unique(s: CpuState, n: nat, m: nat)
    requires
        !(run_steps(s, n) is Running),
        !(run_steps(s, m) is Running),
    ensures
        run_steps(s, n) == run_steps(s, m),
{
    if n <= m {
        lemma_run_steps_settled(s, n, m);
    } else {
        lemma_run_steps_settled(s, m, n);
    }
}

/// A run from `start` that returned `r` and left the processor in `end`:
/// either it halted there, or it met an unimplemented opcode there.
pub open spec fn ran_to(start: CpuState, r: Result<(), CpuError>, end: CpuState) -> bool {
    match r {
        Ok(()) => exists|n: nat| run_steps(start, n) == Step::Halted(end),
        Err(CpuError::UnimplementedOpcode { opcode, address }) => {
            &&& address == end.program_counter
            &&& exists|n: nat| run_steps(start, n) == Step::Faulted(end, opcode)
        },
    }
}

/// Program ROM with `program` copied to its start.
pub open spec fn rom_with(rom: Seq<u8>, program: Seq<u8>) -> Seq<u8> {
    Seq::new(rom.len(), |i: int| if i < program.len() { program[i] } else { rom[i] })
}

/// Memory after `program` is loaded: copied to the start of program ROM, with
/// the reset vector pointing there.
pub open spec fn load_spec(b: BusView, program: Seq<u8>) -> BusView {
    let copied = BusView { rom: rom_with(b.rom, program), ..b };
    bus_write(bus_write(copied, RESET_VECTOR, 0x00), wrap16(RESET_VECTOR + 1), 0x80)
}

/// State after a reset: A, X and the flags cleared, and the program counter
/// read from the reset vector.
pub open spec fn reset_spec(s: CpuState) -> CpuState {
    CpuState {
        register_a: 0,
        register_x: 0,
        status: 0,
        program_counter: bus_read_u16(s.bus, RESET_VECTOR),
        ..s
    }
}

/// Fetch positions left from `pc` before the fetch reaches the unmapped
/// window `0x4000..=0x7FFF`, where every byte reads as a halt.
spec fn halt_distance(pc: u16) -> int {
    if pc < 0x4000 {
        0x4000 - pc
    } else if pc < 0x8000 {
        0
    } else {
        0x14000 - pc
    }
}

proof fn lemma_halt_distance_decreases(pc: u16, k: u16)
    requires
        !(0x4000 <= pc < 0x8000),
        k <= 2,
    ensures
        halt_distance(wrap16(wrap16(pc + 1) + k)) < halt_distance(pc),
{
}

/// Looks an opcode up in the table of implemented instructions.
pub fn decode(opcode: u8) -> (r: Option<(Instruction, AddressingMode)>)
    ensures
        r == decode_spec(opcode),
        r matches Some((ins, mode)) ==> ((ins is Lda || ins is Sta) ==> !(mode is NoneAddressing)),
        (r matches Some((ins, _)) && ins is Brk) <==> opcode == 0,
{
    reveal(decode_spec);
    match opcode {
        0xA9 => Some((Instruction::Lda, AddressingMode::Immediate)),
        0xA5 => Some((Instruction::Lda, AddressingMode::ZeroPage)),
        0xB5 => Some((Instruction::Lda, AddressingMode::ZeroPage_X)),
        0xAD => Some((Instruction::Lda, AddressingMode::Absolute)),
        0xBD => Some((Instruction::Lda, AddressingMode::Absolute_X)),
        0xB9 => Some((Instruction::Lda, AddressingMode::Absolute_Y)),
        0xA1 => Some((Instruction::Lda, AddressingMode::Indirect_X)),
        0xB1 => Some((Instruction::Lda, AddressingMode::Indirect_Y)),
        0xAA => Some((Instruction::Tax, AddressingMode::NoneAddressing)),
        0xE8 => Some((Instruction::Inx, AddressingMode::NoneAddressing)),
        0x85 => Some((Instruction::Sta, AddressingMode::ZeroPage)),
        0x95 => Some((Instruction::Sta, AddressingMode::ZeroPage_X)),
        0x8D => Some((Instruction::Sta, AddressingMode::Absolute)),
        0x9D => Some((Instruction::Sta, AddressingMode::Absolute_X)),
        0x99 => Some((Instruction::Sta, AddressingMode::Absolute_Y)),
        0x81 => Some((Instruction::Sta, AddressingMode::Indirect_X)),
        0x91 => Some((Instruction::Sta, AddressingMode::Indirect_Y)),
        0x00 => Some((Instruction::Brk, AddressingMode::NoneAddressing)),
        _ => None,
    }
}

/// Number of operand bytes that follow an opcode of the given mode.
pub fn operand_bytes(mode: AddressingMode) -> (r: u16)
    ensures
        r == operand_len(mode),
{
    match mode {
        AddressingMode::Absolute | AddressingMode::Absolute_X | AddressingMode::Absolute_Y => 2,
        AddressingMode::NoneAddressing => 0,
        _ => 1,
    }
}

/// Zero-page indexed addressing stays in page zero: the base byte plus the
/// index register, wrapped to eight bits.
pub proof fn lemma_zero_page_indexed_wraps(s: CpuState)
    ensures
        operand_address(s, AddressingMode::ZeroPage_X) as int == (bus_read(
            s.bus,
            s.program_counter,
        ) as int + s.register_x as int) % 0x100,
        operand_address(s, AddressingMode::ZeroPage_Y) as int == (bus_read(
            s.bus,
            s.program_counter,
        ) as int + s.register_y as int) % 0x100,
        operand_address(s, AddressingMode::ZeroPage_X) < 0x100,
        operand_address(s, AddressingMode::ZeroPage_Y) < 0x100,
{
}

/// A loaded program reads back from the program-ROM window byte for byte,
/// as long as it stops short of the reset vector; the byte after it is the
/// one the ROM held before, which is 0 on a fresh bus.
pub proof fn lemma_load_round_trip(b: BusView, program: Seq<u8>)
    requires
        b.wf(),
        program.len() <= (RESET_VECTOR - ROM_START) as int,
    ensures
        forall|i: int|
            0 <= i < program.len() ==> #[trigger] bus_read(
                load_spec(b, program),
                (ROM_START + i) as u16,
            ) == program[i],
        program.len() < (RESET_VECTOR - ROM_START) as int ==> bus_read(
            load_spec(b, program),
            (ROM_START + program.len()) as u16,
        ) == b.rom[program.len() as int],
        program.len() < (RESET_VECTOR - ROM_START) as int && b.rom[program.len() as int] == 0
            ==> bus_read(load_spec(b, program), (ROM_START + program.len()) as u16) == 0,
{
    reveal(bus_read);
    reveal(bus_write);
}

/// The processor: its registers, and the bus through which it reaches
/// memory.
pub struct CPU {
    pub register_a: u8,
    pub register_x: u8,
    pub register_y: u8,
    pub status: u8,
    pub program_counter: u16,
    pub stack_pointer: u8,
    pub bus: Bus,
}

impl View for CPU {
    type V = CpuState;

    open spec fn view(&self) -> CpuState {
        CpuState {
            register_a: self.register_a,
            register_x: self.register_x,
            register_y: self.register_y,
            status: self.status,
            program_counter: self.program_counter,
            stack_pointer: self.stack_pointer,
            bus: self.bus@,
        }
    }
}

impl CPU {
    pub fn new() -> (r: CPU)
        ensures
            r.register_a == 0,
            r.register_x == 0,
            r.register_y == 0,
            r.status == 0,
            r.program_counter == 0,
            r.stack_pointer == STACK_RESET,
            r.bus@.wf(),
            r.bus@.ram == Seq::new(0x800, |i: int| 0u8),
            r.bus@.ppu_registers == Seq::new(8, |i: int| 0u8),
            r.bus@.rom == Seq::new(0x8000, |i: int| 0u8),
    {
        CPU {
            register_a: 0,
            register_x: 0,
            register_y: 0,
            status: 0,
            program_counter: 0,
            stack_pointer: STACK_RESET,
            bus: Bus::new(),
        }
    }

    pub fn mem_read(&self, addr: u16) -> (r: u8)
        ensures
            r == bus_read(self.bus@, addr),
    {
        self.bus.mem_read(addr)
    }

    pub fn mem_write(&mut self, addr: u16, value: u8)
        ensures
            final(self)@ == (CpuState { bus: bus_write(old(self).bus@, addr, value), ..old(self)@ }),
    {
        self.bus.mem_write(addr, value);
    }

    /// Reads the little-endian word at `addr`, the high byte from the next
    /// address (`0xFFFF` is followed by `0x0000`).
    pub fn mem_read_u16(&self, addr: u16) -> (r: u16)
        ensures
            r == bus_read_u16(self.bus@, addr),
    {
        let low = self.mem_read(addr);
        let high = self.mem_read(addr.wrapping_add(1));
        assert(((high as u16) << 8 | (low as u16)) as int == low as int + 256 * high as int)
            by (bit_vector);
        (high as u16) << 8 | (low as u16)
    }

    /// Writes `value` as a little-endian word: low byte at `addr`, high byte
    /// at the next address.
    pub fn mem_write_u16(&mut self, addr: u16, value: u16)
        ensures
            final(self)@ == (CpuState {
                bus: bus_write(
                    bus_write(old(self).bus@, addr, (value % 256) as u8),
                    wrap16(addr + 1),
                    (value / 256) as u8,
                ),
                ..old(self)@
            }),
    {
        let low = (value & 0xFF) as u8;
        let high = (value >> 8) as u8;
        assert(low == (value % 256) as u8 && high == (value / 256) as u8) by (bit_vector)
            requires
                low == (value & 0xFF) as u8,
                high == (value >> 8) as u8,
        ;
        self.mem_write(addr, low);
        self.mem_write(addr.wrapping_add(1), high);
    }

    /// Effective address of the operand for `mode`, the program counter
    /// standing on the first operand byte. Zero-page indexing wraps within
    /// page zero; absolute indexing wraps within the 16-bit space.
    #[verifier::spinoff_prover]
    #[verifier::rlimit(100)]
    pub fn get_operand_address(&self, mode: &AddressingMode) -> (r: u16)
        requires
            !(*mode is NoneAddressing),
        ensures
            r == operand_address(self@, *mode),
    {
        match mode {
            AddressingMode::Immediate => self.program_counter,
            AddressingMode::ZeroPage => self.mem_read(self.program_counter) as u16,
            AddressingMode::Absolute => self.mem_read_u16(self.program_counter),
            AddressingMode::ZeroPage_X => {
                let pos = self.mem_read(self.program_counter);
                pos.wrapping_add(self.register_x) as u16
            },
            AddressingMode::ZeroPage_Y => {
                let pos = self.mem_read(self.program_counter);
                pos.wrapping_add(self.register_y) as u16
            },
            AddressingMode::Absolute_X => {
                let base = self.mem_read_u16(self.program_counter);
                base.wrapping_add(self.register_x as u16)
            },
            AddressingMode::Absolute_Y => {
                let base = self.mem_read_u16(self.program_counter);
                base.wrapping_add(self.register_y as u16)
            },
            AddressingMode::Indirect_X => {
                let base = self.mem_read(self.program_counter);
                let ptr: u8 = base.wrapping_add(self.register_x);
                let lo = self.mem_read(ptr as u16);
                let hi = self.mem_read(ptr.wrapping_add(1) as u16);
                assert(((hi as u16) << 8 | (lo as u16)) as int == lo as int + 256 * hi as int)
                    by (bit_vector);
                (hi as u16) << 8 | (lo as u16)
            },
            AddressingMode::Indirect_Y => {
                let base = self.mem_read(self.program_counter);
                let lo = self.mem_read(base as u16);
                let hi = self.mem_read(base.wrapping_add(1) as u16);
                assert(((hi as u16) << 8 | (lo as u16)) as int == lo as int + 256 * hi as int)
                    by (bit_vector);
                let deref_base = (hi as u16) << 8 | (lo as u16);
                deref_base.wrapping_add(self.register_y as u16)
            },
            AddressingMode::NoneAddressing => 0,
        }
    }

    /// Sets the zero flag exactly when `result` is 0 and the negative flag
    /// exactly when bit 7 of `result` is set; the other flags stay.
    pub fn update_zero_and_negative_flags(&mut self, result: u8)
        ensures
            final(self)@ == (CpuState { status: zn_flags(old(self).status, result), ..old(self)@ }),
            (final(self).status & FLAG_ZERO != 0) <==> result == 0,
            (final(self).status & FLAG_NEGATIVE != 0) <==> (result & 0x80 != 0),
            final(self).status & 0b0111_1101 == old(self).status & 0b0111_1101,
    {
        let ghost st = self.status;
        if result == 0 {
            self.status |= 0b0000_0010;
        } else {
            self.status &= 0b1111_1101;
        }
        if result & 0b1000_0000 != 0 {
            self.status |= 0b1000_0000;
        } else {
            self.status &= 0b0111_1111;
        }
        let fin = self.status;
        assert(fin == zn_flags(st, result));
        assert((fin & 0x02 != 0) <==> result == 0) by (bit_vector)
            requires
                fin == (if result & 0x80 != 0 {
                    (if result == 0 { st | 0x02u8 } else { st & 0xFDu8 }) | 0x80u8
                } else {
                    (if result == 0 { st | 0x02u8 } else { st & 0xFDu8 }) & 0x7Fu8
                }),
        ;
        assert((fin & 0x80 != 0) <==> (result & 0x80 != 0)) by (bit_vector)
            requires
                fin == (if result & 0x80 != 0 {
                    (if result == 0 { st | 0x02u8 } else { st & 0xFDu8 }) | 0x80u8
                } else {
                    (if result == 0 { st | 0x02u8 } else { st & 0xFDu8 }) & 0x7Fu8
                }),
        ;
        assert(fin & 0x7D == st & 0x7D) by (bit_vector)
            requires
                fin == (if result & 0x80 != 0 {
                    (if result == 0 { st | 0x02u8 } else { st & 0xFDu8 }) | 0x80u8
                } else {
                    (if result == 0 { st | 0x02u8 } else { st & 0xFDu8 }) & 0x7Fu8
                }),
        ;
    }

    fn lda(&mut self, mode: &AddressingMode)
        requires
            !(*mode is NoneAddressing),
        ensures
            final(self)@ == execute_spec(old(self)@, Instruction::Lda, *mode),
    {
        let addr = self.get_operand_address(mode);
        let value = self.mem_read(addr);
        self.register_a = value;
        self.update_zero_and_negative_flags(self.register_a);
    }

    fn tax(&mut self)
        ensures
            final(self)@ == execute_spec(old(self)@, Instruction::Tax, AddressingMode::NoneAddressing),
    {
        self.register_x = self.register_a;
        self.update_zero_and_negative_flags(self.register_x);
    }

    fn inx(&mut self)
        ensures
            final(self)@ == execute_spec(old(self)@, Instruction::Inx, AddressingMode::NoneAddressing),
    {
        self.register_x = self.register_x.wrapping_add(1);
        self.update_zero_and_negative_flags(self.register_x);
    }

    fn sta(&mut self, mode: &AddressingMode)
        requires
            !(*mode is NoneAddressing),
        ensures
            final(self)@ == execute_spec(old(self)@, Instruction::Sta, *mode),
    {
        let addr = self.get_operand_address(mode);
        self.mem_write(addr, self.register_a);
    }

    fn execute(&mut self, ins: Instruction, mode: AddressingMode)
        requires
            !(ins is Brk),
            (ins is Lda || ins is Sta) ==> !(mode is NoneAddressing),
        ensures
            final(self)@ == execute_spec(old(self)@, ins, mode),
    {
        match ins {
            Instruction::Lda => self.lda(&mode),
            Instruction::Sta => self.sta(&mode),
            Instruction::Tax => self.tax(),
            Instruction::Inx => self.inx(),
            Instruction::Brk => {},
        }
    }

    /// Clears A, X and the flags and loads the program counter from the
    /// reset vector. Memory is left as it is.
    pub fn reset(&mut self)
        ensures
            final(self)@ == reset_spec(old(self)@),
    {
        self.register_a = 0;
        self.register_x = 0;
        self.status = 0;
        self.program_counter = self.mem_read_u16(RESET_VECTOR);
    }

    /// Copies `program` to the start of program ROM and points the reset
    /// vector there.
    pub fn load(&mut self, program: Vec<u8>)
        requires
            program.len() <= ROM_SIZE,
        ensures
            final(self)@ == (CpuState { bus: load_spec(old(self).bus@, program@), ..old(self)@ }),
    {
        let ghost s0 = self@;
        proof {
            self.bus.lemma_well_formed();
        }
        assert(rom_with(s0.bus.rom, program@.take(0)) =~= s0.bus.rom);
        let mut i: usize = 0;
        while i < program.len()
            invariant
                i <= program.len() <= ROM_SIZE,
                s0.bus.wf(),
                self@ == (CpuState {
                    bus: BusView { rom: rom_with(s0.bus.rom, program@.take(i as int)), ..s0.bus },
                    ..s0
                }),
            decreases program.len() - i,
        {
            let ghost before = self.bus@.rom;
            reveal(bus_write);
            self.mem_write(ROM_START + i as u16, program[i]);
            assert(rom_with(s0.bus.rom, program@.take(i + 1)) =~= before.update(i as int, program@[i as int]));
            i += 1;
        }
        assert(program@.take(program.len() as int) =~= program@);
        self.mem_write_u16(RESET_VECTOR, ROM_START);
    }

    /// Loads `program`, resets, and runs until a halt or a fault.
    pub fn load_and_run(&mut self, program: Vec<u8>) -> (r: Result<(), CpuError>)
        requires
            program.len() <= ROM_SIZE,
        ensures
            ran_to(
                reset_spec(CpuState { bus: load_spec(old(self).bus@, program@), ..old(self)@ }),
                r,
                final(self)@,
            ),
    {
        self.load(program);
        self.reset();
        self.run()
    }

    /// Runs the fetch-decode-execute cycle until a halt, which returns `Ok`,
    /// or an opcode that is not implemented, which returns its error and
    /// leaves the processor where the opcode was fetched.
    #[verifier::spinoff_prover]
    #[verifier::rlimit(60)]
    pub fn run(&mut self) -> (r: Result<(), CpuError>)
        ensures
            ran_to(old(self)@, r, final(self)@),
    {
        let ghost start = self@;
        let ghost mut n: nat = 0;
        loop
            invariant
                start == old(self)@,
                run_steps(start, n) == Step::Running(self@),
            decreases halt_distance(self.program_counter),
        {
            let ghost cur = self@;
            let opcode = self.mem_read(self.program_counter);
            proof {
                if 0x4000 <= self.program_counter < 0x8000 {
                    lemma_unmapped_read(self.bus@, self.program_counter);
                }
            }
            match decode(opcode) {
                None => {
                    let ghost m: nat = n + 1;
                    assert(run_steps(start, m) == Step::Faulted(self@, opcode));
                    return Err(
                        CpuError::UnimplementedOpcode { opcode, address: self.program_counter },
                    );
                },
                Some((Instruction::Brk, _)) => {
                    self.program_counter = self.program_counter.wrapping_add(1);
                    let ghost m: nat = n + 1;
                    assert(run_steps(start, m) == Step::Halted(self@));
                    return Ok(());
                },
                Some((ins, mode)) => {
                    self.program_counter = self.program_counter.wrapping_add(1);
                    self.execute(ins, mode);
                    self.program_counter = self.program_counter.wrapping_add(operand_bytes(mode));
                    proof {
                        lemma_halt_distance_decreases(cur.program_counter, operand_len(mode));
                        n = n + 1;
                    }
                    assert(run_steps(start, n) == Step::Running(self@));
                },
            }
        }
    }

    /// Loads `program` and runs it from the start of program ROM.
    pub fn interpret(&mut self, program: Vec<u8>) -> (r: Result<(), CpuError>)
        requires
            program.len() <= ROM_SIZE,
        ensures
            ran_to(
                CpuState {
                    program_counter: ROM_START,
                    bus: load_spec(old(self).bus@, program@),
                    ..old(self)@
                },
                r,
                final(self)@,
            ),
    {
        self.load(program);
        self.program_counter = ROM_START;
        self.run()
    }
}

impl Default for CPU {
    fn default() -> (r: CPU)
        ensures
            r.register_a == 0,
            r.register_x == 0,
            r.register_y == 0,
            r.status == 0,
            r.program_counter == 0,
            r.stack_pointer == STACK_RESET,
            r.bus@.ram == Seq::new(0x800, |i: int| 0u8),
            r.bus@.ppu_registers == Seq::new(8, |i: int| 0u8),
            r.bus@.rom == Seq::new(0x8000, |i: int| 0u8),
    {
        CPU::new()
    }
}

} // verus!
