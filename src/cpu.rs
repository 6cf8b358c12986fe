use vstd::prelude::*;

use crate::fault::Fault;
use crate::image::{elf_section, section_by_name};
use crate::instruction::{
    decode, sign_extend, sign_extended, RV5Instruction, RV5Itype, RV5Jtype, RV5Rtype, RV5SBtype,
    RV5Stype, RVUtype, OP_IMM, OP_LOAD, OP_LUI,
};
use crate::ram::{in_bounds, le_bytes, le_value, spliced, RAM, RAM_SIZE};

verus! {

/// Number of general-purpose registers.
pub const REGISTER_COUNT: usize = 32;

/// Reset vector; memory offset 0 is seen by programs at this address.
pub const INITIAL_PC: u32 = 0x8000_0000;

/// Register holding an environment call's number (a7).
pub const REG_SYSCALL: usize = 17;

/// Register holding an environment call's argument (a0).
pub const REG_ARG: usize = 10;

pub const SYS_PRINT_INT: u32 = 1;
pub const SYS_PRINT_STR: u32 = 4;
pub const SYS_EXIT: u32 = 10;

/// Whether the core still runs, or why it stopped.
#[derive(Clone, Copy, Debug, PartialEq, Eq, Structural)]
pub enum CpuState {
    Running,
    Halted,
    Faulted(Fault),
}

/// What one step did, as the caller sees it.
#[derive(Debug, PartialEq, Eq)]
pub enum StepOutcome {
    /// The instruction retired.
    Continued,
    /// The instruction retired and asks for a number to be printed.
    PrintInt(u32),
    /// The instruction retired and asks for these bytes to be printed.
    PrintStr(Vec<u8>),
    /// The program has ended normally.
    Halted,
    /// Execution has stopped on an error.
    Faulted(Fault),
}

/// The mathematical value of a [`StepOutcome`].
pub enum Outcome {
    Continued,
    PrintInt(u32),
    PrintStr(Seq<u8>),
    Halted,
    Faulted(Fault),
}

impl View for StepOutcome {
    type V = Outcome;

    open spec fn view(&self) -> Outcome {
        match self {
            StepOutcome::Continued => Outcome::Continued,
            StepOutcome::PrintInt(v) => Outcome::PrintInt(*v),
            StepOutcome::PrintStr(s) => Outcome::PrintStr(s@),
            StepOutcome::Halted => Outcome::Halted,
            StepOutcome::Faulted(f) => Outcome::Faulted(*f),
        }
    }
}

/// The architectural state of the core.
pub struct CpuView {
    pub regs: Seq<u32>,
    pub pc: u32,
    pub clk: u64,
    pub mem: Seq<u8>,
    pub state: CpuState,
}

impl CpuView {
    /// 32 registers of which the first reads zero, and memory of full size.
    pub open spec fn wf(self) -> bool {
        &&& self.regs.len() == REGISTER_COUNT
        &&& self.regs[0] == 0
        &&& self.mem.len() == RAM_SIZE
    }

    /// The same state with `v` written to register `rd`.
    pub open spec fn with_reg(self, rd: u32, v: u32) -> CpuView {
        CpuView { regs: reg_write(self.regs, rd, v), ..self }
    }
}

/// Memory offset of a program address.
pub open spec fn phys(addr: u32) -> int {
    addr.wrapping_sub(INITIAL_PC) as int
}

/// Register file after writing `v` to `rd`; writes to register 0 are dropped.
pub open spec fn reg_write(regs: Seq<u32>, rd: u32, v: u32) -> Seq<u32> {
    if rd == 0 {
        regs
    } else {
        regs.update(rd as int, v)
    }
}

/// A raw immediate of `bits` bits, sign-extended to 32 bits.
pub open spec fn imm_value(imm: u32, bits: nat) -> u32 {
    sign_extended(imm, bits) as u32
}

/// Result of a register-register operation, or `None` for unknown codes.
pub open spec fn alu_reg(funct3: u32, funct7: u32, a: u32, b: u32) -> Option<u32> {
    if funct7 == 0 {
        if funct3 == 0 {
            Some(a.wrapping_add(b))
        } else if funct3 == 1 {
            Some(a << (b & 31))
        } else if funct3 == 2 {
            Some(if (a as i32) < (b as i32) { 1 } else { 0 })
        } else if funct3 == 3 {
            Some(if a < b { 1 } else { 0 })
        } else if funct3 == 4 {
            Some(a ^ b)
        } else if funct3 == 5 {
            Some(a >> (b & 31))
        } else if funct3 == 6 {
            Some(a | b)
        } else if funct3 == 7 {
            Some(a & b)
        } else {
            None
        }
    } else if funct7 == 0x20 {
        if funct3 == 0 {
            Some(a.wrapping_sub(b))
        } else if funct3 == 5 {
            Some(((a as i32) >> (b & 31)) as u32)
        } else {
            None
        }
    } else {
        None
    }
}

/// Result of a register-immediate operation on the raw 12-bit `imm`, or
/// `None` for unknown codes.
pub open spec fn alu_imm(funct3: u32, imm: u32, a: u32) -> Option<u32> {
    let v = imm_value(imm, 12);
    let shamt = imm & 31;
    let top = imm >> 5u32;
    if funct3 == 0 {
        Some(a.wrapping_add(v))
    } else if funct3 == 2 {
        Some(if (a as i32) < (v as i32) { 1 } else { 0 })
    } else if funct3 == 3 {
        Some(if a < v { 1 } else { 0 })
    } else if funct3 == 4 {
        Some(a ^ v)
    } else if funct3 == 6 {
        Some(a | v)
    } else if funct3 == 7 {
        Some(a & v)
    } else if funct3 == 1 && top == 0 {
        Some(a << shamt)
    } else if funct3 == 5 && top == 0 {
        Some(a >> shamt)
    } else if funct3 == 5 && top == 0x20 {
        Some(((a as i32) >> shamt) as u32)
    } else {
        None
    }
}

/// Width in bytes and signedness of a load, or `None` for unknown codes.
pub open spec fn load_kind(funct3: u32) -> Option<(nat, bool)> {
    if funct3 == 0 {
        Some((1, true))
    } else if funct3 == 1 {
        Some((2, true))
    } else if funct3 == 2 {
        Some((4, false))
    } else if funct3 == 4 {
        Some((1, false))
    } else if funct3 == 5 {
        Some((2, false))
    } else {
        None
    }
}

/// Width in bytes of a store, or `None` for unknown codes.
pub open spec fn store_width(funct3: u32) -> Option<nat> {
    if funct3 == 0 {
        Some(1)
    } else if funct3 == 1 {
        Some(2)
    } else if funct3 == 2 {
        Some(4)
    } else {
        None
    }
}

/// Whether a branch is taken, or `None` for unknown codes.
pub open spec fn branch_taken(funct3: u32, a: u32, b: u32) -> Option<bool> {
    if funct3 == 0 {
        Some(a == b)
    } else if funct3 == 1 {
        Some(a != b)
    } else if funct3 == 4 {
        Some((a as i32) < (b as i32))
    } else if funct3 == 5 {
        Some((a as i32) >= (b as i32))
    } else if funct3 == 6 {
        Some(a < b)
    } else if funct3 == 7 {
        Some(a >= b)
    } else {
        None
    }
}

/// First offset at or after `i` holding a zero byte, or the memory size
/// when there is none.
pub open spec fn scan_end(mem: Seq<u8>, i: int) -> int
    decreases mem.len() - i,
{
    if i < 0 || i >= mem.len() {
        mem.len() as int
    } else if mem[i] == 0 {
        i
    } else {
        scan_end(mem, i + 1)
    }
}

/// The word at the program counter.
pub open spec fn fetch_spec(m: CpuView) -> Result<u32, Fault> {
    let p = phys(m.pc);
    if m.pc % 4 != 0 {
        Err(Fault::UnalignedAccess)
    } else if !in_bounds(p, 4) {
        Err(Fault::OutOfBounds)
    } else {
        Ok(le_value(m.mem.subrange(p, p + 4)))
    }
}

/// Effect of a register-register instruction.
pub open spec fn exec_r(m: CpuView, r: RV5Rtype) -> Result<(CpuView, Outcome, bool), Fault> {
    match alu_reg(r.funct3, r.funct7, m.regs[r.rs1 as int], m.regs[r.rs2 as int]) {
        Some(v) => Ok((m.with_reg(r.rd, v), Outcome::Continued, false)),
        None => Err(Fault::IllegalInstruction),
    }
}

/// Effect of an I-format instruction: immediate arithmetic, a load, or JALR.
pub open spec fn exec_i(m: CpuView, i: RV5Itype) -> Result<(CpuView, Outcome, bool), Fault> {
    let a = m.regs[i.rs1 as int];
    if i.opcode == OP_IMM {
        match alu_imm(i.funct3, i.imm, a) {
            Some(v) => Ok((m.with_reg(i.rd, v), Outcome::Continued, false)),
            None => Err(Fault::IllegalInstruction),
        }
    } else if i.opcode == OP_LOAD {
        match load_kind(i.funct3) {
            Some((width, signed)) => {
                let addr = phys(a.wrapping_add(imm_value(i.imm, 12)));
                if !in_bounds(addr, width as int) {
                    Err(Fault::OutOfBounds)
                } else {
                    let raw = le_value(m.mem.subrange(addr, addr + width));
                    let v = if signed {
                        sign_extended(raw, 8 * width) as u32
                    } else {
                        raw
                    };
                    Ok((m.with_reg(i.rd, v), Outcome::Continued, false))
                }
            },
            None => Err(Fault::IllegalInstruction),
        }
    } else if i.funct3 == 0 {
        let target = a.wrapping_add(imm_value(i.imm, 12)) & 0xffff_fffe;
        let link = m.pc.wrapping_add(4);
        Ok((CpuView { pc: target, ..m.with_reg(i.rd, link) }, Outcome::Continued, true))
    } else {
        Err(Fault::IllegalInstruction)
    }
}

/// Effect of a store.
pub open spec fn exec_s(m: CpuView, s: RV5Stype) -> Result<(CpuView, Outcome, bool), Fault> {
    match store_width(s.funct3) {
        Some(width) => {
            let addr = phys(m.regs[s.rs1 as int].wrapping_add(imm_value(s.imm, 12)));
            if !in_bounds(addr, width as int) {
                Err(Fault::OutOfBounds)
            } else {
                let bytes = le_bytes(m.regs[s.rs2 as int], width);
                let stored = CpuView { mem: spliced(m.mem, addr, bytes), ..m };
                Ok((stored, Outcome::Continued, false))
            }
        },
        None => Err(Fault::IllegalInstruction),
    }
}

/// Effect of a conditional branch.
pub open spec fn exec_sb(m: CpuView, b: RV5SBtype) -> Result<(CpuView, Outcome, bool), Fault> {
    match branch_taken(b.funct3, m.regs[b.rs1 as int], m.regs[b.rs2 as int]) {
        Some(true) => {
            let target = m.pc.wrapping_add(imm_value(b.imm, 13));
            Ok((CpuView { pc: target, ..m }, Outcome::Continued, true))
        },
        Some(false) => Ok((m, Outcome::Continued, false)),
        None => Err(Fault::IllegalInstruction),
    }
}

/// Effect of LUI or AUIPC.
pub open spec fn exec_u(m: CpuView, u: RVUtype) -> Result<(CpuView, Outcome, bool), Fault> {
    let upper = u.imm20 << 12u32;
    let v = if u.opcode == OP_LUI {
        upper
    } else {
        m.pc.wrapping_add(upper)
    };
    Ok((m.with_reg(u.rd, v), Outcome::Continued, false))
}

/// Effect of JAL.
pub open spec fn exec_j(m: CpuView, j: RV5Jtype) -> Result<(CpuView, Outcome, bool), Fault> {
    let target = m.pc.wrapping_add(imm_value(j.imm, 21));
    Ok((CpuView { pc: target, ..m.with_reg(j.rd, m.pc.wrapping_add(4)) }, Outcome::Continued, true))
}

/// Effect of an environment call.
pub open spec fn exec_ecall(m: CpuView) -> Result<(CpuView, Outcome, bool), Fault> {
    let n = m.regs[REG_SYSCALL as int];
    let arg = m.regs[REG_ARG as int];
    if n == SYS_PRINT_INT {
        Ok((m, Outcome::PrintInt(arg), false))
    } else if n == SYS_PRINT_STR {
        let start = phys(arg);
        let end = scan_end(m.mem, start);
        if end >= RAM_SIZE {
            Err(Fault::OutOfBounds)
        } else {
            Ok((m, Outcome::PrintStr(m.mem.subrange(start, end)), false))
        }
    } else if n == SYS_EXIT {
        Ok((CpuView { state: CpuState::Halted, ..m }, Outcome::Halted, false))
    } else {
        Err(Fault::UnknownSyscall)
    }
}

/// Effect of one decoded instruction, before the program counter and the
/// clock move. The flag is `true` when the instruction set the program
/// counter itself (a jump or a taken branch); every other instruction leaves
/// it on the instruction's own address.
pub open spec fn exec_spec(m: CpuView, ins: RV5Instruction) -> Result<
    (CpuView, Outcome, bool),
    Fault,
> {
    match ins {
        RV5Instruction::R(r) => exec_r(m, r),
        RV5Instruction::I(i) => exec_i(m, i),
        RV5Instruction::S(s) => exec_s(m, s),
        RV5Instruction::SB(b) => exec_sb(m, b),
        RV5Instruction::U(u) => exec_u(m, u),
        RV5Instruction::J(j) => exec_j(m, j),
        RV5Instruction::ECALL => exec_ecall(m),
        RV5Instruction::EBREAK | RV5Instruction::NOP => Ok(
            (CpuView { state: CpuState::Halted, ..m }, Outcome::Halted, false),
        ),
        RV5Instruction::Illegal => Err(Fault::IllegalInstruction),
    }
}

/// One step of the core: a stopped core stays as it is; a fault changes only
/// the state; a retired instruction moves the program counter on by four
/// unless it set it itself, and advances the clock by one.
pub open spec fn step_spec(m: CpuView) -> (CpuView, Outcome) {
    match m.state {
        CpuState::Halted => (m, Outcome::Halted),
        CpuState::Faulted(f) => (m, Outcome::Faulted(f)),
        CpuState::Running => {
            let res = match fetch_spec(m) {
                Ok(w) => exec_spec(m, decode(w)),
                Err(f) => Err(f),
            };
            match res {
                Ok((n, o, redirected)) => {
                    let pc = if redirected {
                        n.pc
                    } else {
                        n.pc.wrapping_add(4)
                    };
                    (CpuView { pc, clk: n.clk.wrapping_add(1), ..n }, o)
                },
                Err(f) => (CpuView { state: CpuState::Faulted(f), ..m }, Outcome::Faulted(f)),
            }
        },
    }
}

/// Memory after placing `bytes` at program address `vaddr`, or the fault
/// when they do not fit.
pub open spec fn load_segment_spec(m: CpuView, vaddr: u64, bytes: Seq<u8>) -> Result<
    CpuView,
    Fault,
> {
    let offset = vaddr - INITIAL_PC;
    if offset >= 0 && in_bounds(offset, bytes.len() as int) {
        Ok(CpuView { mem: spliced(m.mem, offset, bytes), ..m })
    } else {
        Err(Fault::OutOfBounds)
    }
}

/// Why an image could not be loaded.
#[derive(Clone, Copy, Debug, PartialEq, Eq, Structural)]
pub enum LoadError {
    /// The image is not a well-formed ELF file.
    MalformedImage,
    /// A segment does not fit in memory.
    Memory(Fault),
}

/// How a handler's result and the state after it follow `expected`: on
/// success the new state, the outcome and whether the program counter was
/// set; on a fault the error and no change.
pub open spec fn applied(
    before: CpuView,
    after: CpuView,
    r: Result<(StepOutcome, bool), Fault>,
    expected: Result<(CpuView, Outcome, bool), Fault>,
) -> bool {
    match expected {
        Ok((m, o, redirected)) => r is Ok && r->Ok_0.0@ == o && r->Ok_0.1 == redirected && after
            == m,
        Err(f) => r == Err::<(StepOutcome, bool), Fault>(f) && after == before,
    }
}

/// Reinterprets a register value as a two's-complement number.
fn as_signed(v: u32) -> (r: i32)
    ensures
        r == v as i32,
{
    #[verifier::truncate]
    (v as i32)
}

/// Reinterprets a two's-complement number as a register value.
fn as_unsigned(v: i32) -> (r: u32)
    ensures
        r == v as u32,
{
    #[verifier::truncate]
    (v as u32)
}

/// A 32-bit RISC-V core: registers, program counter, clock and memory.
#[derive(Debug)]
pub struct CPU {
    /// General-purpose registers x0..x31.
    pub reg: Vec<u32>,
    /// Program counter.
    pub pc: u32,
    /// Instructions retired.
    pub clk: u64,
    /// Memory.
    pub ram: RAM,
    /// Running, or why execution stopped.
    pub state: CpuState,
}

impl View for CPU {
    type V = CpuView;

    open spec fn view(&self) -> CpuView {
        CpuView { regs: self.reg@, pc: self.pc, clk: self.clk, mem: self.ram@, state: self.state }
    }
}

impl Default for CPU {
    /// A core at reset, as [`CPU::new`].
    fn default() -> (r: Self)
        ensures
            r.wf(),
            r@.regs == Seq::new(REGISTER_COUNT as nat, |i: int| 0u32),
            r@.pc == INITIAL_PC,
            r@.clk == 0,
            r@.mem == Seq::new(RAM_SIZE as nat, |i: int| 0u8),
            r@.state == CpuState::Running,
    {
        CPU::new()
    }
}

impl CPU {
    /// The register file has 32 entries with register 0 at zero, and memory
    /// has its full capacity.
    pub open spec fn wf(&self) -> bool {
        self@.wf()
    }

    /// Whether execution has stopped, normally or on a fault.
    pub fn is_exited(&self) -> (r: bool)
        ensures
            r == (self.state != CpuState::Running),
    {
        match self.state {
            CpuState::Running => false,
            _ => true,
        }
    }

    /// A core at reset: registers zero, the program counter at the reset
    /// vector, the clock at zero, memory zero-filled, running.
    pub fn new() -> (r: Self)
        ensures
            r.wf(),
            r@.regs == Seq::new(REGISTER_COUNT as nat, |i: int| 0u32),
            r@.pc == INITIAL_PC,
            r@.clk == 0,
            r@.mem == Seq::new(RAM_SIZE as nat, |i: int| 0u8),
            r@.state == CpuState::Running,
    {
        let ram = RAM::new();
        let reg = vec![0u32; REGISTER_COUNT];
        let r = CPU { reg, pc: INITIAL_PC, clk: 0, ram, state: CpuState::Running };
        assert(r@.regs =~= Seq::new(REGISTER_COUNT as nat, |i: int| 0u32));
        assert(r@.mem =~= Seq::new(RAM_SIZE as nat, |i: int| 0u8));
        r
    }

    /// Copies `bytes` to program address `vaddr`; nothing is written when they
    /// do not fit in memory.
    pub fn load_segment(&mut self, vaddr: u64, bytes: &[u8]) -> (r: Result<(), Fault>)
        requires
            old(self).wf(),
        ensures
            final(self).wf(),
            match load_segment_spec(old(self)@, vaddr, bytes@) {
                Ok(n) => r is Ok && final(self)@ == n,
                Err(f) => r == Err::<(), Fault>(f) && final(self)@ == old(self)@,
            },
    {
        if vaddr < INITIAL_PC as u64 || vaddr - INITIAL_PC as u64 > RAM_SIZE as u64 {
            return Err(Fault::OutOfBounds);
        }
        self.ram.write_bytes((vaddr - INITIAL_PC as u64) as usize, bytes)
    }

    /// Loads a flat binary at the reset vector.
    pub fn load_instructions(&mut self, binary_data: &[u8]) -> (r: Result<(), Fault>)
        requires
            old(self).wf(),
        ensures
            final(self).wf(),
            match load_segment_spec(old(self)@, INITIAL_PC as u64, binary_data@) {
                Ok(n) => r is Ok && final(self)@ == n,
                Err(f) => r == Err::<(), Fault>(f) && final(self)@ == old(self)@,
            },
    {
        self.load_segment(INITIAL_PC as u64, binary_data)
    }

    /// Loads the `.text.init` section of an ELF image at its address. An
    /// image without that section leaves memory as it is.
    pub fn load_elf(&mut self, binary_data: &[u8]) -> (r: Result<(), LoadError>)
        requires
            old(self).wf(),
        ensures
            final(self).wf(),
            match elf_section(binary_data@, ".text.init"@) {
                None => r == Err::<(), LoadError>(LoadError::MalformedImage)
                    && final(self)@ == old(self)@,
                Some(None) => r is Ok && final(self)@ == old(self)@,
                Some(Some((addr, bytes))) => match load_segment_spec(old(self)@, addr, bytes) {
                    Ok(n) => r is Ok && final(self)@ == n,
                    Err(f) => r == Err::<(), LoadError>(LoadError::Memory(f))
                        && final(self)@ == old(self)@,
                },
            },
    {
        match section_by_name(binary_data, ".text.init") {
            Err(_) => Err(LoadError::MalformedImage),
            Ok(None) => Ok(()),
            Ok(Some((addr, data))) => match self.load_segment(addr, data.as_slice()) {
                Ok(()) => Ok(()),
                Err(f) => Err(LoadError::Memory(f)),
            },
        }
    }

    /// Reads the word that the program counter points at.
    pub fn fetch_ins(&self) -> (r: Result<u32, Fault>)
        requires
            self.wf(),
        ensures
            r == fetch_spec(self@),
    {
        if self.pc % 4 != 0 {
            return Err(Fault::UnalignedAccess);
        }
        let addr = self.pc.wrapping_sub(INITIAL_PC);
        self.ram.read_word(addr as usize)
    }

    fn decode_ins(&self, instruction: u32) -> (r: RV5Instruction)
        ensures
            r == decode(instruction),
            r.regs_in_range(),
    {
        RV5Instruction::new(instruction)
    }

    fn write_reg(&mut self, rd: u32, v: u32)
        requires
            old(self).wf(),
            rd < 32,
        ensures
            final(self)@ == (CpuView { regs: reg_write(old(self)@.regs, rd, v), ..old(self)@ }),
            final(self).wf(),
    {
        if rd != 0 {
            self.reg.set(rd as usize, v);
        }
    }

    fn execute_rtype(&mut self, ins: &RV5Rtype) -> (r: Result<(StepOutcome, bool), Fault>)
        requires
            old(self).wf(),
            RV5Instruction::R(*ins).regs_in_range(),
        ensures
            final(self).wf(),
            applied(old(self)@, final(self)@, r, exec_r(old(self)@, *ins)),
    {
        let a = self.reg[ins.rs1 as usize];
        let b = self.reg[ins.rs2 as usize];
        let shamt = b & 31;
        assert(b & 31 < 32) by (bit_vector);
        let v = if ins.funct7 == 0 {
            if ins.funct3 == 0 {
                a.wrapping_add(b)
            } else if ins.funct3 == 1 {
                a << shamt
            } else if ins.funct3 == 2 {
                if as_signed(a) < as_signed(b) { 1 } else { 0 }
            } else if ins.funct3 == 3 {
                if a < b { 1 } else { 0 }
            } else if ins.funct3 == 4 {
                a ^ b
            } else if ins.funct3 == 5 {
                a >> shamt
            } else if ins.funct3 == 6 {
                a | b
            } else if ins.funct3 == 7 {
                a & b
            } else {
                return Err(Fault::IllegalInstruction);
            }
        } else if ins.funct7 == 0x20 {
            if ins.funct3 == 0 {
                a.wrapping_sub(b)
            } else if ins.funct3 == 5 {
                as_unsigned(as_signed(a) >> shamt)
            } else {
                return Err(Fault::IllegalInstruction);
            }
        } else {
            return Err(Fault::IllegalInstruction);
        };
        self.write_reg(ins.rd, v);
        Ok((StepOutcome::Continued, false))
    }

    fn execute_itype(&mut self, ins: &RV5Itype) -> (r: Result<(StepOutcome, bool), Fault>)
        requires
            old(self).wf(),
            RV5Instruction::I(*ins).regs_in_range(),
        ensures
            final(self).wf(),
            applied(old(self)@, final(self)@, r, exec_i(old(self)@, *ins)),
    {
        let a = self.reg[ins.rs1 as usize];
        let imm = as_unsigned(sign_extend(ins.imm, 12));
        if ins.opcode == OP_IMM {
            let raw_imm = ins.imm;
            let shamt = raw_imm & 31;
            let top = raw_imm >> 5u32;
            assert(raw_imm & 31 < 32) by (bit_vector);
            let v = if ins.funct3 == 0 {
                a.wrapping_add(imm)
            } else if ins.funct3 == 2 {
                if as_signed(a) < as_signed(imm) { 1 } else { 0 }
            } else if ins.funct3 == 3 {
                if a < imm { 1 } else { 0 }
            } else if ins.funct3 == 4 {
                a ^ imm
            } else if ins.funct3 == 6 {
                a | imm
            } else if ins.funct3 == 7 {
                a & imm
            } else if ins.funct3 == 1 && top == 0 {
                a << shamt
            } else if ins.funct3 == 5 && top == 0 {
                a >> shamt
            } else if ins.funct3 == 5 && top == 0x20 {
                as_unsigned(as_signed(a) >> shamt)
            } else {
                return Err(Fault::IllegalInstruction);
            };
            self.write_reg(ins.rd, v);
            Ok((StepOutcome::Continued, false))
        } else if ins.opcode == OP_LOAD {
            let (width, signed): (usize, bool) = if ins.funct3 == 0 {
                (1, true)
            } else if ins.funct3 == 1 {
                (2, true)
            } else if ins.funct3 == 2 {
                (4, false)
            } else if ins.funct3 == 4 {
                (1, false)
            } else if ins.funct3 == 5 {
                (2, false)
            } else {
                return Err(Fault::IllegalInstruction);
            };
            let addr = a.wrapping_add(imm).wrapping_sub(INITIAL_PC);
            let raw = match self.ram.read_value(addr as usize, width) {
                Ok(v) => v,
                Err(f) => return Err(f),
            };
            let v = if signed {
                as_unsigned(sign_extend(raw, 8 * width as u32))
            } else {
                raw
            };
            self.write_reg(ins.rd, v);
            Ok((StepOutcome::Continued, false))
        } else if ins.funct3 == 0 {
            let target = a.wrapping_add(imm) & 0xffff_fffe;
            let ret = self.pc.wrapping_add(4);
            self.write_reg(ins.rd, ret);
            self.pc = target;
            Ok((StepOutcome::Continued, true))
        } else {
            Err(Fault::IllegalInstruction)
        }
    }

    fn execute_stype(&mut self, ins: &RV5Stype) -> (r: Result<(StepOutcome, bool), Fault>)
        requires
            old(self).wf(),
            RV5Instruction::S(*ins).regs_in_range(),
        ensures
            final(self).wf(),
            applied(old(self)@, final(self)@, r, exec_s(old(self)@, *ins)),
    {
        let width: usize = if ins.funct3 == 0 {
            1
        } else if ins.funct3 == 1 {
            2
        } else if ins.funct3 == 2 {
            4
        } else {
            return Err(Fault::IllegalInstruction);
        };
        let imm = as_unsigned(sign_extend(ins.imm, 12));
        let addr = self.reg[ins.rs1 as usize].wrapping_add(imm).wrapping_sub(INITIAL_PC);
        let value = self.reg[ins.rs2 as usize];
        match self.ram.write_value(addr as usize, value, width) {
            Ok(()) => {},
            Err(f) => return Err(f),
        }
        Ok((StepOutcome::Continued, false))
    }

    fn execute_sbtype(&mut self, ins: &RV5SBtype) -> (r: Result<(StepOutcome, bool), Fault>)
        requires
            old(self).wf(),
            RV5Instruction::SB(*ins).regs_in_range(),
        ensures
            final(self).wf(),
            applied(old(self)@, final(self)@, r, exec_sb(old(self)@, *ins)),
    {
        let a = self.reg[ins.rs1 as usize];
        let b = self.reg[ins.rs2 as usize];
        let taken = if ins.funct3 == 0 {
            a == b
        } else if ins.funct3 == 1 {
            a != b
        } else if ins.funct3 == 4 {
            as_signed(a) < as_signed(b)
        } else if ins.funct3 == 5 {
            as_signed(a) >= as_signed(b)
        } else if ins.funct3 == 6 {
            a < b
        } else if ins.funct3 == 7 {
            a >= b
        } else {
            return Err(Fault::IllegalInstruction);
        };
        if taken {
            self.pc = self.pc.wrapping_add(as_unsigned(sign_extend(ins.imm, 13)));
        }
        Ok((StepOutcome::Continued, taken))
    }

    fn execute_utype(&mut self, ins: &RVUtype) -> (r: Result<(StepOutcome, bool), Fault>)
        requires
            old(self).wf(),
            RV5Instruction::U(*ins).regs_in_range(),
        ensures
            final(self).wf(),
            applied(old(self)@, final(self)@, r, exec_u(old(self)@, *ins)),
    {
        let upper = ins.imm20 << 12u32;
        let v = if ins.opcode == OP_LUI {
            upper
        } else {
            self.pc.wrapping_add(upper)
        };
        self.write_reg(ins.rd, v);
        Ok((StepOutcome::Continued, false))
    }

    fn execute_jtype(&mut self, ins: &RV5Jtype) -> (r: Result<(StepOutcome, bool), Fault>)
        requires
            old(self).wf(),
            RV5Instruction::J(*ins).regs_in_range(),
        ensures
            final(self).wf(),
            applied(old(self)@, final(self)@, r, exec_j(old(self)@, *ins)),
    {
        let current_pc = self.pc;
        let offset = as_unsigned(sign_extend(ins.imm, 21));
        self.write_reg(ins.rd, current_pc.wrapping_add(4));
        self.pc = current_pc.wrapping_add(offset);
        Ok((StepOutcome::Continued, true))
    }

    /// The bytes from memory offset `start` up to the first zero byte.
    fn read_c_string(&self, start: usize) -> (r: Result<Vec<u8>, Fault>)
        requires
            self.wf(),
        ensures
            scan_end(self@.mem, start as int) >= RAM_SIZE ==> r == Err::<Vec<u8>, Fault>(
                Fault::OutOfBounds,
            ),
            scan_end(self@.mem, start as int) < RAM_SIZE ==> r is Ok && r->Ok_0@
                == self@.mem.subrange(start as int, scan_end(self@.mem, start as int)),
    {
        let ghost mem = self@.mem;
        let mut out: Vec<u8> = Vec::new();
        if start >= RAM_SIZE {
            return Err(Fault::OutOfBounds);
        }
        let mut i: usize = start;
        while i < RAM_SIZE
            invariant
                self.wf(),
                mem == self@.mem,
                start <= i <= RAM_SIZE,
                scan_end(mem, start as int) == scan_end(mem, i as int),
                out@ == mem.subrange(start as int, i as int),
            decreases RAM_SIZE - i,
        {
            let b = self.ram.data[i];
            if b == 0 {
                return Ok(out);
            }
            out.push(b);
            assert(out@ =~= mem.subrange(start as int, i + 1));
            i += 1;
        }
        Err(Fault::OutOfBounds)
    }

    fn handle_ecall(&mut self) -> (r: Result<(StepOutcome, bool), Fault>)
        requires
            old(self).wf(),
        ensures
            final(self).wf(),
            applied(old(self)@, final(self)@, r, exec_ecall(old(self)@)),
    {
        let n = self.reg[REG_SYSCALL];
        let arg = self.reg[REG_ARG];
        if n == SYS_PRINT_INT {
            Ok((StepOutcome::PrintInt(arg), false))
        } else if n == SYS_PRINT_STR {
            let text = match self.read_c_string(arg.wrapping_sub(INITIAL_PC) as usize) {
                Ok(t) => t,
                Err(f) => return Err(f),
            };
            Ok((StepOutcome::PrintStr(text), false))
        } else if n == SYS_EXIT {
            self.state = CpuState::Halted;
            Ok((StepOutcome::Halted, false))
        } else {
            Err(Fault::UnknownSyscall)
        }
    }

    /// Executes one instruction: fetch, decode, apply its effect, advance the
    /// program counter and the clock. A stopped core is left as it is and
    /// reports the same outcome again.
    pub fn execute_ins(&mut self) -> (r: StepOutcome)
        requires
            old(self).wf(),
        ensures
            final(self).wf(),
            (final(self)@, r@) == step_spec(old(self)@),
            final(self)@.regs[0] == 0,
    {
        match self.state {
            CpuState::Halted => return StepOutcome::Halted,
            CpuState::Faulted(f) => return StepOutcome::Faulted(f),
            CpuState::Running => {},
        }
        let res = match self.fetch_ins() {
            Ok(word) => {
                let ins = self.decode_ins(word);
                match ins {
                    RV5Instruction::R(r) => self.execute_rtype(&r),
                    RV5Instruction::I(i) => self.execute_itype(&i),
                    RV5Instruction::S(s) => self.execute_stype(&s),
                    RV5Instruction::SB(b) => self.execute_sbtype(&b),
                    RV5Instruction::U(u) => self.execute_utype(&u),
                    RV5Instruction::J(j) => self.execute_jtype(&j),
                    RV5Instruction::ECALL => self.handle_ecall(),
                    RV5Instruction::EBREAK | RV5Instruction::NOP => {
                        self.state = CpuState::Halted;
                        Ok((StepOutcome::Halted, false))
                    },
                    RV5Instruction::Illegal => Err(Fault::IllegalInstruction),
                }
            },
            Err(f) => Err(f),
        };
        match res {
            Ok((o, redirected)) => {
                if !redirected {
                    self.pc = self.pc.wrapping_add(4);
                }
                self.clk = self.clk.wrapping_add(1);
                o
            },
            Err(f) => {
                self.state = CpuState::Faulted(f);
                StepOutcome::Faulted(f)
            },
        }
    }
}

} // verus!
