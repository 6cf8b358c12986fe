use vstd::prelude::*;

use crate::cpu::{
    exec_spec, fetch_spec, imm_value, load_kind, phys, step_spec, store_width, CpuState, CpuView,
    Outcome, REG_SYSCALL, SYS_EXIT,
};
use crate::fault::Fault;
use crate::instruction::{
    decode, lemma_decoded_regs_in_range, RV5Instruction, OP_LOAD, WORD_ECALL,
};
use crate::ram::in_bounds;

verus! {

/// The state after `n` steps from `m`.
pub open spec fn run(m: CpuView, n: nat) -> CpuView
    decreases n,
{
    if n == 0 {
        m
    } else {
        run(step_spec(m).0, (n - 1) as nat)
    }
}

/// The memory range, as offset and length, that a load or store reads or
/// writes in state `m`; `None` for every other instruction.
pub open spec fn data_access(m: CpuView, ins: RV5Instruction) -> Option<(int, int)> {
    match ins {
        RV5Instruction::I(i) => if i.opcode == OP_LOAD {
            match load_kind(i.funct3) {
                Some((width, _)) => Some(
                    (phys(m.regs[i.rs1 as int].wrapping_add(imm_value(i.imm, 12))), width as int),
                ),
                None => None,
            }
        } else {
            None
        },
        RV5Instruction::S(s) => match store_width(s.funct3) {
            Some(width) => Some(
                (phys(m.regs[s.rs1 as int].wrapping_add(imm_value(s.imm, 12))), width as int),
            ),
            None => None,
        },
        _ => None,
    }
}

/// Every step keeps the state well formed: in particular register 0 reads
/// zero afterwards, whatever the instruction computed for it.
pub proof fn step_keeps_x0_zero(m: CpuView)
    requires
        m.wf(),
    ensures
        step_spec(m).0.wf(),
        step_spec(m).0.regs[0] == 0,
{
    if m.state == CpuState::Running {
        if let Ok(w) = fetch_spec(m) {
            lemma_decoded_regs_in_range(w);
            if let Ok((n, _, _)) = exec_spec(m, decode(w)) {
                assert(n.wf());
            }
        }
    }
}

/// Replaying the same number of steps from two equal states, such as two
/// freshly reset cores with the same image, gives equal registers, program
/// counter, clock, memory and state after every step.
pub proof fn replay_is_deterministic(a: CpuView, b: CpuView, n: nat)
    requires
        a == b,
    ensures
        run(a, n) == run(b, n),
        step_spec(run(a, n)) == step_spec(run(b, n)),
{
}

/// A load or store whose range passes the end of memory stops the core with
/// `OutOfBounds` and changes nothing else: no byte is written, no register,
/// the program counter and the clock stay.
pub proof fn out_of_bounds_access_faults(m: CpuView)
    requires
        m.wf(),
        m.state == CpuState::Running,
        fetch_spec(m) is Ok,
        data_access(m, decode(fetch_spec(m)->Ok_0)) matches Some((addr, len)) && !in_bounds(
            addr,
            len,
        ),
    ensures
        step_spec(m).0 == (CpuView { state: CpuState::Faulted(Fault::OutOfBounds), ..m }),
        step_spec(m).1 == Outcome::Faulted(Fault::OutOfBounds),
{
}

/// An environment call with the exit number halts the core: the step
/// reports `Halted` and the state becomes `Halted`.
pub proof fn exit_call_halts(m: CpuView)
    requires
        m.wf(),
        m.state == CpuState::Running,
        fetch_spec(m) == Ok::<u32, Fault>(WORD_ECALL),
        m.regs[REG_SYSCALL as int] == SYS_EXIT,
    ensures
        step_spec(m).1 == Outcome::Halted,
        step_spec(m).0.state == CpuState::Halted,
{
}

/// Once the core has halted or faulted, a step changes nothing and reports
/// the same terminal outcome again.
pub proof fn stopped_core_stays(m: CpuView)
    requires
        m.state != CpuState::Running,
    ensures
        step_spec(m).0 == m,
        m.state == CpuState::Halted ==> step_spec(m).1 == Outcome::Halted,
        m.state matches CpuState::Faulted(f) ==> step_spec(m).1 == Outcome::Faulted(f),
{
}

} // verus!
