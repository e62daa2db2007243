//! Laws that relate several instructions or steps of the engine.
use vstd::prelude::*;
use crate::display::blank_display;
use crate::emulator::{ChipError, MachineState, Mode, MEMORY_SIZE};
use crate::isa::{Op, opcode_of, x_of};
use crate::semantics::{cls_effect, execute, fetch_word, ldii_effect, ldvi_effect, step};

verus! {

/// Clearing the screen twice leaves the machine as clearing it once does,
/// with every pixel off.
pub proof fn lemma_cls_idempotent(s: MachineState)
    ensures
        cls_effect(cls_effect(s)) == cls_effect(s),
        cls_effect(s).display == blank_display(),
{
}

/// Storing `V0..=Vx` at `I` (Fx55) and loading `V0..=Vx` back from `I`
/// (Fx65) gives every register the value it had before the store: the load
/// leaves the machine exactly as the store left it.
pub proof fn lemma_store_then_load(s: MachineState, store: u16, load: u16)
    requires
        s.ram.len() == MEMORY_SIZE,
        s.v.len() == 16,
        x_of(store) == x_of(load),
        s.i + x_of(store) < MEMORY_SIZE,
    ensures
        ldii_effect(s, store) is Ok,
        ldvi_effect(ldii_effect(s, store)->Ok_0, load) == ldii_effect(s, store),
        (ldvi_effect(ldii_effect(s, store)->Ok_0, load)->Ok_0).v == s.v,
{
    let t = ldii_effect(s, store)->Ok_0;
    let u = ldvi_effect(t, load)->Ok_0;
    assert(u.v =~= s.v);
    assert(u == t);
}

/// An instruction that decodes to nothing stops the step with
/// `UnknownOpcode`, carrying the instruction and the address it came from;
/// the machine halts and changes nothing else but the program counter's
/// advance past it. (A machine that is waiting for a key or already halted
/// fetches nothing.)
pub proof fn lemma_unknown_opcode(s: MachineState)
    requires
        s.mode == Mode::Running,
        s.pc + 1 < MEMORY_SIZE,
        opcode_of(fetch_word(s.ram, s.pc as int)) is None,
    ensures
        step(s).1 == Err::<(), ChipError>(
            ChipError::UnknownOpcode { instruction: fetch_word(s.ram, s.pc as int), pc: s.pc },
        ),
        step(s).0 == (MachineState {
            pc: (s.pc + 2) as u16,
            mode: Mode::Halted {
                error: ChipError::UnknownOpcode {
                    instruction: fetch_word(s.ram, s.pc as int),
                    pc: s.pc,
                },
            },
            ..s
        }),
{
}

/// A halted machine reports the error that halted it and changes nothing.
pub proof fn lemma_halted_stays_halted(s: MachineState, error: ChipError)
    requires
        s.mode == (Mode::Halted { error }),
    ensures
        step(s) == (s, Err::<(), ChipError>(error)),
{
}

/// An error is final: the step after a failed one reports the same error
/// and leaves the machine exactly as the failed step left it.
pub proof fn lemma_error_is_final(s: MachineState)
    requires
        step(s).1 is Err,
    ensures
        step(s).0.mode == (Mode::Halted { error: step(s).1->Err_0 }),
        step(step(s).0) == step(s),
{
}

/// A step never raises the stack pointer past the last stack slot.
pub proof fn lemma_step_keeps_stack_bound(s: MachineState)
    requires
        s.sp <= 15,
    ensures
        step(s).0.sp <= 15,
{
    reveal(execute);
}

/// Only `00E0` and `Dxyn` write the display: a step that changes it has
/// fetched one of the two.
pub proof fn lemma_display_writers(s: MachineState)
    requires
        step(s).0.display != s.display,
    ensures
        s.mode == Mode::Running,
        s.pc + 1 < MEMORY_SIZE,
        opcode_of(fetch_word(s.ram, s.pc as int)) == Some(Op::Cls) || opcode_of(
            fetch_word(s.ram, s.pc as int),
        ) == Some(Op::Draw),
{
    reveal(execute);
}

} // verus!
