//! What each instruction, and each engine step, does to the machine,
//! stated on `MachineState`.
use vstd::prelude::*;
use crate::display::{blank_display, collides, drawn};
use crate::emulator::{tick_effect, ChipError, MachineState, Mode, FONT_BASE, FONT_GLYPH_SIZE, MEMORY_SIZE};
use crate::isa::{Op, kk_of, n_of, nnn_of, opcode_of, x_of, y_of};

verus! {

/// Register `Vx` of `instruction`.
pub open spec fn vx(s: MachineState, instruction: u16) -> u8 {
    s.v[x_of(instruction)]
}

/// Register `Vy` of `instruction`.
pub open spec fn vy(s: MachineState, instruction: u16) -> u8 {
    s.v[y_of(instruction)]
}

/// Skips the next instruction when `condition` holds.
pub open spec fn skip_if(s: MachineState, condition: bool) -> MachineState {
    if condition {
        MachineState { pc: (s.pc + 2) as u16, ..s }
    } else {
        s
    }
}

/// Writes `value` to register `x`.
pub open spec fn set_register(s: MachineState, x: int, value: u8) -> MachineState {
    MachineState { v: s.v.update(x, value), ..s }
}

/// Writes `flag` to VF, then `value` to register `x` (which wins if `x` is VF).
pub open spec fn set_with_flag(s: MachineState, x: int, value: u8, flag: bool) -> MachineState {
    MachineState { v: s.v.update(15, if flag { 1u8 } else { 0u8 }).update(x, value), ..s }
}

/// Whether key `k` exists and is down.
pub open spec fn key_down(keypad: Seq<bool>, k: int) -> bool {
    0 <= k < 16 && keypad[k]
}

/// The next state of the generator behind `Cxkk`: a linear congruential
/// step modulo 2^32.
pub open spec fn next_random(state: u32) -> u32 {
    ((state as int * 1103515245 + 12345) % 0x1_0000_0000) as u32
}

/// The random byte drawn from `state`: bits 16 to 23 of the next state.
pub open spec fn random_byte(state: u32) -> u8 {
    ((next_random(state) as int / 0x10000) % 0x100) as u8
}

/// Memory with registers `V0..=Vx` copied to addresses `i..=i + x`.
pub open spec fn store_registers(ram: Seq<u8>, i: int, v: Seq<u8>, x: int) -> Seq<u8> {
    Seq::new(ram.len(), |a: int| if i <= a <= i + x { v[a - i] } else { ram[a] })
}

/// Registers with `V0..=Vx` read from addresses `i..=i + x`.
pub open spec fn load_registers(v: Seq<u8>, ram: Seq<u8>, i: int, x: int) -> Seq<u8> {
    Seq::new(v.len(), |k: int| if k <= x { ram[i + k] } else { v[k] })
}

/// The instruction stored big-endian at `pc` and `pc + 1`.
pub open spec fn fetch_word(ram: Seq<u8>, pc: int) -> u16 {
    (ram[pc] as int * 0x100 + ram[pc + 1] as int) as u16
}

pub open spec fn cls_effect(s: MachineState) -> MachineState {
    MachineState { display: blank_display(), ..s }
}

pub open spec fn ret_effect(s: MachineState) -> Result<MachineState, ChipError> {
    if s.sp == 0 {
        Err(ChipError::StackUnderflow)
    } else if s.sp > 15 {
        Err(ChipError::StackOverflow)
    } else {
        Ok(MachineState { pc: s.stack[s.sp as int], sp: (s.sp - 1) as u8, ..s })
    }
}

pub open spec fn jp_effect(s: MachineState, instruction: u16) -> MachineState {
    MachineState { pc: nnn_of(instruction), ..s }
}

pub open spec fn call_effect(s: MachineState, instruction: u16) -> Result<MachineState, ChipError> {
    if s.sp >= 15 {
        Err(ChipError::StackOverflow)
    } else {
        Ok(
            MachineState {
                sp: (s.sp + 1) as u8,
                stack: s.stack.update(s.sp + 1, s.pc),
                pc: nnn_of(instruction),
                ..s
            },
        )
    }
}

pub open spec fn se_effect(s: MachineState, instruction: u16) -> MachineState {
    skip_if(s, vx(s, instruction) == kk_of(instruction))
}

pub open spec fn sne_effect(s: MachineState, instruction: u16) -> MachineState {
    skip_if(s, vx(s, instruction) != kk_of(instruction))
}

pub open spec fn sev_effect(s: MachineState, instruction: u16) -> MachineState {
    skip_if(s, vx(s, instruction) == vy(s, instruction))
}

pub open spec fn snexy_effect(s: MachineState, instruction: u16) -> MachineState {
    skip_if(s, vx(s, instruction) != vy(s, instruction))
}

pub open spec fn ldx_effect(s: MachineState, instruction: u16) -> MachineState {
    set_register(s, x_of(instruction), kk_of(instruction))
}

pub open spec fn addx_effect(s: MachineState, instruction: u16) -> MachineState {
    set_register(
        s,
        x_of(instruction),
        ((vx(s, instruction) + kk_of(instruction)) % 0x100) as u8,
    )
}

pub open spec fn ldxy_effect(s: MachineState, instruction: u16) -> MachineState {
    set_register(s, x_of(instruction), vy(s, instruction))
}

pub open spec fn orxy_effect(s: MachineState, instruction: u16) -> MachineState {
    set_register(s, x_of(instruction), vx(s, instruction) | vy(s, instruction))
}

pub open spec fn andxy_effect(s: MachineState, instruction: u16) -> MachineState {
    set_register(s, x_of(instruction), vx(s, instruction) & vy(s, instruction))
}

pub open spec fn xorxy_effect(s: MachineState, instruction: u16) -> MachineState {
    set_register(s, x_of(instruction), vx(s, instruction) ^ vy(s, instruction))
}

/// `Vx + Vy` modulo 256, with VF set when the sum exceeds 255.
pub open spec fn addxy_effect(s: MachineState, instruction: u16) -> MachineState {
    let sum = vx(s, instruction) + vy(s, instruction);
    set_with_flag(s, x_of(instruction), (sum % 0x100) as u8, sum > 0xFF)
}

/// `Vx - Vy` modulo 256, with VF set when `Vx > Vy` before the subtraction.
pub open spec fn subxy_effect(s: MachineState, instruction: u16) -> MachineState {
    let a = vx(s, instruction);
    let b = vy(s, instruction);
    set_with_flag(s, x_of(instruction), ((a - b + 0x100) % 0x100) as u8, a > b)
}

/// `Vy - Vx` modulo 256, with VF set when `Vy > Vx` before the subtraction.
pub open spec fn subnxy_effect(s: MachineState, instruction: u16) -> MachineState {
    let a = vx(s, instruction);
    let b = vy(s, instruction);
    set_with_flag(s, x_of(instruction), ((b - a + 0x100) % 0x100) as u8, b > a)
}

/// `Vx` halved, with VF set to the bit shifted out.
pub open spec fn shrxy_effect(s: MachineState, instruction: u16) -> MachineState {
    let a = vx(s, instruction);
    set_with_flag(s, x_of(instruction), a / 2, a % 2 == 1)
}

/// `Vx` doubled modulo 256, with VF set to the bit shifted out.
pub open spec fn shlxy_effect(s: MachineState, instruction: u16) -> MachineState {
    let a = vx(s, instruction);
    set_with_flag(s, x_of(instruction), ((a * 2) % 0x100) as u8, a >= 0x80)
}

pub open spec fn ldi_effect(s: MachineState, instruction: u16) -> MachineState {
    MachineState { i: nnn_of(instruction), ..s }
}

/// Jumps to `nnn + V0`, kept to the 12-bit address space.
pub open spec fn jpv_effect(s: MachineState, instruction: u16) -> MachineState {
    MachineState { pc: ((nnn_of(instruction) + s.v[0]) % 0x1000) as u16, ..s }
}

/// `Vx = byte & kk` for a random `byte` supplied from outside.
pub open spec fn rnd_with_effect(s: MachineState, instruction: u16, byte: u8) -> MachineState {
    set_register(s, x_of(instruction), byte & kk_of(instruction))
}

/// `Cxkk` with the byte drawn from the machine's own generator.
pub open spec fn rnd_effect(s: MachineState, instruction: u16) -> MachineState {
    rnd_with_effect(
        MachineState { random_state: next_random(s.random_state), ..s },
        instruction,
        random_byte(s.random_state),
    )
}

/// The `n` sprite bytes at `I`, XOR-ed onto the display at `(Vx, Vy)`;
/// VF tells whether a lit pixel went dark.
pub open spec fn drw_effect(s: MachineState, instruction: u16) -> Result<MachineState, ChipError> {
    let n = n_of(instruction);
    if s.i + n > MEMORY_SIZE {
        Err(ChipError::MemoryOutOfRange { address: s.i })
    } else {
        let sprite = s.ram.subrange(s.i as int, s.i + n);
        let ox = vx(s, instruction) as int % 64;
        let oy = vy(s, instruction) as int % 32;
        Ok(
            MachineState {
                display: drawn(s.display, sprite, ox, oy),
                v: s.v.update(15, if collides(s.display, sprite, ox, oy) { 1u8 } else { 0u8 }),
                ..s
            },
        )
    }
}

pub open spec fn skp_effect(s: MachineState, instruction: u16) -> MachineState {
    skip_if(s, key_down(s.keypad, vx(s, instruction) as int))
}

pub open spec fn sknp_effect(s: MachineState, instruction: u16) -> MachineState {
    skip_if(s, !key_down(s.keypad, vx(s, instruction) as int))
}

pub open spec fn ldxdt_effect(s: MachineState, instruction: u16) -> MachineState {
    set_register(s, x_of(instruction), s.delay_timer)
}

/// Suspends the engine until a key goes down that is up now.
pub open spec fn ldk_effect(s: MachineState, instruction: u16) -> MachineState {
    MachineState {
        mode: Mode::WaitingForKey { register: x_of(instruction) as u8 },
        held_keys: s.keypad,
        ..s
    }
}

pub open spec fn lddt_effect(s: MachineState, instruction: u16) -> MachineState {
    MachineState { delay_timer: vx(s, instruction), ..s }
}

pub open spec fn ldst_effect(s: MachineState, instruction: u16) -> MachineState {
    MachineState { sound_timer: vx(s, instruction), ..s }
}

/// `I + Vx` modulo 2^16; VF is left alone.
pub open spec fn addi_effect(s: MachineState, instruction: u16) -> MachineState {
    MachineState { i: ((s.i + vx(s, instruction)) % 0x10000) as u16, ..s }
}

/// `I` points at the font sprite of the low nibble of `Vx`.
pub open spec fn ldiv_effect(s: MachineState, instruction: u16) -> MachineState {
    MachineState { i: (FONT_BASE + FONT_GLYPH_SIZE * (vx(s, instruction) % 16)) as u16, ..s }
}

/// Hundreds, tens and ones of `Vx` at `I`, `I + 1`, `I + 2`.
pub open spec fn ldb_effect(s: MachineState, instruction: u16) -> Result<MachineState, ChipError> {
    let a = vx(s, instruction);
    if s.i + 2 >= MEMORY_SIZE {
        Err(ChipError::MemoryOutOfRange { address: s.i })
    } else {
        Ok(
            MachineState {
                ram: s.ram.update(s.i as int, a / 100).update(s.i + 1, (a / 10) % 10).update(
                    s.i + 2,
                    a % 10,
                ),
                ..s
            },
        )
    }
}

pub open spec fn ldii_effect(s: MachineState, instruction: u16) -> Result<MachineState, ChipError> {
    if s.i + x_of(instruction) >= MEMORY_SIZE {
        Err(ChipError::MemoryOutOfRange { address: s.i })
    } else {
        Ok(MachineState { ram: store_registers(s.ram, s.i as int, s.v, x_of(instruction)), ..s })
    }
}

pub open spec fn ldvi_effect(s: MachineState, instruction: u16) -> Result<MachineState, ChipError> {
    if s.i + x_of(instruction) >= MEMORY_SIZE {
        Err(ChipError::MemoryOutOfRange { address: s.i })
    } else {
        Ok(MachineState { v: load_registers(s.v, s.ram, s.i as int, x_of(instruction)), ..s })
    }
}

/// The effect of running `op`, with its operands taken from `instruction`.
#[verifier::opaque]
pub open spec fn execute(s: MachineState, op: Op, instruction: u16) -> Result<MachineState, ChipError> {
    match op {
        Op::Cls => Ok(cls_effect(s)),
        Op::Ret => ret_effect(s),
        Op::Sys => Ok(s),
        Op::Jp => Ok(jp_effect(s, instruction)),
        Op::Call => call_effect(s, instruction),
        Op::SkipEqByte => Ok(se_effect(s, instruction)),
        Op::SkipNeByte => Ok(sne_effect(s, instruction)),
        Op::SkipEqReg => Ok(sev_effect(s, instruction)),
        Op::LoadByte => Ok(ldx_effect(s, instruction)),
        Op::AddByte => Ok(addx_effect(s, instruction)),
        Op::LoadReg => Ok(ldxy_effect(s, instruction)),
        Op::Or => Ok(orxy_effect(s, instruction)),
        Op::And => Ok(andxy_effect(s, instruction)),
        Op::Xor => Ok(xorxy_effect(s, instruction)),
        Op::AddReg => Ok(addxy_effect(s, instruction)),
        Op::Sub => Ok(subxy_effect(s, instruction)),
        Op::ShiftRight => Ok(shrxy_effect(s, instruction)),
        Op::SubReverse => Ok(subnxy_effect(s, instruction)),
        Op::ShiftLeft => Ok(shlxy_effect(s, instruction)),
        Op::SkipNeReg => Ok(snexy_effect(s, instruction)),
        Op::LoadIndex => Ok(ldi_effect(s, instruction)),
        Op::JumpOffset => Ok(jpv_effect(s, instruction)),
        Op::Random => Ok(rnd_effect(s, instruction)),
        Op::Draw => drw_effect(s, instruction),
        Op::SkipKey => Ok(skp_effect(s, instruction)),
        Op::SkipNoKey => Ok(sknp_effect(s, instruction)),
        Op::LoadDelay => Ok(ldxdt_effect(s, instruction)),
        Op::WaitKey => Ok(ldk_effect(s, instruction)),
        Op::SetDelay => Ok(lddt_effect(s, instruction)),
        Op::SetSound => Ok(ldst_effect(s, instruction)),
        Op::AddIndex => Ok(addi_effect(s, instruction)),
        Op::LoadDigit => Ok(ldiv_effect(s, instruction)),
        Op::StoreBcd => ldb_effect(s, instruction),
        Op::StoreRegs => ldii_effect(s, instruction),
        Op::LoadRegs => ldvi_effect(s, instruction),
    }
}

/// The lowest key at or after `k` that is down in `keypad` and was up in
/// `held`; 16 if there is none.
pub open spec fn first_new_key(keypad: Seq<bool>, held: Seq<bool>, k: int) -> int
    decreases 16 - k,
{
    if k >= 16 {
        16
    } else if keypad[k] && !held[k] {
        k
    } else {
        first_new_key(keypad, held, k + 1)
    }
}

/// A step while waiting for a key: a key that went down since the last
/// look ends the wait and its code goes to the waiting register; either way
/// the current keypad becomes the one last looked at.
pub open spec fn resume_effect(s: MachineState, register: u8) -> MachineState {
    let k = first_new_key(s.keypad, s.held_keys, 0);
    if k < 16 {
        MachineState {
            v: s.v.update(register as int % 16, k as u8),
            mode: Mode::Running,
            held_keys: s.keypad,
            ..s
        }
    } else {
        MachineState { held_keys: s.keypad, ..s }
    }
}

/// The effect of `instruction`, run just after its fetch from `pc - 2`:
/// `UnknownOpcode` if it decodes to nothing, else the effect of its kind.
pub open spec fn dispatch(s: MachineState, instruction: u16) -> Result<MachineState, ChipError> {
    match opcode_of(instruction) {
        None => Err(ChipError::UnknownOpcode { instruction, pc: (s.pc - 2) as u16 }),
        Some(op) => execute(s, op, instruction),
    }
}

/// The machine stopped by `error`.
pub open spec fn halt(s: MachineState, error: ChipError) -> MachineState {
    MachineState { mode: Mode::Halted { error }, ..s }
}

/// Where a machine in state `s` stands after asking the engine for one step,
/// and what the step reports. An error halts the machine, otherwise as the
/// fetch left it; a halted machine reports its error again and stays as it is.
pub open spec fn step(s: MachineState) -> (MachineState, Result<(), ChipError>) {
    match s.mode {
        Mode::Halted { error } => (s, Err(error)),
        Mode::WaitingForKey { register } => (resume_effect(s, register), Ok(())),
        Mode::Running => if s.pc + 1 >= MEMORY_SIZE {
            let error = ChipError::MemoryOutOfRange { address: s.pc };
            (halt(s, error), Err(error))
        } else {
            let instruction = fetch_word(s.ram, s.pc as int);
            let fetched = MachineState { pc: (s.pc + 2) as u16, ..s };
            match dispatch(fetched, instruction) {
                Ok(t) => (t, Ok(())),
                Err(e) => (halt(fetched, e), Err(e)),
            }
        },
    }
}

/// Up to `steps` steps, stopping at the first error, which is reported.
pub open spec fn run_steps(s: MachineState, steps: nat) -> (MachineState, Result<(), ChipError>)
    decreases steps,
{
    if steps == 0 {
        (s, Ok(()))
    } else {
        let (t, r) = step(s);
        if r is Err {
            (t, r)
        } else {
            run_steps(t, (steps - 1) as nat)
        }
    }
}

/// One display frame: `steps` steps, then one timer tick if none failed.
pub open spec fn frame(s: MachineState, steps: nat) -> (MachineState, Result<(), ChipError>) {
    let (t, r) = run_steps(s, steps);
    if r is Err {
        (t, r)
    } else {
        (tick_effect(t), r)
    }
}

/// How a call that reports `r` and leaves `after` behind meets `expected`:
/// success with that state, or that error with the machine untouched.
pub open spec fn meets(
    before: MachineState,
    after: MachineState,
    r: Result<(), ChipError>,
    expected: Result<MachineState, ChipError>,
) -> bool {
    match expected {
        Ok(t) => r == Ok::<(), ChipError>(()) && after == t,
        Err(e) => r == Err::<(), ChipError>(e) && after == before,
    }
}

} // verus!
