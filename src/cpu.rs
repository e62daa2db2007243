//! Fetch, dispatch, and one handler per instruction. Each handler takes its
//! operands from the raw instruction, whatever its family, and is proved to
//! have the effect that `semantics` gives it.
use vstd::prelude::*;
use crate::display;
use crate::emulator::{ChipError, Emulator, MachineState, Mode, FONT_BASE, FONT_GLYPH_SIZE};
use crate::hex_util::get_nth_nibble;
use crate::isa::{address_operand, byte_operand, decode, Op};
use crate::semantics::{
    addx_effect, addxy_effect, andxy_effect, call_effect, cls_effect, fetch_word, jp_effect,
    ldx_effect, ldxy_effect, meets, orxy_effect, ret_effect, se_effect, sev_effect,
    shlxy_effect, shrxy_effect, sne_effect, snexy_effect, subnxy_effect, subxy_effect,
    xorxy_effect, ldi_effect, jpv_effect, rnd_effect, drw_effect, skp_effect, sknp_effect,
    ldxdt_effect, ldk_effect, lddt_effect, ldst_effect, addi_effect, ldiv_effect, ldb_effect,
    ldii_effect, ldvi_effect, next_random, random_byte, key_down, store_registers,
    load_registers, execute, step, first_new_key, resume_effect, rnd_with_effect, dispatch,
    run_steps, frame,
};

verus! {

/// Reads the instruction at `pc` (high byte first) and advances `pc` past it.
pub fn get_next_instruction(emulator: &mut Emulator) -> (instruction: u16)
    requires
        old(emulator).pc + 1 < 0x1000,
    ensures
        instruction == fetch_word(old(emulator)@.ram, old(emulator).pc as int),
        final(emulator)@ == (MachineState { pc: (old(emulator).pc + 2) as u16, ..old(emulator)@ }),
{
    let pc = emulator.pc as usize;
    let high = emulator.ram[pc] as u16;
    let low = emulator.ram[pc + 1] as u16;
    proof {
        assert(high << 8 == high * 256) by (bit_vector)
            requires
                high <= 0xFF,
        ;
    }
    let instruction: u16 = (high << 8) + low;
    emulator.pc = emulator.pc + 2;
    instruction
}

/// 0nnn: machine-code routines do not exist here; nothing happens.
pub fn sys() {
}

/// 00E0: turns every pixel off.
pub fn cls(emulator: &mut Emulator)
    ensures
        final(emulator)@ == cls_effect(old(emulator)@),
{
    display::clear_display(&mut emulator.display_memory);
}

/// 00EE: returns from a subroutine to the address on top of the stack.
pub fn ret(emulator: &mut Emulator) -> (r: Result<(), ChipError>)
    ensures
        meets(old(emulator)@, final(emulator)@, r, ret_effect(old(emulator)@)),
{
    if emulator.sp == 0 {
        return Err(ChipError::StackUnderflow);
    }
    if emulator.sp > 15 {
        return Err(ChipError::StackOverflow);
    }
    emulator.pc = emulator.stack[emulator.sp as usize];
    emulator.sp = emulator.sp - 1;
    Ok(())
}

/// 1nnn: jumps to `nnn`.
pub fn jp(emulator: &mut Emulator, instruction: u16)
    ensures
        final(emulator)@ == jp_effect(old(emulator)@, instruction),
{
    emulator.pc = address_operand(instruction);
}

/// 2nnn: pushes `pc` and jumps to `nnn`.
pub fn call(emulator: &mut Emulator, instruction: u16) -> (r: Result<(), ChipError>)
    ensures
        meets(old(emulator)@, final(emulator)@, r, call_effect(old(emulator)@, instruction)),
{
    if emulator.sp >= 15 {
        return Err(ChipError::StackOverflow);
    }
    emulator.sp = emulator.sp + 1;
    emulator.stack[emulator.sp as usize] = emulator.pc;
    emulator.pc = address_operand(instruction);
    Ok(())
}

/// 3xkk: skips the next instruction if `Vx == kk`.
pub fn se(emulator: &mut Emulator, instruction: u16)
    requires
        old(emulator).pc <= 0xFFFD,
    ensures
        final(emulator)@ == se_effect(old(emulator)@, instruction),
{
    let x = get_nth_nibble(instruction, 3);
    if emulator.v[x] == byte_operand(instruction) {
        emulator.pc = emulator.pc + 2;
    }
}

/// 4xkk: skips the next instruction if `Vx != kk`.
pub fn sne(emulator: &mut Emulator, instruction: u16)
    requires
        old(emulator).pc <= 0xFFFD,
    ensures
        final(emulator)@ == sne_effect(old(emulator)@, instruction),
{
    let x = get_nth_nibble(instruction, 3);
    if emulator.v[x] != byte_operand(instruction) {
        emulator.pc = emulator.pc + 2;
    }
}

/// 5xy0: skips the next instruction if `Vx == Vy`.
pub fn sev(emulator: &mut Emulator, instruction: u16)
    requires
        old(emulator).pc <= 0xFFFD,
    ensures
        final(emulator)@ == sev_effect(old(emulator)@, instruction),
{
    let x = get_nth_nibble(instruction, 3);
    let y = get_nth_nibble(instruction, 2);
    if emulator.v[x] == emulator.v[y] {
        emulator.pc = emulator.pc + 2;
    }
}

/// 6xkk: `Vx = kk`.
pub fn ldx(emulator: &mut Emulator, instruction: u16)
    ensures
        final(emulator)@ == ldx_effect(old(emulator)@, instruction),
{
    let x = get_nth_nibble(instruction, 3);
    emulator.v[x] = byte_operand(instruction);
}

/// 7xkk: `Vx = Vx + kk` modulo 256; VF is left alone.
pub fn addx(emulator: &mut Emulator, instruction: u16)
    ensures
        final(emulator)@ == addx_effect(old(emulator)@, instruction),
{
    let x = get_nth_nibble(instruction, 3);
    emulator.v[x] = emulator.v[x].wrapping_add(byte_operand(instruction));
}

/// 8xy0: `Vx = Vy`.
pub fn ldxy(emulator: &mut Emulator, instruction: u16)
    ensures
        final(emulator)@ == ldxy_effect(old(emulator)@, instruction),
{
    let x = get_nth_nibble(instruction, 3);
    let y = get_nth_nibble(instruction, 2);
    emulator.v[x] = emulator.v[y];
}

/// 8xy1: `Vx = Vx | Vy`.
pub fn orxy(emulator: &mut Emulator, instruction: u16)
    ensures
        final(emulator)@ == orxy_effect(old(emulator)@, instruction),
{
    let x = get_nth_nibble(instruction, 3);
    let y = get_nth_nibble(instruction, 2);
    emulator.v[x] = emulator.v[x] | emulator.v[y];
}

/// 8xy2: `Vx = Vx & Vy`.
pub fn andxy(emulator: &mut Emulator, instruction: u16)
    ensures
        final(emulator)@ == andxy_effect(old(emulator)@, instruction),
{
    let x = get_nth_nibble(instruction, 3);
    let y = get_nth_nibble(instruction, 2);
    emulator.v[x] = emulator.v[x] & emulator.v[y];
}

/// 8xy3: `Vx = Vx ^ Vy`.
pub fn xorxy(emulator: &mut Emulator, instruction: u16)
    ensures
        final(emulator)@ == xorxy_effect(old(emulator)@, instruction),
{
    let x = get_nth_nibble(instruction, 3);
    let y = get_nth_nibble(instruction, 2);
    emulator.v[x] = emulator.v[x] ^ emulator.v[y];
}

/// 8xy4: `Vx = Vx + Vy` modulo 256, VF = carry. Both operands are read
/// before anything is written, so either may be VF.
pub fn addxy(emulator: &mut Emulator, instruction: u16)
    ensures
        final(emulator)@ == addxy_effect(old(emulator)@, instruction),
{
    let x = get_nth_nibble(instruction, 3);
    let y = get_nth_nibble(instruction, 2);
    let total: u16 = (emulator.v[x] as u16) + (emulator.v[y] as u16);
    emulator.v[0xF] = if total > 0xFF { 1 } else { 0 };
    emulator.v[x] = (total % 0x100) as u8;
}

/// 8xy5: `Vx = Vx - Vy` modulo 256, VF = 1 when `Vx > Vy` beforehand.
pub fn subxy(emulator: &mut Emulator, instruction: u16)
    ensures
        final(emulator)@ == subxy_effect(old(emulator)@, instruction),
{
    let x = get_nth_nibble(instruction, 3);
    let y = get_nth_nibble(instruction, 2);
    let a = emulator.v[x];
    let b = emulator.v[y];
    emulator.v[0xF] = if a > b { 1 } else { 0 };
    emulator.v[x] = a.wrapping_sub(b);
}

/// 8xy6: `Vx = Vx >> 1`, VF = the bit shifted out.
pub fn shrxy(emulator: &mut Emulator, instruction: u16)
    ensures
        final(emulator)@ == shrxy_effect(old(emulator)@, instruction),
{
    let x = get_nth_nibble(instruction, 3);
    let a = emulator.v[x];
    emulator.v[0xF] = a % 2;
    emulator.v[x] = a / 2;
}

/// 8xy7: `Vx = Vy - Vx` modulo 256, VF = 1 when `Vy > Vx` beforehand.
pub fn subnxy(emulator: &mut Emulator, instruction: u16)
    ensures
        final(emulator)@ == subnxy_effect(old(emulator)@, instruction),
{
    let x = get_nth_nibble(instruction, 3);
    let y = get_nth_nibble(instruction, 2);
    let a = emulator.v[x];
    let b = emulator.v[y];
    emulator.v[0xF] = if b > a { 1 } else { 0 };
    emulator.v[x] = b.wrapping_sub(a);
}

/// 8xyE: `Vx = Vx << 1` modulo 256, VF = the bit shifted out.
pub fn shlxy(emulator: &mut Emulator, instruction: u16)
    ensures
        final(emulator)@ == shlxy_effect(old(emulator)@, instruction),
{
    let x = get_nth_nibble(instruction, 3);
    let a = emulator.v[x];
    emulator.v[0xF] = if a & 0x80 == 0x80 { 1 } else { 0 };
    emulator.v[x] = a.wrapping_mul(2);
    proof {
        assert((a & 0x80 == 0x80) == (a >= 0x80)) by (bit_vector);
    }
}

/// 9xy0: skips the next instruction if `Vx != Vy`.
pub fn snexy(emulator: &mut Emulator, instruction: u16)
    requires
        old(emulator).pc <= 0xFFFD,
    ensures
        final(emulator)@ == snexy_effect(old(emulator)@, instruction),
{
    let x = get_nth_nibble(instruction, 3);
    let y = get_nth_nibble(instruction, 2);
    if emulator.v[x] != emulator.v[y] {
        emulator.pc = emulator.pc + 2;
    }
}

/// Annn: `I = nnn`.
pub fn ldi(emulator: &mut Emulator, instruction: u16)
    ensures
        final(emulator)@ == ldi_effect(old(emulator)@, instruction),
{
    emulator.i = address_operand(instruction);
}

/// Bnnn: jumps to `nnn + V0`, kept to the 12-bit address space.
pub fn jpv(emulator: &mut Emulator, instruction: u16)
    ensures
        final(emulator)@ == jpv_effect(old(emulator)@, instruction),
{
    let target: u16 = address_operand(instruction) + emulator.v[0] as u16;
    assert(target & 0x0FFF == target % 0x1000) by (bit_vector);
    emulator.pc = target & 0x0FFF;
}

/// Advances the generator behind `Cxkk` and returns the byte it yields.
pub fn next_random_byte(emulator: &mut Emulator) -> (r: u8)
    ensures
        r == random_byte(old(emulator).random_state),
        final(emulator)@ == (MachineState {
            random_state: next_random(old(emulator).random_state),
            ..old(emulator)@
        }),
{
    let state = emulator.random_state.wrapping_mul(1103515245).wrapping_add(12345);
    proof {
        let s0 = old(emulator).random_state as int;
        let m = 0x1_0000_0000int;
        assert(((s0 * 1103515245) % m + 12345) % m == (s0 * 1103515245 + 12345) % m) by {
            vstd::arithmetic::div_mod::lemma_add_mod_noop(s0 * 1103515245, 12345, m);
            vstd::arithmetic::div_mod::lemma_small_mod(12345nat, m as nat);
        }
    }
    emulator.random_state = state;
    ((state / 0x10000) % 0x100) as u8
}

/// Cxkk with the random `byte` given: `Vx = byte & kk`. Lets a host or a
/// test supply the random bytes itself.
pub fn rnd_with(emulator: &mut Emulator, instruction: u16, byte: u8)
    ensures
        final(emulator)@ == rnd_with_effect(old(emulator)@, instruction, byte),
{
    let x = get_nth_nibble(instruction, 3);
    emulator.v[x] = byte & byte_operand(instruction);
}

/// Cxkk: `Vx = random byte & kk`, the byte drawn from the machine's generator.
pub fn rnd(emulator: &mut Emulator, instruction: u16)
    ensures
        final(emulator)@ == rnd_effect(old(emulator)@, instruction),
{
    let byte = next_random_byte(emulator);
    rnd_with(emulator, instruction, byte);
}

/// Dxyn: XORs the `n`-byte sprite at `I` onto the display at `(Vx, Vy)`,
/// wrapping at the edges; VF = 1 if a lit pixel went dark.
pub fn drw(emulator: &mut Emulator, instruction: u16) -> (r: Result<(), ChipError>)
    ensures
        meets(old(emulator)@, final(emulator)@, r, drw_effect(old(emulator)@, instruction)),
{
    let x = get_nth_nibble(instruction, 3);
    let y = get_nth_nibble(instruction, 2);
    let n = get_nth_nibble(instruction, 1);
    let start = emulator.i as usize;
    if start + n > 0x1000 {
        return Err(ChipError::MemoryOutOfRange { address: emulator.i });
    }
    let vx = emulator.v[x];
    let vy = emulator.v[y];
    let collision = display::draw_sprite(&mut emulator.display_memory, &emulator.ram, start, n, vx, vy);
    emulator.v[0xF] = if collision { 1 } else { 0 };
    Ok(())
}

/// Whether key `k` exists and is down.
fn is_key_down(keypad: &[bool; 0x10], k: u8) -> (r: bool)
    ensures
        r == key_down(keypad@, k as int),
{
    (k as usize) < 0x10 && keypad[k as usize]
}

/// Ex9E: skips the next instruction if the key numbered `Vx` is down.
pub fn skp(emulator: &mut Emulator, instruction: u16)
    requires
        old(emulator).pc <= 0xFFFD,
    ensures
        final(emulator)@ == skp_effect(old(emulator)@, instruction),
{
    let x = get_nth_nibble(instruction, 3);
    if is_key_down(&emulator.keypad, emulator.v[x]) {
        emulator.pc = emulator.pc + 2;
    }
}

/// ExA1: skips the next instruction unless the key numbered `Vx` is down.
pub fn sknp(emulator: &mut Emulator, instruction: u16)
    requires
        old(emulator).pc <= 0xFFFD,
    ensures
        final(emulator)@ == sknp_effect(old(emulator)@, instruction),
{
    let x = get_nth_nibble(instruction, 3);
    if !is_key_down(&emulator.keypad, emulator.v[x]) {
        emulator.pc = emulator.pc + 2;
    }
}

/// Fx07: `Vx = delay timer`.
pub fn ldxdt(emulator: &mut Emulator, instruction: u16)
    ensures
        final(emulator)@ == ldxdt_effect(old(emulator)@, instruction),
{
    let x = get_nth_nibble(instruction, 3);
    emulator.v[x] = emulator.delay_timer;
}

/// Fx0A: suspends the engine until a key goes down, whose code then goes
/// to `Vx` (see `execute_next_instruction`).
pub fn ldk(emulator: &mut Emulator, instruction: u16)
    ensures
        final(emulator)@ == ldk_effect(old(emulator)@, instruction),
{
    let x = get_nth_nibble(instruction, 3);
    emulator.mode = Mode::WaitingForKey { register: x as u8 };
    emulator.held_keys = emulator.keypad;
}

/// Fx15: `delay timer = Vx`.
pub fn lddt(emulator: &mut Emulator, instruction: u16)
    ensures
        final(emulator)@ == lddt_effect(old(emulator)@, instruction),
{
    let x = get_nth_nibble(instruction, 3);
    emulator.delay_timer = emulator.v[x];
}

/// Fx18: `sound timer = Vx`.
pub fn ldst(emulator: &mut Emulator, instruction: u16)
    ensures
        final(emulator)@ == ldst_effect(old(emulator)@, instruction),
{
    let x = get_nth_nibble(instruction, 3);
    emulator.sound_timer = emulator.v[x];
}

/// Fx1E: `I = I + Vx`, wrapping at 16 bits; VF is left alone.
pub fn addi(emulator: &mut Emulator, instruction: u16)
    ensures
        final(emulator)@ == addi_effect(old(emulator)@, instruction),
{
    let x = get_nth_nibble(instruction, 3);
    emulator.i = emulator.i.wrapping_add(emulator.v[x] as u16);
}

/// Fx29: points `I` at the font sprite of the digit in the low nibble of `Vx`.
pub fn ldiv(emulator: &mut Emulator, instruction: u16)
    ensures
        final(emulator)@ == ldiv_effect(old(emulator)@, instruction),
{
    let x = get_nth_nibble(instruction, 3);
    let digit = (emulator.v[x] % 16) as u16;
    emulator.i = FONT_BASE + FONT_GLYPH_SIZE * digit;
}

/// Fx33: stores the hundreds, tens and ones of `Vx` at `I`, `I + 1`, `I + 2`.
pub fn ldb(emulator: &mut Emulator, instruction: u16) -> (r: Result<(), ChipError>)
    ensures
        meets(old(emulator)@, final(emulator)@, r, ldb_effect(old(emulator)@, instruction)),
{
    let x = get_nth_nibble(instruction, 3);
    let at = emulator.i as usize;
    if at + 2 >= 0x1000 {
        return Err(ChipError::MemoryOutOfRange { address: emulator.i });
    }
    let value = emulator.v[x];
    emulator.ram[at] = value / 100;
    emulator.ram[at + 1] = (value / 10) % 10;
    emulator.ram[at + 2] = value % 10;
    Ok(())
}

/// Fx55: copies `V0..=Vx` to memory starting at `I`.
pub fn ldii(emulator: &mut Emulator, instruction: u16) -> (r: Result<(), ChipError>)
    ensures
        meets(old(emulator)@, final(emulator)@, r, ldii_effect(old(emulator)@, instruction)),
{
    let x = get_nth_nibble(instruction, 3);
    let at = emulator.i as usize;
    if at + x >= 0x1000 {
        return Err(ChipError::MemoryOutOfRange { address: emulator.i });
    }
    let mut k: usize = 0;
    while k <= x
        invariant
            x < 16,
            at + x < 0x1000,
            at == old(emulator).i,
            k <= x + 1,
            emulator@ == (MachineState { ram: emulator@.ram, ..old(emulator)@ }),
            emulator@.ram =~= store_registers(old(emulator)@.ram, at as int, old(emulator)@.v, k - 1),
        decreases x + 1 - k,
    {
        emulator.ram[at + k] = emulator.v[k];
        k = k + 1;
    }
    Ok(())
}

/// Fx65: loads `V0..=Vx` from memory starting at `I`.
pub fn ldvi(emulator: &mut Emulator, instruction: u16) -> (r: Result<(), ChipError>)
    ensures
        meets(old(emulator)@, final(emulator)@, r, ldvi_effect(old(emulator)@, instruction)),
{
    let x = get_nth_nibble(instruction, 3);
    let at = emulator.i as usize;
    if at + x >= 0x1000 {
        return Err(ChipError::MemoryOutOfRange { address: emulator.i });
    }
    let mut k: usize = 0;
    while k <= x
        invariant
            x < 16,
            at + x < 0x1000,
            at == old(emulator).i,
            k <= x + 1,
            emulator@ == (MachineState { v: emulator@.v, ..old(emulator)@ }),
            emulator@.v =~= load_registers(old(emulator)@.v, old(emulator)@.ram, at as int, k - 1),
        decreases x + 1 - k,
    {
        emulator.v[k] = emulator.ram[at + k];
        k = k + 1;
    }
    Ok(())
}

/// Runs the handler of `op`, with its operands taken from `instruction`.
fn run_op(emulator: &mut Emulator, op: Op, instruction: u16) -> (r: Result<(), ChipError>)
    requires
        old(emulator).pc <= 0xFFFD,
    ensures
        meets(old(emulator)@, final(emulator)@, r, execute(old(emulator)@, op, instruction)),
{
    reveal(execute);
    match op {
        Op::Cls => {
            cls(emulator);
            Ok(())
        },
        Op::Ret => ret(emulator),
        Op::Sys => {
            sys();
            Ok(())
        },
        Op::Jp => {
            jp(emulator, instruction);
            Ok(())
        },
        Op::Call => call(emulator, instruction),
        Op::SkipEqByte => {
            se(emulator, instruction);
            Ok(())
        },
        Op::SkipNeByte => {
            sne(emulator, instruction);
            Ok(())
        },
        Op::SkipEqReg => {
            sev(emulator, instruction);
            Ok(())
        },
        Op::LoadByte => {
            ldx(emulator, instruction);
            Ok(())
        },
        Op::AddByte => {
            addx(emulator, instruction);
            Ok(())
        },
        Op::LoadReg => {
            ldxy(emulator, instruction);
            Ok(())
        },
        Op::Or => {
            orxy(emulator, instruction);
            Ok(())
        },
        Op::And => {
            andxy(emulator, instruction);
            Ok(())
        },
        Op::Xor => {
            xorxy(emulator, instruction);
            Ok(())
        },
        Op::AddReg => {
            addxy(emulator, instruction);
            Ok(())
        },
        Op::Sub => {
            subxy(emulator, instruction);
            Ok(())
        },
        Op::ShiftRight => {
            shrxy(emulator, instruction);
            Ok(())
        },
        Op::SubReverse => {
            subnxy(emulator, instruction);
            Ok(())
        },
        Op::ShiftLeft => {
            shlxy(emulator, instruction);
            Ok(())
        },
        Op::SkipNeReg => {
            snexy(emulator, instruction);
            Ok(())
        },
        Op::LoadIndex => {
            ldi(emulator, instruction);
            Ok(())
        },
        Op::JumpOffset => {
            jpv(emulator, instruction);
            Ok(())
        },
        Op::Random => {
            rnd(emulator, instruction);
            Ok(())
        },
        Op::Draw => drw(emulator, instruction),
        Op::SkipKey => {
            skp(emulator, instruction);
            Ok(())
        },
        Op::SkipNoKey => {
            sknp(emulator, instruction);
            Ok(())
        },
        Op::LoadDelay => {
            ldxdt(emulator, instruction);
            Ok(())
        },
        Op::WaitKey => {
            ldk(emulator, instruction);
            Ok(())
        },
        Op::SetDelay => {
            lddt(emulator, instruction);
            Ok(())
        },
        Op::SetSound => {
            ldst(emulator, instruction);
            Ok(())
        },
        Op::AddIndex => {
            addi(emulator, instruction);
            Ok(())
        },
        Op::LoadDigit => {
            ldiv(emulator, instruction);
            Ok(())
        },
        Op::StoreBcd => ldb(emulator, instruction),
        Op::StoreRegs => ldii(emulator, instruction),
        Op::LoadRegs => ldvi(emulator, instruction),
    }
}

/// Decodes `instruction`, fetched just before from `pc - 2`, and runs its
/// handler. An instruction that decodes to nothing gives `UnknownOpcode`
/// with that address and changes nothing.
pub fn call_instruction(emulator: &mut Emulator, instruction: u16) -> (r: Result<(), ChipError>)
    requires
        2 <= old(emulator).pc <= 0xFFFD,
    ensures
        meets(old(emulator)@, final(emulator)@, r, dispatch(old(emulator)@, instruction)),
{
    match decode(instruction) {
        None => Err(ChipError::UnknownOpcode { instruction, pc: emulator.pc - 2 }),
        Some(op) => run_op(emulator, op, instruction),
    }
}

/// One look at the keypad while waiting for a key: a key that went down
/// since the last look ends the wait and its code goes to `register`.
fn resume(emulator: &mut Emulator, register: u8)
    ensures
        final(emulator)@ == resume_effect(old(emulator)@, register),
{
    let mut k: usize = 0;
    while k < 16 && !(emulator.keypad[k] && !emulator.held_keys[k])
        invariant
            k <= 16,
            emulator@ == old(emulator)@,
            first_new_key(emulator@.keypad, emulator@.held_keys, 0) == first_new_key(
                emulator@.keypad,
                emulator@.held_keys,
                k as int,
            ),
        decreases 16 - k,
    {
        k = k + 1;
    }
    if k < 16 {
        emulator.v[(register % 16) as usize] = k as u8;
        emulator.mode = Mode::Running;
    }
    emulator.held_keys = emulator.keypad;
}

/// One step of the engine. A halted machine reports its error again and
/// changes nothing. While waiting for a key the engine only looks at the
/// keypad. Otherwise it fetches the instruction at `pc`, advances `pc` past
/// it, decodes it and runs it. An error halts the machine, which otherwise
/// stays as the fetch left it; an instruction that decodes to nothing gives
/// `UnknownOpcode` with the address it was fetched from.
pub fn execute_next_instruction(emulator: &mut Emulator) -> (r: Result<(), ChipError>)
    ensures
        (final(emulator)@, r) == step(old(emulator)@),
{
    match emulator.mode {
        Mode::Halted { error } => Err(error),
        Mode::WaitingForKey { register } => {
            resume(emulator, register);
            Ok(())
        },
        Mode::Running => {
            let at = emulator.pc;
            if at as usize + 1 >= 0x1000 {
                let error = ChipError::MemoryOutOfRange { address: at };
                emulator.mode = Mode::Halted { error };
                return Err(error);
            }
            let instruction: u16 = get_next_instruction(emulator);
            let r = call_instruction(emulator, instruction);
            if let Err(error) = r {
                emulator.mode = Mode::Halted { error };
            }
            r
        },
    }
}

/// One display frame: up to `steps` steps, stopping at the first error,
/// which is returned; when none fails, one 60 Hz timer tick follows.
pub fn run_frame(emulator: &mut Emulator, steps: usize) -> (r: Result<(), ChipError>)
    ensures
        (final(emulator)@, r) == frame(old(emulator)@, steps as nat),
{
    let mut done: usize = 0;
    while done < steps
        invariant
            done <= steps,
            run_steps(old(emulator)@, steps as nat) == run_steps(emulator@, (steps - done) as nat),
        decreases steps - done,
    {
        let r = execute_next_instruction(emulator);
        if r.is_err() {
            return r;
        }
        done = done + 1;
    }
    emulator.tick_timers();
    Ok(())
}

} // verus!
