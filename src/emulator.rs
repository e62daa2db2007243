use vstd::prelude::*;

verus! {

/// Bytes of addressable memory.
pub const MEMORY_SIZE: usize = 0x1000;

/// Address at which programs are loaded; everything below is reserved.
pub const PROGRAM_START: usize = 0x200;

/// Address of the sprite for hexadecimal digit 0; digit `d` starts at
/// `FONT_BASE + 5 * d`.
pub const FONT_BASE: u16 = 0x050;

/// Bytes in one digit sprite of the built-in font.
pub const FONT_GLYPH_SIZE: u16 = 5;

/// Whether the engine fetches instructions or is suspended by `Fx0A`.
#[derive(Debug, Clone, Copy, PartialEq, Eq)]
pub enum Mode {
    Running,
    /// Suspended until a key goes down that was up at the previous look
    /// (`Emulator::held_keys`); `register` then receives its code.
    WaitingForKey { register: u8 },
    /// Stopped for good by `error`: every later step reports it again and
    /// changes nothing.
    Halted { error: ChipError },
}

/// Conditions that stop the machine.
#[derive(Debug, Clone, Copy, PartialEq, Eq)]
pub enum ChipError {
    /// No instruction has this encoding; `pc` is where it was fetched.
    UnknownOpcode { instruction: u16, pc: u16 },
    /// A call with every stack slot in use, or a stack pointer past the stack.
    StackOverflow,
    /// A return with an empty stack.
    StackUnderflow,
    /// A program that does not fit between `PROGRAM_START` and the end of memory.
    ProgramTooLarge,
    /// An access starting at `address` would run past the end of memory.
    MemoryOutOfRange { address: u16 },
}

/// The whole machine: registers, stack, memory, display, keypad and timers.
///
/// The stack grows upward from slot 1: a call first raises `sp`, then stores
/// the return address at `stack[sp]`; slot 0 stays unused.
#[derive(Debug)]
pub struct Emulator {
    pub pc: u16,
    pub sp: u8,
    pub stack: [u16; 0x10],
    pub ram: [u8; 0x1000],
    pub display_memory: [bool; 0x800],
    pub v: [u8; 0x10],
    pub i: u16,
    /// Count down at 60 Hz while non-zero (see `tick_timers`).
    pub delay_timer: u8,
    pub sound_timer: u8,
    /// Key `k` is down exactly when `keypad[k]`; written by the host.
    pub keypad: [bool; 0x10],
    pub mode: Mode,
    /// The keypad as the engine last looked at it while waiting for a key.
    pub held_keys: [bool; 0x10],
    /// State of the generator behind `Cxkk`; set it to choose the sequence.
    pub random_state: u32,
}

/// The machine as mathematical values.
pub ghost struct MachineState {
    pub pc: u16,
    pub sp: u8,
    pub stack: Seq<u16>,
    pub ram: Seq<u8>,
    pub display: Seq<bool>,
    pub v: Seq<u8>,
    pub i: u16,
    pub delay_timer: u8,
    pub sound_timer: u8,
    pub keypad: Seq<bool>,
    pub mode: Mode,
    pub held_keys: Seq<bool>,
    pub random_state: u32,
}

impl View for Emulator {
    type V = MachineState;

    open spec fn view(&self) -> MachineState {
        MachineState {
            pc: self.pc,
            sp: self.sp,
            stack: self.stack@,
            ram: self.ram@,
            display: self.display_memory@,
            v: self.v@,
            i: self.i,
            delay_timer: self.delay_timer,
            sound_timer: self.sound_timer,
            keypad: self.keypad@,
            mode: self.mode,
            held_keys: self.held_keys@,
            random_state: self.random_state,
        }
    }
}

/// The sprites of the hexadecimal digits 0 to F, five rows each.
pub open spec fn font() -> Seq<u8> {
    seq![
        0xF0u8, 0x90, 0x90, 0x90, 0xF0, // 0
        0x20, 0x60, 0x20, 0x20, 0x70, // 1
        0xF0, 0x10, 0xF0, 0x80, 0xF0, // 2
        0xF0, 0x10, 0xF0, 0x10, 0xF0, // 3
        0x90, 0x90, 0xF0, 0x10, 0x10, // 4
        0xF0, 0x80, 0xF0, 0x10, 0xF0, // 5
        0xF0, 0x80, 0xF0, 0x90, 0xF0, // 6
        0xF0, 0x10, 0x20, 0x40, 0x40, // 7
        0xF0, 0x90, 0xF0, 0x90, 0xF0, // 8
        0xF0, 0x90, 0xF0, 0x10, 0xF0, // 9
        0xF0, 0x90, 0xF0, 0x90, 0x90, // A
        0xE0, 0x90, 0xE0, 0x90, 0xE0, // B
        0xF0, 0x80, 0x80, 0x80, 0xF0, // C
        0xE0, 0x90, 0x90, 0x90, 0xE0, // D
        0xF0, 0x80, 0xF0, 0x80, 0xF0, // E
        0xF0, 0x80, 0xF0, 0x80, 0x80, // F
    ]
}

/// Memory right after reset: zero everywhere but the font.
pub open spec fn reset_memory() -> Seq<u8> {
    Seq::new(
        MEMORY_SIZE as nat,
        |a: int|
            if FONT_BASE as int <= a < FONT_BASE as int + font().len() {
                font()[a - FONT_BASE as int]
            } else {
                0u8
            },
    )
}

/// The machine right after reset.
pub open spec fn reset_state() -> MachineState {
    MachineState {
        pc: 0,
        sp: 0,
        stack: Seq::new(16, |k: int| 0u16),
        ram: reset_memory(),
        display: Seq::new(0x800, |p: int| false),
        v: Seq::new(16, |k: int| 0u8),
        i: 0,
        delay_timer: 0,
        sound_timer: 0,
        keypad: Seq::new(16, |k: int| false),
        mode: Mode::Running,
        held_keys: Seq::new(16, |k: int| false),
        random_state: 1,
    }
}

impl Default for Emulator {
    fn default() -> (r: Self)
        ensures
            r@ == reset_state(),
    {
        let glyphs: [u8; 80] = [
            0xF0, 0x90, 0x90, 0x90, 0xF0, 0x20, 0x60, 0x20, 0x20, 0x70,
            0xF0, 0x10, 0xF0, 0x80, 0xF0, 0xF0, 0x10, 0xF0, 0x10, 0xF0,
            0x90, 0x90, 0xF0, 0x10, 0x10, 0xF0, 0x80, 0xF0, 0x10, 0xF0,
            0xF0, 0x80, 0xF0, 0x90, 0xF0, 0xF0, 0x10, 0x20, 0x40, 0x40,
            0xF0, 0x90, 0xF0, 0x90, 0xF0, 0xF0, 0x90, 0xF0, 0x10, 0xF0,
            0xF0, 0x90, 0xF0, 0x90, 0x90, 0xE0, 0x90, 0xE0, 0x90, 0xE0,
            0xF0, 0x80, 0x80, 0x80, 0xF0, 0xE0, 0x90, 0x90, 0x90, 0xE0,
            0xF0, 0x80, 0xF0, 0x80, 0xF0, 0xF0, 0x80, 0xF0, 0x80, 0x80,
        ];
        assert(glyphs@ == font());
        let mut ram: [u8; 0x1000] = [0; 0x1000];
        let mut k: usize = 0;
        while k < 80
            invariant
                k <= 80,
                glyphs@ == font(),
                ram@.len() == MEMORY_SIZE,
                forall|a: int|
                    0 <= a < MEMORY_SIZE ==> #[trigger] ram@[a] == if FONT_BASE as int <= a
                        < FONT_BASE as int + k {
                        font()[a - FONT_BASE as int]
                    } else {
                        0u8
                    },
            decreases 80 - k,
        {
            ram[FONT_BASE as usize + k] = glyphs[k];
            k = k + 1;
        }
        let e = Emulator {
            pc: 0,
            sp: 0,
            stack: [0; 0x10],
            ram,
            display_memory: [false; 0x800],
            v: [0; 0x10],
            i: 0,
            delay_timer: 0,
            sound_timer: 0,
            keypad: [false; 0x10],
            mode: Mode::Running,
            held_keys: [false; 0x10],
            random_state: 1,
        };
        assert(e@.ram =~= reset_memory());
        assert(e@.stack =~= reset_state().stack);
        assert(e@.display =~= reset_state().display);
        assert(e@.v =~= reset_state().v);
        assert(e@.keypad =~= reset_state().keypad);
        assert(e@.held_keys =~= reset_state().held_keys);
        e
    }
}

/// Memory with `program` written from `PROGRAM_START` on.
pub open spec fn loaded(ram: Seq<u8>, program: Seq<u8>) -> Seq<u8> {
    Seq::new(
        ram.len(),
        |a: int|
            if PROGRAM_START <= a < PROGRAM_START + program.len() {
                program[a - PROGRAM_START]
            } else {
                ram[a]
            },
    )
}

/// A timer one tick later: one less, but never below zero.
pub open spec fn ticked(timer: u8) -> u8 {
    if timer > 0 {
        (timer - 1) as u8
    } else {
        0
    }
}

/// The machine one 60 Hz tick later.
pub open spec fn tick_effect(s: MachineState) -> MachineState {
    if s.mode is Halted {
        s
    } else {
        MachineState {
            delay_timer: ticked(s.delay_timer),
            sound_timer: ticked(s.sound_timer),
            ..s
        }
    }
}

impl Emulator {
    /// Writes `program` into memory from `PROGRAM_START` on and points `pc`
    /// at its first instruction; a program longer than the memory above
    /// `PROGRAM_START` is refused and nothing changes.
    pub fn load_program(&mut self, program: &[u8]) -> (r: Result<(), ChipError>)
        ensures
            program@.len() > MEMORY_SIZE - PROGRAM_START ==> r == Err::<(), ChipError>(
                ChipError::ProgramTooLarge,
            ) && final(self)@ == old(self)@,
            program@.len() <= MEMORY_SIZE - PROGRAM_START ==> r == Ok::<(), ChipError>(())
                && final(self)@ == (MachineState {
                ram: loaded(old(self)@.ram, program@),
                pc: PROGRAM_START as u16,
                ..old(self)@
            }),
    {
        if program.len() > MEMORY_SIZE - PROGRAM_START {
            return Err(ChipError::ProgramTooLarge);
        }
        let mut k: usize = 0;
        while k < program.len()
            invariant
                program@.len() <= MEMORY_SIZE - PROGRAM_START,
                k <= program@.len(),
                self@ == (MachineState { ram: self@.ram, ..old(self)@ }),
                self@.ram =~= loaded(old(self)@.ram, program@.take(k as int)),
            decreases program@.len() - k,
        {
            self.ram[PROGRAM_START + k] = program[k];
            k = k + 1;
        }
        assert(program@.take(k as int) =~= program@);
        self.pc = PROGRAM_START as u16;
        Ok(())
    }

    /// One 60 Hz tick: each timer that is not zero goes down by one. A
    /// halted machine is left as it is.
    pub fn tick_timers(&mut self)
        ensures
            final(self)@ == tick_effect(old(self)@),
    {
        if let Mode::Halted { .. } = self.mode {
            return;
        }
        if self.delay_timer > 0 {
            self.delay_timer = self.delay_timer - 1;
        }
        if self.sound_timer > 0 {
            self.sound_timer = self.sound_timer - 1;
        }
    }

    /// Whether the tone should sound: the sound timer is not zero.
    pub fn sound_active(&self) -> (r: bool)
        ensures
            r == (self.sound_timer > 0),
    {
        self.sound_timer > 0
    }
}

} // verus!
