use chip8::emulator::Emulator;

#[test]
fn get_next_instruction() {
    // arrange
    let mut emulator = Emulator::default();
    emulator.pc = 2;
    emulator.ram = [0; 0x1000];

    emulator.ram[2] = 0xAB;
    emulator.ram[3] = 0xCD;

    let expected_pc: u16 = 4; // incremented by 2
    let expected_instruction: u16 = 0xABCD;

    // act
    let next_instruction = chip8::cpu::get_next_instruction(&mut emulator);

    // assert
    assert_eq!(expected_pc, emulator.pc);
    assert_eq!(expected_instruction, next_instruction);
}

////////////////////////////// INSTRUCTIONS ////////////////////////////////////////

#[test]
fn sys() {
    // act
    chip8::cpu::sys();

    // assert
    assert!(true)
}

#[test]
fn cls() {
    // arrange
    let mut emulator = Emulator::default();
    emulator.display_memory = [true; 0x800];

    let expected_display_mem: [bool; 0x800] = [false; 0x800];

    // act
    chip8::cpu::cls(&mut emulator);

    // assert
    assert!(emulator.display_memory.iter().eq(expected_display_mem.iter()));
}

#[test]
fn ret() {
    // arrange
    let mut emulator = Emulator::default();
    emulator.sp = 5;
    emulator.stack = [0xFE;0x10];

    let expected_pc: u16 = 0xFE;
    let expected_sp: u8 = 4;

    // act
    chip8::cpu::ret(&mut emulator);

    // assert
    assert_eq!(expected_pc, emulator.pc);
    assert_eq!(expected_sp, emulator.sp);
}

#[test]
fn jp() {
    // arrange
    let mut emulator = Emulator::default();

    let expected_pc: u16 = 0x0123;
    let instruction: u16 = 0x1123;

    // act
    chip8::cpu::jp(&mut emulator, instruction);

    // assert
    assert_eq!(emulator.pc, expected_pc);
}

#[test]
fn call() {
    // arrange
    let mut emulator = Emulator::default();
    emulator.pc = 0x0456;

    let expected_sp: u8 = 1;
    let expected_stack_value = 0x0456; // current pc pushed onto stack
    let instruction: u16 = 0x2123;
    let expected_pc = 0x0123;

    // act
    chip8::cpu::call(&mut emulator, instruction);

    // assert
    assert_eq!(emulator.pc, expected_pc);
    assert_eq!(emulator.sp, expected_sp);
    assert_eq!(emulator.stack[emulator.sp as usize], expected_stack_value);
}

#[test]
fn se() {
    // arrange
    let mut emulator = Emulator::default();
    emulator.v[4] = 0x56;

    let eq_instruction = 0x3456;
    let neq_instruction = 0x3457;

    chip8::cpu::se(&mut emulator, eq_instruction);
    assert_eq!(emulator.pc, 2);

    // not equal, dont increment
    chip8::cpu::se(&mut emulator, neq_instruction);
    assert_eq!(emulator.pc, 2);
}

#[test]
fn sne() {
    // arrange
    let mut emulator = Emulator::default();
    emulator.v[4] = 0x56;

    let eq_instruction = 0x4456;
    let neq_instruction = 0x4457;

    chip8::cpu::sne(&mut emulator, eq_instruction);
    assert_eq!(emulator.pc, 0);

    // equal, dont increment
    chip8::cpu::sne(&mut emulator, neq_instruction);
    assert_eq!(emulator.pc, 2);
}

#[test]
fn sev() {
    // arrange
    let mut emulator = Emulator::default();
    emulator.v[4] = 0x56;
    emulator.v[5] = 0x56;

    let eq_instruction = 0x5450;
    let neq_instruction = 0x5460;

    chip8::cpu::sev(&mut emulator, eq_instruction);
    assert_eq!(emulator.pc, 2);

    // not equal, dont increment
    chip8::cpu::sev(&mut emulator, neq_instruction);
    assert_eq!(emulator.pc, 2);
}

#[test]
fn ldx() {
    // arrange
    let mut emulator = Emulator::default();

    // act
    let instruction = 0x7450;

    // assert
    chip8::cpu::ldx(&mut emulator, instruction);
    assert_eq!(emulator.v[4], 0x50);
}

#[test]
fn addx() {
    // arrange
    let mut emulator = Emulator::default();
    emulator.v[4] = 0x1;

    // act
    let instruction = 0x7450;

    // assert
    chip8::cpu::addx(&mut emulator, instruction);
    assert_eq!(emulator.v[4], 0x51);
}

#[test]
fn ldxy() {
    // arrange
    let mut emulator = Emulator::default();
    emulator.v[5] = 0x2;

    // act
    let instruction = 0x8450;

    // assert
    chip8::cpu::ldxy(&mut emulator, instruction);
    assert_eq!(emulator.v[4], emulator.v[5]);
}

#[test]
fn orxy() {
    // arrange
    let mut emulator = Emulator::default();
    emulator.v[4] = 0x8;
    emulator.v[5] = 0x4;

    // act
    let instruction = 0x8451;

    // assert
    chip8::cpu::orxy(&mut emulator, instruction);
    assert_eq!(emulator.v[4], 0xC);
}

#[test]
fn andxy() {
    // arrange
    let mut emulator = Emulator::default();
    emulator.v[4] = 0xC;
    emulator.v[5] = 0x4;

    // act
    let instruction = 0x8452;

    // assert
    chip8::cpu::andxy(&mut emulator, instruction);
    assert_eq!(emulator.v[4], 0x4);
}

#[test]
fn xorxy() {
    // arrange
    let mut emulator = Emulator::default();
    emulator.v[4] = 0xC;
    emulator.v[5] = 0x4;

    // act
    let instruction = 0x8453;

    // assert
    chip8::cpu::xorxy(&mut emulator, instruction);
    assert_eq!(emulator.v[4], 0x8);
}

#[test]
fn addxy() {
    // arrange
    let mut emulator = Emulator::default();
    emulator.v[4] = 0xFF;
    emulator.v[5] = 0x3;

    // act
    let instruction = 0x8454;

    // assert
    chip8::cpu::addxy(&mut emulator, instruction);
    assert_eq!(emulator.v[4], 0x2);
    assert_eq!(emulator.v[0xF], 0x1);
}

#[test]
fn subxy() {
    // arrange
    let mut emulator = Emulator::default();
    emulator.v[4] = 0xFF;
    emulator.v[5] = 0x3;

    // act
    let instruction = 0x8455;

    // assert
    chip8::cpu::subxy(&mut emulator, instruction);
    assert_eq!(emulator.v[4], 0xFC);
    assert_eq!(emulator.v[0xF], 0x1);
}


#[test]
fn shrxy() {
    // arrange
    let mut emulator = Emulator::default();
    emulator.v[4] = 0xFF;

    // act
    let instruction = 0x8456;

    // assert
    chip8::cpu::shrxy(&mut emulator, instruction);
    assert_eq!(emulator.v[4], 0x7F);
    assert_eq!(emulator.v[0xF], 0x1);
}

#[test]
fn subnxy() {
    // arrange
    let mut emulator = Emulator::default();
    emulator.v[4] = 0x3;
    emulator.v[5] = 0xFF;

    // act
    let instruction = 0x8457;

    // assert
    chip8::cpu::subnxy(&mut emulator, instruction);
    assert_eq!(emulator.v[4], 0xFC);
    assert_eq!(emulator.v[0xF], 0x1);
}


#[test]
fn shlxy() {
    // arrange
    let mut emulator = Emulator::default();
    emulator.v[4] = 0xF0;

    // act
    let instruction = 0x845E;

    // assert
    chip8::cpu::shlxy(&mut emulator, instruction);
    assert_eq!(emulator.v[4], 0xE0);
    assert_eq!(emulator.v[0xF], 0x1);
}

#[test]
fn snexy() {
    // arrange
    let mut emulator = Emulator::default();
    emulator.v[4] = 0x56;
    emulator.v[5] = 0x57;

    let instruction = 0x9450;

    chip8::cpu::snexy(&mut emulator, instruction);
    assert_eq!(emulator.pc, 2);
}

#[test]
fn ldi() {
    // arrange
    let mut emulator = Emulator::default();
    
    let instruction = 0xA450;

    // act
    chip8::cpu::ldi(&mut emulator, instruction);

    // assert
    assert_eq!(emulator.i, 0x450);
}

#[test]
fn jpv() {
    // arrange
    let mut emulator = Emulator::default();
    emulator.v[0] = 0x1;
    let instruction = 0xB450;

    // act
    chip8::cpu::jpv(&mut emulator, instruction);

    // assert
    assert_eq!(emulator.pc, 0x451);
}

#[test]
fn rnd() {
    // arrange
    let mut emulator = Emulator::default();
    
    let instruction = 0xC410;

    // act
    chip8::cpu::rnd(&mut emulator, instruction);

    // assert
    assert!(emulator.v[4] <= 0x10);
}

#[test]
fn drw() {
    // arrange: the font sprite of 0 at (0, 0)
    let mut emulator = Emulator::default();
    emulator.i = 0x50;
    emulator.v[0xF] = 7;

    // act
    let first = chip8::cpu::drw(&mut emulator, 0xD005);

    // assert: top row 0xF0 lights x = 0..4, the second row 0x90 lights x = 0 and 3
    assert_eq!(first, Ok(()));
    assert!(emulator.display_memory[0]);
    assert!(emulator.display_memory[3]);
    assert!(!emulator.display_memory[4]);
    assert!(emulator.display_memory[64]);
    assert!(!emulator.display_memory[65]);
    assert!(emulator.display_memory[67]);
    assert_eq!(emulator.v[0xF], 0);

    // drawing it again erases it and reports the collision
    let second = chip8::cpu::drw(&mut emulator, 0xD005);
    assert_eq!(second, Ok(()));
    assert!(emulator.display_memory.iter().all(|p| !p));
    assert_eq!(emulator.v[0xF], 1);
}

#[test]
fn skp() {
    // arrange
    let mut emulator = Emulator::default();
    emulator.v[4] = 0x7;
    emulator.keypad[7] = true;

    // act
    chip8::cpu::skp(&mut emulator, 0xE49E);
    assert_eq!(emulator.pc, 2);

    // released: no skip
    emulator.keypad[7] = false;
    chip8::cpu::skp(&mut emulator, 0xE49E);
    assert_eq!(emulator.pc, 2);
}

#[test]
fn sknp() {
    // arrange
    let mut emulator = Emulator::default();
    emulator.v[4] = 0x7;
    emulator.keypad[7] = true;

    // pressed: no skip
    chip8::cpu::sknp(&mut emulator, 0xE4A1);
    assert_eq!(emulator.pc, 0);

    // released: skip
    emulator.keypad[7] = false;
    chip8::cpu::sknp(&mut emulator, 0xE4A1);
    assert_eq!(emulator.pc, 2);
}

#[test]
fn ldxdt() {
    // arrange
    let mut emulator = Emulator::default();
    emulator.delay_timer = 0x10;

    let instruction = 0xF407;

    // act
    chip8::cpu::ldxdt(&mut emulator, instruction);

    // assert
    assert_eq!(emulator.v[4], emulator.delay_timer);
}

#[test]
fn ldk() {
    // arrange
    let mut emulator = Emulator::default();
    emulator.keypad[2] = true;

    // act
    chip8::cpu::ldk(&mut emulator, 0xF40A);

    // assert
    assert_eq!(emulator.mode, chip8::emulator::Mode::WaitingForKey { register: 4 });
    assert!(emulator.held_keys[2]);
}

#[test]
fn lddt() {
    // arrange
    let mut emulator = Emulator::default();
    emulator.v[4] = 0x10;

    let instruction = 0xF415;

    // act
    chip8::cpu::lddt(&mut emulator, instruction);

    // assert
    assert_eq!(emulator.delay_timer, emulator.v[4]);
}

#[test]
fn ldst() {
    // arrange
    let mut emulator = Emulator::default();
    emulator.v[4] = 0x10;

    let instruction = 0xF418;

    // act
    chip8::cpu::ldst(&mut emulator, instruction);

    // assert
    assert_eq!(emulator.sound_timer, emulator.v[4]);
}

#[test]
fn addi() {
    // arrange
    let mut emulator = Emulator::default();
    emulator.v[4] = 0x10;
    emulator.i = 0x2;

    let instruction = 0xF41E;

    // act
    chip8::cpu::addi(&mut emulator, instruction);

    // assert
    assert_eq!(emulator.i, 0x12);
}

#[test]
fn ldiv() {
    // arrange
    let mut emulator = Emulator::default();
    emulator.v[4] = 0xA;

    // act
    chip8::cpu::ldiv(&mut emulator, 0xF429);

    // assert
    assert_eq!(emulator.i, 0x50 + 5 * 0xA);
    assert_eq!(emulator.ram[emulator.i as usize], 0xF0);
}

#[test]
fn ldb() {
    // arrange
    let mut emulator = Emulator::default();
    emulator.v[4] = 123;

    let instruction = 0xF433;

    // act
    chip8::cpu::ldb(&mut emulator, instruction);

    // assert
    assert_eq!(emulator.ram[emulator.i as usize], 1);
    assert_eq!(emulator.ram[emulator.i as usize + 1], 2);
    assert_eq!(emulator.ram[emulator.i as usize + 2], 3);
}

#[test]
fn ldii() {
    // arrange
    let mut emulator = Emulator::default();
    emulator.v[0] = 0x1;
    emulator.v[1] = 0x2;
    emulator.v[2] = 0x3;

    let instruction = 0xF255;

    // act
    chip8::cpu::ldii(&mut emulator, instruction);

    // assert
    assert_eq!(emulator.ram[emulator.i as usize], 1);
    assert_eq!(emulator.ram[emulator.i as usize + 1], 2);
    assert_eq!(emulator.ram[emulator.i as usize + 2], 3);
}

#[test]
fn ldvi() {
    // arrange
    let mut emulator = Emulator::default();
    emulator.ram[0] = 0x1;
    emulator.ram[1] = 0x2;
    emulator.ram[2] = 0x3;

    let instruction = 0xF265;

    // act
    chip8::cpu::ldvi(&mut emulator, instruction);

    // assert
    assert_eq!(emulator.v[0], 1);
    assert_eq!(emulator.v[1], 2);
    assert_eq!(emulator.v[2], 3);
}