use cpu_emulator::loader::{
    load_program, validate_program, MAX_PROGRAM_LENGTH, PROGRAM_ORIGIN, RESET_VECTOR,
};
use cpu_emulator::{AddressSpace, Cpu, EmulationError, LoadError};

#[test]
fn loader_constants() {
    assert_eq!(PROGRAM_ORIGIN, 0x8000);
    assert_eq!(RESET_VECTOR, 0xFFFC);
    assert_eq!(MAX_PROGRAM_LENGTH, 0x8000);
}

#[test]
fn validation_refuses_an_empty_program() {
    assert_eq!(validate_program(&[]), Err(LoadError::EmptyProgram));
}

#[test]
fn validation_refuses_every_other_last_byte() {
    for last in 1..=u8::MAX {
        assert_eq!(validate_program(&[last]), Err(LoadError::MissingTerminator));
        assert_eq!(
            validate_program(&[0x00, last]),
            Err(LoadError::MissingTerminator)
        );
        assert_eq!(
            validate_program(&[0xA9, 0x00, last]),
            Err(LoadError::MissingTerminator)
        );
    }
}

#[test]
fn validation_accepts_whatever_ends_with_the_halt_opcode() {
    assert_eq!(validate_program(&[0x00]), Ok(()));
    assert_eq!(validate_program(&[0x02, 0x00]), Ok(()));
    assert_eq!(validate_program(&[0xA9, 0x00]), Ok(()));
    assert_eq!(validate_program(&[0xFF, 0xFF, 0x00]), Ok(()));
}

#[test]
fn load_refuses_an_empty_program() {
    let mut cpu = Cpu::new();
    assert_eq!(cpu.load(&[]), Err(LoadError::EmptyProgram));
}

#[test]
fn load_refuses_a_program_without_terminator() {
    let mut cpu = Cpu::new();
    assert_eq!(cpu.load(&[0x01, 0x03]), Err(LoadError::MissingTerminator));
}

#[test]
fn refused_load_changes_nothing() {
    let mut cpu = Cpu::new();
    cpu.register_a = 1;
    cpu.register_x = 2;
    cpu.status = 3;
    cpu.program_counter = 4;
    cpu.memory.write_byte(0x8000, 0x77);
    cpu.memory.write_u16(0xFFFC, 0x1234);
    let before = cpu.clone();
    assert_eq!(cpu.load(&[0xA9, 0x11]), Err(LoadError::MissingTerminator));
    assert_eq!(cpu, before);
    assert_eq!(cpu.load(&[]), Err(LoadError::EmptyProgram));
    assert_eq!(cpu, before);
}

#[test]
fn load_copies_the_program_to_the_origin() {
    let mut cpu = Cpu::new();
    assert_eq!(cpu.load(&[0xA9, 0x11, 0xAA, 0x00]), Ok(()));
    assert_eq!(cpu.memory.read_byte(0x7FFF), 0x00);
    assert_eq!(cpu.memory.read_byte(0x8000), 0xA9);
    assert_eq!(cpu.memory.read_byte(0x8001), 0x11);
    assert_eq!(cpu.memory.read_byte(0x8002), 0xAA);
    assert_eq!(cpu.memory.read_byte(0x8003), 0x00);
    assert_eq!(cpu.memory.read_byte(0x8004), 0x00);
}

#[test]
fn load_writes_the_reset_vector() {
    let mut cpu = Cpu::new();
    assert_eq!(cpu.load(&[0x00]), Ok(()));
    assert_eq!(cpu.memory.read_byte(0xFFFC), 0x00);
    assert_eq!(cpu.memory.read_byte(0xFFFD), 0x80);
    assert_eq!(cpu.memory.read_u16(0xFFFC), 0x8000);
}

#[test]
fn load_does_not_touch_the_registers() {
    let mut cpu = Cpu::new();
    cpu.register_a = 0x12;
    cpu.register_x = 0x34;
    cpu.status = 0x56;
    cpu.program_counter = 0x789A;
    assert_eq!(cpu.load(&[0xA9, 0x11, 0x00]), Ok(()));
    assert_eq!(cpu.register_a, 0x12);
    assert_eq!(cpu.register_x, 0x34);
    assert_eq!(cpu.status, 0x56);
    assert_eq!(cpu.program_counter, 0x789A);
}

#[test]
fn load_changes_only_the_program_and_the_vector() {
    let mut memory = AddressSpace::new();
    for address in 0..=u16::MAX {
        memory.write_byte(address, 0x5A);
    }
    assert_eq!(load_program(&mut memory, &[0xE8, 0xE8, 0x00]), Ok(()));
    for address in 0..=u16::MAX {
        let expected = match address {
            0x8000 | 0x8001 => 0xE8,
            0x8002 => 0x00,
            0xFFFC => 0x00,
            0xFFFD => 0x80,
            _ => 0x5A,
        };
        assert_eq!(memory.read_byte(address), expected);
    }
}

#[test]
fn load_of_the_longest_program() {
    let mut program = vec![0xE8u8; MAX_PROGRAM_LENGTH];
    program[MAX_PROGRAM_LENGTH - 1] = 0x00;
    let mut cpu = Cpu::new();
    assert_eq!(cpu.load(&program), Ok(()));
    assert_eq!(cpu.memory.read_byte(0x8000), 0xE8);
    assert_eq!(cpu.memory.read_byte(0xFFFB), 0xE8);
    assert_eq!(cpu.memory.read_u16(0xFFFC), 0x8000);
    assert_eq!(cpu.memory.read_byte(0xFFFE), 0xE8);
    assert_eq!(cpu.memory.read_byte(0xFFFF), 0x00);
}

#[test]
fn load_and_run_propagates_a_refusal_and_changes_nothing() {
    let mut cpu = Cpu::new();
    cpu.register_a = 0x12;
    cpu.status = 0x40;
    cpu.program_counter = 0x0200;
    let before = cpu.clone();
    assert_eq!(
        cpu.load_and_run(&[]),
        Err(EmulationError::Load(LoadError::EmptyProgram))
    );
    assert_eq!(cpu, before);
    assert_eq!(
        cpu.load_and_run(&[0xA9, 0x01]),
        Err(EmulationError::Load(LoadError::MissingTerminator))
    );
    assert_eq!(cpu, before);
}
