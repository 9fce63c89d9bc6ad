use chip8::cpu::Cpu;
use chip8::keyboard::Keyboard;
use chip8::machine::{Fault, FaultKind};
use chip8::renderer::Renderer;

fn machine() -> Cpu {
    Cpu::new(Renderer::new(12, Keyboard::new()))
}

#[test]
fn jump_sets_the_program_counter() {
    let mut cpu = machine();
    assert_eq!(cpu.execute_instruction(0x1ABC), Ok(()));
    assert_eq!(cpu.pc, 0xABC);
    assert!(cpu.stack.is_empty());
}

#[test]
fn jump_behind_the_last_instruction_is_refused() {
    let mut cpu = machine();
    assert_eq!(
        cpu.execute_instruction(0x1FFF),
        Err(Fault { kind: FaultKind::OutOfBounds, opcode: 0x1FFF, pc: 0x200 })
    );
    assert_eq!(cpu.pc, 0x200);
    assert_eq!(cpu.execute_instruction(0x1FFE), Ok(()));
    assert_eq!(cpu.pc, 0xFFE);
}

#[test]
fn call_then_return_goes_on_behind_the_call() {
    let mut cpu = machine();
    cpu.pc = 0x2A0;
    assert_eq!(cpu.execute_instruction(0x2456), Ok(()));
    assert_eq!(cpu.pc, 0x456);
    assert_eq!(cpu.stack, vec![0x2A2]);
    assert_eq!(cpu.execute_instruction(0x6001), Ok(()));
    assert_eq!(cpu.execute_instruction(0x7002), Ok(()));
    assert_eq!(cpu.execute_instruction(0x00EE), Ok(()));
    assert_eq!(cpu.pc, 0x2A2);
    assert!(cpu.stack.is_empty());
    assert_eq!(cpu.v[0], 3);
}

#[test]
fn nested_calls_return_in_reverse_order() {
    let mut cpu = machine();
    assert_eq!(cpu.execute_instruction(0x2300), Ok(()));
    assert_eq!(cpu.execute_instruction(0x2400), Ok(()));
    assert_eq!(cpu.stack, vec![0x202, 0x302]);
    assert_eq!(cpu.execute_instruction(0x00EE), Ok(()));
    assert_eq!(cpu.pc, 0x302);
    assert_eq!(cpu.execute_instruction(0x00EE), Ok(()));
    assert_eq!(cpu.pc, 0x202);
}

#[test]
fn return_without_call_is_a_stack_underflow() {
    let mut cpu = machine();
    assert_eq!(
        cpu.execute_instruction(0x00EE),
        Err(Fault { kind: FaultKind::StackUnderflow, opcode: 0x00EE, pc: 0x200 })
    );
    assert_eq!(cpu.pc, 0x200);
}

#[test]
fn return_to_an_address_behind_memory_is_refused() {
    let mut cpu = machine();
    cpu.stack.push(0x1000);
    assert_eq!(
        cpu.execute_instruction(0x00EE),
        Err(Fault { kind: FaultKind::OutOfBounds, opcode: 0x00EE, pc: 0x200 })
    );
    assert_eq!(cpu.stack, vec![0x1000]);
}

#[test]
fn skip_if_equals_byte() {
    let mut cpu = machine();
    cpu.v[2] = 0x33;
    assert_eq!(cpu.execute_instruction(0x3233), Ok(()));
    assert_eq!(cpu.pc, 0x204);
    assert_eq!(cpu.execute_instruction(0x3234), Ok(()));
    assert_eq!(cpu.pc, 0x206);
}

#[test]
fn skip_if_not_equals_byte() {
    let mut cpu = machine();
    cpu.v[2] = 0x33;
    assert_eq!(cpu.execute_instruction(0x4233), Ok(()));
    assert_eq!(cpu.pc, 0x202);
    assert_eq!(cpu.execute_instruction(0x4234), Ok(()));
    assert_eq!(cpu.pc, 0x206);
}

#[test]
fn skip_if_registers_are_equal() {
    let mut cpu = machine();
    cpu.v[2] = 9;
    cpu.v[3] = 9;
    cpu.v[4] = 8;
    assert_eq!(cpu.execute_instruction(0x5230), Ok(()));
    assert_eq!(cpu.pc, 0x204);
    assert_eq!(cpu.execute_instruction(0x5240), Ok(()));
    assert_eq!(cpu.pc, 0x206);
}

#[test]
fn skip_if_registers_differ() {
    let mut cpu = machine();
    cpu.v[2] = 9;
    cpu.v[3] = 9;
    cpu.v[4] = 8;
    assert_eq!(cpu.execute_instruction(0x9230), Ok(()));
    assert_eq!(cpu.pc, 0x202);
    assert_eq!(cpu.execute_instruction(0x9240), Ok(()));
    assert_eq!(cpu.pc, 0x206);
}

#[test]
fn a_skip_behind_the_last_instruction_is_refused() {
    let mut cpu = machine();
    cpu.pc = 0xFFC;
    cpu.v[2] = 1;
    assert_eq!(
        cpu.execute_instruction(0x3201),
        Err(Fault { kind: FaultKind::OutOfBounds, opcode: 0x3201, pc: 0xFFC })
    );
    assert_eq!(cpu.execute_instruction(0x3202), Ok(()));
    assert_eq!(cpu.pc, 0xFFE);
}

#[test]
fn jump_plus_zero_adds_the_first_register() {
    let mut cpu = machine();
    cpu.v[0] = 0x10;
    assert_eq!(cpu.execute_instruction(0xB300), Ok(()));
    assert_eq!(cpu.pc, 0x310);
    cpu.v[0] = 0xFF;
    assert_eq!(
        cpu.execute_instruction(0xBF00),
        Err(Fault { kind: FaultKind::OutOfBounds, opcode: 0xBF00, pc: 0x310 })
    );
    assert_eq!(cpu.pc, 0x310);
}

#[test]
fn skip_if_key_is_held() {
    let mut cpu = machine();
    cpu.v[1] = 0;
    assert_eq!(cpu.execute_instruction(0xE19E), Ok(()));
    assert_eq!(cpu.pc, 0x202);
    assert_eq!(cpu.execute_instruction(0xE1A1), Ok(()));
    assert_eq!(cpu.pc, 0x206);
    cpu.renderer.keyboard.on_key_down('x' as i32);
    assert_eq!(cpu.execute_instruction(0xE19E), Ok(()));
    assert_eq!(cpu.pc, 0x20A);
    assert_eq!(cpu.execute_instruction(0xE1A1), Ok(()));
    assert_eq!(cpu.pc, 0x20C);
    cpu.v[1] = 5;
    assert_eq!(cpu.execute_instruction(0xE19E), Ok(()));
    assert_eq!(cpu.pc, 0x20E);
}

#[test]
fn words_that_stand_for_no_instruction() {
    for opcode in [0x0000u16, 0x00E1, 0x0123, 0x8008, 0x812F, 0xE000, 0xE19F, 0xF000, 0xF1FF, 0xF156] {
        let mut cpu = machine();
        assert_eq!(
            cpu.execute_instruction(opcode),
            Err(Fault { kind: FaultKind::UnknownInstruction, opcode, pc: 0x200 })
        );
        assert_eq!(cpu.pc, 0x200);
        assert_eq!(cpu.get_type(opcode), None);
    }
}

#[test]
fn the_low_bits_of_a_register_skip_are_not_read() {
    let mut cpu = machine();
    assert_eq!(cpu.execute_instruction(0x5127), Ok(()));
    assert_eq!(cpu.pc, 0x204);
    assert_eq!(cpu.execute_instruction(0x01E0), Ok(()));
    assert_eq!(cpu.pc, 0x206);
}
