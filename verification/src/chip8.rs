//! The machine with its program loaded.

use crate::cpu::{with_program, Cpu, LoadError, MAX_PROGRAM_SIZE};
use crate::machine::Machine;
use vstd::prelude::*;

verus! {

/// A machine that is ready to run: glyphs and program are in its memory.
pub struct Chip8 {
    pub cpu: Cpu,
}

impl Chip8 {
    /// Takes a machine, writes the glyphs to the start of its memory and the
    /// program behind them, from `PROGRAM_START` on. A program that does not
    /// fit is refused.
    pub fn new(cpu: Cpu, program: &[u8]) -> (result: Result<Chip8, LoadError>)
        requires
            cpu.wf(),
        ensures
            match result {
                Ok(chip8) => {
                    &&& program@.len() <= MAX_PROGRAM_SIZE
                    &&& chip8.cpu.wf()
                    &&& chip8.cpu@ == (Machine {
                        memory: with_program(cpu@.memory, program@),
                        ..cpu@
                    })
                },
                Err(error) => {
                    &&& program@.len() > MAX_PROGRAM_SIZE
                    &&& error == (LoadError::ProgramTooLarge { size: program@.len() as usize })
                },
            },
    {
        let mut cpu = cpu;
        match cpu.load_program(program) {
            Ok(()) => Ok(Chip8 { cpu }),
            Err(error) => Err(error),
        }
    }
}

} // verus!
