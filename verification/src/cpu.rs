//! The interpreter: the machine's state and the cycle that runs it.

use crate::instruction::{
    decode, decoded, in_range, kind_name, name_of, operands_in_range, Instruction,
};
use crate::machine::{
    branched, came_out, computed, cycle_came_out, effect, is_arithmetic, is_branch, loaded, ran,
    ran_reads_prefix, ran_stays_faulted, reads_chance, sprite_bit, step, step_keeps_invariant,
    stored, transferred, CycleSignal, Fault, FaultKind, Machine, Run, Sprite, LAST_ADDRESS,
    LAST_INSTRUCTION, MEMORY_SIZE, PROGRAM_START,
};
use crate::renderer::{pixel_index, Renderer, COLUMNS, MAX_SCALE, ROWS};
use vstd::prelude::*;

verus! {

/// The built-in glyphs for the digits 0 to F, five bytes each.
pub const FONT: [u8; 80] = [
    0xF0, 0x90, 0x90, 0x90, 0xF0,
    0x20, 0x60, 0x20, 0x20, 0x70,
    0xF0, 0x10, 0xF0, 0x80, 0xF0,
    0xF0, 0x10, 0xF0, 0x10, 0xF0,
    0x90, 0x90, 0xF0, 0x10, 0x10,
    0xF0, 0x80, 0xF0, 0x10, 0xF0,
    0xF0, 0x80, 0xF0, 0x90, 0xF0,
    0xF0, 0x10, 0x20, 0x40, 0x40,
    0xF0, 0x90, 0xF0, 0x90, 0xF0,
    0xF0, 0x90, 0xF0, 0x10, 0xF0,
    0xF0, 0x90, 0xF0, 0x90, 0x90,
    0xE0, 0x90, 0xE0, 0x90, 0xE0,
    0xF0, 0x80, 0x80, 0x80, 0xF0,
    0xE0, 0x90, 0x90, 0x90, 0xE0,
    0xF0, 0x80, 0xF0, 0x80, 0xF0,
    0xF0, 0x80, 0xF0, 0x80, 0x80,
];

/// The largest program that fits between `PROGRAM_START` and the end of
/// memory.
pub const MAX_PROGRAM_SIZE: usize = 3584;

/// The time from one cycle to the next, in milliseconds: about a sixtieth of
/// a second.
pub const CYCLE_MILLISECONDS: u64 = 16;

/// Why a program cannot be loaded.
#[derive(Clone, Copy, Debug, PartialEq, Eq, Structural)]
pub enum LoadError {
    /// The program has `size` bytes, more than `MAX_PROGRAM_SIZE`.
    ProgramTooLarge { size: usize },
}

/// The machine: its memory and registers, with the display and the keyboard
/// that its instructions reach.
pub struct Cpu {
    /// The display, and the keyboard with it.
    pub renderer: Renderer,
    /// 4096 bytes: the glyphs at the start, the program from `PROGRAM_START`
    /// on.
    pub memory: Vec<u8>,
    /// Counts down by one in each cycle until it is zero.
    pub delay_timer: u8,
    /// The sixteen registers `V0` to `VF`; `VF` takes the flags.
    pub v: Vec<u8>,
    /// The address register `I`.
    pub i: u16,
    /// The address of the instruction that comes next.
    pub pc: u16,
    /// Where to go on after each call that has not returned yet, the latest
    /// call last.
    pub stack: Vec<u16>,
    /// The number of instructions in a cycle.
    pub speed: u8,
    /// Whether the machine waits for a key.
    pub paused: bool,
}

impl View for Cpu {
    type V = Machine;

    open spec fn view(&self) -> Machine {
        Machine {
            memory: self.memory@,
            v: self.v@,
            i: self.i,
            pc: self.pc,
            stack: self.stack@,
            delay_timer: self.delay_timer,
            speed: self.speed,
            paused: self.paused,
            display: self.renderer.display@,
            scale: self.renderer.scale as int,
            keys: self.renderer.keyboard.keys_pressed@,
            last_key: self.renderer.keyboard.last_key_pressed,
            quit_requested: self.renderer.keyboard.quit_requested,
        }
    }
}

/// Memory with the glyphs at its start.
pub open spec fn with_font(memory: Seq<u8>) -> Seq<u8> {
    Seq::new(
        memory.len(),
        |address: int|
            if address < 80 {
                FONT@[address]
            } else {
                memory[address]
            },
    )
}

/// Memory with the glyphs at its start and `program` from `PROGRAM_START` on.
pub open spec fn with_program(memory: Seq<u8>, program: Seq<u8>) -> Seq<u8> {
    Seq::new(
        memory.len(),
        |address: int|
            if address < 80 {
                FONT@[address]
            } else if PROGRAM_START <= address < PROGRAM_START + program.len() {
                program[address - PROGRAM_START]
            } else {
                memory[address]
            },
    )
}

/// `rand::random`, asked for a `u8`: a byte from the generator of the
/// calling thread. Nothing is claimed of the byte.
#[verifier::external_body]
fn random_byte() -> (byte: u8) {
    rand::random::<u8>()
}

/// The low eight bits of `a + b`.
fn wrapping_sum(a: u8, b: u8) -> (sum: u8)
    ensures
        sum == (a + b) % 256,
{
    ((a as u16 + b as u16) % 256) as u8
}

/// The low eight bits of `a - b`.
fn wrapping_difference(a: u8, b: u8) -> (difference: u8)
    ensures
        difference == (a - b) % 256,
{
    if a >= b {
        a - b
    } else {
        (256 - (b - a) as u16) as u8
    }
}

/// Whether a sprite row has a pixel in `column`.
fn bit_at(row: u8, column: u8) -> (set: bool)
    requires
        column < 8,
    ensures
        set == sprite_bit(row, column as int),
{
    let weight: u8 = match column {
        0 => 128,
        1 => 64,
        2 => 32,
        3 => 16,
        4 => 8,
        5 => 4,
        6 => 2,
        _ => 1,
    };
    (row / weight) % 2 == 1
}

/// Whether the sprite has a pixel at `place` that comes before its own place
/// (`row`, `column`), rows first.
spec fn covers_before(sprite: Sprite, row: int, column: int, place: int) -> bool {
    let c = sprite.column_at(place);
    let r = sprite.row_at(place);
    sprite.covers(place) && (r < row || (r == row && c < column))
}

/// The place of the grid that the sprite's place (`row`, `column`) falls on
/// is the only one that belongs to it.
proof fn sprite_place_is_unique(sprite: Sprite, row: int, column: int)
    requires
        0 <= row < 32,
        0 <= column < 64,
    ensures
        0 <= pixel_index(sprite.x + column, sprite.y + row) < 2048,
        forall|place: int|
            0 <= place < 2048 ==> ((#[trigger] sprite.column_at(place) == column
                && sprite.row_at(place) == row) <==> place == pixel_index(
                sprite.x + column,
                sprite.y + row,
            )),
{
}

impl Cpu {
    /// The invariant that every operation asks for and keeps: that of the
    /// machine as a value.
    pub open spec fn wf(&self) -> bool {
        self@.wf()
    }

    /// Whether the machine's invariant holds. Its fields are open to every
    /// caller; whoever has written to them can ask here before going on.
    pub fn is_well_formed(&self) -> (ok: bool)
        ensures
            ok == self.wf(),
    {
        self.memory.len() == MEMORY_SIZE && self.v.len() == 16 && self.renderer.display.len()
            == ROWS * COLUMNS && self.i <= LAST_ADDRESS && self.pc <= LAST_INSTRUCTION && 0
            <= self.renderer.scale && self.renderer.scale <= MAX_SCALE
    }

    /// A machine at rest: memory and registers zero, `PC` at the start of the
    /// program, a delay timer of 60, one instruction per cycle.
    pub fn new(renderer: Renderer) -> (cpu: Cpu)
        requires
            renderer.wf(),
        ensures
            cpu.wf(),
            cpu.renderer == renderer,
            cpu.memory@ == Seq::new(MEMORY_SIZE as nat, |address: int| 0u8),
            cpu.v@ == Seq::new(16, |register: int| 0u8),
            cpu.i == 0,
            cpu.pc == PROGRAM_START,
            cpu.stack@ == Seq::<u16>::empty(),
            cpu.delay_timer == 60,
            cpu.speed == 1,
            !cpu.paused,
    {
        let mut memory: Vec<u8> = Vec::new();
        while memory.len() < MEMORY_SIZE
            invariant
                memory.len() <= MEMORY_SIZE,
                forall|address: int| 0 <= address < memory.len() ==> memory@[address] == 0,
            decreases MEMORY_SIZE - memory.len(),
        {
            memory.push(0);
        }
        let mut v: Vec<u8> = Vec::new();
        while v.len() < 16
            invariant
                v.len() <= 16,
                forall|register: int| 0 <= register < v.len() ==> v@[register] == 0,
            decreases 16 - v.len(),
        {
            v.push(0);
        }
        Cpu {
            renderer,
            memory,
            delay_timer: 60,
            v,
            i: 0,
            pc: PROGRAM_START,
            stack: Vec::new(),
            speed: 1,
            paused: false,
        }
    }

    /// Writes the glyphs to the start of memory.
    pub fn load_sprites(&mut self)
        requires
            old(self).wf(),
        ensures
            final(self).wf(),
            final(self)@ == (Machine { memory: with_font(old(self)@.memory), ..old(self)@ }),
    {
        let mut address: usize = 0;
        while address < 80
            invariant
                address <= 80,
                self.memory.len() == MEMORY_SIZE,
                self@ == (Machine { memory: self.memory@, ..old(self)@ }),
                forall|a: int| 0 <= a < address ==> self.memory@[a] == FONT@[a],
                forall|a: int| address <= a < MEMORY_SIZE ==> self.memory@[a] == old(self).memory@[a],
            decreases 80 - address,
        {
            self.memory.set(address, FONT[address]);
            address += 1;
        }
    }

    /// Copies `program` to memory from `PROGRAM_START` on and writes the
    /// glyphs. A program that does not fit is refused, and nothing changes.
    pub fn load_program(&mut self, program: &[u8]) -> (result: Result<(), LoadError>)
        requires
            old(self).wf(),
        ensures
            final(self).wf(),
            program@.len() <= MAX_PROGRAM_SIZE ==> result is Ok && final(self)@ == (Machine {
                memory: with_program(old(self)@.memory, program@),
                ..old(self)@
            }),
            program@.len() > MAX_PROGRAM_SIZE ==> result == Err::<(), LoadError>(
                LoadError::ProgramTooLarge { size: program@.len() as usize },
            ) && final(self)@ == old(self)@,
    {
        if program.len() > MAX_PROGRAM_SIZE {
            return Err(LoadError::ProgramTooLarge { size: program.len() });
        }
        let mut offset: usize = 0;
        while offset < program.len()
            invariant
                offset <= program@.len() <= MAX_PROGRAM_SIZE,
                self.memory.len() == MEMORY_SIZE,
                self@ == (Machine { memory: self.memory@, ..old(self)@ }),
                forall|a: int|
                    PROGRAM_START <= a < PROGRAM_START + offset ==> self.memory@[a] == program@[a
                        - PROGRAM_START],
                forall|a: int|
                    0 <= a < MEMORY_SIZE && !(PROGRAM_START <= a < PROGRAM_START + offset)
                        ==> self.memory@[a] == old(self).memory@[a],
            decreases program@.len() - offset,
        {
            self.memory.set(PROGRAM_START as usize + offset, program[offset]);
            offset += 1;
        }
        self.load_sprites();
        Ok(())
    }

    /// Counts the delay timer down by one, unless it is zero.
    pub fn update_timers(&mut self)
        ensures
            final(self)@ == (Machine {
                delay_timer: if old(self).delay_timer > 0 {
                    (old(self).delay_timer - 1) as u8
                } else {
                    0
                },
                ..old(self)@
            }),
    {
        if self.delay_timer > 0 {
            self.delay_timer -= 1;
        }
    }

    /// The word at `PC`.
    pub fn fetch(&self) -> (opcode: u16)
        requires
            self.wf(),
        ensures
            opcode == self@.fetched(),
    {
        let high = self.memory[self.pc as usize] as u16;
        let low = self.memory[self.pc as usize + 1] as u16;
        high * 256 + low
    }

    /// The address of the instruction to go on with: the next one, or the one
    /// after it if `skip` holds.
    fn following(&self, skip: bool) -> (target: Result<u16, FaultKind>)
        requires
            self.wf(),
        ensures
            match self@.skipped(skip) {
                Ok(machine) => target == Ok::<u16, FaultKind>(machine.pc),
                Err(kind) => target == Err::<u16, FaultKind>(kind),
            },
    {
        let step: u16 = if skip {
            4
        } else {
            2
        };
        if self.pc + step <= LAST_INSTRUCTION {
            Ok(self.pc + step)
        } else {
            Err(FaultKind::OutOfBounds)
        }
    }

    /// Writes `value` to the register `Vx`.
    fn set_register(&mut self, x: u8, value: u8)
        requires
            old(self).wf(),
            x < 16,
        ensures
            final(self).wf(),
            final(self)@ == old(self)@.with_register(x, value),
    {
        self.v.set(x as usize, value);
    }

    /// The instructions that compute on registers: `6xnn`, `7xnn` and the
    /// family 8.
    fn compute(&mut self, instruction: Instruction) -> (result: Result<(), FaultKind>)
        requires
            old(self).wf(),
            in_range(instruction),
            is_arithmetic(instruction),
        ensures
            final(self).wf(),
            came_out(
                computed(old(self)@, instruction).advanced(),
                old(self)@,
                final(self)@,
                result,
            ),
    {
        let next = self.following(false)?;
        match instruction {
            Instruction::LoadByte { x, byte } => {
                self.set_register(x, byte);
            },
            Instruction::AddByte { x, byte } => {
                let sum = wrapping_sum(self.v[x as usize], byte);
                self.set_register(x, sum);
            },
            Instruction::Move { x, y } => {
                let value = self.v[y as usize];
                self.set_register(x, value);
            },
            Instruction::Or { x, y } => {
                let value = self.v[x as usize] | self.v[y as usize];
                self.set_register(x, value);
            },
            Instruction::And { x, y } => {
                let value = self.v[x as usize] & self.v[y as usize];
                self.set_register(x, value);
            },
            Instruction::Xor { x, y } => {
                let value = self.v[x as usize] ^ self.v[y as usize];
                self.set_register(x, value);
            },
            Instruction::Add { x, y } => {
                let a = self.v[x as usize];
                let b = self.v[y as usize];
                self.set_register(x, wrapping_sum(a, b));
                self.set_register(0xF, if a as u16 + b as u16 > 255 { 1 } else { 0 });
            },
            Instruction::Sub { x, y } => {
                let a = self.v[x as usize];
                let b = self.v[y as usize];
                self.set_register(0xF, if a > b { 1 } else { 0 });
                self.set_register(x, wrapping_difference(a, b));
            },
            Instruction::ShiftRight { x, .. } => {
                let a = self.v[x as usize];
                self.set_register(0xF, a % 2);
                self.set_register(x, a / 2);
            },
            Instruction::ReverseSub { x, y } => {
                let a = self.v[x as usize];
                let b = self.v[y as usize];
                self.set_register(0xF, if b > a { 1 } else { 0 });
                self.set_register(y, wrapping_difference(b, a));
            },
            Instruction::ShiftLeft { x, .. } => {
                let a = self.v[x as usize];
                self.set_register(0xF, a / 128);
                self.set_register(x, wrapping_sum(a, a));
            },
            _ => {},
        }
        self.pc = next;
        Ok(())
    }

    /// The instructions that decide where to go on: return, jumps, the call
    /// and the skips.
    fn branch(&mut self, instruction: Instruction) -> (result: Result<(), FaultKind>)
        requires
            old(self).wf(),
            in_range(instruction),
            is_branch(instruction),
        ensures
            final(self).wf(),
            came_out(branched(old(self)@, instruction), old(self)@, final(self)@, result),
    {
        let next = match instruction {
            Instruction::Return => {
                if self.stack.len() == 0 {
                    return Err(FaultKind::StackUnderflow);
                }
                let saved = self.stack[self.stack.len() - 1];
                if saved > LAST_INSTRUCTION {
                    return Err(FaultKind::OutOfBounds);
                }
                self.stack.pop();
                saved
            },
            Instruction::Jump { address } => {
                if address > LAST_INSTRUCTION {
                    return Err(FaultKind::OutOfBounds);
                }
                address
            },
            Instruction::Call { address } => {
                if address > LAST_INSTRUCTION {
                    return Err(FaultKind::OutOfBounds);
                }
                self.stack.push(self.pc + 2);
                address
            },
            Instruction::JumpPlusZero { address } => {
                let target = address + self.v[0] as u16;
                if target > LAST_INSTRUCTION {
                    return Err(FaultKind::OutOfBounds);
                }
                target
            },
            Instruction::SkipIfEqualsByte { x, byte } => self.following(
                self.v[x as usize] == byte,
            )?,
            Instruction::SkipIfNotEqualsByte { x, byte } => self.following(
                self.v[x as usize] != byte,
            )?,
            Instruction::SkipIfEquals { x, y } => self.following(
                self.v[x as usize] == self.v[y as usize],
            )?,
            Instruction::SkipIfNotEqual { x, y } => self.following(
                self.v[x as usize] != self.v[y as usize],
            )?,
            Instruction::SkipIfPressed { x } => self.following(
                self.renderer.keyboard.is_key_pressed(self.v[x as usize]),
            )?,
            Instruction::SkipIfNotPressed { x } => self.following(
                !self.renderer.keyboard.is_key_pressed(self.v[x as usize]),
            )?,
            _ => self.pc,
        };
        self.pc = next;
        Ok(())
    }

    /// Copies the registers `V0` to `Vx` to memory from `I` on.
    fn store_registers(&mut self, x: u8)
        requires
            old(self).wf(),
            x < 16,
            old(self).i + x <= LAST_ADDRESS,
        ensures
            final(self).wf(),
            final(self)@ == (Machine {
                memory: stored(old(self)@.memory, old(self)@.v, old(self).i as int, x as int),
                ..old(self)@
            }),
    {
        let mut register: u8 = 0;
        while register <= x
            invariant
                register <= x + 1,
                x < 16,
                self.i + x <= LAST_ADDRESS,
                self.memory.len() == MEMORY_SIZE,
                self.v.len() == 16,
                self@ == (Machine { memory: self.memory@, ..old(self)@ }),
                forall|a: int|
                    0 <= a < MEMORY_SIZE ==> self.memory@[a] == if self.i <= a < self.i
                        + register {
                        self.v@[a - self.i]
                    } else {
                        old(self).memory@[a]
                    },
            decreases x + 1 - register,
        {
            let value = self.v[register as usize];
            self.memory.set(self.i as usize + register as usize, value);
            register += 1;
        }
        assert(self.memory@ =~= stored(
            old(self)@.memory,
            old(self)@.v,
            old(self).i as int,
            x as int,
        ));
    }

    /// Fills the registers `V0` to `Vx` from memory from `I` on.
    fn load_registers(&mut self, x: u8)
        requires
            old(self).wf(),
            x < 16,
            old(self).i + x <= LAST_ADDRESS,
        ensures
            final(self).wf(),
            final(self)@ == (Machine {
                v: loaded(old(self)@.memory, old(self)@.v, old(self).i as int, x as int),
                ..old(self)@
            }),
    {
        let mut register: u8 = 0;
        while register <= x
            invariant
                register <= x + 1,
                x < 16,
                self.i + x <= LAST_ADDRESS,
                self.memory.len() == MEMORY_SIZE,
                self.v.len() == 16,
                self@ == (Machine { v: self.v@, ..old(self)@ }),
                forall|r: int|
                    0 <= r < 16 ==> self.v@[r] == if r < register {
                        self.memory@[self.i + r]
                    } else {
                        old(self).v@[r]
                    },
            decreases x + 1 - register,
        {
            let value = self.memory[self.i as usize + register as usize];
            self.v.set(register as usize, value);
            register += 1;
        }
        assert(self.v@ =~= loaded(
            old(self)@.memory,
            old(self)@.v,
            old(self).i as int,
            x as int,
        ));
    }

    /// The instructions that move values between registers, memory, `I`, the
    /// timer, the keyboard and the display as a whole.
    fn transfer(&mut self, instruction: Instruction, random: u8) -> (result: Result<
        (),
        FaultKind,
    >)
        requires
            old(self).wf(),
            in_range(instruction),
            !is_branch(instruction),
            !is_arithmetic(instruction),
            !(instruction is Draw),
        ensures
            final(self).wf(),
            came_out(
                transferred(old(self)@, instruction, random),
                old(self)@,
                final(self)@,
                result,
            ),
    {
        if let Instruction::WaitForKey { x } = instruction {
            match self.renderer.keyboard.last_key_pressed {
                Some(key) => {
                    let next = self.following(false)?;
                    self.paused = false;
                    self.set_register(x, key);
                    self.pc = next;
                },
                None => {
                    self.paused = true;
                },
            }
            return Ok(());
        }
        let next = self.following(false)?;
        match instruction {
            Instruction::Clear => {
                self.renderer.clear();
            },
            Instruction::LoadIndex { address } => {
                self.i = address;
            },
            Instruction::Random { x, byte } => {
                self.set_register(x, random & byte);
            },
            Instruction::LoadDelayTimer { x } => {
                self.set_register(x, self.delay_timer);
            },
            Instruction::SetDelayTimer { x } => {
                self.delay_timer = self.v[x as usize];
            },
            Instruction::AddToIndex { x } => {
                let sum = self.i + self.v[x as usize] as u16;
                if sum > LAST_ADDRESS {
                    return Err(FaultKind::OutOfBounds);
                }
                self.i = sum;
            },
            Instruction::LoadSprite { x } => {
                self.i = self.v[x as usize] as u16 * 5;
            },
            Instruction::Bcd { x } => {
                if self.i + 2 > LAST_ADDRESS {
                    return Err(FaultKind::OutOfBounds);
                }
                let value = self.v[x as usize];
                let at = self.i as usize;
                self.memory.set(at, value / 100);
                self.memory.set(at + 1, (value / 10) % 10);
                self.memory.set(at + 2, value % 10);
            },
            Instruction::StoreRegisters { x } => {
                if self.i + x as u16 > LAST_ADDRESS {
                    return Err(FaultKind::OutOfBounds);
                }
                self.store_registers(x);
            },
            Instruction::LoadRegisters { x } => {
                if self.i + x as u16 > LAST_ADDRESS {
                    return Err(FaultKind::OutOfBounds);
                }
                self.load_registers(x);
            },
            _ => {},
        }
        self.pc = next;
        Ok(())
    }

    /// Draws the sprite of `rows` bytes at `I` at column `Vx` and row `Vy`,
    /// and says whether a lit pixel went dark.
    fn draw_sprite(&mut self, x: u8, y: u8, rows: u8) -> (collision: bool)
        requires
            old(self).wf(),
            x < 16,
            y < 16,
            rows < 16,
            old(self).i + rows <= MEMORY_SIZE,
        ensures
            final(self).wf(),
            final(self)@ == (Machine {
                display: old(self)@.sprite(x, y, rows).drawn(old(self)@.display),
                ..old(self)@
            }),
            collision == old(self)@.sprite(x, y, rows).collides(old(self)@.display),
    {
        let vx = self.v[x as usize];
        let vy = self.v[y as usize];
        let ghost before = self@;
        let ghost sprite = before.sprite(x, y, rows);
        let mut collision = false;
        let mut row: u8 = 0;
        while row < rows
            invariant
                row <= rows < 16,
                self.wf(),
                before.wf(),
                before.i + rows <= MEMORY_SIZE,
                sprite == before.sprite(x, y, rows),
                sprite.x == vx,
                sprite.y == vy,
                self@ == (Machine { display: self.renderer.display@, ..before }),
                forall|place: int|
                    0 <= place < 2048 ==> self.renderer.display@[place] == (before.display[place]
                        != covers_before(sprite, row as int, 0, place)),
                collision == exists|place: int|
                    0 <= place < 2048 && before.display[place] && #[trigger] covers_before(sprite, 
                        row as int,
                        0,
                        place,
                    ),
            decreases rows - row,
        {
            let bits = self.memory[self.i as usize + row as usize];
            let mut column: u8 = 0;
            while column < 8
                invariant
                    column <= 8,
                    row < rows < 16,
                    self.wf(),
                    before.wf(),
                    before.i + rows <= MEMORY_SIZE,
                    sprite == before.sprite(x, y, rows),
                    sprite.x == vx,
                    sprite.y == vy,
                    bits == sprite.rows[row as int],
                    self@ == (Machine { display: self.renderer.display@, ..before }),
                    forall|place: int|
                        0 <= place < 2048 ==> self.renderer.display@[place] == (
                        before.display[place] != covers_before(sprite, 
                            row as int,
                            column as int,
                            place,
                        )),
                    collision == exists|place: int|
                        0 <= place < 2048 && before.display[place]
                            && #[trigger] covers_before(sprite, row as int, column as int, place),
                decreases 8 - column,
            {
                let ghost target = pixel_index(vx + column, vy + row);
                let ghost collided = collision;
                let ghost at = column as int;
                proof {
                    sprite_place_is_unique(sprite, row as int, at);
                    assert forall|place: int| 0 <= place < 2048 implies (
                    #[trigger] covers_before(sprite, row as int, at + 1, place))
                        == (covers_before(sprite, row as int, at, place) || (place == target
                        && sprite_bit(bits, at))) by {
                        assert(sprite.column_at(place) == at && sprite.row_at(place) == row
                            <==> place == target);
                    }
                    if collided {
                        let witness = choose|place: int|
                            0 <= place < 2048 && before.display[place]
                                && #[trigger] covers_before(sprite, row as int, at, place);
                        assert(covers_before(sprite, row as int, at + 1, witness));
                    }
                }
                if bit_at(bits, column) {
                    let lit = self.renderer.set_pixel(
                        vx as isize + column as isize,
                        vy as isize + row as isize,
                    );
                    if !lit {
                        collision = true;
                        assert(covers_before(sprite, row as int, at + 1, target));
                    }
                }
                column += 1;
            }
            proof {
                assert forall|place: int| 0 <= place < 2048 implies (
                #[trigger] covers_before(sprite, row + 1, 0, place)) == covers_before(sprite, 
                    row as int,
                    8,
                    place,
                ) by {}
                if collision {
                    let witness = choose|place: int|
                        0 <= place < 2048 && before.display[place]
                            && #[trigger] covers_before(sprite, row as int, 8, place);
                    assert(covers_before(sprite, row + 1, 0, witness));
                }
            }
            row += 1;
        }
        proof {
            assert forall|place: int| 0 <= place < 2048 implies (#[trigger] covers_before(sprite, 
                rows as int,
                0,
                place,
            )) == sprite.covers(place) by {}
            assert(self.renderer.display@ =~= sprite.drawn(before.display));
            if collision {
                let witness = choose|place: int|
                    0 <= place < 2048 && before.display[place]
                        && #[trigger] covers_before(sprite, rows as int, 0, place);
                assert(sprite.hits(before.display, witness));
            }
            if sprite.collides(before.display) {
                let witness = choose|place: int|
                    0 <= place < 2048 && #[trigger] sprite.hits(before.display, place);
                assert(covers_before(sprite, rows as int, 0, witness));
            }
        }
        collision
    }

    /// The name of the kind of instruction that `opcode` stands for; `None`
    /// if it stands for none.
    pub fn get_type(&self, opcode: u16) -> (name: Option<&'static str>)
        ensures
            match decoded(opcode) {
                Some(instruction) => name matches Some(text) && text@ == kind_name(instruction),
                None => name is None,
            },
    {
        match decode(opcode) {
            Some(instruction) => Some(name_of(instruction)),
            None => None,
        }
    }

    /// Carries out one instruction. `random` is the byte that `Random` masks;
    /// no other instruction reads it. A fault leaves the machine as it was.
    pub fn execute(&mut self, instruction: Instruction, random: u8) -> (result: Result<
        (),
        FaultKind,
    >)
        requires
            old(self).wf(),
        ensures
            final(self).wf(),
            came_out(effect(old(self)@, instruction, random), old(self)@, final(self)@, result),
    {
        if !operands_in_range(instruction) {
            return Err(FaultKind::OutOfBounds);
        }
        match instruction {
            Instruction::Return
            | Instruction::Jump { .. }
            | Instruction::Call { .. }
            | Instruction::SkipIfEqualsByte { .. }
            | Instruction::SkipIfNotEqualsByte { .. }
            | Instruction::SkipIfEquals { .. }
            | Instruction::SkipIfNotEqual { .. }
            | Instruction::JumpPlusZero { .. }
            | Instruction::SkipIfPressed { .. }
            | Instruction::SkipIfNotPressed { .. } => self.branch(instruction),
            Instruction::LoadByte { .. }
            | Instruction::AddByte { .. }
            | Instruction::Move { .. }
            | Instruction::Or { .. }
            | Instruction::And { .. }
            | Instruction::Xor { .. }
            | Instruction::Add { .. }
            | Instruction::Sub { .. }
            | Instruction::ShiftRight { .. }
            | Instruction::ReverseSub { .. }
            | Instruction::ShiftLeft { .. } => self.compute(instruction),
            Instruction::Draw { x, y, rows } => {
                if self.i as usize + rows as usize > MEMORY_SIZE {
                    return Err(FaultKind::OutOfBounds);
                }
                let next = self.following(false)?;
                let collision = self.draw_sprite(x, y, rows);
                self.set_register(0xF, if collision { 1 } else { 0 });
                self.pc = next;
                Ok(())
            },
            _ => self.transfer(instruction, random),
        }
    }

    /// Carries out the instruction that `opcode` stands for, with a byte of
    /// chance where it asks for one. A fault leaves the machine as it was.
    pub fn execute_instruction(&mut self, opcode: u16) -> (result: Result<(), Fault>)
        requires
            old(self).wf(),
        ensures
            final(self).wf(),
            exists|random: u8|
                (reads_chance(opcode) || random == 0) && #[trigger] came_out(
                    step(old(self)@, opcode, random),
                    old(self)@,
                    final(self)@,
                    result,
                ),
    {
        let pc = self.pc;
        match decode(opcode) {
            None => {
                let fault = Fault { kind: FaultKind::UnknownInstruction, opcode, pc };
                assert(came_out(step(self@, opcode, 0), self@, self@, Err::<(), Fault>(fault)));
                Err(fault)
            },
            Some(instruction) => {
                let random = match instruction {
                    Instruction::Random { .. } => random_byte(),
                    _ => 0,
                };
                let result = match self.execute(instruction, random) {
                    Ok(()) => Ok(()),
                    Err(kind) => Err(Fault { kind, opcode, pc }),
                };
                assert(came_out(step(old(self)@, opcode, random), old(self)@, self@, result));
                result
            },
        }
    }

    /// One cycle: the machine looks at the keyboard, carries out as many
    /// instructions as its speed says, and counts the delay timer down. While
    /// it waits for a key it carries out nothing and the timer stands. A fault
    /// ends the cycle at once. The result says whether the host asked to
    /// leave the run.
    pub fn cycle(&mut self) -> (result: Result<CycleSignal, Fault>)
        requires
            old(self).wf(),
        ensures
            final(self).wf(),
            exists|randoms: Seq<u8>|
                randoms.len() == old(self).speed && #[trigger] cycle_came_out(
                    old(self)@,
                    randoms,
                    final(self)@,
                    result,
                ),
    {
        if self.paused && self.renderer.keyboard.last_key_pressed.is_some() {
            self.paused = false;
        }
        let ghost start = self@;
        let ghost mut randoms: Seq<u8> = Seq::empty();
        let speed = self.speed;
        let mut count: u8 = 0;
        while count < speed
            invariant
                count <= speed,
                self.wf(),
                start == old(self)@.woken(),
                speed == old(self).speed,
                self.speed == speed,
                randoms.len() == count,
                ran(start, randoms, count as nat) == (Run { machine: self@, fault: None }),
            decreases speed - count,
        {
            let ghost before = self@;
            let ghost past = randoms;
            if self.paused {
                proof {
                    randoms = past.push(0);
                    ran_reads_prefix(start, past, randoms, count as nat);
                }
            } else {
                let opcode = self.fetch();
                let result = self.execute_instruction(opcode);
                proof {
                    let random = choose|random: u8|
                        (reads_chance(opcode) || random == 0) && #[trigger] came_out(
                            step(before, opcode, random),
                            before,
                            self@,
                            result,
                        );
                    step_keeps_invariant(before, opcode, random);
                    randoms = past.push(random);
                    ran_reads_prefix(start, past, randoms, count as nat);
                }
                if let Err(fault) = result {
                    proof {
                        let rest = Seq::new((speed - count - 1) as nat, |k: int| 0u8);
                        let all = randoms + rest;
                        ran_reads_prefix(start, randoms, all, (count + 1) as nat);
                        ran_stays_faulted(start, all, (count + 1) as nat, speed as nat);
                        assert(cycle_came_out(old(self)@, all, self@, Err(fault)));
                    }
                    return Err(fault);
                }
            }
            count += 1;
        }
        if !self.paused {
            self.update_timers();
        }
        let signal = if self.renderer.keyboard.quit_requested {
            CycleSignal::Halt
        } else {
            CycleSignal::Continue
        };
        proof {
            assert(cycle_came_out(old(self)@, randoms, self@, Ok(signal)));
        }
        Ok(signal)
    }
}

} // verus!
