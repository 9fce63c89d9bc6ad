//! The machine as a mathematical value, and what one instruction makes of it.

use crate::instruction::{decoded, in_range, Instruction};
use crate::renderer::{dark, MAX_SCALE};
use vstd::prelude::*;

verus! {

/// The number of bytes of memory.
pub const MEMORY_SIZE: usize = 4096;

/// Where a program starts.
pub const PROGRAM_START: u16 = 0x200;

/// The last address at which an instruction of two bytes still fits.
pub const LAST_INSTRUCTION: u16 = 0xFFE;

/// The highest address.
pub const LAST_ADDRESS: u16 = 0xFFF;

/// Why the machine cannot go on.
#[derive(Clone, Copy, Debug, PartialEq, Eq, Structural)]
pub enum FaultKind {
    /// The word stands for no instruction.
    UnknownInstruction,
    /// An address or a register number that the instruction computes lies
    /// outside memory or outside the registers.
    OutOfBounds,
    /// A return without a call.
    StackUnderflow,
}

/// A fatal condition, with the word that met it and where that word stood.
#[derive(Clone, Copy, Debug, PartialEq, Eq, Structural)]
pub struct Fault {
    pub kind: FaultKind,
    pub opcode: u16,
    pub pc: u16,
}

/// What a cycle tells the driver.
#[derive(Clone, Copy, Debug, PartialEq, Eq, Structural)]
pub enum CycleSignal {
    /// Go on with the next cycle.
    Continue,
    /// The host asked to leave the run.
    Halt,
}

/// The whole state of the machine.
#[verifier::ext_equal]
pub struct Machine {
    pub memory: Seq<u8>,
    pub v: Seq<u8>,
    pub i: u16,
    pub pc: u16,
    pub stack: Seq<u16>,
    pub delay_timer: u8,
    pub speed: u8,
    pub paused: bool,
    /// The pixels, rows first.
    pub display: Seq<bool>,
    pub scale: int,
    /// The keys that are held.
    pub keys: Seq<u8>,
    pub last_key: Option<u8>,
    pub quit_requested: bool,
}

impl Machine {
    /// The invariant of the machine: memory, registers and display have their
    /// sizes, `I` is an address, `PC` is the address of a whole instruction,
    /// and the scale is one that the display accepts.
    pub open spec fn wf(self) -> bool {
        &&& self.memory.len() == MEMORY_SIZE
        &&& self.v.len() == 16
        &&& self.display.len() == 2048
        &&& self.i <= LAST_ADDRESS
        &&& self.pc <= LAST_INSTRUCTION
        &&& 0 <= self.scale <= MAX_SCALE
    }

    /// The word at `PC`: two bytes, the high one first.
    pub open spec fn fetched(self) -> u16 {
        (self.memory[self.pc as int] * 256 + self.memory[self.pc + 1]) as u16
    }

    /// The machine after it has looked at the keyboard: a machine that waits
    /// for a key wakes up once a key counts as pressed last.
    pub open spec fn woken(self) -> Machine {
        if self.paused && self.last_key is Some {
            Machine { paused: false, ..self }
        } else {
            self
        }
    }

    /// The machine at the end of a cycle: unless it waits for a key, the
    /// delay timer has gone down by one, and stays at zero once it is there.
    pub open spec fn ticked(self) -> Machine {
        if !self.paused && self.delay_timer > 0 {
            Machine { delay_timer: (self.delay_timer - 1) as u8, ..self }
        } else {
            self
        }
    }

    /// What the machine tells the driver at the end of a cycle.
    pub open spec fn signal(self) -> CycleSignal {
        if self.quit_requested {
            CycleSignal::Halt
        } else {
            CycleSignal::Continue
        }
    }

    /// The sprite of `rows` bytes at `I`, to be drawn at column `Vx` and row
    /// `Vy`.
    pub open spec fn sprite(self, x: u8, y: u8, rows: u8) -> Sprite {
        Sprite {
            rows: self.memory.subrange(self.i as int, self.i + rows),
            x: self.v[x as int] as int,
            y: self.v[y as int] as int,
        }
    }

    /// The machine with `value` in the register `Vx`.
    pub open spec fn with_register(self, x: u8, value: u8) -> Machine {
        Machine { v: self.v.update(x as int, value), ..self }
    }

    /// Goes on at `target`, which has to be the address of a whole
    /// instruction.
    pub open spec fn jumped(self, target: int) -> Result<Machine, FaultKind> {
        if target <= LAST_INSTRUCTION {
            Ok(Machine { pc: target as u16, ..self })
        } else {
            Err(FaultKind::OutOfBounds)
        }
    }

    /// Goes on with the next instruction.
    pub open spec fn advanced(self) -> Result<Machine, FaultKind> {
        self.jumped(self.pc + 2)
    }

    /// Goes on with the next instruction, or with the one after it if `skip`
    /// holds.
    pub open spec fn skipped(self, skip: bool) -> Result<Machine, FaultKind> {
        self.jumped(
            if skip {
                self.pc + 4
            } else {
                self.pc + 2
            },
        )
    }
}

/// 1 for `true`, 0 for `false`.
pub open spec fn flag(condition: bool) -> u8 {
    if condition {
        1
    } else {
        0
    }
}

/// The weight of the bit that stands for the sprite column `column`: the
/// leftmost column is the highest bit.
pub open spec fn column_weight(column: int) -> int {
    if column == 0 {
        128
    } else if column == 1 {
        64
    } else if column == 2 {
        32
    } else if column == 3 {
        16
    } else if column == 4 {
        8
    } else if column == 5 {
        4
    } else if column == 6 {
        2
    } else {
        1
    }
}

/// Whether a sprite row has a pixel in `column`.
pub open spec fn sprite_bit(row: u8, column: int) -> bool {
    (row as int / column_weight(column)) % 2 == 1
}

/// A sprite on its way to the display: its rows, eight pixels each, and the
/// column and row at which its upper left corner is drawn.
pub struct Sprite {
    pub rows: Seq<u8>,
    pub x: int,
    pub y: int,
}

impl Sprite {
    /// The column of the sprite that falls on the place `place` of the grid.
    /// The sprite wraps around the edge of the display.
    pub open spec fn column_at(self, place: int) -> int {
        (place % 64 - self.x) % 64
    }

    /// The row of the sprite that falls on the place `place` of the grid.
    /// The sprite wraps around the edge of the display.
    pub open spec fn row_at(self, place: int) -> int {
        (place / 64 - self.y) % 32
    }

    /// Whether the sprite has a pixel at the place `place` of the grid.
    pub open spec fn covers(self, place: int) -> bool {
        let column = self.column_at(place);
        let row = self.row_at(place);
        column < 8 && row < self.rows.len() && sprite_bit(self.rows[row], column)
    }

    /// Whether the sprite has a pixel at `place` and `display` is lit there.
    pub open spec fn hits(self, display: Seq<bool>, place: int) -> bool {
        display[place] && self.covers(place)
    }

    /// The display after the sprite is drawn on `display`: each pixel of the
    /// sprite flips the pixel under it.
    pub open spec fn drawn(self, display: Seq<bool>) -> Seq<bool> {
        Seq::new(display.len(), |place: int| display[place] != self.covers(place))
    }

    /// Whether drawing the sprite on `display` turns a lit pixel dark.
    pub open spec fn collides(self, display: Seq<bool>) -> bool {
        exists|place: int| 0 <= place < display.len() && #[trigger] self.hits(display, place)
    }
}

/// Memory after the registers `V0` to `Vx` went to the addresses from `i` on.
pub open spec fn stored(memory: Seq<u8>, v: Seq<u8>, i: int, x: int) -> Seq<u8> {
    Seq::new(
        memory.len(),
        |address: int|
            if i <= address <= i + x {
                v[address - i]
            } else {
                memory[address]
            },
    )
}

/// The registers after `V0` to `Vx` came from the addresses from `i` on.
pub open spec fn loaded(memory: Seq<u8>, v: Seq<u8>, i: int, x: int) -> Seq<u8> {
    Seq::new(
        v.len(),
        |register: int|
            if register <= x {
                memory[i + register]
            } else {
                v[register]
            },
    )
}

/// Whether an instruction decides where the machine goes on: the return, the
/// jumps, the call and the skips.
pub open spec fn is_branch(instruction: Instruction) -> bool {
    instruction is Return || instruction is Jump || instruction is Call
        || instruction is SkipIfEqualsByte || instruction is SkipIfNotEqualsByte
        || instruction is SkipIfEquals || instruction is SkipIfNotEqual
        || instruction is JumpPlusZero || instruction is SkipIfPressed
        || instruction is SkipIfNotPressed
}

/// Whether an instruction computes on registers alone: `6xnn`, `7xnn` and the
/// family 8.
pub open spec fn is_arithmetic(instruction: Instruction) -> bool {
    instruction is LoadByte || instruction is AddByte || instruction is Move || instruction is Or
        || instruction is And || instruction is Xor || instruction is Add || instruction is Sub
        || instruction is ShiftRight || instruction is ReverseSub || instruction is ShiftLeft
}

/// What an instruction that decides where to go on makes of the machine.
pub open spec fn branched(m: Machine, instruction: Instruction) -> Result<Machine, FaultKind> {
    match instruction {
        Instruction::Return => if m.stack.len() == 0 {
            Err(FaultKind::StackUnderflow)
        } else {
            Machine { stack: m.stack.drop_last(), ..m }.jumped(m.stack.last() as int)
        },
        Instruction::Jump { address } => m.jumped(address as int),
        Instruction::Call { address } => Machine {
            stack: m.stack.push((m.pc + 2) as u16),
            ..m
        }.jumped(address as int),
        Instruction::JumpPlusZero { address } => m.jumped(address + m.v[0]),
        Instruction::SkipIfEqualsByte { x, byte } => m.skipped(m.v[x as int] == byte),
        Instruction::SkipIfNotEqualsByte { x, byte } => m.skipped(m.v[x as int] != byte),
        Instruction::SkipIfEquals { x, y } => m.skipped(m.v[x as int] == m.v[y as int]),
        Instruction::SkipIfNotEqual { x, y } => m.skipped(m.v[x as int] != m.v[y as int]),
        Instruction::SkipIfPressed { x } => m.skipped(m.keys.contains(m.v[x as int])),
        Instruction::SkipIfNotPressed { x } => m.skipped(!m.keys.contains(m.v[x as int])),
        _ => Ok(m),
    }
}

/// The machine after an instruction that computes on registers, before it
/// goes on to the next instruction. The operands are read first; where an
/// instruction writes both `VF` and its target, and the target is `VF`, the
/// later write stays.
pub open spec fn computed(m: Machine, instruction: Instruction) -> Machine {
    match instruction {
        Instruction::LoadByte { x, byte } => m.with_register(x, byte),
        Instruction::AddByte { x, byte } => m.with_register(
            x,
            ((m.v[x as int] + byte) % 256) as u8,
        ),
        Instruction::Move { x, y } => m.with_register(x, m.v[y as int]),
        Instruction::Or { x, y } => m.with_register(x, m.v[x as int] | m.v[y as int]),
        Instruction::And { x, y } => m.with_register(x, m.v[x as int] & m.v[y as int]),
        Instruction::Xor { x, y } => m.with_register(x, m.v[x as int] ^ m.v[y as int]),
        Instruction::Add { x, y } => {
            let sum = m.v[x as int] + m.v[y as int];
            m.with_register(x, (sum % 256) as u8).with_register(0xF, flag(sum > 255))
        },
        Instruction::Sub { x, y } => {
            let a = m.v[x as int];
            let b = m.v[y as int];
            m.with_register(0xF, flag(a > b)).with_register(x, ((a - b) % 256) as u8)
        },
        Instruction::ShiftRight { x, .. } => {
            let a = m.v[x as int];
            m.with_register(0xF, (a % 2) as u8).with_register(x, (a / 2) as u8)
        },
        Instruction::ReverseSub { x, y } => {
            let a = m.v[x as int];
            let b = m.v[y as int];
            m.with_register(0xF, flag(b > a)).with_register(y, ((b - a) % 256) as u8)
        },
        Instruction::ShiftLeft { x, .. } => {
            let a = m.v[x as int];
            m.with_register(0xF, (a / 128) as u8).with_register(x, ((a * 2) % 256) as u8)
        },
        _ => m,
    }
}

/// What `Dxyn` makes of the machine: the sprite is drawn, and `VF` says
/// whether a lit pixel went dark.
pub open spec fn drew(m: Machine, x: u8, y: u8, rows: u8) -> Result<Machine, FaultKind> {
    if m.i + rows > MEMORY_SIZE {
        Err(FaultKind::OutOfBounds)
    } else {
        let sprite = m.sprite(x, y, rows);
        Machine { display: sprite.drawn(m.display), ..m }.with_register(
            0xF,
            flag(sprite.collides(m.display)),
        ).advanced()
    }
}

/// What one of the other instructions makes of the machine: those that move
/// values between registers, memory, `I`, the timer, the keyboard and the
/// display as a whole.
pub open spec fn transferred(m: Machine, instruction: Instruction, random: u8) -> Result<
    Machine,
    FaultKind,
> {
    match instruction {
        Instruction::Clear => Machine { display: dark(2048), ..m }.advanced(),
        Instruction::LoadIndex { address } => Machine { i: address, ..m }.advanced(),
        Instruction::Random { x, byte } => m.with_register(x, random & byte).advanced(),
        Instruction::LoadDelayTimer { x } => m.with_register(x, m.delay_timer).advanced(),
        Instruction::WaitForKey { x } => match m.last_key {
            Some(key) => Machine { paused: false, ..m }.with_register(x, key).advanced(),
            None => Ok(Machine { paused: true, ..m }),
        },
        Instruction::SetDelayTimer { x } => Machine { delay_timer: m.v[x as int], ..m }.advanced(),
        Instruction::SetSoundTimer { .. } => m.advanced(),
        Instruction::AddToIndex { x } => if m.i + m.v[x as int] > LAST_ADDRESS {
            Err(FaultKind::OutOfBounds)
        } else {
            Machine { i: (m.i + m.v[x as int]) as u16, ..m }.advanced()
        },
        Instruction::LoadSprite { x } => Machine { i: (m.v[x as int] * 5) as u16, ..m }.advanced(),
        Instruction::Bcd { x } => if m.i + 2 > LAST_ADDRESS {
            Err(FaultKind::OutOfBounds)
        } else {
            let value = m.v[x as int] as int;
            Machine {
                memory: m.memory.update(m.i as int, (value / 100) as u8).update(
                    m.i + 1,
                    ((value / 10) % 10) as u8,
                ).update(m.i + 2, (value % 10) as u8),
                ..m
            }.advanced()
        },
        Instruction::StoreRegisters { x } => if m.i + x > LAST_ADDRESS {
            Err(FaultKind::OutOfBounds)
        } else {
            Machine { memory: stored(m.memory, m.v, m.i as int, x as int), ..m }.advanced()
        },
        Instruction::LoadRegisters { x } => if m.i + x > LAST_ADDRESS {
            Err(FaultKind::OutOfBounds)
        } else {
            Machine { v: loaded(m.memory, m.v, m.i as int, x as int), ..m }.advanced()
        },
        _ => Ok(m),
    }
}

/// What an instruction makes of the machine, or why it cannot be done.
/// `random` is the byte that chance gave; only `Random` reads it. Every
/// instruction that does not itself say where to go on is followed by the
/// next one. A fault leaves the machine as it was.
pub open spec fn effect(m: Machine, instruction: Instruction, random: u8) -> Result<
    Machine,
    FaultKind,
> {
    if !in_range(instruction) {
        Err(FaultKind::OutOfBounds)
    } else if is_branch(instruction) {
        branched(m, instruction)
    } else if is_arithmetic(instruction) {
        computed(m, instruction).advanced()
    } else if let Instruction::Draw { x, y, rows } = instruction {
        drew(m, x, y, rows)
    } else {
        transferred(m, instruction, random)
    }
}

/// Whether a call that was to bring about `expected` did so: on success the
/// machine is the expected one, on a fault the fault is returned and the
/// machine is as before.
pub open spec fn came_out<E>(
    expected: Result<Machine, E>,
    before: Machine,
    after: Machine,
    result: Result<(), E>,
) -> bool {
    match expected {
        Ok(machine) => result is Ok && after == machine,
        Err(fault) => result == Err::<(), E>(fault) && after == before,
    }
}

/// Whether the word `opcode` asks for a byte of chance.
pub open spec fn reads_chance(opcode: u16) -> bool {
    decoded(opcode) matches Some(Instruction::Random { .. })
}

/// What the word `opcode`, met at `PC`, makes of the machine, or the fault
/// that it ends in.
pub open spec fn step(m: Machine, opcode: u16, random: u8) -> Result<Machine, Fault> {
    match decoded(opcode) {
        None => Err(Fault { kind: FaultKind::UnknownInstruction, opcode, pc: m.pc }),
        Some(instruction) => match effect(m, instruction, random) {
            Ok(after) => Ok(after),
            Err(kind) => Err(Fault { kind, opcode, pc: m.pc }),
        },
    }
}

/// Where a run of instructions has got to: the machine, and the fault that
/// ended the run, if one did.
pub struct Run {
    pub machine: Machine,
    pub fault: Option<Fault>,
}

/// The run of `count` instructions from `m` on, the `k`-th of them with the
/// byte of chance `randoms[k]`. A machine that waits for a key carries out
/// nothing; a fault ends the run and leaves the machine as the faulting
/// instruction found it.
pub open spec fn ran(m: Machine, randoms: Seq<u8>, count: nat) -> Run
    decreases count,
{
    if count == 0 {
        Run { machine: m, fault: None }
    } else {
        let before = ran(m, randoms, (count - 1) as nat);
        if before.fault is Some || before.machine.paused {
            before
        } else {
            match step(before.machine, before.machine.fetched(), randoms[count - 1]) {
                Ok(after) => Run { machine: after, fault: None },
                Err(fault) => Run { machine: before.machine, fault: Some(fault) },
            }
        }
    }
}

/// Whether a cycle from `before` on, with the bytes of chance `randoms`, ends
/// in `after` and `result`. The machine looks at the keyboard, carries out as
/// many instructions as its speed says, and counts the delay timer down. A
/// fault ends the cycle at once.
pub open spec fn cycle_came_out(
    before: Machine,
    randoms: Seq<u8>,
    after: Machine,
    result: Result<CycleSignal, Fault>,
) -> bool {
    let run = ran(before.woken(), randoms, before.speed as nat);
    match run.fault {
        Some(fault) => result == Err::<CycleSignal, Fault>(fault) && after == run.machine,
        None => result == Ok::<CycleSignal, Fault>(run.machine.signal()) && after
            == run.machine.ticked(),
    }
}

/// An instruction keeps the machine's invariant, and leaves alone what only
/// the host and the driver set: speed, scale, the keys and the request to
/// quit.
pub proof fn step_keeps_invariant(m: Machine, opcode: u16, random: u8)
    requires
        m.wf(),
    ensures
        step(m, opcode, random) matches Ok(after) ==> {
            &&& after.wf()
            &&& after.speed == m.speed
            &&& after.scale == m.scale
            &&& after.keys == m.keys
            &&& after.last_key == m.last_key
            &&& after.quit_requested == m.quit_requested
        },
{
}

/// A run reads only as many bytes of chance as it has instructions.
pub proof fn ran_reads_prefix(m: Machine, a: Seq<u8>, b: Seq<u8>, count: nat)
    requires
        count <= a.len(),
        count <= b.len(),
        forall|k: int| 0 <= k < count ==> a[k] == b[k],
    ensures
        ran(m, a, count) == ran(m, b, count),
    decreases count,
{
    if count > 0 {
        ran_reads_prefix(m, a, b, (count - 1) as nat);
    }
}

/// A run that a fault has ended goes no further.
pub proof fn ran_stays_faulted(m: Machine, randoms: Seq<u8>, count: nat, more: nat)
    requires
        count <= more,
        ran(m, randoms, count).fault is Some,
    ensures
        ran(m, randoms, more) == ran(m, randoms, count),
    decreases more,
{
    if count < more {
        ran_stays_faulted(m, randoms, count, (more - 1) as nat);
    }
}

} // verus!
