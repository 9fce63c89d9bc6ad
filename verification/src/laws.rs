//! What holds of the instructions whatever the machine's state.

use crate::instruction::{decoded, decoded_in_range, Instruction};
use crate::machine::{flag, step, Machine, LAST_INSTRUCTION};
use vstd::prelude::*;

verus! {

/// `7xnn` adds modulo 256 and writes no register but `Vx`: it sets no flag.
/// It fails only where no instruction fits behind it.
pub proof fn add_byte_wraps_without_flag(m: Machine, opcode: u16, x: u8, byte: u8, random: u8)
    requires
        m.wf(),
        decoded(opcode) == Some(Instruction::AddByte { x, byte }),
    ensures
        match step(m, opcode, random) {
            Ok(after) => {
                &&& after.v.len() == 16
                &&& after.v[x as int] == (m.v[x as int] + byte) % 256
                &&& forall|other: int|
                    0 <= other < 16 && other != x ==> after.v[other] == m.v[other]
            },
            Err(fault) => m.pc + 2 > LAST_INSTRUCTION,
        },
{
    decoded_in_range(opcode);
}

/// `8xy4` sets `VF` to 1 if the sum is above 255 and to 0 if it is not, and
/// stores the sum modulo 256 in `Vx`, unless `Vx` is `VF` itself, which then
/// holds the flag.
pub proof fn add_sets_carry(m: Machine, opcode: u16, x: u8, y: u8, random: u8)
    requires
        m.wf(),
        decoded(opcode) == Some(Instruction::Add { x, y }),
    ensures
        match step(m, opcode, random) {
            Ok(after) => {
                &&& after.v[0xF] == flag(m.v[x as int] + m.v[y as int] > 255)
                &&& x != 0xF ==> after.v[x as int] == (m.v[x as int] + m.v[y as int]) % 256
            },
            Err(fault) => m.pc + 2 > LAST_INSTRUCTION,
        },
{
    decoded_in_range(opcode);
}

/// `8xy5` stores the difference modulo 256 in `Vx`, and sets `VF` to 1 if
/// `Vx` was above `Vy` and to 0 if it was not, unless `Vx` is `VF` itself,
/// which then holds the difference.
pub proof fn sub_sets_no_borrow(m: Machine, opcode: u16, x: u8, y: u8, random: u8)
    requires
        m.wf(),
        decoded(opcode) == Some(Instruction::Sub { x, y }),
    ensures
        match step(m, opcode, random) {
            Ok(after) => {
                &&& after.v[x as int] == (m.v[x as int] - m.v[y as int]) % 256
                &&& x != 0xF ==> after.v[0xF] == flag(m.v[x as int] > m.v[y as int])
            },
            Err(fault) => m.pc + 2 > LAST_INSTRUCTION,
        },
{
    decoded_in_range(opcode);
}

/// Drawing the same sprite twice at the same position gives the display back
/// as it was: to flip a pixel twice is to leave it. The registers that hold
/// the position must not be `VF`, which the first drawing writes.
pub proof fn drawing_twice_restores_display(
    m: Machine,
    opcode: u16,
    x: u8,
    y: u8,
    rows: u8,
    random: u8,
    again: u8,
)
    requires
        m.wf(),
        decoded(opcode) == Some(Instruction::Draw { x, y, rows }),
        x != 0xF,
        y != 0xF,
        step(m, opcode, random) is Ok,
    ensures
        step(step(m, opcode, random)->Ok_0, opcode, again) matches Ok(twice) ==> twice.display
            == m.display,
{
    decoded_in_range(opcode);
    let once = step(m, opcode, random)->Ok_0;
    assert(once.sprite(x, y, rows) == m.sprite(x, y, rows));
    if let Ok(twice) = step(once, opcode, again) {
        assert(twice.display =~= m.display);
    }
}

/// Drawing a sprite that has a pixel where the display is lit sets `VF` to 1.
pub proof fn drawing_over_lit_pixel_sets_flag(
    m: Machine,
    opcode: u16,
    x: u8,
    y: u8,
    rows: u8,
    random: u8,
    place: int,
)
    requires
        m.wf(),
        decoded(opcode) == Some(Instruction::Draw { x, y, rows }),
        0 <= place < 2048,
        m.display[place],
        m.sprite(x, y, rows).covers(place),
    ensures
        step(m, opcode, random) matches Ok(after) ==> after.v[0xF] == 1,
{
    decoded_in_range(opcode);
    assert(m.sprite(x, y, rows).hits(m.display, place));
}

/// A call and the return that belongs to it: whatever happens in between, if
/// the stack is then as the call left it, the return goes on behind the call
/// and leaves the stack as the call found it.
pub proof fn return_goes_on_behind_call(
    m: Machine,
    call: u16,
    address: u16,
    between: Machine,
    back: u16,
    random: u8,
    again: u8,
)
    requires
        m.wf(),
        decoded(call) == Some(Instruction::Call { address }),
        decoded(back) == Some(Instruction::Return),
        step(m, call, random) is Ok,
        between.wf(),
        between.stack == step(m, call, random)->Ok_0.stack,
    ensures
        step(m, call, random)->Ok_0.pc == address,
        match step(between, back, again) {
            Ok(after) => after.pc == m.pc + 2 && after.stack == m.stack,
            Err(fault) => m.pc + 2 > LAST_INSTRUCTION,
        },
{
    decoded_in_range(call);
    assert(m.stack.push((m.pc + 2) as u16).drop_last() =~= m.stack);
}

/// Whether the word `opcode` does nothing to `m` but go on four bytes
/// further where `condition` holds and two bytes further where it does not,
/// and fails only where no instruction fits there.
pub open spec fn skips_on(m: Machine, opcode: u16, random: u8, condition: bool) -> bool {
    let distance: int = if condition {
        4
    } else {
        2
    };
    match step(m, opcode, random) {
        Ok(after) => after == (Machine { pc: (m.pc + distance) as u16, ..m }),
        Err(fault) => m.pc + distance > LAST_INSTRUCTION,
    }
}

/// The four skips go on four bytes further where their condition holds and
/// two bytes further where it does not: `3xnn` skips if `Vx` is `nn`, `4xnn`
/// if it is not, `5xy0` if `Vx` is `Vy`, `9xy0` if it is not.
pub proof fn skips_advance_by_four_or_two(m: Machine, opcode: u16, random: u8)
    requires
        m.wf(),
    ensures
        match decoded(opcode) {
            Some(Instruction::SkipIfEqualsByte { x, byte }) => skips_on(
                m,
                opcode,
                random,
                m.v[x as int] == byte,
            ),
            Some(Instruction::SkipIfNotEqualsByte { x, byte }) => skips_on(
                m,
                opcode,
                random,
                m.v[x as int] != byte,
            ),
            Some(Instruction::SkipIfEquals { x, y }) => skips_on(
                m,
                opcode,
                random,
                m.v[x as int] == m.v[y as int],
            ),
            Some(Instruction::SkipIfNotEqual { x, y }) => skips_on(
                m,
                opcode,
                random,
                m.v[x as int] != m.v[y as int],
            ),
            _ => true,
        },
{
    decoded_in_range(opcode);
}

/// `Fx33` writes the three decimal digits of `Vx`, the hundreds first.
pub proof fn bcd_writes_decimal_digits(m: Machine, opcode: u16, x: u8, random: u8)
    requires
        m.wf(),
        decoded(opcode) == Some(Instruction::Bcd { x }),
    ensures
        match step(m, opcode, random) {
            Ok(after) => {
                let hundreds = after.memory[m.i as int];
                let tens = after.memory[m.i + 1];
                let units = after.memory[m.i + 2];
                &&& hundreds < 10 && tens < 10 && units < 10
                &&& 100 * hundreds + 10 * tens + units == m.v[x as int]
            },
            Err(fault) => m.i + 2 >= 4096 || m.pc + 2 > LAST_INSTRUCTION,
        },
{
    decoded_in_range(opcode);
}

/// Registers that `Fx55` has stored come back with `Fx65`: whatever happens
/// in between, if `I` and the memory behind it are then as the store left
/// them, the load gives `V0` to `Vx` the values that they had.
pub proof fn load_restores_stored_registers(
    m: Machine,
    store: u16,
    x: u8,
    between: Machine,
    load: u16,
    random: u8,
    again: u8,
)
    requires
        m.wf(),
        decoded(store) == Some(Instruction::StoreRegisters { x }),
        decoded(load) == Some(Instruction::LoadRegisters { x }),
        step(m, store, random) is Ok,
        between.wf(),
        between.i == m.i,
        between.memory == step(m, store, random)->Ok_0.memory,
    ensures
        step(m, store, random)->Ok_0.v == m.v,
        step(m, store, random)->Ok_0.i == m.i,
        match step(between, load, again) {
            Ok(after) => forall|register: int|
                0 <= register <= x ==> after.v[register] == m.v[register],
            Err(fault) => between.pc + 2 > LAST_INSTRUCTION,
        },
{
    decoded_in_range(store);
}

} // verus!
