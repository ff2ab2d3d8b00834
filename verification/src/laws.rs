//! What holds of every machine: laws of the instruction set, each proved
//! from the transitions of the model that the engine is specified by.

use crate::display::{lemma_sprite_position, pixel_index, sprite_col, sprite_row};
use crate::error::Chip8Error;
use crate::font::{font, glyph};
use crate::instruction::{decode_spec, lemma_decode_valid, lemma_word_fields, Opcode};
use crate::machine::{
    any_pressed, flag, is_lowest_pressed, lemma_lowest_pressed, lowest_pressed, sprite_bit, Machine,
};
use crate::quirk::Quirk;
use vstd::prelude::*;

verus! {

/// Adding Vy to Vx leaves the carry in VF under every quirk setting: 1 if
/// the sum is above 255, else 0. Vx holds the sum modulo 256, unless Vx is
/// VF itself, which holds the carry.
pub proof fn law_add_carry(m: Machine, x: u8, y: u8)
    requires
        m.wf(),
        x < 16,
        y < 16,
    ensures
        m.add_xy(x, y).v[0xF] == flag(m.v[x as int] + m.v[y as int] > 255),
        x != 0xF ==> m.add_xy(x, y).v[x as int] == (m.v[x as int] + m.v[y as int]) % 256,
        forall|r: int| 0 <= r < 0xF && r != x ==> m.add_xy(x, y).v[r] == m.v[r],
{
}

/// Subtracting Vy from Vx leaves 1 in VF if Vx was larger than Vy, else 0,
/// going by the operands as they were before the subtraction. Vx holds the
/// difference modulo 256, unless Vx is VF itself.
pub proof fn law_sub_borrow(m: Machine, x: u8, y: u8)
    requires
        m.wf(),
        x < 16,
        y < 16,
    ensures
        m.sub(x, y).v[0xF] == flag(m.v[x as int] > m.v[y as int]),
        x != 0xF ==> m.sub(x, y).v[x as int] == (m.v[x as int] - m.v[y as int]) % 256,
        forall|r: int| 0 <= r < 0xF && r != x ==> m.sub(x, y).v[r] == m.v[r],
{
}

/// Subtracting Vx from Vy leaves 1 in VF if Vy was larger than Vx, else 0.
/// Vx holds the difference modulo 256, unless Vx is VF itself.
pub proof fn law_subn_borrow(m: Machine, x: u8, y: u8)
    requires
        m.wf(),
        x < 16,
        y < 16,
    ensures
        m.subn(x, y).v[0xF] == flag(m.v[y as int] > m.v[x as int]),
        x != 0xF ==> m.subn(x, y).v[x as int] == (m.v[y as int] - m.v[x as int]) % 256,
        forall|r: int| 0 <= r < 0xF && r != x ==> m.subn(x, y).v[r] == m.v[r],
{
}

/// With the quirk for bitwise operations on, OR, AND and XOR leave 0 in VF
/// whatever it held. With the quirk off they leave VF as it was, unless VF
/// is the register they write.
pub proof fn law_bitwise_flag(m: Machine, x: u8, y: u8)
    requires
        m.wf(),
        x < 16,
        y < 16,
    ensures
        m.quirks.vf_reset ==> m.or(x, y).v[0xF] == 0 && m.and(x, y).v[0xF] == 0 && m.xor(
            x,
            y,
        ).v[0xF] == 0,
        !m.quirks.vf_reset && x != 0xF ==> m.or(x, y).v[0xF] == m.v[0xF] && m.and(x, y).v[0xF]
            == m.v[0xF] && m.xor(x, y).v[0xF] == m.v[0xF],
        x != 0xF ==> m.or(x, y).v[x as int] == m.v[x as int] | m.v[y as int],
        x != 0xF ==> m.and(x, y).v[x as int] == m.v[x as int] & m.v[y as int],
        x != 0xF ==> m.xor(x, y).v[x as int] == m.v[x as int] ^ m.v[y as int],
{
}

/// A shift leaves in VF the bit that it pushes out of the register it
/// reads: the lowest for a right shift, the highest for a left shift.
pub proof fn law_shift_flag(m: Machine, x: u8, y: u8)
    requires
        m.wf(),
        x < 16,
        y < 16,
    ensures
        m.shr(x, y).v[0xF] == m.v[m.shift_source(x, y)] & 1,
        m.shl(x, y).v[0xF] == m.v[m.shift_source(x, y)] >> 7,
        x != 0xF ==> m.shr(x, y).v[x as int] == m.v[m.shift_source(x, y)] >> 1,
        x != 0xF ==> m.shl(x, y).v[x as int] == m.v[m.shift_source(x, y)] << 1,
{
    let t = m.v[m.shift_source(x, y)];
    assert(t & 1 == t % 2 && t >> 1 == t / 2) by (bit_vector);
    assert(t >> 7 == t / 128 && t << 1 == (t * 2) % 256) by (bit_vector);
}

/// While the font is where a new machine has it, pointing I at the glyph
/// of a digit makes the five bytes at I the rows of that glyph.
pub proof fn law_digit_glyph(m: Machine, x: u8)
    requires
        m.wf(),
        x < 16,
        m.v[x as int] < 16,
        m.memory.subrange(0, 80) == font(),
    ensures
        m.ld_ix(x).i == 5 * m.v[x as int],
        m.ld_ix(x).memory.subrange(m.ld_ix(x).i as int, m.ld_ix(x).i + 5) == glyph(
            m.v[x as int] as int,
        ),
{
    let d = m.v[x as int] as int;
    let rows = m.memory.subrange(5 * d, 5 * d + 5);
    assert forall|k: int| 0 <= k < 5 implies #[trigger] rows[k] == glyph(d)[k] by {}
}

/// A new machine holds the font in its first 80 bytes, and loading a
/// program leaves them there.
pub proof fn law_font_in_place(quirks: Quirk, rom: Seq<u8>)
    requires
        rom.len() <= 0xE00,
    ensures
        Machine::initial(quirks).wf(),
        Machine::initial(quirks).memory.subrange(0, 80) == font(),
        Machine::initial(quirks).load_rom(rom) matches Ok(m) && m.wf() && m.memory.subrange(0, 80)
            == font() && m.memory.subrange(0x200, 0x200 + rom.len() as int) == rom,
{
    let m = Machine::initial(quirks).load_rom(rom)->Ok_0;
    assert(m.memory.subrange(0x200, 0x200 + rom.len() as int) =~= rom);
}

/// A call followed by a return puts the machine back as it was: the
/// program counter is again the one that the call pushed, and the stack is
/// as before.
pub proof fn law_call_then_return(m: Machine, addr: u16)
    requires
        m.wf(),
        m.stack.len() < 16,
    ensures
        m.call(addr) matches Ok(called) && called.pc == addr && called.stack.len() == m.stack.len()
            + 1 && called.ret() == Ok::<Machine, Chip8Error>(m),
{
    assert(m.call(addr)->Ok_0.ret()->Ok_0 =~= m);
}

/// The calls to `addrs`, made one after the other with no return between
/// them, stopping at the first that fails.
pub open spec fn call_each(m: Machine, addrs: Seq<u16>) -> Result<Machine, Chip8Error>
    decreases addrs.len(),
{
    if addrs.len() == 0 {
        Ok(m)
    } else {
        match call_each(m, addrs.drop_last()) {
            Ok(inner) => inner.call(addrs.last()),
            Err(e) => Err(e),
        }
    }
}

/// Nested calls succeed as long as the stack has room: from a stack of
/// depth d, up to 16 - d calls succeed and leave the stack that much
/// deeper, and one more fails with `StackOverflow`. From an empty stack
/// that is sixteen calls, and the seventeenth fails.
pub proof fn law_nested_calls(m: Machine, addrs: Seq<u16>)
    requires
        m.wf(),
    ensures
        m.stack.len() + addrs.len() <= 16 ==> (call_each(m, addrs) matches Ok(deep) && deep.wf()
            && deep.stack.len() == m.stack.len() + addrs.len()),
        m.stack.len() + addrs.len() == 17 ==> call_each(m, addrs) == Err::<Machine, Chip8Error>(
            Chip8Error::StackOverflow,
        ),
    decreases addrs.len(),
{
    if addrs.len() > 0 {
        law_nested_calls(m, addrs.drop_last());
    }
}

/// A return with no call in progress fails with `StackUnderflow`, and only
/// then.
pub proof fn law_return_needs_call(m: Machine)
    requires
        m.wf(),
    ensures
        m.ret() is Err <==> m.stack.len() == 0,
        m.ret() is Err ==> m.ret() == Err::<Machine, Chip8Error>(Chip8Error::StackUnderflow),
{
}

/// A draw puts the sprite's bit at row `row`, column `col` on the pixel that
/// lies that far right of and below the corner, around the edges of the
/// screen: a sprite drawn at column 60 covers columns 60 to 63 and then 0 to
/// 3. The pixel is toggled exactly if the bit is set. Pixels that no bit of
/// the sprite lies on stay as they were.
pub proof fn law_draw_wraps(m: Machine, x: u8, y: u8, n: u8, row: int, col: int)
    requires
        m.wf(),
        x < 16,
        y < 16,
        n < 16,
        m.drw(x, y, n) is Ok,
        0 <= row < n,
        0 <= col < 8,
    ensures
        ({
            let drawn = m.drw(x, y, n)->Ok_0;
            let left = m.draw_coordinate(x);
            let top = m.draw_coordinate(y);
            let p = pixel_index(left + col, top + row);
            &&& 0 <= p < 2048
            &&& p == ((top + row) % 32) * 64 + (left + col) % 64
            &&& drawn.vbuffer[p] == (m.vbuffer[p] != sprite_bit(m.memory[m.i + row], col))
            &&& forall|q: int|
                0 <= q < 2048 && !(sprite_col(left, q) < 8 && sprite_row(top, q) < n)
                    ==> drawn.vbuffer[q] == m.vbuffer[q]
        }),
{
    let left = m.draw_coordinate(x);
    let top = m.draw_coordinate(y);
    let p = pixel_index(left + col, top + row);
    lemma_sprite_position(left, top, row, col, p);
}

/// Drawing the same sprite at the same place twice puts the screen back
/// as it was.
pub proof fn law_draw_twice(m: Machine, x: u8, y: u8, n: u8)
    requires
        m.wf(),
        x < 16,
        y < 16,
        n < 16,
        m.drw(x, y, n) is Ok,
    ensures
        m.drw(x, y, n)->Ok_0.drw(x, y, n) matches Ok(twice) && twice.vbuffer == m.vbuffer
            && twice.redraw,
{
    // The first draw changes neither memory nor I nor, VF aside, the
    // registers: the second draw toggles the same pixels.
    let once = m.drw(x, y, n)->Ok_0;
    let left = m.draw_coordinate(x);
    let top = m.draw_coordinate(y);
    assert forall|p: int| 0 <= p < 2048 implies once.toggles(left, top, n, p) == m.toggles(
        left,
        top,
        n,
        p,
    ) by {}
    assert(once.drw(x, y, n)->Ok_0.vbuffer =~= m.vbuffer);
}

/// On a cleared screen a draw turns on exactly the pixels under the set
/// bits of the sprite and leaves 0 in VF. Drawing the sprite again leaves
/// 1 in VF if the sprite has a set bit at all, else 0.
pub proof fn law_draw_on_clear_screen(m: Machine, x: u8, y: u8, n: u8)
    requires
        m.wf(),
        x < 16,
        y < 16,
        n < 16,
        m.drw(x, y, n) is Ok,
    ensures
        ({
            let left = m.draw_coordinate(x);
            let top = m.draw_coordinate(y);
            &&& m.cls().drw(x, y, n) matches Ok(once)
            &&& once.v[0xF] == 0
            &&& once.redraw
            &&& forall|p: int| 0 <= p < 2048 ==> once.vbuffer[p] == m.toggles(left, top, n, p)
            &&& once.drw(x, y, n) matches Ok(twice)
            &&& twice.v[0xF] == flag(exists|p: int| 0 <= p < 2048 && m.toggles(left, top, n, p))
            &&& forall|p: int| 0 <= p < 2048 ==> !twice.vbuffer[p]
        }),
{
    let left = m.draw_coordinate(x);
    let top = m.draw_coordinate(y);
    let blank = m.cls();
    assert forall|p: int| 0 <= p < 2048 implies blank.toggles(left, top, n, p) == m.toggles(
        left,
        top,
        n,
        p,
    ) by {}
    assert(!blank.collides(left, top, n));
    let once = blank.drw(x, y, n)->Ok_0;
    assert forall|p: int| 0 <= p < 2048 implies once.toggles(left, top, n, p) == m.toggles(
        left,
        top,
        n,
        p,
    ) by {}
    let any = exists|p: int| 0 <= p < 2048 && m.toggles(left, top, n, p);
    if any {
        // A pixel that the sprite turned on is one that it now turns off.
        let p = choose|p: int| 0 <= p < 2048 && m.toggles(left, top, n, p);
        assert(once.vbuffer[p] && once.toggles(left, top, n, p));
    }
}

/// A step runs the instruction that the word at the program counter names,
/// on the machine as the start of the step leaves it.
pub proof fn law_step_runs_decoded(m: Machine, keys: Seq<bool>, random: u8, op: Opcode)
    requires
        m.pc < 0xFFF,
        decode_spec(m.fetch()) == Some(op),
    ensures
        m.step(keys, random) == m.begin(keys).execute(op, random),
        m.begin(keys).pc == m.pc + 2,
        m.begin(keys).memory == m.memory,
        m.begin(keys).v == m.v,
        m.begin(keys).stack == m.stack,
        m.begin(keys).pressed_keys == keys,
{
}

/// A key wait with no key held leaves the program counter where it was, so
/// that the next step runs the wait again, and touches no register. With a
/// key held the program counter moves on and Vx holds the lowest index of
/// a held key.
pub proof fn law_key_wait(m: Machine, keys: Seq<bool>, random: u8, x: u8)
    requires
        m.wf(),
        keys.len() == 16,
        m.pc < 0xFFF,
        decode_spec(m.fetch()) == Some(Opcode::LdXK { x }),
    ensures
        m.step(keys, random) matches Ok(next) && if any_pressed(keys) {
            next.pc == m.pc + 2 && is_lowest_pressed(keys, next.v[x as int] as int)
        } else {
            next.pc == m.pc && next.v == m.v
        },
{
    lemma_decode_valid(m.fetch());
    if any_pressed(keys) {
        let k = choose|k: int| 0 <= k < keys.len() && keys[k];
        lemma_lowest_pressed(keys, k);
    }
}

/// A call step continues at the subroutine, and if the subroutine starts
/// with a return that lies inside memory, the return step continues at the
/// instruction immediately after the call, with the stack as it was before
/// the call.
pub proof fn law_call_return_steps(
    m: Machine,
    addr: u16,
    keys1: Seq<bool>,
    random1: u8,
    keys2: Seq<bool>,
    random2: u8,
)
    requires
        m.wf(),
        m.pc < 0xFFF,
        decode_spec(m.fetch()) == Some(Opcode::Call { addr }),
        m.stack.len() < 16,
        addr < 0xFFF,
        decode_spec(m.jp(addr).fetch()) == Some(Opcode::Ret),
    ensures
        m.step(keys1, random1) matches Ok(called) && called.pc == addr && called.stack
            == m.stack.push((m.pc + 2) as u16) && (called.step(keys2, random2) matches Ok(back)
            && back.pc == m.pc + 2 && back.stack == m.stack),
{
    lemma_decode_valid(m.fetch());
}

/// After a jump step the program counter is the target of the jump and
/// memory is untouched, so the next word fetched is the one that memory
/// holds at the target.
pub proof fn law_jump_then_fetch(m: Machine, addr: u16, keys: Seq<bool>, random: u8)
    requires
        m.wf(),
        m.pc < 0xFFF,
        decode_spec(m.fetch()) == Some(Opcode::Jp { addr }),
    ensures
        m.step(keys, random) matches Ok(next) && next.pc == addr && next.memory == m.memory
            && next.fetch() == m.memory[addr as int] * 0x100 + m.memory[addr + 1],
{
}

/// A program loaded into a new machine is what the machine runs first: the
/// first word fetched is made of the first two bytes of the program.
pub proof fn law_loaded_program_runs(quirks: Quirk, rom: Seq<u8>)
    requires
        2 <= rom.len() <= 0xE00,
    ensures
        Machine::initial(quirks).load_rom(rom) matches Ok(m) && m.pc == 0x200 && m.fetch() == rom[0]
            * 0x100 + rom[1],
{
}

/// A step keeps the machine well formed, replaces the keys, never clears
/// the redraw flag and sets it exactly on a draw.
pub proof fn law_step_invariants(m: Machine, keys: Seq<bool>, random: u8)
    requires
        m.wf(),
        keys.len() == 16,
        m.step(keys, random) is Ok,
    ensures
        ({
            let next = m.step(keys, random)->Ok_0;
            let op = decode_spec(m.fetch())->Some_0;
            &&& next.wf()
            &&& next.pressed_keys == keys
            &&& next.quirks == m.quirks
            &&& next.redraw == (m.redraw || op is Drw)
        }),
{
    lemma_decode_valid(m.fetch());
}

/// A step counts each timer down by one and never below zero, unless the
/// instruction it runs is the one that sets that timer.
pub proof fn law_timers_count_down(m: Machine, keys: Seq<bool>, random: u8)
    requires
        m.wf(),
        keys.len() == 16,
        m.step(keys, random) is Ok,
    ensures
        ({
            let next = m.step(keys, random)->Ok_0;
            let op = decode_spec(m.fetch())->Some_0;
            &&& !(op is LdDtX) ==> next.dt == if m.dt > 0 {
                m.dt - 1
            } else {
                0
            }
            &&& !(op is LdStX) ==> next.st == if m.st > 0 {
                m.st - 1
            } else {
                0
            }
        }),
{
    lemma_decode_valid(m.fetch());
}

/// The word `8xyN` names the register operation that its last nibble
/// selects, on the registers that its two middle nibbles name.
pub proof fn law_register_words(x: u8, y: u8)
    requires
        x < 16,
        y < 16,
    ensures
        decode_spec((0x8000 + 0x100 * x + 0x10 * y) as u16) == Some(Opcode::LdReg { x, y }),
        decode_spec((0x8001 + 0x100 * x + 0x10 * y) as u16) == Some(Opcode::Or { x, y }),
        decode_spec((0x8002 + 0x100 * x + 0x10 * y) as u16) == Some(Opcode::And { x, y }),
        decode_spec((0x8003 + 0x100 * x + 0x10 * y) as u16) == Some(Opcode::Xor { x, y }),
        decode_spec((0x8004 + 0x100 * x + 0x10 * y) as u16) == Some(Opcode::AddReg { x, y }),
        decode_spec((0x8005 + 0x100 * x + 0x10 * y) as u16) == Some(Opcode::Sub { x, y }),
        decode_spec((0x8006 + 0x100 * x + 0x10 * y) as u16) == Some(Opcode::Shr { x, y }),
        decode_spec((0x8007 + 0x100 * x + 0x10 * y) as u16) == Some(Opcode::Subn { x, y }),
        decode_spec((0x800E + 0x100 * x + 0x10 * y) as u16) == Some(Opcode::Shl { x, y }),
{
    lemma_word_fields(8, x, y, 0x0);
    lemma_word_fields(8, x, y, 0x1);
    lemma_word_fields(8, x, y, 0x2);
    lemma_word_fields(8, x, y, 0x3);
    lemma_word_fields(8, x, y, 0x4);
    lemma_word_fields(8, x, y, 0x5);
    lemma_word_fields(8, x, y, 0x6);
    lemma_word_fields(8, x, y, 0x7);
    lemma_word_fields(8, x, y, 0xE);
}

/// The words of the families that take their operands from the word alone:
/// an address in the low twelve bits, or a register and a byte, or two
/// registers, or two registers and a nibble.
pub proof fn law_operand_words(x: u8, y: u8, n: u8, byte: u8, addr: u16)
    requires
        x < 16,
        y < 16,
        n < 16,
        addr < 0x1000,
    ensures
        decode_spec((0x1000 + addr) as u16) == Some(Opcode::Jp { addr }),
        decode_spec((0x2000 + addr) as u16) == Some(Opcode::Call { addr }),
        decode_spec((0x3000 + 0x100 * x + byte) as u16) == Some(Opcode::SeByte { x, byte }),
        decode_spec((0x4000 + 0x100 * x + byte) as u16) == Some(Opcode::SneByte { x, byte }),
        decode_spec((0x5000 + 0x100 * x + 0x10 * y + n) as u16) == Some(Opcode::SeReg { x, y }),
        decode_spec((0x6000 + 0x100 * x + byte) as u16) == Some(Opcode::LdByte { x, byte }),
        decode_spec((0x7000 + 0x100 * x + byte) as u16) == Some(Opcode::AddByte { x, byte }),
        decode_spec((0x9000 + 0x100 * x + 0x10 * y + n) as u16) == Some(Opcode::SneReg { x, y }),
        decode_spec((0xA000 + addr) as u16) == Some(Opcode::LdI { addr }),
        decode_spec((0xB000 + addr) as u16) == Some(Opcode::JpV0 { addr }),
        decode_spec((0xC000 + 0x100 * x + byte) as u16) == Some(Opcode::Rnd { x, byte }),
        decode_spec((0xD000 + 0x100 * x + 0x10 * y + n) as u16) == Some(Opcode::Drw { x, y, n }),
{
    let a2 = (addr / 0x100) as u8;
    let a1 = ((addr / 0x10) % 0x10) as u8;
    let a0 = (addr % 0x10) as u8;
    let b1 = byte / 0x10;
    let b0 = byte % 0x10;
    lemma_word_fields(0x1, a2, a1, a0);
    lemma_word_fields(0x2, a2, a1, a0);
    lemma_word_fields(0x3, x, b1, b0);
    lemma_word_fields(0x4, x, b1, b0);
    lemma_word_fields(0x5, x, y, n);
    lemma_word_fields(0x6, x, b1, b0);
    lemma_word_fields(0x7, x, b1, b0);
    lemma_word_fields(0x9, x, y, n);
    lemma_word_fields(0xA, a2, a1, a0);
    lemma_word_fields(0xB, a2, a1, a0);
    lemma_word_fields(0xC, x, b1, b0);
    lemma_word_fields(0xD, x, y, n);
}

/// The words of the families that tell their instructions apart by the low
/// byte: family 0, whose middle nibble is ignored, and families E and F,
/// whose middle nibble names the register.
pub proof fn law_selector_words(x: u8)
    requires
        x < 16,
    ensures
        decode_spec((0x0000 + 0x100 * x) as u16) == Some(Opcode::Nop),
        decode_spec((0x00E0 + 0x100 * x) as u16) == Some(Opcode::Cls),
        decode_spec((0x00EE + 0x100 * x) as u16) == Some(Opcode::Ret),
        decode_spec((0xE09E + 0x100 * x) as u16) == Some(Opcode::Skp { x }),
        decode_spec((0xE0A1 + 0x100 * x) as u16) == Some(Opcode::Sknp { x }),
        decode_spec((0xF007 + 0x100 * x) as u16) == Some(Opcode::LdXDt { x }),
        decode_spec((0xF00A + 0x100 * x) as u16) == Some(Opcode::LdXK { x }),
        decode_spec((0xF015 + 0x100 * x) as u16) == Some(Opcode::LdDtX { x }),
        decode_spec((0xF018 + 0x100 * x) as u16) == Some(Opcode::LdStX { x }),
        decode_spec((0xF01E + 0x100 * x) as u16) == Some(Opcode::AddI { x }),
        decode_spec((0xF029 + 0x100 * x) as u16) == Some(Opcode::LdIX { x }),
        decode_spec((0xF033 + 0x100 * x) as u16) == Some(Opcode::LdIXBcd { x }),
        decode_spec((0xF055 + 0x100 * x) as u16) == Some(Opcode::LdIVx { x }),
        decode_spec((0xF065 + 0x100 * x) as u16) == Some(Opcode::LdVxI { x }),
{
    lemma_word_fields(0x0, x, 0x0, 0x0);
    lemma_word_fields(0x0, x, 0xE, 0x0);
    lemma_word_fields(0x0, x, 0xE, 0xE);
    lemma_word_fields(0xE, x, 0x9, 0xE);
    lemma_word_fields(0xE, x, 0xA, 0x1);
    lemma_word_fields(0xF, x, 0x0, 0x7);
    lemma_word_fields(0xF, x, 0x0, 0xA);
    lemma_word_fields(0xF, x, 0x1, 0x5);
    lemma_word_fields(0xF, x, 0x1, 0x8);
    lemma_word_fields(0xF, x, 0x1, 0xE);
    lemma_word_fields(0xF, x, 0x2, 0x9);
    lemma_word_fields(0xF, x, 0x3, 0x3);
    lemma_word_fields(0xF, x, 0x5, 0x5);
    lemma_word_fields(0xF, x, 0x6, 0x5);
}

/// A step that runs `ADD Vx, Vy` (the word `8xy4`) succeeds, moves on to
/// the next instruction and leaves the sum and the carry as `law_add_carry`
/// says, whatever the quirks, the keys and the timers.
pub proof fn law_add_step(m: Machine, keys: Seq<bool>, random: u8, x: u8, y: u8)
    requires
        m.wf(),
        m.pc < 0xFFF,
        x < 16,
        y < 16,
        m.fetch() == 0x8004 + 0x100 * x + 0x10 * y,
    ensures
        m.step(keys, random) matches Ok(next) && next.pc == m.pc + 2 && next.v[0xF] == flag(
            m.v[x as int] + m.v[y as int] > 255,
        ) && (x != 0xF ==> next.v[x as int] == (m.v[x as int] + m.v[y as int]) % 256),
{
    law_register_words(x, y);
}

/// A step that runs `SUB Vx, Vy` (the word `8xy5`) succeeds, moves on to
/// the next instruction and leaves the difference and the flag as
/// `law_sub_borrow` says.
pub proof fn law_sub_step(m: Machine, keys: Seq<bool>, random: u8, x: u8, y: u8)
    requires
        m.wf(),
        m.pc < 0xFFF,
        x < 16,
        y < 16,
        m.fetch() == 0x8005 + 0x100 * x + 0x10 * y,
    ensures
        m.step(keys, random) matches Ok(next) && next.pc == m.pc + 2 && next.v[0xF] == flag(
            m.v[x as int] > m.v[y as int],
        ) && (x != 0xF ==> next.v[x as int] == (m.v[x as int] - m.v[y as int]) % 256),
{
    law_register_words(x, y);
}

/// A step that runs `OR`, `AND` or `XOR` (the words `8xy1`, `8xy2` and
/// `8xy3`) succeeds and leaves 0 in VF if the quirk for bitwise operations
/// is on. If it is off and VF is not the register written, VF is left as it
/// was.
pub proof fn law_bitwise_step(m: Machine, keys: Seq<bool>, random: u8, x: u8, y: u8, n: u8)
    requires
        m.wf(),
        m.pc < 0xFFF,
        x < 16,
        y < 16,
        1 <= n <= 3,
        m.fetch() == 0x8000 + 0x100 * x + 0x10 * y + n,
    ensures
        m.step(keys, random) matches Ok(next) && next.pc == m.pc + 2 && if m.quirks.vf_reset {
            next.v[0xF] == 0
        } else {
            x != 0xF ==> next.v[0xF] == m.v[0xF]
        },
{
    law_register_words(x, y);
}

} // verus!
