use crate::display::{lemma_sprite_position, sprite_col, sprite_row};
use crate::error::Chip8Error;
use crate::font::{font, FONT_SET};
use crate::instruction::{decode, decode_spec, Opcode};
use crate::machine::{
    any_pressed, is_lowest_pressed, lowest_pressed, outcome, sprite_bit, Machine, MAX_PROGRAM_SIZE,
};
use crate::quirk::Quirk;
use vstd::prelude::*;

verus! {

/// The executable machine. Its state is private; what it holds is its view,
/// a [`Machine`], and every operation is specified as a transition of that
/// view.
///
/// `tick` and `tick_with` accept every machine and every input. The
/// operations for single instructions take their operands as the decoder
/// yields them: a register is named by a number below 16 and a sprite has
/// fewer than 16 rows. Those that move the program counter by two, or add
/// to the index register, need the result to fit in sixteen bits; inside a
/// step it always does.
pub struct CPU {
    memory: [u8; 0x1000],
    v: [u8; 16],
    i: u16,
    pc: u16,
    /// Number of return addresses on the stack; they are `stack[0..sp]`.
    sp: u8,
    stack: [u16; 16],
    dt: u8,
    st: u8,
    quirks: Quirk,
    vbuffer: [bool; 2048],
    redraw: bool,
    pressed_keys: [bool; 16],
}

impl View for CPU {
    type V = Machine;

    closed spec fn view(&self) -> Machine {
        Machine {
            memory: self.memory@,
            v: self.v@,
            i: self.i,
            pc: self.pc,
            stack: self.stack@.subrange(0, self.sp as int),
            dt: self.dt,
            st: self.st,
            quirks: self.quirks,
            vbuffer: self.vbuffer@,
            redraw: self.redraw,
            pressed_keys: self.pressed_keys@,
        }
    }
}

impl CPU {
    #[verifier::type_invariant]
    closed spec fn inv(&self) -> bool {
        self.sp <= 16
    }

    /// Builds a machine with the given quirks: memory holds the font and is
    /// otherwise zero, execution starts at the load address.
    pub fn new(quirks: Quirk) -> (cpu: Self)
        ensures
            cpu@ == Machine::initial(quirks),
            cpu@.wf(),
    {
        let mut memory = [0u8; 0x1000];
        let mut a: usize = 0;
        while a < 80
            invariant
                a <= 80,
                forall|b: int| 0 <= b < a ==> memory@[b] == font()[b],
                forall|b: int| a <= b < 0x1000 ==> memory@[b] == 0u8,
            decreases 80 - a,
        {
            memory[a] = FONT_SET[a];
            a += 1;
        }
        let cpu = CPU {
            memory,
            v: [0; 16],
            i: 0,
            pc: 0x200,
            sp: 0,
            stack: [0; 16],
            dt: 0,
            st: 0,
            quirks,
            vbuffer: [false; 2048],
            redraw: true,
            pressed_keys: [false; 16],
        };
        cpu
    }

    /// Copies a program to the load address. A program of more than 3584
    /// bytes does not fit and is refused; memory is then untouched.
    pub fn load_rom(&mut self, rom: Vec<u8>) -> (result: Result<(), Chip8Error>)
        ensures
            outcome(old(self)@, old(self)@.load_rom(rom@), result, final(self)@),
            final(self)@.wf(),
    {
        proof {
            use_type_invariant(&*self);
        }
        if rom.len() > MAX_PROGRAM_SIZE {
            return Err(Chip8Error::ProgramTooLarge);
        }
        let mut k: usize = 0;
        while k < rom.len()
            invariant
                k <= rom.len() <= 0xE00,
                self.inv(),
                forall|a: int| 0x200 <= a < 0x200 + k ==> self.memory@[a] == rom@[a - 0x200],
                forall|a: int|
                    0 <= a < 0x1000 && !(0x200 <= a < 0x200 + k) ==> self.memory@[a] == old(
                        self,
                    ).memory@[a],
                self.v == old(self).v,
                self.i == old(self).i,
                self.pc == old(self).pc,
                self.sp == old(self).sp,
                self.stack == old(self).stack,
                self.dt == old(self).dt,
                self.st == old(self).st,
                self.quirks == old(self).quirks,
                self.vbuffer == old(self).vbuffer,
                self.redraw == old(self).redraw,
                self.pressed_keys == old(self).pressed_keys,
            decreases rom.len() - k,
        {
            self.memory[0x200 + k] = rom[k];
            k += 1;
        }
        assert(self@ =~= old(self)@.load_rom(rom@)->Ok_0);
        Ok(())
    }

    /// The value of register `addr`.
    pub fn read_v(&self, addr: u8) -> (val: u8)
        requires
            addr < 16,
        ensures
            val == self@.v[addr as int],
    {
        self.v[addr as usize]
    }

    /// Register `addr` becomes `val`.
    pub fn write_v(&mut self, addr: u8, val: u8)
        requires
            addr < 16,
        ensures
            final(self)@ == old(self)@.with_v(addr as int, val),
            final(self)@.wf(),
    {
        proof {
            use_type_invariant(&*self);
        }
        self.v[addr as usize] = val;
    }

    /// Takes the newest return address off the stack.
    pub fn stack_pop(&mut self) -> (result: Result<u16, Chip8Error>)
        ensures
            old(self)@.stack.len() == 0 ==> result == Err::<u16, Chip8Error>(
                Chip8Error::StackUnderflow,
            ) && final(self)@ == old(self)@,
            old(self)@.stack.len() > 0 ==> result == Ok::<u16, Chip8Error>(
                old(self)@.stack.last(),
            ) && final(self)@ == (Machine { stack: old(self)@.stack.drop_last(), ..old(self)@ }),
            final(self)@.wf(),
    {
        proof {
            use_type_invariant(&*self);
        }
        if self.sp == 0 {
            return Err(Chip8Error::StackUnderflow);
        }
        self.sp -= 1;
        let val = self.stack[self.sp as usize];
        Ok(val)
    }

    /// Puts a return address on the stack, which holds at most sixteen.
    pub fn stack_push(&mut self, val: u16) -> (result: Result<(), Chip8Error>)
        ensures
            old(self)@.stack.len() >= 16 ==> result == Err::<(), Chip8Error>(
                Chip8Error::StackOverflow,
            ) && final(self)@ == old(self)@,
            old(self)@.stack.len() < 16 ==> result is Ok && final(self)@ == (Machine {
                stack: old(self)@.stack.push(val),
                ..old(self)@
            }),
            final(self)@.wf(),
    {
        proof {
            use_type_invariant(&*self);
        }
        if self.sp >= 16 {
            return Err(Chip8Error::StackOverflow);
        }
        self.stack[self.sp as usize] = val;
        self.sp += 1;
        Ok(())
    }
}

/// A byte from the thread-local generator of the `rand` crate
/// (`rand::random::<u8>()`). Nothing is claimed of the value: any byte can
/// come back, and two calls need not agree. The generator is seeded from
/// the operating system the first time a thread uses it, and `rand` panics
/// there if the system gives it no entropy; nothing here can rule that out.
#[verifier::external_body]
fn random_byte() -> (byte: u8) {
    rand::random::<u8>()
}

impl CPU {
    /// `00E0`: turns every pixel off.
    pub fn cls(&mut self)
        ensures
            final(self)@ == old(self)@.cls(),
            final(self)@.wf(),
    {
        proof {
            use_type_invariant(&*self);
        }
        self.vbuffer = [false; 2048];
    }

    /// `00EE`: returns to the address on top of the stack. With an empty
    /// stack the instruction fails with `StackUnderflow`.
    pub fn ret(&mut self) -> (result: Result<(), Chip8Error>)
        ensures
            outcome(old(self)@, old(self)@.ret(), result, final(self)@),
            final(self)@.wf(),
    {
        match self.stack_pop() {
            Ok(addr) => {
                proof {
                    use_type_invariant(&*self);
                }
                self.pc = addr;
                Ok(())
            },
            Err(e) => Err(e),
        }
    }

    /// `1nnn`: continues at `addr`.
    pub fn jp(&mut self, addr: u16)
        ensures
            final(self)@ == old(self)@.jp(addr),
            final(self)@.wf(),
    {
        proof {
            use_type_invariant(&*self);
        }
        self.pc = addr;
    }

    /// `Bnnn`: continues at `addr` plus V0, or with the jump quirk plus the
    /// register that the top nibble of the twelve-bit address names. The sum
    /// is taken modulo 2^16.
    pub fn jp_v0(&mut self, addr: u16)
        ensures
            final(self)@ == old(self)@.jp_v0(addr),
            final(self)@.wf(),
    {
        proof {
            use_type_invariant(&*self);
        }
        let target: u16 = if self.quirks.jump_vx {
            (addr / 0x100) % 0x10
        } else {
            0
        };
        let vt: u32 = self.v[target as usize] as u32;
        self.pc = ((vt + addr as u32) % 0x10000) as u16;
    }

    /// `2nnn`: pushes the program counter and continues at `addr`. With
    /// sixteen calls already in progress the instruction fails with
    /// `StackOverflow`.
    pub fn call(&mut self, addr: u16) -> (result: Result<(), Chip8Error>)
        ensures
            outcome(old(self)@, old(self)@.call(addr), result, final(self)@),
            final(self)@.wf(),
    {
        let pc = self.pc;
        match self.stack_push(pc) {
            Ok(()) => {
                proof {
                    use_type_invariant(&*self);
                }
                self.pc = addr;
                Ok(())
            },
            Err(e) => Err(e),
        }
    }

    /// Moves the program counter past one instruction if `cond` holds.
    fn skip_if(&mut self, cond: bool)
        requires
            old(self)@.pc <= 0xFFFD,
        ensures
            final(self)@ == old(self)@.skip_if(cond),
            final(self)@.wf(),
    {
        proof {
            use_type_invariant(&*self);
        }
        if cond {
            self.pc += 2;
        }
    }

    /// `3xkk`: skips the next instruction if Vx equals `byte`.
    pub fn se_x(&mut self, x: u8, byte: u8)
        requires
            x < 16,
            old(self)@.pc <= 0xFFFD,
        ensures
            final(self)@ == old(self)@.se_x(x, byte),
            final(self)@.wf(),
    {
        let cond = self.read_v(x) == byte;
        self.skip_if(cond);
    }

    /// `5xy_`: skips the next instruction if Vx equals Vy.
    pub fn se_xy(&mut self, x: u8, y: u8)
        requires
            x < 16,
            y < 16,
            old(self)@.pc <= 0xFFFD,
        ensures
            final(self)@ == old(self)@.se_xy(x, y),
            final(self)@.wf(),
    {
        let cond = self.read_v(x) == self.read_v(y);
        self.skip_if(cond);
    }

    /// `4xkk`: skips the next instruction if Vx differs from `byte`.
    pub fn sne_x(&mut self, x: u8, byte: u8)
        requires
            x < 16,
            old(self)@.pc <= 0xFFFD,
        ensures
            final(self)@ == old(self)@.sne_x(x, byte),
            final(self)@.wf(),
    {
        let cond = self.read_v(x) != byte;
        self.skip_if(cond);
    }

    /// `9xy_`: skips the next instruction if Vx differs from Vy.
    pub fn sne_xy(&mut self, x: u8, y: u8)
        requires
            x < 16,
            y < 16,
            old(self)@.pc <= 0xFFFD,
        ensures
            final(self)@ == old(self)@.sne_xy(x, y),
            final(self)@.wf(),
    {
        let cond = self.read_v(x) != self.read_v(y);
        self.skip_if(cond);
    }

    /// `6xkk`: Vx becomes `byte`.
    pub fn ld_x(&mut self, x: u8, byte: u8)
        requires
            x < 16,
        ensures
            final(self)@ == old(self)@.ld_x(x, byte),
            final(self)@.wf(),
    {
        self.write_v(x, byte);
    }

    /// `8xy0`: Vx becomes Vy.
    pub fn ld_xy(&mut self, x: u8, y: u8)
        requires
            x < 16,
            y < 16,
        ensures
            final(self)@ == old(self)@.ld_xy(x, y),
            final(self)@.wf(),
    {
        let vy = self.read_v(y);
        self.write_v(x, vy);
    }

    /// `Annn`: I becomes `addr`.
    pub fn ld_i(&mut self, addr: u16)
        ensures
            final(self)@ == old(self)@.ld_i(addr),
            final(self)@.wf(),
    {
        proof {
            use_type_invariant(&*self);
        }
        self.i = addr;
    }

    /// `Fx07`: Vx becomes the delay timer.
    pub fn ld_xdt(&mut self, x: u8)
        requires
            x < 16,
        ensures
            final(self)@ == old(self)@.ld_xdt(x),
            final(self)@.wf(),
    {
        let dt = self.dt;
        self.write_v(x, dt);
    }

    /// `Fx0A`: waits for a key. If a key is held, Vx becomes the lowest
    /// index of a held key. If none is, the program counter steps back over
    /// this instruction, so that the next step runs it again; the machine
    /// never blocks.
    pub fn ld_xk(&mut self, x: u8)
        requires
            x < 16,
            !any_pressed(old(self)@.pressed_keys) ==> old(self)@.pc >= 2,
        ensures
            final(self)@ == old(self)@.ld_xk(x),
            final(self)@.wf(),
    {
        proof {
            use_type_invariant(&*self);
        }
        let mut k: u8 = 0;
        while k < 16
            invariant
                k <= 16,
                x < 16,
                self.inv(),
                *self == *old(self),
                forall|j: int| 0 <= j < k ==> !self.pressed_keys@[j],
            decreases 16 - k,
        {
            if self.pressed_keys[k as usize] {
                proof {
                    // `k` is a lowest held key, and there is only one.
                    assert(is_lowest_pressed(self@.pressed_keys, k as int));
                    assert(lowest_pressed(self@.pressed_keys) == k);
                }
                self.write_v(x, k);
                return;
            }
            k += 1;
        }
        self.pc -= 2;
    }

    /// `Fx15`: the delay timer becomes Vx.
    pub fn ld_dtx(&mut self, x: u8)
        requires
            x < 16,
        ensures
            final(self)@ == old(self)@.ld_dtx(x),
            final(self)@.wf(),
    {
        proof {
            use_type_invariant(&*self);
        }
        self.dt = self.v[x as usize];
    }

    /// `Fx18`: the sound timer becomes Vx.
    pub fn ld_stx(&mut self, x: u8)
        requires
            x < 16,
        ensures
            final(self)@ == old(self)@.ld_stx(x),
            final(self)@.wf(),
    {
        proof {
            use_type_invariant(&*self);
        }
        self.st = self.v[x as usize];
    }

    /// `Fx29`: I becomes five times Vx, which for a digit in Vx is the
    /// address of its glyph in the font.
    pub fn ld_ix(&mut self, x: u8)
        requires
            x < 16,
        ensures
            final(self)@ == old(self)@.ld_ix(x),
            final(self)@.wf(),
    {
        proof {
            use_type_invariant(&*self);
        }
        self.i = self.v[x as usize] as u16 * 5;
    }

    /// `7xkk`: Vx becomes Vx + `byte` modulo 256. VF is not touched.
    pub fn add(&mut self, x: u8, byte: u8)
        requires
            x < 16,
        ensures
            final(self)@ == old(self)@.add(x, byte),
            final(self)@.wf(),
    {
        let sum: u16 = self.read_v(x) as u16 + byte as u16;
        self.write_v(x, (sum % 256) as u8);
    }

    /// Clears VF if the quirk for bitwise operations is on.
    fn after_bitwise(&mut self)
        ensures
            final(self)@ == old(self)@.after_bitwise(),
            final(self)@.wf(),
    {
        proof {
            use_type_invariant(&*self);
        }
        if self.quirks.vf_reset {
            self.write_v(0xF, 0);
        }
    }

    /// `8xy1`: Vx becomes Vx OR Vy. With the quirk, VF is then cleared.
    pub fn or(&mut self, x: u8, y: u8)
        requires
            x < 16,
            y < 16,
        ensures
            final(self)@ == old(self)@.or(x, y),
            final(self)@.wf(),
    {
        let val = self.read_v(x) | self.read_v(y);
        self.write_v(x, val);
        self.after_bitwise();
    }

    /// `8xy2`: Vx becomes Vx AND Vy. With the quirk, VF is then cleared.
    pub fn and(&mut self, x: u8, y: u8)
        requires
            x < 16,
            y < 16,
        ensures
            final(self)@ == old(self)@.and(x, y),
            final(self)@.wf(),
    {
        let val = self.read_v(x) & self.read_v(y);
        self.write_v(x, val);
        self.after_bitwise();
    }

    /// `8xy3`: Vx becomes Vx XOR Vy. With the quirk, VF is then cleared.
    pub fn xor(&mut self, x: u8, y: u8)
        requires
            x < 16,
            y < 16,
        ensures
            final(self)@ == old(self)@.xor(x, y),
            final(self)@.wf(),
    {
        let val = self.read_v(x) ^ self.read_v(y);
        self.write_v(x, val);
        self.after_bitwise();
    }

    /// `8xy4`: Vx becomes Vx + Vy modulo 256; then VF becomes 1 if the sum
    /// was above 255 and 0 otherwise.
    pub fn add_xy(&mut self, x: u8, y: u8)
        requires
            x < 16,
            y < 16,
        ensures
            final(self)@ == old(self)@.add_xy(x, y),
            final(self)@.wf(),
    {
        let sum: u16 = self.read_v(x) as u16 + self.read_v(y) as u16;
        self.write_v(x, (sum % 256) as u8);
        self.write_v(0xF, if sum > 0xFF { 1 } else { 0 });
    }

    /// `Fx1E`: I becomes I + Vx; then VF becomes 1 if I is above 0x0F00 and
    /// 0 otherwise. The sum has to fit the sixteen bits of I.
    pub fn add_i(&mut self, x: u8)
        requires
            x < 16,
            old(self)@.i + old(self)@.v[x as int] <= 0xFFFF,
        ensures
            final(self)@ == old(self)@.add_i(x),
            final(self)@.wf(),
    {
        proof {
            use_type_invariant(&*self);
        }
        self.i += self.v[x as usize] as u16;
        self.v[0xF] = if self.i > 0x0F00 { 1 } else { 0 };
    }

    /// `8xy5`: Vx becomes Vx - Vy modulo 256; then VF becomes 1 if Vx was
    /// larger than Vy and 0 otherwise.
    pub fn sub(&mut self, x: u8, y: u8)
        requires
            x < 16,
            y < 16,
        ensures
            final(self)@ == old(self)@.sub(x, y),
            final(self)@.wf(),
    {
        let a = self.read_v(x);
        let b = self.read_v(y);
        let diff: u16 = (a as u16 + 0x100 - b as u16) % 0x100;
        self.write_v(x, diff as u8);
        self.write_v(0xF, if a > b { 1 } else { 0 });
    }

    /// `8xy7`: Vx becomes Vy - Vx modulo 256; then VF becomes 1 if Vy was
    /// larger than Vx and 0 otherwise.
    pub fn subn(&mut self, x: u8, y: u8)
        requires
            x < 16,
            y < 16,
        ensures
            final(self)@ == old(self)@.subn(x, y),
            final(self)@.wf(),
    {
        let a = self.read_v(x);
        let b = self.read_v(y);
        let diff: u16 = (b as u16 + 0x100 - a as u16) % 0x100;
        self.write_v(x, diff as u8);
        self.write_v(0xF, if b > a { 1 } else { 0 });
    }

    /// `8xy6`: Vx becomes Vy shifted right by one (with the shift quirk, Vx
    /// shifted right by one); then VF becomes the bit that was shifted out.
    pub fn shr(&mut self, x: u8, y: u8)
        requires
            x < 16,
            y < 16,
        ensures
            final(self)@ == old(self)@.shr(x, y),
            final(self)@.wf(),
    {
        let target = if self.quirks.shift_x { x } else { y };
        let t = self.read_v(target);
        let out = t & 1;
        let shifted = t >> 1;
        assert(t & 1 == t % 2 && t >> 1 == t / 2) by (bit_vector);
        self.write_v(x, shifted);
        self.write_v(0xF, out);
    }

    /// `8xyE`: Vx becomes Vy shifted left by one (with the shift quirk, Vx
    /// shifted left by one); then VF becomes the bit that was shifted out.
    pub fn shl(&mut self, x: u8, y: u8)
        requires
            x < 16,
            y < 16,
        ensures
            final(self)@ == old(self)@.shl(x, y),
            final(self)@.wf(),
    {
        let target = if self.quirks.shift_x { x } else { y };
        let t = self.read_v(target);
        let out = t >> 7;
        let shifted = t << 1;
        assert(t >> 7 == t / 128 && t << 1 == (t * 2) % 256) by (bit_vector);
        self.write_v(x, shifted);
        self.write_v(0xF, out);
    }

    /// `Cxkk` with the random byte given: Vx becomes `random` AND `kk`.
    pub fn rnd_with(&mut self, x: u8, kk: u8, random: u8)
        requires
            x < 16,
        ensures
            final(self)@ == old(self)@.rnd_with(x, kk, random),
            final(self)@.wf(),
    {
        self.write_v(x, random & kk);
    }

    /// `Cxkk`: Vx becomes a random byte AND `kk`. Which byte is drawn is not
    /// specified; whatever it is, the machine changes as `rnd_with` says.
    pub fn rnd(&mut self, x: u8, kk: u8)
        requires
            x < 16,
        ensures
            exists|random: u8| final(self)@ == old(self)@.rnd_with(x, kk, random),
            final(self)@.wf(),
    {
        let random = random_byte();
        self.rnd_with(x, kk, random);
    }

    /// `Ex9E`: skips the next instruction if the key named by Vx is held. A
    /// value above 15 names no key, and no key is then held.
    pub fn skp(&mut self, x: u8)
        requires
            x < 16,
            old(self)@.pc <= 0xFFFD,
        ensures
            final(self)@ == old(self)@.skp(x),
            final(self)@.wf(),
    {
        let key = self.read_v(x);
        let down = key < 16 && self.pressed_keys[key as usize];
        self.skip_if(down);
    }

    /// `ExA1`: skips the next instruction unless the key named by Vx is
    /// held. A value above 15 names no key, and no key is then held.
    pub fn sknp(&mut self, x: u8)
        requires
            x < 16,
            old(self)@.pc <= 0xFFFD,
        ensures
            final(self)@ == old(self)@.sknp(x),
            final(self)@.wf(),
    {
        let key = self.read_v(x);
        let down = key < 16 && self.pressed_keys[key as usize];
        self.skip_if(!down);
    }
}

/// Whether the pixel at `p` has been toggled once the rows above `row` are
/// drawn in full and of row `row` the columns left of `col`.
spec fn toggled_so_far(m: Machine, left: u8, top: u8, row: int, col: int, p: int) -> bool {
    let c = sprite_col(left, p);
    let r = sprite_row(top, p);
    c < 8 && (r < row || (r == row && c < col)) && sprite_bit(m.memory[m.i + r], c)
}

/// Whether, of the part of the sprite drawn so far, a set bit lies over the
/// pixel at `p` and that pixel was on before the draw.
spec fn hit_so_far(m: Machine, left: u8, top: u8, row: int, col: int, p: int) -> bool {
    0 <= p < 2048 && m.vbuffer[p] && toggled_so_far(m, left, top, row, col, p)
}

/// Whether the part of the sprite drawn so far has turned a pixel off.
spec fn any_hit(m: Machine, left: u8, top: u8, row: int, col: int) -> bool {
    exists|p: int| hit_so_far(m, left, top, row, col, p)
}

impl CPU {
    /// `Fx33`: stores the hundreds, tens and ones of Vx at I, I+1 and I+2.
    /// Fails with `AddressOutOfBounds` if I+2 is outside memory.
    pub fn ld_ix_bcd(&mut self, x: u8) -> (result: Result<(), Chip8Error>)
        requires
            x < 16,
        ensures
            outcome(old(self)@, old(self)@.ld_ix_bcd(x), result, final(self)@),
            final(self)@.wf(),
    {
        proof {
            use_type_invariant(&*self);
        }
        if self.i >= 0xFFE {
            return Err(Chip8Error::AddressOutOfBounds);
        }
        let vx = self.v[x as usize];
        let at = self.i as usize;
        self.memory[at] = vx / 100;
        self.memory[at + 1] = (vx / 10) % 10;
        self.memory[at + 2] = vx % 10;
        Ok(())
    }

    /// `Fx55`: stores V0 to Vx at I to I+x. With the quirk for block
    /// transfers, I then moves past the bytes stored. Fails with
    /// `AddressOutOfBounds` if I+x is outside memory.
    pub fn ld_ivx(&mut self, x: u8) -> (result: Result<(), Chip8Error>)
        requires
            x < 16,
        ensures
            outcome(old(self)@, old(self)@.ld_ivx(x), result, final(self)@),
            final(self)@.wf(),
    {
        proof {
            use_type_invariant(&*self);
        }
        if self.i as u32 + x as u32 >= 0x1000 {
            return Err(Chip8Error::AddressOutOfBounds);
        }
        let base = self.i as usize;
        let mut r: u8 = 0;
        while r <= x
            invariant
                r <= x + 1,
                x < 16,
                base == old(self).i,
                base + x < 0x1000,
                self.inv(),
                forall|a: int| base <= a < base + r ==> self.memory@[a] == old(self).v@[a - base],
                forall|a: int|
                    0 <= a < 0x1000 && !(base <= a < base + r) ==> self.memory@[a] == old(
                        self,
                    ).memory@[a],
                self.v == old(self).v,
                self.i == old(self).i,
                self.pc == old(self).pc,
                self.sp == old(self).sp,
                self.stack == old(self).stack,
                self.dt == old(self).dt,
                self.st == old(self).st,
                self.quirks == old(self).quirks,
                self.vbuffer == old(self).vbuffer,
                self.redraw == old(self).redraw,
                self.pressed_keys == old(self).pressed_keys,
            decreases x + 1 - r,
        {
            self.memory[base + r as usize] = self.v[r as usize];
            r += 1;
        }
        if self.quirks.mem_inc {
            self.i += x as u16 + 1;
        }
        assert(self@ =~= old(self)@.ld_ivx(x)->Ok_0);
        Ok(())
    }

    /// `Fx65`: loads V0 to Vx from I to I+x. With the quirk for block
    /// transfers, I then moves past the bytes loaded. Fails with
    /// `AddressOutOfBounds` if I+x is outside memory.
    pub fn ld_vxi(&mut self, x: u8) -> (result: Result<(), Chip8Error>)
        requires
            x < 16,
        ensures
            outcome(old(self)@, old(self)@.ld_vxi(x), result, final(self)@),
            final(self)@.wf(),
    {
        proof {
            use_type_invariant(&*self);
        }
        if self.i as u32 + x as u32 >= 0x1000 {
            return Err(Chip8Error::AddressOutOfBounds);
        }
        let base = self.i as usize;
        let mut r: u8 = 0;
        while r <= x
            invariant
                r <= x + 1,
                x < 16,
                base == old(self).i,
                base + x < 0x1000,
                self.inv(),
                forall|k: int| 0 <= k < r ==> self.v@[k] == old(self).memory@[base + k],
                forall|k: int| r <= k < 16 ==> self.v@[k] == old(self).v@[k],
                self.memory == old(self).memory,
                self.i == old(self).i,
                self.pc == old(self).pc,
                self.sp == old(self).sp,
                self.stack == old(self).stack,
                self.dt == old(self).dt,
                self.st == old(self).st,
                self.quirks == old(self).quirks,
                self.vbuffer == old(self).vbuffer,
                self.redraw == old(self).redraw,
                self.pressed_keys == old(self).pressed_keys,
            decreases x + 1 - r,
        {
            self.v[r as usize] = self.memory[base + r as usize];
            r += 1;
        }
        if self.quirks.mem_inc {
            self.i += x as u16 + 1;
        }
        assert(self@ =~= old(self)@.ld_vxi(x)->Ok_0);
        Ok(())
    }

    /// `Dxyn`: draws the sprite of `n` rows stored at I with its top left
    /// corner at (Vx, Vy). VF is cleared first, and the corner is read after
    /// that, once. Each set bit of the sprite toggles the pixel under it;
    /// columns wrap around at 64 and rows at 32. VF ends as 1 if a pixel
    /// that was on has been turned off, else 0, and a redraw is requested.
    /// Fails with `AddressOutOfBounds` if a row of the sprite is outside
    /// memory.
    pub fn drw(&mut self, x: u8, y: u8, n: u8) -> (result: Result<(), Chip8Error>)
        requires
            x < 16,
            y < 16,
            n < 16,
        ensures
            outcome(old(self)@, old(self)@.drw(x, y, n), result, final(self)@),
            final(self)@.wf(),
    {
        proof {
            use_type_invariant(&*self);
        }
        if n > 0 && self.i as usize + n as usize > 0x1000 {
            return Err(Chip8Error::AddressOutOfBounds);
        }
        self.v[0xF] = 0;
        let left = self.v[x as usize];
        let top = self.v[y as usize];
        let base = self.i as usize;
        let ghost m = old(self)@;
        let mut collision = false;
        let mut row: u8 = 0;
        while row < n
            invariant
                row <= n < 16,
                n > 0 ==> base + n <= 0x1000,
                base == m.i,
                m == old(self)@,
                self.inv(),
                forall|p: int|
                    0 <= p < 2048 ==> self.vbuffer@[p] == (m.vbuffer[p] != toggled_so_far(
                        m,
                        left,
                        top,
                        row as int,
                        0,
                        p,
                    )),
                collision == any_hit(m, left, top, row as int, 0),
                self.memory == old(self).memory,
                self.v@ == old(self).v@.update(0xF, 0u8),
                self.i == old(self).i,
                self.pc == old(self).pc,
                self.sp == old(self).sp,
                self.stack == old(self).stack,
                self.dt == old(self).dt,
                self.st == old(self).st,
                self.quirks == old(self).quirks,
                self.redraw == old(self).redraw,
                self.pressed_keys == old(self).pressed_keys,
            decreases n - row,
        {
            let sprite = self.memory[base + row as usize];
            let py = (top as usize + row as usize) % 32;
            let mut col: u8 = 0;
            while col < 8
                invariant
                    col <= 8,
                    row < n < 16,
                    base + n <= 0x1000,
                    base == m.i,
                    m == old(self)@,
                    py == (top + row) % 32,
                    sprite == m.memory[base + row],
                    self.inv(),
                    forall|p: int|
                        0 <= p < 2048 ==> self.vbuffer@[p] == (m.vbuffer[p] != toggled_so_far(
                            m,
                            left,
                            top,
                            row as int,
                            col as int,
                            p,
                        )),
                    collision == any_hit(m, left, top, row as int, col as int),
                    self.memory == old(self).memory,
                    self.v@ == old(self).v@.update(0xF, 0u8),
                    self.i == old(self).i,
                    self.pc == old(self).pc,
                    self.sp == old(self).sp,
                    self.stack == old(self).stack,
                    self.dt == old(self).dt,
                    self.st == old(self).st,
                    self.quirks == old(self).quirks,
                    self.redraw == old(self).redraw,
                    self.pressed_keys == old(self).pressed_keys,
                decreases 8 - col,
            {
                let bit = (sprite >> (7 - col)) & 1 == 1;
                let px = (left as usize + col as usize) % 64;
                let index = py * 64 + px;
                let was_on = self.vbuffer[index];
                proof {
                    let r0 = row as int;
                    let c0 = col as int;
                    let c1 = c0 + 1;
                    lemma_sprite_position(left, top, r0, c0, index as int);
                    assert forall|p: int| 0 <= p < 2048 implies toggled_so_far(
                        m,
                        left,
                        top,
                        r0,
                        c1,
                        p,
                    ) == (toggled_so_far(m, left, top, r0, c0, p) || (p == index && bit)) by {
                        lemma_sprite_position(left, top, r0, c0, p);
                    }
                    if any_hit(m, left, top, r0, c0) {
                        let seen = choose|p: int| hit_so_far(m, left, top, r0, c0, p);
                        assert(hit_so_far(m, left, top, r0, c1, seen));
                    }
                    if was_on && bit {
                        assert(hit_so_far(m, left, top, r0, c1, index as int));
                    }
                    if any_hit(m, left, top, r0, c1) {
                        let found = choose|p: int| hit_so_far(m, left, top, r0, c1, p);
                        assert(hit_so_far(m, left, top, r0, c0, found) || (found == index && bit));
                    }
                }
                self.vbuffer[index] = was_on != bit;
                collision = collision || (was_on && bit);
                col += 1;
            }
            proof {
                let r0 = row as int;
                let r1 = r0 + 1;
                assert forall|p: int| 0 <= p < 2048 implies toggled_so_far(m, left, top, r0, 8, p)
                    == toggled_so_far(m, left, top, r1, 0, p) by {}
                if any_hit(m, left, top, r0, 8) {
                    let seen = choose|p: int| hit_so_far(m, left, top, r0, 8, p);
                    assert(hit_so_far(m, left, top, r1, 0, seen));
                }
                if any_hit(m, left, top, r1, 0) {
                    let found = choose|p: int| hit_so_far(m, left, top, r1, 0, p);
                    assert(hit_so_far(m, left, top, r0, 8, found));
                }
            }
            row += 1;
        }
        proof {
            let rn = n as int;
            assert forall|p: int| 0 <= p < 2048 implies toggled_so_far(m, left, top, rn, 0, p)
                == m.toggles(left, top, n, p) by {}
            if any_hit(m, left, top, rn, 0) {
                let seen = choose|p: int| hit_so_far(m, left, top, rn, 0, p);
                assert(m.vbuffer[seen] && m.toggles(left, top, n, seen));
            }
            if m.collides(left, top, n) {
                let found = choose|p: int|
                    0 <= p < 2048 && m.vbuffer[p] && m.toggles(left, top, n, p);
                assert(hit_so_far(m, left, top, rn, 0, found));
            }
        }
        self.v[0xF] = if collision { 1 } else { 0 };
        self.redraw = true;
        assert(self@ =~= old(self)@.drw(x, y, n)->Ok_0);
        Ok(())
    }
}

impl CPU {
    /// Runs one decoded instruction. `random` is the byte that `Cxkk` uses.
    /// The program counter has to leave room for a skip and for the step
    /// back of a key wait, as it does inside a step.
    pub fn execute(&mut self, op: Opcode, random: u8) -> (result: Result<(), Chip8Error>)
        requires
            op.valid(),
            2 <= old(self)@.pc <= 0xFFFD,
        ensures
            outcome(old(self)@, old(self)@.execute(op, random), result, final(self)@),
            final(self)@.wf(),
    {
        proof {
            use_type_invariant(&*self);
        }
        match op {
            Opcode::Nop => Ok(()),
            Opcode::Cls => {
                self.cls();
                Ok(())
            },
            Opcode::Ret => self.ret(),
            Opcode::Jp { addr } => {
                self.jp(addr);
                Ok(())
            },
            Opcode::Call { addr } => self.call(addr),
            Opcode::SeByte { x, byte } => {
                self.se_x(x, byte);
                Ok(())
            },
            Opcode::SneByte { x, byte } => {
                self.sne_x(x, byte);
                Ok(())
            },
            Opcode::SeReg { x, y } => {
                self.se_xy(x, y);
                Ok(())
            },
            Opcode::SneReg { x, y } => {
                self.sne_xy(x, y);
                Ok(())
            },
            Opcode::LdByte { x, byte } => {
                self.ld_x(x, byte);
                Ok(())
            },
            Opcode::AddByte { x, byte } => {
                self.add(x, byte);
                Ok(())
            },
            Opcode::LdReg { x, y } => {
                self.ld_xy(x, y);
                Ok(())
            },
            Opcode::Or { x, y } => {
                self.or(x, y);
                Ok(())
            },
            Opcode::And { x, y } => {
                self.and(x, y);
                Ok(())
            },
            Opcode::Xor { x, y } => {
                self.xor(x, y);
                Ok(())
            },
            Opcode::AddReg { x, y } => {
                self.add_xy(x, y);
                Ok(())
            },
            Opcode::Sub { x, y } => {
                self.sub(x, y);
                Ok(())
            },
            Opcode::Shr { x, y } => {
                self.shr(x, y);
                Ok(())
            },
            Opcode::Subn { x, y } => {
                self.subn(x, y);
                Ok(())
            },
            Opcode::Shl { x, y } => {
                self.shl(x, y);
                Ok(())
            },
            Opcode::LdI { addr } => {
                self.ld_i(addr);
                Ok(())
            },
            Opcode::JpV0 { addr } => {
                self.jp_v0(addr);
                Ok(())
            },
            Opcode::Rnd { x, byte } => {
                self.rnd_with(x, byte, random);
                Ok(())
            },
            Opcode::Drw { x, y, n } => self.drw(x, y, n),
            Opcode::Skp { x } => {
                self.skp(x);
                Ok(())
            },
            Opcode::Sknp { x } => {
                self.sknp(x);
                Ok(())
            },
            Opcode::LdXDt { x } => {
                self.ld_xdt(x);
                Ok(())
            },
            Opcode::LdXK { x } => {
                self.ld_xk(x);
                Ok(())
            },
            Opcode::LdDtX { x } => {
                self.ld_dtx(x);
                Ok(())
            },
            Opcode::LdStX { x } => {
                self.ld_stx(x);
                Ok(())
            },
            Opcode::AddI { x } => {
                if self.i as u32 + self.v[x as usize] as u32 > 0xFFFF {
                    Err(Chip8Error::AddressOutOfBounds)
                } else {
                    self.add_i(x);
                    Ok(())
                }
            },
            Opcode::LdIX { x } => {
                self.ld_ix(x);
                Ok(())
            },
            Opcode::LdIXBcd { x } => self.ld_ix_bcd(x),
            Opcode::LdIVx { x } => self.ld_ivx(x),
            Opcode::LdVxI { x } => self.ld_vxi(x),
        }
    }

    /// The instruction word at the program counter, high byte first, if both
    /// of its bytes lie inside memory.
    fn fetch(&self) -> (word: Option<u16>)
        ensures
            word == if self@.pc >= 0xFFF {
                None
            } else {
                Some(self@.fetch())
            },
    {
        if self.pc >= 0xFFF {
            return None;
        }
        let b1 = self.memory[self.pc as usize] as u16;
        let b2 = self.memory[self.pc as usize + 1] as u16;
        assert((b1 << 8) | b2 == b1 * 0x100 + b2) by (bit_vector)
            requires
                b1 < 0x100,
                b2 < 0x100,
        ;
        Some((b1 << 8) | b2)
    }

    /// One fetch-decode-execute cycle, with the random byte given. The keys
    /// are replaced by `keys`, each timer that is not zero goes down by one,
    /// the instruction at the program counter is fetched, the program
    /// counter moves past it and the instruction runs. The redraw flag is
    /// only ever set, by a draw. If the step fails, the machine is left as it
    /// was before the step: `AddressOutOfBounds` if the instruction or what
    /// it reads or writes lies outside memory, `InvalidInstruction` if the
    /// word names no instruction, `StackOverflow` and `StackUnderflow` from
    /// call and return.
    pub fn tick_with(&mut self, keys: [bool; 16], random: u8) -> (result: Result<(), Chip8Error>)
        ensures
            outcome(old(self)@, old(self)@.step(keys@, random), result, final(self)@),
            final(self)@.wf(),
    {
        proof {
            use_type_invariant(&*self);
        }
        let word = match self.fetch() {
            Some(word) => word,
            None => {
                return Err(Chip8Error::AddressOutOfBounds);
            },
        };
        let op = match decode(word) {
            Some(op) => op,
            None => {
                return Err(Chip8Error::InvalidInstruction { opcode: word, pc: self.pc });
            },
        };
        let saved_keys = self.pressed_keys;
        let saved_dt = self.dt;
        let saved_st = self.st;
        let saved_pc = self.pc;
        self.begin(keys);
        match self.execute(op, random) {
            Ok(()) => Ok(()),
            Err(e) => {
                self.rewind(saved_keys, saved_dt, saved_st, saved_pc);
                Err(e)
            },
        }
    }

    /// The start of a step: replaces the keys, counts the timers down and
    /// moves the program counter past the instruction about to run.
    fn begin(&mut self, keys: [bool; 16])
        requires
            old(self)@.pc <= 0xFFFD,
        ensures
            final(self)@ == old(self)@.begin(keys@),
            final(self)@.wf(),
    {
        proof {
            use_type_invariant(&*self);
        }
        self.pressed_keys = keys;
        if self.dt > 0 {
            self.dt -= 1;
        }
        if self.st > 0 {
            self.st -= 1;
        }
        self.pc += 2;
    }

    /// Puts back what the start of a step changed.
    fn rewind(&mut self, keys: [bool; 16], dt: u8, st: u8, pc: u16)
        ensures
            final(self)@ == (Machine { pressed_keys: keys@, dt, st, pc, ..old(self)@ }),
            final(self)@.wf(),
    {
        proof {
            use_type_invariant(&*self);
        }
        self.pressed_keys = keys;
        self.dt = dt;
        self.st = st;
        self.pc = pc;
    }

    /// Whether the instruction about to run is the random one.
    fn next_is_random(&self) -> (yes: bool)
        ensures
            yes <==> (self@.pc < 0xFFF && (decode_spec(self@.fetch()) matches Some(op)
                && op is Rnd)),
    {
        match self.fetch() {
            None => false,
            Some(word) => match decode(word) {
                Some(Opcode::Rnd { .. }) => true,
                _ => false,
            },
        }
    }

    /// One fetch-decode-execute cycle; see `tick_with`. The random
    /// instruction draws its byte from the generator of the `rand` crate:
    /// the step is the one that `tick_with` makes with some byte.
    pub fn tick(&mut self, keys: [bool; 16]) -> (result: Result<(), Chip8Error>)
        ensures
            exists|random: u8|
                outcome(old(self)@, #[trigger] old(self)@.step(keys@, random), result, final(self)@),
            final(self)@.wf(),
    {
        let random = if self.next_is_random() {
            random_byte()
        } else {
            0
        };
        self.tick_with(keys, random)
    }

    /// The program counter.
    pub fn pc(&self) -> (pc: u16)
        ensures
            pc == self@.pc,
    {
        self.pc
    }

    /// The index register.
    pub fn index(&self) -> (i: u16)
        ensures
            i == self@.i,
    {
        self.i
    }

    /// The number of calls in progress.
    pub fn stack_depth(&self) -> (depth: usize)
        ensures
            depth == self@.stack.len(),
            depth <= 16,
    {
        proof {
            use_type_invariant(self);
        }
        self.sp as usize
    }

    /// The delay timer.
    pub fn delay_timer(&self) -> (dt: u8)
        ensures
            dt == self@.dt,
    {
        self.dt
    }

    /// The sound timer. Making a sound while it is not zero is up to the
    /// host.
    pub fn sound_timer(&self) -> (st: u8)
        ensures
            st == self@.st,
    {
        self.st
    }

    /// The quirks the machine was built with.
    pub fn quirks(&self) -> (quirks: Quirk)
        ensures
            quirks == self@.quirks,
    {
        self.quirks
    }

    /// The byte of memory at `addr`, or `None` if `addr` is outside memory.
    pub fn peek(&self, addr: u16) -> (byte: Option<u8>)
        ensures
            byte == if addr < 0x1000 {
                Some(self@.memory[addr as int])
            } else {
                None
            },
    {
        if addr < 0x1000 {
            Some(self.memory[addr as usize])
        } else {
            None
        }
    }

    /// The screen: 32 rows of 64 pixels, row after row.
    pub fn vbuffer(&self) -> (pixels: &[bool; 2048])
        ensures
            pixels@ == self@.vbuffer,
    {
        &self.vbuffer
    }

    /// Whether a draw has happened since the flag was last cleared.
    pub fn redraw(&self) -> (flag: bool)
        ensures
            flag == self@.redraw,
    {
        self.redraw
    }

    /// Sets or clears the redraw flag. The machine never clears it: the host
    /// does, once it has shown the screen.
    pub fn set_redraw(&mut self, flag: bool)
        ensures
            final(self)@ == (Machine { redraw: flag, ..old(self)@ }),
            final(self)@.wf(),
    {
        proof {
            use_type_invariant(&*self);
        }
        self.redraw = flag;
    }

    /// The keys held at the last step.
    pub fn pressed_keys(&self) -> (keys: &[bool; 16])
        ensures
            keys@ == self@.pressed_keys,
    {
        &self.pressed_keys
    }

    /// Replaces the keys, as the start of a step does.
    pub fn set_pressed_keys(&mut self, keys: [bool; 16])
        ensures
            final(self)@ == (Machine { pressed_keys: keys@, ..old(self)@ }),
            final(self)@.wf(),
    {
        proof {
            use_type_invariant(&*self);
        }
        self.pressed_keys = keys;
    }
}

} // verus!
