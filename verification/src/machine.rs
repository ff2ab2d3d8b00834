use crate::display::{sprite_col, sprite_row};
use crate::error::Chip8Error;
use crate::font::font;
use crate::instruction::{decode_spec, Opcode};
use crate::quirk::Quirk;
use vstd::prelude::*;

verus! {

/// Number of bytes of memory.
pub const MEMORY_SIZE: usize = 0x1000;

/// Address at which programs are loaded and execution starts.
pub const PROGRAM_START: u16 = 0x200;

/// Largest number of return addresses the call stack holds.
pub const STACK_DEPTH: usize = 16;

/// Largest program that fits between the load address and the end of memory.
pub const MAX_PROGRAM_SIZE: usize = 0xE00;

/// The mathematical state of a CHIP-8 machine. The executable engine is
/// specified entirely through it: every operation of the engine is one of
/// the transitions below, applied to this value.
#[verifier::ext_equal]
pub struct Machine {
    /// The 4096 bytes of memory.
    pub memory: Seq<u8>,
    /// The registers V0 to VF.
    pub v: Seq<u8>,
    /// The index register.
    pub i: u16,
    /// The program counter.
    pub pc: u16,
    /// The return addresses of the calls in progress, oldest first.
    pub stack: Seq<u16>,
    /// The delay timer.
    pub dt: u8,
    /// The sound timer.
    pub st: u8,
    /// The compatibility switches the machine was built with.
    pub quirks: Quirk,
    /// The 64 by 32 pixels of the screen, row by row.
    pub vbuffer: Seq<bool>,
    /// Whether the screen has changed since the host last cleared the flag.
    pub redraw: bool,
    /// Which of the sixteen keys are held down.
    pub pressed_keys: Seq<bool>,
}

/// 1 for true, 0 for false: the value a condition leaves in VF.
pub open spec fn flag(b: bool) -> u8 {
    if b {
        1
    } else {
        0
    }
}

/// Whether `k` is the index of a held key such that no key below it is held.
pub open spec fn is_lowest_pressed(keys: Seq<bool>, k: int) -> bool {
    &&& 0 <= k < keys.len()
    &&& keys[k]
    &&& forall|j: int| 0 <= j < k ==> !keys[j]
}

/// Whether any key is held.
pub open spec fn any_pressed(keys: Seq<bool>) -> bool {
    exists|k: int| 0 <= k < keys.len() && keys[k]
}

/// The lowest index of a held key. Meaningful when some key is held.
pub open spec fn lowest_pressed(keys: Seq<bool>) -> int {
    choose|k: int| is_lowest_pressed(keys, k)
}

/// If the key `k` is held, there is a lowest held key, and it is not above
/// `k`.
pub proof fn lemma_lowest_pressed(keys: Seq<bool>, k: int)
    requires
        0 <= k < keys.len(),
        keys[k],
    ensures
        is_lowest_pressed(keys, lowest_pressed(keys)),
        lowest_pressed(keys) <= k,
    decreases k,
{
    if exists|j: int| 0 <= j < k && keys[j] {
        let j = choose|j: int| 0 <= j < k && keys[j];
        lemma_lowest_pressed(keys, j);
    } else {
        assert(is_lowest_pressed(keys, k));
    }
}

/// Whether bit `col` of a sprite row is set, counting from the most
/// significant bit, which is the leftmost pixel.
pub open spec fn sprite_bit(row: u8, col: int) -> bool {
    (row >> ((7 - col) as u8)) & 1 == 1
}

impl Machine {
    /// The sizes of the parts are those of the machine.
    pub open spec fn wf(self) -> bool {
        &&& self.memory.len() == MEMORY_SIZE
        &&& self.v.len() == 16
        &&& self.stack.len() <= STACK_DEPTH
        &&& self.vbuffer.len() == 2048
        &&& self.pressed_keys.len() == 16
    }

    /// A machine as it is first built: everything zero, except that the font
    /// occupies the first 80 bytes of memory, the program counter is at the
    /// load address and a first redraw is requested.
    pub open spec fn initial(quirks: Quirk) -> Machine {
        Machine {
            memory: Seq::new(
                0x1000,
                |a: int|
                    if a < 80 {
                        font()[a]
                    } else {
                        0u8
                    },
            ),
            v: Seq::new(16, |r: int| 0u8),
            i: 0,
            pc: PROGRAM_START,
            stack: Seq::empty(),
            dt: 0,
            st: 0,
            quirks,
            vbuffer: Seq::new(2048, |p: int| false),
            redraw: true,
            pressed_keys: Seq::new(16, |k: int| false),
        }
    }

    /// Register `x` holds `val`; nothing else changes.
    pub open spec fn with_v(self, x: int, val: u8) -> Machine {
        Machine { v: self.v.update(x, val), ..self }
    }

    /// The program counter moves past one more instruction if `cond` holds.
    pub open spec fn skip_if(self, cond: bool) -> Machine {
        if cond {
            Machine { pc: (self.pc + 2) as u16, ..self }
        } else {
            self
        }
    }

    /// Whether the key with index `k` exists and is held.
    pub open spec fn key_down(self, k: int) -> bool {
        0 <= k < 16 && self.pressed_keys[k]
    }

    /// The program is copied to the load address; a program that does not
    /// fit is refused.
    pub open spec fn load_rom(self, rom: Seq<u8>) -> Result<Machine, Chip8Error> {
        if rom.len() > MAX_PROGRAM_SIZE {
            Err(Chip8Error::ProgramTooLarge)
        } else {
            Ok(
                Machine {
                    memory: Seq::new(
                        0x1000,
                        |a: int|
                            if 0x200 <= a < 0x200 + rom.len() {
                                rom[a - 0x200]
                            } else {
                                self.memory[a]
                            },
                    ),
                    ..self
                },
            )
        }
    }

    /// Every pixel is off.
    pub open spec fn cls(self) -> Machine {
        Machine { vbuffer: Seq::new(2048, |p: int| false), ..self }
    }

    /// The newest return address leaves the stack and becomes the program
    /// counter.
    pub open spec fn ret(self) -> Result<Machine, Chip8Error> {
        if self.stack.len() == 0 {
            Err(Chip8Error::StackUnderflow)
        } else {
            Ok(Machine { pc: self.stack.last(), stack: self.stack.drop_last(), ..self })
        }
    }

    /// The program counter becomes `addr`.
    pub open spec fn jp(self, addr: u16) -> Machine {
        Machine { pc: addr, ..self }
    }

    /// The register that a jump with offset adds: V0, or with the quirk the
    /// register named by the top nibble of the twelve-bit address.
    pub open spec fn jump_register(self, addr: u16) -> int {
        if self.quirks.jump_vx {
            ((addr / 0x100) % 0x10) as int
        } else {
            0
        }
    }

    /// The program counter becomes `addr` plus the jump register, modulo
    /// 2^16.
    pub open spec fn jp_v0(self, addr: u16) -> Machine {
        Machine { pc: ((self.v[self.jump_register(addr)] + addr) % 0x10000) as u16, ..self }
    }

    /// The program counter is pushed and becomes `addr`.
    pub open spec fn call(self, addr: u16) -> Result<Machine, Chip8Error> {
        if self.stack.len() >= STACK_DEPTH {
            Err(Chip8Error::StackOverflow)
        } else {
            Ok(Machine { pc: addr, stack: self.stack.push(self.pc), ..self })
        }
    }

    /// The next instruction is skipped if Vx equals `byte`.
    pub open spec fn se_x(self, x: u8, byte: u8) -> Machine {
        self.skip_if(self.v[x as int] == byte)
    }

    /// The next instruction is skipped if Vx equals Vy.
    pub open spec fn se_xy(self, x: u8, y: u8) -> Machine {
        self.skip_if(self.v[x as int] == self.v[y as int])
    }

    /// The next instruction is skipped if Vx differs from `byte`.
    pub open spec fn sne_x(self, x: u8, byte: u8) -> Machine {
        self.skip_if(self.v[x as int] != byte)
    }

    /// The next instruction is skipped if Vx differs from Vy.
    pub open spec fn sne_xy(self, x: u8, y: u8) -> Machine {
        self.skip_if(self.v[x as int] != self.v[y as int])
    }

    /// Vx becomes `byte`.
    pub open spec fn ld_x(self, x: u8, byte: u8) -> Machine {
        self.with_v(x as int, byte)
    }

    /// Vx becomes Vy.
    pub open spec fn ld_xy(self, x: u8, y: u8) -> Machine {
        self.with_v(x as int, self.v[y as int])
    }

    /// I becomes `addr`.
    pub open spec fn ld_i(self, addr: u16) -> Machine {
        Machine { i: addr, ..self }
    }

    /// Vx becomes the delay timer.
    pub open spec fn ld_xdt(self, x: u8) -> Machine {
        self.with_v(x as int, self.dt)
    }

    /// With a key held, Vx becomes the lowest index of a held key. With none,
    /// the program counter moves back by one instruction, so that the next
    /// step runs the same instruction again.
    pub open spec fn ld_xk(self, x: u8) -> Machine {
        if any_pressed(self.pressed_keys) {
            self.with_v(x as int, lowest_pressed(self.pressed_keys) as u8)
        } else {
            Machine { pc: (self.pc - 2) as u16, ..self }
        }
    }

    /// The delay timer becomes Vx.
    pub open spec fn ld_dtx(self, x: u8) -> Machine {
        Machine { dt: self.v[x as int], ..self }
    }

    /// The sound timer becomes Vx.
    pub open spec fn ld_stx(self, x: u8) -> Machine {
        Machine { st: self.v[x as int], ..self }
    }

    /// I becomes five times Vx: the address of the glyph for the digit in Vx.
    pub open spec fn ld_ix(self, x: u8) -> Machine {
        Machine { i: (5 * self.v[x as int]) as u16, ..self }
    }

    /// The hundreds, tens and ones of Vx are stored at I, I+1 and I+2.
    pub open spec fn ld_ix_bcd(self, x: u8) -> Result<Machine, Chip8Error> {
        if self.i + 2 >= 0x1000 {
            Err(Chip8Error::AddressOutOfBounds)
        } else {
            let vx = self.v[x as int];
            Ok(
                Machine {
                    memory: self.memory.update(self.i as int, vx / 100).update(
                        self.i + 1,
                        (vx / 10) % 10,
                    ).update(self.i + 2, vx % 10),
                    ..self
                },
            )
        }
    }

    /// The index register after a block transfer of V0 to Vx.
    pub open spec fn index_after_transfer(self, x: u8) -> u16 {
        if self.quirks.mem_inc {
            (self.i + x + 1) as u16
        } else {
            self.i
        }
    }

    /// V0 to Vx are stored at I to I+x.
    pub open spec fn ld_ivx(self, x: u8) -> Result<Machine, Chip8Error> {
        if self.i + x >= 0x1000 {
            Err(Chip8Error::AddressOutOfBounds)
        } else {
            Ok(
                Machine {
                    memory: Seq::new(
                        0x1000,
                        |a: int|
                            if self.i <= a <= self.i + x {
                                self.v[a - self.i]
                            } else {
                                self.memory[a]
                            },
                    ),
                    i: self.index_after_transfer(x),
                    ..self
                },
            )
        }
    }

    /// V0 to Vx are loaded from I to I+x.
    pub open spec fn ld_vxi(self, x: u8) -> Result<Machine, Chip8Error> {
        if self.i + x >= 0x1000 {
            Err(Chip8Error::AddressOutOfBounds)
        } else {
            Ok(
                Machine {
                    v: Seq::new(
                        16,
                        |r: int|
                            if r <= x {
                                self.memory[self.i + r]
                            } else {
                                self.v[r]
                            },
                    ),
                    i: self.index_after_transfer(x),
                    ..self
                },
            )
        }
    }

    /// Vx becomes Vx + `byte` modulo 256; VF is not touched.
    pub open spec fn add(self, x: u8, byte: u8) -> Machine {
        self.with_v(x as int, ((self.v[x as int] + byte) % 256) as u8)
    }

    /// VF is cleared if the quirk asks for it.
    pub open spec fn after_bitwise(self) -> Machine {
        if self.quirks.vf_reset {
            self.with_v(0xF, 0)
        } else {
            self
        }
    }

    /// Vx becomes Vx OR Vy.
    pub open spec fn or(self, x: u8, y: u8) -> Machine {
        self.with_v(x as int, self.v[x as int] | self.v[y as int]).after_bitwise()
    }

    /// Vx becomes Vx AND Vy.
    pub open spec fn and(self, x: u8, y: u8) -> Machine {
        self.with_v(x as int, self.v[x as int] & self.v[y as int]).after_bitwise()
    }

    /// Vx becomes Vx XOR Vy.
    pub open spec fn xor(self, x: u8, y: u8) -> Machine {
        self.with_v(x as int, self.v[x as int] ^ self.v[y as int]).after_bitwise()
    }

    /// Vx becomes Vx + Vy modulo 256, then VF becomes the carry.
    pub open spec fn add_xy(self, x: u8, y: u8) -> Machine {
        let sum = self.v[x as int] + self.v[y as int];
        self.with_v(x as int, (sum % 256) as u8).with_v(0xF, flag(sum > 255))
    }

    /// I becomes I + Vx, then VF tells whether I is above 0x0F00.
    pub open spec fn add_i(self, x: u8) -> Machine {
        let sum = self.i + self.v[x as int];
        Machine { i: sum as u16, ..self }.with_v(0xF, flag(sum > 0x0F00))
    }

    /// Vx becomes Vx - Vy modulo 256, then VF tells whether Vx was larger
    /// than Vy.
    pub open spec fn sub(self, x: u8, y: u8) -> Machine {
        let a = self.v[x as int];
        let b = self.v[y as int];
        self.with_v(x as int, ((a - b) % 256) as u8).with_v(0xF, flag(a > b))
    }

    /// Vx becomes Vy - Vx modulo 256, then VF tells whether Vy was larger
    /// than Vx.
    pub open spec fn subn(self, x: u8, y: u8) -> Machine {
        let a = self.v[x as int];
        let b = self.v[y as int];
        self.with_v(x as int, ((b - a) % 256) as u8).with_v(0xF, flag(b > a))
    }

    /// The register that a shift reads: Vy, or with the quirk Vx.
    pub open spec fn shift_source(self, x: u8, y: u8) -> int {
        if self.quirks.shift_x {
            x as int
        } else {
            y as int
        }
    }

    /// Vx becomes the source halved, then VF becomes the source's lowest bit.
    pub open spec fn shr(self, x: u8, y: u8) -> Machine {
        let t = self.v[self.shift_source(x, y)];
        self.with_v(x as int, t / 2).with_v(0xF, t % 2)
    }

    /// Vx becomes the source doubled modulo 256, then VF becomes the source's
    /// highest bit.
    pub open spec fn shl(self, x: u8, y: u8) -> Machine {
        let t = self.v[self.shift_source(x, y)];
        self.with_v(x as int, ((t * 2) % 256) as u8).with_v(0xF, t / 128)
    }

    /// Vx becomes the random byte masked by `byte`.
    pub open spec fn rnd_with(self, x: u8, byte: u8, random: u8) -> Machine {
        self.with_v(x as int, random & byte)
    }

    /// Whether drawing the `n`-row sprite at I with its top left corner at
    /// (`left`, `top`) toggles the pixel at position `p` of the framebuffer:
    /// the pixel lies under the sprite, and the sprite's bit over it is set.
    pub open spec fn toggles(self, left: u8, top: u8, n: u8, p: int) -> bool {
        let col = sprite_col(left, p);
        let row = sprite_row(top, p);
        col < 8 && row < n && sprite_bit(self.memory[self.i + row], col)
    }

    /// Whether the sprite has a set bit over a pixel that is already on.
    pub open spec fn collides(self, left: u8, top: u8, n: u8) -> bool {
        exists|p: int| 0 <= p < 2048 && self.vbuffer[p] && self.toggles(left, top, n, p)
    }

    /// The value of register `r` as a draw reads it: VF has been cleared by
    /// then, so it reads as zero.
    pub open spec fn draw_coordinate(self, r: u8) -> u8 {
        self.with_v(0xF, 0).v[r as int]
    }

    /// The sprite of `n` rows at I is drawn with its top left corner at
    /// (Vx, Vy): each set bit of the sprite toggles its pixel. VF tells
    /// whether any pixel was turned off, and a redraw is requested.
    pub open spec fn drw(self, x: u8, y: u8, n: u8) -> Result<Machine, Chip8Error> {
        if n > 0 && self.i + n > 0x1000 {
            Err(Chip8Error::AddressOutOfBounds)
        } else {
            let left = self.draw_coordinate(x);
            let top = self.draw_coordinate(y);
            Ok(
                Machine {
                    vbuffer: Seq::new(
                        2048,
                        |p: int| self.vbuffer[p] != self.toggles(left, top, n, p),
                    ),
                    v: self.v.update(0xF, flag(self.collides(left, top, n))),
                    redraw: true,
                    ..self
                },
            )
        }
    }

    /// The next instruction is skipped if the key named by Vx is held.
    pub open spec fn skp(self, x: u8) -> Machine {
        self.skip_if(self.key_down(self.v[x as int] as int))
    }

    /// The next instruction is skipped unless the key named by Vx is held.
    pub open spec fn sknp(self, x: u8) -> Machine {
        self.skip_if(!self.key_down(self.v[x as int] as int))
    }

    /// The instruction word at the program counter, high byte first.
    pub open spec fn fetch(self) -> u16 {
        (self.memory[self.pc as int] * 0x100 + self.memory[self.pc + 1]) as u16
    }

    /// The start of a step: the keys are replaced, each timer that is not
    /// zero goes down by one and the program counter moves past the
    /// instruction about to run.
    pub open spec fn begin(self, keys: Seq<bool>) -> Machine {
        Machine {
            pressed_keys: keys,
            dt: if self.dt > 0 {
                (self.dt - 1) as u8
            } else {
                0
            },
            st: if self.st > 0 {
                (self.st - 1) as u8
            } else {
                0
            },
            pc: (self.pc + 2) as u16,
            ..self
        }
    }

    /// The effect of one decoded instruction. `random` is the byte that the
    /// random instruction uses; no other instruction reads it.
    pub open spec fn execute(self, op: Opcode, random: u8) -> Result<Machine, Chip8Error> {
        match op {
            Opcode::Nop => Ok(self),
            Opcode::Cls => Ok(self.cls()),
            Opcode::Ret => self.ret(),
            Opcode::Jp { addr } => Ok(self.jp(addr)),
            Opcode::Call { addr } => self.call(addr),
            Opcode::SeByte { x, byte } => Ok(self.se_x(x, byte)),
            Opcode::SneByte { x, byte } => Ok(self.sne_x(x, byte)),
            Opcode::SeReg { x, y } => Ok(self.se_xy(x, y)),
            Opcode::SneReg { x, y } => Ok(self.sne_xy(x, y)),
            Opcode::LdByte { x, byte } => Ok(self.ld_x(x, byte)),
            Opcode::AddByte { x, byte } => Ok(self.add(x, byte)),
            Opcode::LdReg { x, y } => Ok(self.ld_xy(x, y)),
            Opcode::Or { x, y } => Ok(self.or(x, y)),
            Opcode::And { x, y } => Ok(self.and(x, y)),
            Opcode::Xor { x, y } => Ok(self.xor(x, y)),
            Opcode::AddReg { x, y } => Ok(self.add_xy(x, y)),
            Opcode::Sub { x, y } => Ok(self.sub(x, y)),
            Opcode::Shr { x, y } => Ok(self.shr(x, y)),
            Opcode::Subn { x, y } => Ok(self.subn(x, y)),
            Opcode::Shl { x, y } => Ok(self.shl(x, y)),
            Opcode::LdI { addr } => Ok(self.ld_i(addr)),
            Opcode::JpV0 { addr } => Ok(self.jp_v0(addr)),
            Opcode::Rnd { x, byte } => Ok(self.rnd_with(x, byte, random)),
            Opcode::Drw { x, y, n } => self.drw(x, y, n),
            Opcode::Skp { x } => Ok(self.skp(x)),
            Opcode::Sknp { x } => Ok(self.sknp(x)),
            Opcode::LdXDt { x } => Ok(self.ld_xdt(x)),
            Opcode::LdXK { x } => Ok(self.ld_xk(x)),
            Opcode::LdDtX { x } => Ok(self.ld_dtx(x)),
            Opcode::LdStX { x } => Ok(self.ld_stx(x)),
            Opcode::AddI { x } => if self.i + self.v[x as int] > 0xFFFF {
                Err(Chip8Error::AddressOutOfBounds)
            } else {
                Ok(self.add_i(x))
            },
            Opcode::LdIX { x } => Ok(self.ld_ix(x)),
            Opcode::LdIXBcd { x } => self.ld_ix_bcd(x),
            Opcode::LdIVx { x } => self.ld_ivx(x),
            Opcode::LdVxI { x } => self.ld_vxi(x),
        }
    }

    /// One fetch-decode-execute cycle with the keys `keys` held. The fetch
    /// needs both bytes of the instruction inside memory; a word that names
    /// no instruction is refused before anything changes.
    pub open spec fn step(self, keys: Seq<bool>, random: u8) -> Result<Machine, Chip8Error> {
        if self.pc >= 0xFFF {
            Err(Chip8Error::AddressOutOfBounds)
        } else {
            match decode_spec(self.fetch()) {
                None => Err(Chip8Error::InvalidInstruction { opcode: self.fetch(), pc: self.pc }),
                Some(op) => self.begin(keys).execute(op, random),
            }
        }
    }
}

/// How an operation that can fail relates the machine before and after it
/// to its specification: on success the machine is the specified one, on
/// failure the specified error is returned and the machine is unchanged.
pub open spec fn outcome(
    before: Machine,
    expected: Result<Machine, Chip8Error>,
    result: Result<(), Chip8Error>,
    after: Machine,
) -> bool {
    match expected {
        Ok(m) => result is Ok && after == m,
        Err(e) => result == Err::<(), Chip8Error>(e) && after == before,
    }
}

} // verus!
