use vstd::prelude::*;

verus! {

/// The five fixed bit-fields of a 16-bit instruction word.
#[derive(Debug)]
pub struct Instruction {
    /// Low twelve bits: an address.
    pub nnn: u16,
    /// Low four bits.
    pub n: u8,
    /// Bits 8 to 11: the primary register index.
    pub x: u8,
    /// Bits 4 to 7: the secondary register index.
    pub y: u8,
    /// Low eight bits: an immediate byte.
    pub kk: u8,
}

impl Instruction {
    /// The fields of `op`, written arithmetically.
    pub open spec fn fields(op: u16) -> Instruction {
        Instruction {
            nnn: (op % 0x1000) as u16,
            n: (op % 0x10) as u8,
            x: ((op / 0x100) % 0x10) as u8,
            y: ((op / 0x10) % 0x10) as u8,
            kk: (op % 0x100) as u8,
        }
    }

    /// Splits an instruction word into its fields. Every word is accepted;
    /// whether the fields name a real instruction is decided later.
    pub fn new(op: u16) -> (ins: Self)
        ensures
            ins == Self::fields(op),
            ins.nnn < 0x1000,
            ins.n < 0x10,
            ins.x < 0x10,
            ins.y < 0x10,
    {
        assert(op & 0x0FFF == op % 0x1000) by (bit_vector);
        assert((op & 0x00FF) as u8 == (op % 0x100) as u8) by (bit_vector);
        assert((op & 0x000F) as u8 == (op % 0x10) as u8) by (bit_vector);
        assert(((op & 0x0F00) >> 8) as u8 == ((op / 0x100) % 0x10) as u8) by (bit_vector);
        assert(((op & 0x00F0) >> 4) as u8 == ((op / 0x10) % 0x10) as u8) by (bit_vector);
        Instruction {
            nnn: (op & 0x0FFF),
            kk: (op & 0x00FF) as u8,
            n: (op & 0x000F) as u8,
            x: ((op & 0x0F00) >> 8) as u8,
            y: ((op & 0x00F0) >> 4) as u8,
        }
    }
}

/// One of the thirty-five operations of the machine, with its operands.
#[derive(Clone, Copy, Debug, PartialEq, Eq, Structural)]
pub enum Opcode {
    /// `0x00`: does nothing.
    Nop,
    /// `0xE0`: clears the screen.
    Cls,
    /// `0xEE`: returns from a subroutine.
    Ret,
    /// `1nnn`: jumps to `addr`.
    Jp { addr: u16 },
    /// `2nnn`: calls the subroutine at `addr`.
    Call { addr: u16 },
    /// `3xkk`: skips the next instruction if Vx equals `byte`.
    SeByte { x: u8, byte: u8 },
    /// `4xkk`: skips the next instruction if Vx differs from `byte`.
    SneByte { x: u8, byte: u8 },
    /// `5xy_`: skips the next instruction if Vx equals Vy.
    SeReg { x: u8, y: u8 },
    /// `9xy_`: skips the next instruction if Vx differs from Vy.
    SneReg { x: u8, y: u8 },
    /// `6xkk`: Vx becomes `byte`.
    LdByte { x: u8, byte: u8 },
    /// `7xkk`: adds `byte` to Vx; VF is not touched.
    AddByte { x: u8, byte: u8 },
    /// `8xy0`: Vx becomes Vy.
    LdReg { x: u8, y: u8 },
    /// `8xy1`: Vx becomes Vx OR Vy.
    Or { x: u8, y: u8 },
    /// `8xy2`: Vx becomes Vx AND Vy.
    And { x: u8, y: u8 },
    /// `8xy3`: Vx becomes Vx XOR Vy.
    Xor { x: u8, y: u8 },
    /// `8xy4`: adds Vy to Vx; VF is the carry.
    AddReg { x: u8, y: u8 },
    /// `8xy5`: Vx becomes Vx - Vy; VF tells that Vx was the larger.
    Sub { x: u8, y: u8 },
    /// `8xy6`: shifts right by one; VF is the bit shifted out.
    Shr { x: u8, y: u8 },
    /// `8xy7`: Vx becomes Vy - Vx; VF tells that Vy was the larger.
    Subn { x: u8, y: u8 },
    /// `8xyE`: shifts left by one; VF is the bit shifted out.
    Shl { x: u8, y: u8 },
    /// `Annn`: I becomes `addr`.
    LdI { addr: u16 },
    /// `Bnnn`: jumps to `addr` plus a register.
    JpV0 { addr: u16 },
    /// `Cxkk`: Vx becomes a random byte masked by `byte`.
    Rnd { x: u8, byte: u8 },
    /// `Dxyn`: draws the `n`-row sprite at I at (Vx, Vy).
    Drw { x: u8, y: u8, n: u8 },
    /// `Ex9E`: skips the next instruction if the key named by Vx is down.
    Skp { x: u8 },
    /// `ExA1`: skips the next instruction if the key named by Vx is up.
    Sknp { x: u8 },
    /// `Fx07`: Vx becomes the delay timer.
    LdXDt { x: u8 },
    /// `Fx0A`: waits for a key and stores its index in Vx.
    LdXK { x: u8 },
    /// `Fx15`: the delay timer becomes Vx.
    LdDtX { x: u8 },
    /// `Fx18`: the sound timer becomes Vx.
    LdStX { x: u8 },
    /// `Fx1E`: adds Vx to I.
    AddI { x: u8 },
    /// `Fx29`: I becomes the address of the glyph for Vx.
    LdIX { x: u8 },
    /// `Fx33`: stores the decimal digits of Vx at I, I+1, I+2.
    LdIXBcd { x: u8 },
    /// `Fx55`: stores V0 to Vx at I.
    LdIVx { x: u8 },
    /// `Fx65`: loads V0 to Vx from I.
    LdVxI { x: u8 },
}

impl Opcode {
    /// Every register operand names one of the sixteen registers, every
    /// address has twelve bits and a sprite has fewer than sixteen rows.
    /// The decoder only produces such operations.
    pub open spec fn valid(self) -> bool {
        match self {
            Opcode::Nop | Opcode::Cls | Opcode::Ret => true,
            Opcode::Jp { addr } | Opcode::Call { addr } | Opcode::LdI { addr } | Opcode::JpV0 {
                addr,
            } => addr < 0x1000,
            Opcode::SeByte { x, .. }
            | Opcode::SneByte { x, .. }
            | Opcode::LdByte { x, .. }
            | Opcode::AddByte { x, .. }
            | Opcode::Rnd { x, .. } => x < 16,
            Opcode::SeReg { x, y }
            | Opcode::SneReg { x, y }
            | Opcode::LdReg { x, y }
            | Opcode::Or { x, y }
            | Opcode::And { x, y }
            | Opcode::Xor { x, y }
            | Opcode::AddReg { x, y }
            | Opcode::Sub { x, y }
            | Opcode::Shr { x, y }
            | Opcode::Subn { x, y }
            | Opcode::Shl { x, y } => x < 16 && y < 16,
            Opcode::Drw { x, y, n } => x < 16 && y < 16 && n < 16,
            Opcode::Skp { x }
            | Opcode::Sknp { x }
            | Opcode::LdXDt { x }
            | Opcode::LdXK { x }
            | Opcode::LdDtX { x }
            | Opcode::LdStX { x }
            | Opcode::AddI { x }
            | Opcode::LdIX { x }
            | Opcode::LdIXBcd { x }
            | Opcode::LdIVx { x }
            | Opcode::LdVxI { x } => x < 16,
        }
    }
}

/// The instruction table. The top nibble of the word selects a family;
/// families 0, E and F are told apart by the low byte and family 8 by the
/// low nibble. `None` marks a word that no entry of its family matches.
pub open spec fn decode_spec(op: u16) -> Option<Opcode> {
    let Instruction { nnn, n, x, y, kk } = Instruction::fields(op);
    let family = op / 0x1000;
    if family == 0x0 {
        if kk == 0xE0 {
            Some(Opcode::Cls)
        } else if kk == 0xEE {
            Some(Opcode::Ret)
        } else if kk == 0x00 {
            Some(Opcode::Nop)
        } else {
            None
        }
    } else if family == 0x1 {
        Some(Opcode::Jp { addr: nnn })
    } else if family == 0x2 {
        Some(Opcode::Call { addr: nnn })
    } else if family == 0x3 {
        Some(Opcode::SeByte { x, byte: kk })
    } else if family == 0x4 {
        Some(Opcode::SneByte { x, byte: kk })
    } else if family == 0x5 {
        Some(Opcode::SeReg { x, y })
    } else if family == 0x6 {
        Some(Opcode::LdByte { x, byte: kk })
    } else if family == 0x7 {
        Some(Opcode::AddByte { x, byte: kk })
    } else if family == 0x8 {
        if n == 0x0 {
            Some(Opcode::LdReg { x, y })
        } else if n == 0x1 {
            Some(Opcode::Or { x, y })
        } else if n == 0x2 {
            Some(Opcode::And { x, y })
        } else if n == 0x3 {
            Some(Opcode::Xor { x, y })
        } else if n == 0x4 {
            Some(Opcode::AddReg { x, y })
        } else if n == 0x5 {
            Some(Opcode::Sub { x, y })
        } else if n == 0x6 {
            Some(Opcode::Shr { x, y })
        } else if n == 0x7 {
            Some(Opcode::Subn { x, y })
        } else if n == 0xE {
            Some(Opcode::Shl { x, y })
        } else {
            None
        }
    } else if family == 0x9 {
        Some(Opcode::SneReg { x, y })
    } else if family == 0xA {
        Some(Opcode::LdI { addr: nnn })
    } else if family == 0xB {
        Some(Opcode::JpV0 { addr: nnn })
    } else if family == 0xC {
        Some(Opcode::Rnd { x, byte: kk })
    } else if family == 0xD {
        Some(Opcode::Drw { x, y, n })
    } else if family == 0xE {
        if kk == 0x9E {
            Some(Opcode::Skp { x })
        } else if kk == 0xA1 {
            Some(Opcode::Sknp { x })
        } else {
            None
        }
    } else {
        if kk == 0x07 {
            Some(Opcode::LdXDt { x })
        } else if kk == 0x0A {
            Some(Opcode::LdXK { x })
        } else if kk == 0x15 {
            Some(Opcode::LdDtX { x })
        } else if kk == 0x18 {
            Some(Opcode::LdStX { x })
        } else if kk == 0x1E {
            Some(Opcode::AddI { x })
        } else if kk == 0x29 {
            Some(Opcode::LdIX { x })
        } else if kk == 0x33 {
            Some(Opcode::LdIXBcd { x })
        } else if kk == 0x55 {
            Some(Opcode::LdIVx { x })
        } else if kk == 0x65 {
            Some(Opcode::LdVxI { x })
        } else {
            None
        }
    }
}

/// The instruction table only yields operations whose operands are in range,
/// and it refuses words of four families only: 0, 8, E and F. Every other
/// word names an instruction.
pub proof fn lemma_decode_valid(op: u16)
    ensures
        decode_spec(op) matches Some(o) ==> o.valid(),
        decode_spec(op) is None ==> op / 0x1000 == 0x0 || op / 0x1000 == 0x8 || op / 0x1000 == 0xE
            || op / 0x1000 == 0xF,
{
}

/// The word made of the four nibbles `family`, `x`, `y` and `n`, highest
/// first, has exactly those as its fields.
pub proof fn lemma_word_fields(family: u8, x: u8, y: u8, n: u8)
    requires
        family < 16,
        x < 16,
        y < 16,
        n < 16,
    ensures
        ({
            let op = (0x1000 * family + 0x100 * x + 0x10 * y + n) as u16;
            &&& op == 0x1000 * family + 0x100 * x + 0x10 * y + n
            &&& op / 0x1000 == family
            &&& Instruction::fields(op) == (Instruction {
                nnn: (0x100 * x + 0x10 * y + n) as u16,
                n,
                x,
                y,
                kk: (0x10 * y + n) as u8,
            })
        }),
{
    let f = family as u16;
    let a = x as u16;
    let b = y as u16;
    let c = n as u16;
    let op = (0x1000 * f + 0x100 * a + 0x10 * b + c) as u16;
    assert(op / 0x1000 == f && op % 0x1000 == 0x100 * a + 0x10 * b + c && (op / 0x100) % 0x10 == a
        && (op / 0x10) % 0x10 == b && op % 0x10 == c && op % 0x100 == 0x10 * b + c) by (bit_vector)
        requires
            f < 16,
            a < 16,
            b < 16,
            c < 16,
            op == 0x1000 * f + 0x100 * a + 0x10 * b + c,
    ;
}

/// Decodes an instruction word. `None` means that the word belongs to a
/// family but matches none of its entries. There is no word whose family
/// is unknown: each of the sixteen values of the top nibble selects one.
pub fn decode(op: u16) -> (decoded: Option<Opcode>)
    ensures
        decoded == decode_spec(op),
        decoded matches Some(o) ==> o.valid(),
{
    let Instruction { nnn, n, x, y, kk } = Instruction::new(op);
    let family: u16 = op >> 12;
    assert(op >> 12 == op / 0x1000) by (bit_vector);
    match family {
        0x0 => match kk {
            0xE0 => Some(Opcode::Cls),
            0xEE => Some(Opcode::Ret),
            0x00 => Some(Opcode::Nop),
            _ => None,
        },
        0x1 => Some(Opcode::Jp { addr: nnn }),
        0x2 => Some(Opcode::Call { addr: nnn }),
        0x3 => Some(Opcode::SeByte { x, byte: kk }),
        0x4 => Some(Opcode::SneByte { x, byte: kk }),
        0x5 => Some(Opcode::SeReg { x, y }),
        0x9 => Some(Opcode::SneReg { x, y }),
        0x6 => Some(Opcode::LdByte { x, byte: kk }),
        0x7 => Some(Opcode::AddByte { x, byte: kk }),
        0x8 => match n {
            0x0 => Some(Opcode::LdReg { x, y }),
            0x1 => Some(Opcode::Or { x, y }),
            0x2 => Some(Opcode::And { x, y }),
            0x3 => Some(Opcode::Xor { x, y }),
            0x4 => Some(Opcode::AddReg { x, y }),
            0x5 => Some(Opcode::Sub { x, y }),
            0x6 => Some(Opcode::Shr { x, y }),
            0x7 => Some(Opcode::Subn { x, y }),
            0xE => Some(Opcode::Shl { x, y }),
            _ => None,
        },
        0xA => Some(Opcode::LdI { addr: nnn }),
        0xB => Some(Opcode::JpV0 { addr: nnn }),
        0xC => Some(Opcode::Rnd { x, byte: kk }),
        0xD => Some(Opcode::Drw { x, y, n }),
        0xE => match kk {
            0x9E => Some(Opcode::Skp { x }),
            0xA1 => Some(Opcode::Sknp { x }),
            _ => None,
        },
        _ => match kk {
            0x07 => Some(Opcode::LdXDt { x }),
            0x0A => Some(Opcode::LdXK { x }),
            0x15 => Some(Opcode::LdDtX { x }),
            0x18 => Some(Opcode::LdStX { x }),
            0x1E => Some(Opcode::AddI { x }),
            0x29 => Some(Opcode::LdIX { x }),
            0x33 => Some(Opcode::LdIXBcd { x }),
            0x55 => Some(Opcode::LdIVx { x }),
            0x65 => Some(Opcode::LdVxI { x }),
            _ => None,
        },
    }
}

} // verus!
