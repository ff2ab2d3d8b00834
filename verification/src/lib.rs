//! A CHIP-8 interpreter core: instruction decoding, quirk configuration and
//! the CPU engine, with every state transition specified over a mathematical
//! model of the machine.
//!
//! * [`instruction`] splits an instruction word into its fields and decodes
//!   it into an [`instruction::Opcode`].
//! * [`machine`] is the model: the state of a machine as plain mathematical
//!   values, one transition for each instruction, and the step that fetches,
//!   decodes and executes.
//! * [`cpu`] is the engine that runs: each of its operations is proved to
//!   change its state as the model's transition says.
//! * [`laws`] holds what follows for every machine: carries and borrows,
//!   calls and returns, drawing, waiting for keys.
//! * [`display`], [`font`], [`input`], [`options`] and [`quirk`] hold the
//!   screen geometry, the built-in font, the keyboard layout, the settings
//!   of a run and the compatibility switches.
//!
//! What the instruction set leaves open is decided as follows, and the
//! contracts say so.
//!
//! * Nothing panics. A program that does not fit, a word that names no
//!   instruction, a call on a full stack, a return on an empty one and an
//!   access outside memory are reported as a [`error::Chip8Error`].
//! * A failed operation changes nothing: after an error the machine is as it
//!   was before, with the program counter still at the instruction at fault.
//! * The stack holds sixteen return addresses.
//! * Every value of the top nibble of a word selects a family of
//!   instructions, so there is no word of an unknown family; a word that
//!   matches no entry of its family is an invalid instruction.
//! * Sprites wrap around the edges of the screen. The clipping and
//!   display-wait switches are kept in the configuration and read by no
//!   instruction.
//! * The redraw flag is set by a draw and cleared by the host alone.
//! * The random byte of `Cxkk` comes from outside: `tick` draws it from the
//!   `rand` crate, `tick_with` takes it as an argument.

pub mod quirk;
pub mod error;
pub mod instruction;
pub mod display;
pub mod font;
pub mod machine;
pub mod cpu;
pub mod laws;
pub mod input;
pub mod options;
