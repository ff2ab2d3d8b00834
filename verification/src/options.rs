use crate::quirk::Quirk;
use vstd::prelude::*;

verus! {

/// What the command line gave: the path of the program and, for each
/// setting, a value or nothing.
pub struct CLI {
    /// Path of the program to load.
    pub rom_path: String,
    /// Factor by which the screen is enlarged.
    pub scale: Option<usize>,
    /// Milliseconds to wait after each step.
    pub tick_delay: Option<u64>,
    /// Steps between two renderings of the screen.
    pub ticks_per_frame: Option<u8>,
    /// Step on key presses only.
    pub debug: Option<bool>,
    /// OR, AND and XOR clear VF.
    pub vf_reset: Option<bool>,
    /// Block transfers advance I.
    pub mem_inc: Option<bool>,
    /// Accepted, and without effect: sprites always wrap.
    pub clipping: Option<bool>,
    /// Shifts read Vx instead of Vy.
    pub shift_x: Option<bool>,
    /// Jump with offset adds Vx instead of V0.
    pub jump_vx: Option<bool>,
}

/// The settings a run uses, every one of them decided.
pub struct CHIP8Options {
    pub rom_path: String,
    pub scale: usize,
    pub ticks_per_frame: u8,
    pub tick_delay: u64,
    pub debug: bool,
    pub quirks: Quirk,
}

/// The value given, or the default where none was given.
pub open spec fn given_or<T>(given: Option<T>, default: T) -> T {
    match given {
        Some(value) => value,
        None => default,
    }
}

/// The quirks that the command line selects. Resetting VF and advancing I
/// are on unless switched off; the two shift and jump quirks are off unless
/// switched on. Display wait and clipping are always off, whatever was
/// given: no instruction reads them.
pub open spec fn quirks_of(cli: CLI) -> Quirk {
    Quirk {
        vf_reset: given_or(cli.vf_reset, true),
        mem_inc: given_or(cli.mem_inc, true),
        display_wait: false,
        clipping: false,
        shift_x: given_or(cli.shift_x, false),
        jump_vx: given_or(cli.jump_vx, false),
    }
}

fn or_bool(given: Option<bool>, default: bool) -> (value: bool)
    ensures
        value == given_or(given, default),
{
    match given {
        Some(value) => value,
        None => default,
    }
}

impl CHIP8Options {
    /// Fills in the defaults: scale 10, two milliseconds per step, thirty
    /// steps per frame, no debugging, and the quirks of `quirks_of`.
    pub fn from_cli(cli: CLI) -> (options: Self)
        ensures
            options.rom_path@ == cli.rom_path@,
            options.scale == given_or(cli.scale, 10),
            options.tick_delay == given_or(cli.tick_delay, 2),
            options.ticks_per_frame == given_or(cli.ticks_per_frame, 30),
            options.debug == given_or(cli.debug, false),
            options.quirks == quirks_of(cli),
    {
        let quirks = Quirk {
            vf_reset: or_bool(cli.vf_reset, true),
            mem_inc: or_bool(cli.mem_inc, true),
            display_wait: false,
            clipping: false,
            shift_x: or_bool(cli.shift_x, false),
            jump_vx: or_bool(cli.jump_vx, false),
        };
        CHIP8Options {
            scale: match cli.scale {
                Some(scale) => scale,
                None => 10,
            },
            tick_delay: match cli.tick_delay {
                Some(delay) => delay,
                None => 2,
            },
            ticks_per_frame: match cli.ticks_per_frame {
                Some(ticks) => ticks,
                None => 30,
            },
            debug: or_bool(cli.debug, false),
            quirks,
            rom_path: cli.rom_path,
        }
    }
}

} // verus!
