use vstd::prelude::*;

verus! {

/// The keypad key that a keyboard key stands for, the keyboard key given by
/// the character it types. The left four columns of a keyboard are laid
/// over the keypad:
///
/// ```text
/// 1 2 3 4        1 2 3 C
/// q w e r   for  4 5 6 D
/// a s d f        7 8 9 E
/// z x c v        A 0 B F
/// ```
pub open spec fn keypad_index(key: char) -> Option<u8> {
    if key == '1' {
        Some(0x1u8)
    } else if key == '2' {
        Some(0x2u8)
    } else if key == '3' {
        Some(0x3u8)
    } else if key == '4' {
        Some(0xCu8)
    } else if key == 'q' {
        Some(0x4u8)
    } else if key == 'w' {
        Some(0x5u8)
    } else if key == 'e' {
        Some(0x6u8)
    } else if key == 'r' {
        Some(0xDu8)
    } else if key == 'a' {
        Some(0x7u8)
    } else if key == 's' {
        Some(0x8u8)
    } else if key == 'd' {
        Some(0x9u8)
    } else if key == 'f' {
        Some(0xEu8)
    } else if key == 'z' {
        Some(0xAu8)
    } else if key == 'x' {
        Some(0x0u8)
    } else if key == 'c' {
        Some(0xBu8)
    } else if key == 'v' {
        Some(0xFu8)
    } else {
        None
    }
}

/// The keypad key that the keyboard key `key` stands for, if any.
pub fn key_index(key: char) -> (index: Option<u8>)
    ensures
        index == keypad_index(key),
        index matches Some(k) ==> k < 16,
{
    match key {
        '1' => Some(0x1),
        '2' => Some(0x2),
        '3' => Some(0x3),
        '4' => Some(0xC),
        'q' => Some(0x4),
        'w' => Some(0x5),
        'e' => Some(0x6),
        'r' => Some(0xD),
        'a' => Some(0x7),
        's' => Some(0x8),
        'd' => Some(0x9),
        'f' => Some(0xE),
        'z' => Some(0xA),
        'x' => Some(0x0),
        'c' => Some(0xB),
        'v' => Some(0xF),
        _ => None,
    }
}

/// Whether one of the first `upto` keyboard keys of `pressed` stands for the
/// keypad key `k`.
pub open spec fn held(pressed: Seq<char>, upto: int, k: int) -> bool {
    exists|i: int| 0 <= i < upto && #[trigger] keypad_index(pressed[i]) == Some(k as u8)
}

/// The state of the sixteen keypad keys while the keyboard keys `pressed`
/// are down: a keypad key is held exactly if a keyboard key that stands for
/// it is among them. Keyboard keys that stand for no keypad key are
/// ignored.
pub fn get_keys(pressed: &Vec<char>) -> (keys: [bool; 16])
    ensures
        forall|k: int| 0 <= k < 16 ==> keys@[k] == held(pressed@, pressed@.len() as int, k),
{
    let mut keys = [false; 16];
    let mut i: usize = 0;
    while i < pressed.len()
        invariant
            i <= pressed.len(),
            forall|k: int| 0 <= k < 16 ==> keys@[k] == held(pressed@, i as int, k),
        decreases pressed.len() - i,
    {
        let index = key_index(pressed[i]);
        match index {
            Some(k) => {
                keys[k as usize] = true;
            },
            None => {},
        }
        proof {
            // A key is held among the first i + 1 exactly if it is held
            // among the first i or is the one just seen.
            assert forall|k: int| 0 <= k < 16 implies held(pressed@, i + 1, k) == (held(
                pressed@,
                i as int,
                k,
            ) || index == Some(k as u8)) by {}
        }
        i += 1;
    }
    keys
}

} // verus!
