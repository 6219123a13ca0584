//! The pure part of tone selection: the fixed key-to-semitone table.  A
//! mapped key's tone is `440 Hz` raised by its offset in twelfths of an
//! octave; that exponentiation, and playing the tone, are the audio side's
//! business — this module only decides which key sounds, and at which
//! offset from A4.

use vstd::prelude::*;

verus! {

/// The fixed semitone table, covering two rows of keys plus a few of the
/// home and bottom rows; keys outside it produce no tone.
pub open spec fn spec_semitone_for_key(ch: char) -> Option<i32> {
    if ch == 'q' {
        Some(-9i32)
    } else if ch == '2' {
        Some(-8i32)
    } else if ch == 'w' {
        Some(-7i32)
    } else if ch == '3' {
        Some(-6i32)
    } else if ch == 'e' {
        Some(-5i32)
    } else if ch == 'r' {
        Some(-4i32)
    } else if ch == '5' {
        Some(-3i32)
    } else if ch == 't' {
        Some(-2i32)
    } else if ch == '6' {
        Some(-1i32)
    } else if ch == 'y' {
        Some(0i32)
    } else if ch == '7' {
        Some(1i32)
    } else if ch == 'u' {
        Some(2i32)
    } else if ch == 'i' {
        Some(3i32)
    } else if ch == '9' {
        Some(4i32)
    } else if ch == 'o' {
        Some(5i32)
    } else if ch == '0' {
        Some(6i32)
    } else if ch == 'p' {
        Some(7i32)
    } else if ch == '[' {
        Some(8i32)
    } else if ch == '=' {
        Some(9i32)
    } else if ch == 'z' {
        Some(-10i32)
    } else if ch == 's' {
        Some(-8i32)
    } else if ch == 'd' {
        Some(-6i32)
    } else if ch == 'g' {
        Some(-4i32)
    } else if ch == 'h' {
        Some(-2i32)
    } else {
        None
    }
}

/// The semitone offset from A4 of the tone a key plays, or nothing for a
/// key with no tone.  Deterministic, pure: a function of the key alone.
pub fn get_semitone_for_key(ch: char) -> (r: Option<i32>)
    ensures
        r == spec_semitone_for_key(ch),
{
    match ch {
        'q' => Some(-9i32),
        '2' => Some(-8i32),
        'w' => Some(-7i32),
        '3' => Some(-6i32),
        'e' => Some(-5i32),
        'r' => Some(-4i32),
        '5' => Some(-3i32),
        't' => Some(-2i32),
        '6' => Some(-1i32),
        'y' => Some(0i32),
        '7' => Some(1i32),
        'u' => Some(2i32),
        'i' => Some(3i32),
        '9' => Some(4i32),
        'o' => Some(5i32),
        '0' => Some(6i32),
        'p' => Some(7i32),
        '[' => Some(8i32),
        '=' => Some(9i32),
        'z' => Some(-10i32),
        's' => Some(-8i32),
        'd' => Some(-6i32),
        'g' => Some(-4i32),
        'h' => Some(-2i32),
        _ => None,
    }
}

} // verus!
