//! How far the webview is zoomed.
//!
//! A zoom factor is a 64-bit float, held here by its bits: there is no atomic float, so that is
//! how the shell keeps the current one. A float is written as a sign bit, eleven bits of exponent
//! and fifty-two of fraction, so that floats with a clear sign bit are in the order of their bits.

use vstd::prelude::*;

verus! {

/// The bits of 1.0, the actual size.
pub const ACTUAL_SIZE: u64 = 0x3FF0_0000_0000_0000;

/// The bits of 0.5, the smallest factor.
pub const SMALLEST: u64 = 0x3FE0_0000_0000_0000;

/// The bits of 2.0, the largest factor.
pub const LARGEST: u64 = 0x4000_0000_0000_0000;

/// The bits of 0.1, a step up.
pub const STEP_UP: u64 = 0x3FB9_9999_9999_999A;

/// The bits of -0.1, a step down.
pub const STEP_DOWN: u64 = 0xBFB9_9999_9999_999A;

/// The bits of 0.0, no step.
pub const NO_STEP: u64 = 0;

/// The sign bit. Floats with bits from here on are negative, or are no numbers.
pub const SIGN: u64 = 0x8000_0000_0000_0000;

/// The bits of infinity. Above them, up to the sign bit, the bits are those of no number.
pub const INFINITY: u64 = 0x7FF0_0000_0000_0000;

/// Whether bits are those of a number, infinities among them.
pub open spec fn is_number(bits: u64) -> bool {
    bits <= INFINITY || SIGN <= bits <= SIGN + INFINITY
}

/// Whether bits are those of a factor at which the app can be read.
pub open spec fn is_readable_zoom(bits: u64) -> bool {
    SMALLEST <= bits <= LARGEST
}

/// The nearest factor within the limits; for what is no number, the actual size.
pub open spec fn clamped(bits: u64) -> u64 {
    if !is_number(bits) {
        ACTUAL_SIZE
    } else if bits >= SIGN || bits < SMALLEST {
        SMALLEST
    } else if bits > LARGEST {
        LARGEST
    } else {
        bits
    }
}

/// The factor in force when `stored` was kept last, where nothing kept yet is zero.
pub open spec fn in_force(stored: u64) -> u64 {
    if stored == 0 {
        ACTUAL_SIZE
    } else {
        stored
    }
}

/// The factor that follows when the one in force and the step add up to `moved`.
pub open spec fn next_zoom(moved: u64, reset: bool) -> u64 {
    if reset {
        ACTUAL_SIZE
    } else {
        clamped(moved)
    }
}

/// The factor in force, given what was kept last.
pub fn current_zoom(stored: u64) -> (r: u64)
    ensures
        r == in_force(stored),
{
    if stored == 0 {
        ACTUAL_SIZE
    } else {
        stored
    }
}

/// Steps the webview zoom, clamped so it cannot be driven to something unreadable: the factor to
/// keep and to set, where the one in force and the step add up to `moved`.
pub fn apply_zoom(moved: u64, reset: bool) -> (r: u64)
    ensures
        r == next_zoom(moved, reset),
        is_readable_zoom(r),
{
    if reset {
        return ACTUAL_SIZE;
    }
    let number = moved <= INFINITY || (SIGN <= moved && moved <= SIGN + INFINITY);
    if !number {
        ACTUAL_SIZE
    } else if moved >= SIGN || moved < SMALLEST {
        SMALLEST
    } else if moved > LARGEST {
        LARGEST
    } else {
        moved
    }
}

/// The zoom stays readable: a step ends within the limits whatever the sum came to, and so does a
/// reset; one already within them is kept as it is; and what is kept is what is in force the next
/// time.
pub proof fn zoom_stays_readable(moved: u64, reset: bool)
    ensures
        is_readable_zoom(next_zoom(moved, reset)),
        0x3FE0_0000_0000_0000 <= next_zoom(moved, reset) <= 0x4000_0000_0000_0000,
        !reset && 0x3FE0_0000_0000_0000 <= moved <= 0x4000_0000_0000_0000 ==> next_zoom(
            moved,
            reset,
        ) == moved,
        !reset && is_readable_zoom(moved) ==> next_zoom(moved, reset) == moved,
        in_force(next_zoom(moved, reset)) == next_zoom(moved, reset),
{
}

/// The app starts at its actual size, which a reset brings back.
pub proof fn reset_restores_the_first_zoom(moved: u64)
    ensures
        next_zoom(moved, true) == in_force(0),
        next_zoom(moved, true) == 0x3FF0_0000_0000_0000,
        is_readable_zoom(in_force(0)),
{
}

/// What is kept is what is in force, and the app starts at 1.0 where nothing is kept.
pub proof fn kept_zoom_is_in_force(stored: u64)
    ensures
        stored != 0 ==> in_force(stored) == stored,
        stored == 0 ==> in_force(stored) == 0x3FF0_0000_0000_0000,
{
}

/// A step that would lead beyond a limit stops at it: a sum below 0.5, from there down to negative
/// infinity, ends at 0.5; one above 2.0, up to infinity, at 2.0; and what is no number at 1.0.
pub proof fn steps_stop_at_the_limits(moved: u64)
    ensures
        moved < 0x3FE0_0000_0000_0000 ==> next_zoom(moved, false) == 0x3FE0_0000_0000_0000,
        0x8000_0000_0000_0000 <= moved <= 0xFFF0_0000_0000_0000 ==> next_zoom(moved, false)
            == 0x3FE0_0000_0000_0000,
        0x4000_0000_0000_0000 < moved <= 0x7FF0_0000_0000_0000 ==> next_zoom(moved, false)
            == 0x4000_0000_0000_0000,
        0x7FF0_0000_0000_0000 < moved < 0x8000_0000_0000_0000 || 0xFFF0_0000_0000_0000 < moved
            ==> next_zoom(moved, false) == 0x3FF0_0000_0000_0000,
{
}

/// A larger sum never ends at a smaller factor. Positive numbers are in the order of their bits, and
/// negative ones, which come before them, in the opposite order.
pub proof fn zoom_is_monotonic(smaller: u64, larger: u64)
    requires
        ({
            ||| smaller <= larger <= 0x7FF0_0000_0000_0000
            ||| 0x8000_0000_0000_0000 <= larger <= smaller <= 0xFFF0_0000_0000_0000
            ||| larger <= 0x7FF0_0000_0000_0000 && 0x8000_0000_0000_0000 <= smaller
                <= 0xFFF0_0000_0000_0000
        }),
    ensures
        next_zoom(smaller, false) <= next_zoom(larger, false),
{
}

} // verus!
