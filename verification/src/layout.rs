//! Where the floating overlay goes: centred along the bottom edge of the
//! screen it is on, a fixed margin above the edge.

use vstd::prelude::*;

verus! {

/// The gap between the overlay and the bottom edge of the screen, in pixels.
pub const BOTTOM_MARGIN: i32 = 24;

/// Half of a difference, rounded toward zero.
pub open spec fn half(difference: int) -> int {
    if difference >= 0 {
        difference / 2
    } else {
        -((-difference) / 2)
    }
}

/// The horizontal position that centres a window on a screen.
pub open spec fn centred_x(screen_x: int, screen_width: int, window_width: int) -> int {
    screen_x + half(screen_width - window_width)
}

/// The vertical position that puts a window the margin above the bottom edge
/// of a screen.
pub open spec fn bottom_y(screen_y: int, screen_height: int, window_height: int) -> int {
    screen_y + screen_height - window_height - BOTTOM_MARGIN
}

/// Whether a coordinate can be handed to the windowing system.
pub open spec fn representable(coordinate: int) -> bool {
    i32::MIN <= coordinate <= i32::MAX
}

/// The position of the overlay's top left corner on a screen whose top left
/// corner is at `screen_origin`, sizes given as width and height.
///
/// Returns `None` when a coordinate is out of the range of the windowing
/// system; the overlay is then left where it is.
pub fn bubble_origin(
    screen_origin: (i32, i32),
    screen_size: (u32, u32),
    window_size: (u32, u32),
) -> (origin: Option<(i32, i32)>)
    ensures
        ({
            let x = centred_x(screen_origin.0 as int, screen_size.0 as int, window_size.0 as int);
            let y = bottom_y(screen_origin.1 as int, screen_size.1 as int, window_size.1 as int);
            origin == if representable(x) && representable(y) {
                Some((x as i32, y as i32))
            } else {
                None
            }
        }),
{
    let spare: i64 = screen_size.0 as i64 - window_size.0 as i64;
    let indent: i64 = if spare >= 0 {
        spare / 2
    } else {
        -((-spare) / 2)
    };
    let x: i64 = screen_origin.0 as i64 + indent;
    let y: i64 = screen_origin.1 as i64 + screen_size.1 as i64 - window_size.1 as i64
        - BOTTOM_MARGIN as i64;
    if x < i32::MIN as i64 || x > i32::MAX as i64 || y < i32::MIN as i64 || y > i32::MAX as i64 {
        None
    } else {
        Some((x as i32, y as i32))
    }
}

} // verus!
