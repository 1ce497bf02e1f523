//! Where the pill sits while speaking: bottom-centre of the primary
//! monitor, lifted clear of the taskbar.

use vstd::prelude::*;

verus! {

/// Gap between the pill's bottom edge and the screen's bottom edge.
pub const PILL_LIFT: u32 = 96;

/// The pill's top-left corner: horizontally centred (a window wider than
/// the screen sits at 0), `PILL_LIFT` above the bottom (0 when it does not
/// fit), each coordinate taken as a 32-bit signed position.
pub fn pill_position(screen_width: u32, screen_height: u32, width: u32, height: u32) -> (pos: (i32, i32))
    requires
        height + PILL_LIFT <= u32::MAX,
    ensures
        pos.0 == (if screen_width >= width { (screen_width - width) / 2 } else { 0 }),
        pos.1 == (if screen_height >= height + PILL_LIFT {
            (screen_height - height - PILL_LIFT) as i32
        } else {
            0
        }),
{
    let x = screen_width.saturating_sub(width) / 2;
    let y = screen_height.saturating_sub(height + PILL_LIFT);
    (x as i32, y as i32)
}

} // verus!
