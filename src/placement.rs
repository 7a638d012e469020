//! Where the anchored window goes on its monitor: beside the indicator, at
//! the top-right corner where the indicator sits in a top menu bar, at the
//! bottom-right corner above the taskbar otherwise.
use vstd::prelude::*;

verus! {

/// Logical width of the window.
pub const WINDOW_WIDTH: u32 = 420;

/// Logical height of the window.
pub const WINDOW_HEIGHT: u32 = 600;

/// Gap, in physical pixels, between the window and the monitor's edges.
pub const MARGIN: i64 = 10;

/// Room, in physical pixels, left for a bottom taskbar.
pub const TASKBAR_HEIGHT: i64 = 48;

/// Which corner of the monitor the indicator lives in.
#[derive(Clone, Copy, Debug, PartialEq, Eq, Structural)]
pub enum Corner {
    TopRight,
    BottomRight,
}

/// The monitor's origin and size, and the window's size, in physical pixels.
#[derive(Clone, Copy, Debug, PartialEq, Eq, Structural)]
pub struct Geometry {
    pub monitor_x: i32,
    pub monitor_y: i32,
    pub monitor_width: u32,
    pub monitor_height: u32,
    pub window_width: u32,
    pub window_height: u32,
}

pub open spec fn placed_x(g: Geometry) -> int {
    g.monitor_x + g.monitor_width - g.window_width - MARGIN
}

pub open spec fn placed_y(g: Geometry, corner: Corner) -> int {
    match corner {
        Corner::TopRight => g.monitor_y + MARGIN,
        Corner::BottomRight => g.monitor_y + g.monitor_height - g.window_height - TASKBAR_HEIGHT
            - MARGIN,
    }
}

/// The window's top-left position for the corner.
pub fn window_position(g: Geometry, corner: Corner) -> (r: (i64, i64))
    ensures
        r.0 == placed_x(g),
        r.1 == placed_y(g, corner),
{
    let x = g.monitor_x as i64 + g.monitor_width as i64 - g.window_width as i64 - MARGIN;
    let y = match corner {
        Corner::TopRight => g.monitor_y as i64 + MARGIN,
        Corner::BottomRight => g.monitor_y as i64 + g.monitor_height as i64 - g.window_height as i64
            - TASKBAR_HEIGHT - MARGIN,
    };
    (x, y)
}

} // verus!
