//! Placement of the spotlight panel.
//!
//! The shell reads the monitor and panel sizes from the windowing layer
//! and sets the position computed here: horizontally centered, with the
//! panel's middle at a quarter of the monitor height.

use vstd::prelude::*;

verus! {

/// Horizontal position: the panel centered on the monitor, matching
/// signed division that truncates toward zero.
pub open spec fn centered_x_spec(monitor_width: int, panel_width: int) -> int {
    if monitor_width >= panel_width {
        (monitor_width - panel_width) / 2
    } else {
        -((panel_width - monitor_width) / 2)
    }
}

/// Vertical position: the panel's middle at a quarter of the monitor
/// height.
pub open spec fn panel_y_spec(monitor_height: int, panel_height: int) -> int {
    monitor_height / 4 - panel_height / 2
}

/// Computes where the spotlight panel goes on a monitor of the given
/// size.
pub fn spotlight_position(
    monitor_width: u32,
    monitor_height: u32,
    panel_width: u32,
    panel_height: u32,
) -> (r: (i32, i32))
    requires
        monitor_width < 0x8000_0000,
        monitor_height < 0x8000_0000,
        panel_width < 0x8000_0000,
        panel_height < 0x8000_0000,
    ensures
        r.0 == centered_x_spec(monitor_width as int, panel_width as int),
        r.1 == panel_y_spec(monitor_height as int, panel_height as int),
{
    let x: i32 = if monitor_width >= panel_width {
        ((monitor_width - panel_width) / 2) as i32
    } else {
        -(((panel_width - monitor_width) / 2) as i32)
    };
    let y: i32 = (monitor_height / 4) as i32 - (panel_height / 2) as i32;
    (x, y)
}

} // verus!
