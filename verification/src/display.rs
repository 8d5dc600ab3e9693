//! Viewport configuration for an external renderer.
//!
//! The renderer itself lives outside the library: it only reads world
//! state (tick count, bounds, building glyphs, the log tail) and draws it.
//! The library holds the viewport parameters it is configured with.

use vstd::prelude::*;

verus! {

/// Where and how large the rendered view is, and how many of the most
/// recent log lines the renderer shows.
pub struct TerminalDisplay {
    /// World x coordinate at the view's center.
    pub view_center_x: isize,
    /// World y coordinate at the view's center.
    pub view_center_y: isize,
    /// View width in cells.
    pub view_width: usize,
    /// View height in cells.
    pub view_height: usize,
    /// How many of the most recent log lines are shown.
    pub log_lines_displayed: usize,
}

impl TerminalDisplay {
    /// The default viewport: a 68x30 view centered on (10, 5), showing the
    /// last 12 log lines.
    pub fn new() -> (r: Self)
        ensures
            r == (TerminalDisplay {
                view_center_x: 10isize,
                view_center_y: 5isize,
                view_width: 68usize,
                view_height: 30usize,
                log_lines_displayed: 12usize,
            }),
    {
        Self {
            view_center_x: 10,
            view_center_y: 5,
            view_width: 68,
            view_height: 30,
            log_lines_displayed: 12,
        }
    }
}

} // verus!
