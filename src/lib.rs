//! Grid tiling of a focused window: hotkey tokens, the nine grid cells and the
//! rectangle that each cell occupies on a display's work area.

pub mod geometry;
pub mod hexnum;
pub mod hotkey;
pub mod keycode;
