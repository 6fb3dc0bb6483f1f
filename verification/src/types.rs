//! Plain value types shared by every manager.

use vstd::prelude::*;

verus! {

/// An opaque, unique window identifier.
pub type Window = u64;

/// The space, in pixels, left free around a tile.
pub type GapSize = u32;

/// The position of a workspace in the list of workspaces.
pub type WorkspaceIndex = usize;

/// The largest value a coordinate can take.
pub const COORD_MAX: u32 = 0x7fff_ffff;

/// A direction in which to cycle or swap.
#[derive(Clone, Copy, Debug, PartialEq, Eq, Structural)]
pub enum PrevOrNext {
    /// Towards the previous entry.
    Prev,
    /// Towards the next entry.
    Next,
}

/// Whether a window floats or is tiled.
#[derive(Clone, Copy, Debug, PartialEq, Eq, Structural)]
pub enum FloatOrTile {
    /// The window keeps the geometry it was given.
    Float,
    /// The window is placed by the tiling layout.
    Tile,
}

/// An axis-aligned rectangle in screen coordinates.
#[derive(Clone, Copy, Debug, PartialEq, Eq, Structural)]
pub struct Geometry {
    /// Horizontal position of the top-left corner.
    pub x: i32,
    /// Vertical position of the top-left corner.
    pub y: i32,
    /// Width in pixels.
    pub width: u32,
    /// Height in pixels.
    pub height: u32,
}

impl Geometry {
    /// The number of pixels the rectangle covers.
    pub open spec fn area(self) -> int {
        self.width * self.height
    }

    /// Whether the pixel `(px, py)` lies inside the rectangle.
    pub open spec fn covers(self, px: int, py: int) -> bool {
        &&& self.x <= px < self.x + self.width
        &&& self.y <= py < self.y + self.height
    }

    /// Whether two rectangles share at least one pixel.
    pub open spec fn overlaps(self, other: Geometry) -> bool {
        exists|px: int, py: int| #[trigger] self.covers(px, py) && other.covers(px, py)
    }

    /// Whether the rectangle lies within a screen of the given size.
    pub open spec fn within(self, screen: Screen) -> bool {
        &&& 0 <= self.x
        &&& 0 <= self.y
        &&& self.x + self.width <= screen.width
        &&& self.y + self.height <= screen.height
    }
}

/// The size of the screen.
#[derive(Clone, Copy, Debug, PartialEq, Eq, Structural)]
pub struct Screen {
    /// Width in pixels.
    pub width: u32,
    /// Height in pixels.
    pub height: u32,
}

impl Screen {
    /// Whether every pixel of the screen, and its far corner, has
    /// coordinates that a `Geometry` can hold.
    pub open spec fn in_range(self) -> bool {
        self.width <= COORD_MAX && self.height <= COORD_MAX
    }

    /// The rectangle at the origin that covers the whole screen.
    pub open spec fn full(self) -> Geometry {
        Geometry { x: 0, y: 0, width: self.width, height: self.height }
    }

    /// Whether every pixel of the screen, and its far corner, has
    /// coordinates that a `Geometry` can hold.
    pub fn fits(&self) -> (ok: bool)
        ensures
            ok == self.in_range(),
    {
        self.width <= COORD_MAX && self.height <= COORD_MAX
    }

    /// The rectangle at the origin that covers the whole screen.
    pub fn to_geometry(&self) -> (g: Geometry)
        ensures
            g == self.full(),
    {
        Geometry { x: 0, y: 0, width: self.width, height: self.height }
    }
}

/// A window together with the geometry, mode and fullscreen flag it was
/// given or that a manager computed for it.
#[derive(Clone, Copy, Debug, PartialEq, Eq, Structural)]
pub struct WindowWithInfo {
    /// The window.
    pub window: Window,
    /// Its geometry.
    pub geometry: Geometry,
    /// Whether it floats or is tiled.
    pub float_or_tile: FloatOrTile,
    /// Whether it should cover the whole screen.
    pub fullscreen: bool,
}

impl WindowWithInfo {
    /// Describes a tiled, non-fullscreen window.
    pub fn new_tiled(window: Window, geometry: Geometry) -> (info: WindowWithInfo)
        ensures
            info == (WindowWithInfo {
                window,
                geometry,
                float_or_tile: FloatOrTile::Tile,
                fullscreen: false,
            }),
    {
        WindowWithInfo { window, geometry, float_or_tile: FloatOrTile::Tile, fullscreen: false }
    }

    /// Describes a floating, non-fullscreen window.
    pub fn new_float(window: Window, geometry: Geometry) -> (info: WindowWithInfo)
        ensures
            info == (WindowWithInfo {
                window,
                geometry,
                float_or_tile: FloatOrTile::Float,
                fullscreen: false,
            }),
    {
        WindowWithInfo { window, geometry, float_or_tile: FloatOrTile::Float, fullscreen: false }
    }

    /// Describes a tiled window that should cover the whole screen.
    pub fn new_fullscreen(window: Window, geometry: Geometry) -> (info: WindowWithInfo)
        ensures
            info == (WindowWithInfo {
                window,
                geometry,
                float_or_tile: FloatOrTile::Tile,
                fullscreen: true,
            }),
    {
        WindowWithInfo { window, geometry, float_or_tile: FloatOrTile::Tile, fullscreen: true }
    }

    /// The same window with another mode.
    pub open spec fn with_mode(self, mode: FloatOrTile) -> WindowWithInfo {
        WindowWithInfo {
            window: self.window,
            geometry: self.geometry,
            float_or_tile: mode,
            fullscreen: self.fullscreen,
        }
    }
}

/// What a window manager shows: the focused window and every visible
/// window with its geometry, from the bottom of the stack to the top.
#[derive(Clone, Debug, PartialEq, Eq)]
pub struct WindowLayout {
    /// The focused window, if any.
    pub focused_window: Option<Window>,
    /// The visible windows, bottom first.
    pub windows: Vec<(Window, Geometry)>,
}

impl WindowLayout {
    /// A layout without windows.
    pub fn new() -> (layout: WindowLayout)
        ensures
            layout.focused_window.is_none(),
            layout.windows@ == Seq::<(Window, Geometry)>::empty(),
    {
        WindowLayout { focused_window: None, windows: Vec::new() }
    }
}

} // verus!
