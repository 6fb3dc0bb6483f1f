//! A layout with a central master tile and docks on three edges.

use vstd::prelude::*;
use std::collections::VecDeque;
use crate::error::StandardError;
use crate::layout::{front_of, lemma_step, move_to_front, swap_neighbour, TilingLayout};
use crate::order::position;
use crate::types::{Geometry, PrevOrNext, Screen, Window};

verus! {

/// How many of `count` tiles dock on the left edge: those at positions
/// 1, 4, 7 and so on.
pub open spec fn left_docks(count: int) -> int {
    (count + 1) / 3
}

/// How many of `count` tiles dock on the right edge: those at positions
/// 2, 5, 8 and so on.
pub open spec fn right_docks(count: int) -> int {
    count / 3
}

/// How many of `count` tiles dock on the bottom edge: those at positions
/// 3, 6, 9 and so on.
pub open spec fn bottom_docks(count: int) -> int {
    if count >= 1 {
        (count - 1) / 3
    } else {
        0
    }
}

/// The rectangle of the master among `count` tiles: the whole screen when
/// alone, less a fifth of the width for each side dock in use and a fifth
/// of the height once the bottom dock is in use.
pub open spec fn dock_master_place(screen: Screen, count: int) -> Geometry {
    let wp = screen.width as int / 5;
    let hp = screen.height as int / 5;
    if count <= 1 {
        screen.full()
    } else if count == 2 {
        Geometry { x: wp as i32, y: 0, width: (screen.width - wp) as u32, height: screen.height }
    } else if count == 3 {
        Geometry { x: wp as i32, y: 0, width: (screen.width - 2 * wp) as u32, height: screen.height }
    } else {
        Geometry {
            x: wp as i32,
            y: 0,
            width: (screen.width - 2 * wp) as u32,
            height: (screen.height - hp) as u32,
        }
    }
}

/// The rectangle of the tile in row `row` of a side dock of `docked` tiles
/// whose left edge is at `x`: a fifth of the screen wide, and as high as
/// the screen's height divided among the docked tiles.
pub open spec fn side_dock_place(x: int, row: int, screen: Screen, docked: int) -> Geometry {
    let height = screen.height as int / docked;
    Geometry {
        x: x as i32,
        y: (row * height) as i32,
        width: (screen.width as int / 5) as u32,
        height: height as u32,
    }
}

/// The rectangle of the tile in column `column`, counted from one, of a
/// bottom dock of `docked` tiles.
pub open spec fn bottom_dock_place(column: int, screen: Screen, docked: int) -> Geometry {
    let wp = screen.width as int / 5;
    let hp = screen.height as int / 5;
    let width = screen.width as int / docked;
    Geometry {
        x: (wp + (column - 1) * width) as i32,
        y: (screen.height - hp) as i32,
        width: (width - 2 * wp) as u32,
        height: hp as u32,
    }
}

/// Where the dock layout puts the tile at `index` among `count` tiles.
pub open spec fn dock_place(index: int, screen: Screen, count: int) -> Geometry {
    if index == 0 {
        dock_master_place(screen, count)
    } else if index % 3 == 1 {
        side_dock_place(0, index / 3, screen, left_docks(count))
    } else if index % 3 == 2 {
        side_dock_place(
            screen.width - screen.width as int / 5,
            index / 3,
            screen,
            right_docks(count),
        )
    } else {
        bottom_dock_place(index / 3, screen, bottom_docks(count))
    }
}

/// Whether a bottom dock of `docked` tiles leaves each of them a width
/// that is not negative.
pub open spec fn bottom_dock_fits(screen: Screen, docked: int) -> bool {
    docked > 0 ==> screen.width as int / docked >= 2 * (screen.width as int / 5)
}

/// `total` divided among `parts`.
pub fn share(total: u32, parts: usize) -> (each: u32)
    requires
        parts > 0,
    ensures
        each == total as int / parts as int,
{
    if parts as u64 > total as u64 {
        proof {
            lemma_step(total as int, parts as int, 0);
        }
        0
    } else {
        total / (parts as u32)
    }
}

/// A master tile in the middle, with docks on the left, right and bottom.
#[derive(Clone, Copy, Debug)]
pub struct BasicDockLayout {}

impl BasicDockLayout {
    /// Whether the layout can place `count` tiles on `screen`.
    pub fn fits(&self, screen: &Screen, count: usize) -> (ok: bool)
        ensures
            ok == self.admits(*screen, count as int),
    {
        if !screen.fits() {
            false
        } else if count < 4 {
            true
        } else {
            let docked: usize = (count - 1) / 3;
            let width: u32 = share(screen.width, docked);
            let width_part: u32 = screen.width / 5;
            width as u64 >= 2 * (width_part as u64)
        }
    }

    /// The rectangle of the tile in row `row` of the left dock.
    pub fn get_left_dock_geometry(&self, row: usize, screen: &Screen, docked: usize) -> (g:
        Geometry)
        requires
            screen.in_range(),
            row < docked,
        ensures
            g == side_dock_place(0, row as int, *screen, docked as int),
    {
        let height: u32 = share(screen.height, docked);
        proof {
            lemma_step(screen.height as int, docked as int, row as int);
        }
        let y: u64 = (row as u64) * (height as u64);
        Geometry { x: 0, y: y as i32, width: screen.width / 5, height }
    }

    /// The rectangle of the tile in row `row` of the right dock.
    pub fn get_right_dock_geometry(&self, row: usize, screen: &Screen, docked: usize) -> (g:
        Geometry)
        requires
            screen.in_range(),
            row < docked,
        ensures
            g == side_dock_place(
                screen.width - screen.width as int / 5,
                row as int,
                *screen,
                docked as int,
            ),
    {
        let width_part: u32 = screen.width / 5;
        let height: u32 = share(screen.height, docked);
        proof {
            lemma_step(screen.height as int, docked as int, row as int);
        }
        let y: u64 = (row as u64) * (height as u64);
        Geometry { x: (screen.width - width_part) as i32, y: y as i32, width: width_part, height }
    }

    /// The rectangle of the tile in column `column`, counted from one, of
    /// the bottom dock.
    pub fn get_bottom_dock_geometry(&self, column: usize, screen: &Screen, docked: usize) -> (g:
        Geometry)
        requires
            screen.in_range(),
            1 <= column <= docked,
            bottom_dock_fits(*screen, docked as int),
        ensures
            g == bottom_dock_place(column as int, *screen, docked as int),
    {
        let height_part: u32 = screen.height / 5;
        let width_part: u32 = screen.width / 5;
        let width: u32 = share(screen.width, docked);
        proof {
            lemma_step(screen.width as int, docked as int, column as int - 1);
        }
        let before: u64 = ((column - 1) as u64) * (width as u64);
        let x: u64 = (width_part as u64) + before;
        proof {
            lemma_bottom_dock_in_range(*screen, docked as int, column as int);
        }
        Geometry {
            x: x as i32,
            y: (screen.height - height_part) as i32,
            width: width - 2 * width_part,
            height: height_part,
        }
    }

    /// The rectangle of the master among `count` tiles.
    pub fn get_master_window_geometry(&self, screen: &Screen, count: usize) -> (g: Geometry)
        requires
            screen.in_range(),
        ensures
            g == dock_master_place(*screen, count as int),
    {
        let width_part: u32 = screen.width / 5;
        let height_part: u32 = screen.height / 5;
        if count <= 1 {
            Geometry { x: 0, y: 0, width: screen.width, height: screen.height }
        } else if count == 2 {
            Geometry {
                x: width_part as i32,
                y: 0,
                width: screen.width - width_part,
                height: screen.height,
            }
        } else if count == 3 {
            Geometry {
                x: width_part as i32,
                y: 0,
                width: screen.width - 2 * width_part,
                height: screen.height,
            }
        } else {
            Geometry {
                x: width_part as i32,
                y: 0,
                width: screen.width - 2 * width_part,
                height: screen.height - height_part,
            }
        }
    }
}

/// A bottom dock that fits starts each of its tiles on the screen.
pub proof fn lemma_bottom_dock_in_range(screen: Screen, docked: int, column: int)
    requires
        screen.in_range(),
        1 <= column <= docked,
        bottom_dock_fits(screen, docked),
    ensures
        0 <= screen.width as int / 5 + (column - 1) * (screen.width as int / docked)
            <= screen.width,
{
    let w = screen.width as int;
    let width = w / docked;
    let wp = w / 5;
    lemma_step(w, docked, column - 1);
    assert((column - 1) * width + width <= w);
    assert(wp <= width) by {
        assert(width >= 2 * wp);
    }
}

impl TilingLayout for BasicDockLayout {
    open spec fn admits(&self, screen: Screen, count: int) -> bool {
        screen.in_range() && bottom_dock_fits(screen, bottom_docks(count))
    }

    open spec fn place(&self, index: int, screen: Screen, count: int) -> Geometry {
        dock_place(index, screen, count)
    }

    fn get_master_window(&self, tiles: &VecDeque<Window>) -> (master: Option<Window>) {
        front_of(tiles)
    }

    fn swap_with_master(&self, window: Window, tiles: &mut VecDeque<Window>) -> (done: Result<
        (),
        StandardError,
    >) {
        move_to_front(window, tiles)
    }

    fn swap_windows(&self, window: Window, dir: PrevOrNext, tiles: &mut VecDeque<Window>) {
        swap_neighbour(window, dir, tiles)
    }

    fn get_window_geometry(&self, window: Window, screen: &Screen, tiles: &VecDeque<Window>) -> (found:
        Result<Geometry, StandardError>) {
        let n: usize = tiles.len();
        match position(tiles, window) {
            None => Err(StandardError::UnknownWindow(window)),
            Some(index) => {
                if index == 0 {
                    Ok(self.get_master_window_geometry(screen, n))
                } else {
                    let row: usize = index / 3;
                    let edge: usize = index % 3;
                    if edge == 1 {
                        let docked: usize = (n - 2) / 3 + 1;
                        Ok(self.get_left_dock_geometry(row, screen, docked))
                    } else if edge == 2 {
                        let docked: usize = n / 3;
                        Ok(self.get_right_dock_geometry(row, screen, docked))
                    } else {
                        let docked: usize = (n - 1) / 3;
                        Ok(self.get_bottom_dock_geometry(row, screen, docked))
                    }
                }
            },
        }
    }
}

/// A window manager that tiles with docks.
pub type TilingWM = crate::tiling::TilingWM<BasicDockLayout>;

impl crate::tiling::TilingWM<BasicDockLayout> {
    /// A window manager without windows.
    pub fn new(screen: Screen) -> (wm: TilingWM)
        ensures
            wm.wf(),
            wm.focus_manager@.all() == Seq::<Window>::empty(),
            wm.tile_manager.tiles@ == Seq::<Window>::empty(),
            wm.tile_manager.screen == screen,
    {
        crate::tiling::TilingWM::with_layout(screen, BasicDockLayout {  })
    }
}

} // verus!
