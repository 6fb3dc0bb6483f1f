//! Tiling layouts: where each tile of an ordered sequence goes on the screen.

use vstd::prelude::*;
use std::collections::VecDeque;
use crate::error::StandardError;
use crate::order::{exchanged, neighbour, position, position_of, swapped, to_front};
use crate::types::{Geometry, PrevOrNext, Screen, Window};

verus! {

/// The master of a tile sequence: its front, if it has one.
pub open spec fn master_of(tiles: Seq<Window>) -> Option<Window> {
    if tiles.len() > 0 {
        Some(tiles[0])
    } else {
        None
    }
}

/// What a layout answers when asked for the geometry of `window`: the
/// rectangle `place` gives to the first position of `window`, or an error
/// when `window` is not among the tiles.
pub open spec fn geometry_answer(
    tiles: Seq<Window>,
    window: Window,
    place: spec_fn(int) -> Geometry,
) -> Result<Geometry, StandardError> {
    if tiles.contains(window) {
        Ok(place(position_of(tiles, window)))
    } else {
        Err(StandardError::UnknownWindow(window))
    }
}

/// A tiling strategy.
///
/// Every strategy orders its tiles in the same way: the master is the front
/// of the sequence, a window becomes master by moving to the front, and a
/// window swaps with the neighbour before or after it, wrapping around both
/// ends. Strategies differ in the rectangle they give to each position.
pub trait TilingLayout: Sized {
    /// Whether the layout can place `count` tiles on `screen` with every
    /// coordinate and size in the range of a `Geometry`.
    spec fn admits(&self, screen: Screen, count: int) -> bool;

    /// The rectangle of the tile at `index` among `count` tiles on `screen`.
    spec fn place(&self, index: int, screen: Screen, count: int) -> Geometry;

    /// The master window among `tiles`.
    fn get_master_window(&self, tiles: &VecDeque<Window>) -> (master: Option<Window>)
        ensures
            master == master_of(tiles@),
    ;

    /// Makes `window` the master, leaving the other tiles in order.
    fn swap_with_master(&self, window: Window, tiles: &mut VecDeque<Window>) -> (done: Result<
        (),
        StandardError,
    >)
        ensures
            final(tiles)@ == to_front(old(tiles)@, window),
            done == if old(tiles)@.contains(window) {
                Ok::<(), StandardError>(())
            } else {
                Err(StandardError::UnknownWindow(window))
            },
    ;

    /// Exchanges `window` with its neighbour in direction `dir`; does nothing
    /// when `window` is not among the tiles.
    fn swap_windows(&self, window: Window, dir: PrevOrNext, tiles: &mut VecDeque<Window>)
        ensures
            final(tiles)@ == swapped(old(tiles)@, window, dir),
    ;

    /// The rectangle of `window` among `tiles` on `screen`.
    fn get_window_geometry(&self, window: Window, screen: &Screen, tiles: &VecDeque<Window>) -> (found:
        Result<Geometry, StandardError>)
        requires
            self.admits(*screen, tiles@.len() as int),
        ensures
            found == geometry_answer(
                tiles@,
                window,
                |i: int| self.place(i, *screen, tiles@.len() as int),
            ),
    ;
}

/// The front of `tiles`, if there is one.
pub fn front_of(tiles: &VecDeque<Window>) -> (master: Option<Window>)
    ensures
        master == master_of(tiles@),
{
    if tiles.len() > 0 {
        Some(tiles[0])
    } else {
        None
    }
}

/// Moves the first `window` of `tiles` to the front.
pub fn move_to_front(window: Window, tiles: &mut VecDeque<Window>) -> (done: Result<
    (),
    StandardError,
>)
    ensures
        final(tiles)@ == to_front(old(tiles)@, window),
        done == if old(tiles)@.contains(window) {
            Ok::<(), StandardError>(())
        } else {
            Err(StandardError::UnknownWindow(window))
        },
{
    match position(tiles, window) {
        None => Err(StandardError::UnknownWindow(window)),
        Some(index) => {
            tiles.remove(index);
            tiles.push_front(window);
            Ok(())
        },
    }
}

/// Exchanges the entries at `i` and `j` of `tiles`.
pub fn exchange(tiles: &mut VecDeque<Window>, i: usize, j: usize)
    requires
        i < old(tiles)@.len(),
        j < old(tiles)@.len(),
    ensures
        final(tiles)@ == exchanged(old(tiles)@, i as int, j as int),
{
    if i != j {
        let lo: usize = if i < j { i } else { j };
        let hi: usize = if i < j { j } else { i };
        let upper: Window = tiles[hi];
        let lower: Window = tiles[lo];
        tiles.remove(hi);
        tiles.remove(lo);
        tiles.insert(lo, upper);
        tiles.insert(hi, lower);
        assert(tiles@ =~= exchanged(old(tiles)@, i as int, j as int));
    } else {
        assert(tiles@ =~= exchanged(old(tiles)@, i as int, j as int));
    }
}

/// Exchanges the first `window` of `tiles` with its neighbour.
pub fn swap_neighbour(window: Window, dir: PrevOrNext, tiles: &mut VecDeque<Window>)
    ensures
        final(tiles)@ == swapped(old(tiles)@, window, dir),
{
    match position(tiles, window) {
        None => {},
        Some(index) => {
            let n: usize = tiles.len();
            let other: usize = match dir {
                PrevOrNext::Prev => if index == 0 { n - 1 } else { index - 1 },
                PrevOrNext::Next => if index == n - 1 { 0 } else { index + 1 },
            };
            assert(other as int == neighbour(index as int, dir, n as int));
            exchange(tiles, index, other);
        },
    }
}

/// Where the vertical layout puts the tile at `index` among `count` tiles:
/// the master fills the left half of the screen, or all of it when alone;
/// the others share the right half from top to bottom, each as high as the
/// screen's height divided by their number, the last one taking what is
/// left.
pub open spec fn vertical_place(index: int, screen: Screen, count: int) -> Geometry {
    let half = screen.width as int / 2;
    if index == 0 {
        Geometry {
            x: 0,
            y: 0,
            width: if count <= 1 { screen.width } else { half as u32 },
            height: screen.height,
        }
    } else {
        let step = screen.height as int / (count - 1);
        Geometry {
            x: half as i32,
            y: ((index - 1) * step) as i32,
            width: (screen.width - half) as u32,
            height: if index == count - 1 {
                (screen.height - step * (count - 2)) as u32
            } else {
                step as u32
            },
        }
    }
}

/// A master tile on the left and a column of side tiles on the right.
#[derive(Clone, Copy, Debug)]
pub struct VerticalLayout {}

impl TilingLayout for VerticalLayout {
    open spec fn admits(&self, screen: Screen, count: int) -> bool {
        screen.in_range()
    }

    open spec fn place(&self, index: int, screen: Screen, count: int) -> Geometry {
        vertical_place(index, screen, count)
    }

    fn get_master_window(&self, tiles: &VecDeque<Window>) -> (master: Option<Window>) {
        front_of(tiles)
    }

    fn swap_with_master(&self, window: Window, tiles: &mut VecDeque<Window>) -> (done: Result<
        (),
        StandardError,
    >) {
        move_to_front(window, tiles)
    }

    fn swap_windows(&self, window: Window, dir: PrevOrNext, tiles: &mut VecDeque<Window>) {
        swap_neighbour(window, dir, tiles)
    }

    fn get_window_geometry(&self, window: Window, screen: &Screen, tiles: &VecDeque<Window>) -> (found:
        Result<Geometry, StandardError>) {
        let n: usize = tiles.len();
        match position(tiles, window) {
            None => Err(StandardError::UnknownWindow(window)),
            Some(index) => {
                let half: u32 = screen.width / 2;
                if index == 0 {
                    let width: u32 = if n <= 1 { screen.width } else { half };
                    Ok(Geometry { x: 0, y: 0, width, height: screen.height })
                } else {
                    let sides: u64 = (n - 1) as u64;
                    let step: u32 = if sides > screen.height as u64 {
                        0
                    } else {
                        screen.height / (sides as u32)
                    };
                    let above: u64 = (index - 1) as u64;
                    proof {
                        lemma_step(screen.height as int, sides as int, above as int);
                    }
                    let y: u64 = above * (step as u64);
                    let height: u32 = if index == n - 1 {
                        screen.height - (y as u32)
                    } else {
                        step
                    };
                    Ok(Geometry { x: half as i32, y: y as i32, width: screen.width - half, height })
                }
            },
        }
    }
}

/// The rows above a side tile never reach below the screen.
pub proof fn lemma_step(height: int, sides: int, above: int)
    requires
        0 <= height,
        0 < sides,
        0 <= above < sides,
    ensures
        0 <= height / sides,
        sides > height ==> height / sides == 0,
        0 <= above * (height / sides) <= height,
        above * (height / sides) == (height / sides) * above,
        above * (height / sides) + height / sides <= height,
{
    let step = height / sides;
    assert(0 <= step && step * sides <= height && (sides > height ==> step == 0))
        by (nonlinear_arith)
        requires
            0 <= height,
            0 < sides,
            step == height / sides,
    ;
    assert(0 <= above * step && above * step + step <= step * sides && above * step == step
        * above) by (nonlinear_arith)
        requires
            0 <= step,
            0 <= above < sides,
    ;
}

} // verus!
