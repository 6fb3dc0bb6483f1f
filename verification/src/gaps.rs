//! A layout that leaves a gap around every tile of another layout.

use vstd::prelude::*;
use std::collections::VecDeque;
use crate::error::StandardError;
use crate::layout::{TilingLayout, VerticalLayout};
use crate::order::lemma_position;
use crate::partition::lemma_side_tile;
use crate::tiling::TileManager;
use crate::types::{GapSize, Geometry, PrevOrNext, Screen, Window, COORD_MAX};

verus! {

/// `g` moved right and down by `gap` and made smaller by twice `gap` in
/// each direction, but never smaller than nothing.
pub open spec fn with_gap(g: Geometry, gap: GapSize) -> Geometry {
    Geometry {
        x: (g.x + gap) as i32,
        y: (g.y + gap) as i32,
        width: if g.width >= 2 * gap { (g.width - 2 * gap) as u32 } else { 0 },
        height: if g.height >= 2 * gap { (g.height - 2 * gap) as u32 } else { 0 },
    }
}

/// Whether the corner of `g`, moved by `gap`, is still a coordinate.
pub open spec fn gap_fits(g: Geometry, gap: GapSize) -> bool {
    g.x + gap <= COORD_MAX && g.y + gap <= COORD_MAX
}

/// Leaves `gap` free on all four sides of `g`.
pub fn shrink(g: Geometry, gap: GapSize) -> (shrunk: Geometry)
    requires
        gap_fits(g, gap),
    ensures
        shrunk == with_gap(g, gap),
{
    let twice: u64 = 2 * (gap as u64);
    let width: u32 = if g.width as u64 >= twice { ((g.width as u64) - twice) as u32 } else { 0 };
    let height: u32 = if g.height as u64 >= twice { ((g.height as u64) - twice) as u32 } else { 0 };
    Geometry {
        x: ((g.x as i64) + (gap as i64)) as i32,
        y: ((g.y as i64) + (gap as i64)) as i32,
        width,
        height,
    }
}

/// The tiles of another layout, each with a gap around it.
#[derive(Clone, Copy, Debug)]
pub struct GapLayout<T: TilingLayout> {
    /// The size of the gap.
    pub gap: GapSize,
    /// The layout that divides the screen.
    pub tiling_layout: T,
}

impl<T: TilingLayout> GapLayout<T> {
    /// The size of the gap.
    pub fn get_gap(&self) -> (gap: GapSize)
        ensures
            gap == self.gap,
    {
        self.gap
    }

    /// Changes the size of the gap and nothing else.
    pub fn set_gap(&mut self, gap: GapSize)
        ensures
            final(self).gap == gap,
            final(self).tiling_layout == old(self).tiling_layout,
    {
        self.gap = gap;
    }
}

impl<T: TilingLayout> TilingLayout for GapLayout<T> {
    open spec fn admits(&self, screen: Screen, count: int) -> bool {
        &&& self.tiling_layout.admits(screen, count)
        &&& forall|i: int|
            0 <= i < count ==> gap_fits(#[trigger] self.tiling_layout.place(i, screen, count), self.gap)
    }

    open spec fn place(&self, index: int, screen: Screen, count: int) -> Geometry {
        with_gap(self.tiling_layout.place(index, screen, count), self.gap)
    }

    fn get_master_window(&self, tiles: &VecDeque<Window>) -> (master: Option<Window>) {
        self.tiling_layout.get_master_window(tiles)
    }

    fn swap_with_master(&self, window: Window, tiles: &mut VecDeque<Window>) -> (done: Result<
        (),
        StandardError,
    >) {
        self.tiling_layout.swap_with_master(window, tiles)
    }

    fn swap_windows(&self, window: Window, dir: PrevOrNext, tiles: &mut VecDeque<Window>) {
        self.tiling_layout.swap_windows(window, dir, tiles)
    }

    fn get_window_geometry(&self, window: Window, screen: &Screen, tiles: &VecDeque<Window>) -> (found:
        Result<Geometry, StandardError>) {
        match self.tiling_layout.get_window_geometry(window, screen, tiles) {
            Err(e) => Err(e),
            Ok(g) => {
                proof {
                    lemma_position(tiles@, window);
                }
                Ok(shrink(g, self.gap))
            },
        }
    }
}

impl GapLayout<VerticalLayout> {
    /// Whether the screen leaves room for the gap beyond its middle and its
    /// bottom; the layout can then place any number of tiles on it.
    pub fn fits(&self, screen: &Screen) -> (ok: bool)
        ensures
            ok == (screen.in_range() && screen.width as int / 2 + self.gap <= COORD_MAX
                && screen.height + self.gap <= COORD_MAX),
            ok ==> forall|count: int| self.admits(*screen, count),
    {
        let ok: bool = screen.fits() && (screen.width / 2) as u64 + self.gap as u64
            <= COORD_MAX as u64 && screen.height as u64 + self.gap as u64 <= COORD_MAX as u64;
        proof {
            if ok {
                assert forall|count: int| self.admits(*screen, count) by {
                    lemma_gapped_vertical_admits(*self, *screen, count);
                }
            }
        }
        ok
    }
}

/// A vertical layout with a gap can place any number of tiles on a screen
/// that leaves room for the gap beyond its middle and its bottom.
pub proof fn lemma_gapped_vertical_admits(layout: GapLayout<VerticalLayout>, screen: Screen, count: int)
    requires
        screen.in_range(),
        screen.width as int / 2 + layout.gap <= COORD_MAX,
        screen.height + layout.gap <= COORD_MAX,
    ensures
        layout.admits(screen, count),
{
    assert forall|i: int| 0 <= i < count implies gap_fits(
        #[trigger] layout.tiling_layout.place(i, screen, count),
        layout.gap,
    ) by {
        if i > 0 {
            lemma_side_tile(screen, count, i);
        }
    }
}

/// A window manager that tiles vertically, with a gap around every tile.
pub type TilingWM = crate::tiling::TilingWM<GapLayout<VerticalLayout>>;

impl<T: TilingLayout> TileManager<GapLayout<T>> {
    /// The size of the gap.
    pub fn get_gap(&self) -> (gap: GapSize)
        ensures
            gap == self.layout.gap,
    {
        self.layout.get_gap()
    }

    /// Changes the size of the gap and nothing else.
    pub fn set_gap(&mut self, gap: GapSize)
        ensures
            final(self).layout.gap == gap,
            final(self).layout.tiling_layout == old(self).layout.tiling_layout,
            final(self).tiles@ == old(self).tiles@,
            final(self).originals@ == old(self).originals@,
            final(self).screen == old(self).screen,
    {
        self.layout.set_gap(gap)
    }
}

impl crate::tiling::TilingWM<GapLayout<VerticalLayout>> {
    /// A window manager without windows and without a gap.
    pub fn new(screen: Screen) -> (wm: TilingWM)
        ensures
            wm.wf(),
            wm.focus_manager@.all() == Seq::<Window>::empty(),
            wm.tile_manager.tiles@ == Seq::<Window>::empty(),
            wm.tile_manager.screen == screen,
            wm.tile_manager.layout.gap == 0,
    {
        crate::tiling::TilingWM::with_layout(
            screen,
            GapLayout { tiling_layout: VerticalLayout {  }, gap: 0 },
        )
    }

    /// The size of the gap.
    pub fn get_gap(&self) -> (gap: GapSize)
        ensures
            gap == self.tile_manager.layout.gap,
    {
        self.tile_manager.get_gap()
    }

    /// Changes the size of the gap and nothing else.
    pub fn set_gap(&mut self, gap: GapSize)
        requires
            old(self).wf(),
        ensures
            final(self).wf(),
            final(self).focus_manager == old(self).focus_manager,
            final(self).tile_manager.layout.gap == gap,
            final(self).tile_manager.tiles@ == old(self).tile_manager.tiles@,
            final(self).tile_manager.originals@ == old(self).tile_manager.originals@,
            final(self).tile_manager.screen == old(self).tile_manager.screen,
    {
        self.tile_manager.set_gap(gap)
    }
}

} // verus!
