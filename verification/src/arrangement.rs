//! The state of a manager of tiles and floating windows, and what each
//! operation makes of it.

use vstd::prelude::*;
use crate::infos::{
    all_floating, dropped, entry_of, ids, lemma_dropped, lemma_moved, lemma_pushed, lemma_raised,
    moved, raised,
};
use crate::error::FloatWMError;
use crate::focus::FocusView;
use crate::order::{
    lemma_position, lemma_position_is, lemma_push_distinct, lemma_swapped_distinct,
    lemma_to_front_distinct, lemma_without_distinct, position_of, swapped, to_front, without,
};
use crate::types::{FloatOrTile, Geometry, PrevOrNext, Screen, Window, WindowWithInfo};

verus! {

/// Tiles and floating windows on a screen.
pub struct Arrangement {
    /// The tiles in order; the first is the master.
    pub tiles: Seq<Window>,
    /// For each tile, the information it became a tile with.
    pub originals: Map<Window, WindowWithInfo>,
    /// The floating windows, the topmost last.
    pub floats: Seq<WindowWithInfo>,
    /// The screen.
    pub screen: Screen,
}

impl Arrangement {
    /// Whether `w` is a tile.
    pub open spec fn is_tiled(self, w: Window) -> bool {
        self.tiles.contains(w)
    }

    /// Whether `w` floats.
    pub open spec fn is_floating(self, w: Window) -> bool {
        ids(self.floats).contains(w)
    }

    /// Whether `w` is a tile or floats.
    pub open spec fn knows(self, w: Window) -> bool {
        self.is_tiled(w) || self.is_floating(w)
    }

    /// The tiles followed by the floating windows.
    pub open spec fn windows(self) -> Seq<Window> {
        self.tiles + ids(self.floats)
    }

    /// Whether every window is either a tile, once, with the information
    /// it became a tile with, or a floating window, once.
    pub open spec fn wf(self) -> bool {
        &&& self.tiles.no_duplicates()
        &&& forall|w: Window|
            #![trigger self.originals.contains_key(w)]
            #![trigger self.tiles.contains(w)]
            self.originals.contains_key(w) <==> self.tiles.contains(w)
        &&& forall|w: Window|
            self.originals.contains_key(w) ==> (#[trigger] self.originals[w]).window == w
        &&& ids(self.floats).no_duplicates()
        &&& forall|w: Window| !(self.tiles.contains(w) && #[trigger] ids(self.floats).contains(w))
        &&& all_floating(self.floats)
    }

    /// The arrangement with `info` as its last tile.
    pub open spec fn with_tile(self, info: WindowWithInfo) -> Arrangement {
        Arrangement {
            tiles: self.tiles.push(info.window),
            originals: self.originals.insert(info.window, info),
            floats: self.floats,
            screen: self.screen,
        }
    }

    /// The arrangement with `info` as its topmost floating window.
    pub open spec fn with_float(self, info: WindowWithInfo) -> Arrangement {
        Arrangement {
            tiles: self.tiles,
            originals: self.originals,
            floats: self.floats.push(info),
            screen: self.screen,
        }
    }

    /// The arrangement with a new window: a tile becomes the last tile, a
    /// floating window the topmost. A window that is known already changes
    /// nothing.
    pub open spec fn add(self, info: WindowWithInfo) -> Arrangement {
        if self.knows(info.window) {
            self
        } else {
            match info.float_or_tile {
                FloatOrTile::Tile => self.with_tile(info),
                FloatOrTile::Float => self.with_float(info),
            }
        }
    }

    /// The arrangement without `w`.
    pub open spec fn remove(self, w: Window) -> Arrangement {
        Arrangement {
            tiles: without(self.tiles, w),
            originals: self.originals.remove(w),
            floats: if self.is_tiled(w) { self.floats } else { dropped(self.floats, w) },
            screen: self.screen,
        }
    }

    /// The arrangement with the floating window `w` on top.
    pub open spec fn raise(self, w: Window) -> Arrangement {
        Arrangement {
            tiles: self.tiles,
            originals: self.originals,
            floats: raised(self.floats, w),
            screen: self.screen,
        }
    }

    /// The arrangement with the mode of `w` changed. A floating window
    /// becomes the last tile and keeps its geometry as the one to return
    /// to; a tile becomes the topmost floating window, with the geometry
    /// it became a tile with.
    pub open spec fn toggle(self, w: Window) -> Arrangement {
        if self.is_floating(w) {
            Arrangement {
                tiles: self.tiles.push(w),
                originals: self.originals.insert(
                    w,
                    entry_of(self.floats, w).with_mode(FloatOrTile::Tile),
                ),
                floats: dropped(self.floats, w),
                screen: self.screen,
            }
        } else if self.is_tiled(w) {
            Arrangement {
                tiles: without(self.tiles, w),
                originals: self.originals.remove(w),
                floats: self.floats.push(self.originals[w].with_mode(FloatOrTile::Float)),
                screen: self.screen,
            }
        } else {
            self
        }
    }

    /// The arrangement with the tile `w` as master.
    pub open spec fn promote(self, w: Window) -> Arrangement {
        Arrangement {
            tiles: to_front(self.tiles, w),
            originals: self.originals,
            floats: self.floats,
            screen: self.screen,
        }
    }

    /// The arrangement with the tile `w` and its neighbour exchanged.
    pub open spec fn swap(self, w: Window, dir: PrevOrNext) -> Arrangement {
        Arrangement {
            tiles: swapped(self.tiles, w, dir),
            originals: self.originals,
            floats: self.floats,
            screen: self.screen,
        }
    }

    /// The arrangement with another geometry for the floating window `w`.
    pub open spec fn set_geometry(self, w: Window, geometry: Geometry) -> Arrangement {
        Arrangement {
            tiles: self.tiles,
            originals: self.originals,
            floats: moved(self.floats, w, geometry),
            screen: self.screen,
        }
    }

    /// The arrangement on another screen.
    pub open spec fn resize(self, screen: Screen) -> Arrangement {
        Arrangement {
            tiles: self.tiles,
            originals: self.originals,
            floats: self.floats,
            screen,
        }
    }

    /// The windows are distinct, and they are the tiles and the floating
    /// windows.
    pub proof fn lemma_windows(self)
        requires
            self.wf(),
        ensures
            self.windows().no_duplicates(),
            forall|w: Window| #[trigger] self.windows().contains(w) <==> self.knows(w),
    {
        let a = self.tiles;
        let b = ids(self.floats);
        let s = self.windows();
        assert forall|w: Window| #[trigger] s.contains(w) <==> self.knows(w) by {
            if s.contains(w) {
                let i = choose|i: int| 0 <= i < s.len() && s[i] == w;
                if i < a.len() {
                    assert(a[i] == w);
                } else {
                    assert(b[i - a.len()] == w);
                }
            }
            if a.contains(w) {
                let i = choose|i: int| 0 <= i < a.len() && a[i] == w;
                assert(s[i] == w);
            }
            if b.contains(w) {
                let i = choose|i: int| 0 <= i < b.len() && b[i] == w;
                assert(s[i + a.len()] == w);
            }
        }
        assert forall|i: int, j: int| 0 <= i < s.len() && 0 <= j < s.len() && i != j implies s[i]
            != s[j] by {
            if i < a.len() && j >= a.len() {
                assert(a.contains(s[i]));
                assert(b[j - a.len()] == s[j]);
                assert(b.contains(s[j]));
            }
            if j < a.len() && i >= a.len() {
                assert(a.contains(s[j]));
                assert(b[i - a.len()] == s[i]);
                assert(b.contains(s[i]));
            }
        }
    }

    /// Adding a window keeps the arrangement consistent and adds this
    /// window to the known ones.
    pub proof fn lemma_add(self, info: WindowWithInfo)
        requires
            self.wf(),
        ensures
            self.add(info).wf(),
            forall|w: Window|
                #![trigger self.add(info).knows(w)]
                self.add(info).knows(w) <==> self.knows(w) || w == info.window,
    {
        let w = info.window;
        if !self.knows(w) {
            match info.float_or_tile {
                FloatOrTile::Tile => {
                    lemma_push_distinct(self.tiles, w);
                },
                FloatOrTile::Float => {
                    lemma_pushed(self.floats, info);
                },
            }
        }
    }

    /// Removing a window keeps the arrangement consistent and takes this
    /// window from the known ones.
    pub proof fn lemma_remove(self, w: Window)
        requires
            self.wf(),
        ensures
            self.remove(w).wf(),
            self.remove(w).windows() == without(self.windows(), w),
            forall|x: Window|
                #![trigger self.remove(w).knows(x)]
                self.remove(w).knows(x) <==> self.knows(x) && x != w,
    {
        lemma_dropped(self.floats, w);
        lemma_without_distinct(self.tiles, w);
        let after = self.remove(w);
        if self.is_tiled(w) {
            lemma_position(self.tiles, w);
            let p = position_of(self.tiles, w);
            assert(self.windows()[p] == w);
            assert forall|j: int| 0 <= j < p implies self.windows()[j] != w by {
                assert(self.windows()[j] == self.tiles[j]);
            }
            lemma_position_is(self.windows(), w, p);
            assert(after.windows() =~= self.windows().remove(p));
        } else if self.is_floating(w) {
            let b = ids(self.floats);
            lemma_position(b, w);
            let p = position_of(b, w);
            let k = self.tiles.len() + p;
            assert(self.windows()[k] == w);
            assert forall|j: int| 0 <= j < k implies self.windows()[j] != w by {
                if j < self.tiles.len() {
                    assert(self.tiles.contains(self.windows()[j]));
                } else {
                    assert(self.windows()[j] == b[j - self.tiles.len()]);
                }
            }
            lemma_position_is(self.windows(), w, k);
            assert(after.windows() =~= self.windows().remove(k));
            assert(after.originals =~= self.originals);
        } else {
            self.lemma_windows();
            assert(after.originals =~= self.originals);
        }
    }

    /// Raising a window keeps the arrangement consistent and its windows.
    pub proof fn lemma_raise(self, w: Window)
        requires
            self.wf(),
        ensures
            self.raise(w).wf(),
            forall|x: Window|
                #![trigger self.raise(w).knows(x)]
                self.raise(w).knows(x) <==> self.knows(x),
    {
        lemma_raised(self.floats, w);
    }

    /// Changing the mode of a window keeps the arrangement consistent and
    /// its windows.
    pub proof fn lemma_toggle(self, w: Window)
        requires
            self.wf(),
        ensures
            self.toggle(w).wf(),
            forall|x: Window|
                #![trigger self.toggle(w).knows(x)]
                self.toggle(w).knows(x) <==> self.knows(x),
            self.is_floating(w) ==> self.toggle(w).is_tiled(w),
            self.is_tiled(w) ==> self.toggle(w).is_floating(w),
    {
        let after = self.toggle(w);
        if self.is_floating(w) {
            lemma_dropped(self.floats, w);
            lemma_push_distinct(self.tiles, w);
            lemma_position(ids(self.floats), w);
            assert(entry_of(self.floats, w).window == w);
            assert(after.tiles[self.tiles.len() as int] == w);
            assert(after.tiles.no_duplicates());
            assert(ids(after.floats).no_duplicates());
            assert(all_floating(after.floats));
            assert forall|x: Window| !(after.tiles.contains(x) && #[trigger] ids(
                after.floats,
            ).contains(x)) by {}
        } else if self.is_tiled(w) {
            let info = self.originals[w].with_mode(FloatOrTile::Float);
            lemma_without_distinct(self.tiles, w);
            lemma_pushed(self.floats, info);
            assert(ids(after.floats)[self.floats.len() as int] == w);
        }
    }

    /// Making a tile the master keeps the arrangement consistent and its
    /// windows.
    pub proof fn lemma_promote(self, w: Window)
        requires
            self.wf(),
        ensures
            self.promote(w).wf(),
            forall|x: Window|
                #![trigger self.promote(w).knows(x)]
                self.promote(w).knows(x) <==> self.knows(x),
            forall|x: Window|
                #![trigger self.promote(w).is_tiled(x)]
                self.promote(w).is_tiled(x) <==> self.is_tiled(x),
    {
        lemma_to_front_distinct(self.tiles, w);
    }

    /// Exchanging two tiles keeps the arrangement consistent and its
    /// windows.
    pub proof fn lemma_swap(self, w: Window, dir: PrevOrNext)
        requires
            self.wf(),
        ensures
            self.swap(w, dir).wf(),
            forall|x: Window|
                #![trigger self.swap(w, dir).knows(x)]
                self.swap(w, dir).knows(x) <==> self.knows(x),
    {
        lemma_swapped_distinct(self.tiles, w, dir);
    }

    /// Moving a floating window keeps the arrangement consistent and its
    /// windows.
    pub proof fn lemma_set_geometry(self, w: Window, geometry: Geometry)
        requires
            self.wf(),
        ensures
            self.set_geometry(w, geometry).wf(),
            self.set_geometry(w, geometry).windows() == self.windows(),
            forall|x: Window|
                #![trigger self.set_geometry(w, geometry).knows(x)]
                self.set_geometry(w, geometry).knows(x) <==> self.knows(x),
    {
        lemma_moved(self.floats, w, geometry);
    }
}

/// The master that a floating window `w` displaces when it becomes the
/// master: the first tile, or `w` itself when there is no tile.
pub open spec fn displaced_master(a: Arrangement, w: Window) -> Window {
    if a.tiles.len() > 0 {
        a.tiles[0]
    } else {
        w
    }
}

/// What making `w` the master makes of the arrangement `a` when the
/// focus is in state `f`.
///
/// A tile moves to the front. A floating window that the focus knows
/// becomes a tile and moves to the front; then the master it displaced,
/// if the focus knows it, becomes the topmost floating window. Anything
/// else changes nothing.
pub open spec fn master_swapped(a: Arrangement, f: FocusView, w: Window) -> Arrangement {
    if a.is_floating(w) {
        if !f.knows(w) {
            a
        } else if f.knows(displaced_master(a, w)) {
            a.toggle(w).promote(w).toggle(displaced_master(a, w))
        } else {
            a.toggle(w).promote(w)
        }
    } else {
        a.promote(w)
    }
}

/// Where the focus is after making `w` the master: on a tile `w`, or for
/// a floating `w` on the master it displaced; nowhere when the window to
/// focus is not known to the focus; unchanged when `w` is neither.
pub open spec fn master_swap_focus(a: Arrangement, f: FocusView, w: Window) -> FocusView {
    if a.is_floating(w) {
        if !f.knows(w) {
            f.focus(Some(w))
        } else {
            f.focus(Some(w)).focus(Some(displaced_master(a, w)))
        }
    } else if a.is_tiled(w) {
        f.focus(Some(w))
    } else {
        f
    }
}

/// Whether making `w` the master succeeds, and the error when it does not.
pub open spec fn master_swap_outcome(a: Arrangement, f: FocusView, w: Window) -> Result<
    (),
    FloatWMError,
> {
    if a.is_floating(w) {
        if !f.knows(w) {
            Err(FloatWMError::UnknownWindow(w))
        } else if f.knows(displaced_master(a, w)) {
            Ok(())
        } else {
            Err(FloatWMError::UnknownWindow(displaced_master(a, w)))
        }
    } else if a.is_tiled(w) && f.knows(w) {
        Ok(())
    } else {
        Err(FloatWMError::UnknownWindow(w))
    }
}

/// Making a window the master keeps the arrangement consistent and its
/// windows.
pub proof fn lemma_master_swapped(a: Arrangement, f: FocusView, w: Window)
    requires
        a.wf(),
    ensures
        master_swapped(a, f, w).wf(),
        forall|x: Window|
            #![trigger master_swapped(a, f, w).knows(x)]
            master_swapped(a, f, w).knows(x) <==> a.knows(x),
{
    a.lemma_promote(w);
    a.lemma_toggle(w);
    a.toggle(w).lemma_promote(w);
    a.toggle(w).promote(w).lemma_toggle(displaced_master(a, w));
}

} // verus!
