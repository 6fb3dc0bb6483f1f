//! The tiles, their order, and the window manager made of tiles only.

use vstd::prelude::*;
use std::collections::{HashMap, VecDeque};
use crate::common::{LayoutManager, Manager, TilingTrait};
use crate::error::StandardError;
use crate::focus::FocusManager;
use crate::layout::{master_of, TilingLayout, VerticalLayout};
use crate::order::{
    lemma_position_unique, lemma_push_distinct, lemma_swapped_distinct,
    lemma_to_front_distinct, lemma_without_distinct, listed, position, position_of, swapped,
    to_front, without,
};
use crate::types::{
    FloatOrTile, Geometry, PrevOrNext, Screen, Window, WindowLayout, WindowWithInfo,
};

verus! {

broadcast use vstd::std_specs::hash::group_hash_axioms;

/// A manager of tiled windows.
#[derive(Clone, Debug)]
pub struct TileManager<TL: TilingLayout> {
    /// The tiles in order; the first is the master.
    pub tiles: VecDeque<Window>,
    /// For each tile, the information it was added with.
    pub originals: HashMap<Window, WindowWithInfo>,
    /// The layout that places the tiles.
    pub layout: TL,
    /// The screen.
    pub screen: Screen,
}

impl<TL: TilingLayout> TileManager<TL> {
    /// The rectangle of the tile at `index`.
    pub open spec fn place(&self, index: int) -> Geometry {
        self.layout.place(index, self.screen, self.tiles@.len() as int)
    }

    /// What the manager reports of the tile `window`: the rectangle the
    /// layout gives it, as a tile that is not fullscreen.
    pub open spec fn tile_info(&self, window: Window) -> WindowWithInfo {
        WindowWithInfo {
            window,
            geometry: self.place(position_of(self.tiles@, window)),
            float_or_tile: FloatOrTile::Tile,
            fullscreen: false,
        }
    }

    /// Each tile with its rectangle, in the order of the tiles.
    pub open spec fn tile_layout(&self) -> Seq<(Window, Geometry)> {
        Seq::new(self.tiles@.len(), |i: int| (self.tiles@[i], self.place(i)))
    }

    /// Whether the layout can place the tiles on the screen.
    pub open spec fn can_place(&self) -> bool {
        self.layout.admits(self.screen, self.tiles@.len() as int)
    }

    /// Whether two managers differ in their tiles at most.
    pub open spec fn same_but_tiles(&self, other: &Self) -> bool {
        &&& self.originals@ == other.originals@
        &&& self.layout == other.layout
        &&& self.screen == other.screen
    }

    /// A manager without tiles.
    pub fn new(screen: Screen, layout: TL) -> (manager: TileManager<TL>)
        ensures
            manager.wf(),
            manager.tiles@ == Seq::<Window>::empty(),
            manager.originals@ == Map::<Window, WindowWithInfo>::empty(),
            manager.layout == layout,
            manager.screen == screen,
    {
        TileManager { tiles: VecDeque::new(), originals: HashMap::new(), layout, screen }
    }

    /// The information `window` was added with.
    pub fn get_original_window_info(&self, window: Window) -> (found: Result<
        WindowWithInfo,
        StandardError,
    >)
        requires
            self.wf(),
        ensures
            found == if self.tiles@.contains(window) {
                Ok::<WindowWithInfo, StandardError>(self.originals@[window])
            } else {
                Err(StandardError::UnknownWindow(window))
            },
    {
        match self.originals.get(&window) {
            Some(info) => Ok(*info),
            None => Err(StandardError::UnknownWindow(window)),
        }
    }

    /// The rectangle the layout gives to `window`.
    pub fn get_window_geometry(&self, window: Window) -> (found: Result<Geometry, StandardError>)
        requires
            self.can_place(),
        ensures
            found == if self.tiles@.contains(window) {
                Ok::<Geometry, StandardError>(self.place(position_of(self.tiles@, window)))
            } else {
                Err(StandardError::UnknownWindow(window))
            },
    {
        self.layout.get_window_geometry(window, &self.screen, &self.tiles)
    }
}

impl<TL: TilingLayout> Manager for TileManager<TL> {
    type Error = StandardError;

    open spec fn unknown(window: Window) -> StandardError {
        StandardError::UnknownWindow(window)
    }

    open spec fn already(window: Window) -> StandardError {
        StandardError::AlReadyManagedWindow(window)
    }

    open spec fn wf(&self) -> bool {
        &&& self.tiles@.no_duplicates()
        &&& forall|w: Window|
            #![trigger self.originals@.contains_key(w)]
            #![trigger self.tiles@.contains(w)]
            self.originals@.contains_key(w) <==> self.tiles@.contains(w)
        &&& forall|w: Window|
            self.originals@.contains_key(w) ==> (#[trigger] self.originals@[w]).window == w
    }

    open spec fn windows(&self) -> Seq<Window> {
        self.tiles@
    }

    proof fn lemma_windows_distinct(&self) {
    }

    fn get_windows(&self) -> (list: Vec<Window>) {
        listed(&self.tiles)
    }

    /// The new tile comes last and keeps the information it came with.
    fn add_window(&mut self, window_with_info: WindowWithInfo) -> (done: Result<(), StandardError>)
        ensures
            final(self).layout == old(self).layout,
            final(self).screen == old(self).screen,
            done is Ok ==> final(self).tiles@ == old(self).tiles@.push(window_with_info.window)
                && final(self).originals@ == old(self).originals@.insert(
                window_with_info.window,
                window_with_info,
            ),
            done is Err ==> final(self).tiles@ == old(self).tiles@ && final(self).originals@ == old(
                self,
            ).originals@,
    {
        if !self.is_managed(window_with_info.window) {
            proof {
                lemma_push_distinct(self.tiles@, window_with_info.window);
            }
            self.tiles.push_back(window_with_info.window);
            self.originals.insert(window_with_info.window, window_with_info);
            Ok(())
        } else {
            Err(StandardError::AlReadyManagedWindow(window_with_info.window))
        }
    }

    /// The tile leaves its place and its information is forgotten.
    fn remove_window(&mut self, window: Window) -> (done: Result<(), StandardError>)
        ensures
            final(self).layout == old(self).layout,
            final(self).screen == old(self).screen,
            final(self).originals@ == old(self).originals@.remove(window),
    {
        proof {
            lemma_without_distinct(self.tiles@, window);
        }
        match position(&self.tiles, window) {
            None => {
                assert(self.originals@.remove(window) =~= self.originals@);
                Err(StandardError::UnknownWindow(window))
            },
            Some(i) => {
                self.tiles.remove(i);
                self.originals.remove(&window);
                Ok(())
            },
        }
    }
}

impl<TL: TilingLayout> LayoutManager for TileManager<TL> {
    open spec fn screen(&self) -> Screen {
        self.screen
    }

    open spec fn placeable(&self) -> bool {
        self.can_place()
    }

    open spec fn layout(&self) -> Seq<(Window, Geometry)> {
        self.tile_layout()
    }

    open spec fn info(&self, window: Window) -> WindowWithInfo {
        self.tile_info(window)
    }

    fn get_window_layout(&self) -> (list: Vec<(Window, Geometry)>) {
        let n: usize = self.tiles.len();
        let mut list: Vec<(Window, Geometry)> = Vec::new();
        let mut i: usize = 0;
        while i < n
            invariant
                self.wf(),
                self.placeable(),
                n == self.tiles@.len(),
                i <= n,
                list@ == self.tile_layout().subrange(0, i as int),
            decreases n - i,
        {
            let window: Window = self.tiles[i];
            proof {
                lemma_position_unique(self.tiles@, i as int);
            }
            match self.get_window_geometry(window) {
                Ok(geometry) => {
                    list.push((window, geometry));
                },
                Err(_) => {},
            }
            assert(list@ =~= self.tile_layout().subrange(0, i + 1));
            i += 1;
        }
        assert(self.tile_layout().subrange(0, n as int) =~= self.tile_layout());
        list
    }

    /// Tiles do not react to the focus: nothing changes.
    fn focus_shifted(&mut self, window: Option<Window>) -> (done: Result<(), StandardError>)
        ensures
            done is Ok,
            final(self).tiles@ == old(self).tiles@,
            final(self).same_but_tiles(old(self)),
    {
        Ok(())
    }

    fn get_window_info(&self, window: Window) -> (found: Result<WindowWithInfo, StandardError>) {
        match self.get_window_geometry(window) {
            Ok(geometry) => Ok(
                WindowWithInfo {
                    window,
                    geometry,
                    float_or_tile: FloatOrTile::Tile,
                    fullscreen: false,
                },
            ),
            Err(e) => Err(e),
        }
    }

    fn get_screen(&self) -> (screen: Screen) {
        self.screen
    }

    fn resize_screen(&mut self, screen: Screen)
        ensures
            final(self).tiles@ == old(self).tiles@,
            final(self).originals@ == old(self).originals@,
            final(self).layout == old(self).layout,
    {
        self.screen = screen
    }
}

impl<TL: TilingLayout> TilingTrait for TileManager<TL> {
    open spec fn tiled(&self) -> Seq<Window> {
        self.tiles@
    }

    fn get_master_window(&self) -> (master: Option<Window>) {
        self.layout.get_master_window(&self.tiles)
    }

    /// A tile moves to the front and then gets the focus; for any other
    /// window nothing changes.
    fn swap_with_master(&mut self, window: Window, focus_manager: &mut FocusManager) -> (done:
        Result<(), StandardError>)
        ensures
            final(self).tiles@ == to_front(old(self).tiles@, window),
            final(self).same_but_tiles(old(self)),
            !old(self).tiles@.contains(window) ==> done == Err::<(), StandardError>(
                StandardError::UnknownWindow(window),
            ) && *final(focus_manager) == *old(focus_manager),
            !old(self).tiles@.contains(window) ==> final(focus_manager)@ == old(focus_manager)@,
            old(self).tiles@.contains(window) ==> final(focus_manager)@ == old(
                focus_manager,
            )@.focus(Some(window)) && done == if old(focus_manager)@.knows(window) {
                Ok::<(), StandardError>(())
            } else {
                Err(StandardError::UnknownWindow(window))
            },
    {
        proof {
            lemma_to_front_distinct(self.tiles@, window);
            old(focus_manager)@.lemma_focus(Some(window));
        }
        match self.layout.swap_with_master(window, &mut self.tiles) {
            Err(e) => Err(e),
            Ok(()) => focus_manager.focus_window(Some(window)),
        }
    }

    /// The focused window, when it is a tile, changes places with its
    /// neighbour.
    fn swap_windows(&mut self, dir: PrevOrNext, focus_manager: &FocusManager)
        ensures
            final(self).tiles@ == match focus_manager@.focused {
                Some(w) => swapped(old(self).tiles@, w, dir),
                None => old(self).tiles@,
            },
            final(self).same_but_tiles(old(self)),
    {
        match focus_manager.get_focused_window() {
            Some(window) => {
                proof {
                    lemma_swapped_distinct(self.tiles@, window, dir);
                }
                self.layout.swap_windows(window, dir, &mut self.tiles);
            },
            None => {},
        }
    }
}

/// A window manager that tiles every window.
#[derive(Clone, Debug)]
pub struct TilingWM<TL: TilingLayout> {
    /// The manager of the focus.
    pub focus_manager: FocusManager,
    /// The manager of the tiles.
    pub tile_manager: TileManager<TL>,
}

impl TilingWM<VerticalLayout> {
    /// A window manager without windows that tiles vertically.
    pub fn new(screen: Screen) -> (wm: TilingWM<VerticalLayout>)
        ensures
            wm.wf(),
            wm.focus_manager@.all() == Seq::<Window>::empty(),
            wm.tile_manager.tiles@ == Seq::<Window>::empty(),
            wm.tile_manager.screen == screen,
    {
        TilingWM {
            focus_manager: FocusManager::new(),
            tile_manager: TileManager::new(screen, VerticalLayout {  }),
        }
    }
}

impl<TL: TilingLayout> TilingWM<TL> {
    /// Whether `w` is a window of this window manager.
    pub open spec fn knows(&self, w: Window) -> bool {
        self.tile_manager.tiles@.contains(w)
    }

    /// Whether focus and tiles are consistent and know the same windows.
    pub open spec fn wf(&self) -> bool {
        &&& self.focus_manager.wf()
        &&& self.tile_manager.wf()
        &&& forall|w: Window|
            #![trigger self.focus_manager@.all().contains(w)]
            #![trigger self.tile_manager.tiles@.contains(w)]
            self.focus_manager@.all().contains(w) <==> self.tile_manager.tiles@.contains(w)
    }

    /// A window manager without windows that tiles with `layout`.
    pub fn with_layout(screen: Screen, layout: TL) -> (wm: TilingWM<TL>)
        ensures
            wm.wf(),
            wm.focus_manager@.all() == Seq::<Window>::empty(),
            wm.tile_manager.tiles@ == Seq::<Window>::empty(),
            wm.tile_manager.screen == screen,
            wm.tile_manager.layout == layout,
    {
        TilingWM {
            focus_manager: FocusManager::new(),
            tile_manager: TileManager::new(screen, layout),
        }
    }

    /// The windows, the focused one last.
    pub fn get_windows(&self) -> (list: Vec<Window>)
        requires
            self.wf(),
        ensures
            list@ == self.focus_manager@.all(),
            forall|w: Window| #[trigger] list@.contains(w) <==> self.knows(w),
    {
        self.focus_manager.get_windows()
    }

    /// Whether `window` is a window of this window manager.
    pub fn is_managed(&self, window: Window) -> (managed: bool)
        requires
            self.wf(),
        ensures
            managed == self.knows(window),
    {
        self.focus_manager.is_managed(window)
    }

    /// The focused window, if any.
    pub fn get_focused_window(&self) -> (focused: Option<Window>)
        ensures
            focused == self.focus_manager@.focused,
    {
        self.focus_manager.get_focused_window()
    }

    /// Adds a window as the last tile and gives it the focus.
    pub fn add_window(&mut self, window_with_info: WindowWithInfo) -> (done: Result<
        (),
        StandardError,
    >)
        requires
            old(self).wf(),
        ensures
            final(self).wf(),
            final(self).tile_manager.layout == old(self).tile_manager.layout,
            final(self).tile_manager.screen == old(self).tile_manager.screen,
            final(self).focus_manager@ == old(self).focus_manager@.add(window_with_info.window),
            old(self).knows(window_with_info.window) ==> {
                &&& done == Err::<(), StandardError>(
                    StandardError::AlReadyManagedWindow(window_with_info.window),
                )
                &&& final(self).tile_manager.tiles@ == old(self).tile_manager.tiles@
                &&& final(self).tile_manager.originals@ == old(self).tile_manager.originals@
            },
            !old(self).knows(window_with_info.window) ==> {
                &&& done == Ok::<(), StandardError>(())
                &&& final(self).tile_manager.tiles@ == old(self).tile_manager.tiles@.push(
                    window_with_info.window,
                )
                &&& final(self).tile_manager.originals@ == old(self).tile_manager.originals@.insert(
                    window_with_info.window,
                    window_with_info,
                )
            },
    {
        proof {
            self.focus_manager@.lemma_add(window_with_info.window);
        }
        match self.focus_manager.add_window(window_with_info) {
            Err(e) => Err(e),
            Ok(()) => {
                match self.tile_manager.add_window(window_with_info) {
                    Ok(()) => Ok(()),
                    Err(e) => Err(e),
                }
            },
        }
    }

    /// Removes a window; when it had the focus, the window focused before
    /// it gets the focus.
    pub fn remove_window(&mut self, window: Window) -> (done: Result<(), StandardError>)
        requires
            old(self).wf(),
        ensures
            final(self).wf(),
            final(self).tile_manager.layout == old(self).tile_manager.layout,
            final(self).tile_manager.screen == old(self).tile_manager.screen,
            final(self).tile_manager.originals@ == old(self).tile_manager.originals@.remove(window),
            final(self).focus_manager@ == old(self).focus_manager@.remove(window),
            final(self).tile_manager.tiles@ == without(old(self).tile_manager.tiles@, window),
            done == if old(self).knows(window) {
                Ok::<(), StandardError>(())
            } else {
                Err(StandardError::UnknownWindow(window))
            },
    {
        proof {
            self.focus_manager@.lemma_remove(window);
            lemma_without_distinct(self.tile_manager.tiles@, window);
        }
        match self.focus_manager.remove_window(window) {
            Err(e) => {
                proof {
                    assert(self.tile_manager.originals@.remove(window)
                        =~= self.tile_manager.originals@);
                }
                Err(e)
            },
            Ok(()) => {
                match self.tile_manager.remove_window(window) {
                    Ok(()) => Ok(()),
                    Err(e) => Err(e),
                }
            },
        }
    }

    /// The focused window and every tile with its rectangle, in the order
    /// of the tiles.
    pub fn get_window_layout(&self) -> (layout: WindowLayout)
        requires
            self.wf(),
            self.tile_manager.can_place(),
        ensures
            layout.focused_window == self.focus_manager@.focused,
            layout.windows@ == self.tile_manager.tile_layout(),
    {
        WindowLayout {
            focused_window: self.get_focused_window(),
            windows: self.tile_manager.get_window_layout(),
        }
    }

    /// Gives the focus to `window`, or to no window. An unknown window is
    /// an error and leaves no window focused.
    pub fn focus_window(&mut self, window: Option<Window>) -> (done: Result<(), StandardError>)
        requires
            old(self).wf(),
        ensures
            final(self).wf(),
            final(self).tile_manager == old(self).tile_manager,
            final(self).focus_manager@ == old(self).focus_manager@.focus(window),
            done == if old(self).focus_manager@.can_focus(window) {
                Ok::<(), StandardError>(())
            } else {
                Err(StandardError::UnknownWindow(window.unwrap()))
            },
    {
        proof {
            self.focus_manager@.lemma_focus(window);
        }
        self.focus_manager.focus_window(window)
    }

    /// Moves the focus to the next or the previous window.
    pub fn cycle_focus(&mut self, dir: PrevOrNext)
        requires
            old(self).wf(),
        ensures
            final(self).wf(),
            final(self).tile_manager == old(self).tile_manager,
            final(self).focus_manager@ == old(self).focus_manager@.cycle(dir),
    {
        proof {
            self.focus_manager@.lemma_cycle(dir);
        }
        self.focus_manager.cycle_focus(dir)
    }

    /// What is known of `window`: the rectangle the layout gives it, as a
    /// tile that is not fullscreen.
    pub fn get_window_info(&self, window: Window) -> (found: Result<WindowWithInfo, StandardError>)
        requires
            self.wf(),
            self.tile_manager.can_place(),
        ensures
            found == if self.knows(window) {
                Ok::<WindowWithInfo, StandardError>(self.tile_manager.tile_info(window))
            } else {
                Err(StandardError::UnknownWindow(window))
            },
    {
        self.tile_manager.get_window_info(window)
    }

    /// The screen.
    pub fn get_screen(&self) -> (screen: Screen)
        ensures
            screen == self.tile_manager.screen,
    {
        self.tile_manager.get_screen()
    }

    /// Changes the screen and nothing else.
    pub fn resize_screen(&mut self, screen: Screen)
        requires
            old(self).wf(),
        ensures
            final(self).wf(),
            final(self).focus_manager == old(self).focus_manager,
            final(self).tile_manager.screen == screen,
            final(self).tile_manager.tiles@ == old(self).tile_manager.tiles@,
            final(self).tile_manager.originals@ == old(self).tile_manager.originals@,
            final(self).tile_manager.layout == old(self).tile_manager.layout,
    {
        self.tile_manager.resize_screen(screen)
    }

    /// The master tile, if there is a tile.
    pub fn get_master_window(&self) -> (master: Option<Window>)
        requires
            self.wf(),
        ensures
            master == master_of(self.tile_manager.tiles@),
    {
        self.tile_manager.get_master_window()
    }

    /// Makes `window` the master tile and gives it the focus.
    pub fn swap_with_master(&mut self, window: Window) -> (done: Result<(), StandardError>)
        requires
            old(self).wf(),
        ensures
            final(self).wf(),
            final(self).tile_manager.same_but_tiles(&old(self).tile_manager),
            final(self).tile_manager.tiles@ == to_front(old(self).tile_manager.tiles@, window),
            final(self).focus_manager@ == if old(self).knows(window) {
                old(self).focus_manager@.focus(Some(window))
            } else {
                old(self).focus_manager@
            },
            done == if old(self).knows(window) {
                Ok::<(), StandardError>(())
            } else {
                Err(StandardError::UnknownWindow(window))
            },
    {
        proof {
            self.focus_manager@.lemma_focus(Some(window));
            lemma_to_front_distinct(self.tile_manager.tiles@, window);
        }
        self.tile_manager.swap_with_master(window, &mut self.focus_manager)
    }

    /// Exchanges the focused window with the tile before or after it.
    pub fn swap_windows(&mut self, dir: PrevOrNext)
        requires
            old(self).wf(),
        ensures
            final(self).wf(),
            final(self).focus_manager == old(self).focus_manager,
            final(self).tile_manager.same_but_tiles(&old(self).tile_manager),
            final(self).tile_manager.tiles@ == match old(self).focus_manager@.focused {
                Some(w) => swapped(old(self).tile_manager.tiles@, w, dir),
                None => old(self).tile_manager.tiles@,
            },
    {
        proof {
            match self.focus_manager@.focused {
                Some(w) => {
                    lemma_swapped_distinct(self.tile_manager.tiles@, w, dir);
                },
                None => {},
            }
        }
        self.tile_manager.swap_windows(dir, &self.focus_manager)
    }
}

} // verus!
