//! Floating windows, alone and above tiles.

use vstd::prelude::*;
use crate::arrangement::{
    displaced_master, lemma_master_swapped, master_swap_focus, master_swap_outcome,
    master_swapped, Arrangement,
};
use crate::common::{FloatAndTileTrait, FloatTrait, LayoutManager, Manager, TilingTrait};
use crate::error::FloatWMError;
use crate::focus::FocusManager;
use crate::layout::{master_of, TilingLayout, VerticalLayout};
use crate::tiling::TileManager;
use crate::infos::{
    dropped, entry_of, find, geometries_of, ids, lemma_dropped, lemma_entry, lemma_moved,
    lemma_pushed, lemma_raised, moved, placed, raised, windows_of,
};
use crate::types::{
    FloatOrTile, Geometry, PrevOrNext, Screen, Window, WindowLayout, WindowWithInfo,
};

verus! {

/// A manager of floating windows.
#[derive(Clone, Debug)]
pub struct FloatManager {
    /// The screen.
    pub screen: Screen,
    /// The floating windows, the topmost last.
    pub floaters: Vec<WindowWithInfo>,
}

impl FloatManager {
    /// A manager without windows.
    pub fn new(screen: Screen) -> (manager: FloatManager)
        ensures
            manager.wf(),
            manager.screen == screen,
            manager.floaters@ == Seq::<WindowWithInfo>::empty(),
    {
        FloatManager { screen, floaters: Vec::new() }
    }
}

impl Manager for FloatManager {
    type Error = FloatWMError;

    open spec fn unknown(window: Window) -> FloatWMError {
        FloatWMError::UnknownWindow(window)
    }

    open spec fn already(window: Window) -> FloatWMError {
        FloatWMError::AlReadyManagedWindow(window)
    }

    open spec fn wf(&self) -> bool {
        ids(self.floaters@).no_duplicates()
    }

    open spec fn windows(&self) -> Seq<Window> {
        ids(self.floaters@)
    }

    proof fn lemma_windows_distinct(&self) {
    }

    fn get_windows(&self) -> (list: Vec<Window>) {
        windows_of(&self.floaters)
    }

    /// The new window comes on top, with the information it came with.
    fn add_window(&mut self, window_with_info: WindowWithInfo) -> (done: Result<(), FloatWMError>)
        ensures
            final(self).screen == old(self).screen,
            final(self).floaters@ == if ids(old(self).floaters@).contains(window_with_info.window) {
                old(self).floaters@
            } else {
                old(self).floaters@.push(window_with_info)
            },
    {
        if self.is_managed(window_with_info.window) {
            Err(FloatWMError::AlReadyManagedWindow(window_with_info.window))
        } else {
            proof {
                lemma_pushed(self.floaters@, window_with_info);
            }
            self.floaters.push(window_with_info);
            Ok(())
        }
    }

    fn remove_window(&mut self, window: Window) -> (done: Result<(), FloatWMError>)
        ensures
            final(self).screen == old(self).screen,
            final(self).floaters@ == dropped(old(self).floaters@, window),
    {
        proof {
            lemma_dropped(self.floaters@, window);
        }
        match find(&self.floaters, window) {
            None => Err(FloatWMError::UnknownWindow(window)),
            Some(i) => {
                self.floaters.remove(i);
                Ok(())
            },
        }
    }
}

impl LayoutManager for FloatManager {
    open spec fn screen(&self) -> Screen {
        self.screen
    }

    open spec fn placeable(&self) -> bool {
        true
    }

    open spec fn layout(&self) -> Seq<(Window, Geometry)> {
        placed(self.floaters@)
    }

    open spec fn info(&self, window: Window) -> WindowWithInfo {
        entry_of(self.floaters@, window)
    }

    fn get_window_layout(&self) -> (list: Vec<(Window, Geometry)>) {
        geometries_of(&self.floaters)
    }

    /// A floating window that gets the focus comes on top.
    fn focus_shifted(&mut self, window: Option<Window>) -> (done: Result<(), FloatWMError>)
        ensures
            final(self).floaters@ == match window {
                Some(w) => raised(old(self).floaters@, w),
                None => old(self).floaters@,
            },
            done is Ok <==> (window.is_some() ==> ids(old(self).floaters@).contains(window.unwrap())),
    {
        match window {
            None => Ok(()),
            Some(w) => {
                proof {
                    lemma_raised(self.floaters@, w);
                }
                match find(&self.floaters, w) {
                    None => Err(FloatWMError::UnknownWindow(w)),
                    Some(i) => {
                        let window_with_info: WindowWithInfo = self.floaters[i];
                        self.floaters.remove(i);
                        self.floaters.push(window_with_info);
                        Ok(())
                    },
                }
            },
        }
    }

    fn get_window_info(&self, window: Window) -> (found: Result<WindowWithInfo, FloatWMError>) {
        match find(&self.floaters, window) {
            None => Err(FloatWMError::UnknownWindow(window)),
            Some(i) => Ok(self.floaters[i]),
        }
    }

    fn get_screen(&self) -> (screen: Screen) {
        self.screen
    }

    fn resize_screen(&mut self, screen: Screen)
        ensures
            final(self).floaters@ == old(self).floaters@,
    {
        self.screen = screen
    }
}

impl FloatTrait for FloatManager {
    /// An unknown window is an error and changes nothing.
    fn set_window_geometry(&mut self, window: Window, new_geometry: Geometry) -> (done: Result<
        (),
        FloatWMError,
    >)
        ensures
            final(self).floaters@ == moved(old(self).floaters@, window, new_geometry),
            done == if ids(old(self).floaters@).contains(window) {
                Ok::<(), FloatWMError>(())
            } else {
                Err(FloatWMError::UnknownWindow(window))
            },
    {
        proof {
            lemma_moved(self.floaters@, window, new_geometry);
        }
        match find(&self.floaters, window) {
            None => Err(FloatWMError::UnknownWindow(window)),
            Some(i) => {
                let info: WindowWithInfo = self.floaters[i];
                self.floaters.set(
                    i,
                    WindowWithInfo {
                        window: info.window,
                        geometry: new_geometry,
                        float_or_tile: info.float_or_tile,
                        fullscreen: info.fullscreen,
                    },
                );
                Ok(())
            },
        }
    }
}

/// A manager of tiles and, above them, floating windows.
#[derive(Clone, Debug)]
pub struct FloatOrTileManager<T: TilingLayout> {
    /// The manager of the tiles.
    pub tile_manager: TileManager<T>,
    /// The manager of the floating windows.
    pub float_manager: FloatManager,
}

impl<T: TilingLayout> View for FloatOrTileManager<T> {
    type V = Arrangement;

    open spec fn view(&self) -> Arrangement {
        Arrangement {
            tiles: self.tile_manager.tiles@,
            originals: self.tile_manager.originals@,
            floats: self.float_manager.floaters@,
            screen: self.float_manager.screen,
        }
    }
}

impl<T: TilingLayout> FloatOrTileManager<T> {
    /// A manager without windows.
    pub fn new(screen: Screen, tiling_layout: T) -> (manager: FloatOrTileManager<T>)
        ensures
            manager.wf(),
            manager@.tiles == Seq::<Window>::empty(),
            manager@.floats == Seq::<WindowWithInfo>::empty(),
            manager@.screen == screen,
            manager.tile_manager.layout == tiling_layout,
    {
        FloatOrTileManager {
            tile_manager: TileManager::new(screen, tiling_layout),
            float_manager: FloatManager::new(screen),
        }
    }

    /// Whether two managers place their tiles with the same layout.
    pub open spec fn same_layout(&self, other: &Self) -> bool {
        self.tile_manager.layout == other.tile_manager.layout
    }

    /// Whether the layout can place the tiles on the screen.
    pub open spec fn can_place(&self) -> bool {
        self.tile_manager.can_place()
    }

    /// Each tile with its rectangle, then each floating window with its
    /// geometry.
    pub open spec fn whole_layout(&self) -> Seq<(Window, Geometry)> {
        self.tile_manager.tile_layout() + placed(self.float_manager.floaters@)
    }

    /// What the manager reports of `window`: of a tile the rectangle the
    /// layout gives it, of a floating window its own information.
    pub open spec fn reported(&self, window: Window) -> WindowWithInfo {
        if self@.is_tiled(window) {
            self.tile_manager.tile_info(window)
        } else {
            entry_of(self.float_manager.floaters@, window)
        }
    }

    /// Makes the floating window `window` the last tile, with its
    /// geometry as the one to return to.
    pub fn tile(&mut self, window: Window) -> (done: Result<(), FloatWMError>)
        requires
            old(self).wf(),
            old(self)@.is_floating(window),
        ensures
            final(self).wf(),
            final(self)@ == old(self)@.toggle(window),
            done == Ok::<(), FloatWMError>(()),
            final(self).same_layout(old(self)),
    {
        proof {
            self@.lemma_toggle(window);
            lemma_entry(self@.floats, window);
        }
        match self.float_manager.get_window_info(window) {
            Err(e) => Err(e),
            Ok(window_with_info) => {
                match self.float_manager.remove_window(window) {
                    Err(e) => Err(e),
                    Ok(()) => {
                        match self.tile_manager.add_window(
                            WindowWithInfo {
                                window: window_with_info.window,
                                geometry: window_with_info.geometry,
                                float_or_tile: FloatOrTile::Tile,
                                fullscreen: window_with_info.fullscreen,
                            },
                        ) {
                            Ok(()) => Ok(()),
                            Err(e) => Err(e.to_float_error()),
                        }
                    },
                }
            },
        }
    }

    /// Makes the tile `window` the topmost floating window, with the
    /// geometry it became a tile with.
    pub fn float(&mut self, window: Window) -> (done: Result<(), FloatWMError>)
        requires
            old(self).wf(),
            old(self)@.is_tiled(window),
        ensures
            final(self).wf(),
            final(self)@ == old(self)@.toggle(window),
            done == Ok::<(), FloatWMError>(()),
            final(self).same_layout(old(self)),
    {
        proof {
            self@.lemma_toggle(window);
            assert(self@.originals.contains_key(window));
            assert(self@.originals[window].window == window);
        }
        match self.tile_manager.get_original_window_info(window) {
            Err(e) => Err(e.to_float_error()),
            Ok(window_with_info) => {
                match self.tile_manager.remove_window(window) {
                    Err(e) => Err(e.to_float_error()),
                    Ok(()) => {
                        match self.float_manager.add_window(
                            WindowWithInfo {
                                window: window_with_info.window,
                                geometry: window_with_info.geometry,
                                float_or_tile: FloatOrTile::Float,
                                fullscreen: window_with_info.fullscreen,
                            },
                        ) {
                            Ok(()) => Ok(()),
                            Err(e) => Err(e),
                        }
                    },
                }
            },
        }
    }

    /// Gives `window` the focus and makes it a tile when it floats, a
    /// floating window when it is a tile. A window that the focus does not
    /// know, or that is neither a tile nor floating, is an error.
    pub fn change_mode(&mut self, window: Window, focus_manager: &mut FocusManager) -> (done:
        Result<(), FloatWMError>)
        requires
            old(self).wf(),
            old(focus_manager).wf(),
        ensures
            final(self).wf(),
            final(focus_manager).wf(),
            final(focus_manager)@ == old(focus_manager)@.focus(Some(window)),
            final(self)@ == if old(focus_manager)@.knows(window) {
                old(self)@.toggle(window)
            } else {
                old(self)@
            },
            done == if old(focus_manager)@.knows(window) && old(self)@.knows(window) {
                Ok::<(), FloatWMError>(())
            } else {
                Err(FloatWMError::UnknownWindow(window))
            },
            final(self).same_layout(old(self)),
    {
        match focus_manager.focus_window(Some(window)) {
            Err(e) => Err(e.to_float_error()),
            Ok(()) => {
                if self.float_manager.is_managed(window) {
                    self.tile(window)
                } else if self.tile_manager.is_managed(window) {
                    self.float(window)
                } else {
                    Err(FloatWMError::UnknownWindow(window))
                }
            },
        }
    }
}

impl<T: TilingLayout> Manager for FloatOrTileManager<T> {
    type Error = FloatWMError;

    open spec fn unknown(window: Window) -> FloatWMError {
        FloatWMError::UnknownWindow(window)
    }

    open spec fn already(window: Window) -> FloatWMError {
        FloatWMError::AlReadyManagedWindow(window)
    }

    open spec fn wf(&self) -> bool {
        self@.wf() && self.tile_manager.screen == self.float_manager.screen
    }

    open spec fn windows(&self) -> Seq<Window> {
        self@.windows()
    }

    proof fn lemma_windows_distinct(&self) {
        self@.lemma_windows();
    }

    fn get_windows(&self) -> (list: Vec<Window>) {
        let mut windows: Vec<Window> = self.tile_manager.get_windows();
        let mut floating: Vec<Window> = self.float_manager.get_windows();
        windows.append(&mut floating);
        windows
    }

    /// A tile goes to the tiles, a floating window to the floating
    /// windows; a window that is known in either mode is refused.
    fn add_window(&mut self, window_with_info: WindowWithInfo) -> (done: Result<(), FloatWMError>)
        ensures
            final(self)@ == old(self)@.add(window_with_info),
            final(self).same_layout(old(self)),
    {
        proof {
            self@.lemma_windows();
            self@.lemma_add(window_with_info);
            self@.add(window_with_info).lemma_windows();
        }
        match window_with_info.float_or_tile {
            FloatOrTile::Tile => {
                if self.float_manager.is_managed(window_with_info.window) {
                    Err(FloatWMError::AlReadyManagedWindow(window_with_info.window))
                } else {
                    match self.tile_manager.add_window(window_with_info) {
                        Ok(()) => Ok(()),
                        Err(e) => Err(e.to_float_error()),
                    }
                }
            },
            FloatOrTile::Float => {
                if self.tile_manager.is_managed(window_with_info.window) {
                    Err(FloatWMError::AlReadyManagedWindow(window_with_info.window))
                } else {
                    self.float_manager.add_window(window_with_info)
                }
            },
        }
    }

    fn remove_window(&mut self, window: Window) -> (done: Result<(), FloatWMError>)
        ensures
            final(self)@ == old(self)@.remove(window),
            final(self).same_layout(old(self)),
    {
        proof {
            self@.lemma_windows();
            self@.lemma_remove(window);
        }
        match self.tile_manager.remove_window(window) {
            Ok(()) => {
                assert(self@ == old(self)@.remove(window));
                Ok(())
            },
            Err(_) => {
                let done = self.float_manager.remove_window(window);
                assert(self@.originals =~= old(self)@.remove(window).originals);
                assert(self@ == old(self)@.remove(window));
                done
            },
        }
    }
}

impl<T: TilingLayout> LayoutManager for FloatOrTileManager<T> {
    open spec fn screen(&self) -> Screen {
        self.float_manager.screen
    }

    open spec fn placeable(&self) -> bool {
        self.can_place()
    }

    open spec fn layout(&self) -> Seq<(Window, Geometry)> {
        self.whole_layout()
    }

    open spec fn info(&self, window: Window) -> WindowWithInfo {
        self.reported(window)
    }

    /// The tiles come first, below every floating window.
    fn get_window_layout(&self) -> (list: Vec<(Window, Geometry)>) {
        let mut windows: Vec<(Window, Geometry)> = self.tile_manager.get_window_layout();
        let mut floating: Vec<(Window, Geometry)> = self.float_manager.get_window_layout();
        windows.append(&mut floating);
        windows
    }

    /// A floating window that gets the focus comes on top; anything else
    /// changes nothing.
    fn focus_shifted(&mut self, window: Option<Window>) -> (done: Result<(), FloatWMError>)
        ensures
            done is Ok,
            final(self)@ == match window {
                Some(w) => old(self)@.raise(w),
                None => old(self)@,
            },
            final(self).same_layout(old(self)),
    {
        match window {
            None => Ok(()),
            Some(w) => {
                proof {
                    self@.lemma_windows();
                    self@.lemma_raise(w);
                    self@.raise(w).lemma_windows();
                }
                if self.float_manager.is_managed(w) {
                    self.float_manager.focus_shifted(Some(w))
                } else {
                    Ok(())
                }
            },
        }
    }

    fn get_window_info(&self, window: Window) -> (found: Result<WindowWithInfo, FloatWMError>) {
        proof {
            self@.lemma_windows();
        }
        match self.tile_manager.get_window_info(window) {
            Ok(info) => Ok(info),
            Err(_) => self.float_manager.get_window_info(window),
        }
    }

    fn get_screen(&self) -> (screen: Screen) {
        self.float_manager.get_screen()
    }

    fn resize_screen(&mut self, screen: Screen)
        ensures
            final(self)@ == old(self)@.resize(screen),
            final(self).same_layout(old(self)),
    {
        self.tile_manager.resize_screen(screen);
        self.float_manager.resize_screen(screen);
    }
}

impl<T: TilingLayout> TilingTrait for FloatOrTileManager<T> {
    open spec fn tiled(&self) -> Seq<Window> {
        self@.tiles
    }

    fn get_master_window(&self) -> (master: Option<Window>) {
        self.tile_manager.get_master_window()
    }

    /// A floating window can become the master too: it becomes a tile,
    /// moves to the front, and the master it displaced floats instead.
    fn swap_with_master(&mut self, window: Window, focus_manager: &mut FocusManager) -> (done:
        Result<(), FloatWMError>)
        ensures
            final(self)@ == master_swapped(old(self)@, old(focus_manager)@, window),
            final(focus_manager)@ == master_swap_focus(old(self)@, old(focus_manager)@, window),
            done == master_swap_outcome(old(self)@, old(focus_manager)@, window),
            final(self).same_layout(old(self)),
    {
        let ghost a = self@;
        let ghost f = focus_manager@;
        proof {
            a.lemma_windows();
            a.lemma_promote(window);
            a.promote(window).lemma_windows();
            f.lemma_focus(Some(window));
        }
        if self.float_manager.is_managed(window) {
            proof {
                a.lemma_toggle(window);
                a.toggle(window).lemma_promote(window);
                a.toggle(window).lemma_windows();
                a.toggle(window).promote(window).lemma_windows();
            }
            match self.change_mode(window, focus_manager) {
                Err(e) => Err(e),
                Ok(()) => {
                    proof {
                        f.lemma_focus_again(window);
                        assert(a.toggle(window).tiles[0] == displaced_master(a, window));
                    }
                    match self.get_master_window() {
                        None => Ok(()),
                        Some(master) => {
                            proof {
                                lemma_tile_stays(a.toggle(window), window, master);
                                f.focus(Some(window)).lemma_focus(Some(master));
                                a.toggle(window).promote(window).lemma_toggle(master);
                                a.toggle(window).promote(window).toggle(master).lemma_windows();
                            }
                            match self.tile_manager.swap_with_master(window, focus_manager) {
                                Err(e) => Err(e.to_float_error()),
                                Ok(()) => self.change_mode(master, focus_manager),
                            }
                        },
                    }
                },
            }
        } else {
            match self.tile_manager.swap_with_master(window, focus_manager) {
                Ok(()) => Ok(()),
                Err(e) => Err(e.to_float_error()),
            }
        }
    }

    /// The focused window, when it is a tile, changes places with its
    /// neighbour; a focused floating window changes nothing.
    fn swap_windows(&mut self, dir: PrevOrNext, focus_manager: &FocusManager)
        ensures
            final(self)@ == match focus_manager@.focused {
                Some(w) => old(self)@.swap(w, dir),
                None => old(self)@,
            },
            final(self).same_layout(old(self)),
    {
        match focus_manager.get_focused_window() {
            None => {},
            Some(w) => {
                proof {
                    self@.lemma_windows();
                    self@.lemma_swap(w, dir);
                    self@.swap(w, dir).lemma_windows();
                }
                if self.tile_manager.is_managed(w) {
                    self.tile_manager.swap_windows(dir, focus_manager)
                }
            },
        }
    }
}

/// The layout lists the windows of the manager, each once and in their
/// order: first the tiles, then the floating windows.
pub proof fn lemma_layout_lists_windows<T: TilingLayout>(manager: &FloatOrTileManager<T>)
    ensures
        manager.whole_layout().len() == manager@.windows().len(),
        forall|i: int|
            0 <= i < manager.whole_layout().len() ==> (#[trigger] manager.whole_layout()[i]).0
                == manager@.windows()[i],
{
    let tiles = manager.tile_manager.tile_layout();
    let floats = placed(manager.float_manager.floaters@);
    assert forall|i: int| 0 <= i < manager.whole_layout().len() implies (
    #[trigger] manager.whole_layout()[i]).0 == manager@.windows()[i] by {
        if i < tiles.len() {
            assert(manager.whole_layout()[i] == tiles[i]);
        } else {
            assert(manager.whole_layout()[i] == floats[i - tiles.len()]);
        }
    }
}

/// Making `w` the master keeps `master` among the tiles.
pub proof fn lemma_tile_stays(a: Arrangement, w: Window, master: Window)
    requires
        a.wf(),
        a.is_tiled(master),
    ensures
        a.promote(w).is_tiled(master),
        a.promote(w).wf(),
{
    a.lemma_promote(w);
}

impl<T: TilingLayout> FloatTrait for FloatOrTileManager<T> {
    /// A tile is an error of its own; an error changes nothing.
    fn set_window_geometry(&mut self, window: Window, new_geometry: Geometry) -> (done: Result<
        (),
        FloatWMError,
    >)
        ensures
            final(self)@ == old(self)@.set_geometry(window, new_geometry),
            done == if old(self)@.is_floating(window) {
                Ok::<(), FloatWMError>(())
            } else if old(self)@.is_tiled(window) {
                Err(FloatWMError::NotFloatingWindow(window))
            } else {
                Err(FloatWMError::UnknownWindow(window))
            },
            final(self).same_layout(old(self)),
    {
        proof {
            self@.lemma_set_geometry(window, new_geometry);
        }
        match self.float_manager.set_window_geometry(window, new_geometry) {
            Ok(()) => Ok(()),
            Err(error) => {
                if self.tile_manager.is_managed(window) {
                    Err(FloatWMError::NotFloatingWindow(window))
                } else {
                    Err(error)
                }
            },
        }
    }
}

impl<T: TilingLayout> FloatAndTileTrait for FloatOrTileManager<T> {
    open spec fn floating(&self) -> Seq<Window> {
        ids(self@.floats)
    }

    fn get_floating_windows(&self) -> (list: Vec<Window>) {
        self.float_manager.get_windows()
    }

    fn get_tiled_windows(&self) -> (list: Vec<Window>) {
        self.tile_manager.get_windows()
    }

    /// The window gets the focus first. A window that the focus does not
    /// know, or that is neither a tile nor floating, is an error.
    fn toggle_floating(&mut self, window: Window, focus_manager: &mut FocusManager) -> (done:
        Result<(), FloatWMError>)
        ensures
            final(focus_manager)@ == old(focus_manager)@.focus(Some(window)),
            final(self)@ == if old(focus_manager)@.knows(window) {
                old(self)@.toggle(window)
            } else {
                old(self)@
            },
            done == if old(focus_manager)@.knows(window) && old(self)@.knows(window) {
                Ok::<(), FloatWMError>(())
            } else {
                Err(FloatWMError::UnknownWindow(window))
            },
            final(self).same_layout(old(self)),
    {
        proof {
            focus_manager@.lemma_focus(Some(window));
            self@.lemma_windows();
            self@.lemma_toggle(window);
            self@.toggle(window).lemma_windows();
        }
        self.change_mode(window, focus_manager)
    }
}

/// A window manager with tiles and, above them, floating windows.
#[derive(Clone, Debug)]
pub struct FloatWM {
    /// The manager of the focus.
    pub focus_manager: FocusManager,
    /// The manager of the tiles and the floating windows.
    pub float_or_tile_manager: FloatOrTileManager<VerticalLayout>,
}

impl FloatWM {
    /// Whether `w` is a window of this window manager.
    pub open spec fn knows(&self, w: Window) -> bool {
        self.float_or_tile_manager@.knows(w)
    }

    /// Whether focus and layout are consistent and know the same windows.
    pub open spec fn wf(&self) -> bool {
        &&& self.focus_manager.wf()
        &&& self.float_or_tile_manager.wf()
        &&& forall|w: Window|
            #![trigger self.focus_manager@.all().contains(w)]
            #![trigger self.float_or_tile_manager@.knows(w)]
            self.focus_manager@.all().contains(w) <==> self.float_or_tile_manager@.knows(w)
    }

    /// A window manager without windows.
    pub fn new(screen: Screen) -> (wm: FloatWM)
        ensures
            wm.wf(),
            wm.focus_manager@.all() == Seq::<Window>::empty(),
            wm.float_or_tile_manager@.tiles == Seq::<Window>::empty(),
            wm.float_or_tile_manager@.floats == Seq::<WindowWithInfo>::empty(),
            wm.float_or_tile_manager@.screen == screen,
    {
        FloatWM {
            focus_manager: FocusManager::new(),
            float_or_tile_manager: FloatOrTileManager::new(screen, VerticalLayout {  }),
        }
    }

    /// The windows, the focused one last.
    pub fn get_windows(&self) -> (list: Vec<Window>)
        requires
            self.wf(),
        ensures
            list@ == self.focus_manager@.all(),
            forall|w: Window| #[trigger] list@.contains(w) <==> self.knows(w),
    {
        self.focus_manager.get_windows()
    }

    /// Whether `window` is a window of this window manager.
    pub fn is_managed(&self, window: Window) -> (managed: bool)
        requires
            self.wf(),
        ensures
            managed == self.knows(window),
    {
        self.focus_manager.is_managed(window)
    }

    /// The focused window, if any.
    pub fn get_focused_window(&self) -> (focused: Option<Window>)
        ensures
            focused == self.focus_manager@.focused,
    {
        self.focus_manager.get_focused_window()
    }

    /// Adds a window in the mode it asks for and gives it the focus.
    pub fn add_window(&mut self, window_with_info: WindowWithInfo) -> (done: Result<
        (),
        FloatWMError,
    >)
        requires
            old(self).wf(),
        ensures
            final(self).wf(),
            final(self).float_or_tile_manager.same_layout(&old(self).float_or_tile_manager),
            final(self).focus_manager@ == old(self).focus_manager@.add(window_with_info.window),
            final(self).float_or_tile_manager@ == old(self).float_or_tile_manager@.add(
                window_with_info,
            ),
            done == if old(self).knows(window_with_info.window) {
                Err::<(), FloatWMError>(FloatWMError::AlReadyManagedWindow(window_with_info.window))
            } else {
                Ok(())
            },
    {
        proof {
            self.focus_manager@.lemma_add(window_with_info.window);
            self.float_or_tile_manager@.lemma_add(window_with_info);
            self.float_or_tile_manager@.lemma_windows();
        }
        match self.focus_manager.add_window(window_with_info) {
            Err(e) => Err(e.to_float_error()),
            Ok(()) => {
                match self.float_or_tile_manager.add_window(window_with_info) {
                    Ok(()) => Ok(()),
                    Err(e) => Err(e),
                }
            },
        }
    }

    /// Removes a window; when it had the focus, the window focused before
    /// it gets the focus.
    pub fn remove_window(&mut self, window: Window) -> (done: Result<(), FloatWMError>)
        requires
            old(self).wf(),
        ensures
            final(self).wf(),
            final(self).float_or_tile_manager.same_layout(&old(self).float_or_tile_manager),
            final(self).focus_manager@ == old(self).focus_manager@.remove(window),
            final(self).float_or_tile_manager@ == old(self).float_or_tile_manager@.remove(window),
            done == if old(self).knows(window) {
                Ok::<(), FloatWMError>(())
            } else {
                Err(FloatWMError::UnknownWindow(window))
            },
    {
        proof {
            self.focus_manager@.lemma_remove(window);
            self.float_or_tile_manager@.lemma_remove(window);
            self.float_or_tile_manager@.lemma_windows();
            if !self.float_or_tile_manager@.knows(window) {
                lemma_remove_unknown(self.float_or_tile_manager@, window);
            }
        }
        match self.focus_manager.remove_window(window) {
            Err(e) => Err(e.to_float_error()),
            Ok(()) => {
                match self.float_or_tile_manager.remove_window(window) {
                    Ok(()) => Ok(()),
                    Err(e) => Err(e),
                }
            },
        }
    }

    /// The focused window, and every tile with its rectangle followed by
    /// every floating window with its geometry.
    pub fn get_window_layout(&self) -> (layout: WindowLayout)
        requires
            self.wf(),
            self.float_or_tile_manager.can_place(),
        ensures
            layout.focused_window == self.focus_manager@.focused,
            layout.windows@ == self.float_or_tile_manager.whole_layout(),
    {
        WindowLayout {
            focused_window: self.get_focused_window(),
            windows: self.float_or_tile_manager.get_window_layout(),
        }
    }

    /// Gives the focus to `window`, or to no window; a floating window
    /// that gets the focus comes on top. An unknown window is an error and
    /// leaves no window focused.
    pub fn focus_window(&mut self, window: Option<Window>) -> (done: Result<(), FloatWMError>)
        requires
            old(self).wf(),
        ensures
            final(self).wf(),
            final(self).float_or_tile_manager.same_layout(&old(self).float_or_tile_manager),
            final(self).focus_manager@ == old(self).focus_manager@.focus(window),
            final(self).float_or_tile_manager@ == match window {
                Some(w) => old(self).float_or_tile_manager@.raise(w),
                None => old(self).float_or_tile_manager@,
            },
            done == if old(self).focus_manager@.can_focus(window) {
                Ok::<(), FloatWMError>(())
            } else {
                Err(FloatWMError::UnknownWindow(window.unwrap()))
            },
    {
        proof {
            self.focus_manager@.lemma_focus(window);
            match window {
                Some(w) => {
                    self.float_or_tile_manager@.lemma_raise(w);
                    if !self.float_or_tile_manager@.is_floating(w) {
                        lemma_raise_unknown(self.float_or_tile_manager@, w);
                    }
                },
                None => {},
            }
        }
        match self.focus_manager.focus_window(window) {
            Err(e) => Err(e.to_float_error()),
            Ok(()) => {
                match self.float_or_tile_manager.focus_shifted(window) {
                    Ok(()) => Ok(()),
                    Err(e) => Err(e),
                }
            },
        }
    }

    /// Moves the focus to the next or the previous window; a floating
    /// window that gets the focus comes on top.
    pub fn cycle_focus(&mut self, dir: PrevOrNext)
        requires
            old(self).wf(),
        ensures
            final(self).wf(),
            final(self).float_or_tile_manager.same_layout(&old(self).float_or_tile_manager),
            final(self).focus_manager@ == old(self).focus_manager@.cycle(dir),
            final(self).float_or_tile_manager@ == match old(self).focus_manager@.cycle(dir).focused {
                Some(w) => old(self).float_or_tile_manager@.raise(w),
                None => old(self).float_or_tile_manager@,
            },
    {
        proof {
            self.focus_manager@.lemma_cycle(dir);
            match self.focus_manager@.cycle(dir).focused {
                Some(w) => {
                    self.float_or_tile_manager@.lemma_raise(w);
                },
                None => {},
            }
        }
        self.focus_manager.cycle_focus(dir);
        let focused: Option<Window> = self.focus_manager.get_focused_window();
        match self.float_or_tile_manager.focus_shifted(focused) {
            Ok(()) => {},
            Err(_) => {},
        }
    }

    /// What is known of `window`: of a tile the rectangle the layout gives
    /// it, of a floating window its own information.
    pub fn get_window_info(&self, window: Window) -> (found: Result<WindowWithInfo, FloatWMError>)
        requires
            self.wf(),
            self.float_or_tile_manager.can_place(),
        ensures
            found == if self.knows(window) {
                Ok::<WindowWithInfo, FloatWMError>(self.float_or_tile_manager.reported(window))
            } else {
                Err(FloatWMError::UnknownWindow(window))
            },
    {
        proof {
            self.float_or_tile_manager@.lemma_windows();
        }
        self.float_or_tile_manager.get_window_info(window)
    }

    /// The screen.
    pub fn get_screen(&self) -> (screen: Screen)
        ensures
            screen == self.float_or_tile_manager@.screen,
    {
        self.float_or_tile_manager.get_screen()
    }

    /// Changes the screen and nothing else.
    pub fn resize_screen(&mut self, screen: Screen)
        requires
            old(self).wf(),
        ensures
            final(self).wf(),
            final(self).float_or_tile_manager.same_layout(&old(self).float_or_tile_manager),
            final(self).focus_manager == old(self).focus_manager,
            final(self).float_or_tile_manager@ == old(self).float_or_tile_manager@.resize(screen),
    {
        self.float_or_tile_manager.resize_screen(screen);
    }

    /// The master tile, if there is a tile.
    pub fn get_master_window(&self) -> (master: Option<Window>)
        requires
            self.wf(),
        ensures
            master == master_of(self.float_or_tile_manager@.tiles),
    {
        self.float_or_tile_manager.get_master_window()
    }

    /// Makes `window` the master tile. A tile gets the focus; a floating
    /// window takes the place of the master, which floats instead and gets
    /// the focus.
    pub fn swap_with_master(&mut self, window: Window) -> (done: Result<(), FloatWMError>)
        requires
            old(self).wf(),
        ensures
            final(self).wf(),
            final(self).float_or_tile_manager.same_layout(&old(self).float_or_tile_manager),
            final(self).float_or_tile_manager@ == master_swapped(
                old(self).float_or_tile_manager@,
                old(self).focus_manager@,
                window,
            ),
            final(self).focus_manager@ == master_swap_focus(
                old(self).float_or_tile_manager@,
                old(self).focus_manager@,
                window,
            ),
            done == if old(self).knows(window) {
                Ok::<(), FloatWMError>(())
            } else {
                Err(FloatWMError::UnknownWindow(window))
            },
    {
        proof {
            let a = self.float_or_tile_manager@;
            let f = self.focus_manager@;
            lemma_master_swapped(a, f, window);
            f.lemma_focus(Some(window));
            f.focus(Some(window)).lemma_focus(Some(displaced_master(a, window)));
            if a.tiles.len() > 0 {
                assert(a.tiles.contains(a.tiles[0]));
            }
        }
        self.float_or_tile_manager.swap_with_master(window, &mut self.focus_manager)
    }

    /// Exchanges the focused window, when it is a tile, with the tile
    /// before or after it.
    pub fn swap_windows(&mut self, dir: PrevOrNext)
        requires
            old(self).wf(),
        ensures
            final(self).wf(),
            final(self).float_or_tile_manager.same_layout(&old(self).float_or_tile_manager),
            final(self).focus_manager == old(self).focus_manager,
            final(self).float_or_tile_manager@ == match old(self).focus_manager@.focused {
                Some(w) => old(self).float_or_tile_manager@.swap(w, dir),
                None => old(self).float_or_tile_manager@,
            },
    {
        proof {
            match self.focus_manager@.focused {
                Some(w) => {
                    self.float_or_tile_manager@.lemma_swap(w, dir);
                },
                None => {},
            }
        }
        self.float_or_tile_manager.swap_windows(dir, &self.focus_manager)
    }

    /// The floating windows, the topmost last.
    pub fn get_floating_windows(&self) -> (list: Vec<Window>)
        requires
            self.wf(),
        ensures
            list@ == ids(self.float_or_tile_manager@.floats),
    {
        self.float_or_tile_manager.get_floating_windows()
    }

    /// Whether `window` floats.
    pub fn is_floating(&self, window: Window) -> (floating: bool)
        requires
            self.wf(),
        ensures
            floating == self.float_or_tile_manager@.is_floating(window),
    {
        self.float_or_tile_manager.is_floating(window)
    }

    /// Gives `window` the focus and changes its mode. An unknown window is
    /// an error and leaves no window focused.
    pub fn toggle_floating(&mut self, window: Window) -> (done: Result<(), FloatWMError>)
        requires
            old(self).wf(),
        ensures
            final(self).wf(),
            final(self).float_or_tile_manager.same_layout(&old(self).float_or_tile_manager),
            final(self).focus_manager@ == old(self).focus_manager@.focus(Some(window)),
            final(self).float_or_tile_manager@ == old(self).float_or_tile_manager@.toggle(window),
            done == if old(self).knows(window) {
                Ok::<(), FloatWMError>(())
            } else {
                Err(FloatWMError::UnknownWindow(window))
            },
    {
        proof {
            self.focus_manager@.lemma_focus(Some(window));
            self.float_or_tile_manager@.lemma_toggle(window);
        }
        self.float_or_tile_manager.toggle_floating(window, &mut self.focus_manager)
    }

    /// Gives the floating window `window` another geometry.
    pub fn set_window_geometry(&mut self, window: Window, new_geometry: Geometry) -> (done: Result<
        (),
        FloatWMError,
    >)
        requires
            old(self).wf(),
        ensures
            final(self).wf(),
            final(self).float_or_tile_manager.same_layout(&old(self).float_or_tile_manager),
            final(self).focus_manager == old(self).focus_manager,
            final(self).float_or_tile_manager@ == old(self).float_or_tile_manager@.set_geometry(
                window,
                new_geometry,
            ),
            done == if old(self).float_or_tile_manager@.is_floating(window) {
                Ok::<(), FloatWMError>(())
            } else if old(self).float_or_tile_manager@.is_tiled(window) {
                Err(FloatWMError::NotFloatingWindow(window))
            } else {
                Err(FloatWMError::UnknownWindow(window))
            },
    {
        proof {
            self.float_or_tile_manager@.lemma_set_geometry(window, new_geometry);
        }
        self.float_or_tile_manager.set_window_geometry(window, new_geometry)
    }
}

/// Removing a window that an arrangement does not know changes nothing.
pub proof fn lemma_remove_unknown(a: Arrangement, w: Window)
    requires
        a.wf(),
        !a.knows(w),
    ensures
        a.remove(w) == a,
{
    assert(a.remove(w).originals =~= a.originals);
}

/// Raising a window that does not float changes nothing.
pub proof fn lemma_raise_unknown(a: Arrangement, w: Window)
    requires
        !a.is_floating(w),
    ensures
        a.raise(w) == a,
{
}

} // verus!
