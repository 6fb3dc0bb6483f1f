//! The capabilities that managers share.

use vstd::prelude::*;
use crate::focus::FocusManager;
use crate::layout::master_of;
use crate::order::without;
use crate::types::{Geometry, PrevOrNext, Screen, Window, WindowWithInfo};

verus! {

/// Whether `list` holds `window`.
pub fn list_holds(list: &Vec<Window>, window: Window) -> (found: bool)
    ensures
        found == list@.contains(window),
{
    let n: usize = list.len();
    let mut i: usize = 0;
    while i < n
        invariant
            n == list@.len(),
            i <= n,
            forall|j: int| 0 <= j < i ==> list@[j] != window,
        decreases n - i,
    {
        if list[i] == window {
            return true;
        }
        i += 1;
    }
    false
}

/// A manager of a set of windows.
pub trait Manager: Sized {
    /// The errors of this manager.
    type Error;

    /// The error for a window that the manager does not know.
    spec fn unknown(window: Window) -> Self::Error;

    /// The error for a window that the manager knows already.
    spec fn already(window: Window) -> Self::Error;

    /// Whether the manager's state is consistent.
    spec fn wf(&self) -> bool;

    /// The windows of this manager, in the order in which it lists them.
    spec fn windows(&self) -> Seq<Window>;

    /// No window is listed twice.
    proof fn lemma_windows_distinct(&self)
        requires
            self.wf(),
        ensures
            self.windows().no_duplicates(),
    ;

    /// The windows of this manager.
    fn get_windows(&self) -> (list: Vec<Window>)
        requires
            self.wf(),
        ensures
            list@ == self.windows(),
    ;

    /// Adds a window that the manager does not know yet.
    fn add_window(&mut self, window_with_info: WindowWithInfo) -> (done: Result<(), Self::Error>)
        requires
            old(self).wf(),
        ensures
            final(self).wf(),
            done is Ok <==> !old(self).windows().contains(window_with_info.window),
            done is Ok ==> forall|w: Window|
                #![trigger final(self).windows().contains(w)]
                #![trigger old(self).windows().contains(w)]
                final(self).windows().contains(w) <==> old(self).windows().contains(w) || w
                    == window_with_info.window,
            done is Err ==> done == Err::<(), Self::Error>(Self::already(window_with_info.window))
                && final(self).windows() == old(self).windows(),
    ;

    /// Removes a window that the manager knows.
    fn remove_window(&mut self, window: Window) -> (done: Result<(), Self::Error>)
        requires
            old(self).wf(),
        ensures
            final(self).wf(),
            done is Ok <==> old(self).windows().contains(window),
            done is Err ==> done == Err::<(), Self::Error>(Self::unknown(window)),
            final(self).windows() == without(old(self).windows(), window),
    ;

    /// Whether the manager knows `window`.
    fn is_managed(&self, window: Window) -> (managed: bool)
        requires
            self.wf(),
        ensures
            managed == self.windows().contains(window),
    {
        let list = self.get_windows();
        list_holds(&list, window)
    }
}

/// A manager that gives each of its visible windows a geometry.
pub trait LayoutManager: Manager {
    /// The screen the manager lays its windows out on.
    spec fn screen(&self) -> Screen;

    /// Whether the manager can place its visible windows on its screen with
    /// every coordinate and size in the range of a `Geometry`.
    spec fn placeable(&self) -> bool;

    /// The visible windows with their geometries, bottom first.
    spec fn layout(&self) -> Seq<(Window, Geometry)>;

    /// What the manager reports of `window`; meaningful for a window it
    /// knows.
    spec fn info(&self, window: Window) -> WindowWithInfo;

    /// The visible windows with their geometries, bottom first.
    fn get_window_layout(&self) -> (list: Vec<(Window, Geometry)>)
        requires
            self.wf(),
            self.placeable(),
        ensures
            list@ == self.layout(),
    ;

    /// Reacts to the focus having gone to `window`. The manager keeps its
    /// windows and its screen.
    fn focus_shifted(&mut self, window: Option<Window>) -> (done: Result<(), Self::Error>)
        requires
            old(self).wf(),
        ensures
            final(self).wf(),
            final(self).screen() == old(self).screen(),
            forall|w: Window|
                #![trigger final(self).windows().contains(w)]
                #![trigger old(self).windows().contains(w)]
                final(self).windows().contains(w) <==> old(self).windows().contains(w),
            done is Err ==> window.is_some() && done == Err::<(), Self::Error>(
                Self::unknown(window.unwrap()),
            ),
    ;

    /// What the manager reports of `window`.
    fn get_window_info(&self, window: Window) -> (found: Result<WindowWithInfo, Self::Error>)
        requires
            self.wf(),
            self.placeable(),
        ensures
            found == if self.windows().contains(window) {
                Ok::<WindowWithInfo, Self::Error>(self.info(window))
            } else {
                Err(Self::unknown(window))
            },
    ;

    /// The screen the manager lays its windows out on.
    fn get_screen(&self) -> (screen: Screen)
        ensures
            screen == self.screen(),
    ;

    /// Changes the screen and nothing else.
    fn resize_screen(&mut self, screen: Screen)
        requires
            old(self).wf(),
        ensures
            final(self).wf(),
            final(self).screen() == screen,
            final(self).windows() == old(self).windows(),
    ;
}

/// A manager with tiles.
pub trait TilingTrait: LayoutManager {
    /// The tiles, the master first.
    spec fn tiled(&self) -> Seq<Window>;

    /// The master tile, if there is a tile.
    fn get_master_window(&self) -> (master: Option<Window>)
        requires
            self.wf(),
        ensures
            master == master_of(self.tiled()),
    ;

    /// Makes `window` the master tile and gives it the focus. Both
    /// managers keep their windows.
    fn swap_with_master(&mut self, window: Window, focus_manager: &mut FocusManager) -> (done:
        Result<(), Self::Error>)
        requires
            old(self).wf(),
            old(focus_manager).wf(),
        ensures
            final(self).wf(),
            final(focus_manager).wf(),
            final(self).screen() == old(self).screen(),
            forall|w: Window|
                #![trigger final(self).windows().contains(w)]
                #![trigger old(self).windows().contains(w)]
                final(self).windows().contains(w) <==> old(self).windows().contains(w),
            forall|w: Window|
                #![trigger final(focus_manager).windows().contains(w)]
                #![trigger old(focus_manager).windows().contains(w)]
                final(focus_manager).windows().contains(w) <==> old(focus_manager).windows().contains(
                    w,
                ),
    ;

    /// Exchanges the focused window, when it is a tile, with the tile
    /// before or after it. The manager keeps its windows.
    fn swap_windows(&mut self, dir: PrevOrNext, focus_manager: &FocusManager)
        requires
            old(self).wf(),
        ensures
            final(self).wf(),
            final(self).screen() == old(self).screen(),
            forall|w: Window|
                #![trigger final(self).windows().contains(w)]
                #![trigger old(self).windows().contains(w)]
                final(self).windows().contains(w) <==> old(self).windows().contains(w),
    ;
}

/// A manager with floating windows.
pub trait FloatTrait: LayoutManager {
    /// Gives the floating window `window` another geometry. The manager
    /// keeps its windows and its screen.
    fn set_window_geometry(&mut self, window: Window, new_geometry: Geometry) -> (done: Result<
        (),
        Self::Error,
    >)
        requires
            old(self).wf(),
        ensures
            final(self).wf(),
            final(self).screen() == old(self).screen(),
            final(self).windows() == old(self).windows(),
    ;
}

/// A manager with tiles and floating windows.
pub trait FloatAndTileTrait: TilingTrait + FloatTrait {
    /// The floating windows, the topmost last.
    spec fn floating(&self) -> Seq<Window>;

    /// The floating windows, the topmost last.
    fn get_floating_windows(&self) -> (list: Vec<Window>)
        requires
            self.wf(),
        ensures
            list@ == self.floating(),
    ;

    /// The tiles, the master first.
    fn get_tiled_windows(&self) -> (list: Vec<Window>)
        requires
            self.wf(),
        ensures
            list@ == self.tiled(),
    ;

    /// Gives `window` the focus and makes it a tile when it floats, a
    /// floating window when it is a tile. Both managers keep their windows.
    fn toggle_floating(&mut self, window: Window, focus_manager: &mut FocusManager) -> (done:
        Result<(), Self::Error>)
        requires
            old(self).wf(),
            old(focus_manager).wf(),
        ensures
            final(self).wf(),
            final(focus_manager).wf(),
            final(self).screen() == old(self).screen(),
            forall|w: Window|
                #![trigger final(self).windows().contains(w)]
                #![trigger old(self).windows().contains(w)]
                final(self).windows().contains(w) <==> old(self).windows().contains(w),
            forall|w: Window|
                #![trigger final(focus_manager).windows().contains(w)]
                #![trigger old(focus_manager).windows().contains(w)]
                final(focus_manager).windows().contains(w) <==> old(focus_manager).windows().contains(
                    w,
                ),
    ;

    /// Whether `window` floats.
    fn is_floating(&self, window: Window) -> (floating: bool)
        requires
            self.wf(),
        ensures
            floating == self.floating().contains(window),
    {
        let list = self.get_floating_windows();
        list_holds(&list, window)
    }

    /// Whether `window` is a tile.
    fn is_tiled(&self, window: Window) -> (tiled: bool)
        requires
            self.wf(),
        ensures
            tiled == self.tiled().contains(window),
    {
        let list = self.get_tiled_windows();
        list_holds(&list, window)
    }
}

} // verus!
