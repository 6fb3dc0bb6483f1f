//! The window manager that shows the focused window only, on the whole
//! screen.

use vstd::prelude::*;
use std::collections::BTreeMap;
use crate::common::Manager;
use crate::error::StandardError;
use crate::focus::FocusManager;
use crate::types::{FloatOrTile, Geometry, PrevOrNext, Screen, Window, WindowLayout, WindowWithInfo};

verus! {

broadcast use {vstd::std_specs::btree::group_btree_axioms, vstd::laws_cmp::group_laws_cmp};

/// What the fullscreen window manager shows: the focused window on the
/// whole screen, or nothing.
pub open spec fn fullscreen_layout(focused: Option<Window>, screen: Screen) -> Seq<
    (Window, Geometry),
> {
    match focused {
        Some(w) => seq![(w, screen.full())],
        None => Seq::empty(),
    }
}

/// What the fullscreen window manager reports of `window`: a tile on the
/// whole screen.
pub open spec fn fullscreen_info(window: Window, screen: Screen) -> WindowWithInfo {
    WindowWithInfo {
        window,
        geometry: screen.full(),
        float_or_tile: FloatOrTile::Tile,
        fullscreen: true,
    }
}

/// A window manager that shows the focused window on the whole screen and
/// no other window.
#[derive(Clone, Debug)]
pub struct FullscreenWM {
    /// The manager of the focus, which knows every window.
    pub focus_manager: FocusManager,
    /// The screen.
    pub screen: Screen,
    /// For each window, the information it was added with.
    pub window_to_info: BTreeMap<Window, WindowWithInfo>,
}

impl FullscreenWM {
    /// Whether `w` is a window of this window manager.
    pub open spec fn knows(&self, w: Window) -> bool {
        self.focus_manager@.knows(w)
    }

    /// Whether the focus is consistent and the information is that of the
    /// windows the focus knows.
    pub open spec fn wf(&self) -> bool {
        &&& self.focus_manager.wf()
        &&& forall|w: Window|
            #![trigger self.window_to_info@.contains_key(w)]
            #![trigger self.focus_manager@.all().contains(w)]
            self.window_to_info@.contains_key(w) <==> self.focus_manager@.all().contains(w)
        &&& forall|w: Window|
            self.window_to_info@.contains_key(w) ==> (#[trigger] self.window_to_info@[w]).window == w
    }

    /// A window manager without windows.
    pub fn new(screen: Screen) -> (wm: FullscreenWM)
        ensures
            wm.wf(),
            wm.focus_manager@.all() == Seq::<Window>::empty(),
            wm.screen == screen,
    {
        FullscreenWM {
            focus_manager: FocusManager::new(),
            screen,
            window_to_info: BTreeMap::new(),
        }
    }

    /// The windows, the focused one last.
    pub fn get_windows(&self) -> (list: Vec<Window>)
        requires
            self.wf(),
        ensures
            list@ == self.focus_manager@.all(),
    {
        self.focus_manager.get_windows()
    }

    /// Whether `window` is a window of this window manager.
    pub fn is_managed(&self, window: Window) -> (managed: bool)
        requires
            self.wf(),
        ensures
            managed == self.knows(window),
    {
        self.focus_manager.is_managed(window)
    }

    /// The focused window, if any.
    pub fn get_focused_window(&self) -> (focused: Option<Window>)
        ensures
            focused == self.focus_manager@.focused,
    {
        self.focus_manager.get_focused_window()
    }

    /// Adds a window and gives it the focus.
    pub fn add_window(&mut self, window_with_info: WindowWithInfo) -> (done: Result<
        (),
        StandardError,
    >)
        requires
            old(self).wf(),
        ensures
            final(self).wf(),
            final(self).screen == old(self).screen,
            final(self).focus_manager@ == old(self).focus_manager@.add(window_with_info.window),
            final(self).window_to_info@ == if old(self).knows(window_with_info.window) {
                old(self).window_to_info@
            } else {
                old(self).window_to_info@.insert(window_with_info.window, window_with_info)
            },
            done == if old(self).knows(window_with_info.window) {
                Err::<(), StandardError>(
                    StandardError::AlReadyManagedWindow(window_with_info.window),
                )
            } else {
                Ok(())
            },
    {
        proof {
            self.focus_manager@.lemma_add(window_with_info.window);
        }
        match self.focus_manager.add_window(window_with_info) {
            Err(e) => Err(e),
            Ok(()) => {
                self.window_to_info.insert(window_with_info.window, window_with_info);
                Ok(())
            },
        }
    }

    /// Removes a window; when it had the focus, the window focused before
    /// it gets the focus.
    pub fn remove_window(&mut self, window: Window) -> (done: Result<(), StandardError>)
        requires
            old(self).wf(),
        ensures
            final(self).wf(),
            final(self).screen == old(self).screen,
            final(self).focus_manager@ == old(self).focus_manager@.remove(window),
            final(self).window_to_info@ == old(self).window_to_info@.remove(window),
            done == if old(self).knows(window) {
                Ok::<(), StandardError>(())
            } else {
                Err(StandardError::UnknownWindow(window))
            },
    {
        proof {
            self.focus_manager@.lemma_remove(window);
        }
        match self.focus_manager.remove_window(window) {
            Err(e) => {
                assert(self.window_to_info@.remove(window) =~= self.window_to_info@);
                Err(e)
            },
            Ok(()) => {
                self.window_to_info.remove(&window);
                Ok(())
            },
        }
    }

    /// The focused window on the whole screen, or nothing.
    pub fn get_window_layout(&self) -> (layout: WindowLayout)
        ensures
            layout.focused_window == self.focus_manager@.focused,
            layout.windows@ == fullscreen_layout(self.focus_manager@.focused, self.screen),
    {
        let fullscreen_geometry = self.screen.to_geometry();
        match self.get_focused_window() {
            Some(w) => {
                let mut windows: Vec<(Window, Geometry)> = Vec::new();
                windows.push((w, fullscreen_geometry));
                assert(windows@ =~= seq![(w, self.screen.full())]);
                WindowLayout { focused_window: Some(w), windows }
            },
            None => WindowLayout::new(),
        }
    }

    /// Gives the focus to `window`, or to no window. An unknown window is
    /// an error and leaves no window focused.
    pub fn focus_window(&mut self, window: Option<Window>) -> (done: Result<(), StandardError>)
        requires
            old(self).wf(),
        ensures
            final(self).wf(),
            final(self).screen == old(self).screen,
            final(self).window_to_info@ == old(self).window_to_info@,
            final(self).focus_manager@ == old(self).focus_manager@.focus(window),
            done == if old(self).focus_manager@.can_focus(window) {
                Ok::<(), StandardError>(())
            } else {
                Err(StandardError::UnknownWindow(window.unwrap()))
            },
    {
        proof {
            self.focus_manager@.lemma_focus(window);
        }
        self.focus_manager.focus_window(window)
    }

    /// Moves the focus to the next or the previous window.
    pub fn cycle_focus(&mut self, dir: PrevOrNext)
        requires
            old(self).wf(),
        ensures
            final(self).wf(),
            final(self).screen == old(self).screen,
            final(self).window_to_info@ == old(self).window_to_info@,
            final(self).focus_manager@ == old(self).focus_manager@.cycle(dir),
    {
        proof {
            self.focus_manager@.lemma_cycle(dir);
        }
        self.focus_manager.cycle_focus(dir)
    }

    /// What is known of `window`: a tile on the whole screen.
    pub fn get_window_info(&self, window: Window) -> (found: Result<WindowWithInfo, StandardError>)
        requires
            self.wf(),
        ensures
            found == if self.knows(window) {
                Ok::<WindowWithInfo, StandardError>(fullscreen_info(window, self.screen))
            } else {
                Err(StandardError::UnknownWindow(window))
            },
    {
        let window_info = self.window_to_info.get(&window);
        match window_info {
            None => Err(StandardError::UnknownWindow(window)),
            Some(w) => Ok(
                WindowWithInfo {
                    window: w.window,
                    geometry: self.screen.to_geometry(),
                    float_or_tile: FloatOrTile::Tile,
                    fullscreen: true,
                },
            ),
        }
    }

    /// The screen.
    pub fn get_screen(&self) -> (screen: Screen)
        ensures
            screen == self.screen,
    {
        self.screen
    }

    /// Changes the screen and nothing else.
    pub fn resize_screen(&mut self, screen: Screen)
        ensures
            final(self).screen == screen,
            final(self).focus_manager == old(self).focus_manager,
            final(self).window_to_info == old(self).window_to_info,
    {
        self.screen = screen
    }
}

} // verus!
