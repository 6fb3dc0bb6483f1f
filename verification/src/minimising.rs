//! Minimised windows: hidden from the layout, but not forgotten.

use vstd::prelude::*;
use crate::arrangement::{
    displaced_master, lemma_master_swapped, master_swap_focus, master_swap_outcome,
    master_swapped, Arrangement,
};
use crate::common::{FloatAndTileTrait, FloatTrait, LayoutManager, Manager, TilingTrait};
use crate::error::FloatWMError;
use crate::floating::FloatOrTileManager;
use crate::focus::{FocusManager, FocusView};
use crate::layout::{master_of, TilingLayout, VerticalLayout};
use crate::infos::{
    dropped, entry_of, find, ids, lemma_dropped, lemma_entry, lemma_pushed, windows_of,
};
use crate::order::{lemma_position, lemma_position_is, position_of, without};
use crate::types::{Geometry, PrevOrNext, Screen, Window, WindowLayout, WindowWithInfo};

verus! {

/// An arrangement of visible windows and a list of minimised ones.
pub struct MinimiseView {
    /// The visible windows.
    pub shown: Arrangement,
    /// The minimised windows, in the order in which they were minimised,
    /// each with what was reported of it when it was.
    pub hidden: Seq<WindowWithInfo>,
}

impl MinimiseView {
    /// Whether `w` is minimised.
    pub open spec fn is_minimised(self, w: Window) -> bool {
        ids(self.hidden).contains(w)
    }

    /// Whether `w` is visible or minimised.
    pub open spec fn knows(self, w: Window) -> bool {
        self.shown.knows(w) || self.is_minimised(w)
    }

    /// The visible windows followed by the minimised ones.
    pub open spec fn windows(self) -> Seq<Window> {
        self.shown.windows() + ids(self.hidden)
    }

    /// Whether every window is either visible, in one mode, or minimised,
    /// once.
    pub open spec fn wf(self) -> bool {
        &&& self.shown.wf()
        &&& ids(self.hidden).no_duplicates()
        &&& forall|w: Window| !(self.shown.knows(w) && #[trigger] ids(self.hidden).contains(w))
    }

    /// The view with a new visible window; a window that is known already
    /// changes nothing.
    pub open spec fn add(self, info: WindowWithInfo) -> MinimiseView {
        if self.knows(info.window) {
            self
        } else {
            MinimiseView { shown: self.shown.add(info), hidden: self.hidden }
        }
    }

    /// The view without `w`.
    pub open spec fn remove(self, w: Window) -> MinimiseView {
        if self.shown.knows(w) {
            MinimiseView { shown: self.shown.remove(w), hidden: self.hidden }
        } else {
            MinimiseView { shown: self.shown, hidden: dropped(self.hidden, w) }
        }
    }

    /// The view with the visible window `w` minimised and `info` kept of
    /// it.
    pub open spec fn minimise(self, w: Window, info: WindowWithInfo) -> MinimiseView {
        MinimiseView { shown: self.shown.remove(w), hidden: self.hidden.push(info) }
    }

    /// The view with the minimised window `w` visible again, in the mode
    /// and with the geometry that were kept of it.
    pub open spec fn restore(self, w: Window) -> MinimiseView {
        if self.is_minimised(w) {
            MinimiseView {
                shown: self.shown.add(entry_of(self.hidden, w)),
                hidden: dropped(self.hidden, w),
            }
        } else {
            self
        }
    }

    /// The view with other visible windows.
    pub open spec fn with_shown(self, shown: Arrangement) -> MinimiseView {
        MinimiseView { shown, hidden: self.hidden }
    }

    /// The view after the focus has gone to `target`: a minimised target
    /// becomes visible, and a floating one comes on top.
    pub open spec fn focus_shift(self, target: Option<Window>) -> MinimiseView {
        match target {
            Some(w) => self.restore(w).with_shown(self.restore(w).shown.raise(w)),
            None => self,
        }
    }

    /// The focus after `w` has been made visible: on `w` when it was
    /// minimised, unchanged otherwise.
    pub open spec fn revealed_focus(self, f: FocusView, w: Window) -> FocusView {
        if self.is_minimised(w) {
            f.focus(Some(w))
        } else {
            f
        }
    }

    /// Whether `w` can be made visible: it is visible, or the focus knows
    /// it.
    pub open spec fn can_reveal(self, f: FocusView, w: Window) -> bool {
        self.is_minimised(w) ==> f.knows(w)
    }

    /// The windows are distinct, and they are the visible and the
    /// minimised ones.
    pub proof fn lemma_windows(self)
        requires
            self.wf(),
        ensures
            self.windows().no_duplicates(),
            forall|w: Window| #[trigger] self.windows().contains(w) <==> self.knows(w),
    {
        self.shown.lemma_windows();
        let a = self.shown.windows();
        let b = ids(self.hidden);
        let s = self.windows();
        assert forall|w: Window| #[trigger] s.contains(w) <==> self.knows(w) by {
            if s.contains(w) {
                let i = choose|i: int| 0 <= i < s.len() && s[i] == w;
                if i < a.len() {
                    assert(a[i] == w);
                } else {
                    assert(b[i - a.len()] == w);
                }
            }
            if a.contains(w) {
                let i = choose|i: int| 0 <= i < a.len() && a[i] == w;
                assert(s[i] == w);
            }
            if b.contains(w) {
                let i = choose|i: int| 0 <= i < b.len() && b[i] == w;
                assert(s[i + a.len()] == w);
            }
        }
        assert forall|i: int, j: int| 0 <= i < s.len() && 0 <= j < s.len() && i != j implies s[i]
            != s[j] by {
            if i < a.len() && j >= a.len() {
                assert(a.contains(s[i]));
                assert(b[j - a.len()] == s[j]);
                assert(b.contains(s[j]));
            }
            if j < a.len() && i >= a.len() {
                assert(a.contains(s[j]));
                assert(b[i - a.len()] == s[i]);
                assert(b.contains(s[i]));
            }
        }
    }

    /// Adding a window keeps the view consistent and adds this window.
    pub proof fn lemma_add(self, info: WindowWithInfo)
        requires
            self.wf(),
        ensures
            self.add(info).wf(),
            forall|w: Window|
                #![trigger self.add(info).knows(w)]
                self.add(info).knows(w) <==> self.knows(w) || w == info.window,
    {
        self.shown.lemma_add(info);
    }

    /// Removing a window keeps the view consistent and takes this window
    /// out.
    pub proof fn lemma_remove(self, w: Window)
        requires
            self.wf(),
        ensures
            self.remove(w).wf(),
            self.remove(w).windows() == without(self.windows(), w),
            forall|x: Window|
                #![trigger self.remove(w).knows(x)]
                self.remove(w).knows(x) <==> self.knows(x) && x != w,
    {
        self.shown.lemma_remove(w);
        self.shown.lemma_windows();
        lemma_dropped(self.hidden, w);
        let a = self.shown.windows();
        let b = ids(self.hidden);
        let s = self.windows();
        if self.shown.knows(w) {
            lemma_position(a, w);
            let p = position_of(a, w);
            assert(s[p] == w);
            assert forall|j: int| 0 <= j < p implies s[j] != w by {
                assert(s[j] == a[j]);
            }
            lemma_position_is(s, w, p);
            assert(self.remove(w).windows() =~= s.remove(p));
        } else if self.is_minimised(w) {
            lemma_position(b, w);
            let p = position_of(b, w);
            let k = a.len() + p;
            assert(s[k] == w);
            assert forall|j: int| 0 <= j < k implies s[j] != w by {
                if j < a.len() {
                    assert(a.contains(s[j]));
                } else {
                    assert(s[j] == b[j - a.len()]);
                }
            }
            lemma_position_is(s, w, k);
            assert(self.remove(w).windows() =~= s.remove(k));
        } else {
            self.lemma_windows();
        }
    }

    /// Minimising a visible window keeps the view consistent and its
    /// windows.
    pub proof fn lemma_minimise(self, w: Window, info: WindowWithInfo)
        requires
            self.wf(),
            self.shown.knows(w),
            info.window == w,
        ensures
            self.minimise(w, info).wf(),
            self.minimise(w, info).is_minimised(w),
            !self.minimise(w, info).shown.knows(w),
            forall|x: Window|
                #![trigger self.minimise(w, info).knows(x)]
                self.minimise(w, info).knows(x) <==> self.knows(x),
    {
        self.shown.lemma_remove(w);
        lemma_pushed(self.hidden, info);
        assert(ids(self.hidden.push(info))[self.hidden.len() as int] == w);
    }

    /// Restoring a minimised window keeps the view consistent and its
    /// windows.
    pub proof fn lemma_restore(self, w: Window)
        requires
            self.wf(),
        ensures
            self.restore(w).wf(),
            !self.restore(w).is_minimised(w),
            self.is_minimised(w) ==> self.restore(w).shown.knows(w),
            forall|x: Window|
                #![trigger self.restore(w).knows(x)]
                self.restore(w).knows(x) <==> self.knows(x),
    {
        lemma_dropped(self.hidden, w);
        if self.is_minimised(w) {
            let info = entry_of(self.hidden, w);
            lemma_entry(self.hidden, w);
            self.shown.lemma_add(info);
        }
    }
}

/// A manager of minimised windows.
#[derive(Clone, Debug)]
pub struct MinimiseAssistantManager {
    /// The minimised windows, in the order in which they were minimised,
    /// each with what was last reported of it.
    pub minis: Vec<WindowWithInfo>,
}

impl MinimiseAssistantManager {
    /// A manager without windows.
    pub fn new() -> (manager: MinimiseAssistantManager)
        ensures
            manager.wf(),
            manager.minis@ == Seq::<WindowWithInfo>::empty(),
    {
        MinimiseAssistantManager { minis: Vec::new() }
    }

    /// What was kept of the minimised window `window`.
    pub fn get_window_info(&self, window: Window) -> (found: Result<WindowWithInfo, FloatWMError>)
        ensures
            found == if ids(self.minis@).contains(window) {
                Ok::<WindowWithInfo, FloatWMError>(entry_of(self.minis@, window))
            } else {
                Err(FloatWMError::UnknownWindow(window))
            },
    {
        match find(&self.minis, window) {
            None => Err(FloatWMError::UnknownWindow(window)),
            Some(index) => Ok(self.minis[index]),
        }
    }
}

impl Manager for MinimiseAssistantManager {
    type Error = FloatWMError;

    open spec fn unknown(window: Window) -> FloatWMError {
        FloatWMError::UnknownWindow(window)
    }

    open spec fn already(window: Window) -> FloatWMError {
        FloatWMError::AlReadyManagedWindow(window)
    }

    open spec fn wf(&self) -> bool {
        ids(self.minis@).no_duplicates()
    }

    open spec fn windows(&self) -> Seq<Window> {
        ids(self.minis@)
    }

    proof fn lemma_windows_distinct(&self) {
    }

    fn get_windows(&self) -> (list: Vec<Window>) {
        windows_of(&self.minis)
    }

    /// The new window comes last.
    fn add_window(&mut self, window_with_info: WindowWithInfo) -> (done: Result<(), FloatWMError>)
        ensures
            final(self).minis@ == if ids(old(self).minis@).contains(window_with_info.window) {
                old(self).minis@
            } else {
                old(self).minis@.push(window_with_info)
            },
    {
        if self.is_managed(window_with_info.window) {
            Err(FloatWMError::AlReadyManagedWindow(window_with_info.window))
        } else {
            proof {
                lemma_pushed(self.minis@, window_with_info);
            }
            self.minis.push(window_with_info);
            Ok(())
        }
    }

    fn remove_window(&mut self, window: Window) -> (done: Result<(), FloatWMError>)
        ensures
            final(self).minis@ == dropped(old(self).minis@, window),
    {
        proof {
            lemma_dropped(self.minis@, window);
        }
        match find(&self.minis, window) {
            None => Err(FloatWMError::UnknownWindow(window)),
            Some(index) => {
                self.minis.remove(index);
                Ok(())
            },
        }
    }
}

/// A manager of tiles and floating windows that can minimise them.
#[derive(Clone, Debug)]
pub struct MinimiseManager<T: TilingLayout> {
    /// The manager of the visible windows.
    pub layout_manager: FloatOrTileManager<T>,
    /// The manager of the minimised windows.
    pub minimise_assistant_manager: MinimiseAssistantManager,
}

impl<T: TilingLayout> View for MinimiseManager<T> {
    type V = MinimiseView;

    open spec fn view(&self) -> MinimiseView {
        MinimiseView {
            shown: self.layout_manager@,
            hidden: self.minimise_assistant_manager.minis@,
        }
    }
}

impl<T: TilingLayout> MinimiseManager<T> {
    /// A manager of the windows of `layout_manager`, none of them
    /// minimised.
    pub fn new(layout_manager: FloatOrTileManager<T>) -> (manager: MinimiseManager<T>)
        requires
            layout_manager.wf(),
        ensures
            manager.wf(),
            manager.layout_manager == layout_manager,
            manager@.hidden == Seq::<WindowWithInfo>::empty(),
    {
        MinimiseManager {
            layout_manager,
            minimise_assistant_manager: MinimiseAssistantManager::new(),
        }
    }

    /// Whether two managers place their tiles with the same layout.
    pub open spec fn same_layout(&self, other: &Self) -> bool {
        self.layout_manager.same_layout(&other.layout_manager)
    }

    /// What is reported of `window`: for a visible window what the
    /// manager of the visible windows reports, for a minimised one what
    /// was kept of it.
    pub open spec fn reported(&self, window: Window) -> WindowWithInfo {
        if self@.shown.knows(window) {
            self.layout_manager.reported(window)
        } else {
            entry_of(self@.hidden, window)
        }
    }

    /// The minimised windows, in the order in which they were minimised.
    pub fn get_minimised_windows(&self) -> (list: Vec<Window>)
        requires
            self.wf(),
        ensures
            list@ == ids(self@.hidden),
    {
        self.minimise_assistant_manager.get_windows()
    }

    /// Makes the minimised window `window` visible again.
    pub fn restore(&mut self, window: Window) -> (done: Result<(), FloatWMError>)
        requires
            old(self).wf(),
            old(self)@.is_minimised(window),
        ensures
            final(self).wf(),
            final(self)@ == old(self)@.restore(window),
            done == Ok::<(), FloatWMError>(()),
            final(self).same_layout(old(self)),
    {
        proof {
            self@.lemma_restore(window);
            self@.shown.lemma_windows();
            lemma_entry(self@.hidden, window);
        }
        match self.minimise_assistant_manager.get_window_info(window) {
            Err(e) => Err(e),
            Ok(info) => {
                match self.minimise_assistant_manager.remove_window(window) {
                    Err(e) => Err(e),
                    Ok(()) => {
                        match self.layout_manager.add_window(info) {
                            Ok(()) => Ok(()),
                            Err(e) => Err(e),
                        }
                    },
                }
            },
        }
    }

    /// Minimises the visible window `window`, keeping what is reported of
    /// it.
    pub fn minimise(&mut self, window: Window) -> (done: Result<(), FloatWMError>)
        requires
            old(self).wf(),
            old(self)@.shown.knows(window),
            old(self).layout_manager.can_place(),
        ensures
            final(self).wf(),
            final(self)@ == old(self)@.minimise(window, old(self).layout_manager.reported(window)),
            done == Ok::<(), FloatWMError>(()),
            final(self).same_layout(old(self)),
    {
        proof {
            self@.shown.lemma_windows();
            self@.shown.lemma_remove(window);
            if self@.shown.is_floating(window) {
                lemma_entry(self@.shown.floats, window);
            }
            assert(self.layout_manager.reported(window).window == window);
            self@.lemma_minimise(window, self.layout_manager.reported(window));
        }
        match self.layout_manager.get_window_info(window) {
            Err(e) => Err(e),
            Ok(info) => {
                match self.layout_manager.remove_window(window) {
                    Err(e) => Err(e),
                    Ok(()) => {
                        match self.minimise_assistant_manager.add_window(info) {
                            Ok(()) => Ok(()),
                            Err(e) => Err(e),
                        }
                    },
                }
            },
        }
    }

    /// Makes `window` visible, and focused, when it is minimised.
    pub fn maximise_if_minimised(&mut self, window: Window, focus_manager: &mut FocusManager) -> (done:
        Result<(), FloatWMError>)
        requires
            old(self).wf(),
            old(focus_manager).wf(),
        ensures
            final(self).wf(),
            final(focus_manager).wf(),
            final(self)@ == old(self)@.restore(window),
            final(focus_manager)@ == old(self)@.revealed_focus(old(focus_manager)@, window),
            done == if old(self)@.can_reveal(old(focus_manager)@, window) {
                Ok::<(), FloatWMError>(())
            } else {
                Err(FloatWMError::UnknownWindow(window))
            },
            final(self).same_layout(old(self)),
    {
        if self.minimise_assistant_manager.is_managed(window) {
            self.toggle_minimised(window, focus_manager)
        } else {
            Ok(())
        }
    }

    /// Minimises a visible window, taking the focus from it if it has it;
    /// makes a minimised window visible again and gives it the focus.
    pub fn toggle_minimised(&mut self, window: Window, focus_manager: &mut FocusManager) -> (done:
        Result<(), FloatWMError>)
        requires
            old(self).wf(),
            old(focus_manager).wf(),
            old(self)@.shown.knows(window) ==> old(self).layout_manager.can_place(),
        ensures
            final(self).wf(),
            final(focus_manager).wf(),
            final(self)@ == if old(self)@.is_minimised(window) {
                old(self)@.restore(window)
            } else if old(self)@.shown.knows(window) {
                old(self)@.minimise(window, old(self).layout_manager.reported(window))
            } else {
                old(self)@
            },
            final(focus_manager)@ == if old(self)@.is_minimised(window) {
                old(focus_manager)@.focus(Some(window))
            } else if old(self)@.shown.knows(window) && old(focus_manager)@.focused == Some(
                window,
            ) {
                old(focus_manager)@.focus(None)
            } else {
                old(focus_manager)@
            },
            done == if old(self)@.is_minimised(window) {
                if old(focus_manager)@.knows(window) {
                    Ok::<(), FloatWMError>(())
                } else {
                    Err(FloatWMError::UnknownWindow(window))
                }
            } else if old(self)@.shown.knows(window) {
                Ok::<(), FloatWMError>(())
            } else {
                Err(FloatWMError::UnknownWindow(window))
            },
            final(self).same_layout(old(self)),
    {
        proof {
            self@.shown.lemma_windows();
            focus_manager@.lemma_focus(Some(window));
            focus_manager@.lemma_focus(None);
        }
        if self.minimise_assistant_manager.is_managed(window) {
            match self.restore(window) {
                Err(e) => Err(e),
                Ok(()) => {
                    match focus_manager.focus_window(Some(window)) {
                        Ok(()) => Ok(()),
                        Err(e) => Err(e.to_float_error()),
                    }
                },
            }
        } else if self.layout_manager.is_managed(window) {
            match self.minimise(window) {
                Err(e) => Err(e),
                Ok(()) => {
                    match focus_manager.get_focused_window() {
                        None => Ok(()),
                        Some(w) => {
                            if window == w {
                                match focus_manager.focus_window(None) {
                                    Ok(()) => Ok(()),
                                    Err(e) => Err(e.to_float_error()),
                                }
                            } else {
                                Ok(())
                            }
                        },
                    }
                },
            }
        } else {
            Err(FloatWMError::UnknownWindow(window))
        }
    }
}

impl<T: TilingLayout> Manager for MinimiseManager<T> {
    type Error = FloatWMError;

    open spec fn unknown(window: Window) -> FloatWMError {
        FloatWMError::UnknownWindow(window)
    }

    open spec fn already(window: Window) -> FloatWMError {
        FloatWMError::AlReadyManagedWindow(window)
    }

    open spec fn wf(&self) -> bool {
        self@.wf() && self.layout_manager.tile_manager.screen
            == self.layout_manager.float_manager.screen
    }

    open spec fn windows(&self) -> Seq<Window> {
        self@.windows()
    }

    proof fn lemma_windows_distinct(&self) {
        self@.lemma_windows();
    }

    fn get_windows(&self) -> (list: Vec<Window>) {
        let mut windows: Vec<Window> = self.layout_manager.get_windows();
        let mut minimised: Vec<Window> = self.minimise_assistant_manager.get_windows();
        windows.append(&mut minimised);
        windows
    }

    /// The new window is visible; a window that is visible or minimised
    /// already is refused.
    fn add_window(&mut self, window_with_info: WindowWithInfo) -> (done: Result<(), FloatWMError>)
        ensures
            final(self)@ == old(self)@.add(window_with_info),
            final(self).same_layout(old(self)),
    {
        proof {
            self@.lemma_windows();
            self@.shown.lemma_windows();
            self@.lemma_add(window_with_info);
            self@.add(window_with_info).lemma_windows();
        }
        if self.minimise_assistant_manager.is_managed(window_with_info.window) {
            Err(FloatWMError::AlReadyManagedWindow(window_with_info.window))
        } else {
            self.layout_manager.add_window(window_with_info)
        }
    }

    fn remove_window(&mut self, window: Window) -> (done: Result<(), FloatWMError>)
        ensures
            final(self)@ == old(self)@.remove(window),
            final(self).same_layout(old(self)),
    {
        proof {
            self@.lemma_windows();
            self@.shown.lemma_windows();
            self@.lemma_remove(window);
        }
        match self.layout_manager.remove_window(window) {
            Ok(()) => Ok(()),
            Err(_) => {
                proof {
                    self@.shown.lemma_remove(window);
                    assert(self@.shown.originals =~= old(self)@.shown.originals);
                    assert(self@.shown == old(self)@.shown);
                }
                self.minimise_assistant_manager.remove_window(window)
            },
        }
    }
}

impl<T: TilingLayout> LayoutManager for MinimiseManager<T> {
    open spec fn screen(&self) -> Screen {
        self@.shown.screen
    }

    open spec fn placeable(&self) -> bool {
        self.layout_manager.can_place()
    }

    open spec fn layout(&self) -> Seq<(Window, Geometry)> {
        self.layout_manager.whole_layout()
    }

    open spec fn info(&self, window: Window) -> WindowWithInfo {
        self.reported(window)
    }

    /// Minimised windows are not part of the layout.
    fn get_window_layout(&self) -> (list: Vec<(Window, Geometry)>) {
        self.layout_manager.get_window_layout()
    }

    /// A minimised window that gets the focus becomes visible first.
    fn focus_shifted(&mut self, window: Option<Window>) -> (done: Result<(), FloatWMError>)
        ensures
            done == Ok::<(), FloatWMError>(()),
            final(self)@ == old(self)@.focus_shift(window),
            final(self).same_layout(old(self)),
    {
        match window {
            None => Ok(()),
            Some(w) => {
                proof {
                    self@.lemma_windows();
                    self@.lemma_restore(w);
                    self@.restore(w).lemma_windows();
                    self@.restore(w).shown.lemma_raise(w);
                    lemma_shown_replaced(self@.restore(w), self@.restore(w).shown.raise(w));
                }
                if self.minimise_assistant_manager.is_managed(w) {
                    match self.restore(w) {
                        Ok(()) => {},
                        Err(_) => {},
                    }
                }
                match self.layout_manager.focus_shifted(window) {
                    Ok(()) => Ok(()),
                    Err(_) => Ok(()),
                }
            },
        }
    }

    fn get_window_info(&self, window: Window) -> (found: Result<WindowWithInfo, FloatWMError>) {
        proof {
            self@.lemma_windows();
            self@.shown.lemma_windows();
        }
        match self.layout_manager.get_window_info(window) {
            Ok(info) => Ok(info),
            Err(_) => self.minimise_assistant_manager.get_window_info(window),
        }
    }

    fn get_screen(&self) -> (screen: Screen) {
        self.layout_manager.get_screen()
    }

    fn resize_screen(&mut self, screen: Screen)
        ensures
            final(self)@ == old(self)@.with_shown(old(self)@.shown.resize(screen)),
            final(self).same_layout(old(self)),
    {
        self.layout_manager.resize_screen(screen);
    }
}

impl<T: TilingLayout> TilingTrait for MinimiseManager<T> {
    open spec fn tiled(&self) -> Seq<Window> {
        self@.shown.tiles
    }

    fn get_master_window(&self) -> (master: Option<Window>) {
        self.layout_manager.get_master_window()
    }

    /// A minimised window becomes visible, and focused, first; when the
    /// focus does not know it, that is all that happens.
    fn swap_with_master(&mut self, window: Window, focus_manager: &mut FocusManager) -> (done:
        Result<(), FloatWMError>)
        ensures
            ({
                let shown = old(self)@.restore(window).shown;
                let focus = old(self)@.revealed_focus(old(focus_manager)@, window);
                if old(self)@.can_reveal(old(focus_manager)@, window) {
                    &&& final(self)@ == old(self)@.restore(window).with_shown(
                        master_swapped(shown, focus, window),
                    )
                    &&& final(focus_manager)@ == master_swap_focus(shown, focus, window)
                    &&& done == master_swap_outcome(shown, focus, window)
                } else {
                    &&& final(self)@ == old(self)@.restore(window)
                    &&& final(focus_manager)@ == focus
                    &&& done == Err::<(), FloatWMError>(FloatWMError::UnknownWindow(window))
                }
            }),
            final(self).same_layout(old(self)),
    {
        proof {
            self@.lemma_windows();
            self@.lemma_restore(window);
            self@.restore(window).lemma_windows();
            focus_manager@.lemma_focus(Some(window));
        }
        match self.maximise_if_minimised(window, focus_manager) {
            Err(e) => Err(e),
            Ok(()) => {
                let ghost mid = self@;
                proof {
                    lemma_master_swapped(mid.shown, focus_manager@, window);
                    lemma_shown_replaced(
                        mid,
                        master_swapped(mid.shown, focus_manager@, window),
                    );
                }
                self.layout_manager.swap_with_master(window, focus_manager)
            },
        }
    }

    fn swap_windows(&mut self, dir: PrevOrNext, focus_manager: &FocusManager)
        ensures
            final(self)@ == match focus_manager@.focused {
                Some(w) => old(self)@.with_shown(old(self)@.shown.swap(w, dir)),
                None => old(self)@,
            },
            final(self).same_layout(old(self)),
    {
        proof {
            match focus_manager@.focused {
                Some(w) => {
                    self@.shown.lemma_swap(w, dir);
                    lemma_shown_replaced(self@, self@.shown.swap(w, dir));
                },
                None => {},
            }
        }
        self.layout_manager.swap_windows(dir, focus_manager);
    }
}

/// Replacing the visible windows by an arrangement of the same windows
/// keeps the view consistent and its windows.
pub proof fn lemma_shown_replaced(view: MinimiseView, shown: Arrangement)
    requires
        view.wf(),
        shown.wf(),
        forall|w: Window| #[trigger] shown.knows(w) <==> view.shown.knows(w),
    ensures
        view.with_shown(shown).wf(),
        forall|w: Window|
            #![trigger view.with_shown(shown).knows(w)]
            view.with_shown(shown).knows(w) <==> view.knows(w),
        forall|w: Window|
            #![trigger view.with_shown(shown).windows().contains(w)]
            #![trigger view.windows().contains(w)]
            view.with_shown(shown).windows().contains(w) <==> view.windows().contains(w),
{
    assert forall|w: Window|
        !(shown.knows(w) && #[trigger] ids(view.hidden).contains(w)) by {
        assert(shown.knows(w) <==> view.shown.knows(w));
    }
    view.lemma_windows();
    view.with_shown(shown).lemma_windows();
    assert forall|w: Window|
        #![trigger view.with_shown(shown).knows(w)]
        view.with_shown(shown).knows(w) <==> view.knows(w) by {
        assert(shown.knows(w) <==> view.shown.knows(w));
    }
}

impl<T: TilingLayout> FloatTrait for MinimiseManager<T> {
    /// A minimised window is not known here: only a visible floating
    /// window can be given another geometry.
    fn set_window_geometry(&mut self, window: Window, new_geometry: Geometry) -> (done: Result<
        (),
        FloatWMError,
    >)
        ensures
            final(self)@ == old(self)@.with_shown(old(self)@.shown.set_geometry(window, new_geometry)),
            done == if old(self)@.shown.is_floating(window) {
                Ok::<(), FloatWMError>(())
            } else if old(self)@.shown.is_tiled(window) {
                Err(FloatWMError::NotFloatingWindow(window))
            } else {
                Err(FloatWMError::UnknownWindow(window))
            },
            final(self).same_layout(old(self)),
    {
        proof {
            self@.shown.lemma_set_geometry(window, new_geometry);
            self@.shown.lemma_windows();
            self@.shown.set_geometry(window, new_geometry).lemma_windows();
            lemma_shown_replaced(self@, self@.shown.set_geometry(window, new_geometry));
            assert(self@.with_shown(self@.shown.set_geometry(window, new_geometry)).windows()
                == self@.windows());
        }
        self.layout_manager.set_window_geometry(window, new_geometry)
    }
}

impl<T: TilingLayout> FloatAndTileTrait for MinimiseManager<T> {
    open spec fn floating(&self) -> Seq<Window> {
        ids(self@.shown.floats)
    }

    fn get_floating_windows(&self) -> (list: Vec<Window>) {
        self.layout_manager.float_manager.get_windows()
    }

    fn get_tiled_windows(&self) -> (list: Vec<Window>) {
        self.layout_manager.tile_manager.get_windows()
    }

    /// A minimised window becomes visible, and focused, first; when the
    /// focus does not know it, that is all that happens.
    fn toggle_floating(&mut self, window: Window, focus_manager: &mut FocusManager) -> (done:
        Result<(), FloatWMError>)
        ensures
            final(focus_manager)@ == old(focus_manager)@.focus(Some(window)),
            final(self)@ == if old(focus_manager)@.knows(window) {
                old(self)@.restore(window).with_shown(old(self)@.restore(window).shown.toggle(window))
            } else {
                old(self)@.restore(window)
            },
            done == if old(focus_manager)@.knows(window) && old(self)@.knows(window) {
                Ok::<(), FloatWMError>(())
            } else {
                Err(FloatWMError::UnknownWindow(window))
            },
            final(self).same_layout(old(self)),
    {
        proof {
            self@.lemma_windows();
            self@.lemma_restore(window);
            self@.restore(window).lemma_windows();
            self@.restore(window).shown.lemma_toggle(window);
            lemma_shown_replaced(
                self@.restore(window),
                self@.restore(window).shown.toggle(window),
            );
            focus_manager@.lemma_focus(Some(window));
            if focus_manager@.knows(window) {
                focus_manager@.lemma_focus_again(window);
            }
        }
        match self.maximise_if_minimised(window, focus_manager) {
            Err(e) => Err(e),
            Ok(()) => self.layout_manager.change_mode(window, focus_manager),
        }
    }
}

/// A window manager with tiles and floating windows that can minimise
/// them.
#[derive(Clone, Debug)]
pub struct MinimiseWM {
    /// The manager of the focus.
    pub focus_manager: FocusManager,
    /// The manager of the visible and the minimised windows.
    pub minimise_manager: MinimiseManager<VerticalLayout>,
}

impl MinimiseWM {
    /// Whether `w` is a window of this window manager.
    pub open spec fn knows(&self, w: Window) -> bool {
        self.minimise_manager@.knows(w)
    }

    /// Whether focus and layout are consistent and know the same windows.
    pub open spec fn wf(&self) -> bool {
        &&& self.focus_manager.wf()
        &&& self.minimise_manager.wf()
        &&& forall|w: Window|
            #![trigger self.focus_manager@.all().contains(w)]
            #![trigger self.minimise_manager@.knows(w)]
            self.focus_manager@.all().contains(w) <==> self.minimise_manager@.knows(w)
    }

    /// Whether the focused window, if there is one, is visible.
    pub open spec fn focus_visible(&self) -> bool {
        match self.focus_manager@.focused {
            Some(w) => !self.minimise_manager@.is_minimised(w),
            None => true,
        }
    }

    /// A window manager without windows.
    pub fn new(screen: Screen) -> (wm: MinimiseWM)
        ensures
            wm.wf(),
            wm.focus_visible(),
            wm.focus_manager@.all() == Seq::<Window>::empty(),
            wm.minimise_manager@.shown.tiles == Seq::<Window>::empty(),
            wm.minimise_manager@.shown.floats == Seq::<WindowWithInfo>::empty(),
            wm.minimise_manager@.hidden == Seq::<WindowWithInfo>::empty(),
            wm.minimise_manager@.shown.screen == screen,
    {
        MinimiseWM {
            focus_manager: FocusManager::new(),
            minimise_manager: MinimiseManager::new(
                FloatOrTileManager::new(screen, VerticalLayout {  }),
            ),
        }
    }

    /// The windows, the focused one last.
    pub fn get_windows(&self) -> (list: Vec<Window>)
        requires
            self.wf(),
        ensures
            list@ == self.focus_manager@.all(),
            forall|w: Window| #[trigger] list@.contains(w) <==> self.knows(w),
    {
        self.focus_manager.get_windows()
    }

    /// Whether `window` is a window of this window manager.
    pub fn is_managed(&self, window: Window) -> (managed: bool)
        requires
            self.wf(),
        ensures
            managed == self.knows(window),
    {
        self.focus_manager.is_managed(window)
    }

    /// The focused window, if any.
    pub fn get_focused_window(&self) -> (focused: Option<Window>)
        ensures
            focused == self.focus_manager@.focused,
    {
        self.focus_manager.get_focused_window()
    }

    /// Adds a visible window in the mode it asks for and gives it the
    /// focus.
    pub fn add_window(&mut self, window_with_info: WindowWithInfo) -> (done: Result<
        (),
        FloatWMError,
    >)
        requires
            old(self).wf(),
        ensures
            final(self).wf(),
            old(self).focus_visible() ==> final(self).focus_visible(),
            final(self).minimise_manager.same_layout(&old(self).minimise_manager),
            final(self).focus_manager@ == old(self).focus_manager@.add(window_with_info.window),
            final(self).minimise_manager@ == old(self).minimise_manager@.add(window_with_info),
            done == if old(self).knows(window_with_info.window) {
                Err::<(), FloatWMError>(FloatWMError::AlReadyManagedWindow(window_with_info.window))
            } else {
                Ok(())
            },
    {
        proof {
            self.focus_manager@.lemma_add(window_with_info.window);
            self.minimise_manager@.lemma_add(window_with_info);
            self.minimise_manager@.lemma_windows();
        }
        match self.focus_manager.add_window(window_with_info) {
            Err(e) => Err(e.to_float_error()),
            Ok(()) => {
                match self.minimise_manager.add_window(window_with_info) {
                    Ok(()) => Ok(()),
                    Err(e) => Err(e),
                }
            },
        }
    }

    /// Removes a window; when it had the focus, the window focused before
    /// it gets the focus, whether it is visible or not.
    pub fn remove_window(&mut self, window: Window) -> (done: Result<(), FloatWMError>)
        requires
            old(self).wf(),
        ensures
            final(self).wf(),
            old(self).focus_visible() && !(final(self).focus_manager@.focused.is_some() && old(
                self,
            ).minimise_manager@.is_minimised(final(self).focus_manager@.focused.unwrap()))
                ==> final(self).focus_visible(),
            final(self).minimise_manager.same_layout(&old(self).minimise_manager),
            final(self).focus_manager@ == old(self).focus_manager@.remove(window),
            final(self).minimise_manager@ == old(self).minimise_manager@.remove(window),
            done == if old(self).knows(window) {
                Ok::<(), FloatWMError>(())
            } else {
                Err(FloatWMError::UnknownWindow(window))
            },
    {
        proof {
            self.focus_manager@.lemma_remove(window);
            self.minimise_manager@.lemma_remove(window);
            self.minimise_manager@.lemma_windows();
            lemma_dropped(self.minimise_manager@.hidden, window);
            if !self.minimise_manager@.knows(window) {
                lemma_remove_unknown(self.minimise_manager@, window);
            }
        }
        match self.focus_manager.remove_window(window) {
            Err(e) => Err(e.to_float_error()),
            Ok(()) => {
                match self.minimise_manager.remove_window(window) {
                    Ok(()) => Ok(()),
                    Err(e) => Err(e),
                }
            },
        }
    }

    /// The focused window and the visible windows: every tile with its
    /// rectangle, then every floating window with its geometry.
    pub fn get_window_layout(&self) -> (layout: WindowLayout)
        requires
            self.wf(),
            self.minimise_manager.layout_manager.can_place(),
        ensures
            layout.focused_window == self.focus_manager@.focused,
            layout.windows@ == self.minimise_manager.layout_manager.whole_layout(),
    {
        WindowLayout {
            focused_window: self.get_focused_window(),
            windows: self.minimise_manager.get_window_layout(),
        }
    }

    /// Gives the focus to `window`, or to no window. A minimised window
    /// becomes visible first; a floating window comes on top. An unknown
    /// window is an error and leaves no window focused.
    pub fn focus_window(&mut self, window: Option<Window>) -> (done: Result<(), FloatWMError>)
        requires
            old(self).wf(),
        ensures
            final(self).wf(),
            final(self).focus_visible(),
            final(self).minimise_manager.same_layout(&old(self).minimise_manager),
            final(self).focus_manager@ == old(self).focus_manager@.focus(window),
            final(self).minimise_manager@ == old(self).minimise_manager@.focus_shift(window),
            done == if old(self).focus_manager@.can_focus(window) {
                Ok::<(), FloatWMError>(())
            } else {
                Err(FloatWMError::UnknownWindow(window.unwrap()))
            },
    {
        proof {
            self.focus_manager@.lemma_focus(window);
            match window {
                Some(w) => {
                    lemma_focus_shift(self.minimise_manager@, w);
                    if self.focus_manager@.knows(w) {
                        self.focus_manager@.lemma_focus_again(w);
                    }
                },
                None => {},
            }
        }
        let revealed = match window {
            None => Ok(()),
            Some(w) => self.minimise_manager.maximise_if_minimised(w, &mut self.focus_manager),
        };
        match revealed {
            Err(e) => Err(e),
            Ok(()) => {
                match self.focus_manager.focus_window(window) {
                    Err(e) => Err(e.to_float_error()),
                    Ok(()) => {
                        match self.minimise_manager.focus_shifted(window) {
                            Ok(()) => Ok(()),
                            Err(e) => Err(e),
                        }
                    },
                }
            },
        }
    }

    /// Moves the focus to the next or the previous window. A minimised
    /// window that gets the focus becomes visible; a floating one comes on
    /// top.
    pub fn cycle_focus(&mut self, dir: PrevOrNext)
        requires
            old(self).wf(),
        ensures
            final(self).wf(),
            final(self).focus_visible(),
            final(self).minimise_manager.same_layout(&old(self).minimise_manager),
            final(self).focus_manager@ == old(self).focus_manager@.cycle(dir),
            final(self).minimise_manager@ == old(self).minimise_manager@.focus_shift(
                old(self).focus_manager@.cycle(dir).focused,
            ),
    {
        proof {
            self.focus_manager@.lemma_cycle(dir);
            match self.focus_manager@.cycle(dir).focused {
                Some(w) => {
                    lemma_focus_shift(self.minimise_manager@, w);
                },
                None => {},
            }
        }
        self.focus_manager.cycle_focus(dir);
        let focused: Option<Window> = self.focus_manager.get_focused_window();
        match self.minimise_manager.focus_shifted(focused) {
            Ok(()) => {},
            Err(_) => {},
        }
    }

    /// What is known of `window`: of a tile the rectangle the layout gives
    /// it, of a floating window its own information, of a minimised window
    /// what was known of it when it was minimised.
    pub fn get_window_info(&self, window: Window) -> (found: Result<WindowWithInfo, FloatWMError>)
        requires
            self.wf(),
            self.minimise_manager.layout_manager.can_place(),
        ensures
            found == if self.knows(window) {
                Ok::<WindowWithInfo, FloatWMError>(self.minimise_manager.reported(window))
            } else {
                Err(FloatWMError::UnknownWindow(window))
            },
    {
        proof {
            self.minimise_manager@.lemma_windows();
        }
        self.minimise_manager.get_window_info(window)
    }

    /// The screen.
    pub fn get_screen(&self) -> (screen: Screen)
        ensures
            screen == self.minimise_manager@.shown.screen,
    {
        self.minimise_manager.get_screen()
    }

    /// Changes the screen and nothing else.
    pub fn resize_screen(&mut self, screen: Screen)
        requires
            old(self).wf(),
        ensures
            final(self).wf(),
            old(self).focus_visible() ==> final(self).focus_visible(),
            final(self).minimise_manager.same_layout(&old(self).minimise_manager),
            final(self).focus_manager == old(self).focus_manager,
            final(self).minimise_manager@ == old(self).minimise_manager@.with_shown(
                old(self).minimise_manager@.shown.resize(screen),
            ),
    {
        self.minimise_manager.resize_screen(screen);
    }

    /// The master tile, if there is a visible tile.
    pub fn get_master_window(&self) -> (master: Option<Window>)
        requires
            self.wf(),
        ensures
            master == master_of(self.minimise_manager@.shown.tiles),
    {
        self.minimise_manager.get_master_window()
    }

    /// Makes `window` the master tile. A minimised window becomes visible
    /// first. A tile gets the focus; a floating window takes the place of
    /// the master, which floats instead and gets the focus.
    pub fn swap_with_master(&mut self, window: Window) -> (done: Result<(), FloatWMError>)
        requires
            old(self).wf(),
        ensures
            final(self).wf(),
            old(self).focus_visible() ==> final(self).focus_visible(),
            final(self).minimise_manager.same_layout(&old(self).minimise_manager),
            ({
                let revealed = old(self).minimise_manager@.restore(window);
                let focus = old(self).minimise_manager@.revealed_focus(
                    old(self).focus_manager@,
                    window,
                );
                &&& final(self).minimise_manager@ == revealed.with_shown(
                    master_swapped(revealed.shown, focus, window),
                )
                &&& final(self).focus_manager@ == master_swap_focus(revealed.shown, focus, window)
            }),
            done == if old(self).knows(window) {
                Ok::<(), FloatWMError>(())
            } else {
                Err(FloatWMError::UnknownWindow(window))
            },
    {
        proof {
            let v = self.minimise_manager@;
            let f0 = self.focus_manager@;
            let revealed = v.restore(window);
            let f = v.revealed_focus(f0, window);
            v.lemma_restore(window);
            f0.lemma_focus(Some(window));
            lemma_dropped(v.hidden, window);
            lemma_master_swapped(revealed.shown, f, window);
            lemma_shown_replaced(revealed, master_swapped(revealed.shown, f, window));
            f.lemma_focus(Some(window));
            f.focus(Some(window)).lemma_focus(Some(displaced_master(revealed.shown, window)));
            if revealed.shown.tiles.len() > 0 {
                assert(revealed.shown.tiles.contains(revealed.shown.tiles[0]));
            }
        }
        self.minimise_manager.swap_with_master(window, &mut self.focus_manager)
    }

    /// Exchanges the focused window, when it is a tile, with the tile
    /// before or after it.
    pub fn swap_windows(&mut self, dir: PrevOrNext)
        requires
            old(self).wf(),
        ensures
            final(self).wf(),
            old(self).focus_visible() ==> final(self).focus_visible(),
            final(self).minimise_manager.same_layout(&old(self).minimise_manager),
            final(self).focus_manager == old(self).focus_manager,
            final(self).minimise_manager@ == match old(self).focus_manager@.focused {
                Some(w) => old(self).minimise_manager@.with_shown(
                    old(self).minimise_manager@.shown.swap(w, dir),
                ),
                None => old(self).minimise_manager@,
            },
    {
        proof {
            match self.focus_manager@.focused {
                Some(w) => {
                    self.minimise_manager@.shown.lemma_swap(w, dir);
                    lemma_shown_replaced(
                        self.minimise_manager@,
                        self.minimise_manager@.shown.swap(w, dir),
                    );
                },
                None => {},
            }
        }
        self.minimise_manager.swap_windows(dir, &self.focus_manager)
    }

    /// The visible floating windows, the topmost last.
    pub fn get_floating_windows(&self) -> (list: Vec<Window>)
        requires
            self.wf(),
        ensures
            list@ == ids(self.minimise_manager@.shown.floats),
    {
        self.minimise_manager.get_floating_windows()
    }

    /// Whether `window` is a visible floating window.
    pub fn is_floating(&self, window: Window) -> (floating: bool)
        requires
            self.wf(),
        ensures
            floating == self.minimise_manager@.shown.is_floating(window),
    {
        self.minimise_manager.is_floating(window)
    }

    /// Gives `window` the focus and changes its mode. A minimised window
    /// becomes visible first. An unknown window is an error and leaves no
    /// window focused.
    pub fn toggle_floating(&mut self, window: Window) -> (done: Result<(), FloatWMError>)
        requires
            old(self).wf(),
        ensures
            final(self).wf(),
            final(self).focus_visible(),
            final(self).minimise_manager.same_layout(&old(self).minimise_manager),
            final(self).focus_manager@ == old(self).focus_manager@.focus(Some(window)),
            final(self).minimise_manager@ == old(self).minimise_manager@.restore(window).with_shown(
                old(self).minimise_manager@.restore(window).shown.toggle(window),
            ),
            done == if old(self).knows(window) {
                Ok::<(), FloatWMError>(())
            } else {
                Err(FloatWMError::UnknownWindow(window))
            },
    {
        proof {
            let v = self.minimise_manager@;
            v.lemma_restore(window);
            lemma_dropped(v.hidden, window);
            v.restore(window).shown.lemma_toggle(window);
            lemma_shown_replaced(v.restore(window), v.restore(window).shown.toggle(window));
            self.focus_manager@.lemma_focus(Some(window));
        }
        self.minimise_manager.toggle_floating(window, &mut self.focus_manager)
    }

    /// Gives the visible floating window `window` another geometry.
    pub fn set_window_geometry(&mut self, window: Window, new_geometry: Geometry) -> (done: Result<
        (),
        FloatWMError,
    >)
        requires
            old(self).wf(),
        ensures
            final(self).wf(),
            old(self).focus_visible() ==> final(self).focus_visible(),
            final(self).minimise_manager.same_layout(&old(self).minimise_manager),
            final(self).focus_manager == old(self).focus_manager,
            final(self).minimise_manager@ == old(self).minimise_manager@.with_shown(
                old(self).minimise_manager@.shown.set_geometry(window, new_geometry),
            ),
            done == if old(self).minimise_manager@.shown.is_floating(window) {
                Ok::<(), FloatWMError>(())
            } else if old(self).minimise_manager@.shown.is_tiled(window) {
                Err(FloatWMError::NotFloatingWindow(window))
            } else {
                Err(FloatWMError::UnknownWindow(window))
            },
    {
        proof {
            let v = self.minimise_manager@;
            v.shown.lemma_set_geometry(window, new_geometry);
            lemma_shown_replaced(v, v.shown.set_geometry(window, new_geometry));
        }
        self.minimise_manager.set_window_geometry(window, new_geometry)
    }

    /// The minimised windows, in the order in which they were minimised.
    pub fn get_minimised_windows(&self) -> (list: Vec<Window>)
        requires
            self.wf(),
        ensures
            list@ == ids(self.minimise_manager@.hidden),
    {
        self.minimise_manager.get_minimised_windows()
    }

    /// Whether `window` is minimised.
    pub fn is_minimised(&self, window: Window) -> (minimised: bool)
        requires
            self.wf(),
        ensures
            minimised == self.minimise_manager@.is_minimised(window),
    {
        self.minimise_manager.minimise_assistant_manager.is_managed(window)
    }

    /// Minimises a visible window, taking the focus from it if it has it;
    /// makes a minimised window visible again and gives it the focus.
    pub fn toggle_minimised(&mut self, window: Window) -> (done: Result<(), FloatWMError>)
        requires
            old(self).wf(),
            old(self).minimise_manager@.shown.knows(window) ==> old(
                self,
            ).minimise_manager.layout_manager.can_place(),
        ensures
            final(self).wf(),
            old(self).focus_visible() ==> final(self).focus_visible(),
            final(self).minimise_manager.same_layout(&old(self).minimise_manager),
            final(self).minimise_manager@ == if old(self).minimise_manager@.is_minimised(window) {
                old(self).minimise_manager@.restore(window)
            } else if old(self).minimise_manager@.shown.knows(window) {
                old(self).minimise_manager@.minimise(
                    window,
                    old(self).minimise_manager.layout_manager.reported(window),
                )
            } else {
                old(self).minimise_manager@
            },
            final(self).focus_manager@ == if old(self).minimise_manager@.is_minimised(window) {
                old(self).focus_manager@.focus(Some(window))
            } else if old(self).minimise_manager@.shown.knows(window) && old(
                self,
            ).focus_manager@.focused == Some(window) {
                old(self).focus_manager@.focus(None)
            } else {
                old(self).focus_manager@
            },
            done == if old(self).knows(window) {
                Ok::<(), FloatWMError>(())
            } else {
                Err(FloatWMError::UnknownWindow(window))
            },
    {
        proof {
            let v = self.minimise_manager@;
            v.lemma_restore(window);
            lemma_dropped(v.hidden, window);
            self.focus_manager@.lemma_focus(Some(window));
            self.focus_manager@.lemma_focus(None);
            if v.shown.knows(window) {
                let info = self.minimise_manager.layout_manager.reported(window);
                v.shown.lemma_windows();
                if v.shown.is_floating(window) {
                    lemma_entry(v.shown.floats, window);
                }
                v.lemma_minimise(window, info);
                lemma_pushed(v.hidden, info);
            }
        }
        self.minimise_manager.toggle_minimised(window, &mut self.focus_manager)
    }
}

/// Removing a window that a view does not know changes nothing.
pub proof fn lemma_remove_unknown(view: MinimiseView, w: Window)
    requires
        view.wf(),
        !view.knows(w),
    ensures
        view.remove(w) == view,
{
}

/// After the focus has gone to a window, the view is consistent, knows the
/// same windows, and the window is not minimised; unknown windows change
/// nothing.
pub proof fn lemma_focus_shift(view: MinimiseView, w: Window)
    requires
        view.wf(),
    ensures
        view.focus_shift(Some(w)).wf(),
        !view.focus_shift(Some(w)).is_minimised(w),
        forall|x: Window|
            #![trigger view.focus_shift(Some(w)).knows(x)]
            view.focus_shift(Some(w)).knows(x) <==> view.knows(x),
        forall|x: Window|
            #![trigger view.focus_shift(Some(w)).is_minimised(x)]
            view.focus_shift(Some(w)).is_minimised(x) ==> view.is_minimised(x),
        !view.knows(w) ==> view.focus_shift(Some(w)) == view,
        view.focus_shift(Some(w)) == view.restore(w).focus_shift(Some(w)),
{
    view.lemma_restore(w);
    lemma_dropped(view.hidden, w);
    let revealed = view.restore(w);
    revealed.shown.lemma_raise(w);
    lemma_shown_replaced(revealed, revealed.shown.raise(w));
}

} // verus!
