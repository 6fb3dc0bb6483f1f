//! Several workspaces, each with a window manager of its own.

use vstd::prelude::*;
use crate::arrangement::{master_swap_focus, master_swapped, Arrangement};
use crate::error::MultiWorkspaceError;
use crate::focus::FocusView;
use crate::infos::{entry_of, ids};
use crate::layout::{master_of, vertical_place};
use crate::minimising::{MinimiseView, MinimiseWM};
use crate::order::position_of;
use crate::types::{
    FloatOrTile, Geometry, PrevOrNext, Screen, Window, WindowLayout, WindowWithInfo,
    WorkspaceIndex,
};

verus! {

/// The state of one workspace: its focus and its windows.
pub struct WorkspaceView {
    /// The focus.
    pub focus: FocusView,
    /// The visible and the minimised windows.
    pub windows: MinimiseView,
}

impl WorkspaceView {
    /// Whether `w` is a window of the workspace.
    pub open spec fn knows(self, w: Window) -> bool {
        self.windows.knows(w)
    }

    /// The workspace with a new window, visible and focused.
    pub open spec fn add(self, info: WindowWithInfo) -> WorkspaceView {
        WorkspaceView { focus: self.focus.add(info.window), windows: self.windows.add(info) }
    }

    /// The workspace without `w`.
    pub open spec fn remove(self, w: Window) -> WorkspaceView {
        WorkspaceView { focus: self.focus.remove(w), windows: self.windows.remove(w) }
    }

    /// The workspace with the focus on `target`.
    pub open spec fn focus_on(self, target: Option<Window>) -> WorkspaceView {
        WorkspaceView {
            focus: self.focus.focus(target),
            windows: self.windows.focus_shift(target),
        }
    }

    /// The workspace with the focus moved on in direction `dir`.
    pub open spec fn cycle(self, dir: PrevOrNext) -> WorkspaceView {
        WorkspaceView {
            focus: self.focus.cycle(dir),
            windows: self.windows.focus_shift(self.focus.cycle(dir).focused),
        }
    }

    /// The workspace on another screen.
    pub open spec fn resize(self, screen: Screen) -> WorkspaceView {
        WorkspaceView {
            focus: self.focus,
            windows: self.windows.with_shown(self.windows.shown.resize(screen)),
        }
    }

    /// The workspace with `w`, made visible if it was minimised, as the
    /// master tile.
    pub open spec fn swap_master(self, w: Window) -> WorkspaceView {
        let revealed = self.windows.restore(w);
        let focus = self.windows.revealed_focus(self.focus, w);
        WorkspaceView {
            focus: master_swap_focus(revealed.shown, focus, w),
            windows: revealed.with_shown(master_swapped(revealed.shown, focus, w)),
        }
    }

    /// The workspace with the focused tile and its neighbour exchanged.
    pub open spec fn swap(self, dir: PrevOrNext) -> WorkspaceView {
        match self.focus.focused {
            Some(w) => WorkspaceView {
                focus: self.focus,
                windows: self.windows.with_shown(self.windows.shown.swap(w, dir)),
            },
            None => self,
        }
    }

    /// The workspace with `w`, made visible if it was minimised, focused
    /// and in the other mode.
    pub open spec fn toggle_floating(self, w: Window) -> WorkspaceView {
        WorkspaceView {
            focus: self.focus.focus(Some(w)),
            windows: self.windows.restore(w).with_shown(self.windows.restore(w).shown.toggle(w)),
        }
    }

    /// The workspace with another geometry for the floating window `w`.
    pub open spec fn set_geometry(self, w: Window, geometry: Geometry) -> WorkspaceView {
        WorkspaceView {
            focus: self.focus,
            windows: self.windows.with_shown(self.windows.shown.set_geometry(w, geometry)),
        }
    }

    /// The workspace with a visible `w` minimised and without focus, or a
    /// minimised `w` visible and focused.
    pub open spec fn toggle_minimised(self, w: Window) -> WorkspaceView {
        if self.windows.is_minimised(w) {
            WorkspaceView {
                focus: self.focus.focus(Some(w)),
                windows: self.windows.restore(w),
            }
        } else if self.windows.shown.knows(w) {
            WorkspaceView {
                focus: if self.focus.focused == Some(w) {
                    self.focus.focus(None)
                } else {
                    self.focus
                },
                windows: self.windows.minimise(w, vertical_report(self.windows.shown, w)),
            }
        } else {
            self
        }
    }
}

/// What is reported of a visible window under the vertical layout: of a
/// tile the rectangle the layout gives it, of a floating window its own
/// information.
pub open spec fn vertical_report(a: Arrangement, w: Window) -> WindowWithInfo {
    if a.is_tiled(w) {
        WindowWithInfo {
            window: w,
            geometry: vertical_place(position_of(a.tiles, w), a.screen, a.tiles.len() as int),
            float_or_tile: FloatOrTile::Tile,
            fullscreen: false,
        }
    } else {
        entry_of(a.floats, w)
    }
}

/// The state of a window manager as a workspace.
pub open spec fn workspace_view(wm: MinimiseWM) -> WorkspaceView {
    WorkspaceView { focus: wm.focus_manager@, windows: wm.minimise_manager@ }
}

/// A manager of several workspaces, one of which is current. Every
/// operation on windows goes to the window manager of the current
/// workspace; the other workspaces do not change. Each workspace knows
/// its own windows only: the same window may be added to several
/// workspaces, and is then managed in each of them independently.
#[derive(Clone, Debug)]
pub struct MultiWorkspaces {
    /// The workspaces.
    pub workspaces: Vec<MinimiseWM>,
    /// The index of the current workspace.
    pub current_workspace: WorkspaceIndex,
    /// The screen of every workspace.
    pub screen: Screen,
}

impl MultiWorkspaces {
    /// The states of the workspaces.
    pub open spec fn views(&self) -> Seq<WorkspaceView> {
        Seq::new(self.workspaces@.len(), |i: int| workspace_view(self.workspaces@[i]))
    }

    /// Whether every workspace is consistent and has the screen of the
    /// manager.
    pub open spec fn wf(&self) -> bool {
        forall|i: int|
            0 <= i < self.workspaces@.len() ==> (#[trigger] self.workspaces@[i]).wf()
                && self.workspaces@[i].minimise_manager@.shown.screen == self.screen
    }

    /// Whether there is a workspace at the current index.
    pub open spec fn has_current(&self) -> bool {
        self.current_workspace < self.workspaces@.len()
    }

    /// A manager with one workspace, which is current and has no windows.
    pub fn new(screen: Screen) -> (manager: MultiWorkspaces)
        ensures
            manager.wf(),
            manager.workspaces@.len() == 1,
            manager.current_workspace == 0,
            manager.screen == screen,
    {
        let mut workspaces: Vec<MinimiseWM> = Vec::new();
        workspaces.push(MinimiseWM::new(screen));
        MultiWorkspaces { workspaces, current_workspace: 0, screen }
    }

    /// Adds a window to the current workspace.
    pub fn add_window(&mut self, window_with_info: WindowWithInfo) -> (done: Result<
        (),
        MultiWorkspaceError,
    >)
        requires
            old(self).wf(),
        ensures
            final(self).wf(),
            final(self).current_workspace == old(self).current_workspace,
            final(self).screen == old(self).screen,
            final(self).views() == if old(self).has_current() {
                old(self).views().update(
                    old(self).current_workspace as int,
                    old(self).views()[old(self).current_workspace as int].add(window_with_info),
                )
            } else {
                old(self).views()
            },
            done == if !old(self).has_current() {
                Err::<(), MultiWorkspaceError>(
                    MultiWorkspaceError::WorkspaceIndexOutOfBound(old(self).current_workspace),
                )
            } else if !old(self).views()[old(self).current_workspace as int].knows(window_with_info.window) {
                Ok(())
            } else {
                Err(MultiWorkspaceError::WrappedError)
            },
    {
        let index: usize = self.current_workspace;
        if index < self.workspaces.len() {
            let done = self.workspaces[index].add_window(window_with_info);
            proof {
                assert(self.views() =~= old(self).views().update(
                    index as int,
                    old(self).views()[index as int].add(window_with_info),
                ));
            }
            match done {
                Ok(()) => Ok(()),
                Err(_) => Err(MultiWorkspaceError::WrappedError),
            }
        } else {
            Err(MultiWorkspaceError::WorkspaceIndexOutOfBound(index))
        }
    }

    /// Removes a window from the current workspace.
    pub fn remove_window(&mut self, window: Window) -> (done: Result<(), MultiWorkspaceError>)
        requires
            old(self).wf(),
        ensures
            final(self).wf(),
            final(self).current_workspace == old(self).current_workspace,
            final(self).screen == old(self).screen,
            final(self).views() == if old(self).has_current() {
                old(self).views().update(
                    old(self).current_workspace as int,
                    old(self).views()[old(self).current_workspace as int].remove(window),
                )
            } else {
                old(self).views()
            },
            done == if !old(self).has_current() {
                Err::<(), MultiWorkspaceError>(
                    MultiWorkspaceError::WorkspaceIndexOutOfBound(old(self).current_workspace),
                )
            } else if old(self).views()[old(self).current_workspace as int].knows(window) {
                Ok(())
            } else {
                Err(MultiWorkspaceError::WrappedError)
            },
    {
        let index: usize = self.current_workspace;
        if index < self.workspaces.len() {
            let done = self.workspaces[index].remove_window(window);
            proof {
                assert(self.views() =~= old(self).views().update(
                    index as int,
                    old(self).views()[index as int].remove(window),
                ));
            }
            match done {
                Ok(()) => Ok(()),
                Err(_) => Err(MultiWorkspaceError::WrappedError),
            }
        } else {
            Err(MultiWorkspaceError::WorkspaceIndexOutOfBound(index))
        }
    }

    /// Gives the focus to `window`, or to no window, in the current
    /// workspace.
    pub fn focus_window(&mut self, window: Option<Window>) -> (done: Result<
        (),
        MultiWorkspaceError,
    >)
        requires
            old(self).wf(),
        ensures
            final(self).wf(),
            final(self).current_workspace == old(self).current_workspace,
            final(self).screen == old(self).screen,
            final(self).views() == if old(self).has_current() {
                old(self).views().update(
                    old(self).current_workspace as int,
                    old(self).views()[old(self).current_workspace as int].focus_on(window),
                )
            } else {
                old(self).views()
            },
            done == if !old(self).has_current() {
                Err::<(), MultiWorkspaceError>(
                    MultiWorkspaceError::WorkspaceIndexOutOfBound(old(self).current_workspace),
                )
            } else if old(self).views()[old(self).current_workspace as int].focus.can_focus(window) {
                Ok(())
            } else {
                Err(MultiWorkspaceError::WrappedError)
            },
    {
        let index: usize = self.current_workspace;
        if index < self.workspaces.len() {
            let done = self.workspaces[index].focus_window(window);
            proof {
                assert(self.views() =~= old(self).views().update(
                    index as int,
                    old(self).views()[index as int].focus_on(window),
                ));
            }
            match done {
                Ok(()) => Ok(()),
                Err(_) => Err(MultiWorkspaceError::WrappedError),
            }
        } else {
            Err(MultiWorkspaceError::WorkspaceIndexOutOfBound(index))
        }
    }

    /// Moves the focus of the current workspace to the next or the previous
    /// window.
    pub fn cycle_focus(&mut self, dir: PrevOrNext)
        requires
            old(self).wf(),
        ensures
            final(self).wf(),
            final(self).current_workspace == old(self).current_workspace,
            final(self).screen == old(self).screen,
            final(self).views() == if old(self).has_current() {
                old(self).views().update(
                    old(self).current_workspace as int,
                    old(self).views()[old(self).current_workspace as int].cycle(dir),
                )
            } else {
                old(self).views()
            },
    {
        let index: usize = self.current_workspace;
        if index < self.workspaces.len() {
            self.workspaces[index].cycle_focus(dir);
            proof {
                assert(self.views() =~= old(self).views().update(
                    index as int,
                    old(self).views()[index as int].cycle(dir),
                ));
            }
        }
    }

    /// Makes `window` the master tile of the current workspace.
    pub fn swap_with_master(&mut self, window: Window) -> (done: Result<(), MultiWorkspaceError>)
        requires
            old(self).wf(),
        ensures
            final(self).wf(),
            final(self).current_workspace == old(self).current_workspace,
            final(self).screen == old(self).screen,
            final(self).views() == if old(self).has_current() {
                old(self).views().update(
                    old(self).current_workspace as int,
                    old(self).views()[old(self).current_workspace as int].swap_master(window),
                )
            } else {
                old(self).views()
            },
            done == if !old(self).has_current() {
                Err::<(), MultiWorkspaceError>(
                    MultiWorkspaceError::WorkspaceIndexOutOfBound(old(self).current_workspace),
                )
            } else if old(self).views()[old(self).current_workspace as int].knows(window) {
                Ok(())
            } else {
                Err(MultiWorkspaceError::WrappedError)
            },
    {
        let index: usize = self.current_workspace;
        if index < self.workspaces.len() {
            let done = self.workspaces[index].swap_with_master(window);
            proof {
                assert(self.views() =~= old(self).views().update(
                    index as int,
                    old(self).views()[index as int].swap_master(window),
                ));
            }
            match done {
                Ok(()) => Ok(()),
                Err(_) => Err(MultiWorkspaceError::WrappedError),
            }
        } else {
            Err(MultiWorkspaceError::WorkspaceIndexOutOfBound(index))
        }
    }

    /// Exchanges the focused tile of the current workspace with the tile
    /// before or after it.
    pub fn swap_windows(&mut self, dir: PrevOrNext)
        requires
            old(self).wf(),
        ensures
            final(self).wf(),
            final(self).current_workspace == old(self).current_workspace,
            final(self).screen == old(self).screen,
            final(self).views() == if old(self).has_current() {
                old(self).views().update(
                    old(self).current_workspace as int,
                    old(self).views()[old(self).current_workspace as int].swap(dir),
                )
            } else {
                old(self).views()
            },
    {
        let index: usize = self.current_workspace;
        if index < self.workspaces.len() {
            self.workspaces[index].swap_windows(dir);
            proof {
                assert(self.views() =~= old(self).views().update(
                    index as int,
                    old(self).views()[index as int].swap(dir),
                ));
            }
        }
    }

    /// Gives `window` the focus and changes its mode, in the current
    /// workspace.
    pub fn toggle_floating(&mut self, window: Window) -> (done: Result<(), MultiWorkspaceError>)
        requires
            old(self).wf(),
        ensures
            final(self).wf(),
            final(self).current_workspace == old(self).current_workspace,
            final(self).screen == old(self).screen,
            final(self).views() == if old(self).has_current() {
                old(self).views().update(
                    old(self).current_workspace as int,
                    old(self).views()[old(self).current_workspace as int].toggle_floating(window),
                )
            } else {
                old(self).views()
            },
            done == if !old(self).has_current() {
                Err::<(), MultiWorkspaceError>(
                    MultiWorkspaceError::WorkspaceIndexOutOfBound(old(self).current_workspace),
                )
            } else if old(self).views()[old(self).current_workspace as int].knows(window) {
                Ok(())
            } else {
                Err(MultiWorkspaceError::WrappedError)
            },
    {
        let index: usize = self.current_workspace;
        if index < self.workspaces.len() {
            let done = self.workspaces[index].toggle_floating(window);
            proof {
                assert(self.views() =~= old(self).views().update(
                    index as int,
                    old(self).views()[index as int].toggle_floating(window),
                ));
            }
            match done {
                Ok(()) => Ok(()),
                Err(_) => Err(MultiWorkspaceError::WrappedError),
            }
        } else {
            Err(MultiWorkspaceError::WorkspaceIndexOutOfBound(index))
        }
    }

    /// Gives the floating window `window` of the current workspace another
    /// geometry.
    pub fn set_window_geometry(&mut self, window: Window, new_geometry: Geometry) -> (done: Result<
        (),
        MultiWorkspaceError,
    >)
        requires
            old(self).wf(),
        ensures
            final(self).wf(),
            final(self).current_workspace == old(self).current_workspace,
            final(self).screen == old(self).screen,
            final(self).views() == if old(self).has_current() {
                old(self).views().update(
                    old(self).current_workspace as int,
                    old(self).views()[old(self).current_workspace as int].set_geometry(window, new_geometry),
                )
            } else {
                old(self).views()
            },
            done == if !old(self).has_current() {
                Err::<(), MultiWorkspaceError>(
                    MultiWorkspaceError::WorkspaceIndexOutOfBound(old(self).current_workspace),
                )
            } else if old(self).views()[old(self).current_workspace as int].windows.shown.is_floating(window) {
                Ok(())
            } else {
                Err(MultiWorkspaceError::WrappedError)
            },
    {
        let index: usize = self.current_workspace;
        if index < self.workspaces.len() {
            let done = self.workspaces[index].set_window_geometry(window, new_geometry);
            proof {
                assert(self.views() =~= old(self).views().update(
                    index as int,
                    old(self).views()[index as int].set_geometry(window, new_geometry),
                ));
            }
            match done {
                Ok(()) => Ok(()),
                Err(_) => Err(MultiWorkspaceError::WrappedError),
            }
        } else {
            Err(MultiWorkspaceError::WorkspaceIndexOutOfBound(index))
        }
    }

    /// Minimises a visible window of the current workspace, or makes a
    /// minimised one visible again.
    pub fn toggle_minimised(&mut self, window: Window) -> (done: Result<(), MultiWorkspaceError>)
        requires
            old(self).wf(),
            old(self).screen.in_range(),
        ensures
            final(self).wf(),
            final(self).current_workspace == old(self).current_workspace,
            final(self).screen == old(self).screen,
            final(self).views() == if old(self).has_current() {
                old(self).views().update(
                    old(self).current_workspace as int,
                    old(self).views()[old(self).current_workspace as int].toggle_minimised(window),
                )
            } else {
                old(self).views()
            },
            done == if !old(self).has_current() {
                Err::<(), MultiWorkspaceError>(
                    MultiWorkspaceError::WorkspaceIndexOutOfBound(old(self).current_workspace),
                )
            } else if old(self).views()[old(self).current_workspace as int].knows(window) {
                Ok(())
            } else {
                Err(MultiWorkspaceError::WrappedError)
            },
    {
        let index: usize = self.current_workspace;
        if index < self.workspaces.len() {
            let done = self.workspaces[index].toggle_minimised(window);
            proof {
                assert(self.views() =~= old(self).views().update(
                    index as int,
                    old(self).views()[index as int].toggle_minimised(window),
                ));
            }
            match done {
                Ok(()) => Ok(()),
                Err(_) => Err(MultiWorkspaceError::WrappedError),
            }
        } else {
            Err(MultiWorkspaceError::WorkspaceIndexOutOfBound(index))
        }
    }

    /// The index of the current workspace.
    pub fn get_current_workspace_index(&self) -> (index: WorkspaceIndex)
        ensures
            index == self.current_workspace,
    {
        self.current_workspace
    }

    /// The window manager of the workspace at `index`.
    pub fn get_workspace(&self, index: WorkspaceIndex) -> (found: Result<
        &MinimiseWM,
        MultiWorkspaceError,
    >)
        ensures
            match found {
                Ok(wm) => index < self.workspaces@.len() && *wm == self.workspaces@[index as int],
                Err(e) => index >= self.workspaces@.len() && e
                    == MultiWorkspaceError::WorkspaceIndexOutOfBound(index),
            },
    {
        if index < self.workspaces.len() {
            Ok(&self.workspaces[index])
        } else {
            Err(MultiWorkspaceError::WorkspaceIndexOutOfBound(index))
        }
    }

    /// The window manager of the workspace at `index`, to be changed in
    /// place. What is done to it is done to that workspace and to no other.
    pub fn get_workspace_mut(&mut self, index: WorkspaceIndex) -> (found: Result<
        &mut MinimiseWM,
        MultiWorkspaceError,
    >)
        ensures
            match found {
                Ok(wm) => {
                    &&& index < old(self).workspaces@.len()
                    &&& *wm == old(self).workspaces@[index as int]
                    &&& final(self).workspaces@ == old(self).workspaces@.update(
                        index as int,
                        *final(wm),
                    )
                    &&& final(self).current_workspace == old(self).current_workspace
                    &&& final(self).screen == old(self).screen
                },
                Err(e) => {
                    &&& index >= old(self).workspaces@.len()
                    &&& e == MultiWorkspaceError::WorkspaceIndexOutOfBound(index)
                    &&& *final(self) == *old(self)
                },
            },
    {
        if index < self.workspaces.len() {
            Ok(&mut self.workspaces[index])
        } else {
            Err(MultiWorkspaceError::WorkspaceIndexOutOfBound(index))
        }
    }

    /// Makes the workspace at `index` current. The index after the last
    /// workspace makes a new workspace without windows; a larger one is an
    /// error and changes nothing.
    pub fn switch_workspace(&mut self, index: WorkspaceIndex) -> (done: Result<
        (),
        MultiWorkspaceError,
    >)
        requires
            old(self).wf(),
        ensures
            final(self).wf(),
            final(self).screen == old(self).screen,
            index < old(self).workspaces@.len() ==> {
                &&& done == Ok::<(), MultiWorkspaceError>(())
                &&& final(self).current_workspace == index
                &&& final(self).workspaces@ == old(self).workspaces@
            },
            index == old(self).workspaces@.len() ==> {
                &&& done == Ok::<(), MultiWorkspaceError>(())
                &&& final(self).current_workspace == index
                &&& final(self).workspaces@.len() == index + 1
                &&& final(self).workspaces@.subrange(0, index as int) == old(self).workspaces@
                &&& final(self).workspaces@[index as int].focus_manager@.all() == Seq::<
                    Window,
                >::empty()
                &&& final(self).workspaces@[index as int].minimise_manager@.windows() == Seq::<
                    Window,
                >::empty()
            },
            index > old(self).workspaces@.len() ==> {
                &&& done == Err::<(), MultiWorkspaceError>(
                    MultiWorkspaceError::WorkspaceIndexOutOfBound(index),
                )
                &&& final(self).current_workspace == old(self).current_workspace
                &&& final(self).workspaces@ == old(self).workspaces@
            },
    {
        if index < self.workspaces.len() {
            self.current_workspace = index;
            Ok(())
        } else if index == self.workspaces.len() {
            let fresh = MinimiseWM::new(self.screen);
            proof {
                assert(fresh.minimise_manager@.windows() =~= Seq::<Window>::empty());
            }
            self.workspaces.push(fresh);
            self.current_workspace = index;
            proof {
                assert(self.workspaces@.subrange(0, index as int) =~= old(self).workspaces@);
            }
            Ok(())
        } else {
            Err(MultiWorkspaceError::WorkspaceIndexOutOfBound(index))
        }
    }

    /// The screen.
    pub fn get_screen(&self) -> (screen: Screen)
        ensures
            screen == self.screen,
    {
        self.screen
    }

    /// Changes the screen of every workspace and nothing else.
    pub fn resize_screen(&mut self, screen: Screen)
        requires
            old(self).wf(),
        ensures
            final(self).wf(),
            final(self).current_workspace == old(self).current_workspace,
            final(self).screen == screen,
            final(self).views() == Seq::new(
                old(self).views().len(),
                |i: int| old(self).views()[i].resize(screen),
            ),
    {
        self.screen = screen;
        let n: usize = self.workspaces.len();
        let mut index: usize = 0;
        while index < n
            invariant
                n == self.workspaces@.len(),
                n == old(self).workspaces@.len(),
                index <= n,
                self.screen == screen,
                self.current_workspace == old(self).current_workspace,
                forall|i: int| 0 <= i < n ==> (#[trigger] self.workspaces@[i]).wf(),
                forall|i: int|
                    0 <= i < index ==> workspace_view(#[trigger] self.workspaces@[i]) == old(
                        self,
                    ).views()[i].resize(screen),
                forall|i: int|
                    index <= i < n ==> #[trigger] self.workspaces@[i] == old(self).workspaces@[i],
            decreases n - index,
        {
            self.workspaces[index].resize_screen(screen);
            index += 1;
        }
        proof {
            assert(self.views() =~= Seq::new(
                old(self).views().len(),
                |i: int| old(self).views()[i].resize(screen),
            ));
        }
    }

    /// The windows of the current workspace, the focused one last.
    pub fn get_windows(&self) -> (list: Vec<Window>)
        requires
            self.wf(),
        ensures
            list@ == if self.has_current() {
                self.views()[self.current_workspace as int].focus.all()
            } else {
                Seq::<Window>::empty()
            },
    {
        match self.get_workspace(self.current_workspace) {
            Ok(wm) => wm.get_windows(),
            Err(_) => Vec::new(),
        }
    }

    /// Whether `window` is a window of the current workspace.
    pub fn is_managed(&self, window: Window) -> (managed: bool)
        requires
            self.wf(),
        ensures
            managed == (self.has_current() && self.views()[self.current_workspace as int].knows(
                window,
            )),
    {
        match self.get_workspace(self.current_workspace) {
            Ok(wm) => wm.is_managed(window),
            Err(_) => false,
        }
    }

    /// The focused window of the current workspace, if any.
    pub fn get_focused_window(&self) -> (focused: Option<Window>)
        ensures
            focused == if self.has_current() {
                self.views()[self.current_workspace as int].focus.focused
            } else {
                None
            },
    {
        match self.get_workspace(self.current_workspace) {
            Ok(wm) => wm.get_focused_window(),
            Err(_) => None,
        }
    }

    /// What the current workspace shows.
    pub fn get_window_layout(&self) -> (layout: WindowLayout)
        requires
            self.wf(),
            self.screen.in_range(),
        ensures
            self.has_current() ==> {
                let wm = self.workspaces@[self.current_workspace as int];
                &&& layout.focused_window == wm.focus_manager@.focused
                &&& layout.windows@ == wm.minimise_manager.layout_manager.whole_layout()
            },
            !self.has_current() ==> layout.focused_window.is_none() && layout.windows@ == Seq::<
                (Window, Geometry),
            >::empty(),
    {
        match self.get_workspace(self.current_workspace) {
            Ok(wm) => wm.get_window_layout(),
            Err(_) => WindowLayout::new(),
        }
    }

    /// What the current workspace knows of `window`.
    pub fn get_window_info(&self, window: Window) -> (found: Result<
        WindowWithInfo,
        MultiWorkspaceError,
    >)
        requires
            self.wf(),
            self.screen.in_range(),
        ensures
            found == if !self.has_current() {
                Err::<WindowWithInfo, MultiWorkspaceError>(
                    MultiWorkspaceError::WorkspaceIndexOutOfBound(self.current_workspace),
                )
            } else if self.views()[self.current_workspace as int].knows(window) {
                Ok(
                    self.workspaces@[self.current_workspace as int].minimise_manager.reported(
                        window,
                    ),
                )
            } else {
                Err(MultiWorkspaceError::WrappedError)
            },
    {
        match self.get_workspace(self.current_workspace) {
            Ok(wm) => {
                match wm.get_window_info(window) {
                    Ok(info) => Ok(info),
                    Err(_) => Err(MultiWorkspaceError::WrappedError),
                }
            },
            Err(e) => Err(e),
        }
    }

    /// The master tile of the current workspace, if it has a visible tile.
    pub fn get_master_window(&self) -> (master: Option<Window>)
        requires
            self.wf(),
        ensures
            master == if self.has_current() {
                master_of(self.views()[self.current_workspace as int].windows.shown.tiles)
            } else {
                None
            },
    {
        match self.get_workspace(self.current_workspace) {
            Ok(wm) => wm.get_master_window(),
            Err(_) => None,
        }
    }

    /// The visible floating windows of the current workspace.
    pub fn get_floating_windows(&self) -> (list: Vec<Window>)
        requires
            self.wf(),
        ensures
            list@ == if self.has_current() {
                ids(self.views()[self.current_workspace as int].windows.shown.floats)
            } else {
                Seq::<Window>::empty()
            },
    {
        match self.get_workspace(self.current_workspace) {
            Ok(wm) => wm.get_floating_windows(),
            Err(_) => Vec::new(),
        }
    }

    /// Whether `window` is a visible floating window of the current
    /// workspace.
    pub fn is_floating(&self, window: Window) -> (floating: bool)
        requires
            self.wf(),
        ensures
            floating == (self.has_current() && self.views()[self.current_workspace
                as int].windows.shown.is_floating(window)),
    {
        match self.get_workspace(self.current_workspace) {
            Ok(wm) => wm.is_floating(window),
            Err(_) => false,
        }
    }

    /// The minimised windows of the current workspace.
    pub fn get_minimised_windows(&self) -> (list: Vec<Window>)
        requires
            self.wf(),
        ensures
            list@ == if self.has_current() {
                ids(self.views()[self.current_workspace as int].windows.hidden)
            } else {
                Seq::<Window>::empty()
            },
    {
        match self.get_workspace(self.current_workspace) {
            Ok(wm) => wm.get_minimised_windows(),
            Err(_) => Vec::new(),
        }
    }

    /// Whether `window` is a minimised window of the current workspace.
    pub fn is_minimised(&self, window: Window) -> (minimised: bool)
        requires
            self.wf(),
        ensures
            minimised == (self.has_current() && self.views()[self.current_workspace
                as int].windows.is_minimised(window)),
    {
        match self.get_workspace(self.current_workspace) {
            Ok(wm) => wm.is_minimised(window),
            Err(_) => false,
        }
    }
}

} // verus!
