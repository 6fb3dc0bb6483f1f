//! Which window has the focus, and which one gets it next.

use vstd::prelude::*;
use std::collections::VecDeque;
use crate::common::Manager;
use crate::error::StandardError;
use crate::order::{
    lemma_position, lemma_position_is, lemma_position_unique, lemma_push_distinct,
    lemma_without_distinct, listed, position, position_of, without,
};
use crate::types::{PrevOrNext, Window, WindowWithInfo};

verus! {

/// `rest` followed by the focused window, if there is one.
pub open spec fn with_focused(rest: Seq<Window>, focused: Option<Window>) -> Seq<Window> {
    match focused {
        Some(w) => rest.push(w),
        None => rest,
    }
}

/// `focused`, if there is one, followed by `rest`.
pub open spec fn focused_first(rest: Seq<Window>, focused: Option<Window>) -> Seq<Window> {
    match focused {
        Some(w) => seq![w] + rest,
        None => rest,
    }
}

/// The state of the focus: the windows without focus, the next to be
/// focused first and the previous one last, and the focused window.
pub struct FocusView {
    /// The windows without focus.
    pub rest: Seq<Window>,
    /// The focused window, if any.
    pub focused: Option<Window>,
}

impl FocusView {
    /// Every window, the focused one last.
    pub open spec fn all(self) -> Seq<Window> {
        with_focused(self.rest, self.focused)
    }

    /// Whether `w` is one of the windows.
    pub open spec fn knows(self, w: Window) -> bool {
        self.all().contains(w)
    }

    /// Whether no window occurs twice.
    pub open spec fn wf(self) -> bool {
        self.all().no_duplicates()
    }

    /// The state with the new window `w` focused and the window that had
    /// the focus at the back of the others; the same state when `w` is
    /// known already.
    pub open spec fn add(self, w: Window) -> FocusView {
        if self.knows(w) {
            self
        } else {
            FocusView { rest: self.all(), focused: Some(w) }
        }
    }

    /// The state without `w`: when `w` had the focus, the back of the
    /// others gets it.
    pub open spec fn remove(self, w: Window) -> FocusView {
        if self.focused == Some(w) {
            if self.rest.len() == 0 {
                FocusView { rest: self.rest, focused: None }
            } else {
                FocusView { rest: self.rest.drop_last(), focused: Some(self.rest.last()) }
            }
        } else {
            FocusView { rest: without(self.rest, w), focused: self.focused }
        }
    }

    /// The state with the focus on `target`: the window that had the focus
    /// goes to the back of the others, and a known `target` leaves them to
    /// be focused. With no target, or an unknown one, no window is focused.
    pub open spec fn focus(self, target: Option<Window>) -> FocusView {
        match target {
            Some(w) => if self.knows(w) {
                FocusView { rest: without(self.all(), w), focused: Some(w) }
            } else {
                FocusView { rest: self.all(), focused: None }
            },
            None => FocusView { rest: self.all(), focused: None },
        }
    }

    /// Whether the focus can go to `target`.
    pub open spec fn can_focus(self, target: Option<Window>) -> bool {
        match target {
            Some(w) => self.knows(w),
            None => true,
        }
    }

    /// The state after cycling: towards the next, the focused window goes
    /// to the back of the others and their front gets the focus; towards
    /// the previous, it goes to their front and their back gets the focus.
    pub open spec fn cycle(self, dir: PrevOrNext) -> FocusView {
        match dir {
            PrevOrNext::Next => {
                let parked = self.all();
                if parked.len() == 0 {
                    FocusView { rest: parked, focused: None }
                } else {
                    FocusView { rest: parked.drop_first(), focused: Some(parked.first()) }
                }
            },
            PrevOrNext::Prev => {
                let parked = focused_first(self.rest, self.focused);
                if parked.len() == 0 {
                    FocusView { rest: parked, focused: None }
                } else {
                    FocusView { rest: parked.drop_last(), focused: Some(parked.last()) }
                }
            },
        }
    }

    /// Giving the focus keeps the windows and keeps them distinct.
    pub proof fn lemma_focus(self, target: Option<Window>)
        requires
            self.wf(),
        ensures
            self.focus(target).wf(),
            forall|w: Window|
                #![trigger self.focus(target).all().contains(w)]
                #![trigger self.all().contains(w)]
                self.focus(target).all().contains(w) <==> self.all().contains(w),
            self.focus(target).all() == match target {
                Some(w) => if self.knows(w) {
                    without(self.all(), w).push(w)
                } else {
                    self.all()
                },
                None => self.all(),
            },
    {
        match target {
            Some(w) => {
                if self.knows(w) {
                    lemma_without_distinct(self.all(), w);
                    lemma_push_distinct(without(self.all(), w), w);
                }
            },
            None => {},
        }
    }

    /// Giving the focus to the window that has it changes nothing.
    pub proof fn lemma_focus_again(self, w: Window)
        requires
            self.wf(),
            self.knows(w),
        ensures
            self.focus(Some(w)).knows(w),
            self.focus(Some(w)).focus(Some(w)) == self.focus(Some(w)),
    {
        lemma_without_distinct(self.all(), w);
        lemma_push_distinct(without(self.all(), w), w);
        let once = self.focus(Some(w));
        assert(once.all() == without(self.all(), w).push(w));
        assert(once.all()[once.all().len() - 1] == w);
    }

    /// Cycling keeps the windows and keeps them distinct.
    pub proof fn lemma_cycle(self, dir: PrevOrNext)
        requires
            self.wf(),
        ensures
            self.cycle(dir).wf(),
            forall|w: Window|
                #![trigger self.cycle(dir).all().contains(w)]
                #![trigger self.all().contains(w)]
                self.cycle(dir).all().contains(w) <==> self.all().contains(w),
            self.all().len() > 0 ==> self.cycle(dir).focused.is_some(),
    {
        let after = self.cycle(dir);
        match dir {
            PrevOrNext::Next => {
                lemma_rotate(self.all(), after.rest, after.focused, true);
            },
            PrevOrNext::Prev => {
                lemma_front_distinct(self.rest, self.focused);
                lemma_rotate(focused_first(self.rest, self.focused), after.rest, after.focused, false);
            },
        }
    }

    /// Adding a window keeps the windows distinct and adds this one.
    pub proof fn lemma_add(self, w: Window)
        requires
            self.wf(),
        ensures
            self.add(w).wf(),
            forall|x: Window|
                #![trigger self.add(w).all().contains(x)]
                #![trigger self.all().contains(x)]
                self.add(w).all().contains(x) <==> self.all().contains(x) || x == w,
            !self.knows(w) ==> self.add(w).all() == self.all().push(w),
    {
        if !self.knows(w) {
            lemma_push_distinct(self.all(), w);
        }
    }

    /// Removing a window keeps the windows distinct and takes this one out.
    pub proof fn lemma_remove(self, w: Window)
        requires
            self.wf(),
        ensures
            self.remove(w).wf(),
            self.remove(w).all() == without(self.all(), w),
            forall|x: Window|
                #![trigger self.remove(w).all().contains(x)]
                #![trigger self.all().contains(x)]
                self.remove(w).all().contains(x) <==> self.all().contains(x) && x != w,
    {
        let a = self.all();
        lemma_without_distinct(a, w);
        if self.focused == Some(w) {
            assert(a[a.len() - 1] == w);
            lemma_position_unique(a, a.len() - 1);
            assert(a.remove(a.len() - 1) =~= self.rest);
            assert(self.remove(w).all() =~= self.rest);
        } else if self.rest.contains(w) {
            let i = position_of(self.rest, w);
            lemma_position(self.rest, w);
            assert(a[i] == w);
            assert(a.contains(w));
            lemma_position_is(a, w, i);
            assert(self.remove(w).all() =~= a.remove(i));
        } else {
            lemma_not_in(self.rest, self.focused, w);
        }
    }
}

/// A manager that keeps track of the focused window.
#[derive(Clone, Debug)]
pub struct FocusManager {
    /// The windows without focus: the first is the next to be focused, the
    /// last the previous one.
    pub windows: VecDeque<Window>,
    /// The focused window, if any.
    pub focused_window: Option<Window>,
}

impl View for FocusManager {
    type V = FocusView;

    open spec fn view(&self) -> FocusView {
        FocusView { rest: self.windows@, focused: self.focused_window }
    }
}

impl FocusManager {
    /// Every window the manager knows, the focused one last.
    pub open spec fn all(&self) -> Seq<Window> {
        self@.all()
    }

    /// A manager without windows.
    pub fn new() -> (manager: FocusManager)
        ensures
            manager.wf(),
            manager@.rest == Seq::<Window>::empty(),
            manager@.focused.is_none(),
    {
        FocusManager { windows: VecDeque::new(), focused_window: None }
    }

    /// The focused window, if any.
    pub fn get_focused_window(&self) -> (focused: Option<Window>)
        ensures
            focused == self@.focused,
    {
        self.focused_window
    }

    /// Gives the focus to `window`, or to no window.
    ///
    /// The window that had the focus moves to the back of the others first;
    /// it stays there when `window` is not known.
    pub fn focus_window(&mut self, window: Option<Window>) -> (done: Result<(), StandardError>)
        requires
            old(self).wf(),
        ensures
            final(self).wf(),
            final(self)@ == old(self)@.focus(window),
            done == if old(self)@.can_focus(window) {
                Ok::<(), StandardError>(())
            } else {
                Err(StandardError::UnknownWindow(window.unwrap()))
            },
    {
        proof {
            old(self)@.lemma_focus(window);
        }
        match self.focused_window {
            Some(w) => {
                self.windows.push_back(w);
                self.focused_window = None;
            },
            None => {},
        }
        assert(self.windows@ == old(self).all());
        match window {
            None => Ok(()),
            Some(window_value) => {
                match position(&self.windows, window_value) {
                    None => Err(StandardError::UnknownWindow(window_value)),
                    Some(i) => {
                        self.windows.remove(i);
                        self.focused_window = window;
                        Ok(())
                    },
                }
            },
        }
    }

    /// Moves the focus to the next or the previous window.
    pub fn cycle_focus(&mut self, dir: PrevOrNext)
        requires
            old(self).wf(),
        ensures
            final(self).wf(),
            final(self)@ == old(self)@.cycle(dir),
    {
        proof {
            old(self)@.lemma_cycle(dir);
        }
        match dir {
            PrevOrNext::Next => {
                match self.focused_window {
                    Some(w) => {
                        self.windows.push_back(w);
                    },
                    None => {},
                }
                self.focused_window = self.windows.pop_front();
            },
            PrevOrNext::Prev => {
                match self.focused_window {
                    Some(w) => {
                        self.windows.push_front(w);
                    },
                    None => {},
                }
                self.focused_window = self.windows.pop_back();
            },
        }
    }
}

/// The focused window put before the others makes a sequence without
/// duplicates when put behind them it does.
pub proof fn lemma_front_distinct(rest: Seq<Window>, focused: Option<Window>)
    requires
        with_focused(rest, focused).no_duplicates(),
    ensures
        focused_first(rest, focused).no_duplicates(),
        forall|w: Window|
            focused_first(rest, focused).contains(w) <==> with_focused(rest, focused).contains(w),
{
    let a = with_focused(rest, focused);
    let b = focused_first(rest, focused);
    match focused {
        None => {},
        Some(f) => {
            assert forall|i: int, j: int| 0 <= i < b.len() && 0 <= j < b.len() && i != j implies b[i]
                != b[j] by {
                let x = if i == 0 { rest.len() as int } else { i - 1 };
                let y = if j == 0 { rest.len() as int } else { j - 1 };
                assert(b[i] == a[x] && b[j] == a[y]);
            }
            assert forall|w: Window| b.contains(w) <==> a.contains(w) by {
                if b.contains(w) {
                    let i = choose|i: int| 0 <= i < b.len() && b[i] == w;
                    let x = if i == 0 { rest.len() as int } else { i - 1 };
                    assert(a[x] == w);
                }
                if a.contains(w) {
                    let x = choose|x: int| 0 <= x < a.len() && a[x] == w;
                    let i = if x == rest.len() { 0 } else { x + 1 };
                    assert(b[i] == w);
                }
            }
        },
    }
}

/// Taking the front or the back of a sequence without duplicates as the
/// focused window keeps the windows and keeps them distinct.
pub proof fn lemma_rotate(parked: Seq<Window>, rest: Seq<Window>, focused: Option<Window>, front: bool)
    requires
        parked.no_duplicates(),
        parked.len() == 0 ==> focused.is_none() && rest == parked,
        parked.len() > 0 && front ==> focused == Some(parked[0]) && rest == parked.subrange(
            1,
            parked.len() as int,
        ),
        parked.len() > 0 && !front ==> focused == Some(parked[parked.len() - 1]) && rest
            == parked.subrange(0, parked.len() - 1),
    ensures
        with_focused(rest, focused).no_duplicates(),
        forall|w: Window| with_focused(rest, focused).contains(w) <==> parked.contains(w),
{
    let a = with_focused(rest, focused);
    if parked.len() > 0 {
        let n = parked.len() as int;
        if front {
            assert forall|i: int| 0 <= i < n implies a[i] == parked[if i == n - 1 { 0 } else { i + 1 }] by {}
            assert forall|i: int, j: int| 0 <= i < n && 0 <= j < n && i != j implies a[i] != a[j] by {
                assert(a[i] == parked[if i == n - 1 { 0 } else { i + 1 }]);
                assert(a[j] == parked[if j == n - 1 { 0 } else { j + 1 }]);
            }
            assert forall|w: Window| a.contains(w) <==> parked.contains(w) by {
                if a.contains(w) {
                    let i = choose|i: int| 0 <= i < a.len() && a[i] == w;
                    assert(parked[if i == n - 1 { 0 } else { i + 1 }] == w);
                }
                if parked.contains(w) {
                    let x = choose|x: int| 0 <= x < n && parked[x] == w;
                    let i = if x == 0 { n - 1 } else { x - 1 };
                    assert(a[i] == w);
                }
            }
        } else {
            assert(a =~= parked);
        }
    }
}

impl Manager for FocusManager {
    type Error = StandardError;

    open spec fn unknown(window: Window) -> StandardError {
        StandardError::UnknownWindow(window)
    }

    open spec fn already(window: Window) -> StandardError {
        StandardError::AlReadyManagedWindow(window)
    }

    open spec fn wf(&self) -> bool {
        self@.wf()
    }

    open spec fn windows(&self) -> Seq<Window> {
        self@.all()
    }

    proof fn lemma_windows_distinct(&self) {
    }

    fn get_windows(&self) -> (list: Vec<Window>) {
        let mut list: Vec<Window> = listed(&self.windows);
        match self.focused_window {
            Some(w) => list.push(w),
            None => {},
        }
        list
    }

    /// The new window gets the focus; the window that had it moves to the
    /// back of the others.
    fn add_window(&mut self, window_with_info: WindowWithInfo) -> (done: Result<(), StandardError>)
        ensures
            final(self)@ == old(self)@.add(window_with_info.window),
    {
        proof {
            old(self)@.lemma_add(window_with_info.window);
        }
        if !self.is_managed(window_with_info.window) {
            match self.focused_window {
                Some(w) => self.windows.push_back(w),
                None => {},
            }
            self.focused_window = Some(window_with_info.window);
            Ok(())
        } else {
            Err(StandardError::AlReadyManagedWindow(window_with_info.window))
        }
    }

    /// When the focused window leaves, the back of the others gets the
    /// focus; any other window leaves its place among the others.
    fn remove_window(&mut self, window: Window) -> (done: Result<(), StandardError>)
        ensures
            final(self)@ == old(self)@.remove(window),
    {
        proof {
            old(self)@.lemma_remove(window);
            if old(self)@.focused != Some(window) && !old(self)@.rest.contains(window) {
                lemma_not_in(old(self)@.rest, old(self)@.focused, window);
            }
        }
        match self.focused_window {
            Some(w) => {
                if w == window {
                    let ghost a = self@.all();
                    self.focused_window = self.windows.pop_back();
                    assert(a.contains(window)) by {
                        assert(a[a.len() - 1] == window);
                    }
                    return Ok(());
                }
            },
            None => {},
        }
        match position(&self.windows, window) {
            None => Err(StandardError::UnknownWindow(window)),
            Some(i) => {
                assert(self@.all().contains(window)) by {
                    assert(self@.all()[i as int] == window);
                }
                self.windows.remove(i);
                Ok(())
            },
        }
    }
}

/// A window that is neither focused nor among the others is not known.
pub proof fn lemma_not_in(rest: Seq<Window>, focused: Option<Window>, w: Window)
    requires
        !rest.contains(w),
        focused != Some(w),
    ensures
        !with_focused(rest, focused).contains(w),
{
    let a = with_focused(rest, focused);
    if a.contains(w) {
        let i = choose|i: int| 0 <= i < a.len() && a[i] == w;
        if i < rest.len() {
            assert(rest[i] == w);
        }
    }
}

} // verus!
