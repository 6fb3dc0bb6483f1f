//! Ordered lists of windows with their information, keyed by window.

use vstd::prelude::*;
use crate::order::{
    first_at, lemma_position, lemma_position_is, lemma_position_unique, lemma_push_distinct,
    lemma_without_distinct, position_of, to_back, without,
};
use crate::types::{FloatOrTile, Geometry, Window, WindowWithInfo};

verus! {

/// The windows of a list, in its order.
pub open spec fn ids(list: Seq<WindowWithInfo>) -> Seq<Window> {
    Seq::new(list.len(), |i: int| list[i].window)
}

/// Each window of a list with its geometry, in the list's order.
pub open spec fn placed(list: Seq<WindowWithInfo>) -> Seq<(Window, Geometry)> {
    Seq::new(list.len(), |i: int| (list[i].window, list[i].geometry))
}

/// The first entry of `list` for `w`; meaningful when there is one.
pub open spec fn entry_of(list: Seq<WindowWithInfo>, w: Window) -> WindowWithInfo {
    list[position_of(ids(list), w)]
}

/// `list` without its first entry for `w`.
pub open spec fn dropped(list: Seq<WindowWithInfo>, w: Window) -> Seq<WindowWithInfo> {
    if ids(list).contains(w) {
        list.remove(position_of(ids(list), w))
    } else {
        list
    }
}

/// `list` with its first entry for `w` moved to the end.
pub open spec fn raised(list: Seq<WindowWithInfo>, w: Window) -> Seq<WindowWithInfo> {
    if ids(list).contains(w) {
        list.remove(position_of(ids(list), w)).push(entry_of(list, w))
    } else {
        list
    }
}

/// `info` with another geometry.
pub open spec fn at(info: WindowWithInfo, geometry: Geometry) -> WindowWithInfo {
    WindowWithInfo {
        window: info.window,
        geometry,
        float_or_tile: info.float_or_tile,
        fullscreen: info.fullscreen,
    }
}

/// `list` with the geometry of its first entry for `w` replaced.
pub open spec fn moved(list: Seq<WindowWithInfo>, w: Window, geometry: Geometry) -> Seq<
    WindowWithInfo,
> {
    if ids(list).contains(w) {
        list.update(position_of(ids(list), w), at(entry_of(list, w), geometry))
    } else {
        list
    }
}

/// The first entry of a list for a window it holds is an entry of the
/// list, and is about that window.
pub proof fn lemma_entry(list: Seq<WindowWithInfo>, w: Window)
    requires
        ids(list).contains(w),
    ensures
        0 <= position_of(ids(list), w) < list.len(),
        entry_of(list, w) == list[position_of(ids(list), w)],
        entry_of(list, w).window == w,
{
    lemma_position(ids(list), w);
}

/// The place of the first entry of `list` for `window`, if there is one.
pub fn find(list: &Vec<WindowWithInfo>, window: Window) -> (found: Option<usize>)
    ensures
        match found {
            Some(i) => first_at(ids(list@), window, i as int) && i as int == position_of(
                ids(list@),
                window,
            ) && i < list@.len(),
            None => !ids(list@).contains(window),
        },
{
    let n: usize = list.len();
    let mut i: usize = 0;
    while i < n
        invariant
            n == list@.len(),
            i <= n,
            forall|j: int| 0 <= j < i ==> ids(list@)[j] != window,
        decreases n - i,
    {
        if list[i].window == window {
            proof {
                lemma_position_is(ids(list@), window, i as int);
            }
            return Some(i);
        }
        i += 1;
    }
    None
}

/// The windows of `list`, in its order.
pub fn windows_of(list: &Vec<WindowWithInfo>) -> (windows: Vec<Window>)
    ensures
        windows@ == ids(list@),
{
    let n: usize = list.len();
    let mut windows: Vec<Window> = Vec::new();
    let mut i: usize = 0;
    while i < n
        invariant
            n == list@.len(),
            i <= n,
            windows@ == ids(list@).subrange(0, i as int),
        decreases n - i,
    {
        windows.push(list[i].window);
        assert(windows@ =~= ids(list@).subrange(0, i + 1));
        i += 1;
    }
    assert(ids(list@).subrange(0, n as int) =~= ids(list@));
    windows
}

/// Each window of `list` with its geometry, in the list's order.
pub fn geometries_of(list: &Vec<WindowWithInfo>) -> (pairs: Vec<(Window, Geometry)>)
    ensures
        pairs@ == placed(list@),
{
    let n: usize = list.len();
    let mut pairs: Vec<(Window, Geometry)> = Vec::new();
    let mut i: usize = 0;
    while i < n
        invariant
            n == list@.len(),
            i <= n,
            pairs@ == placed(list@).subrange(0, i as int),
        decreases n - i,
    {
        pairs.push((list[i].window, list[i].geometry));
        assert(pairs@ =~= placed(list@).subrange(0, i + 1));
        i += 1;
    }
    assert(placed(list@).subrange(0, n as int) =~= placed(list@));
    pairs
}

/// Whether every entry of `list` is a floating window.
pub open spec fn all_floating(list: Seq<WindowWithInfo>) -> bool {
    forall|i: int| 0 <= i < list.len() ==> (#[trigger] list[i]).float_or_tile == FloatOrTile::Float
}

/// Taking an entry out of a list of distinct windows leaves a list of
/// distinct windows, of floating windows if they were.
pub proof fn lemma_dropped(list: Seq<WindowWithInfo>, w: Window)
    requires
        ids(list).no_duplicates(),
    ensures
        ids(dropped(list, w)) == without(ids(list), w),
        ids(dropped(list, w)).no_duplicates(),
        !ids(dropped(list, w)).contains(w),
        forall|x: Window|
            #![trigger ids(dropped(list, w)).contains(x)]
            #![trigger ids(list).contains(x)]
            ids(dropped(list, w)).contains(x) <==> ids(list).contains(x) && x != w,
        all_floating(list) ==> all_floating(dropped(list, w)),
        forall|x: Window|
            ids(list).contains(x) && x != w ==> #[trigger] entry_of(dropped(list, w), x)
                == entry_of(list, x),
{
    let b = ids(list);
    let after = dropped(list, w);
    lemma_without_distinct(b, w);
    if b.contains(w) {
        lemma_position(b, w);
        let p = position_of(b, w);
        assert(ids(list.remove(p)) =~= b.remove(p));
        assert forall|i: int| 0 <= i < after.len() implies after[i] == list[if i < p {
            i
        } else {
            i + 1
        }] by {}
        if all_floating(list) {
            assert forall|i: int| 0 <= i < after.len() implies (#[trigger] after[i]).float_or_tile
                == FloatOrTile::Float by {
                assert(after[i] == list[if i < p { i } else { i + 1 }]);
            }
        }
        assert forall|x: Window| b.contains(x) && x != w implies #[trigger] entry_of(after, x)
            == entry_of(list, x) by {
            lemma_position(b, x);
            let q = position_of(b, x);
            let k = if q < p { q } else { q - 1 };
            assert(ids(after)[k] == x);
            lemma_position_unique(ids(after), k);
            assert(after[k] == list[q]);
        }
    }
}

/// Putting a new window on top of a list of distinct windows leaves a
/// list of distinct windows, of floating windows if they all are.
pub proof fn lemma_pushed(list: Seq<WindowWithInfo>, info: WindowWithInfo)
    requires
        ids(list).no_duplicates(),
        !ids(list).contains(info.window),
    ensures
        ids(list.push(info)) == ids(list).push(info.window),
        ids(list.push(info)).no_duplicates(),
        forall|x: Window|
            #![trigger ids(list.push(info)).contains(x)]
            #![trigger ids(list).contains(x)]
            ids(list.push(info)).contains(x) <==> ids(list).contains(x) || x == info.window,
        all_floating(list) && info.float_or_tile == FloatOrTile::Float ==> all_floating(
            list.push(info),
        ),
        entry_of(list.push(info), info.window) == info,
        dropped(list.push(info), info.window) == list,
        forall|x: Window|
            ids(list).contains(x) ==> #[trigger] entry_of(list.push(info), x) == entry_of(list, x),
{
    let b = ids(list);
    let after = list.push(info);
    assert(ids(after) =~= b.push(info.window));
    lemma_push_distinct(b, info.window);
    lemma_position_unique(ids(after), list.len() as int);
    assert(after.remove(list.len() as int) =~= list);
    assert forall|x: Window| b.contains(x) implies #[trigger] entry_of(after, x) == entry_of(
        list,
        x,
    ) by {
        lemma_position(b, x);
        let q = position_of(b, x);
        assert(ids(after)[q] == x);
        lemma_position_unique(ids(after), q);
    }
}

/// Raising an entry of a list of distinct windows keeps the windows and
/// what is known of each.
pub proof fn lemma_raised(list: Seq<WindowWithInfo>, w: Window)
    requires
        ids(list).no_duplicates(),
    ensures
        ids(raised(list, w)) == to_back(ids(list), w),
        ids(raised(list, w)).no_duplicates(),
        forall|x: Window|
            #![trigger ids(raised(list, w)).contains(x)]
            #![trigger ids(list).contains(x)]
            ids(raised(list, w)).contains(x) <==> ids(list).contains(x),
        all_floating(list) ==> all_floating(raised(list, w)),
        forall|x: Window|
            ids(list).contains(x) ==> #[trigger] entry_of(raised(list, w), x) == entry_of(list, x),
{
    if ids(list).contains(w) {
        let info = entry_of(list, w);
        lemma_position(ids(list), w);
        let mid = dropped(list, w);
        lemma_dropped(list, w);
        assert(raised(list, w) == mid.push(info));
        lemma_pushed(mid, info);
        assert forall|x: Window| ids(list).contains(x) implies #[trigger] entry_of(
            raised(list, w),
            x,
        ) == entry_of(list, x) by {
            if x != w {
                assert(ids(mid).contains(x));
                assert(entry_of(mid.push(info), x) == entry_of(mid, x));
            }
        }
    }
}

/// Giving an entry of a list of distinct windows another geometry keeps
/// the windows and what is known of the others.
pub proof fn lemma_moved(list: Seq<WindowWithInfo>, w: Window, geometry: Geometry)
    requires
        ids(list).no_duplicates(),
    ensures
        ids(moved(list, w, geometry)) == ids(list),
        all_floating(list) ==> all_floating(moved(list, w, geometry)),
        ids(list).contains(w) ==> entry_of(moved(list, w, geometry), w) == at(
            entry_of(list, w),
            geometry,
        ),
        forall|x: Window|
            ids(list).contains(x) && x != w ==> #[trigger] entry_of(moved(list, w, geometry), x)
                == entry_of(list, x),
{
    let after = moved(list, w, geometry);
    if ids(list).contains(w) {
        lemma_position(ids(list), w);
        let p = position_of(ids(list), w);
        assert(ids(after) =~= ids(list));
        if all_floating(list) {
            assert forall|i: int| 0 <= i < after.len() implies (#[trigger] after[i]).float_or_tile
                == FloatOrTile::Float by {
                if i != p {
                    assert(after[i] == list[i]);
                } else {
                    assert(list[p].float_or_tile == FloatOrTile::Float);
                }
            }
        }
        assert forall|x: Window| ids(list).contains(x) && x != w implies #[trigger] entry_of(
            after,
            x,
        ) == entry_of(list, x) by {
            let q = position_of(ids(list), x);
            lemma_position(ids(list), x);
            assert(after[q] == list[q]);
        }
    }
}

} // verus!
