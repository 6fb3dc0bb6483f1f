//! What holds of every state that the window managers can reach, and of
//! operations that undo each other.

use vstd::prelude::*;
use crate::arrangement::Arrangement;
use crate::floating::{lemma_layout_lists_windows, FloatWM};
use crate::infos::{
    entry_of, ids, lemma_dropped, lemma_entry, lemma_pushed, lemma_raised,
};
use crate::minimising::{MinimiseView, MinimiseWM};
use crate::order::{
    lemma_position_unique, lemma_push_distinct, lemma_without_distinct, position_of, to_back,
    without,
};
use crate::types::{FloatOrTile, Window, WindowWithInfo};

verus! {

/// No window is in two of the three groups of tiles, floating windows and
/// minimised windows, and a window is in one of them exactly when the
/// focus manager knows it.
pub proof fn lemma_one_group(wm: &MinimiseWM, w: Window)
    requires
        wm.wf(),
    ensures
        !(wm.minimise_manager@.shown.is_tiled(w) && wm.minimise_manager@.shown.is_floating(w)),
        !(wm.minimise_manager@.shown.is_tiled(w) && wm.minimise_manager@.is_minimised(w)),
        !(wm.minimise_manager@.shown.is_floating(w) && wm.minimise_manager@.is_minimised(w)),
        wm.focus_manager@.all().contains(w) <==> wm.minimise_manager@.shown.is_tiled(w)
            || wm.minimise_manager@.shown.is_floating(w) || wm.minimise_manager@.is_minimised(w),
{
    assert(wm.focus_manager@.all().contains(w) <==> wm.minimise_manager@.knows(w));
}

/// Without minimised windows: no window is both a tile and floating, and
/// a window is one of the two exactly when the focus manager knows it.
pub proof fn lemma_one_mode(wm: &FloatWM, w: Window)
    requires
        wm.wf(),
    ensures
        !(wm.float_or_tile_manager@.is_tiled(w) && wm.float_or_tile_manager@.is_floating(w)),
        wm.focus_manager@.all().contains(w) <==> wm.float_or_tile_manager@.is_tiled(w)
            || wm.float_or_tile_manager@.is_floating(w),
{
    assert(wm.focus_manager@.all().contains(w) <==> wm.float_or_tile_manager@.knows(w));
}

/// The focused window is a window of the window manager; where the focus
/// is on a visible window, it is a tile or floats and is not minimised.
pub proof fn lemma_focused_is_managed(wm: &MinimiseWM, w: Window)
    requires
        wm.wf(),
        wm.focus_manager@.focused == Some(w),
    ensures
        wm.knows(w),
        wm.focus_visible() ==> wm.minimise_manager@.shown.knows(w)
            && !wm.minimise_manager@.is_minimised(w),
{
    let all = wm.focus_manager@.all();
    assert(all[all.len() - 1] == w);
    assert(all.contains(w));
}

/// Changing the mode of a floating window twice leaves it floating, with
/// exactly the information it had, and on top; the tiles are as they
/// were.
pub proof fn lemma_toggle_twice_floating(a: Arrangement, w: Window)
    requires
        a.wf(),
        a.is_floating(w),
    ensures
        a.toggle(w).is_tiled(w),
        !a.toggle(w).is_floating(w),
        a.toggle(w).toggle(w) == a.raise(w),
        a.toggle(w).toggle(w).is_floating(w),
        entry_of(a.toggle(w).toggle(w).floats, w) == entry_of(a.floats, w),
{
    let e = entry_of(a.floats, w);
    let t = a.toggle(w);
    a.lemma_toggle(w);
    lemma_dropped(a.floats, w);
    lemma_raised(a.floats, w);
    lemma_entry(a.floats, w);
    lemma_push_distinct(a.tiles, w);
    assert(a.floats[position_of(ids(a.floats), w)].float_or_tile
        == FloatOrTile::Float);
    assert(e.with_mode(FloatOrTile::Tile).with_mode(FloatOrTile::Float) == e);
    assert(t.originals[w] == e.with_mode(FloatOrTile::Tile));
    assert(!a.originals.contains_key(w));
    assert(t.originals.remove(w) =~= a.originals);
    assert(t.toggle(w).floats == a.raise(w).floats);
}

/// Changing the mode of a tile twice leaves it a tile, now the last one,
/// with the geometry it became a tile with as the one to return to; the
/// floating windows are as they were.
pub proof fn lemma_toggle_twice_tiled(a: Arrangement, w: Window)
    requires
        a.wf(),
        a.is_tiled(w),
    ensures
        a.toggle(w).is_floating(w),
        !a.toggle(w).is_tiled(w),
        entry_of(a.toggle(w).floats, w) == a.originals[w].with_mode(FloatOrTile::Float),
        a.toggle(w).toggle(w).is_tiled(w),
        !a.toggle(w).toggle(w).is_floating(w),
        a.toggle(w).toggle(w).tiles == to_back(a.tiles, w),
        a.toggle(w).toggle(w).floats == a.floats,
        a.toggle(w).toggle(w).originals == a.originals.insert(
            w,
            a.originals[w].with_mode(FloatOrTile::Tile),
        ),
{
    let o = a.originals[w];
    let x = o.with_mode(FloatOrTile::Float);
    let t = a.toggle(w);
    a.lemma_toggle(w);
    lemma_without_distinct(a.tiles, w);
    assert(a.originals.contains_key(w));
    assert(o.window == w);
    lemma_pushed(a.floats, x);
    assert(x.with_mode(FloatOrTile::Tile) == o.with_mode(FloatOrTile::Tile));
    assert(t.toggle(w).originals =~= a.originals.insert(w, o.with_mode(FloatOrTile::Tile)));
    t.lemma_toggle(w);
}

/// While a window is minimised it is not among the visible windows, and
/// it is still a window of the manager.
pub proof fn lemma_minimised_is_hidden(view: MinimiseView, w: Window, info: WindowWithInfo)
    requires
        view.wf(),
        view.shown.knows(w),
        info.window == w,
    ensures
        view.minimise(w, info).is_minimised(w),
        !view.minimise(w, info).shown.is_tiled(w),
        !view.minimise(w, info).shown.is_floating(w),
        !view.minimise(w, info).shown.windows().contains(w),
        view.minimise(w, info).knows(w),
        entry_of(view.minimise(w, info).hidden, w) == info,
{
    view.lemma_minimise(w, info);
    view.minimise(w, info).shown.lemma_windows();
    lemma_pushed(view.hidden, info);
}

/// A minimised window is still one of the windows that the window manager
/// lists, and no entry of the layout it shows is about it.
pub proof fn lemma_minimised_not_shown(wm: &MinimiseWM, w: Window)
    requires
        wm.wf(),
        wm.minimise_manager@.is_minimised(w),
    ensures
        wm.focus_manager@.all().contains(w),
        forall|i: int|
            0 <= i < wm.minimise_manager.layout_manager.whole_layout().len() ==> (
            #[trigger] wm.minimise_manager.layout_manager.whole_layout()[i]).0 != w,
{
    let shown = wm.minimise_manager@.shown;
    assert(wm.minimise_manager@.knows(w));
    shown.lemma_windows();
    lemma_layout_lists_windows(&wm.minimise_manager.layout_manager);
    assert forall|i: int|
        0 <= i < wm.minimise_manager.layout_manager.whole_layout().len() implies (
    #[trigger] wm.minimise_manager.layout_manager.whole_layout()[i]).0 != w by {
        assert(shown.windows().contains(shown.windows()[i]));
    }
}

/// Minimising a floating window and making it visible again leaves it
/// floating, with exactly the information it had, and on top; everything
/// else is as it was.
pub proof fn lemma_minimise_restore_floating(view: MinimiseView, w: Window)
    requires
        view.wf(),
        view.shown.is_floating(w),
    ensures
        view.minimise(w, entry_of(view.shown.floats, w)).restore(w) == view.with_shown(
            view.shown.raise(w),
        ),
        view.minimise(w, entry_of(view.shown.floats, w)).restore(w).shown.is_floating(w),
        entry_of(view.minimise(w, entry_of(view.shown.floats, w)).restore(w).shown.floats, w)
            == entry_of(view.shown.floats, w),
{
    let e = entry_of(view.shown.floats, w);
    lemma_entry(view.shown.floats, w);
    assert(view.shown.floats[position_of(ids(view.shown.floats), w)].float_or_tile
        == FloatOrTile::Float);
    lemma_minimised_is_hidden(view, w, e);
    lemma_pushed(view.hidden, e);
    lemma_raised(view.shown.floats, w);
    let gone = view.shown.remove(w);
    assert(!view.shown.is_tiled(w));
    assert(gone.originals =~= view.shown.originals);
    assert(gone.tiles == view.shown.tiles);
    assert(gone.add(e) == view.shown.raise(w));
}

/// Minimising a tile and making it visible again leaves it a tile, now
/// the last one, with what was reported of it as the geometry to return
/// to; everything else is as it was. A tile that was the last one is in
/// its place again.
pub proof fn lemma_minimise_restore_tiled(view: MinimiseView, w: Window, info: WindowWithInfo)
    requires
        view.wf(),
        view.shown.is_tiled(w),
        info.window == w,
        info.float_or_tile == FloatOrTile::Tile,
    ensures
        view.minimise(w, info).restore(w).shown.is_tiled(w),
        !view.minimise(w, info).restore(w).is_minimised(w),
        view.minimise(w, info).restore(w).hidden == view.hidden,
        view.minimise(w, info).restore(w).shown.floats == view.shown.floats,
        view.minimise(w, info).restore(w).shown.tiles == to_back(view.shown.tiles, w),
        view.minimise(w, info).restore(w).shown.originals == view.shown.originals.insert(w, info),
        view.shown.tiles[view.shown.tiles.len() - 1] == w ==> view.minimise(w, info).restore(
            w,
        ).shown.tiles == view.shown.tiles,
{
    lemma_minimised_is_hidden(view, w, info);
    lemma_pushed(view.hidden, info);
    lemma_without_distinct(view.shown.tiles, w);
    let gone = view.shown.remove(w);
    view.minimise(w, info).lemma_restore(w);
    assert(gone.add(info) == gone.with_tile(info));
    assert(gone.with_tile(info).tiles[gone.tiles.len() as int] == w);
    assert(gone.with_tile(info).originals =~= view.shown.originals.insert(w, info));
    let tiles = view.shown.tiles;
    if tiles[tiles.len() - 1] == w {
        lemma_position_unique(tiles, tiles.len() - 1);
        assert(without(tiles, w).push(w) =~= tiles);
    }
}

} // verus!
