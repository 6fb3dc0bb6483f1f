use std::collections::VecDeque;
use window_layout::common::{
    FloatAndTileTrait, FloatTrait, LayoutManager, Manager, TilingTrait,
};
use window_layout::dock::BasicDockLayout;
use window_layout::error::{FloatWMError, MultiWorkspaceError, StandardError};
use window_layout::floating::{FloatManager, FloatOrTileManager, FloatWM};
use window_layout::focus::FocusManager;
use window_layout::gaps::{shrink, GapLayout};
use window_layout::layout::{TilingLayout, VerticalLayout};
use window_layout::minimising::{MinimiseAssistantManager, MinimiseManager, MinimiseWM};
use window_layout::order::{listed, position};
use window_layout::tiling::{TileManager, TilingWM};
use window_layout::types::{
    FloatOrTile, Geometry, PrevOrNext, Screen, Window, WindowWithInfo,
};
use window_layout::workspaces::MultiWorkspaces;

const SCREEN: Screen = Screen { width: 800, height: 600 };

const G: Geometry = Geometry { x: 10, y: 10, width: 100, height: 100 };

fn deque(windows: &[Window]) -> VecDeque<Window> {
    windows.iter().copied().collect()
}

fn focus_with(windows: &[Window]) -> FocusManager {
    let mut focus = FocusManager::new();
    for w in windows {
        assert!(focus.add_window(WindowWithInfo::new_tiled(*w, G)).is_ok());
    }
    focus
}

#[test]
fn positions_are_first_positions() {
    let tiles = deque(&[4, 5, 4, 6]);
    assert_eq!(Some(0), position(&tiles, 4));
    assert_eq!(Some(1), position(&tiles, 5));
    assert_eq!(Some(3), position(&tiles, 6));
    assert_eq!(None, position(&tiles, 7));
    assert_eq!(vec![4, 5, 4, 6], listed(&tiles));
}

#[test]
fn the_focus_manager_adds_and_removes() {
    let mut focus = focus_with(&[1, 2, 3]);
    assert_eq!(vec![1, 2, 3], focus.get_windows());
    assert_eq!(Some(3), focus.get_focused_window());
    assert_eq!(
        Err(StandardError::AlReadyManagedWindow(2)),
        focus.add_window(WindowWithInfo::new_tiled(2, G))
    );
    assert_eq!(Err(StandardError::UnknownWindow(9)), focus.remove_window(9));
    assert_eq!(vec![1, 2, 3], focus.get_windows());
    assert_eq!(Ok(()), focus.remove_window(3));
    assert_eq!(Some(2), focus.get_focused_window());
    assert_eq!(vec![1, 2], focus.get_windows());
    assert_eq!(Ok(()), focus.remove_window(1));
    assert_eq!(vec![2], focus.get_windows());
    assert_eq!(Ok(()), focus.remove_window(2));
    assert_eq!(None, focus.get_focused_window());
    assert!(focus.get_windows().is_empty());
    assert!(!focus.is_managed(2));
}

#[test]
fn focusing_an_unknown_window_leaves_no_window_focused() {
    let mut focus = focus_with(&[1, 2, 3]);
    assert_eq!(Err(StandardError::UnknownWindow(8)), focus.focus_window(Some(8)));
    assert_eq!(None, focus.get_focused_window());
    assert_eq!(vec![1, 2, 3], focus.get_windows());
    assert_eq!(Ok(()), focus.focus_window(Some(1)));
    assert_eq!(Some(1), focus.get_focused_window());
    assert_eq!(vec![2, 3, 1], focus.get_windows());
    assert_eq!(Ok(()), focus.focus_window(None));
    assert_eq!(vec![2, 3, 1], focus.get_windows());
    assert_eq!(None, focus.get_focused_window());
}

#[test]
fn cycling_moves_the_focus_around() {
    let mut focus = focus_with(&[1, 2, 3, 4]);
    focus.cycle_focus(PrevOrNext::Next);
    assert_eq!(Some(1), focus.get_focused_window());
    assert_eq!(vec![2, 3, 4, 1], focus.get_windows());
    focus.cycle_focus(PrevOrNext::Prev);
    assert_eq!(Some(4), focus.get_focused_window());
    assert_eq!(vec![1, 2, 3, 4], focus.get_windows());
    focus.cycle_focus(PrevOrNext::Prev);
    assert_eq!(Some(3), focus.get_focused_window());
    assert_eq!(vec![4, 1, 2, 3], focus.get_windows());
}

#[test]
fn the_tile_manager_keeps_what_a_tile_was_added_with() {
    let mut tiles = TileManager::new(SCREEN, VerticalLayout {});
    let info = WindowWithInfo {
        window: 1,
        geometry: G,
        float_or_tile: FloatOrTile::Float,
        fullscreen: true,
    };
    assert_eq!(Ok(()), tiles.add_window(info));
    assert_eq!(Ok(()), tiles.add_window(WindowWithInfo::new_tiled(2, G)));
    assert_eq!(Err(StandardError::AlReadyManagedWindow(1)), tiles.add_window(info));
    assert_eq!(Ok(info), tiles.get_original_window_info(1));
    assert_eq!(Err(StandardError::UnknownWindow(3)), tiles.get_original_window_info(3));
    assert_eq!(
        Ok(Geometry { x: 400, y: 0, width: 400, height: 600 }),
        tiles.get_window_geometry(2)
    );
    assert_eq!(Err(StandardError::UnknownWindow(3)), tiles.get_window_geometry(3));
    assert_eq!(Err(StandardError::UnknownWindow(3)), tiles.get_window_info(3));
    assert_eq!(Ok(()), tiles.focus_shifted(Some(3)));
    assert_eq!(vec![1, 2], tiles.get_windows());
    assert_eq!(Err(StandardError::UnknownWindow(3)), tiles.remove_window(3));
    assert_eq!(Ok(()), tiles.remove_window(1));
    assert_eq!(Err(StandardError::UnknownWindow(1)), tiles.get_original_window_info(1));
    assert_eq!(Some(2), tiles.get_master_window());
    tiles.resize_screen(Screen { width: 10, height: 20 });
    assert_eq!(Screen { width: 10, height: 20 }, tiles.get_screen());
    assert_eq!(vec![(2, Geometry { x: 0, y: 0, width: 10, height: 20 })], tiles.get_window_layout());
}

#[test]
fn the_tile_manager_swaps_with_the_focus() {
    let mut tiles = TileManager::new(SCREEN, VerticalLayout {});
    let mut focus = focus_with(&[1, 2, 3]);
    for w in 1..4u64 {
        assert_eq!(Ok(()), tiles.add_window(WindowWithInfo::new_tiled(w, G)));
    }
    assert_eq!(Ok(()), tiles.swap_with_master(2, &mut focus));
    assert_eq!(vec![2, 1, 3], tiles.get_windows());
    assert_eq!(Some(2), focus.get_focused_window());
    assert_eq!(Err(StandardError::UnknownWindow(7)), tiles.swap_with_master(7, &mut focus));
    assert_eq!(Some(2), focus.get_focused_window());
    tiles.swap_windows(PrevOrNext::Prev, &focus);
    assert_eq!(vec![3, 1, 2], tiles.get_windows());
    assert_eq!(Ok(()), focus.focus_window(None));
    tiles.swap_windows(PrevOrNext::Next, &focus);
    assert_eq!(vec![3, 1, 2], tiles.get_windows());
}

#[test]
fn the_float_manager_keeps_its_windows_in_order() {
    let mut floats = FloatManager::new(SCREEN);
    let a = WindowWithInfo::new_float(1, G);
    let b = WindowWithInfo::new_float(2, Geometry { x: 1, y: 2, width: 3, height: 4 });
    assert_eq!(Ok(()), floats.add_window(a));
    assert_eq!(Ok(()), floats.add_window(b));
    assert_eq!(Err(FloatWMError::AlReadyManagedWindow(1)), floats.add_window(a));
    assert_eq!(vec![1, 2], floats.get_windows());
    assert_eq!(Ok(()), floats.focus_shifted(Some(1)));
    assert_eq!(vec![2, 1], floats.get_windows());
    assert_eq!(Err(FloatWMError::UnknownWindow(5)), floats.focus_shifted(Some(5)));
    assert_eq!(Ok(()), floats.focus_shifted(None));
    assert_eq!(vec![2, 1], floats.get_windows());
    let moved = Geometry { x: -5, y: 7, width: 30, height: 40 };
    assert_eq!(Ok(()), floats.set_window_geometry(2, moved));
    assert_eq!(Err(FloatWMError::UnknownWindow(5)), floats.set_window_geometry(5, moved));
    assert_eq!(Ok(WindowWithInfo::new_float(2, moved)), floats.get_window_info(2));
    assert_eq!(Ok(a), floats.get_window_info(1));
    assert_eq!(Err(FloatWMError::UnknownWindow(5)), floats.get_window_info(5));
    assert_eq!(vec![(2, moved), (1, G)], floats.get_window_layout());
    assert_eq!(Err(FloatWMError::UnknownWindow(5)), floats.remove_window(5));
    assert_eq!(Ok(()), floats.remove_window(2));
    assert_eq!(vec![1], floats.get_windows());
    floats.resize_screen(Screen { width: 1, height: 1 });
    assert_eq!(Screen { width: 1, height: 1 }, floats.get_screen());
}

#[test]
fn a_window_is_a_tile_or_floats_but_not_both() {
    let mut manager = FloatOrTileManager::new(SCREEN, VerticalLayout {});
    assert_eq!(Ok(()), manager.add_window(WindowWithInfo::new_tiled(1, G)));
    assert_eq!(Ok(()), manager.add_window(WindowWithInfo::new_float(2, G)));
    assert_eq!(
        Err(FloatWMError::AlReadyManagedWindow(1)),
        manager.add_window(WindowWithInfo::new_float(1, G))
    );
    assert_eq!(
        Err(FloatWMError::AlReadyManagedWindow(2)),
        manager.add_window(WindowWithInfo::new_tiled(2, G))
    );
    assert_eq!(vec![1, 2], manager.get_windows());
    assert!(manager.is_tiled(1));
    assert!(!manager.is_floating(1));
    assert!(manager.is_floating(2));
    assert!(!manager.is_tiled(2));
    assert_eq!(vec![1], manager.get_tiled_windows());
    assert_eq!(vec![2], manager.get_floating_windows());
    assert_eq!(Err(FloatWMError::NotFloatingWindow(1)), manager.set_window_geometry(1, G));
    assert_eq!(Err(FloatWMError::UnknownWindow(3)), manager.set_window_geometry(3, G));
    assert_eq!(Err(FloatWMError::UnknownWindow(3)), manager.remove_window(3));
    assert_eq!(Err(FloatWMError::UnknownWindow(3)), manager.get_window_info(3));
    assert_eq!(Ok(()), manager.focus_shifted(Some(3)));
    assert_eq!(Ok(()), manager.remove_window(1));
    assert_eq!(Ok(()), manager.remove_window(2));
    assert!(manager.get_windows().is_empty());
}

#[test]
fn toggling_needs_a_window_that_the_focus_knows() {
    let mut manager = FloatOrTileManager::new(SCREEN, VerticalLayout {});
    let mut focus = focus_with(&[1]);
    assert_eq!(Ok(()), manager.add_window(WindowWithInfo::new_tiled(1, G)));
    assert_eq!(Ok(()), manager.add_window(WindowWithInfo::new_tiled(2, G)));
    assert_eq!(Err(FloatWMError::UnknownWindow(2)), manager.toggle_floating(2, &mut focus));
    assert_eq!(None, focus.get_focused_window());
    assert!(manager.is_tiled(2));
    assert_eq!(Ok(()), manager.toggle_floating(1, &mut focus));
    assert!(manager.is_floating(1));
    assert_eq!(Some(1), focus.get_focused_window());
    assert_eq!(Ok(()), manager.change_mode(1, &mut focus));
    assert_eq!(vec![2, 1], manager.get_tiled_windows());
    assert_eq!(Ok(()), manager.float(2));
    assert_eq!(Ok(()), manager.tile(2));
    assert_eq!(vec![1, 2], manager.get_tiled_windows());
    assert_eq!(Err(FloatWMError::UnknownWindow(2)), manager.swap_with_master(2, &mut focus));
    assert_eq!(vec![2, 1], manager.get_tiled_windows());
}

#[test]
fn the_minimised_windows_are_kept_in_order() {
    let mut minis = MinimiseAssistantManager::new();
    let a = WindowWithInfo::new_float(1, G);
    let b = WindowWithInfo::new_tiled(2, G);
    assert_eq!(Ok(()), minis.add_window(a));
    assert_eq!(Ok(()), minis.add_window(b));
    assert_eq!(Err(FloatWMError::AlReadyManagedWindow(2)), minis.add_window(b));
    assert_eq!(vec![1, 2], minis.get_windows());
    assert_eq!(Ok(b), minis.get_window_info(2));
    assert_eq!(Err(FloatWMError::UnknownWindow(3)), minis.get_window_info(3));
    assert_eq!(Err(FloatWMError::UnknownWindow(3)), minis.remove_window(3));
    assert_eq!(Ok(()), minis.remove_window(1));
    assert_eq!(vec![2], minis.get_windows());
    assert!(minis.is_managed(2));
    assert!(!minis.is_managed(1));
}

#[test]
fn the_minimise_manager_hides_and_restores() {
    let mut manager = MinimiseManager::new(FloatOrTileManager::new(SCREEN, VerticalLayout {}));
    let mut focus = focus_with(&[1, 2]);
    let float = WindowWithInfo::new_float(2, G);
    assert_eq!(Ok(()), manager.add_window(WindowWithInfo::new_tiled(1, G)));
    assert_eq!(Ok(()), manager.add_window(float));
    assert_eq!(Ok(()), manager.toggle_minimised(2, &mut focus));
    assert_eq!(None, focus.get_focused_window());
    assert_eq!(vec![2], manager.get_minimised_windows());
    assert_eq!(vec![1, 2], manager.get_windows());
    assert_eq!(Err(FloatWMError::AlReadyManagedWindow(2)), manager.add_window(float));
    assert_eq!(Ok(float), manager.get_window_info(2));
    assert_eq!(Err(FloatWMError::UnknownWindow(2)), manager.set_window_geometry(2, G));
    assert_eq!(1, manager.get_window_layout().len());
    assert_eq!(Err(FloatWMError::UnknownWindow(9)), manager.toggle_minimised(9, &mut focus));
    assert_eq!(Ok(()), manager.maximise_if_minimised(1, &mut focus));
    assert_eq!(None, focus.get_focused_window());
    assert_eq!(Ok(()), manager.maximise_if_minimised(2, &mut focus));
    assert_eq!(Some(2), focus.get_focused_window());
    assert!(manager.is_floating(2));
    assert_eq!(Ok(()), manager.minimise(1));
    assert_eq!(Ok(()), manager.focus_shifted(Some(1)));
    assert!(manager.is_tiled(1));
    assert_eq!(Ok(()), manager.minimise(2));
    assert_eq!(Ok(()), manager.remove_window(2));
    assert!(manager.get_minimised_windows().is_empty());
    assert_eq!(Ok(()), manager.minimise(1));
    assert_eq!(Ok(()), manager.swap_with_master(1, &mut focus));
    assert_eq!(Some(1), manager.get_master_window());
    assert_eq!(Ok(()), manager.minimise(1));
    assert_eq!(Ok(()), manager.restore(1));
    assert_eq!(vec![1], manager.get_tiled_windows());
    assert_eq!(SCREEN, manager.get_screen());
}

#[test]
fn errors_convert_and_name_their_kind() {
    assert_eq!(FloatWMError::UnknownWindow(4), StandardError::UnknownWindow(4).to_float_error());
    assert_eq!(
        FloatWMError::AlReadyManagedWindow(5),
        StandardError::AlReadyManagedWindow(5).to_float_error()
    );
    assert_eq!("Unknown window", StandardError::UnknownWindow(4).description());
    assert_eq!("Already managed window", StandardError::AlReadyManagedWindow(4).description());
    assert_eq!("Unknown window", FloatWMError::UnknownWindow(4).description());
    assert_eq!("Already managed window", FloatWMError::AlReadyManagedWindow(4).description());
    assert_eq!("Not Floating window", FloatWMError::NotFloatingWindow(4).description());
}

#[test]
fn window_managers_report_each_error() {
    let mut tiling = TilingWM::<VerticalLayout>::new(SCREEN);
    assert_eq!(Ok(()), tiling.add_window(WindowWithInfo::new_tiled(1, G)));
    assert_eq!(
        Err(StandardError::AlReadyManagedWindow(1)),
        tiling.add_window(WindowWithInfo::new_tiled(1, G))
    );
    assert_eq!(Err(StandardError::UnknownWindow(2)), tiling.remove_window(2));
    assert_eq!(Err(StandardError::UnknownWindow(2)), tiling.focus_window(Some(2)));
    assert_eq!(Err(StandardError::UnknownWindow(2)), tiling.swap_with_master(2));
    assert_eq!(Err(StandardError::UnknownWindow(2)), tiling.get_window_info(2));

    let mut floating = FloatWM::new(SCREEN);
    assert_eq!(Ok(()), floating.add_window(WindowWithInfo::new_tiled(1, G)));
    assert_eq!(
        Err(FloatWMError::AlReadyManagedWindow(1)),
        floating.add_window(WindowWithInfo::new_float(1, G))
    );
    assert_eq!(Err(FloatWMError::UnknownWindow(2)), floating.remove_window(2));
    assert_eq!(Err(FloatWMError::UnknownWindow(2)), floating.focus_window(Some(2)));
    assert_eq!(None, floating.get_focused_window());
    assert_eq!(Err(FloatWMError::UnknownWindow(2)), floating.swap_with_master(2));
    assert_eq!(Err(FloatWMError::UnknownWindow(2)), floating.toggle_floating(2));
    assert_eq!(Err(FloatWMError::UnknownWindow(2)), floating.get_window_info(2));
    assert_eq!(Err(FloatWMError::UnknownWindow(2)), floating.set_window_geometry(2, G));
    assert_eq!(Err(FloatWMError::NotFloatingWindow(1)), floating.set_window_geometry(1, G));

    let mut minimising = MinimiseWM::new(SCREEN);
    assert_eq!(Ok(()), minimising.add_window(WindowWithInfo::new_float(1, G)));
    assert_eq!(Ok(()), minimising.toggle_minimised(1));
    assert_eq!(
        Err(FloatWMError::AlReadyManagedWindow(1)),
        minimising.add_window(WindowWithInfo::new_tiled(1, G))
    );
    assert_eq!(Err(FloatWMError::UnknownWindow(2)), minimising.toggle_minimised(2));
    assert_eq!(Err(FloatWMError::UnknownWindow(1)), minimising.set_window_geometry(1, G));
    assert_eq!(Ok(()), minimising.toggle_floating(1));
    assert!(!minimising.is_minimised(1));
    assert!(!minimising.is_floating(1));
    assert_eq!(Ok(()), minimising.toggle_minimised(1));
    assert_eq!(Ok(()), minimising.remove_window(1));
    assert!(minimising.get_minimised_windows().is_empty());
    assert_eq!(Err(FloatWMError::UnknownWindow(1)), minimising.remove_window(1));
}

#[test]
fn a_gap_never_makes_a_tile_smaller_than_nothing() {
    let layout = GapLayout { tiling_layout: VerticalLayout {}, gap: 120 };
    let screen = Screen { width: 200, height: 300 };
    let tiles = deque(&[1, 2]);
    assert_eq!(
        Ok(Geometry { x: 120, y: 120, width: 0, height: 60 }),
        layout.get_window_geometry(1, &screen, &tiles)
    );
    assert_eq!(
        Ok(Geometry { x: 220, y: 120, width: 0, height: 60 }),
        layout.get_window_geometry(2, &screen, &tiles)
    );
    assert_eq!(Err(StandardError::UnknownWindow(3)), layout.get_window_geometry(3, &screen, &tiles));
    assert_eq!(
        Geometry { x: -7, y: 3, width: 4, height: 0 },
        shrink(Geometry { x: -10, y: 0, width: 10, height: 5 }, 3)
    );
    assert_eq!(Some(1), layout.get_master_window(&tiles));
    let mut tiles = tiles;
    assert_eq!(Ok(()), layout.swap_with_master(2, &mut tiles));
    assert_eq!(deque(&[2, 1]), tiles);
    layout.swap_windows(2, PrevOrNext::Next, &mut tiles);
    assert_eq!(deque(&[1, 2]), tiles);
    assert_eq!(Err(StandardError::UnknownWindow(5)), layout.swap_with_master(5, &mut tiles));
}

#[test]
fn docks_stack_once_every_edge_has_a_tile() {
    let layout = BasicDockLayout {};
    let screen = Screen { width: 500, height: 500 };
    let tiles = deque(&[1, 2, 3, 4, 5, 6, 7]);
    let expected = [
        Geometry { x: 100, y: 0, width: 300, height: 400 },
        Geometry { x: 0, y: 0, width: 100, height: 250 },
        Geometry { x: 400, y: 0, width: 100, height: 250 },
        Geometry { x: 100, y: 400, width: 50, height: 100 },
        Geometry { x: 0, y: 250, width: 100, height: 250 },
        Geometry { x: 400, y: 250, width: 100, height: 250 },
        Geometry { x: 350, y: 400, width: 50, height: 100 },
    ];
    for (i, w) in tiles.iter().enumerate() {
        assert_eq!(Ok(expected[i]), layout.get_window_geometry(*w, &screen, &tiles));
    }
    assert_eq!(Err(StandardError::UnknownWindow(8)), layout.get_window_geometry(8, &screen, &tiles));
    assert_eq!(expected[0], layout.get_master_window_geometry(&screen, 7));
    assert_eq!(expected[4], layout.get_left_dock_geometry(1, &screen, 2));
    assert_eq!(expected[5], layout.get_right_dock_geometry(1, &screen, 2));
    assert_eq!(expected[6], layout.get_bottom_dock_geometry(2, &screen, 2));
    assert_eq!(Some(1), layout.get_master_window(&tiles));
}

#[test]
fn workspaces_keep_their_windows_apart() {
    let mut manager = MultiWorkspaces::new(SCREEN);
    assert_eq!(0, manager.get_current_workspace_index());
    assert_eq!(Ok(()), manager.add_window(WindowWithInfo::new_tiled(1, G)));
    assert_eq!(
        Err(MultiWorkspaceError::WrappedError),
        manager.add_window(WindowWithInfo::new_tiled(1, G))
    );
    assert_eq!(Err(MultiWorkspaceError::WorkspaceIndexOutOfBound(2)), manager.switch_workspace(2));
    assert_eq!(0, manager.get_current_workspace_index());
    assert_eq!(Ok(()), manager.switch_workspace(1));
    assert_eq!(1, manager.get_current_workspace_index());
    assert_eq!(2, manager.workspaces.len());
    assert!(manager.get_windows().is_empty());
    assert_eq!(None, manager.get_focused_window());
    assert_eq!(Ok(()), manager.add_window(WindowWithInfo::new_float(2, G)));
    assert_eq!(Err(MultiWorkspaceError::WrappedError), manager.remove_window(1));
    assert_eq!(Err(MultiWorkspaceError::WrappedError), manager.get_window_info(1));
    assert_eq!(vec![2], manager.get_windows());
    assert_eq!(Ok(()), manager.switch_workspace(0));
    assert_eq!(vec![1], manager.get_windows());
    assert_eq!(Some(1), manager.get_master_window());
    assert!(manager.get_workspace(1).is_ok());
    assert_eq!(vec![2], manager.get_workspace(1).unwrap().get_windows());
    assert_eq!(
        Some(MultiWorkspaceError::WorkspaceIndexOutOfBound(5)),
        manager.get_workspace(5).err()
    );
    assert_eq!(
        Some(MultiWorkspaceError::WorkspaceIndexOutOfBound(5)),
        manager.get_workspace_mut(5).err()
    );
    assert!(manager.get_workspace_mut(1).unwrap().remove_window(2).is_ok());
    assert!(manager.get_workspace(1).unwrap().get_windows().is_empty());
    let smaller = Screen { width: 100, height: 50 };
    manager.resize_screen(smaller);
    assert_eq!(smaller, manager.get_screen());
    assert_eq!(smaller, manager.get_workspace(0).unwrap().get_screen());
    assert_eq!(smaller, manager.get_workspace(1).unwrap().get_screen());
    assert_eq!(
        Geometry { x: 0, y: 0, width: 100, height: 50 },
        manager.get_window_info(1).unwrap().geometry
    );
}

#[test]
fn a_manager_without_a_current_workspace_reports_it() {
    let mut manager = MultiWorkspaces::new(SCREEN);
    manager.current_workspace = 3;
    let missing = MultiWorkspaceError::WorkspaceIndexOutOfBound(3);
    assert_eq!(Err(missing), manager.add_window(WindowWithInfo::new_tiled(1, G)));
    assert_eq!(Err(missing), manager.remove_window(1));
    assert_eq!(Err(missing), manager.focus_window(None));
    assert_eq!(Err(missing), manager.swap_with_master(1));
    assert_eq!(Err(missing), manager.toggle_floating(1));
    assert_eq!(Err(missing), manager.toggle_minimised(1));
    assert_eq!(Err(missing), manager.set_window_geometry(1, G));
    assert_eq!(Err(missing), manager.get_window_info(1));
    manager.cycle_focus(PrevOrNext::Next);
    manager.swap_windows(PrevOrNext::Next);
    assert!(manager.get_windows().is_empty());
    assert!(manager.get_window_layout().windows.is_empty());
    assert!(!manager.is_managed(1));
    assert_eq!(None, manager.get_master_window());
}

#[test]
fn screens_and_layouts_tell_what_they_can_place() {
    assert!(SCREEN.fits());
    assert!(Screen { width: 0x7fff_ffff, height: 0 }.fits());
    assert!(!Screen { width: 0x8000_0000, height: 0 }.fits());
    assert!(!Screen { width: 1, height: 0xffff_ffff }.fits());

    let gapped = GapLayout { tiling_layout: VerticalLayout {}, gap: 10 };
    assert!(gapped.fits(&SCREEN));
    assert!(gapped.fits(&Screen { width: 0x7fff_ffff, height: 0x7fff_fff5 }));
    assert!(!gapped.fits(&Screen { width: 0x7fff_ffff, height: 0x7fff_fff6 }));
    assert!(!gapped.fits(&Screen { width: 0x8000_0000, height: 1 }));
    let wide = GapLayout { tiling_layout: VerticalLayout {}, gap: 0xffff_ffff };
    assert!(!wide.fits(&SCREEN));

    let docks = BasicDockLayout {};
    assert!(docks.fits(&Screen { width: 500, height: 500 }, 0));
    assert!(docks.fits(&Screen { width: 500, height: 500 }, 9));
    assert!(!docks.fits(&Screen { width: 500, height: 500 }, 10));
    assert!(docks.fits(&Screen { width: 4, height: 500 }, 10));
    assert!(!docks.fits(&Screen { width: 0x8000_0000, height: 500 }, 1));
}

#[test]
fn windows_are_described_in_three_ways() {
    assert_eq!(
        WindowWithInfo { window: 1, geometry: G, float_or_tile: FloatOrTile::Tile, fullscreen: false },
        WindowWithInfo::new_tiled(1, G)
    );
    assert_eq!(
        WindowWithInfo { window: 2, geometry: G, float_or_tile: FloatOrTile::Float, fullscreen: false },
        WindowWithInfo::new_float(2, G)
    );
    assert_eq!(
        WindowWithInfo { window: 3, geometry: G, float_or_tile: FloatOrTile::Tile, fullscreen: true },
        WindowWithInfo::new_fullscreen(3, G)
    );
}

#[test]
fn a_tile_keeps_its_fullscreen_wish_through_a_change_of_mode() {
    let mut wm = FloatWM::new(SCREEN);
    assert_eq!(Ok(()), wm.add_window(WindowWithInfo::new_fullscreen(1, G)));
    assert_eq!(Ok(()), wm.toggle_floating(1));
    assert_eq!(
        Ok(WindowWithInfo { window: 1, geometry: G, float_or_tile: FloatOrTile::Float, fullscreen: true }),
        wm.get_window_info(1)
    );
}
