use std::collections::VecDeque;
use window_layout::layout::{TilingLayout, VerticalLayout};
use window_layout::types::{
    FloatOrTile, Geometry, PrevOrNext, Screen, Window, WindowLayout, WindowWithInfo,
};
use window_layout::workspaces::MultiWorkspaces;

const SCREEN: Screen = Screen { width: 800, height: 600 };

const SOME_GEOM: Geometry = Geometry { x: 10, y: 10, width: 100, height: 100 };

const SOME_GEOM_A: Geometry = Geometry { x: 10, y: 10, width: 100, height: 100 };

const SOME_GEOM_B: Geometry = Geometry { x: 0, y: 0, width: 100, height: 100 };

const FLOAT_GEOM_A: Geometry = Geometry { x: 10, y: 20, width: 100, height: 400 };

const FLOAT_GEOM_B: Geometry = Geometry { x: 0, y: 10, width: 133, height: 100 };

#[test]
fn g_multiple_workspaces_test_empty_tiling_wm() {
    let wm = MultiWorkspaces::new(SCREEN);
    assert_eq!(WindowLayout::new(), wm.get_window_layout());
    assert_eq!(0, wm.get_windows().len());
    assert_eq!(SCREEN, wm.get_screen());
}

#[test]
fn g_multiple_workspaces_test_adding_and_removing_some_windows() {
    let mut wm = MultiWorkspaces::new(SCREEN);
    let window_a = WindowWithInfo::new_tiled(1, SOME_GEOM);
    let window_b = WindowWithInfo::new_tiled(2, SOME_GEOM);

    assert!(wm.add_window(window_a).is_ok());
    assert!(wm.is_managed(1));
    assert_eq!(vec![1], wm.get_windows());
    assert_eq!(Some(1), wm.get_focused_window());

    assert!(wm.add_window(window_b).is_ok());
    assert!(wm.is_managed(2));
    assert_eq!(vec![1, 2], wm.get_windows());
    assert_eq!(Some(2), wm.get_focused_window());

    assert!(wm.remove_window(1).is_ok());
    assert!(!wm.is_managed(1));
    assert!(wm.is_managed(2));
    assert_eq!(vec![2], wm.get_windows());
    assert_eq!(Some(2), wm.get_focused_window());

    assert!(wm.add_window(window_a).is_ok());
    assert_eq!(Some(1), wm.get_focused_window());
    assert!(wm.remove_window(1).is_ok());
    assert!(!wm.is_managed(1));
    assert!(wm.is_managed(2));
    assert_eq!(vec![2], wm.get_windows());
    assert_eq!(Some(2), wm.get_focused_window());

    assert!(wm.add_window(window_b).is_err(), "adding window twice should error");
    assert!(wm.remove_window(300).is_err(), "removing unmanaged window should error");
}

#[test]
fn g_multiple_workspaces_test_focus_and_unfocus_window() {
    let mut wm = MultiWorkspaces::new(SCREEN);
    assert_eq!(None, wm.get_focused_window());
    assert_eq!(None, wm.get_window_layout().focused_window);

    assert!(wm.add_window(WindowWithInfo::new_tiled(1, SOME_GEOM)).is_ok());
    assert_eq!(Some(1), wm.get_focused_window());
    assert_eq!(Some(1), wm.get_window_layout().focused_window);

    assert!(wm.focus_window(None).is_ok());
    assert_eq!(None, wm.get_focused_window());
    assert_eq!(None, wm.get_window_layout().focused_window);

    assert!(wm.focus_window(Some(1)).is_ok());
    assert_eq!(Some(1), wm.get_focused_window());
    assert_eq!(Some(1), wm.get_window_layout().focused_window);

    assert!(wm.focus_window(Some(404)).is_err());
}

#[test]
fn g_multiple_workspaces_test_cycle_focus_none_and_one_window() {
    let mut wm = MultiWorkspaces::new(SCREEN);
    assert_eq!(None, wm.get_focused_window());
    assert_eq!(None, wm.get_window_layout().focused_window);

    wm.cycle_focus(PrevOrNext::Next);
    assert_eq!(None, wm.get_focused_window());
    assert_eq!(None, wm.get_window_layout().focused_window);
    wm.cycle_focus(PrevOrNext::Prev);
    assert_eq!(None, wm.get_focused_window());
    assert_eq!(None, wm.get_window_layout().focused_window);

    assert!(wm.add_window(WindowWithInfo::new_tiled(1, SOME_GEOM)).is_ok());
    assert_eq!(Some(1), wm.get_focused_window());
    assert_eq!(Some(1), wm.get_window_layout().focused_window);

    wm.cycle_focus(PrevOrNext::Next);
    assert_eq!(Some(1), wm.get_focused_window());
    assert_eq!(Some(1), wm.get_window_layout().focused_window);
    wm.cycle_focus(PrevOrNext::Prev);
    assert_eq!(Some(1), wm.get_focused_window());
    assert_eq!(Some(1), wm.get_window_layout().focused_window);
    assert!(wm.focus_window(None).is_ok());
    wm.cycle_focus(PrevOrNext::Next);
    assert_eq!(Some(1), wm.get_focused_window());
    assert_eq!(Some(1), wm.get_window_layout().focused_window);
    assert!(wm.focus_window(None).is_ok());
    wm.cycle_focus(PrevOrNext::Prev);
    assert_eq!(Some(1), wm.get_focused_window());
    assert_eq!(Some(1), wm.get_window_layout().focused_window);
}

#[test]
fn g_multiple_workspaces_test_cycle_focus_multiple_windows() {
    let mut wm = MultiWorkspaces::new(SCREEN);
    assert_eq!(0, wm.get_windows().len());

    assert!(wm.add_window(WindowWithInfo::new_tiled(1, SOME_GEOM)).is_ok());
    assert!(wm.add_window(WindowWithInfo::new_tiled(2, SOME_GEOM)).is_ok());
    assert!(wm.add_window(WindowWithInfo::new_tiled(3, SOME_GEOM)).is_ok());
    assert_eq!(Some(3), wm.get_focused_window());
    assert_eq!(Some(3), wm.get_window_layout().focused_window);

    wm.cycle_focus(PrevOrNext::Prev);
    assert_eq!(Some(2), wm.get_focused_window());
    assert_eq!(Some(2), wm.get_window_layout().focused_window);

    wm.cycle_focus(PrevOrNext::Next);
    assert_eq!(Some(3), wm.get_focused_window());
    assert_eq!(Some(3), wm.get_window_layout().focused_window);

    wm.cycle_focus(PrevOrNext::Next);
    assert_eq!(Some(1), wm.get_focused_window());
    assert_eq!(Some(1), wm.get_window_layout().focused_window);

    assert!(wm.focus_window(None).is_ok());
    wm.cycle_focus(PrevOrNext::Prev);
    assert_eq!(Some(1), wm.get_focused_window());
    assert_eq!(Some(1), wm.get_window_layout().focused_window);
}

#[test]
fn g_multiple_workspaces_test_get_window_info() {
    let mut wm = MultiWorkspaces::new(SCREEN);
    assert!(wm.add_window(WindowWithInfo::new_tiled(1, SOME_GEOM)).is_ok());
    assert!(wm.add_window(WindowWithInfo::new_tiled(2, SOME_GEOM)).is_ok());
    assert!(wm.add_window(WindowWithInfo::new_tiled(3, SOME_GEOM)).is_ok());

    for window in wm.get_windows() {
        assert!(
            wm.get_window_info(window).is_ok(),
            "should return window_info for each managed window"
        );
    }
    assert!(wm.get_window_info(300).is_err(), "should error for unmanaged window");
}

#[test]
fn g_multiple_workspaces_test_resize_screen() {
    let mut wm = MultiWorkspaces::new(SCREEN);
    let new_screen = Screen { width: 1000, height: 1000 };
    assert_eq!(SCREEN, wm.get_screen());
    wm.resize_screen(new_screen);
    assert_eq!(new_screen, wm.get_screen());
}

#[test]
fn g_multiple_workspaces_test_get_master_window() {
    let mut wm = MultiWorkspaces::new(SCREEN);
    assert_eq!(None, wm.get_master_window());
    assert!(wm.add_window(WindowWithInfo::new_tiled(1, SOME_GEOM)).is_ok());
    assert_eq!(Some(1), wm.get_master_window());
}

#[test]
fn g_multiple_workspaces_test_swap_with_master_window() {
    let mut wm = MultiWorkspaces::new(SCREEN);
    assert!(wm.add_window(WindowWithInfo::new_tiled(1, SOME_GEOM)).is_ok());
    assert!(wm.add_window(WindowWithInfo::new_tiled(2, SOME_GEOM)).is_ok());

    assert!(wm.swap_with_master(2).is_ok());
    assert_eq!(Some(2), wm.get_focused_window());
    assert_eq!(Some(2), wm.get_master_window());

    assert!(wm.swap_with_master(2).is_ok());
    assert_eq!(Some(2), wm.get_focused_window());
    assert_eq!(Some(2), wm.get_master_window());
}

#[test]
fn g_multiple_workspaces_test_swap_windows() {
    let layout = VerticalLayout {};
    let mut wm = MultiWorkspaces::new(SCREEN);

    wm.swap_windows(PrevOrNext::Next);
    assert_eq!(None, wm.get_master_window());
    assert_eq!(None, wm.get_focused_window());

    wm.swap_windows(PrevOrNext::Prev);
    assert_eq!(None, wm.get_master_window());
    assert_eq!(None, wm.get_focused_window());

    assert!(wm.add_window(WindowWithInfo::new_tiled(1, SOME_GEOM)).is_ok());

    wm.swap_windows(PrevOrNext::Next);
    assert_eq!(Some(1), wm.get_master_window());
    assert_eq!(Some(1), wm.get_focused_window());

    wm.swap_windows(PrevOrNext::Prev);
    assert_eq!(Some(1), wm.get_master_window());
    assert_eq!(Some(1), wm.get_focused_window());

    assert!(wm.add_window(WindowWithInfo::new_tiled(2, SOME_GEOM)).is_ok());
    assert!(wm.add_window(WindowWithInfo::new_tiled(3, SOME_GEOM)).is_ok());
    assert!(wm.add_window(WindowWithInfo::new_tiled(4, SOME_GEOM)).is_ok());
    assert!(wm.focus_window(Some(3)).is_ok());

    let mut tiles = VecDeque::<Window>::new();
    tiles.push_back(1);
    tiles.push_back(2);
    tiles.push_back(3);
    tiles.push_back(4);

    wm.swap_windows(PrevOrNext::Next);
    assert_eq!(Some(1), wm.get_master_window());
    assert_eq!(Some(3), wm.get_focused_window());

    layout.swap_windows(3, PrevOrNext::Next, &mut tiles);
    let expected_layout = layout.get_window_geometry(3, &wm.get_screen(), &tiles).ok().unwrap();
    let actual_layout = wm.get_window_info(3).unwrap().geometry;
    assert_eq!(expected_layout, actual_layout);

    wm.swap_windows(PrevOrNext::Prev);
    assert_eq!(Some(1), wm.get_master_window());
    assert_eq!(Some(3), wm.get_focused_window());

    layout.swap_windows(3, PrevOrNext::Prev, &mut tiles);
    let expected_layout = layout.get_window_geometry(3, &wm.get_screen(), &tiles).ok().unwrap();
    let actual_layout = wm.get_window_info(3).unwrap().geometry;
    assert_eq!(expected_layout, actual_layout);
}

#[test]
fn g_multiple_workspaces_test_tiling_layout() {
    let layout = VerticalLayout {};
    let mut wm = MultiWorkspaces::new(SCREEN);
    assert!(wm.add_window(WindowWithInfo::new_tiled(1, SOME_GEOM)).is_ok());
    assert!(wm.add_window(WindowWithInfo::new_tiled(2, SOME_GEOM)).is_ok());
    assert!(wm.add_window(WindowWithInfo::new_tiled(3, SOME_GEOM)).is_ok());
    assert!(wm.add_window(WindowWithInfo::new_tiled(4, SOME_GEOM)).is_ok());
    assert!(wm.add_window(WindowWithInfo::new_tiled(5, SOME_GEOM)).is_ok());

    let mut tiles = VecDeque::<Window>::new();
    tiles.push_back(1);
    tiles.push_back(2);
    tiles.push_back(3);
    tiles.push_back(4);
    tiles.push_back(5);

    for tile in &tiles {
        let expected_layout =
            layout.get_window_geometry(*tile, &wm.get_screen(), &tiles).ok().unwrap();
        let actual_layout = wm.get_window_info(*tile).unwrap().geometry;
        assert_eq!(expected_layout, actual_layout);
    }
}

#[test]
fn g_multiple_workspaces_test_get_floating_windows() {
    let mut wm = MultiWorkspaces::new(SCREEN);
    assert!(wm.add_window(WindowWithInfo::new_float(1, SOME_GEOM)).is_ok());
    assert!(wm.add_window(WindowWithInfo::new_float(2, SOME_GEOM)).is_ok());
    assert!(wm.add_window(WindowWithInfo::new_float(3, SOME_GEOM)).is_ok());

    let floaters = wm.get_floating_windows();

    assert!(floaters.contains(&1));
    assert!(floaters.contains(&2));
    assert!(floaters.contains(&3));
    assert!(!floaters.contains(&4));
}

#[test]
fn g_multiple_workspaces_test_toggle_floating() {
    let mut wm = MultiWorkspaces::new(SCREEN);
    assert!(wm.add_window(WindowWithInfo::new_float(1, FLOAT_GEOM_A)).is_ok());
    assert!(wm.add_window(WindowWithInfo::new_tiled(2, FLOAT_GEOM_B)).is_ok());

    assert_eq!(FLOAT_GEOM_A, wm.get_window_info(1).unwrap().geometry);

    assert!(wm.is_floating(1));
    assert!(!wm.is_floating(2));

    assert!(wm.toggle_floating(1).is_ok());
    assert!(!wm.is_floating(1));

    assert!(wm.toggle_floating(2).is_ok());
    assert!(wm.is_floating(2));
    assert_eq!(FLOAT_GEOM_B, wm.get_window_info(2).unwrap().geometry);

    assert!(wm.toggle_floating(1).is_ok());
    assert!(wm.is_floating(1));
    assert_eq!(FLOAT_GEOM_A, wm.get_window_info(1).unwrap().geometry);

    assert!(wm.toggle_floating(2).is_ok());
    assert!(!wm.is_floating(2));

    assert!(wm.toggle_floating(3).is_err());
}

#[test]
fn g_multiple_workspaces_test_set_window_geometry() {
    let mut wm = MultiWorkspaces::new(SCREEN);
    assert!(wm.add_window(WindowWithInfo::new_float(1, SOME_GEOM)).is_ok());

    assert_eq!(SOME_GEOM, wm.get_window_info(1).unwrap().geometry);

    let other_geometry = Geometry { x: 20, y: 30, width: 300, height: 200 };

    assert!(wm.set_window_geometry(1, other_geometry).is_ok());
    assert_eq!(other_geometry, wm.get_window_info(1).unwrap().geometry);

    assert!(wm.set_window_geometry(2, other_geometry).is_err());

    assert!(wm.add_window(WindowWithInfo::new_tiled(3, SOME_GEOM)).is_ok());
    assert!(wm.set_window_geometry(3, other_geometry).is_err());
}

#[test]
fn g_multiple_workspaces_test_window_layout_order() {
    let mut wm = MultiWorkspaces::new(SCREEN);
    assert_eq!(WindowLayout::new(), wm.get_window_layout());

    assert!(wm.add_window(WindowWithInfo::new_float(1, SOME_GEOM)).is_ok());
    assert!(wm.add_window(WindowWithInfo::new_tiled(3, SOME_GEOM)).is_ok());

    let window_layout = wm.get_window_layout().windows;
    assert_eq!(3, window_layout[0].0);
    assert_eq!(1, window_layout[1].0);

    assert!(wm.add_window(WindowWithInfo::new_float(2, SOME_GEOM)).is_ok());
    assert!(wm.add_window(WindowWithInfo::new_tiled(4, SOME_GEOM)).is_ok());

    let window_layout = wm.get_window_layout().windows;
    assert_eq!(3, window_layout[0].0);
    assert_eq!(4, window_layout[1].0);
    assert_eq!(1, window_layout[2].0);
    assert_eq!(2, window_layout[3].0);
}

#[test]
fn g_multiple_workspaces_test_focus_floating_window_order() {
    let mut wm = MultiWorkspaces::new(SCREEN);
    assert_eq!(WindowLayout::new(), wm.get_window_layout());

    assert!(wm.add_window(WindowWithInfo::new_float(1, SOME_GEOM)).is_ok());
    assert!(wm.add_window(WindowWithInfo::new_float(2, SOME_GEOM)).is_ok());

    let window_layout = wm.get_window_layout().windows;
    assert_eq!(1, window_layout[0].0);
    assert_eq!(2, window_layout[1].0);

    assert!(wm.focus_window(Some(1)).is_ok());

    let window_layout = wm.get_window_layout().windows;
    assert_eq!(2, window_layout[0].0);
    assert_eq!(1, window_layout[1].0);
}

#[test]
fn g_multiple_workspaces_test_swapping_master_with_floating_window_no_tiles() {
    let mut wm = MultiWorkspaces::new(SCREEN);
    assert!(wm.add_window(WindowWithInfo::new_float(2, SOME_GEOM_B)).is_ok());

    assert!(wm.swap_with_master(2).is_ok());
    assert!(wm.get_master_window().is_none());
    assert!(wm.is_floating(2));
    assert_eq!(SOME_GEOM_B, wm.get_window_info(2).unwrap().geometry);
}

#[test]
fn g_multiple_workspaces_test_swapping_master_with_floating_window() {
    let mut wm = MultiWorkspaces::new(SCREEN);
    assert!(wm.add_window(WindowWithInfo::new_tiled(1, SOME_GEOM_A)).is_ok());
    assert!(wm.add_window(WindowWithInfo::new_float(2, SOME_GEOM_B)).is_ok());

    assert!(wm.swap_with_master(2).is_ok());
    assert_eq!(2, wm.get_master_window().unwrap());
    assert!(wm.is_floating(1));
    assert_eq!(SOME_GEOM_A, wm.get_window_info(1).unwrap().geometry);
}

#[test]
fn g_multiple_workspaces_test_swap_windows_on_floating() {
    let mut wm = MultiWorkspaces::new(SCREEN);
    assert!(wm.add_window(WindowWithInfo::new_tiled(1, SOME_GEOM_A)).is_ok());
    assert!(wm.add_window(WindowWithInfo::new_float(2, SOME_GEOM_B)).is_ok());

    wm.swap_windows(PrevOrNext::Prev);

    assert_eq!(1, wm.get_master_window().unwrap());
    assert!(wm.is_floating(2));
    assert_eq!(2, wm.get_focused_window().unwrap());

    wm.swap_windows(PrevOrNext::Next);

    assert_eq!(1, wm.get_master_window().unwrap());
    assert!(wm.is_floating(2));
    assert_eq!(2, wm.get_focused_window().unwrap());
}

#[test]
fn g_multiple_workspaces_test_swap_windows_with_float_focused() {
    let mut wm = MultiWorkspaces::new(SCREEN);
    assert!(wm.add_window(WindowWithInfo::new_tiled(1, SOME_GEOM_A)).is_ok());
    assert!(wm.add_window(WindowWithInfo::new_tiled(2, SOME_GEOM_A)).is_ok());
    assert!(wm.add_window(WindowWithInfo::new_tiled(3, SOME_GEOM_A)).is_ok());
    assert!(wm.add_window(WindowWithInfo::new_float(4, SOME_GEOM_B)).is_ok());

    assert_eq!(Some(4), wm.get_focused_window());
    let initial_layout = wm.get_window_layout();

    wm.swap_windows(PrevOrNext::Prev);
    assert_eq!(initial_layout, wm.get_window_layout());

    wm.swap_windows(PrevOrNext::Next);
    assert_eq!(initial_layout, wm.get_window_layout());
}

#[test]
fn g_multiple_workspaces_test_toggle_floating_focus() {
    let mut wm = MultiWorkspaces::new(SCREEN);
    assert!(wm.add_window(WindowWithInfo::new_tiled(1, SOME_GEOM_A)).is_ok());
    assert!(wm.add_window(WindowWithInfo::new_tiled(2, SOME_GEOM_A)).is_ok());
    assert_eq!(Some(2), wm.get_focused_window());
    assert!(wm.toggle_floating(1).is_ok());
    assert_eq!(Some(1), wm.get_focused_window());
}

#[test]
fn g_multiple_workspaces_test_minimise() {
    let mut wm = MultiWorkspaces::new(SCREEN);

    assert!(wm.add_window(WindowWithInfo::new_float(1, SOME_GEOM)).is_ok());
    assert!(wm.add_window(WindowWithInfo::new_tiled(2, SOME_GEOM)).is_ok());

    assert!(wm.is_managed(1));
    assert!(wm.is_managed(2));
    assert!(!wm.is_minimised(1));
    assert!(!wm.is_minimised(2));
    assert_eq!(2, wm.get_window_layout().windows.len());

    assert!(wm.toggle_minimised(1).is_ok());

    assert!(wm.is_managed(1));
    assert!(wm.is_managed(2));
    assert!(wm.is_minimised(1));
    assert!(!wm.is_minimised(2));
    assert_eq!(1, wm.get_window_layout().windows.len());

    assert!(wm.toggle_minimised(1).is_ok());

    assert!(wm.is_managed(1));
    assert!(wm.is_managed(2));
    assert!(!wm.is_minimised(1));
    assert!(!wm.is_minimised(2));
    assert_eq!(2, wm.get_window_layout().windows.len());

    assert!(wm.toggle_minimised(2).is_ok());

    assert!(wm.is_managed(1));
    assert!(wm.is_managed(2));
    assert!(!wm.is_minimised(1));
    assert!(wm.is_minimised(2));
    assert_eq!(1, wm.get_window_layout().windows.len());

    assert!(wm.toggle_minimised(2).is_ok());

    assert!(wm.is_managed(1));
    assert!(wm.is_managed(2));
    assert!(!wm.is_minimised(1));
    assert!(!wm.is_minimised(2));
    assert_eq!(2, wm.get_window_layout().windows.len());
}

#[test]
fn g_multiple_workspaces_test_minimise_state_after_focus() {
    let mut wm = MultiWorkspaces::new(SCREEN);

    assert!(wm.add_window(WindowWithInfo::new_float(1, SOME_GEOM)).is_ok());
    assert!(wm.add_window(WindowWithInfo::new_tiled(2, SOME_GEOM)).is_ok());

    assert_eq!(Some(2), wm.get_focused_window());

    assert!(wm.toggle_minimised(2).is_ok());

    assert_eq!(None, wm.get_focused_window());

    assert!(wm.focus_window(Some(2)).is_ok());

    assert!(!wm.is_minimised(2));
}

#[test]
fn g_multiple_workspaces_test_minimise_of_floating_window() {
    let mut wm = MultiWorkspaces::new(SCREEN);
    let window_with_info = WindowWithInfo::new_float(1, SOME_GEOM);

    assert!(wm.add_window(window_with_info).is_ok());
    assert_eq!(window_with_info, wm.get_window_info(1).unwrap());

    assert!(wm.toggle_minimised(1).is_ok());
    assert_eq!(window_with_info, wm.get_window_info(1).unwrap());

    assert!(wm.toggle_minimised(1).is_ok());
    assert_eq!(window_with_info, wm.get_window_info(1).unwrap());
}

#[test]
fn g_multiple_workspaces_test_minimise_of_tiled_window() {
    let mut wm = MultiWorkspaces::new(SCREEN);
    assert!(wm.add_window(WindowWithInfo::new_tiled(1, SOME_GEOM)).is_ok());
    assert_eq!(FloatOrTile::Tile, wm.get_window_info(1).unwrap().float_or_tile);

    assert!(wm.toggle_minimised(1).is_ok());
    assert_eq!(FloatOrTile::Tile, wm.get_window_info(1).unwrap().float_or_tile);

    assert!(wm.toggle_minimised(1).is_ok());
    assert_eq!(FloatOrTile::Tile, wm.get_window_info(1).unwrap().float_or_tile);
}

#[test]
fn g_multiple_workspaces_test_minimise_order() {
    let mut wm = MultiWorkspaces::new(SCREEN);

    assert!(wm.add_window(WindowWithInfo::new_float(1, SOME_GEOM)).is_ok());
    assert!(wm.add_window(WindowWithInfo::new_tiled(2, SOME_GEOM)).is_ok());
    assert!(wm.add_window(WindowWithInfo::new_float(3, SOME_GEOM)).is_ok());

    assert_eq!(Vec::<Window>::new(), wm.get_minimised_windows());

    assert!(wm.toggle_minimised(1).is_ok());
    assert_eq!(vec![1], wm.get_minimised_windows());

    assert!(wm.toggle_minimised(3).is_ok());
    assert_eq!(vec![1, 3], wm.get_minimised_windows());

    assert!(wm.toggle_minimised(2).is_ok());
    assert_eq!(vec![1, 3, 2], wm.get_minimised_windows());
}

#[test]
fn g_multiple_workspaces_test_minimise_state_after_cycle_focus() {
    let mut wm = MultiWorkspaces::new(SCREEN);

    assert!(wm.add_window(WindowWithInfo::new_float(1, SOME_GEOM)).is_ok());
    assert!(wm.add_window(WindowWithInfo::new_tiled(2, SOME_GEOM)).is_ok());

    assert_eq!(Some(2), wm.get_focused_window());

    assert!(wm.toggle_minimised(1).is_ok());

    wm.cycle_focus(PrevOrNext::Next);

    assert!(!wm.is_minimised(1));
}
