use window_layout::fullscreen::FullscreenWM;
use window_layout::types::{Geometry, PrevOrNext, Screen, WindowLayout, WindowWithInfo};

const SCREEN: Screen = Screen { width: 800, height: 600 };

const SOME_GEOM: Geometry = Geometry { x: 10, y: 10, width: 100, height: 100 };

#[test]
fn a_fullscreen_wm_test_empty_tiling_wm() {
    let wm = FullscreenWM::new(SCREEN);
    assert_eq!(WindowLayout::new(), wm.get_window_layout());
    assert_eq!(0, wm.get_windows().len());
    assert_eq!(SCREEN, wm.get_screen());
}

#[test]
fn a_fullscreen_wm_test_adding_and_removing_some_windows() {
    let mut wm = FullscreenWM::new(SCREEN);
    let window_a = WindowWithInfo::new_tiled(1, SOME_GEOM);
    let window_b = WindowWithInfo::new_tiled(2, SOME_GEOM);

    assert!(wm.add_window(window_a).is_ok());
    assert!(wm.is_managed(1));
    assert_eq!(vec![1], wm.get_windows());
    assert_eq!(Some(1), wm.get_focused_window());

    assert!(wm.add_window(window_b).is_ok());
    assert!(wm.is_managed(2));
    assert_eq!(vec![1, 2], wm.get_windows());
    assert_eq!(Some(2), wm.get_focused_window());

    assert!(wm.remove_window(1).is_ok());
    assert!(!wm.is_managed(1));
    assert!(wm.is_managed(2));
    assert_eq!(vec![2], wm.get_windows());
    assert_eq!(Some(2), wm.get_focused_window());

    assert!(wm.add_window(window_a).is_ok());
    assert_eq!(Some(1), wm.get_focused_window());
    assert!(wm.remove_window(1).is_ok());
    assert!(!wm.is_managed(1));
    assert!(wm.is_managed(2));
    assert_eq!(vec![2], wm.get_windows());
    assert_eq!(Some(2), wm.get_focused_window());

    assert!(wm.add_window(window_b).is_err(), "adding window twice should error");
    assert!(wm.remove_window(300).is_err(), "removing unmanaged window should error");
}

#[test]
fn a_fullscreen_wm_test_focus_and_unfocus_window() {
    let mut wm = FullscreenWM::new(SCREEN);
    assert_eq!(None, wm.get_focused_window());
    assert_eq!(None, wm.get_window_layout().focused_window);

    assert!(wm.add_window(WindowWithInfo::new_tiled(1, SOME_GEOM)).is_ok());
    assert_eq!(Some(1), wm.get_focused_window());
    assert_eq!(Some(1), wm.get_window_layout().focused_window);

    assert!(wm.focus_window(None).is_ok());
    assert_eq!(None, wm.get_focused_window());
    assert_eq!(None, wm.get_window_layout().focused_window);

    assert!(wm.focus_window(Some(1)).is_ok());
    assert_eq!(Some(1), wm.get_focused_window());
    assert_eq!(Some(1), wm.get_window_layout().focused_window);

    assert!(wm.focus_window(Some(404)).is_err());
}

#[test]
fn a_fullscreen_wm_test_cycle_focus_none_and_one_window() {
    let mut wm = FullscreenWM::new(SCREEN);
    assert_eq!(None, wm.get_focused_window());
    assert_eq!(None, wm.get_window_layout().focused_window);

    wm.cycle_focus(PrevOrNext::Next);
    assert_eq!(None, wm.get_focused_window());
    assert_eq!(None, wm.get_window_layout().focused_window);
    wm.cycle_focus(PrevOrNext::Prev);
    assert_eq!(None, wm.get_focused_window());
    assert_eq!(None, wm.get_window_layout().focused_window);

    assert!(wm.add_window(WindowWithInfo::new_tiled(1, SOME_GEOM)).is_ok());
    assert_eq!(Some(1), wm.get_focused_window());
    assert_eq!(Some(1), wm.get_window_layout().focused_window);

    wm.cycle_focus(PrevOrNext::Next);
    assert_eq!(Some(1), wm.get_focused_window());
    assert_eq!(Some(1), wm.get_window_layout().focused_window);
    wm.cycle_focus(PrevOrNext::Prev);
    assert_eq!(Some(1), wm.get_focused_window());
    assert_eq!(Some(1), wm.get_window_layout().focused_window);
    assert!(wm.focus_window(None).is_ok());
    wm.cycle_focus(PrevOrNext::Next);
    assert_eq!(Some(1), wm.get_focused_window());
    assert_eq!(Some(1), wm.get_window_layout().focused_window);
    assert!(wm.focus_window(None).is_ok());
    wm.cycle_focus(PrevOrNext::Prev);
    assert_eq!(Some(1), wm.get_focused_window());
    assert_eq!(Some(1), wm.get_window_layout().focused_window);
}

#[test]
fn a_fullscreen_wm_test_cycle_focus_multiple_windows() {
    let mut wm = FullscreenWM::new(SCREEN);
    assert_eq!(0, wm.get_windows().len());

    assert!(wm.add_window(WindowWithInfo::new_tiled(1, SOME_GEOM)).is_ok());
    assert!(wm.add_window(WindowWithInfo::new_tiled(2, SOME_GEOM)).is_ok());
    assert!(wm.add_window(WindowWithInfo::new_tiled(3, SOME_GEOM)).is_ok());
    assert_eq!(Some(3), wm.get_focused_window());
    assert_eq!(Some(3), wm.get_window_layout().focused_window);

    wm.cycle_focus(PrevOrNext::Prev);
    assert_eq!(Some(2), wm.get_focused_window());
    assert_eq!(Some(2), wm.get_window_layout().focused_window);

    wm.cycle_focus(PrevOrNext::Next);
    assert_eq!(Some(3), wm.get_focused_window());
    assert_eq!(Some(3), wm.get_window_layout().focused_window);

    wm.cycle_focus(PrevOrNext::Next);
    assert_eq!(Some(1), wm.get_focused_window());
    assert_eq!(Some(1), wm.get_window_layout().focused_window);

    assert!(wm.focus_window(None).is_ok());
    wm.cycle_focus(PrevOrNext::Prev);
    assert_eq!(Some(1), wm.get_focused_window());
    assert_eq!(Some(1), wm.get_window_layout().focused_window);
}

#[test]
fn a_fullscreen_wm_test_get_window_info() {
    let mut wm = FullscreenWM::new(SCREEN);
    assert!(wm.add_window(WindowWithInfo::new_tiled(1, SOME_GEOM)).is_ok());
    assert!(wm.add_window(WindowWithInfo::new_tiled(2, SOME_GEOM)).is_ok());
    assert!(wm.add_window(WindowWithInfo::new_tiled(3, SOME_GEOM)).is_ok());

    for window in wm.get_windows() {
        assert!(
            wm.get_window_info(window).is_ok(),
            "should return window_info for each managed window"
        );
    }
    assert!(wm.get_window_info(300).is_err(), "should error for unmanaged window");
}

#[test]
fn a_fullscreen_wm_test_resize_screen() {
    let mut wm = FullscreenWM::new(SCREEN);
    let new_screen = Screen { width: 1000, height: 1000 };
    assert_eq!(SCREEN, wm.get_screen());
    wm.resize_screen(new_screen);
    assert_eq!(new_screen, wm.get_screen());
}
