use todo_drawer::anim::{step_toward, AnimState, DrawerValue};
use todo_drawer::drawer::{drawer, drawer_target, panel_offset_y, MAX_HEIGHT, PADDING, SCRIM_ALPHA};
use todo_drawer::geometry::{Limits, Point, Size};
use todo_drawer::offset::{Length, Offset, Pane, WidgetOps, WidgetSize};

fn settled(open: bool) -> AnimState {
    if open {
        AnimState::new(DrawerValue { scrim_alpha: SCRIM_ALPHA, height: MAX_HEIGHT })
    } else {
        AnimState::new(DrawerValue { scrim_alpha: 0, height: 0 })
    }
}

#[test]
fn closed_settled_at_window_height() {
    let mut a = settled(false);
    let v = drawer(&mut a, false, 1u32, Size { width: 800, height: 600 });
    assert_eq!(v.panel.offset_y, 600);
    assert_eq!(v.scrim.color.alpha, 0);
    assert_eq!(v.scrim.color.red, 0);
    assert!(v.scrim.on_press.is_none());
}

#[test]
fn open_settled_at_resting_offset() {
    let mut a = settled(true);
    let v = drawer(&mut a, true, 1u32, Size { width: 800, height: 600 });
    assert_eq!(v.panel.offset_y, 600 - 350 - 8);
    assert_eq!(v.scrim.color.alpha, 750);
    assert_eq!(v.scrim.color.red, 0);
    assert_eq!(v.scrim.color.green, 0);
    assert_eq!(v.scrim.color.blue, 0);
    assert_eq!(v.scrim.on_press, Some(1u32));
    assert_eq!(v.scrim.top_padding, 350 + 8);
}

#[test]
fn targets_follow_the_flag() {
    assert_eq!(drawer_target(true), DrawerValue { scrim_alpha: 750, height: 350 });
    assert_eq!(drawer_target(false), DrawerValue { scrim_alpha: 0, height: 0 });
}

#[test]
fn offset_formula_mid_flight() {
    // Half deployed: 600 - 175 - (8 * 175) / 350 = 600 - 175 - 4.
    assert_eq!(panel_offset_y(600, 175), 421);
    // A viewport shorter than the panel puts the offset below zero.
    assert_eq!(panel_offset_y(100, 350), 100 - 350 - 8);
    assert_eq!(panel_offset_y(0, 0), 0);
}

#[test]
fn step_halves_the_distance_rounding_up() {
    assert_eq!(step_toward(0, 350), 175);
    assert_eq!(step_toward(175, 350), 263);
    assert_eq!(step_toward(349, 350), 350);
    assert_eq!(step_toward(350, 350), 350);
    assert_eq!(step_toward(10, 0), 5);
    assert_eq!(step_toward(1, 0), 0);
}

#[test]
fn renders_converge_and_remain() {
    let mut a = settled(false);
    let mut frames = 0u32;
    while frames < 64 {
        let v = drawer(&mut a, true, 1u32, Size { width: 800, height: 600 });
        frames += 1;
        if v.panel.offset_y == 600 - 350 - 8 && v.scrim.color.alpha == 750 {
            break;
        }
    }
    assert!(frames < 16);
    assert_eq!(a.current, DrawerValue { scrim_alpha: 750, height: 350 });
    // Once settled, every further render shows the target unchanged.
    for _ in 0..5 {
        let v = drawer(&mut a, true, 1u32, Size { width: 800, height: 600 });
        assert_eq!(v.panel.offset_y, 600 - 350 - 8);
        assert_eq!(v.scrim.color.alpha, 750);
    }
}

#[test]
fn scrim_inert_exactly_while_closed() {
    let opens = [true, true, false, true, false, false, true];
    let mut a = settled(false);
    for &open in opens.iter() {
        let v = drawer(&mut a, open, 1u32, Size { width: 800, height: 600 });
        assert_eq!(v.scrim.on_press.is_some(), open);
    }
}

#[test]
fn rapid_toggle_never_jumps() {
    let mut a = settled(false);
    let mut prev = 0u32;
    for &open in [true, false, true].iter() {
        let target = if open { MAX_HEIGHT } else { 0 };
        drawer(&mut a, open, 1u32, Size { width: 800, height: 600 });
        let h = a.current.height;
        // Each frame stays between the previous frame and the target
        // in force for it: redirected, never discontinuous.
        if prev <= target {
            assert!(prev <= h && h <= target);
        } else {
            assert!(target <= h && h <= prev);
        }
        assert!(h <= MAX_HEIGHT);
        prev = h;
    }
}

#[test]
fn scrim_padding_reserves_panel_footprint() {
    let mut a = settled(false);
    let v = drawer(&mut a, true, 1u32, Size { width: 800, height: 600 });
    assert_eq!(v.scrim.top_padding, a.current.height + PADDING);
    assert_eq!(v.panel.max_height, MAX_HEIGHT);
}

#[test]
fn offset_reports_the_child_size() {
    let pane = Pane { width: 40, height: 20, tag: 9 };
    let wrapped = Offset::new(pane).offset(Point { x: 5, y: 7 });
    assert_eq!(wrapped.size(), pane.size());
    assert_eq!(wrapped.size_hint(), pane.size_hint());
    assert_eq!(wrapped.tag(), 9);
    assert_eq!(
        wrapped.size(),
        WidgetSize { width: Length::Fixed(40), height: Length::Fixed(20) }
    );
}

#[test]
fn offset_translates_position_not_size() {
    let pane = Pane { width: 40, height: 20, tag: 9 };
    let limits = Limits { max_width: 100, max_height: 100 };
    let child_node = pane.layout(&limits);
    let wrapped = Offset::new(pane).offset(Point { x: 5, y: -7 });
    let node = wrapped.layout(&limits);
    assert_eq!((node.x, node.y), (child_node.x + 5, child_node.y - 7));
    assert_eq!((node.width, node.height), (child_node.width, child_node.height));
}

#[test]
fn offset_starts_at_origin() {
    let pane = Pane { width: 40, height: 20, tag: 9 };
    let limits = Limits { max_width: 100, max_height: 100 };
    let node = Offset::new(pane).layout(&limits);
    assert_eq!((node.x, node.y), (0, 0));
}

#[test]
fn layout_clips_to_the_limits() {
    let pane = Pane { width: 400, height: 20, tag: 1 };
    let limits = Limits { max_width: 100, max_height: 100 };
    let node = pane.layout(&limits);
    assert_eq!((node.width, node.height), (100, 20));
}
