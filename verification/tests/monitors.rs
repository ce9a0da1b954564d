use p2d_core::get_app_info;
use p2d_core::input::InputEvent;
use p2d_core::input::plan_mouse_move;
use p2d_core::monitor::MonitorDescriptor;
use p2d_core::monitor::NormalizedPoint;
use p2d_core::monitor::find_by_name;
use p2d_core::monitor::map_to_absolute;
use p2d_core::monitor::resolve;

fn monitor(name: Option<&str>, width: u32, height: u32, x: i32, y: i32) -> MonitorDescriptor {
    MonitorDescriptor {
        name: name.map(|n| n.to_string()),
        width,
        height,
        origin_x: x,
        origin_y: y,
    }
}

#[test]
fn app_info_is_static_metadata() {
    let info = get_app_info();
    assert_eq!(info.name, "P2D");
    assert_eq!(info.version, "0.1.0");
    assert_eq!(info.description, "P2P Desktop Sharing Application");
}

#[test]
fn center_of_primary_monitor_maps_to_960_540() {
    let m = monitor(None, 1920, 1080, 0, 0);
    let p = NormalizedPoint { x_micros: 500_000, y_micros: 500_000 };
    assert_eq!(map_to_absolute(&m, &p), (960, 540));
}

#[test]
fn corner_of_second_monitor_keeps_its_origin() {
    let m = monitor(None, 1920, 1080, 1920, 0);
    let p = NormalizedPoint { x_micros: 0, y_micros: 0 };
    assert_eq!(map_to_absolute(&m, &p), (1920, 0));
}

#[test]
fn mapping_truncates_toward_zero() {
    let m = monitor(None, 1920, 1080, 0, 0);
    // 0.333333 * 1920 = 639.99936 and 0.333333 * 1080 = 359.99964
    let p = NormalizedPoint { x_micros: 333_333, y_micros: 333_333 };
    assert_eq!(map_to_absolute(&m, &p), (639, 359));
    // -0.5 * 1920 = -960 exactly; -0.333333 * 1080 truncates to -359
    let q = NormalizedPoint { x_micros: -500_000, y_micros: -333_333 };
    assert_eq!(map_to_absolute(&m, &q), (-960, -359));
}

#[test]
fn mapping_accepts_out_of_range_fractions() {
    let m = monitor(None, 1000, 500, -200, 100);
    // 1.5 of the width lands half a monitor beyond the right edge.
    let p = NormalizedPoint { x_micros: 1_500_000, y_micros: 2_000_000 };
    assert_eq!(map_to_absolute(&m, &p), (-200 + 1500, 100 + 1000));
}

#[test]
fn find_by_name_returns_first_exact_match() {
    let monitors = vec![
        monitor(None, 800, 600, 0, 0),
        monitor(Some("DP-1"), 1920, 1080, 0, 0),
        monitor(Some("DP-1"), 1280, 720, 1920, 0),
    ];
    assert_eq!(find_by_name(&monitors, "DP-1"), Some(1));
}

#[test]
fn find_by_name_skips_unnamed_monitors() {
    let monitors = vec![monitor(None, 800, 600, 0, 0)];
    assert_eq!(find_by_name(&monitors, ""), None);
    assert_eq!(find_by_name(&monitors, "DP-1"), None);
}

#[test]
fn resolve_unknown_name_is_none() {
    let monitors = vec![monitor(Some("DP-1"), 1920, 1080, 0, 0)];
    let r = resolve(&monitors, &Some("nonexistent".to_string()), &None);
    assert!(r.is_none());
}

#[test]
fn resolve_without_name_uses_current_monitor() {
    let monitors = vec![monitor(Some("DP-1"), 1920, 1080, 0, 0)];
    let current = Some(monitor(Some("HDMI-1"), 1280, 720, 1920, 0));
    let r = resolve(&monitors, &None, &current).expect("current monitor");
    assert_eq!(r.name.as_deref(), Some("HDMI-1"));
    assert_eq!(r.width, 1280);
}

#[test]
fn mouse_move_to_nonexistent_monitor_plans_no_host_call() {
    let monitors = vec![monitor(Some("DP-1"), 1920, 1080, 0, 0)];
    let p = NormalizedPoint { x_micros: 500_000, y_micros: 500_000 };
    let plan = plan_mouse_move(&monitors, &Some("nonexistent".to_string()), &None, &p);
    assert!(plan.is_none());
}

#[test]
fn mouse_move_maps_onto_named_monitor() {
    let monitors = vec![
        monitor(Some("DP-1"), 1920, 1080, 0, 0),
        monitor(Some("HDMI-1"), 1920, 1080, 1920, 0),
    ];
    let p = NormalizedPoint { x_micros: 500_000, y_micros: 0 };
    let plan = plan_mouse_move(&monitors, &Some("HDMI-1".to_string()), &None, &p);
    assert!(matches!(plan, Some(InputEvent::MouseMove { x: 2880, y: 0 })));
}

#[test]
fn mouse_move_without_target_uses_current_monitor() {
    let monitors = vec![monitor(Some("DP-1"), 1920, 1080, 0, 0)];
    let current = Some(monitor(None, 1000, 1000, -1000, -1000));
    let p = NormalizedPoint { x_micros: 250_000, y_micros: 750_000 };
    let plan = plan_mouse_move(&monitors, &None, &current, &p);
    assert!(matches!(plan, Some(InputEvent::MouseMove { x: -750, y: -250 })));
}
