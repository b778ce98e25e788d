use display_mover::geometry::{Monitor, Rect};
use display_mover::locate::{find_window, WindowInfo};
use display_mover::numfmt::{i64_dec_string, u64_dec_string};
use display_mover::orchestrate::{
    get_monitor_coords, monitor_names, move_plan, select_monitor, MoveError,
};

fn rect(left: i32, top: i32, right: i32, bottom: i32) -> Rect {
    Rect { left, top, right, bottom }
}

fn monitor(name: &str, primary: bool, r: Rect, w: Rect) -> Monitor {
    Monitor::new(name.to_string(), primary, r, w)
}

fn two_monitors() -> Vec<Monitor> {
    vec![
        monitor(
            "DISPLAY1",
            true,
            rect(0, 0, 1920, 1080),
            rect(0, 0, 1920, 1040),
        ),
        monitor(
            "PHL 242E1",
            false,
            rect(1920, 0, 3840, 1080),
            rect(1920, 0, 3840, 1040),
        ),
    ]
}

#[test]
fn rect_width_height() {
    let r = rect(-1920, -20, 0, 1060);
    assert_eq!(r.width(), 1920);
    assert_eq!(r.height(), 1080);
}

#[test]
fn monitor_getters() {
    let m = monitor("PHL 242E1", true, rect(0, 0, 1920, 1080), rect(0, 0, 1920, 1040));
    assert_eq!(m.device_name(), "PHL 242E1");
    assert!(m.is_primary());
    assert_eq!(*m.virtual_rect(), rect(0, 0, 1920, 1080));
    assert_eq!(*m.virtual_work_rect(), rect(0, 0, 1920, 1040));
    assert_eq!(m.width(), 1920);
    assert_eq!(m.height(), 1080);
}

#[test]
fn work_rect_contained_after_construction() {
    // Every monitor an enumerator yields through try_new has its work
    // rectangle inside its display rectangle.
    let m = Monitor::try_new(
        "DISPLAY1".to_string(),
        true,
        rect(0, 0, 1920, 1080),
        rect(0, 0, 1920, 1040),
    )
    .unwrap();
    let full = m.virtual_rect();
    let work = m.virtual_work_rect();
    assert!(work.left >= full.left);
    assert!(work.top >= full.top);
    assert!(work.right <= full.right);
    assert!(work.bottom <= full.bottom);
}

#[test]
fn try_new_rejects_work_rect_outside() {
    let r = Monitor::try_new(
        "DISPLAY1".to_string(),
        true,
        rect(0, 0, 1920, 1080),
        rect(-10, 0, 1920, 1040),
    );
    assert!(r.is_none());
}

#[test]
fn try_new_rejects_unordered_edges() {
    let r = Monitor::try_new(
        "DISPLAY1".to_string(),
        false,
        rect(100, 0, 0, 1080),
        rect(100, 0, 0, 1040),
    );
    assert!(r.is_none());
}

#[test]
fn matching_is_case_sensitive() {
    let monitors = vec![monitor(
        "phl-monitor",
        true,
        rect(0, 0, 100, 100),
        rect(0, 0, 100, 90),
    )];
    let r = select_monitor(&monitors, "PHL");
    assert!(matches!(r, Err(MoveError::MonitorNotFound { .. })));
}

#[test]
fn inline_flag_makes_matching_case_insensitive() {
    let monitors = vec![monitor(
        "mimo-display",
        true,
        rect(0, 0, 100, 100),
        rect(0, 0, 100, 90),
    )];
    let r = select_monitor(&monitors, "(?i)MIMO");
    assert_eq!(r, Ok(0));
}

#[test]
fn match_anywhere_not_anchored() {
    let monitors = two_monitors();
    assert_eq!(select_monitor(&monitors, "242"), Ok(1));
}

#[test]
fn first_match_wins() {
    let monitors = two_monitors();
    // Both names contain a digit 1; the first in enumeration order wins.
    assert_eq!(select_monitor(&monitors, "1"), Ok(0));
}

#[test]
fn invalid_pattern_reported() {
    let monitors = two_monitors();
    let r = select_monitor(&monitors, "foo(bar");
    match r {
        Err(MoveError::InvalidPattern { pattern }) => assert_eq!(pattern, "foo(bar"),
        other => panic!("expected InvalidPattern, got {:?}", other),
    }
}

#[test]
fn monitor_not_found_lists_all_names() {
    let monitors = two_monitors();
    let r = select_monitor(&monitors, "DELL");
    match r {
        Err(MoveError::MonitorNotFound { pattern, available }) => {
            assert_eq!(pattern, "DELL");
            assert_eq!(available, vec!["DISPLAY1".to_string(), "PHL 242E1".to_string()]);
        },
        other => panic!("expected MonitorNotFound, got {:?}", other),
    }
}

#[test]
fn monitor_names_in_order() {
    let monitors = two_monitors();
    assert_eq!(
        monitor_names(&monitors),
        vec!["DISPLAY1".to_string(), "PHL 242E1".to_string()]
    );
}

#[test]
fn find_window_picks_first_visible_match() {
    let ws = vec![
        WindowInfo { hwnd: 11, pid: 7, iconic: false },
        WindowInfo { hwnd: 22, pid: 9, iconic: true },
        WindowInfo { hwnd: 33, pid: 9, iconic: false },
        WindowInfo { hwnd: 44, pid: 9, iconic: false },
    ];
    assert_eq!(find_window(&ws, 9), Some(33));
}

#[test]
fn find_window_skips_minimized() {
    let ws = vec![WindowInfo { hwnd: 22, pid: 9, iconic: true }];
    assert_eq!(find_window(&ws, 9), None);
}

#[test]
fn find_window_no_owner() {
    let ws = vec![WindowInfo { hwnd: 11, pid: 7, iconic: false }];
    assert_eq!(find_window(&ws, 9), None);
}

#[test]
fn move_without_window_reports_pid() {
    let monitors = two_monitors();
    let ws = vec![WindowInfo { hwnd: 11, pid: 7, iconic: false }];
    let r = move_plan(&monitors, "PHL", 9716, &ws);
    assert_eq!(r, Err(MoveError::WindowNotFound { pid: 9716 }));
}

#[test]
fn move_without_monitor_reports_pattern_and_names() {
    let monitors = two_monitors();
    let ws = vec![WindowInfo { hwnd: 11, pid: 9716, iconic: false }];
    let r = move_plan(&monitors, "DELL", 9716, &ws);
    match r {
        Err(MoveError::MonitorNotFound { pattern, available }) => {
            assert_eq!(pattern, "DELL");
            assert_eq!(available, vec!["DISPLAY1".to_string(), "PHL 242E1".to_string()]);
        },
        other => panic!("expected MonitorNotFound, got {:?}", other),
    }
}

#[test]
fn move_invalid_pattern_takes_precedence() {
    let monitors = two_monitors();
    let ws = vec![WindowInfo { hwnd: 33, pid: 9716, iconic: false }];
    let r = move_plan(&monitors, "foo(bar", 9716, &ws);
    match r {
        Err(MoveError::InvalidPattern { pattern }) => assert_eq!(pattern, "foo(bar"),
        other => panic!("expected InvalidPattern, got {:?}", other),
    }
}

#[test]
fn move_monitor_failure_takes_precedence_over_window() {
    // Neither a monitor nor a window matches; the monitor failure is the
    // one reported.
    let monitors = two_monitors();
    let ws: Vec<WindowInfo> = Vec::new();
    let r = move_plan(&monitors, "DELL", 9716, &ws);
    assert!(matches!(r, Err(MoveError::MonitorNotFound { .. })));
}

#[test]
fn move_plan_targets_full_rect_of_first_match() {
    let monitors = two_monitors();
    let ws = vec![
        WindowInfo { hwnd: 11, pid: 7, iconic: false },
        WindowInfo { hwnd: 33, pid: 9716, iconic: false },
    ];
    let a = move_plan(&monitors, "PHL", 9716, &ws).unwrap();
    assert_eq!(a.hwnd, 33);
    assert_eq!(a.x, 1920);
    assert_eq!(a.y, 0);
    assert_eq!(a.width, 1920);
    assert_eq!(a.height, 1080);
}

#[test]
fn move_twice_same_plan() {
    // With the window unmoved between the calls, the second invocation plans
    // the very same placement, so the final window rectangle is the same.
    let monitors = two_monitors();
    let ws = vec![WindowInfo { hwnd: 33, pid: 9716, iconic: false }];
    let first = move_plan(&monitors, "PHL", 9716, &ws);
    let second = move_plan(&monitors, "PHL", 9716, &ws);
    assert!(first.is_ok());
    assert_eq!(first, second);
}

#[test]
fn test_move_pid_windows_to_monitor() {
    // The surrounding application enumerates monitors and windows through
    // the platform; here the same decision core runs on a snapshot of such
    // an enumeration.
    let pid = 9716;
    let monitor_regex = r"PHL";
    let monitors = two_monitors();
    let ws = vec![WindowInfo { hwnd: 33, pid: 9716, iconic: false }];
    let result = move_plan(&monitors, monitor_regex, pid, &ws);
    assert!(result.is_ok(), "Failed to move window: {:?}", result);
}

#[test]
fn coords_line_exact() {
    let monitors = vec![monitor(
        "DISPLAY1",
        true,
        rect(0, 0, 1920, 1080),
        rect(0, 0, 1920, 1040),
    )];
    let s = get_monitor_coords(&monitors, "DISPLAY1").unwrap();
    assert_eq!(
        s,
        "New-Object PSObject -Property @{DeviceName='DISPLAY1'; Left=0; Top=0; Width=1920; Height=1040}"
    );
}

#[test]
fn coords_line_negative_origin() {
    let monitors = vec![monitor(
        "PHL 242E1",
        false,
        rect(-1920, -8, 0, 1072),
        rect(-1920, -8, 0, 1032),
    )];
    let s = get_monitor_coords(&monitors, "PHL").unwrap();
    assert_eq!(
        s,
        "New-Object PSObject -Property @{DeviceName='PHL 242E1'; Left=-1920; Top=-8; Width=1920; Height=1040}"
    );
}

#[test]
fn coords_uses_work_rect_not_full_rect() {
    let monitors = vec![monitor(
        "DISPLAY1",
        true,
        rect(0, 0, 1920, 1080),
        rect(0, 40, 1920, 1080),
    )];
    let s = get_monitor_coords(&monitors, "DISPLAY1").unwrap();
    assert_eq!(
        s,
        "New-Object PSObject -Property @{DeviceName='DISPLAY1'; Left=0; Top=40; Width=1920; Height=1040}"
    );
}

#[test]
fn coords_no_match_fails() {
    let monitors = two_monitors();
    let r = get_monitor_coords(&monitors, "DELL");
    assert!(matches!(r, Err(MoveError::MonitorNotFound { .. })));
}

#[test]
fn decimal_rendering_exact() {
    assert_eq!(u64_dec_string(0), "0");
    assert_eq!(u64_dec_string(7), "7");
    assert_eq!(u64_dec_string(1040), "1040");
    assert_eq!(u64_dec_string(18446744073709551615), "18446744073709551615");
    assert_eq!(i64_dec_string(0), "0");
    assert_eq!(i64_dec_string(-1), "-1");
    assert_eq!(i64_dec_string(1920), "1920");
    assert_eq!(i64_dec_string(i64::MIN), "-9223372036854775808");
    assert_eq!(i64_dec_string(9223372036854775807), "9223372036854775807");
}

#[test]
fn empty_monitor_list_is_monitor_not_found() {
    let monitors: Vec<Monitor> = Vec::new();
    let r = select_monitor(&monitors, ".*");
    match r {
        Err(MoveError::MonitorNotFound { pattern, available }) => {
            assert_eq!(pattern, ".*");
            assert!(available.is_empty());
        },
        other => panic!("expected MonitorNotFound, got {:?}", other),
    }
}
