//! Orchestration: match a pattern against the enumerated display names,
//! pick the first matching monitor, and either plan a window placement for a
//! process's window or format the monitor's working geometry for external
//! scripting.
//!
//! "First match wins" for both the monitor pattern and the window candidate:
//! an ambiguous pattern silently selects the first matching monitor in
//! enumeration order. This is a deliberate simplicity trade-off, not a
//! robustness guarantee.

use vstd::prelude::*;
use vstd::string::StringExecFns;

use crate::geometry::Monitor;
use crate::locate::{find_window, is_first_window, no_window, window_matches, WindowInfo};
use crate::numfmt::{i64_dec_string, spec_dec};
use crate::pattern::{compile_pattern, pattern_is_match, pattern_ok, regex_match, regex_source};

verus! {

/// Why an invocation failed. Every failure is terminal: nothing is retried.
#[derive(Clone, Debug, PartialEq)]
pub enum MoveError {
    /// The supplied pattern does not compile as a regular expression.
    InvalidPattern { pattern: String },
    /// No enumerated monitor name matches the pattern; carries the pattern
    /// and the full list of enumerated names to aid diagnosis.
    MonitorNotFound { pattern: String, available: Vec<String> },
    /// The process owns no visible (non-minimized) top-level window.
    WindowNotFound { pid: isize },
    /// A native platform call failed; carries the platform's message.
    PlatformCallFailure { message: String },
}

/// A monitor is selected when the pattern matches anywhere in its device
/// name.
pub open spec fn monitor_matches(pattern: Seq<char>, m: Monitor) -> bool {
    regex_match(pattern, m.spec_device_name())
}

/// No enumerated monitor's name matches the pattern.
pub open spec fn no_monitor_match(pattern: Seq<char>, ms: Seq<Monitor>) -> bool {
    forall|j: int| 0 <= j < ms.len() ==> !monitor_matches(pattern, ms[j])
}

/// `i` is the position of the first monitor whose name matches, in
/// enumeration order.
pub open spec fn is_first_match(pattern: Seq<char>, ms: Seq<Monitor>, i: int) -> bool {
    &&& 0 <= i < ms.len()
    &&& monitor_matches(pattern, ms[i])
    &&& forall|j: int| 0 <= j < i ==> !monitor_matches(pattern, ms[j])
}

/// `names` lists exactly the device names of `ms`, in order.
pub open spec fn lists_names(names: Seq<String>, ms: Seq<Monitor>) -> bool {
    &&& names.len() == ms.len()
    &&& forall|j: int| 0 <= j < ms.len() ==> names[j]@ == ms[j].spec_device_name()
}

/// The device names of all enumerated monitors, in enumeration order.
pub fn monitor_names(monitors: &Vec<Monitor>) -> (names: Vec<String>)
    ensures
        lists_names(names@, monitors@),
{
    let mut names: Vec<String> = Vec::new();
    let mut i: usize = 0;
    while i < monitors.len()
        invariant
            i <= monitors.len(),
            names@.len() == i,
            forall|j: int| 0 <= j < i ==> names@[j]@ == monitors@[j].spec_device_name(),
        decreases monitors.len() - i,
    {
        names.push(monitors[i].device_name().to_owned());
        i += 1;
    }
    names
}

fn first_matching_monitor(monitors: &Vec<Monitor>, re: &regex::Regex) -> (r: Option<usize>)
    ensures
        match r {
            Some(i) => is_first_match(regex_source(*re), monitors@, i as int),
            None => no_monitor_match(regex_source(*re), monitors@),
        },
{
    let mut i: usize = 0;
    while i < monitors.len()
        invariant
            i <= monitors.len(),
            forall|j: int| 0 <= j < i ==> !monitor_matches(regex_source(*re), monitors@[j]),
        decreases monitors.len() - i,
    {
        if pattern_is_match(re, monitors[i].device_name()) {
            return Some(i);
        }
        i += 1;
    }
    None
}

/// What `select_monitor` promises: the index of the first monitor whose name
/// matches the pattern, or the precise failure.
pub open spec fn select_monitor_post(
    ms: Seq<Monitor>,
    pattern: Seq<char>,
    r: Result<usize, MoveError>,
) -> bool {
    match r {
        Result::Ok(i) => pattern_ok(pattern) && is_first_match(pattern, ms, i as int),
        Result::Err(e) => match e {
            MoveError::InvalidPattern { pattern: p } => !pattern_ok(pattern) && p@ == pattern,
            MoveError::MonitorNotFound { pattern: p, available } => {
                &&& pattern_ok(pattern)
                &&& no_monitor_match(pattern, ms)
                &&& p@ == pattern
                &&& lists_names(available@, ms)
            },
            _ => false,
        },
    }
}

/// Selects the first monitor, in enumeration order, whose device name the
/// pattern matches. Returns its index; fails exactly when the pattern does
/// not compile, or when no monitor name matches (then listing every
/// enumerated name).
pub fn select_monitor(monitors: &Vec<Monitor>, pattern: &str) -> (r: Result<usize, MoveError>)
    ensures
        select_monitor_post(monitors@, pattern@, r),
{
    let re = match compile_pattern(pattern) {
        Some(re) => re,
        None => {
            return Err(MoveError::InvalidPattern { pattern: pattern.to_owned() });
        },
    };
    match first_matching_monitor(monitors, &re) {
        Some(i) => Ok(i),
        None => Err(
            MoveError::MonitorNotFound {
                pattern: pattern.to_owned(),
                available: monitor_names(monitors),
            },
        ),
    }
}

/// The placement the platform is asked to perform: move the window with
/// handle `hwnd` so that its rectangle becomes exactly the target monitor's
/// display rectangle, without changing z-order and without focusing it.
#[derive(Clone, Copy, Debug, PartialEq, Eq, Structural)]
pub struct MoveAction {
    pub hwnd: isize,
    pub x: i32,
    pub y: i32,
    pub width: i64,
    pub height: i64,
}

/// `a` places window `h` onto monitor `m`: the target is `m`'s full display
/// rectangle.
pub open spec fn is_move_action(a: MoveAction, m: Monitor, h: isize) -> bool {
    &&& a.hwnd == h
    &&& a.x == m.spec_rect().left
    &&& a.y == m.spec_rect().top
    &&& a.width == m.spec_rect().spec_width()
    &&& a.height == m.spec_rect().spec_height()
}

/// What `move_plan` promises, for every combination of inputs.
pub open spec fn move_plan_post(
    ms: Seq<Monitor>,
    pattern: Seq<char>,
    pid: isize,
    ws: Seq<WindowInfo>,
    r: Result<MoveAction, MoveError>,
) -> bool {
    match r {
        Result::Ok(a) => {
            &&& pattern_ok(pattern)
            &&& exists|i: int, k: int|
                #![trigger is_first_match(pattern, ms, i), is_first_window(ws, pid as u32, k)]
                {
                    &&& is_first_match(pattern, ms, i)
                    &&& is_first_window(ws, pid as u32, k)
                    &&& is_move_action(a, ms[i], ws[k].hwnd)
                }
        },
        Result::Err(e) => match e {
            MoveError::InvalidPattern { pattern: p } => !pattern_ok(pattern) && p@ == pattern,
            MoveError::MonitorNotFound { pattern: p, available } => {
                &&& pattern_ok(pattern)
                &&& no_monitor_match(pattern, ms)
                &&& p@ == pattern
                &&& lists_names(available@, ms)
            },
            MoveError::WindowNotFound { pid: q } => {
                &&& pattern_ok(pattern)
                &&& exists|i: int| is_first_match(pattern, ms, i)
                &&& no_window(ws, pid as u32)
                &&& q == pid
            },
            MoveError::PlatformCallFailure { .. } => false,
        },
    }
}

/// Decides what the `move` command does: select the first monitor whose name
/// matches the pattern, pick the process's first visible top-level window,
/// and plan the placement of that window onto that monitor's display
/// rectangle. The platform hands in the enumerated monitors and windows and
/// performs the returned action.
///
/// Fails exactly when the pattern does not compile, when no monitor name
/// matches (listing every enumerated name), or when the process owns no
/// visible window (naming the pid).
pub fn move_plan(
    monitors: &Vec<Monitor>,
    pattern: &str,
    pid: isize,
    windows: &Vec<WindowInfo>,
) -> (r: Result<MoveAction, MoveError>)
    ensures
        move_plan_post(monitors@, pattern@, pid, windows@, r),
{
    let idx = match select_monitor(monitors, pattern) {
        Ok(i) => i,
        Err(e) => {
            return Err(e);
        },
    };
    let key: u32 = #[verifier::truncate] (pid as u32);
    let hwnd = match find_window(windows, key) {
        Some(h) => h,
        None => {
            return Err(MoveError::WindowNotFound { pid });
        },
    };
    let rect = monitors[idx].virtual_rect();
    let action = MoveAction {
        hwnd,
        x: rect.left,
        y: rect.top,
        width: rect.width(),
        height: rect.height(),
    };
    proof {
        let k = choose|k: int|
            is_first_window(windows@, key, k) && hwnd == windows@[k].hwnd;
        assert(is_first_match(pattern@, monitors@, idx as int) && is_first_window(
            windows@,
            pid as u32,
            k,
        ) && is_move_action(action, monitors@[idx as int], windows@[k].hwnd));
        assert(move_plan_post(monitors@, pattern@, pid, windows@, Ok(action)));
    }
    Ok(action)
}

/// The one-line object literal describing a monitor's working rectangle —
/// device name, left, top, width, height — in the external scripting
/// environment's object-construction syntax.
pub open spec fn spec_coords_line(
    name: Seq<char>,
    left: int,
    top: int,
    width: int,
    height: int,
) -> Seq<char> {
    "New-Object PSObject -Property @{DeviceName='"@ + name + "'; Left="@ + spec_dec(left)
        + "; Top="@ + spec_dec(top) + "; Width="@ + spec_dec(width) + "; Height="@ + spec_dec(
        height,
    ) + "}"@
}

/// What `get_monitor_coords` promises, for every combination of inputs.
pub open spec fn coords_post(
    ms: Seq<Monitor>,
    pattern: Seq<char>,
    r: Result<String, MoveError>,
) -> bool {
    match r {
        Result::Ok(s) => {
            &&& pattern_ok(pattern)
            &&& exists|i: int|
                #[trigger] is_first_match(pattern, ms, i) && s@ == spec_coords_line(
                    ms[i].spec_device_name(),
                    ms[i].spec_work_rect().left as int,
                    ms[i].spec_work_rect().top as int,
                    ms[i].spec_work_rect().spec_width(),
                    ms[i].spec_work_rect().spec_height(),
                )
        },
        Result::Err(e) => select_monitor_post(ms, pattern, Result::Err(e)),
    }
}

/// Describes the working rectangle of the first monitor whose device name
/// matches the pattern, as one line for the external scripting environment.
/// Fails exactly as `select_monitor` does.
pub fn get_monitor_coords(monitors: &Vec<Monitor>, pattern: &str) -> (r: Result<String, MoveError>)
    ensures
        coords_post(monitors@, pattern@, r),
{
    let idx = match select_monitor(monitors, pattern) {
        Ok(i) => i,
        Err(e) => {
            return Err(e);
        },
    };
    let m = &monitors[idx];
    let work = m.virtual_work_rect();
    let mut s = "New-Object PSObject -Property @{DeviceName='".to_owned();
    s.append(m.device_name());
    s.append("'; Left=");
    let left_text = i64_dec_string(work.left as i64);
    s.append(left_text.as_str());
    s.append("; Top=");
    let top_text = i64_dec_string(work.top as i64);
    s.append(top_text.as_str());
    s.append("; Width=");
    let width_text = i64_dec_string(work.width());
    s.append(width_text.as_str());
    s.append("; Height=");
    let height_text = i64_dec_string(work.height());
    s.append(height_text.as_str());
    s.append("}");
    proof {
        assert(is_first_match(pattern@, monitors@, idx as int) && s@ == spec_coords_line(
            monitors@[idx as int].spec_device_name(),
            monitors@[idx as int].spec_work_rect().left as int,
            monitors@[idx as int].spec_work_rect().top as int,
            monitors@[idx as int].spec_work_rect().spec_width(),
            monitors@[idx as int].spec_work_rect().spec_height(),
        ));
    }
    Ok(s)
}

/// Law: there is at most one position of the first matching monitor —
/// "first match wins" is unambiguous for a given enumeration.
pub proof fn lemma_first_match_unique(pattern: Seq<char>, ms: Seq<Monitor>, i: int, j: int)
    requires
        is_first_match(pattern, ms, i),
        is_first_match(pattern, ms, j),
    ensures
        i == j,
{
    if i < j {
        assert(!monitor_matches(pattern, ms[i]));
    }
    if j < i {
        assert(!monitor_matches(pattern, ms[j]));
    }
}

/// Two failures are the same when they are the same variant and carry the
/// same values.
pub open spec fn same_error(e1: MoveError, e2: MoveError) -> bool {
    match (e1, e2) {
        (
            MoveError::InvalidPattern { pattern: p1 },
            MoveError::InvalidPattern { pattern: p2 },
        ) => p1@ == p2@,
        (
            MoveError::MonitorNotFound { pattern: p1, available: a1 },
            MoveError::MonitorNotFound { pattern: p2, available: a2 },
        ) => {
            &&& p1@ == p2@
            &&& a1@.len() == a2@.len()
            &&& forall|j: int| 0 <= j < a1@.len() ==> a1@[j]@ == a2@[j]@
        },
        (MoveError::WindowNotFound { pid: q1 }, MoveError::WindowNotFound { pid: q2 }) => q1 == q2,
        (
            MoveError::PlatformCallFailure { message: m1 },
            MoveError::PlatformCallFailure { message: m2 },
        ) => m1@ == m2@,
        _ => false,
    }
}

/// Law: planning is deterministic. Two plans made from the same enumerated
/// monitors, the same pattern, the same pid and the same enumerated windows
/// agree: both succeed with the same placement, or both fail with the same
/// failure.
pub proof fn lemma_move_plan_deterministic(
    ms: Seq<Monitor>,
    pattern: Seq<char>,
    pid: isize,
    ws: Seq<WindowInfo>,
    r1: Result<MoveAction, MoveError>,
    r2: Result<MoveAction, MoveError>,
)
    requires
        move_plan_post(ms, pattern, pid, ws, r1),
        move_plan_post(ms, pattern, pid, ws, r2),
    ensures
        r1 is Ok <==> r2 is Ok,
        r1 is Ok ==> r1->Ok_0 == r2->Ok_0,
        r1 is Err ==> same_error(r1->Err_0, r2->Err_0),
{
    match (r1, r2) {
        (Result::Ok(a1), Result::Ok(a2)) => {
            let (i1, k1) = choose|i: int, k: int|
                #![trigger is_first_match(pattern, ms, i), is_first_window(ws, pid as u32, k)]
                {
                    &&& is_first_match(pattern, ms, i)
                    &&& is_first_window(ws, pid as u32, k)
                    &&& is_move_action(a1, ms[i], ws[k].hwnd)
                };
            let (i2, k2) = choose|i: int, k: int|
                #![trigger is_first_match(pattern, ms, i), is_first_window(ws, pid as u32, k)]
                {
                    &&& is_first_match(pattern, ms, i)
                    &&& is_first_window(ws, pid as u32, k)
                    &&& is_move_action(a2, ms[i], ws[k].hwnd)
                };
            lemma_first_match_unique(pattern, ms, i1, i2);
            crate::locate::lemma_first_window_unique(ws, pid as u32, k1, k2);
            assert(a1 == a2);
        },
        (Result::Ok(a1), Result::Err(e2)) => {
            let (i1, k1) = choose|i: int, k: int|
                #![trigger is_first_match(pattern, ms, i), is_first_window(ws, pid as u32, k)]
                {
                    &&& is_first_match(pattern, ms, i)
                    &&& is_first_window(ws, pid as u32, k)
                    &&& is_move_action(a1, ms[i], ws[k].hwnd)
                };
            match e2 {
                MoveError::MonitorNotFound { .. } => {
                    assert(monitor_matches(pattern, ms[i1]));
                },
                MoveError::WindowNotFound { .. } => {
                    assert(window_matches(ws[k1], pid as u32));
                },
                _ => {
                },
            }
        },
        (Result::Err(e1), Result::Ok(a2)) => {
            let (i2, k2) = choose|i: int, k: int|
                #![trigger is_first_match(pattern, ms, i), is_first_window(ws, pid as u32, k)]
                {
                    &&& is_first_match(pattern, ms, i)
                    &&& is_first_window(ws, pid as u32, k)
                    &&& is_move_action(a2, ms[i], ws[k].hwnd)
                };
            match e1 {
                MoveError::MonitorNotFound { .. } => {
                    assert(monitor_matches(pattern, ms[i2]));
                },
                MoveError::WindowNotFound { .. } => {
                    assert(window_matches(ws[k2], pid as u32));
                },
                _ => {
                },
            }
        },
        (Result::Err(e1), Result::Err(e2)) => {
            match (e1, e2) {
                (
                    MoveError::MonitorNotFound { available: a1, .. },
                    MoveError::MonitorNotFound { available: a2, .. },
                ) => {
                    assert forall|j: int| 0 <= j < a1@.len() implies a1@[j]@ == a2@[j]@ by {
                        assert(a1@[j]@ == ms[j].spec_device_name());
                    }
                },
                (MoveError::MonitorNotFound { .. }, MoveError::WindowNotFound { .. }) => {
                    let i = choose|i: int| is_first_match(pattern, ms, i);
                    assert(monitor_matches(pattern, ms[i]));
                },
                (MoveError::WindowNotFound { .. }, MoveError::MonitorNotFound { .. }) => {
                    let i = choose|i: int| is_first_match(pattern, ms, i);
                    assert(monitor_matches(pattern, ms[i]));
                },
                _ => {
                },
            }
        },
    }
}

/// The rectangle a window occupies after the platform performs a placement:
/// exactly the action's target — left, top, width, height — whatever
/// rectangle the window had before. `prev` does not influence the result;
/// that it is ignored is the point.
pub open spec fn rect_after_place(prev: (int, int, int, int), a: MoveAction) -> (
    int,
    int,
    int,
    int,
) {
    (a.x as int, a.y as int, a.width as int, a.height as int)
}

/// Law: moving is idempotent. When the same monitors, pattern, pid and
/// window list yield two plans — the window has not moved or closed in the
/// interim — and the first plan succeeds, the second succeeds with the same
/// placement, and performing it leaves the window rectangle exactly where
/// the first performance put it, whatever rectangles the window had before
/// each performance.
pub proof fn lemma_move_idempotent(
    ms: Seq<Monitor>,
    pattern: Seq<char>,
    pid: isize,
    ws: Seq<WindowInfo>,
    r1: Result<MoveAction, MoveError>,
    r2: Result<MoveAction, MoveError>,
    prev1: (int, int, int, int),
    prev2: (int, int, int, int),
)
    requires
        move_plan_post(ms, pattern, pid, ws, r1),
        move_plan_post(ms, pattern, pid, ws, r2),
        r1 is Ok,
    ensures
        r2 is Ok,
        rect_after_place(prev1, r1->Ok_0) == rect_after_place(prev2, r2->Ok_0),
{
    lemma_move_plan_deterministic(ms, pattern, pid, ws, r1, r2);
}

} // verus!
