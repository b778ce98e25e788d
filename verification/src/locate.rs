//! Window selection: given the top-level windows the platform reports, pick
//! the first non-minimized one owned by a target process.

use vstd::prelude::*;

verus! {

/// What the platform reports about one top-level window: its opaque handle,
/// the id of the owning process, and whether it is currently minimized
/// (iconic).
#[derive(Clone, Copy, Debug, PartialEq, Eq, Structural)]
pub struct WindowInfo {
    pub hwnd: isize,
    pub pid: u32,
    pub iconic: bool,
}

/// A window is a candidate when its owning process id equals the target and
/// it is not minimized.
pub open spec fn window_matches(w: WindowInfo, pid: u32) -> bool {
    w.pid == pid && !w.iconic
}

/// `i` is the position of the first candidate window for `pid` in
/// enumeration order.
pub open spec fn is_first_window(ws: Seq<WindowInfo>, pid: u32, i: int) -> bool {
    &&& 0 <= i < ws.len()
    &&& window_matches(ws[i], pid)
    &&& forall|j: int| 0 <= j < i ==> !window_matches(ws[j], pid)
}

/// No window in `ws` is a candidate for `pid`.
pub open spec fn no_window(ws: Seq<WindowInfo>, pid: u32) -> bool {
    forall|j: int| 0 <= j < ws.len() ==> !window_matches(ws[j], pid)
}

/// Law: there is at most one position of the first candidate window —
/// "first encountered" is unambiguous for a given enumeration.
pub proof fn lemma_first_window_unique(ws: Seq<WindowInfo>, pid: u32, i: int, j: int)
    requires
        is_first_window(ws, pid, i),
        is_first_window(ws, pid, j),
    ensures
        i == j,
{
    if i < j {
        assert(!window_matches(ws[i], pid));
    }
    if j < i {
        assert(!window_matches(ws[j], pid));
    }
}

/// Returns the handle of the first non-minimized top-level window owned by
/// `pid`, in the order the platform enumerated the windows, or `None` when
/// the process owns no such window. No selection beyond "first encountered"
/// is promised: enumeration order is platform-defined.
pub fn find_window(windows: &Vec<WindowInfo>, pid: u32) -> (r: Option<isize>)
    ensures
        match r {
            Some(h) => exists|i: int|
                is_first_window(windows@, pid, i) && h == windows@[i].hwnd,
            None => no_window(windows@, pid),
        },
{
    let mut i: usize = 0;
    while i < windows.len()
        invariant
            i <= windows.len(),
            forall|j: int| 0 <= j < i ==> !window_matches(windows@[j], pid),
        decreases windows.len() - i,
    {
        let w = windows[i];
        if w.pid == pid && !w.iconic {
            assert(is_first_window(windows@, pid, i as int));
            return Some(w.hwnd);
        }
        i += 1;
    }
    None
}

} // verus!
