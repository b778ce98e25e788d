//! Value types for display geometry: rectangles in virtual-screen
//! coordinates and immutable monitor snapshots.

use vstd::prelude::*;

verus! {

/// A rectangle in virtual-screen coordinates. The platform reports display
/// rectangles with 32-bit integer edges; a well-formed rectangle has
/// `right >= left` and `bottom >= top`.
#[derive(Clone, Debug, PartialEq)]
pub struct Rect {
    pub left: i32,
    pub top: i32,
    pub right: i32,
    pub bottom: i32,
}

impl Rect {
    /// A rectangle is well formed when its edges are ordered: consumers of
    /// monitor geometry assume this even though the platform does not
    /// enforce it.
    pub open spec fn wf(self) -> bool {
        self.right >= self.left && self.bottom >= self.top
    }

    pub open spec fn spec_width(self) -> int {
        self.right - self.left
    }

    pub open spec fn spec_height(self) -> int {
        self.bottom - self.top
    }

    /// True when `inner` lies fully inside `self`.
    pub open spec fn contains(self, inner: Rect) -> bool {
        inner.left >= self.left && inner.top >= self.top && inner.right <= self.right
            && inner.bottom <= self.bottom
    }

    pub fn width(&self) -> (w: i64)
        ensures
            w == self.spec_width(),
    {
        self.right as i64 - self.left as i64
    }

    pub fn height(&self) -> (h: i64)
        ensures
            h == self.spec_height(),
    {
        self.bottom as i64 - self.top as i64
    }
}

/// A snapshot of one display: its friendly device name, whether it is the
/// primary display (origin at (0,0) of the virtual screen), its full
/// rectangle, and its work rectangle (the full rectangle minus reserved
/// system surfaces such as the taskbar).
///
/// Monitors are reconstructed fresh on every enumeration; there is no
/// identity tracking across calls.
#[derive(Clone, Debug, PartialEq)]
pub struct Monitor {
    device_name: String,
    primary: bool,
    rect: Rect,
    work_rect: Rect,
}

impl Monitor {
    /// The friendly device name, as a sequence of characters.
    pub closed spec fn spec_device_name(self) -> Seq<char> {
        self.device_name@
    }

    pub closed spec fn spec_primary(self) -> bool {
        self.primary
    }

    pub closed spec fn spec_rect(self) -> Rect {
        self.rect
    }

    pub closed spec fn spec_work_rect(self) -> Rect {
        self.work_rect
    }

    /// A monitor is well formed when both rectangles are well formed and the
    /// work rectangle lies fully inside the display rectangle.
    pub open spec fn wf(self) -> bool {
        self.spec_rect().wf() && self.spec_work_rect().wf() && self.spec_rect().contains(
            self.spec_work_rect(),
        )
    }

    pub fn new(device_name: String, primary: bool, rect: Rect, work_rect: Rect) -> (m: Monitor)
        requires
            rect.wf(),
            work_rect.wf(),
            rect.contains(work_rect),
        ensures
            m.wf(),
            m.spec_device_name() == device_name@,
            m.spec_primary() == primary,
            m.spec_rect() == rect,
            m.spec_work_rect() == work_rect,
    {
        Monitor { device_name, primary, rect, work_rect }
    }

    /// Builds a monitor snapshot after checking well-formedness: both
    /// rectangles must have ordered edges and the work rectangle must lie
    /// inside the display rectangle. Returns `None` otherwise, so an
    /// enumerator can skip a display whose reported geometry is malformed
    /// and every monitor it yields is well formed.
    pub fn try_new(device_name: String, primary: bool, rect: Rect, work_rect: Rect) -> (r:
        Option<Monitor>)
        ensures
            r is Some <==> (rect.wf() && work_rect.wf() && rect.contains(work_rect)),
            r is Some ==> {
                &&& r->0.wf()
                &&& r->0.spec_device_name() == device_name@
                &&& r->0.spec_primary() == primary
                &&& r->0.spec_rect() == rect
                &&& r->0.spec_work_rect() == work_rect
            },
    {
        if rect.right >= rect.left && rect.bottom >= rect.top && work_rect.right
            >= work_rect.left && work_rect.bottom >= work_rect.top && work_rect.left >= rect.left
            && work_rect.top >= rect.top && work_rect.right <= rect.right && work_rect.bottom
            <= rect.bottom {
            Some(Monitor { device_name, primary, rect, work_rect })
        } else {
            None
        }
    }

    pub fn device_name(&self) -> (r: &str)
        ensures
            r@ == self.spec_device_name(),
    {
        self.device_name.as_str()
    }

    /// Returns true if the monitor is the primary monitor.
    pub fn is_primary(&self) -> (r: bool)
        ensures
            r == self.spec_primary(),
    {
        self.primary
    }

    /// Returns the monitor rectangle in virtual screen coordinates.
    pub fn virtual_rect(&self) -> (r: &Rect)
        ensures
            *r == self.spec_rect(),
    {
        &self.rect
    }

    /// Returns the monitor working rectangle in virtual screen coordinates:
    /// the display rectangle minus reserved system surfaces.
    pub fn virtual_work_rect(&self) -> (r: &Rect)
        ensures
            *r == self.spec_work_rect(),
    {
        &self.work_rect
    }

    pub fn width(&self) -> (w: i64)
        ensures
            w == self.spec_rect().spec_width(),
    {
        self.rect.width()
    }

    pub fn height(&self) -> (h: i64)
        ensures
            h == self.spec_rect().spec_height(),
    {
        self.rect.height()
    }
}

} // verus!
