//! The run state of the background monitors, and the screen-edge test of the
//! mouse monitor. The polling threads themselves live with the application.
use vstd::prelude::*;

verus! {

/// How close to a monitor's top or left edge, in pixels, the cursor must be.
pub const EDGE_THRESHOLD: i64 = 20;

/// A monitor's position and size in physical pixels.
#[derive(Debug, Clone, Copy, PartialEq, Eq)]
pub struct MonitorArea {
    pub x: i32,
    pub y: i32,
    pub width: u32,
    pub height: u32,
}

/// Whether the cursor lies on the monitor.
pub open spec fn on_monitor(m: MonitorArea, x: int, y: int) -> bool {
    m.x <= x < m.x + m.width && m.y <= y < m.y + m.height
}

/// Whether the cursor is within the threshold of the monitor's top or left edge.
pub open spec fn near_edge(m: MonitorArea, x: int, y: int) -> bool {
    (m.y - EDGE_THRESHOLD <= y <= m.y + EDGE_THRESHOLD) || (m.x - EDGE_THRESHOLD <= x <= m.x
        + EDGE_THRESHOLD)
}

/// The monitor whose top or left edge the cursor touches: the first monitor
/// that holds the cursor, when the cursor is near its edge.
pub fn edge_monitor(x: i32, y: i32, monitors: &[MonitorArea]) -> (r: Option<usize>)
    ensures
        r matches Some(i) ==> i < monitors@.len() && on_monitor(monitors@[i as int], x as int, y as int)
            && near_edge(monitors@[i as int], x as int, y as int) && forall|j: int|
            0 <= j < i ==> !on_monitor(#[trigger] monitors@[j], x as int, y as int),
        r is None ==> forall|i: int|
            0 <= i < monitors@.len() && on_monitor(#[trigger] monitors@[i], x as int, y as int)
                ==> !near_edge(monitors@[i], x as int, y as int) || exists|j: int|
                0 <= j < i && on_monitor(#[trigger] monitors@[j], x as int, y as int),
{
    let mut i: usize = 0;
    while i < monitors.len()
        invariant
            i <= monitors@.len(),
            forall|j: int| 0 <= j < i ==> !on_monitor(#[trigger] monitors@[j], x as int, y as int),
        decreases monitors@.len() - i,
    {
        let m = monitors[i];
        let (mx, my) = (m.x as i64, m.y as i64);
        let (cx, cy) = (x as i64, y as i64);
        if mx <= cx && cx < mx + m.width as i64 && my <= cy && cy < my + m.height as i64 {
            let top = my - EDGE_THRESHOLD <= cy && cy <= my + EDGE_THRESHOLD;
            let left = mx - EDGE_THRESHOLD <= cx && cx <= mx + EDGE_THRESHOLD;
            if top || left {
                return Some(i);
            }
            assert(!near_edge(monitors@[i as int], x as int, y as int));
            return None;
        }
        i = i + 1;
    }
    None
}

/// Watches the cursor for the screen-edge gesture that reveals the window.
pub struct MouseEdgeMonitor {
    running: bool,
}

impl MouseEdgeMonitor {
    pub closed spec fn is_running_spec(&self) -> bool {
        self.running
    }

    /// A stopped monitor.
    pub fn new() -> (r: Self)
        ensures
            !r.is_running_spec(),
    {
        MouseEdgeMonitor { running: false }
    }

    /// Marks the monitor running. Returns whether it was stopped before, so
    /// that a polling worker is started only once.
    pub fn start(&mut self) -> (started: bool)
        ensures
            started == !old(self).is_running_spec(),
            final(self).is_running_spec(),
    {
        let started = !self.running;
        self.running = true;
        started
    }

    /// Marks the monitor stopped; its worker ends at its next poll.
    pub fn stop(&mut self)
        ensures
            !final(self).is_running_spec(),
    {
        self.running = false;
    }

    pub fn is_running(&self) -> (r: bool)
        ensures
            r == self.is_running_spec(),
    {
        self.running
    }
}

/// Reports processor and memory load at a fixed interval.
pub struct SystemMonitor {
    running: bool,
}

impl SystemMonitor {
    pub closed spec fn is_running_spec(&self) -> bool {
        self.running
    }

    /// A stopped monitor.
    pub fn new() -> (r: Self)
        ensures
            !r.is_running_spec(),
    {
        SystemMonitor { running: false }
    }

    /// Marks the monitor running. Returns whether it was stopped before, so
    /// that a sampling worker is started only once.
    pub fn start(&mut self) -> (started: bool)
        ensures
            started == !old(self).is_running_spec(),
            final(self).is_running_spec(),
    {
        let started = !self.running;
        self.running = true;
        started
    }

    /// Marks the monitor stopped; its worker ends before its next sample.
    pub fn stop(&mut self)
        ensures
            !final(self).is_running_spec(),
    {
        self.running = false;
    }

    pub fn is_running(&self) -> (r: bool)
        ensures
            r == self.is_running_spec(),
    {
        self.running
    }
}

} // verus!
