use vstd::prelude::*;

use crate::common::{with_fullscreen_flag, CoreData, Point, Size, Window, FLAG_FULLSCREEN_MODE};

verus! {

/// Resolution of a monitor's current video mode.
#[derive(Clone, Copy, Debug, PartialEq, Eq, Structural)]
pub struct VideoMode {
    pub width: i32,
    pub height: i32,
}

/// One monitor as the windowing system enumerates it.
#[derive(Clone, Copy, Debug, PartialEq, Eq, Structural)]
pub struct MonitorInfo {
    /// Identity of the native monitor handle
    pub handle: usize,
    /// Position of the monitor's top-left corner on the virtual screen
    pub position: Point,
    /// Current video mode, or `None` where it could not be read
    pub mode: Option<VideoMode>,
}

/// What the windowing system reports that the window logic reads: the
/// enumerated monitors, the monitor the window is assigned to, and the
/// window's screen position.
pub struct PlatformData {
    pub monitors: Vec<MonitorInfo>,
    /// Handle of the monitor the window is fullscreen on, if any
    pub window_monitor: Option<usize>,
    pub window_position: Point,
}

/// The call to make on the windowing system after a fullscreen toggle:
/// assign the window to `monitor` (windowed where `None`) at `position`
/// with content size `size`, at any refresh rate.
#[derive(Clone, Copy, Debug, PartialEq, Eq, Structural)]
pub struct WindowPlacement {
    pub monitor: Option<usize>,
    pub position: Point,
    pub size: Size,
    /// Entering fullscreen was asked for and no monitor was found for it
    pub monitor_missing: bool,
}

/// The monitor's rectangle, as given by its position and video mode,
/// contains the point. A monitor whose mode is unknown contains nothing.
pub open spec fn monitor_contains(m: MonitorInfo, p: Point) -> bool {
    match m.mode {
        Some(v) => {
            &&& m.position.x <= p.x
            &&& p.x < m.position.x + v.width
            &&& m.position.y <= p.y
            &&& p.y < m.position.y + v.height
        },
        None => false,
    }
}

/// Monitor `i` holds the window: in fullscreen mode it is the monitor the
/// window is assigned to; windowed, its rectangle contains the window's
/// position.
pub open spec fn holds_window(fullscreen: bool, platform: PlatformData, i: int) -> bool {
    if fullscreen {
        platform.window_monitor == Some(platform.monitors@[i].handle)
    } else {
        monitor_contains(platform.monitors@[i], platform.window_position)
    }
}

/// The first monitor from index `i` on that holds the window, or 0 where
/// none does.
pub open spec fn first_holding_from(fullscreen: bool, platform: PlatformData, i: int) -> int
    decreases platform.monitors@.len() - i,
{
    if i < 0 || i >= platform.monitors@.len() {
        0
    } else if holds_window(fullscreen, platform, i) {
        i
    } else {
        first_holding_from(fullscreen, platform, i + 1)
    }
}

/// Index of the monitor that currently holds the window: the first that
/// does, or 0 where none does.
pub open spec fn current_monitor(fullscreen: bool, platform: PlatformData) -> int {
    first_holding_from(fullscreen, platform, 0)
}

/// The index is a valid monitor index from `i` on, or 0.
proof fn lemma_first_holding_from_bounds(fullscreen: bool, platform: PlatformData, i: int)
    requires
        0 <= i,
    ensures
        platform.monitors@.len() == 0 ==> first_holding_from(fullscreen, platform, i) == 0,
        platform.monitors@.len() > 0 ==> 0 <= first_holding_from(fullscreen, platform, i)
            < platform.monitors@.len(),
        (exists|k: int| i <= k < platform.monitors@.len() && holds_window(fullscreen, platform, k))
            ==> {
            let r = first_holding_from(fullscreen, platform, i);
            &&& i <= r
            &&& holds_window(fullscreen, platform, r)
            &&& forall|j: int| i <= j < r ==> !holds_window(fullscreen, platform, j)
        },
        !(exists|k: int| i <= k < platform.monitors@.len() && holds_window(fullscreen, platform, k))
            ==> first_holding_from(fullscreen, platform, i) == 0,
    decreases platform.monitors@.len() - i,
{
    if i < platform.monitors@.len() {
        lemma_first_holding_from_bounds(fullscreen, platform, i + 1);
        if !holds_window(fullscreen, platform, i) {
            if exists|k: int| i <= k < platform.monitors@.len() && holds_window(fullscreen, platform, k) {
                let k = choose|k: int| i <= k < platform.monitors@.len() && holds_window(fullscreen, platform, k);
                assert(k != i);
                assert(i + 1 <= k < platform.monitors@.len() && holds_window(fullscreen, platform, k));
            }
        }
    }
}

/// The current monitor is an index into the enumerated monitors whenever
/// there is at least one, and 0 when there is none. It is the first monitor
/// that holds the window, where one does.
pub proof fn lemma_current_monitor_in_range(fullscreen: bool, platform: PlatformData)
    ensures
        platform.monitors@.len() == 0 ==> current_monitor(fullscreen, platform) == 0,
        platform.monitors@.len() > 0 ==> 0 <= current_monitor(fullscreen, platform)
            < platform.monitors@.len(),
        (exists|k: int| 0 <= k < platform.monitors@.len() && holds_window(fullscreen, platform, k))
            ==> {
            let r = current_monitor(fullscreen, platform);
            &&& holds_window(fullscreen, platform, r)
            &&& forall|j: int| 0 <= j < r ==> !holds_window(fullscreen, platform, j)
        },
        !(exists|k: int| 0 <= k < platform.monitors@.len() && holds_window(fullscreen, platform, k))
            ==> current_monitor(fullscreen, platform) == 0,
{
    lemma_first_holding_from_bounds(fullscreen, platform, 0);
}

/// Check if application should close
pub fn WindowShouldClose<I, T>(core: &CoreData<I, T>) -> (r: bool)
    ensures
        !core.window.ready ==> !r,
        core.window.ready ==> r == core.window.shouldClose,
{
    if core.window.ready {
        core.window.shouldClose
    } else {
        false
    }
}

fn monitor_contains_exec(m: &MonitorInfo, p: Point) -> (r: bool)
    ensures
        r == monitor_contains(*m, p),
{
    match m.mode {
        Some(v) => {
            let x = p.x as i64;
            let y = p.y as i64;
            let mx = m.position.x as i64;
            let my = m.position.y as i64;
            mx <= x && x < mx + v.width as i64 && my <= y && y < my + v.height as i64
        },
        None => false,
    }
}

/// Index of the monitor that currently holds the window.
///
/// In fullscreen mode this is the monitor the window is assigned to; in
/// windowed mode the first monitor whose rectangle contains the window's
/// position, skipping monitors whose video mode could not be read. Falls
/// back to 0 where no monitor matches.
pub fn GetCurrentMonitor<I, T>(core: &CoreData<I, T>, platform: &PlatformData) -> (r: i32)
    requires
        platform.monitors@.len() <= i32::MAX,
    ensures
        r == current_monitor(core.window.fullscreen, *platform),
        platform.monitors@.len() == 0 ==> r == 0,
        platform.monitors@.len() > 0 ==> 0 <= r < platform.monitors@.len(),
{
    proof {
        lemma_current_monitor_in_range(core.window.fullscreen, *platform);
    }
    let fullscreen = core.window.fullscreen;
    let n = platform.monitors.len();
    let mut i: usize = 0;
    while i < n
        invariant
            n == platform.monitors@.len(),
            n <= i32::MAX,
            i <= n,
            fullscreen == core.window.fullscreen,
            first_holding_from(fullscreen, *platform, 0) == first_holding_from(
                fullscreen,
                *platform,
                i as int,
            ),
        decreases n - i,
    {
        let m = &platform.monitors[i];
        let found = if fullscreen {
            match platform.window_monitor {
                Some(h) => h == m.handle,
                None => false,
            }
        } else {
            monitor_contains_exec(m, platform.window_position)
        };
        if found {
            return i as i32;
        }
        i = i + 1;
    }
    0
}

/// The window record after a fullscreen toggle.
///
/// From windowed mode the window's current position is stored and fullscreen
/// is entered where there is a monitor to enter it on; from fullscreen mode
/// the window goes back to windowed. The fullscreen bit of the flags follows
/// the `fullscreen` field; nothing else changes.
pub open spec fn toggled_window(w: Window, platform: PlatformData) -> Window {
    if !w.fullscreen {
        let entered = platform.monitors@.len() > 0;
        Window {
            fullscreen: entered,
            flags: with_fullscreen_flag(w.flags, entered),
            position: platform.window_position,
            ..w
        }
    } else {
        Window { fullscreen: false, flags: with_fullscreen_flag(w.flags, false), ..w }
    }
}

/// The placement to request of the windowing system after a fullscreen
/// toggle of `w`.
///
/// Entering fullscreen puts the window on the current monitor at the screen
/// size; where there is no monitor the request is windowed at the origin and
/// the failure is reported. Leaving fullscreen puts the window back at its
/// stored position.
pub open spec fn toggle_placement(w: Window, platform: PlatformData) -> WindowPlacement {
    if !w.fullscreen {
        if platform.monitors@.len() > 0 {
            WindowPlacement {
                monitor: Some(platform.monitors@[current_monitor(false, platform)].handle),
                position: Point { x: 0, y: 0 },
                size: w.screen,
                monitor_missing: false,
            }
        } else {
            WindowPlacement {
                monitor: None,
                position: Point { x: 0, y: 0 },
                size: w.screen,
                monitor_missing: true,
            }
        }
    } else {
        WindowPlacement { monitor: None, position: w.position, size: w.screen, monitor_missing: false }
    }
}

proof fn lemma_fullscreen_flag(flags: u32, on: bool)
    ensures
        (with_fullscreen_flag(flags, on) & FLAG_FULLSCREEN_MODE != 0) == on,
        forall|b: u32|
            b & FLAG_FULLSCREEN_MODE == 0 ==> #[trigger] (with_fullscreen_flag(flags, on) & b) == (
            flags & b),
{
    assert((flags | 2u32) & 2u32 != 0) by (bit_vector);
    assert((flags & !2u32) & 2u32 == 0) by (bit_vector);
    assert forall|b: u32| b & 2u32 == 0 implies (flags | 2u32) & b == flags & b by {
        assert(b & 2u32 == 0 ==> (flags | 2u32) & b == flags & b) by (bit_vector);
    }
    assert forall|b: u32| b & 2u32 == 0 implies (flags & !2u32) & b == flags & b by {
        assert(b & 2u32 == 0 ==> (flags & !2u32) & b == flags & b) by (bit_vector);
    }
}

/// After a fullscreen toggle the fullscreen bit of the flags agrees with the
/// `fullscreen` field, and every other bit is as it was.
pub proof fn lemma_toggle_keeps_flags_in_step(w: Window, platform: PlatformData)
    ensures
        toggled_window(w, platform).flags_agree(),
        forall|b: u32|
            b & FLAG_FULLSCREEN_MODE == 0 ==> #[trigger] (toggled_window(w, platform).flags & b) == (
            w.flags & b),
{
    lemma_fullscreen_flag(w.flags, toggled_window(w, platform).fullscreen);
}

/// Toggle fullscreen mode
///
/// Updates the window record and returns the placement that the windowing
/// system is to be asked for. No failure is surfaced: without a monitor to
/// enter fullscreen on, the window stays windowed.
pub fn ToggleFullscreen<I, T>(core: &mut CoreData<I, T>, platform: &PlatformData) -> (placement:
    WindowPlacement)
    requires
        platform.monitors@.len() <= i32::MAX,
    ensures
        final(core).window == toggled_window(old(core).window, *platform),
        placement == toggle_placement(old(core).window, *platform),
        final(core).storage == old(core).storage,
        final(core).input == old(core).input,
        final(core).time == old(core).time,
        final(core).window.flags_agree(),
{
    proof {
        lemma_fullscreen_flag(core.window.flags, true);
        lemma_fullscreen_flag(core.window.flags, false);
    }
    let size = core.window.screen;
    if !core.window.fullscreen {
        // Store the window position, restored when fullscreen is left
        core.window.position = platform.window_position;
        let index = GetCurrentMonitor(core, platform);
        let n = platform.monitors.len();
        if (index as usize) < n {
            let handle = platform.monitors[index as usize].handle;
            core.window.fullscreen = true;
            core.window.flags = core.window.flags | FLAG_FULLSCREEN_MODE;
            WindowPlacement {
                monitor: Some(handle),
                position: Point { x: 0, y: 0 },
                size,
                monitor_missing: false,
            }
        } else {
            core.window.fullscreen = false;
            core.window.flags = core.window.flags & !FLAG_FULLSCREEN_MODE;
            WindowPlacement {
                monitor: None,
                position: Point { x: 0, y: 0 },
                size,
                monitor_missing: true,
            }
        }
    } else {
        core.window.fullscreen = false;
        core.window.flags = core.window.flags & !FLAG_FULLSCREEN_MODE;
        WindowPlacement { monitor: None, position: core.window.position, size, monitor_missing: false }
    }
}

/// Entering fullscreen from windowed mode and leaving it again puts the
/// window back where it stood before: the stored position is the one the
/// window had, and the request that leaves fullscreen is windowed at that
/// position.
pub proof fn lemma_toggle_twice_restores_position(
    w: Window,
    entering: PlatformData,
    leaving: PlatformData,
)
    requires
        !w.fullscreen,
        entering.monitors@.len() > 0,
    ensures
        toggled_window(w, entering).fullscreen,
        !toggled_window(toggled_window(w, entering), leaving).fullscreen,
        toggled_window(toggled_window(w, entering), leaving).position == entering.window_position,
        toggle_placement(toggled_window(w, entering), leaving).monitor == None::<usize>,
        toggle_placement(toggled_window(w, entering), leaving).position == entering.window_position,
{
}

} // verus!
