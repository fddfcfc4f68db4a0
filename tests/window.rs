use rcore::common::{
    CoreData, IsWindowFullscreen, Keyboard, Point, Size, Storage, Window, FLAG_FULLSCREEN_MODE,
    MAX_KEYBOARD_KEYS, MAX_KEY_PRESSED_QUEUE,
};
use rcore::desktop::{
    GetCurrentMonitor, MonitorInfo, PlatformData, ToggleFullscreen, VideoMode, WindowShouldClose,
};

fn size(width: usize, height: usize) -> Size {
    Size { width, height }
}

fn point(x: i32, y: i32) -> Point {
    Point { x, y }
}

fn window(ready: bool, should_close: bool, fullscreen: bool) -> Window {
    Window {
        title: String::from("test"),
        flags: if fullscreen { FLAG_FULLSCREEN_MODE } else { 0 },
        ready,
        fullscreen,
        shouldClose: should_close,
        revisedLastFrame: false,
        eventWaiting: false,
        position: point(0, 0),
        previousPosition: point(0, 0),
        display: size(1920, 1080),
        screen: size(800, 450),
        previousScreen: size(0, 0),
        currentFbo: size(800, 450),
        render: size(800, 450),
        renderOffset: point(0, 0),
        screenMin: size(0, 0),
        screenMax: size(0, 0),
        dropFilepaths: Vec::new(),
        dropFileCount: 0,
    }
}

fn state(w: Window) -> CoreData<(), ()> {
    CoreData { window: w, storage: Storage { basePath: String::from("/tmp") }, input: (), time: () }
}

fn monitor(handle: usize, x: i32, y: i32, width: i32, height: i32) -> MonitorInfo {
    MonitorInfo { handle, position: point(x, y), mode: Some(VideoMode { width, height }) }
}

fn two_monitors(window_monitor: Option<usize>, x: i32, y: i32) -> PlatformData {
    PlatformData {
        monitors: vec![monitor(11, 0, 0, 1920, 1080), monitor(22, 1920, 0, 1920, 1080)],
        window_monitor,
        window_position: point(x, y),
    }
}

fn no_monitors(x: i32, y: i32) -> PlatformData {
    PlatformData { monitors: Vec::new(), window_monitor: None, window_position: point(x, y) }
}

#[test]
fn should_close_false_when_not_ready() {
    assert!(!WindowShouldClose(&state(window(false, true, false))));
    assert!(!WindowShouldClose(&state(window(false, false, false))));
}

#[test]
fn should_close_follows_flag_when_ready() {
    assert!(WindowShouldClose(&state(window(true, true, false))));
    assert!(!WindowShouldClose(&state(window(true, false, false))));
}

#[test]
fn is_window_fullscreen_reads_flag() {
    assert!(IsWindowFullscreen(&state(window(true, false, true))));
    assert!(!IsWindowFullscreen(&state(window(true, false, false))));
}

#[test]
fn current_monitor_windowed_second_monitor() {
    let c = state(window(true, false, false));
    assert_eq!(GetCurrentMonitor(&c, &two_monitors(None, 2000, 100)), 1);
}

#[test]
fn current_monitor_windowed_first_monitor() {
    let c = state(window(true, false, false));
    assert_eq!(GetCurrentMonitor(&c, &two_monitors(None, 100, 50)), 0);
}

#[test]
fn current_monitor_edge_belongs_to_right_monitor() {
    let c = state(window(true, false, false));
    assert_eq!(GetCurrentMonitor(&c, &two_monitors(None, 1920, 0)), 1);
    assert_eq!(GetCurrentMonitor(&c, &two_monitors(None, 1919, 1079)), 0);
}

#[test]
fn current_monitor_outside_every_monitor_is_zero() {
    let c = state(window(true, false, false));
    assert_eq!(GetCurrentMonitor(&c, &two_monitors(None, 5000, 100)), 0);
    assert_eq!(GetCurrentMonitor(&c, &two_monitors(None, 100, -5)), 0);
}

#[test]
fn current_monitor_skips_unknown_mode() {
    let c = state(window(true, false, false));
    let p = PlatformData {
        monitors: vec![
            MonitorInfo { handle: 5, position: point(0, 0), mode: None },
            monitor(6, 0, 0, 1920, 1080),
        ],
        window_monitor: None,
        window_position: point(10, 10),
    };
    assert_eq!(GetCurrentMonitor(&c, &p), 1);
}

#[test]
fn current_monitor_no_monitors_is_zero() {
    let c = state(window(true, false, false));
    assert_eq!(GetCurrentMonitor(&c, &no_monitors(2000, 100)), 0);
    let f = state(window(true, false, true));
    assert_eq!(GetCurrentMonitor(&f, &no_monitors(2000, 100)), 0);
}

#[test]
fn current_monitor_fullscreen_matches_handle() {
    let c = state(window(true, false, true));
    // The window position is not consulted in fullscreen mode.
    assert_eq!(GetCurrentMonitor(&c, &two_monitors(Some(22), 10, 10)), 1);
    assert_eq!(GetCurrentMonitor(&c, &two_monitors(Some(11), 2000, 10)), 0);
}

#[test]
fn current_monitor_fullscreen_unknown_handle_is_zero() {
    let c = state(window(true, false, true));
    assert_eq!(GetCurrentMonitor(&c, &two_monitors(Some(99), 2000, 10)), 0);
    assert_eq!(GetCurrentMonitor(&c, &two_monitors(None, 2000, 10)), 0);
}

#[test]
fn current_monitor_always_in_range() {
    let c = state(window(true, false, false));
    for x in [-100, 0, 500, 1919, 1920, 3000, 3840, 9000] {
        let r = GetCurrentMonitor(&c, &two_monitors(None, x, 100));
        assert!(r >= 0 && r < 2);
    }
}

#[test]
fn toggle_enters_fullscreen_on_current_monitor() {
    let mut c = state(window(true, false, false));
    let placement = ToggleFullscreen(&mut c, &two_monitors(None, 2000, 100));
    assert!(c.window.fullscreen);
    assert_eq!(c.window.flags & FLAG_FULLSCREEN_MODE, FLAG_FULLSCREEN_MODE);
    assert_eq!(c.window.position, point(2000, 100));
    assert_eq!(placement.monitor, Some(22));
    assert_eq!(placement.position, point(0, 0));
    assert_eq!(placement.size, size(800, 450));
    assert!(!placement.monitor_missing);
}

#[test]
fn toggle_twice_restores_position() {
    let mut c = state(window(true, false, false));
    let entering = ToggleFullscreen(&mut c, &two_monitors(None, 100, 50));
    assert!(c.window.fullscreen);
    assert_eq!(entering.monitor, Some(11));
    let leaving = ToggleFullscreen(&mut c, &two_monitors(Some(11), 0, 0));
    assert!(!c.window.fullscreen);
    assert_eq!(c.window.position, point(100, 50));
    assert_eq!(leaving.monitor, None);
    assert_eq!(leaving.position, point(100, 50));
    assert_eq!(leaving.size, size(800, 450));
    assert_eq!(c.window.flags & FLAG_FULLSCREEN_MODE, 0);
}

#[test]
fn toggle_without_monitors_stays_windowed() {
    let mut c = state(window(true, false, false));
    let placement = ToggleFullscreen(&mut c, &no_monitors(100, 50));
    assert!(!c.window.fullscreen);
    assert_eq!(c.window.flags & FLAG_FULLSCREEN_MODE, 0);
    assert_eq!(c.window.position, point(100, 50));
    assert_eq!(placement.monitor, None);
    assert_eq!(placement.position, point(0, 0));
    assert!(placement.monitor_missing);
}

#[test]
fn toggle_keeps_other_flag_bits() {
    let mut w = window(true, false, false);
    w.flags = 0x41;
    let mut c = state(w);
    ToggleFullscreen(&mut c, &two_monitors(None, 10, 10));
    assert_eq!(c.window.flags, 0x41 | FLAG_FULLSCREEN_MODE);
    ToggleFullscreen(&mut c, &two_monitors(Some(11), 10, 10));
    assert_eq!(c.window.flags, 0x41);
}

#[test]
fn toggle_leaves_other_state_alone() {
    let mut c = state(window(true, true, false));
    ToggleFullscreen(&mut c, &two_monitors(None, 10, 10));
    assert!(c.window.ready);
    assert!(c.window.shouldClose);
    assert_eq!(c.window.screen, size(800, 450));
    assert_eq!(c.storage.basePath, "/tmp");
}

#[test]
fn keyboard_record_holds_queues() {
    let k = Keyboard {
        exitKey: 256,
        currentKeyState: [0; MAX_KEYBOARD_KEYS],
        previousKeyState: [0; MAX_KEYBOARD_KEYS],
        keyRepeatInFrame: [0; MAX_KEYBOARD_KEYS],
        keyPressedQueue: [0; MAX_KEY_PRESSED_QUEUE],
        keyPressedQueueCount: 0,
        charPressedQueue: [0; MAX_KEY_PRESSED_QUEUE],
        charPressedQueueCount: 0,
    };
    assert_eq!(k.currentKeyState.len(), 512);
    assert_eq!(k.keyPressedQueue.len(), 16);
}
