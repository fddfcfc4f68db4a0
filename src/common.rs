use vstd::prelude::*;

verus! {

/// Maximum capacity for filepath
pub const MAX_FILE_CAPACITY: usize = 8192;

/// Maximum length for filepaths (Linux PATH_MAX default value)
pub const MAX_FILEPATH_LENGTH: usize = 4096;

/// Maximum number of keyboard keys supported
pub const MAX_KEYBOARD_KEYS: usize = 512;

/// Maximum number of mouse buttons supported
pub const MAX_MOUSE_BUTTONS: usize = 8;

/// Maximum number of gamepads supported
pub const MAX_GAMEPADS: usize = 4;

/// Maximum number of axis supported (per gamepad)
pub const MAX_GAMEPAD_AXIS: usize = 8;

/// Maximum number of buttons supported (per gamepad)
pub const MAX_GAMEPAD_BUTTONS: usize = 32;

/// Maximum number of touch points supported
pub const MAX_TOUCH_POINTS: usize = 8;

/// Maximum number of keys in the key input queue
pub const MAX_KEY_PRESSED_QUEUE: usize = 16;

/// Maximum number of characters in the char input queue
pub const MAX_CHAR_PRESSED_QUEUE: usize = 16;

/// Maximum size allocated for decompression in MB
pub const MAX_DECOMPRESSION_SIZE: usize = 64;

/// Window configuration bit: the window is in fullscreen mode.
pub const FLAG_FULLSCREEN_MODE: u32 = 2;

/// A position in screen coordinates.
#[derive(Clone, Copy, Debug, PartialEq, Eq, Structural)]
pub struct Point {
    pub x: i32,
    pub y: i32,
}

/// A width and height.
#[derive(Clone, Copy, Debug, PartialEq, Eq, Structural)]
pub struct Size {
    pub width: usize,
    pub height: usize,
}

/// Window geometry, configuration flags and lifecycle flags.
///
/// The screen scale matrix of the renderer is kept by the frame loop, not
/// here: this record holds no floating-point state.
pub struct Window {
    /// Window text title
    pub title: String,
    /// Configuration flags (bit based), keeps window state
    pub flags: u32,
    /// Check if window has been initialized successfully
    pub ready: bool,
    /// Check if fullscreen mode is enabled
    pub fullscreen: bool,
    /// Check if window set for closing
    pub shouldClose: bool,
    /// Check if window has been resized last frame
    pub revisedLastFrame: bool,
    /// Wait for events before ending frame
    pub eventWaiting: bool,
    /// Window position (required on fullscreen toggle)
    pub position: Point,
    /// Window previous position (required on borderless windowed toggle)
    pub previousPosition: Point,
    /// Display width and height (monitor, device-screen, LCD, ...)
    pub display: Size,
    /// Screen width and height (used render area)
    pub screen: Size,
    /// Screen previous width and height (required on borderless windowed toggle)
    pub previousScreen: Size,
    /// Current render width and height (depends on active fbo)
    pub currentFbo: Size,
    /// Framebuffer width and height (render area, including black bars if required)
    pub render: Size,
    /// Offset from render area (must be divided by 2)
    pub renderOffset: Point,
    /// Screen minimum width and height (for resizable window)
    pub screenMin: Size,
    /// Screen maximum width and height (for resizable window)
    pub screenMax: Size,
    /// Dropped files paths
    pub dropFilepaths: Vec<String>,
    /// Count dropped files strings
    pub dropFileCount: usize,
}

/// The configuration flags with the fullscreen bit set to `on` and every
/// other bit kept.
pub open spec fn with_fullscreen_flag(flags: u32, on: bool) -> u32 {
    if on {
        flags | FLAG_FULLSCREEN_MODE
    } else {
        flags & !FLAG_FULLSCREEN_MODE
    }
}

impl Window {
    /// The fullscreen bit of the flags agrees with the `fullscreen` field.
    pub open spec fn flags_agree(&self) -> bool {
        (self.flags & FLAG_FULLSCREEN_MODE != 0) == self.fullscreen
    }
}

/// Persistent storage settings.
pub struct Storage {
    /// Base path for data storage
    pub basePath: String,
}

/// Keyboard state of the current and the previous frame.
pub struct Keyboard {
    /// Default exit key
    pub exitKey: isize,
    /// Registers current frame key state
    pub currentKeyState: [i8; MAX_KEYBOARD_KEYS],
    /// Registers previous frame key state
    pub previousKeyState: [i8; MAX_KEYBOARD_KEYS],
    /// Registers key repeats for current frame.
    pub keyRepeatInFrame: [i8; MAX_KEYBOARD_KEYS],
    /// Input keys queue
    pub keyPressedQueue: [isize; MAX_KEY_PRESSED_QUEUE],
    /// Input keys queue count
    pub keyPressedQueueCount: isize,
    /// Input characters queue (unicode)
    pub charPressedQueue: [isize; MAX_CHAR_PRESSED_QUEUE],
    /// Input characters queue count
    pub charPressedQueueCount: isize,
}

impl Keyboard {
    /// The queue counts stay within the queues' capacity.
    pub open spec fn wf(&self) -> bool {
        &&& 0 <= self.keyPressedQueueCount <= MAX_KEY_PRESSED_QUEUE
        &&& 0 <= self.charPressedQueueCount <= MAX_CHAR_PRESSED_QUEUE
    }
}

/// Core global state context data.
///
/// The input and timing snapshots are carried for the frame loop, which picks
/// their representation; the window logic never reads them.
pub struct CoreData<I, T> {
    pub window: Window,
    pub storage: Storage,
    pub input: I,
    pub time: T,
}

/// Check if the window is in fullscreen mode
pub fn IsWindowFullscreen<I, T>(core: &CoreData<I, T>) -> (r: bool)
    ensures
        r == core.window.fullscreen,
{
    core.window.fullscreen
}

} // verus!
