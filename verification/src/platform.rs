//! Platform abstraction layer: the raw event model that native backends
//! produce, window creation parameters, and the backend capability trait.
//!
//! A backend (Win32, X11, AppKit, or a test double) implements
//! [`PlatformBackend`] and hands the event loop batches of [`PlatformEvent`]
//! values; everything downstream of that boundary is verified.

use vstd::prelude::*;

verus! {

/// Mouse button identifier.
#[derive(Debug, Clone, Copy, PartialEq, Eq, Structural)]
pub enum MouseButton {
    Left,
    Right,
    Middle,
    Other(u8),
}

/// Key symbol: a closed set of common keys, with a sentinel for raw codes
/// this toolkit does not name.
#[derive(Debug, Clone, Copy, PartialEq, Eq, Hash, Structural)]
pub enum Key {
    // Letters
    A, B, C, D, E, F, G, H, I, J, K, L, M,
    N, O, P, Q, R, S, T, U, V, W, X, Y, Z,
    // Numbers
    Key0, Key1, Key2, Key3, Key4, Key5, Key6, Key7, Key8, Key9,
    // Function keys
    F1, F2, F3, F4, F5, F6, F7, F8, F9, F10, F11, F12,
    // Special keys
    Escape,
    Tab,
    Space,
    Return,
    Backspace,
    Delete,
    Insert,
    Home,
    End,
    PageUp,
    PageDown,
    // Arrow keys
    Left,
    Right,
    Up,
    Down,
    // Modifiers
    LeftShift,
    RightShift,
    LeftCtrl,
    RightCtrl,
    LeftAlt,
    RightAlt,
    LeftMeta,
    RightMeta,
    // Anything else, carrying the raw platform code
    Unknown(u32),
}

/// Modifier key flags captured alongside keyboard events.
#[derive(Debug, Clone, Copy, PartialEq, Eq, Structural)]
pub struct KeyModifiers {
    pub shift: bool,
    pub ctrl: bool,
    pub alt: bool,
    pub meta: bool,
}

impl KeyModifiers {
    /// All modifiers released.
    pub fn new() -> (m: KeyModifiers)
        ensures
            m == (KeyModifiers { shift: false, ctrl: false, alt: false, meta: false }),
    {
        KeyModifiers { shift: false, ctrl: false, alt: false, meta: false }
    }

    /// Whether no modifier is held.
    pub fn is_empty(&self) -> (r: bool)
        ensures
            r == (!self.shift && !self.ctrl && !self.alt && !self.meta),
    {
        !self.shift && !self.ctrl && !self.alt && !self.meta
    }
}

impl Default for KeyModifiers {
    /// Same as [`KeyModifiers::new`].
    fn default() -> (m: KeyModifiers)
        ensures
            m == (KeyModifiers { shift: false, ctrl: false, alt: false, meta: false }),
    {
        KeyModifiers { shift: false, ctrl: false, alt: false, meta: false }
    }
}

/// A raw event as reported by a native backend, prior to normalization.
///
/// This is the canonical event model minus everything the core derives
/// itself: mouse enter/leave transitions and the key-repeat flag.
#[derive(Debug, Clone)]
pub enum PlatformEvent {
    /// Window was closed
    WindowClosed { window_id: u64 },
    /// Window was resized
    WindowResized { window_id: u64, width: u32, height: u32 },
    /// Window was moved
    WindowMoved { window_id: u64, x: i32, y: i32 },
    /// Window gained focus
    WindowFocused { window_id: u64 },
    /// Window lost focus
    WindowUnfocused { window_id: u64 },
    /// Mouse button pressed at a window-relative position
    MousePressed { window_id: u64, button: MouseButton, x: i32, y: i32 },
    /// Mouse button released at a window-relative position
    MouseReleased { window_id: u64, button: MouseButton, x: i32, y: i32 },
    /// Mouse moved to a window-relative position
    MouseMoved { window_id: u64, x: i32, y: i32 },
    /// Mouse wheel scrolled, in whole notches
    MouseWheel { window_id: u64, delta_x: i32, delta_y: i32 },
    /// Key pressed
    KeyPressed { window_id: u64, key: Key, modifiers: KeyModifiers },
    /// Key released
    KeyReleased { window_id: u64, key: Key, modifiers: KeyModifiers },
    /// Text input received
    TextInput { window_id: u64, text: String },
    /// Application should quit
    Quit,
}

/// Window creation parameters.
#[derive(Debug, Clone)]
pub struct WindowParams {
    pub title: String,
    pub width: u32,
    pub height: u32,
    pub x: Option<i32>,
    pub y: Option<i32>,
    pub resizable: bool,
    pub decorations: bool,
    pub always_on_top: bool,
    pub transparent: bool,
    pub fullscreen: bool,
}

impl Default for WindowParams {
    /// An 800 by 600 resizable, decorated window titled "CX Window".
    fn default() -> (p: WindowParams)
        ensures
            p.title@ == "CX Window"@,
            p.width == 800 && p.height == 600,
            p.x is None && p.y is None,
            p.resizable && p.decorations,
            !p.always_on_top && !p.transparent && !p.fullscreen,
    {
        WindowParams {
            title: "CX Window".to_owned(),
            width: 800,
            height: 600,
            x: None,
            y: None,
            resizable: true,
            decorations: true,
            always_on_top: false,
            transparent: false,
            fullscreen: false,
        }
    }
}

/// A non-owning reference to a native window: the process-unique identifier
/// the backend assigned at creation. The native handle itself stays with the
/// backend, which looks it up by this identifier.
#[derive(Debug, Clone, Copy, PartialEq, Eq, Structural)]
pub struct WindowHandle {
    pub id: u64,
}

impl WindowHandle {
    /// Wrap a window identifier.
    pub fn new(id: u64) -> (h: WindowHandle)
        ensures
            h.id == id,
    {
        WindowHandle { id }
    }

    /// The window identifier.
    pub fn id(&self) -> (r: u64)
        ensures
            r == self.id,
    {
        self.id
    }
}

/// Feature support reported by a backend.
#[derive(Debug, Clone)]
pub struct PlatformCapabilities {
    pub transparent_windows: bool,
    pub window_decorations: bool,
    pub always_on_top: bool,
    pub fullscreen: bool,
    pub multi_window: bool,
    pub opengl_support: bool,
    pub vulkan_support: bool,
    pub metal_support: bool,
}

/// The capability set a native windowing backend must provide.
///
/// Implementations live outside this crate (or in tests); nothing is assumed
/// of them, so every contract downstream holds for any implementation,
/// including a misbehaving one.
pub trait PlatformBackend {
    /// Initialize the backend; called once before any other operation.
    fn initialize(&mut self) -> Result<(), crate::error::Error>;

    /// Create a native window and return its handle.
    fn create_window(&mut self, params: &WindowParams) -> Result<WindowHandle, crate::error::Error>;

    /// Destroy a native window.
    fn destroy_window(&mut self, handle: &WindowHandle) -> Result<(), crate::error::Error>;

    /// Make a window visible.
    fn show_window(&mut self, handle: &WindowHandle) -> Result<(), crate::error::Error>;

    /// Hide a window.
    fn hide_window(&mut self, handle: &WindowHandle) -> Result<(), crate::error::Error>;

    /// Set a window's title.
    fn set_window_title(&mut self, handle: &WindowHandle, title: &str) -> Result<
        (),
        crate::error::Error,
    >;

    /// Resize a window.
    fn set_window_size(&mut self, handle: &WindowHandle, width: u32, height: u32) -> Result<
        (),
        crate::error::Error,
    >;

    /// Query a window's size.
    fn get_window_size(&self, handle: &WindowHandle) -> Result<(u32, u32), crate::error::Error>;

    /// Move a window.
    fn set_window_position(&mut self, handle: &WindowHandle, x: i32, y: i32) -> Result<
        (),
        crate::error::Error,
    >;

    /// Query a window's position.
    fn get_window_position(&self, handle: &WindowHandle) -> Result<(i32, i32), crate::error::Error>;

    /// Collect raw events without blocking; may return an empty batch.
    fn poll_events(&mut self) -> Result<Vec<PlatformEvent>, crate::error::Error>;

    /// Block until at least one raw event is available, then return all that
    /// are ready.
    fn wait_events(&mut self) -> Result<Vec<PlatformEvent>, crate::error::Error>;

    /// Flush pending drawing for a window to the screen.
    fn present_window(&mut self, handle: &WindowHandle) -> Result<(), crate::error::Error>;

    /// Release every native resource; called once on shutdown.
    fn cleanup(&mut self) -> Result<(), crate::error::Error>;
}

} // verus!
