//! Window management: platform-independent window state, a builder for
//! creating windows through a backend, and a manager for several windows.
//!
//! A window holds a non-owning [`WindowHandle`] into its backend; operations
//! that touch the native window take the backend explicitly, so a window
//! never dereferences a backend that is gone.

use vstd::prelude::*;

use crate::error::Error;
use crate::platform::{PlatformBackend, WindowHandle, WindowParams};

verus! {

/// Unique identifier for windows, assigned by the backend.
pub type WindowId = u64;

/// Window properties that can be queried and modified.
#[derive(Debug, Clone)]
pub struct WindowProperties {
    pub title: String,
    pub width: u32,
    pub height: u32,
    pub x: i32,
    pub y: i32,
    pub visible: bool,
    pub resizable: bool,
    pub decorations: bool,
    pub always_on_top: bool,
    pub transparent: bool,
    pub fullscreen: bool,
    pub focused: bool,
}

impl Default for WindowProperties {
    /// An 800 by 600 hidden, resizable, decorated window titled "CX Window"
    /// at the origin.
    fn default() -> (p: WindowProperties)
        ensures
            p.title@ == "CX Window"@,
            p.width == 800 && p.height == 600,
            p.x == 0 && p.y == 0,
            !p.visible && p.resizable && p.decorations,
            !p.always_on_top && !p.transparent && !p.fullscreen && !p.focused,
    {
        WindowProperties {
            title: "CX Window".to_owned(),
            width: 800,
            height: 600,
            x: 0,
            y: 0,
            visible: false,
            resizable: true,
            decorations: true,
            always_on_top: false,
            transparent: false,
            fullscreen: false,
            focused: false,
        }
    }
}

/// A platform window: its backend handle and its last known properties.
#[derive(Debug)]
pub struct Window {
    pub handle: WindowHandle,
    pub properties: WindowProperties,
}

impl Window {
    /// The window identifier.
    pub fn id(&self) -> (r: WindowId)
        ensures
            r == self.handle.id,
    {
        self.handle.id()
    }

    /// The window properties.
    pub fn properties(&self) -> (r: &WindowProperties)
        ensures
            r == &self.properties,
    {
        &self.properties
    }

    /// An identical copy of this window's state.
    pub fn duplicate(&self) -> (w: Window)
        ensures
            w.handle == self.handle,
            w.properties.title@ == self.properties.title@,
            w.properties == (WindowProperties { title: w.properties.title, ..self.properties }),
    {
        Window {
            handle: self.handle,
            properties: WindowProperties {
                title: self.properties.title.clone(),
                ..self.properties
            },
        }
    }

    /// Show the window through the backend; on success the window is
    /// recorded visible.
    pub fn show<B: PlatformBackend>(&mut self, backend: &mut B) -> (r: Result<(), Error>)
        ensures
            r is Ok ==> *final (self) == (Window {
                properties: WindowProperties { visible: true, ..old(self).properties },
                ..*old(self)
            }),
            r is Err ==> *final (self) == *old(self),
    {
        match backend.show_window(&self.handle) {
            Ok(()) => {
                self.properties.visible = true;
                Ok(())
            },
            Err(e) => Err(e),
        }
    }

    /// Hide the window through the backend; on success the window is
    /// recorded hidden.
    pub fn hide_window<B: PlatformBackend>(&mut self, backend: &mut B) -> (r: Result<(), Error>)
        ensures
            r is Ok ==> *final (self) == (Window {
                properties: WindowProperties { visible: false, ..old(self).properties },
                ..*old(self)
            }),
            r is Err ==> *final (self) == *old(self),
    {
        match backend.hide_window(&self.handle) {
            Ok(()) => {
                self.properties.visible = false;
                Ok(())
            },
            Err(e) => Err(e),
        }
    }

    /// Set the window title through the backend; on success the new title is
    /// recorded.
    pub fn set_title<B: PlatformBackend>(&mut self, backend: &mut B, title: &str) -> (r: Result<
        (),
        Error,
    >)
        ensures
            r is Ok ==> final (self).properties.title@ == title@ && final (self).handle == old(
                self,
            ).handle && final (self).properties == (WindowProperties {
                title: final (self).properties.title,
                ..old(self).properties
            }),
            r is Err ==> *final (self) == *old(self),
    {
        match backend.set_window_title(&self.handle, title) {
            Ok(()) => {
                self.properties.title = title.to_owned();
                Ok(())
            },
            Err(e) => Err(e),
        }
    }

    /// The window title.
    pub fn title(&self) -> (r: &str)
        ensures
            r@ == self.properties.title@,
    {
        self.properties.title.as_str()
    }

    /// Resize the window through the backend; on success the new size is
    /// recorded.
    pub fn set_size<B: PlatformBackend>(&mut self, backend: &mut B, width: u32, height: u32) -> (r:
        Result<(), Error>)
        ensures
            r is Ok ==> *final (self) == (Window {
                properties: WindowProperties { width, height, ..old(self).properties },
                ..*old(self)
            }),
            r is Err ==> *final (self) == *old(self),
    {
        match backend.set_window_size(&self.handle, width, height) {
            Ok(()) => {
                self.properties.width = width;
                self.properties.height = height;
                Ok(())
            },
            Err(e) => Err(e),
        }
    }

    /// The window size.
    pub fn size(&self) -> (r: (u32, u32))
        ensures
            r.0 == self.properties.width && r.1 == self.properties.height,
    {
        (self.properties.width, self.properties.height)
    }

    /// The window width.
    pub fn width(&self) -> (r: u32)
        ensures
            r == self.properties.width,
    {
        self.properties.width
    }

    /// The window height.
    pub fn height(&self) -> (r: u32)
        ensures
            r == self.properties.height,
    {
        self.properties.height
    }

    /// Move the window through the backend; on success the new position is
    /// recorded.
    pub fn set_position<B: PlatformBackend>(&mut self, backend: &mut B, x: i32, y: i32) -> (r:
        Result<(), Error>)
        ensures
            r is Ok ==> *final (self) == (Window {
                properties: WindowProperties { x, y, ..old(self).properties },
                ..*old(self)
            }),
            r is Err ==> *final (self) == *old(self),
    {
        match backend.set_window_position(&self.handle, x, y) {
            Ok(()) => {
                self.properties.x = x;
                self.properties.y = y;
                Ok(())
            },
            Err(e) => Err(e),
        }
    }

    /// The window position.
    pub fn position(&self) -> (r: (i32, i32))
        ensures
            r.0 == self.properties.x && r.1 == self.properties.y,
    {
        (self.properties.x, self.properties.y)
    }

    /// Whether the window is recorded visible.
    pub fn is_visible(&self) -> (r: bool)
        ensures
            r == self.properties.visible,
    {
        self.properties.visible
    }

    /// Whether the window is resizable.
    pub fn is_resizable(&self) -> (r: bool)
        ensures
            r == self.properties.resizable,
    {
        self.properties.resizable
    }

    /// Whether the window has decorations.
    pub fn has_decorations(&self) -> (r: bool)
        ensures
            r == self.properties.decorations,
    {
        self.properties.decorations
    }

    /// Whether the window stays on top.
    pub fn is_always_on_top(&self) -> (r: bool)
        ensures
            r == self.properties.always_on_top,
    {
        self.properties.always_on_top
    }

    /// Whether the window is transparent.
    pub fn is_transparent(&self) -> (r: bool)
        ensures
            r == self.properties.transparent,
    {
        self.properties.transparent
    }

    /// Whether the window is in fullscreen mode.
    pub fn is_fullscreen(&self) -> (r: bool)
        ensures
            r == self.properties.fullscreen,
    {
        self.properties.fullscreen
    }

    /// Whether the window is recorded focused.
    pub fn is_focused(&self) -> (r: bool)
        ensures
            r == self.properties.focused,
    {
        self.properties.focused
    }

    /// Handle an event addressed to this window. The window's own recorded
    /// properties are not updated from events; they change only through the
    /// setters above.
    pub fn handle_event(&self, event: &crate::events::Event) -> (r: Result<(), Error>)
        ensures
            r is Ok,
    {
        let _ = event;
        Ok(())
    }

    /// Per-frame update; a window has no time-driven state of its own.
    pub fn update(&self, delta_nanos: u64) -> (r: Result<(), Error>)
        ensures
            r is Ok,
    {
        let _ = delta_nanos;
        Ok(())
    }

    /// Present the window's pending drawing through the backend.
    pub fn render<B: PlatformBackend>(&self, backend: &mut B) -> (r: Result<(), Error>) {
        backend.present_window(&self.handle)
    }

    /// Destroy the native window through the backend.
    pub fn close<B: PlatformBackend>(&self, backend: &mut B) -> (r: Result<(), Error>) {
        backend.destroy_window(&self.handle)
    }
}

/// Builder for creating windows with custom properties.
pub struct WindowBuilder {
    pub params: WindowParams,
}

impl WindowBuilder {
    /// Start from the default window parameters.
    pub fn new() -> (b: WindowBuilder)
        ensures
            b.params.title@ == "CX Window"@,
            b.params.width == 800 && b.params.height == 600,
            b.params.x is None && b.params.y is None,
            b.params.resizable && b.params.decorations,
            !b.params.always_on_top && !b.params.transparent && !b.params.fullscreen,
    {
        WindowBuilder { params: WindowParams::default() }
    }

    /// Set the window title.
    pub fn title(self, title: &str) -> (b: WindowBuilder)
        ensures
            b.params.title@ == title@,
            b.params == (WindowParams { title: b.params.title, ..self.params }),
    {
        WindowBuilder { params: WindowParams { title: title.to_owned(), ..self.params } }
    }

    /// Set the window size.
    pub fn size(self, width: u32, height: u32) -> (b: WindowBuilder)
        ensures
            b.params == (WindowParams { width, height, ..self.params }),
    {
        WindowBuilder { params: WindowParams { width, height, ..self.params } }
    }

    /// Set the window width.
    pub fn width(self, width: u32) -> (b: WindowBuilder)
        ensures
            b.params == (WindowParams { width, ..self.params }),
    {
        WindowBuilder { params: WindowParams { width, ..self.params } }
    }

    /// Set the window height.
    pub fn height(self, height: u32) -> (b: WindowBuilder)
        ensures
            b.params == (WindowParams { height, ..self.params }),
    {
        WindowBuilder { params: WindowParams { height, ..self.params } }
    }

    /// Set the window position.
    pub fn position(self, x: i32, y: i32) -> (b: WindowBuilder)
        ensures
            b.params == (WindowParams { x: Some(x), y: Some(y), ..self.params }),
    {
        WindowBuilder { params: WindowParams { x: Some(x), y: Some(y), ..self.params } }
    }

    /// Set whether the window is resizable.
    pub fn resizable(self, resizable: bool) -> (b: WindowBuilder)
        ensures
            b.params == (WindowParams { resizable, ..self.params }),
    {
        WindowBuilder { params: WindowParams { resizable, ..self.params } }
    }

    /// Set whether the window has decorations (title bar and borders).
    pub fn decorations(self, decorations: bool) -> (b: WindowBuilder)
        ensures
            b.params == (WindowParams { decorations, ..self.params }),
    {
        WindowBuilder { params: WindowParams { decorations, ..self.params } }
    }

    /// Set whether the window stays on top.
    pub fn always_on_top(self, always_on_top: bool) -> (b: WindowBuilder)
        ensures
            b.params == (WindowParams { always_on_top, ..self.params }),
    {
        WindowBuilder { params: WindowParams { always_on_top, ..self.params } }
    }

    /// Set whether the window is transparent.
    pub fn transparent(self, transparent: bool) -> (b: WindowBuilder)
        ensures
            b.params == (WindowParams { transparent, ..self.params }),
    {
        WindowBuilder { params: WindowParams { transparent, ..self.params } }
    }

    /// Set whether the window starts fullscreen.
    pub fn fullscreen(self, fullscreen: bool) -> (b: WindowBuilder)
        ensures
            b.params == (WindowParams { fullscreen, ..self.params }),
    {
        WindowBuilder { params: WindowParams { fullscreen, ..self.params } }
    }

    /// Create the native window through the application's backend, register
    /// it with the application, and return it.
    pub fn build<B: PlatformBackend>(self, app: &mut crate::application::Application<B>) -> (r:
        Result<Window, Error>)
        ensures
            r matches Ok(w) ==> {
                &&& final (app).windows@.len() == old(app).windows@.len() + 1
                &&& final (app).windows@ == old(app).windows@.push(
                    final (app).windows@.last(),
                )
                &&& final (app).windows@.last().handle == w.handle
                &&& final (app).windows@.last().properties.title@ == self.params.title@
                &&& w.properties.title@ == self.params.title@
                &&& w.properties.width == self.params.width
                &&& w.properties.height == self.params.height
                &&& !w.properties.visible && !w.properties.focused
                &&& final (app).running == old(app).running
            },
            r is Err ==> final (app).windows@ == old(app).windows@ && final (app).running == old(
                app,
            ).running,
    {
        let handle = match app.event_loop.backend.create_window(&self.params) {
            Ok(h) => h,
            Err(e) => {
                return Err(e);
            },
        };
        let (px, py) = match (self.params.x, self.params.y) {
            (Some(x), Some(y)) => (x, y),
            (Some(x), None) => (x, 0),
            (None, Some(y)) => (0, y),
            (None, None) => (0, 0),
        };
        let properties = WindowProperties {
            title: self.params.title,
            width: self.params.width,
            height: self.params.height,
            x: px,
            y: py,
            visible: false,
            resizable: self.params.resizable,
            decorations: self.params.decorations,
            always_on_top: self.params.always_on_top,
            transparent: self.params.transparent,
            fullscreen: self.params.fullscreen,
            focused: false,
        };
        let window = Window { handle, properties };
        let registered = window.duplicate();
        app.register_window(registered);
        Ok(window)
    }
}

impl Default for WindowBuilder {
    /// Same as [`WindowBuilder::new`].
    fn default() -> (b: WindowBuilder)
        ensures
            b.params.title@ == "CX Window"@,
            b.params.width == 800 && b.params.height == 600,
    {
        WindowBuilder { params: WindowParams::default() }
    }
}

/// Window manager for handling several windows in creation order.
#[derive(Debug)]
pub struct WindowManager {
    pub windows: Vec<Window>,
}

impl WindowManager {
    /// Create an empty window manager.
    pub fn new() -> (m: WindowManager)
        ensures
            m.windows@ == Seq::<Window>::empty(),
    {
        WindowManager { windows: Vec::new() }
    }

    /// Add a window.
    pub fn add_window(&mut self, window: Window)
        ensures
            final (self).windows@ == old(self).windows@.push(window),
    {
        self.windows.push(window);
    }

    /// Remove the first window with the given identifier and return it.
    pub fn remove_window(&mut self, window_id: WindowId) -> (r: Option<Window>)
        ensures
            match r {
                Some(w) => exists|j: int|
                    {
                        &&& 0 <= j < old(self).windows@.len()
                        &&& (#[trigger] old(self).windows@[j].handle.id) == window_id
                        &&& w == old(self).windows@[j]
                        &&& (forall|k: int|
                            0 <= k < j ==> (#[trigger] old(self).windows@[k].handle.id)
                                != window_id)
                        &&& final (self).windows@ == old(self).windows@.remove(j)
                    },
                None => {
                    &&& final (self).windows@ == old(self).windows@
                    &&& forall|k: int|
                        0 <= k < old(self).windows@.len() ==> (
                        #[trigger] old(self).windows@[k].handle.id) != window_id
                },
            },
    {
        let mut i: usize = 0;
        while i < self.windows.len()
            invariant
                *self == *old(self),
                i <= self.windows@.len(),
                forall|k: int| 0 <= k < i ==> (#[trigger] self.windows@[k].handle.id) != window_id,
            decreases self.windows@.len() - i,
        {
            if self.windows[i].id() == window_id {
                let w = self.windows.remove(i);
                return Some(w);
            }
            i += 1;
        }
        None
    }

    /// The first window with the given identifier, if any.
    pub fn get_window(&self, window_id: WindowId) -> (r: Option<&Window>)
        ensures
            match r {
                Some(w) => exists|j: int|
                    {
                        &&& 0 <= j < self.windows@.len()
                        &&& (#[trigger] self.windows@[j].handle.id) == window_id
                        &&& *w == self.windows@[j]
                    },
                None => forall|k: int|
                    0 <= k < self.windows@.len() ==> (#[trigger] self.windows@[k].handle.id)
                        != window_id,
            },
    {
        let mut i: usize = 0;
        while i < self.windows.len()
            invariant
                i <= self.windows@.len(),
                forall|k: int| 0 <= k < i ==> (#[trigger] self.windows@[k].handle.id) != window_id,
            decreases self.windows@.len() - i,
        {
            if self.windows[i].id() == window_id {
                return Some(&self.windows[i]);
            }
            i += 1;
        }
        None
    }

    /// The managed windows, in creation order.
    pub fn windows(&self) -> (r: &Vec<Window>)
        ensures
            r == &self.windows,
    {
        &self.windows
    }

    /// The number of managed windows.
    pub fn window_count(&self) -> (r: usize)
        ensures
            r == self.windows@.len(),
    {
        self.windows.len()
    }

    /// Update every window; window state is untouched.
    pub fn update_all(&self, delta_nanos: u64) -> (r: Result<(), Error>)
        ensures
            r is Ok,
    {
        let mut i: usize = 0;
        while i < self.windows.len()
            decreases self.windows@.len() - i,
        {
            let _ = self.windows[i].update(delta_nanos);
            i += 1;
        }
        Ok(())
    }

    /// Present every window through the backend, continuing past failures
    /// and reporting the first one, if any.
    pub fn render_all<B: PlatformBackend>(&self, backend: &mut B) -> (r: Result<(), Error>) {
        let mut first_err: Option<Error> = None;
        let mut i: usize = 0;
        while i < self.windows.len()
            decreases self.windows@.len() - i,
        {
            match self.windows[i].render(backend) {
                Ok(()) => {},
                Err(e) => {
                    if first_err.is_none() {
                        first_err = Some(e);
                    }
                },
            }
            i += 1;
        }
        match first_err {
            Some(e) => Err(e),
            None => Ok(()),
        }
    }

    /// Close every window through the backend, continuing past failures and
    /// reporting the first one, if any.
    pub fn close_all<B: PlatformBackend>(&self, backend: &mut B) -> (r: Result<(), Error>) {
        let mut first_err: Option<Error> = None;
        let mut i: usize = 0;
        while i < self.windows.len()
            decreases self.windows@.len() - i,
        {
            match self.windows[i].close(backend) {
                Ok(()) => {},
                Err(e) => {
                    if first_err.is_none() {
                        first_err = Some(e);
                    }
                },
            }
            i += 1;
        }
        match first_err {
            Some(e) => Err(e),
            None => Ok(()),
        }
    }

    /// Drop every window record.
    pub fn clear(&mut self)
        ensures
            final (self).windows@ == Seq::<Window>::empty(),
    {
        self.windows.clear();
    }
}

impl Default for WindowManager {
    /// Same as [`WindowManager::new`].
    fn default() -> (m: WindowManager)
        ensures
            m.windows@ == Seq::<Window>::empty(),
    {
        WindowManager { windows: Vec::new() }
    }
}

/// Hooks a window's owner may implement to observe window events; every
/// reaction is optional.
pub trait WindowEventHandler {
    /// Called when the window is resized.
    fn on_resize(&mut self, width: u32, height: u32) -> Result<(), Error>;

    /// Called when the window is moved.
    fn on_move(&mut self, x: i32, y: i32) -> Result<(), Error>;

    /// Called when the window gains focus.
    fn on_focus(&mut self) -> Result<(), Error>;

    /// Called when the window loses focus.
    fn on_unfocus(&mut self) -> Result<(), Error>;

    /// Called when the window is about to close; returning false keeps it
    /// open.
    fn on_close(&mut self) -> Result<bool, Error>;
}

} // verus!
