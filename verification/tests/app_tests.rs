//! Application lifecycle tests driven by a scripted backend.

use cx::application::{Application, ApplicationBuilder};
use cx::error::Error;
use cx::events::Event;
use cx::platform::{PlatformBackend, PlatformEvent, WindowHandle, WindowParams};
use cx::window::WindowBuilder;

/// A backend that serves pre-scripted batches of raw events and counts
/// lifecycle calls.
struct ScriptedBackend {
    batches: Vec<Vec<PlatformEvent>>,
    next_window_id: u64,
    cleaned_up: bool,
}

impl ScriptedBackend {
    fn new(batches: Vec<Vec<PlatformEvent>>) -> ScriptedBackend {
        ScriptedBackend { batches, next_window_id: 1, cleaned_up: false }
    }
}

impl PlatformBackend for ScriptedBackend {
    fn initialize(&mut self) -> Result<(), Error> {
        Ok(())
    }

    fn create_window(&mut self, _params: &WindowParams) -> Result<WindowHandle, Error> {
        let id = self.next_window_id;
        self.next_window_id += 1;
        Ok(WindowHandle::new(id))
    }

    fn destroy_window(&mut self, _handle: &WindowHandle) -> Result<(), Error> {
        Ok(())
    }

    fn show_window(&mut self, _handle: &WindowHandle) -> Result<(), Error> {
        Ok(())
    }

    fn hide_window(&mut self, _handle: &WindowHandle) -> Result<(), Error> {
        Ok(())
    }

    fn set_window_title(&mut self, _handle: &WindowHandle, _title: &str) -> Result<(), Error> {
        Ok(())
    }

    fn set_window_size(&mut self, _handle: &WindowHandle, _w: u32, _h: u32) -> Result<(), Error> {
        Ok(())
    }

    fn get_window_size(&self, _handle: &WindowHandle) -> Result<(u32, u32), Error> {
        Ok((800, 600))
    }

    fn set_window_position(&mut self, _handle: &WindowHandle, _x: i32, _y: i32) -> Result<
        (),
        Error,
    > {
        Ok(())
    }

    fn get_window_position(&self, _handle: &WindowHandle) -> Result<(i32, i32), Error> {
        Ok((0, 0))
    }

    fn poll_events(&mut self) -> Result<Vec<PlatformEvent>, Error> {
        if self.batches.is_empty() {
            Ok(Vec::new())
        } else {
            Ok(self.batches.remove(0))
        }
    }

    fn wait_events(&mut self) -> Result<Vec<PlatformEvent>, Error> {
        self.poll_events()
    }

    fn present_window(&mut self, _handle: &WindowHandle) -> Result<(), Error> {
        Ok(())
    }

    fn cleanup(&mut self) -> Result<(), Error> {
        self.cleaned_up = true;
        Ok(())
    }
}

#[test]
fn test_application_creation() {
    let app = Application::new(ScriptedBackend::new(vec![])).unwrap();
    assert!(!app.is_running());
    assert_eq!(app.window_count(), 0);
    assert_eq!(app.config().target_fps, 60);
}

#[test]
fn test_window_creation() {
    let mut app = Application::new(ScriptedBackend::new(vec![])).unwrap();
    let window = WindowBuilder::new()
        .title("Main")
        .size(640, 480)
        .build(&mut app)
        .unwrap();
    assert_eq!(app.window_count(), 1);
    assert_eq!(window.title(), "Main");
    assert_eq!(window.size(), (640, 480));
    assert!(!window.is_visible());
    let found = app.get_window(window.id()).unwrap();
    assert_eq!(found.id(), window.id());
    assert!(app.get_window(999).is_none());
}

#[test]
fn test_window_operations_through_backend() {
    let mut app = Application::new(ScriptedBackend::new(vec![])).unwrap();
    let mut window = WindowBuilder::new().build(&mut app).unwrap();

    window.show(&mut app.event_loop.backend).unwrap();
    assert!(window.is_visible());
    window.hide_window(&mut app.event_loop.backend).unwrap();
    assert!(!window.is_visible());
    window.set_title(&mut app.event_loop.backend, "Renamed").unwrap();
    assert_eq!(window.title(), "Renamed");
    window.set_size(&mut app.event_loop.backend, 320, 200).unwrap();
    assert_eq!(window.size(), (320, 200));
    window.set_position(&mut app.event_loop.backend, 7, 9).unwrap();
    assert_eq!(window.position(), (7, 9));
}

#[test]
fn test_lifecycle_quit_event_stops() {
    let batches = vec![vec![PlatformEvent::Quit]];
    let mut app = Application::new(ScriptedBackend::new(batches)).unwrap();
    app.start();
    assert!(app.is_running());
    let cont = app.run_frame().unwrap();
    assert!(!cont);
    assert!(!app.is_running());
}

#[test]
fn test_lifecycle_closing_last_window_stops() {
    // Starting with zero windows, registering one window, then delivering a
    // WindowClosed for its identifier stops the loop without any Quit.
    let mut app = Application::new(ScriptedBackend::new(vec![])).unwrap();
    assert_eq!(app.window_count(), 0);
    let window = WindowBuilder::new().build(&mut app).unwrap();
    assert_eq!(app.window_count(), 1);
    app.start();

    // An uneventful frame keeps the application running.
    let cont = app.run_frame().unwrap();
    assert!(cont);
    assert!(app.is_running());

    app.event_loop.backend.batches.push(vec![
        PlatformEvent::WindowClosed { window_id: window.id() },
    ]);
    let cont = app.run_frame().unwrap();
    assert!(!cont);
    assert!(!app.is_running());
    assert_eq!(app.window_count(), 0);

    // Once stopped, further frames report false at once.
    let cont = app.run_frame().unwrap();
    assert!(!cont);
}

#[test]
fn test_lifecycle_other_windows_keep_running() {
    let mut app = Application::new(ScriptedBackend::new(vec![])).unwrap();
    let first = WindowBuilder::new().build(&mut app).unwrap();
    let _second = WindowBuilder::new().build(&mut app).unwrap();
    app.start();

    app.event_loop.backend.batches.push(vec![
        PlatformEvent::WindowClosed { window_id: first.id() },
    ]);
    let cont = app.run_frame().unwrap();
    assert!(cont);
    assert!(app.is_running());
    assert_eq!(app.window_count(), 1);
}

#[test]
fn test_quit_request() {
    let mut app = Application::new(ScriptedBackend::new(vec![])).unwrap();
    app.start();
    app.quit().unwrap();
    assert!(!app.is_running());
    let cont = app.run_frame().unwrap();
    assert!(!cont);
}

#[test]
fn test_cleanup_reaches_backend() {
    let mut app = Application::new(ScriptedBackend::new(vec![])).unwrap();
    let _ = WindowBuilder::new().build(&mut app).unwrap();
    app.cleanup().unwrap();
    assert_eq!(app.window_count(), 0);
    assert!(app.event_loop.backend.cleaned_up);
}

#[test]
fn test_builder_configures_application() {
    let app = ApplicationBuilder::new()
        .target_fps(30)
        .performance_monitoring(true)
        .performance_sample_count(10)
        .app_version("2.0.0")
        .build(ScriptedBackend::new(vec![]))
        .unwrap();
    assert_eq!(app.config().target_fps, 30);
    assert!(app.config().enable_performance_monitoring);
    assert_eq!(app.config().performance_sample_count, 10);
    assert_eq!(app.config().app_version, "2.0.0");
}

#[test]
fn test_events_forwarded_to_windows_keep_running() {
    let batches = vec![vec![
        PlatformEvent::MouseMoved { window_id: 1, x: 2, y: 3 },
        PlatformEvent::WindowFocused { window_id: 1 },
    ]];
    let mut app = Application::new(ScriptedBackend::new(batches)).unwrap();
    let _ = WindowBuilder::new().build(&mut app).unwrap();
    app.start();
    let cont = app.run_frame().unwrap();
    assert!(cont);
    assert!(app.is_running());
    // The event loop tracked the pointer from the forwarded move.
    assert_eq!(app.event_loop.mouse_position(), (2, 3));
}

#[test]
fn test_event_loop_batches_through_application() {
    let batches = vec![vec![
        PlatformEvent::TextInput { window_id: 1, text: "hi".to_string() },
    ]];
    let mut backend = ScriptedBackend::new(batches);
    let _ = backend.initialize();
    let mut event_loop = cx::events::EventLoop::new(backend).unwrap();
    let events = event_loop.poll_events().unwrap();
    assert_eq!(events.len(), 1);
    match &events[0] {
        Event::TextInput { window_id, text } => {
            assert_eq!(*window_id, 1);
            assert_eq!(text, "hi");
        },
        other => panic!("unexpected event: {:?}", other),
    }
}
