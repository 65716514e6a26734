//! Event pipeline tests: the bounded queue, the manager, normalization
//! through a scripted backend, and the platform decoders.

use cx::error::Error;
use cx::events::{Event, EventData, EventHandler, EventLoop, EventManager, EventQueue};
use cx::keymap::{
    get_x11_key_modifiers, keycode_to_key, keysym_to_key, ns_event_to_platform_event,
    ns_modifiers_to_key_modifiers, virtual_key_to_key, window_message_to_event,
    x11_event_to_platform_event,
};
use cx::platform::{Key, KeyModifiers, MouseButton, PlatformBackend, PlatformEvent, WindowHandle,
    WindowParams};

/// A backend that serves pre-scripted batches of raw events.
struct ScriptedBackend {
    batches: Vec<Vec<PlatformEvent>>,
    next_window_id: u64,
}

impl ScriptedBackend {
    fn new(batches: Vec<Vec<PlatformEvent>>) -> ScriptedBackend {
        ScriptedBackend { batches, next_window_id: 1 }
    }
}

impl PlatformBackend for ScriptedBackend {
    fn initialize(&mut self) -> Result<(), Error> {
        Ok(())
    }

    fn create_window(&mut self, _params: &WindowParams) -> Result<WindowHandle, Error> {
        let id = self.next_window_id;
        self.next_window_id += 1;
        Ok(WindowHandle::new(id))
    }

    fn destroy_window(&mut self, _handle: &WindowHandle) -> Result<(), Error> {
        Ok(())
    }

    fn show_window(&mut self, _handle: &WindowHandle) -> Result<(), Error> {
        Ok(())
    }

    fn hide_window(&mut self, _handle: &WindowHandle) -> Result<(), Error> {
        Ok(())
    }

    fn set_window_title(&mut self, _handle: &WindowHandle, _title: &str) -> Result<(), Error> {
        Ok(())
    }

    fn set_window_size(&mut self, _handle: &WindowHandle, _w: u32, _h: u32) -> Result<(), Error> {
        Ok(())
    }

    fn get_window_size(&self, _handle: &WindowHandle) -> Result<(u32, u32), Error> {
        Ok((800, 600))
    }

    fn set_window_position(&mut self, _handle: &WindowHandle, _x: i32, _y: i32) -> Result<
        (),
        Error,
    > {
        Ok(())
    }

    fn get_window_position(&self, _handle: &WindowHandle) -> Result<(i32, i32), Error> {
        Ok((0, 0))
    }

    fn poll_events(&mut self) -> Result<Vec<PlatformEvent>, Error> {
        if self.batches.is_empty() {
            Ok(Vec::new())
        } else {
            Ok(self.batches.remove(0))
        }
    }

    fn wait_events(&mut self) -> Result<Vec<PlatformEvent>, Error> {
        self.poll_events()
    }

    fn present_window(&mut self, _handle: &WindowHandle) -> Result<(), Error> {
        Ok(())
    }

    fn cleanup(&mut self) -> Result<(), Error> {
        Ok(())
    }
}

#[test]
fn test_event_queue() {
    let mut queue = EventQueue::with_capacity(2);

    queue.push(Event::Quit);
    assert_eq!(queue.len(), 1);

    queue.push(Event::WindowClosed { window_id: 1 });
    assert_eq!(queue.len(), 2);

    // Should remove the first event when capacity is exceeded
    queue.push(Event::WindowClosed { window_id: 2 });
    assert_eq!(queue.len(), 2);

    let event = queue.pop().unwrap();
    assert!(matches!(event, Event::WindowClosed { window_id: 1 }));
}

#[test]
fn test_event_queue_eviction_order() {
    // Pushing three events into a queue bounded to two keeps the two most
    // recent, in their original relative order.
    let mut queue = EventQueue::with_capacity(2);
    queue.push(Event::WindowClosed { window_id: 1 });
    queue.push(Event::WindowClosed { window_id: 2 });
    queue.push(Event::WindowClosed { window_id: 3 });
    assert!(matches!(queue.pop(), Some(Event::WindowClosed { window_id: 2 })));
    assert!(matches!(queue.pop(), Some(Event::WindowClosed { window_id: 3 })));
    assert!(queue.pop().is_none());
    assert!(queue.is_empty());
}

#[test]
fn test_event_queue_drain() {
    let mut queue = EventQueue::new();
    queue.push(Event::Quit);
    queue.push(Event::WindowClosed { window_id: 7 });
    let drained = queue.drain();
    assert_eq!(drained.len(), 2);
    assert!(matches!(drained[0], Event::Quit));
    assert!(matches!(drained[1], Event::WindowClosed { window_id: 7 }));
    assert!(queue.is_empty());
}

#[test]
fn test_event_data() {
    let data = EventData::Text("test".to_string());
    assert!(matches!(data, EventData::Text(_)));

    let data = EventData::Number(42);
    assert!(matches!(data, EventData::Number(_)));
}

/// A handler that consumes only `Quit` events and counts what it saw.
struct QuitHandler {
    seen: usize,
}

impl EventHandler for QuitHandler {
    fn handle_event(&mut self, event: &Event) -> Result<bool, Error> {
        self.seen += 1;
        Ok(matches!(event, Event::Quit))
    }
}

#[test]
fn test_event_manager() {
    let mut manager: EventManager<QuitHandler> = EventManager::new();

    let id = manager.register_handler(QuitHandler { seen: 0 });
    assert_eq!(id, 1);
    assert_eq!(manager.handler_count(), 1);

    assert!(manager.dispatch_event(&Event::Quit).is_ok());
    assert!(manager.dispatch_event(&Event::WindowClosed { window_id: 1 }).is_ok());

    assert!(manager.unregister_handler(id));
    assert!(!manager.unregister_handler(id));
    assert_eq!(manager.handler_count(), 0);
}

#[test]
fn test_repeat_flag_sequence() {
    // A run of key-downs for one key reports repeat == false only on the
    // first; a key-up resets, so the next key-down is fresh again.
    let mods = KeyModifiers::new();
    let batches = vec![vec![
        PlatformEvent::KeyPressed { window_id: 1, key: Key::A, modifiers: mods },
        PlatformEvent::KeyPressed { window_id: 1, key: Key::A, modifiers: mods },
        PlatformEvent::KeyPressed { window_id: 1, key: Key::A, modifiers: mods },
        PlatformEvent::KeyReleased { window_id: 1, key: Key::A, modifiers: mods },
        PlatformEvent::KeyPressed { window_id: 1, key: Key::A, modifiers: mods },
    ]];
    let mut event_loop = EventLoop::new(ScriptedBackend::new(batches)).unwrap();
    let events = event_loop.poll_events().unwrap();
    assert_eq!(events.len(), 5);
    assert!(matches!(events[0], Event::KeyPressed { repeat: false, .. }));
    assert!(matches!(events[1], Event::KeyPressed { repeat: true, .. }));
    assert!(matches!(events[2], Event::KeyPressed { repeat: true, .. }));
    assert!(matches!(events[3], Event::KeyReleased { .. }));
    assert!(matches!(events[4], Event::KeyPressed { repeat: false, .. }));
    assert!(!event_loop.is_key_pressed(Key::B));
    assert!(event_loop.is_key_pressed(Key::A));
}

#[test]
fn test_boundary_crossing_order() {
    // Moving from window 1 to window 2 yields MouseLeft{1}, MouseEntered{2},
    // MouseMoved{2} in exactly that order.
    let batches = vec![
        vec![PlatformEvent::MouseMoved { window_id: 1, x: 5, y: 6 }],
        vec![PlatformEvent::MouseMoved { window_id: 2, x: 7, y: 8 }],
    ];
    let mut event_loop = EventLoop::new(ScriptedBackend::new(batches)).unwrap();

    let first = event_loop.poll_events().unwrap();
    assert_eq!(first.len(), 2);
    assert!(matches!(first[0], Event::MouseEntered { window_id: 1 }));
    assert!(matches!(first[1], Event::MouseMoved { window_id: 1, x: 5, y: 6 }));

    let second = event_loop.poll_events().unwrap();
    assert_eq!(second.len(), 3);
    assert!(matches!(second[0], Event::MouseLeft { window_id: 1 }));
    assert!(matches!(second[1], Event::MouseEntered { window_id: 2 }));
    assert!(matches!(second[2], Event::MouseMoved { window_id: 2, x: 7, y: 8 }));
    assert_eq!(event_loop.mouse_position(), (7, 8));
}

#[test]
fn test_move_within_window_emits_no_transitions() {
    let batches = vec![
        vec![
            PlatformEvent::MouseMoved { window_id: 1, x: 1, y: 1 },
            PlatformEvent::MouseMoved { window_id: 1, x: 2, y: 2 },
        ],
    ];
    let mut event_loop = EventLoop::new(ScriptedBackend::new(batches)).unwrap();
    let events = event_loop.poll_events().unwrap();
    assert_eq!(events.len(), 3);
    assert!(matches!(events[0], Event::MouseEntered { window_id: 1 }));
    assert!(matches!(events[1], Event::MouseMoved { window_id: 1, x: 1, y: 1 }));
    assert!(matches!(events[2], Event::MouseMoved { window_id: 1, x: 2, y: 2 }));
}

#[test]
fn test_mouse_button_tracking() {
    let batches = vec![vec![
        PlatformEvent::MousePressed { window_id: 1, button: MouseButton::Left, x: 3, y: 4 },
        PlatformEvent::MousePressed { window_id: 1, button: MouseButton::Right, x: 3, y: 4 },
        PlatformEvent::MouseReleased { window_id: 1, button: MouseButton::Left, x: 3, y: 4 },
    ]];
    let mut event_loop = EventLoop::new(ScriptedBackend::new(batches)).unwrap();
    let events = event_loop.poll_events().unwrap();
    assert_eq!(events.len(), 3);
    assert!(!event_loop.is_mouse_button_pressed(MouseButton::Left));
    assert!(event_loop.is_mouse_button_pressed(MouseButton::Right));
}

#[test]
fn test_post_user_event() {
    let mut event_loop = EventLoop::new(ScriptedBackend::new(vec![])).unwrap();
    event_loop.post_user_event("custom".to_string(), EventData::Boolean(true));
    let events = event_loop.poll_events().unwrap();
    assert_eq!(events.len(), 1);
    match &events[0] {
        Event::User { event_type, data } => {
            assert_eq!(event_type, "custom");
            assert!(matches!(data, EventData::Boolean(true)));
        },
        other => panic!("unexpected event: {:?}", other),
    }
}

#[test]
fn test_keysym_mapping() {
    assert_eq!(keysym_to_key(0xff1b), Key::Escape);
    assert_eq!(keysym_to_key(0x61), Key::A);
    assert_eq!(keysym_to_key(0x7a), Key::Z);
    assert_eq!(keysym_to_key(0x30), Key::Key0);
    assert_eq!(keysym_to_key(0xffbe), Key::F1);
    assert_eq!(keysym_to_key(0xffec), Key::RightMeta);
    assert_eq!(keysym_to_key(0x1234), Key::Unknown(0x1234));
}

#[test]
fn test_virtual_key_mapping() {
    assert_eq!(virtual_key_to_key(0x1b), Key::Escape);
    assert_eq!(virtual_key_to_key(0x41), Key::A);
    assert_eq!(virtual_key_to_key(0x39), Key::Key9);
    assert_eq!(virtual_key_to_key(0x7b), Key::F12);
    assert_eq!(virtual_key_to_key(0x5b), Key::LeftMeta);
    assert_eq!(virtual_key_to_key(0xEE), Key::Unknown(0xEE));
}

#[test]
fn test_keycode_mapping() {
    assert_eq!(keycode_to_key(0), Key::A);
    assert_eq!(keycode_to_key(6), Key::Z);
    assert_eq!(keycode_to_key(53), Key::Escape);
    assert_eq!(keycode_to_key(49), Key::Space);
    assert_eq!(keycode_to_key(200), Key::Unknown(200));
}

#[test]
fn test_modifier_decoding() {
    let m = get_x11_key_modifiers(0x1 | 0x40);
    assert!(m.shift && m.meta && !m.ctrl && !m.alt);
    let n = ns_modifiers_to_key_modifiers(0x20000 | 0x80000);
    assert!(n.shift && n.alt && !n.ctrl && !n.meta);
    assert!(KeyModifiers::new().is_empty());
    assert!(!m.is_empty());
}

#[test]
fn test_window_message_decoding() {
    let mods = KeyModifiers::new();

    let (ev, fwd) = window_message_to_event(1, 0x0010, 0, 0, mods);
    assert!(matches!(ev, Some(PlatformEvent::WindowClosed { window_id: 1 })));
    assert!(fwd);

    let (ev, fwd) = window_message_to_event(1, 0x0002, 0, 0, mods);
    assert!(matches!(ev, Some(PlatformEvent::Quit)));
    assert!(!fwd);

    // A left press at x=10, y=20 packed into the parameter.
    let lparam: isize = (20 << 16) | 10;
    let (ev, _) = window_message_to_event(1, 0x0201, 0, lparam, mods);
    match ev {
        Some(PlatformEvent::MousePressed { window_id, button, x, y }) => {
            assert_eq!(window_id, 1);
            assert_eq!(button, MouseButton::Left);
            assert_eq!(x, 10);
            assert_eq!(y, 20);
        },
        other => panic!("unexpected event: {:?}", other),
    }

    // A wheel turn of one notch away from the user: 120 in the high word.
    let wparam: usize = 120 << 16;
    let (ev, _) = window_message_to_event(1, 0x020A, wparam, 0, mods);
    assert!(matches!(ev, Some(PlatformEvent::MouseWheel { delta_y: 1, .. })));

    // A printable character message.
    let (ev, _) = window_message_to_event(1, 0x0102, 'h' as usize, 0, mods);
    match ev {
        Some(PlatformEvent::TextInput { text, .. }) => assert_eq!(text, "h"),
        other => panic!("unexpected event: {:?}", other),
    }

    // A control character yields nothing.
    let (ev, _) = window_message_to_event(1, 0x0102, 0x08, 0, mods);
    assert!(ev.is_none());

    // A key press carries the supplied modifiers.
    let (ev, _) = window_message_to_event(1, 0x0100, 0x41, 0, mods);
    assert!(matches!(ev, Some(PlatformEvent::KeyPressed { key: Key::A, .. })));
}

#[test]
fn test_x11_event_decoding() {
    // A key press of the letter q with shift held.
    let ev = x11_event_to_platform_event(2, 1, 0x71, 0, 0, 0, 0x1, 0, 0, false);
    match ev {
        Some(PlatformEvent::KeyPressed { window_id, key, modifiers }) => {
            assert_eq!(window_id, 1);
            assert_eq!(key, Key::Q);
            assert!(modifiers.shift);
        },
        other => panic!("unexpected event: {:?}", other),
    }

    // A middle button press at a position.
    let ev = x11_event_to_platform_event(4, 1, 0, 2, 15, 25, 0, 0, 0, false);
    assert!(matches!(
        ev,
        Some(PlatformEvent::MousePressed { button: MouseButton::Middle, x: 15, y: 25, .. })
    ));

    // A delete client message closes the window; other client messages do
    // nothing.
    let ev = x11_event_to_platform_event(33, 7, 0, 0, 0, 0, 0, 0, 0, true);
    assert!(matches!(ev, Some(PlatformEvent::WindowClosed { window_id: 7 })));
    let ev = x11_event_to_platform_event(33, 7, 0, 0, 0, 0, 0, 0, 0, false);
    assert!(ev.is_none());
}

#[test]
fn test_ns_event_decoding() {
    // A key down of the letter a with command held.
    let ev = ns_event_to_platform_event(10, 1, 0, 0x100000, 0, 0, 0, 0);
    match ev {
        Some(PlatformEvent::KeyPressed { key, modifiers, .. }) => {
            assert_eq!(key, Key::A);
            assert!(modifiers.meta && !modifiers.shift);
        },
        other => panic!("unexpected event: {:?}", other),
    }

    // A drag reports the pointer position like a plain move.
    let ev = ns_event_to_platform_event(6, 1, 0, 0, 3, 4, 0, 0);
    assert!(matches!(ev, Some(PlatformEvent::MouseMoved { x: 3, y: 4, .. })));

    // A scroll carries its deltas.
    let ev = ns_event_to_platform_event(22, 1, 0, 0, 0, 0, 0, -2);
    assert!(matches!(ev, Some(PlatformEvent::MouseWheel { delta_y: -2, .. })));
}
