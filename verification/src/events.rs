//! The canonical event model and the event loop that produces it.
//!
//! Raw [`PlatformEvent`]s from a backend are normalized one at a time: the
//! loop's mouse and keyboard state decide which synthetic events
//! (`MouseEntered` / `MouseLeft`) and which key-repeat flags accompany each
//! raw event. The whole normalization is specified by [`normalize_step`] and
//! [`normalize_seq`], and the executable code is proved to match them.

use vstd::prelude::*;

use crate::error::Error;
use crate::platform::{Key, KeyModifiers, MouseButton, PlatformBackend, PlatformEvent};

verus! {

/// A canonical, platform-independent event delivered to application and
/// widget code. Values are immutable; consumers observe them and decide
/// whether to consume (stop propagation), never to mutate.
#[derive(Debug, Clone)]
pub enum Event {
    /// Application should quit
    Quit,
    /// Window events
    WindowClosed { window_id: u64 },
    WindowResized { window_id: u64, width: u32, height: u32 },
    WindowMoved { window_id: u64, x: i32, y: i32 },
    WindowFocused { window_id: u64 },
    WindowUnfocused { window_id: u64 },
    /// Mouse events
    MousePressed { window_id: u64, button: MouseButton, x: i32, y: i32 },
    MouseReleased { window_id: u64, button: MouseButton, x: i32, y: i32 },
    MouseMoved { window_id: u64, x: i32, y: i32 },
    MouseEntered { window_id: u64 },
    MouseLeft { window_id: u64 },
    MouseWheel { window_id: u64, delta_x: i32, delta_y: i32 },
    /// Keyboard events
    KeyPressed { window_id: u64, key: Key, modifiers: KeyModifiers, repeat: bool },
    KeyReleased { window_id: u64, key: Key, modifiers: KeyModifiers },
    TextInput { window_id: u64, text: String },
    /// Custom user events
    User { event_type: String, data: EventData },
}

/// Data payload for custom user events.
#[derive(Debug, Clone)]
pub enum EventData {
    Empty,
    Text(String),
    Number(i64),
    Boolean(bool),
    Custom(Vec<(String, String)>),
}

impl Default for EventData {
    /// The empty payload.
    fn default() -> (d: EventData)
        ensures
            d is Empty,
    {
        EventData::Empty
    }
}

/// Remove every occurrence of `x` from `s`, keeping the order of the rest.
pub open spec fn remove_elem<T>(s: Seq<T>, x: T) -> Seq<T>
    decreases s.len(),
{
    if s.len() == 0 {
        Seq::empty()
    } else if s.last() == x {
        remove_elem(s.drop_last(), x)
    } else {
        remove_elem(s.drop_last(), x).push(s.last())
    }
}

/// What `remove_elem` leaves behind: everything but `x`.
pub broadcast proof fn lemma_remove_elem_contains<T>(s: Seq<T>, x: T, y: T)
    ensures
        #[trigger] remove_elem(s, x).contains(y) <==> (s.contains(y) && y != x),
    decreases s.len(),
{
    if s.len() > 0 {
        lemma_remove_elem_contains(s.drop_last(), x, y);
        assert(s.contains(y) <==> (s.drop_last().contains(y) || s.last() == y)) by {
            if s.contains(y) {
                let i = choose|i: int| 0 <= i < s.len() && s[i] == y;
                if i < s.len() - 1 {
                    assert(s.drop_last()[i] == y);
                }
            }
            if s.drop_last().contains(y) {
                let i = choose|i: int| 0 <= i < s.drop_last().len() && s.drop_last()[i] == y;
                assert(s[i] == y);
            }
        }
        if s.last() != x {
            let r = remove_elem(s.drop_last(), x).push(s.last());
            assert(remove_elem(s, x) == r);
            if y == s.last() {
                assert(r[r.len() - 1] == y);
                assert(r.contains(y));
            }
            if remove_elem(s.drop_last(), x).contains(y) {
                let i = choose|i: int|
                    0 <= i < remove_elem(s.drop_last(), x).len() && remove_elem(s.drop_last(), x)[i]
                        == y;
                assert(r[i] == y);
                assert(r.contains(y));
            }
            if r.contains(y) {
                let i = choose|i: int| 0 <= i < r.len() && r[i] == y;
                if i < r.len() - 1 {
                    assert(remove_elem(s.drop_last(), x)[i] == y);
                }
            }
        }
    }
}

/// Mathematical model of the mouse state.
pub ghost struct MouseModel {
    pub pos_x: int,
    pub pos_y: int,
    pub pressed: Seq<MouseButton>,
    pub window: Option<u64>,
}

/// Mathematical model of the keyboard state.
pub ghost struct KeyboardModel {
    pub pressed: Seq<Key>,
    pub modifiers: KeyModifiers,
}

/// Current mouse state, derived purely from the raw event stream.
///
/// Invariant (maintained by normalization): a button is in `pressed_buttons`
/// exactly when a press for it arrived without a later release, and the list
/// holds no duplicates.
#[derive(Debug, Clone)]
pub struct MouseState {
    pub pos_x: i32,
    pub pos_y: i32,
    pub pressed_buttons: Vec<MouseButton>,
    pub window_id: Option<u64>,
}

impl View for MouseState {
    type V = MouseModel;

    open spec fn view(&self) -> MouseModel {
        MouseModel {
            pos_x: self.pos_x as int,
            pos_y: self.pos_y as int,
            pressed: self.pressed_buttons@,
            window: self.window_id,
        }
    }
}

impl Default for MouseState {
    /// Pointer at the origin, no buttons pressed, in no window.
    fn default() -> (s: MouseState)
        ensures
            s@.pos_x == 0 && s@.pos_y == 0,
            s@.pressed == Seq::<MouseButton>::empty(),
            s@.window is None,
    {
        MouseState { pos_x: 0, pos_y: 0, pressed_buttons: Vec::new(), window_id: None }
    }
}

/// Current keyboard state, derived purely from the raw event stream.
///
/// Invariant (maintained by normalization): a key is in `pressed_keys`
/// exactly when a key-down for it arrived without a later key-up, and the
/// list holds no duplicates.
#[derive(Debug, Clone)]
pub struct KeyboardState {
    pub pressed_keys: Vec<Key>,
    pub modifiers: KeyModifiers,
}

impl View for KeyboardState {
    type V = KeyboardModel;

    open spec fn view(&self) -> KeyboardModel {
        KeyboardModel { pressed: self.pressed_keys@, modifiers: self.modifiers }
    }
}

impl Default for KeyboardState {
    /// No keys pressed, no modifiers held.
    fn default() -> (s: KeyboardState)
        ensures
            s@.pressed == Seq::<Key>::empty(),
            s@.modifiers == (KeyModifiers { shift: false, ctrl: false, alt: false, meta: false }),
    {
        KeyboardState { pressed_keys: Vec::new(), modifiers: KeyModifiers::new() }
    }
}

/// Canonical events and next input state produced from one raw event.
///
/// Ordering: for a mouse move that crosses a window boundary, the synthetic
/// `MouseLeft` (for the old window, if any) comes first, then `MouseEntered`
/// for the new window, then the `MouseMoved` itself. A key press carries
/// `repeat` exactly when the key was already down.
pub open spec fn normalize_step(m: MouseModel, k: KeyboardModel, e: PlatformEvent) -> (
    Seq<Event>,
    MouseModel,
    KeyboardModel,
) {
    match e {
        PlatformEvent::Quit => (seq![Event::Quit], m, k),
        PlatformEvent::WindowClosed { window_id } => (
            seq![Event::WindowClosed { window_id }],
            m,
            k,
        ),
        PlatformEvent::WindowResized { window_id, width, height } => (
            seq![Event::WindowResized { window_id, width, height }],
            m,
            k,
        ),
        PlatformEvent::WindowMoved { window_id, x, y } => (
            seq![Event::WindowMoved { window_id, x, y }],
            m,
            k,
        ),
        PlatformEvent::WindowFocused { window_id } => (
            seq![Event::WindowFocused { window_id }],
            m,
            k,
        ),
        PlatformEvent::WindowUnfocused { window_id } => (
            seq![Event::WindowUnfocused { window_id }],
            m,
            k,
        ),
        PlatformEvent::MousePressed { window_id, button, x, y } => (
            seq![Event::MousePressed { window_id, button, x, y }],
            MouseModel {
                pos_x: x as int,
                pos_y: y as int,
                pressed: if m.pressed.contains(button) {
                    m.pressed
                } else {
                    m.pressed.push(button)
                },
                window: Some(window_id),
            },
            k,
        ),
        PlatformEvent::MouseReleased { window_id, button, x, y } => (
            seq![Event::MouseReleased { window_id, button, x, y }],
            MouseModel {
                pos_x: x as int,
                pos_y: y as int,
                pressed: remove_elem(m.pressed, button),
                window: m.window,
            },
            k,
        ),
        PlatformEvent::MouseMoved { window_id, x, y } => (
            if m.window == Some(window_id) {
                seq![Event::MouseMoved { window_id, x, y }]
            } else {
                match m.window {
                    Some(old_id) => seq![
                        Event::MouseLeft { window_id: old_id },
                        Event::MouseEntered { window_id },
                        Event::MouseMoved { window_id, x, y },
                    ],
                    None => seq![
                        Event::MouseEntered { window_id },
                        Event::MouseMoved { window_id, x, y },
                    ],
                }
            },
            MouseModel {
                pos_x: x as int,
                pos_y: y as int,
                pressed: m.pressed,
                window: Some(window_id),
            },
            k,
        ),
        PlatformEvent::MouseWheel { window_id, delta_x, delta_y } => (
            seq![Event::MouseWheel { window_id, delta_x, delta_y }],
            m,
            k,
        ),
        PlatformEvent::KeyPressed { window_id, key, modifiers } => (
            seq![
                Event::KeyPressed { window_id, key, modifiers, repeat: k.pressed.contains(key) },
            ],
            m,
            KeyboardModel {
                pressed: if k.pressed.contains(key) {
                    k.pressed
                } else {
                    k.pressed.push(key)
                },
                modifiers,
            },
        ),
        PlatformEvent::KeyReleased { window_id, key, modifiers } => (
            seq![Event::KeyReleased { window_id, key, modifiers }],
            m,
            KeyboardModel { pressed: remove_elem(k.pressed, key), modifiers },
        ),
        PlatformEvent::TextInput { window_id, text } => (
            seq![Event::TextInput { window_id, text }],
            m,
            k,
        ),
    }
}

/// Canonical events and final input state produced from a batch of raw
/// events, processed in arrival order.
pub open spec fn normalize_seq(m: MouseModel, k: KeyboardModel, s: Seq<PlatformEvent>) -> (
    Seq<Event>,
    MouseModel,
    KeyboardModel,
)
    decreases s.len(),
{
    if s.len() == 0 {
        (Seq::empty(), m, k)
    } else {
        let (es, m1, k1) = normalize_seq(m, k, s.drop_last());
        let (es2, m2, k2) = normalize_step(m1, k1, s.last());
        (es + es2, m2, k2)
    }
}

/// Whether `v` holds `k`.
fn vec_contains_key(v: &Vec<Key>, k: Key) -> (r: bool)
    ensures
        r == v@.contains(k),
{
    let mut i: usize = 0;
    while i < v.len()
        invariant
            i <= v@.len(),
            forall|j: int| 0 <= j < i ==> v@[j] != k,
        decreases v@.len() - i,
    {
        if v[i] == k {
            return true;
        }
        i += 1;
    }
    false
}

/// Whether `v` holds `b`.
fn vec_contains_button(v: &Vec<MouseButton>, b: MouseButton) -> (r: bool)
    ensures
        r == v@.contains(b),
{
    let mut i: usize = 0;
    while i < v.len()
        invariant
            i <= v@.len(),
            forall|j: int| 0 <= j < i ==> v@[j] != b,
        decreases v@.len() - i,
    {
        if v[i] == b {
            return true;
        }
        i += 1;
    }
    false
}

/// Remove every occurrence of `k` from `v`, keeping the order of the rest.
fn vec_remove_key(v: &mut Vec<Key>, k: Key)
    ensures
        final (v)@ == remove_elem(old(v)@, k),
{
    let mut out: Vec<Key> = Vec::new();
    let mut i: usize = 0;
    while i < v.len()
        invariant
            v@ == old(v)@,
            i <= v@.len(),
            out@ == remove_elem(v@.take(i as int), k),
        decreases v@.len() - i,
    {
        let x = v[i];
        proof {
            assert(v@.take(i + 1 as int).drop_last() =~= v@.take(i as int));
            assert(v@.take(i + 1 as int).last() == v@[i as int]);
        }
        if x != k {
            out.push(x);
        }
        i += 1;
    }
    proof {
        assert(v@.take(v@.len() as int) =~= v@);
    }
    *v = out;
}

/// Remove every occurrence of `b` from `v`, keeping the order of the rest.
fn vec_remove_button(v: &mut Vec<MouseButton>, b: MouseButton)
    ensures
        final (v)@ == remove_elem(old(v)@, b),
{
    let mut out: Vec<MouseButton> = Vec::new();
    let mut i: usize = 0;
    while i < v.len()
        invariant
            v@ == old(v)@,
            i <= v@.len(),
            out@ == remove_elem(v@.take(i as int), b),
        decreases v@.len() - i,
    {
        let x = v[i];
        proof {
            assert(v@.take(i + 1 as int).drop_last() =~= v@.take(i as int));
            assert(v@.take(i + 1 as int).last() == v@[i as int]);
        }
        if x != b {
            out.push(x);
        }
        i += 1;
    }
    proof {
        assert(v@.take(v@.len() as int) =~= v@);
    }
    *v = out;
}

/// Event loop: owns the input state and an internal queue of normalized
/// events awaiting delivery, and pulls raw events from its backend.
pub struct EventLoop<B: PlatformBackend> {
    pub backend: B,
    pub event_queue: Vec<Event>,
    pub mouse_state: MouseState,
    pub keyboard_state: KeyboardState,
}

/// Relates an event loop after `poll_events` / `wait_events` to the loop
/// before: some batch of raw events was normalized from the old input state,
/// the returned events are the old queue followed by that batch's canonical
/// events, and the queue is left empty.
pub open spec fn drained_some_batch<B: PlatformBackend>(
    pre: EventLoop<B>,
    post: EventLoop<B>,
    returned: Seq<Event>,
) -> bool {
    exists|raw: Seq<PlatformEvent>|
        {
            let (es, m2, k2) = #[trigger] normalize_seq(pre.mouse_state@, pre.keyboard_state@, raw);
            &&& returned == pre.event_queue@ + es
            &&& post.mouse_state@ == m2
            &&& post.keyboard_state@ == k2
            &&& post.event_queue@ == Seq::<Event>::empty()
        }
}

impl<B: PlatformBackend> EventLoop<B> {
    /// Create a new event loop around the given platform backend.
    pub fn new(backend: B) -> (r: Result<EventLoop<B>, Error>)
        ensures
            r matches Ok(el) && {
                &&& el.event_queue@ == Seq::<Event>::empty()
                &&& el.mouse_state@.pressed == Seq::<MouseButton>::empty()
                &&& el.mouse_state@.window is None
                &&& el.mouse_state@.pos_x == 0 && el.mouse_state@.pos_y == 0
                &&& el.keyboard_state@.pressed == Seq::<Key>::empty()
                &&& el.keyboard_state@.modifiers == (KeyModifiers {
                    shift: false,
                    ctrl: false,
                    alt: false,
                    meta: false,
                })
            },
    {
        Ok(
            EventLoop {
                backend,
                event_queue: Vec::new(),
                mouse_state: MouseState::default(),
                keyboard_state: KeyboardState::default(),
            },
        )
    }

    /// Normalize one raw event: update the input state and append the
    /// canonical events to the internal queue.
    fn process_one(&mut self, e: PlatformEvent)
        ensures
            ({
                let (es, m2, k2) = normalize_step(
                    old(self).mouse_state@,
                    old(self).keyboard_state@,
                    e,
                );
                &&& final (self).event_queue@ == old(self).event_queue@ + es
                &&& final (self).mouse_state@ == m2
                &&& final (self).keyboard_state@ == k2
                &&& final (self).backend == old(self).backend
            }),
    {
        match e {
            PlatformEvent::Quit => {
                self.event_queue.push(Event::Quit);
            },
            PlatformEvent::WindowClosed { window_id } => {
                self.event_queue.push(Event::WindowClosed { window_id });
            },
            PlatformEvent::WindowResized { window_id, width, height } => {
                self.event_queue.push(Event::WindowResized { window_id, width, height });
            },
            PlatformEvent::WindowMoved { window_id, x, y } => {
                self.event_queue.push(Event::WindowMoved { window_id, x, y });
            },
            PlatformEvent::WindowFocused { window_id } => {
                self.event_queue.push(Event::WindowFocused { window_id });
            },
            PlatformEvent::WindowUnfocused { window_id } => {
                self.event_queue.push(Event::WindowUnfocused { window_id });
            },
            PlatformEvent::MousePressed { window_id, button, x, y } => {
                self.mouse_state.pos_x = x;
                self.mouse_state.pos_y = y;
                self.mouse_state.window_id = Some(window_id);
                if !vec_contains_button(&self.mouse_state.pressed_buttons, button) {
                    self.mouse_state.pressed_buttons.push(button);
                }
                self.event_queue.push(Event::MousePressed { window_id, button, x, y });
            },
            PlatformEvent::MouseReleased { window_id, button, x, y } => {
                self.mouse_state.pos_x = x;
                self.mouse_state.pos_y = y;
                vec_remove_button(&mut self.mouse_state.pressed_buttons, button);
                self.event_queue.push(Event::MouseReleased { window_id, button, x, y });
            },
            PlatformEvent::MouseMoved { window_id, x, y } => {
                let crossed = match self.mouse_state.window_id {
                    Some(old_id) => old_id != window_id,
                    None => true,
                };
                self.mouse_state.pos_x = x;
                self.mouse_state.pos_y = y;
                if crossed {
                    match self.mouse_state.window_id {
                        Some(old_id) => {
                            self.event_queue.push(Event::MouseLeft { window_id: old_id });
                        },
                        None => {},
                    }
                    self.event_queue.push(Event::MouseEntered { window_id });
                    self.mouse_state.window_id = Some(window_id);
                }
                self.event_queue.push(Event::MouseMoved { window_id, x, y });
            },
            PlatformEvent::MouseWheel { window_id, delta_x, delta_y } => {
                self.event_queue.push(Event::MouseWheel { window_id, delta_x, delta_y });
            },
            PlatformEvent::KeyPressed { window_id, key, modifiers } => {
                let repeat = vec_contains_key(&self.keyboard_state.pressed_keys, key);
                if !repeat {
                    self.keyboard_state.pressed_keys.push(key);
                }
                self.keyboard_state.modifiers = modifiers;
                self.event_queue.push(Event::KeyPressed { window_id, key, modifiers, repeat });
            },
            PlatformEvent::KeyReleased { window_id, key, modifiers } => {
                vec_remove_key(&mut self.keyboard_state.pressed_keys, key);
                self.keyboard_state.modifiers = modifiers;
                self.event_queue.push(Event::KeyReleased { window_id, key, modifiers });
            },
            PlatformEvent::TextInput { window_id, text } => {
                self.event_queue.push(Event::TextInput { window_id, text });
            },
        }
    }

    /// Normalize a batch of raw events in arrival order, updating the input
    /// state and appending every produced canonical event to the internal
    /// queue. Never fails; the `Result` mirrors the event-source interface.
    pub fn process_platform_events(&mut self, platform_events: Vec<PlatformEvent>) -> (r: Result<
        (),
        Error,
    >)
        ensures
            r is Ok,
            ({
                let (es, m2, k2) = normalize_seq(
                    old(self).mouse_state@,
                    old(self).keyboard_state@,
                    platform_events@,
                );
                &&& final (self).event_queue@ == old(self).event_queue@ + es
                &&& final (self).mouse_state@ == m2
                &&& final (self).keyboard_state@ == k2
                &&& final (self).backend == old(self).backend
            }),
    {
        let ghost all: Seq<PlatformEvent> = platform_events@;
        let mut rest = platform_events;
        let ghost n: int = all.len() as int;
        let ghost mut i: int = 0;
        while rest.len() > 0
            invariant
                0 <= i <= all.len(),
                rest@ == all.subrange(i, n),
                n == all.len() as int,
                ({
                    let (es, m2, k2) = normalize_seq(
                        old(self).mouse_state@,
                        old(self).keyboard_state@,
                        all.take(i),
                    );
                    &&& self.event_queue@ == old(self).event_queue@ + es
                    &&& self.mouse_state@ == m2
                    &&& self.keyboard_state@ == k2
                    &&& self.backend == old(self).backend
                }),
            decreases rest@.len(),
        {
            let e = rest.remove(0);
            proof {
                assert(e == all[i]);
                assert(all.take(i + 1).drop_last() =~= all.take(i));
                assert(all.take(i + 1).last() == all[i]);
            }
            self.process_one(e);
            proof {
                i = i + 1;
                assert(rest@ =~= all.subrange(i, n));
            }
        }
        proof {
            assert(all.take(i) =~= all);
        }
        Ok(())
    }

    /// Drain the internal queue, returning its events in order.
    fn drain_queue(&mut self) -> (events: Vec<Event>)
        ensures
            events@ == old(self).event_queue@,
            final (self).event_queue@ == Seq::<Event>::empty(),
            final (self).mouse_state == old(self).mouse_state,
            final (self).keyboard_state == old(self).keyboard_state,
            final (self).backend == old(self).backend,
    {
        let mut out: Vec<Event> = Vec::new();
        core::mem::swap(&mut out, &mut self.event_queue);
        out
    }

    /// Poll for events without blocking. Pulls whatever raw events the
    /// backend has ready, normalizes them, and returns the entire pending
    /// batch; on a backend failure nothing is applied.
    pub fn poll_events(&mut self) -> (r: Result<Vec<Event>, Error>)
        ensures
            r matches Ok(events) ==> drained_some_batch(*old(self), *final (self), events@),
            r is Err ==> {
                &&& final (self).event_queue@ == old(self).event_queue@
                &&& final (self).mouse_state@ == old(self).mouse_state@
                &&& final (self).keyboard_state@ == old(self).keyboard_state@
            },
    {
        let raw = match self.backend.poll_events() {
            Ok(raw) => raw,
            Err(e) => {
                return Err(e);
            },
        };
        let ghost raw_view: Seq<PlatformEvent> = raw@;
        let ghost pre: EventLoop<B> = *self;
        let _ = self.process_platform_events(raw);
        let events = self.drain_queue();
        proof {
            let (es, m2, k2) = normalize_seq(pre.mouse_state@, pre.keyboard_state@, raw_view);
            assert(events@ == pre.event_queue@ + es);
        }
        Ok(events)
    }

    /// Wait for events, blocking until the backend reports at least one raw
    /// event; then normalize and return the entire pending batch. On a
    /// backend failure nothing is applied.
    pub fn wait_events(&mut self) -> (r: Result<Vec<Event>, Error>)
        ensures
            r matches Ok(events) ==> drained_some_batch(*old(self), *final (self), events@),
            r is Err ==> {
                &&& final (self).event_queue@ == old(self).event_queue@
                &&& final (self).mouse_state@ == old(self).mouse_state@
                &&& final (self).keyboard_state@ == old(self).keyboard_state@
            },
    {
        let raw = match self.backend.wait_events() {
            Ok(raw) => raw,
            Err(e) => {
                return Err(e);
            },
        };
        let ghost raw_view: Seq<PlatformEvent> = raw@;
        let ghost pre: EventLoop<B> = *self;
        let _ = self.process_platform_events(raw);
        let events = self.drain_queue();
        proof {
            let (es, m2, k2) = normalize_seq(pre.mouse_state@, pre.keyboard_state@, raw_view);
            assert(events@ == pre.event_queue@ + es);
        }
        Ok(events)
    }

    /// The current mouse state.
    pub fn mouse_state(&self) -> (r: &MouseState)
        ensures
            r == &self.mouse_state,
    {
        &self.mouse_state
    }

    /// The current keyboard state.
    pub fn keyboard_state(&self) -> (r: &KeyboardState)
        ensures
            r == &self.keyboard_state,
    {
        &self.keyboard_state
    }

    /// Whether a key is currently pressed.
    pub fn is_key_pressed(&self, key: Key) -> (r: bool)
        ensures
            r == self.keyboard_state@.pressed.contains(key),
    {
        vec_contains_key(&self.keyboard_state.pressed_keys, key)
    }

    /// Whether a mouse button is currently pressed.
    pub fn is_mouse_button_pressed(&self, button: MouseButton) -> (r: bool)
        ensures
            r == self.mouse_state@.pressed.contains(button),
    {
        vec_contains_button(&self.mouse_state.pressed_buttons, button)
    }

    /// The last known mouse position.
    pub fn mouse_position(&self) -> (r: (i32, i32))
        ensures
            r.0 == self.mouse_state.pos_x && r.1 == self.mouse_state.pos_y,
    {
        (self.mouse_state.pos_x, self.mouse_state.pos_y)
    }

    /// The last known keyboard modifiers.
    pub fn keyboard_modifiers(&self) -> (r: KeyModifiers)
        ensures
            r == self.keyboard_state.modifiers,
    {
        self.keyboard_state.modifiers
    }

    /// Append a custom user event to the pending queue; it is returned by
    /// the next poll or wait alongside normalized platform events.
    pub fn post_user_event(&mut self, event_type: String, data: EventData)
        ensures
            final (self).event_queue@ == old(self).event_queue@.push(
                Event::User { event_type, data },
            ),
            final (self).mouse_state == old(self).mouse_state,
            final (self).keyboard_state == old(self).keyboard_state,
            final (self).backend == old(self).backend,
    {
        self.event_queue.push(Event::User { event_type, data });
    }
}

} // verus!

verus! {

/// One bounded push: when the queue is at or over its bound, the oldest
/// entries are dropped (front first) until one slot is free, then the new
/// event is appended. An unbounded queue simply appends.
pub open spec fn spec_bounded_push(s: Seq<Event>, max_size: Option<usize>, e: Event) -> Seq<
    Event,
> {
    match max_size {
        Option::None => s.push(e),
        Option::Some(m) => if s.len() >= m {
            s.skip(s.len() - (m - 1)).push(e)
        } else {
            s.push(e)
        },
    }
}

/// A whole sequence of bounded pushes, oldest first.
pub open spec fn spec_bounded_push_all(
    s0: Seq<Event>,
    max_size: Option<usize>,
    es: Seq<Event>,
) -> Seq<Event>
    decreases es.len(),
{
    if es.len() == 0 {
        s0
    } else {
        spec_bounded_push(spec_bounded_push_all(s0, max_size, es.drop_last()), max_size, es.last())
    }
}

/// Law (bounded queue eviction): pushing any run of events into an empty
/// queue bounded to capacity `m` leaves exactly the `m` most recent ones, in
/// their original relative order. In particular, pushing `m + 1` events
/// leaves the last `m`.
pub proof fn lemma_bounded_queue_eviction(m: usize, es: Seq<Event>)
    requires
        m >= 1,
    ensures
        spec_bounded_push_all(Seq::empty(), Some(m), es) =~= if es.len() <= m {
            es
        } else {
            es.skip(es.len() - m)
        },
    decreases es.len(),
{
    if es.len() > 0 {
        lemma_bounded_queue_eviction(m, es.drop_last());
    }
}

/// Ordered buffer of canonical events awaiting delivery, optionally bounded.
/// When bounded and full, the oldest entry is evicted to admit the new one:
/// freshness of input is preferred over completeness.
pub struct EventQueue {
    pub queue: std::collections::VecDeque<Event>,
    pub max_size: Option<usize>,
}

impl EventQueue {
    /// Validity: a bound, if present, admits at least one event and the
    /// buffer never exceeds it.
    pub open spec fn wf(&self) -> bool {
        match self.max_size {
            Option::Some(m) => m >= 1 && self.queue@.len() <= m,
            Option::None => true,
        }
    }

    /// Create a new event queue with unlimited size.
    pub fn new() -> (q: EventQueue)
        ensures
            q.wf(),
            q.queue@ == Seq::<Event>::empty(),
            q.max_size is None,
    {
        EventQueue { queue: std::collections::VecDeque::new(), max_size: None }
    }

    /// Create a new event queue bounded to `max_size` events. The bound must
    /// admit at least one event.
    pub fn with_capacity(max_size: usize) -> (q: EventQueue)
        requires
            max_size >= 1,
        ensures
            q.wf(),
            q.queue@ == Seq::<Event>::empty(),
            q.max_size == Some(max_size),
    {
        EventQueue {
            queue: std::collections::VecDeque::with_capacity(max_size),
            max_size: Some(max_size),
        }
    }

    /// Push an event, evicting the oldest entries first if the queue is at
    /// its bound.
    pub fn push(&mut self, event: Event)
        requires
            old(self).wf(),
        ensures
            final (self).wf(),
            final (self).max_size == old(self).max_size,
            final (self).queue@ == spec_bounded_push(old(self).queue@, old(self).max_size, event),
    {
        proof {
            assert(old(self).queue@.skip(0) =~= old(self).queue@);
        }
        match self.max_size {
            Some(max) => {
                while self.queue.len() >= max
                    invariant
                        max >= 1,
                        self.max_size == old(self).max_size,
                        self.queue@.len() <= old(self).queue@.len(),
                        old(self).queue@.len() >= max ==> self.queue@.len() >= max - 1,
                        old(self).queue@.len() < max ==> self.queue@.len() == old(
                            self,
                        ).queue@.len(),
                        self.queue@ == old(self).queue@.skip(
                            old(self).queue@.len() - self.queue@.len(),
                        ),
                    decreases self.queue@.len(),
                {
                    let _ = self.queue.pop_front();
                    proof {
                        assert(self.queue@ =~= old(self).queue@.skip(
                            old(self).queue@.len() - self.queue@.len(),
                        ));
                    }
                }
            },
            None => {},
        }
        self.queue.push_back(event);
        proof {
            assert(self.queue@ =~= spec_bounded_push(old(self).queue@, old(self).max_size, event));
        }
    }

    /// Pop the oldest event, if any.
    pub fn pop(&mut self) -> (r: Option<Event>)
        ensures
            final (self).max_size == old(self).max_size,
            match r {
                Some(e) => old(self).queue@.len() > 0 && e == old(self).queue@[0] && final (
                self).queue@ == old(self).queue@.skip(1),
                None => old(self).queue@.len() == 0 && final (self).queue@ == old(self).queue@,
            },
            old(self).wf() ==> final (self).wf(),
    {
        let r = self.queue.pop_front();
        proof {
            if old(self).queue@.len() > 0 {
                assert(self.queue@ =~= old(self).queue@.skip(1));
            }
        }
        r
    }

    /// The number of buffered events.
    pub fn len(&self) -> (r: usize)
        ensures
            r == self.queue@.len(),
    {
        self.queue.len()
    }

    /// Whether no event is buffered.
    pub fn is_empty(&self) -> (r: bool)
        ensures
            r == (self.queue@.len() == 0),
    {
        self.queue.len() == 0
    }

    /// Drop every buffered event.
    pub fn clear(&mut self)
        ensures
            final (self).queue@ == Seq::<Event>::empty(),
            final (self).max_size == old(self).max_size,
            old(self).wf() ==> final (self).wf(),
    {
        self.queue.clear();
    }

    /// Remove and return every buffered event, oldest first.
    pub fn drain(&mut self) -> (events: Vec<Event>)
        ensures
            events@ == old(self).queue@,
            final (self).queue@ == Seq::<Event>::empty(),
            final (self).max_size == old(self).max_size,
            old(self).wf() ==> final (self).wf(),
    {
        let mut out: Vec<Event> = Vec::new();
        loop
            invariant
                self.max_size == old(self).max_size,
                old(self).queue@ == out@ + self.queue@,
            ensures
                self.queue@.len() == 0,
                self.max_size == old(self).max_size,
                old(self).queue@ == out@ + self.queue@,
            decreases self.queue@.len(),
        {
            match self.queue.pop_front() {
                Some(e) => {
                    out.push(e);
                    proof {
                        assert(old(self).queue@ =~= out@ + self.queue@);
                    }
                },
                None => {
                    break ;
                },
            }
        }
        proof {
            assert(out@ =~= old(self).queue@);
        }
        out
    }
}

impl Default for EventQueue {
    /// Same as [`EventQueue::new`].
    fn default() -> (q: EventQueue)
        ensures
            q.wf(),
            q.queue@ == Seq::<Event>::empty(),
            q.max_size is None,
    {
        EventQueue { queue: std::collections::VecDeque::new(), max_size: None }
    }
}

} // verus!

verus! {

/// Trait for components that can receive events. Implementations live with
/// the application author; nothing is assumed of them.
pub trait EventHandler {
    /// Handle an event and return whether it was consumed. A consumed event
    /// is not passed to later handlers in the chain.
    fn handle_event(&mut self, event: &Event) -> Result<bool, Error>;
}

/// Trait for processing events before they are dispatched: return `None` to
/// block the event or `Some` (possibly altered) to let it through.
pub trait EventFilter {
    /// Filter an event before it is processed.
    fn filter_event(&self, event: Event) -> Option<Event>;
}

/// Routes events to registered handlers in registration order, stopping at
/// the first handler that consumes.
pub struct EventManager<H: EventHandler> {
    pub handlers: Vec<(u64, H)>,
    pub next_handler_id: u64,
}

impl<H: EventHandler> EventManager<H> {
    /// Create a new event manager with no handlers.
    pub fn new() -> (r: EventManager<H>)
        ensures
            r.handlers@ == Seq::<(u64, H)>::empty(),
            r.next_handler_id == 1,
    {
        EventManager { handlers: Vec::new(), next_handler_id: 1 }
    }

    /// Register an event handler and return its identifier. Identifiers are
    /// unique and increase with registration order.
    pub fn register_handler(&mut self, handler: H) -> (id: u64)
        requires
            old(self).next_handler_id < u64::MAX,
        ensures
            id == old(self).next_handler_id,
            final (self).next_handler_id == old(self).next_handler_id + 1,
            final (self).handlers@ == old(self).handlers@.push((id, handler)),
    {
        let id = self.next_handler_id;
        self.next_handler_id = self.next_handler_id + 1;
        self.handlers.push((id, handler));
        id
    }

    /// Unregister the first handler with the given identifier; report
    /// whether one was found.
    pub fn unregister_handler(&mut self, handler_id: u64) -> (r: bool)
        ensures
            final (self).next_handler_id == old(self).next_handler_id,
            r == exists|j: int|
                0 <= j < old(self).handlers@.len() && old(self).handlers@[j].0 == handler_id,
            !r ==> final (self).handlers@ == old(self).handlers@,
            r ==> exists|j: int|
                {
                    &&& 0 <= j < old(self).handlers@.len()
                    &&& old(self).handlers@[j].0 == handler_id
                    &&& (forall|k: int| 0 <= k < j ==> old(self).handlers@[k].0 != handler_id)
                    &&& final (self).handlers@ == old(self).handlers@.remove(j)
                },
    {
        let mut i: usize = 0;
        while i < self.handlers.len()
            invariant
                *self == *old(self),
                i <= self.handlers@.len(),
                forall|k: int| 0 <= k < i ==> self.handlers@[k].0 != handler_id,
            decreases self.handlers@.len() - i,
        {
            if self.handlers[i].0 == handler_id {
                let _ = self.handlers.remove(i);
                return true;
            }
            i += 1;
        }
        false
    }

    /// Dispatch an event to the handlers in registration order, stopping at
    /// the first to report it consumed (`Ok(true)`); a handler's error
    /// propagates immediately and stops the chain; otherwise the result is
    /// `Ok(())` whether or not anyone consumed. The event is passed by
    /// reference and never altered.
    ///
    /// The contract below states only what holds for every handler
    /// implementation: the registration order and identifiers are preserved.
    /// The invocation order and the stop-at-first-consumer discipline cannot
    /// be stated here, because [`EventHandler`] is implemented by this
    /// crate's users and carries no contract of its own (one it carried
    /// would be believed of every unchecked implementation). The same
    /// discipline over the closed widget set is stated and proved at
    /// [`crate::widgets::WidgetManager::handle_event`].
    pub fn dispatch_event(&mut self, event: &Event) -> (r: Result<(), Error>)
        ensures
            final (self).next_handler_id == old(self).next_handler_id,
            final (self).handlers@.len() == old(self).handlers@.len(),
            forall|j: int|
                0 <= j < old(self).handlers@.len() ==> final (self).handlers@[j].0 == old(
                    self,
                ).handlers@[j].0,
    {
        let mut i: usize = 0;
        while i < self.handlers.len()
            invariant
                i <= self.handlers@.len(),
                self.next_handler_id == old(self).next_handler_id,
                self.handlers@.len() == old(self).handlers@.len(),
                forall|j: int|
                    0 <= j < old(self).handlers@.len() ==> self.handlers@[j].0 == old(
                        self,
                    ).handlers@[j].0,
            decreases self.handlers@.len() - i,
        {
            let ghost pre = self.handlers@;
            let (id, mut handler) = self.handlers.remove(i);
            let outcome = handler.handle_event(event);
            self.handlers.insert(i, (id, handler));
            proof {
                assert(id == pre[i as int].0);
                assert(self.handlers@ =~= pre.update(i as int, (id, handler)));
            }
            match outcome {
                Ok(true) => {
                    return Ok(());
                },
                Ok(false) => {},
                Err(e) => {
                    return Err(e);
                },
            }
            i += 1;
        }
        Ok(())
    }

    /// Remove every handler.
    pub fn clear(&mut self)
        ensures
            final (self).handlers@ == Seq::<(u64, H)>::empty(),
            final (self).next_handler_id == old(self).next_handler_id,
    {
        self.handlers.clear();
    }

    /// The number of registered handlers.
    pub fn handler_count(&self) -> (r: usize)
        ensures
            r == self.handlers@.len(),
    {
        self.handlers.len()
    }
}

/// Law (repeat-flag correctness, press runs): normalizing a run of `n`
/// key-down events for one key, starting from a state where that key is not
/// down, yields exactly `n` `KeyPressed` events for it whose repeat flag is
/// `false` on the first and `true` on every later one; afterwards the key is
/// down (for `n > 0`) and the mouse state is untouched.
pub proof fn lemma_repeat_flag_press_run(
    m: MouseModel,
    k: KeyboardModel,
    window_id: u64,
    key: Key,
    modifiers: KeyModifiers,
    n: nat,
)
    requires
        !k.pressed.contains(key),
    ensures
        ({
            let s = Seq::new(n, |i: int| PlatformEvent::KeyPressed { window_id, key, modifiers });
            let (es, m2, k2) = normalize_seq(m, k, s);
            &&& es.len() == n
            &&& forall|i: int|
                0 <= i < n ==> es[i] == (Event::KeyPressed {
                    window_id,
                    key,
                    modifiers,
                    repeat: i > 0,
                })
            &&& m2 == m
            &&& n > 0 ==> k2.pressed.contains(key)
            &&& n == 0 ==> k2 == k
        }),
    decreases n,
{
    let s = Seq::new(n, |i: int| PlatformEvent::KeyPressed { window_id, key, modifiers });
    if n > 0 {
        lemma_repeat_flag_press_run(m, k, window_id, key, modifiers, (n - 1) as nat);
        let prev = Seq::new(
            (n - 1) as nat,
            |i: int| PlatformEvent::KeyPressed { window_id, key, modifiers },
        );
        assert(s.drop_last() =~= prev);
        let (es1, m1, k1) = normalize_seq(m, k, prev);
        if n == 1 {
            assert(k1 == k);
        } else {
            assert(k1.pressed.contains(key));
        }
        let (es, m2, k2) = normalize_seq(m, k, s);
        assert(es == es1 + normalize_step(m1, k1, s.last()).0);
        if k1.pressed.contains(key) {
            assert(k2.pressed.contains(key));
        } else {
            assert(k2.pressed == k1.pressed.push(key));
            assert(k2.pressed[k2.pressed.len() - 1] == key);
        }
    }
}

/// Law (repeat-flag correctness, key-up resets): normalizing a key-up for a
/// key yields exactly one `KeyReleased` event and leaves the key not down,
/// whatever its prior state, so the next key-down for it reports
/// `repeat == false`.
pub proof fn lemma_key_release_resets(
    m: MouseModel,
    k: KeyboardModel,
    window_id: u64,
    key: Key,
    modifiers: KeyModifiers,
)
    ensures
        ({
            let (es, m2, k2) = normalize_step(
                m,
                k,
                PlatformEvent::KeyReleased { window_id, key, modifiers },
            );
            &&& es =~= seq![Event::KeyReleased { window_id, key, modifiers }]
            &&& !k2.pressed.contains(key)
            &&& m2 == m
        }),
{
    lemma_remove_elem_contains(k.pressed, key, key);
}

/// Law (boundary crossing ordering): normalizing a mouse move into window
/// `to_id` while the pointer occupies a different window `from_id` yields, in
/// this exact order, `MouseLeft` for the old window, `MouseEntered` for the
/// new one, then the `MouseMoved` itself; the pointer is then recorded in the
/// new window. A move within one window yields only the `MouseMoved`.
pub proof fn lemma_boundary_crossing_order(
    m: MouseModel,
    k: KeyboardModel,
    from_id: u64,
    to_id: u64,
    x: i32,
    y: i32,
)
    requires
        m.window == Some(from_id),
    ensures
        ({
            let (es, m2, k2) = normalize_step(
                m,
                k,
                PlatformEvent::MouseMoved { window_id: to_id, x, y },
            );
            &&& from_id != to_id ==> es =~= seq![
                Event::MouseLeft { window_id: from_id },
                Event::MouseEntered { window_id: to_id },
                Event::MouseMoved { window_id: to_id, x, y },
            ]
            &&& from_id == to_id ==> es =~= seq![Event::MouseMoved { window_id: to_id, x, y }]
            &&& m2.window == Some(to_id)
            &&& k2 == k
        }),
{
}

} // verus!
