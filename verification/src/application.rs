//! Application lifecycle: configuration, the builder, and the runner that
//! processes one frame at a time.
//!
//! The runner owns the event loop and the window registry. Each frame polls
//! the backend, normalizes the raw events, handles application-scope events
//! (`Quit` stops; closing the last window stops), forwards the rest to the
//! windows, then updates and presents every window. The per-frame behavior
//! is specified by [`process_app_events`] and [`frame_rel`]; an embedding
//! host (or the thin driver around this crate) calls [`Application::run_frame`]
//! in its own loop and paces frames with [`crate::common::Timer`].

use vstd::prelude::*;

use crate::error::Error;
use crate::events::{normalize_seq, Event, EventLoop};
use crate::platform::PlatformBackend;
use crate::window::Window;

verus! {

/// Configuration for the application.
#[derive(Debug, Clone)]
pub struct ApplicationConfig {
    /// Target frames per second for the main loop
    pub target_fps: u32,
    /// Whether to enable performance monitoring
    pub enable_performance_monitoring: bool,
    /// Maximum number of performance samples to keep
    pub performance_sample_count: usize,
    /// Whether to enable vertical sync, if the platform supports it
    pub vsync: bool,
    /// Application name for platform-specific features
    pub app_name: String,
    /// Application version
    pub app_version: String,
}

impl Default for ApplicationConfig {
    /// Sixty frames per second, no performance monitoring, a hundred
    /// samples, vertical sync on.
    fn default() -> (c: ApplicationConfig)
        ensures
            c.target_fps == 60,
            !c.enable_performance_monitoring,
            c.performance_sample_count == 100,
            c.vsync,
            c.app_name@ == "CX Application"@,
            c.app_version@ == "1.0.0"@,
    {
        ApplicationConfig {
            target_fps: 60,
            enable_performance_monitoring: false,
            performance_sample_count: 100,
            vsync: true,
            app_name: "CX Application".to_owned(),
            app_version: "1.0.0".to_owned(),
        }
    }
}

/// Builder for creating applications with custom configuration.
pub struct ApplicationBuilder {
    pub config: ApplicationConfig,
}

impl ApplicationBuilder {
    /// Start from the default configuration.
    pub fn new() -> (b: ApplicationBuilder)
        ensures
            b.config.target_fps == 60,
            !b.config.enable_performance_monitoring,
            b.config.performance_sample_count == 100,
            b.config.vsync,
            b.config.app_name@ == "CX Application"@,
            b.config.app_version@ == "1.0.0"@,
    {
        ApplicationBuilder { config: ApplicationConfig::default() }
    }

    /// Set the target frame rate.
    pub fn target_fps(self, fps: u32) -> (b: ApplicationBuilder)
        ensures
            b.config == (ApplicationConfig { target_fps: fps, ..self.config }),
    {
        ApplicationBuilder { config: ApplicationConfig { target_fps: fps, ..self.config } }
    }

    /// Enable or disable performance monitoring.
    pub fn performance_monitoring(self, enable: bool) -> (b: ApplicationBuilder)
        ensures
            b.config == (ApplicationConfig {
                enable_performance_monitoring: enable,
                ..self.config
            }),
    {
        ApplicationBuilder {
            config: ApplicationConfig { enable_performance_monitoring: enable, ..self.config },
        }
    }

    /// Set the number of performance samples kept.
    pub fn performance_sample_count(self, count: usize) -> (b: ApplicationBuilder)
        ensures
            b.config == (ApplicationConfig { performance_sample_count: count, ..self.config }),
    {
        ApplicationBuilder {
            config: ApplicationConfig { performance_sample_count: count, ..self.config },
        }
    }

    /// Enable or disable vertical sync.
    pub fn vsync(self, enable: bool) -> (b: ApplicationBuilder)
        ensures
            b.config == (ApplicationConfig { vsync: enable, ..self.config }),
    {
        ApplicationBuilder { config: ApplicationConfig { vsync: enable, ..self.config } }
    }

    /// Set the application name.
    pub fn app_name(self, name: &str) -> (b: ApplicationBuilder)
        ensures
            b.config.app_name@ == name@,
            b.config == (ApplicationConfig { app_name: b.config.app_name, ..self.config }),
    {
        ApplicationBuilder {
            config: ApplicationConfig { app_name: name.to_owned(), ..self.config },
        }
    }

    /// Set the application version.
    pub fn app_version(self, version: &str) -> (b: ApplicationBuilder)
        ensures
            b.config.app_version@ == version@,
            b.config == (ApplicationConfig { app_version: b.config.app_version, ..self.config }),
    {
        ApplicationBuilder {
            config: ApplicationConfig { app_version: version.to_owned(), ..self.config },
        }
    }

    /// Build the application around the given backend with this
    /// configuration.
    pub fn build<B: PlatformBackend>(self, backend: B) -> (r: Result<Application<B>, Error>)
        ensures
            r matches Ok(app) ==> {
                &&& app.windows@ == Seq::<Window>::empty()
                &&& !app.running
                &&& app.config == self.config
                &&& app.event_loop.event_queue@ == Seq::<Event>::empty()
            },
    {
        Application::with_config(backend, self.config)
    }
}

impl Default for ApplicationBuilder {
    /// Same as [`ApplicationBuilder::new`].
    fn default() -> (b: ApplicationBuilder)
        ensures
            b.config.target_fps == 60,
    {
        ApplicationBuilder { config: ApplicationConfig::default() }
    }
}

/// The first (oldest) index whose window has the given identifier.
pub open spec fn first_window_index(ws: Seq<Window>, id: u64) -> Option<int>
    decreases ws.len(),
{
    if ws.len() == 0 {
        None
    } else {
        match first_window_index(ws.drop_last(), id) {
            Some(j) => Some(j),
            None => if ws.last().handle.id == id {
                Some(ws.len() - 1)
            } else {
                None
            },
        }
    }
}

/// When no window carries the identifier, there is no first index.
pub proof fn lemma_first_window_index_none(ws: Seq<Window>, id: u64)
    requires
        forall|k: int| 0 <= k < ws.len() ==> (#[trigger] ws[k].handle.id) != id,
    ensures
        first_window_index(ws, id) is None,
    decreases ws.len(),
{
    if ws.len() > 0 {
        assert forall|k: int| 0 <= k < ws.len() - 1 implies (#[trigger] ws.drop_last()[k].handle.id)
            != id by {
            assert(ws.drop_last()[k] == ws[k]);
        }
        lemma_first_window_index_none(ws.drop_last(), id);
        assert(ws.last() == ws[ws.len() - 1]);
    }
}

/// The first index of a window with the identifier, characterized: it
/// carries the identifier and nothing before it does.
pub proof fn lemma_first_window_index_some(ws: Seq<Window>, id: u64, i: int)
    requires
        0 <= i < ws.len(),
        ws[i].handle.id == id,
        forall|k: int| 0 <= k < i ==> (#[trigger] ws[k].handle.id) != id,
    ensures
        first_window_index(ws, id) == Some(i),
    decreases ws.len(),
{
    if i == ws.len() - 1 {
        assert forall|k: int| 0 <= k < ws.len() - 1 implies (#[trigger] ws.drop_last()[k].handle.id)
            != id by {
            assert(ws.drop_last()[k] == ws[k]);
        }
        lemma_first_window_index_none(ws.drop_last(), id);
        assert(ws.last() == ws[ws.len() - 1]);
    } else {
        assert(ws.drop_last()[i] == ws[i]);
        assert forall|k: int| 0 <= k < i implies (#[trigger] ws.drop_last()[k].handle.id) != id by {
            assert(ws.drop_last()[k] == ws[k]);
        }
        lemma_first_window_index_some(ws.drop_last(), id, i);
    }
}

/// How application-scope events change the window registry and whether the
/// loop should continue, processing the batch in order: `Quit` stops at
/// once; a `WindowClosed` unregisters that window and stops when no window
/// remains; every other event leaves the registry alone (it is forwarded to
/// the windows instead).
pub open spec fn process_app_events(ws: Seq<Window>, es: Seq<Event>) -> (Seq<Window>, bool)
    decreases es.len(),
{
    if es.len() == 0 {
        (ws, true)
    } else {
        match es[0] {
            Event::Quit => (ws, false),
            Event::WindowClosed { window_id } => {
                let ws2 = match first_window_index(ws, window_id) {
                    Some(j) => ws.remove(j),
                    None => ws,
                };
                if ws2.len() == 0 {
                    (ws2, false)
                } else {
                    process_app_events(ws2, es.skip(1))
                }
            },
            _ => process_app_events(ws, es.skip(1)),
        }
    }
}

/// Law (application lifecycle): from a registry holding exactly one window,
/// a batch consisting of a `WindowClosed` event for that window's identifier
/// empties the registry and stops the loop, without any `Quit` event.
pub proof fn lemma_last_window_close_stops(ws: Seq<Window>, window_id: u64)
    requires
        ws.len() == 1,
        ws[0].handle.id == window_id,
    ensures
        process_app_events(ws, seq![Event::WindowClosed { window_id }]) == (
            Seq::<Window>::empty(),
            false,
        ),
{
    lemma_first_window_index_some(ws, window_id, 0);
    assert(ws.remove(0) =~= Seq::<Window>::empty());
}

/// Main application runner: owns the event loop (and through it the
/// backend), the window registry, the running flag, and the configuration.
pub struct Application<B: PlatformBackend> {
    pub event_loop: EventLoop<B>,
    pub windows: Vec<Window>,
    pub running: bool,
    pub config: ApplicationConfig,
}

/// Relates an application after one frame to the application before it,
/// given the raw batch the backend produced: the batch is normalized from
/// the prior input state, the pending queue plus the canonical events drive
/// the application-scope processing, and the continue flag mirrors it.
pub open spec fn frame_rel<B: PlatformBackend>(
    pre: Application<B>,
    post: Application<B>,
    cont: bool,
    raw: Seq<crate::platform::PlatformEvent>,
) -> bool {
    let (es, m2, k2) = normalize_seq(
        pre.event_loop.mouse_state@,
        pre.event_loop.keyboard_state@,
        raw,
    );
    let all = pre.event_loop.event_queue@ + es;
    let (ws2, cont2) = process_app_events(pre.windows@, all);
    &&& cont == cont2
    &&& post.windows@ == ws2
    &&& post.event_loop.mouse_state@ == m2
    &&& post.event_loop.keyboard_state@ == k2
    &&& post.event_loop.event_queue@ == Seq::<Event>::empty()
    &&& post.running == (pre.running && cont2)
    &&& post.config == pre.config
}

/// Some raw batch from the backend explains the frame, as [`frame_rel`]
/// describes.
pub open spec fn frame_happened<B: PlatformBackend>(
    pre: Application<B>,
    post: Application<B>,
    cont: bool,
) -> bool {
    exists|raw: Seq<crate::platform::PlatformEvent>|
        {
            let (es, m2, k2) = #[trigger] normalize_seq(
                pre.event_loop.mouse_state@,
                pre.event_loop.keyboard_state@,
                raw,
            );
            frame_rel(pre, post, cont, raw)
        }
}

impl<B: PlatformBackend> Application<B> {
    /// Create a new application around the given backend with the default
    /// configuration.
    pub fn new(backend: B) -> (r: Result<Application<B>, Error>)
        ensures
            r matches Ok(app) ==> {
                &&& app.windows@ == Seq::<Window>::empty()
                &&& !app.running
                &&& app.event_loop.event_queue@ == Seq::<Event>::empty()
                &&& app.config.target_fps == 60
            },
    {
        Application::with_config(backend, ApplicationConfig::default())
    }

    /// Create a new application around the given backend: the backend is
    /// initialized once, and the application starts idle with no windows.
    pub fn with_config(backend: B, config: ApplicationConfig) -> (r: Result<Application<B>, Error>)
        ensures
            r matches Ok(app) ==> {
                &&& app.windows@ == Seq::<Window>::empty()
                &&& !app.running
                &&& app.config == config
                &&& app.event_loop.event_queue@ == Seq::<Event>::empty()
            },
    {
        let mut backend = backend;
        match backend.initialize() {
            Ok(()) => {},
            Err(e) => {
                return Err(e);
            },
        }
        let event_loop = match EventLoop::new(backend) {
            Ok(el) => el,
            Err(e) => {
                return Err(e);
            },
        };
        Ok(Application { event_loop, windows: Vec::new(), running: false, config })
    }

    /// The application configuration.
    pub fn config(&self) -> (r: &ApplicationConfig)
        ensures
            r == &self.config,
    {
        &self.config
    }

    /// A window builder for this application.
    pub fn window_builder(&self) -> (r: crate::window::WindowBuilder)
        ensures
            r.params.title@ == "CX Window"@,
    {
        crate::window::WindowBuilder::new()
    }

    /// A copy of the first window with the given identifier, if any.
    pub fn get_window(&self, window_id: u64) -> (r: Option<Window>)
        ensures
            match r {
                Some(w) => exists|j: int|
                    {
                        &&& 0 <= j < self.windows@.len()
                        &&& (#[trigger] self.windows@[j].handle.id) == window_id
                        &&& w.handle == self.windows@[j].handle
                        &&& w.properties.title@ == self.windows@[j].properties.title@
                    },
                None => forall|k: int|
                    0 <= k < self.windows@.len() ==> (#[trigger] self.windows@[k].handle.id)
                        != window_id,
            },
    {
        let mut i: usize = 0;
        while i < self.windows.len()
            invariant
                i <= self.windows@.len(),
                forall|k: int| 0 <= k < i ==> (#[trigger] self.windows@[k].handle.id) != window_id,
            decreases self.windows@.len() - i,
        {
            if self.windows[i].id() == window_id {
                return Some(self.windows[i].duplicate());
            }
            i += 1;
        }
        None
    }

    /// Copies of every registered window, in registration order.
    pub fn windows(&self) -> (r: Vec<Window>)
        ensures
            r@.len() == self.windows@.len(),
            forall|k: int|
                0 <= k < r@.len() ==> (#[trigger] r@[k].handle) == self.windows@[k].handle,
    {
        let mut out: Vec<Window> = Vec::new();
        let mut i: usize = 0;
        while i < self.windows.len()
            invariant
                i <= self.windows@.len(),
                out@.len() == i,
                forall|k: int|
                    0 <= k < i ==> (#[trigger] out@[k].handle) == self.windows@[k].handle,
            decreases self.windows@.len() - i,
        {
            out.push(self.windows[i].duplicate());
            i += 1;
        }
        out
    }

    /// The number of registered windows.
    pub fn window_count(&self) -> (r: usize)
        ensures
            r == self.windows@.len(),
    {
        self.windows.len()
    }

    /// Register a window with the application.
    pub(crate) fn register_window(&mut self, window: Window)
        ensures
            final (self).windows@ == old(self).windows@.push(window),
            final (self).running == old(self).running,
            final (self).config == old(self).config,
            final (self).event_loop == old(self).event_loop,
    {
        self.windows.push(window);
    }

    /// Unregister the first window with the given identifier.
    pub(crate) fn unregister_window(&mut self, window_id: u64)
        ensures
            final (self).windows@ == match first_window_index(old(self).windows@, window_id) {
                Some(j) => old(self).windows@.remove(j),
                None => old(self).windows@,
            },
            final (self).running == old(self).running,
            final (self).config == old(self).config,
            final (self).event_loop == old(self).event_loop,
    {
        let mut i: usize = 0;
        while i < self.windows.len()
            invariant
                *self == *old(self),
                i <= self.windows@.len(),
                forall|k: int| 0 <= k < i ==> (#[trigger] self.windows@[k].handle.id) != window_id,
            decreases self.windows@.len() - i,
        {
            if self.windows[i].id() == window_id {
                proof {
                    lemma_first_window_index_some(old(self).windows@, window_id, i as int);
                }
                let _ = self.windows.remove(i);
                return ;
            }
            i += 1;
        }
        proof {
            lemma_first_window_index_none(old(self).windows@, window_id);
        }
    }

    /// Whether the application is currently running.
    pub fn is_running(&self) -> (r: bool)
        ensures
            r == self.running,
    {
        self.running
    }

    /// Mark the application started; the next frames report that the loop
    /// should continue until something stops it.
    pub fn start(&mut self)
        ensures
            *final (self) == (Application { running: true, ..*old(self) }),
    {
        self.running = true;
    }

    /// Request the application to quit: the running flag drops and the next
    /// frame reports that the loop should stop.
    pub fn quit(&mut self) -> (r: Result<(), Error>)
        ensures
            r is Ok,
            *final (self) == (Application { running: false, ..*old(self) }),
    {
        self.running = false;
        Ok(())
    }

    /// Forward an event to every registered window; window state is
    /// untouched.
    fn dispatch_event_to_windows(&self, event: &Event) -> (r: Result<(), Error>)
        ensures
            r is Ok,
    {
        let mut i: usize = 0;
        while i < self.windows.len()
            decreases self.windows@.len() - i,
        {
            let _ = self.windows[i].handle_event(event);
            i += 1;
        }
        Ok(())
    }

    /// Update and present every registered window, in order; the first
    /// backend failure propagates.
    fn update_windows(&mut self, delta_nanos: u64) -> (r: Result<(), Error>)
        ensures
            final (self).windows@ == old(self).windows@,
            final (self).running == old(self).running,
            final (self).config == old(self).config,
            final (self).event_loop.event_queue@ == old(self).event_loop.event_queue@,
            final (self).event_loop.mouse_state@ == old(self).event_loop.mouse_state@,
            final (self).event_loop.keyboard_state@ == old(self).event_loop.keyboard_state@,
    {
        let mut i: usize = 0;
        while i < self.windows.len()
            invariant
                self.windows@ == old(self).windows@,
                self.running == old(self).running,
                self.config == old(self).config,
                self.event_loop.event_queue@ == old(self).event_loop.event_queue@,
                self.event_loop.mouse_state@ == old(self).event_loop.mouse_state@,
                self.event_loop.keyboard_state@ == old(self).event_loop.keyboard_state@,
                i <= self.windows@.len(),
            decreases self.windows@.len() - i,
        {
            let _ = self.windows[i].update(delta_nanos);
            match self.windows[i].render(&mut self.event_loop.backend) {
                Ok(()) => {},
                Err(e) => {
                    return Err(e);
                },
            }
            i += 1;
        }
        Ok(())
    }

    /// Run one frame: poll and normalize events, handle application-scope
    /// events, forward the rest to the windows, then update and present
    /// every window. Returns whether the application should continue; an
    /// idle application reports false without doing anything, and otherwise
    /// the frame behaves as [`frame_rel`] describes for whatever raw batch
    /// the backend produced. A backend failure propagates without retry.
    pub fn run_frame(&mut self) -> (r: Result<bool, Error>)
        ensures
            !old(self).running ==> (r matches Ok(cont) && !cont && *final (self) == *old(self)),
            old(self).running ==> (r matches Ok(cont) ==> frame_happened(
                *old(self),
                *final (self),
                cont,
            )),
            r is Err ==> final (self).config == old(self).config,
    {
        if !self.running {
            return Ok(false);
        }
        let events = match self.event_loop.poll_events() {
            Ok(events) => events,
            Err(e) => {
                return Err(e);
            },
        };
        let ghost raw: Seq<crate::platform::PlatformEvent> = choose|
            raw: Seq<crate::platform::PlatformEvent>,
        |
            {
                let (es, m2, k2) = #[trigger] normalize_seq(
                    old(self).event_loop.mouse_state@,
                    old(self).event_loop.keyboard_state@,
                    raw,
                );
                &&& events@ == old(self).event_loop.event_queue@ + es
                &&& self.event_loop.mouse_state@ == m2
                &&& self.event_loop.keyboard_state@ == k2
                &&& self.event_loop.event_queue@ == Seq::<Event>::empty()
            };
        let ghost all: Seq<Event> = events@;
        let ghost ws0: Seq<Window> = self.windows@;
        let ghost m_after = self.event_loop.mouse_state@;
        let ghost k_after = self.event_loop.keyboard_state@;
        let mut rest = events;
        let ghost mut i: int = 0;
        proof {
            assert(all.skip(0) =~= all);
        }
        #[verifier::loop_isolation(false)]
        while rest.len() > 0
            invariant
                0 <= i <= all.len(),
                rest@ == all.subrange(i, all.len() as int),
                process_app_events(ws0, all) == process_app_events(self.windows@, all.skip(i)),
                self.running,
                self.config == old(self).config,
                self.event_loop.event_queue@ == Seq::<Event>::empty(),
                self.event_loop.mouse_state@ == m_after,
                self.event_loop.keyboard_state@ == k_after,
            decreases rest@.len(),
        {
            proof {
                assert(all.skip(i)[0] == all[i]);
            }
            let e = rest.remove(0);
            match &e {
                Event::Quit => {
                    self.running = false;
                    proof {
                        assert(process_app_events(self.windows@, all.skip(i)) == (
                            self.windows@,
                            false,
                        ));
                        assert(frame_rel(*old(self), *self, false, raw));
                    }
                    return Ok(false);
                },
                Event::WindowClosed { window_id } => {
                    self.unregister_window(*window_id);
                    if self.windows.len() == 0 {
                        self.running = false;
                        proof {
                            assert(process_app_events(ws0, all) == (self.windows@, false));
                            assert(frame_rel(*old(self), *self, false, raw));
                        }
                        return Ok(false);
                    }
                    proof {
                        i = i + 1;
                        assert(rest@ =~= all.subrange(i, all.len() as int));
                        assert(all.skip(i - 1).skip(1) =~= all.skip(i));
                    }
                },
                _ => {
                    let _ = self.dispatch_event_to_windows(&e);
                    proof {
                        i = i + 1;
                        assert(rest@ =~= all.subrange(i, all.len() as int));
                        assert(all.skip(i - 1).skip(1) =~= all.skip(i));
                    }
                },
            }
        }
        proof {
            assert(all.skip(i) =~= Seq::<Event>::empty());
        }
        match self.update_windows(16_000_000) {
            Ok(()) => {},
            Err(e) => {
                return Err(e);
            },
        }
        proof {
            assert(frame_rel(*old(self), *self, true, raw));
        }
        Ok(true)
    }

    /// Tear the application down: drop every window record, then let the
    /// backend release its resources; a backend failure propagates after the
    /// records are gone.
    pub fn cleanup(&mut self) -> (r: Result<(), Error>)
        ensures
            final (self).windows@ == Seq::<Window>::empty(),
            final (self).running == old(self).running,
            final (self).config == old(self).config,
    {
        self.windows.clear();
        self.event_loop.backend.cleanup()
    }
}

} // verus!
