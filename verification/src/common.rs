//! Shared utilities: frame timing, performance sampling, and keyboard
//! classification helpers.

use vstd::prelude::*;

use crate::platform::Key;

verus! {

/// Relies on `std::time::SystemTime::now`: the current wall-clock time as
/// nanoseconds since the epoch (zero if the clock reads before the epoch, or
/// saturated if it no longer fits). Nothing is promised of the value: the
/// clock may move arbitrarily between calls.
#[verifier::external_body]
fn now_nanos() -> u64 {
    match std::time::SystemTime::now().duration_since(std::time::SystemTime::UNIX_EPOCH) {
        Ok(d) => {
            let n = d.as_nanos();
            if n > u64::MAX as u128 {
                u64::MAX
            } else {
                n as u64
            }
        },
        Err(_) => 0,
    }
}

/// Frame timer: tracks when the last frame started and how long one frame
/// should last for the target frame rate.
#[derive(Debug, Clone)]
pub struct Timer {
    pub start_nanos: u64,
    pub last_frame_nanos: u64,
    pub target_fps: u32,
    pub frame_duration_nanos: u64,
}

impl Timer {
    /// Create a timer aiming at the given frames per second (at least one).
    pub fn new(target_fps: u32) -> (t: Timer)
        requires
            target_fps >= 1,
        ensures
            t.target_fps == target_fps,
            t.frame_duration_nanos == 1_000_000_000u64 / target_fps as u64,
            t.start_nanos == t.last_frame_nanos,
    {
        let now = now_nanos();
        Timer {
            start_nanos: now,
            last_frame_nanos: now,
            target_fps,
            frame_duration_nanos: 1_000_000_000u64 / (target_fps as u64),
        }
    }

    /// Nanoseconds elapsed from a mark to a clock reading, or zero when the
    /// reading lies before the mark (the wall clock may move backwards).
    pub open spec fn spec_nanos_since(mark: u64, now: u64) -> u64 {
        if now >= mark {
            (now - mark) as u64
        } else {
            0
        }
    }

    /// Whether a clock reading completes a frame: a full frame budget has
    /// elapsed since the last frame mark.
    pub open spec fn spec_should_tick(self, now: u64) -> bool {
        Timer::spec_nanos_since(self.last_frame_nanos, now) >= self.frame_duration_nanos
    }

    /// Nanoseconds between the creation of the timer and the given clock
    /// reading.
    pub fn elapsed_at(&self, now: u64) -> (r: u64)
        ensures
            r == Timer::spec_nanos_since(self.start_nanos, now),
    {
        if now >= self.start_nanos {
            now - self.start_nanos
        } else {
            0
        }
    }

    /// Nanoseconds since the timer was created, by the wall clock; the
    /// reading itself depends on the clock and is not specified further.
    pub fn elapsed_nanos(&self) -> (r: u64)
        ensures
            exists|now: u64| r == Timer::spec_nanos_since(self.start_nanos, now),
    {
        let now = now_nanos();
        self.elapsed_at(now)
    }

    /// Nanoseconds between the last frame mark and the given clock reading.
    pub fn delta_time_at(&self, now: u64) -> (r: u64)
        ensures
            r == Timer::spec_nanos_since(self.last_frame_nanos, now),
    {
        if now >= self.last_frame_nanos {
            now - self.last_frame_nanos
        } else {
            0
        }
    }

    /// Nanoseconds since the last frame began, by the wall clock; the
    /// reading itself depends on the clock and is not specified further.
    pub fn delta_time_nanos(&self) -> (r: u64)
        ensures
            exists|now: u64| r == Timer::spec_nanos_since(self.last_frame_nanos, now),
    {
        let now = now_nanos();
        self.delta_time_at(now)
    }

    /// The frame decision against a given clock reading: report whether a
    /// full frame budget has elapsed since the last frame mark, and exactly
    /// then advance the mark to the reading, so the next frame is measured
    /// from here. Nothing else changes, and a declined reading changes
    /// nothing at all.
    pub fn tick_at(&mut self, now: u64) -> (r: bool)
        ensures
            r == old(self).spec_should_tick(now),
            r ==> *final (self) == (Timer { last_frame_nanos: now, ..*old(self) }),
            !r ==> *final (self) == *old(self),
    {
        let elapsed = if now >= self.last_frame_nanos {
            now - self.last_frame_nanos
        } else {
            0
        };
        if elapsed >= self.frame_duration_nanos {
            self.last_frame_nanos = now;
            true
        } else {
            false
        }
    }

    /// Mark the start of a new frame when a full frame budget has passed by
    /// the wall clock: the decision and the state change are those of
    /// [`Timer::tick_at`] for whatever the clock read.
    pub fn tick(&mut self) -> (r: bool)
        ensures
            final (self).target_fps == old(self).target_fps,
            final (self).frame_duration_nanos == old(self).frame_duration_nanos,
            final (self).start_nanos == old(self).start_nanos,
            r ==> exists|now: u64|
                #![trigger old(self).spec_should_tick(now)]
                {
                    &&& old(self).spec_should_tick(now)
                    &&& *final (self) == (Timer { last_frame_nanos: now, ..*old(self) })
                },
            !r ==> *final (self) == *old(self),
    {
        let now = now_nanos();
        self.tick_at(now)
    }

    /// Retarget the timer at a new frame rate (at least one frame per
    /// second).
    pub fn set_target_fps(&mut self, fps: u32)
        requires
            fps >= 1,
        ensures
            final (self).target_fps == fps,
            final (self).frame_duration_nanos == 1_000_000_000u64 / fps as u64,
            final (self).start_nanos == old(self).start_nanos,
            final (self).last_frame_nanos == old(self).last_frame_nanos,
    {
        self.target_fps = fps;
        self.frame_duration_nanos = 1_000_000_000u64 / (fps as u64);
    }

    /// The target frame rate.
    pub fn target_fps(&self) -> (r: u32)
        ensures
            r == self.target_fps,
    {
        self.target_fps
    }
}

/// The sum of the recorded frame times.
pub open spec fn sum_nanos(s: Seq<u64>) -> int
    decreases s.len(),
{
    if s.len() == 0 {
        0
    } else {
        sum_nanos(s.drop_last()) + s.last()
    }
}

/// A sum of 64-bit samples is bounded by the count times the largest value.
pub proof fn lemma_sum_nanos_bound(s: Seq<u64>)
    ensures
        0 <= sum_nanos(s) <= s.len() * (u64::MAX as int),
    decreases s.len(),
{
    if s.len() > 0 {
        lemma_sum_nanos_bound(s.drop_last());
        assert(s.len() * (u64::MAX as int) == (s.len() - 1) * (u64::MAX as int) + u64::MAX)
            by (nonlinear_arith);
    }
}

/// Performance monitor: a ring buffer of recent frame times, in nanoseconds.
#[derive(Debug, Clone)]
pub struct PerformanceMonitor {
    pub frame_times: Vec<u64>,
    pub max_samples: usize,
    pub current_index: usize,
}

impl PerformanceMonitor {
    /// Create a monitor keeping at most the given number of samples.
    pub fn new(max_samples: usize) -> (m: PerformanceMonitor)
        ensures
            m.frame_times@ == Seq::<u64>::empty(),
            m.max_samples == max_samples,
            m.current_index == 0,
    {
        PerformanceMonitor { frame_times: Vec::new(), max_samples, current_index: 0 }
    }

    /// Record one frame time: new samples fill the buffer up to its size,
    /// after which the oldest samples are overwritten round-robin.
    pub fn record_frame_time(&mut self, frame_time_nanos: u64)
        requires
            old(self).frame_times@.len() <= old(self).max_samples,
            old(self).frame_times@.len() == old(self).max_samples ==> old(self).current_index < old(
                self,
            ).max_samples,
        ensures
            final (self).max_samples == old(self).max_samples,
            old(self).frame_times@.len() < old(self).max_samples ==> {
                &&& final (self).frame_times@ == old(self).frame_times@.push(frame_time_nanos)
                &&& final (self).current_index == old(self).current_index
            },
            old(self).frame_times@.len() == old(self).max_samples ==> {
                &&& final (self).frame_times@ == old(self).frame_times@.update(
                    old(self).current_index as int,
                    frame_time_nanos,
                )
                &&& final (self).current_index == ((old(self).current_index + 1) % (
                old(self).max_samples as int))
            },
    {
        if self.frame_times.len() < self.max_samples {
            self.frame_times.push(frame_time_nanos);
        } else {
            self.frame_times.set(self.current_index, frame_time_nanos);
            self.current_index = (self.current_index + 1) % self.max_samples;
        }
    }

    /// The average of the recorded frame times, in nanoseconds; zero when
    /// nothing was recorded.
    pub fn average_frame_time(&self) -> (r: u64)
        ensures
            self.frame_times@.len() == 0 ==> r == 0,
            self.frame_times@.len() > 0 ==> r == sum_nanos(self.frame_times@) / (
            self.frame_times@.len() as int),
    {
        let n = self.frame_times.len();
        if n == 0 {
            return 0;
        }
        let mut total: u128 = 0;
        let mut i: usize = 0;
        proof {
            assert(self.frame_times@.take(0) =~= Seq::<u64>::empty());
            lemma_sum_nanos_bound(self.frame_times@);
        }
        while i < n
            invariant
                n == self.frame_times@.len(),
                i <= n,
                total == sum_nanos(self.frame_times@.take(i as int)),
                total <= i * (u64::MAX as int),
                n * (u64::MAX as int) < u128::MAX,
            decreases n - i,
        {
            proof {
                assert(self.frame_times@.take(i + 1).drop_last() =~= self.frame_times@.take(
                    i as int,
                ));
                assert(self.frame_times@.take(i + 1).last() == self.frame_times@[i as int]);
                assert((i + 1) * (u64::MAX as int) == i * (u64::MAX as int) + u64::MAX)
                    by (nonlinear_arith);
                assert(i * (u64::MAX as int) <= n * (u64::MAX as int)) by (nonlinear_arith)
                    requires
                        0 <= i < n,
                ;
            }
            total = total + (self.frame_times[i] as u128);
            i += 1;
        }
        proof {
            assert(self.frame_times@.take(n as int) =~= self.frame_times@);
            lemma_sum_nanos_bound(self.frame_times@);
            assert(sum_nanos(self.frame_times@) / (n as int) <= u64::MAX as int) by {
                assert(sum_nanos(self.frame_times@) <= n * (u64::MAX as int));
                assert(n * (u64::MAX as int) / (n as int) == u64::MAX as int) by (nonlinear_arith)
                    requires
                        n >= 1,
                ;
                assert(sum_nanos(self.frame_times@) / (n as int) <= n * (u64::MAX as int) / (
                n as int)) by (nonlinear_arith)
                    requires
                        n >= 1,
                        0 <= sum_nanos(self.frame_times@) <= n * (u64::MAX as int),
                ;
            }
        }
        (total / (n as u128)) as u64
    }

    /// The smallest recorded frame time, if any.
    pub fn min_frame_time(&self) -> (r: Option<u64>)
        ensures
            match r {
                Some(m) => self.frame_times@.contains(m) && forall|k: int|
                    0 <= k < self.frame_times@.len() ==> m <= #[trigger] self.frame_times@[k],
                None => self.frame_times@.len() == 0,
            },
    {
        let n = self.frame_times.len();
        if n == 0 {
            return None;
        }
        let mut best: u64 = self.frame_times[0];
        let mut i: usize = 1;
        while i < n
            invariant
                n == self.frame_times@.len(),
                1 <= i <= n,
                self.frame_times@.contains(best),
                forall|k: int| 0 <= k < i ==> best <= #[trigger] self.frame_times@[k],
            decreases n - i,
        {
            if self.frame_times[i] < best {
                best = self.frame_times[i];
                proof {
                    assert(self.frame_times@[i as int] == best);
                }
            }
            i += 1;
        }
        Some(best)
    }

    /// The largest recorded frame time, if any.
    pub fn max_frame_time(&self) -> (r: Option<u64>)
        ensures
            match r {
                Some(m) => self.frame_times@.contains(m) && forall|k: int|
                    0 <= k < self.frame_times@.len() ==> m >= #[trigger] self.frame_times@[k],
                None => self.frame_times@.len() == 0,
            },
    {
        let n = self.frame_times.len();
        if n == 0 {
            return None;
        }
        let mut best: u64 = self.frame_times[0];
        let mut i: usize = 1;
        while i < n
            invariant
                n == self.frame_times@.len(),
                1 <= i <= n,
                self.frame_times@.contains(best),
                forall|k: int| 0 <= k < i ==> best >= #[trigger] self.frame_times@[k],
            decreases n - i,
        {
            if self.frame_times[i] > best {
                best = self.frame_times[i];
                proof {
                    assert(self.frame_times@[i as int] == best);
                }
            }
            i += 1;
        }
        Some(best)
    }

    /// Drop every recorded sample.
    pub fn clear(&mut self)
        ensures
            final (self).frame_times@ == Seq::<u64>::empty(),
            final (self).current_index == 0,
            final (self).max_samples == old(self).max_samples,
    {
        self.frame_times.clear();
        self.current_index = 0;
    }
}

/// Keyboard classification helpers.
#[derive(Debug, Clone, Copy)]
pub struct KeyboardUtils;

impl KeyboardUtils {
    /// Whether the key is a modifier (shift, control, alt, or meta).
    pub fn is_modifier_key(key: &Key) -> (r: bool)
        ensures
            r == (key == Key::LeftShift || key == Key::RightShift || key == Key::LeftCtrl || key
                == Key::RightCtrl || key == Key::LeftAlt || key == Key::RightAlt || key
                == Key::LeftMeta || key == Key::RightMeta),
    {
        matches!(
            key,
            Key::LeftShift | Key::RightShift | Key::LeftCtrl | Key::RightCtrl | Key::LeftAlt
                | Key::RightAlt | Key::LeftMeta | Key::RightMeta
        )
    }

    /// Whether the key is one of the twelve function keys.
    pub fn is_function_key(key: &Key) -> (r: bool)
        ensures
            r == (key == Key::F1 || key == Key::F2 || key == Key::F3 || key == Key::F4 || key
                == Key::F5 || key == Key::F6 || key == Key::F7 || key == Key::F8 || key == Key::F9
                || key == Key::F10 || key == Key::F11 || key == Key::F12),
    {
        matches!(
            key,
            Key::F1 | Key::F2 | Key::F3 | Key::F4 | Key::F5 | Key::F6 | Key::F7 | Key::F8 | Key::F9
                | Key::F10 | Key::F11 | Key::F12
        )
    }

    /// Whether the key is an arrow key.
    pub fn is_arrow_key(key: &Key) -> (r: bool)
        ensures
            r == (key == Key::Left || key == Key::Right || key == Key::Up || key == Key::Down),
    {
        matches!(key, Key::Left | Key::Right | Key::Up | Key::Down)
    }

    /// Whether the key produces a printable character: a letter, a digit, or
    /// the space bar.
    pub fn is_printable(key: &Key) -> (r: bool)
        ensures
            r == (key == Key::A || key == Key::B || key == Key::C || key == Key::D || key == Key::E
                || key == Key::F || key == Key::G || key == Key::H || key == Key::I || key == Key::J
                || key == Key::K || key == Key::L || key == Key::M || key == Key::N || key == Key::O
                || key == Key::P || key == Key::Q || key == Key::R || key == Key::S || key == Key::T
                || key == Key::U || key == Key::V || key == Key::W || key == Key::X || key == Key::Y
                || key == Key::Z || key == Key::Key0 || key == Key::Key1 || key == Key::Key2 || key
                == Key::Key3 || key == Key::Key4 || key == Key::Key5 || key == Key::Key6 || key
                == Key::Key7 || key == Key::Key8 || key == Key::Key9 || key == Key::Space),
    {
        matches!(
            key,
            Key::A | Key::B | Key::C | Key::D | Key::E | Key::F | Key::G | Key::H | Key::I | Key::J
                | Key::K | Key::L | Key::M | Key::N | Key::O | Key::P | Key::Q | Key::R | Key::S
                | Key::T | Key::U | Key::V | Key::W | Key::X | Key::Y | Key::Z | Key::Key0
                | Key::Key1 | Key::Key2 | Key::Key3 | Key::Key4 | Key::Key5 | Key::Key6 | Key::Key7
                | Key::Key8 | Key::Key9 | Key::Space
        )
    }
}

} // verus!
