//! Core tests: version, errors, configuration builders, timing utilities,
//! and window state.

use cx::application::{ApplicationBuilder, ApplicationConfig};
use cx::common::{KeyboardUtils, PerformanceMonitor, Timer};
use cx::error::{get_windows_error_message, WindowsError};
use cx::platform::Key;
use cx::window::{WindowBuilder, WindowManager, WindowProperties};
use cx::Error;

#[test]
fn test_version() {
    assert!(!cx::VERSION.is_empty());
}

#[test]
fn test_error_creation() {
    let err = Error::window("Test window error");
    assert_eq!(err.category(), "Window");
    assert!(err.is_recoverable());
}

#[test]
fn test_error_display() {
    let err = Error::platform_init("Failed to initialize");
    assert_eq!(err.message(), "Platform initialization failed: Failed to initialize");
}

#[test]
fn test_error_macro() {
    let err = Error::framework(&format!("Test error with {}", "formatting"));
    assert!(matches!(err, Error::Framework(_)));
}

#[test]
fn test_error_categories_and_recovery() {
    assert_eq!(Error::platform_init("x").category(), "Platform Initialization");
    assert!(!Error::platform_init("x").is_recoverable());
    assert!(!Error::framework("x").is_recoverable());
    assert!(Error::event("x").is_recoverable());
    assert!(Error::platform_specific("TestOS", 3, "warning").is_recoverable());
    assert!(!Error::platform_specific("TestOS", -1, "fatal").is_recoverable());
    assert_eq!(Error::platform_specific("TestOS", -12, "fatal").category(), "Platform Specific");
}

#[test]
fn test_error_platform_specific_message() {
    let err = Error::platform_specific("TestOS", -12, "boom");
    assert_eq!(err.message(), "Platform error (TestOS): boom (code: -12)");
}

#[test]
fn test_windows_error() {
    let err = WindowsError::new(5);
    assert_eq!(err.code(), 5);
    assert_eq!(get_windows_error_message(5), "Windows error code: 5");
    assert_eq!(err.text(), "Windows error code: 5 (code: 5)");
}

#[test]
fn test_application_builder() {
    let builder = ApplicationBuilder::new().target_fps(120).app_name("Test App").vsync(false);

    assert_eq!(builder.config.target_fps, 120);
    assert_eq!(builder.config.app_name, "Test App");
    assert_eq!(builder.config.vsync, false);
}

#[test]
fn test_application_config_default() {
    let config = ApplicationConfig::default();
    assert_eq!(config.target_fps, 60);
    assert_eq!(config.enable_performance_monitoring, false);
    assert_eq!(config.vsync, true);
}

#[test]
fn test_timer() {
    let mut timer = Timer::new(60);
    assert_eq!(timer.target_fps(), 60);

    // Test tick (might not tick immediately due to timing)
    let _ = timer.tick();
}

#[test]
fn test_timer_retarget() {
    let mut timer = Timer::new(60);
    timer.set_target_fps(30);
    assert_eq!(timer.target_fps(), 30);
    assert_eq!(timer.frame_duration_nanos, 1_000_000_000 / 30);
}

#[test]
fn test_performance_monitor() {
    let mut monitor = PerformanceMonitor::new(3);

    monitor.record_frame_time(16_000_000);
    monitor.record_frame_time(17_000_000);
    monitor.record_frame_time(15_000_000);

    let avg = monitor.average_frame_time();
    assert!(avg / 1_000_000 >= 15 && avg / 1_000_000 <= 17);
}

#[test]
fn test_performance_monitor_ring_and_extremes() {
    let mut monitor = PerformanceMonitor::new(2);
    monitor.record_frame_time(10);
    monitor.record_frame_time(30);
    // The buffer is full: the next sample overwrites the oldest slot.
    monitor.record_frame_time(20);
    assert_eq!(monitor.min_frame_time(), Some(20));
    assert_eq!(monitor.max_frame_time(), Some(30));
    assert_eq!(monitor.average_frame_time(), 25);
    monitor.clear();
    assert_eq!(monitor.min_frame_time(), None);
    assert_eq!(monitor.max_frame_time(), None);
    assert_eq!(monitor.average_frame_time(), 0);
}

#[test]
fn test_keyboard_utils() {
    assert!(KeyboardUtils::is_modifier_key(&Key::LeftShift));
    assert!(!KeyboardUtils::is_modifier_key(&Key::A));
    assert!(KeyboardUtils::is_function_key(&Key::F11));
    assert!(!KeyboardUtils::is_function_key(&Key::Tab));
    assert!(KeyboardUtils::is_arrow_key(&Key::Up));
    assert!(!KeyboardUtils::is_arrow_key(&Key::Home));
    assert!(KeyboardUtils::is_printable(&Key::Space));
    assert!(KeyboardUtils::is_printable(&Key::Key7));
    assert!(!KeyboardUtils::is_printable(&Key::Escape));
}

#[test]
fn test_window_builder() {
    let builder = WindowBuilder::new()
        .title("Test Window")
        .size(1024, 768)
        .position(100, 100)
        .resizable(false);

    assert_eq!(builder.params.title, "Test Window");
    assert_eq!(builder.params.width, 1024);
    assert_eq!(builder.params.height, 768);
    assert_eq!(builder.params.x, Some(100));
    assert_eq!(builder.params.y, Some(100));
    assert_eq!(builder.params.resizable, false);
}

#[test]
fn test_window_properties() {
    let props = WindowProperties::default();
    assert_eq!(props.title, "CX Window");
    assert_eq!(props.width, 800);
    assert_eq!(props.height, 600);
    assert_eq!(props.resizable, true);
    assert_eq!(props.decorations, true);
}

#[test]
fn test_window_manager() {
    let mut manager = WindowManager::new();
    assert_eq!(manager.window_count(), 0);

    // We can't actually create windows in tests without a real backend
    // so we just test the basic functionality
    manager.clear();
    assert_eq!(manager.window_count(), 0);
}

use cx::geometry::Size;
use cx::layout::LayoutConstraint;

#[test]
fn test_layout_constraint() {
    let constraint = LayoutConstraint::new()
        .min_size(Size::new(50, 30))
        .max_size(Some(Size::new(200, 100)))
        .expand(true)
        .weight(2);

    assert_eq!(constraint.min_size, Size::new(50, 30));
    assert_eq!(constraint.max_size, Some(Size::new(200, 100)));
    assert!(constraint.expand);
    assert_eq!(constraint.weight, 2);

    let constrained = constraint.constrain_size(Size::new(25, 15));
    assert_eq!(constrained, Size::new(50, 30)); // Applied minimum

    let constrained = constraint.constrain_size(Size::new(300, 150));
    assert_eq!(constrained, Size::new(200, 100)); // Applied maximum
}

#[test]
fn test_timer_tick_decision() {
    // At sixty frames per second one frame budget is 1_000_000_000 / 60
    // nanoseconds; the decision and the frame mark follow the clock reading
    // handed in.
    let mut timer = Timer::new(60);
    let start = timer.last_frame_nanos;
    let budget = timer.frame_duration_nanos;

    // One nanosecond short of a frame: no tick, nothing moves.
    assert!(!timer.tick_at(start + budget - 1));
    assert_eq!(timer.last_frame_nanos, start);

    // Exactly one budget: tick, and the mark advances to the reading.
    assert!(timer.tick_at(start + budget));
    assert_eq!(timer.last_frame_nanos, start + budget);

    // A clock that moved backwards never ticks.
    assert!(!timer.tick_at(start));
    assert_eq!(timer.last_frame_nanos, start + budget);

    // The helpers measure from the marks, saturating at zero.
    assert_eq!(timer.elapsed_at(start + budget + 5), budget + 5);
    assert_eq!(timer.delta_time_at(start + budget + 5), 5);
    assert_eq!(timer.delta_time_at(start), 0);
}
