//! Widget tests: base state, buttons, labels, text inputs, containers, and
//! the manager's hit testing, focus, and dispatch behavior.

use cx::events::Event;
use cx::geometry::{Color, Point, Rect, Size};
use cx::platform::{Key, KeyModifiers, MouseButton};
use cx::widgets::button::Button;
use cx::widgets::container::{Alignment, Container, LayoutDirection, Padding};
use cx::widgets::label::{Label, TextAlign, VerticalAlign};
use cx::widgets::text_input::TextInput;
use cx::widgets::{BaseWidget, Widget, WidgetManager};

#[test]
fn test_base_widget() {
    let mut widget = BaseWidget::new(1);
    assert_eq!(widget.id(), 1);
    assert!(widget.is_visible());
    assert!(widget.is_enabled());
    assert!(!widget.is_focused());

    widget.set_visible(false);
    assert!(!widget.is_visible());

    widget.set_bounds(Rect::new(10, 20, 100, 50));
    assert_eq!(widget.bounds(), Rect::new(10, 20, 100, 50));
}

#[test]
fn test_widget_manager() {
    let mut manager = WidgetManager::new();
    assert_eq!(manager.widget_count(), 0);

    let id = manager.next_id();
    assert_eq!(id, 1);

    let next_id = manager.next_id();
    assert_eq!(next_id, 2);
}

#[test]
fn test_button_creation() {
    let button = Button::new(1, "Test Button".to_string());
    assert_eq!(button.base.id(), 1);
    assert_eq!(button.text(), "Test Button");
    assert!(button.base.is_enabled());
    assert!(button.base.is_visible());
    assert!(!button.is_pressed());
    assert!(!button.is_hovered());
}

#[test]
fn test_button_preferred_size() {
    let button = Button::new(1, "Test".to_string());
    let size = button.preferred_size();

    // Should be text width + padding
    assert!(size.width > 20); // At least padding
    assert!(size.height > 10); // At least padding
    assert_eq!(size.width, 4 * 8 + 20);
}

#[test]
fn test_button_click_cycle() {
    let mut button = Button::new(1, "Go".to_string());
    button.base.set_bounds(Rect::new(0, 0, 100, 30));

    // Press inside arms the button and consumes the event.
    let consumed = button
        .handle_event(&Event::MousePressed {
            window_id: 1,
            button: MouseButton::Left,
            x: 10,
            y: 10,
        })
        .unwrap();
    assert!(consumed);
    assert!(button.is_pressed());

    // Release inside completes the click.
    let consumed = button
        .handle_event(&Event::MouseReleased {
            window_id: 1,
            button: MouseButton::Left,
            x: 10,
            y: 10,
        })
        .unwrap();
    assert!(consumed);
    assert!(!button.is_pressed());
    assert!(button.take_clicked());
    assert!(!button.take_clicked());
}

#[test]
fn test_button_hover_and_colors() {
    let mut button = Button::new(1, "Go".to_string());
    button.base.set_bounds(Rect::new(0, 0, 100, 30));
    assert_eq!(button.current_background_color(), Color::light_gray());

    let changed = button
        .handle_event(&Event::MouseMoved { window_id: 1, x: 5, y: 5 })
        .unwrap();
    assert!(changed);
    assert!(button.is_hovered());
    assert_eq!(button.current_background_color(), Color::white());

    // Leaving the window clears hover without consuming.
    let consumed = button.handle_event(&Event::MouseLeft { window_id: 1 }).unwrap();
    assert!(!consumed);
    assert!(!button.is_hovered());

    button.base.set_enabled(false);
    assert_eq!(button.current_background_color(), Color::dark_gray());
}

#[test]
fn test_label_creation() {
    let label = Label::new(1, "Test Label".to_string());
    assert_eq!(label.base.id(), 1);
    assert_eq!(label.text(), "Test Label");
    assert_eq!(label.text_color(), Color::black());
    assert_eq!(label.font_size(), 14);
    assert_eq!(label.text_align(), TextAlign::Left);
    assert_eq!(label.vertical_align(), VerticalAlign::Top);
    assert!(!label.word_wrap());
    assert!(!label.multiline());
}

#[test]
fn test_text_size_estimation() {
    let label = Label::new(1, "Test".to_string());
    let size = label.estimate_text_size("Hello");

    assert!(size.width > 0);
    assert!(size.height > 0);

    // Longer text should be wider
    let longer_size = label.estimate_text_size("Hello, World!");
    assert!(longer_size.width > size.width);
}

#[test]
fn test_multiline_text() {
    let mut label = Label::new(1, "Line 1\nLine 2\nLine 3".to_string());
    label.set_multiline(true);
    let size = label.estimate_text_size("Line 1\nLine 2\nLine 3");

    // Should be taller for multiline text
    let single_line_size = label.estimate_text_size("Line 1");
    assert!(size.height > single_line_size.height);
}

#[test]
fn test_text_input_creation() {
    let input = TextInput::new(1);
    assert_eq!(input.base.id(), 1);
    assert_eq!(input.text(), "");
    assert!(!input.is_focused());
    assert!(!input.is_password());
    assert!(!input.is_read_only());
}

#[test]
fn test_text_insertion() {
    let mut input = TextInput::new(1);
    input.focus();

    input.insert_text("Hello");
    assert_eq!(input.text(), "Hello");
    assert_eq!(input.cursor_position, 5);

    input.cursor_position = 0;
    input.insert_text("Hi ");
    assert_eq!(input.text(), "Hi Hello");
}

#[test]
fn test_cursor_movement() {
    let mut input = TextInput::new(1);
    input.set_text("Hello".to_string());
    input.cursor_position = 2;

    input.move_cursor_left(false);
    assert_eq!(input.cursor_position, 1);

    input.move_cursor_right(false);
    assert_eq!(input.cursor_position, 2);

    input.move_cursor_home(false);
    assert_eq!(input.cursor_position, 0);

    input.move_cursor_end(false);
    assert_eq!(input.cursor_position, 5);
}

#[test]
fn test_password_mode() {
    let mut input = TextInput::new(1);
    input.set_password(true);
    input.set_text("secret".to_string());

    let display = input.display_text();
    assert_eq!(display, "\u{2022}\u{2022}\u{2022}\u{2022}\u{2022}\u{2022}");
    assert_eq!(input.text(), "secret");
}

#[test]
fn test_max_length() {
    let mut input = TextInput::new(1);
    input.set_max_length(Some(5));
    input.set_text("Hello World".to_string());

    assert_eq!(input.text(), "Hello");
}

#[test]
fn test_text_input_editing_keys() {
    let mut input = TextInput::new(1);
    input.base.set_bounds(Rect::new(0, 0, 200, 30));
    input.focus();
    input.insert_text("abc");

    let mods = KeyModifiers::new();
    let consumed = input
        .handle_event(&Event::KeyPressed {
            window_id: 1,
            key: Key::Backspace,
            modifiers: mods,
            repeat: false,
        })
        .unwrap();
    assert!(consumed);
    assert_eq!(input.text(), "ab");

    input.move_cursor_home(false);
    let consumed = input
        .handle_event(&Event::KeyPressed {
            window_id: 1,
            key: Key::Delete,
            modifiers: mods,
            repeat: false,
        })
        .unwrap();
    assert!(consumed);
    assert_eq!(input.text(), "b");

    // Select-all then typing replaces everything.
    let ctrl = KeyModifiers { shift: false, ctrl: true, alt: false, meta: false };
    let consumed = input
        .handle_event(&Event::KeyPressed {
            window_id: 1,
            key: Key::A,
            modifiers: ctrl,
            repeat: false,
        })
        .unwrap();
    assert!(consumed);
    let consumed = input
        .handle_event(&Event::TextInput { window_id: 1, text: "xyz".to_string() })
        .unwrap();
    assert!(consumed);
    assert_eq!(input.text(), "xyz");

    // Return raises the submit flag.
    let consumed = input
        .handle_event(&Event::KeyPressed {
            window_id: 1,
            key: Key::Return,
            modifiers: mods,
            repeat: false,
        })
        .unwrap();
    assert!(consumed);
    assert!(input.take_submitted());
    assert!(!input.take_submitted());
}

#[test]
fn test_container_creation() {
    let container = Container::new(1);
    assert_eq!(container.base.id(), 1);
    assert_eq!(container.child_count(), 0);
    assert_eq!(container.layout_direction(), LayoutDirection::Manual);
    assert_eq!(container.spacing(), 0);
    assert!(!container.clip_children());
    assert_eq!(container.main_axis_alignment, Alignment::Start);
}

#[test]
fn test_padding() {
    let padding = Padding::uniform(10);
    assert_eq!(padding.left, 10);
    assert_eq!(padding.horizontal(), 20);
    assert_eq!(padding.vertical(), 20);

    let padding = Padding::symmetric(5, 10);
    assert_eq!(padding.left, 5);
    assert_eq!(padding.top, 10);
    assert_eq!(padding.horizontal(), 10);
    assert_eq!(padding.vertical(), 20);
}

#[test]
fn test_container_content_area() {
    let mut container = Container::new(1);
    container.base.set_bounds(Rect::new(10, 20, 100, 80));
    container.set_padding(Padding::uniform(5));

    let content_area = container.content_area();
    assert_eq!(content_area.x, 15);
    assert_eq!(content_area.y, 25);
    assert_eq!(content_area.width, 90);
    assert_eq!(content_area.height, 70);
}

#[test]
fn test_container_children_and_preferred_size() {
    let mut container = Container::new(1);
    assert_eq!(container.preferred_size(), Size::new(100, 100));

    let mut a = Button::new(2, "A".to_string());
    a.base.set_bounds(Rect::new(0, 0, 50, 20));
    let mut b = Button::new(3, "B".to_string());
    b.base.set_bounds(Rect::new(60, 30, 40, 20));
    container.add_child(Widget::Button(a));
    container.add_child(Widget::Button(b));
    assert_eq!(container.child_count(), 2);

    // The bounding box of both children is 100 by 50.
    assert_eq!(container.preferred_size(), Size::new(100, 50));

    let removed = container.remove_child(2);
    assert!(removed.is_some());
    assert_eq!(container.child_count(), 1);
    assert!(container.remove_child(2).is_none());
}

#[test]
fn test_container_dispatch_reverse_order() {
    // Two overlapping buttons inside a container: the one added later (on
    // top) consumes the press, the one below stays untouched.
    let mut bottom = Button::new(2, "bottom".to_string());
    bottom.base.set_bounds(Rect::new(0, 0, 100, 30));
    let mut top = Button::new(3, "top".to_string());
    top.base.set_bounds(Rect::new(0, 0, 100, 30));

    let mut container = Container::new(1);
    container.add_child(Widget::Button(bottom));
    container.add_child(Widget::Button(top));
    let mut widget = Widget::Container(container);

    let consumed = widget
        .handle_event(&Event::MousePressed {
            window_id: 1,
            button: MouseButton::Left,
            x: 5,
            y: 5,
        })
        .unwrap();
    assert!(consumed);
    match &widget {
        Widget::Container(c) => {
            match (&c.children[0], &c.children[1]) {
                (Widget::Button(b0), Widget::Button(b1)) => {
                    assert!(!b0.is_pressed());
                    assert!(b1.is_pressed());
                },
                _ => panic!("unexpected widget kinds"),
            }
        },
        _ => panic!("container changed kind"),
    }
}

#[test]
fn test_widget_at_point_topmost_wins() {
    let mut manager = WidgetManager::new();

    let mut below = Button::new(1, "below".to_string());
    below.base.set_bounds(Rect::new(0, 0, 100, 100));
    let mut above = Button::new(2, "above".to_string());
    above.base.set_bounds(Rect::new(0, 0, 100, 100));
    let mut invisible = Button::new(3, "ghostly".to_string());
    invisible.base.set_bounds(Rect::new(0, 0, 100, 100));
    invisible.base.set_visible(false);

    manager.add_widget(Widget::Button(below));
    manager.add_widget(Widget::Button(above));
    manager.add_widget(Widget::Button(invisible));

    // The invisible topmost widget is skipped; the next-topmost visible
    // widget wins.
    assert_eq!(manager.widget_at_point(Point::new(50, 50)), Some(2));
    assert_eq!(manager.widget_at_point(Point::new(500, 50)), None);
}

#[test]
fn test_dispatch_consumption_and_focus() {
    let mut manager = WidgetManager::new();

    let mut below = Button::new(1, "below".to_string());
    below.base.set_bounds(Rect::new(0, 0, 100, 100));
    let mut top = Button::new(2, "top".to_string());
    top.base.set_bounds(Rect::new(0, 0, 100, 100));
    manager.add_widget(Widget::Button(below));
    manager.add_widget(Widget::Button(top));

    let consumed = manager
        .handle_event(&Event::MousePressed {
            window_id: 1,
            button: MouseButton::Left,
            x: 50,
            y: 50,
        })
        .unwrap();
    assert!(consumed);
    // Focus becomes the topmost widget under the press, and hover follows.
    assert_eq!(manager.focused_widget(), Some(2));
    assert_eq!(manager.hovered_widget(), Some(2));

    // The widget below the consumer never received the press.
    match &manager.widgets()[0] {
        Widget::Button(b) => assert!(!b.is_pressed()),
        _ => panic!("unexpected widget kind"),
    }
    match &manager.widgets()[1] {
        Widget::Button(b) => assert!(b.is_pressed()),
        _ => panic!("unexpected widget kind"),
    }
}

#[test]
fn test_hover_tracking_on_move() {
    let mut manager = WidgetManager::new();
    let mut b = Button::new(1, "b".to_string());
    b.base.set_bounds(Rect::new(0, 0, 10, 10));
    manager.add_widget(Widget::Button(b));

    let _ = manager.handle_event(&Event::MouseMoved { window_id: 1, x: 5, y: 5 }).unwrap();
    assert_eq!(manager.hovered_widget(), Some(1));
    assert_eq!(manager.focused_widget(), None);

    let _ = manager.handle_event(&Event::MouseMoved { window_id: 1, x: 50, y: 50 }).unwrap();
    assert_eq!(manager.hovered_widget(), None);
}

#[test]
fn test_remove_widget_clears_focus() {
    let mut manager = WidgetManager::new();
    let mut b = Button::new(1, "b".to_string());
    b.base.set_bounds(Rect::new(0, 0, 10, 10));
    manager.add_widget(Widget::Button(b));

    let _ = manager
        .handle_event(&Event::MousePressed {
            window_id: 1,
            button: MouseButton::Left,
            x: 5,
            y: 5,
        })
        .unwrap();
    assert_eq!(manager.focused_widget(), Some(1));

    let removed = manager.remove_widget(1);
    assert!(removed.is_some());
    assert_eq!(manager.focused_widget(), None);
    assert_eq!(manager.hovered_widget(), None);
    assert_eq!(manager.widget_count(), 0);
}

#[test]
fn test_widget_update_blinks_cursor() {
    let mut input = TextInput::new(1);
    input.focus();
    assert!(input.cursor_visible);
    let mut widget = Widget::TextInput(input);
    // Half a second passes: the cursor toggles off.
    widget.update(500_000_000).unwrap();
    match &widget {
        Widget::TextInput(t) => assert!(!t.cursor_visible),
        _ => panic!("unexpected widget kind"),
    }
}

use cx::widgets::button::ButtonBuilder;
use cx::widgets::container::ContainerBuilder;
use cx::widgets::label::LabelBuilder;
use cx::widgets::text_input::TextInputBuilder;

#[test]
fn test_button_builder() {
    let mut manager = WidgetManager::new();

    let button = ButtonBuilder::new()
        .text("Click Me")
        .text_color(Color::blue())
        .normal_color(Color::white())
        .hover_color(Color::light_gray())
        .size(100, 30)
        .build(&mut manager);

    assert_eq!(button.text(), "Click Me");
    assert_eq!(button.text_color, Color::blue());
    assert_eq!(button.normal_color, Color::white());
    assert_eq!(button.base.bounds(), Rect::new(0, 0, 100, 30));
    assert_eq!(button.base.id(), 1);
}

#[test]
fn test_label_builder() {
    let mut manager = WidgetManager::new();

    let label = LabelBuilder::new()
        .text("Hello, World!")
        .text_color(Color::blue())
        .font_size(16)
        .text_align(TextAlign::Center)
        .vertical_align(VerticalAlign::Middle)
        .word_wrap(true)
        .multiline(true)
        .size(200, 100)
        .build(&mut manager);

    assert_eq!(label.text(), "Hello, World!");
    assert_eq!(label.font_size(), 16);
    assert_eq!(label.text_align(), TextAlign::Center);
    assert_eq!(label.vertical_align(), VerticalAlign::Middle);
    assert!(label.word_wrap());
    assert!(label.multiline());
}

#[test]
fn test_text_input_builder() {
    let mut manager = WidgetManager::new();

    let input = TextInputBuilder::new()
        .text("Initial text")
        .placeholder("Enter text...")
        .max_length(50)
        .password(Some('*'))
        .size(200, 30)
        .build(&mut manager);

    assert_eq!(input.text(), "Initial text");
    assert_eq!(input.placeholder(), "Enter text...");
    assert_eq!(input.max_length(), Some(50));
    assert!(input.is_password());
    assert_eq!(input.password_char, '*');
}

#[test]
fn test_container_builder() {
    let mut manager = WidgetManager::new();

    let button1 = Button::new(manager.next_id(), "Button 1".to_string());
    let button2 = Button::new(manager.next_id(), "Button 2".to_string());

    let container = ContainerBuilder::new()
        .layout_direction(LayoutDirection::Horizontal)
        .main_axis_alignment(Alignment::Center)
        .cross_axis_alignment(Alignment::Stretch)
        .padding_uniform(10)
        .spacing(5)
        .child(Widget::Button(button1))
        .child(Widget::Button(button2))
        .build(&mut manager);

    assert_eq!(container.child_count(), 2);
    assert_eq!(container.layout_direction(), LayoutDirection::Horizontal);
    assert_eq!(container.padding(), Padding::uniform(10));
    assert_eq!(container.spacing(), 5);
}

#[test]
fn test_text_wrapping() {
    let mut label = Label::new(1, "This is a long text that should wrap".to_string());
    label.set_word_wrap(true);

    let lines = label.wrap_text("This is a long text that should wrap", 100);
    assert!(lines.len() > 1);
}

#[test]
fn test_text_wrapping_exact() {
    let mut label = Label::new(1, String::new());
    label.set_word_wrap(true);
    // At 14-pixel font the character cell is 8 pixels, so 96 pixels give 12
    // characters per line.
    let lines = label.wrap_text("alpha beta gamma", 96);
    assert_eq!(lines, vec!["alpha beta".to_string(), "gamma".to_string()]);

    // Without word wrap the text stays on one line.
    label.set_word_wrap(false);
    let lines = label.wrap_text("alpha beta gamma", 96);
    assert_eq!(lines, vec!["alpha beta gamma".to_string()]);

    // In multi-line mode each source line wraps separately.
    label.set_word_wrap(true);
    label.set_multiline(true);
    let lines = label.wrap_text("alpha beta\ngamma", 96);
    assert_eq!(
        lines,
        vec!["alpha beta".to_string(), "gamma".to_string()]
    );
}

#[test]
fn test_color_hex_parsing() {
    let color = Color::from_hex("#FF0000").unwrap();
    assert_eq!(color, Color::rgba8(255, 0, 0, 255));

    let color = Color::from_hex("00FF00").unwrap();
    assert_eq!(color, Color::rgba8(0, 255, 0, 255));

    let color = Color::from_hex("#F00").unwrap();
    assert_eq!(color, Color::rgba8(255, 0, 0, 255));

    let color = Color::from_hex("12345678").unwrap();
    assert_eq!(color, Color::rgba8(0x12, 0x34, 0x56, 0x78));

    assert!(Color::from_hex("#FF00").is_err());
    assert!(Color::from_hex("GGGGGG").is_err());
}

#[test]
fn drawing_test_color_creation() {
    let color = Color::rgb8(255, 128, 0);
    assert_eq!(color.r, 255);
    assert_eq!(color.g, 128);
    assert_eq!(color.b, 0);
    assert_eq!(color.a, 255);

    let color = Color::rgba8(255, 128, 0, 128);
    assert_eq!(color.r, 255);
    assert_eq!(color.g, 128);
    assert_eq!(color.b, 0);
    assert_eq!(color.a, 128);
}

#[test]
fn test_rect_queries() {
    let rect = Rect::new(10, 20, 100, 50);
    assert_eq!(rect.right(), 110);
    assert_eq!(rect.bottom(), 70);
    assert!(rect.contains_point(Point::new(10, 20)));
    assert!(rect.contains_point(Point::new(109, 69)));
    assert!(!rect.contains_point(Point::new(110, 20)));
    assert!(!rect.contains_point(Point::new(9, 20)));
    assert!(rect.intersects_with(Rect::new(100, 60, 50, 50)));
    assert!(!rect.intersects_with(Rect::new(200, 200, 10, 10)));
}
