//! Button widget: a clickable rectangle with per-state colors.
//!
//! A completed click (press inside, then release inside) raises the
//! `clicked` flag, which the application observes and clears with
//! [`Button::take_clicked`].

use vstd::prelude::*;

use crate::events::Event;
use crate::geometry::{Color, Point, Size};
use crate::platform::MouseButton;
use crate::geometry::Rect;
use crate::widgets::{BaseWidget, WidgetId, WidgetManager};

verus! {

/// Button widget for user interaction.
#[derive(Debug, Clone)]
pub struct Button {
    pub base: BaseWidget,
    pub text: String,
    pub text_color: Color,
    pub normal_color: Color,
    pub hover_color: Color,
    pub pressed_color: Color,
    pub disabled_color: Color,
    pub is_pressed: bool,
    pub is_hovered: bool,
    pub clicked: bool,
}

/// How a button reacts to one event: the next button state and whether the
/// event was consumed.
///
/// An invisible or disabled button ignores everything. A left press inside
/// the bounds arms the button and consumes; a left release anywhere disarms
/// it, completes the click when it lands inside while armed, and consumes; a
/// mouse move updates the hover flag and consumes exactly when that flag
/// changed; a mouse-leave clears hover and armed state without consuming.
pub open spec fn button_step(b: Button, e: Event) -> (Button, bool) {
    if !b.base.visible || !b.base.enabled {
        (b, false)
    } else {
        match e {
            Event::MousePressed { window_id: _, button, x, y } => {
                if button == MouseButton::Left && b.base.bounds.spec_contains(x as int, y as int) {
                    (Button { is_pressed: true, ..b }, true)
                } else {
                    (b, false)
                }
            },
            Event::MouseReleased { window_id: _, button, x, y } => {
                if button == MouseButton::Left {
                    (
                        Button {
                            is_pressed: false,
                            clicked: b.clicked || (b.is_pressed && b.base.bounds.spec_contains(
                                x as int,
                                y as int,
                            )),
                            ..b
                        },
                        true,
                    )
                } else {
                    (b, false)
                }
            },
            Event::MouseMoved { window_id: _, x, y } => {
                let now_hovered = b.base.bounds.spec_contains(x as int, y as int);
                (Button { is_hovered: now_hovered, ..b }, b.is_hovered != now_hovered)
            },
            Event::MouseLeft { window_id: _ } => {
                (Button { is_hovered: false, is_pressed: false, ..b }, false)
            },
            _ => (b, false),
        }
    }
}

impl Button {
    /// Create a new button with the given text: light gray background, thin
    /// dark border, black text, released and unhovered.
    pub fn new(id: WidgetId, text: String) -> (b: Button)
        ensures
            b.base == (BaseWidget {
                background_color: Some(Color { r: 191, g: 191, b: 191, a: 255 }),
                border_color: Some(Color { r: 64, g: 64, b: 64, a: 255 }),
                border_width: 1,
                ..BaseWidget::spec_new(id)
            }),
            b.text == text,
            !b.is_pressed && !b.is_hovered && !b.clicked,
            b.text_color == (Color { r: 0, g: 0, b: 0, a: 255 }),
            b.normal_color == (Color { r: 191, g: 191, b: 191, a: 255 }),
            b.hover_color == (Color { r: 255, g: 255, b: 255, a: 255 }),
            b.pressed_color == (Color { r: 128, g: 128, b: 128, a: 255 }),
            b.disabled_color == (Color { r: 64, g: 64, b: 64, a: 255 }),
    {
        let mut base = BaseWidget::new(id);
        base.set_background_color(Some(Color::light_gray()));
        base.set_border(Some(Color::dark_gray()), 1);
        Button {
            base,
            text,
            text_color: Color::black(),
            normal_color: Color::light_gray(),
            hover_color: Color::white(),
            pressed_color: Color::gray(),
            disabled_color: Color::dark_gray(),
            is_pressed: false,
            is_hovered: false,
            clicked: false,
        }
    }

    /// Replace the button text.
    pub fn set_text(&mut self, text: String)
        ensures
            *final (self) == (Button { text, ..*old(self) }),
    {
        self.text = text;
    }

    /// The button text.
    pub fn text(&self) -> (r: &str)
        ensures
            r@ == self.text@,
    {
        self.text.as_str()
    }

    /// Set the text color.
    pub fn set_text_color(&mut self, color: Color)
        ensures
            *final (self) == (Button { text_color: color, ..*old(self) }),
    {
        self.text_color = color;
    }

    /// Set the colors used in the normal, hovered, pressed, and disabled
    /// states.
    pub fn set_colors(&mut self, normal: Color, hover: Color, pressed: Color, disabled: Color)
        ensures
            *final (self) == (Button {
                normal_color: normal,
                hover_color: hover,
                pressed_color: pressed,
                disabled_color: disabled,
                ..*old(self)
            }),
    {
        self.normal_color = normal;
        self.hover_color = hover;
        self.pressed_color = pressed;
        self.disabled_color = disabled;
    }

    /// Whether the button is currently armed by a press.
    pub fn is_pressed(&self) -> (r: bool)
        ensures
            r == self.is_pressed,
    {
        self.is_pressed
    }

    /// Whether the pointer is currently over the button.
    pub fn is_hovered(&self) -> (r: bool)
        ensures
            r == self.is_hovered,
    {
        self.is_hovered
    }

    /// Observe and clear the click flag: true when a full click (press and
    /// release inside the bounds) completed since the last call.
    pub fn take_clicked(&mut self) -> (r: bool)
        ensures
            r == old(self).clicked,
            *final (self) == (Button { clicked: false, ..*old(self) }),
    {
        let r = self.clicked;
        self.clicked = false;
        r
    }

    /// The background color the button currently shows: disabled beats
    /// pressed beats hovered beats normal.
    pub fn current_background_color(&self) -> (r: Color)
        ensures
            r == if !self.base.enabled {
                self.disabled_color
            } else if self.is_pressed {
                self.pressed_color
            } else if self.is_hovered {
                self.hover_color
            } else {
                self.normal_color
            },
    {
        if !self.base.enabled {
            self.disabled_color
        } else if self.is_pressed {
            self.pressed_color
        } else if self.is_hovered {
            self.hover_color
        } else {
            self.normal_color
        }
    }

    /// The size the button asks for: eight pixels per character of text plus
    /// padding, clamped to `i32`.
    pub fn preferred_size(&self) -> (s: Size)
        ensures
            8 * self.text@.len() + 20 <= i32::MAX ==> s.width == 8 * self.text@.len() + 20,
            8 * self.text@.len() + 20 > i32::MAX ==> s.width == i32::MAX,
            s.height == 26,
    {
        let chars = self.text.as_str().unicode_len();
        if chars <= ((i32::MAX - 20) / 8) as usize {
            Size { width: (chars as i32) * 8 + 20, height: 26 }
        } else {
            Size { width: i32::MAX, height: 26 }
        }
    }

    /// React to one event, as [`button_step`] describes.
    pub fn handle_event(&mut self, event: &Event) -> (r: Result<bool, crate::error::Error>)
        ensures
            *final (self) == button_step(*old(self), *event).0,
            r matches Ok(consumed) && consumed == button_step(*old(self), *event).1,
    {
        if !self.base.visible || !self.base.enabled {
            return Ok(false);
        }
        match event {
            Event::MousePressed { window_id: _, button, x, y } => {
                let point = Point { x: *x, y: *y };
                if *button == MouseButton::Left && self.base.contains_point(point) {
                    self.is_pressed = true;
                    return Ok(true);
                }
                Ok(false)
            },
            Event::MouseReleased { window_id: _, button, x, y } => {
                let point = Point { x: *x, y: *y };
                if *button == MouseButton::Left {
                    if self.is_pressed && self.base.contains_point(point) {
                        self.clicked = true;
                    }
                    self.is_pressed = false;
                    return Ok(true);
                }
                Ok(false)
            },
            Event::MouseMoved { window_id: _, x, y } => {
                let point = Point { x: *x, y: *y };
                let was_hovered = self.is_hovered;
                self.is_hovered = self.base.contains_point(point);
                Ok(was_hovered != self.is_hovered)
            },
            Event::MouseLeft { window_id: _ } => {
                self.is_hovered = false;
                self.is_pressed = false;
                Ok(false)
            },
            _ => Ok(false),
        }
    }

    /// Per-frame update; a button has no time-driven state.
    pub fn update(&mut self, delta_nanos: u64) -> (r: Result<(), crate::error::Error>)
        ensures
            *final (self) == *old(self),
            r is Ok,
    {
        let _ = delta_nanos;
        Ok(())
    }
}

} // verus!

verus! {

/// Builder for creating buttons.
pub struct ButtonBuilder {
    pub id: Option<WidgetId>,
    pub bounds: Option<Rect>,
    pub visible: bool,
    pub enabled: bool,
    pub background_color: Option<Color>,
    pub border_color: Option<Color>,
    pub border_width: i32,
    pub text: String,
    pub text_color: Color,
    pub normal_color: Color,
    pub hover_color: Color,
    pub pressed_color: Color,
    pub disabled_color: Color,
}

impl ButtonBuilder {
    /// Start from the default button: the text "Button" with the standard
    /// state colors.
    pub fn new() -> (b: ButtonBuilder)
        ensures
            b.id is None,
            b.bounds is None,
            b.visible && b.enabled,
            b.background_color is None,
            b.border_color is None,
            b.border_width == 0,
            b.text@ == "Button"@,
            b.text_color == (Color { r: 0, g: 0, b: 0, a: 255 }),
            b.normal_color == (Color { r: 191, g: 191, b: 191, a: 255 }),
            b.hover_color == (Color { r: 255, g: 255, b: 255, a: 255 }),
            b.pressed_color == (Color { r: 128, g: 128, b: 128, a: 255 }),
            b.disabled_color == (Color { r: 64, g: 64, b: 64, a: 255 }),
    {
        ButtonBuilder {
            id: None,
            bounds: None,
            visible: true,
            enabled: true,
            background_color: None,
            border_color: None,
            border_width: 0,
            text: "Button".to_owned(),
            text_color: Color::black(),
            normal_color: Color::light_gray(),
            hover_color: Color::white(),
            pressed_color: Color::gray(),
            disabled_color: Color::dark_gray(),
        }
    }

    /// Set the button text.
    pub fn text(self, text: &str) -> (b: ButtonBuilder)
        ensures
            b.text@ == text@,
            b == (ButtonBuilder { text: b.text, ..self }),
    {
        ButtonBuilder { text: text.to_owned(), ..self }
    }

    /// Set the text color.
    pub fn text_color(self, color: Color) -> (b: ButtonBuilder)
        ensures
            b == (ButtonBuilder { text_color: color, ..self }),
    {
        ButtonBuilder { text_color: color, ..self }
    }

    /// Set the colors for all four states at once.
    pub fn colors(self, normal: Color, hover: Color, pressed: Color, disabled: Color) -> (b:
        ButtonBuilder)
        ensures
            b == (ButtonBuilder {
                normal_color: normal,
                hover_color: hover,
                pressed_color: pressed,
                disabled_color: disabled,
                ..self
            }),
    {
        ButtonBuilder {
            normal_color: normal,
            hover_color: hover,
            pressed_color: pressed,
            disabled_color: disabled,
            ..self
        }
    }

    /// Set the normal (resting) color.
    pub fn normal_color(self, color: Color) -> (b: ButtonBuilder)
        ensures
            b == (ButtonBuilder { normal_color: color, ..self }),
    {
        ButtonBuilder { normal_color: color, ..self }
    }

    /// Set the hover color.
    pub fn hover_color(self, color: Color) -> (b: ButtonBuilder)
        ensures
            b == (ButtonBuilder { hover_color: color, ..self }),
    {
        ButtonBuilder { hover_color: color, ..self }
    }

    /// Set the pressed color.
    pub fn pressed_color(self, color: Color) -> (b: ButtonBuilder)
        ensures
            b == (ButtonBuilder { pressed_color: color, ..self }),
    {
        ButtonBuilder { pressed_color: color, ..self }
    }

    /// Set the disabled color.
    pub fn disabled_color(self, color: Color) -> (b: ButtonBuilder)
        ensures
            b == (ButtonBuilder { disabled_color: color, ..self }),
    {
        ButtonBuilder { disabled_color: color, ..self }
    }

    /// Use a fixed identifier instead of one from the manager.
    pub fn id(self, id: WidgetId) -> (b: ButtonBuilder)
        ensures
            b == (ButtonBuilder { id: Some(id), ..self }),
    {
        ButtonBuilder { id: Some(id), ..self }
    }

    /// Set the bounds.
    pub fn bounds(self, bounds: Rect) -> (b: ButtonBuilder)
        ensures
            b == (ButtonBuilder { bounds: Some(bounds), ..self }),
    {
        ButtonBuilder { bounds: Some(bounds), ..self }
    }

    /// Set the position, keeping the size set so far (or the default size).
    pub fn position(self, x: i32, y: i32) -> (b: ButtonBuilder)
        ensures
            b == (ButtonBuilder {
                bounds: Some(
                    match self.bounds {
                        Some(r) => Rect { x, y, ..r },
                        None => Rect { x, y, width: 100, height: 30 },
                    },
                ),
                ..self
            }),
    {
        let bounds = match self.bounds {
            Some(r) => Rect { x, y, ..r },
            None => Rect { x, y, width: 100, height: 30 },
        };
        ButtonBuilder { bounds: Some(bounds), ..self }
    }

    /// Set the size, keeping the position set so far (or the origin).
    pub fn size(self, width: i32, height: i32) -> (b: ButtonBuilder)
        ensures
            b == (ButtonBuilder {
                bounds: Some(
                    match self.bounds {
                        Some(r) => Rect { width, height, ..r },
                        None => Rect { x: 0, y: 0, width, height },
                    },
                ),
                ..self
            }),
    {
        let bounds = match self.bounds {
            Some(r) => Rect { width, height, ..r },
            None => Rect { x: 0, y: 0, width, height },
        };
        ButtonBuilder { bounds: Some(bounds), ..self }
    }

    /// Set the initial visibility.
    pub fn visible(self, visible: bool) -> (b: ButtonBuilder)
        ensures
            b == (ButtonBuilder { visible, ..self }),
    {
        ButtonBuilder { visible, ..self }
    }

    /// Set the initial enabled state.
    pub fn enabled(self, enabled: bool) -> (b: ButtonBuilder)
        ensures
            b == (ButtonBuilder { enabled, ..self }),
    {
        ButtonBuilder { enabled, ..self }
    }

    /// Set the background color.
    pub fn background_color(self, color: Color) -> (b: ButtonBuilder)
        ensures
            b == (ButtonBuilder { background_color: Some(color), ..self }),
    {
        ButtonBuilder { background_color: Some(color), ..self }
    }

    /// Set the border color and width.
    pub fn border(self, color: Color, width: i32) -> (b: ButtonBuilder)
        ensures
            b == (ButtonBuilder { border_color: Some(color), border_width: width, ..self }),
    {
        ButtonBuilder { border_color: Some(color), border_width: width, ..self }
    }

    /// The base state this builder produces, once the identifier is known.
    pub open spec fn spec_base(self, id: WidgetId) -> BaseWidget {
        BaseWidget {
            id,
            bounds: match self.bounds {
                Some(r) => r,
                None => Rect { x: 0, y: 0, width: 100, height: 30 },
            },
            visible: self.visible,
            enabled: self.enabled,
            focused: false,
            background_color: self.background_color,
            border_color: self.border_color,
            border_width: self.border_width,
        }
    }

    /// The identifier the built widget will carry: the fixed one if set,
    /// else the manager's next.
    pub open spec fn spec_built_id(self, next: WidgetId) -> WidgetId {
        match self.id {
            Some(id) => id,
            None => next,
        }
    }

    /// Resolve the identifier, drawing one from the manager when none was
    /// fixed, and produce the base state.
    fn take_base(self, manager: &mut WidgetManager) -> (r: (BaseWidget, ButtonBuilder))
        requires
            old(manager).next_id < u64::MAX,
        ensures
            r.0 == self.spec_base(self.spec_built_id(old(manager).next_id)),
            r.1 == self,
            final (manager).widgets@ == old(manager).widgets@,
            final (manager).focused_widget == old(manager).focused_widget,
            final (manager).hovered_widget == old(manager).hovered_widget,
            self.id is Some ==> final (manager).next_id == old(manager).next_id,
            self.id is None ==> final (manager).next_id == old(manager).next_id + 1,
    {
        let id = match self.id {
            Some(id) => id,
            None => manager.next_id(),
        };
        let bounds = match self.bounds {
            Some(r) => r,
            None => Rect { x: 0, y: 0, width: 100, height: 30 },
        };
        let mut base = BaseWidget::new(id);
        base.set_bounds(bounds);
        base.set_visible(self.visible);
        base.set_enabled(self.enabled);
        base.set_background_color(self.background_color);
        base.set_border(self.border_color, self.border_width);
        (base, self)
    }

    /// Build the button, drawing an identifier from the manager when none
    /// was fixed.
    pub fn build(self, manager: &mut WidgetManager) -> (b: Button)
        requires
            old(manager).next_id < u64::MAX,
        ensures
            b.base == self.spec_base(self.spec_built_id(old(manager).next_id)),
            b.text == self.text,
            b.text_color == self.text_color,
            b.normal_color == self.normal_color,
            b.hover_color == self.hover_color,
            b.pressed_color == self.pressed_color,
            b.disabled_color == self.disabled_color,
            !b.is_pressed && !b.is_hovered && !b.clicked,
            final (manager).widgets@ == old(manager).widgets@,
    {
        let (base, parts) = self.take_base(manager);
        Button {
            base,
            text: parts.text,
            text_color: parts.text_color,
            normal_color: parts.normal_color,
            hover_color: parts.hover_color,
            pressed_color: parts.pressed_color,
            disabled_color: parts.disabled_color,
            is_pressed: false,
            is_hovered: false,
            clicked: false,
        }
    }
}

impl Default for ButtonBuilder {
    /// Same as [`ButtonBuilder::new`].
    fn default() -> (b: ButtonBuilder)
        ensures
            b.id is None && b.text@ == "Button"@,
    {
        ButtonBuilder::new()
    }
}

} // verus!
