//! Text input widget: single-line editable text with cursor, selection,
//! optional length limit, password masking and read-only mode.
//!
//! Cursor and selection positions are character indices. Every editing
//! operation is specified as a function on [`TextInputModel`], the widget's
//! mathematical view, and the executable code is proved to match it.

use vstd::prelude::*;

use crate::events::Event;
use crate::geometry::{Color, Point};
use crate::platform::{Key, MouseButton};
use crate::strutil::push_char;
use crate::geometry::Rect;
use crate::widgets::{BaseWidget, WidgetId, WidgetManager};

verus! {

/// Mathematical view of a text input: the fields the editing logic reads
/// and writes.
pub ghost struct TextInputModel {
    pub text: Seq<char>,
    pub cursor: int,
    pub selection_start: Option<int>,
    pub selection_end: Option<int>,
    pub is_focused: bool,
    pub cursor_visible: bool,
    pub blink_timer: int,
    pub max_length: Option<int>,
    pub is_password: bool,
    pub read_only: bool,
    pub submitted: bool,
}

/// Text input widget for user text entry.
#[derive(Debug, Clone)]
pub struct TextInput {
    pub base: BaseWidget,
    pub text: String,
    pub placeholder: String,
    pub text_color: Color,
    pub placeholder_color: Color,
    pub selection_color: Color,
    pub cursor_color: Color,
    pub font_size: u32,
    pub cursor_position: usize,
    pub selection_start: Option<usize>,
    pub selection_end: Option<usize>,
    pub is_focused: bool,
    pub cursor_visible: bool,
    pub cursor_blink_timer: u64,
    pub cursor_blink_interval: u64,
    pub max_length: Option<usize>,
    pub is_password: bool,
    pub password_char: char,
    pub read_only: bool,
    pub submitted: bool,
}

impl View for TextInput {
    type V = TextInputModel;

    open spec fn view(&self) -> TextInputModel {
        TextInputModel {
            text: self.text@,
            cursor: self.cursor_position as int,
            selection_start: match self.selection_start {
                Some(s) => Some(s as int),
                None => None,
            },
            selection_end: match self.selection_end {
                Some(s) => Some(s as int),
                None => None,
            },
            is_focused: self.is_focused,
            cursor_visible: self.cursor_visible,
            blink_timer: self.cursor_blink_timer as int,
            max_length: match self.max_length {
                Some(m) => Some(m as int),
                None => None,
            },
            is_password: self.is_password,
            read_only: self.read_only,
            submitted: self.submitted,
        }
    }
}

/// Validity: the cursor and any selection endpoints lie within the text,
/// and a selection has either both endpoints or none.
pub open spec fn ti_wf(m: TextInputModel) -> bool {
    &&& 0 <= m.cursor <= m.text.len()
    &&& (m.selection_start matches Some(s) ==> 0 <= s <= m.text.len())
    &&& (m.selection_end matches Some(s) ==> 0 <= s <= m.text.len())
    &&& (m.selection_start is Some <==> m.selection_end is Some)
}

/// Everything outside the editing model: base state and styling.
pub open spec fn ti_styling_unchanged(pre: TextInput, post: TextInput) -> bool {
    &&& post.base == pre.base
    &&& post.placeholder == pre.placeholder
    &&& post.text_color == pre.text_color
    &&& post.placeholder_color == pre.placeholder_color
    &&& post.selection_color == pre.selection_color
    &&& post.cursor_color == pre.cursor_color
    &&& post.font_size == pre.font_size
    &&& post.cursor_blink_interval == pre.cursor_blink_interval
    &&& post.password_char == pre.password_char
}

/// Drop any selection.
pub open spec fn model_clear_selection(m: TextInputModel) -> TextInputModel {
    TextInputModel { selection_start: None, selection_end: None, ..m }
}

/// Whether a selection exists (both endpoints set).
pub open spec fn model_has_selection(m: TextInputModel) -> bool {
    m.selection_start is Some && m.selection_end is Some
}

/// Delete the selected range, if any: the text outside the ordered
/// selection remains, the cursor lands at its start, the selection clears.
pub open spec fn model_delete_selection(m: TextInputModel) -> TextInputModel {
    match (m.selection_start, m.selection_end) {
        (Some(a), Some(b)) => {
            let lo = if a <= b { a } else { b };
            let hi = if a <= b { b } else { a };
            TextInputModel {
                text: m.text.take(lo) + m.text.skip(hi),
                cursor: lo,
                selection_start: None,
                selection_end: None,
                ..m
            }
        },
        _ => m,
    }
}

/// Insert text at the cursor: a selection is replaced first, and when a
/// length limit is set only as many characters as fit are taken from the
/// front of the insertion. Read-only inputs ignore the request.
pub open spec fn model_insert(m: TextInputModel, ins: Seq<char>) -> TextInputModel {
    if m.read_only {
        m
    } else {
        let m1 = if model_has_selection(m) {
            model_delete_selection(m)
        } else {
            m
        };
        let avail: int = match m1.max_length {
            Some(mx) => if mx >= m1.text.len() {
                mx - m1.text.len()
            } else {
                0
            },
            None => ins.len() as int,
        };
        let t = if ins.len() > avail {
            ins.take(avail)
        } else {
            ins
        };
        TextInputModel {
            text: m1.text.take(m1.cursor) + t + m1.text.skip(m1.cursor),
            cursor: m1.cursor + t.len(),
            ..m1
        }
    }
}

/// Delete backwards: the selection if there is one, else the character
/// before the cursor. Read-only inputs ignore the request.
pub open spec fn model_delete_back(m: TextInputModel) -> TextInputModel {
    if m.read_only {
        m
    } else if model_has_selection(m) {
        model_delete_selection(m)
    } else if m.cursor > 0 {
        TextInputModel {
            text: m.text.take(m.cursor - 1) + m.text.skip(m.cursor),
            cursor: m.cursor - 1,
            ..m
        }
    } else {
        m
    }
}

/// Delete forwards: the selection if there is one, else the character at
/// the cursor. Read-only inputs ignore the request.
pub open spec fn model_delete_forward(m: TextInputModel) -> TextInputModel {
    if m.read_only {
        m
    } else if model_has_selection(m) {
        model_delete_selection(m)
    } else if m.cursor < m.text.len() {
        TextInputModel { text: m.text.take(m.cursor) + m.text.skip(m.cursor + 1), ..m }
    } else {
        m
    }
}

/// Move the cursor one place left; with `extend` the selection grows to the
/// new cursor, otherwise any selection clears.
pub open spec fn model_move_left(m: TextInputModel, extend: bool) -> TextInputModel {
    let start = if extend {
        if m.selection_start is None {
            Some(m.cursor)
        } else {
            m.selection_start
        }
    } else {
        None
    };
    let cur = if m.cursor > 0 {
        m.cursor - 1
    } else {
        m.cursor
    };
    TextInputModel {
        cursor: cur,
        selection_start: start,
        selection_end: if extend {
            Some(cur)
        } else {
            None
        },
        ..m
    }
}

/// Move the cursor one place right; with `extend` the selection grows to
/// the new cursor, otherwise any selection clears.
pub open spec fn model_move_right(m: TextInputModel, extend: bool) -> TextInputModel {
    let start = if extend {
        if m.selection_start is None {
            Some(m.cursor)
        } else {
            m.selection_start
        }
    } else {
        None
    };
    let cur = if m.cursor < m.text.len() {
        m.cursor + 1
    } else {
        m.cursor
    };
    TextInputModel {
        cursor: cur,
        selection_start: start,
        selection_end: if extend {
            Some(cur)
        } else {
            None
        },
        ..m
    }
}

/// Move the cursor to the start of the text.
pub open spec fn model_move_home(m: TextInputModel, extend: bool) -> TextInputModel {
    let start = if extend {
        if m.selection_start is None {
            Some(m.cursor)
        } else {
            m.selection_start
        }
    } else {
        None
    };
    TextInputModel {
        cursor: 0,
        selection_start: start,
        selection_end: if extend {
            Some(0int)
        } else {
            None
        },
        ..m
    }
}

/// Move the cursor to the end of the text.
pub open spec fn model_move_end(m: TextInputModel, extend: bool) -> TextInputModel {
    let start = if extend {
        if m.selection_start is None {
            Some(m.cursor)
        } else {
            m.selection_start
        }
    } else {
        None
    };
    TextInputModel {
        cursor: m.text.len() as int,
        selection_start: start,
        selection_end: if extend {
            Some(m.text.len() as int)
        } else {
            None
        },
        ..m
    }
}

/// Take focus: the cursor becomes visible and its blink phase restarts.
pub open spec fn model_focus(m: TextInputModel) -> TextInputModel {
    TextInputModel { is_focused: true, cursor_visible: true, blink_timer: 0, ..m }
}

/// Give up focus: the cursor hides and any selection clears.
pub open spec fn model_unfocus(m: TextInputModel) -> TextInputModel {
    TextInputModel {
        is_focused: false,
        cursor_visible: false,
        selection_start: None,
        selection_end: None,
        ..m
    }
}

/// Select the whole text and put the cursor at its end.
pub open spec fn model_select_all(m: TextInputModel) -> TextInputModel {
    TextInputModel {
        selection_start: Some(0int),
        selection_end: Some(m.text.len() as int),
        cursor: m.text.len() as int,
        ..m
    }
}

/// The character index a click at `x` lands on: relative to the text origin
/// (five pixels in from the left edge), rounded to the nearest character
/// cell, clamped into the text.
pub open spec fn model_click_pos(
    bounds_x: int,
    font_size: int,
    x: int,
    text_len: int,
) -> int {
    let cw = if 3 * font_size / 5 >= 1 {
        3 * font_size / 5
    } else {
        1
    };
    let rel = x - bounds_x - 5;
    let pos = if rel <= 0 {
        0
    } else {
        (rel + cw / 2) / cw
    };
    if pos <= text_len {
        pos
    } else {
        text_len
    }
}

/// How a text input reacts to one event: the next model and whether the
/// event was consumed. The visibility and enabled gate sits one level up, in
/// [`ti_step_rel`].
///
/// A left press inside focuses the input and places the cursor at the click;
/// one outside removes focus. While focused, editing keys act as the model
/// functions above describe, `Return` raises the `submitted` flag, and a
/// text-input event inserts at the cursor.
pub open spec fn text_input_step(pre: TextInputModel, bounds: crate::geometry::Rect,
    font_size: int, e: Event) -> (TextInputModel, bool) {
    match e {
        Event::MousePressed { window_id: _, button, x, y } => {
            if button == MouseButton::Left {
                if bounds.spec_contains(x as int, y as int) {
                    let m1 = model_focus(pre);
                    let m2 = TextInputModel {
                        cursor: model_click_pos(
                            bounds.x as int,
                            font_size,
                            x as int,
                            pre.text.len() as int,
                        ),
                        selection_start: None,
                        selection_end: None,
                        ..m1
                    };
                    (m2, true)
                } else {
                    (model_unfocus(pre), false)
                }
            } else {
                (pre, false)
            }
        },
        Event::KeyPressed { window_id: _, key, modifiers, repeat: _ } => {
            if !pre.is_focused {
                (pre, false)
            } else if key == Key::Backspace {
                (model_delete_back(pre), true)
            } else if key == Key::Delete {
                (model_delete_forward(pre), true)
            } else if key == Key::Left {
                (model_move_left(pre, modifiers.shift), true)
            } else if key == Key::Right {
                (model_move_right(pre, modifiers.shift), true)
            } else if key == Key::Home {
                (model_move_home(pre, modifiers.shift), true)
            } else if key == Key::End {
                (model_move_end(pre, modifiers.shift), true)
            } else if key == Key::Return {
                (TextInputModel { submitted: true, ..pre }, true)
            } else if key == Key::A && modifiers.ctrl {
                (model_select_all(pre), true)
            } else {
                (pre, false)
            }
        },
        Event::TextInput { window_id: _, text } => {
            if pre.is_focused {
                (model_insert(pre, text@), true)
            } else {
                (pre, false)
            }
        },
        _ => (pre, false),
    }
}

/// How a text input reacts to one event, relating the state before to the
/// state after: the model steps as [`text_input_step`] says when the widget
/// is visible and enabled, and nothing changes otherwise. Styling never
/// changes.
pub open spec fn ti_step_rel(pre: TextInput, e: Event, post: TextInput, consumed: bool) -> bool {
    &&& ti_styling_unchanged(pre, post)
    &&& if pre.base.visible && pre.base.enabled {
        let (m2, c) = text_input_step(pre@, pre.base.bounds, pre.font_size as int, e);
        post@ == m2 && consumed == c
    } else {
        post == pre && !consumed
    }
}

/// How a text input advances by one frame: while focused the blink phase
/// accumulates (saturating), and on reaching the blink interval the cursor
/// toggles and the phase restarts; unfocused inputs are untouched.
pub open spec fn ti_update_rel(pre: TextInput, delta_nanos: u64, post: TextInput) -> bool {
    &&& ti_styling_unchanged(pre, post)
    &&& if !pre.is_focused {
        post == pre
    } else {
        let bumped: int = if pre.cursor_blink_timer + delta_nanos <= u64::MAX {
            pre.cursor_blink_timer + delta_nanos
        } else {
            u64::MAX as int
        };
        if bumped >= pre.cursor_blink_interval {
            post@ == (TextInputModel {
                cursor_visible: !pre.cursor_visible,
                blink_timer: 0,
                ..pre@
            })
        } else {
            post@ == (TextInputModel { blink_timer: bumped, ..pre@ })
        }
    }
}

impl TextInput {
    /// Create a new, empty text input: white background, gray border,
    /// 14-pixel font, half-second cursor blink, unfocused and unrestricted.
    pub fn new(id: WidgetId) -> (t: TextInput)
        ensures
            t.base == (BaseWidget {
                background_color: Some(Color { r: 255, g: 255, b: 255, a: 255 }),
                border_color: Some(Color { r: 128, g: 128, b: 128, a: 255 }),
                border_width: 1,
                ..BaseWidget::spec_new(id)
            }),
            t@.text == Seq::<char>::empty(),
            t.placeholder@ == Seq::<char>::empty(),
            t@.cursor == 0,
            t@.selection_start is None && t@.selection_end is None,
            !t@.is_focused && t@.cursor_visible,
            t@.blink_timer == 0,
            t.cursor_blink_interval == 500_000_000,
            t@.max_length is None,
            !t@.is_password && !t@.read_only && !t@.submitted,
            t.password_char == '\u{2022}',
            t.font_size == 14,
            ti_wf(t@),
    {
        let mut base = BaseWidget::new(id);
        base.set_background_color(Some(Color::white()));
        base.set_border(Some(Color::gray()), 1);
        TextInput {
            base,
            text: String::new(),
            placeholder: String::new(),
            text_color: Color::black(),
            placeholder_color: Color::gray(),
            selection_color: Color { r: 0, g: 128, b: 255, a: 77 },
            cursor_color: Color::black(),
            font_size: 14,
            cursor_position: 0,
            selection_start: None,
            selection_end: None,
            is_focused: false,
            cursor_visible: true,
            cursor_blink_timer: 0,
            cursor_blink_interval: 500_000_000,
            max_length: None,
            is_password: false,
            password_char: '\u{2022}',
            read_only: false,
            submitted: false,
        }
    }

    /// Replace the text: it is truncated to any length limit, the cursor is
    /// clamped into the new text, and the selection clears.
    pub fn set_text(&mut self, text: String)
        ensures
            ({
                let limited = match old(self)@.max_length {
                    Some(mx) => if text@.len() > mx {
                        text@.take(mx)
                    } else {
                        text@
                    },
                    None => text@,
                };
                let cur = if old(self)@.cursor <= limited.len() {
                    old(self)@.cursor
                } else {
                    limited.len() as int
                };
                final (self)@ == (TextInputModel {
                    text: limited,
                    cursor: cur,
                    selection_start: None,
                    selection_end: None,
                    ..old(self)@
                })
            }),
            ti_styling_unchanged(*old(self), *final (self)),
            ti_wf(final (self)@),
    {
        let limited = match self.max_length {
            Some(mx) => {
                let n = text.as_str().unicode_len();
                if n > mx {
                    text.as_str().substring_char(0, mx).to_owned()
                } else {
                    text
                }
            },
            None => text,
        };
        let n = limited.as_str().unicode_len();
        self.text = limited;
        if self.cursor_position > n {
            self.cursor_position = n;
        }
        self.selection_start = None;
        self.selection_end = None;
        proof {
            let spec_limited = match old(self)@.max_length {
                Some(mx) => if text@.len() > mx {
                    text@.take(mx)
                } else {
                    text@
                },
                None => text@,
            };
            assert(self@.text =~= spec_limited);
        }
    }

    /// The text content.
    pub fn text(&self) -> (r: &str)
        ensures
            r@ == self@.text,
    {
        self.text.as_str()
    }

    /// Set the placeholder text shown while empty.
    pub fn set_placeholder(&mut self, placeholder: String)
        ensures
            *final (self) == (TextInput { placeholder, ..*old(self) }),
    {
        self.placeholder = placeholder;
    }

    /// The placeholder text.
    pub fn placeholder(&self) -> (r: &str)
        ensures
            r@ == self.placeholder@,
    {
        self.placeholder.as_str()
    }

    /// Set or clear the maximum text length; existing text is truncated to
    /// fit and the cursor clamped.
    pub fn set_max_length(&mut self, max_length: Option<usize>)
        ensures
            ({
                let truncated = match max_length {
                    Some(mx) => if old(self)@.text.len() > mx {
                        old(self)@.text.take(mx as int)
                    } else {
                        old(self)@.text
                    },
                    None => old(self)@.text,
                };
                let cur = match max_length {
                    Some(mx) => if old(self)@.text.len() > mx && old(self)@.cursor > mx {
                        mx as int
                    } else {
                        old(self)@.cursor
                    },
                    None => old(self)@.cursor,
                };
                final (self)@ == (TextInputModel {
                    text: truncated,
                    cursor: cur,
                    max_length: match max_length {
                        Some(m) => Some(m as int),
                        None => None,
                    },
                    ..old(self)@
                })
            }),
            ti_styling_unchanged(*old(self), *final (self)),
            ti_wf(old(self)@) && old(self)@.selection_start is None && old(
                self,
            )@.selection_end is None ==> ti_wf(final (self)@),
    {
        self.max_length = max_length;
        if let Some(mx) = max_length {
            let n = self.text.as_str().unicode_len();
            if n > mx {
                self.text = self.text.as_str().substring_char(0, mx).to_owned();
                if self.cursor_position > mx {
                    self.cursor_position = mx;
                }
            }
        }
        proof {
            let spec_truncated = match max_length {
                Some(mx) => if old(self)@.text.len() > mx {
                    old(self)@.text.take(mx as int)
                } else {
                    old(self)@.text
                },
                None => old(self)@.text,
            };
            assert(self@.text =~= spec_truncated);
        }
    }

    /// The maximum text length, if any.
    pub fn max_length(&self) -> (r: Option<usize>)
        ensures
            r == self.max_length,
    {
        self.max_length
    }

    /// Enable or disable password masking.
    pub fn set_password(&mut self, is_password: bool)
        ensures
            *final (self) == (TextInput { is_password, ..*old(self) }),
    {
        self.is_password = is_password;
    }

    /// Whether password masking is on.
    pub fn is_password(&self) -> (r: bool)
        ensures
            r == self.is_password,
    {
        self.is_password
    }

    /// Set the character shown in place of each one while masking.
    pub fn set_password_char(&mut self, c: char)
        ensures
            *final (self) == (TextInput { password_char: c, ..*old(self) }),
    {
        self.password_char = c;
    }

    /// Enable or disable read-only mode.
    pub fn set_read_only(&mut self, read_only: bool)
        ensures
            *final (self) == (TextInput { read_only, ..*old(self) }),
    {
        self.read_only = read_only;
    }

    /// Whether the input is read-only.
    pub fn is_read_only(&self) -> (r: bool)
        ensures
            r == self.read_only,
    {
        self.read_only
    }

    /// Take focus, as [`model_focus`] describes.
    pub fn focus(&mut self)
        ensures
            final (self)@ == model_focus(old(self)@),
            ti_styling_unchanged(*old(self), *final (self)),
    {
        self.is_focused = true;
        self.cursor_visible = true;
        self.cursor_blink_timer = 0;
    }

    /// Give up focus, as [`model_unfocus`] describes.
    pub fn unfocus(&mut self)
        ensures
            final (self)@ == model_unfocus(old(self)@),
            ti_styling_unchanged(*old(self), *final (self)),
    {
        self.is_focused = false;
        self.cursor_visible = false;
        self.selection_start = None;
        self.selection_end = None;
    }

    /// Whether the input is focused.
    pub fn is_focused(&self) -> (r: bool)
        ensures
            r == self.is_focused,
    {
        self.is_focused
    }

    /// Observe and clear the submit flag: true when `Return` was pressed
    /// while focused since the last call.
    pub fn take_submitted(&mut self) -> (r: bool)
        ensures
            r == old(self).submitted,
            *final (self) == (TextInput { submitted: false, ..*old(self) }),
    {
        let r = self.submitted;
        self.submitted = false;
        r
    }

    /// Insert text at the cursor, as [`model_insert`] describes.
    #[verifier::rlimit(30)]
    pub fn insert_text(&mut self, text: &str)
        requires
            ti_wf(old(self)@),
        ensures
            final (self)@ == model_insert(old(self)@, text@),
            ti_styling_unchanged(*old(self), *final (self)),
            ti_wf(final (self)@),
    {
        if self.read_only {
            return ;
        }
        if self.selection_start.is_some() && self.selection_end.is_some() {
            self.delete_selection();
        }
        let len = self.text.as_str().unicode_len();
        let ins_len = text.unicode_len();
        let keep: usize = match self.max_length {
            Some(mx) => if mx >= len {
                mx - len
            } else {
                0
            },
            None => ins_len,
        };
        let pre = self.text.as_str().substring_char(0, self.cursor_position).to_owned();
        let mid = if ins_len > keep {
            text.substring_char(0, keep)
        } else {
            text
        };
        let mid_len = if ins_len > keep {
            keep
        } else {
            ins_len
        };
        let post = self.text.as_str().substring_char(self.cursor_position, len);
        let mut combined = pre;
        combined.append(mid);
        combined.append(post);
        let total = combined.as_str().unicode_len();
        let cursor_now = self.cursor_position;
        proof {
            assert(total == cursor_now + mid_len + (len - cursor_now));
        }
        self.text = combined;
        self.cursor_position = cursor_now + mid_len;
        proof {
            assert(self@.text =~= model_insert(old(self)@, text@).text);
        }
    }

    /// Delete backwards, as [`model_delete_back`] describes.
    pub fn delete_char(&mut self)
        requires
            ti_wf(old(self)@),
        ensures
            final (self)@ == model_delete_back(old(self)@),
            ti_styling_unchanged(*old(self), *final (self)),
            ti_wf(final (self)@),
    {
        if self.read_only {
            return ;
        }
        if self.selection_start.is_some() && self.selection_end.is_some() {
            self.delete_selection();
        } else if self.cursor_position > 0 {
            let len = self.text.as_str().unicode_len();
            let pre = self.text.as_str().substring_char(0, self.cursor_position - 1).to_owned();
            let post = self.text.as_str().substring_char(self.cursor_position, len);
            let mut combined = pre;
            combined.append(post);
            self.text = combined;
            self.cursor_position = self.cursor_position - 1;
            proof {
                assert(self@.text =~= model_delete_back(old(self)@).text);
            }
        }
    }

    /// Delete forwards, as [`model_delete_forward`] describes.
    pub fn delete_char_forward(&mut self)
        requires
            ti_wf(old(self)@),
        ensures
            final (self)@ == model_delete_forward(old(self)@),
            ti_styling_unchanged(*old(self), *final (self)),
            ti_wf(final (self)@),
    {
        if self.read_only {
            return ;
        }
        if self.selection_start.is_some() && self.selection_end.is_some() {
            self.delete_selection();
        } else {
            let len = self.text.as_str().unicode_len();
            if self.cursor_position < len {
                let pre = self.text.as_str().substring_char(0, self.cursor_position).to_owned();
                let post = self.text.as_str().substring_char(self.cursor_position + 1, len);
                let mut combined = pre;
                combined.append(post);
                self.text = combined;
                proof {
                    assert(self@.text =~= model_delete_forward(old(self)@).text);
                }
            }
        }
    }

    /// Delete the selected range, as [`model_delete_selection`] describes.
    fn delete_selection(&mut self)
        requires
            ti_wf(old(self)@),
        ensures
            final (self)@ == model_delete_selection(old(self)@),
            ti_styling_unchanged(*old(self), *final (self)),
            ti_wf(final (self)@),
    {
        if let (Some(a), Some(b)) = (self.selection_start, self.selection_end) {
            let lo = if a <= b {
                a
            } else {
                b
            };
            let hi = if a <= b {
                b
            } else {
                a
            };
            let len = self.text.as_str().unicode_len();
            let pre = self.text.as_str().substring_char(0, lo).to_owned();
            let post = self.text.as_str().substring_char(hi, len);
            let mut combined = pre;
            combined.append(post);
            self.text = combined;
            self.cursor_position = lo;
            self.selection_start = None;
            self.selection_end = None;
            proof {
                assert(self@.text =~= model_delete_selection(old(self)@).text);
            }
        }
    }

    /// Move the cursor left, as [`model_move_left`] describes.
    pub fn move_cursor_left(&mut self, extend_selection: bool)
        ensures
            final (self)@ == model_move_left(old(self)@, extend_selection),
            ti_styling_unchanged(*old(self), *final (self)),
            ti_wf(old(self)@) ==> ti_wf(final (self)@),
    {
        if extend_selection {
            if self.selection_start.is_none() {
                self.selection_start = Some(self.cursor_position);
            }
        } else {
            self.selection_start = None;
            self.selection_end = None;
        }
        if self.cursor_position > 0 {
            self.cursor_position = self.cursor_position - 1;
        }
        if extend_selection {
            self.selection_end = Some(self.cursor_position);
        }
    }

    /// Move the cursor right, as [`model_move_right`] describes.
    pub fn move_cursor_right(&mut self, extend_selection: bool)
        requires
            ti_wf(old(self)@),
        ensures
            final (self)@ == model_move_right(old(self)@, extend_selection),
            ti_styling_unchanged(*old(self), *final (self)),
            ti_wf(final (self)@),
    {
        if extend_selection {
            if self.selection_start.is_none() {
                self.selection_start = Some(self.cursor_position);
            }
        } else {
            self.selection_start = None;
            self.selection_end = None;
        }
        let len = self.text.as_str().unicode_len();
        if self.cursor_position < len {
            self.cursor_position = self.cursor_position + 1;
        }
        if extend_selection {
            self.selection_end = Some(self.cursor_position);
        }
    }

    /// Move the cursor to the start, as [`model_move_home`] describes.
    pub fn move_cursor_home(&mut self, extend_selection: bool)
        ensures
            final (self)@ == model_move_home(old(self)@, extend_selection),
            ti_styling_unchanged(*old(self), *final (self)),
            ti_wf(old(self)@) ==> ti_wf(final (self)@),
    {
        if extend_selection {
            if self.selection_start.is_none() {
                self.selection_start = Some(self.cursor_position);
            }
            self.cursor_position = 0;
            self.selection_end = Some(0);
        } else {
            self.selection_start = None;
            self.selection_end = None;
            self.cursor_position = 0;
        }
    }

    /// Move the cursor to the end, as [`model_move_end`] describes.
    pub fn move_cursor_end(&mut self, extend_selection: bool)
        ensures
            final (self)@ == model_move_end(old(self)@, extend_selection),
            ti_styling_unchanged(*old(self), *final (self)),
            ti_wf(old(self)@) ==> ti_wf(final (self)@),
    {
        let len = self.text.as_str().unicode_len();
        if extend_selection {
            if self.selection_start.is_none() {
                self.selection_start = Some(self.cursor_position);
            }
            self.cursor_position = len;
            self.selection_end = Some(len);
        } else {
            self.selection_start = None;
            self.selection_end = None;
            self.cursor_position = len;
        }
    }

    /// The text as shown: each character replaced by the password character
    /// while masking is on and the text is nonempty.
    pub fn display_text(&self) -> (r: String)
        ensures
            self.is_password && self@.text.len() > 0 ==> r@ == Seq::new(
                self@.text.len(),
                |i: int| self.password_char,
            ),
            !(self.is_password && self@.text.len() > 0) ==> r@ == self@.text,
    {
        if self.is_password {
            let len = self.text.as_str().unicode_len();
            if len > 0 {
                let mut masked = String::new();
                let mut i: usize = 0;
                while i < len
                    invariant
                        i <= len,
                        masked@ =~= Seq::new(i as nat, |j: int| self.password_char),
                    decreases len - i,
                {
                    push_char(&mut masked, self.password_char);
                    proof {
                        assert(masked@ =~= Seq::new((i + 1) as nat, |j: int| self.password_char));
                    }
                    i += 1;
                }
                return masked;
            }
            return self.text.clone();
        }
        self.text.clone()
    }

    /// React to one event, as [`ti_step_rel`] describes; an invisible or
    /// disabled input ignores everything.
    pub fn handle_event(&mut self, event: &Event) -> (r: Result<bool, crate::error::Error>)
        requires
            ti_wf(old(self)@),
        ensures
            ti_wf(final (self)@),
            r matches Ok(c) && ti_step_rel(*old(self), *event, *final (self), c),
    {
        if !self.base.visible || !self.base.enabled {
            return Ok(false);
        }
        match event {
            Event::MousePressed { window_id: _, button, x, y } => {
                if *button == MouseButton::Left {
                    let point = Point { x: *x, y: *y };
                    if self.base.contains_point(point) {
                        self.focus();
                        let cw64: u64 = {
                            let w = 3 * (self.font_size as u64) / 5;
                            if w >= 1 {
                                w
                            } else {
                                1
                            }
                        };
                        let relative: i64 = (*x as i64) - (self.base.bounds.x as i64) - 5;
                        let len = self.text.as_str().unicode_len();
                        let pos: usize = if relative <= 0 {
                            0
                        } else {
                            let p = ((relative as u64) + cw64 / 2) / cw64;
                            if p <= len as u64 {
                                p as usize
                            } else {
                                len
                            }
                        };
                        let pos = if pos <= len {
                            pos
                        } else {
                            len
                        };
                        self.cursor_position = pos;
                        self.selection_start = None;
                        self.selection_end = None;
                        return Ok(true);
                    } else {
                        self.unfocus();
                        return Ok(false);
                    }
                }
                Ok(false)
            },
            Event::KeyPressed { window_id: _, key, modifiers, repeat: _ } => {
                if !self.is_focused {
                    return Ok(false);
                }
                match key {
                    Key::Backspace => {
                        self.delete_char();
                        Ok(true)
                    },
                    Key::Delete => {
                        self.delete_char_forward();
                        Ok(true)
                    },
                    Key::Left => {
                        self.move_cursor_left(modifiers.shift);
                        Ok(true)
                    },
                    Key::Right => {
                        self.move_cursor_right(modifiers.shift);
                        Ok(true)
                    },
                    Key::Home => {
                        self.move_cursor_home(modifiers.shift);
                        Ok(true)
                    },
                    Key::End => {
                        self.move_cursor_end(modifiers.shift);
                        Ok(true)
                    },
                    Key::Return => {
                        self.submitted = true;
                        Ok(true)
                    },
                    Key::A => {
                        if modifiers.ctrl {
                            let len = self.text.as_str().unicode_len();
                            self.selection_start = Some(0);
                            self.selection_end = Some(len);
                            self.cursor_position = len;
                            Ok(true)
                        } else {
                            Ok(false)
                        }
                    },
                    _ => Ok(false),
                }
            },
            Event::TextInput { window_id: _, text } => {
                if self.is_focused {
                    self.insert_text(text.as_str());
                    Ok(true)
                } else {
                    Ok(false)
                }
            },
            _ => Ok(false),
        }
    }

    /// The size the input asks for: ten character cells plus padding wide,
    /// one and a half font sizes plus padding tall, clamped to `i32`.
    pub fn preferred_size(&self) -> (s: crate::geometry::Size)
        ensures
            ({
                let cw = if 3 * (self.font_size as int) / 5 >= 1 {
                    3 * (self.font_size as int) / 5
                } else {
                    1
                };
                let w = cw * 10 + 10;
                let h = 3 * (self.font_size as int) / 2 + 10;
                &&& s.width == if w <= i32::MAX {
                    w
                } else {
                    i32::MAX as int
                }
                &&& s.height == if h <= i32::MAX {
                    h
                } else {
                    i32::MAX as int
                }
            }),
    {
        let cw: u64 = {
            let w = 3 * (self.font_size as u64) / 5;
            if w >= 1 {
                w
            } else {
                1
            }
        };
        let w: u64 = cw * 10 + 10;
        let h: u64 = 3 * (self.font_size as u64) / 2 + 10;
        crate::geometry::Size {
            width: if w <= i32::MAX as u64 {
                w as i32
            } else {
                i32::MAX
            },
            height: if h <= i32::MAX as u64 {
                h as i32
            } else {
                i32::MAX
            },
        }
    }

    /// Advance the cursor blink: while focused the phase accumulates, and
    /// each time it reaches the blink interval the cursor toggles and the
    /// phase restarts. Unfocused inputs are untouched.
    pub fn update(&mut self, delta_nanos: u64) -> (r: Result<(), crate::error::Error>)
        ensures
            r is Ok,
            ti_update_rel(*old(self), delta_nanos, *final (self)),
            ti_wf(old(self)@) ==> ti_wf(final (self)@),
    {
        if self.is_focused {
            let bumped: u64 = if delta_nanos <= u64::MAX - self.cursor_blink_timer {
                self.cursor_blink_timer + delta_nanos
            } else {
                u64::MAX
            };
            if bumped >= self.cursor_blink_interval {
                self.cursor_visible = !self.cursor_visible;
                self.cursor_blink_timer = 0;
            } else {
                self.cursor_blink_timer = bumped;
            }
        }
        Ok(())
    }
}

} // verus!

verus! {

/// Builder for creating text inputs.
pub struct TextInputBuilder {
    pub id: Option<WidgetId>,
    pub bounds: Option<Rect>,
    pub visible: bool,
    pub enabled: bool,
    pub background_color: Option<Color>,
    pub border_color: Option<Color>,
    pub border_width: i32,
    pub text: String,
    pub placeholder: String,
    pub text_color: Color,
    pub placeholder_color: Color,
    pub selection_color: Color,
    pub cursor_color: Color,
    pub font_size: u32,
    pub max_length: Option<usize>,
    pub is_password: bool,
    pub password_char: char,
    pub read_only: bool,
}

impl TextInputBuilder {
    /// Start from the default text input: empty, white on gray border,
    /// unlimited, writable.
    pub fn new() -> (b: TextInputBuilder)
        ensures
            b.id is None,
            b.bounds is None,
            b.visible && b.enabled,
            b.background_color == Some(Color { r: 255, g: 255, b: 255, a: 255 }),
            b.border_color == Some(Color { r: 128, g: 128, b: 128, a: 255 }),
            b.border_width == 1,
            b.text@ == Seq::<char>::empty(),
            b.placeholder@ == Seq::<char>::empty(),
            b.font_size == 14,
            b.max_length is None,
            !b.is_password && !b.read_only,
            b.password_char == '\u{2022}',
    {
        TextInputBuilder {
            id: None,
            bounds: None,
            visible: true,
            enabled: true,
            background_color: Some(Color::white()),
            border_color: Some(Color::gray()),
            border_width: 1,
            text: String::new(),
            placeholder: String::new(),
            text_color: Color::black(),
            placeholder_color: Color::gray(),
            selection_color: Color { r: 0, g: 128, b: 255, a: 77 },
            cursor_color: Color::black(),
            font_size: 14,
            max_length: None,
            is_password: false,
            password_char: '\u{2022}',
            read_only: false,
        }
    }

    /// Set the initial text.
    pub fn text(self, text: &str) -> (b: TextInputBuilder)
        ensures
            b.text@ == text@,
            b == (TextInputBuilder { text: b.text, ..self }),
    {
        TextInputBuilder { text: text.to_owned(), ..self }
    }

    /// Set the placeholder text.
    pub fn placeholder(self, placeholder: &str) -> (b: TextInputBuilder)
        ensures
            b.placeholder@ == placeholder@,
            b == (TextInputBuilder { placeholder: b.placeholder, ..self }),
    {
        TextInputBuilder { placeholder: placeholder.to_owned(), ..self }
    }

    /// Set the text color.
    pub fn text_color(self, color: Color) -> (b: TextInputBuilder)
        ensures
            b == (TextInputBuilder { text_color: color, ..self }),
    {
        TextInputBuilder { text_color: color, ..self }
    }

    /// Set the placeholder color.
    pub fn placeholder_color(self, color: Color) -> (b: TextInputBuilder)
        ensures
            b == (TextInputBuilder { placeholder_color: color, ..self }),
    {
        TextInputBuilder { placeholder_color: color, ..self }
    }

    /// Set the font size in pixels; at least one.
    pub fn font_size(self, size: u32) -> (b: TextInputBuilder)
        ensures
            b == (TextInputBuilder {
                font_size: if size >= 1 {
                    size
                } else {
                    1
                },
                ..self
            }),
    {
        TextInputBuilder {
            font_size: if size >= 1 {
                size
            } else {
                1
            },
            ..self
        }
    }

    /// Limit the text length.
    pub fn max_length(self, max_length: usize) -> (b: TextInputBuilder)
        ensures
            b == (TextInputBuilder { max_length: Some(max_length), ..self }),
    {
        TextInputBuilder { max_length: Some(max_length), ..self }
    }

    /// Enable password masking, optionally with a custom mask character.
    pub fn password(self, password_char: Option<char>) -> (b: TextInputBuilder)
        ensures
            b == (TextInputBuilder {
                is_password: true,
                password_char: match password_char {
                    Some(c) => c,
                    None => self.password_char,
                },
                ..self
            }),
    {
        TextInputBuilder {
            is_password: true,
            password_char: match password_char {
                Some(c) => c,
                None => self.password_char,
            },
            ..self
        }
    }

    /// Set read-only mode.
    pub fn read_only(self, read_only: bool) -> (b: TextInputBuilder)
        ensures
            b == (TextInputBuilder { read_only, ..self }),
    {
        TextInputBuilder { read_only, ..self }
    }

    /// Use a fixed identifier instead of one from the manager.
    pub fn id(self, id: WidgetId) -> (b: TextInputBuilder)
        ensures
            b == (TextInputBuilder { id: Some(id), ..self }),
    {
        TextInputBuilder { id: Some(id), ..self }
    }

    /// Set the bounds.
    pub fn bounds(self, bounds: Rect) -> (b: TextInputBuilder)
        ensures
            b == (TextInputBuilder { bounds: Some(bounds), ..self }),
    {
        TextInputBuilder { bounds: Some(bounds), ..self }
    }

    /// Set the position, keeping the size set so far (or the default size).
    pub fn position(self, x: i32, y: i32) -> (b: TextInputBuilder)
        ensures
            b == (TextInputBuilder {
                bounds: Some(
                    match self.bounds {
                        Some(r) => Rect { x, y, ..r },
                        None => Rect { x, y, width: 100, height: 30 },
                    },
                ),
                ..self
            }),
    {
        let bounds = match self.bounds {
            Some(r) => Rect { x, y, ..r },
            None => Rect { x, y, width: 100, height: 30 },
        };
        TextInputBuilder { bounds: Some(bounds), ..self }
    }

    /// Set the size, keeping the position set so far (or the origin).
    pub fn size(self, width: i32, height: i32) -> (b: TextInputBuilder)
        ensures
            b == (TextInputBuilder {
                bounds: Some(
                    match self.bounds {
                        Some(r) => Rect { width, height, ..r },
                        None => Rect { x: 0, y: 0, width, height },
                    },
                ),
                ..self
            }),
    {
        let bounds = match self.bounds {
            Some(r) => Rect { width, height, ..r },
            None => Rect { x: 0, y: 0, width, height },
        };
        TextInputBuilder { bounds: Some(bounds), ..self }
    }

    /// Set the initial visibility.
    pub fn visible(self, visible: bool) -> (b: TextInputBuilder)
        ensures
            b == (TextInputBuilder { visible, ..self }),
    {
        TextInputBuilder { visible, ..self }
    }

    /// Set the initial enabled state.
    pub fn enabled(self, enabled: bool) -> (b: TextInputBuilder)
        ensures
            b == (TextInputBuilder { enabled, ..self }),
    {
        TextInputBuilder { enabled, ..self }
    }

    /// Set the background color.
    pub fn background_color(self, color: Color) -> (b: TextInputBuilder)
        ensures
            b == (TextInputBuilder { background_color: Some(color), ..self }),
    {
        TextInputBuilder { background_color: Some(color), ..self }
    }

    /// Set the border color and width.
    pub fn border(self, color: Color, width: i32) -> (b: TextInputBuilder)
        ensures
            b == (TextInputBuilder { border_color: Some(color), border_width: width, ..self }),
    {
        TextInputBuilder { border_color: Some(color), border_width: width, ..self }
    }

    /// The base state this builder produces, once the identifier is known.
    pub open spec fn spec_base(self, id: WidgetId) -> BaseWidget {
        BaseWidget {
            id,
            bounds: match self.bounds {
                Some(r) => r,
                None => Rect { x: 0, y: 0, width: 100, height: 30 },
            },
            visible: self.visible,
            enabled: self.enabled,
            focused: false,
            background_color: self.background_color,
            border_color: self.border_color,
            border_width: self.border_width,
        }
    }

    /// The identifier the built widget will carry: the fixed one if set,
    /// else the manager's next.
    pub open spec fn spec_built_id(self, next: WidgetId) -> WidgetId {
        match self.id {
            Some(id) => id,
            None => next,
        }
    }

    /// Resolve the identifier, drawing one from the manager when none was
    /// fixed, and produce the base state.
    fn take_base(self, manager: &mut WidgetManager) -> (r: (BaseWidget, TextInputBuilder))
        requires
            old(manager).next_id < u64::MAX,
        ensures
            r.0 == self.spec_base(self.spec_built_id(old(manager).next_id)),
            r.1 == self,
            final (manager).widgets@ == old(manager).widgets@,
            final (manager).focused_widget == old(manager).focused_widget,
            final (manager).hovered_widget == old(manager).hovered_widget,
    {
        let id = match self.id {
            Some(id) => id,
            None => manager.next_id(),
        };
        let bounds = match self.bounds {
            Some(r) => r,
            None => Rect { x: 0, y: 0, width: 100, height: 30 },
        };
        let mut base = BaseWidget::new(id);
        base.set_bounds(bounds);
        base.set_visible(self.visible);
        base.set_enabled(self.enabled);
        base.set_background_color(self.background_color);
        base.set_border(self.border_color, self.border_width);
        (base, self)
    }

    /// Build the text input, drawing an identifier from the manager when
    /// none was fixed. The initial text is truncated to any length limit.
    pub fn build(self, manager: &mut WidgetManager) -> (t: TextInput)
        requires
            old(manager).next_id < u64::MAX,
        ensures
            t.base == self.spec_base(self.spec_built_id(old(manager).next_id)),
            t@.text == (match self.max_length {
                Some(mx) => if self.text@.len() > mx {
                    self.text@.take(mx as int)
                } else {
                    self.text@
                },
                None => self.text@,
            }),
            t@.cursor == 0,
            t@.selection_start is None && t@.selection_end is None,
            !t@.is_focused && t@.cursor_visible && t@.blink_timer == 0,
            t.placeholder == self.placeholder,
            t.font_size == self.font_size,
            t.max_length == self.max_length,
            t.is_password == self.is_password,
            t.password_char == self.password_char,
            t.read_only == self.read_only,
            !t.submitted,
            ti_wf(t@),
            final (manager).widgets@ == old(manager).widgets@,
    {
        let (base, parts) = self.take_base(manager);
        let mut input = TextInput {
            base,
            text: String::new(),
            placeholder: parts.placeholder,
            text_color: parts.text_color,
            placeholder_color: parts.placeholder_color,
            selection_color: parts.selection_color,
            cursor_color: parts.cursor_color,
            font_size: parts.font_size,
            cursor_position: 0,
            selection_start: None,
            selection_end: None,
            is_focused: false,
            cursor_visible: true,
            cursor_blink_timer: 0,
            cursor_blink_interval: 500_000_000,
            max_length: parts.max_length,
            is_password: parts.is_password,
            password_char: parts.password_char,
            read_only: false,
            submitted: false,
        };
        input.set_text(parts.text);
        input.read_only = parts.read_only;
        input
    }
}

impl Default for TextInputBuilder {
    /// Same as [`TextInputBuilder::new`].
    fn default() -> (b: TextInputBuilder)
        ensures
            b.id is None && b.font_size == 14,
    {
        TextInputBuilder::new()
    }
}

} // verus!
