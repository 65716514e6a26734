//! Label widget: static text with alignment, optional multi-line layout and
//! greedy word wrapping.

use vstd::prelude::*;

use crate::events::Event;
use crate::geometry::{Color, Size};
use crate::geometry::Rect;
use crate::widgets::{BaseWidget, WidgetId, WidgetManager};

verus! {

/// Horizontal text alignment.
#[derive(Debug, Clone, Copy, PartialEq, Eq, Structural)]
pub enum TextAlign {
    Left,
    Center,
    Right,
}

impl Default for TextAlign {
    /// Text aligns left by default.
    fn default() -> (r: TextAlign)
        ensures
            r == TextAlign::Left,
    {
        TextAlign::Left
    }
}

/// Vertical text alignment.
#[derive(Debug, Clone, Copy, PartialEq, Eq, Structural)]
pub enum VerticalAlign {
    Top,
    Middle,
    Bottom,
}

impl Default for VerticalAlign {
    /// Text aligns to the top by default.
    fn default() -> (r: VerticalAlign)
        ensures
            r == VerticalAlign::Top,
    {
        VerticalAlign::Top
    }
}

/// The text split at newline characters; always at least one line.
pub open spec fn split_lines(s: Seq<char>) -> Seq<Seq<char>>
    decreases s.len(),
{
    if s.len() == 0 {
        seq![Seq::empty()]
    } else {
        let rest = split_lines(s.drop_last());
        if s.last() == '\n' {
            rest.push(Seq::empty())
        } else {
            rest.update(rest.len() - 1, rest.last().push(s.last()))
        }
    }
}

/// `split_lines` always yields at least one line.
pub proof fn lemma_split_lines_nonempty(s: Seq<char>)
    ensures
        split_lines(s).len() >= 1,
    decreases s.len(),
{
    if s.len() > 0 {
        lemma_split_lines_nonempty(s.drop_last());
    }
}

/// The length of the longest of the given lines.
pub open spec fn max_line_len(lines: Seq<Seq<char>>) -> nat
    decreases lines.len(),
{
    if lines.len() == 0 {
        0
    } else if lines.last().len() > max_line_len(lines.drop_last()) {
        lines.last().len()
    } else {
        max_line_len(lines.drop_last())
    }
}

/// Label widget for displaying text.
#[derive(Debug, Clone)]
pub struct Label {
    pub base: BaseWidget,
    pub text: String,
    pub text_color: Color,
    pub font_size: u32,
    pub text_align: TextAlign,
    pub vertical_align: VerticalAlign,
    pub word_wrap: bool,
    pub multiline: bool,
}

impl Label {
    /// Create a new label with the given text: black, 14-pixel, top-left
    /// aligned, single line.
    pub fn new(id: WidgetId, text: String) -> (l: Label)
        ensures
            l.base == BaseWidget::spec_new(id),
            l.text == text,
            l.text_color == (Color { r: 0, g: 0, b: 0, a: 255 }),
            l.font_size == 14,
            l.text_align == TextAlign::Left,
            l.vertical_align == VerticalAlign::Top,
            !l.word_wrap && !l.multiline,
    {
        Label {
            base: BaseWidget::new(id),
            text,
            text_color: Color::black(),
            font_size: 14,
            text_align: TextAlign::Left,
            vertical_align: VerticalAlign::Top,
            word_wrap: false,
            multiline: false,
        }
    }

    /// Replace the label text.
    pub fn set_text(&mut self, text: String)
        ensures
            *final (self) == (Label { text, ..*old(self) }),
    {
        self.text = text;
    }

    /// The label text.
    pub fn text(&self) -> (r: &str)
        ensures
            r@ == self.text@,
    {
        self.text.as_str()
    }

    /// Set the text color.
    pub fn set_text_color(&mut self, color: Color)
        ensures
            *final (self) == (Label { text_color: color, ..*old(self) }),
    {
        self.text_color = color;
    }

    /// The text color.
    pub fn text_color(&self) -> (r: Color)
        ensures
            r == self.text_color,
    {
        self.text_color
    }

    /// Set the font size in pixels; at least one.
    pub fn set_font_size(&mut self, size: u32)
        ensures
            *final (self) == (Label {
                font_size: if size >= 1 {
                    size
                } else {
                    1
                },
                ..*old(self)
            }),
    {
        self.font_size = if size >= 1 {
            size
        } else {
            1
        };
    }

    /// The font size in pixels.
    pub fn font_size(&self) -> (r: u32)
        ensures
            r == self.font_size,
    {
        self.font_size
    }

    /// Set the horizontal alignment.
    pub fn set_text_align(&mut self, align: TextAlign)
        ensures
            *final (self) == (Label { text_align: align, ..*old(self) }),
    {
        self.text_align = align;
    }

    /// The horizontal alignment.
    pub fn text_align(&self) -> (r: TextAlign)
        ensures
            r == self.text_align,
    {
        self.text_align
    }

    /// Set the vertical alignment.
    pub fn set_vertical_align(&mut self, align: VerticalAlign)
        ensures
            *final (self) == (Label { vertical_align: align, ..*old(self) }),
    {
        self.vertical_align = align;
    }

    /// The vertical alignment.
    pub fn vertical_align(&self) -> (r: VerticalAlign)
        ensures
            r == self.vertical_align,
    {
        self.vertical_align
    }

    /// Enable or disable word wrapping.
    pub fn set_word_wrap(&mut self, wrap: bool)
        ensures
            *final (self) == (Label { word_wrap: wrap, ..*old(self) }),
    {
        self.word_wrap = wrap;
    }

    /// Whether word wrapping is enabled.
    pub fn word_wrap(&self) -> (r: bool)
        ensures
            r == self.word_wrap,
    {
        self.word_wrap
    }

    /// Enable or disable multi-line layout.
    pub fn set_multiline(&mut self, multiline: bool)
        ensures
            *final (self) == (Label { multiline, ..*old(self) }),
    {
        self.multiline = multiline;
    }

    /// Whether multi-line layout is enabled.
    pub fn multiline(&self) -> (r: bool)
        ensures
            r == self.multiline,
    {
        self.multiline
    }

    /// The width of one character cell for this font size, at least one
    /// pixel (roughly three fifths of the font size).
    pub open spec fn spec_char_width(&self) -> int {
        if 3 * (self.font_size as int) / 5 >= 1 {
            3 * (self.font_size as int) / 5
        } else {
            1
        }
    }

    /// The height of one text line for this font size (six fifths of the
    /// font size).
    pub open spec fn spec_line_height(&self) -> int {
        6 * (self.font_size as int) / 5
    }

    /// Estimate the pixel size of a piece of text: character count times the
    /// character cell width, one line high; in multi-line mode, the longest
    /// line times the cell width, and one line height per line. Results are
    /// clamped to `i32`.
    pub fn estimate_text_size(&self, text: &str) -> (s: Size)
        requires
            text@.len() < usize::MAX,
        ensures
            ({
                let cw = self.spec_char_width();
                let lh = self.spec_line_height();
                let w: int = if self.multiline {
                    max_line_len(split_lines(text@)) * cw
                } else {
                    text@.len() * cw
                };
                let h: int = if self.multiline {
                    split_lines(text@).len() * lh
                } else {
                    lh
                };
                &&& s.width == if w <= i32::MAX {
                    w
                } else {
                    i32::MAX as int
                }
                &&& s.height == if h <= i32::MAX {
                    h
                } else {
                    i32::MAX as int
                }
            }),
    {
        let char_width: u64 = if 3 * (self.font_size as u64) / 5 >= 1 {
            3 * (self.font_size as u64) / 5
        } else {
            1
        };
        let line_height: u64 = 6 * (self.font_size as u64) / 5;
        if self.multiline {
            let (line_count, longest) = count_and_longest_line(text);
            let width = clamp_mul_to_i32(longest, char_width);
            let height = clamp_mul_to_i32(line_count, line_height);
            Size { width, height }
        } else {
            let width = clamp_mul_to_i32(text.unicode_len(), char_width);
            let height = clamp_mul_to_i32(1, line_height);
            Size { width, height }
        }
    }

    /// The size the label asks for: the estimated text size plus a small
    /// padding on each axis.
    pub fn preferred_size(&self) -> (s: Size)
        requires
            self.text@.len() < usize::MAX,
        ensures
            ({
                let est_w: int = if self.multiline {
                    max_line_len(split_lines(self.text@)) * self.spec_char_width()
                } else {
                    self.text@.len() * self.spec_char_width()
                };
                let est_h: int = if self.multiline {
                    split_lines(self.text@).len() * self.spec_line_height()
                } else {
                    self.spec_line_height()
                };
                let cw = if est_w <= i32::MAX {
                    est_w
                } else {
                    i32::MAX as int
                };
                let ch = if est_h <= i32::MAX {
                    est_h
                } else {
                    i32::MAX as int
                };
                &&& s.width == clamp_add_4(cw)
                &&& s.height == clamp_add_4(ch)
            }),
    {
        let est = self.estimate_text_size(self.text.as_str());
        Size {
            width: if est.width <= i32::MAX - 4 {
                est.width + 4
            } else {
                i32::MAX
            },
            height: if est.height <= i32::MAX - 4 {
                est.height + 4
            } else {
                i32::MAX
            },
        }
    }

    /// A label never consumes events.
    pub fn handle_event(&mut self, event: &Event) -> (r: Result<bool, crate::error::Error>)
        ensures
            *final (self) == *old(self),
            r matches Ok(consumed) && !consumed,
    {
        let _ = event;
        Ok(false)
    }

    /// Per-frame update; a label has no time-driven state.
    pub fn update(&mut self, delta_nanos: u64) -> (r: Result<(), crate::error::Error>)
        ensures
            *final (self) == *old(self),
            r is Ok,
    {
        let _ = delta_nanos;
        Ok(())
    }
}

/// Four more, clamped to `i32::MAX`.
pub open spec fn clamp_add_4(x: int) -> int {
    if x <= i32::MAX - 4 {
        x + 4
    } else {
        i32::MAX as int
    }
}

/// `a * b` clamped to `i32::MAX`.
fn clamp_mul_to_i32(a: usize, b: u64) -> (r: i32)
    ensures
        a * b <= i32::MAX ==> r == a * b,
        a * b > i32::MAX ==> r == i32::MAX,
{
    if a == 0 || b == 0 {
        return 0;
    }
    if a > i32::MAX as usize || b > i32::MAX as u64 {
        proof {
            assert(a * b > i32::MAX) by (nonlinear_arith)
                requires
                    a >= 1,
                    b >= 1,
                    a > i32::MAX || b > i32::MAX,
            ;
        }
        return i32::MAX;
    }
    proof {
        assert(a * b <= 0x7fffffffu64 * 0x7fffffffu64) by (nonlinear_arith)
            requires
                1 <= a <= 0x7fffffff,
                1 <= b <= 0x7fffffff,
        ;
    }
    let p: u64 = (a as u64) * b;
    if p > i32::MAX as u64 {
        i32::MAX
    } else {
        p as i32
    }
}

/// Count the lines of `text` and measure the longest, in characters.
fn count_and_longest_line(text: &str) -> (r: (usize, usize))
    requires
        text@.len() < usize::MAX,
    ensures
        r.0 == split_lines(text@).len(),
        r.1 == max_line_len(split_lines(text@)),
{
    let n = text.unicode_len();
    let mut count: usize = 1;
    let mut cur: usize = 0;
    let mut longest: usize = 0;
    let mut i: usize = 0;
    proof {
        assert(text@.take(0) =~= Seq::<char>::empty());
    }
    while i < n
        invariant
            n == text@.len(),
            n < usize::MAX,
            i <= n,
            count == split_lines(text@.take(i as int)).len(),
            cur == split_lines(text@.take(i as int)).last().len(),
            longest == max_line_len(split_lines(text@.take(i as int)).drop_last()),
            count >= 1,
            cur <= i,
            count <= i + 1,
            longest <= i,
        decreases n - i,
    {
        let c = text.get_char(i);
        proof {
            assert(text@.take(i + 1).drop_last() =~= text@.take(i as int));
            assert(text@.take(i + 1).last() == text@[i as int]);
        }
        if c == '\n' {
            if cur > longest {
                longest = cur;
            }
            count += 1;
            cur = 0;
            proof {
                let prev = split_lines(text@.take(i as int));
                let now = split_lines(text@.take(i + 1));
                assert(now == prev.push(Seq::<char>::empty()));
                assert(now.drop_last() =~= prev);
                assert(max_line_len(now.drop_last()) == if prev.last().len() > max_line_len(
                    prev.drop_last(),
                ) {
                    prev.last().len()
                } else {
                    max_line_len(prev.drop_last())
                });
            }
        } else {
            cur += 1;
            proof {
                let prev = split_lines(text@.take(i as int));
                let now = split_lines(text@.take(i + 1));
                lemma_split_lines_nonempty(text@.take(i as int));
                assert(now == prev.update(prev.len() - 1, prev.last().push(text@[i as int])));
                assert(now.last() == prev.last().push(text@[i as int]));
                assert(now.drop_last() =~= prev.drop_last());
            }
        }
        i += 1;
    }
    proof {
        assert(text@.take(n as int) =~= text@);
        let all = split_lines(text@);
        lemma_split_lines_nonempty(text@);
        assert(max_line_len(all) == if all.last().len() > max_line_len(all.drop_last()) {
            all.last().len()
        } else {
            max_line_len(all.drop_last())
        });
    }
    if cur > longest {
        longest = cur;
    }
    (count, longest)
}

} // verus!

verus! {

/// Builder for creating labels.
pub struct LabelBuilder {
    pub id: Option<WidgetId>,
    pub bounds: Option<Rect>,
    pub visible: bool,
    pub enabled: bool,
    pub background_color: Option<Color>,
    pub border_color: Option<Color>,
    pub border_width: i32,
    pub text: String,
    pub text_color: Color,
    pub font_size: u32,
    pub text_align: TextAlign,
    pub vertical_align: VerticalAlign,
    pub word_wrap: bool,
    pub multiline: bool,
}

impl LabelBuilder {
    /// Start from the default label: empty black 14-pixel text, top-left
    /// aligned, single line.
    pub fn new() -> (b: LabelBuilder)
        ensures
            b.id is None,
            b.bounds is None,
            b.visible && b.enabled,
            b.background_color is None,
            b.border_color is None,
            b.border_width == 0,
            b.text@ == Seq::<char>::empty(),
            b.text_color == (Color { r: 0, g: 0, b: 0, a: 255 }),
            b.font_size == 14,
            b.text_align == TextAlign::Left,
            b.vertical_align == VerticalAlign::Top,
            !b.word_wrap && !b.multiline,
    {
        LabelBuilder {
            id: None,
            bounds: None,
            visible: true,
            enabled: true,
            background_color: None,
            border_color: None,
            border_width: 0,
            text: String::new(),
            text_color: Color::black(),
            font_size: 14,
            text_align: TextAlign::Left,
            vertical_align: VerticalAlign::Top,
            word_wrap: false,
            multiline: false,
        }
    }

    /// Set the label text.
    pub fn text(self, text: &str) -> (b: LabelBuilder)
        ensures
            b.text@ == text@,
            b == (LabelBuilder { text: b.text, ..self }),
    {
        LabelBuilder { text: text.to_owned(), ..self }
    }

    /// Set the text color.
    pub fn text_color(self, color: Color) -> (b: LabelBuilder)
        ensures
            b == (LabelBuilder { text_color: color, ..self }),
    {
        LabelBuilder { text_color: color, ..self }
    }

    /// Set the font size in pixels; at least one.
    pub fn font_size(self, size: u32) -> (b: LabelBuilder)
        ensures
            b == (LabelBuilder {
                font_size: if size >= 1 {
                    size
                } else {
                    1
                },
                ..self
            }),
    {
        LabelBuilder {
            font_size: if size >= 1 {
                size
            } else {
                1
            },
            ..self
        }
    }

    /// Set the horizontal alignment.
    pub fn text_align(self, align: TextAlign) -> (b: LabelBuilder)
        ensures
            b == (LabelBuilder { text_align: align, ..self }),
    {
        LabelBuilder { text_align: align, ..self }
    }

    /// Set the vertical alignment.
    pub fn vertical_align(self, align: VerticalAlign) -> (b: LabelBuilder)
        ensures
            b == (LabelBuilder { vertical_align: align, ..self }),
    {
        LabelBuilder { vertical_align: align, ..self }
    }

    /// Enable or disable word wrapping.
    pub fn word_wrap(self, wrap: bool) -> (b: LabelBuilder)
        ensures
            b == (LabelBuilder { word_wrap: wrap, ..self }),
    {
        LabelBuilder { word_wrap: wrap, ..self }
    }

    /// Enable or disable multi-line layout.
    pub fn multiline(self, multiline: bool) -> (b: LabelBuilder)
        ensures
            b == (LabelBuilder { multiline, ..self }),
    {
        LabelBuilder { multiline, ..self }
    }

    /// Use a fixed identifier instead of one from the manager.
    pub fn id(self, id: WidgetId) -> (b: LabelBuilder)
        ensures
            b == (LabelBuilder { id: Some(id), ..self }),
    {
        LabelBuilder { id: Some(id), ..self }
    }

    /// Set the bounds.
    pub fn bounds(self, bounds: Rect) -> (b: LabelBuilder)
        ensures
            b == (LabelBuilder { bounds: Some(bounds), ..self }),
    {
        LabelBuilder { bounds: Some(bounds), ..self }
    }

    /// Set the position, keeping the size set so far (or the default size).
    pub fn position(self, x: i32, y: i32) -> (b: LabelBuilder)
        ensures
            b == (LabelBuilder {
                bounds: Some(
                    match self.bounds {
                        Some(r) => Rect { x, y, ..r },
                        None => Rect { x, y, width: 100, height: 30 },
                    },
                ),
                ..self
            }),
    {
        let bounds = match self.bounds {
            Some(r) => Rect { x, y, ..r },
            None => Rect { x, y, width: 100, height: 30 },
        };
        LabelBuilder { bounds: Some(bounds), ..self }
    }

    /// Set the size, keeping the position set so far (or the origin).
    pub fn size(self, width: i32, height: i32) -> (b: LabelBuilder)
        ensures
            b == (LabelBuilder {
                bounds: Some(
                    match self.bounds {
                        Some(r) => Rect { width, height, ..r },
                        None => Rect { x: 0, y: 0, width, height },
                    },
                ),
                ..self
            }),
    {
        let bounds = match self.bounds {
            Some(r) => Rect { width, height, ..r },
            None => Rect { x: 0, y: 0, width, height },
        };
        LabelBuilder { bounds: Some(bounds), ..self }
    }

    /// Set the initial visibility.
    pub fn visible(self, visible: bool) -> (b: LabelBuilder)
        ensures
            b == (LabelBuilder { visible, ..self }),
    {
        LabelBuilder { visible, ..self }
    }

    /// Set the initial enabled state.
    pub fn enabled(self, enabled: bool) -> (b: LabelBuilder)
        ensures
            b == (LabelBuilder { enabled, ..self }),
    {
        LabelBuilder { enabled, ..self }
    }

    /// Set the background color.
    pub fn background_color(self, color: Color) -> (b: LabelBuilder)
        ensures
            b == (LabelBuilder { background_color: Some(color), ..self }),
    {
        LabelBuilder { background_color: Some(color), ..self }
    }

    /// Set the border color and width.
    pub fn border(self, color: Color, width: i32) -> (b: LabelBuilder)
        ensures
            b == (LabelBuilder { border_color: Some(color), border_width: width, ..self }),
    {
        LabelBuilder { border_color: Some(color), border_width: width, ..self }
    }

    /// The base state this builder produces, once the identifier is known.
    pub open spec fn spec_base(self, id: WidgetId) -> BaseWidget {
        BaseWidget {
            id,
            bounds: match self.bounds {
                Some(r) => r,
                None => Rect { x: 0, y: 0, width: 100, height: 30 },
            },
            visible: self.visible,
            enabled: self.enabled,
            focused: false,
            background_color: self.background_color,
            border_color: self.border_color,
            border_width: self.border_width,
        }
    }

    /// The identifier the built widget will carry: the fixed one if set,
    /// else the manager's next.
    pub open spec fn spec_built_id(self, next: WidgetId) -> WidgetId {
        match self.id {
            Some(id) => id,
            None => next,
        }
    }

    /// Resolve the identifier, drawing one from the manager when none was
    /// fixed, and produce the base state.
    fn take_base(self, manager: &mut WidgetManager) -> (r: (BaseWidget, LabelBuilder))
        requires
            old(manager).next_id < u64::MAX,
        ensures
            r.0 == self.spec_base(self.spec_built_id(old(manager).next_id)),
            r.1 == self,
            final (manager).widgets@ == old(manager).widgets@,
            final (manager).focused_widget == old(manager).focused_widget,
            final (manager).hovered_widget == old(manager).hovered_widget,
    {
        let id = match self.id {
            Some(id) => id,
            None => manager.next_id(),
        };
        let bounds = match self.bounds {
            Some(r) => r,
            None => Rect { x: 0, y: 0, width: 100, height: 30 },
        };
        let mut base = BaseWidget::new(id);
        base.set_bounds(bounds);
        base.set_visible(self.visible);
        base.set_enabled(self.enabled);
        base.set_background_color(self.background_color);
        base.set_border(self.border_color, self.border_width);
        (base, self)
    }

    /// Build the label, drawing an identifier from the manager when none was
    /// fixed.
    pub fn build(self, manager: &mut WidgetManager) -> (l: Label)
        requires
            old(manager).next_id < u64::MAX,
        ensures
            l.base == self.spec_base(self.spec_built_id(old(manager).next_id)),
            l.text == self.text,
            l.text_color == self.text_color,
            l.font_size == self.font_size,
            l.text_align == self.text_align,
            l.vertical_align == self.vertical_align,
            l.word_wrap == self.word_wrap,
            l.multiline == self.multiline,
            final (manager).widgets@ == old(manager).widgets@,
    {
        let (base, parts) = self.take_base(manager);
        Label {
            base,
            text: parts.text,
            text_color: parts.text_color,
            font_size: parts.font_size,
            text_align: parts.text_align,
            vertical_align: parts.vertical_align,
            word_wrap: parts.word_wrap,
            multiline: parts.multiline,
        }
    }
}

impl Default for LabelBuilder {
    /// Same as [`LabelBuilder::new`].
    fn default() -> (b: LabelBuilder)
        ensures
            b.id is None && b.font_size == 14,
    {
        LabelBuilder::new()
    }
}

} // verus!

verus! {

/// The character sequences of a vector of strings.
pub open spec fn views_of(v: Seq<String>) -> Seq<Seq<char>> {
    v.map_values(|s: String| s@)
}

/// Whether the character separates words when wrapping.
pub open spec fn is_space_char(c: char) -> bool {
    c == ' ' || c == '\t' || c == '\n' || c == '\r'
}

/// The whitespace-separated words of `s` (given the partial word read so
/// far): runs of separators collapse, and leading or trailing separators
/// produce no empty words.
pub open spec fn split_words(s: Seq<char>, cur: Seq<char>) -> Seq<Seq<char>>
    decreases s.len(),
{
    if s.len() == 0 {
        if cur.len() > 0 {
            seq![cur]
        } else {
            Seq::empty()
        }
    } else if is_space_char(s[0]) {
        (if cur.len() > 0 {
            seq![cur]
        } else {
            Seq::empty()
        }) + split_words(s.skip(1), Seq::empty())
    } else {
        split_words(s.skip(1), cur.push(s[0]))
    }
}

/// Greedy line filling: words are appended to the line under construction,
/// separated by one space, as long as the line stays within `max_chars`;
/// a word that does not fit starts a new line (an overlong single word
/// stands on its own line, unbroken).
pub open spec fn greedy_fill(words: Seq<Seq<char>>, cur: Seq<char>, max_chars: nat) -> Seq<
    Seq<char>,
>
    decreases words.len(),
{
    if words.len() == 0 {
        if cur.len() > 0 {
            seq![cur]
        } else {
            Seq::empty()
        }
    } else {
        let w = words[0];
        if cur.len() == 0 {
            greedy_fill(words.skip(1), w, max_chars)
        } else if cur.len() + 1 + w.len() <= max_chars {
            greedy_fill(words.skip(1), cur + seq![' '] + w, max_chars)
        } else {
            seq![cur] + greedy_fill(words.skip(1), w, max_chars)
        }
    }
}

/// One source line wrapped: kept whole when it fits, else refilled greedily
/// from its words.
pub open spec fn wrap_one_line(line: Seq<char>, max_chars: nat) -> Seq<Seq<char>> {
    if line.len() <= max_chars {
        seq![line]
    } else {
        greedy_fill(split_words(line, Seq::empty()), Seq::empty(), max_chars)
    }
}

/// Every source line wrapped, in order.
pub open spec fn wrap_all_lines(lines: Seq<Seq<char>>, max_chars: nat) -> Seq<Seq<char>>
    decreases lines.len(),
{
    if lines.len() == 0 {
        Seq::empty()
    } else {
        wrap_all_lines(lines.drop_last(), max_chars) + wrap_one_line(lines.last(), max_chars)
    }
}

/// What wrapping a whole text yields: without word wrap, the text itself
/// (split at newlines when multi-line); with word wrap and room for at
/// least one character per line, every source line refilled greedily.
pub open spec fn spec_wrap_text(
    text: Seq<char>,
    word_wrap: bool,
    multiline: bool,
    max_chars: nat,
) -> Seq<Seq<char>> {
    if !word_wrap {
        if multiline {
            split_lines(text)
        } else {
            seq![text]
        }
    } else if max_chars == 0 {
        seq![text]
    } else {
        if multiline {
            wrap_all_lines(split_lines(text), max_chars)
        } else {
            wrap_one_line(text, max_chars)
        }
    }
}

/// Split the text at newline characters.
fn split_lines_exec(text: &str) -> (r: Vec<String>)
    requires
        text@.len() < usize::MAX,
    ensures
        r@.len() == split_lines(text@).len(),
        forall|k: int| 0 <= k < r@.len() ==> (#[trigger] r@[k])@ == split_lines(text@)[k],
{
    let n = text.unicode_len();
    let mut out: Vec<String> = Vec::new();
    let mut cur = String::new();
    let mut i: usize = 0;
    proof {
        assert(text@.take(0) =~~= Seq::<char>::empty());
    }
    while i < n
        invariant
            n == text@.len(),
            n < usize::MAX,
            i <= n,
            split_lines(text@.take(i as int)) =~~= views_of(out@).push(cur@),
            out@.len() + 1 == split_lines(text@.take(i as int)).len(),
        decreases n - i,
    {
        let c = text.get_char(i);
        proof {
            assert(text@.take(i + 1).drop_last() =~~= text@.take(i as int));
            assert(text@.take(i + 1).last() == text@[i as int]);
        }
        if c == '\n' {
            out.push(cur);
            cur = String::new();
            proof {
                assert(views_of(out@) =~~= views_of(out@.drop_last()).push(out@.last()@));
                assert(split_lines(text@.take(i + 1)) =~~= views_of(out@).push(
                    cur@,
                ));
            }
        } else {
            crate::strutil::push_char(&mut cur, c);
            proof {
                let prev = split_lines(text@.take(i as int));
                lemma_split_lines_nonempty(text@.take(i as int));
                assert(split_lines(text@.take(i + 1)) =~~= prev.update(
                    prev.len() - 1,
                    prev.last().push(text@[i as int]),
                ));
                assert(split_lines(text@.take(i + 1)) =~~= views_of(out@).push(
                    cur@,
                ));
            }
        }
        i += 1;
    }
    proof {
        assert(text@.take(n as int) =~~= text@);
    }
    out.push(cur);
    proof {
        assert(views_of(out@) =~~= views_of(out@.drop_last()).push(out@.last()@));
    }
    out
}

/// Split one line into its whitespace-separated words.
fn split_words_exec(line: &str) -> (r: Vec<String>)
    ensures
        views_of(r@) == split_words(line@, Seq::<char>::empty()),
{
    let n = line.unicode_len();
    let mut out: Vec<String> = Vec::new();
    let mut cur = String::new();
    let mut i: usize = 0;
    proof {
        assert(line@.skip(0) =~= line@);
        assert(views_of(out@) + split_words(line@, Seq::<char>::empty()) =~~= split_words(
            line@,
            Seq::<char>::empty(),
        ));
    }
    #[verifier::loop_isolation(false)]
    while i < n
        invariant
            i <= n,
            split_words(line@, Seq::<char>::empty()) == views_of(out@)
                + split_words(line@.skip(i as int), cur@),
        decreases n - i,
    {
        let ghost pre_out_views = views_of(out@);
        let ghost pre_cur = cur@;
        let c = line.get_char(i);
        proof {
            assert(line@.skip(i as int)[0] == line@[i as int]);
            assert(line@.skip(i as int).skip(1) =~= line@.skip(i + 1));
        }
        if c == ' ' || c == '\t' || c == '\n' || c == '\r' {
            let ghost emitted: Seq<Seq<char>> = if pre_cur.len() > 0 {
                seq![pre_cur]
            } else {
                Seq::empty()
            };
            proof {
                assert(split_words(line@.skip(i as int), pre_cur) == emitted + split_words(
                    line@.skip(i + 1),
                    Seq::<char>::empty(),
                ));
            }
            if cur.as_str().unicode_len() > 0 {
                out.push(cur);
                cur = String::new();
                proof {
                assert(views_of(out@) =~~= pre_out_views + emitted);
                }
            } else {
                proof {
                    assert(cur@ =~= Seq::<char>::empty());
                    assert(views_of(out@) =~~= pre_out_views + emitted);
                }
            }
            proof {
                assert((pre_out_views + emitted) + split_words(
                    line@.skip(i + 1),
                    Seq::<char>::empty(),
                ) =~~= pre_out_views + (emitted + split_words(
                    line@.skip(i + 1),
                    Seq::<char>::empty(),
                )));
                assert(views_of(out@) + split_words(
                    line@.skip(i + 1),
                    Seq::<char>::empty(),
                ) =~~= (pre_out_views + emitted) + split_words(
                    line@.skip(i + 1),
                    Seq::<char>::empty(),
                ));
            }
        } else {
            crate::strutil::push_char(&mut cur, c);
            proof {
                assert(split_words(line@.skip(i as int), pre_cur) == split_words(
                    line@.skip(i + 1),
                    pre_cur.push(line@[i as int]),
                ));
                assert(cur@ == pre_cur.push(line@[i as int]));
            }
        }
        proof {
            reveal_with_fuel(split_words, 3);
            assert(split_words(line@, Seq::<char>::empty()) == views_of(out@)
                + split_words(line@.skip(i + 1), cur@));
        }
        i += 1;
    }
    proof {
        assert(line@.skip(n as int) =~= Seq::<char>::empty());
    }
    let tail_len = cur.as_str().unicode_len();
    let ghost pre_out_views = views_of(out@);
    let ghost tail: Seq<Seq<char>> = if cur@.len() > 0 {
        seq![cur@]
    } else {
        Seq::empty()
    };
    proof {
        assert(split_words(Seq::<char>::empty(), cur@) == tail);
    }
    if tail_len > 0 {
        out.push(cur);
    }
    proof {
                assert(views_of(out@) =~~= pre_out_views + tail);
    }
    out
}

/// Refill one overlong line greedily from its words.
fn greedy_fill_exec(words: &Vec<String>, max_chars: usize) -> (r: Vec<String>)
    ensures
        views_of(r@) == greedy_fill(
            views_of(words@),
            Seq::<char>::empty(),
            max_chars as nat,
        ),
{
    let ghost all: Seq<Seq<char>> = views_of(words@);
    let mut out: Vec<String> = Vec::new();
    let mut cur = String::new();
    let n = words.len();
    let mut j: usize = 0;
    proof {
        assert(all.skip(0) =~= all);
                assert(views_of(out@) + greedy_fill(all, Seq::<char>::empty(), max_chars as nat)
            =~~= greedy_fill(all, Seq::<char>::empty(), max_chars as nat));
    }
    #[verifier::loop_isolation(false)]
    while j < n
        invariant
            j <= n,
            greedy_fill(all, Seq::<char>::empty(), max_chars as nat) == views_of(out@) + greedy_fill(all.skip(j as int), cur@, max_chars as nat),
        decreases n - j,
    {
        let ghost pre_out_views = views_of(out@);
        let ghost pre_cur = cur@;
        let w = words[j].clone();
        proof {
            assert(all.skip(j as int)[0] == all[j as int]);
            assert(all[j as int] == words@[j as int]@);
            assert(all.skip(j as int).skip(1) =~= all.skip(j + 1));
        }
        let cur_len = cur.as_str().unicode_len();
        let w_len = w.as_str().unicode_len();
        if cur_len == 0 {
            cur = w;
            proof {
                assert(greedy_fill(all.skip(j as int), pre_cur, max_chars as nat) == greedy_fill(
                    all.skip(j + 1),
                    cur@,
                    max_chars as nat,
                ));
            }
        } else if cur_len < max_chars && w_len <= max_chars - cur_len - 1 {
            cur.append(" ");
            cur.append(w.as_str());
            proof {
                reveal_strlit(" ");
                assert(" "@ =~= seq![' ']);
                assert(cur@ =~= pre_cur + seq![' '] + all[j as int]);
                assert(greedy_fill(all.skip(j as int), pre_cur, max_chars as nat) == greedy_fill(
                    all.skip(j + 1),
                    pre_cur + seq![' '] + all[j as int],
                    max_chars as nat,
                ));
            }
        } else {
            out.push(cur);
            cur = w;
            proof {
                assert(views_of(out@) =~~= pre_out_views + seq![pre_cur]);
                assert(greedy_fill(all.skip(j as int), pre_cur, max_chars as nat) == seq![pre_cur]
                    + greedy_fill(all.skip(j + 1), cur@, max_chars as nat));
                assert((pre_out_views + seq![pre_cur]) + greedy_fill(
                    all.skip(j + 1),
                    cur@,
                    max_chars as nat,
                ) =~~= pre_out_views + (seq![pre_cur] + greedy_fill(
                    all.skip(j + 1),
                    cur@,
                    max_chars as nat,
                )));
            }
        }
        proof {
            assert(greedy_fill(all, Seq::<char>::empty(), max_chars as nat) == views_of(out@) + greedy_fill(all.skip(j + 1), cur@, max_chars as nat));
        }
        j += 1;
    }
    proof {
        assert(all.skip(n as int) =~= Seq::<Seq<char>>::empty());
    }
    let tail_len = cur.as_str().unicode_len();
    let ghost pre_out_views = views_of(out@);
    let ghost tail: Seq<Seq<char>> = if cur@.len() > 0 {
        seq![cur@]
    } else {
        Seq::empty()
    };
    proof {
        assert(greedy_fill(Seq::<Seq<char>>::empty(), cur@, max_chars as nat) == tail);
    }
    if tail_len > 0 {
        out.push(cur);
    }
    proof {
                assert(views_of(out@) =~~= pre_out_views + tail);
    }
    out
}

impl Label {
    /// Wrap text to fit within the given width, as [`spec_wrap_text`]
    /// describes: the width is divided by this label's character cell width
    /// to get the characters available per line.
    pub fn wrap_text(&self, text: &str, max_width: i32) -> (r: Vec<String>)
        requires
            text@.len() < usize::MAX,
        ensures
            ({
                let max_chars: nat = if max_width <= 0 {
                    0
                } else {
                    ((max_width as int) / self.spec_char_width()) as nat
                };
                &&& views_of(r@) == spec_wrap_text(
                    text@,
                    self.word_wrap,
                    self.multiline,
                    max_chars,
                )
            }),
    {
        let cw: u64 = {
            let w = 3 * (self.font_size as u64) / 5;
            if w >= 1 {
                w
            } else {
                1
            }
        };
        let max_chars: usize = if max_width <= 0 {
            0
        } else {
            ((max_width as u64) / cw) as usize
        };
        if !self.word_wrap {
            if self.multiline {
                let r = split_lines_exec(text);
                proof {
                    assert(views_of(r@) =~~= split_lines(text@));
                }
                return r;
            } else {
                let mut out: Vec<String> = Vec::new();
                out.push(text.to_owned());
                proof {
                assert(views_of(out@) =~~= seq![text@]);
                }
                return out;
            }
        }
        if max_chars == 0 {
            let mut out: Vec<String> = Vec::new();
            out.push(text.to_owned());
            proof {
                assert(views_of(out@) =~~= seq![text@]);
            }
            return out;
        }
        let source_lines: Vec<String> = if self.multiline {
            split_lines_exec(text)
        } else {
            let mut one: Vec<String> = Vec::new();
            one.push(text.to_owned());
            one
        };
        let ghost lines_view: Seq<Seq<char>> = views_of(source_lines@);
        proof {
            if self.multiline {
                assert(lines_view =~~= split_lines(text@));
            } else {
                assert(lines_view =~~= seq![text@]);
            }
        }
        let mut out: Vec<String> = Vec::new();
        let mut li: usize = 0;
        proof {
            assert(lines_view.take(0) =~~= Seq::<Seq<char>>::empty());
        }
        #[verifier::loop_isolation(false)]
        while li < source_lines.len()
            invariant
                li <= source_lines@.len(),
                lines_view == views_of(source_lines@),views_of(out@) =~~= wrap_all_lines(
                    lines_view.take(li as int),
                    max_chars as nat,
                ),
            decreases source_lines@.len() - li,
        {
            proof {
                assert(lines_view.take(li + 1).drop_last() =~~= lines_view.take(li as int));
                assert(lines_view.take(li + 1).last() == lines_view[li as int]);
                assert(lines_view[li as int] == source_lines@[li as int]@);
            }
            let line = &source_lines[li];
            let line_len = line.as_str().unicode_len();
            let ghost before_out = out@;
            proof {
                assert(wrap_all_lines(lines_view.take(li + 1), max_chars as nat)
                    == wrap_all_lines(lines_view.take(li as int), max_chars as nat)
                    + wrap_one_line(lines_view[li as int], max_chars as nat));
            }
            if line_len <= max_chars {
                out.push(line.clone());
                proof {
                    assert(views_of(out@) =~~= views_of(before_out).push(line@));
                    assert(wrap_one_line(line@, max_chars as nat) == seq![line@]);
                    assert(views_of(before_out).push(line@) =~~= views_of(before_out) + seq![
                        line@,
                    ]);
                }
            } else {
                let words = split_words_exec(line.as_str());
                let filled = greedy_fill_exec(&words, max_chars);
                let ghost filled_view = views_of(filled@);
                let mut fi: usize = 0;
                #[verifier::loop_isolation(false)]
                while fi < filled.len()
                    invariant
                        fi <= filled@.len(),views_of(filled@) == filled_view,views_of(out@) =~~= views_of(before_out)
                            + filled_view.take(fi as int),
                    decreases filled@.len() - fi,
                {
                    proof {
                        assert(filled_view.take(fi + 1).drop_last() =~~= filled_view.take(
                            fi as int,
                        ));
                        assert(filled_view.take(fi + 1).last() == filled_view[fi as int]);
                        assert(filled_view[fi as int] == filled@[fi as int]@);
                    }
                    let ghost mid_out = out@;
                    out.push(filled[fi].clone());
                    proof {
                        assert(views_of(out@) =~~= views_of(mid_out).push(
                            filled_view[fi as int],
                        ));
                        assert(filled_view.take(fi + 1) =~~= filled_view.take(fi as int).push(
                            filled_view[fi as int],
                        ));
                        assert((views_of(before_out) + filled_view.take(fi as int)).push(
                            filled_view[fi as int],
                        ) =~~= views_of(before_out) + filled_view.take(fi + 1));
                    }
                    fi += 1;
                }
                proof {
                    assert(filled_view.take(filled_view.len() as int) =~~= filled_view);
                    assert(views_of(out@) =~~= views_of(before_out) + filled_view);
                    assert(wrap_one_line(lines_view[li as int], max_chars as nat) == greedy_fill(
                        split_words(lines_view[li as int], Seq::<char>::empty()),
                        Seq::<char>::empty(),
                        max_chars as nat,
                    ));
                }
            }
            li += 1;
        }
        proof {
            assert(lines_view.take(source_lines@.len() as int) =~~= lines_view);
            assert(max_chars as nat == (if max_width <= 0 {
                0
            } else {
                ((max_width as int) / self.spec_char_width()) as nat
            }));
            if self.multiline {
                assert(lines_view == split_lines(text@));
            } else {
                assert(lines_view =~~= seq![text@]);
                assert(wrap_all_lines(seq![text@], max_chars as nat) == wrap_all_lines(
                    seq![text@].drop_last(),
                    max_chars as nat,
                ) + wrap_one_line(text@, max_chars as nat));
                assert(seq![text@].drop_last() =~~= Seq::<Seq<char>>::empty());
                assert(Seq::<Seq<char>>::empty() + wrap_one_line(text@, max_chars as nat)
                    =~~= wrap_one_line(text@, max_chars as nat));
            }
        }
        out
    }
}

} // verus!
