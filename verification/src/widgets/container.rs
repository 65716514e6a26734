//! Container widget: a widget that owns child widgets and forwards events to
//! them in reverse paint order, reporting consumption to its parent.
//!
//! Child positions are managed by the embedding layer; the container itself
//! tracks layout preferences (direction, alignment, padding, spacing) as
//! plain state.

use vstd::prelude::*;

use crate::geometry::Rect;
use crate::widgets::{BaseWidget, Widget, WidgetId, WidgetManager};

verus! {

/// How a container arranges children: along an axis, or not at all.
#[derive(Debug, Clone, Copy, PartialEq, Eq, Structural)]
pub enum LayoutDirection {
    /// Arrange children horizontally (left to right).
    Horizontal,
    /// Arrange children vertically (top to bottom).
    Vertical,
    /// No automatic layout: children are positioned manually.
    Manual,
}

impl Default for LayoutDirection {
    /// Children are positioned manually by default.
    fn default() -> (r: LayoutDirection)
        ensures
            r == LayoutDirection::Manual,
    {
        LayoutDirection::Manual
    }
}

/// Alignment options for container children.
#[derive(Debug, Clone, Copy, PartialEq, Eq, Structural)]
pub enum Alignment {
    /// Align to start (left or top).
    Start,
    /// Center alignment.
    Center,
    /// Align to end (right or bottom).
    End,
    /// Stretch to fill available space.
    Stretch,
}

impl Default for Alignment {
    /// Children align to the start by default.
    fn default() -> (r: Alignment)
        ensures
            r == Alignment::Start,
    {
        Alignment::Start
    }
}

/// Padding around container content, in pixels.
#[derive(Debug, Clone, Copy, PartialEq, Eq, Structural)]
pub struct Padding {
    pub left: i32,
    pub top: i32,
    pub right: i32,
    pub bottom: i32,
}

impl Padding {
    /// The same padding on every side.
    pub fn uniform(padding: i32) -> (p: Padding)
        ensures
            p == (Padding { left: padding, top: padding, right: padding, bottom: padding }),
    {
        Padding { left: padding, top: padding, right: padding, bottom: padding }
    }

    /// Horizontal padding left and right, vertical padding top and bottom.
    pub fn symmetric(horizontal: i32, vertical: i32) -> (p: Padding)
        ensures
            p == (Padding {
                left: horizontal,
                top: vertical,
                right: horizontal,
                bottom: vertical,
            }),
    {
        Padding { left: horizontal, top: vertical, right: horizontal, bottom: vertical }
    }

    /// Padding with individual values.
    pub fn new(left: i32, top: i32, right: i32, bottom: i32) -> (p: Padding)
        ensures
            p == (Padding { left, top, right, bottom }),
    {
        Padding { left, top, right, bottom }
    }

    /// Total horizontal padding.
    pub fn horizontal(&self) -> (r: i64)
        ensures
            r == self.left + self.right,
    {
        self.left as i64 + self.right as i64
    }

    /// Total vertical padding.
    pub fn vertical(&self) -> (r: i64)
        ensures
            r == self.top + self.bottom,
    {
        self.top as i64 + self.bottom as i64
    }
}

impl Default for Padding {
    /// No padding.
    fn default() -> (p: Padding)
        ensures
            p == (Padding { left: 0, top: 0, right: 0, bottom: 0 }),
    {
        Padding { left: 0, top: 0, right: 0, bottom: 0 }
    }
}

/// Container widget managing a collection of child widgets.
#[derive(Debug)]
pub struct Container {
    pub base: BaseWidget,
    pub children: Vec<Widget>,
    pub layout_direction: LayoutDirection,
    pub main_axis_alignment: Alignment,
    pub cross_axis_alignment: Alignment,
    pub padding: Padding,
    pub spacing: i32,
    pub clip_children: bool,
}

/// Everything of a container except its children.
pub open spec fn container_fields_unchanged(pre: Container, post: Container) -> bool {
    &&& post.base == pre.base
    &&& post.layout_direction == pre.layout_direction
    &&& post.main_axis_alignment == pre.main_axis_alignment
    &&& post.cross_axis_alignment == pre.cross_axis_alignment
    &&& post.padding == pre.padding
    &&& post.spacing == pre.spacing
    &&& post.clip_children == pre.clip_children
}

impl Container {
    /// Create a new container with no children, manual layout, and no
    /// padding or spacing.
    pub fn new(id: WidgetId) -> (c: Container)
        ensures
            c.base == BaseWidget::spec_new(id),
            c.children@ == Seq::<Widget>::empty(),
            c.layout_direction == LayoutDirection::Manual,
            c.main_axis_alignment == Alignment::Start,
            c.cross_axis_alignment == Alignment::Start,
            c.padding == (Padding { left: 0, top: 0, right: 0, bottom: 0 }),
            c.spacing == 0,
            !c.clip_children,
    {
        Container {
            base: BaseWidget::new(id),
            children: Vec::new(),
            layout_direction: LayoutDirection::Manual,
            main_axis_alignment: Alignment::Start,
            cross_axis_alignment: Alignment::Start,
            padding: Padding { left: 0, top: 0, right: 0, bottom: 0 },
            spacing: 0,
            clip_children: false,
        }
    }

    /// Append a child widget (drawn on top of earlier children).
    pub fn add_child(&mut self, child: Widget)
        ensures
            final (self).children@ == old(self).children@.push(child),
            container_fields_unchanged(*old(self), *final (self)),
    {
        self.children.push(child);
    }

    /// Remove the first child with the given identifier and return it.
    pub fn remove_child(&mut self, child_id: WidgetId) -> (r: Option<Widget>)
        ensures
            container_fields_unchanged(*old(self), *final (self)),
            match r {
                Some(w) => exists|j: int|
                    {
                        &&& 0 <= j < old(self).children@.len()
                        &&& #[trigger] old(self).children@[j].spec_id() == child_id
                        &&& w == old(self).children@[j]
                        &&& (forall|k: int| 0 <= k < j ==> old(self).children@[k].spec_id() != child_id)
                        &&& final (self).children@ == old(self).children@.remove(j)
                    },
                None => {
                    &&& final (self).children@ == old(self).children@
                    &&& forall|k: int|
                        0 <= k < old(self).children@.len() ==> old(self).children@[k].spec_id()
                            != child_id
                },
            },
    {
        let mut i: usize = 0;
        while i < self.children.len()
            invariant
                *self == *old(self),
                i <= self.children@.len(),
                forall|k: int| 0 <= k < i ==> self.children@[k].spec_id() != child_id,
            decreases self.children@.len() - i,
        {
            if self.children[i].id() == child_id {
                let w = self.children.remove(i);
                return Some(w);
            }
            i += 1;
        }
        None
    }

    /// The number of children.
    pub fn child_count(&self) -> (r: usize)
        ensures
            r == self.children@.len(),
    {
        self.children.len()
    }

    /// Remove every child.
    pub fn clear_children(&mut self)
        ensures
            final (self).children@ == Seq::<Widget>::empty(),
            container_fields_unchanged(*old(self), *final (self)),
    {
        self.children.clear();
    }

    /// Set the layout direction.
    pub fn set_layout_direction(&mut self, direction: LayoutDirection)
        ensures
            *final (self) == (Container { layout_direction: direction, ..*old(self) }),
    {
        self.layout_direction = direction;
    }

    /// The layout direction.
    pub fn layout_direction(&self) -> (r: LayoutDirection)
        ensures
            r == self.layout_direction,
    {
        self.layout_direction
    }

    /// Set the main axis alignment.
    pub fn set_main_axis_alignment(&mut self, alignment: Alignment)
        ensures
            *final (self) == (Container { main_axis_alignment: alignment, ..*old(self) }),
    {
        self.main_axis_alignment = alignment;
    }

    /// Set the cross axis alignment.
    pub fn set_cross_axis_alignment(&mut self, alignment: Alignment)
        ensures
            *final (self) == (Container { cross_axis_alignment: alignment, ..*old(self) }),
    {
        self.cross_axis_alignment = alignment;
    }

    /// Set the padding.
    pub fn set_padding(&mut self, padding: Padding)
        ensures
            *final (self) == (Container { padding, ..*old(self) }),
    {
        self.padding = padding;
    }

    /// The padding.
    pub fn padding(&self) -> (r: Padding)
        ensures
            r == self.padding,
    {
        self.padding
    }

    /// Set the spacing between children; negative values clamp to zero.
    pub fn set_spacing(&mut self, spacing: i32)
        ensures
            *final (self) == (Container {
                spacing: if spacing >= 0 {
                    spacing
                } else {
                    0
                },
                ..*old(self)
            }),
    {
        self.spacing = if spacing >= 0 {
            spacing
        } else {
            0
        };
    }

    /// The spacing between children.
    pub fn spacing(&self) -> (r: i32)
        ensures
            r == self.spacing,
    {
        self.spacing
    }

    /// Set whether children are clipped to the container bounds when drawn.
    pub fn set_clip_children(&mut self, clip: bool)
        ensures
            *final (self) == (Container { clip_children: clip, ..*old(self) }),
    {
        self.clip_children = clip;
    }

    /// Whether children are clipped when drawn.
    pub fn clip_children(&self) -> (r: bool)
        ensures
            r == self.clip_children,
    {
        self.clip_children
    }

    /// The content area: the bounds inset by the padding on each side,
    /// computed without overflow in 64 bits and clamped to `i32`.
    pub fn content_area(&self) -> (r: Rect)
        ensures
            r.x == clamp_to_i32(self.base.bounds.x + self.padding.left),
            r.y == clamp_to_i32(self.base.bounds.y + self.padding.top),
            r.width == clamp_to_i32(
                self.base.bounds.width - self.padding.left - self.padding.right,
            ),
            r.height == clamp_to_i32(
                self.base.bounds.height - self.padding.top - self.padding.bottom,
            ),
    {
        let b = self.base.bounds;
        Rect {
            x: clamp_i64_to_i32(b.x as i64 + self.padding.left as i64),
            y: clamp_i64_to_i32(b.y as i64 + self.padding.top as i64),
            width: clamp_i64_to_i32(
                b.width as i64 - self.padding.left as i64 - self.padding.right as i64,
            ),
            height: clamp_i64_to_i32(
                b.height as i64 - self.padding.top as i64 - self.padding.bottom as i64,
            ),
        }
    }
}

/// A value clamped into the `i32` range.
pub open spec fn clamp_to_i32(x: int) -> int {
    if x > i32::MAX {
        i32::MAX as int
    } else if x < i32::MIN {
        i32::MIN as int
    } else {
        x
    }
}

/// Clamp a 64-bit value into the `i32` range.
fn clamp_i64_to_i32(x: i64) -> (r: i32)
    ensures
        r == clamp_to_i32(x as int),
{
    if x > i32::MAX as i64 {
        i32::MAX
    } else if x < i32::MIN as i64 {
        i32::MIN
    } else {
        x as i32
    }
}

} // verus!

verus! {

/// The smallest x coordinate among the children's bounds.
pub open spec fn min_child_x(s: Seq<Widget>) -> int
    decreases s.len(),
{
    if s.len() == 0 {
        i32::MAX as int
    } else {
        let m = min_child_x(s.drop_last());
        let v = s.last().spec_base().bounds.x as int;
        if v < m {
            v
        } else {
            m
        }
    }
}

/// The smallest y coordinate among the children's bounds.
pub open spec fn min_child_y(s: Seq<Widget>) -> int
    decreases s.len(),
{
    if s.len() == 0 {
        i32::MAX as int
    } else {
        let m = min_child_y(s.drop_last());
        let v = s.last().spec_base().bounds.y as int;
        if v < m {
            v
        } else {
            m
        }
    }
}

/// The largest right edge among the children's bounds.
pub open spec fn max_child_right(s: Seq<Widget>) -> int
    decreases s.len(),
{
    if s.len() == 0 {
        i32::MIN as int
    } else {
        let m = max_child_right(s.drop_last());
        let v = s.last().spec_base().bounds.x + s.last().spec_base().bounds.width;
        if v > m {
            v
        } else {
            m
        }
    }
}

/// The largest bottom edge among the children's bounds.
pub open spec fn max_child_bottom(s: Seq<Widget>) -> int
    decreases s.len(),
{
    if s.len() == 0 {
        i32::MIN as int
    } else {
        let m = max_child_bottom(s.drop_last());
        let v = s.last().spec_base().bounds.y + s.last().spec_base().bounds.height;
        if v > m {
            v
        } else {
            m
        }
    }
}

impl Container {
    /// The size the container asks for: a default square when empty, and
    /// otherwise the bounding box of its children's bounds plus the padding,
    /// clamped to `i32`.
    pub fn preferred_size(&self) -> (s: crate::geometry::Size)
        ensures
            self.children@.len() == 0 ==> s == (crate::geometry::Size { width: 100, height: 100 }),
            self.children@.len() > 0 ==> {
                &&& s.width == clamp_to_i32(
                    max_child_right(self.children@) - min_child_x(self.children@)
                        + self.padding.left + self.padding.right,
                )
                &&& s.height == clamp_to_i32(
                    max_child_bottom(self.children@) - min_child_y(self.children@)
                        + self.padding.top + self.padding.bottom,
                )
            },
    {
        let n = self.children.len();
        if n == 0 {
            return crate::geometry::Size { width: 100, height: 100 };
        }
        let mut min_x: i64 = i32::MAX as i64;
        let mut min_y: i64 = i32::MAX as i64;
        let mut max_r: i64 = i32::MIN as i64;
        let mut max_b: i64 = i32::MIN as i64;
        let mut i: usize = 0;
        proof {
            assert(self.children@.take(0) =~= Seq::<Widget>::empty());
        }
        while i < n
            invariant
                n == self.children@.len(),
                i <= n,
                min_x == min_child_x(self.children@.take(i as int)),
                min_y == min_child_y(self.children@.take(i as int)),
                max_r == max_child_right(self.children@.take(i as int)),
                max_b == max_child_bottom(self.children@.take(i as int)),
                i32::MIN <= min_x <= i32::MAX,
                i32::MIN <= min_y <= i32::MAX,
                i32::MIN <= max_r <= 2 * (i32::MAX as i64) || max_r == i32::MIN as i64,
                i32::MIN <= max_b <= 2 * (i32::MAX as i64) || max_b == i32::MIN as i64,
            decreases n - i,
        {
            proof {
                assert(self.children@.take(i + 1).drop_last() =~= self.children@.take(i as int));
                assert(self.children@.take(i + 1).last() == self.children@[i as int]);
            }
            let b = self.children[i].bounds();
            if (b.x as i64) < min_x {
                min_x = b.x as i64;
            }
            if (b.y as i64) < min_y {
                min_y = b.y as i64;
            }
            let right = b.x as i64 + b.width as i64;
            if right > max_r {
                max_r = right;
            }
            let bottom = b.y as i64 + b.height as i64;
            if bottom > max_b {
                max_b = bottom;
            }
            i += 1;
        }
        proof {
            assert(self.children@.take(n as int) =~= self.children@);
        }
        let width = clamp_i64_to_i32(
            max_r - min_x + self.padding.left as i64 + self.padding.right as i64,
        );
        let height = clamp_i64_to_i32(
            max_b - min_y + self.padding.top as i64 + self.padding.bottom as i64,
        );
        crate::geometry::Size { width, height }
    }
}

} // verus!

verus! {

/// Builder for creating containers.
pub struct ContainerBuilder {
    pub id: Option<WidgetId>,
    pub bounds: Option<Rect>,
    pub visible: bool,
    pub enabled: bool,
    pub background_color: Option<crate::geometry::Color>,
    pub border_color: Option<crate::geometry::Color>,
    pub border_width: i32,
    pub children: Vec<Widget>,
    pub layout_direction: LayoutDirection,
    pub main_axis_alignment: Alignment,
    pub cross_axis_alignment: Alignment,
    pub padding: Padding,
    pub spacing: i32,
    pub clip_children: bool,
}

impl ContainerBuilder {
    /// Start from the default container: no children, manual layout.
    pub fn new() -> (b: ContainerBuilder)
        ensures
            b.id is None,
            b.bounds is None,
            b.visible && b.enabled,
            b.background_color is None,
            b.border_color is None,
            b.border_width == 0,
            b.children@ == Seq::<Widget>::empty(),
            b.layout_direction == LayoutDirection::Manual,
            b.main_axis_alignment == Alignment::Start,
            b.cross_axis_alignment == Alignment::Start,
            b.padding == (Padding { left: 0, top: 0, right: 0, bottom: 0 }),
            b.spacing == 0,
            !b.clip_children,
    {
        ContainerBuilder {
            id: None,
            bounds: None,
            visible: true,
            enabled: true,
            background_color: None,
            border_color: None,
            border_width: 0,
            children: Vec::new(),
            layout_direction: LayoutDirection::Manual,
            main_axis_alignment: Alignment::Start,
            cross_axis_alignment: Alignment::Start,
            padding: Padding { left: 0, top: 0, right: 0, bottom: 0 },
            spacing: 0,
            clip_children: false,
        }
    }

    /// Add a child widget.
    pub fn child(self, child: Widget) -> (b: ContainerBuilder)
        ensures
            b.children@ == self.children@.push(child),
            b == (ContainerBuilder { children: b.children, ..self }),
    {
        let mut children = self.children;
        children.push(child);
        ContainerBuilder { children, ..self }
    }

    /// Set the layout direction.
    pub fn layout_direction(self, direction: LayoutDirection) -> (b: ContainerBuilder)
        ensures
            b == (ContainerBuilder { layout_direction: direction, ..self }),
    {
        ContainerBuilder { layout_direction: direction, ..self }
    }

    /// Set the main axis alignment.
    pub fn main_axis_alignment(self, alignment: Alignment) -> (b: ContainerBuilder)
        ensures
            b == (ContainerBuilder { main_axis_alignment: alignment, ..self }),
    {
        ContainerBuilder { main_axis_alignment: alignment, ..self }
    }

    /// Set the cross axis alignment.
    pub fn cross_axis_alignment(self, alignment: Alignment) -> (b: ContainerBuilder)
        ensures
            b == (ContainerBuilder { cross_axis_alignment: alignment, ..self }),
    {
        ContainerBuilder { cross_axis_alignment: alignment, ..self }
    }

    /// Set the padding.
    pub fn padding(self, padding: Padding) -> (b: ContainerBuilder)
        ensures
            b == (ContainerBuilder { padding, ..self }),
    {
        ContainerBuilder { padding, ..self }
    }

    /// Set the same padding on every side.
    pub fn padding_uniform(self, padding: i32) -> (b: ContainerBuilder)
        ensures
            b == (ContainerBuilder {
                padding: Padding {
                    left: padding,
                    top: padding,
                    right: padding,
                    bottom: padding,
                },
                ..self
            }),
    {
        ContainerBuilder { padding: Padding::uniform(padding), ..self }
    }

    /// Set the spacing between children; negative values clamp to zero.
    pub fn spacing(self, spacing: i32) -> (b: ContainerBuilder)
        ensures
            b == (ContainerBuilder {
                spacing: if spacing >= 0 {
                    spacing
                } else {
                    0
                },
                ..self
            }),
    {
        ContainerBuilder {
            spacing: if spacing >= 0 {
                spacing
            } else {
                0
            },
            ..self
        }
    }

    /// Set whether children are clipped when drawn.
    pub fn clip_children(self, clip: bool) -> (b: ContainerBuilder)
        ensures
            b == (ContainerBuilder { clip_children: clip, ..self }),
    {
        ContainerBuilder { clip_children: clip, ..self }
    }

    /// Use a fixed identifier instead of one from the manager.
    pub fn id(self, id: WidgetId) -> (b: ContainerBuilder)
        ensures
            b == (ContainerBuilder { id: Some(id), ..self }),
    {
        ContainerBuilder { id: Some(id), ..self }
    }

    /// Set the bounds.
    pub fn bounds(self, bounds: Rect) -> (b: ContainerBuilder)
        ensures
            b == (ContainerBuilder { bounds: Some(bounds), ..self }),
    {
        ContainerBuilder { bounds: Some(bounds), ..self }
    }

    /// Set the position, keeping the size set so far (or the default size).
    pub fn position(self, x: i32, y: i32) -> (b: ContainerBuilder)
        ensures
            b == (ContainerBuilder {
                bounds: Some(
                    match self.bounds {
                        Some(r) => Rect { x, y, ..r },
                        None => Rect { x, y, width: 100, height: 30 },
                    },
                ),
                ..self
            }),
    {
        let bounds = match self.bounds {
            Some(r) => Rect { x, y, ..r },
            None => Rect { x, y, width: 100, height: 30 },
        };
        ContainerBuilder { bounds: Some(bounds), ..self }
    }

    /// Set the size, keeping the position set so far (or the origin).
    pub fn size(self, width: i32, height: i32) -> (b: ContainerBuilder)
        ensures
            b == (ContainerBuilder {
                bounds: Some(
                    match self.bounds {
                        Some(r) => Rect { width, height, ..r },
                        None => Rect { x: 0, y: 0, width, height },
                    },
                ),
                ..self
            }),
    {
        let bounds = match self.bounds {
            Some(r) => Rect { width, height, ..r },
            None => Rect { x: 0, y: 0, width, height },
        };
        ContainerBuilder { bounds: Some(bounds), ..self }
    }

    /// Set the initial visibility.
    pub fn visible(self, visible: bool) -> (b: ContainerBuilder)
        ensures
            b == (ContainerBuilder { visible, ..self }),
    {
        ContainerBuilder { visible, ..self }
    }

    /// Set the initial enabled state.
    pub fn enabled(self, enabled: bool) -> (b: ContainerBuilder)
        ensures
            b == (ContainerBuilder { enabled, ..self }),
    {
        ContainerBuilder { enabled, ..self }
    }

    /// Set the background color.
    pub fn background_color(self, color: crate::geometry::Color) -> (b: ContainerBuilder)
        ensures
            b == (ContainerBuilder { background_color: Some(color), ..self }),
    {
        ContainerBuilder { background_color: Some(color), ..self }
    }

    /// Set the border color and width.
    pub fn border(self, color: crate::geometry::Color, width: i32) -> (b: ContainerBuilder)
        ensures
            b == (ContainerBuilder { border_color: Some(color), border_width: width, ..self }),
    {
        ContainerBuilder { border_color: Some(color), border_width: width, ..self }
    }

    /// The base state this builder produces, once the identifier is known.
    pub open spec fn spec_base(self, id: WidgetId) -> BaseWidget {
        BaseWidget {
            id,
            bounds: match self.bounds {
                Some(r) => r,
                None => Rect { x: 0, y: 0, width: 100, height: 30 },
            },
            visible: self.visible,
            enabled: self.enabled,
            focused: false,
            background_color: self.background_color,
            border_color: self.border_color,
            border_width: self.border_width,
        }
    }

    /// The identifier the built widget will carry: the fixed one if set,
    /// else the manager's next.
    pub open spec fn spec_built_id(self, next: WidgetId) -> WidgetId {
        match self.id {
            Some(id) => id,
            None => next,
        }
    }

    /// Resolve the identifier, drawing one from the manager when none was
    /// fixed, and produce the base state.
    fn take_base(self, manager: &mut WidgetManager) -> (r: (BaseWidget, ContainerBuilder))
        requires
            old(manager).next_id < u64::MAX,
        ensures
            r.0 == self.spec_base(self.spec_built_id(old(manager).next_id)),
            r.1 == self,
            final (manager).widgets@ == old(manager).widgets@,
            final (manager).focused_widget == old(manager).focused_widget,
            final (manager).hovered_widget == old(manager).hovered_widget,
    {
        let id = match self.id {
            Some(id) => id,
            None => manager.next_id(),
        };
        let bounds = match self.bounds {
            Some(r) => r,
            None => Rect { x: 0, y: 0, width: 100, height: 30 },
        };
        let mut base = BaseWidget::new(id);
        base.set_bounds(bounds);
        base.set_visible(self.visible);
        base.set_enabled(self.enabled);
        base.set_background_color(self.background_color);
        base.set_border(self.border_color, self.border_width);
        (base, self)
    }

    /// Build the container, drawing an identifier from the manager when none
    /// was fixed.
    pub fn build(self, manager: &mut WidgetManager) -> (c: Container)
        requires
            old(manager).next_id < u64::MAX,
        ensures
            c.base == self.spec_base(self.spec_built_id(old(manager).next_id)),
            c.children == self.children,
            c.layout_direction == self.layout_direction,
            c.main_axis_alignment == self.main_axis_alignment,
            c.cross_axis_alignment == self.cross_axis_alignment,
            c.padding == self.padding,
            c.spacing == self.spacing,
            c.clip_children == self.clip_children,
            final (manager).widgets@ == old(manager).widgets@,
    {
        let (base, parts) = self.take_base(manager);
        Container {
            base,
            children: parts.children,
            layout_direction: parts.layout_direction,
            main_axis_alignment: parts.main_axis_alignment,
            cross_axis_alignment: parts.cross_axis_alignment,
            padding: parts.padding,
            spacing: parts.spacing,
            clip_children: parts.clip_children,
        }
    }
}

impl Default for ContainerBuilder {
    /// Same as [`ContainerBuilder::new`].
    fn default() -> (b: ContainerBuilder)
        ensures
            b.id is None && b.layout_direction == LayoutDirection::Manual,
    {
        ContainerBuilder::new()
    }
}

} // verus!
