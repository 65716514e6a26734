//! Layout vocabulary and constraints.
//!
//! The flex and grid layout algorithms themselves belong to the embedding
//! layer; this module holds the shared vocabulary (directions, wrapping,
//! justification, alignment), size constraints, and the absolute layout
//! marker that positions widgets exactly where they were placed.

use vstd::prelude::*;

use crate::geometry::Size;
use crate::widgets::WidgetId;

verus! {

/// Main axis direction for a flex layout.
#[derive(Debug, Clone, Copy, PartialEq, Eq, Structural)]
pub enum FlexDirection {
    Row,
    RowReverse,
    Column,
    ColumnReverse,
}

/// Whether flex items wrap onto further lines.
#[derive(Debug, Clone, Copy, PartialEq, Eq, Structural)]
pub enum FlexWrap {
    NoWrap,
    Wrap,
    WrapReverse,
}

/// Distribution of free space along the main axis.
#[derive(Debug, Clone, Copy, PartialEq, Eq, Structural)]
pub enum JustifyContent {
    FlexStart,
    FlexEnd,
    Center,
    SpaceBetween,
    SpaceAround,
    SpaceEvenly,
}

/// Alignment of items along the cross axis.
#[derive(Debug, Clone, Copy, PartialEq, Eq, Structural)]
pub enum AlignItems {
    FlexStart,
    FlexEnd,
    Center,
    Stretch,
    Baseline,
}

/// Alignment of wrapped lines along the cross axis.
#[derive(Debug, Clone, Copy, PartialEq, Eq, Structural)]
pub enum AlignContent {
    FlexStart,
    FlexEnd,
    Center,
    Stretch,
    SpaceBetween,
    SpaceAround,
}

/// Size constraint for a widget under layout.
#[derive(Debug, Clone, Copy, PartialEq, Eq, Structural)]
pub struct LayoutConstraint {
    /// Minimum size constraint.
    pub min_size: Size,
    /// Maximum size constraint (none means unlimited).
    pub max_size: Option<Size>,
    /// Whether the widget should expand to fill available space.
    pub expand: bool,
    /// Layout weight for space distribution, in whole shares.
    pub weight: u32,
}

impl LayoutConstraint {
    /// No minimum, no maximum, no expansion, unit weight.
    pub fn new() -> (c: LayoutConstraint)
        ensures
            c.min_size == (Size { width: 0, height: 0 }),
            c.max_size is None,
            !c.expand,
            c.weight == 1,
    {
        LayoutConstraint { min_size: Size::zero(), max_size: None, expand: false, weight: 1 }
    }

    /// Set the minimum size.
    pub fn min_size(self, size: Size) -> (c: LayoutConstraint)
        ensures
            c == (LayoutConstraint { min_size: size, ..self }),
    {
        LayoutConstraint { min_size: size, ..self }
    }

    /// Set or clear the maximum size.
    pub fn max_size(self, size: Option<Size>) -> (c: LayoutConstraint)
        ensures
            c == (LayoutConstraint { max_size: size, ..self }),
    {
        LayoutConstraint { max_size: size, ..self }
    }

    /// Set whether the widget should expand.
    pub fn expand(self, expand: bool) -> (c: LayoutConstraint)
        ensures
            c == (LayoutConstraint { expand, ..self }),
    {
        LayoutConstraint { expand, ..self }
    }

    /// Set the layout weight.
    pub fn weight(self, weight: u32) -> (c: LayoutConstraint)
        ensures
            c == (LayoutConstraint { weight, ..self }),
    {
        LayoutConstraint { weight, ..self }
    }

    /// Clamp a size into the constraint: raised to the minimum, then capped
    /// at the maximum when one is set.
    pub fn constrain_size(&self, size: Size) -> (r: Size)
        ensures
            ({
                let w1: int = if size.width >= self.min_size.width {
                    size.width as int
                } else {
                    self.min_size.width as int
                };
                let h1: int = if size.height >= self.min_size.height {
                    size.height as int
                } else {
                    self.min_size.height as int
                };
                match self.max_size {
                    Some(mx) => r.width == (if w1 <= mx.width {
                        w1
                    } else {
                        mx.width as int
                    }) && r.height == (if h1 <= mx.height {
                        h1
                    } else {
                        mx.height as int
                    }),
                    None => r.width == w1 && r.height == h1,
                }
            }),
    {
        let mut width = if size.width >= self.min_size.width {
            size.width
        } else {
            self.min_size.width
        };
        let mut height = if size.height >= self.min_size.height {
            size.height
        } else {
            self.min_size.height
        };
        if let Some(mx) = self.max_size {
            if width > mx.width {
                width = mx.width;
            }
            if height > mx.height {
                height = mx.height;
            }
        }
        Size { width, height }
    }
}

impl Default for LayoutConstraint {
    /// Same as [`LayoutConstraint::new`].
    fn default() -> (c: LayoutConstraint)
        ensures
            c.min_size == (Size { width: 0, height: 0 }),
            c.max_size is None,
            !c.expand,
            c.weight == 1,
    {
        LayoutConstraint { min_size: Size::zero(), max_size: None, expand: false, weight: 1 }
    }
}

/// Layout information for one widget.
#[derive(Debug, Clone, Copy, PartialEq, Eq, Structural)]
pub struct LayoutInfo {
    pub widget_id: WidgetId,
    pub constraint: LayoutConstraint,
}

/// Absolute layout: widgets keep the bounds they were given.
#[derive(Debug, Clone, Copy)]
pub struct AbsoluteLayout;

impl AbsoluteLayout {
    /// Create an absolute layout.
    pub fn new() -> (r: AbsoluteLayout) {
        AbsoluteLayout
    }
}

impl Default for AbsoluteLayout {
    /// Same as [`AbsoluteLayout::new`].
    fn default() -> (r: AbsoluteLayout) {
        AbsoluteLayout
    }
}

} // verus!
