//! Widget system: a closed set of widget kinds, shared base state, and the
//! manager that routes events through them with focus and hover semantics.
//!
//! Dispatch order: the focused widget is offered an event first; if it does
//! not consume, the remaining widgets are offered in reverse paint order
//! (topmost first). Hit testing walks the same reverse order and returns the
//! first visible widget whose bounds contain the point.

use vstd::prelude::*;

use crate::events::Event;
use crate::geometry::{Color, Point, Rect};

pub mod button;
pub mod container;
pub mod label;
pub mod text_input;

verus! {

/// Unique identifier for widgets, assigned monotonically by the manager.
pub type WidgetId = u64;

/// State common to every widget kind.
#[derive(Debug, Clone, Copy, PartialEq, Eq, Structural)]
pub struct BaseWidget {
    pub id: WidgetId,
    pub bounds: Rect,
    pub visible: bool,
    pub enabled: bool,
    pub focused: bool,
    pub background_color: Option<Color>,
    pub border_color: Option<Color>,
    pub border_width: i32,
}

impl BaseWidget {
    /// A visible, enabled, unfocused widget with empty bounds and no styling.
    pub open spec fn spec_new(id: WidgetId) -> BaseWidget {
        BaseWidget {
            id,
            bounds: Rect { x: 0, y: 0, width: 0, height: 0 },
            visible: true,
            enabled: true,
            focused: false,
            background_color: None,
            border_color: None,
            border_width: 0,
        }
    }

    /// Create a new base widget with the given identifier.
    pub fn new(id: WidgetId) -> (w: BaseWidget)
        ensures
            w == BaseWidget::spec_new(id),
    {
        BaseWidget {
            id,
            bounds: Rect::zero(),
            visible: true,
            enabled: true,
            focused: false,
            background_color: None,
            border_color: None,
            border_width: 0,
        }
    }

    /// The widget identifier.
    pub fn id(&self) -> (r: WidgetId)
        ensures
            r == self.id,
    {
        self.id
    }

    /// The bounding rectangle.
    pub fn bounds(&self) -> (r: Rect)
        ensures
            r == self.bounds,
    {
        self.bounds
    }

    /// Set the bounding rectangle.
    pub fn set_bounds(&mut self, bounds: Rect)
        ensures
            *final (self) == (BaseWidget { bounds, ..*old(self) }),
    {
        self.bounds = bounds;
    }

    /// Whether the widget is visible.
    pub fn is_visible(&self) -> (r: bool)
        ensures
            r == self.visible,
    {
        self.visible
    }

    /// Set visibility.
    pub fn set_visible(&mut self, visible: bool)
        ensures
            *final (self) == (BaseWidget { visible, ..*old(self) }),
    {
        self.visible = visible;
    }

    /// Whether the widget is enabled.
    pub fn is_enabled(&self) -> (r: bool)
        ensures
            r == self.enabled,
    {
        self.enabled
    }

    /// Set the enabled state.
    pub fn set_enabled(&mut self, enabled: bool)
        ensures
            *final (self) == (BaseWidget { enabled, ..*old(self) }),
    {
        self.enabled = enabled;
    }

    /// Whether the widget is focused.
    pub fn is_focused(&self) -> (r: bool)
        ensures
            r == self.focused,
    {
        self.focused
    }

    /// Set the focus flag.
    pub fn set_focused(&mut self, focused: bool)
        ensures
            *final (self) == (BaseWidget { focused, ..*old(self) }),
    {
        self.focused = focused;
    }

    /// Set the background color.
    pub fn set_background_color(&mut self, color: Option<Color>)
        ensures
            *final (self) == (BaseWidget { background_color: color, ..*old(self) }),
    {
        self.background_color = color;
    }

    /// The background color.
    pub fn background_color(&self) -> (r: Option<Color>)
        ensures
            r == self.background_color,
    {
        self.background_color
    }

    /// Set the border color and width.
    pub fn set_border(&mut self, color: Option<Color>, width: i32)
        ensures
            *final (self) == (BaseWidget {
                border_color: color,
                border_width: width,
                ..*old(self)
            }),
    {
        self.border_color = color;
        self.border_width = width;
    }

    /// The border color.
    pub fn border_color(&self) -> (r: Option<Color>)
        ensures
            r == self.border_color,
    {
        self.border_color
    }

    /// The border width.
    pub fn border_width(&self) -> (r: i32)
        ensures
            r == self.border_width,
    {
        self.border_width
    }

    /// Whether a point lies inside the widget's bounds.
    pub fn contains_point(&self, point: Point) -> (r: bool)
        ensures
            r == self.bounds.spec_contains(point.x as int, point.y as int),
    {
        self.bounds.contains_point(point)
    }
}

} // verus!

verus! {

/// A widget: one of the closed set of widget kinds. Containers hold further
/// widgets, so the type is a tree.
#[derive(Debug)]
pub enum Widget {
    Button(crate::widgets::button::Button),
    Label(crate::widgets::label::Label),
    TextInput(crate::widgets::text_input::TextInput),
    Container(crate::widgets::container::Container),
}

impl Widget {
    /// The widget's identifier.
    pub open spec fn spec_id(&self) -> WidgetId {
        match self {
            Widget::Button(b) => b.base.id,
            Widget::Label(l) => l.base.id,
            Widget::TextInput(t) => t.base.id,
            Widget::Container(c) => c.base.id,
        }
    }

    /// The widget's shared base state.
    pub open spec fn spec_base(&self) -> BaseWidget {
        match self {
            Widget::Button(b) => b.base,
            Widget::Label(l) => l.base,
            Widget::TextInput(t) => t.base,
            Widget::Container(c) => c.base,
        }
    }

    /// The widget's identifier.
    pub fn id(&self) -> (r: WidgetId)
        ensures
            r == self.spec_id(),
    {
        match self {
            Widget::Button(b) => b.base.id,
            Widget::Label(l) => l.base.id,
            Widget::TextInput(t) => t.base.id,
            Widget::Container(c) => c.base.id,
        }
    }

    /// The widget's bounding rectangle.
    pub fn bounds(&self) -> (r: Rect)
        ensures
            r == self.spec_base().bounds,
    {
        match self {
            Widget::Button(b) => b.base.bounds,
            Widget::Label(l) => l.base.bounds,
            Widget::TextInput(t) => t.base.bounds,
            Widget::Container(c) => c.base.bounds,
        }
    }

    /// Set the widget's bounding rectangle.
    pub fn set_bounds(&mut self, bounds: Rect)
        ensures
            final (self).spec_base() == (BaseWidget { bounds, ..old(self).spec_base() }),
            widget_same_kind_and_content(*old(self), *final (self)),
    {
        match self {
            Widget::Button(b) => b.base.bounds = bounds,
            Widget::Label(l) => l.base.bounds = bounds,
            Widget::TextInput(t) => t.base.bounds = bounds,
            Widget::Container(c) => c.base.bounds = bounds,
        }
    }

    /// Whether the widget is visible.
    pub fn is_visible(&self) -> (r: bool)
        ensures
            r == self.spec_base().visible,
    {
        match self {
            Widget::Button(b) => b.base.visible,
            Widget::Label(l) => l.base.visible,
            Widget::TextInput(t) => t.base.visible,
            Widget::Container(c) => c.base.visible,
        }
    }

    /// Set the widget's visibility.
    pub fn set_visible(&mut self, visible: bool)
        ensures
            final (self).spec_base() == (BaseWidget { visible, ..old(self).spec_base() }),
            widget_same_kind_and_content(*old(self), *final (self)),
    {
        match self {
            Widget::Button(b) => b.base.visible = visible,
            Widget::Label(l) => l.base.visible = visible,
            Widget::TextInput(t) => t.base.visible = visible,
            Widget::Container(c) => c.base.visible = visible,
        }
    }

    /// Whether the widget is enabled.
    pub fn is_enabled(&self) -> (r: bool)
        ensures
            r == self.spec_base().enabled,
    {
        match self {
            Widget::Button(b) => b.base.enabled,
            Widget::Label(l) => l.base.enabled,
            Widget::TextInput(t) => t.base.enabled,
            Widget::Container(c) => c.base.enabled,
        }
    }

    /// Set the widget's enabled state.
    pub fn set_enabled(&mut self, enabled: bool)
        ensures
            final (self).spec_base() == (BaseWidget { enabled, ..old(self).spec_base() }),
            widget_same_kind_and_content(*old(self), *final (self)),
    {
        match self {
            Widget::Button(b) => b.base.enabled = enabled,
            Widget::Label(l) => l.base.enabled = enabled,
            Widget::TextInput(t) => t.base.enabled = enabled,
            Widget::Container(c) => c.base.enabled = enabled,
        }
    }
}

/// The two widgets are the same kind and agree on everything but their
/// shared base state.
pub open spec fn widget_same_kind_and_content(pre: Widget, post: Widget) -> bool {
    match (pre, post) {
        (Widget::Button(a), Widget::Button(b)) => b == (
            crate::widgets::button::Button { base: b.base, ..a }
        ),
        (Widget::Label(a), Widget::Label(b)) => b == (
            crate::widgets::label::Label { base: b.base, ..a }
        ),
        (Widget::TextInput(a), Widget::TextInput(b)) => b == (
            crate::widgets::text_input::TextInput { base: b.base, ..a }
        ),
        (Widget::Container(a), Widget::Container(b)) => b == (
            crate::widgets::container::Container { base: b.base, ..a }
        ),
        _ => false,
    }
}

/// Validity of a widget: text inputs satisfy their model invariant, and a
/// container's children are all valid.
pub open spec fn widget_wf(w: Widget) -> bool
    decreases w, 1int,
{
    match w {
        Widget::Button(_) => true,
        Widget::Label(_) => true,
        Widget::TextInput(t) => crate::widgets::text_input::ti_wf(t@),
        Widget::Container(c) => children_wf(c.children@),
    }
}

/// Validity of every widget in a sequence.
pub open spec fn children_wf(s: Seq<Widget>) -> bool
    decreases s, 0int,
{
    forall|k: int| 0 <= k < s.len() ==> widget_wf(#[trigger] s[k])
}

/// How one widget reacts to one event, relating the widget before to the
/// widget after and whether the event was consumed.
///
/// Buttons and text inputs step as their own specifications say; labels
/// ignore everything; a visible, enabled container offers the event to its
/// children in reverse paint order and consumes exactly when one of them
/// does.
pub open spec fn widget_step(pre: Widget, e: Event, post: Widget, consumed: bool) -> bool
    decreases pre, 2int,
{
    match (pre, post) {
        (Widget::Button(a), Widget::Button(b)) => {
            let (b2, c) = crate::widgets::button::button_step(a, e);
            b == b2 && consumed == c
        },
        (Widget::Label(a), Widget::Label(b)) => b == a && !consumed,
        (Widget::TextInput(a), Widget::TextInput(b)) => crate::widgets::text_input::ti_step_rel(
            a,
            e,
            b,
            consumed,
        ),
        (Widget::Container(a), Widget::Container(b)) => {
            if !a.base.visible || !a.base.enabled {
                b == a && !consumed
            } else {
                &&& crate::widgets::container::container_fields_unchanged(a, b)
                &&& rev_scan(a.children@, None, e, b.children@, consumed)
            }
        },
        _ => false,
    }
}

/// There is a consumer at index `j`: it was offered the event (not skipped)
/// and consumed it, everything above it declined or was skipped, and
/// everything below it is untouched.
pub open spec fn consumed_at(
    pre: Seq<Widget>,
    skip_id: Option<WidgetId>,
    e: Event,
    post: Seq<Widget>,
    j: int,
) -> bool
    decreases pre, 0int,
{
    &&& 0 <= j < pre.len()
    &&& skip_id != Some(pre[j].spec_id())
    &&& widget_step(pre[j], e, post[j], true)
    &&& (forall|k: int|
        j < k < pre.len() ==> if skip_id == Some(#[trigger] pre[k].spec_id()) {
            post[k] == pre[k]
        } else {
            widget_step(pre[k], e, post[k], false)
        })
    &&& (forall|k: int| 0 <= k < j ==> post[k] == pre[k])
}

/// Every offered widget declined the event (with whatever state change
/// declining brought), and every skipped widget is untouched.
pub open spec fn all_declined(
    pre: Seq<Widget>,
    skip_id: Option<WidgetId>,
    e: Event,
    post: Seq<Widget>,
) -> bool
    decreases pre, 0int,
{
    forall|k: int|
        0 <= k < pre.len() ==> if skip_id == Some(#[trigger] pre[k].spec_id()) {
            post[k] == pre[k]
        } else {
            widget_step(pre[k], e, post[k], false)
        }
}

/// Offer an event to widgets from the last (topmost) down to the first,
/// skipping any widget whose identifier equals `skip_id`, stopping at the
/// first that consumes. When some widget consumed there is a consumer index,
/// as [`consumed_at`] says; when none did, every offered widget declined and
/// every skipped one is untouched.
pub open spec fn rev_scan(
    pre: Seq<Widget>,
    skip_id: Option<WidgetId>,
    e: Event,
    post: Seq<Widget>,
    consumed: bool,
) -> bool
    decreases pre, 1int,
{
    &&& post.len() == pre.len()
    &&& (consumed ==> exists|j: int| #![trigger pre[j].spec_id()] consumed_at(pre, skip_id, e, post, j))
    &&& (!consumed ==> all_declined(pre, skip_id, e, post))
}

/// Introduce [`rev_scan`] from a consumer witness.
pub proof fn lemma_rev_scan_intro_consumed(
    pre: Seq<Widget>,
    skip_id: Option<WidgetId>,
    e: Event,
    post: Seq<Widget>,
    j: int,
)
    requires
        post.len() == pre.len(),
        consumed_at(pre, skip_id, e, post, j),
    ensures
        rev_scan(pre, skip_id, e, post, true),
{
    // Mentioning the witness index's identifier instantiates the existential.
    assert(0 <= j < pre.len() && skip_id != Some(pre[j].spec_id()));
}

/// How one widget advances by one frame: text inputs blink their cursor, a
/// container updates every child in order, and other widgets are untouched.
pub open spec fn widget_update_rel(pre: Widget, delta_nanos: u64, post: Widget) -> bool
    decreases pre, 1int,
{
    match (pre, post) {
        (Widget::Button(a), Widget::Button(b)) => b == a,
        (Widget::Label(a), Widget::Label(b)) => b == a,
        (Widget::TextInput(a), Widget::TextInput(b)) => crate::widgets::text_input::ti_update_rel(
            a,
            delta_nanos,
            b,
        ),
        (Widget::Container(a), Widget::Container(b)) => {
            &&& crate::widgets::container::container_fields_unchanged(a, b)
            &&& children_update_rel(a.children@, delta_nanos, b.children@)
        },
        _ => false,
    }
}

/// Pointwise frame update of a widget sequence.
pub open spec fn children_update_rel(pre: Seq<Widget>, delta_nanos: u64, post: Seq<Widget>) -> bool
    decreases pre, 0int,
{
    &&& post.len() == pre.len()
    &&& forall|k: int|
        0 <= k < pre.len() ==> widget_update_rel(#[trigger] pre[k], delta_nanos, post[k])
}

} // verus!

verus! {

/// React one widget to one event, as [`widget_step`] describes: the returned
/// widget is the next state and the flag says whether the event was
/// consumed.
pub fn widget_handle_event(w: Widget, event: &Event) -> (r: (Widget, bool))
    requires
        widget_wf(w),
    ensures
        widget_step(w, *event, r.0, r.1),
        widget_wf(r.0),
    decreases w,
{
    let ghost w0 = w;
    match w {
        Widget::Button(mut b) => {
            let consumed = match b.handle_event(event) {
                Ok(c) => c,
                Err(_) => false,
            };
            (Widget::Button(b), consumed)
        },
        Widget::Label(mut l) => {
            let consumed = match l.handle_event(event) {
                Ok(c) => c,
                Err(_) => false,
            };
            (Widget::Label(l), consumed)
        },
        Widget::TextInput(mut t) => {
            let consumed = match t.handle_event(event) {
                Ok(c) => c,
                Err(_) => false,
            };
            (Widget::TextInput(t), consumed)
        },
        Widget::Container(mut c) => {
            if !c.base.visible || !c.base.enabled {
                return (Widget::Container(c), false);
            }
            let ghost c0 = c;
            let n = c.children.len();
            let mut i: usize = n;
            #[verifier::loop_isolation(false)]
            while i > 0
                invariant
                    w0 == Widget::Container(c0),
                    c.children@.len() == n,
                    c0.children@.len() == n,
                    i <= n,
                    crate::widgets::container::container_fields_unchanged(c0, c),
                    children_wf(c0.children@),
                    forall|k: int| 0 <= k < i ==> c.children@[k] == c0.children@[k],
                    forall|k: int|
                        i <= k < n ==> widget_step(
                            c0.children@[k],
                            *event,
                            #[trigger] c.children@[k],
                            false,
                        ),
                    forall|k: int| 0 <= k < n ==> widget_wf(#[trigger] c.children@[k]),
                decreases i,
            {
                i -= 1;
                let ghost before = c.children@;
                let child = c.children.remove(i);
                proof {
                    assert(child == c0.children@[i as int]);
                    assert(widget_wf(child));
                    assert(w0->Container_0 == c0);
                    assert(decreases_to!(w0 => w0->Container_0));
                    assert(decreases_to!(c0 => c0.children));
                    assert(decreases_to!(c0.children => c0.children@));
                    assert(decreases_to!(c0.children@ => c0.children@[i as int]));
                    assert(decreases_to!(w0 => child));
                }
                let (child2, consumed) = widget_handle_event(child, event);
                c.children.insert(i, child2);
                proof {
                    assert(c.children@ =~= before.update(i as int, child2));
                }
                if consumed {
                    proof {
                        let pre_c = c0.children@;
                        let post_c = c.children@;
                        let j = i as int;
                        assert(None::<WidgetId> != Some(pre_c[j].spec_id()));
                        assert(widget_step(pre_c[j], *event, post_c[j], true));
                        assert(forall|k: int|
                            j < k < pre_c.len() ==> widget_step(
                                pre_c[k],
                                *event,
                                #[trigger] post_c[k],
                                false,
                            ));
                        assert(forall|k: int| 0 <= k < j ==> post_c[k] == pre_c[k]);
                        assert(consumed_at(pre_c, None, *event, post_c, j));
                        lemma_rev_scan_intro_consumed(pre_c, None, *event, post_c, j);
                    }
                    return (Widget::Container(c), true);
                }
            }
            (Widget::Container(c), false)
        },
    }
}

/// Advance one widget by one frame, as [`widget_update_rel`] describes.
pub fn widget_update(w: Widget, delta_nanos: u64) -> (r: Widget)
    requires
        widget_wf(w),
    ensures
        widget_update_rel(w, delta_nanos, r),
        widget_wf(r),
    decreases w,
{
    let ghost w0 = w;
    match w {
        Widget::Button(b) => Widget::Button(b),
        Widget::Label(l) => Widget::Label(l),
        Widget::TextInput(mut t) => {
            let _ = t.update(delta_nanos);
            Widget::TextInput(t)
        },
        Widget::Container(mut c) => {
            let ghost c0 = c;
            let n = c.children.len();
            let mut i: usize = 0;
            #[verifier::loop_isolation(false)]
            while i < n
                invariant
                    w0 == Widget::Container(c0),
                    c.children@.len() == n,
                    c0.children@.len() == n,
                    i <= n,
                    crate::widgets::container::container_fields_unchanged(c0, c),
                    children_wf(c0.children@),
                    forall|k: int| i <= k < n ==> c.children@[k] == c0.children@[k],
                    forall|k: int|
                        0 <= k < i ==> widget_update_rel(
                            c0.children@[k],
                            delta_nanos,
                            #[trigger] c.children@[k],
                        ),
                    forall|k: int| 0 <= k < n ==> widget_wf(#[trigger] c.children@[k]),
                decreases n - i,
            {
                let ghost before = c.children@;
                let child = c.children.remove(i);
                proof {
                    assert(child == c0.children@[i as int]);
                    assert(widget_wf(child));
                    assert(w0->Container_0 == c0);
                    assert(decreases_to!(w0 => w0->Container_0));
                    assert(decreases_to!(c0 => c0.children));
                    assert(decreases_to!(c0.children => c0.children@));
                    assert(decreases_to!(c0.children@ => c0.children@[i as int]));
                    assert(decreases_to!(w0 => child));
                }
                let child2 = widget_update(child, delta_nanos);
                c.children.insert(i, child2);
                proof {
                    assert(c.children@ =~= before.update(i as int, child2));
                }
                i += 1;
            }
            (Widget::Container(c))
        },
    }
}

impl Widget {
    /// React to one event in place, as [`widget_step`] describes.
    pub fn handle_event(&mut self, event: &Event) -> (r: Result<bool, crate::error::Error>)
        requires
            widget_wf(*old(self)),
        ensures
            r matches Ok(consumed) && widget_step(*old(self), *event, *final (self), consumed),
            widget_wf(*final (self)),
    {
        let mut taken = Widget::Label(crate::widgets::label::Label::new(0, String::new()));
        core::mem::swap(&mut taken, self);
        let (next, consumed) = widget_handle_event(taken, event);
        *self = next;
        Ok(consumed)
    }

    /// Advance by one frame in place, as [`widget_update_rel`] describes.
    pub fn update(&mut self, delta_nanos: u64) -> (r: Result<(), crate::error::Error>)
        requires
            widget_wf(*old(self)),
        ensures
            r is Ok,
            widget_update_rel(*old(self), delta_nanos, *final (self)),
            widget_wf(*final (self)),
    {
        let mut taken = Widget::Label(crate::widgets::label::Label::new(0, String::new()));
        core::mem::swap(&mut taken, self);
        let next = widget_update(taken, delta_nanos);
        *self = next;
        Ok(())
    }
}

} // verus!

verus! {

/// The topmost visible widget whose bounds contain the point, searched from
/// the last (topmost in paint order) to the first.
pub open spec fn spec_widget_at_point(s: Seq<Widget>, x: int, y: int) -> Option<WidgetId>
    decreases s.len(),
{
    if s.len() == 0 {
        None
    } else if s.last().spec_base().visible && s.last().spec_base().bounds.spec_contains(x, y) {
        Some(s.last().spec_id())
    } else {
        spec_widget_at_point(s.drop_last(), x, y)
    }
}

/// The first (bottom-most) index whose widget has the given identifier.
pub open spec fn first_index_with(s: Seq<Widget>, id: WidgetId) -> Option<int>
    decreases s.len(),
{
    if s.len() == 0 {
        None
    } else {
        match first_index_with(s.drop_last(), id) {
            Some(j) => Some(j),
            None => if s.last().spec_id() == id {
                Some(s.len() - 1)
            } else {
                None
            },
        }
    }
}

/// When no widget carries the identifier, there is no first index.
pub proof fn lemma_first_index_none(s: Seq<Widget>, id: WidgetId)
    requires
        forall|k: int| 0 <= k < s.len() ==> (#[trigger] s[k].spec_id()) != id,
    ensures
        first_index_with(s, id) is None,
    decreases s.len(),
{
    if s.len() > 0 {
        assert forall|k: int| 0 <= k < s.len() - 1 implies (#[trigger] s.drop_last()[k].spec_id())
            != id by {
            assert(s.drop_last()[k] == s[k]);
        }
        lemma_first_index_none(s.drop_last(), id);
        assert(s.last() == s[s.len() - 1]);
    }
}

/// The index of the first widget with the identifier, characterized: it
/// carries the identifier and nothing below it does.
pub proof fn lemma_first_index_some(s: Seq<Widget>, id: WidgetId, i: int)
    requires
        0 <= i < s.len(),
        s[i].spec_id() == id,
        forall|k: int| 0 <= k < i ==> (#[trigger] s[k].spec_id()) != id,
    ensures
        first_index_with(s, id) == Some(i),
    decreases s.len(),
{
    if i == s.len() - 1 {
        assert forall|k: int| 0 <= k < s.len() - 1 implies (#[trigger] s.drop_last()[k].spec_id())
            != id by {
            assert(s.drop_last()[k] == s[k]);
        }
        lemma_first_index_none(s.drop_last(), id);
        assert(s.last() == s[s.len() - 1]);
    } else {
        assert(s.drop_last()[i] == s[i]);
        assert forall|k: int| 0 <= k < i implies (#[trigger] s.drop_last()[k].spec_id()) != id by {
            assert(s.drop_last()[k] == s[k]);
        }
        lemma_first_index_some(s.drop_last(), id, i);
    }
}

/// When there is no first index, no widget carries the identifier.
pub proof fn lemma_first_index_none_inv(s: Seq<Widget>, id: WidgetId)
    requires
        first_index_with(s, id) is None,
    ensures
        forall|k: int| 0 <= k < s.len() ==> (#[trigger] s[k].spec_id()) != id,
    decreases s.len(),
{
    if s.len() > 0 {
        lemma_first_index_none_inv(s.drop_last(), id);
        assert(s.last() == s[s.len() - 1]);
        assert forall|k: int| 0 <= k < s.len() implies (#[trigger] s[k].spec_id()) != id by {
            if k < s.len() - 1 {
                assert(s.drop_last()[k] == s[k]);
            }
        }
    }
}

/// What a found first index means: it lies in range, its widget carries
/// the identifier, and nothing below it does.
pub proof fn lemma_first_index_found(s: Seq<Widget>, id: WidgetId, j: int)
    requires
        first_index_with(s, id) == Some(j),
    ensures
        0 <= j < s.len(),
        s[j].spec_id() == id,
        forall|k: int| 0 <= k < j ==> (#[trigger] s[k].spec_id()) != id,
    decreases s.len(),
{
    if s.len() > 0 {
        match first_index_with(s.drop_last(), id) {
            Some(j2) => {
                lemma_first_index_found(s.drop_last(), id, j2);
                assert(s.drop_last()[j2] == s[j2]);
                assert forall|k: int| 0 <= k < j implies (#[trigger] s[k].spec_id()) != id by {
                    assert(s[k] == s.drop_last()[k]);
                }
            },
            None => {
                assert(j == s.len() - 1);
                assert(s.last() == s[j]);
                lemma_first_index_none_inv(s.drop_last(), id);
                assert forall|k: int| 0 <= k < j implies (#[trigger] s[k].spec_id()) != id by {
                    assert(s.drop_last()[k] == s[k]);
                }
            },
        }
    }
}

/// The widget the focus moves to when an event arrives: a mouse press
/// refocuses to the widget under the press (or nothing), every other event
/// leaves focus alone.
pub open spec fn focus_after(
    widgets: Seq<Widget>,
    focused: Option<WidgetId>,
    e: Event,
) -> Option<WidgetId> {
    match e {
        Event::MousePressed { window_id: _, button: _, x, y } => spec_widget_at_point(
            widgets,
            x as int,
            y as int,
        ),
        _ => focused,
    }
}

/// The widget the hover moves to when an event arrives: a mouse press or
/// move rehovers to the widget under the pointer, every other event leaves
/// hover alone.
pub open spec fn hover_after(
    widgets: Seq<Widget>,
    hovered: Option<WidgetId>,
    e: Event,
) -> Option<WidgetId> {
    match e {
        Event::MousePressed { window_id: _, button: _, x, y } => spec_widget_at_point(
            widgets,
            x as int,
            y as int,
        ),
        Event::MouseMoved { window_id: _, x, y } => spec_widget_at_point(widgets, x as int, y as int),
        _ => hovered,
    }
}

/// How the manager routes one event through its widgets, given the focused
/// identifier in force for the dispatch.
///
/// The first widget carrying the focused identifier is offered the event
/// first; if it consumes, no other widget is touched. Otherwise the widgets
/// are offered the event in reverse paint order, skipping every widget with
/// the focused identifier, stopping at the first consumer.
pub open spec fn dispatch_rel(
    pre: Seq<Widget>,
    focused: Option<WidgetId>,
    e: Event,
    post: Seq<Widget>,
    consumed: bool,
) -> bool {
    match focused {
        None => rev_scan(pre, None, e, post, consumed),
        Some(fid) => match first_index_with(pre, fid) {
            None => rev_scan(pre, Some(fid), e, post, consumed),
            Some(fi) => {
                &&& post.len() == pre.len()
                &&& ({
                    ||| {
                        &&& widget_step(pre[fi], e, post[fi], true)
                        &&& consumed
                        &&& forall|k: int| 0 <= k < pre.len() && k != fi ==> post[k] == pre[k]
                    }
                    ||| {
                        &&& widget_step(pre[fi], e, post[fi], false)
                        &&& rev_scan(pre.update(fi, post[fi]), Some(fid), e, post, consumed)
                    }
                })
            },
        },
    }
}

/// Widget manager: owns the widgets of one window in paint order (later is
/// drawn on top), assigns identifiers, and tracks the focused and hovered
/// widgets.
#[derive(Debug)]
pub struct WidgetManager {
    pub widgets: Vec<Widget>,
    pub next_id: WidgetId,
    pub focused_widget: Option<WidgetId>,
    pub hovered_widget: Option<WidgetId>,
}

impl WidgetManager {
    /// Validity: every managed widget is valid.
    pub open spec fn wf(&self) -> bool {
        children_wf(self.widgets@)
    }

    /// Create a new widget manager with no widgets.
    pub fn new() -> (m: WidgetManager)
        ensures
            m.widgets@ == Seq::<Widget>::empty(),
            m.next_id == 1,
            m.focused_widget is None,
            m.hovered_widget is None,
            m.wf(),
    {
        WidgetManager { widgets: Vec::new(), next_id: 1, focused_widget: None, hovered_widget: None }
    }

    /// Hand out the next widget identifier; identifiers increase and are
    /// never reused.
    pub fn next_id(&mut self) -> (id: WidgetId)
        requires
            old(self).next_id < u64::MAX,
        ensures
            id == old(self).next_id,
            *final (self) == (WidgetManager { next_id: (old(self).next_id + 1) as u64, ..*old(self) }),
    {
        let id = self.next_id;
        self.next_id = self.next_id + 1;
        id
    }

    /// Add a widget on top of the existing ones.
    pub fn add_widget(&mut self, widget: Widget)
        ensures
            final (self).widgets@ == old(self).widgets@.push(widget),
            final (self).next_id == old(self).next_id,
            final (self).focused_widget == old(self).focused_widget,
            final (self).hovered_widget == old(self).hovered_widget,
            old(self).wf() && widget_wf(widget) ==> final (self).wf(),
    {
        self.widgets.push(widget);
    }

    /// Remove the first widget with the given identifier and return it; any
    /// focus or hover reference to that identifier is cleared, so both
    /// always refer to registered widgets.
    pub fn remove_widget(&mut self, widget_id: WidgetId) -> (r: Option<Widget>)
        ensures
            final (self).next_id == old(self).next_id,
            old(self).wf() ==> final (self).wf(),
            match r {
                Some(w) => {
                    &&& exists|j: int|
                        {
                            &&& 0 <= j < old(self).widgets@.len()
                            &&& (#[trigger] old(self).widgets@[j].spec_id()) == widget_id
                            &&& w == old(self).widgets@[j]
                            &&& (forall|k: int|
                                0 <= k < j ==> (#[trigger] old(self).widgets@[k].spec_id())
                                    != widget_id)
                            &&& final (self).widgets@ == old(self).widgets@.remove(j)
                        }
                    &&& final (self).focused_widget == if old(self).focused_widget == Some(
                        widget_id,
                    ) {
                        None::<WidgetId>
                    } else {
                        old(self).focused_widget
                    }
                    &&& final (self).hovered_widget == if old(self).hovered_widget == Some(
                        widget_id,
                    ) {
                        None::<WidgetId>
                    } else {
                        old(self).hovered_widget
                    }
                },
                None => {
                    &&& final (self).widgets@ == old(self).widgets@
                    &&& final (self).focused_widget == old(self).focused_widget
                    &&& final (self).hovered_widget == old(self).hovered_widget
                    &&& forall|k: int|
                        0 <= k < old(self).widgets@.len() ==> (
                        #[trigger] old(self).widgets@[k].spec_id()) != widget_id
                },
            },
    {
        let mut i: usize = 0;
        while i < self.widgets.len()
            invariant
                *self == *old(self),
                i <= self.widgets@.len(),
                forall|k: int| 0 <= k < i ==> (#[trigger] self.widgets@[k].spec_id()) != widget_id,
            decreases self.widgets@.len() - i,
        {
            if self.widgets[i].id() == widget_id {
                let w = self.widgets.remove(i);
                if self.focused_widget == Some(widget_id) {
                    self.focused_widget = None;
                }
                if self.hovered_widget == Some(widget_id) {
                    self.hovered_widget = None;
                }
                proof {
                    if old(self).wf() {
                        assert forall|k: int| 0 <= k < self.widgets@.len() implies widget_wf(
                            #[trigger] self.widgets@[k],
                        ) by {
                            if k < i {
                                assert(self.widgets@[k] == old(self).widgets@[k]);
                            } else {
                                assert(self.widgets@[k] == old(self).widgets@[k + 1]);
                            }
                        }
                    }
                }
                return Some(w);
            }
            i += 1;
        }
        None
    }

    /// The first widget with the given identifier, if any.
    pub fn get_widget(&self, widget_id: WidgetId) -> (r: Option<&Widget>)
        ensures
            match r {
                Some(w) => exists|j: int|
                    {
                        &&& 0 <= j < self.widgets@.len()
                        &&& (#[trigger] self.widgets@[j].spec_id()) == widget_id
                        &&& *w == self.widgets@[j]
                        &&& (forall|k: int|
                            0 <= k < j ==> (#[trigger] self.widgets@[k].spec_id()) != widget_id)
                    },
                None => forall|k: int|
                    0 <= k < self.widgets@.len() ==> (#[trigger] self.widgets@[k].spec_id())
                        != widget_id,
            },
    {
        let mut i: usize = 0;
        while i < self.widgets.len()
            invariant
                i <= self.widgets@.len(),
                forall|k: int| 0 <= k < i ==> (#[trigger] self.widgets@[k].spec_id()) != widget_id,
            decreases self.widgets@.len() - i,
        {
            if self.widgets[i].id() == widget_id {
                return Some(&self.widgets[i]);
            }
            i += 1;
        }
        None
    }

    /// The number of managed widgets.
    pub fn widget_count(&self) -> (r: usize)
        ensures
            r == self.widgets@.len(),
    {
        self.widgets.len()
    }

    /// The managed widgets, bottom-most first.
    pub fn widgets(&self) -> (r: &Vec<Widget>)
        ensures
            r == &self.widgets,
    {
        &self.widgets
    }

    /// Advance every widget by one frame, in order.
    pub fn update(&mut self, delta_nanos: u64) -> (r: Result<(), crate::error::Error>)
        requires
            old(self).wf(),
        ensures
            r is Ok,
            children_update_rel(old(self).widgets@, delta_nanos, final (self).widgets@),
            final (self).next_id == old(self).next_id,
            final (self).focused_widget == old(self).focused_widget,
            final (self).hovered_widget == old(self).hovered_widget,
            final (self).wf(),
    {
        let ghost pre = self.widgets@;
        let n = self.widgets.len();
        let mut i: usize = 0;
        while i < n
            invariant
                self.widgets@.len() == n,
                pre.len() == n,
                i <= n,
                self.next_id == old(self).next_id,
                self.focused_widget == old(self).focused_widget,
                self.hovered_widget == old(self).hovered_widget,
                children_wf(pre),
                pre == old(self).widgets@,
                forall|k: int| i <= k < n ==> self.widgets@[k] == pre[k],
                forall|k: int|
                    0 <= k < i ==> widget_update_rel(pre[k], delta_nanos, #[trigger] self.widgets@[k]),
                forall|k: int| 0 <= k < n ==> widget_wf(#[trigger] self.widgets@[k]),
            decreases n - i,
        {
            let ghost before = self.widgets@;
            let w = self.widgets.remove(i);
            let w2 = widget_update(w, delta_nanos);
            self.widgets.insert(i, w2);
            proof {
                assert(self.widgets@ =~= before.update(i as int, w2));
            }
            i += 1;
        }
        Ok(())
    }

    /// Remove every widget and clear the focus and hover references.
    pub fn clear(&mut self)
        ensures
            final (self).widgets@ == Seq::<Widget>::empty(),
            final (self).next_id == old(self).next_id,
            final (self).focused_widget is None,
            final (self).hovered_widget is None,
            final (self).wf(),
    {
        self.widgets.clear();
        self.focused_widget = None;
        self.hovered_widget = None;
    }

    /// Set the focused widget reference.
    pub fn set_focused_widget(&mut self, widget_id: Option<WidgetId>)
        ensures
            *final (self) == (WidgetManager { focused_widget: widget_id, ..*old(self) }),
    {
        self.focused_widget = widget_id;
    }

    /// The focused widget's identifier, if any.
    pub fn focused_widget(&self) -> (r: Option<WidgetId>)
        ensures
            r == self.focused_widget,
    {
        self.focused_widget
    }

    /// The hovered widget's identifier, if any.
    pub fn hovered_widget(&self) -> (r: Option<WidgetId>)
        ensures
            r == self.hovered_widget,
    {
        self.hovered_widget
    }

    /// The topmost visible widget under the point, as
    /// [`spec_widget_at_point`] describes.
    pub fn widget_at_point(&self, point: Point) -> (r: Option<WidgetId>)
        ensures
            r == spec_widget_at_point(self.widgets@, point.x as int, point.y as int),
    {
        let mut i: usize = self.widgets.len();
        proof {
            assert(self.widgets@.take(i as int) =~= self.widgets@);
        }
        while i > 0
            invariant
                i <= self.widgets@.len(),
                spec_widget_at_point(self.widgets@, point.x as int, point.y as int)
                    == spec_widget_at_point(
                    self.widgets@.take(i as int),
                    point.x as int,
                    point.y as int,
                ),
            decreases i,
        {
            i -= 1;
            let w = &self.widgets[i];
            proof {
                assert(self.widgets@.take(i + 1).last() == self.widgets@[i as int]);
                assert(self.widgets@.take(i + 1).drop_last() =~= self.widgets@.take(i as int));
            }
            if w.is_visible() && w.bounds().contains_point(point) {
                return Some(w.id());
            }
        }
        proof {
            assert(self.widgets@.take(0) =~= Seq::<Widget>::empty());
        }
        None
    }
}

} // verus!

verus! {

impl WidgetManager {
    /// Route one event: a mouse press refocuses (and rehovers) to the widget
    /// under the press before routing, a mouse move rehovers; the event is
    /// then offered to the focused widget first and to the remaining widgets
    /// in reverse paint order, as [`dispatch_rel`] describes, and the result
    /// says whether any widget consumed it.
    #[verifier::rlimit(60)]
    pub fn handle_event(&mut self, event: &Event) -> (r: Result<bool, crate::error::Error>)
        requires
            old(self).wf(),
        ensures
            final (self).wf(),
            final (self).next_id == old(self).next_id,
            final (self).focused_widget == focus_after(
                old(self).widgets@,
                old(self).focused_widget,
                *event,
            ),
            final (self).hovered_widget == hover_after(
                old(self).widgets@,
                old(self).hovered_widget,
                *event,
            ),
            r is Ok,
            r matches Ok(consumed) ==> dispatch_rel(
                old(self).widgets@,
                focus_after(old(self).widgets@, old(self).focused_widget, *event),
                *event,
                final (self).widgets@,
                consumed,
            ),
    {
        let ghost pre = self.widgets@;
        match event {
            Event::MousePressed { window_id: _, button: _, x, y } => {
                let hit = self.widget_at_point(Point { x: *x, y: *y });
                self.focused_widget = hit;
                self.hovered_widget = hit;
            },
            Event::MouseMoved { window_id: _, x, y } => {
                self.hovered_widget = self.widget_at_point(Point { x: *x, y: *y });
            },
            _ => {},
        }
        let focused = self.focused_widget;
        let ghost mid: Seq<Widget>;
        let ghost mut g_found: bool = false;
        let ghost mut g_fi: int = 0;
        match focused {
            Some(fid) => {
                // Offer the event to the first widget with the focused
                // identifier, if one is registered.
                let n = self.widgets.len();
                let mut fi: usize = 0;
                let mut found = false;
                loop
                    invariant_except_break
                        !found,
                    invariant
                        n == self.widgets@.len(),
                        fi <= n,
                        forall|k: int|
                            0 <= k < fi ==> (#[trigger] self.widgets@[k].spec_id()) != fid,
                    ensures
                        found ==> fi < n && self.widgets@[fi as int].spec_id() == fid,
                        !found ==> fi == n,
                        forall|k: int|
                            0 <= k < fi ==> (#[trigger] self.widgets@[k].spec_id()) != fid,
                        n == self.widgets@.len(),
                    decreases n - fi,
                {
                    if fi >= n {
                        break ;
                    }
                    if self.widgets[fi].id() == fid {
                        found = true;
                        break ;
                    }
                    fi += 1;
                }
                if found {
                    proof {
                        lemma_first_index_some(pre, fid, fi as int);
                        lemma_children_wf_index_q(pre, fi as int);
                    }
                    let ghost before = self.widgets@;
                    let w = self.widgets.remove(fi);
                    let (w2, consumed) = widget_handle_event(w, event);
                    self.widgets.insert(fi, w2);
                    proof {
                        lemma_widget_step_preserves_id(pre[fi as int], *event, w2, consumed);
                        assert(self.widgets@ =~= pre.update(fi as int, w2));
                        assert forall|k: int| 0 <= k < self.widgets@.len() implies widget_wf(
                            #[trigger] self.widgets@[k],
                        ) by {
                            if k != fi {
                                lemma_children_wf_index_q(pre, k);
                            }
                        }
                    }
                    if consumed {
                        proof {
                            assert(forall|k: int|
                                0 <= k < pre.len() && k != fi ==> #[trigger] self.widgets@[k]
                                    == pre[k]);
                            assert(dispatch_rel(pre, focused, *event, self.widgets@, true));
                        }
                        return Ok(true);
                    }
                    proof {
                        mid = self.widgets@;
                        g_found = true;
                        g_fi = fi as int;
                    }
                } else {
                    proof {
                        lemma_first_index_none(pre, fid);
                        mid = self.widgets@;
                    }
                }
            },
            None => {
                proof {
                    mid = self.widgets@;
                }
            },
        }
        // Offer the event to the remaining widgets, topmost first, skipping
        // any widget with the focused identifier.
        let n = self.widgets.len();
        let mut i: usize = n;
        #[verifier::loop_isolation(false)]
        while i > 0
            invariant
                n == self.widgets@.len(),
                mid.len() == n,
                i <= n,
                forall|k: int| 0 <= k < i ==> #[trigger] self.widgets@[k] == mid[k],
                forall|k: int|
                    i <= k < n ==> if focused == Some(#[trigger] mid[k].spec_id()) {
                        self.widgets@[k] == mid[k]
                    } else {
                        widget_step(mid[k], *event, self.widgets@[k], false)
                    },
                forall|k: int| 0 <= k < n ==> widget_wf(#[trigger] self.widgets@[k]),
                self.focused_widget == focused,
                self.hovered_widget == hover_after(
                    old(self).widgets@,
                    old(self).hovered_widget,
                    *event,
                ),
                self.next_id == old(self).next_id,
            decreases i,
        {
            i -= 1;
            let skip = match focused {
                Some(fid) => self.widgets[i].id() == fid,
                None => false,
            };
            if !skip {
                let ghost before = self.widgets@;
                let w = self.widgets.remove(i);
                let (w2, consumed) = widget_handle_event(w, event);
                self.widgets.insert(i, w2);
                proof {
                    assert(self.widgets@ =~= before.update(i as int, w2));
                }
                if consumed {
                    proof {
                        let post = self.widgets@;
                        assert(consumed_at(mid, focused, *event, post, i as int));
                        assert(rev_scan(mid, focused, *event, post, true));
                        if g_found {
                            assert(mid[g_fi].spec_id() == focused->0);
                            assert(post[g_fi] == mid[g_fi]);
                            assert(pre.update(g_fi, post[g_fi]) =~= mid);
                            assert(widget_step(pre[g_fi], *event, post[g_fi], false));
                        } else {
                            assert(mid =~= pre);
                        }
                        assert(dispatch_rel(pre, focused, *event, post, true));
                    }
                    return Ok(true);
                }
            }
        }
        proof {
            let post = self.widgets@;
            assert(all_declined(mid, focused, *event, post));
            assert(rev_scan(mid, focused, *event, post, false));
            if g_found {
                assert(mid[g_fi].spec_id() == focused->0);
                assert(post[g_fi] == mid[g_fi]);
                assert(pre.update(g_fi, post[g_fi]) =~= mid);
                assert(widget_step(pre[g_fi], *event, post[g_fi], false));
            } else {
                assert(mid =~= pre);
            }
            assert(dispatch_rel(pre, focused, *event, post, false));
        }
        Ok(false)
    }
}

/// A widget keeps its kind and identifier across any event step.
pub proof fn lemma_widget_step_preserves_id(pre: Widget, e: Event, post: Widget, consumed: bool)
    requires
        widget_step(pre, e, post, consumed),
    ensures
        post.spec_id() == pre.spec_id(),
{
}

/// An element of a pointwise-valid sequence is valid (quantified form).
pub proof fn lemma_children_wf_index_q(s: Seq<Widget>, i: int)
    requires
        children_wf(s),
        0 <= i < s.len(),
    ensures
        widget_wf(s[i]),
{
}

} // verus!

verus! {

/// Law (hit test topmost-wins): when two widgets under a point are visible,
/// hit testing returns the one drawn later in paint order; widgets above
/// them that are invisible or miss the point are skipped. In particular an
/// invisible widget over the same point never wins.
pub proof fn lemma_hit_test_topmost_wins(s: Seq<Widget>, x: int, y: int, j1: int, j2: int)
    requires
        0 <= j1 < j2 < s.len(),
        s[j1].spec_base().visible && s[j1].spec_base().bounds.spec_contains(x, y),
        s[j2].spec_base().visible && s[j2].spec_base().bounds.spec_contains(x, y),
        forall|k: int|
            j2 < k < s.len() ==> !((#[trigger] s[k].spec_base()).visible
                && s[k].spec_base().bounds.spec_contains(x, y)),
    ensures
        spec_widget_at_point(s, x, y) == Some(s[j2].spec_id()),
    decreases s.len(),
{
    if j2 == s.len() - 1 {
        assert(s.last() == s[j2]);
    } else {
        assert(s.last() == s[s.len() - 1]);
        assert(!(s.last().spec_base().visible && s.last().spec_base().bounds.spec_contains(x, y)));
        assert(s.drop_last()[j1] == s[j1]);
        assert(s.drop_last()[j2] == s[j2]);
        assert forall|k: int| j2 < k < s.drop_last().len() implies !((
        #[trigger] s.drop_last()[k].spec_base()).visible
            && s.drop_last()[k].spec_base().bounds.spec_contains(x, y)) by {
            assert(s.drop_last()[k] == s[k]);
        }
        lemma_hit_test_topmost_wins(s.drop_last(), x, y, j1, j2);
    }
}

/// Law (dispatch consumption stops propagation): when the focused identifier
/// picks out widget `fi` (the first widget carrying it) and that widget
/// consumes the event, dispatch touches no other widget, and the consumed
/// flag is reported. With the focus-on-press rule, `fi` is the widget the
/// press landed on, so its identifier is also the new focus.
pub proof fn lemma_dispatch_consumption_stops(
    pre: Seq<Widget>,
    fid: WidgetId,
    fi: int,
    e: Event,
    post: Seq<Widget>,
    consumed: bool,
)
    requires
        0 <= fi < pre.len(),
        pre[fi].spec_id() == fid,
        forall|k: int| 0 <= k < fi ==> (#[trigger] pre[k].spec_id()) != fid,
        dispatch_rel(pre, Some(fid), e, post, consumed),
        forall|w2: Widget, c: bool| widget_step(pre[fi], e, w2, c) ==> c,
    ensures
        consumed,
        forall|k: int| 0 <= k < pre.len() && k != fi ==> post[k] == pre[k],
        widget_step(pre[fi], e, post[fi], true),
{
    lemma_first_index_some(pre, fid, fi);
    assert(first_index_with(pre, fid) == Some(fi));
    if !(widget_step(pre[fi], e, post[fi], true) && consumed && (forall|k: int|
        0 <= k < pre.len() && k != fi ==> post[k] == pre[k])) {
        assert(widget_step(pre[fi], e, post[fi], false));
        assert(false);
    }
}

/// Law (dispatch consumption stops propagation, general form): whenever
/// dispatch reports that some widget in the offer order consumed the event,
/// there is a consuming widget, and every widget below it in paint order is
/// untouched by the dispatch -- it was never offered the event. The one
/// possible exception below the consumer is the widget carrying the focused
/// identifier, which by design is offered the event before everything else.
pub proof fn lemma_consumption_stops_below(
    pre: Seq<Widget>,
    focused: Option<WidgetId>,
    e: Event,
    post: Seq<Widget>,
)
    requires
        dispatch_rel(pre, focused, e, post, true),
    ensures
        exists|j: int|
            #![trigger pre[j].spec_id()]
            {
                &&& 0 <= j < pre.len()
                &&& widget_step(pre[j], e, post[j], true)
                &&& forall|k: int|
                    0 <= k < j && focused != Some(#[trigger] pre[k].spec_id()) ==> post[k]
                        == pre[k]
            },
{
    match focused {
        None => {
            assert(rev_scan(pre, None, e, post, true));
            let j = choose|j: int| #![trigger pre[j].spec_id()] consumed_at(pre, None, e, post, j);
            assert(consumed_at(pre, None, e, post, j));
            assert(0 <= j < pre.len() && None::<WidgetId> != Some(pre[j].spec_id()));
            assert(widget_step(pre[j], e, post[j], true));
            assert(forall|k: int|
                0 <= k < j && focused != Some(#[trigger] pre[k].spec_id()) ==> post[k] == pre[k]);
        },
        Some(fid) => {
            match first_index_with(pre, fid) {
                None => {
                    let j = choose|j: int|
                        #![trigger pre[j].spec_id()]
                        consumed_at(pre, Some(fid), e, post, j);
                    assert(consumed_at(pre, Some(fid), e, post, j));
                    assert(0 <= j < pre.len() && Some(fid) != Some(pre[j].spec_id()));
                    assert(widget_step(pre[j], e, post[j], true));
                    assert(forall|k: int|
                        0 <= k < j && focused != Some(#[trigger] pre[k].spec_id()) ==> post[k]
                            == pre[k]);
                },
                Some(fi) => {
                    lemma_first_index_found(pre, fid, fi);
                    if widget_step(pre[fi], e, post[fi], true) && (forall|k: int|
                        0 <= k < pre.len() && k != fi ==> post[k] == pre[k]) {
                        // The focused widget itself consumed: nothing else
                        // was offered the event at all.
                        let j = fi;
                        assert(0 <= j < pre.len() && pre[j].spec_id() == fid);
                        assert(forall|k: int|
                            0 <= k < j && focused != Some(#[trigger] pre[k].spec_id()) ==> post[k]
                                == pre[k]);
                    } else {
                        // The focused widget declined; the consumer came from
                        // the reverse scan over the rest.
                        assert(widget_step(pre[fi], e, post[fi], false));
                        let mid = pre.update(fi, post[fi]);
                        assert(rev_scan(mid, Some(fid), e, post, true));
                        let j = choose|j: int|
                            #![trigger mid[j].spec_id()]
                            consumed_at(mid, Some(fid), e, post, j);
                        assert(consumed_at(mid, Some(fid), e, post, j));
                        lemma_widget_step_preserves_id(pre[fi], e, post[fi], false);
                        assert(mid[fi].spec_id() == fid);
                        assert(Some(fid) != Some(mid[j].spec_id()));
                        assert(j != fi);
                        assert(mid[j] == pre[j]);
                        assert(widget_step(pre[j], e, post[j], true));
                        assert forall|k: int|
                            0 <= k < j && focused != Some(
                                #[trigger] pre[k].spec_id(),
                            ) implies post[k] == pre[k] by {
                            assert(post[k] == mid[k]);
                            assert(k != fi);
                            assert(mid[k] == pre[k]);
                        }
                        assert(0 <= j < pre.len() && pre[j].spec_id() == mid[j].spec_id());
                    }
                },
            }
        },
    }
}

/// A visible, enabled button whose bounds contain a left press consumes that
/// press, whatever its other state: the concrete witness for
/// [`lemma_dispatch_consumption_stops`].
pub proof fn lemma_button_consumes_press(
    b: crate::widgets::button::Button,
    window_id: u64,
    x: i32,
    y: i32,
)
    requires
        b.base.visible,
        b.base.enabled,
        b.base.bounds.spec_contains(x as int, y as int),
    ensures
        forall|w2: Widget, c: bool|
            widget_step(
                Widget::Button(b),
                Event::MousePressed {
                    window_id,
                    button: crate::platform::MouseButton::Left,
                    x,
                    y,
                },
                w2,
                c,
            ) ==> c,
{
}

} // verus!
