//! Models of the primitive sub-widgets the dialog composes: fill pads, text
//! labels and buttons, together with the interaction events they consume.
//!
//! Rasterisation, fonts and touch decoding live in the host; these types
//! carry exactly what the dialog's layout and routing logic reads: placed
//! rectangles, measured text heights, and pending-repaint marks.

use crate::geometry::{Point, Rect};
use crate::theme::MAX_LABEL_HEIGHT;
use vstd::prelude::*;

verus! {

/// An RGB565 colour value.
#[derive(Clone, Copy, PartialEq, Eq, Structural, Debug)]
pub struct Color {
    pub rgb565: u16,
}

/// A handle to a glyph asset held by the host; the dialog never looks inside
/// it, it only decides where and whether the glyph is drawn.
#[derive(Clone, Copy, PartialEq, Eq, Structural, Debug)]
pub struct Icon {
    pub id: u16,
}

/// An interaction event delivered by the host, already decoded: either a
/// completed tap at a screen position, or a timer tick that no widget of
/// this layer consumes.
#[derive(Clone, Copy, PartialEq, Eq, Structural, Debug)]
pub enum Event {
    Click(Point),
    Timer,
}

/// The only message a button emits.
#[derive(Clone, Copy, PartialEq, Eq, Structural, Debug)]
pub enum ButtonMsg {
    Clicked,
}

/// What a button shows: a text caption or a glyph.
#[derive(Clone, PartialEq, Eq, Debug)]
pub enum ButtonContent {
    Text(String),
    Icon(Icon),
}

/// A push button: its content and, once placed, the screen rectangle that
/// consumes taps.
#[derive(Clone, Debug)]
pub struct Button {
    pub content: ButtonContent,
    pub area: Rect,
}

impl Button {
    /// Whether `event` activates this button: a tap inside its placed area.
    pub open spec fn spec_hit(self, event: Event) -> bool {
        match event {
            Event::Click(p) => self.area.spec_contains(p),
            Event::Timer => false,
        }
    }

    pub fn with_text(text: String) -> (r: Button)
        ensures
            r == (Button { content: ButtonContent::Text(text), area: Rect { x0: 0, y0: 0, x1: 0, y1: 0 } }),
    {
        Button { content: ButtonContent::Text(text), area: Rect::zero() }
    }

    pub fn with_icon(icon: Icon) -> (r: Button)
        ensures
            r == (Button { content: ButtonContent::Icon(icon), area: Rect { x0: 0, y0: 0, x1: 0, y1: 0 } }),
    {
        Button { content: ButtonContent::Icon(icon), area: Rect::zero() }
    }

    pub fn place(&mut self, bounds: Rect)
        ensures
            *final(self) == (Button { area: bounds, ..*old(self) }),
    {
        self.area = bounds;
    }

    /// Offer an event to the button; it reports `Clicked` exactly when the
    /// tap lies inside its placed area.
    pub fn event(&self, event: &Event) -> (r: Option<ButtonMsg>)
        ensures
            r == if self.spec_hit(*event) {
                Some(ButtonMsg::Clicked)
            } else {
                None::<ButtonMsg>
            },
    {
        match event {
            Event::Click(p) => {
                if self.area.contains(*p) {
                    Some(ButtonMsg::Clicked)
                } else {
                    None
                }
            },
            Event::Timer => None,
        }
    }
}

/// A text label. The host's font engine measures the text once; the label
/// carries that measured height and, after placement, the rectangle the text
/// occupies.
#[derive(Clone, Debug)]
pub struct Label {
    pub text: String,
    /// Height of the laid-out text in pixels, measured by the host.
    pub natural_height: i16,
    /// Whether the text is centred vertically inside the bounds it is given
    /// (otherwise it is laid out from the top edge).
    pub vcentered: bool,
    pub area: Rect,
    pub repaint_pending: bool,
}

impl Label {
    pub open spec fn wf(self) -> bool {
        0 <= self.natural_height <= MAX_LABEL_HEIGHT
    }

    /// The rectangle the text occupies when laid out inside `bounds`: the
    /// full width of `bounds`; the top edge per the vertical alignment, and
    /// never above `bounds` (a label taller than a centred band sticks to the
    /// band's top edge rather than rising above it); the bottom edge clamped
    /// to `bounds` (text never runs below the bounds it was given).
    pub open spec fn spec_placed_area(self, bounds: Rect) -> Rect {
        let top = if self.vcentered && self.natural_height <= bounds.spec_height() {
            bounds.y0 + (bounds.spec_height() - self.natural_height) / 2
        } else {
            bounds.y0 as int
        };
        let bottom = if top + self.natural_height <= bounds.y1 {
            top + self.natural_height
        } else {
            bounds.y1 as int
        };
        Rect { x0: bounds.x0, y0: top as i16, x1: bounds.x1, y1: bottom as i16 }
    }

    pub fn new(text: String, natural_height: i16) -> (r: Label)
        requires
            0 <= natural_height <= MAX_LABEL_HEIGHT,
        ensures
            r == (Label {
                text,
                natural_height,
                vcentered: false,
                area: Rect { x0: 0, y0: 0, x1: 0, y1: 0 },
                repaint_pending: false,
            }),
    {
        Label { text, natural_height, vcentered: false, area: Rect::zero(), repaint_pending: false }
    }

    /// The same label, centred vertically inside whatever bounds it is later
    /// placed in.
    pub fn vertically_centered(self) -> (r: Label)
        ensures
            r == (Label { vcentered: true, ..self }),
    {
        Label { vcentered: true, ..self }
    }

    /// Lay the text out inside `bounds`.
    pub fn place(&mut self, bounds: Rect)
        requires
            old(self).wf(),
            i16::MIN <= bounds.y1 - bounds.y0 <= i16::MAX,
            bounds.y0 + old(self).natural_height <= i16::MAX,
        ensures
            *final(self) == (Label { area: old(self).spec_placed_area(bounds), ..*old(self) }),
    {
        let bh = bounds.height();
        let top = if self.vcentered && self.natural_height <= bh {
            bounds.y0 + (bh - self.natural_height) / 2
        } else {
            bounds.y0
        };
        let bottom = if top + self.natural_height <= bounds.y1 {
            top + self.natural_height
        } else {
            bounds.y1
        };
        self.area = Rect { x0: bounds.x0, y0: top, x1: bounds.x1, y1: bottom };
    }

    /// Mark the label as needing a full repaint on the next frame.
    pub fn request_complete_repaint(&mut self)
        ensures
            *final(self) == (Label { repaint_pending: true, ..*old(self) }),
    {
        self.repaint_pending = true;
    }
}

/// An opaque fill region: repainted in its background colour to erase stale
/// pixels before anything is drawn over it.
#[derive(Clone, Copy, PartialEq, Eq, Structural, Debug)]
pub struct Pad {
    pub color: Color,
    pub area: Rect,
    /// Whether the region must be wiped on the next frame.
    pub clear_pending: bool,
}

impl Pad {
    pub fn with_background(color: Color) -> (r: Pad)
        ensures
            r == (Pad { color, area: Rect { x0: 0, y0: 0, x1: 0, y1: 0 }, clear_pending: false }),
    {
        Pad { color, area: Rect::zero(), clear_pending: false }
    }

    pub fn place(&mut self, bounds: Rect)
        ensures
            *final(self) == (Pad { area: bounds, ..*old(self) }),
    {
        self.area = bounds;
    }

    /// Request that the region be wiped on the next frame.
    pub fn clear(&mut self)
        ensures
            *final(self) == (Pad { clear_pending: true, ..*old(self) }),
    {
        self.clear_pending = true;
    }
}

} // verus!
