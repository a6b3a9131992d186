//! The confirmation dialog: construction, layout, event routing and paint
//! composition.

use crate::component::{Button, ButtonContent, ButtonMsg, Color, Event, Icon, Label, Pad};
use crate::geometry::{Point, Rect};
use crate::theme::{
    corner_button_area, spec_corner_button_area, spec_screen, spec_title_area, screen, title_area,
    BUTTON_AREA_START, BUTTON_HEIGHT, CLOSE_ICON_ID, CONTENT_PADDING, CONTENT_START,
    CONTENT_START_WITH_ICON, ICON_TOP, INFO_ICON_ID, WIDTH,
};
use vstd::prelude::*;

verus! {

/// The dialog's terminal outcome, reported to the host.
#[derive(Clone, Copy, PartialEq, Eq, Structural, Debug)]
pub enum ConfirmMsg {
    Cancel,
    Confirm,
}

/// The optional info-overlay bundle: its own title and detail text, the
/// corner button that opens it and the corner button that closes it.
#[derive(Clone, Debug)]
pub struct ConfirmInfo {
    pub title: Label,
    pub text: Label,
    pub info_button: Button,
    pub close_button: Button,
}

/// A confirmation dialog on a fixed-size screen: a title, a message body, an
/// optional alert line, an optional leading icon, the cancel/confirm action
/// buttons, and an optional info overlay toggled by a corner button.
#[derive(Clone, Debug)]
pub struct Confirm {
    pub bg: Pad,
    pub content_pad: Pad,
    pub bg_color: Color,
    pub icon: Option<Icon>,
    pub title: Option<Label>,
    pub message: Label,
    pub alert: Option<Label>,
    pub left_button: Button,
    pub right_button: Button,
    pub info: Option<ConfirmInfo>,
    /// Whether the info overlay is currently shown; the dialog's only
    /// mutable state. `Main` and `Overlay` are `false` and `true` here.
    pub show_info: bool,
}

/// The region wiped by the content fill: everything above the button band.
pub open spec fn spec_content_fill_area() -> Rect {
    Rect { x0: 0, y0: 0, x1: WIDTH, y1: BUTTON_AREA_START }
}

/// Top edge of the content area; an icon reserves extra room above it.
pub open spec fn spec_content_start(has_icon: bool) -> i16 {
    if has_icon {
        CONTENT_START_WITH_ICON
    } else {
        CONTENT_START
    }
}

/// The content area: fixed horizontal margins, from the icon-dependent start
/// down to the button band minus padding.
pub open spec fn spec_content_area(has_icon: bool) -> Rect {
    Rect {
        x0: CONTENT_PADDING,
        y0: spec_content_start(has_icon),
        x1: (WIDTH - CONTENT_PADDING) as i16,
        y1: (BUTTON_AREA_START - CONTENT_PADDING) as i16,
    }
}

/// Width of each action button: the band minus three pads, halved.
pub open spec fn spec_button_width() -> int {
    (WIDTH - 3 * CONTENT_PADDING) / 2
}

pub open spec fn spec_left_button_area() -> Rect {
    Rect {
        x0: CONTENT_PADDING,
        y0: BUTTON_AREA_START,
        x1: (CONTENT_PADDING + spec_button_width()) as i16,
        y1: (BUTTON_AREA_START + BUTTON_HEIGHT) as i16,
    }
}

pub open spec fn spec_right_button_area() -> Rect {
    Rect {
        x0: (2 * CONTENT_PADDING + spec_button_width()) as i16,
        y0: BUTTON_AREA_START,
        x1: (2 * CONTENT_PADDING + 2 * spec_button_width()) as i16,
        y1: (BUTTON_AREA_START + BUTTON_HEIGHT) as i16,
    }
}

/// The overlay's detail text fills the screen from the title band's bottom
/// edge down to the button band.
pub open spec fn spec_overlay_text_area() -> Rect {
    Rect {
        x0: CONTENT_PADDING,
        y0: spec_title_area().y1,
        x1: (WIDTH - CONTENT_PADDING) as i16,
        y1: BUTTON_AREA_START,
    }
}

/// One step of the dialog's paint composition; the payload of each step (the
/// rectangle, text or glyph drawn) is held by the corresponding sub-widget.
#[derive(Clone, Copy, PartialEq, Eq, Structural, Debug)]
pub enum PaintOp {
    BackgroundFill,
    ContentFill,
    InfoButton,
    CloseButton,
    OverlayTitle,
    OverlayText,
    Title,
    Message,
    Alert,
    LeftButton,
    RightButton,
    IconGlyph,
}

impl Confirm {
    /// Every label the dialog owns carries a sane measured height.
    pub open spec fn wf(self) -> bool {
        &&& self.message.wf()
        &&& (self.title matches Some(t) ==> t.wf())
        &&& (self.alert matches Some(a) ==> a.wf())
        &&& (self.info matches Some(i) ==> i.title.wf() && i.text.wf())
    }

    pub open spec fn spec_has_icon(self) -> bool {
        self.icon is Some
    }

    /// The message's measured height: its text laid out once inside the
    /// content area.
    pub open spec fn spec_message_height(self) -> int {
        self.message.spec_placed_area(spec_content_area(self.spec_has_icon())).spec_height()
    }

    /// The alert's measured height, when an alert is present.
    pub open spec fn spec_alert_height(self) -> int {
        self.alert->0.spec_placed_area(spec_content_area(self.spec_has_icon())).spec_height()
    }

    /// The three-way gap of the message-plus-alert layout: the space left
    /// after both labels, split into three equal slots. A negative remainder
    /// (labels taller than the content area) is clamped to a zero gap, so
    /// the degenerate case keeps a deterministic top-anchored stack.
    pub open spec fn spec_space_height(self) -> int {
        let rem = spec_content_area(self.spec_has_icon()).spec_height() - self.spec_message_height()
            - self.spec_alert_height();
        if rem >= 0 {
            rem / 3
        } else {
            0
        }
    }

    /// The bounds handed to the message label: with an alert, the first gap
    /// precedes the message; alone, the message is centred in the content
    /// area and stops above the button band minus padding.
    pub open spec fn spec_message_bounds(self) -> Rect {
        if self.alert is Some {
            Rect {
                x0: CONTENT_PADDING,
                y0: (spec_content_start(self.spec_has_icon()) + self.spec_space_height()) as i16,
                x1: (WIDTH - CONTENT_PADDING) as i16,
                y1: BUTTON_AREA_START,
            }
        } else {
            let c = spec_content_area(self.spec_has_icon());
            Rect {
                x0: CONTENT_PADDING,
                y0: ((c.y0 + c.y1) / 2 - self.spec_message_height() / 2) as i16,
                x1: (WIDTH - CONTENT_PADDING) as i16,
                y1: (BUTTON_AREA_START - CONTENT_PADDING) as i16,
            }
        }
    }

    /// The bounds handed to the alert label: two gaps and the message
    /// precede it.
    pub open spec fn spec_alert_bounds(self) -> Rect {
        Rect {
            x0: CONTENT_PADDING,
            y0: (spec_content_start(self.spec_has_icon()) + 2 * self.spec_space_height()
                + self.spec_message_height()) as i16,
            x1: (WIDTH - CONTENT_PADDING) as i16,
            y1: BUTTON_AREA_START,
        }
    }

    /// Where the message's text stands after placement.
    pub open spec fn spec_message_area(self) -> Rect {
        self.message.spec_placed_area(self.spec_message_bounds())
    }

    /// Where the alert's text stands after placement, when present.
    pub open spec fn spec_alert_area(self) -> Rect {
        self.alert->0.spec_placed_area(self.spec_alert_bounds())
    }

    /// Whether `event` activates the overlay's close button: only possible
    /// while the overlay is shown.
    pub open spec fn spec_overlay_close_hit(self, event: Event) -> bool {
        &&& self.info matches Some(i)
        &&& self.show_info
        &&& i.close_button.spec_hit(event)
    }

    /// Whether `event` activates the open-info corner button: only possible
    /// while the main view is shown.
    pub open spec fn spec_overlay_open_hit(self, event: Event) -> bool {
        &&& self.info matches Some(i)
        &&& !self.show_info
        &&& i.info_button.spec_hit(event)
    }

    /// The overlay may only be shown when the info feature was configured.
    pub open spec fn inv(self) -> bool {
        self.show_info ==> self.info is Some
    }

    /// The overlay state after one event: the close button leaves the
    /// overlay, the open button enters it, and nothing else moves it.
    pub open spec fn spec_next_show_info(self, event: Event) -> bool {
        if self.spec_overlay_close_hit(event) {
            false
        } else if self.spec_overlay_open_hit(event) {
            true
        } else {
            self.show_info
        }
    }

    /// The outcome one event yields: a corner-slot activation consumes the
    /// event with no outcome; otherwise the cancel button is offered the
    /// event before the confirm button, and an event that activates neither
    /// yields nothing.
    pub open spec fn spec_outcome(self, event: Event) -> Option<ConfirmMsg> {
        if self.spec_overlay_close_hit(event) || self.spec_overlay_open_hit(event) {
            None
        } else if self.left_button.spec_hit(event) {
            Some(ConfirmMsg::Cancel)
        } else if self.right_button.spec_hit(event) {
            Some(ConfirmMsg::Confirm)
        } else {
            None
        }
    }

    /// The dialog's full paint sequence, a pure function of its state: the
    /// two fills always come first; with the overlay shown only the overlay
    /// widgets and the action buttons follow; otherwise the main view is
    /// drawn, with the open-info affordance first and the icon last.
    pub open spec fn spec_paint_ops(self) -> Seq<PaintOp> {
        let fills = seq![PaintOp::BackgroundFill, PaintOp::ContentFill];
        if self.info is Some && self.show_info {
            fills + seq![
                PaintOp::CloseButton,
                PaintOp::OverlayTitle,
                PaintOp::OverlayText,
                PaintOp::LeftButton,
                PaintOp::RightButton,
            ]
        } else {
            let open_button = if self.info is Some {
                seq![PaintOp::InfoButton]
            } else {
                Seq::<PaintOp>::empty()
            };
            let title = if self.title is Some {
                seq![PaintOp::Title]
            } else {
                Seq::<PaintOp>::empty()
            };
            let alert = if self.alert is Some {
                seq![PaintOp::Alert]
            } else {
                Seq::<PaintOp>::empty()
            };
            let icon = if self.icon is Some {
                seq![PaintOp::IconGlyph]
            } else {
                Seq::<PaintOp>::empty()
            };
            fills + open_button + title + seq![PaintOp::Message] + alert
                + seq![PaintOp::LeftButton, PaintOp::RightButton] + icon
        }
    }

    /// Build a dialog. Every optional feature (icon, title, alert, info
    /// overlay) is fixed here and never added or removed afterwards; the
    /// overlay starts hidden. The title and the overlay's own labels are
    /// centred vertically inside the bands they will occupy.
    pub fn new(
        bg_color: Color,
        icon: Option<Icon>,
        left_button: Button,
        right_button: Button,
        title: Option<Label>,
        msg: Label,
        alert: Option<Label>,
        info: Option<(Label, Label)>,
    ) -> (r: Confirm)
        ensures
            r.bg == (Pad {
                color: bg_color,
                area: Rect { x0: 0, y0: 0, x1: 0, y1: 0 },
                clear_pending: true,
            }),
            r.content_pad == (Pad {
                color: bg_color,
                area: Rect { x0: 0, y0: 0, x1: 0, y1: 0 },
                clear_pending: false,
            }),
            r.bg_color == bg_color,
            r.icon == icon,
            title matches Some(t) ==> r.title == Some(Label { vcentered: true, ..t }),
            title is None ==> r.title is None,
            r.message == msg,
            r.alert == alert,
            r.left_button == left_button,
            r.right_button == right_button,
            info matches Some(p) ==> r.info == Some(ConfirmInfo {
                title: (Label { vcentered: true, ..p.0 }),
                text: (Label { vcentered: true, ..p.1 }),
                info_button: (Button {
                    content: ButtonContent::Icon(Icon { id: INFO_ICON_ID }),
                    area: Rect { x0: 0, y0: 0, x1: 0, y1: 0 },
                }),
                close_button: (Button {
                    content: ButtonContent::Icon(Icon { id: CLOSE_ICON_ID }),
                    area: Rect { x0: 0, y0: 0, x1: 0, y1: 0 },
                }),
            }),
            info is None ==> r.info is None,
            !r.show_info,
    {
        let mut instance = Confirm {
            bg: Pad::with_background(bg_color),
            content_pad: Pad::with_background(bg_color),
            bg_color,
            icon,
            title: match title {
                Some(t) => Some(t.vertically_centered()),
                None => None,
            },
            message: msg,
            alert,
            left_button,
            right_button,
            info: match info {
                Some((info_title, info_text)) => Some(ConfirmInfo {
                    title: info_title.vertically_centered(),
                    text: info_text.vertically_centered(),
                    info_button: Button::with_icon(Icon { id: INFO_ICON_ID }),
                    close_button: Button::with_icon(Icon { id: CLOSE_ICON_ID }),
                }),
                None => None,
            },
            show_info: false,
        };
        instance.bg.clear();
        instance
    }

    /// Compute every sub-widget rectangle from the fixed screen dimensions:
    /// the fills, the icon-dependent content area with the message (and
    /// alert, under the three-slot split), the equal-width action buttons,
    /// the title band, and the overlay's corner slot and text region.
    /// Placement is deterministic and idempotent; it reads no mutable state
    /// but the labels' measured heights.
    #[verifier::rlimit(100)]
    pub fn place(&mut self, bounds: Rect) -> (r: Rect)
        requires
            old(self).wf(),
        ensures
            r == bounds,
            final(self).bg == (Pad { area: spec_screen(), ..old(self).bg }),
            final(self).content_pad == (Pad {
                area: spec_content_fill_area(),
                ..old(self).content_pad
            }),
            final(self).message == (Label {
                area: old(self).spec_message_area(),
                ..old(self).message
            }),
            old(self).alert matches Some(a) ==> final(self).alert == Some(Label {
                area: old(self).spec_alert_area(),
                ..a
            }),
            old(self).alert is None ==> final(self).alert is None,
            final(self).left_button == (Button {
                area: spec_left_button_area(),
                ..old(self).left_button
            }),
            final(self).right_button == (Button {
                area: spec_right_button_area(),
                ..old(self).right_button
            }),
            old(self).title matches Some(t) ==> final(self).title == Some(Label {
                area: t.spec_placed_area(spec_title_area()),
                ..t
            }),
            old(self).title is None ==> final(self).title is None,
            old(self).info matches Some(i) ==> final(self).info == Some(ConfirmInfo {
                title: (Label { area: i.title.spec_placed_area(spec_title_area()), ..i.title }),
                text: (Label { area: i.text.spec_placed_area(spec_overlay_text_area()), ..i.text }),
                info_button: (Button { area: spec_corner_button_area(), ..i.info_button }),
                close_button: (Button { area: spec_corner_button_area(), ..i.close_button }),
            }),
            old(self).info is None ==> final(self).info is None,
            final(self).bg_color == old(self).bg_color,
            final(self).icon == old(self).icon,
            final(self).show_info == old(self).show_info,
    {
        self.bg.place(screen());
        self.content_pad.place(Rect::new(Point::zero(), Point::new(WIDTH, BUTTON_AREA_START)));

        let content_area_start = if self.icon.is_some() {
            CONTENT_START_WITH_ICON
        } else {
            CONTENT_START
        };

        let content_area = Rect::new(
            Point::new(CONTENT_PADDING, content_area_start),
            Point::new(WIDTH - CONTENT_PADDING, BUTTON_AREA_START - CONTENT_PADDING),
        );

        self.message.place(content_area);
        let message_height = self.message.area.height();

        match &mut self.alert {
            Some(alert) => {
                alert.place(content_area);
                let alert_height = alert.area.height();

                let remaining = content_area.height() - message_height - alert_height;
                let space_height = if remaining >= 0 {
                    remaining / 3
                } else {
                    0
                };

                self.message.place(Rect::new(
                    Point::new(CONTENT_PADDING, content_area_start + space_height),
                    Point::new(WIDTH - CONTENT_PADDING, BUTTON_AREA_START),
                ));
                let alert_top = content_area_start + 2 * space_height + message_height;
                alert.place(Rect::new(
                    Point::new(CONTENT_PADDING, alert_top),
                    Point::new(WIDTH - CONTENT_PADDING, BUTTON_AREA_START),
                ));
            },
            None => {
                let center_y = content_area.center().y;
                self.message.place(Rect::new(
                    Point::new(CONTENT_PADDING, center_y - message_height / 2),
                    Point::new(WIDTH - CONTENT_PADDING, BUTTON_AREA_START - CONTENT_PADDING),
                ));
            },
        }

        let button_width = (WIDTH - 3 * CONTENT_PADDING) / 2;
        self.left_button.place(Rect::from_top_left_and_size(
            Point::new(CONTENT_PADDING, BUTTON_AREA_START),
            button_width,
            BUTTON_HEIGHT,
        ));
        self.right_button.place(Rect::from_top_left_and_size(
            Point::new(2 * CONTENT_PADDING + button_width, BUTTON_AREA_START),
            button_width,
            BUTTON_HEIGHT,
        ));

        if let Some(title) = &mut self.title {
            title.place(title_area());
        }

        if let Some(info) = &mut self.info {
            info.info_button.place(corner_button_area());
            info.close_button.place(corner_button_area());
            info.title.place(title_area());
            info.text.place(Rect::new(
                Point::new(CONTENT_PADDING, title_area().y1),
                Point::new(WIDTH - CONTENT_PADDING, BUTTON_AREA_START),
            ));
        }
        bounds
    }

    /// Route one event, in strict priority order: the overlay's close button
    /// while the overlay is shown, else the open-info button while it is
    /// hidden, else the cancel then the confirm action button. A corner-slot
    /// activation only toggles the overlay (wiping the content fill and
    /// marking the labels that re-enter the freed space for a full repaint)
    /// and reports nothing; only the action buttons yield an outcome. An
    /// event that activates nothing leaves the dialog untouched.
    pub fn event(&mut self, event: &Event) -> (r: Option<ConfirmMsg>)
        ensures
            r == old(self).spec_outcome(*event),
            final(self).show_info == old(self).spec_next_show_info(*event),
            old(self).inv() ==> final(self).inv(),
            old(self).spec_overlay_close_hit(*event) ==> {
                &&& r is None
                &&& !final(self).show_info
                &&& final(self).content_pad == (Pad {
                    clear_pending: true,
                    ..old(self).content_pad
                })
                &&& (old(self).title matches Some(t) ==> final(self).title == Some(Label {
                    repaint_pending: true,
                    ..t
                }))
                &&& (old(self).title is None ==> final(self).title is None)
                &&& final(self).message == (Label {
                    repaint_pending: true,
                    ..old(self).message
                })
                &&& final(self).bg == old(self).bg
                &&& final(self).bg_color == old(self).bg_color
                &&& final(self).icon == old(self).icon
                &&& final(self).alert == old(self).alert
                &&& final(self).left_button == old(self).left_button
                &&& final(self).right_button == old(self).right_button
                &&& final(self).info == old(self).info
            },
            old(self).spec_overlay_open_hit(*event) ==> {
                &&& r is None
                &&& final(self).show_info
                &&& final(self).content_pad == (Pad {
                    clear_pending: true,
                    ..old(self).content_pad
                })
                &&& (old(self).info matches Some(i) ==> final(self).info == Some(ConfirmInfo {
                    title: (Label { repaint_pending: true, ..i.title }),
                    text: (Label { repaint_pending: true, ..i.text }),
                    ..i
                }))
                &&& final(self).bg == old(self).bg
                &&& final(self).bg_color == old(self).bg_color
                &&& final(self).icon == old(self).icon
                &&& final(self).title == old(self).title
                &&& final(self).message == old(self).message
                &&& final(self).alert == old(self).alert
                &&& final(self).left_button == old(self).left_button
                &&& final(self).right_button == old(self).right_button
            },
            (!old(self).spec_overlay_close_hit(*event) && !old(self).spec_overlay_open_hit(
                *event,
            )) ==> {
                &&& *final(self) == *old(self)
                &&& r == if old(self).left_button.spec_hit(*event) {
                    Some(ConfirmMsg::Cancel)
                } else if old(self).right_button.spec_hit(*event) {
                    Some(ConfirmMsg::Confirm)
                } else {
                    None::<ConfirmMsg>
                }
            },
    {
        let mut close_clicked = false;
        let mut open_clicked = false;
        match &self.info {
            Some(info) => {
                if self.show_info {
                    if let Some(ButtonMsg::Clicked) = info.close_button.event(event) {
                        close_clicked = true;
                    }
                } else {
                    if let Some(ButtonMsg::Clicked) = info.info_button.event(event) {
                        open_clicked = true;
                    }
                }
            },
            None => {},
        }

        if close_clicked {
            self.show_info = false;
            self.content_pad.clear();
            if let Some(title) = &mut self.title {
                title.request_complete_repaint();
            }
            self.message.request_complete_repaint();
            return None;
        }
        if open_clicked {
            self.show_info = true;
            if let Some(info) = &mut self.info {
                info.text.request_complete_repaint();
                info.title.request_complete_repaint();
            }
            self.content_pad.clear();
            return None;
        }

        if let Some(ButtonMsg::Clicked) = self.left_button.event(event) {
            return Some(ConfirmMsg::Cancel);
        }
        if let Some(ButtonMsg::Clicked) = self.right_button.event(event) {
            return Some(ConfirmMsg::Confirm);
        }
        None
    }

    /// The frame's paint steps, in draw order; a pure function of the
    /// dialog's state, exactly `spec_paint_ops`.
    pub fn paint(&self) -> (ops: Vec<PaintOp>)
        ensures
            ops@ == self.spec_paint_ops(),
    {
        let mut ops: Vec<PaintOp> = Vec::new();
        ops.push(PaintOp::BackgroundFill);
        ops.push(PaintOp::ContentFill);

        match &self.info {
            Some(_) => {
                if self.show_info {
                    ops.push(PaintOp::CloseButton);
                    ops.push(PaintOp::OverlayTitle);
                    ops.push(PaintOp::OverlayText);
                    ops.push(PaintOp::LeftButton);
                    ops.push(PaintOp::RightButton);
                    assert(ops@ =~= self.spec_paint_ops());
                    return ops;
                } else {
                    ops.push(PaintOp::InfoButton);
                }
            },
            None => {},
        }

        if self.title.is_some() {
            ops.push(PaintOp::Title);
        }
        ops.push(PaintOp::Message);
        if self.alert.is_some() {
            ops.push(PaintOp::Alert);
        }
        ops.push(PaintOp::LeftButton);
        ops.push(PaintOp::RightButton);
        if self.icon.is_some() {
            ops.push(PaintOp::IconGlyph);
        }
        assert(ops@ =~= self.spec_paint_ops());
        ops
    }

    /// Where the icon glyph, when one was configured, is anchored by its
    /// top-centre: the screen's horizontal centre at the fixed icon offset.
    /// The host tints it in the accent colour against `bg_color`.
    pub fn icon_anchor(&self) -> (p: Point)
        ensures
            p == (Point { x: (WIDTH / 2) as i16, y: ICON_TOP }),
    {
        Point { x: WIDTH / 2, y: ICON_TOP }
    }

    /// The screen rectangles of the two action buttons, for layout
    /// verification tooling; the overlay's rectangles are not reported.
    pub fn bounds(&self) -> (r: Vec<Rect>)
        ensures
            r@ == seq![self.left_button.area, self.right_button.area],
    {
        let mut r: Vec<Rect> = Vec::new();
        r.push(self.left_button.area);
        r.push(self.right_button.area);
        assert(r@ =~= seq![self.left_button.area, self.right_button.area]);
        r
    }
}

} // verus!
