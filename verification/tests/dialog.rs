use confirm_dialog::component::{Button, Color, Event, Icon, Label};
use confirm_dialog::confirm::{Confirm, ConfirmMsg, PaintOp};
use confirm_dialog::geometry::{Point, Rect};

fn bg() -> Color {
    Color { rgb565: 0x0000 }
}

fn buttons() -> (Button, Button) {
    (
        Button::with_text(String::from("CANCEL")),
        Button::with_text(String::from("CONFIRM")),
    )
}

fn screen_bounds() -> Rect {
    Rect {
        x0: 0,
        y0: 0,
        x1: 240,
        y1: 240,
    }
}

fn build(
    icon: Option<Icon>,
    title: Option<Label>,
    msg: Label,
    alert: Option<Label>,
    info: Option<(Label, Label)>,
) -> Confirm {
    let (l, r) = buttons();
    Confirm::new(bg(), icon, l, r, title, msg, alert, info)
}

const LEFT_RECT: Rect = Rect {
    x0: 10,
    y0: 188,
    x1: 115,
    y1: 226,
};
const RIGHT_RECT: Rect = Rect {
    x0: 125,
    y0: 188,
    x1: 230,
    y1: 226,
};

#[test]
fn buttons_split_band_in_every_configuration() {
    for use_icon in [false, true] {
        for use_alert in [false, true] {
            for use_info in [false, true] {
                let icon = if use_icon { Some(Icon { id: 7 }) } else { None };
                let alert = if use_alert {
                    Some(Label::new(String::from("alert"), 25))
                } else {
                    None
                };
                let info = if use_info {
                    Some((
                        Label::new(String::from("Fingerprint"), 20),
                        Label::new(String::from("AB:CD:EF"), 40),
                    ))
                } else {
                    None
                };
                let mut d = build(
                    icon,
                    Some(Label::new(String::from("Title"), 20)),
                    Label::new(String::from("message"), 30),
                    alert,
                    info,
                );
                let returned = d.place(screen_bounds());
                assert_eq!(returned, screen_bounds());
                assert_eq!(d.bounds(), vec![LEFT_RECT, RIGHT_RECT]);
                // Equal widths, both 105 = (240 - 3 * 10) / 2, height 38.
                assert_eq!(LEFT_RECT.x1 - LEFT_RECT.x0, 105);
                assert_eq!(RIGHT_RECT.x1 - RIGHT_RECT.x0, 105);
                assert_eq!(LEFT_RECT.y1 - LEFT_RECT.y0, 38);
            }
        }
    }
}

#[test]
fn lone_message_is_vertically_centered() {
    let mut d = build(None, None, Label::new(String::from("message"), 20), None, None);
    d.place(screen_bounds());
    // Content area without an icon: y from 58 to 178; centre 118.
    assert_eq!(
        d.message.area,
        Rect {
            x0: 10,
            y0: 108,
            x1: 230,
            y1: 128
        }
    );
    let top_gap = d.message.area.y0 - 58;
    let bottom_gap = 178 - d.message.area.y1;
    assert_eq!(top_gap, 50);
    assert_eq!(bottom_gap, 50);
}

#[test]
fn lone_message_centering_with_icon_offset() {
    let mut d = build(
        Some(Icon { id: 3 }),
        None,
        Label::new(String::from("message"), 20),
        None,
        None,
    );
    d.place(screen_bounds());
    // Content area with an icon: y from 50 to 178; centre 114.
    assert_eq!(
        d.message.area,
        Rect {
            x0: 10,
            y0: 104,
            x1: 230,
            y1: 124
        }
    );
}

#[test]
fn message_and_alert_get_three_equal_gaps() {
    let mut d = build(
        None,
        None,
        Label::new(String::from("message"), 30),
        Some(Label::new(String::from("alert"), 30)),
        None,
    );
    d.place(screen_bounds());
    // Content height 120, remaining 60, one gap 20.
    assert_eq!(
        d.message.area,
        Rect {
            x0: 10,
            y0: 78,
            x1: 230,
            y1: 108
        }
    );
    let alert_area = d.alert.as_ref().unwrap().area;
    assert_eq!(
        alert_area,
        Rect {
            x0: 10,
            y0: 128,
            x1: 230,
            y1: 158
        }
    );
    let gap_above = d.message.area.y0 - 58;
    let gap_between = alert_area.y0 - d.message.area.y1;
    let gap_below = 178 - alert_area.y1;
    assert_eq!(gap_above, 20);
    assert_eq!(gap_between, 20);
    assert_eq!(gap_below, 20);
    assert_eq!(gap_above + gap_between + gap_below + 30 + 30, 120);
}

#[test]
fn oversized_labels_stack_deterministically() {
    // Labels taller than the content area: the gaps clamp to zero and the
    // pair stacks from the content start, the alert cut at the button band.
    let mut d = build(
        None,
        None,
        Label::new(String::from("long message"), 100),
        Some(Label::new(String::from("long alert"), 50)),
        None,
    );
    d.place(screen_bounds());
    assert_eq!(
        d.message.area,
        Rect {
            x0: 10,
            y0: 58,
            x1: 230,
            y1: 158
        }
    );
    let alert_area = d.alert.as_ref().unwrap().area;
    assert_eq!(
        alert_area,
        Rect {
            x0: 10,
            y0: 158,
            x1: 230,
            y1: 188
        }
    );
}

#[test]
fn placement_is_idempotent() {
    let mut d = build(
        Some(Icon { id: 3 }),
        Some(Label::new(String::from("Title"), 20)),
        Label::new(String::from("message"), 30),
        Some(Label::new(String::from("alert"), 25)),
        Some((
            Label::new(String::from("Fingerprint"), 20),
            Label::new(String::from("AB:CD:EF"), 40),
        )),
    );
    d.place(screen_bounds());
    let first_message = d.message.area;
    let first_alert = d.alert.as_ref().unwrap().area;
    let first_bounds = d.bounds();
    d.place(screen_bounds());
    assert_eq!(d.message.area, first_message);
    assert_eq!(d.alert.as_ref().unwrap().area, first_alert);
    assert_eq!(d.bounds(), first_bounds);
}

#[test]
fn confirm_scenario_right_button_click() {
    // icon=None, title=Some("Confirm"), alert=None, info=None, 240x240.
    let mut d = build(
        None,
        Some(Label::new(String::from("Confirm"), 20)),
        Label::new(String::from("message"), 20),
        None,
        None,
    );
    d.place(screen_bounds());
    let outcome = d.event(&Event::Click(Point { x: 200, y: 200 }));
    assert_eq!(outcome, Some(ConfirmMsg::Confirm));
}

#[test]
fn cancel_and_confirm_regions_without_info() {
    let mut d = build(None, None, Label::new(String::from("message"), 20), None, None);
    d.place(screen_bounds());
    assert_eq!(
        d.event(&Event::Click(Point { x: 60, y: 200 })),
        Some(ConfirmMsg::Cancel)
    );
    assert_eq!(
        d.event(&Event::Click(Point { x: 180, y: 200 })),
        Some(ConfirmMsg::Confirm)
    );
    // Between the buttons, above the band, and a timer tick: no outcome.
    assert_eq!(d.event(&Event::Click(Point { x: 120, y: 200 })), None);
    assert_eq!(d.event(&Event::Click(Point { x: 120, y: 100 })), None);
    assert_eq!(d.event(&Event::Timer), None);
    assert!(!d.show_info);
}

#[test]
fn overlay_toggling_is_a_two_state_cycle() {
    let mut d = build(
        None,
        Some(Label::new(String::from("Title"), 20)),
        Label::new(String::from("message"), 20),
        None,
        Some((
            Label::new(String::from("Fingerprint"), 20),
            Label::new(String::from("AB:CD:EF"), 40),
        )),
    );
    d.place(screen_bounds());
    assert!(!d.show_info);
    let corner = Event::Click(Point { x: 200, y: 30 });
    // Events that activate no corner button leave the state alone.
    assert_eq!(d.event(&Event::Click(Point { x: 120, y: 100 })), None);
    assert!(!d.show_info);
    assert_eq!(d.event(&Event::Timer), None);
    assert!(!d.show_info);
    // Open, then close, through the shared corner slot.
    assert_eq!(d.event(&corner), None);
    assert!(d.show_info);
    assert_eq!(d.event(&Event::Click(Point { x: 5, y: 5 })), None);
    assert!(d.show_info);
    assert_eq!(d.event(&corner), None);
    assert!(!d.show_info);
}

#[test]
fn overlay_content_taps_yield_no_outcome() {
    let mut d = build(
        None,
        None,
        Label::new(String::from("message"), 20),
        None,
        Some((
            Label::new(String::from("Fingerprint"), 20),
            Label::new(String::from("AB:CD:EF"), 40),
        )),
    );
    d.place(screen_bounds());
    assert_eq!(d.event(&Event::Click(Point { x: 200, y: 30 })), None);
    assert!(d.show_info);
    // Taps in the overlay's text region and at the screen edges: no outcome.
    assert_eq!(d.event(&Event::Click(Point { x: 120, y: 100 })), None);
    assert_eq!(d.event(&Event::Click(Point { x: 0, y: 0 })), None);
    assert_eq!(d.event(&Event::Click(Point { x: 120, y: 185 })), None);
    assert!(d.show_info);
}

#[test]
fn action_buttons_stay_reachable_while_overlay_is_open() {
    // Routing falls through the corner slot to the action buttons, which
    // remain painted and active below the overlay.
    let mut d = build(
        None,
        None,
        Label::new(String::from("message"), 20),
        None,
        Some((
            Label::new(String::from("Fingerprint"), 20),
            Label::new(String::from("AB:CD:EF"), 40),
        )),
    );
    d.place(screen_bounds());
    assert_eq!(d.event(&Event::Click(Point { x: 200, y: 30 })), None);
    assert!(d.show_info);
    assert_eq!(
        d.event(&Event::Click(Point { x: 60, y: 200 })),
        Some(ConfirmMsg::Cancel)
    );
}

#[test]
fn fingerprint_scenario_paint_composition() {
    let mut d = build(
        None,
        Some(Label::new(String::from("Title"), 20)),
        Label::new(String::from("message"), 20),
        None,
        Some((
            Label::new(String::from("Fingerprint"), 20),
            Label::new(String::from("AB:CD:EF"), 40),
        )),
    );
    d.place(screen_bounds());
    // Initial paint: the open-info button, no overlay text.
    let ops = d.paint();
    assert_eq!(
        ops,
        vec![
            PaintOp::BackgroundFill,
            PaintOp::ContentFill,
            PaintOp::InfoButton,
            PaintOp::Title,
            PaintOp::Message,
            PaintOp::LeftButton,
            PaintOp::RightButton,
        ]
    );
    assert!(!ops.contains(&PaintOp::OverlayText));
    // After opening: overlay title and text, neither main title nor message.
    d.event(&Event::Click(Point { x: 200, y: 30 }));
    let ops = d.paint();
    assert_eq!(
        ops,
        vec![
            PaintOp::BackgroundFill,
            PaintOp::ContentFill,
            PaintOp::CloseButton,
            PaintOp::OverlayTitle,
            PaintOp::OverlayText,
            PaintOp::LeftButton,
            PaintOp::RightButton,
        ]
    );
    assert!(!ops.contains(&PaintOp::Title));
    assert!(!ops.contains(&PaintOp::Message));
}

#[test]
fn paint_orders_fills_first_and_icon_last() {
    let mut d = build(
        Some(Icon { id: 7 }),
        Some(Label::new(String::from("Title"), 20)),
        Label::new(String::from("message"), 30),
        Some(Label::new(String::from("alert"), 25)),
        None,
    );
    d.place(screen_bounds());
    assert_eq!(
        d.paint(),
        vec![
            PaintOp::BackgroundFill,
            PaintOp::ContentFill,
            PaintOp::Title,
            PaintOp::Message,
            PaintOp::Alert,
            PaintOp::LeftButton,
            PaintOp::RightButton,
            PaintOp::IconGlyph,
        ]
    );
}

#[test]
fn overlay_toggle_wipes_content_and_marks_repaints() {
    let mut d = build(
        None,
        Some(Label::new(String::from("Title"), 20)),
        Label::new(String::from("message"), 20),
        None,
        Some((
            Label::new(String::from("Fingerprint"), 20),
            Label::new(String::from("AB:CD:EF"), 40),
        )),
    );
    d.place(screen_bounds());
    assert!(!d.content_pad.clear_pending);
    d.event(&Event::Click(Point { x: 200, y: 30 }));
    let info = d.info.as_ref().unwrap();
    assert!(d.content_pad.clear_pending);
    assert!(info.title.repaint_pending);
    assert!(info.text.repaint_pending);
    assert!(!d.message.repaint_pending);
    d.event(&Event::Click(Point { x: 200, y: 30 }));
    assert!(d.message.repaint_pending);
    assert!(d.title.as_ref().unwrap().repaint_pending);
}

#[test]
fn construction_fixes_features_and_hides_overlay() {
    let d = build(
        None,
        None,
        Label::new(String::from("message"), 20),
        None,
        None,
    );
    assert!(!d.show_info);
    assert!(d.info.is_none());
    assert!(d.title.is_none());
    assert!(d.bg.clear_pending);
    let ops = d.paint();
    assert!(!ops.contains(&PaintOp::InfoButton));
    assert!(!ops.contains(&PaintOp::CloseButton));
    assert!(!ops.contains(&PaintOp::Title));
    assert!(!ops.contains(&PaintOp::IconGlyph));
}
