//! The properties the dialog guarantees, stated and proved once over all
//! configurations: the fixed split of the button band, the centring of a
//! lone message, the three-slot split around a message-and-alert pair, the
//! two-state overlay cycle, and which events can yield an outcome.

use crate::component::Event;
use crate::confirm::{
    spec_content_area, spec_left_button_area, spec_right_button_area, Confirm, ConfirmMsg,
};
use crate::geometry::Point;
use crate::theme::{BUTTON_AREA_START, BUTTON_HEIGHT, CONTENT_PADDING, WIDTH};
use vstd::prelude::*;

verus! {

/// Whatever the dialog was built with, the two action buttons occupy
/// equal-width halves of the fixed button band: same width and height, top
/// edges on the band, and the pair separated and bordered by the fixed
/// padding. The areas are constants of the layout, so no construction
/// configuration moves them.
pub proof fn lemma_action_buttons_split_band()
    ensures
        spec_left_button_area().spec_width() == spec_right_button_area().spec_width(),
        spec_left_button_area().y0 == BUTTON_AREA_START,
        spec_right_button_area().y0 == BUTTON_AREA_START,
        spec_left_button_area().spec_height() == BUTTON_HEIGHT,
        spec_right_button_area().spec_height() == BUTTON_HEIGHT,
        spec_left_button_area().x0 == CONTENT_PADDING,
        spec_right_button_area().x0 == spec_left_button_area().x1 + CONTENT_PADDING,
        WIDTH - CONTENT_PADDING - 1 <= spec_right_button_area().x1 <= WIDTH - CONTENT_PADDING,
{
}

/// No point of the screen lies in both action buttons' areas: the two
/// halves of the button band are disjoint.
pub proof fn lemma_action_button_areas_disjoint()
    ensures
        forall|p: Point|
            !(spec_left_button_area().spec_contains(p)
                && spec_right_button_area().spec_contains(p)),
{
}

/// When no alert shares the content area and the content area is at least
/// as tall as the (top-aligned) message, placement centres the message
/// vertically: it keeps its natural height, neither breathing gap is
/// negative, and the two differ by at most one pixel of rounding.
pub proof fn lemma_message_centered_without_alert(d: Confirm)
    requires
        d.wf(),
        d.alert is None,
        !d.message.vcentered,
        d.message.natural_height <= spec_content_area(d.spec_has_icon()).spec_height(),
    ensures
        ({
            let c = spec_content_area(d.spec_has_icon());
            let m = d.spec_message_area();
            let top_gap = m.y0 - c.y0;
            let bottom_gap = c.y1 - m.y1;
            &&& m.spec_height() == d.message.natural_height
            &&& top_gap >= 0
            &&& bottom_gap >= 0
            &&& -1 <= top_gap - bottom_gap <= 1
        }),
{
}

/// When an alert shares the content area with a (top-aligned) message and
/// both fit, the three gaps above the message, between the labels and below
/// the alert sum with the two label heights to exactly the content height;
/// the first two gaps are equal and the last exceeds them only by the
/// integer-division remainder.
pub proof fn lemma_three_slot_split(d: Confirm)
    requires
        d.wf(),
        d.alert matches Some(a) && !a.vcentered,
        !d.message.vcentered,
        d.message.natural_height + d.alert->0.natural_height <= spec_content_area(
            d.spec_has_icon(),
        ).spec_height(),
    ensures
        ({
            let c = spec_content_area(d.spec_has_icon());
            let m = d.spec_message_area();
            let a = d.spec_alert_area();
            let gap_above = m.y0 - c.y0;
            let gap_between = a.y0 - m.y1;
            let gap_below = c.y1 - a.y1;
            &&& m.spec_height() == d.message.natural_height
            &&& a.spec_height() == d.alert->0.natural_height
            &&& gap_above + gap_between + gap_below + m.spec_height() + a.spec_height()
                == c.spec_height()
            &&& gap_above == gap_between
            &&& gap_above >= 0
            &&& gap_above <= gap_below <= gap_above + 2
        }),
{
}

/// Overlay toggling is a strict two-state cycle. From the main view,
/// activating the open button (the feature being configured) always enters
/// the overlay; from the overlay, activating the close button always
/// returns to the main view; an event that activates neither corner button
/// leaves the overlay state untouched, as does every event when no info
/// feature exists.
pub proof fn lemma_overlay_two_state_cycle(d: Confirm, event: Event)
    ensures
        d.spec_overlay_open_hit(event) ==> !d.show_info && d.spec_next_show_info(event),
        d.spec_overlay_close_hit(event) ==> d.show_info && !d.spec_next_show_info(event),
        !d.spec_overlay_open_hit(event) && !d.spec_overlay_close_hit(event)
            ==> d.spec_next_show_info(event) == d.show_info,
        d.info is None ==> d.spec_next_show_info(event) == d.show_info,
        d.spec_overlay_open_hit(event) || d.spec_overlay_close_hit(event) ==> d.spec_outcome(
            event,
        ) is None,
{
}

/// While the overlay is shown, an event outside both action buttons' areas
/// yields no outcome: in particular, the close button only toggles the
/// overlay. (An event inside an action button's area still reaches that
/// button, as the routing order prescribes.)
pub proof fn lemma_overlay_yields_no_outcome(d: Confirm, event: Event)
    requires
        d.show_info,
        !d.left_button.spec_hit(event),
        !d.right_button.spec_hit(event),
    ensures
        d.spec_outcome(event) is None,
{
}

/// With no info feature configured, routing is exactly the two action
/// buttons: an event activating the cancel button yields `Cancel`, one
/// activating only the confirm button yields `Confirm`, any other event
/// yields nothing, and no event moves the overlay state.
pub proof fn lemma_outcomes_without_info(d: Confirm, event: Event)
    requires
        d.info is None,
    ensures
        d.left_button.spec_hit(event) ==> d.spec_outcome(event) == Some(ConfirmMsg::Cancel),
        !d.left_button.spec_hit(event) && d.right_button.spec_hit(event) ==> d.spec_outcome(
            event,
        ) == Some(ConfirmMsg::Confirm),
        !d.left_button.spec_hit(event) && !d.right_button.spec_hit(event) ==> d.spec_outcome(
            event,
        ) is None,
        d.spec_next_show_info(event) == d.show_info,
{
}

} // verus!
