//! Fixed layout and theme dimensions of the display, in pixels.

use crate::geometry::Rect;
use vstd::prelude::*;

verus! {

/// Screen width.
pub const WIDTH: i16 = 240;

/// Screen height.
pub const HEIGHT: i16 = 240;

/// Horizontal margin of the content area, and the padding around and between
/// the action buttons.
pub const CONTENT_PADDING: i16 = 10;

/// Top edge of the button band at the bottom of the screen.
pub const BUTTON_AREA_START: i16 = 188;

/// Height of the two action buttons.
pub const BUTTON_HEIGHT: i16 = 38;

/// Top edge of the title band.
pub const TITLE_TOP: i16 = 13;

/// Height of the title band.
pub const TITLE_HEIGHT: i16 = 44;

/// Side length of the square corner slot shared by the open-info and close
/// buttons.
pub const CORNER_BUTTON_SIZE: i16 = 44;

/// Vertical position of the optional icon's top edge.
pub const ICON_TOP: i16 = 17;

/// Top edge of the content area when an icon is present (extra room is
/// reserved for the glyph).
pub const CONTENT_START_WITH_ICON: i16 = 50;

/// Top edge of the content area when no icon is present.
pub const CONTENT_START: i16 = 58;

/// Asset identifier of the glyph shown on the open-info corner button.
pub const INFO_ICON_ID: u16 = 1;

/// Asset identifier of the glyph shown on the close-overlay corner button.
pub const CLOSE_ICON_ID: u16 = 2;

/// Upper bound on a label's measured height, far beyond anything the screen
/// can show; it keeps all layout arithmetic within `i16`.
pub const MAX_LABEL_HEIGHT: i16 = 4096;

/// The full screen rectangle.
pub open spec fn spec_screen() -> Rect {
    Rect { x0: 0, y0: 0, x1: WIDTH, y1: HEIGHT }
}

pub fn screen() -> (r: Rect)
    ensures
        r == spec_screen(),
{
    Rect { x0: 0, y0: 0, x1: WIDTH, y1: HEIGHT }
}

/// The fixed title band at the top of the screen, to the left of the corner
/// slot.
pub open spec fn spec_title_area() -> Rect {
    Rect {
        x0: CONTENT_PADDING,
        y0: TITLE_TOP,
        x1: (WIDTH - CONTENT_PADDING - CORNER_BUTTON_SIZE) as i16,
        y1: (TITLE_TOP + TITLE_HEIGHT) as i16,
    }
}

pub fn title_area() -> (r: Rect)
    ensures
        r == spec_title_area(),
{
    Rect {
        x0: CONTENT_PADDING,
        y0: TITLE_TOP,
        x1: WIDTH - CONTENT_PADDING - CORNER_BUTTON_SIZE,
        y1: TITLE_TOP + TITLE_HEIGHT,
    }
}

/// The fixed corner slot in the top-right corner, used interchangeably by the
/// open-info and close buttons.
pub open spec fn spec_corner_button_area() -> Rect {
    Rect {
        x0: (WIDTH - CONTENT_PADDING - CORNER_BUTTON_SIZE) as i16,
        y0: TITLE_TOP,
        x1: (WIDTH - CONTENT_PADDING) as i16,
        y1: (TITLE_TOP + CORNER_BUTTON_SIZE) as i16,
    }
}

pub fn corner_button_area() -> (r: Rect)
    ensures
        r == spec_corner_button_area(),
{
    Rect {
        x0: WIDTH - CONTENT_PADDING - CORNER_BUTTON_SIZE,
        y0: TITLE_TOP,
        x1: WIDTH - CONTENT_PADDING,
        y1: TITLE_TOP + CORNER_BUTTON_SIZE,
    }
}

} // verus!
