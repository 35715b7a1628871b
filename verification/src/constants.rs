//! Fixed settings of the loupe: magnification bounds, layout metrics,
//! timer period, and the colors of the chrome.

use vstd::prelude::*;

verus! {

// Magnification settings. The zoom level is an integer scale factor,
// always kept within [ZOOM_MIN, ZOOM_MAX].
pub const ZOOM: i32 = 11;

pub const ZOOM_MIN: i32 = 11;

pub const ZOOM_MAX: i32 = 22;

// Side length of the square screen region sampled around the pointer each
// tick; odd, so that the pointer pixel sits exactly in the middle.
pub const CAPTURE_SIZE: i32 = 21;

pub const LOUPE_SIZE: i32 = CAPTURE_SIZE * ZOOM;

// Border and layout.
pub const BORDER_W: i32 = 2;

pub const WINDOW_SIZE: i32 = LOUPE_SIZE + BORDER_W * 2;

// Half the side of the crosshair square at the default zoom: ZOOM
// halved, rounding down.
pub const CROSSHAIR_HALF: i32 = 5;

// Preview swatch styling.
pub const PREVIEW_GAP: i32 = 6;

pub const PREVIEW_PADDING_H: i32 = 16;

pub const PREVIEW_PADDING_V: i32 = 8;

pub const PREVIEW_CORNER: i32 = 10;

pub const PREVIEW_BORDER: i32 = 1;

// Assumed swatch height for the very first frame, before any label has
// been measured.
pub const INITIAL_PREVIEW_HEIGHT: i32 = 30;

// Timer settings: one tick drives one sample/reposition/repaint cycle.
pub const TIMER_ID: usize = 1;

pub const TIMER_INTERVAL_MS: u32 = 8;

// Window alpha values.
pub const ALPHA_OPAQUE: u8 = 255;

pub const ALPHA_TRANSPARENT: u8 = 1;

// Chrome colors, packed as 0xAARRGGBB.
pub const COLOR_BORDER_ARGB: u32 = 0xFF47474F;

pub const COLOR_BLACK_ARGB: u32 = 0xFF000000;

pub const COLOR_WHITE_ARGB: u32 = 0xFFFFFFFF;

// The same colors packed as 0x00BBGGRR, the byte order the blitting API
// uses.
pub const COLOR_BORDER_REF: u32 = 0x004F4747;

pub const COLOR_BLACK_REF: u32 = 0x00000000;

pub const COLOR_WHITE_REF: u32 = 0x00FFFFFF;

// Luminance weights per channel, in thousandths, so that the Rec. 601
// luminance of a color over 0-255 channels is an exact integer when
// likewise scaled by 1000. The weights sum to exactly 1000.
pub const LUMINANCE_RED_MILLI: u32 = 299;

pub const LUMINANCE_GREEN_MILLI: u32 = 587;

pub const LUMINANCE_BLUE_MILLI: u32 = 114;

// Label text is black only when the luminance strictly exceeds 128; the
// boundary itself resolves to white.
pub const LUMINANCE_THRESHOLD_MILLI: u32 = 128000;

} // verus!
