//! Per-frame geometry of the overlay: where the loupe window and the
//! capture region sit around the pointer, and where the crosshair, the
//! border ring, the clip circle and the preview swatch are drawn inside
//! the composition buffer.

use vstd::prelude::*;

use crate::constants::{
    BORDER_W, CAPTURE_SIZE, PREVIEW_BORDER, PREVIEW_GAP, PREVIEW_PADDING_H, PREVIEW_PADDING_V,
    ZOOM_MAX, ZOOM_MIN,
};
use crate::zoom::{spec_crosshair_half, spec_loupe_size, spec_window_size};

verus! {

/// An axis-aligned rectangle in window coordinates, edges inclusive on
/// the left and top and exclusive on the right and bottom.
#[derive(Clone, Copy, Debug, PartialEq, Eq, Structural)]
pub struct Rect {
    pub left: i32,
    pub top: i32,
    pub right: i32,
    pub bottom: i32,
}

/// The two concentric squares of the crosshair: a dark outer rectangle
/// one unit around a light inner rectangle, both centered on the window
/// center and sized to exactly one source pixel at the current zoom.
#[derive(Clone, Copy, Debug, PartialEq, Eq, Structural)]
pub struct CrosshairRects {
    pub outer: Rect,
    pub inner: Rect,
}

/// The inner crosshair square at zoom level `level`: one magnified
/// source pixel, centered on the window center.
pub open spec fn spec_crosshair_inner(level: int) -> Rect {
    let center = spec_window_size(level) / 2;
    let left = center - spec_crosshair_half(level);
    Rect { left: left as i32, top: left as i32, right: (left + level) as i32, bottom: (left + level) as i32 }
}

/// The outer crosshair square at zoom level `level`: the inner square
/// grown by one unit on every side.
pub open spec fn spec_crosshair_outer(level: int) -> Rect {
    let inner = spec_crosshair_inner(level);
    Rect {
        left: (inner.left - 1) as i32,
        top: (inner.top - 1) as i32,
        right: (inner.right + 1) as i32,
        bottom: (inner.bottom + 1) as i32,
    }
}

/// Both crosshair squares for zoom level `level`.
pub fn crosshair_rects(level: i32) -> (c: CrosshairRects)
    requires
        ZOOM_MIN <= level <= ZOOM_MAX,
    ensures
        c.inner == spec_crosshair_inner(level as int),
        c.outer == spec_crosshair_outer(level as int),
{
    let window_size = CAPTURE_SIZE * level + BORDER_W * 2;
    let center = window_size / 2;
    let half = level / 2;
    let left = center - half;
    let inner = Rect { left, top: left, right: left + level, bottom: left + level };
    let outer = Rect {
        left: left - 1,
        top: left - 1,
        right: left + level + 1,
        bottom: left + level + 1,
    };
    CrosshairRects { outer, inner }
}

/// The circle that clips the magnified content: the inner loupe disc,
/// inset by the border width on every side.
pub fn loupe_clip_rect(level: i32) -> (r: Rect)
    requires
        ZOOM_MIN <= level <= ZOOM_MAX,
    ensures
        r.left == BORDER_W,
        r.top == BORDER_W,
        r.right == BORDER_W + spec_loupe_size(level as int),
        r.bottom == BORDER_W + spec_loupe_size(level as int),
{
    let loupe = CAPTURE_SIZE * level;
    Rect { left: BORDER_W, top: BORDER_W, right: BORDER_W + loupe, bottom: BORDER_W + loupe }
}

/// The bounds of the anti-aliased border ring: a circle inset by half
/// the border width, so the stroke stays inside the window.
pub fn ring_rect(level: i32) -> (r: Rect)
    requires
        ZOOM_MIN <= level <= ZOOM_MAX,
    ensures
        r.left == BORDER_W / 2,
        r.top == BORDER_W / 2,
        r.right == r.left + spec_window_size(level as int) - BORDER_W,
        r.bottom == r.top + spec_window_size(level as int) - BORDER_W,
{
    let window_size = CAPTURE_SIZE * level + BORDER_W * 2;
    let inset = BORDER_W / 2;
    Rect {
        left: inset,
        top: inset,
        right: inset + window_size - BORDER_W,
        bottom: inset + window_size - BORDER_W,
    }
}

/// The swatch rectangle and the overlay's total height for one frame,
/// recomputed from the measured label text before that frame is blitted.
#[derive(Clone, Copy, Debug, PartialEq, Eq, Structural)]
pub struct PreviewLayout {
    /// The swatch rectangle: the label text plus fixed padding, centered
    /// horizontally, sitting a fixed gap below the loupe.
    pub rect: Rect,
    /// Height of the whole overlay window for this frame: the loupe
    /// window, the gap, the swatch, its border, and one extra unit.
    pub total_height: i32,
}

/// Compute the swatch rectangle and total overlay height from the
/// measured label text extent at zoom level `level`.
pub fn preview_layout(text_w: i32, text_h: i32, level: i32) -> (l: PreviewLayout)
    requires
        ZOOM_MIN <= level <= ZOOM_MAX,
        0 <= text_h <= 8192,
        0 <= text_w,
        // the padded label must fit the window for the swatch to center
        text_w + 2 * PREVIEW_PADDING_H <= spec_window_size(level as int),
    ensures
        l.rect.left == (spec_window_size(level as int) - (text_w + 2 * PREVIEW_PADDING_H)) / 2,
        l.rect.top == spec_window_size(level as int) + PREVIEW_GAP,
        l.rect.right == l.rect.left + text_w + 2 * PREVIEW_PADDING_H,
        l.rect.bottom == l.rect.top + text_h + 2 * PREVIEW_PADDING_V,
        l.total_height == spec_window_size(level as int) + PREVIEW_GAP + (text_h + 2
            * PREVIEW_PADDING_V) + PREVIEW_BORDER + 1,
{
    let window_size = CAPTURE_SIZE * level + BORDER_W * 2;
    let width = text_w + 2 * PREVIEW_PADDING_H;
    let height = text_h + 2 * PREVIEW_PADDING_V;
    let left = (window_size - width) / 2;
    let top = window_size + PREVIEW_GAP;
    PreviewLayout {
        rect: Rect { left, top, right: left + width, bottom: top + height },
        total_height: window_size + PREVIEW_GAP + height + PREVIEW_BORDER + 1,
    }
}

/// The rounded rectangle of the window's visible-region mask around the
/// swatch: the swatch rectangle grown by its border, plus the mask API's
/// exclusive-edge allowance of two units on the far edges.
pub fn region_rect(preview: &Rect) -> (r: Rect)
    requires
        -100000 <= preview.left,
        -100000 <= preview.top,
        preview.right <= 100000,
        preview.bottom <= 100000,
    ensures
        r.left == preview.left - PREVIEW_BORDER,
        r.top == preview.top - PREVIEW_BORDER,
        r.right == preview.right + PREVIEW_BORDER + 2,
        r.bottom == preview.bottom + PREVIEW_BORDER + 2,
{
    Rect {
        left: preview.left - PREVIEW_BORDER,
        top: preview.top - PREVIEW_BORDER,
        right: preview.right + PREVIEW_BORDER + 2,
        bottom: preview.bottom + PREVIEW_BORDER + 2,
    }
}

/// Top-left corner of the overlay window, centering it on the pointer.
pub fn loupe_origin(cursor_x: i32, cursor_y: i32, level: i32) -> (o: (i32, i32))
    requires
        ZOOM_MIN <= level <= ZOOM_MAX,
        i32::MIN + spec_window_size(level as int) <= cursor_x,
        i32::MIN + spec_window_size(level as int) <= cursor_y,
    ensures
        o.0 == cursor_x - spec_window_size(level as int) / 2,
        o.1 == cursor_y - spec_window_size(level as int) / 2,
{
    let window_size = CAPTURE_SIZE * level + BORDER_W * 2;
    let half = window_size / 2;
    (cursor_x - half, cursor_y - half)
}

/// Top-left corner of the square screen region sampled around the
/// pointer. The region is not clamped to the screen: past the edge the
/// source is simply undefined and tolerated.
pub fn capture_origin(cursor_x: i32, cursor_y: i32) -> (o: (i32, i32))
    requires
        i32::MIN + CAPTURE_SIZE <= cursor_x,
        i32::MIN + CAPTURE_SIZE <= cursor_y,
    ensures
        o.0 == cursor_x - CAPTURE_SIZE / 2,
        o.1 == cursor_y - CAPTURE_SIZE / 2,
{
    (cursor_x - CAPTURE_SIZE / 2, cursor_y - CAPTURE_SIZE / 2)
}

} // verus!
