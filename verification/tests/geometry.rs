use color_picker::constants::{CAPTURE_SIZE, ZOOM, ZOOM_MAX, ZOOM_MIN};
use color_picker::layout::{
    capture_origin, crosshair_rects, loupe_clip_rect, loupe_origin, preview_layout, region_rect,
    ring_rect, Rect,
};
use color_picker::zoom::ZoomController;

#[test]
fn default_zoom_geometry() {
    let z = ZoomController::new();
    assert_eq!(z.level, ZOOM);
    assert_eq!(z.loupe_size(), CAPTURE_SIZE * z.level);
    assert_eq!(z.loupe_size(), 231);
    assert_eq!(z.window_size(), 235);
    assert_eq!(z.crosshair_half(), 5);
}

#[test]
fn geometry_follows_zoom_over_the_whole_range() {
    let mut z = ZoomController::new();
    loop {
        assert_eq!(z.loupe_size(), CAPTURE_SIZE * z.level);
        assert_eq!(z.window_size(), CAPTURE_SIZE * z.level + 4);
        assert_eq!(z.crosshair_half(), z.level / 2);
        if z.level == ZOOM_MAX {
            break;
        }
        z.on_scroll(120);
    }
}

#[test]
fn scroll_up_steps_zoom_and_clamps_at_max() {
    let mut z = ZoomController::new();
    z.on_scroll(120);
    assert_eq!(z.level, ZOOM + 1);
    for _ in 0..100 {
        z.on_scroll(120);
    }
    assert_eq!(z.level, ZOOM_MAX);
    z.on_scroll(120);
    assert_eq!(z.level, ZOOM_MAX);
}

#[test]
fn scroll_down_steps_zoom_and_clamps_at_min() {
    let mut z = ZoomController::new();
    z.on_scroll(-120);
    assert_eq!(z.level, ZOOM_MIN);
    z.on_scroll(-120);
    assert_eq!(z.level, ZOOM_MIN);
    z.on_scroll(120);
    z.on_scroll(-120);
    assert_eq!(z.level, ZOOM_MIN);
}

#[test]
fn zero_delta_scroll_changes_nothing() {
    let mut z = ZoomController::new();
    z.on_scroll(0);
    assert_eq!(z.level, ZOOM);
}

#[test]
fn crosshair_frames_one_source_pixel() {
    let c = crosshair_rects(11);
    // window 235, center 117, half 5
    assert_eq!(
        c.inner,
        Rect { left: 112, top: 112, right: 123, bottom: 123 }
    );
    assert_eq!(
        c.outer,
        Rect { left: 111, top: 111, right: 124, bottom: 124 }
    );
}

#[test]
fn loupe_clip_circle_sits_inside_the_border() {
    let r = loupe_clip_rect(11);
    assert_eq!(r, Rect { left: 2, top: 2, right: 233, bottom: 233 });
}

#[test]
fn border_ring_is_inset_by_half_its_width() {
    let r = ring_rect(11);
    assert_eq!(r, Rect { left: 1, top: 1, right: 234, bottom: 234 });
}

#[test]
fn preview_swatch_is_centered_below_the_loupe() {
    let l = preview_layout(40, 20, 11);
    assert_eq!(l.rect, Rect { left: 81, top: 241, right: 153, bottom: 277 });
    // window 235 + gap 6 + swatch 36 + border 1 + 1
    assert_eq!(l.total_height, 279);
}

#[test]
fn window_mask_grows_the_swatch_by_its_border() {
    let l = preview_layout(40, 20, 11);
    let r = region_rect(&l.rect);
    assert_eq!(r, Rect { left: 80, top: 240, right: 156, bottom: 280 });
}

#[test]
fn overlay_window_is_centered_on_the_pointer() {
    assert_eq!(loupe_origin(500, 400, 11), (383, 283));
}

#[test]
fn capture_region_is_centered_on_the_pointer() {
    assert_eq!(capture_origin(500, 400), (490, 390));
    // the region may extend past the screen edge
    assert_eq!(capture_origin(3, 2), (-7, -8));
}
