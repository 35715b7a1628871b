use color_picker::colors::{ColorSpace, RgbColor};
use color_picker::session::{
    classify_message, hook_decision, HookDecision, MessageKind, PickOutcome, Session,
    SessionDirective, SessionEvent, VK_ESCAPE, WM_DESTROY, WM_KEYDOWN, WM_LBUTTONDOWN,
    WM_MBUTTONDOWN, WM_MOUSEWHEEL, WM_PAINT, WM_RBUTTONDOWN, WM_TIMER,
};

#[test]
fn message_codes_map_to_their_meaning() {
    assert_eq!(classify_message(WM_TIMER), MessageKind::TimerTick);
    assert_eq!(classify_message(WM_PAINT), MessageKind::Paint);
    assert_eq!(classify_message(WM_MOUSEWHEEL), MessageKind::MouseWheel);
    assert_eq!(classify_message(WM_KEYDOWN), MessageKind::KeyDown);
    assert_eq!(classify_message(WM_LBUTTONDOWN), MessageKind::PrimaryClick);
    assert_eq!(classify_message(WM_RBUTTONDOWN), MessageKind::SecondaryClick);
    assert_eq!(classify_message(WM_MBUTTONDOWN), MessageKind::MiddleClick);
    assert_eq!(classify_message(WM_DESTROY), MessageKind::Destroyed);
    assert_eq!(classify_message(0x0400), MessageKind::Other);
}

#[test]
fn key_filter_cancels_only_on_escape_key_down() {
    assert_eq!(
        hook_decision(0, WM_KEYDOWN as usize, VK_ESCAPE),
        HookDecision::CancelAndBlock
    );
    // key-up of escape passes through
    assert_eq!(
        hook_decision(0, 0x0101, VK_ESCAPE),
        HookDecision::Forward
    );
    // another key passes through
    assert_eq!(
        hook_decision(0, WM_KEYDOWN as usize, 0x41),
        HookDecision::Forward
    );
    // a negative filter code must be forwarded untouched
    assert_eq!(
        hook_decision(-1, WM_KEYDOWN as usize, VK_ESCAPE),
        HookDecision::Forward
    );
}

#[test]
fn escape_before_a_click_cancels() {
    let mut s = Session::new();
    s.handle_event(SessionEvent::Tick { pixel: RgbColor::new(9, 9, 9) });
    let d = s.handle_event(SessionEvent::EscapePressed);
    assert_eq!(d, SessionDirective::Terminate);
    assert_eq!(s.outcome(), PickOutcome::Cancelled);
}

#[test]
fn escape_on_a_fresh_session_cancels() {
    let mut s = Session::new();
    s.handle_event(SessionEvent::EscapePressed);
    assert_eq!(s.outcome(), PickOutcome::Cancelled);
}

#[test]
fn middle_click_cancels() {
    let mut s = Session::new();
    s.handle_event(SessionEvent::Tick { pixel: RgbColor::new(9, 9, 9) });
    let d = s.handle_event(SessionEvent::MiddleClick);
    assert_eq!(d, SessionDirective::Terminate);
    assert_eq!(s.outcome(), PickOutcome::Cancelled);
}

#[test]
fn destroyed_overlay_counts_as_cancelled() {
    let mut s = Session::new();
    let d = s.handle_event(SessionEvent::WindowDestroyed);
    assert_eq!(d, SessionDirective::Terminate);
    assert_eq!(s.outcome(), PickOutcome::Cancelled);
}

#[test]
fn primary_click_picks_the_immediately_preceding_sample() {
    let mut s = Session::new();
    let stale = RgbColor::new(1, 2, 3);
    let fresh = RgbColor::new(200, 100, 50);
    s.handle_event(SessionEvent::Tick { pixel: stale });
    s.handle_event(SessionEvent::Tick { pixel: fresh });
    let d = s.handle_event(SessionEvent::PrimaryClick);
    assert_eq!(d, SessionDirective::Terminate);
    match s.outcome() {
        PickOutcome::Picked(rep) => {
            assert_eq!(rep.red_255, 200);
            assert_eq!(rep.green_255, 100);
            assert_eq!(rep.blue_255, 50);
            assert_eq!(rep.alpha_255, 255);
            assert_eq!(rep.color_space, ColorSpace::Srgb);
        }
        PickOutcome::Cancelled => panic!("expected a picked outcome"),
    }
}

#[test]
fn click_before_any_tick_picks_the_unset_black_sample() {
    let mut s = Session::new();
    s.handle_event(SessionEvent::PrimaryClick);
    match s.outcome() {
        PickOutcome::Picked(rep) => {
            assert_eq!((rep.red_255, rep.green_255, rep.blue_255), (0, 0, 0));
        }
        PickOutcome::Cancelled => panic!("expected a picked outcome"),
    }
}

#[test]
fn cancellation_sticks_through_later_events() {
    let mut s = Session::new();
    s.handle_event(SessionEvent::EscapePressed);
    s.handle_event(SessionEvent::Tick { pixel: RgbColor::new(5, 5, 5) });
    assert_eq!(s.outcome(), PickOutcome::Cancelled);
}

#[test]
fn scroll_events_only_move_the_zoom() {
    let mut s = Session::new();
    let d = s.handle_event(SessionEvent::Scroll { delta: 120 });
    assert_eq!(d, SessionDirective::Repaint);
    assert_eq!(s.zoom.level, 12);
    let d = s.handle_event(SessionEvent::Scroll { delta: -120 });
    assert_eq!(d, SessionDirective::Repaint);
    assert_eq!(s.zoom.level, 11);
    assert_eq!(s.picked, None);
    assert!(!s.cancelled);
}

#[test]
fn secondary_click_is_swallowed() {
    let mut s = Session::new();
    let d = s.handle_event(SessionEvent::SecondaryClick);
    assert_eq!(d, SessionDirective::Ignore);
    assert_eq!(s.outcome(), PickOutcome::Cancelled);
}

#[test]
fn tick_requests_a_repaint() {
    let mut s = Session::new();
    let d = s.handle_event(SessionEvent::Tick { pixel: RgbColor::new(7, 8, 9) });
    assert_eq!(d, SessionDirective::Repaint);
    assert_eq!(s.last_pixel, RgbColor::new(7, 8, 9));
}
