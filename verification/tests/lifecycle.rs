use color_picker::lifecycle::{ResourceKind, Resources};

fn acquire_all(r: &mut Resources) {
    r.acquire(ResourceKind::GraphicsRuntime);
    r.acquire(ResourceKind::SnapshotBuffer);
    r.acquire(ResourceKind::LoupeWindow);
    r.acquire(ResourceKind::InputWindow);
    r.acquire(ResourceKind::KeyFilter);
    r.acquire(ResourceKind::HiddenCursor);
    r.acquire(ResourceKind::Timer);
}

#[test]
fn full_teardown_releases_newest_first_pointer_after_buffer() {
    let mut r = Resources::new();
    acquire_all(&mut r);
    let steps = r.teardown();
    // timer, key filter, both windows, capture buffer, then the
    // pointer is restored, and the drawing runtime goes last
    assert_eq!(
        steps,
        vec![
            ResourceKind::Timer,
            ResourceKind::KeyFilter,
            ResourceKind::InputWindow,
            ResourceKind::LoupeWindow,
            ResourceKind::SnapshotBuffer,
            ResourceKind::HiddenCursor,
            ResourceKind::GraphicsRuntime,
        ]
    );
}

#[test]
fn pointer_restore_waits_for_the_capture_buffer() {
    let mut r = Resources::new();
    // the session aborted just before the timer started
    r.acquire(ResourceKind::GraphicsRuntime);
    r.acquire(ResourceKind::SnapshotBuffer);
    r.acquire(ResourceKind::LoupeWindow);
    r.acquire(ResourceKind::InputWindow);
    r.acquire(ResourceKind::KeyFilter);
    r.acquire(ResourceKind::HiddenCursor);
    let steps = r.teardown();
    assert_eq!(
        steps,
        vec![
            ResourceKind::KeyFilter,
            ResourceKind::InputWindow,
            ResourceKind::LoupeWindow,
            ResourceKind::SnapshotBuffer,
            ResourceKind::HiddenCursor,
            ResourceKind::GraphicsRuntime,
        ]
    );
}

#[test]
fn second_teardown_releases_nothing() {
    let mut r = Resources::new();
    acquire_all(&mut r);
    let first = r.teardown();
    assert_eq!(first.len(), 7);
    let second = r.teardown();
    assert!(second.is_empty());
}

#[test]
fn teardown_after_partial_initialization_releases_only_what_was_acquired() {
    let mut r = Resources::new();
    // the session aborted after the overlay window came up
    r.acquire(ResourceKind::GraphicsRuntime);
    r.acquire(ResourceKind::SnapshotBuffer);
    r.acquire(ResourceKind::LoupeWindow);
    let steps = r.teardown();
    assert_eq!(
        steps,
        vec![
            ResourceKind::LoupeWindow,
            ResourceKind::SnapshotBuffer,
            ResourceKind::GraphicsRuntime,
        ]
    );
    // a repeated teardown after the abort is a no-op, not a crash
    assert!(r.teardown().is_empty());
}

#[test]
fn teardown_of_a_fresh_session_releases_nothing() {
    let mut r = Resources::new();
    assert!(r.teardown().is_empty());
}
