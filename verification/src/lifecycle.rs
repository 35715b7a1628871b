//! The resource lifecycle of one session: which platform resources are
//! held, the order they are acquired in, and the teardown discipline —
//! release the held resources newest first, the system pointer restored
//! only after the capture buffer is gone, unconditionally, exactly
//! once, and tolerate partially-initialized state.

use vstd::prelude::*;

verus! {

/// A platform resource a session acquires, in acquisition order: the
/// drawing runtime, the reusable capture buffer, the two windows, the
/// global key filter, the hidden system pointer, and the periodic
/// timer.
#[derive(Clone, Copy, Debug, PartialEq, Eq, Structural)]
pub enum ResourceKind {
    /// The anti-aliased drawing runtime.
    GraphicsRuntime,
    /// The persistent capture buffer the sampler reuses every tick.
    SnapshotBuffer,
    /// The loupe overlay window.
    LoupeWindow,
    /// The transparent full-desktop input window.
    InputWindow,
    /// The global low-level key filter.
    KeyFilter,
    /// The suppressed system pointer (restored on release).
    HiddenCursor,
    /// The periodic timer driving sampling and repaint.
    Timer,
}

/// The position of a resource in the acquisition order.
pub open spec fn spec_rank(k: ResourceKind) -> int {
    match k {
        ResourceKind::GraphicsRuntime => 0,
        ResourceKind::SnapshotBuffer => 1,
        ResourceKind::LoupeWindow => 2,
        ResourceKind::InputWindow => 3,
        ResourceKind::KeyFilter => 4,
        ResourceKind::HiddenCursor => 5,
        ResourceKind::Timer => 6,
    }
}

/// The resources in acquisition order.
pub open spec fn spec_acquire_order() -> Seq<ResourceKind> {
    seq![
        ResourceKind::GraphicsRuntime,
        ResourceKind::SnapshotBuffer,
        ResourceKind::LoupeWindow,
        ResourceKind::InputWindow,
        ResourceKind::KeyFilter,
        ResourceKind::HiddenCursor,
        ResourceKind::Timer,
    ]
}

/// The position of a resource in the teardown order: stop the timer,
/// remove the key filter, destroy both windows, release the capture
/// buffer, restore the system pointer, and shut the drawing runtime
/// down last. This inverts the acquisition order except for the
/// pointer, which stays suppressed until the capture buffer is gone.
pub open spec fn spec_release_rank(k: ResourceKind) -> int {
    match k {
        ResourceKind::Timer => 0,
        ResourceKind::KeyFilter => 1,
        ResourceKind::InputWindow => 2,
        ResourceKind::LoupeWindow => 3,
        ResourceKind::SnapshotBuffer => 4,
        ResourceKind::HiddenCursor => 5,
        ResourceKind::GraphicsRuntime => 6,
    }
}

/// The resources in teardown order.
pub open spec fn spec_release_order() -> Seq<ResourceKind> {
    seq![
        ResourceKind::Timer,
        ResourceKind::KeyFilter,
        ResourceKind::InputWindow,
        ResourceKind::LoupeWindow,
        ResourceKind::SnapshotBuffer,
        ResourceKind::HiddenCursor,
        ResourceKind::GraphicsRuntime,
    ]
}

/// Which of a session's platform resources are currently held.
#[derive(Clone, Copy, Debug, PartialEq, Eq, Structural)]
pub struct Resources {
    pub graphics_runtime: bool,
    pub snapshot_buffer: bool,
    pub loupe_window: bool,
    pub input_window: bool,
    pub key_filter: bool,
    pub hidden_cursor: bool,
    pub timer: bool,
}

impl Resources {
    /// Whether resource `k` is held.
    pub open spec fn holds(self, k: ResourceKind) -> bool {
        match k {
            ResourceKind::GraphicsRuntime => self.graphics_runtime,
            ResourceKind::SnapshotBuffer => self.snapshot_buffer,
            ResourceKind::LoupeWindow => self.loupe_window,
            ResourceKind::InputWindow => self.input_window,
            ResourceKind::KeyFilter => self.key_filter,
            ResourceKind::HiddenCursor => self.hidden_cursor,
            ResourceKind::Timer => self.timer,
        }
    }

    /// The state holding nothing: before acquisition and after
    /// teardown.
    pub open spec fn spec_released() -> Resources {
        Resources {
            graphics_runtime: false,
            snapshot_buffer: false,
            loupe_window: false,
            input_window: false,
            key_filter: false,
            hidden_cursor: false,
            timer: false,
        }
    }

    /// Start a session holding nothing.
    pub fn new() -> (r: Resources)
        ensures
            r == Resources::spec_released(),
    {
        Resources {
            graphics_runtime: false,
            snapshot_buffer: false,
            loupe_window: false,
            input_window: false,
            key_filter: false,
            hidden_cursor: false,
            timer: false,
        }
    }

    /// Record that resource `k` was acquired. Acquisition follows the
    /// fixed order: everything ranked before `k` must already be held,
    /// so a partially-initialized session always holds a prefix of the
    /// order.
    pub fn acquire(&mut self, k: ResourceKind)
        requires
            !old(self).holds(k),
            forall|j: ResourceKind| spec_rank(j) < spec_rank(k) ==> old(self).holds(j),
        ensures
            final(self).holds(k),
            forall|j: ResourceKind| j != k ==> final(self).holds(j) == old(self).holds(j),
    {
        match k {
            ResourceKind::GraphicsRuntime => self.graphics_runtime = true,
            ResourceKind::SnapshotBuffer => self.snapshot_buffer = true,
            ResourceKind::LoupeWindow => self.loupe_window = true,
            ResourceKind::InputWindow => self.input_window = true,
            ResourceKind::KeyFilter => self.key_filter = true,
            ResourceKind::HiddenCursor => self.hidden_cursor = true,
            ResourceKind::Timer => self.timer = true,
        }
    }
}

/// The releases one teardown owes: every held resource, in teardown
/// order — newest first, the pointer restored after the capture buffer
/// — and nothing else.
pub open spec fn spec_release_plan(r: Resources) -> Seq<ResourceKind> {
    (if r.timer {
        seq![ResourceKind::Timer]
    } else {
        Seq::<ResourceKind>::empty()
    }) + (if r.key_filter {
        seq![ResourceKind::KeyFilter]
    } else {
        Seq::<ResourceKind>::empty()
    }) + (if r.input_window {
        seq![ResourceKind::InputWindow]
    } else {
        Seq::<ResourceKind>::empty()
    }) + (if r.loupe_window {
        seq![ResourceKind::LoupeWindow]
    } else {
        Seq::<ResourceKind>::empty()
    }) + (if r.snapshot_buffer {
        seq![ResourceKind::SnapshotBuffer]
    } else {
        Seq::<ResourceKind>::empty()
    }) + (if r.hidden_cursor {
        seq![ResourceKind::HiddenCursor]
    } else {
        Seq::<ResourceKind>::empty()
    }) + (if r.graphics_runtime {
        seq![ResourceKind::GraphicsRuntime]
    } else {
        Seq::<ResourceKind>::empty()
    })
}

impl Resources {
    /// Tear the session down: hand back the releases owed — every held
    /// resource exactly once, newest first, the pointer restored after
    /// the capture buffer — and forget them all. Tolerates any
    /// partially-initialized state, and a second call finds nothing
    /// held and owes nothing.
    #[verifier::rlimit(50)]
    pub fn teardown(&mut self) -> (steps: Vec<ResourceKind>)
        ensures
            steps@ == spec_release_plan(*old(self)),
            *final(self) == Resources::spec_released(),
    {
        let mut steps: Vec<ResourceKind> = Vec::new();
        if self.timer {
            steps.push(ResourceKind::Timer);
            self.timer = false;
        }
        if self.key_filter {
            steps.push(ResourceKind::KeyFilter);
            self.key_filter = false;
        }
        if self.input_window {
            steps.push(ResourceKind::InputWindow);
            self.input_window = false;
        }
        if self.loupe_window {
            steps.push(ResourceKind::LoupeWindow);
            self.loupe_window = false;
        }
        if self.snapshot_buffer {
            steps.push(ResourceKind::SnapshotBuffer);
            self.snapshot_buffer = false;
        }
        if self.hidden_cursor {
            steps.push(ResourceKind::HiddenCursor);
            self.hidden_cursor = false;
        }
        if self.graphics_runtime {
            steps.push(ResourceKind::GraphicsRuntime);
            self.graphics_runtime = false;
        }
        proof {
            assert(steps@ =~= spec_release_plan(*old(self)));
        }
        steps
    }
}

/// One step of session setup, in the order the steps run.
#[derive(Clone, Copy, Debug, PartialEq, Eq, Structural)]
pub enum SetupStep {
    /// Make the process per-monitor DPI aware, so pointer and screen
    /// coordinates stay pixel-accurate.
    EnableDpiAwareness,
    /// Start the anti-aliased drawing runtime.
    StartGraphics,
    /// Allocate the persistent capture buffer.
    AllocateSnapshotBuffer,
    /// Create the loupe overlay window, without granting it focus.
    CreateLoupeWindow,
    /// Exclude the freshly created overlay from screen capture.
    ApplyCaptureExclusion,
    /// Create the transparent full-desktop input window, without
    /// granting it focus.
    CreateInputWindow,
    /// Install the global low-level key filter.
    InstallKeyFilter,
    /// Hide the system pointer.
    HideCursor,
    /// Start the periodic timer that drives sampling and repaint.
    StartTimer,
}

/// The fixed order of session setup.
pub open spec fn spec_setup_plan() -> Seq<SetupStep> {
    seq![
        SetupStep::EnableDpiAwareness,
        SetupStep::StartGraphics,
        SetupStep::AllocateSnapshotBuffer,
        SetupStep::CreateLoupeWindow,
        SetupStep::ApplyCaptureExclusion,
        SetupStep::CreateInputWindow,
        SetupStep::InstallKeyFilter,
        SetupStep::HideCursor,
        SetupStep::StartTimer,
    ]
}

/// In the setup order, capture exclusion is applied to the overlay
/// directly after its creation — not masked after the fact — and before
/// the timer starts; every screen capture is driven by a timer tick, so
/// no capture runs while the overlay is capturable. That the platform
/// then keeps excluded windows out of captured buffers is the
/// platform's own guarantee.
pub proof fn lemma_exclusion_precedes_first_capture()
    ensures
        forall|i: int, j: int|
            (0 <= i < spec_setup_plan().len() && 0 <= j < spec_setup_plan().len()
                && spec_setup_plan()[i] == SetupStep::CreateLoupeWindow && spec_setup_plan()[j]
                == SetupStep::ApplyCaptureExclusion) ==> j == i + 1,
        forall|i: int, j: int|
            (0 <= i < spec_setup_plan().len() && 0 <= j < spec_setup_plan().len()
                && spec_setup_plan()[i] == SetupStep::ApplyCaptureExclusion && spec_setup_plan()[j]
                == SetupStep::StartTimer) ==> i < j,
{
}

/// A teardown releases a held resource exactly once, releases nothing
/// that is not held, and releases in strictly increasing teardown
/// position: newest first, the pointer restored after the capture
/// buffer.
#[verifier::rlimit(100)]
pub proof fn lemma_release_plan_shape(r: Resources)
    ensures
        forall|k: ResourceKind| #[trigger] spec_release_plan(r).contains(k) == r.holds(k),
        forall|i: int, j: int|
            0 <= i < j < spec_release_plan(r).len() ==> spec_release_rank(spec_release_plan(r)[i])
                < spec_release_rank(spec_release_plan(r)[j]),
{
    let p = spec_release_plan(r);
    // index where each segment of the plan starts, counting the held
    // resources before it
    let n0: int = if r.timer {
        1int
    } else {
        0int
    };
    let n1: int = n0 + if r.key_filter {
        1int
    } else {
        0int
    };
    let n2: int = n1 + if r.input_window {
        1int
    } else {
        0int
    };
    let n3: int = n2 + if r.loupe_window {
        1int
    } else {
        0int
    };
    let n4: int = n3 + if r.snapshot_buffer {
        1int
    } else {
        0int
    };
    let n5: int = n4 + if r.hidden_cursor {
        1int
    } else {
        0int
    };
    assert forall|i: int| 0 <= i < p.len() implies spec_release_rank(#[trigger] p[i]) == (if i
        < n0 {
        0int
    } else if i < n1 {
        1int
    } else if i < n2 {
        2int
    } else if i < n3 {
        3int
    } else if i < n4 {
        4int
    } else if i < n5 {
        5int
    } else {
        6int
    }) by {}
    assert forall|k: ResourceKind| #[trigger] p.contains(k) == r.holds(k) by {
        if r.holds(k) {
            match k {
                ResourceKind::Timer => assert(p[0] == k),
                ResourceKind::KeyFilter => assert(p[n0] == k),
                ResourceKind::InputWindow => assert(p[n1] == k),
                ResourceKind::LoupeWindow => assert(p[n2] == k),
                ResourceKind::SnapshotBuffer => assert(p[n3] == k),
                ResourceKind::HiddenCursor => assert(p[n4] == k),
                ResourceKind::GraphicsRuntime => assert(p[n5] == k),
            }
        } else {
            if p.contains(k) {
                let i = choose|i: int| 0 <= i < p.len() && p[i] == k;
                assert(spec_release_rank(p[i]) == spec_release_rank(k));
            }
        }
    }
}

/// A second teardown, after any teardown — including one after a
/// partial-initialization abort — finds nothing held and releases
/// nothing.
pub proof fn lemma_second_teardown_releases_nothing()
    ensures
        spec_release_plan(Resources::spec_released()) == Seq::<ResourceKind>::empty(),
{
    assert(spec_release_plan(Resources::spec_released()) =~= Seq::<ResourceKind>::empty());
}

/// A full teardown — every resource held — releases in exactly the
/// teardown order: stop the timer, remove the key filter, destroy both
/// windows, release the capture buffer, restore the system pointer,
/// shut the drawing runtime down.
pub proof fn lemma_full_teardown_order()
    ensures
        spec_release_plan(
            Resources {
                graphics_runtime: true,
                snapshot_buffer: true,
                loupe_window: true,
                input_window: true,
                key_filter: true,
                hidden_cursor: true,
                timer: true,
            },
        ) == spec_release_order(),
{
    assert(spec_release_plan(
        Resources {
            graphics_runtime: true,
            snapshot_buffer: true,
            loupe_window: true,
            input_window: true,
            key_filter: true,
            hidden_cursor: true,
            timer: true,
        },
    ) =~= spec_release_order());
}

/// Apart from the pointer, whose restoration waits until the capture
/// buffer is gone, the teardown position of every resource strictly
/// inverts its acquisition position: what was acquired later is
/// released earlier.
pub proof fn lemma_release_inverts_acquisition(k1: ResourceKind, k2: ResourceKind)
    requires
        k1 != ResourceKind::HiddenCursor,
        k2 != ResourceKind::HiddenCursor,
        spec_rank(k1) < spec_rank(k2),
    ensures
        spec_release_rank(k1) > spec_release_rank(k2),
{
}

/// Each order sequence lists every resource exactly at its rank: the
/// rank functions and the order sequences describe the same two
/// orders.
pub proof fn lemma_orders_list_the_ranks()
    ensures
        spec_acquire_order().len() == 7,
        spec_release_order().len() == 7,
        forall|k: ResourceKind| spec_acquire_order()[#[trigger] spec_rank(k)] == k,
        forall|k: ResourceKind| spec_release_order()[#[trigger] spec_release_rank(k)] == k,
{
}

} // verus!
