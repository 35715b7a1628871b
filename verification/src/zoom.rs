//! The zoom controller: owns the magnification level, clamps it to its
//! bounds on every scroll, and derives the loupe geometry from it.

use vstd::prelude::*;

use crate::constants::{BORDER_W, CAPTURE_SIZE, ZOOM, ZOOM_MAX, ZOOM_MIN};

verus! {

/// Side length of the magnified circle at zoom level `level`: every
/// captured source pixel becomes a `level`-sided square.
pub open spec fn spec_loupe_size(level: int) -> int {
    CAPTURE_SIZE * level
}

/// Side length of the square overlay window around the loupe at zoom
/// level `level`: the loupe plus a border on each side.
pub open spec fn spec_window_size(level: int) -> int {
    spec_loupe_size(level) + BORDER_W * 2
}

/// Half the side of the crosshair square at zoom level `level`, rounding
/// down: the crosshair is sized to exactly one source pixel.
pub open spec fn spec_crosshair_half(level: int) -> int {
    level / 2
}

/// The zoom level after one scroll event of wheel delta `delta`:
/// scrolling up steps the level up, scrolling down steps it down, and
/// either way the result is clamped to [ZOOM_MIN, ZOOM_MAX].
pub open spec fn spec_scrolled(level: int, delta: i16) -> int {
    if delta > 0 {
        if level + 1 <= ZOOM_MAX {
            level + 1
        } else {
            ZOOM_MAX as int
        }
    } else if delta < 0 {
        if level - 1 >= ZOOM_MIN {
            level - 1
        } else {
            ZOOM_MIN as int
        }
    } else {
        level
    }
}

/// The magnification level, mutated only by scroll events and always
/// within [ZOOM_MIN, ZOOM_MAX].
#[derive(Clone, Copy, Debug, PartialEq, Eq, Structural)]
pub struct ZoomController {
    pub level: i32,
}

impl ZoomController {
    /// The level is within its bounds.
    pub open spec fn well_formed(self) -> bool {
        ZOOM_MIN <= self.level <= ZOOM_MAX
    }

    /// Start at the default magnification.
    pub fn new() -> (z: Self)
        ensures
            z.level == ZOOM,
            z.well_formed(),
    {
        Self { level: ZOOM }
    }

    /// Apply one scroll event: step the level by one in the direction of
    /// the wheel and clamp it to its bounds.
    pub fn on_scroll(&mut self, delta: i16)
        requires
            old(self).well_formed(),
        ensures
            final(self).level == spec_scrolled(old(self).level as int, delta),
            final(self).well_formed(),
    {
        if delta > 0 {
            self.level = if self.level + 1 < ZOOM_MAX {
                self.level + 1
            } else {
                ZOOM_MAX
            };
        } else if delta < 0 {
            self.level = if self.level - 1 > ZOOM_MIN {
                self.level - 1
            } else {
                ZOOM_MIN
            };
        }
    }

    /// Side length of the magnified circle at the current level.
    pub fn loupe_size(&self) -> (size: i32)
        requires
            self.well_formed(),
        ensures
            size == spec_loupe_size(self.level as int),
    {
        CAPTURE_SIZE * self.level
    }

    /// Side length of the overlay window at the current level.
    pub fn window_size(&self) -> (size: i32)
        requires
            self.well_formed(),
        ensures
            size == spec_window_size(self.level as int),
    {
        CAPTURE_SIZE * self.level + BORDER_W * 2
    }

    /// Half the crosshair side at the current level.
    pub fn crosshair_half(&self) -> (half: i32)
        requires
            self.well_formed(),
        ensures
            half == spec_crosshair_half(self.level as int),
    {
        self.level / 2
    }
}

/// For every zoom level within bounds, the loupe diameter is the capture
/// extent times the level and the window adds one border width on each
/// side; scrolling past either bound is a clamped no-op, and a scroll
/// never leaves the bounds.
pub proof fn lemma_zoom_geometry(level: int, delta: i16)
    requires
        ZOOM_MIN <= level <= ZOOM_MAX,
    ensures
        spec_loupe_size(level) == CAPTURE_SIZE * level,
        spec_window_size(level) == spec_loupe_size(level) + 2 * BORDER_W,
        level == ZOOM_MAX && delta > 0 ==> spec_scrolled(level, delta) == level,
        level == ZOOM_MIN && delta < 0 ==> spec_scrolled(level, delta) == level,
        ZOOM_MIN <= spec_scrolled(level, delta) <= ZOOM_MAX,
{
}

} // verus!
