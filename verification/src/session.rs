//! The session state machine: one picking interaction from activation
//! to a terminal result. The platform loop decodes each native event
//! into a `SessionEvent`, hands it to the session, and performs the
//! directive handed back; the session owns every decision.

use vstd::prelude::*;

use crate::colors::{ReportedColor, RgbColor};
use crate::constants::ZOOM;
use crate::zoom::{spec_scrolled, ZoomController};

verus! {

// The native message codes the session reacts to, as the platform
// defines them.
pub const WM_DESTROY: u32 = 0x0002;

pub const WM_PAINT: u32 = 0x000F;

pub const WM_KEYDOWN: u32 = 0x0100;

pub const WM_TIMER: u32 = 0x0113;

pub const WM_LBUTTONDOWN: u32 = 0x0201;

pub const WM_RBUTTONDOWN: u32 = 0x0204;

pub const WM_MBUTTONDOWN: u32 = 0x0207;

pub const WM_MOUSEWHEEL: u32 = 0x020A;

// The virtual-key code of the escape key.
pub const VK_ESCAPE: u32 = 0x1B;

/// What a native window message means to the session.
#[derive(Clone, Copy, Debug, PartialEq, Eq, Structural)]
pub enum MessageKind {
    /// The periodic timer fired: sample, reposition, repaint.
    TimerTick,
    /// The overlay asks to be repainted.
    Paint,
    /// The wheel scrolled: change zoom.
    MouseWheel,
    /// A key went down over the input window; handled (and discarded)
    /// so it does not reach the host.
    KeyDown,
    /// The primary button picks the sampled color.
    PrimaryClick,
    /// The secondary button is swallowed to suppress the context menu.
    SecondaryClick,
    /// The middle button cancels.
    MiddleClick,
    /// The overlay is being destroyed.
    Destroyed,
    /// Anything else: left to the platform's default handling.
    Other,
}

/// The meaning of a native message code.
pub open spec fn spec_classify_message(msg: u32) -> MessageKind {
    if msg == WM_TIMER {
        MessageKind::TimerTick
    } else if msg == WM_PAINT {
        MessageKind::Paint
    } else if msg == WM_MOUSEWHEEL {
        MessageKind::MouseWheel
    } else if msg == WM_KEYDOWN {
        MessageKind::KeyDown
    } else if msg == WM_LBUTTONDOWN {
        MessageKind::PrimaryClick
    } else if msg == WM_RBUTTONDOWN {
        MessageKind::SecondaryClick
    } else if msg == WM_MBUTTONDOWN {
        MessageKind::MiddleClick
    } else if msg == WM_DESTROY {
        MessageKind::Destroyed
    } else {
        MessageKind::Other
    }
}

/// Decode a native message code into its meaning for the session.
pub fn classify_message(msg: u32) -> (kind: MessageKind)
    ensures
        kind == spec_classify_message(msg),
{
    if msg == WM_TIMER {
        MessageKind::TimerTick
    } else if msg == WM_PAINT {
        MessageKind::Paint
    } else if msg == WM_MOUSEWHEEL {
        MessageKind::MouseWheel
    } else if msg == WM_KEYDOWN {
        MessageKind::KeyDown
    } else if msg == WM_LBUTTONDOWN {
        MessageKind::PrimaryClick
    } else if msg == WM_RBUTTONDOWN {
        MessageKind::SecondaryClick
    } else if msg == WM_MBUTTONDOWN {
        MessageKind::MiddleClick
    } else if msg == WM_DESTROY {
        MessageKind::Destroyed
    } else {
        MessageKind::Other
    }
}

/// What the global key filter must do with one intercepted key event.
#[derive(Clone, Copy, Debug, PartialEq, Eq, Structural)]
pub enum HookDecision {
    /// Escape went down: request cancellation and suppress the key from
    /// further propagation.
    CancelAndBlock,
    /// Anything else: pass the event along untouched.
    Forward,
}

/// The key filter cancels exactly on an escape key-down that the
/// platform asks it to inspect (a non-negative filter code).
pub open spec fn spec_hook_decision(code: i32, wparam: usize, vk_code: u32) -> HookDecision {
    if code >= 0 && wparam == WM_KEYDOWN as usize && vk_code == VK_ESCAPE {
        HookDecision::CancelAndBlock
    } else {
        HookDecision::Forward
    }
}

/// Decide what the global key filter does with one key event, given the
/// platform's filter code, the message kind word, and the decoded
/// virtual-key code.
pub fn hook_decision(code: i32, wparam: usize, vk_code: u32) -> (d: HookDecision)
    ensures
        d == spec_hook_decision(code, wparam, vk_code),
{
    if code >= 0 && wparam == WM_KEYDOWN as usize && vk_code == VK_ESCAPE {
        HookDecision::CancelAndBlock
    } else {
        HookDecision::Forward
    }
}

/// One decoded input to the running session.
#[derive(Clone, Copy, Debug, PartialEq, Eq, Structural)]
pub enum SessionEvent {
    /// A timer tick, carrying the pixel just sampled at the pointer.
    Tick { pixel: RgbColor },
    /// A wheel scroll with its signed delta.
    Scroll { delta: i16 },
    /// The primary button went down.
    PrimaryClick,
    /// The secondary button went down.
    SecondaryClick,
    /// The middle button went down.
    MiddleClick,
    /// The global key filter intercepted escape.
    EscapePressed,
    /// The overlay window is being destroyed from outside.
    WindowDestroyed,
}

/// What the platform loop must do after the session took one event.
#[derive(Clone, Copy, Debug, PartialEq, Eq, Structural)]
pub enum SessionDirective {
    /// Repaint the overlay window (never the input window).
    Repaint,
    /// Leave the event loop; the session reached a terminal state.
    Terminate,
    /// Nothing; the event was swallowed.
    Ignore,
}

/// One picking session's state: the zoom controller, the pixel sampled
/// on the most recent tick, and the terminal flags.
#[derive(Clone, Copy, Debug, PartialEq, Eq, Structural)]
pub struct Session {
    pub zoom: ZoomController,
    /// The sample taken on the most recent tick; black until the first
    /// tick, like an unset packed color.
    pub last_pixel: RgbColor,
    /// The color captured by a primary click, once one happened.
    pub picked: Option<RgbColor>,
    /// Set by escape or a middle click; never cleared.
    pub cancelled: bool,
}

/// The session state after taking one event.
pub open spec fn spec_step(s: Session, event: SessionEvent) -> Session {
    match event {
        SessionEvent::Tick { pixel } => Session { last_pixel: pixel, ..s },
        SessionEvent::Scroll { delta } => Session {
            zoom: ZoomController { level: spec_scrolled(s.zoom.level as int, delta) as i32 },
            ..s
        },
        SessionEvent::PrimaryClick => Session { picked: Some(s.last_pixel), ..s },
        SessionEvent::SecondaryClick => s,
        SessionEvent::MiddleClick => Session { cancelled: true, ..s },
        SessionEvent::EscapePressed => Session { cancelled: true, ..s },
        SessionEvent::WindowDestroyed => s,
    }
}

/// The directive owed to the platform loop after one event.
pub open spec fn spec_directive(event: SessionEvent) -> SessionDirective {
    match event {
        SessionEvent::Tick { .. } => SessionDirective::Repaint,
        SessionEvent::Scroll { .. } => SessionDirective::Repaint,
        SessionEvent::PrimaryClick => SessionDirective::Terminate,
        SessionEvent::SecondaryClick => SessionDirective::Ignore,
        SessionEvent::MiddleClick => SessionDirective::Terminate,
        SessionEvent::EscapePressed => SessionDirective::Terminate,
        SessionEvent::WindowDestroyed => SessionDirective::Terminate,
    }
}

/// The terminal result of one session.
#[derive(Clone, Copy, Debug, PartialEq, Eq, Structural)]
pub enum PickOutcome {
    /// A primary click picked this color.
    Picked(ReportedColor),
    /// The session ended without a pick: escape, a middle click, or the
    /// overlay being destroyed.
    Cancelled,
}

/// The result owed for a finished session: cancellation wins; otherwise
/// a pick reports the picked color, normalized; a session that ended
/// without either (the overlay was destroyed) counts as cancelled.
pub open spec fn spec_outcome(s: Session) -> PickOutcome {
    if s.cancelled {
        PickOutcome::Cancelled
    } else {
        match s.picked {
            Some(c) => PickOutcome::Picked(c.spec_reported()),
            None => PickOutcome::Cancelled,
        }
    }
}

impl Session {
    /// The session's own invariant: the zoom level is within bounds.
    pub open spec fn well_formed(self) -> bool {
        self.zoom.well_formed()
    }

    /// A fresh session: default zoom, an unset (black) sample, no pick,
    /// not cancelled.
    pub fn new() -> (s: Session)
        ensures
            s.zoom.level == ZOOM,
            s.last_pixel == (RgbColor { r: 0, g: 0, b: 0 }),
            s.picked is None,
            !s.cancelled,
            s.well_formed(),
    {
        Session {
            zoom: ZoomController::new(),
            last_pixel: RgbColor::new(0, 0, 0),
            picked: None,
            cancelled: false,
        }
    }

    /// Take one event: mutate the state exactly as the event demands
    /// and hand back what the platform loop must do next.
    pub fn handle_event(&mut self, event: SessionEvent) -> (d: SessionDirective)
        requires
            old(self).well_formed(),
        ensures
            *final(self) == spec_step(*old(self), event),
            final(self).well_formed(),
            d == spec_directive(event),
    {
        match event {
            SessionEvent::Tick { pixel } => {
                self.last_pixel = pixel;
                SessionDirective::Repaint
            },
            SessionEvent::Scroll { delta } => {
                self.zoom.on_scroll(delta);
                SessionDirective::Repaint
            },
            SessionEvent::PrimaryClick => {
                self.picked = Some(self.last_pixel);
                SessionDirective::Terminate
            },
            SessionEvent::SecondaryClick => SessionDirective::Ignore,
            SessionEvent::MiddleClick => {
                self.cancelled = true;
                SessionDirective::Terminate
            },
            SessionEvent::EscapePressed => {
                self.cancelled = true;
                SessionDirective::Terminate
            },
            SessionEvent::WindowDestroyed => SessionDirective::Terminate,
        }
    }

    /// The terminal result of this session.
    pub fn outcome(&self) -> (o: PickOutcome)
        ensures
            o == spec_outcome(*self),
    {
        if self.cancelled {
            PickOutcome::Cancelled
        } else {
            match self.picked {
                Some(c) => PickOutcome::Picked(c.to_reported()),
                None => PickOutcome::Cancelled,
            }
        }
    }
}

/// Escape at any point before a click yields a cancelled result.
pub proof fn lemma_escape_cancels(s: Session)
    requires
        s.picked is None,
    ensures
        spec_outcome(spec_step(s, SessionEvent::EscapePressed)) == PickOutcome::Cancelled,
{
}

/// A middle click yields a cancelled result, whatever came before.
pub proof fn lemma_middle_click_cancels(s: Session)
    ensures
        spec_outcome(spec_step(s, SessionEvent::MiddleClick)) == PickOutcome::Cancelled,
{
}

/// The overlay being destroyed before a click yields a cancelled
/// result.
pub proof fn lemma_destroyed_cancels(s: Session)
    requires
        s.picked is None,
    ensures
        spec_outcome(spec_step(s, SessionEvent::WindowDestroyed)) == PickOutcome::Cancelled,
{
}

/// Cancellation is cooperative and stable: once the flag is set, no
/// later event clears it, so the session terminates cancelled at the
/// loop's next check however many events still arrive.
pub proof fn lemma_cancellation_is_stable(s: Session, event: SessionEvent)
    requires
        s.cancelled,
    ensures
        spec_step(s, event).cancelled,
        s.picked is None && !(event is PrimaryClick) ==> spec_outcome(spec_step(s, event))
            == PickOutcome::Cancelled,
{
}

/// A primary click yields a picked result equal to the pixel sampled on
/// the immediately preceding tick — never a stale earlier sample.
pub proof fn lemma_primary_click_picks_last_tick(s: Session, pixel: RgbColor)
    requires
        !s.cancelled,
    ensures
        spec_outcome(spec_step(spec_step(s, SessionEvent::Tick { pixel }), SessionEvent::PrimaryClick))
            == PickOutcome::Picked(pixel.spec_reported()),
{
}

} // verus!
