//! The panel state machine: visibility targets and frame-stepped slide
//! animation shared by the three popup panels.
//!
//! A panel's `visible` flag is the target set by user action; its
//! `progress` tracks the actual on-screen position on a scale of `0`
//! (fully hidden) to [`PROGRESS_FULL`] (fully shown). `progress` moves
//! toward the target by a fixed per-frame speed and stops exactly on the
//! target; a panel counts as on-screen while `visible` is set or any
//! progress remains, so a closing panel keeps rendering its slide-out.

use vstd::prelude::*;

use crate::geometry::{Rect, Size};

verus! {

/// The fully-shown progress value; progress is a percentage.
pub const PROGRESS_FULL: u32 = 100;

/// Per-frame animation speed of the widget and quick-settings panels.
pub const PANEL_SPEED_FAST: u32 = 15;

/// Per-frame animation speed of the launcher panel.
pub const PANEL_SPEED_SLOW: u32 = 12;

/// The three popup panel kinds.
#[derive(Debug, Clone, Copy, PartialEq, Eq, Structural)]
pub enum PanelType {
    Widget,
    StartMenu,
    QuickSettings,
}

/// Whether a panel with the given target and progress is on-screen (to be
/// rendered and hit-tested).
pub open spec fn panel_on_screen(visible: bool, progress: int) -> bool {
    visible || progress > 0
}

/// One animation step: progress moves toward the target (`100` when
/// `visible`, else `0`) by `speed`, clamped at the target.
pub open spec fn step_progress(p: int, visible: bool, speed: int) -> int {
    let target: int = if visible {
        100
    } else {
        0
    };
    if p == target {
        p
    } else if p < target {
        if p + speed <= 100 {
            p + speed
        } else {
            100
        }
    } else {
        if p - speed >= 0 {
            p - speed
        } else {
            0
        }
    }
}

/// Executable animation step. Returns the new progress and whether the
/// panel was still animating (it was not yet at its target).
pub(crate) fn advance_progress(progress: u32, visible: bool, speed: u32) -> (r: (u32, bool))
    requires
        progress <= 100,
        1 <= speed <= 100,
    ensures
        r.0 == step_progress(progress as int, visible, speed as int),
        r.0 <= 100,
        r.1 == (progress != (if visible {
            100u32
        } else {
            0u32
        })),
{
    let target: u32 = if visible {
        100
    } else {
        0
    };
    if progress == target {
        (progress, false)
    } else if progress < target {
        let n = if progress + speed <= 100 {
            progress + speed
        } else {
            100
        };
        (n, true)
    } else {
        let n = if progress >= speed {
            progress - speed
        } else {
            0
        };
        (n, true)
    }
}

/// While a panel is opening, every animation step keeps the progress in
/// range and strictly increases it until it reaches exactly the full
/// value, which is a fixed point.
pub proof fn lemma_opening_progress_monotone(p: int, speed: int)
    requires
        0 <= p <= 100,
        1 <= speed <= 100,
    ensures
        p <= step_progress(p, true, speed) <= 100,
        p < 100 ==> p < step_progress(p, true, speed),
        step_progress(100, true, speed) == 100,
{
}

/// A panel is on-screen throughout an open-close cycle: always while the
/// target is open, and while closing until the very step that brings the
/// progress back to zero; with target closed and no progress left it is
/// off-screen.
pub proof fn lemma_on_screen_during_cycle(p: int, speed: int)
    requires
        0 <= p <= 100,
        1 <= speed <= 100,
    ensures
        panel_on_screen(true, p),
        p > 0 ==> panel_on_screen(false, p),
        !panel_on_screen(false, 0),
        p > 0 && step_progress(p, false, speed) == 0 ==> p <= speed,
{
}


/// The on-screen vertical position of a sliding panel: linear
/// interpolation from `start` (off-screen anchor) to `target` (resting
/// position) by `p` percent, rounded toward `start`.
pub open spec fn slide_pos(target: int, start: int, p: int) -> int {
    if target <= start {
        start - (start - target) * p / 100
    } else {
        start + (target - start) * p / 100
    }
}

/// Executable slide interpolation; the result always lies between the
/// anchor and the resting position.
pub(crate) fn slide_y(target: i32, start: i32, progress: u32) -> (r: i64)
    requires
        progress <= 100,
    ensures
        r == slide_pos(target as int, start as int, progress as int),
        target <= start ==> target <= r <= start,
        start <= target ==> start <= r <= target,
{
    if target <= start {
        let diff = (start as i64) - (target as i64);
        proof {
            assert(0 <= diff * (progress as i64) <= diff * 100) by (nonlinear_arith)
                requires
                    0 <= diff,
                    0 <= progress <= 100,
            ;
            assert(0 <= diff * (progress as i64) / 100 <= diff) by (nonlinear_arith)
                requires
                    0 <= diff * (progress as i64) <= diff * 100,
                    0 <= diff,
            ;
        }
        (start as i64) - diff * (progress as i64) / 100
    } else {
        let diff = (target as i64) - (start as i64);
        proof {
            assert(0 <= diff * (progress as i64) <= diff * 100) by (nonlinear_arith)
                requires
                    0 <= diff,
                    0 <= progress <= 100,
            ;
            assert(0 <= diff * (progress as i64) / 100 <= diff) by (nonlinear_arith)
                requires
                    0 <= diff * (progress as i64) <= diff * 100,
                    0 <= diff,
            ;
        }
        (start as i64) + diff * (progress as i64) / 100
    }
}


/// The capability interface shared by the three popup panels: visibility
/// target, animation stepping, bounds, hit-testing, and drawing.
pub trait Panel {
    /// Whether the panel is structurally well-formed.
    spec fn wf(&self) -> bool;

    /// The visibility target last set by user action.
    spec fn target_visible(&self) -> bool;

    /// The current animation progress, `0` to `100`.
    spec fn anim_progress(&self) -> int;

    /// The panel's fixed per-frame animation speed.
    spec fn anim_speed(&self) -> int;

    /// Whether the panel should be rendered and hit-tested: its target is
    /// open, or some slide animation remains.
    fn is_visible(&self) -> (r: bool)
        ensures
            r == panel_on_screen(self.target_visible(), self.anim_progress()),
    ;

    /// Sets the visibility target; the animation catches up per frame.
    fn set_visible(&mut self, visible: bool)
        requires
            old(self).wf(),
        ensures
            final(self).wf(),
            final(self).target_visible() == visible,
            final(self).anim_progress() == old(self).anim_progress(),
    ;

    /// Flips the panel between on-screen and off-screen.
    fn toggle(&mut self)
        requires
            old(self).wf(),
        ensures
            final(self).wf(),
            final(self).target_visible() == !panel_on_screen(
                old(self).target_visible(),
                old(self).anim_progress(),
            ),
            final(self).anim_progress() == old(self).anim_progress(),
    {
        let v = self.is_visible();
        self.set_visible(!v);
    }

    /// The panel's resting bounds.
    fn bounds(&self) -> Rect;

    /// Processes a click. Returns whether the panel consumed it.
    fn handle_click(&mut self, x: i32, y: i32) -> (consumed: bool)
        requires
            old(self).wf(),
        ensures
            final(self).wf(),
    ;

    /// Advances the slide animation one frame toward the visibility
    /// target. Returns whether the panel was still animating.
    fn update_animation(&mut self) -> (animating: bool)
        requires
            old(self).wf(),
        ensures
            final(self).wf(),
            final(self).target_visible() == old(self).target_visible(),
            final(self).anim_speed() == old(self).anim_speed(),
            final(self).anim_progress() == step_progress(
                old(self).anim_progress(),
                old(self).target_visible(),
                old(self).anim_speed(),
            ),
            animating == (old(self).anim_progress() != (if old(self).target_visible() {
                100int
            } else {
                0int
            })),
    ;

    /// Draws the panel into the pixel buffer.
    fn draw(&self, buffer: &mut Vec<u32>, buffer_size: Size)
        requires
            self.wf(),
            buffer_size.width < 0x8000_0000,
            buffer_size.height < 0x8000_0000,
        ensures
            final(buffer).len() == old(buffer).len(),
    ;
}

} // verus!
