//! The per-window render loop: a state machine driven by attach, data-change
//! and animation-tick events, repainting only when something changed.

use vstd::prelude::*;

use crate::progress::HighlightState;

verus! {

/// Lifecycle of one overlay window. A window is attached at most once, when
/// the host-provided native surface handle becomes available, and afterwards
/// alternates between actively animating and sitting idle.
#[derive(Clone, Copy, Debug, PartialEq, Eq, Structural)]
pub enum WindowPhase {
    Uninitialized,
    Attached { surface: u64 },
    Rendering { surface: u64 },
    Idle { surface: u64 },
}

/// What can happen to a window between two paints.
#[derive(Clone, Copy, Debug, PartialEq, Eq, Structural)]
pub enum WindowEvent {
    /// The host handed over the native surface to draw on.
    SurfaceReady { surface: u64 },
    /// The shared playback state was replaced.
    StateChanged,
    /// The steady animation timer fired.
    Tick,
}

/// The next phase and whether a repaint is requested, given whether the
/// sampled highlight state still needs animation. Events before the surface
/// exists are ignored; a data change always wakes an idle window; ticks stop
/// moving the window once nothing animates.
pub open spec fn step_spec(phase: WindowPhase, event: WindowEvent, animating: bool) -> (
    WindowPhase,
    bool,
) {
    match (phase, event) {
        (WindowPhase::Uninitialized, WindowEvent::SurfaceReady { surface }) => (
            WindowPhase::Attached { surface },
            true,
        ),
        (WindowPhase::Uninitialized, _) => (WindowPhase::Uninitialized, false),
        (WindowPhase::Attached { surface }, WindowEvent::StateChanged) => (
            WindowPhase::Rendering { surface },
            true,
        ),
        (WindowPhase::Attached { surface }, WindowEvent::Tick) => if animating {
            (WindowPhase::Rendering { surface }, true)
        } else {
            (WindowPhase::Idle { surface }, false)
        },
        (WindowPhase::Attached { surface }, WindowEvent::SurfaceReady { .. }) => (
            WindowPhase::Attached { surface },
            false,
        ),
        (WindowPhase::Rendering { surface }, WindowEvent::StateChanged) => (
            WindowPhase::Rendering { surface },
            true,
        ),
        (WindowPhase::Rendering { surface }, WindowEvent::Tick) => if animating {
            (WindowPhase::Rendering { surface }, true)
        } else {
            (WindowPhase::Idle { surface }, false)
        },
        (WindowPhase::Rendering { surface }, WindowEvent::SurfaceReady { .. }) => (
            WindowPhase::Rendering { surface },
            false,
        ),
        (WindowPhase::Idle { surface }, WindowEvent::StateChanged) => (
            WindowPhase::Rendering { surface },
            true,
        ),
        (WindowPhase::Idle { surface }, WindowEvent::Tick) => (WindowPhase::Idle { surface }, false),
        (WindowPhase::Idle { surface }, WindowEvent::SurfaceReady { .. }) => (
            WindowPhase::Idle { surface },
            false,
        ),
    }
}

/// Advances one window's lifecycle by one event.
pub fn step_window(phase: WindowPhase, event: WindowEvent, animating: bool) -> (r: (
    WindowPhase,
    bool,
))
    ensures
        r == step_spec(phase, event, animating),
{
    match (phase, event) {
        (WindowPhase::Uninitialized, WindowEvent::SurfaceReady { surface }) => (
            WindowPhase::Attached { surface },
            true,
        ),
        (WindowPhase::Uninitialized, _) => (WindowPhase::Uninitialized, false),
        (WindowPhase::Attached { surface }, WindowEvent::StateChanged) => (
            WindowPhase::Rendering { surface },
            true,
        ),
        (WindowPhase::Attached { surface }, WindowEvent::Tick) => if animating {
            (WindowPhase::Rendering { surface }, true)
        } else {
            (WindowPhase::Idle { surface }, false)
        },
        (WindowPhase::Attached { surface }, WindowEvent::SurfaceReady { .. }) => (
            WindowPhase::Attached { surface },
            false,
        ),
        (WindowPhase::Rendering { surface }, WindowEvent::StateChanged) => (
            WindowPhase::Rendering { surface },
            true,
        ),
        (WindowPhase::Rendering { surface }, WindowEvent::Tick) => if animating {
            (WindowPhase::Rendering { surface }, true)
        } else {
            (WindowPhase::Idle { surface }, false)
        },
        (WindowPhase::Rendering { surface }, WindowEvent::SurfaceReady { .. }) => (
            WindowPhase::Rendering { surface },
            false,
        ),
        (WindowPhase::Idle { surface }, WindowEvent::StateChanged) => (
            WindowPhase::Rendering { surface },
            true,
        ),
        (WindowPhase::Idle { surface }, WindowEvent::Tick) => (WindowPhase::Idle { surface }, false),
        (WindowPhase::Idle { surface }, WindowEvent::SurfaceReady { .. }) => (
            WindowPhase::Idle { surface },
            false,
        ),
    }
}

/// A repaint between two samplings is requested exactly when the derived
/// visual state changed.
pub fn needs_repaint(prev: &HighlightState, next: &HighlightState) -> (r: bool)
    ensures
        r == (prev != next),
{
    !(*prev == *next)
}

/// Animation ticks keep running exactly while the line is still progressing
/// and playback is not paused; once line progress reaches one (or on pause)
/// the ticks stop, so a settled window is not redrawn needlessly.
pub fn needs_ticks(hs: &HighlightState, paused: bool) -> (r: bool)
    ensures
        r == (!hs.line_progress.is_one() && !paused),
{
    hs.line_progress.num != hs.line_progress.den && !paused
}

/// An idle window stays idle across ticks: only a data change (or a fresh
/// surface on an uninitialized window) can make it paint again.
pub proof fn lemma_idle_stable(surface: u64, animating: bool)
    ensures
        step_spec(
            WindowPhase::Idle { surface },
            WindowEvent::Tick,
            animating,
        ) == (WindowPhase::Idle { surface }, false),
        step_spec(
            WindowPhase::Idle { surface },
            WindowEvent::StateChanged,
            animating,
        ) == (WindowPhase::Rendering { surface }, true),
{
}

} // verus!
