//! Decisions of the frame loop: what each window event and each presentation
//! outcome leads to, and how long to wait to hold the frame-rate cap.
use vstd::prelude::*;
use crate::input::Key;

verus! {

/// Target frame period, 1/144 s, in nanoseconds.
pub const FRAME_PERIOD_NANOS: u64 = 6_944_444;

/// Whether the loop goes on.
#[derive(Clone, Copy, Debug, PartialEq, Eq)]
pub enum RunState {
    Running,
    Exiting,
}

/// A window event that the renderer's input handler did not consume.
#[derive(Clone, Copy, Debug, PartialEq, Eq)]
pub enum WindowEventKind {
    CloseRequested,
    Keyboard { key: Key, pressed: bool },
    /// The window, or its scale factor, changed to this inner size.
    Resized { width: u32, height: u32 },
    Other,
}

/// What the loop does after a window event.
#[derive(Clone, Copy, Debug, PartialEq, Eq)]
pub enum LoopAction {
    Nothing,
    Exit,
    Resize { width: u32, height: u32 },
}

/// How presenting a frame went.
#[derive(Clone, Copy, Debug, PartialEq, Eq)]
pub enum PresentOutcome {
    Presented,
    /// The surface was lost and must be configured again.
    Lost,
    OutOfMemory,
    /// Any other presentation failure.
    Failed,
}

/// What the loop does after presenting a frame.
#[derive(Clone, Copy, Debug, PartialEq, Eq)]
pub enum PresentAction {
    Continue,
    /// Resize to the current size, which rebuilds the surface.
    RebuildSurface,
    Exit,
    /// Report the failure and go on.
    Report,
}

/// The loop's state machine.
#[derive(Clone, Copy, Debug, PartialEq, Eq)]
pub struct FrameScheduler {
    pub state: RunState,
}

/// The action for a window event; `handled` tells whether the renderer's input
/// handler consumed it.
pub open spec fn window_action(handled: bool, event: WindowEventKind) -> LoopAction {
    if handled {
        LoopAction::Nothing
    } else {
        match event {
            WindowEventKind::CloseRequested => LoopAction::Exit,
            WindowEventKind::Keyboard { key: Key::Escape, pressed: true } => LoopAction::Exit,
            WindowEventKind::Resized { width, height } => LoopAction::Resize { width, height },
            _ => LoopAction::Nothing,
        }
    }
}

/// The action for a presentation outcome.
pub open spec fn present_action(outcome: PresentOutcome) -> PresentAction {
    match outcome {
        PresentOutcome::Presented => PresentAction::Continue,
        PresentOutcome::Lost => PresentAction::RebuildSurface,
        PresentOutcome::OutOfMemory => PresentAction::Exit,
        PresentOutcome::Failed => PresentAction::Report,
    }
}

impl FrameScheduler {
    /// A running loop.
    pub fn new() -> (r: Self)
        ensures
            r.state == RunState::Running,
    {
        FrameScheduler { state: RunState::Running }
    }

    /// Decides on a window event. Closing the window or pressing escape, when the
    /// input handler did not consume it, ends the loop; exiting is final.
    pub fn on_window_event(&mut self, handled: bool, event: WindowEventKind) -> (r: LoopAction)
        ensures
            r == window_action(handled, event),
            final(self).state == (if r is Exit { RunState::Exiting } else { old(self).state }),
    {
        let r = if handled {
            LoopAction::Nothing
        } else {
            match event {
                WindowEventKind::CloseRequested => LoopAction::Exit,
                WindowEventKind::Keyboard { key: Key::Escape, pressed: true } => LoopAction::Exit,
                WindowEventKind::Resized { width, height } => LoopAction::Resize { width, height },
                _ => LoopAction::Nothing,
            }
        };
        if let LoopAction::Exit = r {
            self.state = RunState::Exiting;
        }
        r
    }

    /// Decides on the outcome of presenting a frame: a lost surface is rebuilt,
    /// running out of memory ends the loop, other failures are reported.
    pub fn on_present(&mut self, outcome: PresentOutcome) -> (r: PresentAction)
        ensures
            r == present_action(outcome),
            final(self).state == (if outcome is OutOfMemory { RunState::Exiting } else { old(self).state }),
    {
        match outcome {
            PresentOutcome::Presented => PresentAction::Continue,
            PresentOutcome::Lost => PresentAction::RebuildSurface,
            PresentOutcome::OutOfMemory => {
                self.state = RunState::Exiting;
                PresentAction::Exit
            },
            PresentOutcome::Failed => PresentAction::Report,
        }
    }
}

/// How long to sleep after a frame that took `elapsed` nanoseconds, so that frames
/// come no faster than the target period.
pub fn frame_cap_delay(elapsed: u64) -> (r: u64)
    ensures
        elapsed < FRAME_PERIOD_NANOS ==> r == FRAME_PERIOD_NANOS - elapsed,
        elapsed >= FRAME_PERIOD_NANOS ==> r == 0,
{
    if elapsed < FRAME_PERIOD_NANOS {
        FRAME_PERIOD_NANOS - elapsed
    } else {
        0
    }
}

} // verus!
