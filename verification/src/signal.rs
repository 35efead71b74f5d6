//! What passes between the lifecycle and the shell that embeds it: the work
//! that the lifecycle asks for, and what the shell reports back.

use crate::config::ConfigTemplate;
use crate::config::SurfaceConfig;
use crate::context::ApiLevel;
use vstd::prelude::*;

verus! {

/// The number of frames that presentation waits for.
pub const SWAP_INTERVAL: u32 = 1;

/// What an event handler asks of the run.
#[derive(Clone, Copy, Debug, PartialEq, Eq, Structural)]
pub enum AppControl {
    /// Go on with the next event.
    Continue,
    /// End the run.
    Exit,
}

/// A size in pixels.
#[derive(Clone, Copy, Debug, PartialEq, Eq, Structural)]
pub struct Extent {
    pub width: u32,
    pub height: u32,
}

impl Extent {
    /// A window that is minimized reports a size without area.
    pub open spec fn is_empty(self) -> bool {
        self.width == 0 || self.height == 0
    }
}

/// A window event as far as the lifecycle tells events apart.
#[derive(Clone, Copy, Debug, PartialEq, Eq, Structural)]
pub enum WindowSignal {
    /// The drawable area has a new size.
    Resized(Extent),
    /// Any other event: input, focus, a request to close, and so on.
    Other,
}

/// How the pointer is kept inside the window.
#[derive(Clone, Copy, Debug, PartialEq, Eq, Structural)]
pub enum GrabMode {
    /// The pointer moves freely inside the window and cannot leave it.
    Confined,
    /// The pointer is held in place.
    Locked,
}

/// The family of the display that a context belonged to.
#[derive(Clone, Copy, Debug, PartialEq, Eq, Structural)]
pub enum DisplayFamily {
    /// A display that has to be terminated by hand before the process ends.
    Egl,
    /// Any other display.
    Other,
}

/// One piece of work for the shell. Each is answered with one [`Outcome`],
/// except [`Action::Wait`] and [`Action::Exit`], which end a transition.
///
/// Where nothing else is said the answer is [`Outcome::Done`], or
/// [`Outcome::Failed`] with the error of the call that failed. Work that is
/// marked as final is answered by [`Outcome::Done`] alone: either it cannot
/// fail, or the shell cannot go on when it does.
#[derive(Clone, Copy, Debug, PartialEq, Eq, Structural)]
pub enum Action {
    /// The transition is complete: return to the event source.
    Wait,
    /// Ask the event source to end the loop, and drop whatever the transition
    /// in flight has made and not yet stored.
    Exit,
    /// Open the display, realize the window and select a surface
    /// configuration among those that match the template.
    /// Answered by [`Outcome::Selected`] or [`Outcome::Failed`].
    BuildDisplay(ConfigTemplate),
    /// Realize a fresh window for the configuration of the stored context.
    RebuildWindow(SurfaceConfig),
    /// Show or hide the pointer over the new window. Final.
    SetCursorVisible(bool),
    /// Keep the pointer inside the new window.
    GrabCursor(GrabMode),
    /// Ask the driver for a context at this level.
    CreateContext(ApiLevel),
    /// Create the drawable surface of the new window. Final.
    CreateSurface,
    /// Make the stored context current on the new surface.
    MakeCurrent,
    /// Load the GPU entry points and construct the renderer. Final.
    BuildRenderer,
    /// Make presentation wait for this many frames. A failure is reported
    /// and survived.
    SetSwapInterval(u32),
    /// Keep the new surface and window as the live pair. Final.
    StoreLive,
    /// Drop the live surface together with its window. Final.
    DropLive,
    /// Take the stored context off the thread and keep it. Final.
    MakeNotCurrent,
    /// Resize the live surface. Final.
    ResizeSurface(Extent),
    /// Tell the renderer the new size. Final.
    NotifyRenderer { width: i32, height: i32 },
    /// Hand the event to the event handler.
    /// Answered by [`Outcome::Handled`] or [`Outcome::Failed`].
    Dispatch,
    /// Let the renderer draw a frame. Final.
    Draw,
    /// Ask the platform to schedule the next redraw. Final.
    RequestRedraw,
    /// Present the live surface.
    Present,
    /// Let go of the stored context, keeping hold of its display.
    /// Answered by [`Outcome::Released`].
    ReleaseContext,
    /// Terminate the display that the context belonged to. Final.
    TerminateDisplay,
}

/// What came of an [`Action`].
#[derive(Debug, PartialEq, Eq)]
pub enum Outcome<E> {
    /// The work is done.
    Done,
    /// The work failed for this reason.
    Failed(E),
    /// The display is open and the window realized with this configuration.
    Selected(SurfaceConfig),
    /// The event handler returned this.
    Handled(AppControl),
    /// The context is gone; its display was of this family.
    Released(DisplayFamily),
}

/// Why the lifecycle turns a signal or an outcome down. Nothing changes when
/// it does.
#[derive(Clone, Copy, Debug, PartialEq, Eq, Structural)]
pub enum Refusal {
    /// The run has been shut down.
    Terminated,
    /// An exit has been requested: only the shutdown is accepted.
    Stopping,
    /// A transition is in flight and awaits the outcome of its last action.
    Busy,
    /// No action awaits an outcome.
    Idle,
    /// The outcome is not one that the pending action can have.
    Unexpected,
    /// A live surface and window exist already: an activation has to follow
    /// a deactivation.
    AlreadyActive,
    /// No context has been negotiated.
    NoContext,
}

/// The conditions that end a run.
#[derive(Clone, Copy, Debug, PartialEq, Eq, Structural)]
pub enum FatalKind {
    /// The display could not be opened or the window not realized.
    WindowRealization,
    /// The driver refused every level of the fallback chain.
    ContextNegotiation,
    /// The pointer could be neither confined nor locked.
    CursorGrab,
    /// The context could not be made current.
    MakeCurrent,
    /// The surface could not be presented.
    Presentation,
    /// The event handler returned an error.
    Handler,
}

/// The failure that ended a run.
#[derive(Debug, PartialEq, Eq)]
pub struct Fatal<E> {
    pub kind: FatalKind,
    /// The error as the failing call returned it.
    pub cause: E,
}

/// Whether the action makes a window, a context, a surface or a renderer.
pub open spec fn creates(action: Action) -> bool {
    action is BuildDisplay || action is RebuildWindow || action is CreateContext
        || action is CreateSurface || action is BuildRenderer
}

/// The size as the renderer is told it: the same 32 bits read as signed.
pub open spec fn signed(extent: u32) -> i32 {
    if extent <= i32::MAX {
        extent as i32
    } else {
        (extent - 0x1_0000_0000) as i32
    }
}

/// Reads the bits of `extent` as a signed number.
pub fn to_signed(extent: u32) -> (value: i32)
    ensures
        value == signed(extent),
{
    if extent <= 0x7FFF_FFFF {
        extent as i32
    } else {
        let above: u32 = extent - 0x8000_0000;
        (above as i32) + i32::MIN
    }
}

} // verus!
