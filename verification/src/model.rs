//! The lifecycle as a state machine over plain values: its states, the
//! invariant that ties them together, and its table of transitions.

use crate::config::ConfigTemplate;
use crate::config::SurfaceConfig;
use crate::context::fallback_chain;
use crate::context::successor;
use crate::context::ApiLevel;
use crate::signal::signed;
use crate::signal::Action;
use crate::signal::AppControl;
use crate::signal::DisplayFamily;
use crate::signal::Extent;
use crate::signal::Fatal;
use crate::signal::FatalKind;
use crate::signal::GrabMode;
use crate::signal::Outcome;
use crate::signal::Refusal;
use crate::signal::WindowSignal;
use crate::signal::SWAP_INTERVAL;
use crate::window::WindowView;
use vstd::prelude::*;

verus! {

/// Whether the display has been opened and a context negotiated on it.
#[derive(Clone, Copy, Debug, PartialEq, Eq, Structural)]
pub enum LifecycleState {
    Uninitialized,
    Initialized,
}

/// How far the run has come.
#[derive(Clone, Copy, Debug, PartialEq, Eq, Structural)]
pub enum RunState {
    /// Signals are accepted.
    Running,
    /// An exit has been requested, by the handler or by a fatal failure.
    Stopping,
    /// The shutdown is complete.
    Terminated,
}

/// The rendering context that the driver granted.
#[derive(Clone, Copy, Debug, PartialEq, Eq, Structural)]
pub struct RenderContext {
    /// The level of the attempt that the driver accepted.
    pub api: ApiLevel,
    /// Whether the context is bound to the thread.
    pub current: bool,
}

/// The drawable surface of the live window.
#[derive(Clone, Copy, Debug, PartialEq, Eq, Structural)]
pub struct DrawSurface {
    /// The size of the last accepted resize, in pixels.
    pub size: Option<Extent>,
    /// Whether presentation waits for the display's refresh.
    pub vsync: bool,
}

/// The action whose outcome the lifecycle awaits, or [`Stage::Ready`]
/// between transitions.
#[derive(Clone, Copy, Debug, PartialEq, Eq, Structural)]
pub enum Stage {
    Ready,
    BuildingDisplay,
    RebuildingWindow,
    ShowingCursor,
    GrabbingConfined,
    GrabbingLocked,
    Negotiating(ApiLevel),
    CreatingSurface,
    MakingCurrent,
    BuildingRenderer,
    SettingVsync,
    StoringLive { vsync: bool },
    DroppingLive,
    ReleasingCurrent,
    ResizingSurface(Extent),
    NotifyingRenderer(Extent),
    Dispatching,
    Drawing,
    RequestingRedraw,
    Presenting,
    TearingDownLive,
    ReleasingContext,
    TerminatingDisplay,
}

/// A state of the lifecycle.
pub struct Model<E> {
    pub display: LifecycleState,
    pub run: RunState,
    pub stage: Stage,
    /// The surface configuration, once one has been selected.
    pub config: Option<SurfaceConfig>,
    /// The context, from its negotiation to the shutdown.
    pub context: Option<RenderContext>,
    /// The live surface and window, from an activation to the next
    /// deactivation.
    pub live: Option<DrawSurface>,
    /// Whether the renderer has been constructed.
    pub renderer: bool,
    /// The first fatal failure, if there was one.
    pub failure: Option<Fatal<E>>,
    pub window: WindowView,
    pub template: ConfigTemplate,
}

/// A state together with what the lifecycle answers.
pub type Step<E> = (Model<E>, Result<Action, Refusal>);

impl<E> Model<E> {
    /// The state in which a run starts.
    pub open spec fn initial(window: WindowView, template: ConfigTemplate) -> Model<E> {
        Model {
            display: LifecycleState::Uninitialized,
            run: RunState::Running,
            stage: Stage::Ready,
            config: None,
            context: None,
            live: None,
            renderer: false,
            failure: None,
            window,
            template,
        }
    }

    /// Between transitions the context is current exactly while a live
    /// surface exists, and no configuration is held before the first
    /// activation of a running lifecycle.
    pub open spec fn settled(self) -> bool {
        &&& self.context matches Some(context) ==> (context.current <==> self.live.is_some())
        &&& self.run == RunState::Running && self.display == LifecycleState::Uninitialized
            ==> self.config.is_none()
    }

    /// A new window is being set up: nothing is live, and the context, where
    /// there is one, is off the thread.
    pub open spec fn setting_up(self) -> bool {
        &&& self.run == RunState::Running
        &&& self.live.is_none()
        &&& self.config.is_some()
        &&& self.context matches Some(context) ==> !context.current
        &&& self.display == LifecycleState::Initialized ==> self.context.is_some()
    }

    /// The context is stored and bound to the new surface, which is not yet
    /// live.
    pub open spec fn bound(self) -> bool {
        &&& self.run == RunState::Running
        &&& self.live.is_none()
        &&& self.context matches Some(context) && context.current
    }

    /// What the stage in flight says of the resources.
    pub open spec fn stage_wf(self) -> bool {
        match self.stage {
            Stage::Ready => self.settled(),
            Stage::BuildingDisplay => {
                &&& self.run == RunState::Running
                &&& self.display == LifecycleState::Uninitialized
                &&& self.live.is_none()
                &&& self.config.is_none()
            },
            Stage::RebuildingWindow => {
                &&& self.setting_up()
                &&& self.display == LifecycleState::Initialized
            },
            Stage::ShowingCursor | Stage::GrabbingConfined | Stage::GrabbingLocked => {
                self.setting_up()
            },
            Stage::Negotiating(level) => {
                &&& self.setting_up()
                &&& self.display == LifecycleState::Uninitialized
                &&& exists|k: int| 0 <= k < fallback_chain().len() && fallback_chain()[k] == level
            },
            Stage::CreatingSurface | Stage::MakingCurrent => {
                &&& self.setting_up()
                &&& self.context.is_some()
            },
            Stage::BuildingRenderer => self.bound() && !self.renderer,
            Stage::SettingVsync | Stage::StoringLive { .. } => self.bound() && self.renderer,
            Stage::DroppingLive => self.run == RunState::Running && self.live.is_some(),
            Stage::ReleasingCurrent => {
                &&& self.run == RunState::Running
                &&& self.live.is_none()
                &&& self.context.is_some()
            },
            Stage::ResizingSurface(extent) | Stage::NotifyingRenderer(extent) => {
                &&& self.run == RunState::Running
                &&& self.live.is_some()
                &&& !extent.is_empty()
            },
            Stage::Dispatching => self.run == RunState::Running && self.settled(),
            Stage::Drawing | Stage::RequestingRedraw | Stage::Presenting => {
                self.run == RunState::Running && self.live.is_some()
            },
            Stage::TearingDownLive => self.run == RunState::Stopping && self.live.is_some(),
            Stage::ReleasingContext => {
                &&& self.run == RunState::Stopping
                &&& self.live.is_none()
                &&& self.context.is_some()
            },
            Stage::TerminatingDisplay => {
                &&& self.run == RunState::Stopping
                &&& self.live.is_none()
                &&& self.context.is_none()
            },
        }
    }

    /// The invariant of the lifecycle.
    ///
    /// A context exists only on an initialized display and only after a
    /// configuration has been selected; a live surface exists only beside a
    /// current context and a constructed renderer; a failure is recorded only
    /// on a run that no longer accepts signals; and nothing is left once the
    /// run is terminated.
    pub open spec fn wf(self) -> bool {
        &&& self.context.is_some() ==> self.display == LifecycleState::Initialized
            && self.config.is_some()
        &&& self.live.is_some() ==> self.renderer && (self.context matches Some(context)
            && context.current)
        &&& self.failure.is_some() ==> self.run != RunState::Running
        &&& self.run == RunState::Terminated ==> self.stage == Stage::Ready && self.live.is_none()
            && self.context.is_none()
        &&& self.run == RunState::Running ==> (self.display == LifecycleState::Initialized
            <==> self.context.is_some())
        &&& self.stage_wf()
    }

    /// The result that the run ends with.
    pub open spec fn exit_state(self) -> Result<(), Fatal<E>> {
        match self.failure {
            Some(failure) => Err(failure),
            None => Ok(()),
        }
    }
}

/// The answer to what is turned down: nothing changes.
pub open spec fn refuse<E>(s: Model<E>, refusal: Refusal) -> Step<E> {
    (s, Err(refusal))
}

/// The answer that asks for `action` and awaits its outcome in `stage`.
pub open spec fn proceed<E>(s: Model<E>, stage: Stage, action: Action) -> Step<E> {
    (Model { stage, ..s }, Ok(action))
}

/// The answer that completes a transition.
pub open spec fn settle<E>(s: Model<E>) -> Step<E> {
    (Model { stage: Stage::Ready, ..s }, Ok(Action::Wait))
}

/// The answer to a fatal failure: it is recorded, the transition in flight
/// is given up and the event source is asked to end the loop.
pub open spec fn fail<E>(s: Model<E>, kind: FatalKind, cause: E) -> Step<E> {
    (
        Model {
            failure: Some(Fatal { kind, cause }),
            run: RunState::Stopping,
            stage: Stage::Ready,
            ..s
        },
        Ok(Action::Exit),
    )
}

/// Why a platform signal cannot be taken now, if it cannot.
pub open spec fn closed_to_signals<E>(s: Model<E>) -> Option<Refusal> {
    match s.run {
        RunState::Terminated => Some(Refusal::Terminated),
        RunState::Stopping => Some(Refusal::Stopping),
        RunState::Running => if s.stage != Stage::Ready {
            Some(Refusal::Busy)
        } else {
            None
        },
    }
}

/// The platform asks for a window.
///
/// The first activation opens the display; every later one only realizes a
/// window for the configuration that was selected then.
pub open spec fn on_resumed<E>(s: Model<E>) -> Step<E> {
    if let Some(refusal) = closed_to_signals(s) {
        refuse(s, refusal)
    } else if s.live.is_some() {
        refuse(s, Refusal::AlreadyActive)
    } else {
        match s.display {
            LifecycleState::Uninitialized => proceed(
                s,
                Stage::BuildingDisplay,
                Action::BuildDisplay(s.template),
            ),
            LifecycleState::Initialized => match (s.context, s.config) {
                (Some(_), Some(config)) => proceed(
                    s,
                    Stage::RebuildingWindow,
                    Action::RebuildWindow(config),
                ),
                _ => refuse(s, Refusal::NoContext),
            },
        }
    }
}

/// The platform takes the native surface back.
///
/// The live pair goes first, then the context is taken off the thread; it is
/// kept for the next activation.
pub open spec fn on_suspended<E>(s: Model<E>) -> Step<E> {
    if let Some(refusal) = closed_to_signals(s) {
        refuse(s, refusal)
    } else if s.context.is_none() {
        refuse(s, Refusal::NoContext)
    } else if s.live.is_some() {
        proceed(s, Stage::DroppingLive, Action::DropLive)
    } else {
        proceed(s, Stage::ReleasingCurrent, Action::MakeNotCurrent)
    }
}

/// A window event arrives.
///
/// A resize is carried out when both dimensions are positive and a surface
/// is live, and is dropped otherwise; every other event goes to the handler.
pub open spec fn on_window_event<E>(s: Model<E>, signal: WindowSignal) -> Step<E> {
    if let Some(refusal) = closed_to_signals(s) {
        refuse(s, refusal)
    } else {
        match signal {
            WindowSignal::Resized(extent) => if extent.is_empty() || s.live.is_none() {
                (s, Ok(Action::Wait))
            } else {
                proceed(s, Stage::ResizingSurface(extent), Action::ResizeSurface(extent))
            },
            WindowSignal::Other => proceed(s, Stage::Dispatching, Action::Dispatch),
        }
    }
}

/// The event source has run out of events: a frame is due if a surface is
/// live.
pub open spec fn on_about_to_wait<E>(s: Model<E>) -> Step<E> {
    if let Some(refusal) = closed_to_signals(s) {
        refuse(s, refusal)
    } else if s.live.is_none() {
        (s, Ok(Action::Wait))
    } else {
        proceed(s, Stage::Drawing, Action::Draw)
    }
}

/// What is left to release, in the order of release: the live pair, then
/// the context, then nothing.
pub open spec fn tear_down<E>(s: Model<E>) -> Step<E> {
    if s.live.is_some() {
        proceed(s, Stage::TearingDownLive, Action::DropLive)
    } else if s.context.is_some() {
        proceed(s, Stage::ReleasingContext, Action::ReleaseContext)
    } else {
        terminate(s)
    }
}

/// The end of the shutdown.
pub open spec fn terminate<E>(s: Model<E>) -> Step<E> {
    (Model { run: RunState::Terminated, stage: Stage::Ready, ..s }, Ok(Action::Wait))
}

/// The event loop ends: everything is released.
pub open spec fn on_exiting<E>(s: Model<E>) -> Step<E> {
    if s.run == RunState::Terminated {
        refuse(s, Refusal::Terminated)
    } else if s.stage != Stage::Ready {
        refuse(s, Refusal::Busy)
    } else {
        tear_down(Model { run: RunState::Stopping, ..s })
    }
}

/// The step after the pointer has been dealt with: a display that has no
/// context yet negotiates one, any other goes on to the surface.
pub open spec fn after_cursor<E>(s: Model<E>) -> Step<E> {
    match s.display {
        LifecycleState::Uninitialized => proceed(
            s,
            Stage::Negotiating(fallback_chain()[0]),
            Action::CreateContext(fallback_chain()[0]),
        ),
        LifecycleState::Initialized => proceed(s, Stage::CreatingSurface, Action::CreateSurface),
    }
}

/// The step after the context has been made current: the renderer is
/// constructed if it has never been, and the swap interval is set.
pub open spec fn after_current<E>(s: Model<E>) -> Step<E> {
    if s.renderer {
        proceed(s, Stage::SettingVsync, Action::SetSwapInterval(SWAP_INTERVAL))
    } else {
        proceed(s, Stage::BuildingRenderer, Action::BuildRenderer)
    }
}

/// The context with its binding to the thread changed.
pub open spec fn rebind(context: Option<RenderContext>, current: bool) -> Option<RenderContext> {
    match context {
        Some(context) => Some(RenderContext { current, ..context }),
        None => None,
    }
}

/// The live surface after a resize.
pub open spec fn resize(live: Option<DrawSurface>, extent: Extent) -> Option<DrawSurface> {
    match live {
        Some(surface) => Some(DrawSurface { size: Some(extent), ..surface }),
        None => None,
    }
}

/// The shell reports what came of the action that was asked for last.
pub open spec fn on_outcome<E>(s: Model<E>, outcome: Outcome<E>) -> Step<E> {
    match s.stage {
        Stage::Ready => refuse(
            s,
            if s.run == RunState::Terminated {
                Refusal::Terminated
            } else {
                Refusal::Idle
            },
        ),
        Stage::BuildingDisplay => match outcome {
            Outcome::Selected(config) => proceed(
                Model { config: Some(config), ..s },
                Stage::ShowingCursor,
                Action::SetCursorVisible(s.window.cursor_visible),
            ),
            Outcome::Failed(cause) => fail(s, FatalKind::WindowRealization, cause),
            _ => refuse(s, Refusal::Unexpected),
        },
        Stage::RebuildingWindow => match outcome {
            Outcome::Done => proceed(
                s,
                Stage::ShowingCursor,
                Action::SetCursorVisible(s.window.cursor_visible),
            ),
            Outcome::Failed(cause) => fail(s, FatalKind::WindowRealization, cause),
            _ => refuse(s, Refusal::Unexpected),
        },
        Stage::ShowingCursor => match outcome {
            Outcome::Done => if s.window.cursor_grabbed {
                proceed(s, Stage::GrabbingConfined, Action::GrabCursor(GrabMode::Confined))
            } else {
                after_cursor(s)
            },
            _ => refuse(s, Refusal::Unexpected),
        },
        Stage::GrabbingConfined => match outcome {
            Outcome::Done => after_cursor(s),
            Outcome::Failed(_) => proceed(
                s,
                Stage::GrabbingLocked,
                Action::GrabCursor(GrabMode::Locked),
            ),
            _ => refuse(s, Refusal::Unexpected),
        },
        Stage::GrabbingLocked => match outcome {
            Outcome::Done => after_cursor(s),
            Outcome::Failed(cause) => fail(s, FatalKind::CursorGrab, cause),
            _ => refuse(s, Refusal::Unexpected),
        },
        Stage::Negotiating(level) => match outcome {
            Outcome::Done => proceed(
                Model {
                    context: Some(RenderContext { api: level, current: false }),
                    display: LifecycleState::Initialized,
                    ..s
                },
                Stage::CreatingSurface,
                Action::CreateSurface,
            ),
            Outcome::Failed(cause) => match successor(level) {
                Some(next) => proceed(s, Stage::Negotiating(next), Action::CreateContext(next)),
                None => fail(s, FatalKind::ContextNegotiation, cause),
            },
            _ => refuse(s, Refusal::Unexpected),
        },
        Stage::CreatingSurface => match outcome {
            Outcome::Done => proceed(s, Stage::MakingCurrent, Action::MakeCurrent),
            _ => refuse(s, Refusal::Unexpected),
        },
        Stage::MakingCurrent => match outcome {
            Outcome::Done => after_current(Model { context: rebind(s.context, true), ..s }),
            Outcome::Failed(cause) => fail(s, FatalKind::MakeCurrent, cause),
            _ => refuse(s, Refusal::Unexpected),
        },
        Stage::BuildingRenderer => match outcome {
            Outcome::Done => proceed(
                Model { renderer: true, ..s },
                Stage::SettingVsync,
                Action::SetSwapInterval(SWAP_INTERVAL),
            ),
            _ => refuse(s, Refusal::Unexpected),
        },
        Stage::SettingVsync => match outcome {
            Outcome::Done => proceed(s, Stage::StoringLive { vsync: true }, Action::StoreLive),
            Outcome::Failed(_) => proceed(
                s,
                Stage::StoringLive { vsync: false },
                Action::StoreLive,
            ),
            _ => refuse(s, Refusal::Unexpected),
        },
        Stage::StoringLive { vsync } => match outcome {
            Outcome::Done => settle(Model { live: Some(DrawSurface { size: None, vsync }), ..s }),
            _ => refuse(s, Refusal::Unexpected),
        },
        Stage::DroppingLive => match outcome {
            Outcome::Done => proceed(
                Model { live: None, ..s },
                Stage::ReleasingCurrent,
                Action::MakeNotCurrent,
            ),
            _ => refuse(s, Refusal::Unexpected),
        },
        Stage::ReleasingCurrent => match outcome {
            Outcome::Done => settle(Model { context: rebind(s.context, false), ..s }),
            _ => refuse(s, Refusal::Unexpected),
        },
        Stage::ResizingSurface(extent) => match outcome {
            Outcome::Done => proceed(
                s,
                Stage::NotifyingRenderer(extent),
                Action::NotifyRenderer {
                    width: signed(extent.width),
                    height: signed(extent.height),
                },
            ),
            _ => refuse(s, Refusal::Unexpected),
        },
        Stage::NotifyingRenderer(extent) => match outcome {
            Outcome::Done => settle(Model { live: resize(s.live, extent), ..s }),
            _ => refuse(s, Refusal::Unexpected),
        },
        Stage::Dispatching => match outcome {
            Outcome::Handled(AppControl::Continue) => settle(s),
            Outcome::Handled(AppControl::Exit) => (
                Model { run: RunState::Stopping, stage: Stage::Ready, ..s },
                Ok(Action::Exit),
            ),
            Outcome::Failed(cause) => fail(s, FatalKind::Handler, cause),
            _ => refuse(s, Refusal::Unexpected),
        },
        Stage::Drawing => match outcome {
            Outcome::Done => proceed(s, Stage::RequestingRedraw, Action::RequestRedraw),
            _ => refuse(s, Refusal::Unexpected),
        },
        Stage::RequestingRedraw => match outcome {
            Outcome::Done => proceed(s, Stage::Presenting, Action::Present),
            _ => refuse(s, Refusal::Unexpected),
        },
        Stage::Presenting => match outcome {
            Outcome::Done => settle(s),
            Outcome::Failed(cause) => fail(s, FatalKind::Presentation, cause),
            _ => refuse(s, Refusal::Unexpected),
        },
        Stage::TearingDownLive => match outcome {
            Outcome::Done => tear_down(Model { live: None, ..s }),
            _ => refuse(s, Refusal::Unexpected),
        },
        Stage::ReleasingContext => match outcome {
            Outcome::Released(DisplayFamily::Egl) => proceed(
                Model { context: None, ..s },
                Stage::TerminatingDisplay,
                Action::TerminateDisplay,
            ),
            Outcome::Released(DisplayFamily::Other) => terminate(Model { context: None, ..s }),
            _ => refuse(s, Refusal::Unexpected),
        },
        Stage::TerminatingDisplay => match outcome {
            Outcome::Done => terminate(s),
            _ => refuse(s, Refusal::Unexpected),
        },
    }
}

/// Anything that the shell can hand to the lifecycle.
pub enum Input<E> {
    Resumed,
    Suspended,
    WindowEvent(WindowSignal),
    AboutToWait,
    Exiting,
    Completed(Outcome<E>),
}

/// The table of transitions as one function.
pub open spec fn step<E>(s: Model<E>, input: Input<E>) -> Step<E> {
    match input {
        Input::Resumed => on_resumed(s),
        Input::Suspended => on_suspended(s),
        Input::WindowEvent(signal) => on_window_event(s, signal),
        Input::AboutToWait => on_about_to_wait(s),
        Input::Exiting => on_exiting(s),
        Input::Completed(outcome) => on_outcome(s, outcome),
    }
}

/// Every transition keeps the invariant.
pub proof fn lemma_step_keeps_wf<E>(s: Model<E>, input: Input<E>)
    requires
        s.wf(),
    ensures
        step(s, input).0.wf(),
{
    assert(fallback_chain()[0] == ApiLevel::Modern);
    if let Input::Completed(outcome) = input {
        lemma_outcome_keeps_wf(s, outcome);
    }
}

proof fn lemma_outcome_keeps_wf<E>(s: Model<E>, outcome: Outcome<E>)
    requires
        s.wf(),
    ensures
        on_outcome(s, outcome).0.wf(),
{
    assert(fallback_chain()[0] == ApiLevel::Modern);
    assert(on_outcome(s, outcome).0.wf()) by {
        if let Stage::Negotiating(level) = s.stage {
            if let Some(next) = successor(level) {
                let k = choose|k: int|
                    0 <= k < fallback_chain().len() && fallback_chain()[k] == level;
                assert(fallback_chain()[k + 1] == next);
            }
        }
    }
}

} // verus!
