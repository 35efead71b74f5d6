//! The lifecycle of the window, its rendering context and its surface.
//!
//! A [`Lifecycle`] is driven by the shell that owns the platform resources.
//! The shell hands it each signal of the event source and receives one
//! [`Action`] to perform; it reports the [`Outcome`] with
//! [`Lifecycle::completed`] and receives the next action, until the answer is
//! [`Action::Wait`] or [`Action::Exit`]. What the lifecycle does in each
//! state is the table in [`crate::model`].

use crate::config::ConfigTemplate;
use crate::config::SurfaceConfig;
use crate::context::fallback;
use crate::context::first_level;
use crate::context::ApiLevel;
use crate::model::after_current;
use crate::model::after_cursor;
use crate::model::closed_to_signals;
use crate::model::fail;
use crate::model::lemma_step_keeps_wf;
use crate::model::on_about_to_wait;
use crate::model::on_exiting;
use crate::model::on_outcome;
use crate::model::on_resumed;
use crate::model::on_suspended;
use crate::model::on_window_event;
use crate::model::tear_down;
use crate::model::terminate;
use crate::model::DrawSurface;
use crate::model::Input;
use crate::model::LifecycleState;
use crate::model::Model;
use crate::model::RenderContext;
use crate::model::RunState;
use crate::model::Stage;
use crate::signal::to_signed;
use crate::signal::Action;
use crate::signal::AppControl;
use crate::signal::DisplayFamily;
use crate::signal::Fatal;
use crate::signal::FatalKind;
use crate::signal::GrabMode;
use crate::signal::Outcome;
use crate::signal::Refusal;
use crate::signal::WindowSignal;
use crate::signal::SWAP_INTERVAL;
use crate::window::WindowInformation;
use vstd::prelude::*;

verus! {

/// The owner of the lifecycle's state. `E` is the type of the errors that the
/// platform and the event handler return.
pub struct Lifecycle<E> {
    template: ConfigTemplate,
    renderer: bool,
    window_info: WindowInformation,
    live: Option<DrawSurface>,
    context: Option<RenderContext>,
    config: Option<SurfaceConfig>,
    display: LifecycleState,
    run: RunState,
    stage: Stage,
    failure: Option<Fatal<E>>,
}

impl<E> View for Lifecycle<E> {
    type V = Model<E>;

    closed spec fn view(&self) -> Model<E> {
        Model {
            display: self.display,
            run: self.run,
            stage: self.stage,
            config: self.config,
            context: self.context,
            live: self.live,
            renderer: self.renderer,
            failure: self.failure,
            window: self.window_info@,
            template: self.template,
        }
    }
}

impl<E> Lifecycle<E> {
    /// A lifecycle before its first activation.
    pub fn new(template: ConfigTemplate, window_info: WindowInformation) -> (app: Lifecycle<E>)
        ensures
            app@ == Model::<E>::initial(window_info@, template),
            app@.wf(),
    {
        Lifecycle {
            template,
            renderer: false,
            window_info,
            live: None,
            context: None,
            config: None,
            display: LifecycleState::Uninitialized,
            run: RunState::Running,
            stage: Stage::Ready,
            failure: None,
        }
    }

    /// The platform asks for a window: see [`on_resumed`].
    pub fn resumed(&mut self) -> (step: Result<Action, Refusal>)
        ensures
            (final(self)@, step) == on_resumed(old(self)@),
            old(self)@.wf() ==> final(self)@.wf(),
    {
        proof {
            if self@.wf() {
                lemma_step_keeps_wf(self@, Input::Resumed);
            }
        }
        if let Some(refusal) = self.closed_to_signals() {
            return Err(refusal);
        }
        if self.live.is_some() {
            return Err(Refusal::AlreadyActive);
        }
        match self.display {
            LifecycleState::Uninitialized => {
                self.stage = Stage::BuildingDisplay;
                Ok(Action::BuildDisplay(self.template))
            },
            LifecycleState::Initialized => match (self.context, self.config) {
                (Some(_), Some(config)) => {
                    self.stage = Stage::RebuildingWindow;
                    Ok(Action::RebuildWindow(config))
                },
                _ => Err(Refusal::NoContext),
            },
        }
    }

    /// The platform takes the native surface back: see [`on_suspended`].
    pub fn suspended(&mut self) -> (step: Result<Action, Refusal>)
        ensures
            (final(self)@, step) == on_suspended(old(self)@),
            old(self)@.wf() ==> final(self)@.wf(),
    {
        proof {
            if self@.wf() {
                lemma_step_keeps_wf(self@, Input::Suspended);
            }
        }
        if let Some(refusal) = self.closed_to_signals() {
            return Err(refusal);
        }
        if self.context.is_none() {
            return Err(Refusal::NoContext);
        }
        if self.live.is_some() {
            self.stage = Stage::DroppingLive;
            Ok(Action::DropLive)
        } else {
            self.stage = Stage::ReleasingCurrent;
            Ok(Action::MakeNotCurrent)
        }
    }

    /// A window event arrives: see [`on_window_event`].
    pub fn window_event(&mut self, event: WindowSignal) -> (step: Result<Action, Refusal>)
        ensures
            (final(self)@, step) == on_window_event(old(self)@, event),
            old(self)@.wf() ==> final(self)@.wf(),
    {
        proof {
            if self@.wf() {
                lemma_step_keeps_wf(self@, Input::WindowEvent(event));
            }
        }
        if let Some(refusal) = self.closed_to_signals() {
            return Err(refusal);
        }
        match event {
            WindowSignal::Resized(extent) => {
                if extent.width == 0 || extent.height == 0 || self.live.is_none() {
                    Ok(Action::Wait)
                } else {
                    self.stage = Stage::ResizingSurface(extent);
                    Ok(Action::ResizeSurface(extent))
                }
            },
            WindowSignal::Other => {
                self.stage = Stage::Dispatching;
                Ok(Action::Dispatch)
            },
        }
    }

    /// The event loop ends: see [`on_exiting`].
    pub fn exiting(&mut self) -> (step: Result<Action, Refusal>)
        ensures
            (final(self)@, step) == on_exiting(old(self)@),
            old(self)@.wf() ==> final(self)@.wf(),
    {
        proof {
            if self@.wf() {
                lemma_step_keeps_wf(self@, Input::Exiting);
            }
        }
        if let RunState::Terminated = self.run {
            return Err(Refusal::Terminated);
        }
        match self.stage {
            Stage::Ready => {},
            _ => {
                return Err(Refusal::Busy);
            },
        }
        self.run = RunState::Stopping;
        self.tear_down()
    }

    /// The event source has run out of events: see [`on_about_to_wait`].
    pub fn about_to_wait(&mut self) -> (step: Result<Action, Refusal>)
        ensures
            (final(self)@, step) == on_about_to_wait(old(self)@),
            old(self)@.wf() ==> final(self)@.wf(),
    {
        proof {
            if self@.wf() {
                lemma_step_keeps_wf(self@, Input::AboutToWait);
            }
        }
        if let Some(refusal) = self.closed_to_signals() {
            return Err(refusal);
        }
        if self.live.is_none() {
            Ok(Action::Wait)
        } else {
            self.stage = Stage::Drawing;
            Ok(Action::Draw)
        }
    }

    /// The shell reports what came of the last action: see [`on_outcome`].
    pub fn completed(&mut self, outcome: Outcome<E>) -> (step: Result<Action, Refusal>)
        ensures
            (final(self)@, step) == on_outcome(old(self)@, outcome),
            old(self)@.wf() ==> final(self)@.wf(),
    {
        proof {
            if self@.wf() {
                lemma_step_keeps_wf(self@, Input::Completed(outcome));
            }
        }
        match self.stage {
            Stage::Ready => match self.run {
                RunState::Terminated => Err(Refusal::Terminated),
                _ => Err(Refusal::Idle),
            },
            Stage::BuildingDisplay => match outcome {
                Outcome::Selected(config) => {
                    self.config = Some(config);
                    self.stage = Stage::ShowingCursor;
                    Ok(Action::SetCursorVisible(self.window_info.cursor_visible))
                },
                Outcome::Failed(cause) => self.fail(FatalKind::WindowRealization, cause),
                _ => Err(Refusal::Unexpected),
            },
            Stage::RebuildingWindow => match outcome {
                Outcome::Done => {
                    self.stage = Stage::ShowingCursor;
                    Ok(Action::SetCursorVisible(self.window_info.cursor_visible))
                },
                Outcome::Failed(cause) => self.fail(FatalKind::WindowRealization, cause),
                _ => Err(Refusal::Unexpected),
            },
            Stage::ShowingCursor => match outcome {
                Outcome::Done => {
                    if self.window_info.cursor_grabbed {
                        self.stage = Stage::GrabbingConfined;
                        Ok(Action::GrabCursor(GrabMode::Confined))
                    } else {
                        self.after_cursor()
                    }
                },
                _ => Err(Refusal::Unexpected),
            },
            Stage::GrabbingConfined => match outcome {
                Outcome::Done => self.after_cursor(),
                Outcome::Failed(_) => {
                    self.stage = Stage::GrabbingLocked;
                    Ok(Action::GrabCursor(GrabMode::Locked))
                },
                _ => Err(Refusal::Unexpected),
            },
            Stage::GrabbingLocked => match outcome {
                Outcome::Done => self.after_cursor(),
                Outcome::Failed(cause) => self.fail(FatalKind::CursorGrab, cause),
                _ => Err(Refusal::Unexpected),
            },
            Stage::Negotiating(level) => match outcome {
                Outcome::Done => {
                    self.context = Some(RenderContext { api: level, current: false });
                    self.display = LifecycleState::Initialized;
                    self.stage = Stage::CreatingSurface;
                    Ok(Action::CreateSurface)
                },
                Outcome::Failed(cause) => match fallback(level) {
                    Some(next) => {
                        self.stage = Stage::Negotiating(next);
                        Ok(Action::CreateContext(next))
                    },
                    None => self.fail(FatalKind::ContextNegotiation, cause),
                },
                _ => Err(Refusal::Unexpected),
            },
            Stage::CreatingSurface => match outcome {
                Outcome::Done => {
                    self.stage = Stage::MakingCurrent;
                    Ok(Action::MakeCurrent)
                },
                _ => Err(Refusal::Unexpected),
            },
            Stage::MakingCurrent => match outcome {
                Outcome::Done => {
                    self.rebind(true);
                    self.after_current()
                },
                Outcome::Failed(cause) => self.fail(FatalKind::MakeCurrent, cause),
                _ => Err(Refusal::Unexpected),
            },
            Stage::BuildingRenderer => match outcome {
                Outcome::Done => {
                    self.renderer = true;
                    self.stage = Stage::SettingVsync;
                    Ok(Action::SetSwapInterval(SWAP_INTERVAL))
                },
                _ => Err(Refusal::Unexpected),
            },
            Stage::SettingVsync => match outcome {
                Outcome::Done => {
                    self.stage = Stage::StoringLive { vsync: true };
                    Ok(Action::StoreLive)
                },
                Outcome::Failed(_) => {
                    self.stage = Stage::StoringLive { vsync: false };
                    Ok(Action::StoreLive)
                },
                _ => Err(Refusal::Unexpected),
            },
            Stage::StoringLive { vsync } => match outcome {
                Outcome::Done => {
                    self.live = Some(DrawSurface { size: None, vsync });
                    self.settle()
                },
                _ => Err(Refusal::Unexpected),
            },
            Stage::DroppingLive => match outcome {
                Outcome::Done => {
                    self.live = None;
                    self.stage = Stage::ReleasingCurrent;
                    Ok(Action::MakeNotCurrent)
                },
                _ => Err(Refusal::Unexpected),
            },
            Stage::ReleasingCurrent => match outcome {
                Outcome::Done => {
                    self.rebind(false);
                    self.settle()
                },
                _ => Err(Refusal::Unexpected),
            },
            Stage::ResizingSurface(extent) => match outcome {
                Outcome::Done => {
                    self.stage = Stage::NotifyingRenderer(extent);
                    Ok(
                        Action::NotifyRenderer {
                            width: to_signed(extent.width),
                            height: to_signed(extent.height),
                        },
                    )
                },
                _ => Err(Refusal::Unexpected),
            },
            Stage::NotifyingRenderer(extent) => match outcome {
                Outcome::Done => {
                    if let Some(surface) = self.live {
                        self.live = Some(DrawSurface { size: Some(extent), vsync: surface.vsync });
                    }
                    self.settle()
                },
                _ => Err(Refusal::Unexpected),
            },
            Stage::Dispatching => match outcome {
                Outcome::Handled(AppControl::Continue) => self.settle(),
                Outcome::Handled(AppControl::Exit) => {
                    self.run = RunState::Stopping;
                    self.stage = Stage::Ready;
                    Ok(Action::Exit)
                },
                Outcome::Failed(cause) => self.fail(FatalKind::Handler, cause),
                _ => Err(Refusal::Unexpected),
            },
            Stage::Drawing => match outcome {
                Outcome::Done => {
                    self.stage = Stage::RequestingRedraw;
                    Ok(Action::RequestRedraw)
                },
                _ => Err(Refusal::Unexpected),
            },
            Stage::RequestingRedraw => match outcome {
                Outcome::Done => {
                    self.stage = Stage::Presenting;
                    Ok(Action::Present)
                },
                _ => Err(Refusal::Unexpected),
            },
            Stage::Presenting => match outcome {
                Outcome::Done => self.settle(),
                Outcome::Failed(cause) => self.fail(FatalKind::Presentation, cause),
                _ => Err(Refusal::Unexpected),
            },
            Stage::TearingDownLive => match outcome {
                Outcome::Done => {
                    self.live = None;
                    self.tear_down()
                },
                _ => Err(Refusal::Unexpected),
            },
            Stage::ReleasingContext => match outcome {
                Outcome::Released(DisplayFamily::Egl) => {
                    self.context = None;
                    self.stage = Stage::TerminatingDisplay;
                    Ok(Action::TerminateDisplay)
                },
                Outcome::Released(DisplayFamily::Other) => {
                    self.context = None;
                    self.terminate()
                },
                _ => Err(Refusal::Unexpected),
            },
            Stage::TerminatingDisplay => match outcome {
                Outcome::Done => self.terminate(),
                _ => Err(Refusal::Unexpected),
            },
        }
    }

    /// Ends the run and returns its result: the first fatal failure, or
    /// success where there was none.
    pub fn finish(self) -> (result: Result<(), Fatal<E>>)
        ensures
            result == self@.exit_state(),
    {
        match self.failure {
            Some(failure) => Err(failure),
            None => Ok(()),
        }
    }

    /// Whether the display has been initialized.
    pub fn state(&self) -> (display: LifecycleState)
        ensures
            display == self@.display,
    {
        self.display
    }

    /// How far the run has come.
    pub fn run_state(&self) -> (run: RunState)
        ensures
            run == self@.run,
    {
        self.run
    }

    /// The action that awaits its outcome.
    pub fn stage(&self) -> (stage: Stage)
        ensures
            stage == self@.stage,
    {
        self.stage
    }

    /// The surface configuration that was selected, if one was.
    pub fn config(&self) -> (config: Option<SurfaceConfig>)
        ensures
            config == self@.config,
    {
        self.config
    }

    /// The stored context, if there is one.
    pub fn context(&self) -> (context: Option<RenderContext>)
        ensures
            context == self@.context,
    {
        self.context
    }

    /// The live surface, if there is one.
    pub fn live(&self) -> (live: Option<DrawSurface>)
        ensures
            live == self@.live,
    {
        self.live
    }

    /// Whether the renderer has been constructed.
    pub fn has_renderer(&self) -> (renderer: bool)
        ensures
            renderer == self@.renderer,
    {
        self.renderer
    }

    /// The kind of the failure that ended the run, if one did.
    pub fn failure(&self) -> (kind: Option<FatalKind>)
        ensures
            kind == (match self@.failure {
                Some(failure) => Some(failure.kind),
                None => None,
            }),
    {
        match &self.failure {
            Some(failure) => Some(failure.kind),
            None => None,
        }
    }

    /// The description of the window that each activation realizes.
    pub fn window_info(&self) -> (window_info: &WindowInformation)
        ensures
            window_info@ == self@.window,
    {
        &self.window_info
    }

    /// The template that the first activation selects a configuration by.
    pub fn template(&self) -> (template: ConfigTemplate)
        ensures
            template == self@.template,
    {
        self.template
    }

    fn closed_to_signals(&self) -> (refusal: Option<Refusal>)
        ensures
            refusal == closed_to_signals(self@),
    {
        match self.run {
            RunState::Terminated => Some(Refusal::Terminated),
            RunState::Stopping => Some(Refusal::Stopping),
            RunState::Running => match self.stage {
                Stage::Ready => None,
                _ => Some(Refusal::Busy),
            },
        }
    }

    fn settle(&mut self) -> (step: Result<Action, Refusal>)
        ensures
            (final(self)@, step) == crate::model::settle(old(self)@),
    {
        self.stage = Stage::Ready;
        Ok(Action::Wait)
    }

    fn fail(&mut self, kind: FatalKind, cause: E) -> (step: Result<Action, Refusal>)
        ensures
            (final(self)@, step) == fail(old(self)@, kind, cause),
    {
        self.failure = Some(Fatal { kind, cause });
        self.run = RunState::Stopping;
        self.stage = Stage::Ready;
        Ok(Action::Exit)
    }

    fn rebind(&mut self, current: bool)
        ensures
            final(self)@ == (Model {
                context: crate::model::rebind(old(self)@.context, current),
                ..old(self)@
            }),
    {
        if let Some(context) = self.context {
            self.context = Some(RenderContext { api: context.api, current });
        }
    }

    fn after_cursor(&mut self) -> (step: Result<Action, Refusal>)
        ensures
            (final(self)@, step) == after_cursor(old(self)@),
    {
        match self.display {
            LifecycleState::Uninitialized => {
                let level: ApiLevel = first_level();
                self.stage = Stage::Negotiating(level);
                Ok(Action::CreateContext(level))
            },
            LifecycleState::Initialized => {
                self.stage = Stage::CreatingSurface;
                Ok(Action::CreateSurface)
            },
        }
    }

    fn after_current(&mut self) -> (step: Result<Action, Refusal>)
        ensures
            (final(self)@, step) == after_current(old(self)@),
    {
        if self.renderer {
            self.stage = Stage::SettingVsync;
            Ok(Action::SetSwapInterval(SWAP_INTERVAL))
        } else {
            self.stage = Stage::BuildingRenderer;
            Ok(Action::BuildRenderer)
        }
    }

    fn tear_down(&mut self) -> (step: Result<Action, Refusal>)
        ensures
            (final(self)@, step) == tear_down(old(self)@),
    {
        if self.live.is_some() {
            self.stage = Stage::TearingDownLive;
            Ok(Action::DropLive)
        } else if self.context.is_some() {
            self.stage = Stage::ReleasingContext;
            Ok(Action::ReleaseContext)
        } else {
            self.terminate()
        }
    }

    fn terminate(&mut self) -> (step: Result<Action, Refusal>)
        ensures
            (final(self)@, step) == terminate(old(self)@),
    {
        self.run = RunState::Terminated;
        self.stage = Stage::Ready;
        Ok(Action::Wait)
    }
}

} // verus!
