//! What holds of every run of the lifecycle.

use crate::config::SurfaceConfig;
use crate::context::attempts;
use crate::context::fallback_chain;
use crate::context::negotiated;
use crate::context::ApiLevel;
use crate::model::lemma_step_keeps_wf;
use crate::model::on_about_to_wait;
use crate::model::on_exiting;
use crate::model::on_outcome;
use crate::model::on_resumed;
use crate::model::on_suspended;
use crate::model::on_window_event;
use crate::model::rebind;
use crate::model::resize;
use crate::model::step;
use crate::model::DrawSurface;
use crate::model::Input;
use crate::model::LifecycleState;
use crate::model::Model;
use crate::model::RenderContext;
use crate::model::RunState;
use crate::model::Stage;
use crate::model::Step;
use crate::signal::creates;
use crate::signal::signed;
use crate::signal::Action;
use crate::signal::AppControl;
use crate::signal::DisplayFamily;
use crate::signal::Extent;
use crate::signal::Fatal;
use crate::signal::FatalKind;
use crate::signal::GrabMode;
use crate::signal::Outcome;
use crate::signal::Refusal;
use crate::signal::WindowSignal;
use crate::signal::SWAP_INTERVAL;
use vstd::prelude::*;

verus! {

/// What a driver that accepts exactly the levels of `accepts` answers to an
/// attempt at `level`; `cause` stands for the error of a refusal.
pub open spec fn driver_answer<E>(
    accepts: spec_fn(ApiLevel) -> bool,
    level: ApiLevel,
    cause: E,
) -> Outcome<E> {
    if accepts(level) {
        Outcome::Done
    } else {
        Outcome::Failed(cause)
    }
}

/// The state in which a negotiation against such a driver ends, and the
/// answer that ends it. `rounds` bounds the attempts.
pub open spec fn negotiate<E>(
    s: Model<E>,
    accepts: spec_fn(ApiLevel) -> bool,
    cause: E,
    rounds: nat,
) -> Step<E>
    decreases rounds,
{
    match s.stage {
        Stage::Negotiating(level) if rounds > 0 => {
            let next = on_outcome(s, driver_answer(accepts, level, cause));
            if next.0.stage is Negotiating {
                negotiate(next.0, accepts, cause, (rounds - 1) as nat)
            } else {
                next
            }
        },
        _ => (s, Ok(Action::Wait)),
    }
}

/// The levels that the lifecycle asks for in the course of that negotiation.
pub open spec fn requested<E>(
    s: Model<E>,
    accepts: spec_fn(ApiLevel) -> bool,
    cause: E,
    rounds: nat,
) -> Seq<ApiLevel>
    decreases rounds,
{
    match s.stage {
        Stage::Negotiating(level) if rounds > 0 => {
            let next = on_outcome(s, driver_answer(accepts, level, cause));
            seq![level] + requested(next.0, accepts, cause, (rounds - 1) as nat)
        },
        _ => Seq::empty(),
    }
}

/// A negotiation asks for the levels of the fallback chain in order and
/// stops at the first that the driver accepts. The context then reports that
/// level; when the driver refuses all of them, the run fails with what the
/// last attempt returned, and no context exists.
pub proof fn lemma_negotiation_takes_first_accepted<E>(
    s: Model<E>,
    accepts: spec_fn(ApiLevel) -> bool,
    cause: E,
)
    requires
        s.wf(),
        s.stage == Stage::Negotiating(fallback_chain()[0]),
    ensures
        requested(s, accepts, cause, 3) == attempts(accepts),
        match negotiated(accepts) {
            Some(level) => {
                &&& negotiate(s, accepts, cause, 3).1 == Ok::<Action, Refusal>(Action::CreateSurface)
                &&& negotiate(s, accepts, cause, 3).0.context == Some(
                    RenderContext { api: level, current: false },
                )
                &&& negotiate(s, accepts, cause, 3).0.display == LifecycleState::Initialized
                &&& negotiate(s, accepts, cause, 3).0.failure == s.failure
            },
            None => {
                &&& negotiate(s, accepts, cause, 3).1 == Ok::<Action, Refusal>(Action::Exit)
                &&& negotiate(s, accepts, cause, 3).0.context.is_none()
                &&& negotiate(s, accepts, cause, 3).0.display == LifecycleState::Uninitialized
                &&& negotiate(s, accepts, cause, 3).0.failure == Some(
                    Fatal { kind: FatalKind::ContextNegotiation, cause },
                )
            },
        },
{
    reveal_with_fuel(negotiate, 4);
    reveal_with_fuel(requested, 4);
    let chain = fallback_chain();
    let first = on_outcome(s, driver_answer(accepts, chain[0], cause));
    if accepts(chain[0]) {
        assert(requested(s, accepts, cause, 3) =~= chain.take(1));
    } else {
        let second = on_outcome(first.0, driver_answer(accepts, chain[1], cause));
        if accepts(chain[1]) {
            assert(requested(s, accepts, cause, 3) =~= chain.take(2));
        } else {
            let third = on_outcome(second.0, driver_answer(accepts, chain[2], cause));
            assert(requested(s, accepts, cause, 3) =~= chain);
        }
    }
}

/// When the driver refuses the modern level and accepts the embedded one,
/// the context reports the embedded level, and the step that follows is the
/// creation of the surface: the legacy level is never asked for.
pub proof fn lemma_embedded_fallback<E>(s: Model<E>, refused: E)
    requires
        s.wf(),
        s.stage == Stage::Negotiating(ApiLevel::Modern),
    ensures
        ({
            let first = on_outcome(s, Outcome::Failed(refused));
            let second = on_outcome(first.0, Outcome::<E>::Done);
            &&& first.1 == Ok::<Action, Refusal>(Action::CreateContext(ApiLevel::Embedded))
            &&& first.0.context.is_none()
            &&& second.1 == Ok::<Action, Refusal>(Action::CreateSurface)
            &&& second.0.context == Some(RenderContext { api: ApiLevel::Embedded, current: false })
            &&& second.0.failure == s.failure
        }),
{
}

/// The state after a whole resize, every action of which succeeded.
pub open spec fn resized<E>(s: Model<E>, extent: Extent) -> Model<E> {
    let asked = on_window_event(s, WindowSignal::Resized(extent));
    if asked.1 == Ok::<Action, Refusal>(Action::ResizeSurface(extent)) {
        let told = on_outcome(asked.0, Outcome::<E>::Done);
        on_outcome(told.0, Outcome::<E>::Done).0
    } else {
        asked.0
    }
}

/// The answers of the lifecycle in the course of such a resize.
pub open spec fn resize_answers<E>(s: Model<E>, extent: Extent) -> Seq<Result<Action, Refusal>> {
    let asked = on_window_event(s, WindowSignal::Resized(extent));
    if asked.1 == Ok::<Action, Refusal>(Action::ResizeSurface(extent)) {
        let told = on_outcome(asked.0, Outcome::<E>::Done);
        seq![asked.1, told.1, on_outcome(told.0, Outcome::<E>::Done).1]
    } else {
        seq![asked.1]
    }
}

/// A resize to the size that the surface already has changes nothing: the
/// second of two equal resizes leaves the state as the first left it, records
/// no failure, and neither of them asks for anything to be created. Where a
/// surface is live, each asks for the surface to be resized and the renderer
/// to be told, and for nothing else.
pub proof fn lemma_resize_is_idempotent<E>(s: Model<E>, extent: Extent)
    requires
        s.wf(),
        !extent.is_empty(),
    ensures
        resized(resized(s, extent), extent) == resized(s, extent),
        resize_answers(resized(s, extent), extent) == resize_answers(s, extent),
        resized(s, extent).failure == s.failure,
        resized(s, extent).wf(),
        forall|k: int|
            0 <= k < resize_answers(s, extent).len() ==> (#[trigger] resize_answers(
                s,
                extent,
            )[k] matches Ok(action) ==> !creates(action)),
        s.run == RunState::Running && s.stage == Stage::Ready && s.live.is_some()
            ==> resize_answers(s, extent) == seq![
            Ok::<Action, Refusal>(Action::ResizeSurface(extent)),
            Ok(
                Action::NotifyRenderer {
                    width: signed(extent.width),
                    height: signed(extent.height),
                },
            ),
            Ok(Action::Wait),
        ] && resized(s, extent) == (Model { live: resize(s.live, extent), ..s }),
{
    let once = resized(s, extent);
    assert(resize_answers(once, extent) =~= resize_answers(s, extent));
}

/// A resize without area is dropped: the state stays as it is, and the
/// lifecycle asks neither for the surface to be resized nor for the renderer
/// to be told.
pub proof fn lemma_empty_resize_is_ignored<E>(s: Model<E>, extent: Extent)
    requires
        extent.is_empty(),
    ensures
        on_window_event(s, WindowSignal::Resized(extent)).0 == s,
        on_window_event(s, WindowSignal::Resized(extent)).1 matches Ok(action) ==> action
            == Action::Wait,
        s.run == RunState::Running && s.stage == Stage::Ready ==> on_window_event(
            s,
            WindowSignal::Resized(extent),
        ).1 == Ok::<Action, Refusal>(Action::Wait),
{
}

/// A transition carried to its end by a shell of which every action
/// succeeds: the state it ends in and the actions it asked for, in order.
/// `rounds` bounds the actions.
pub open spec fn carried_out<E>(step: Step<E>, rounds: nat) -> (Model<E>, Seq<Action>)
    decreases rounds,
{
    match step.1 {
        Ok(action) => if action == Action::Wait || action == Action::Exit || rounds == 0 {
            (step.0, seq![action])
        } else {
            let rest = carried_out(on_outcome(step.0, Outcome::<E>::Done), (rounds - 1) as nat);
            (rest.0, seq![action] + rest.1)
        },
        Err(_) => (step.0, Seq::empty()),
    }
}

/// The surface that an activation leaves live when the swap interval was
/// accepted.
pub open spec fn fresh_surface() -> DrawSurface {
    DrawSurface { size: None, vsync: true }
}

/// The first activation, when the pointer is not grabbed and the driver
/// accepts the first level: the display is opened and the configuration
/// selected, the pointer shown or hidden, the context negotiated, the surface
/// created, the context made current, the renderer constructed, the swap
/// interval set and the pair stored, in this order.
pub proof fn lemma_first_activation<E>(s: Model<E>, config: SurfaceConfig)
    requires
        s.wf(),
        s.run == RunState::Running,
        s.stage == Stage::Ready,
        s.display == LifecycleState::Uninitialized,
        !s.window.cursor_grabbed,
        !s.renderer,
    ensures
        on_resumed(s).1 == Ok::<Action, Refusal>(Action::BuildDisplay(s.template)),
        carried_out(on_outcome(on_resumed(s).0, Outcome::<E>::Selected(config)), 8) == (
            Model {
                display: LifecycleState::Initialized,
                config: Some(config),
                context: Some(RenderContext { api: fallback_chain()[0], current: true }),
                live: Some(fresh_surface()),
                renderer: true,
                ..s
            },
            seq![
                Action::SetCursorVisible(s.window.cursor_visible),
                Action::CreateContext(fallback_chain()[0]),
                Action::CreateSurface,
                Action::MakeCurrent,
                Action::BuildRenderer,
                Action::SetSwapInterval(SWAP_INTERVAL),
                Action::StoreLive,
                Action::Wait,
            ],
        ),
{
    reveal_with_fuel(carried_out, 9);
    let opened = on_outcome(on_resumed(s).0, Outcome::<E>::Selected(config));
    assert(carried_out(opened, 8).1 =~= seq![
        Action::SetCursorVisible(s.window.cursor_visible),
        Action::CreateContext(fallback_chain()[0]),
        Action::CreateSurface,
        Action::MakeCurrent,
        Action::BuildRenderer,
        Action::SetSwapInterval(SWAP_INTERVAL),
        Action::StoreLive,
        Action::Wait,
    ]);
}

/// The state after a whole deactivation.
pub open spec fn deactivated<E>(s: Model<E>) -> Model<E> {
    let dropped = on_outcome(on_suspended(s).0, Outcome::<E>::Done);
    on_outcome(dropped.0, Outcome::<E>::Done).0
}

/// A deactivation drops the live surface and window and takes the context
/// off the thread, and that is all: the context is the one that was
/// negotiated, with its configuration, and the renderer stays.
pub proof fn lemma_deactivation_keeps_context<E>(s: Model<E>)
    requires
        s.wf(),
        s.run == RunState::Running,
        s.stage == Stage::Ready,
        s.live.is_some(),
    ensures
        on_suspended(s).1 == Ok::<Action, Refusal>(Action::DropLive),
        on_outcome(on_suspended(s).0, Outcome::<E>::Done).1 == Ok::<Action, Refusal>(
            Action::MakeNotCurrent,
        ),
        deactivated(s) == (Model { live: None, context: rebind(s.context, false), ..s }),
        deactivated(s).context matches Some(context) && !context.current,
        deactivated(s).wf(),
{
}

/// The activation that follows a deactivation realizes a window for the
/// configuration of the stored context and opens no display.
pub proof fn lemma_reactivation_reuses_configuration<E>(s: Model<E>)
    requires
        s.wf(),
        s.run == RunState::Running,
        s.stage == Stage::Ready,
        s.live.is_some(),
    ensures
        deactivated(s).config matches Some(config) && on_resumed(deactivated(s)).1 == Ok::<
            Action,
            Refusal,
        >(Action::RebuildWindow(config)),
{
}

/// A deactivation followed by an activation brings the lifecycle back to
/// where it was, with a fresh surface: the context, its configuration and
/// the renderer are the ones it had, and the activation asks only for a
/// window, the pointer, a surface, the binding and the swap interval.
pub proof fn lemma_reactivation_restores<E>(s: Model<E>)
    requires
        s.wf(),
        s.run == RunState::Running,
        s.stage == Stage::Ready,
        s.live.is_some(),
        !s.window.cursor_grabbed,
    ensures
        s.config matches Some(config) && carried_out(on_resumed(deactivated(s)), 7) == (
            Model { live: Some(fresh_surface()), ..s },
            seq![
                Action::RebuildWindow(config),
                Action::SetCursorVisible(s.window.cursor_visible),
                Action::CreateSurface,
                Action::MakeCurrent,
                Action::SetSwapInterval(SWAP_INTERVAL),
                Action::StoreLive,
                Action::Wait,
            ],
        ),
{
    reveal_with_fuel(carried_out, 8);
    let config = s.config->0;
    assert(carried_out(on_resumed(deactivated(s)), 7).1 =~= seq![
        Action::RebuildWindow(config),
        Action::SetCursorVisible(s.window.cursor_visible),
        Action::CreateSurface,
        Action::MakeCurrent,
        Action::SetSwapInterval(SWAP_INTERVAL),
        Action::StoreLive,
        Action::Wait,
    ]);
}

/// A pointer that is to be grabbed is confined; where that fails it is
/// locked; where that fails too the run ends with the second failure.
pub proof fn lemma_grab_falls_back<E>(s: Model<E>, confine: E, lock: E)
    requires
        s.wf(),
        s.stage == Stage::ShowingCursor,
        s.window.cursor_grabbed,
    ensures
        ({
            let confined = on_outcome(s, Outcome::<E>::Done);
            let locked = on_outcome(confined.0, Outcome::Failed(confine));
            let failed = on_outcome(locked.0, Outcome::Failed(lock));
            &&& confined.1 == Ok::<Action, Refusal>(Action::GrabCursor(GrabMode::Confined))
            &&& locked.1 == Ok::<Action, Refusal>(Action::GrabCursor(GrabMode::Locked))
            &&& locked.0.failure == s.failure
            &&& on_outcome(confined.0, Outcome::<E>::Done) == on_outcome(
                locked.0,
                Outcome::<E>::Done,
            )
            &&& failed.1 == Ok::<Action, Refusal>(Action::Exit)
            &&& failed.0.exit_state() == Err::<(), Fatal<E>>(
                Fatal { kind: FatalKind::CursorGrab, cause: lock },
            )
        }),
{
}

/// A swap interval that the platform rejects is no failure: the activation
/// completes, and the surface is live without it.
pub proof fn lemma_rejected_swap_interval_is_survived<E>(s: Model<E>, rejected: E)
    requires
        s.wf(),
        s.stage == Stage::SettingVsync,
    ensures
        ({
            let stored = on_outcome(s, Outcome::Failed(rejected));
            let settled = on_outcome(stored.0, Outcome::<E>::Done);
            &&& stored.1 == Ok::<Action, Refusal>(Action::StoreLive)
            &&& settled == (
                Model {
                    live: Some(DrawSurface { size: None, vsync: false }),
                    stage: Stage::Ready,
                    ..s
                },
                Ok::<Action, Refusal>(Action::Wait),
            )
        }),
{
}

/// Transitions do not interleave: while one is in flight every signal of the
/// platform is refused and changes nothing.
pub proof fn lemma_transitions_are_serialized<E>(s: Model<E>, input: Input<E>)
    requires
        s.wf(),
        s.stage != Stage::Ready,
        !(input is Completed),
    ensures
        step(s, input).0 == s,
        step(s, input).1 is Err,
{
}

/// A terminated run holds no surface, no window and no context.
pub proof fn lemma_terminated_holds_nothing<E>(s: Model<E>)
    requires
        s.wf(),
        s.run == RunState::Terminated,
    ensures
        s.live.is_none(),
        s.context.is_none(),
        s.stage == Stage::Ready,
{
}

/// Once a context has been negotiated, no transition negotiates again: the
/// lifecycle never asks for a display or a context, the display stays
/// initialized, the configuration stays the selected one, and the context,
/// for as long as it is stored, stays the one that was granted.
pub proof fn lemma_context_is_negotiated_once<E>(s: Model<E>, input: Input<E>)
    requires
        s.wf(),
        s.display == LifecycleState::Initialized,
    ensures
        step(s, input).0.display == LifecycleState::Initialized,
        step(s, input).0.config == s.config,
        step(s, input).1 matches Ok(action) ==> !(action is BuildDisplay) && !(action
            is CreateContext),
        step(s, input).0.context matches Some(after) ==> (s.context matches Some(before)
            && before.api == after.api),
{
}

/// The configuration is selected once: no transition replaces one that is
/// held.
pub proof fn lemma_configuration_is_selected_once<E>(s: Model<E>, input: Input<E>)
    requires
        s.wf(),
        s.config.is_some(),
    ensures
        step(s, input).0.config == s.config,
{
}

/// The renderer is constructed at most once: the lifecycle asks for it only
/// while none exists, it then awaits nothing else, and a renderer that
/// exists stays.
pub proof fn lemma_renderer_is_built_once<E>(s: Model<E>, input: Input<E>)
    requires
        s.wf(),
    ensures
        step(s, input).1 == Ok::<Action, Refusal>(Action::BuildRenderer) ==> !s.renderer && step(
            s,
            input,
        ).0.stage == Stage::BuildingRenderer && s.stage != Stage::BuildingRenderer,
        s.stage == Stage::BuildingRenderer ==> step(s, input).0.renderer || step(s, input).0
            == s,
        s.renderer ==> step(s, input).0.renderer,
        step(s, input).0.renderer && !s.renderer ==> (s.context matches Some(context)
            && context.current),
{
}

/// At most one surface is live: the lifecycle asks for a surface, or for one
/// to be stored, only while none is live.
pub proof fn lemma_one_live_surface<E>(s: Model<E>, input: Input<E>)
    requires
        s.wf(),
    ensures
        step(s, input).1 matches Ok(action) ==> (action is CreateSurface || action is StoreLive
            || action is RebuildWindow || action is BuildDisplay) ==> s.live.is_none() && step(
            s,
            input,
        ).0.live.is_none(),
{
}

/// The surface never outlives the context: the lifecycle lets go of the
/// context only after the live surface and window are gone, and only in the
/// shutdown.
pub proof fn lemma_context_is_released_last<E>(s: Model<E>, input: Input<E>)
    requires
        s.wf(),
    ensures
        step(s, input).1 == Ok::<Action, Refusal>(Action::ReleaseContext) ==> step(
            s,
            input,
        ).0.live.is_none() && step(s, input).0.run == RunState::Stopping,
        s.context.is_some() && step(s, input).0.context.is_none() ==> s.live.is_none() && s.stage
            == Stage::ReleasingContext,
        step(s, input).1 == Ok::<Action, Refusal>(Action::TerminateDisplay) ==> step(
            s,
            input,
        ).0.context.is_none() && step(s, input).0.live.is_none(),
{
}

/// The shutdown of a lifecycle with a live surface: the surface and its
/// window go first, the context second, the display, where its family asks
/// for it, last. After that the run is terminated and holds nothing.
pub proof fn lemma_shutdown_order<E>(s: Model<E>, family: DisplayFamily)
    requires
        s.wf(),
        s.run != RunState::Terminated,
        s.stage == Stage::Ready,
        s.live.is_some(),
    ensures
        ({
            let first = on_exiting(s);
            let second = on_outcome(first.0, Outcome::<E>::Done);
            let third = on_outcome(second.0, Outcome::<E>::Released(family));
            let last = match family {
                DisplayFamily::Egl => on_outcome(third.0, Outcome::<E>::Done),
                DisplayFamily::Other => third,
            };
            &&& first.1 == Ok::<Action, Refusal>(Action::DropLive)
            &&& second.1 == Ok::<Action, Refusal>(Action::ReleaseContext)
            &&& second.0.live.is_none() && second.0.context == s.context
            &&& (family == DisplayFamily::Egl ==> third.1 == Ok::<Action, Refusal>(
                Action::TerminateDisplay,
            ))
            &&& last.1 == Ok::<Action, Refusal>(Action::Wait)
            &&& last.0 == (Model {
                run: RunState::Terminated,
                stage: Stage::Ready,
                live: None,
                context: None,
                ..s
            })
        }),
{
}

/// The shutdown of a lifecycle that holds nothing completes at once.
pub proof fn lemma_shutdown_of_nothing<E>(s: Model<E>)
    requires
        s.wf(),
        s.run != RunState::Terminated,
        s.stage == Stage::Ready,
        s.context.is_none(),
    ensures
        on_exiting(s) == (
            Model { run: RunState::Terminated, ..s },
            Ok::<Action, Refusal>(Action::Wait),
        ),
{
}

/// After the shutdown every signal and every outcome is refused, and
/// nothing changes.
pub proof fn lemma_terminated_refuses_everything<E>(s: Model<E>, input: Input<E>)
    requires
        s.wf(),
        s.run == RunState::Terminated,
    ensures
        step(s, input) == (s, Err::<Action, Refusal>(Refusal::Terminated)),
{
}

/// Once an exit has been requested the run only winds down: it stays closed
/// to signals, its result stays what it was, and the lifecycle asks for no
/// frame to be drawn or presented, nor for anything to be created. Every
/// signal but the shutdown is refused.
pub proof fn lemma_stopped_run_winds_down<E>(s: Model<E>, input: Input<E>)
    requires
        s.wf(),
        s.run != RunState::Running,
    ensures
        step(s, input).0.run != RunState::Running,
        step(s, input).0.exit_state() == s.exit_state(),
        step(s, input).1 matches Ok(action) ==> !(action is Draw) && !(action is Present)
            && !(action is RequestRedraw) && !(action is Dispatch) && !creates(action),
        !(input is Exiting) && !(input is Completed) ==> step(s, input) == (
            s,
            Err::<Action, Refusal>(
                if s.run == RunState::Terminated {
                    Refusal::Terminated
                } else {
                    Refusal::Stopping
                },
            ),
        ),
{
}

/// When the event handler asks for the exit, the lifecycle asks the event
/// source to end the loop and records no failure: the run ends in success.
pub proof fn lemma_handler_exit_ends_run<E>(s: Model<E>)
    requires
        s.wf(),
        s.stage == Stage::Dispatching,
    ensures
        on_outcome(s, Outcome::<E>::Handled(AppControl::Exit)) == (
            Model { run: RunState::Stopping, stage: Stage::Ready, ..s },
            Ok::<Action, Refusal>(Action::Exit),
        ),
        on_outcome(s, Outcome::<E>::Handled(AppControl::Exit)).0.exit_state() == Ok::<
            (),
            Fatal<E>,
        >(()),
        on_about_to_wait(on_outcome(s, Outcome::<E>::Handled(AppControl::Exit)).0).1 == Err::<
            Action,
            Refusal,
        >(Refusal::Stopping),
{
}

/// When the event handler asks to continue, the transition is complete and
/// nothing has changed.
pub proof fn lemma_handler_continue<E>(s: Model<E>)
    requires
        s.wf(),
        s.run == RunState::Running,
        s.stage == Stage::Ready,
    ensures
        on_window_event(s, WindowSignal::Other).1 == Ok::<Action, Refusal>(Action::Dispatch),
        on_outcome(
            on_window_event(s, WindowSignal::Other).0,
            Outcome::<E>::Handled(AppControl::Continue),
        ) == (s, Ok::<Action, Refusal>(Action::Wait)),
{
}

/// When the event handler returns an error, the lifecycle asks the event
/// source to end the loop, and the run ends in exactly that error.
pub proof fn lemma_handler_error_is_returned<E>(s: Model<E>, error: E)
    requires
        s.wf(),
        s.stage == Stage::Dispatching,
    ensures
        on_outcome(s, Outcome::Failed(error)).1 == Ok::<Action, Refusal>(Action::Exit),
        on_outcome(s, Outcome::Failed(error)).0.exit_state() == Err::<(), Fatal<E>>(
            Fatal { kind: FatalKind::Handler, cause: error },
        ),
        on_outcome(s, Outcome::Failed(error)).0.run == RunState::Stopping,
{
}

/// The result of a run is its first failure: a run fails only while it is
/// running, and failing stops it.
pub proof fn lemma_first_failure_is_kept<E>(s: Model<E>, input: Input<E>)
    requires
        s.wf(),
    ensures
        s.failure.is_some() ==> step(s, input).0.failure == s.failure,
        step(s, input).0.failure != s.failure ==> s.run == RunState::Running && step(
            s,
            input,
        ).0.run == RunState::Stopping && step(s, input).1 == Ok::<Action, Refusal>(Action::Exit),
{
}

/// A frame is drawn, the next redraw is requested and the surface is
/// presented, in this order; a surface that cannot be presented ends the run.
pub proof fn lemma_frame_order<E>(s: Model<E>, cause: E)
    requires
        s.wf(),
        s.run == RunState::Running,
        s.stage == Stage::Ready,
    ensures
        s.live.is_none() ==> on_about_to_wait(s) == (s, Ok::<Action, Refusal>(Action::Wait)),
        s.live.is_some() ==> ({
            let first = on_about_to_wait(s);
            let second = on_outcome(first.0, Outcome::<E>::Done);
            let third = on_outcome(second.0, Outcome::<E>::Done);
            &&& first.1 == Ok::<Action, Refusal>(Action::Draw)
            &&& second.1 == Ok::<Action, Refusal>(Action::RequestRedraw)
            &&& third.1 == Ok::<Action, Refusal>(Action::Present)
            &&& on_outcome(third.0, Outcome::<E>::Done) == (
                s,
                Ok::<Action, Refusal>(Action::Wait),
            )
            &&& on_outcome(third.0, Outcome::Failed(cause)).1 == Ok::<Action, Refusal>(
                Action::Exit,
            )
            &&& on_outcome(third.0, Outcome::Failed(cause)).0.exit_state() == Err::<
                (),
                Fatal<E>,
            >(Fatal { kind: FatalKind::Presentation, cause })
        }),
{
}


/// The state that a lifecycle in state `s` reaches when it is handed
/// `inputs` one after the other.
pub open spec fn after<E>(s: Model<E>, inputs: Seq<Input<E>>) -> Model<E>
    decreases inputs.len(),
{
    if inputs.len() == 0 {
        s
    } else {
        after(step(s, inputs[0]).0, inputs.skip(1))
    }
}

/// What the lifecycle answers to each of `inputs` on that way.
pub open spec fn answers<E>(s: Model<E>, inputs: Seq<Input<E>>) -> Seq<Result<Action, Refusal>>
    decreases inputs.len(),
{
    if inputs.len() == 0 {
        Seq::empty()
    } else {
        seq![step(s, inputs[0]).1] + answers(step(s, inputs[0]).0, inputs.skip(1))
    }
}

/// How often the lifecycle asks for the renderer to be constructed on that
/// way.
pub open spec fn renderers_built<E>(s: Model<E>, inputs: Seq<Input<E>>) -> nat
    decreases inputs.len(),
{
    if inputs.len() == 0 {
        0
    } else {
        let rest = renderers_built(step(s, inputs[0]).0, inputs.skip(1));
        if step(s, inputs[0]).1 == Ok::<Action, Refusal>(Action::BuildRenderer) {
            rest + 1
        } else {
            rest
        }
    }
}

/// There is one answer to each input, and the answers after the first are
/// those of the state that the first input leads to.
pub proof fn lemma_answers_unfold<E>(s: Model<E>, inputs: Seq<Input<E>>)
    ensures
        answers(s, inputs).len() == inputs.len(),
        inputs.len() > 0 ==> answers(s, inputs)[0] == step(s, inputs[0]).1,
        forall|k: int|
            1 <= k < inputs.len() ==> #[trigger] answers(s, inputs)[k] == answers(
                step(s, inputs[0]).0,
                inputs.skip(1),
            )[k - 1],
    decreases inputs.len(),
{
    if inputs.len() > 0 {
        lemma_answers_unfold(step(s, inputs[0]).0, inputs.skip(1));
    }
}

/// The invariant holds in every state that a run reaches.
pub proof fn lemma_run_keeps_wf<E>(s: Model<E>, inputs: Seq<Input<E>>)
    requires
        s.wf(),
    ensures
        after(s, inputs).wf(),
    decreases inputs.len(),
{
    if inputs.len() > 0 {
        lemma_step_keeps_wf(s, inputs[0]);
        lemma_run_keeps_wf(step(s, inputs[0]).0, inputs.skip(1));
    }
}

/// Whatever follows the request to exit, the result of the run stays what it
/// was then, and the lifecycle never again asks for an event to be handled,
/// for a frame to be drawn or presented, or for anything to be created.
pub proof fn lemma_stopped_run_keeps_its_result<E>(s: Model<E>, inputs: Seq<Input<E>>)
    requires
        s.wf(),
        s.run != RunState::Running,
    ensures
        after(s, inputs).exit_state() == s.exit_state(),
        after(s, inputs).run != RunState::Running,
        forall|k: int|
            0 <= k < inputs.len() ==> (#[trigger] answers(s, inputs)[k] matches Ok(action)
                ==> !(action is Draw) && !(action is Present) && !(action is RequestRedraw) && !(
            action is Dispatch) && !creates(action)),
    decreases inputs.len(),
{
    if inputs.len() > 0 {
        let next = step(s, inputs[0]).0;
        lemma_step_keeps_wf(s, inputs[0]);
        lemma_stopped_run_winds_down(s, inputs[0]);
        lemma_stopped_run_keeps_its_result(next, inputs.skip(1));
        lemma_answers_unfold(s, inputs);
    }
}

/// Whatever follows the negotiation of the context, the lifecycle never
/// again asks for a display or a context: the display stays initialized, the
/// configuration is the selected one, and the context, for as long as it is
/// stored, is the one that was granted.
pub proof fn lemma_initialized_run_never_renegotiates<E>(s: Model<E>, inputs: Seq<Input<E>>)
    requires
        s.wf(),
        s.display == LifecycleState::Initialized,
    ensures
        after(s, inputs).display == LifecycleState::Initialized,
        after(s, inputs).config == s.config,
        after(s, inputs).context matches Some(later) ==> (s.context matches Some(before)
            && before.api == later.api),
        forall|k: int|
            0 <= k < inputs.len() ==> (#[trigger] answers(s, inputs)[k] matches Ok(action)
                ==> !(action is BuildDisplay) && !(action is CreateContext)),
    decreases inputs.len(),
{
    if inputs.len() > 0 {
        let next = step(s, inputs[0]).0;
        lemma_step_keeps_wf(s, inputs[0]);
        lemma_context_is_negotiated_once(s, inputs[0]);
        lemma_initialized_run_never_renegotiates(next, inputs.skip(1));
        lemma_answers_unfold(s, inputs);
    }
}

/// Over a whole run the lifecycle asks for the renderer at most once, and
/// never when one exists or is being constructed.
pub proof fn lemma_renderer_is_built_at_most_once<E>(s: Model<E>, inputs: Seq<Input<E>>)
    requires
        s.wf(),
    ensures
        renderers_built(s, inputs) <= 1,
        s.renderer || s.stage == Stage::BuildingRenderer ==> renderers_built(s, inputs) == 0,
    decreases inputs.len(),
{
    if inputs.len() > 0 {
        let next = step(s, inputs[0]).0;
        lemma_step_keeps_wf(s, inputs[0]);
        lemma_renderer_is_built_once(s, inputs[0]);
        lemma_renderer_is_built_at_most_once(next, inputs.skip(1));
    }
}

/// Whatever is handed to a terminated lifecycle is refused, and nothing
/// changes.
pub proof fn lemma_terminated_run_is_over<E>(s: Model<E>, inputs: Seq<Input<E>>)
    requires
        s.wf(),
        s.run == RunState::Terminated,
    ensures
        after(s, inputs) == s,
        forall|k: int|
            0 <= k < inputs.len() ==> #[trigger] answers(s, inputs)[k] == Err::<Action, Refusal>(
                Refusal::Terminated,
            ),
    decreases inputs.len(),
{
    if inputs.len() > 0 {
        lemma_terminated_refuses_everything(s, inputs[0]);
        lemma_terminated_run_is_over(s, inputs.skip(1));
        lemma_answers_unfold(s, inputs);
    }
}

/// A run in which the event handler asks for the exit ends in success,
/// whatever follows, and no frame is presented after the request.
pub proof fn lemma_handler_exit_is_success<E>(s: Model<E>, inputs: Seq<Input<E>>)
    requires
        s.wf(),
        s.stage == Stage::Dispatching,
    ensures
        ({
            let stopped = on_outcome(s, Outcome::<E>::Handled(AppControl::Exit)).0;
            &&& after(stopped, inputs).exit_state() == Ok::<(), Fatal<E>>(())
            &&& forall|k: int|
                0 <= k < inputs.len() ==> !(#[trigger] answers(stopped, inputs)[k] == Ok::<
                    Action,
                    Refusal,
                >(Action::Present))
        }),
{
    let stopped = on_outcome(s, Outcome::<E>::Handled(AppControl::Exit)).0;
    lemma_step_keeps_wf(s, Input::Completed(Outcome::<E>::Handled(AppControl::Exit)));
    lemma_stopped_run_keeps_its_result(stopped, inputs);
}

/// A run in which the event handler returns an error ends in exactly that
/// error, whatever follows.
pub proof fn lemma_handler_error_is_the_result<E>(s: Model<E>, error: E, inputs: Seq<Input<E>>)
    requires
        s.wf(),
        s.stage == Stage::Dispatching,
    ensures
        after(on_outcome(s, Outcome::Failed(error)).0, inputs).exit_state() == Err::<
            (),
            Fatal<E>,
        >(Fatal { kind: FatalKind::Handler, cause: error }),
{
    lemma_step_keeps_wf(s, Input::Completed(Outcome::Failed(error)));
    lemma_stopped_run_keeps_its_result(on_outcome(s, Outcome::Failed(error)).0, inputs);
}

} // verus!
