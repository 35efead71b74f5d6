use glwindow::config::ConfigTemplate;
use glwindow::config::SurfaceConfig;
use glwindow::context::ApiLevel;
use glwindow::lifecycle::Lifecycle;
use glwindow::model::DrawSurface;
use glwindow::model::LifecycleState;
use glwindow::model::RenderContext;
use glwindow::model::RunState;
use glwindow::model::Stage;
use glwindow::signal::to_signed;
use glwindow::signal::Action;
use glwindow::signal::AppControl;
use glwindow::signal::DisplayFamily;
use glwindow::signal::Extent;
use glwindow::signal::FatalKind;
use glwindow::signal::GrabMode;
use glwindow::signal::Outcome;
use glwindow::signal::Refusal;
use glwindow::signal::WindowSignal;
use glwindow::window::Window;

type App = Lifecycle<&'static str>;

const CONFIG: SurfaceConfig = SurfaceConfig { samples: 4, transparency: Some(true) };

fn fresh() -> App {
    Window::new().run(false)
}

fn done() -> Outcome<&'static str> {
    Outcome::Done
}

/// Runs the first activation of `app` against a driver that accepts the
/// modern level, and returns the actions that were asked for.
fn activate_first(app: &mut App) -> Vec<Action> {
    let mut actions = vec![app.resumed().unwrap()];
    actions.push(app.completed(Outcome::Selected(CONFIG)).unwrap());
    loop {
        match actions[actions.len() - 1] {
            Action::Wait | Action::Exit => return actions,
            _ => actions.push(app.completed(done()).unwrap()),
        }
    }
}

/// Answers every action with success until the transition is complete.
fn complete(app: &mut App, first: Action) -> Vec<Action> {
    let mut actions = vec![first];
    loop {
        match actions[actions.len() - 1] {
            Action::Wait | Action::Exit => return actions,
            Action::ReleaseContext => {
                actions.push(app.completed(Outcome::Released(DisplayFamily::Other)).unwrap())
            },
            _ => actions.push(app.completed(done()).unwrap()),
        }
    }
}

fn active() -> App {
    let mut app = fresh();
    activate_first(&mut app);
    app
}

#[test]
fn a_fresh_lifecycle_holds_nothing() {
    let app = fresh();
    assert_eq!(app.state(), LifecycleState::Uninitialized);
    assert_eq!(app.run_state(), RunState::Running);
    assert_eq!(app.stage(), Stage::Ready);
    assert_eq!(app.config(), None);
    assert_eq!(app.context(), None);
    assert_eq!(app.live(), None);
    assert!(!app.has_renderer());
    assert_eq!(app.failure(), None);
    assert_eq!(app.template(), ConfigTemplate { alpha_size: 8, transparency: false });
    assert!(app.window_info().cursor_visible);
    assert!(app.finish().is_ok());
}

#[test]
fn run_hands_the_description_and_the_template_over() {
    let app: App = Window::new().set_title("run").set_cursor_visible(false).run(true);
    assert_eq!(app.template(), ConfigTemplate { alpha_size: 8, transparency: true });
    assert_eq!(app.window_info().title, "run");
    assert!(!app.window_info().cursor_visible);
}

#[test]
fn first_activation_builds_everything_in_order() {
    let mut app = fresh();
    let actions = activate_first(&mut app);
    assert_eq!(
        actions,
        vec![
            Action::BuildDisplay(ConfigTemplate { alpha_size: 8, transparency: false }),
            Action::SetCursorVisible(true),
            Action::CreateContext(ApiLevel::Modern),
            Action::CreateSurface,
            Action::MakeCurrent,
            Action::BuildRenderer,
            Action::SetSwapInterval(1),
            Action::StoreLive,
            Action::Wait,
        ]
    );
    assert_eq!(app.state(), LifecycleState::Initialized);
    assert_eq!(app.stage(), Stage::Ready);
    assert_eq!(app.config(), Some(CONFIG));
    assert_eq!(app.context(), Some(RenderContext { api: ApiLevel::Modern, current: true }));
    assert_eq!(app.live(), Some(DrawSurface { size: None, vsync: true }));
    assert!(app.has_renderer());
    assert_eq!(app.failure(), None);
}

#[test]
fn display_is_initialized_when_the_context_is_stored() {
    let mut app = fresh();
    app.resumed().unwrap();
    app.completed(Outcome::Selected(CONFIG)).unwrap();
    assert_eq!(app.config(), Some(CONFIG));
    assert_eq!(app.state(), LifecycleState::Uninitialized);
    assert_eq!(app.completed(done()), Ok(Action::CreateContext(ApiLevel::Modern)));
    assert_eq!(app.stage(), Stage::Negotiating(ApiLevel::Modern));
    assert_eq!(app.state(), LifecycleState::Uninitialized);
    assert_eq!(app.context(), None);
    assert_eq!(app.completed(done()), Ok(Action::CreateSurface));
    assert_eq!(app.state(), LifecycleState::Initialized);
    assert_eq!(app.context(), Some(RenderContext { api: ApiLevel::Modern, current: false }));
}

#[test]
fn window_that_cannot_be_realized_ends_the_run() {
    let mut app = fresh();
    assert!(app.resumed().is_ok());
    assert_eq!(app.completed(Outcome::Failed("no display")), Ok(Action::Exit));
    assert_eq!(app.run_state(), RunState::Stopping);
    assert_eq!(app.stage(), Stage::Ready);
    assert_eq!(app.state(), LifecycleState::Uninitialized);
    assert_eq!(app.failure(), Some(FatalKind::WindowRealization));
    assert_eq!(app.exiting(), Ok(Action::Wait));
    assert_eq!(app.run_state(), RunState::Terminated);
    let failure = app.finish().unwrap_err();
    assert_eq!(failure.kind, FatalKind::WindowRealization);
    assert_eq!(failure.cause, "no display");
}

#[test]
fn cursor_is_hidden_when_asked() {
    let mut app: App = Window::new().set_cursor_visible(false).run(false);
    app.resumed().unwrap();
    assert_eq!(app.completed(Outcome::Selected(CONFIG)), Ok(Action::SetCursorVisible(false)));
}

#[test]
fn grab_confines_the_pointer_first() {
    let mut app: App = Window::new().set_cursor_grabbed(true).run(false);
    app.resumed().unwrap();
    app.completed(Outcome::Selected(CONFIG)).unwrap();
    assert_eq!(app.completed(done()), Ok(Action::GrabCursor(GrabMode::Confined)));
    assert_eq!(app.completed(done()), Ok(Action::CreateContext(ApiLevel::Modern)));
}

#[test]
fn grab_falls_back_to_locking() {
    let mut app: App = Window::new().set_cursor_grabbed(true).run(false);
    app.resumed().unwrap();
    app.completed(Outcome::Selected(CONFIG)).unwrap();
    assert_eq!(app.completed(done()), Ok(Action::GrabCursor(GrabMode::Confined)));
    assert_eq!(
        app.completed(Outcome::Failed("not supported")),
        Ok(Action::GrabCursor(GrabMode::Locked))
    );
    assert_eq!(app.failure(), None);
    assert_eq!(app.completed(done()), Ok(Action::CreateContext(ApiLevel::Modern)));
}

#[test]
fn grab_that_fails_in_both_modes_ends_the_run() {
    let mut app: App = Window::new().set_cursor_grabbed(true).run(false);
    app.resumed().unwrap();
    app.completed(Outcome::Selected(CONFIG)).unwrap();
    app.completed(done()).unwrap();
    app.completed(Outcome::Failed("confine")).unwrap();
    assert_eq!(app.completed(Outcome::Failed("lock")), Ok(Action::Exit));
    assert_eq!(app.failure(), Some(FatalKind::CursorGrab));
    assert_eq!(app.finish().unwrap_err().cause, "lock");
}

#[test]
fn embedded_level_is_granted_when_the_modern_one_is_refused() {
    let mut app = fresh();
    app.resumed().unwrap();
    app.completed(Outcome::Selected(CONFIG)).unwrap();
    assert_eq!(app.completed(done()), Ok(Action::CreateContext(ApiLevel::Modern)));
    assert_eq!(
        app.completed(Outcome::Failed("no core profile")),
        Ok(Action::CreateContext(ApiLevel::Embedded))
    );
    let rest = {
        let next = app.completed(done()).unwrap();
        complete(&mut app, next)
    };
    assert_eq!(rest[0], Action::CreateSurface);
    assert!(rest.iter().all(|action| !matches!(action, Action::CreateContext(_))));
    assert_eq!(app.context(), Some(RenderContext { api: ApiLevel::Embedded, current: true }));
    assert_eq!(app.failure(), None);
}

#[test]
fn legacy_level_is_the_last_resort() {
    let mut app = fresh();
    app.resumed().unwrap();
    app.completed(Outcome::Selected(CONFIG)).unwrap();
    app.completed(done()).unwrap();
    app.completed(Outcome::Failed("modern")).unwrap();
    assert_eq!(
        app.completed(Outcome::Failed("embedded")),
        Ok(Action::CreateContext(ApiLevel::Legacy { major: 2, minor: 1 }))
    );
    assert_eq!(app.completed(done()), Ok(Action::CreateSurface));
    assert_eq!(
        app.context(),
        Some(RenderContext { api: ApiLevel::Legacy { major: 2, minor: 1 }, current: false })
    );
}

#[test]
fn negotiation_fails_when_every_level_is_refused() {
    let mut app = fresh();
    app.resumed().unwrap();
    app.completed(Outcome::Selected(CONFIG)).unwrap();
    app.completed(done()).unwrap();
    app.completed(Outcome::Failed("modern")).unwrap();
    app.completed(Outcome::Failed("embedded")).unwrap();
    assert_eq!(app.completed(Outcome::Failed("legacy")), Ok(Action::Exit));
    assert_eq!(app.failure(), Some(FatalKind::ContextNegotiation));
    assert_eq!(app.context(), None);
    assert_eq!(app.state(), LifecycleState::Uninitialized);
    assert_eq!(app.finish().unwrap_err().cause, "legacy");
}

#[test]
fn context_that_cannot_be_made_current_ends_the_run() {
    let mut app = fresh();
    app.resumed().unwrap();
    app.completed(Outcome::Selected(CONFIG)).unwrap();
    app.completed(done()).unwrap();
    app.completed(done()).unwrap();
    assert_eq!(app.completed(done()), Ok(Action::MakeCurrent));
    assert_eq!(app.completed(Outcome::Failed("lost")), Ok(Action::Exit));
    assert_eq!(app.failure(), Some(FatalKind::MakeCurrent));
    assert_eq!(app.context(), Some(RenderContext { api: ApiLevel::Modern, current: false }));
    assert_eq!(app.live(), None);
    assert!(!app.has_renderer());
}

#[test]
fn rejected_swap_interval_is_not_fatal() {
    let mut app = fresh();
    app.resumed().unwrap();
    app.completed(Outcome::Selected(CONFIG)).unwrap();
    for _ in 0..4 {
        app.completed(done()).unwrap();
    }
    assert_eq!(app.completed(done()), Ok(Action::SetSwapInterval(1)));
    assert_eq!(app.completed(Outcome::Failed("no vsync")), Ok(Action::StoreLive));
    assert_eq!(app.completed(done()), Ok(Action::Wait));
    assert_eq!(app.live(), Some(DrawSurface { size: None, vsync: false }));
    assert_eq!(app.failure(), None);
    assert_eq!(app.run_state(), RunState::Running);
}

#[test]
fn second_activation_without_deactivation_is_refused() {
    let mut app = active();
    assert_eq!(app.resumed(), Err(Refusal::AlreadyActive));
    assert_eq!(app.stage(), Stage::Ready);
    assert_eq!(app.live(), Some(DrawSurface { size: None, vsync: true }));
}

#[test]
fn deactivation_drops_the_surface_and_keeps_the_context() {
    let mut app = active();
    let first = app.suspended().unwrap();
    let actions = complete(&mut app, first);
    assert_eq!(actions, vec![Action::DropLive, Action::MakeNotCurrent, Action::Wait]);
    assert_eq!(app.live(), None);
    assert_eq!(app.context(), Some(RenderContext { api: ApiLevel::Modern, current: false }));
    assert_eq!(app.config(), Some(CONFIG));
    assert_eq!(app.state(), LifecycleState::Initialized);
    assert!(app.has_renderer());
}

#[test]
fn deactivation_before_any_activation_is_refused() {
    let mut app = fresh();
    assert_eq!(app.suspended(), Err(Refusal::NoContext));
}

#[test]
fn deactivation_without_live_surface_only_releases_the_thread() {
    let mut app = active();
    let first = app.suspended().unwrap();
    complete(&mut app, first);
    let again = app.suspended().unwrap();
    assert_eq!(complete(&mut app, again), vec![Action::MakeNotCurrent, Action::Wait]);
    assert_eq!(app.context(), Some(RenderContext { api: ApiLevel::Modern, current: false }));
}

#[test]
fn reactivation_reuses_context_configuration_and_renderer() {
    let mut app = fresh();
    app.resumed().unwrap();
    app.completed(Outcome::Selected(CONFIG)).unwrap();
    app.completed(done()).unwrap();
    app.completed(Outcome::Failed("modern")).unwrap();
    let next = app.completed(done()).unwrap();
    complete(&mut app, next);
    let before = app.context().unwrap();
    let first = app.suspended().unwrap();
    complete(&mut app, first);
    let first = app.resumed().unwrap();
    let actions = complete(&mut app, first);
    assert_eq!(
        actions,
        vec![
            Action::RebuildWindow(CONFIG),
            Action::SetCursorVisible(true),
            Action::CreateSurface,
            Action::MakeCurrent,
            Action::SetSwapInterval(1),
            Action::StoreLive,
            Action::Wait,
        ]
    );
    assert_eq!(app.context(), Some(before));
    assert_eq!(before.api, ApiLevel::Embedded);
    assert_eq!(app.config(), Some(CONFIG));
    assert_eq!(app.live(), Some(DrawSurface { size: None, vsync: true }));
}

#[test]
fn reactivation_grabs_the_pointer_again() {
    let mut app: App = Window::new().set_cursor_grabbed(true).run(false);
    activate_first(&mut app);
    let first = app.suspended().unwrap();
    complete(&mut app, first);
    assert_eq!(app.resumed(), Ok(Action::RebuildWindow(CONFIG)));
    assert_eq!(app.completed(done()), Ok(Action::SetCursorVisible(true)));
    assert_eq!(app.completed(done()), Ok(Action::GrabCursor(GrabMode::Confined)));
    assert_eq!(app.completed(Outcome::Failed("confine")), Ok(Action::GrabCursor(GrabMode::Locked)));
    assert_eq!(app.completed(done()), Ok(Action::CreateSurface));
}

#[test]
fn window_that_cannot_be_rebuilt_ends_the_run() {
    let mut app = active();
    let first = app.suspended().unwrap();
    complete(&mut app, first);
    app.resumed().unwrap();
    assert_eq!(app.completed(Outcome::Failed("gone")), Ok(Action::Exit));
    assert_eq!(app.failure(), Some(FatalKind::WindowRealization));
    assert_eq!(app.context(), Some(RenderContext { api: ApiLevel::Modern, current: false }));
}

#[test]
fn resize_reaches_surface_and_renderer() {
    let mut app = active();
    let extent = Extent { width: 640, height: 480 };
    let first = app.window_event(WindowSignal::Resized(extent)).unwrap();
    let actions = complete(&mut app, first);
    assert_eq!(
        actions,
        vec![
            Action::ResizeSurface(extent),
            Action::NotifyRenderer { width: 640, height: 480 },
            Action::Wait,
        ]
    );
    assert_eq!(app.live(), Some(DrawSurface { size: Some(extent), vsync: true }));
}

#[test]
fn equal_resizes_leave_the_same_state() {
    let mut app = active();
    let extent = Extent { width: 1024, height: 768 };
    let first = app.window_event(WindowSignal::Resized(extent)).unwrap();
    let once = complete(&mut app, first);
    let state = (app.live(), app.context(), app.config(), app.stage(), app.run_state());
    let second = app.window_event(WindowSignal::Resized(extent)).unwrap();
    let twice = complete(&mut app, second);
    assert_eq!(once, twice);
    assert_eq!(state, (app.live(), app.context(), app.config(), app.stage(), app.run_state()));
    assert_eq!(app.failure(), None);
    assert!(once.iter().all(|action| matches!(
        action,
        Action::ResizeSurface(_) | Action::NotifyRenderer { .. } | Action::Wait
    )));
}

#[test]
fn resize_without_area_is_dropped() {
    let mut app = active();
    for extent in [
        Extent { width: 0, height: 480 },
        Extent { width: 640, height: 0 },
        Extent { width: 0, height: 0 },
    ] {
        assert_eq!(app.window_event(WindowSignal::Resized(extent)), Ok(Action::Wait));
        assert_eq!(app.stage(), Stage::Ready);
        assert_eq!(app.live(), Some(DrawSurface { size: None, vsync: true }));
    }
}

#[test]
fn resize_without_live_surface_is_dropped() {
    let mut app = fresh();
    let extent = Extent { width: 640, height: 480 };
    assert_eq!(app.window_event(WindowSignal::Resized(extent)), Ok(Action::Wait));
    assert_eq!(app.stage(), Stage::Ready);
    let mut app = active();
    let first = app.suspended().unwrap();
    complete(&mut app, first);
    assert_eq!(app.window_event(WindowSignal::Resized(extent)), Ok(Action::Wait));
    assert_eq!(app.live(), None);
}

#[test]
fn renderer_is_told_the_size_as_signed_numbers() {
    assert_eq!(to_signed(0), 0);
    assert_eq!(to_signed(640), 640);
    assert_eq!(to_signed(0x7FFF_FFFF), i32::MAX);
    assert_eq!(to_signed(0x8000_0000), i32::MIN);
    assert_eq!(to_signed(u32::MAX), -1);
    let mut app = active();
    let extent = Extent { width: u32::MAX, height: 0x8000_0001 };
    app.window_event(WindowSignal::Resized(extent)).unwrap();
    assert_eq!(
        app.completed(done()),
        Ok(Action::NotifyRenderer { width: -1, height: i32::MIN + 1 })
    );
}

#[test]
fn other_events_go_to_the_handler() {
    let mut app = fresh();
    assert_eq!(app.window_event(WindowSignal::Other), Ok(Action::Dispatch));
    assert_eq!(app.stage(), Stage::Dispatching);
    assert_eq!(app.completed(Outcome::Handled(AppControl::Continue)), Ok(Action::Wait));
    assert_eq!(app.stage(), Stage::Ready);
    assert_eq!(app.run_state(), RunState::Running);
}

#[test]
fn handler_exit_ends_the_run_in_success() {
    let mut app = active();
    app.window_event(WindowSignal::Other).unwrap();
    assert_eq!(app.completed(Outcome::Handled(AppControl::Exit)), Ok(Action::Exit));
    assert_eq!(app.run_state(), RunState::Stopping);
    assert_eq!(app.about_to_wait(), Err(Refusal::Stopping));
    assert_eq!(app.window_event(WindowSignal::Other), Err(Refusal::Stopping));
    let first = app.exiting().unwrap();
    let actions = complete(&mut app, first);
    assert!(actions.iter().all(|action| !matches!(action, Action::Present | Action::Draw)));
    assert_eq!(app.run_state(), RunState::Terminated);
    assert_eq!(app.failure(), None);
    assert!(app.finish().is_ok());
}

#[test]
fn handler_error_is_the_result_of_the_run() {
    let mut app = active();
    app.window_event(WindowSignal::Other).unwrap();
    assert_eq!(app.completed(Outcome::Failed("handler gave up")), Ok(Action::Exit));
    assert_eq!(app.failure(), Some(FatalKind::Handler));
    let first = app.exiting().unwrap();
    complete(&mut app, first);
    let failure = app.finish().unwrap_err();
    assert_eq!(failure.kind, FatalKind::Handler);
    assert_eq!(failure.cause, "handler gave up");
}

#[test]
fn frame_is_drawn_requested_and_presented() {
    let mut app = active();
    let first = app.about_to_wait().unwrap();
    let actions = complete(&mut app, first);
    assert_eq!(
        actions,
        vec![Action::Draw, Action::RequestRedraw, Action::Present, Action::Wait]
    );
    assert_eq!(app.stage(), Stage::Ready);
}

#[test]
fn no_frame_without_live_surface() {
    let mut app = fresh();
    assert_eq!(app.about_to_wait(), Ok(Action::Wait));
    let mut app = active();
    let first = app.suspended().unwrap();
    complete(&mut app, first);
    assert_eq!(app.about_to_wait(), Ok(Action::Wait));
}

#[test]
fn surface_that_cannot_be_presented_ends_the_run() {
    let mut app = active();
    app.about_to_wait().unwrap();
    app.completed(done()).unwrap();
    assert_eq!(app.completed(done()), Ok(Action::Present));
    assert_eq!(app.completed(Outcome::Failed("swap")), Ok(Action::Exit));
    assert_eq!(app.failure(), Some(FatalKind::Presentation));
    assert_eq!(app.about_to_wait(), Err(Refusal::Stopping));
    assert_eq!(app.finish().unwrap_err().cause, "swap");
}

#[test]
fn shutdown_releases_surface_then_context_then_display() {
    let mut app = active();
    assert_eq!(app.exiting(), Ok(Action::DropLive));
    assert_eq!(app.run_state(), RunState::Stopping);
    assert_eq!(app.completed(done()), Ok(Action::ReleaseContext));
    assert_eq!(app.live(), None);
    assert!(app.context().is_some());
    assert_eq!(
        app.completed(Outcome::Released(DisplayFamily::Egl)),
        Ok(Action::TerminateDisplay)
    );
    assert_eq!(app.context(), None);
    assert_eq!(app.run_state(), RunState::Stopping);
    assert_eq!(app.completed(done()), Ok(Action::Wait));
    assert_eq!(app.run_state(), RunState::Terminated);
    assert_eq!(app.state(), LifecycleState::Initialized);
}

#[test]
fn shutdown_leaves_other_displays_alone() {
    let mut app = active();
    app.exiting().unwrap();
    app.completed(done()).unwrap();
    assert_eq!(app.completed(Outcome::Released(DisplayFamily::Other)), Ok(Action::Wait));
    assert_eq!(app.run_state(), RunState::Terminated);
    assert_eq!(app.context(), None);
}

#[test]
fn shutdown_after_deactivation_releases_the_context_only() {
    let mut app = active();
    let first = app.suspended().unwrap();
    complete(&mut app, first);
    assert_eq!(app.exiting(), Ok(Action::ReleaseContext));
    assert_eq!(app.completed(Outcome::Released(DisplayFamily::Other)), Ok(Action::Wait));
    assert_eq!(app.run_state(), RunState::Terminated);
}

#[test]
fn shutdown_of_a_fresh_lifecycle_completes_at_once() {
    let mut app = fresh();
    assert_eq!(app.exiting(), Ok(Action::Wait));
    assert_eq!(app.run_state(), RunState::Terminated);
    assert!(app.finish().is_ok());
}

#[test]
fn nothing_is_accepted_after_the_shutdown() {
    let mut app = active();
    let first = app.exiting().unwrap();
    complete(&mut app, first);
    assert_eq!(app.resumed(), Err(Refusal::Terminated));
    assert_eq!(app.suspended(), Err(Refusal::Terminated));
    assert_eq!(app.window_event(WindowSignal::Other), Err(Refusal::Terminated));
    assert_eq!(
        app.window_event(WindowSignal::Resized(Extent { width: 1, height: 1 })),
        Err(Refusal::Terminated)
    );
    assert_eq!(app.about_to_wait(), Err(Refusal::Terminated));
    assert_eq!(app.exiting(), Err(Refusal::Terminated));
    assert_eq!(app.completed(done()), Err(Refusal::Terminated));
    assert_eq!(app.run_state(), RunState::Terminated);
    assert_eq!(app.stage(), Stage::Ready);
    assert_eq!(app.context(), None);
    assert_eq!(app.live(), None);
}

#[test]
fn signals_wait_for_the_transition_in_flight() {
    let mut app = fresh();
    app.resumed().unwrap();
    assert_eq!(app.resumed(), Err(Refusal::Busy));
    assert_eq!(app.suspended(), Err(Refusal::Busy));
    assert_eq!(app.window_event(WindowSignal::Other), Err(Refusal::Busy));
    assert_eq!(app.about_to_wait(), Err(Refusal::Busy));
    assert_eq!(app.exiting(), Err(Refusal::Busy));
    assert_eq!(app.stage(), Stage::BuildingDisplay);
}

#[test]
fn outcome_without_pending_action_is_refused() {
    let mut app = fresh();
    assert_eq!(app.completed(done()), Err(Refusal::Idle));
    assert_eq!(app.completed(Outcome::Failed("stray")), Err(Refusal::Idle));
    assert_eq!(app.failure(), None);
    assert_eq!(app.run_state(), RunState::Running);
}

#[test]
fn outcome_of_the_wrong_kind_is_refused() {
    let mut app = fresh();
    app.resumed().unwrap();
    assert_eq!(app.completed(done()), Err(Refusal::Unexpected));
    assert_eq!(app.completed(Outcome::Handled(AppControl::Exit)), Err(Refusal::Unexpected));
    assert_eq!(app.stage(), Stage::BuildingDisplay);
    app.completed(Outcome::Selected(CONFIG)).unwrap();
    assert_eq!(app.completed(Outcome::Failed("cursor")), Err(Refusal::Unexpected));
    assert_eq!(app.completed(Outcome::Selected(CONFIG)), Err(Refusal::Unexpected));
    assert_eq!(app.stage(), Stage::ShowingCursor);
    assert_eq!(app.failure(), None);
    let mut app = active();
    app.exiting().unwrap();
    app.completed(done()).unwrap();
    assert_eq!(app.completed(done()), Err(Refusal::Unexpected));
    assert_eq!(app.stage(), Stage::ReleasingContext);
}

#[test]
fn only_the_shutdown_is_accepted_once_an_exit_is_requested() {
    let mut app = active();
    app.window_event(WindowSignal::Other).unwrap();
    app.completed(Outcome::Handled(AppControl::Exit)).unwrap();
    assert_eq!(app.resumed(), Err(Refusal::Stopping));
    assert_eq!(app.suspended(), Err(Refusal::Stopping));
    assert_eq!(
        app.window_event(WindowSignal::Resized(Extent { width: 2, height: 2 })),
        Err(Refusal::Stopping)
    );
    assert_eq!(app.completed(done()), Err(Refusal::Idle));
    assert_eq!(app.exiting(), Ok(Action::DropLive));
}

#[test]
fn first_failure_is_kept() {
    let mut app = active();
    app.about_to_wait().unwrap();
    app.completed(done()).unwrap();
    app.completed(done()).unwrap();
    app.completed(Outcome::Failed("first")).unwrap();
    assert_eq!(app.window_event(WindowSignal::Other), Err(Refusal::Stopping));
    assert_eq!(app.completed(Outcome::Failed("second")), Err(Refusal::Idle));
    let first = app.exiting().unwrap();
    complete(&mut app, first);
    assert_eq!(app.finish().unwrap_err().cause, "first");
}

#[test]
fn renderer_is_constructed_once_over_many_activations() {
    let mut app = fresh();
    let mut built = activate_first(&mut app)
        .iter()
        .filter(|action| matches!(action, Action::BuildRenderer))
        .count();
    for _ in 0..3 {
        let first = app.suspended().unwrap();
        complete(&mut app, first);
        let first = app.resumed().unwrap();
        built += complete(&mut app, first)
            .iter()
            .filter(|action| matches!(action, Action::BuildRenderer | Action::CreateContext(_)))
            .count();
    }
    assert_eq!(built, 1);
}
