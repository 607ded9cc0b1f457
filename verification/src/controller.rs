use vstd::prelude::*;

verus! {

/// Lifecycle of the overlay: no window yet, window up and drawing, or shut
/// down after the close request.
#[derive(Clone, Copy, PartialEq, Eq, Structural, Debug)]
pub enum Phase {
    Uninitialized,
    Active,
    Terminated,
}

/// The events the controller reacts to; everything else the host delivers
/// is mapped to `Other`.
#[derive(Clone, Copy, PartialEq, Eq, Structural, Debug)]
pub enum Event {
    Resumed,
    CloseRequested,
    Focused,
    RedrawRequested,
    Other,
}

/// What the host must do after a step: create the window with the fixed
/// overlay attributes, stop the event loop, ask for an asynchronous redraw,
/// run the rasterize-and-present pipeline at the current inner size, or
/// nothing.
#[derive(Clone, Copy, PartialEq, Eq, Structural, Debug)]
pub enum Action {
    CreateWindow,
    ExitLoop,
    RequestRedraw,
    Redraw,
    Nothing,
}

/// The controller's transition function. The window is created exactly once,
/// on resume; a close request terminates the loop; gaining focus asks for a
/// redraw, which is performed when the redraw event arrives; every other
/// event leaves the state unchanged and demands nothing.
pub open spec fn step_spec(phase: Phase, event: Event) -> (Phase, Action) {
    match (phase, event) {
        (Phase::Uninitialized, Event::Resumed) => (Phase::Active, Action::CreateWindow),
        (Phase::Active, Event::CloseRequested) => (Phase::Terminated, Action::ExitLoop),
        (Phase::Active, Event::Focused) => (Phase::Active, Action::RequestRedraw),
        (Phase::Active, Event::RedrawRequested) => (Phase::Active, Action::Redraw),
        _ => (phase, Action::Nothing),
    }
}

/// Advances the controller by one delivered event.
pub fn step(phase: Phase, event: Event) -> (r: (Phase, Action))
    ensures
        r == step_spec(phase, event),
{
    match (phase, event) {
        (Phase::Uninitialized, Event::Resumed) => (Phase::Active, Action::CreateWindow),
        (Phase::Active, Event::CloseRequested) => (Phase::Terminated, Action::ExitLoop),
        (Phase::Active, Event::Focused) => (Phase::Active, Action::RequestRedraw),
        (Phase::Active, Event::RedrawRequested) => (Phase::Active, Action::Redraw),
        _ => (phase, Action::Nothing),
    }
}

/// The event loop exits exactly on a close request: a step ends in the
/// terminated phase if and only if it started there or it was an active
/// phase handling a close request, and the exit action is demanded exactly
/// on that close request.
pub proof fn lemma_exit_only_on_close(phase: Phase, event: Event)
    ensures
        step_spec(phase, event).0 == Phase::Terminated <==> (phase == Phase::Terminated
            || (phase == Phase::Active && event == Event::CloseRequested)),
        step_spec(phase, event).1 == Action::ExitLoop <==> (phase == Phase::Active
            && event == Event::CloseRequested),
{
}

/// Once terminated, the controller demands no further action of the host,
/// whatever events still arrive.
pub proof fn lemma_terminated_is_quiescent(event: Event)
    ensures
        step_spec(Phase::Terminated, event).0 == Phase::Terminated,
        step_spec(Phase::Terminated, event).1 == Action::Nothing,
{
}

/// The window is created only by resuming from the uninitialized phase, so
/// it is created at most once over any run.
pub proof fn lemma_window_created_once(phase: Phase, event: Event)
    ensures
        step_spec(phase, event).1 == Action::CreateWindow <==> (phase == Phase::Uninitialized
            && event == Event::Resumed),
        step_spec(phase, event).0 != Phase::Uninitialized || step_spec(phase, event).1
            == Action::Nothing,
{
}

/// The attributes the overlay window is created with: transparent,
/// undecorated, borderless fullscreen, always on top, and click-through
/// (mouse hit-testing disabled).
#[derive(Clone, Copy, PartialEq, Eq, Structural, Debug)]
pub struct WindowConfig {
    pub transparent: bool,
    pub decorations: bool,
    pub fullscreen: bool,
    pub always_on_top: bool,
    pub click_through: bool,
}

/// The fixed attribute set of the overlay window.
pub fn overlay_window_config() -> (c: WindowConfig)
    ensures
        c.transparent,
        !c.decorations,
        c.fullscreen,
        c.always_on_top,
        c.click_through,
{
    WindowConfig {
        transparent: true,
        decorations: false,
        fullscreen: true,
        always_on_top: true,
        click_through: true,
    }
}

/// The fixed title of the overlay window.
pub fn overlay_title() -> (t: &'static str)
    ensures
        t@ == "dot"@,
{
    "dot"
}

} // verus!
