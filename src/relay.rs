//! The two background tasks beside the session: the periodic relay of server
//! errors and the one-off loading of themes.

use vstd::prelude::*;

verus! {

/// The stage of the error relay.
#[derive(Debug, Clone, Copy, PartialEq, Eq, Structural)]
pub enum PauseState {
    /// The relay has just published; it waits one period before the next tick.
    Paused,
    /// The relay is due to publish.
    InProgress,
}

/// What one tick of the error relay does.
#[derive(Debug, Clone, Copy, PartialEq, Eq, Structural)]
pub enum RelayAction {
    /// Sleep for one period, then publish nothing.
    Sleep,
    /// Ask the user interface to drain and show the pending server errors.
    ShowServerErrors,
}

/// One tick of the error relay: publishing and waiting take turns, so that at
/// most one drain is asked for per period.
pub fn refresh_errors_step(state: PauseState) -> (r: (RelayAction, PauseState))
    ensures
        state == PauseState::InProgress ==> r == (RelayAction::ShowServerErrors, PauseState::Paused),
        state == PauseState::Paused ==> r == (RelayAction::Sleep, PauseState::InProgress),
{
    match state {
        PauseState::Paused => (RelayAction::Sleep, PauseState::InProgress),
        PauseState::InProgress => (RelayAction::ShowServerErrors, PauseState::Paused),
    }
}

/// The stage of theme loading. `E` is the theme engine, `X` its error.
pub enum ThemeState<E, X> {
    /// Loading has to be started with this engine.
    Started(E),
    /// The engine has loaded its themes.
    Loaded(E),
    /// Loading failed.
    Error(X),
    /// Nothing is left to do.
    Ended,
}

/// What one step of theme loading publishes.
pub enum ThemeEvent<E, X> {
    /// Nothing to show.
    NoOp,
    /// The themes are loaded: here is the engine that holds them.
    ThemesLoaded(E),
    /// Loading the themes failed.
    LoadFailed(X),
}

/// The event and next stage of theme loading from stage `s`; `load` is the
/// outcome of loading, which the started stage alone asks for.
pub open spec fn theme_transition<E, X>(s: ThemeState<E, X>, load: Option<Result<(), X>>) -> (ThemeEvent<E, X>, ThemeState<E, X>) {
    match s {
        ThemeState::Started(e) => match load {
            Some(Err(x)) => (ThemeEvent::NoOp, ThemeState::Error(x)),
            _ => (ThemeEvent::NoOp, ThemeState::Loaded(e)),
        },
        ThemeState::Loaded(e) => (ThemeEvent::ThemesLoaded(e), ThemeState::Ended),
        ThemeState::Error(x) => (ThemeEvent::LoadFailed(x), ThemeState::Ended),
        ThemeState::Ended => (ThemeEvent::NoOp, ThemeState::Ended),
    }
}

/// One step of theme loading. The started stage needs the outcome of loading
/// the themes; the other stages need none.
pub fn load_themes_step<E, X>(state: ThemeState<E, X>, load: Option<Result<(), X>>) -> (r: (ThemeEvent<E, X>, ThemeState<E, X>))
    requires
        (state is Started) == (load is Some),
    ensures
        r == theme_transition(state, load),
{
    match state {
        ThemeState::Started(e) => match load {
            Some(Err(x)) => (ThemeEvent::NoOp, ThemeState::Error(x)),
            _ => (ThemeEvent::NoOp, ThemeState::Loaded(e)),
        },
        ThemeState::Loaded(e) => (ThemeEvent::ThemesLoaded(e), ThemeState::Ended),
        ThemeState::Error(x) => (ThemeEvent::LoadFailed(x), ThemeState::Ended),
        ThemeState::Ended => (ThemeEvent::NoOp, ThemeState::Ended),
    }
}

} // verus!
