//! The decisions of the default library loader installed by
//! `set_library_load_default` on Windows.
//!
//! The SDK hands the loader the absolute path of a library it wants. The
//! loader first loads the library by that path; where that fails, it loads it
//! again by the path's final component alone, which lets the system hand back
//! a library that a launcher has already loaded. The caller performs each
//! load and reports its outcome; [`loader_step`] says what to do next.

use vstd::prelude::*;

verus! {

/// Where the loader stands.
#[derive(Debug, Clone, Copy, PartialEq, Eq, Structural)]
pub enum LoaderState {
    /// Not yet called.
    Idle,
    /// Loading the library by the path as given.
    LoadingGivenPath,
    /// Taking the final component of the path.
    TakingFileName,
    /// Loading the library by its file name alone.
    LoadingFileName,
    /// Done: the last action returned a handle or null.
    Finished,
}

/// What the caller observed.
#[derive(Debug, Clone, Copy, PartialEq, Eq, Structural)]
pub enum LoaderEvent {
    /// The SDK called the loader; `name_present` is false for a null name.
    Called { name_present: bool },
    /// A load finished; `loaded` tells whether it produced a handle.
    Loaded { loaded: bool },
    /// The final component of the path was taken; `present` is false where
    /// the path has none.
    FileName { present: bool },
}

/// What the caller does next.
#[derive(Debug, Clone, Copy, PartialEq, Eq, Structural)]
pub enum LoaderAction {
    /// Load the library by the path as given.
    LoadGivenPath,
    /// Take the final component of the path.
    TakeFileName,
    /// Load the library by that final component.
    LoadFileName,
    /// Return the handle that the last load produced.
    ReturnLoaded,
    /// Return a null handle.
    ReturnNull,
}

/// The loader's next state and action after `event` in `state`. An event
/// that the state does not expect ends the call with a null handle.
pub open spec fn loader_next(state: LoaderState, event: LoaderEvent) -> (LoaderState, LoaderAction) {
    match (state, event) {
        (LoaderState::Idle, LoaderEvent::Called { name_present }) => if name_present {
            (LoaderState::LoadingGivenPath, LoaderAction::LoadGivenPath)
        } else {
            (LoaderState::Finished, LoaderAction::ReturnNull)
        },
        (LoaderState::LoadingGivenPath, LoaderEvent::Loaded { loaded }) => if loaded {
            (LoaderState::Finished, LoaderAction::ReturnLoaded)
        } else {
            (LoaderState::TakingFileName, LoaderAction::TakeFileName)
        },
        (LoaderState::TakingFileName, LoaderEvent::FileName { present }) => if present {
            (LoaderState::LoadingFileName, LoaderAction::LoadFileName)
        } else {
            (LoaderState::Finished, LoaderAction::ReturnNull)
        },
        (LoaderState::LoadingFileName, LoaderEvent::Loaded { .. }) => (
            LoaderState::Finished,
            LoaderAction::ReturnLoaded,
        ),
        _ => (LoaderState::Finished, LoaderAction::ReturnNull),
    }
}

/// One step of the default loader: from its state and what the caller
/// observed, its next state and the action the caller performs.
pub fn loader_step(state: LoaderState, event: LoaderEvent) -> (r: (LoaderState, LoaderAction))
    ensures
        r == loader_next(state, event),
        state == LoaderState::LoadingGivenPath && event == (LoaderEvent::Loaded { loaded: true })
            ==> r == (LoaderState::Finished, LoaderAction::ReturnLoaded),
        state == LoaderState::LoadingFileName && event is Loaded ==> r == (
            LoaderState::Finished,
            LoaderAction::ReturnLoaded,
        ),
        r.1 == LoaderAction::ReturnLoaded ==> event is Loaded && (state
            == LoaderState::LoadingGivenPath || state == LoaderState::LoadingFileName),
{
    match (state, event) {
        (LoaderState::Idle, LoaderEvent::Called { name_present }) => if name_present {
            (LoaderState::LoadingGivenPath, LoaderAction::LoadGivenPath)
        } else {
            (LoaderState::Finished, LoaderAction::ReturnNull)
        },
        (LoaderState::LoadingGivenPath, LoaderEvent::Loaded { loaded }) => if loaded {
            (LoaderState::Finished, LoaderAction::ReturnLoaded)
        } else {
            (LoaderState::TakingFileName, LoaderAction::TakeFileName)
        },
        (LoaderState::TakingFileName, LoaderEvent::FileName { present }) => if present {
            (LoaderState::LoadingFileName, LoaderAction::LoadFileName)
        } else {
            (LoaderState::Finished, LoaderAction::ReturnNull)
        },
        (LoaderState::LoadingFileName, LoaderEvent::Loaded { .. }) => (
            LoaderState::Finished,
            LoaderAction::ReturnLoaded,
        ),
        _ => (LoaderState::Finished, LoaderAction::ReturnNull),
    }
}

/// How many more steps the loader can take from a state.
pub open spec fn steps_left(state: LoaderState) -> nat {
    match state {
        LoaderState::Idle => 4,
        LoaderState::LoadingGivenPath => 3,
        LoaderState::TakingFileName => 2,
        LoaderState::LoadingFileName => 1,
        LoaderState::Finished => 0,
    }
}

/// Whether an action ends the call.
pub open spec fn is_return(a: LoaderAction) -> bool {
    a == LoaderAction::ReturnLoaded || a == LoaderAction::ReturnNull
}

/// Every step from an unfinished state moves closer to the end, so a call
/// ends within four steps, and the state is finished exactly when the action
/// returns.
pub proof fn lemma_loader_terminates(state: LoaderState, event: LoaderEvent)
    requires
        state != LoaderState::Finished,
    ensures
        steps_left(loader_next(state, event).0) < steps_left(state),
        (loader_next(state, event).0 == LoaderState::Finished) == is_return(
            loader_next(state, event).1,
        ),
{
}

/// The first thing the loader does with a name is load it as given; it loads
/// by the file name only after that load failed, and it returns the handle of
/// the given path whenever that load succeeded.
pub proof fn lemma_loader_prefers_given_path(state: LoaderState, event: LoaderEvent)
    ensures
        state == LoaderState::Idle && event == (LoaderEvent::Called { name_present: true })
            ==> loader_next(state, event).1 == LoaderAction::LoadGivenPath,
        loader_next(state, event).1 == LoaderAction::LoadFileName ==> state
            == LoaderState::TakingFileName,
        loader_next(state, event).1 == LoaderAction::TakeFileName ==> state
            == LoaderState::LoadingGivenPath && event == (LoaderEvent::Loaded { loaded: false }),
        state == LoaderState::LoadingGivenPath && event == (LoaderEvent::Loaded { loaded: true })
            ==> loader_next(state, event) == (LoaderState::Finished, LoaderAction::ReturnLoaded),
{
}

/// A null name is never loaded: the call returns null at once.
pub proof fn lemma_loader_null_name(event: LoaderEvent)
    requires
        event == (LoaderEvent::Called { name_present: false }),
    ensures
        loader_next(LoaderState::Idle, event) == (LoaderState::Finished, LoaderAction::ReturnNull),
{
}

/// Whenever a load has just produced a handle, whether by the path as given
/// or by the file name, the loader finishes and returns that handle.
pub proof fn lemma_loader_returns_successful_load(state: LoaderState)
    requires
        state == LoaderState::LoadingGivenPath || state == LoaderState::LoadingFileName,
    ensures
        loader_next(state, LoaderEvent::Loaded { loaded: true }) == (
            LoaderState::Finished,
            LoaderAction::ReturnLoaded,
        ),
{
}

/// The load by the file name is the loader's last resort: whatever it
/// produced, a handle or null, is what the loader returns.
pub proof fn lemma_loader_returns_file_name_load(loaded: bool)
    ensures
        loader_next(LoaderState::LoadingFileName, LoaderEvent::Loaded { loaded }) == (
            LoaderState::Finished,
            LoaderAction::ReturnLoaded,
        ),
{
}

/// The loader hands back a loaded handle only right after one of its own
/// loads, and never a handle of a load it has not made.
pub proof fn lemma_loader_returns_only_its_loads(state: LoaderState, event: LoaderEvent)
    ensures
        loader_next(state, event).1 == LoaderAction::ReturnLoaded ==> event is Loaded && (state
            == LoaderState::LoadingGivenPath || state == LoaderState::LoadingFileName),
{
}

} // verus!
