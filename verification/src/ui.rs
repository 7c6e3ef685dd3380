//! The window-facing state: a tagged variant with exactly three states, the
//! update function that is the only writer of that state, and the window
//! title derived from it. Rendering itself is the unverified shell's job.

use vstd::prelude::*;
use vstd::string::StringExecFns;

use crate::team::{Error, Team};

verus! {

/// The three presentation states. Exactly one is active at any time.
#[derive(Debug, PartialEq)]
pub enum AppState {
    /// A search is in flight.
    Loading,
    /// The last search succeeded.
    Loaded { team: Team },
    /// The last search failed with the classified error.
    Errored { error: Error },
}

/// A completion message from the orchestrator, or the user's request to
/// search again.
#[derive(Debug, PartialEq)]
pub enum Message {
    TeamFound(Result<Team, Error>),
    Search,
}

/// What the shell must do after an update.
#[derive(Debug, PartialEq, Eq, Structural)]
pub enum UiCommand {
    Nothing,
    StartSearch,
}

/// The initial state: a search starts immediately.
pub fn app_init() -> (r: (AppState, UiCommand))
    ensures
        r.0 is Loading,
        r.1 is StartSearch,
{
    (AppState::Loading, UiCommand::StartSearch)
}

/// The only writer of the application state. A completion message replaces
/// the state with the corresponding loaded or errored state; a search
/// request restarts the pipeline unless a search is already in flight, so
/// the search action cannot be re-triggered mid-flight.
pub fn app_update(state: &mut AppState, message: Message) -> (command: UiCommand)
    ensures
        message matches Message::TeamFound(Ok(team)) ==> *final(state) == (AppState::Loaded {
            team,
        }) && command is Nothing,
        message matches Message::TeamFound(Err(error)) ==> *final(state) == (AppState::Errored {
            error,
        }) && command is Nothing,
        message is Search && (*old(state)) is Loading ==> *final(state) == *old(state) && command
            is Nothing,
        message is Search && !((*old(state)) is Loading) ==> *final(state) is Loading && command
            is StartSearch,
{
    match message {
        Message::TeamFound(Ok(team)) => {
            *state = AppState::Loaded { team };
            UiCommand::Nothing
        },
        Message::TeamFound(Err(error)) => {
            *state = AppState::Errored { error };
            UiCommand::Nothing
        },
        Message::Search => match state {
            AppState::Loading => UiCommand::Nothing,
            _ => {
                *state = AppState::Loading;
                UiCommand::StartSearch
            },
        },
    }
}

/// The subtitle shown in the window title for each state.
pub open spec fn subtitle_of(state: AppState) -> Seq<char> {
    match state {
        AppState::Loading => "Loading"@,
        AppState::Loaded { team } => team.name@,
        AppState::Errored { .. } => "Error occured"@,
    }
}

/// The full window title for a state.
pub open spec fn title_of(state: AppState) -> Seq<char> {
    subtitle_of(state) + " - HockeyApp"@
}

/// Renders the window title: the state's subtitle, then the application
/// name.
pub fn window_title(state: &AppState) -> (title: String)
    ensures
        title@ == title_of(*state),
{
    let subtitle: String = match state {
        AppState::Loading => String::from_str("Loading"),
        AppState::Loaded { team } => team.name.clone(),
        AppState::Errored { .. } => String::from_str("Error occured"),
    };
    subtitle.concat(" - HockeyApp")
}

} // verus!

