//! The application's states, and what the host engine runs in each.
//!
//! The host engine keeps the current state and runs groups of systems at
//! fixed points of its loop. What is decided here is which system belongs to
//! which point, in which state, and how a request of a system changes the
//! state.

use vstd::prelude::*;

verus! {

/// Which part of the application is running.
#[derive(Clone, Copy, PartialEq, Eq, Hash, Debug, Structural)]
pub enum AppState {
    MainMenu,
    InGame,
    Paused,
}

impl Default for AppState {
    /// The application opens on the main menu.
    fn default() -> (state: Self)
        ensures
            state == AppState::MainMenu,
    {
        AppState::MainMenu
    }
}

/// What a system asks of the host engine once it has run.
#[derive(Clone, Copy, PartialEq, Eq, Hash, Debug, Structural)]
pub enum Request {
    /// Nothing: the application goes on as it is.
    Nothing,
    /// Make the given state the current one.
    Enter(AppState),
    /// End the application.
    Exit,
}

/// A point of the host engine's loop at which systems run.
#[derive(Clone, Copy, PartialEq, Eq, Hash, Debug, Structural)]
pub enum Stage {
    /// Once, before the first frame.
    Startup,
    /// Every frame.
    Update,
    /// When the given state stops being the current one.
    Exit(AppState),
    /// When the given state has become the current one.
    Enter(AppState),
}

/// The systems of the application.
#[derive(Clone, Copy, PartialEq, Eq, Hash, Debug, Structural)]
pub enum System {
    /// Builds the main menu.
    SetupMenu,
    /// Reacts to the pointer on the menu's buttons.
    UpdateMenu,
    /// Removes the menu's interface from the screen.
    CleanupMenu,
    /// Builds the bloom scene.
    SetupGame,
}

impl AppState {
    /// The state in which the application is once the host engine has
    /// honoured `request` in state `self`.
    pub open spec fn spec_after(self, request: Request) -> AppState {
        match request {
            Request::Enter(state) => state,
            _ => self,
        }
    }

    /// The state that follows `self` when a system has asked for `request`:
    /// the requested state, or `self` where no state was asked for.
    pub fn after(self, request: Request) -> (next: AppState)
        ensures
            next == self.spec_after(request),
    {
        match request {
            Request::Enter(state) => state,
            _ => self,
        }
    }
}

/// The system that runs at `stage` while `state` is the current state, if any.
///
/// The menu is built at startup and kept up to date every frame, both only
/// on the main menu. Its interface is removed when the main menu is left,
/// whichever state follows. The scene is built when the game is entered.
pub open spec fn spec_scheduled(stage: Stage, state: AppState) -> Option<System> {
    match stage {
        Stage::Startup => if state == AppState::MainMenu {
            Some(System::SetupMenu)
        } else {
            None
        },
        Stage::Update => if state == AppState::MainMenu {
            Some(System::UpdateMenu)
        } else {
            None
        },
        Stage::Exit(left) => if left == AppState::MainMenu {
            Some(System::CleanupMenu)
        } else {
            None
        },
        Stage::Enter(entered) => if entered == AppState::InGame && state == AppState::InGame {
            Some(System::SetupGame)
        } else {
            None
        },
    }
}

/// Picks the system that the host engine is to run at `stage` in `state`.
pub fn scheduled(stage: Stage, state: AppState) -> (system: Option<System>)
    ensures
        system == spec_scheduled(stage, state),
{
    match stage {
        Stage::Startup => match state {
            AppState::MainMenu => Some(System::SetupMenu),
            _ => None,
        },
        Stage::Update => match state {
            AppState::MainMenu => Some(System::UpdateMenu),
            _ => None,
        },
        Stage::Exit(AppState::MainMenu) => Some(System::CleanupMenu),
        Stage::Exit(_) => None,
        Stage::Enter(AppState::InGame) => match state {
            AppState::InGame => Some(System::SetupGame),
            _ => None,
        },
        Stage::Enter(_) => None,
    }
}

} // verus!
