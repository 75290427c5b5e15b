use bloom_menu::state::{scheduled, Request, Stage, System};
use bloom_menu::AppState;

#[test]
fn application_opens_on_the_main_menu() {
    assert_eq!(AppState::default(), AppState::MainMenu);
}

#[test]
fn entering_a_state_makes_it_current() {
    assert_eq!(
        AppState::MainMenu.after(Request::Enter(AppState::InGame)),
        AppState::InGame
    );
    assert_eq!(
        AppState::InGame.after(Request::Enter(AppState::Paused)),
        AppState::Paused
    );
    assert_eq!(
        AppState::InGame.after(Request::Enter(AppState::InGame)),
        AppState::InGame
    );
}

#[test]
fn other_requests_keep_the_state() {
    for state in [AppState::MainMenu, AppState::InGame, AppState::Paused] {
        assert_eq!(state.after(Request::Nothing), state);
        assert_eq!(state.after(Request::Exit), state);
    }
}

#[test]
fn menu_is_built_at_startup_on_the_main_menu_only() {
    assert_eq!(
        scheduled(Stage::Startup, AppState::MainMenu),
        Some(System::SetupMenu)
    );
    assert_eq!(scheduled(Stage::Startup, AppState::InGame), None);
    assert_eq!(scheduled(Stage::Startup, AppState::Paused), None);
}

#[test]
fn menu_is_updated_on_the_main_menu_only() {
    assert_eq!(
        scheduled(Stage::Update, AppState::MainMenu),
        Some(System::UpdateMenu)
    );
    assert_eq!(scheduled(Stage::Update, AppState::InGame), None);
    assert_eq!(scheduled(Stage::Update, AppState::Paused), None);
}

#[test]
fn leaving_the_main_menu_cleans_up_whatever_follows() {
    for next in [AppState::MainMenu, AppState::InGame, AppState::Paused] {
        assert_eq!(
            scheduled(Stage::Exit(AppState::MainMenu), next),
            Some(System::CleanupMenu)
        );
        assert_eq!(scheduled(Stage::Exit(AppState::InGame), next), None);
        assert_eq!(scheduled(Stage::Exit(AppState::Paused), next), None);
    }
}

#[test]
fn entering_the_game_builds_the_scene() {
    assert_eq!(
        scheduled(Stage::Enter(AppState::InGame), AppState::InGame),
        Some(System::SetupGame)
    );
    assert_eq!(
        scheduled(Stage::Enter(AppState::InGame), AppState::MainMenu),
        None
    );
    assert_eq!(
        scheduled(Stage::Enter(AppState::InGame), AppState::Paused),
        None
    );
}

#[test]
fn entering_another_state_builds_nothing() {
    for state in [AppState::MainMenu, AppState::InGame, AppState::Paused] {
        assert_eq!(scheduled(Stage::Enter(AppState::MainMenu), state), None);
        assert_eq!(scheduled(Stage::Enter(AppState::Paused), state), None);
    }
}
