//! Tests for the launcher decisions, custom game registration, and the text
//! helpers they rely on.

use game_launcher::game::GameDatabase;
use game_launcher::launch::{launch_game, LaunchError, OsFamily};
use game_launcher::register::{add_custom_game, RegistrationError};
use game_launcher::text::{join_path, normalize_name, parent_dir, slugify};

#[test]
fn launch_without_path_fails_with_missing_input() {
    for id in ["cs2", "valorant", ""] {
        let r = launch_game(id.to_string(), None, true, OsFamily::Windows);
        assert_eq!(r.err(), Some(LaunchError::MissingInput));
        let r = launch_game(id.to_string(), None, false, OsFamily::Linux);
        assert_eq!(r.err(), Some(LaunchError::MissingInput));
    }
}

#[test]
fn launch_with_missing_file_fails_with_not_found() {
    let r = launch_game(
        "cs2".to_string(),
        Some("C:\\nowhere\\cs2.exe".to_string()),
        false,
        OsFamily::Windows,
    );
    assert_eq!(r.err(), Some(LaunchError::NotFound));
}

#[test]
fn launch_on_windows_runs_binary_in_parent_directory() {
    let r = launch_game(
        "cs2".to_string(),
        Some("C:\\games\\cs2\\cs2.exe".to_string()),
        true,
        OsFamily::Windows,
    )
    .unwrap();
    assert_eq!(r.game_id, "cs2");
    assert_eq!(r.program, "C:\\games\\cs2\\cs2.exe");
    assert!(r.args.is_empty());
    assert_eq!(r.working_dir.as_deref(), Some("C:\\games\\cs2"));
}

#[test]
fn launch_on_macos_uses_open_facility() {
    let r = launch_game(
        "cs2".to_string(),
        Some("/Applications/CS2.app".to_string()),
        true,
        OsFamily::MacOs,
    )
    .unwrap();
    assert_eq!(r.program, "open");
    assert_eq!(r.args, vec!["-a".to_string(), "/Applications/CS2.app".to_string()]);
    assert!(r.working_dir.is_none());
}

#[test]
fn launch_with_parentless_path_runs_in_the_path_itself() {
    let r = launch_game("x".to_string(), Some("game.exe".to_string()), true, OsFamily::Linux)
        .unwrap();
    assert_eq!(r.working_dir.as_deref(), Some("game.exe"));
}

#[test]
fn add_custom_game_builds_record() {
    let r = add_custom_game(
        "My Game".to_string(),
        "/opt/games/mygame/run.sh".to_string(),
        "Action".to_string(),
        true,
    )
    .unwrap();
    assert_eq!(r.id, "my-game");
    assert_eq!(r.name, "My Game");
    assert_eq!(r.category, "Action");
    assert!(r.is_installed);
    assert_eq!(r.platform, "custom");
    assert_eq!(r.image_url, "");
    assert_eq!(r.executable_path.as_deref(), Some("/opt/games/mygame/run.sh"));
    assert_eq!(r.install_path.as_deref(), Some("/opt/games/mygame"));
}

#[test]
fn add_custom_game_with_missing_path_fails() {
    let r = add_custom_game(
        "My Game".to_string(),
        "/does/not/exist".to_string(),
        "Action".to_string(),
        false,
    );
    assert_eq!(r.err(), Some(RegistrationError::NotFound));
}

#[test]
fn normalize_name_folds_ascii_case() {
    assert_eq!(normalize_name("Counter-Strike 2"), "counter-strike 2");
    assert_eq!(normalize_name("VALORANT"), "valorant");
    assert_eq!(normalize_name(""), "");
    assert_eq!(normalize_name("already lower"), "already lower");
}

#[test]
fn slugify_folds_case_and_replaces_spaces() {
    assert_eq!(slugify("My Game"), "my-game");
    assert_eq!(slugify("Grand Theft Auto V"), "grand-theft-auto-v");
    assert_eq!(slugify("solo"), "solo");
}

#[test]
fn parent_dir_takes_prefix_before_last_separator() {
    assert_eq!(parent_dir("/games/cs2/cs2").as_deref(), Some("/games/cs2"));
    assert_eq!(parent_dir("C:\\a\\b.exe").as_deref(), Some("C:\\a"));
    assert_eq!(parent_dir("/top").as_deref(), Some("/"));
    assert_eq!(parent_dir("plain"), None);
}

#[test]
fn join_path_keeps_separator_style() {
    assert_eq!(join_path("C:\\Riot Games", "VALORANT"), "C:\\Riot Games\\VALORANT");
    assert_eq!(join_path("/opt/games", "cs2"), "/opt/games/cs2");
}

#[test]
fn game_database_defaults_empty() {
    let db = GameDatabase::default();
    assert!(db.games.is_empty());
}
