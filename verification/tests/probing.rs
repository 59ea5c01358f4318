//! Tests for the platform probes, the aggregator, and the full discovery
//! pass over a fake filesystem snapshot.

use game_launcher::probes::{
    aggregate_evidence, scan_blizzard_games, scan_epic_games, scan_riot_games, scan_steam_games,
    DirListing, FsView,
};
use game_launcher::reconcile::scan_installed_games;

fn empty_fs() -> FsView {
    FsView { dirs: Vec::new(), files: Vec::new() }
}

#[test]
fn probes_on_missing_roots_return_nothing() {
    let fs = empty_fs();
    assert!(scan_steam_games(&fs).is_empty());
    assert!(scan_riot_games(&fs).is_empty());
    assert!(scan_epic_games(&fs).is_empty());
    assert!(scan_blizzard_games(&fs).is_empty());
}

#[test]
fn steam_probe_finds_listed_title() {
    let root = "C:\\Program Files (x86)\\Steam\\steamapps\\common";
    let fs = FsView {
        dirs: vec![DirListing {
            path: root.to_string(),
            entries: vec!["Counter-Strike 2".to_string(), "Unknown Game".to_string()],
        }],
        files: vec![format!("{}\\Counter-Strike 2\\cs2.exe", root)],
    };
    let found = scan_steam_games(&fs);
    assert_eq!(found.len(), 1);
    assert_eq!(found[0].name, "Counter-Strike 2");
    assert_eq!(found[0].path, format!("{}\\Counter-Strike 2\\cs2.exe", root));
}

#[test]
fn steam_probe_skips_folder_without_executable() {
    let root = "C:\\Program Files (x86)\\Steam\\steamapps\\common";
    let fs = FsView {
        dirs: vec![DirListing {
            path: root.to_string(),
            entries: vec!["Counter-Strike 2".to_string()],
        }],
        files: Vec::new(),
    };
    assert!(scan_steam_games(&fs).is_empty());
}

#[test]
fn steam_probe_maps_legacy_folder_to_canonical_name() {
    let root = "D:\\SteamLibrary\\steamapps\\common";
    let fs = FsView {
        dirs: vec![DirListing {
            path: root.to_string(),
            entries: vec!["Counter-Strike Global Offensive".to_string()],
        }],
        files: vec![format!("{}\\Counter-Strike Global Offensive\\cs2.exe", root)],
    };
    let found = scan_steam_games(&fs);
    assert_eq!(found.len(), 1);
    assert_eq!(found[0].name, "Counter-Strike 2");
}

#[test]
fn riot_probe_finds_fixed_layout_titles() {
    let fs = FsView {
        dirs: Vec::new(),
        files: vec![
            "C:\\Riot Games\\VALORANT\\live\\VALORANT.exe".to_string(),
            "C:\\Riot Games\\League of Legends\\LeagueClient.exe".to_string(),
        ],
    };
    let found = scan_riot_games(&fs);
    assert_eq!(found.len(), 2);
    assert_eq!(found[0].name, "Valorant");
    assert_eq!(found[0].path, "C:\\Riot Games\\VALORANT\\live\\VALORANT.exe");
    assert_eq!(found[1].name, "League of Legends");
}

#[test]
fn epic_probe_finds_fortnite() {
    let fs = FsView {
        dirs: Vec::new(),
        files: vec![
            "D:\\Epic Games\\Fortnite\\FortniteGame\\Binaries\\Win64\\FortniteClient-Win64-Shipping.exe"
                .to_string(),
        ],
    };
    let found = scan_epic_games(&fs);
    assert_eq!(found.len(), 1);
    assert_eq!(found[0].name, "Fortnite");
}

#[test]
fn blizzard_probe_finds_overwatch() {
    let fs = FsView {
        dirs: Vec::new(),
        files: vec!["C:\\Program Files (x86)\\Overwatch\\_retail_\\Overwatch.exe".to_string()],
    };
    let found = scan_blizzard_games(&fs);
    assert_eq!(found.len(), 1);
    assert_eq!(found[0].name, "Overwatch 2");
}

#[test]
fn aggregate_keys_by_lowercased_name() {
    let fs = FsView {
        dirs: Vec::new(),
        files: vec!["C:\\Riot Games\\VALORANT\\live\\VALORANT.exe".to_string()],
    };
    let evidence = aggregate_evidence(&fs);
    let got = evidence.get(&"valorant".to_string()).unwrap();
    assert_eq!(got, "C:\\Riot Games\\VALORANT\\live\\VALORANT.exe");
}

#[test]
fn scan_installed_games_end_to_end() {
    let steam_root = "C:\\Program Files (x86)\\Steam\\steamapps\\common";
    let fs = FsView {
        dirs: vec![DirListing {
            path: steam_root.to_string(),
            entries: vec!["dota 2 beta".to_string()],
        }],
        files: vec![
            format!("{}\\dota 2 beta\\dota2.exe", steam_root),
            "C:\\Riot Games\\VALORANT\\live\\VALORANT.exe".to_string(),
        ],
    };
    let games = scan_installed_games(&fs);
    assert_eq!(games.len(), 12);
    let dota = games.iter().find(|g| g.id == "dota2").unwrap();
    assert!(dota.is_installed);
    assert_eq!(
        dota.executable_path.as_deref(),
        Some("C:\\Program Files (x86)\\Steam\\steamapps\\common\\dota 2 beta\\dota2.exe")
    );
    assert_eq!(
        dota.install_path.as_deref(),
        Some("C:\\Program Files (x86)\\Steam\\steamapps\\common\\dota 2 beta")
    );
    let valorant = games.iter().find(|g| g.id == "valorant").unwrap();
    assert!(valorant.is_installed);
    let fortnite = games.iter().find(|g| g.id == "fortnite").unwrap();
    assert!(!fortnite.is_installed);
}

#[test]
fn scan_installed_games_on_empty_snapshot_matches_catalog() {
    let games = scan_installed_games(&empty_fs());
    assert_eq!(games.len(), 12);
    for g in games {
        assert!(!g.is_installed);
    }
}
