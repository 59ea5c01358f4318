//! Tests for the catalog and the reconciler.

use game_launcher::catalog::{get_all_games, get_known_games};
use game_launcher::evidence::EvidenceMap;
use game_launcher::reconcile::reconcile;

#[test]
fn catalog_has_twelve_entries() {
    let games = get_known_games();
    assert_eq!(games.len(), 12);
}

#[test]
fn catalog_ids_are_pairwise_distinct() {
    let games = get_known_games();
    for i in 0..games.len() {
        for j in 0..games.len() {
            if i != j {
                assert_ne!(games[i].id, games[j].id);
            }
        }
    }
}

#[test]
fn catalog_starts_uninstalled() {
    for g in get_known_games() {
        assert!(!g.is_installed);
        assert!(g.executable_path.is_none());
        assert!(g.install_path.is_none());
    }
}

#[test]
fn get_all_games_matches_catalog() {
    let a = get_all_games();
    let b = get_known_games();
    assert_eq!(a.len(), b.len());
    for (x, y) in a.iter().zip(b.iter()) {
        assert_eq!(x.id, y.id);
        assert_eq!(x.name, y.name);
        assert_eq!(x.category, y.category);
        assert_eq!(x.platform, y.platform);
        assert_eq!(x.image_url, y.image_url);
    }
}

#[test]
fn reconcile_with_empty_evidence_is_identity() {
    let games = get_known_games();
    let evidence = EvidenceMap::new();
    let out = reconcile(&games, &evidence);
    assert_eq!(out.len(), games.len());
    for (x, y) in out.iter().zip(games.iter()) {
        assert_eq!(x.id, y.id);
        assert_eq!(x.name, y.name);
        assert!(!x.is_installed);
        assert!(x.executable_path.is_none());
        assert!(x.install_path.is_none());
    }
}

#[test]
fn reconcile_marks_matched_entry_installed() {
    let games = get_known_games();
    let mut evidence = EvidenceMap::new();
    evidence.insert(
        "counter-strike 2".to_string(),
        "/games/cs2/cs2".to_string(),
    );
    let out = reconcile(&games, &evidence);
    assert_eq!(out.len(), 12);
    let cs2 = out.iter().find(|g| g.id == "cs2").unwrap();
    assert!(cs2.is_installed);
    assert_eq!(cs2.executable_path.as_deref(), Some("/games/cs2/cs2"));
    assert_eq!(cs2.install_path.as_deref(), Some("/games/cs2"));
    for g in out.iter().filter(|g| g.id != "cs2") {
        assert!(!g.is_installed);
    }
}

#[test]
fn reconcile_drops_unmatched_evidence() {
    let games = get_known_games();
    let mut evidence = EvidenceMap::new();
    evidence.insert("no such game".to_string(), "/tmp/nowhere".to_string());
    let out = reconcile(&games, &evidence);
    assert_eq!(out.len(), games.len());
    for (x, y) in out.iter().zip(games.iter()) {
        assert_eq!(x.id, y.id);
        assert!(!x.is_installed);
        assert!(x.executable_path.is_none());
    }
}

#[test]
fn reconcile_is_deterministic() {
    let games = get_known_games();
    let mut evidence = EvidenceMap::new();
    evidence.insert("valorant".to_string(), "C:\\Riot Games\\VALORANT\\live\\VALORANT.exe".to_string());
    let a = reconcile(&games, &evidence);
    let b = reconcile(&games, &evidence);
    assert_eq!(a.len(), b.len());
    for (x, y) in a.iter().zip(b.iter()) {
        assert_eq!(x.id, y.id);
        assert_eq!(x.is_installed, y.is_installed);
        assert_eq!(x.executable_path, y.executable_path);
        assert_eq!(x.install_path, y.install_path);
    }
}

#[test]
fn evidence_map_last_write_wins() {
    let mut evidence = EvidenceMap::new();
    evidence.insert("valorant".to_string(), "C:\\old\\VALORANT.exe".to_string());
    evidence.insert("valorant".to_string(), "D:\\new\\VALORANT.exe".to_string());
    assert_eq!(evidence.len(), 1);
    let got = evidence.get(&"valorant".to_string()).unwrap();
    assert_eq!(got, "D:\\new\\VALORANT.exe");
}

#[test]
fn evidence_map_get_missing_key() {
    let mut evidence = EvidenceMap::new();
    evidence.insert("valorant".to_string(), "C:\\x".to_string());
    assert!(evidence.get(&"fortnite".to_string()).is_none());
}
