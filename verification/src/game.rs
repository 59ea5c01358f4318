//! The catalog record type and its mathematical view.

use vstd::prelude::*;

verus! {

/// The mathematical view of a catalog record: every text field as a
/// character sequence.
pub struct GameRec {
    pub id: Seq<char>,
    pub name: Seq<char>,
    pub category: Seq<char>,
    pub executable_path: Option<Seq<char>>,
    pub install_path: Option<Seq<char>>,
    pub is_installed: bool,
    pub platform: Seq<char>,
    pub image_url: Seq<char>,
}

/// One catalog entry: a known game with its metadata and, after
/// reconciliation, the discovered installation facts.
pub struct GameInfo {
    pub id: String,
    pub name: String,
    pub category: String,
    pub executable_path: Option<String>,
    pub install_path: Option<String>,
    pub is_installed: bool,
    pub platform: String,
    pub image_url: String,
}

pub open spec fn view_opt(o: Option<String>) -> Option<Seq<char>> {
    match o {
        Some(s) => Some(s@),
        None => None,
    }
}

impl View for GameInfo {
    type V = GameRec;

    open spec fn view(&self) -> GameRec {
        GameRec {
            id: self.id@,
            name: self.name@,
            category: self.category@,
            executable_path: view_opt(self.executable_path),
            install_path: view_opt(self.install_path),
            is_installed: self.is_installed,
            platform: self.platform@,
            image_url: self.image_url@,
        }
    }
}

impl GameInfo {
    /// A structural copy of the record.
    pub fn duplicate(&self) -> (r: GameInfo)
        ensures
            r@ == self@,
    {
        GameInfo {
            id: self.id.clone(),
            name: self.name.clone(),
            category: self.category.clone(),
            executable_path: clone_opt(&self.executable_path),
            install_path: clone_opt(&self.install_path),
            is_installed: self.is_installed,
            platform: self.platform.clone(),
            image_url: self.image_url.clone(),
        }
    }
}

/// A structural copy of an optional string.
pub fn clone_opt(o: &Option<String>) -> (r: Option<String>)
    ensures
        view_opt(r) == view_opt(*o),
{
    match o {
        Some(s) => Some(s.clone()),
        None => None,
    }
}

/// A session-local collection of game records, keyed by id. Nothing is
/// persisted across runs; the caller fills and reads it for the lifetime of
/// one session.
pub struct GameDatabase {
    pub games: std::collections::HashMap<String, GameInfo>,
}

impl Default for GameDatabase {
    /// An empty database.
    fn default() -> (r: GameDatabase)
        ensures
            r.games@ == Map::<String, GameInfo>::empty(),
    {
        GameDatabase { games: std::collections::HashMap::new() }
    }
}

} // verus!
