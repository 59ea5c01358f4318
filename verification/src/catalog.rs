//! The static catalog of known games.
//!
//! The catalog is immutable reference data: an ordered list of records, each
//! with a unique id, built fresh on every request with no installation facts
//! filled in yet.

use vstd::prelude::*;
use crate::game::{GameInfo, GameRec};

verus! {

/// The catalog as a mathematical sequence: every known game in order, not
/// yet reconciled against any evidence.
pub open spec fn catalog_spec() -> Seq<GameRec> {
    seq![
        GameRec {
            id: "valorant"@,
            name: "Valorant"@,
            category: "FPS"@,
            executable_path: None,
            install_path: None,
            is_installed: false,
            platform: "riot"@,
            image_url: "https://cmsassets.rgpub.io/sanity/images/dsfx7636/news/4fd6a11df4eb2c7c8e368e88b78e97ebb00f4688-1920x1080.jpg"@,
        },
        GameRec {
            id: "league-of-legends"@,
            name: "League of Legends"@,
            category: "MOBA"@,
            executable_path: None,
            install_path: None,
            is_installed: false,
            platform: "riot"@,
            image_url: "https://cmsassets.rgpub.io/sanity/images/dsfx7636/news/4c44f7838e9c3a6ae8f02fc2f1e5a0ce66e2cf20-1920x1080.jpg"@,
        },
        GameRec {
            id: "cs2"@,
            name: "Counter-Strike 2"@,
            category: "FPS"@,
            executable_path: None,
            install_path: None,
            is_installed: false,
            platform: "steam"@,
            image_url: "https://cdn.akamai.steamstatic.com/steam/apps/730/header.jpg"@,
        },
        GameRec {
            id: "apex-legends"@,
            name: "Apex Legends"@,
            category: "Battle Royale"@,
            executable_path: None,
            install_path: None,
            is_installed: false,
            platform: "steam"@,
            image_url: "https://cdn.akamai.steamstatic.com/steam/apps/1172470/header.jpg"@,
        },
        GameRec {
            id: "dota2"@,
            name: "Dota 2"@,
            category: "MOBA"@,
            executable_path: None,
            install_path: None,
            is_installed: false,
            platform: "steam"@,
            image_url: "https://cdn.akamai.steamstatic.com/steam/apps/570/header.jpg"@,
        },
        GameRec {
            id: "fortnite"@,
            name: "Fortnite"@,
            category: "Battle Royale"@,
            executable_path: None,
            install_path: None,
            is_installed: false,
            platform: "epic"@,
            image_url: "https://cdn2.unrealengine.com/en-eg-desktop-background-1923x1080-1923x1080-828a5d1ebb0f.jpg"@,
        },
        GameRec {
            id: "minecraft"@,
            name: "Minecraft"@,
            category: "Sandbox"@,
            executable_path: None,
            install_path: None,
            is_installed: false,
            platform: "microsoft"@,
            image_url: "https://cdn.akamai.steamstatic.com/steam/apps/1672970/header.jpg"@,
        },
        GameRec {
            id: "rocket-league"@,
            name: "Rocket League"@,
            category: "Sports"@,
            executable_path: None,
            install_path: None,
            is_installed: false,
            platform: "epic"@,
            image_url: "https://cdn.akamai.steamstatic.com/steam/apps/252950/header.jpg"@,
        },
        GameRec {
            id: "gta5"@,
            name: "GTA V"@,
            category: "Action"@,
            executable_path: None,
            install_path: None,
            is_installed: false,
            platform: "steam"@,
            image_url: "https://cdn.akamai.steamstatic.com/steam/apps/271590/header.jpg"@,
        },
        GameRec {
            id: "pubg"@,
            name: "PUBG"@,
            category: "Battle Royale"@,
            executable_path: None,
            install_path: None,
            is_installed: false,
            platform: "steam"@,
            image_url: "https://cdn.akamai.steamstatic.com/steam/apps/578080/header.jpg"@,
        },
        GameRec {
            id: "overwatch2"@,
            name: "Overwatch 2"@,
            category: "FPS"@,
            executable_path: None,
            install_path: None,
            is_installed: false,
            platform: "blizzard"@,
            image_url: "https://blz-contentstack-images.akamaized.net/v3/assets/blt2477dcaf4ebd440c/blt7f4c77fd14dff1c7/646e51bc2d39af49a3c2e0a4/ow2-homepage-hero-bg.webp"@,
        },
        GameRec {
            id: "fifa24"@,
            name: "FIFA 24"@,
            category: "Sports"@,
            executable_path: None,
            install_path: None,
            is_installed: false,
            platform: "ea"@,
            image_url: "https://cdn.akamai.steamstatic.com/steam/apps/2195250/header.jpg"@,
        },
    ]
}

/// Ids are pairwise distinct across a sequence of catalog records.
pub open spec fn distinct_ids(s: Seq<GameRec>) -> bool {
    forall|p: int, q: int| 0 <= p < q < s.len() ==> s[p].id != s[q].id
}

/// Every id of the catalog is distinct from every other.
pub proof fn lemma_catalog_ids_distinct()
    ensures
        distinct_ids(catalog_spec()),
{
    reveal_strlit("valorant");
    reveal_strlit("league-of-legends");
    reveal_strlit("cs2");
    reveal_strlit("apex-legends");
    reveal_strlit("dota2");
    reveal_strlit("fortnite");
    reveal_strlit("minecraft");
    reveal_strlit("rocket-league");
    reveal_strlit("gta5");
    reveal_strlit("pubg");
    reveal_strlit("overwatch2");
    reveal_strlit("fifa24");
    let s = catalog_spec();
    assert forall|p: int, q: int| 0 <= p < q < s.len() implies s[p].id != s[q].id by {
        assert(s[0].id.len() == 8);
        assert(s[1].id.len() == 17);
        assert(s[2].id.len() == 3);
        assert(s[3].id.len() == 12);
        assert(s[4].id.len() == 5);
        assert(s[5].id.len() == 8);
        assert(s[6].id.len() == 9);
        assert(s[7].id.len() == 13);
        assert(s[8].id.len() == 4);
        assert(s[9].id.len() == 4);
        assert(s[10].id.len() == 10);
        assert(s[11].id.len() == 6);
        assert(s[0].id[0] == 'v' && s[5].id[0] == 'f');
        assert(s[8].id[0] == 'g' && s[9].id[0] == 'p');
    }
}

fn mk_game(id: &str, name: &str, category: &str, platform: &str, image_url: &str) -> (r:
    GameInfo)
    ensures
        r@ == (GameRec {
            id: id@,
            name: name@,
            category: category@,
            executable_path: None,
            install_path: None,
            is_installed: false,
            platform: platform@,
            image_url: image_url@,
        }),
{
    GameInfo {
        id: String::from_str(id),
        name: String::from_str(name),
        category: String::from_str(category),
        executable_path: None,
        install_path: None,
        is_installed: false,
        platform: String::from_str(platform),
        image_url: String::from_str(image_url),
    }
}

/// Builds the full catalog: every known game in its fixed order, ids
/// pairwise distinct, nothing marked installed.
pub fn get_known_games() -> (r: Vec<GameInfo>)
    ensures
        r@.len() == catalog_spec().len(),
        forall|i: int| 0 <= i < r@.len() ==> #[trigger] r@[i]@ == catalog_spec()[i],
        distinct_ids(catalog_spec()),
{
    proof {
        lemma_catalog_ids_distinct();
    }
    let mut r: Vec<GameInfo> = Vec::new();
    r.push(mk_game("valorant", "Valorant", "FPS", "riot",
        "https://cmsassets.rgpub.io/sanity/images/dsfx7636/news/4fd6a11df4eb2c7c8e368e88b78e97ebb00f4688-1920x1080.jpg"));
    r.push(mk_game("league-of-legends", "League of Legends", "MOBA", "riot",
        "https://cmsassets.rgpub.io/sanity/images/dsfx7636/news/4c44f7838e9c3a6ae8f02fc2f1e5a0ce66e2cf20-1920x1080.jpg"));
    r.push(mk_game("cs2", "Counter-Strike 2", "FPS", "steam",
        "https://cdn.akamai.steamstatic.com/steam/apps/730/header.jpg"));
    r.push(mk_game("apex-legends", "Apex Legends", "Battle Royale", "steam",
        "https://cdn.akamai.steamstatic.com/steam/apps/1172470/header.jpg"));
    r.push(mk_game("dota2", "Dota 2", "MOBA", "steam",
        "https://cdn.akamai.steamstatic.com/steam/apps/570/header.jpg"));
    r.push(mk_game("fortnite", "Fortnite", "Battle Royale", "epic",
        "https://cdn2.unrealengine.com/en-eg-desktop-background-1923x1080-1923x1080-828a5d1ebb0f.jpg"));
    r.push(mk_game("minecraft", "Minecraft", "Sandbox", "microsoft",
        "https://cdn.akamai.steamstatic.com/steam/apps/1672970/header.jpg"));
    r.push(mk_game("rocket-league", "Rocket League", "Sports", "epic",
        "https://cdn.akamai.steamstatic.com/steam/apps/252950/header.jpg"));
    r.push(mk_game("gta5", "GTA V", "Action", "steam",
        "https://cdn.akamai.steamstatic.com/steam/apps/271590/header.jpg"));
    r.push(mk_game("pubg", "PUBG", "Battle Royale", "steam",
        "https://cdn.akamai.steamstatic.com/steam/apps/578080/header.jpg"));
    r.push(mk_game("overwatch2", "Overwatch 2", "FPS", "blizzard",
        "https://blz-contentstack-images.akamaized.net/v3/assets/blt2477dcaf4ebd440c/blt7f4c77fd14dff1c7/646e51bc2d39af49a3c2e0a4/ow2-homepage-hero-bg.webp"));
    r.push(mk_game("fifa24", "FIFA 24", "Sports", "ea",
        "https://cdn.akamai.steamstatic.com/steam/apps/2195250/header.jpg"));
    r
}

/// The raw catalog, nothing marked installed.
pub fn get_all_games() -> (r: Vec<GameInfo>)
    ensures
        r@.len() == catalog_spec().len(),
        forall|i: int| 0 <= i < r@.len() ==> #[trigger] r@[i]@ == catalog_spec()[i],
{
    get_known_games()
}

} // verus!
