//! Platform probes and the probe aggregator.
//!
//! Each probe inspects a fixed list of candidate installation roots for one
//! distribution platform and emits evidence for every title it recognizes.
//! The probes are pure: the filesystem is handed in as a snapshot of
//! directory listings and existing file paths, so a root that does not exist
//! simply contributes nothing. The aggregator merges all probes' evidence
//! into one map keyed by normalized name, in the fixed platform order
//! (steam, riot, epic, blizzard), the last writer winning on a collision.

use vstd::prelude::*;
use crate::evidence::{Evidence, EvidenceFact, EvidenceMap};
use crate::text::{join_path, join_spec, norm_seq, normalize_name};

verus! {

/// An immediate directory listing: a directory path and the names of its
/// child entries.
pub struct DirListing {
    pub path: String,
    pub entries: Vec<String>,
}

/// A snapshot of the filesystem facts the probes consult: the listings of
/// the candidate roots that exist, and the candidate executable paths that
/// exist. Anything absent from the snapshot is treated as not existing.
pub struct FsView {
    pub dirs: Vec<DirListing>,
    pub files: Vec<String>,
}

/// The entry names of the first listing recorded for `root`, if any.
pub open spec fn listing_of(dirs: Seq<DirListing>, root: Seq<char>) -> Option<Seq<String>>
    decreases dirs.len(),
{
    if dirs.len() == 0 {
        None
    } else if dirs[0].path@ == root {
        Some(dirs[0].entries@)
    } else {
        listing_of(dirs.drop_first(), root)
    }
}

/// Whether the snapshot records `p` as an existing file.
pub open spec fn has_file(files: Seq<String>, p: Seq<char>) -> bool {
    exists|i: int| 0 <= i < files.len() && files[i]@ == p
}

/// `s` is exactly the evidence described by the facts `f`.
pub open spec fn matches_facts(s: Seq<Evidence>, f: Seq<EvidenceFact>) -> bool {
    s.len() == f.len() && forall|i: int| 0 <= i < s.len() ==> #[trigger] s[i]@ == f[i]
}

proof fn lemma_matches_push(s: Seq<Evidence>, f: Seq<EvidenceFact>, e: Evidence, x: EvidenceFact)
    requires
        matches_facts(s, f),
        e@ == x,
    ensures
        matches_facts(s.push(e), f.push(x)),
{
    assert(forall|i: int| 0 <= i < s.len() ==> #[trigger] s.push(e)[i]@ == f.push(x)[i]);
}

fn find_listing<'a>(dirs: &'a Vec<DirListing>, root: &String) -> (r: Option<&'a Vec<String>>)
    ensures
        match r {
            Some(es) => listing_of(dirs@, root@) == Some(es@),
            None => listing_of(dirs@, root@) is None,
        },
{
    let n = dirs.len();
    let mut i: usize = 0;
    proof {
        assert(dirs@.skip(0) =~= dirs@);
    }
    while i < n
        invariant
            i <= n,
            n == dirs@.len(),
            listing_of(dirs@, root@) == listing_of(dirs@.skip(i as int), root@),
        decreases n - i,
    {
        proof {
            assert(dirs@.skip(i as int)[0] == dirs@[i as int]);
            assert(dirs@.skip(i as int).drop_first() =~= dirs@.skip(i + 1));
        }
        if dirs[i].path.eq(root) {
            return Some(&dirs[i].entries);
        }
        i = i + 1;
    }
    None
}

fn file_known(files: &Vec<String>, p: &String) -> (r: bool)
    ensures
        r == has_file(files@, p@),
{
    let n = files.len();
    let mut i: usize = 0;
    while i < n
        invariant
            i <= n,
            n == files@.len(),
            forall|j: int| 0 <= j < i ==> files@[j]@ != p@,
        decreases n - i,
    {
        if files[i].eq(p) {
            return true;
        }
        i = i + 1;
    }
    false
}

/// A title with a fixed on-disk layout: its canonical display name and the
/// executable's path relative to a candidate root.
pub struct FixedTitle {
    pub name: String,
    pub rel: String,
}

/// The evidence one fixed-layout title contributes under one root: a single
/// item when the expected executable exists, nothing otherwise.
pub open spec fn fixed_title_hit(
    files: Seq<String>,
    root: Seq<char>,
    name: Seq<char>,
    rel: Seq<char>,
) -> Seq<EvidenceFact> {
    let p = join_spec(root, rel);
    if has_file(files, p) {
        seq![EvidenceFact { name: name, path: p }]
    } else {
        Seq::empty()
    }
}

/// The evidence of the first `t` titles under one root, in title order.
pub open spec fn fixed_titles_upto(
    files: Seq<String>,
    root: Seq<char>,
    titles: Seq<(Seq<char>, Seq<char>)>,
    t: int,
) -> Seq<EvidenceFact>
    decreases t,
{
    if t <= 0 {
        Seq::empty()
    } else {
        fixed_titles_upto(files, root, titles, t - 1) + fixed_title_hit(
            files,
            root,
            titles[t - 1].0,
            titles[t - 1].1,
        )
    }
}

/// The evidence of the first `k` roots, each contributing all its titles.
pub open spec fn fixed_roots_upto(
    files: Seq<String>,
    roots: Seq<Seq<char>>,
    titles: Seq<(Seq<char>, Seq<char>)>,
    k: int,
) -> Seq<EvidenceFact>
    decreases k,
{
    if k <= 0 {
        Seq::empty()
    } else {
        fixed_roots_upto(files, roots, titles, k - 1) + fixed_titles_upto(
            files,
            roots[k - 1],
            titles,
            titles.len() as int,
        )
    }
}

/// All evidence a fixed-layout probe collects: every candidate root in
/// order, every known title under it.
pub open spec fn fixed_probe_spec(
    files: Seq<String>,
    roots: Seq<Seq<char>>,
    titles: Seq<(Seq<char>, Seq<char>)>,
) -> Seq<EvidenceFact> {
    fixed_roots_upto(files, roots, titles, roots.len() as int)
}

fn scan_fixed(
    roots: &Vec<String>,
    titles: &Vec<FixedTitle>,
    files: &Vec<String>,
    Ghost(sroots): Ghost<Seq<Seq<char>>>,
    Ghost(stitles): Ghost<Seq<(Seq<char>, Seq<char>)>>,
) -> (r: Vec<Evidence>)
    requires
        sroots.len() == roots@.len(),
        forall|i: int| 0 <= i < sroots.len() ==> (#[trigger] roots@[i])@ == sroots[i],
        stitles.len() == titles@.len(),
        forall|i: int| 0 <= i < stitles.len() ==> #[trigger] titles@[i].name@ == stitles[i].0,
        forall|i: int| 0 <= i < stitles.len() ==> #[trigger] titles@[i].rel@ == stitles[i].1,
    ensures
        matches_facts(r@, fixed_probe_spec(files@, sroots, stitles)),
{
    let mut r: Vec<Evidence> = Vec::new();
    let nr = roots.len();
    let mut k: usize = 0;
    while k < nr
        invariant
            k <= nr,
            nr == roots@.len(),
            sroots.len() == roots@.len(),
            forall|i: int| 0 <= i < sroots.len() ==> (#[trigger] roots@[i])@ == sroots[i],
            stitles.len() == titles@.len(),
            forall|i: int| 0 <= i < stitles.len() ==> #[trigger] titles@[i].name@ == stitles[i].0,
            forall|i: int| 0 <= i < stitles.len() ==> #[trigger] titles@[i].rel@ == stitles[i].1,
            matches_facts(r@, fixed_roots_upto(files@, sroots, stitles, k as int)),
        decreases nr - k,
    {
        let root = &roots[k];
        let nt = titles.len();
        let mut t: usize = 0;
        proof {
            assert(fixed_roots_upto(files@, sroots, stitles, k as int) + fixed_titles_upto(
                files@,
                sroots[k as int],
                stitles,
                0,
            ) =~= fixed_roots_upto(files@, sroots, stitles, k as int));
        }
        while t < nt
            invariant
                t <= nt,
                k < nr,
                nr == roots@.len(),
                nt == titles@.len(),
                root == &roots@[k as int],
                sroots.len() == roots@.len(),
                forall|i: int| 0 <= i < sroots.len() ==> (#[trigger] roots@[i])@ == sroots[i],
                stitles.len() == titles@.len(),
                forall|i: int|
                    0 <= i < stitles.len() ==> #[trigger] titles@[i].name@ == stitles[i].0,
                forall|i: int|
                    0 <= i < stitles.len() ==> #[trigger] titles@[i].rel@ == stitles[i].1,
                matches_facts(
                    r@,
                    fixed_roots_upto(files@, sroots, stitles, k as int) + fixed_titles_upto(
                        files@,
                        sroots[k as int],
                        stitles,
                        t as int,
                    ),
                ),
            decreases nt - t,
        {
            let ghost prefix = fixed_roots_upto(files@, sroots, stitles, k as int)
                + fixed_titles_upto(files@, sroots[k as int], stitles, t as int);
            let ghost hit = fixed_title_hit(
                files@,
                sroots[k as int],
                stitles[t as int].0,
                stitles[t as int].1,
            );
            let full = join_path(root.as_str(), titles[t].rel.as_str());
            if file_known(files, &full) {
                let e = Evidence { name: titles[t].name.clone(), path: full };
                proof {
                    lemma_matches_push(r@, prefix, e, e@);
                    assert(hit =~= seq![e@]);
                    assert(prefix.push(e@) =~= prefix + hit);
                }
                r.push(e);
            } else {
                proof {
                    assert(hit =~= Seq::<EvidenceFact>::empty());
                    assert(prefix + hit =~= prefix);
                }
            }
            proof {
                assert(prefix + hit =~= fixed_roots_upto(files@, sroots, stitles, k as int)
                    + fixed_titles_upto(files@, sroots[k as int], stitles, t + 1));
            }
            t = t + 1;
        }
        k = k + 1;
    }
    r
}

/// The folder-name table of a subdirectory-enumerating probe: the install
/// folder name, the canonical display name, and the expected executable file
/// name inside the folder.
pub struct FolderTitle {
    pub folder: String,
    pub name: String,
    pub exe: String,
}

/// The first table row whose install folder name is exactly `folder`.
pub open spec fn table_row_for(
    table: Seq<(Seq<char>, Seq<char>, Seq<char>)>,
    folder: Seq<char>,
) -> Option<(Seq<char>, Seq<char>, Seq<char>)>
    decreases table.len(),
{
    if table.len() == 0 {
        None
    } else if table[0].0 == folder {
        Some(table[0])
    } else {
        table_row_for(table.drop_first(), folder)
    }
}

/// The evidence one listed subdirectory contributes: a single item when its
/// name is in the table and the expected executable exists under it.
pub open spec fn folder_hit(
    files: Seq<String>,
    table: Seq<(Seq<char>, Seq<char>, Seq<char>)>,
    root: Seq<char>,
    entry: Seq<char>,
) -> Seq<EvidenceFact> {
    match table_row_for(table, entry) {
        Some(row) => {
            let p = join_spec(join_spec(root, entry), row.2);
            if has_file(files, p) {
                seq![EvidenceFact { name: row.1, path: p }]
            } else {
                Seq::empty()
            }
        },
        None => Seq::empty(),
    }
}

/// The evidence of the first `j` listed subdirectories of one root.
pub open spec fn folder_entries_upto(
    files: Seq<String>,
    table: Seq<(Seq<char>, Seq<char>, Seq<char>)>,
    root: Seq<char>,
    entries: Seq<String>,
    j: int,
) -> Seq<EvidenceFact>
    decreases j,
{
    if j <= 0 {
        Seq::empty()
    } else {
        folder_entries_upto(files, table, root, entries, j - 1) + folder_hit(
            files,
            table,
            root,
            entries[j - 1]@,
        )
    }
}

/// The evidence one root contributes: all its listed subdirectories when the
/// snapshot has a listing for it, nothing otherwise.
pub open spec fn folder_root_contrib(
    dirs: Seq<DirListing>,
    files: Seq<String>,
    table: Seq<(Seq<char>, Seq<char>, Seq<char>)>,
    root: Seq<char>,
) -> Seq<EvidenceFact> {
    match listing_of(dirs, root) {
        Some(entries) => folder_entries_upto(files, table, root, entries, entries.len() as int),
        None => Seq::empty(),
    }
}

/// The evidence of the first `k` roots of a subdirectory-enumerating probe.
pub open spec fn folder_roots_upto(
    dirs: Seq<DirListing>,
    files: Seq<String>,
    table: Seq<(Seq<char>, Seq<char>, Seq<char>)>,
    roots: Seq<Seq<char>>,
    k: int,
) -> Seq<EvidenceFact>
    decreases k,
{
    if k <= 0 {
        Seq::empty()
    } else {
        folder_roots_upto(dirs, files, table, roots, k - 1) + folder_root_contrib(
            dirs,
            files,
            table,
            roots[k - 1],
        )
    }
}

/// All evidence a subdirectory-enumerating probe collects.
pub open spec fn folder_probe_spec(
    dirs: Seq<DirListing>,
    files: Seq<String>,
    table: Seq<(Seq<char>, Seq<char>, Seq<char>)>,
    roots: Seq<Seq<char>>,
) -> Seq<EvidenceFact> {
    folder_roots_upto(dirs, files, table, roots, roots.len() as int)
}

fn find_table_row<'a>(table: &'a Vec<FolderTitle>, folder: &String, Ghost(stable): Ghost<
    Seq<(Seq<char>, Seq<char>, Seq<char>)>,
>) -> (r: Option<&'a FolderTitle>)
    requires
        stable.len() == table@.len(),
        forall|i: int| 0 <= i < stable.len() ==> #[trigger] table@[i].folder@ == stable[i].0,
        forall|i: int| 0 <= i < stable.len() ==> #[trigger] table@[i].name@ == stable[i].1,
        forall|i: int| 0 <= i < stable.len() ==> #[trigger] table@[i].exe@ == stable[i].2,
    ensures
        match r {
            Some(row) => table_row_for(stable, folder@) == Some(
                (row.folder@, row.name@, row.exe@),
            ),
            None => table_row_for(stable, folder@) is None,
        },
{
    let n = table.len();
    let mut i: usize = 0;
    proof {
        assert(stable.skip(0) =~= stable);
    }
    while i < n
        invariant
            i <= n,
            n == table@.len(),
            stable.len() == table@.len(),
            forall|j: int| 0 <= j < stable.len() ==> #[trigger] table@[j].folder@ == stable[j].0,
            forall|j: int| 0 <= j < stable.len() ==> #[trigger] table@[j].name@ == stable[j].1,
            forall|j: int| 0 <= j < stable.len() ==> #[trigger] table@[j].exe@ == stable[j].2,
            table_row_for(stable, folder@) == table_row_for(stable.skip(i as int), folder@),
        decreases n - i,
    {
        proof {
            assert(stable.skip(i as int)[0] == stable[i as int]);
            assert(stable.skip(i as int).drop_first() =~= stable.skip(i + 1));
        }
        if table[i].folder.eq(folder) {
            return Some(&table[i]);
        }
        i = i + 1;
    }
    None
}

fn scan_folders(
    roots: &Vec<String>,
    table: &Vec<FolderTitle>,
    fs: &FsView,
    Ghost(sroots): Ghost<Seq<Seq<char>>>,
    Ghost(stable): Ghost<Seq<(Seq<char>, Seq<char>, Seq<char>)>>,
) -> (r: Vec<Evidence>)
    requires
        sroots.len() == roots@.len(),
        forall|i: int| 0 <= i < sroots.len() ==> (#[trigger] roots@[i])@ == sroots[i],
        stable.len() == table@.len(),
        forall|i: int| 0 <= i < stable.len() ==> #[trigger] table@[i].folder@ == stable[i].0,
        forall|i: int| 0 <= i < stable.len() ==> #[trigger] table@[i].name@ == stable[i].1,
        forall|i: int| 0 <= i < stable.len() ==> #[trigger] table@[i].exe@ == stable[i].2,
    ensures
        matches_facts(r@, folder_probe_spec(fs.dirs@, fs.files@, stable, sroots)),
{
    let mut r: Vec<Evidence> = Vec::new();
    let nr = roots.len();
    let mut k: usize = 0;
    while k < nr
        invariant
            k <= nr,
            nr == roots@.len(),
            sroots.len() == roots@.len(),
            forall|i: int| 0 <= i < sroots.len() ==> (#[trigger] roots@[i])@ == sroots[i],
            stable.len() == table@.len(),
            forall|i: int| 0 <= i < stable.len() ==> #[trigger] table@[i].folder@ == stable[i].0,
            forall|i: int| 0 <= i < stable.len() ==> #[trigger] table@[i].name@ == stable[i].1,
            forall|i: int| 0 <= i < stable.len() ==> #[trigger] table@[i].exe@ == stable[i].2,
            matches_facts(r@, folder_roots_upto(fs.dirs@, fs.files@, stable, sroots, k as int)),
        decreases nr - k,
    {
        let root = &roots[k];
        match find_listing(&fs.dirs, root) {
            Some(entries) => {
                let ne = entries.len();
                let mut j: usize = 0;
                proof {
                    assert(folder_roots_upto(fs.dirs@, fs.files@, stable, sroots, k as int)
                        + folder_entries_upto(fs.files@, stable, sroots[k as int], entries@, 0)
                        =~= folder_roots_upto(fs.dirs@, fs.files@, stable, sroots, k as int));
                }
                while j < ne
                    invariant
                        j <= ne,
                        k < nr,
                        nr == roots@.len(),
                        ne == entries@.len(),
                        root == &roots@[k as int],
                        listing_of(fs.dirs@, root@) == Some(entries@),
                        sroots.len() == roots@.len(),
                        forall|i: int| 0 <= i < sroots.len() ==> (#[trigger] roots@[i])@ == sroots[i],
                        stable.len() == table@.len(),
                        forall|i: int|
                            0 <= i < stable.len() ==> #[trigger] table@[i].folder@ == stable[i].0,
                        forall|i: int|
                            0 <= i < stable.len() ==> #[trigger] table@[i].name@ == stable[i].1,
                        forall|i: int|
                            0 <= i < stable.len() ==> #[trigger] table@[i].exe@ == stable[i].2,
                        matches_facts(
                            r@,
                            folder_roots_upto(fs.dirs@, fs.files@, stable, sroots, k as int)
                                + folder_entries_upto(
                                fs.files@,
                                stable,
                                sroots[k as int],
                                entries@,
                                j as int,
                            ),
                        ),
                    decreases ne - j,
                {
                    let ghost prefix = folder_roots_upto(
                        fs.dirs@,
                        fs.files@,
                        stable,
                        sroots,
                        k as int,
                    ) + folder_entries_upto(fs.files@, stable, sroots[k as int], entries@, j as int);
                    let ghost hit = folder_hit(
                        fs.files@,
                        stable,
                        sroots[k as int],
                        entries@[j as int]@,
                    );
                    let entry = &entries[j];
                    match find_table_row(table, entry, Ghost(stable)) {
                        Some(row) => {
                            let folder_path = join_path(root.as_str(), entry.as_str());
                            let full = join_path(folder_path.as_str(), row.exe.as_str());
                            if file_known(&fs.files, &full) {
                                let e = Evidence { name: row.name.clone(), path: full };
                                proof {
                                    lemma_matches_push(r@, prefix, e, e@);
                                    assert(hit =~= seq![e@]);
                                    assert(prefix.push(e@) =~= prefix + hit);
                                }
                                r.push(e);
                            } else {
                                proof {
                                    assert(prefix + hit =~= prefix);
                                }
                            }
                        },
                        None => {
                            proof {
                                assert(prefix + hit =~= prefix);
                            }
                        },
                    }
                    proof {
                        assert(prefix + hit =~= folder_roots_upto(
                            fs.dirs@,
                            fs.files@,
                            stable,
                            sroots,
                            k as int,
                        ) + folder_entries_upto(
                            fs.files@,
                            stable,
                            sroots[k as int],
                            entries@,
                            j + 1,
                        ));
                    }
                    j = j + 1;
                }
            },
            None => {},
        }
        k = k + 1;
    }
    r
}

/// The candidate installation roots of the Steam-like platform.
pub open spec fn steam_roots_spec() -> Seq<Seq<char>> {
    seq![
        "C:\\Program Files (x86)\\Steam\\steamapps\\common"@,
        "C:\\Program Files\\Steam\\steamapps\\common"@,
        "D:\\Steam\\steamapps\\common"@,
        "D:\\SteamLibrary\\steamapps\\common"@,
        "E:\\Steam\\steamapps\\common"@,
        "E:\\SteamLibrary\\steamapps\\common"@,
    ]
}

/// The Steam folder table: install folder name, canonical display name, and
/// the expected executable inside the folder.
pub open spec fn steam_table_spec() -> Seq<(Seq<char>, Seq<char>, Seq<char>)> {
    seq![
        ("Counter-Strike Global Offensive"@, "Counter-Strike 2"@, "cs2.exe"@),
        ("Counter-Strike 2"@, "Counter-Strike 2"@, "cs2.exe"@),
        ("Apex Legends"@, "Apex Legends"@, "r5apex.exe"@),
        ("dota 2 beta"@, "Dota 2"@, "dota2.exe"@),
        ("PUBG"@, "PUBG"@, "TslGame.exe"@),
        ("Grand Theft Auto V"@, "GTA V"@, "GTA5.exe"@),
    ]
}

/// The candidate installation roots of the Riot-like platform.
pub open spec fn riot_roots_spec() -> Seq<Seq<char>> {
    seq!["C:\\Riot Games"@, "D:\\Riot Games"@]
}

/// The fixed-layout titles of the Riot-like platform.
pub open spec fn riot_titles_spec() -> Seq<(Seq<char>, Seq<char>)> {
    seq![
        ("Valorant"@, "VALORANT\\live\\VALORANT.exe"@),
        ("League of Legends"@, "League of Legends\\LeagueClient.exe"@),
    ]
}

/// The candidate installation roots of the Epic-like platform.
pub open spec fn epic_roots_spec() -> Seq<Seq<char>> {
    seq!["C:\\Program Files\\Epic Games"@, "D:\\Epic Games"@]
}

/// The fixed-layout titles of the Epic-like platform.
pub open spec fn epic_titles_spec() -> Seq<(Seq<char>, Seq<char>)> {
    seq![
        ("Fortnite"@, "Fortnite\\FortniteGame\\Binaries\\Win64\\FortniteClient-Win64-Shipping.exe"@),
        ("Rocket League"@, "rocketleague\\Binaries\\Win64\\RocketLeague.exe"@),
    ]
}

/// The candidate installation roots of the Blizzard-like platform.
pub open spec fn blizzard_roots_spec() -> Seq<Seq<char>> {
    seq!["C:\\Program Files (x86)\\Overwatch"@, "D:\\Overwatch"@]
}

/// The fixed-layout titles of the Blizzard-like platform.
pub open spec fn blizzard_titles_spec() -> Seq<(Seq<char>, Seq<char>)> {
    seq![("Overwatch 2"@, "_retail_\\Overwatch.exe"@)]
}

fn push_root(v: &mut Vec<String>, s: &str)
    ensures
        final(v)@.len() == old(v)@.len() + 1,
        forall|i: int| 0 <= i < old(v)@.len() ==> (#[trigger] final(v)@[i])@ == old(v)@[i]@,
        final(v)@[old(v)@.len() as int]@ == s@,
{
    v.push(String::from_str(s));
}

/// The Steam-like candidate roots as strings.
pub fn steam_roots() -> (r: Vec<String>)
    ensures
        r@.len() == steam_roots_spec().len(),
        forall|i: int| 0 <= i < r@.len() ==> (#[trigger] r@[i])@ == steam_roots_spec()[i],
{
    let mut r: Vec<String> = Vec::new();
    push_root(&mut r, "C:\\Program Files (x86)\\Steam\\steamapps\\common");
    push_root(&mut r, "C:\\Program Files\\Steam\\steamapps\\common");
    push_root(&mut r, "D:\\Steam\\steamapps\\common");
    push_root(&mut r, "D:\\SteamLibrary\\steamapps\\common");
    push_root(&mut r, "E:\\Steam\\steamapps\\common");
    push_root(&mut r, "E:\\SteamLibrary\\steamapps\\common");
    r
}

/// The Riot-like candidate roots as strings.
pub fn riot_roots() -> (r: Vec<String>)
    ensures
        r@.len() == riot_roots_spec().len(),
        forall|i: int| 0 <= i < r@.len() ==> (#[trigger] r@[i])@ == riot_roots_spec()[i],
{
    let mut r: Vec<String> = Vec::new();
    push_root(&mut r, "C:\\Riot Games");
    push_root(&mut r, "D:\\Riot Games");
    r
}

/// The Epic-like candidate roots as strings.
pub fn epic_roots() -> (r: Vec<String>)
    ensures
        r@.len() == epic_roots_spec().len(),
        forall|i: int| 0 <= i < r@.len() ==> (#[trigger] r@[i])@ == epic_roots_spec()[i],
{
    let mut r: Vec<String> = Vec::new();
    push_root(&mut r, "C:\\Program Files\\Epic Games");
    push_root(&mut r, "D:\\Epic Games");
    r
}

/// The Blizzard-like candidate roots as strings.
pub fn blizzard_roots() -> (r: Vec<String>)
    ensures
        r@.len() == blizzard_roots_spec().len(),
        forall|i: int| 0 <= i < r@.len() ==> (#[trigger] r@[i])@ == blizzard_roots_spec()[i],
{
    let mut r: Vec<String> = Vec::new();
    push_root(&mut r, "C:\\Program Files (x86)\\Overwatch");
    push_root(&mut r, "D:\\Overwatch");
    r
}

fn push_fixed(v: &mut Vec<FixedTitle>, name: &str, rel: &str)
    ensures
        final(v)@.len() == old(v)@.len() + 1,
        forall|i: int| 0 <= i < old(v)@.len() ==> #[trigger] final(v)@[i].name@ == old(v)@[i].name@,
        forall|i: int| 0 <= i < old(v)@.len() ==> #[trigger] final(v)@[i].rel@ == old(v)@[i].rel@,
        final(v)@[old(v)@.len() as int].name@ == name@,
        final(v)@[old(v)@.len() as int].rel@ == rel@,
{
    v.push(FixedTitle { name: String::from_str(name), rel: String::from_str(rel) });
}

/// The Riot-like title table as strings.
pub fn riot_titles() -> (r: Vec<FixedTitle>)
    ensures
        r@.len() == riot_titles_spec().len(),
        forall|i: int| 0 <= i < r@.len() ==> #[trigger] r@[i].name@ == riot_titles_spec()[i].0,
        forall|i: int| 0 <= i < r@.len() ==> #[trigger] r@[i].rel@ == riot_titles_spec()[i].1,
{
    let mut r: Vec<FixedTitle> = Vec::new();
    push_fixed(&mut r, "Valorant", "VALORANT\\live\\VALORANT.exe");
    push_fixed(&mut r, "League of Legends", "League of Legends\\LeagueClient.exe");
    r
}

/// The Epic-like title table as strings.
pub fn epic_titles() -> (r: Vec<FixedTitle>)
    ensures
        r@.len() == epic_titles_spec().len(),
        forall|i: int| 0 <= i < r@.len() ==> #[trigger] r@[i].name@ == epic_titles_spec()[i].0,
        forall|i: int| 0 <= i < r@.len() ==> #[trigger] r@[i].rel@ == epic_titles_spec()[i].1,
{
    let mut r: Vec<FixedTitle> = Vec::new();
    push_fixed(&mut r, "Fortnite",
        "Fortnite\\FortniteGame\\Binaries\\Win64\\FortniteClient-Win64-Shipping.exe");
    push_fixed(&mut r, "Rocket League", "rocketleague\\Binaries\\Win64\\RocketLeague.exe");
    r
}

/// The Blizzard-like title table as strings.
pub fn blizzard_titles() -> (r: Vec<FixedTitle>)
    ensures
        r@.len() == blizzard_titles_spec().len(),
        forall|i: int| 0 <= i < r@.len() ==> #[trigger] r@[i].name@ == blizzard_titles_spec()[i].0,
        forall|i: int| 0 <= i < r@.len() ==> #[trigger] r@[i].rel@ == blizzard_titles_spec()[i].1,
{
    let mut r: Vec<FixedTitle> = Vec::new();
    push_fixed(&mut r, "Overwatch 2", "_retail_\\Overwatch.exe");
    r
}

fn push_folder(v: &mut Vec<FolderTitle>, folder: &str, name: &str, exe: &str)
    ensures
        final(v)@.len() == old(v)@.len() + 1,
        forall|i: int| 0 <= i < old(v)@.len() ==> #[trigger] final(v)@[i].folder@ == old(v)@[i].folder@,
        forall|i: int| 0 <= i < old(v)@.len() ==> #[trigger] final(v)@[i].name@ == old(v)@[i].name@,
        forall|i: int| 0 <= i < old(v)@.len() ==> #[trigger] final(v)@[i].exe@ == old(v)@[i].exe@,
        final(v)@[old(v)@.len() as int].folder@ == folder@,
        final(v)@[old(v)@.len() as int].name@ == name@,
        final(v)@[old(v)@.len() as int].exe@ == exe@,
{
    v.push(
        FolderTitle {
            folder: String::from_str(folder),
            name: String::from_str(name),
            exe: String::from_str(exe),
        },
    );
}

/// The Steam-like folder table as strings.
pub fn steam_table() -> (r: Vec<FolderTitle>)
    ensures
        r@.len() == steam_table_spec().len(),
        forall|i: int| 0 <= i < r@.len() ==> #[trigger] r@[i].folder@ == steam_table_spec()[i].0,
        forall|i: int| 0 <= i < r@.len() ==> #[trigger] r@[i].name@ == steam_table_spec()[i].1,
        forall|i: int| 0 <= i < r@.len() ==> #[trigger] r@[i].exe@ == steam_table_spec()[i].2,
{
    let mut r: Vec<FolderTitle> = Vec::new();
    push_folder(&mut r, "Counter-Strike Global Offensive", "Counter-Strike 2", "cs2.exe");
    push_folder(&mut r, "Counter-Strike 2", "Counter-Strike 2", "cs2.exe");
    push_folder(&mut r, "Apex Legends", "Apex Legends", "r5apex.exe");
    push_folder(&mut r, "dota 2 beta", "Dota 2", "dota2.exe");
    push_folder(&mut r, "PUBG", "PUBG", "TslGame.exe");
    push_folder(&mut r, "Grand Theft Auto V", "GTA V", "GTA5.exe");
    r
}

/// All evidence the Steam-like probe collects from the snapshot.
pub open spec fn steam_probe_spec(fs: FsView) -> Seq<EvidenceFact> {
    folder_probe_spec(fs.dirs@, fs.files@, steam_table_spec(), steam_roots_spec())
}

/// All evidence the Riot-like probe collects from the snapshot.
pub open spec fn riot_probe_spec(fs: FsView) -> Seq<EvidenceFact> {
    fixed_probe_spec(fs.files@, riot_roots_spec(), riot_titles_spec())
}

/// All evidence the Epic-like probe collects from the snapshot.
pub open spec fn epic_probe_spec(fs: FsView) -> Seq<EvidenceFact> {
    fixed_probe_spec(fs.files@, epic_roots_spec(), epic_titles_spec())
}

/// All evidence the Blizzard-like probe collects from the snapshot.
pub open spec fn blizzard_probe_spec(fs: FsView) -> Seq<EvidenceFact> {
    fixed_probe_spec(fs.files@, blizzard_roots_spec(), blizzard_titles_spec())
}

/// Scans the Steam-like roots: every listed install folder that is in the
/// folder table and holds its expected executable yields one evidence item.
pub fn scan_steam_games(fs: &FsView) -> (r: Vec<Evidence>)
    ensures
        matches_facts(r@, steam_probe_spec(*fs)),
{
    let roots = steam_roots();
    let table = steam_table();
    scan_folders(&roots, &table, fs, Ghost(steam_roots_spec()), Ghost(steam_table_spec()))
}

/// Scans the Riot-like roots for their fixed-layout titles.
pub fn scan_riot_games(fs: &FsView) -> (r: Vec<Evidence>)
    ensures
        matches_facts(r@, riot_probe_spec(*fs)),
{
    let roots = riot_roots();
    let titles = riot_titles();
    scan_fixed(&roots, &titles, &fs.files, Ghost(riot_roots_spec()), Ghost(riot_titles_spec()))
}

/// Scans the Epic-like roots for their fixed-layout titles.
pub fn scan_epic_games(fs: &FsView) -> (r: Vec<Evidence>)
    ensures
        matches_facts(r@, epic_probe_spec(*fs)),
{
    let roots = epic_roots();
    let titles = epic_titles();
    scan_fixed(&roots, &titles, &fs.files, Ghost(epic_roots_spec()), Ghost(epic_titles_spec()))
}

/// Scans the Blizzard-like roots for their fixed-layout titles.
pub fn scan_blizzard_games(fs: &FsView) -> (r: Vec<Evidence>)
    ensures
        matches_facts(r@, blizzard_probe_spec(*fs)),
{
    let roots = blizzard_roots();
    let titles = blizzard_titles();
    scan_fixed(
        &roots,
        &titles,
        &fs.files,
        Ghost(blizzard_roots_spec()),
        Ghost(blizzard_titles_spec()),
    )
}

/// The evidence map built from the first `n` facts, each keyed by its
/// normalized name, later facts overwriting earlier ones.
pub open spec fn merged_upto(facts: Seq<EvidenceFact>, n: int) -> Map<Seq<char>, Seq<char>>
    decreases n,
{
    if n <= 0 {
        Map::empty()
    } else {
        merged_upto(facts, n - 1).insert(norm_seq(facts[n - 1].name), facts[n - 1].path)
    }
}

/// All evidence of all probes in the fixed platform order: steam, riot,
/// epic, blizzard.
pub open spec fn all_evidence_spec(fs: FsView) -> Seq<EvidenceFact> {
    steam_probe_spec(fs) + riot_probe_spec(fs) + epic_probe_spec(fs) + blizzard_probe_spec(fs)
}

/// The aggregated evidence map of the snapshot: every probe's evidence
/// merged in platform order, keyed by normalized name, last writer winning.
pub open spec fn aggregate_spec(fs: FsView) -> Map<Seq<char>, Seq<char>> {
    merged_upto(all_evidence_spec(fs), all_evidence_spec(fs).len() as int)
}

proof fn lemma_matches_concat(s1: Seq<Evidence>, f1: Seq<EvidenceFact>, s2: Seq<Evidence>, f2: Seq<
    EvidenceFact,
>)
    requires
        matches_facts(s1, f1),
        matches_facts(s2, f2),
    ensures
        matches_facts(s1 + s2, f1 + f2),
{
    assert(forall|i: int|
        0 <= i < s1.len() + s2.len() ==> #[trigger] (s1 + s2)[i]@ == (f1 + f2)[i]);
}

/// Runs every probe and merges their evidence into one map, keyed by
/// normalized name; on a collision the later platform's path wins.
pub fn aggregate_evidence(fs: &FsView) -> (m: EvidenceMap)
    ensures
        m.wf(),
        m@ == aggregate_spec(*fs),
{
    let mut all = scan_steam_games(fs);
    let mut riot = scan_riot_games(fs);
    let mut epic = scan_epic_games(fs);
    let mut blizzard = scan_blizzard_games(fs);
    let ghost facts = all_evidence_spec(*fs);
    proof {
        lemma_matches_concat(all@, steam_probe_spec(*fs), riot@, riot_probe_spec(*fs));
        lemma_matches_concat(
            all@ + riot@,
            steam_probe_spec(*fs) + riot_probe_spec(*fs),
            epic@,
            epic_probe_spec(*fs),
        );
        lemma_matches_concat(
            all@ + riot@ + epic@,
            steam_probe_spec(*fs) + riot_probe_spec(*fs) + epic_probe_spec(*fs),
            blizzard@,
            blizzard_probe_spec(*fs),
        );
    }
    all.append(&mut riot);
    all.append(&mut epic);
    all.append(&mut blizzard);
    proof {
        assert(matches_facts(all@, facts));
    }
    let n = all.len();
    let mut m = EvidenceMap::new();
    let mut i: usize = 0;
    while i < n
        invariant
            i <= n,
            n == all@.len(),
            matches_facts(all@, facts),
            m.wf(),
            m@ == merged_upto(facts, i as int),
        decreases n - i,
    {
        let key = normalize_name(all[i].name.as_str());
        let path = all[i].path.clone();
        proof {
            assert(all@[i as int]@ == facts[i as int]);
        }
        m.insert(key, path);
        proof {
            assert(m@ =~= merged_upto(facts, i + 1));
        }
        i = i + 1;
    }
    m
}

/// A fixed-layout root under which no expected executable exists — for
/// instance a root directory that does not exist at all — contributes no
/// evidence.
pub proof fn lemma_fixed_root_missing(
    files: Seq<String>,
    root: Seq<char>,
    titles: Seq<(Seq<char>, Seq<char>)>,
    t: int,
)
    requires
        forall|j: int|
            0 <= j < titles.len() ==> !has_file(files, join_spec(root, #[trigger] titles[j].1)),
        0 <= t <= titles.len(),
    ensures
        fixed_titles_upto(files, root, titles, t) =~= Seq::<EvidenceFact>::empty(),
    decreases t,
{
    if t > 0 {
        lemma_fixed_root_missing(files, root, titles, t - 1);
    }
}

/// A subdirectory-enumerating root with no recorded listing — a root
/// directory that does not exist or cannot be read — contributes no
/// evidence.
pub proof fn lemma_folder_root_missing(
    dirs: Seq<DirListing>,
    files: Seq<String>,
    table: Seq<(Seq<char>, Seq<char>, Seq<char>)>,
    root: Seq<char>,
)
    requires
        listing_of(dirs, root) is None,
    ensures
        folder_root_contrib(dirs, files, table, root) =~= Seq::<EvidenceFact>::empty(),
{
}

/// An empty snapshot yields no evidence from any probe.
pub proof fn lemma_probes_empty_snapshot(fs: FsView)
    requires
        fs.dirs@.len() == 0,
        fs.files@.len() == 0,
    ensures
        all_evidence_spec(fs) =~= Seq::<EvidenceFact>::empty(),
        aggregate_spec(fs) =~= Map::<Seq<char>, Seq<char>>::empty(),
{
    lemma_fixed_empty_files(fs.files@, riot_roots_spec(), riot_titles_spec(),
        riot_roots_spec().len() as int);
    lemma_fixed_empty_files(fs.files@, epic_roots_spec(), epic_titles_spec(),
        epic_roots_spec().len() as int);
    lemma_fixed_empty_files(fs.files@, blizzard_roots_spec(), blizzard_titles_spec(),
        blizzard_roots_spec().len() as int);
    lemma_folder_empty_dirs(fs.dirs@, fs.files@, steam_table_spec(), steam_roots_spec(),
        steam_roots_spec().len() as int);
}

/// Every path a sequence of facts names is recorded as existing in `files`.
pub open spec fn all_paths_exist(files: Seq<String>, facts: Seq<EvidenceFact>) -> bool {
    forall|i: int| 0 <= i < facts.len() ==> has_file(files, (#[trigger] facts[i]).path)
}

proof fn lemma_fixed_titles_paths_exist(
    files: Seq<String>,
    root: Seq<char>,
    titles: Seq<(Seq<char>, Seq<char>)>,
    t: int,
)
    ensures
        all_paths_exist(files, fixed_titles_upto(files, root, titles, t)),
    decreases t,
{
    if t > 0 {
        lemma_fixed_titles_paths_exist(files, root, titles, t - 1);
    }
}

proof fn lemma_fixed_paths_exist(
    files: Seq<String>,
    roots: Seq<Seq<char>>,
    titles: Seq<(Seq<char>, Seq<char>)>,
    k: int,
)
    ensures
        all_paths_exist(files, fixed_roots_upto(files, roots, titles, k)),
    decreases k,
{
    if k > 0 {
        lemma_fixed_paths_exist(files, roots, titles, k - 1);
        lemma_fixed_titles_paths_exist(files, roots[k - 1], titles, titles.len() as int);
    }
}

proof fn lemma_folder_entries_paths_exist(
    files: Seq<String>,
    table: Seq<(Seq<char>, Seq<char>, Seq<char>)>,
    root: Seq<char>,
    entries: Seq<String>,
    j: int,
)
    ensures
        all_paths_exist(files, folder_entries_upto(files, table, root, entries, j)),
    decreases j,
{
    if j > 0 {
        lemma_folder_entries_paths_exist(files, table, root, entries, j - 1);
    }
}

proof fn lemma_folder_paths_exist(
    dirs: Seq<DirListing>,
    files: Seq<String>,
    table: Seq<(Seq<char>, Seq<char>, Seq<char>)>,
    roots: Seq<Seq<char>>,
    k: int,
)
    ensures
        all_paths_exist(files, folder_roots_upto(dirs, files, table, roots, k)),
    decreases k,
{
    if k > 0 {
        lemma_folder_paths_exist(dirs, files, table, roots, k - 1);
        match listing_of(dirs, roots[k - 1]) {
            Some(entries) => {
                lemma_folder_entries_paths_exist(
                    files,
                    table,
                    roots[k - 1],
                    entries,
                    entries.len() as int,
                );
            },
            None => {},
        }
    }
}

proof fn lemma_merged_values_exist(files: Seq<String>, facts: Seq<EvidenceFact>, n: int)
    requires
        all_paths_exist(files, facts),
        0 <= n <= facts.len(),
    ensures
        forall|k: Seq<char>|
            #[trigger] merged_upto(facts, n).contains_key(k) ==> has_file(
                files,
                merged_upto(facts, n)[k],
            ),
    decreases n,
{
    if n > 0 {
        lemma_merged_values_exist(files, facts, n - 1);
        assert(has_file(files, facts[n - 1].path));
        assert forall|k: Seq<char>| #[trigger] merged_upto(facts, n).contains_key(k) implies
            has_file(files, merged_upto(facts, n)[k]) by {
            if k != norm_seq(facts[n - 1].name) {
                assert(merged_upto(facts, n - 1).contains_key(k));
            }
        }
    }
}

/// Every path the aggregated evidence map holds was recorded as existing in
/// the snapshot it was built from.
pub proof fn lemma_aggregate_paths_exist(fs: FsView)
    ensures
        forall|k: Seq<char>|
            #[trigger] aggregate_spec(fs).contains_key(k) ==> has_file(
                fs.files@,
                aggregate_spec(fs)[k],
            ),
{
    lemma_folder_paths_exist(fs.dirs@, fs.files@, steam_table_spec(), steam_roots_spec(),
        steam_roots_spec().len() as int);
    lemma_fixed_paths_exist(fs.files@, riot_roots_spec(), riot_titles_spec(),
        riot_roots_spec().len() as int);
    lemma_fixed_paths_exist(fs.files@, epic_roots_spec(), epic_titles_spec(),
        epic_roots_spec().len() as int);
    lemma_fixed_paths_exist(fs.files@, blizzard_roots_spec(), blizzard_titles_spec(),
        blizzard_roots_spec().len() as int);
    assert(all_paths_exist(fs.files@, all_evidence_spec(fs)));
    lemma_merged_values_exist(fs.files@, all_evidence_spec(fs), all_evidence_spec(fs).len() as int);
}

proof fn lemma_fixed_empty_files(
    files: Seq<String>,
    roots: Seq<Seq<char>>,
    titles: Seq<(Seq<char>, Seq<char>)>,
    k: int,
)
    requires
        files.len() == 0,
        0 <= k <= roots.len(),
    ensures
        fixed_roots_upto(files, roots, titles, k) =~= Seq::<EvidenceFact>::empty(),
    decreases k,
{
    if k > 0 {
        lemma_fixed_empty_files(files, roots, titles, k - 1);
        lemma_fixed_root_missing(files, roots[k - 1], titles, titles.len() as int);
    }
}

proof fn lemma_folder_empty_dirs(
    dirs: Seq<DirListing>,
    files: Seq<String>,
    table: Seq<(Seq<char>, Seq<char>, Seq<char>)>,
    roots: Seq<Seq<char>>,
    k: int,
)
    requires
        dirs.len() == 0,
        0 <= k <= roots.len(),
    ensures
        folder_roots_upto(dirs, files, table, roots, k) =~= Seq::<EvidenceFact>::empty(),
    decreases k,
{
    if k > 0 {
        lemma_folder_empty_dirs(dirs, files, table, roots, k - 1);
        lemma_folder_root_missing(dirs, files, table, roots[k - 1]);
    }
}

} // verus!
