//! The reconciler: joins catalog entries against aggregated evidence by
//! normalized display name, marking matched entries installed and deriving
//! their install directory from the discovered executable path.

use vstd::prelude::*;
use crate::catalog::{catalog_spec, get_known_games};
use crate::evidence::EvidenceMap;
use crate::game::{view_opt, GameInfo, GameRec};
use crate::probes::{
    aggregate_evidence, aggregate_spec, has_file, lemma_aggregate_paths_exist, FsView,
};
use crate::text::{norm_seq, normalize_name, parent_dir, parent_of};

verus! {

/// One catalog record joined against the evidence: on a hit the record is
/// marked installed, carries the discovered executable path, and its install
/// directory is the parent of that path (absent when the path has no
/// parent); on a miss the record is unchanged.
pub open spec fn reconcile_one(g: GameRec, m: Map<Seq<char>, Seq<char>>) -> GameRec {
    let key = norm_seq(g.name);
    if m.contains_key(key) {
        GameRec {
            id: g.id,
            name: g.name,
            category: g.category,
            executable_path: Some(m[key]),
            install_path: parent_of(m[key]),
            is_installed: true,
            platform: g.platform,
            image_url: g.image_url,
        }
    } else {
        g
    }
}

/// `r` is the reconciliation of catalog `c` against evidence `m`: the same
/// entries in the same order, each joined on its own normalized name.
pub open spec fn reconciled(c: Seq<GameRec>, m: Map<Seq<char>, Seq<char>>, r: Seq<GameRec>) -> bool {
    r.len() == c.len() && forall|i: int| 0 <= i < c.len() ==> r[i] == reconcile_one(c[i], m)
}

/// Joins every catalog entry against the evidence map, preserving catalog
/// order; entries whose normalized name has no evidence come back unchanged.
pub fn reconcile(catalog: &Vec<GameInfo>, evidence: &EvidenceMap) -> (r: Vec<GameInfo>)
    requires
        evidence.wf(),
    ensures
        r@.len() == catalog@.len(),
        forall|i: int|
            0 <= i < r@.len() ==> #[trigger] r@[i]@ == reconcile_one(catalog@[i]@, evidence@),
{
    let n = catalog.len();
    let mut r: Vec<GameInfo> = Vec::new();
    let mut i: usize = 0;
    while i < n
        invariant
            i <= n,
            n == catalog@.len(),
            evidence.wf(),
            r@.len() == i,
            forall|j: int|
                0 <= j < i ==> #[trigger] r@[j]@ == reconcile_one(catalog@[j]@, evidence@),
        decreases n - i,
    {
        let g = &catalog[i];
        let key = normalize_name(g.name.as_str());
        match evidence.get(&key) {
            Some(p) => {
                let exe = p.clone();
                let install = parent_dir(exe.as_str());
                proof {
                    assert(view_opt(install) == parent_of(exe@));
                }
                r.push(
                    GameInfo {
                        id: g.id.clone(),
                        name: g.name.clone(),
                        category: g.category.clone(),
                        executable_path: Some(exe),
                        install_path: install,
                        is_installed: true,
                        platform: g.platform.clone(),
                        image_url: g.image_url.clone(),
                    },
                );
            },
            None => {
                r.push(g.duplicate());
            },
        }
        i = i + 1;
    }
    r
}

/// Builds the catalog, runs every probe over the snapshot, and reconciles
/// the catalog against the aggregated evidence: the full discovery pass.
pub fn scan_installed_games(fs: &FsView) -> (r: Vec<GameInfo>)
    ensures
        r@.len() == catalog_spec().len(),
        forall|i: int|
            0 <= i < r@.len() ==> #[trigger] r@[i]@ == reconcile_one(
                catalog_spec()[i],
                aggregate_spec(*fs),
            ),
{
    let games = get_known_games();
    let evidence = aggregate_evidence(fs);
    reconcile(&games, &evidence)
}

/// Reconciliation is deterministic: two reconciliations of the same catalog
/// against the same evidence are the same sequence.
pub proof fn lemma_reconcile_deterministic(
    c: Seq<GameRec>,
    m: Map<Seq<char>, Seq<char>>,
    r1: Seq<GameRec>,
    r2: Seq<GameRec>,
)
    requires
        reconciled(c, m, r1),
        reconciled(c, m, r2),
    ensures
        r1 == r2,
{
    assert(r1 =~= r2);
}

/// Against empty evidence, reconciliation returns the catalog unchanged.
pub proof fn lemma_reconcile_empty(c: Seq<GameRec>, m: Map<Seq<char>, Seq<char>>, r: Seq<GameRec>)
    requires
        reconciled(c, m, r),
        m =~= Map::<Seq<char>, Seq<char>>::empty(),
    ensures
        r == c,
{
    assert(r =~= c);
}

/// A reconciliation of a catalog of uninstalled entries marks an entry
/// installed only together with an executable path: whoever is installed
/// has one.
pub proof fn lemma_installed_entries_have_paths(
    c: Seq<GameRec>,
    m: Map<Seq<char>, Seq<char>>,
    r: Seq<GameRec>,
)
    requires
        reconciled(c, m, r),
        forall|i: int| 0 <= i < c.len() ==> !(#[trigger] c[i]).is_installed,
    ensures
        forall|i: int|
            0 <= i < r.len() ==> (#[trigger] r[i]).is_installed ==> r[i].executable_path is Some,
{
}

/// A discovery pass marks an entry installed only with an executable path
/// that the snapshot recorded as existing at scan time.
pub proof fn lemma_discovered_paths_existed(fs: FsView, r: Seq<GameRec>)
    requires
        reconciled(catalog_spec(), aggregate_spec(fs), r),
    ensures
        forall|i: int|
            0 <= i < r.len() ==> (#[trigger] r[i]).is_installed ==> r[i].executable_path is Some
                && has_file(fs.files@, r[i].executable_path.unwrap()),
{
    assert(forall|i: int|
        0 <= i < catalog_spec().len() ==> !(#[trigger] catalog_spec()[i]).is_installed);
    lemma_aggregate_paths_exist(fs);
}

/// Evidence whose normalized name matches no catalog entry is silently
/// dropped: removing it from the map leaves the reconciliation untouched,
/// and no output entry is added for it.
pub proof fn lemma_unmatched_evidence_ignored(
    c: Seq<GameRec>,
    m: Map<Seq<char>, Seq<char>>,
    k: Seq<char>,
    r: Seq<GameRec>,
)
    requires
        reconciled(c, m, r),
        forall|i: int| 0 <= i < c.len() ==> norm_seq(#[trigger] c[i].name) != k,
    ensures
        reconciled(c, m.remove(k), r),
        r.len() == c.len(),
{
    assert forall|i: int| 0 <= i < c.len() implies r[i] == reconcile_one(c[i], m.remove(k)) by {
        assert(norm_seq(c[i].name) != k);
    }
}

} // verus!
