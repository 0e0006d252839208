//! Detected installations: where they come from, how candidates found by the
//! scanners are merged, and which of them survive deduplication.

use vstd::prelude::*;
use crate::text::{backslashed, lower_of, lowercase, to_backslashes};

verus! {

/// One installation found on this machine.
#[derive(Clone, Debug)]
pub struct DetectedGame {
    pub path: String,
    pub source: String,
}

/// The discovery mechanism that found an installation.
#[derive(Clone, Copy, Debug, PartialEq, Eq, Structural)]
pub enum InstallSource {
    Steam,
    Gog,
    Epic,
    CommonPath,
}

impl InstallSource {
    pub open spec fn label_spec(self) -> Seq<char> {
        match self {
            InstallSource::Steam => "Steam"@,
            InstallSource::Gog => "GOG"@,
            InstallSource::Epic => "Epic"@,
            InstallSource::CommonPath => "Common Path"@,
        }
    }

    /// The name under which a candidate from this source is reported.
    pub fn label(&self) -> (r: String)
        ensures
            r@ == self.label_spec(),
    {
        match self {
            InstallSource::Steam => String::from_str("Steam"),
            InstallSource::Gog => String::from_str("GOG"),
            InstallSource::Epic => String::from_str("Epic"),
            InstallSource::CommonPath => String::from_str("Common Path"),
        }
    }
}

impl DetectedGame {
    pub fn new(path: String, source: InstallSource) -> (r: DetectedGame)
        ensures
            r.path == path,
            r.source@ == source.label_spec(),
    {
        DetectedGame { path, source: source.label() }
    }

    fn duplicate(&self) -> (r: DetectedGame)
        ensures
            r == *self,
    {
        DetectedGame { path: self.path.clone(), source: self.source.clone() }
    }
}

/// The form of a path that deduplication compares: forward slashes turned
/// into backslashes, then lower-cased.
pub open spec fn dedup_key(path: Seq<char>) -> Seq<char> {
    lower_of(backslashed(path))
}

pub open spec fn game_key(g: DetectedGame) -> Seq<char> {
    dedup_key(g.path@)
}

pub open spec fn game_keys(games: Seq<DetectedGame>) -> Seq<Seq<char>> {
    games.map_values(|g: DetectedGame| game_key(g))
}

/// No earlier position holds the same key as position `i`.
pub open spec fn is_first(keys: Seq<Seq<char>>, i: int) -> bool {
    forall|j: int| 0 <= j < i ==> keys[j] != keys[i]
}

/// The positions below `n` whose key occurs there for the first time, in
/// increasing order.
pub open spec fn first_positions(keys: Seq<Seq<char>>, n: nat) -> Seq<int>
    decreases n,
{
    if n == 0 {
        Seq::empty()
    } else {
        let before = first_positions(keys, (n - 1) as nat);
        if is_first(keys, n - 1) {
            before.push(n - 1)
        } else {
            before
        }
    }
}

/// The items whose key has not been seen before them, in their order.
pub open spec fn kept<T>(items: Seq<T>, keys: Seq<Seq<char>>) -> Seq<T> {
    first_positions(keys, items.len()).map_values(|i: int| items[i])
}

/// What deduplication leaves of a list of candidates.
pub open spec fn deduplicated(games: Seq<DetectedGame>) -> Seq<DetectedGame> {
    kept(games, game_keys(games))
}

/// The comparison form of a path (see `dedup_key`).
pub fn normalized_path(path: &str) -> (r: String)
    ensures
        r@ == dedup_key(path@),
{
    let b = to_backslashes(path);
    lowercase(b.as_str())
}

/// Keeps each game whose key (the entry of `keys` at the same position) has
/// not occurred before it; the first occurrence wins.
pub fn dedup_by_keys(games: Vec<DetectedGame>, keys: &Vec<String>) -> (r: Vec<DetectedGame>)
    requires
        games@.len() == keys@.len(),
    ensures
        r@ == kept(games@, keys@.map_values(|k: String| k@)),
{
    let ghost ks = keys@.map_values(|k: String| k@);
    let mut out: Vec<DetectedGame> = Vec::new();
    let mut i: usize = 0;
    while i < games.len()
        invariant
            games@.len() == keys@.len(),
            ks == keys@.map_values(|k: String| k@),
            i <= games@.len(),
            out@ == first_positions(ks, i as nat).map_values(|p: int| games@[p]),
        decreases games@.len() - i,
    {
        let mut seen = false;
        let mut j: usize = 0;
        while j < i
            invariant
                i < keys@.len(),
                ks == keys@.map_values(|k: String| k@),
                j <= i,
                seen <==> exists|m: int| 0 <= m < j && ks[m] == ks[i as int],
            decreases i - j,
        {
            assert(ks[j as int] == keys@[j as int]@ && ks[i as int] == keys@[i as int]@);
            if keys[j] == keys[i] {
                seen = true;
            }
            j = j + 1;
        }
        assert(seen <==> !is_first(ks, i as int)) by {
            if !is_first(ks, i as int) {
                let m = choose|m: int| 0 <= m < i && ks[m] == ks[i as int];
                assert(0 <= m < j && ks[m] == ks[i as int]);
            }
        }
        let ghost before = first_positions(ks, i as nat);
        if !seen {
            out.push(games[i].duplicate());
            assert(first_positions(ks, (i + 1) as nat) == before.push(i as int));
            assert(out@ =~= before.push(i as int).map_values(|p: int| games@[p]));
        } else {
            assert(first_positions(ks, (i + 1) as nat) == before);
        }
        i = i + 1;
    }
    out
}

/// Drops each candidate whose normalized path (see `dedup_key`) was already
/// seen earlier in the list; the first occurrence wins, whatever its source.
pub fn dedup_by_normalized_path(games: Vec<DetectedGame>) -> (r: Vec<DetectedGame>)
    ensures
        r@ == deduplicated(games@),
{
    let mut keys: Vec<String> = Vec::new();
    let mut i: usize = 0;
    while i < games.len()
        invariant
            i <= games@.len(),
            keys@.len() == i,
            forall|k: int| 0 <= k < i ==> #[trigger] keys@[k]@ == game_key(games@[k]),
        decreases games@.len() - i,
    {
        keys.push(normalized_path(games[i].path.as_str()));
        i = i + 1;
    }
    assert(keys@.map_values(|k: String| k@) =~= game_keys(games@));
    dedup_by_keys(games, &keys)
}

proof fn lemma_first_positions(keys: Seq<Seq<char>>, n: nat)
    requires
        n <= keys.len(),
    ensures
        forall|k: int|
            0 <= k < first_positions(keys, n).len() ==> 0 <= #[trigger] first_positions(keys, n)[k]
                < n && is_first(keys, first_positions(keys, n)[k]),
        forall|a: int, b: int|
            0 <= a < b < first_positions(keys, n).len() ==> first_positions(keys, n)[a]
                < first_positions(keys, n)[b],
        forall|i: int|
            0 <= i < n && is_first(keys, i) ==> exists|k: int|
                0 <= k < first_positions(keys, n).len() && first_positions(keys, n)[k] == i,
    decreases n,
{
    if n > 0 {
        lemma_first_positions(keys, (n - 1) as nat);
        let before = first_positions(keys, (n - 1) as nat);
        if is_first(keys, n - 1) {
            assert(first_positions(keys, n)[before.len() as int] == n - 1);
        }
        assert forall|i: int| 0 <= i < n && is_first(keys, i) implies exists|k: int|
            0 <= k < first_positions(keys, n).len() && first_positions(keys, n)[k] == i by {
            if i < n - 1 {
                let k = choose|k: int| 0 <= k < before.len() && before[k] == i;
                assert(first_positions(keys, n)[k] == i);
            } else {
                assert(first_positions(keys, n)[before.len() as int] == i);
            }
        }
    }
}

/// After deduplication no two candidates share a normalized path.
pub proof fn lemma_dedup_keys_distinct(games: Seq<DetectedGame>)
    ensures
        forall|a: int, b: int|
            0 <= a < b < deduplicated(games).len() ==> game_key(deduplicated(games)[a])
                != game_key(deduplicated(games)[b]),
{
    let ks = game_keys(games);
    let fp = first_positions(ks, games.len());
    lemma_first_positions(ks, games.len());
    assert forall|a: int, b: int| 0 <= a < b < deduplicated(games).len() implies game_key(
        deduplicated(games)[a],
    ) != game_key(deduplicated(games)[b]) by {
        assert(fp[a] < fp[b]);
        assert(is_first(ks, fp[b]));
        assert(ks[fp[a]] != ks[fp[b]]);
    }
}

/// Of all candidates sharing a normalized path, deduplication keeps exactly
/// the first one met in scan order: it is present, and any kept candidate
/// with that normalized path is that one.
pub proof fn lemma_dedup_keeps_first(games: Seq<DetectedGame>, i: int)
    requires
        0 <= i < games.len(),
        is_first(game_keys(games), i),
    ensures
        exists|k: int| 0 <= k < deduplicated(games).len() && deduplicated(games)[k] == games[i],
        forall|k: int|
            0 <= k < deduplicated(games).len() && game_key(deduplicated(games)[k]) == game_key(
                games[i],
            ) ==> deduplicated(games)[k] == games[i],
{
    let ks = game_keys(games);
    let fp = first_positions(ks, games.len());
    lemma_first_positions(ks, games.len());
    let k0 = choose|k: int| 0 <= k < fp.len() && fp[k] == i;
    assert(deduplicated(games)[k0] == games[i]);
    assert forall|k: int|
        0 <= k < deduplicated(games).len() && game_key(deduplicated(games)[k]) == game_key(
            games[i],
        ) implies deduplicated(games)[k] == games[i] by {
        let p = fp[k];
        assert(is_first(ks, p));
        assert(ks[p] == ks[i]);
        if p < i {
            assert(ks[p] != ks[i]);
        } else if p > i {
            assert(ks[i] != ks[p]);
        }
    }
}

} // verus!
