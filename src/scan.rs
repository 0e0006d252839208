//! The scanners that look for installations, the probe that validates a
//! candidate directory, and the resolver that merges what they find.

use vstd::prelude::*;
use crate::detect::{deduplicated, dedup_by_normalized_path, DetectedGame, InstallSource};
use crate::text::{contains_seq, contains_str, ends_with_seq, ends_with_str, lower_of, lowercase};
use crate::vdf::{library_roots, library_roots_spec, string_views};

verus! {

/// `base` joined with the relative segment `seg`, using separator `sep`.
pub open spec fn join_spec(base: Seq<char>, seg: Seq<char>, sep: Seq<char>) -> Seq<char> {
    if base.len() == 0 {
        seg
    } else if sep.len() == 1 && base.last() == sep[0] {
        base + seg
    } else {
        base + sep + seg
    }
}

/// Relies on `std::path::MAIN_SEPARATOR_STR`: the platform's path separator.
#[verifier::external_body]
pub(crate) fn main_separator() -> (r: String)
    ensures
        r@ == seq!['\\'] || r@ == seq!['/'],
{
    std::path::MAIN_SEPARATOR_STR.to_string()
}

/// Relies on `std::path::Path::is_file`: whether a regular file exists at the
/// path. What is on disk may change at any time, so nothing is promised.
#[verifier::external_body]
fn file_exists(path: &str) -> bool {
    std::path::Path::new(path).is_file()
}

/// `base` joined with the relative segment `seg`, using separator `sep`.
pub fn join_path(base: &str, seg: &str, sep: &str) -> (r: String)
    ensures
        r@ == join_spec(base@, seg@, sep@),
{
    let n = base.unicode_len();
    if n == 0 {
        return String::from_str(seg);
    }
    let mut out = String::from_str(base);
    if !(sep.unicode_len() == 1 && base.get_char(n - 1) == sep.get_char(0)) {
        out.append(sep);
    }
    out.append(seg);
    out
}

/// Where the game executable lies under an installation root.
pub open spec fn marker_spec(root: Seq<char>, sep: Seq<char>) -> Seq<char> {
    join_spec(join_spec(join_spec(root, "bin"@, sep), "x64"@, sep), "Cyberpunk2077.exe"@, sep)
}

pub fn installation_marker(root: &str, sep: &str) -> (r: String)
    ensures
        r@ == marker_spec(root@, sep@),
{
    let a = join_path(root, "bin", sep);
    let b = join_path(a.as_str(), "x64", sep);
    join_path(b.as_str(), "Cyberpunk2077.exe", sep)
}

/// Whether `path` holds an installation: a regular file at
/// `path/bin/x64/Cyberpunk2077.exe`. Any I/O failure counts as no.
pub fn is_valid_cyberpunk_path(path: &str) -> bool {
    let sep = main_separator();
    let marker = installation_marker(path, sep.as_str());
    file_exists(marker.as_str())
}

/// The paths of `paths` whose entry in `valid` is true, in order.
pub open spec fn selected(paths: Seq<Seq<char>>, valid: Seq<bool>) -> Seq<Seq<char>>
    decreases paths.len(),
{
    if paths.len() == 0 {
        Seq::empty()
    } else {
        let before = selected(paths.drop_last(), valid.subrange(0, paths.len() - 1));
        if valid[paths.len() - 1] {
            before.push(paths.last())
        } else {
            before
        }
    }
}

pub open spec fn game_paths(games: Seq<DetectedGame>) -> Seq<Seq<char>> {
    games.map_values(|g: DetectedGame| g.path@)
}

/// `games` are the paths of `paths` marked valid, each tagged with `source`.
pub open spec fn found_among(
    games: Seq<DetectedGame>,
    paths: Seq<Seq<char>>,
    valid: Seq<bool>,
    source: InstallSource,
) -> bool {
    &&& game_paths(games) == selected(paths, valid)
    &&& forall|k: int| 0 <= k < games.len() ==> #[trigger] games[k].source@ == source.label_spec()
}

/// `games` is what probing `paths` can give, for some outcome of each probe.
pub open spec fn probed_from(games: Seq<DetectedGame>, paths: Seq<Seq<char>>, source: InstallSource) -> bool {
    exists|valid: Seq<bool>| valid.len() == paths.len() && found_among(games, paths, valid, source)
}

/// Turns each path marked valid into a candidate tagged with `source`.
pub fn select_valid(paths: Vec<String>, valid: &Vec<bool>, source: InstallSource) -> (r: Vec<DetectedGame>)
    requires
        paths@.len() == valid@.len(),
    ensures
        found_among(r@, string_views(paths@), valid@, source),
{
    let ghost ps = string_views(paths@);
    let mut out: Vec<DetectedGame> = Vec::new();
    let mut rest = paths;
    let mut i: usize = 0;
    let n = rest.len();
    while i < n
        invariant
            n == ps.len(),
            n == valid@.len(),
            i <= n,
            ps == string_views(paths@),
            rest@ == paths@.subrange(i as int, n as int),
            game_paths(out@) == selected(ps.subrange(0, i as int), valid@.subrange(0, i as int)),
            forall|k: int| 0 <= k < out@.len() ==> #[trigger] out@[k].source@ == source.label_spec(),
        decreases n - i,
    {
        let p = rest.remove(0);
        assert(p@ == ps[i as int]);
        let ghost before = out@;
        assert(ps.subrange(0, i + 1).drop_last() =~= ps.subrange(0, i as int));
        assert(valid@.subrange(0, i + 1).subrange(0, i as int) =~= valid@.subrange(0, i as int));
        if valid[i] {
            out.push(DetectedGame::new(p, source));
            assert(game_paths(out@) =~= game_paths(before).push(ps[i as int]));
        }
        i = i + 1;
    }
    assert(ps.subrange(0, n as int) =~= ps);
    assert(valid@.subrange(0, n as int) =~= valid@);
    out
}

/// Probes each path and keeps those that hold an installation, tagged with
/// `source`, in order.
pub fn probe_installations(paths: Vec<String>, source: InstallSource) -> (r: Vec<DetectedGame>)
    ensures
        probed_from(r@, string_views(paths@), source),
{
    let mut valid: Vec<bool> = Vec::new();
    let mut i: usize = 0;
    while i < paths.len()
        invariant
            i <= paths@.len(),
            valid@.len() == i,
        decreases paths@.len() - i,
    {
        valid.push(is_valid_cyberpunk_path(paths[i].as_str()));
        i = i + 1;
    }
    let ghost vs = valid@;
    let ghost ps = string_views(paths@);
    let r = select_valid(paths, &valid, source);
    assert(vs.len() == ps.len() && found_among(r@, ps, vs, source));
    r
}

/// The conventional install locations that are always probed.
pub open spec fn common_paths() -> Seq<Seq<char>> {
    seq![
        "C:\\Program Files (x86)\\Steam\\steamapps\\common\\Cyberpunk 2077"@,
        "C:\\Program Files\\Steam\\steamapps\\common\\Cyberpunk 2077"@,
        "C:\\GOG Games\\Cyberpunk 2077"@,
        "D:\\SteamLibrary\\steamapps\\common\\Cyberpunk 2077"@,
        "D:\\Games\\Cyberpunk 2077"@,
        "E:\\SteamLibrary\\steamapps\\common\\Cyberpunk 2077"@,
        "E:\\Games\\Cyberpunk 2077"@,
        "G:\\SteamLibrary\\steamapps\\common\\Cyberpunk 2077"@,
    ]
}

pub fn common_install_paths() -> (r: Vec<String>)
    ensures
        string_views(r@) == common_paths(),
{
    let mut v: Vec<String> = Vec::new();
    v.push(String::from_str("C:\\Program Files (x86)\\Steam\\steamapps\\common\\Cyberpunk 2077"));
    v.push(String::from_str("C:\\Program Files\\Steam\\steamapps\\common\\Cyberpunk 2077"));
    v.push(String::from_str("C:\\GOG Games\\Cyberpunk 2077"));
    v.push(String::from_str("D:\\SteamLibrary\\steamapps\\common\\Cyberpunk 2077"));
    v.push(String::from_str("D:\\Games\\Cyberpunk 2077"));
    v.push(String::from_str("E:\\SteamLibrary\\steamapps\\common\\Cyberpunk 2077"));
    v.push(String::from_str("E:\\Games\\Cyberpunk 2077"));
    v.push(String::from_str("G:\\SteamLibrary\\steamapps\\common\\Cyberpunk 2077"));
    assert(string_views(v@) =~= common_paths());
    v
}

/// The candidates among the conventional install locations.
pub fn detect_common_paths() -> (r: Vec<DetectedGame>)
    ensures
        probed_from(r@, common_paths(), InstallSource::CommonPath),
{
    probe_installations(common_install_paths(), InstallSource::CommonPath)
}

/// Merges the candidates of all scanners, in scan order, and deduplicates.
pub fn merge_candidates(found: Vec<DetectedGame>, common: Vec<DetectedGame>) -> (r: Vec<DetectedGame>)
    ensures
        r@ == deduplicated(found@ + common@),
{
    let mut all = found;
    let mut tail = common;
    all.append(&mut tail);
    dedup_by_normalized_path(all)
}

/// All installations: those the platform's scanners found (in their order),
/// then the conventional locations, deduplicated by normalized path.
pub fn detect_game_paths(platform_found: Vec<DetectedGame>) -> (r: Vec<DetectedGame>)
    ensures
        exists|common: Seq<DetectedGame>|
            probed_from(common, common_paths(), InstallSource::CommonPath) && r@ == deduplicated(
                platform_found@ + common,
            ),
{
    let ghost found = platform_found@;
    let common = detect_common_paths();
    let ghost c = common@;
    let r = merge_candidates(platform_found, common);
    assert(probed_from(c, common_paths(), InstallSource::CommonPath) && r@ == deduplicated(found + c));
    r
}

/// A lower-cased display name names the game: it holds both its keyword and
/// its number.
pub open spec fn names_game(lower: Seq<char>) -> bool {
    contains_seq(lower, "cyberpunk"@) && contains_seq(lower, "2077"@)
}

/// Whether an already lower-cased display name names the game.
pub fn folded_title_names_game(lower: &str) -> (r: bool)
    ensures
        r == names_game(lower@),
{
    contains_str(lower, "cyberpunk") && contains_str(lower, "2077")
}

/// Whether a display name names the game, ignoring case.
pub fn is_game_title(name: &str) -> (r: bool)
    ensures
        r == names_game(lower_of(name@)),
{
    let lower = lowercase(name);
    folded_title_names_game(lower.as_str())
}

/// The Steam game directory under a library root (Windows paths).
pub open spec fn steam_game_dir_spec(root: Seq<char>) -> Seq<char> {
    join_spec(
        join_spec(join_spec(root, "steamapps"@, "\\"@), "common"@, "\\"@),
        "Cyberpunk 2077"@,
        "\\"@,
    )
}

pub fn steam_game_dir(root: &str) -> (r: String)
    ensures
        r@ == steam_game_dir_spec(root@),
{
    let a = join_path(root, "steamapps", "\\");
    let b = join_path(a.as_str(), "common", "\\");
    join_path(b.as_str(), "Cyberpunk 2077", "\\")
}

pub open spec fn opt_view(o: Option<&str>) -> Option<Seq<char>> {
    match o {
        Some(s) => Some(s@),
        None => None,
    }
}

/// The game directories to probe for Steam: one under each library root,
/// the primary root first, then those the library manifest lists.
pub fn steam_game_dirs(steam_path: &str, manifest: Option<&str>) -> (r: Vec<String>)
    ensures
        string_views(r@) == library_roots_spec(steam_path@, opt_view(manifest)).map_values(
            |root: Seq<char>| steam_game_dir_spec(root),
        ),
{
    let roots = library_roots(steam_path, manifest);
    let ghost rs = string_views(roots@);
    let mut out: Vec<String> = Vec::new();
    let mut i: usize = 0;
    while i < roots.len()
        invariant
            i <= roots@.len(),
            rs == string_views(roots@),
            out@.len() == i,
            forall|k: int| 0 <= k < i ==> #[trigger] out@[k]@ == steam_game_dir_spec(rs[k]),
        decreases roots@.len() - i,
    {
        out.push(steam_game_dir(roots[i].as_str()));
        i = i + 1;
    }
    assert(string_views(out@) =~= rs.map_values(|root: Seq<char>| steam_game_dir_spec(root)));
    out
}

/// The Steam candidates, given the primary library root read from the
/// registry and the text of its library manifest, if it could be read.
pub fn detect_steam(steam_path: &str, manifest: Option<&str>) -> (r: Vec<DetectedGame>)
    ensures
        probed_from(
            r@,
            library_roots_spec(steam_path@, opt_view(manifest)).map_values(
                |root: Seq<char>| steam_game_dir_spec(root),
            ),
            InstallSource::Steam,
        ),
{
    probe_installations(steam_game_dirs(steam_path, manifest), InstallSource::Steam)
}

/// One entry of an uninstall registry location.
pub struct UninstallEntry {
    pub display_name: String,
    pub install_location: Option<String>,
}

/// The install location that an uninstall entry offers, when it names the
/// game and has one.
pub open spec fn entry_location(e: UninstallEntry) -> Option<Seq<char>> {
    if names_game(lower_of(e.display_name@)) && e.install_location.is_some() {
        Some(e.install_location.unwrap()@)
    } else {
        None
    }
}

/// The present values of a sequence of options, in order.
pub open spec fn somes(s: Seq<Option<Seq<char>>>) -> Seq<Seq<char>>
    decreases s.len(),
{
    if s.len() == 0 {
        Seq::empty()
    } else {
        match s.last() {
            Some(v) => somes(s.drop_last()).push(v),
            None => somes(s.drop_last()),
        }
    }
}

pub open spec fn gog_locations(entries: Seq<UninstallEntry>) -> Seq<Seq<char>> {
    somes(entries.map_values(|e: UninstallEntry| entry_location(e)))
}

/// The install locations to probe among uninstall entries, in order.
pub fn gog_install_locations(entries: &Vec<UninstallEntry>) -> (r: Vec<String>)
    ensures
        string_views(r@) == gog_locations(entries@),
{
    let ghost opts = entries@.map_values(|e: UninstallEntry| entry_location(e));
    let mut out: Vec<String> = Vec::new();
    let mut i: usize = 0;
    while i < entries.len()
        invariant
            i <= entries@.len(),
            opts == entries@.map_values(|e: UninstallEntry| entry_location(e)),
            string_views(out@) == somes(opts.subrange(0, i as int)),
        decreases entries@.len() - i,
    {
        let e = &entries[i];
        assert(opts.subrange(0, i + 1).drop_last() =~= opts.subrange(0, i as int));
        assert(opts[i as int] == entry_location(*e));
        let ghost before = string_views(out@);
        if is_game_title(e.display_name.as_str()) {
            match &e.install_location {
                Some(loc) => {
                    out.push(loc.clone());
                    assert(string_views(out@) =~= before.push(loc@));
                },
                None => {},
            }
        }
        i = i + 1;
    }
    assert(opts.subrange(0, i as int) =~= opts);
    out
}

/// The candidates among uninstall registry entries.
pub fn detect_gog(entries: &Vec<UninstallEntry>) -> (r: Vec<DetectedGame>)
    ensures
        probed_from(r@, gog_locations(entries@), InstallSource::Gog),
{
    probe_installations(gog_install_locations(entries), InstallSource::Gog)
}

/// The string value of a top-level field of a JSON document: `None` where the
/// text is not JSON, or the field is missing or not a string.
pub uninterp spec fn json_field_of(text: Seq<char>, key: Seq<char>) -> Option<Seq<char>>;

/// Relies on `serde_json::from_str` into a `serde_json::Value`, then
/// `Value::get` and `Value::as_str`: a top-level string field of a JSON text.
#[verifier::external_body]
fn json_string_field(text: &str, key: &str) -> (r: Option<String>)
    ensures
        r.is_some() == json_field_of(text@, key@).is_some(),
        r.is_some() ==> r.unwrap()@ == json_field_of(text@, key@).unwrap(),
{
    serde_json::from_str::<serde_json::Value>(text)
        .ok()
        .and_then(|v| v.get(key).and_then(|f| f.as_str()).map(|f| f.to_string()))
}

/// The install location that a launcher manifest offers: its
/// `InstallLocation`, when it has a `DisplayName` that names the game.
pub open spec fn manifest_location(text: Seq<char>) -> Option<Seq<char>> {
    match json_field_of(text, "DisplayName"@) {
        Some(name) => if names_game(lower_of(name)) {
            json_field_of(text, "InstallLocation"@)
        } else {
            None
        },
        None => None,
    }
}

pub fn manifest_install_location(text: &str) -> (r: Option<String>)
    ensures
        r.is_some() == manifest_location(text@).is_some(),
        r.is_some() ==> r.unwrap()@ == manifest_location(text@).unwrap(),
{
    let name = match json_string_field(text, "DisplayName") {
        Some(n) => n,
        None => {
            return None;
        },
    };
    if is_game_title(name.as_str()) {
        json_string_field(text, "InstallLocation")
    } else {
        None
    }
}

/// Whether a file name has the extension of a launcher manifest: `.item`
/// after a non-empty stem.
pub open spec fn is_manifest_name(name: Seq<char>) -> bool {
    name.len() > 5 && ends_with_seq(name, ".item"@)
}

pub fn is_manifest_file_name(name: &str) -> (r: bool)
    ensures
        r == is_manifest_name(name@),
{
    name.unicode_len() > 5 && ends_with_str(name, ".item")
}

pub open spec fn epic_locations(manifests: Seq<Seq<char>>) -> Seq<Seq<char>> {
    somes(manifests.map_values(|m: Seq<char>| manifest_location(m)))
}

/// The install locations to probe among the texts of launcher manifests, in
/// order; a text that is not valid JSON contributes nothing.
pub fn epic_install_locations(manifests: &Vec<String>) -> (r: Vec<String>)
    ensures
        string_views(r@) == epic_locations(string_views(manifests@)),
{
    let ghost opts = string_views(manifests@).map_values(|m: Seq<char>| manifest_location(m));
    let mut out: Vec<String> = Vec::new();
    let mut i: usize = 0;
    while i < manifests.len()
        invariant
            i <= manifests@.len(),
            opts == string_views(manifests@).map_values(|m: Seq<char>| manifest_location(m)),
            string_views(out@) == somes(opts.subrange(0, i as int)),
        decreases manifests@.len() - i,
    {
        assert(opts.subrange(0, i + 1).drop_last() =~= opts.subrange(0, i as int));
        assert(opts[i as int] == manifest_location(manifests@[i as int]@));
        let ghost before = string_views(out@);
        match manifest_install_location(manifests[i].as_str()) {
            Some(loc) => {
                out.push(loc);
                assert(string_views(out@) =~= before.push(opts[i as int].unwrap()));
            },
            None => {},
        }
        i = i + 1;
    }
    assert(opts.subrange(0, i as int) =~= opts);
    out
}

/// The candidates among the texts of launcher manifests.
pub fn detect_epic(manifests: &Vec<String>) -> (r: Vec<DetectedGame>)
    ensures
        probed_from(r@, epic_locations(string_views(manifests@)), InstallSource::Epic),
{
    probe_installations(epic_install_locations(manifests), InstallSource::Epic)
}

proof fn lemma_somes_concat(a: Seq<Option<Seq<char>>>, b: Seq<Option<Seq<char>>>)
    ensures
        somes(a + b) == somes(a) + somes(b),
    decreases b.len(),
{
    if b.len() == 0 {
        assert(a + b =~= a);
        assert(somes(a) + somes(b) =~= somes(a));
    } else {
        assert((a + b).drop_last() =~= a + b.drop_last());
        lemma_somes_concat(a, b.drop_last());
        match b.last() {
            Some(v) => {
                assert(somes(a) + somes(b) =~= (somes(a) + somes(b.drop_last())).push(v));
            },
            None => {},
        }
    }
}

/// A manifest that is not JSON (or has no string `DisplayName`) does not
/// change what the other manifests contribute.
pub proof fn lemma_unreadable_manifest_ignored(
    before: Seq<Seq<char>>,
    bad: Seq<char>,
    after: Seq<Seq<char>>,
)
    requires
        json_field_of(bad, "DisplayName"@) is None,
    ensures
        epic_locations(before + seq![bad] + after) == epic_locations(before + after),
{
    let ob = before.map_values(|m: Seq<char>| manifest_location(m));
    let oa = after.map_values(|m: Seq<char>| manifest_location(m));
    let none = seq![None::<Seq<char>>];
    assert(manifest_location(bad) is None);
    assert((before + seq![bad] + after).map_values(|m: Seq<char>| manifest_location(m)) =~= ob
        + none + oa);
    assert((before + after).map_values(|m: Seq<char>| manifest_location(m)) =~= ob + oa);
    assert(none.drop_last() =~= Seq::<Option<Seq<char>>>::empty());
    assert(none.last() is None);
    assert(somes(none) == somes(none.drop_last()));
    assert(somes(Seq::<Option<Seq<char>>>::empty()) =~= Seq::<Seq<char>>::empty());
    assert(somes(none) =~= Seq::<Seq<char>>::empty());
    lemma_somes_concat(ob + none, oa);
    lemma_somes_concat(ob, none);
    lemma_somes_concat(ob, oa);
    assert(somes(ob) + somes(none) =~= somes(ob));
}

} // verus!
