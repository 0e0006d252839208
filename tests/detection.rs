use ripper_launcher::detect::{dedup_by_keys, dedup_by_normalized_path, normalized_path, DetectedGame, InstallSource};
use ripper_launcher::scan::{
    detect_common_paths, detect_epic, detect_game_paths, detect_gog, detect_steam,
    epic_install_locations, folded_title_names_game, gog_install_locations, installation_marker,
    is_game_title, is_manifest_file_name, is_valid_cyberpunk_path, join_path,
    manifest_install_location, merge_candidates, steam_game_dir, steam_game_dirs, UninstallEntry,
    common_install_paths,
};

fn game(path: &str, source: InstallSource) -> DetectedGame {
    DetectedGame::new(path.to_string(), source)
}

#[test]
fn dedup_keeps_first_of_slash_and_case_variants() {
    let games = vec![
        game("C:/Games/Cyberpunk 2077", InstallSource::Steam),
        game("D:\\Other", InstallSource::Gog),
        game("c:\\games\\CYBERPUNK 2077", InstallSource::CommonPath),
        game("C:\\Games\\Cyberpunk 2077", InstallSource::Epic),
    ];
    let out = dedup_by_normalized_path(games);
    assert_eq!(out.len(), 2);
    assert_eq!(out[0].path, "C:/Games/Cyberpunk 2077");
    assert_eq!(out[0].source, "Steam");
    assert_eq!(out[1].path, "D:\\Other");
}

#[test]
fn dedup_by_given_keys_first_wins() {
    let games = vec![
        game("a", InstallSource::Steam),
        game("b", InstallSource::Gog),
        game("c", InstallSource::Epic),
    ];
    let keys = vec!["k1".to_string(), "k2".to_string(), "k1".to_string()];
    let out = dedup_by_keys(games, &keys);
    assert_eq!(out.len(), 2);
    assert_eq!(out[0].path, "a");
    assert_eq!(out[1].path, "b");
}

#[test]
fn dedup_of_empty_list_is_empty() {
    assert!(dedup_by_normalized_path(Vec::new()).is_empty());
}

#[test]
fn normalized_path_folds_slashes_and_case() {
    assert_eq!(normalized_path("C:/Games/Cyberpunk"), "c:\\games\\cyberpunk");
}

#[test]
fn source_labels() {
    assert_eq!(InstallSource::Steam.label(), "Steam");
    assert_eq!(InstallSource::Gog.label(), "GOG");
    assert_eq!(InstallSource::Epic.label(), "Epic");
    assert_eq!(InstallSource::CommonPath.label(), "Common Path");
}

#[test]
fn merge_keeps_scanner_order_and_drops_later_duplicates() {
    let found = vec![game("E:\\Games\\Cyberpunk 2077", InstallSource::Steam)];
    let common = vec![
        game("e:/games/cyberpunk 2077", InstallSource::CommonPath),
        game("G:\\x", InstallSource::CommonPath),
    ];
    let out = merge_candidates(found, common);
    assert_eq!(out.len(), 2);
    assert_eq!(out[0].source, "Steam");
    assert_eq!(out[1].path, "G:\\x");
}

#[test]
fn detect_game_paths_keeps_platform_results() {
    let found = vec![
        game("X:\\One", InstallSource::Steam),
        game("x:/one", InstallSource::Gog),
    ];
    let out = detect_game_paths(found);
    assert!(out.len() >= 1);
    assert_eq!(out[0].path, "X:\\One");
    assert!(out.iter().all(|g| g.path != "x:/one"));
}

#[test]
fn probe_rejects_missing_root() {
    assert!(!is_valid_cyberpunk_path("/definitely/not/a/real/place"));
    assert!(!is_valid_cyberpunk_path(""));
}

#[test]
fn probe_rejects_root_without_executable() {
    assert!(!is_valid_cyberpunk_path("/"));
}

#[test]
fn common_paths_are_the_conventional_locations() {
    let paths = common_install_paths();
    assert_eq!(paths.len(), 8);
    assert_eq!(paths[0], "C:\\Program Files (x86)\\Steam\\steamapps\\common\\Cyberpunk 2077");
    assert_eq!(paths[7], "G:\\SteamLibrary\\steamapps\\common\\Cyberpunk 2077");
    for g in detect_common_paths() {
        assert_eq!(g.source, "Common Path");
    }
}

#[test]
fn join_inserts_separator_once() {
    assert_eq!(join_path("C:\\Steam", "steamapps", "\\"), "C:\\Steam\\steamapps");
    assert_eq!(join_path("C:\\Steam\\", "steamapps", "\\"), "C:\\Steam\\steamapps");
    assert_eq!(join_path("", "bin", "/"), "bin");
    assert_eq!(installation_marker("/opt/game", "/"), "/opt/game/bin/x64/Cyberpunk2077.exe");
}

#[test]
fn steam_dirs_under_each_library() {
    assert_eq!(steam_game_dir("D:\\Lib"), "D:\\Lib\\steamapps\\common\\Cyberpunk 2077");
    let manifest = "\"libraryfolders\"\n{\n\t\"0\"\n\t{\n\t\t\"path\"\t\t\"C:\\\\Steam\"\n\t}\n\t\"1\"\n\t{\n\t\t\"path\"\t\t\"D:\\\\Lib\"\n\t}\n}\n";
    let dirs = steam_game_dirs("c:\\steam", Some(manifest));
    assert_eq!(dirs.len(), 2);
    assert_eq!(dirs[0], "c:\\steam\\steamapps\\common\\Cyberpunk 2077");
    assert_eq!(dirs[1], "D:\\Lib\\steamapps\\common\\Cyberpunk 2077");
    assert!(detect_steam("/no/such/steam", Some(manifest)).is_empty());
}

#[test]
fn title_match_needs_both_tokens_in_any_case() {
    assert!(is_game_title("CYBERPUNK 2077"));
    assert!(is_game_title("Cyberpunk® 2077: Phantom Liberty"));
    assert!(!is_game_title("Cyberpunk"));
    assert!(!is_game_title("2077"));
    assert!(folded_title_names_game("cyberpunk 2077"));
    assert!(!folded_title_names_game("Cyberpunk 2077"));
}

#[test]
fn uninstall_entries_that_name_the_game() {
    let entries = vec![
        UninstallEntry { display_name: "Some Tool".to_string(), install_location: Some("C:\\Tool".to_string()) },
        UninstallEntry { display_name: "Cyberpunk 2077".to_string(), install_location: None },
        UninstallEntry { display_name: "cyberpunk 2077 GOTY".to_string(), install_location: Some("C:\\GOG\\CP".to_string()) },
    ];
    let locs = gog_install_locations(&entries);
    assert_eq!(locs, vec!["C:\\GOG\\CP".to_string()]);
    assert!(detect_gog(&entries).is_empty());
}

#[test]
fn manifest_location_from_json() {
    let m = "{\"DisplayName\": \"Cyberpunk 2077\", \"InstallLocation\": \"C:\\\\Epic\\\\CP\"}";
    assert_eq!(manifest_install_location(m), Some("C:\\Epic\\CP".to_string()));
    let other = "{\"DisplayName\": \"Other Game\", \"InstallLocation\": \"C:\\\\Epic\\\\X\"}";
    assert_eq!(manifest_install_location(other), None);
    let no_name = "{\"InstallLocation\": \"C:\\\\Epic\\\\X\"}";
    assert_eq!(manifest_install_location(no_name), None);
    assert_eq!(manifest_install_location("{not json"), None);
}

#[test]
fn malformed_manifest_does_not_hide_others() {
    let manifests = vec![
        "{\"DisplayName\": \"Cyberpunk 2077\", \"InstallLocation\": \"A:\\\\one\"}".to_string(),
        "{ this is broken".to_string(),
        "{\"DisplayName\": \"CYBERPUNK 2077\", \"InstallLocation\": \"B:\\\\two\"}".to_string(),
    ];
    let locs = epic_install_locations(&manifests);
    assert_eq!(locs, vec!["A:\\one".to_string(), "B:\\two".to_string()]);
    assert!(detect_epic(&manifests).is_empty());
}

#[test]
fn manifest_file_names() {
    assert!(is_manifest_file_name("ABC123.item"));
    assert!(!is_manifest_file_name(".item"));
    assert!(!is_manifest_file_name("ABC.json"));
}
