use spacewarp_installer::feed::resolve_asset_url;
use spacewarp_installer::paths::{
    default_candidate, exe_path, marker_path, mods_path, pick_install_path,
    steam_candidate, temp_path,
};
use spacewarp_installer::strutil::{contains_str, join, rem_first_and_last, str_eq};
use spacewarp_installer::LoaderKind;

fn feed_body() -> String {
    String::from(
        r#"{
            "name": "latest",
            "assets": [
                {"name": "a", "browser_download_url": "https://example.com/space-warp-release.zip"},
                {"name": "b", "browser_download_url": "https://example.com/space-warp-release.exe"},
                {"name": "c", "browser_download_url": "https://example.com/bepinex.zip"}
            ]
        }"#,
    )
}

#[test]
fn loader_asset_needs_marker_and_format() {
    let url = resolve_asset_url(&LoaderKind::Loader, feed_body().as_str()).unwrap();
    assert_eq!(url, "\"https://example.com/space-warp-release.zip\"");
}

#[test]
fn patcher_asset_uses_combined_marker() {
    let url = resolve_asset_url(&LoaderKind::RuntimePatcher, feed_body().as_str()).unwrap();
    assert_eq!(url, "\"https://example.com/bepinex.zip\"");
}

#[test]
fn last_matching_asset_wins() {
    let body = String::from(
        r#"{"assets": [
            {"browser_download_url": "https://example.com/one/space-warp-release.zip"},
            {"browser_download_url": "https://example.com/two/space-warp-release.zip"}
        ]}"#,
    );
    let url = resolve_asset_url(&LoaderKind::Loader, body.as_str()).unwrap();
    assert_eq!(url, "\"https://example.com/two/space-warp-release.zip\"");
}

#[test]
fn no_matching_asset_selects_empty_sentinel() {
    let body = String::from(
        r#"{"assets": [{"browser_download_url": "https://example.com/readme.txt"}]}"#,
    );
    let url = resolve_asset_url(&LoaderKind::Loader, body.as_str()).unwrap();
    assert_eq!(url, "");
}

#[test]
fn empty_asset_list_selects_empty_sentinel() {
    let body = String::from(r#"{"assets": []}"#);
    assert_eq!(resolve_asset_url(&LoaderKind::Loader, body.as_str()).unwrap(), "");
}

#[test]
fn malformed_document_is_reported() {
    assert!(resolve_asset_url(&LoaderKind::Loader, "not json at all").is_none());
    assert!(resolve_asset_url(&LoaderKind::Loader, r#"{"nothing": 1}"#).is_none());
    assert!(resolve_asset_url(&LoaderKind::Loader, r#"{"assets": 3}"#).is_none());
    let missing_field = r#"{"assets": [{"name": "a"}]}"#;
    assert!(resolve_asset_url(&LoaderKind::Loader, missing_field).is_none());
}

#[test]
fn quote_stripping_reduces_wrapped_url() {
    let raw = "\"https://example.com/a.zip\"";
    assert_eq!(rem_first_and_last(raw), "https://example.com/a.zip");
}

#[test]
fn quote_stripping_short_inputs() {
    assert_eq!(rem_first_and_last(""), "");
    assert_eq!(rem_first_and_last("x"), "");
    assert_eq!(rem_first_and_last("xy"), "");
    assert_eq!(rem_first_and_last("xyz"), "y");
}

#[test]
fn substring_search() {
    assert!(contains_str("https://example.com/space-warp-release.zip", "space-warp-release"));
    assert!(contains_str("abc", ""));
    assert!(contains_str("abc", "abc"));
    assert!(!contains_str("abc", "abcd"));
    assert!(!contains_str("space-warp", "bepinex.zip"));
}

#[test]
fn string_equality() {
    assert!(str_eq("same", "same"));
    assert!(!str_eq("same", "Same"));
    assert!(!str_eq("same", "same "));
}

#[test]
fn path_joining_and_markers() {
    assert_eq!(join("game", "file"), "game/file");
    assert_eq!(exe_path("game"), "game/KSP2_x64.exe");
    assert_eq!(marker_path(&LoaderKind::Loader, "game"), "game/SpaceWarp");
    assert_eq!(marker_path(&LoaderKind::RuntimePatcher, "game"), "game/BepInEx");
    assert_eq!(temp_path(&LoaderKind::Loader, "game"), "game/space_warp_temp.zip");
    assert_eq!(
        temp_path(&LoaderKind::RuntimePatcher, "game"),
        "game/space_warp_bepinex_temp.zip"
    );
    assert_eq!(mods_path("game"), "game/SpaceWarp/Mods");
}

#[test]
fn known_install_locations() {
    assert_eq!(
        steam_candidate("C:/Program Files (x86)"),
        "C:/Program Files (x86)/Steam/steamapps/common/Kerbal Space Program 2"
    );
    assert_eq!(
        default_candidate("C:/Program Files"),
        "C:/Program Files/Private Division/Kerbal Space Program 2"
    );
}

#[test]
fn primary_location_is_preferred() {
    assert_eq!(
        pick_install_path(Some(String::from("a")), Some(String::from("b"))),
        Some(String::from("a"))
    );
    assert_eq!(pick_install_path(None, Some(String::from("b"))), Some(String::from("b")));
    assert_eq!(pick_install_path(Some(String::from("a")), None), Some(String::from("a")));
    assert_eq!(pick_install_path(None, None), None);
}
