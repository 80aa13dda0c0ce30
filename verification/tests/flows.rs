use spacewarp_installer::drive::{run_install, run_uninstall, Vfs, World};
use spacewarp_installer::install::{
    install_code, FatalError, InstallEvent, InstallFlow, InstallOutcome, InstallState,
};
use spacewarp_installer::uninstall::{removal_plan, uninstall_code, UninstallOutcome};
use spacewarp_installer::LoaderKind;

fn loader_feed() -> String {
    String::from(
        r#"{"assets": [
            {"browser_download_url": "https://example.com/space-warp-release.zip"},
            {"browser_download_url": "https://example.com/bepinex.zip"}
        ]}"#,
    )
}

fn loader_archive() -> Vec<String> {
    vec![
        String::from("SpaceWarp"),
        String::from("SpaceWarp/core.dll"),
        String::from("winhttp.dll"),
        String::from("doorstop_config.ini"),
        String::from(".doorstop_version"),
    ]
}

fn good_world() -> World {
    World {
        probed: Some(String::from("game")),
        feed: Some(loader_feed()),
        archive: Some(loader_archive()),
        extract_ok: true,
    }
}

fn valid_target() -> Vfs {
    let mut vfs = Vfs::new();
    vfs.add(String::from("game"));
    vfs.add(String::from("game/KSP2_x64.exe"));
    vfs.add(String::from("game/readme.txt"));
    vfs
}

fn sorted(paths: &[String]) -> Vec<String> {
    let mut v: Vec<String> = paths.to_vec();
    v.sort();
    v
}

#[test]
fn loader_install_succeeds_and_lays_out_tree() {
    let mut vfs = valid_target();
    let (r, warn) = run_install(&mut vfs, LoaderKind::Loader, None, &good_world());
    assert_eq!(r, Ok(InstallOutcome::Success));
    assert!(!warn);
    assert!(vfs.has("game/SpaceWarp"));
    assert!(vfs.has("game/SpaceWarp/core.dll"));
    assert!(vfs.has("game/SpaceWarp/Mods"));
    assert!(vfs.has("game/winhttp.dll"));
    assert!(!vfs.has("game/space_warp_temp.zip"));
}

#[test]
fn repeated_loader_install_is_idempotent() {
    let mut vfs = valid_target();
    let (first, _) = run_install(&mut vfs, LoaderKind::Loader, None, &good_world());
    assert_eq!(first, Ok(InstallOutcome::Success));
    let snapshot = sorted(&vfs.paths);
    let (second, warn) = run_install(&mut vfs, LoaderKind::Loader, None, &good_world());
    assert_eq!(second, Ok(InstallOutcome::AlreadyInstalled));
    assert!(!warn);
    assert_eq!(sorted(&vfs.paths), snapshot);
}

#[test]
fn explicit_path_overrides_probe() {
    let mut vfs = Vfs::new();
    vfs.add(String::from("given/KSP2_x64.exe"));
    let mut world = good_world();
    // the probe would find a directory without the executable; the
    // explicit override is authoritative and wins
    world.probed = Some(String::from("game"));
    world.archive = Some(vec![String::from("SpaceWarp")]);
    let (r, _) = run_install(
        &mut vfs,
        LoaderKind::Loader,
        Some(String::from("given")),
        &world,
    );
    assert_eq!(r, Ok(InstallOutcome::Success));
    assert!(vfs.has("given/SpaceWarp"));
    assert!(!vfs.has("game/SpaceWarp"));
}

#[test]
fn invalid_target_stops_before_any_side_effect() {
    let mut vfs = Vfs::new();
    vfs.add(String::from("elsewhere/KSP2_x64.exe"));
    let snapshot = sorted(&vfs.paths);
    // the world offers no network at all, so any fetch would be a fault;
    // the validity gate decides before one is attempted
    let world = World { probed: None, feed: None, archive: None, extract_ok: true };
    let (r, _) = run_install(
        &mut vfs,
        LoaderKind::Loader,
        Some(String::from("game")),
        &world,
    );
    assert_eq!(r, Ok(InstallOutcome::InvalidTarget));
    assert_eq!(sorted(&vfs.paths), snapshot);
}

#[test]
fn patcher_install_requires_prerequisite() {
    let mut vfs = valid_target();
    let snapshot = sorted(&vfs.paths);
    let world = World {
        probed: Some(String::from("game")),
        feed: None,
        archive: None,
        extract_ok: true,
    };
    let (r, _) = run_install(&mut vfs, LoaderKind::RuntimePatcher, None, &world);
    assert_eq!(r, Ok(InstallOutcome::NotPrerequisiteMet));
    assert_eq!(sorted(&vfs.paths), snapshot);
}

#[test]
fn patcher_install_succeeds_after_loader() {
    let mut vfs = valid_target();
    vfs.add(String::from("game/BepInEx"));
    let world = World {
        probed: Some(String::from("game")),
        feed: Some(loader_feed()),
        archive: Some(vec![
            String::from("BepInEx/plugins/SpaceWarp"),
            String::from("BepInEx/plugins/SpaceWarp/plugin.dll"),
        ]),
        extract_ok: true,
    };
    let (r, _) = run_install(&mut vfs, LoaderKind::RuntimePatcher, None, &world);
    assert_eq!(r, Ok(InstallOutcome::Success));
    assert!(vfs.has("game/BepInEx/plugins/SpaceWarp/plugin.dll"));
    assert!(!vfs.has("game/space_warp_bepinex_temp.zip"));
    // no mods directory for the patcher
    assert!(!vfs.has("game/SpaceWarp/Mods"));
}

#[test]
fn install_then_uninstall_restores_prior_contents() {
    let mut vfs = valid_target();
    let initial = sorted(&vfs.paths);
    let (r, _) = run_install(&mut vfs, LoaderKind::Loader, None, &good_world());
    assert_eq!(r, Ok(InstallOutcome::Success));
    let u = run_uninstall(&mut vfs, LoaderKind::Loader, &Some(String::from("game")));
    assert_eq!(u, UninstallOutcome::Success);
    assert_eq!(sorted(&vfs.paths), initial);
}

#[test]
fn patcher_uninstall_leaves_rest_of_patcher() {
    let mut vfs = valid_target();
    vfs.add(String::from("game/BepInEx"));
    vfs.add(String::from("game/BepInEx/core.dll"));
    vfs.add(String::from("game/BepInEx/plugins/SpaceWarp"));
    vfs.add(String::from("game/BepInEx/plugins/SpaceWarp/plugin.dll"));
    let u = run_uninstall(
        &mut vfs,
        LoaderKind::RuntimePatcher,
        &Some(String::from("game")),
    );
    assert_eq!(u, UninstallOutcome::Success);
    assert!(vfs.has("game/BepInEx"));
    assert!(vfs.has("game/BepInEx/core.dll"));
    assert!(!vfs.has("game/BepInEx/plugins/SpaceWarp"));
    assert!(!vfs.has("game/BepInEx/plugins/SpaceWarp/plugin.dll"));
}

#[test]
fn missing_target_reports_notfound() {
    let mut vfs = Vfs::new();
    let world = World { probed: None, feed: None, archive: None, extract_ok: true };
    let (r, _) = run_install(&mut vfs, LoaderKind::Loader, None, &world);
    assert_eq!(r, Ok(InstallOutcome::NotFound));
    let u = run_uninstall(&mut vfs, LoaderKind::Loader, &None);
    assert_eq!(u, UninstallOutcome::NotFound);
}

#[test]
fn network_failure_is_a_distinct_error() {
    let mut vfs = valid_target();
    let world = World {
        probed: Some(String::from("game")),
        feed: None,
        archive: None,
        extract_ok: true,
    };
    let (r, _) = run_install(&mut vfs, LoaderKind::Loader, None, &world);
    assert_eq!(r, Err(FatalError::NetworkDown));
}

#[test]
fn malformed_feed_is_a_distinct_error() {
    let mut vfs = valid_target();
    let snapshot = sorted(&vfs.paths);
    let world = World {
        probed: Some(String::from("game")),
        feed: Some(String::from("not json")),
        archive: Some(loader_archive()),
        extract_ok: true,
    };
    let (r, _) = run_install(&mut vfs, LoaderKind::Loader, None, &world);
    assert_eq!(r, Err(FatalError::MalformedFeed));
    assert_eq!(sorted(&vfs.paths), snapshot);
}

#[test]
fn no_matching_asset_is_detected_before_download() {
    let mut vfs = valid_target();
    let world = World {
        probed: Some(String::from("game")),
        feed: Some(String::from(
            r#"{"assets": [{"browser_download_url": "https://example.com/readme.txt"}]}"#,
        )),
        archive: Some(loader_archive()),
        extract_ok: true,
    };
    let (r, _) = run_install(&mut vfs, LoaderKind::Loader, None, &world);
    assert_eq!(r, Err(FatalError::NoMatchingAsset));
    assert!(!vfs.has("game/space_warp_temp.zip"));
}

#[test]
fn failed_download_is_a_distinct_error() {
    let mut vfs = valid_target();
    let world = World {
        probed: Some(String::from("game")),
        feed: Some(loader_feed()),
        archive: None,
        extract_ok: true,
    };
    let (r, _) = run_install(&mut vfs, LoaderKind::Loader, None, &world);
    assert_eq!(r, Err(FatalError::DownloadFailed));
}

#[test]
fn swallowed_extraction_failure_is_surfaced_as_warning() {
    let mut vfs = valid_target();
    let mut world = good_world();
    world.extract_ok = false;
    let (r, warn) = run_install(&mut vfs, LoaderKind::Loader, None, &world);
    assert_eq!(r, Ok(InstallOutcome::Success));
    assert!(warn);
    assert!(!vfs.has("game/SpaceWarp/core.dll"));
    assert!(!vfs.has("game/space_warp_temp.zip"));
}

#[test]
fn machine_resolves_and_strips_download_url() {
    let flow = InstallFlow::start(LoaderKind::Loader, Some(String::from("game")));
    let flow = flow.step(InstallEvent::Gated { has_exe: true, has_marker: false });
    let flow = flow.step(InstallEvent::FeedArrived { body: Some(loader_feed()) });
    match &flow.state {
        InstallState::Download { target, url } => {
            assert_eq!(target, "game");
            assert_eq!(url, "https://example.com/space-warp-release.zip");
        }
        _ => panic!("expected a pending download"),
    }
    let flow = flow.step(InstallEvent::Saved { ok: true });
    let flow = flow.step(InstallEvent::Extracted { ok: true });
    let flow = flow.step(InstallEvent::Cleaned { ok: true });
    let flow = flow.step(InstallEvent::Finalized { ok: true });
    assert!(flow.is_done());
    match &flow.state {
        InstallState::Done { result } => assert_eq!(*result, Ok(InstallOutcome::Success)),
        _ => panic!("expected the flow to be finished"),
    }
}

#[test]
fn machine_reports_failed_cleanup() {
    let flow = InstallFlow::start(LoaderKind::RuntimePatcher, Some(String::from("game")));
    let flow = flow.step(InstallEvent::Gated { has_exe: true, has_marker: true });
    let flow = flow.step(InstallEvent::FeedArrived { body: Some(loader_feed()) });
    let flow = flow.step(InstallEvent::Saved { ok: true });
    let flow = flow.step(InstallEvent::Extracted { ok: true });
    let flow = flow.step(InstallEvent::Cleaned { ok: false });
    match &flow.state {
        InstallState::Done { result } => {
            assert_eq!(*result, Err(FatalError::FilesystemFailed))
        }
        _ => panic!("expected the flow to be finished"),
    }
}

#[test]
fn removal_plans_match_the_layout() {
    let plan = removal_plan(&LoaderKind::Loader, "game");
    let got: Vec<(String, bool)> =
        plan.into_iter().map(|r| (r.path, r.is_tree)).collect();
    assert_eq!(
        got,
        vec![
            (String::from("game/SpaceWarp"), true),
            (String::from("game/winhttp.dll"), false),
            (String::from("game/doorstop_config.ini"), false),
            (String::from("game/.doorstop_version"), false),
        ]
    );
    let plan = removal_plan(&LoaderKind::RuntimePatcher, "game");
    let got: Vec<(String, bool)> =
        plan.into_iter().map(|r| (r.path, r.is_tree)).collect();
    assert_eq!(got, vec![(String::from("game/BepInEx/plugins/SpaceWarp"), true)]);
}

#[test]
fn wire_status_strings_are_exact() {
    assert_eq!(install_code(&Ok(InstallOutcome::NotFound)), "notfound");
    assert_eq!(install_code(&Ok(InstallOutcome::InvalidTarget)), "not-valid");
    assert_eq!(install_code(&Ok(InstallOutcome::AlreadyInstalled)), "exists");
    assert_eq!(install_code(&Ok(InstallOutcome::NotPrerequisiteMet)), "notbep");
    assert_eq!(install_code(&Ok(InstallOutcome::Success)), "Success");
    assert_eq!(install_code(&Err(FatalError::NetworkDown)), "failed to get response");
    assert_eq!(
        install_code(&Err(FatalError::MalformedFeed)),
        "JSON was not well-formatted"
    );
    assert_eq!(
        install_code(&Err(FatalError::NoMatchingAsset)),
        "no release asset matched"
    );
    assert_eq!(install_code(&Err(FatalError::DownloadFailed)), "request failed");
    assert_eq!(
        install_code(&Err(FatalError::FilesystemFailed)),
        "failed to update files"
    );
    assert_eq!(
        uninstall_code(&UninstallOutcome::NotFound),
        "KSP2 path not found\nGo delete it yourself :3"
    );
    assert_eq!(uninstall_code(&UninstallOutcome::Success), "Success");
}
